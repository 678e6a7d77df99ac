//! Bookkeeping of the transaction generator: a slice of pre-funded accounts
//! served in round-robin order, a per-account nonce cache that only moves on
//! when a transaction is acknowledged, per-account transaction counts capped
//! by `max_txs_per_account`, accounts excluded for good, and the weighted
//! choice of what to send next.
use vstd::prelude::*;
use crate::config::{
    bucket_of, lemma_bucket_of_in_range, weight_sum, Erc20FnWeights, Erc20Function, GuzzlerFnWeights,
    GuzzlerFunction, TxType, TxTypeMix,
};
use crate::random::random_in_range;
use std::collections::HashSet;
use vstd::std_specs::iter::IteratorSpec;

verus! {

/// Position of account `j` after the cursor `c` in the cyclic order of `n`
/// accounts that starts at `c`.
pub open spec fn cyclic_offset(c: int, j: int, n: int) -> int {
    if j >= c { j - c } else { j + n - c }
}

/// Why a transaction could not be planned.
#[derive(PartialEq, Eq, Structural, Clone, Copy, Debug)]
pub enum GeneratorError {
    /// The transaction-type weights add up to more than `u32::MAX`.
    TxMixOverflow,
    /// All transaction-type weights are zero.
    TxMixEmpty,
    /// A guzzler call was chosen but all guzzler function weights are zero.
    GuzzlerWeightsEmpty,
    /// An ERC-20 call was chosen but all ERC-20 function weights are zero.
    Erc20WeightsEmpty,
    /// Guzzler calls are in the mix but no node has the guzzler contract.
    GuzzlerNotDeployed,
    /// ERC-20 calls are in the mix but no node has the test token.
    TestTokenNotDeployed,
}

/// Recipient of an ERC-20 call.
#[derive(Clone, Copy, Debug)]
pub enum Erc20Recipient {
    /// The account of the slice with this index.
    Account(usize),
    /// A fixed address.
    Fixed([u8; 20]),
}

/// Recipient of ERC-20 calls from a generator with a single account, so that
/// it does not transfer to itself: the address ending in `0xEC20`.
pub const SINGLE_ACCOUNT_ERC20_RECIPIENT: [u8; 20] = [
    0u8, 0u8, 0u8, 0u8, 0u8, 0u8, 0u8, 0u8, 0u8, 0u8,
    0u8, 0u8, 0u8, 0u8, 0u8, 0u8, 0u8, 0u8, 0xECu8, 0x20u8,
];

/// What the generator decided to send next; the nonce, gas and signature
/// are settled afterwards.
#[derive(Debug)]
pub struct TxPlan {
    /// Index of the sending account within the slice.
    pub account_index: usize,
    pub tx_type: TxType,
    /// For a guzzler call: the function and its configured argument.
    pub guzzler: Option<(GuzzlerFunction, u64)>,
    /// For an ERC-20 call: the function.
    pub erc20_function: Option<Erc20Function>,
    /// For an ERC-20 call: the recipient.
    pub erc20_recipient: Option<Erc20Recipient>,
}

/// `t` is what a draw below the total weight can pick from `mix`.
pub open spec fn tx_type_drawn(mix: TxTypeMix, t: TxType) -> bool {
    exists|pick: int| 0 <= pick < weight_sum(mix.spec_weights()) && t == mix.spec_kind_for_pick(pick)
}

/// `f` is what a draw below the total weight can pick from `w`.
pub open spec fn erc20_function_drawn(w: Erc20FnWeights, f: Erc20Function) -> bool {
    exists|pick: int| 0 <= pick < weight_sum(w.spec_weights()) && f == w.spec_function_for_pick(pick)
}

/// `f` is what a draw below the total weight can pick from `w`.
pub open spec fn guzzler_function_drawn(w: GuzzlerFnWeights, f: GuzzlerFunction) -> bool {
    exists|pick: int| 0 <= pick < weight_sum(w.spec_weights()) && f == w.spec_function_for_pick(pick)
}

/// A drawn kind always has positive weight.
pub proof fn lemma_drawn_tx_type_has_weight(mix: TxTypeMix, t: TxType)
    requires
        tx_type_drawn(mix, t),
    ensures
        mix.weight_of(t) > 0,
{
    let pick = choose|pick: int| 0 <= pick < weight_sum(mix.spec_weights()) && t == mix.spec_kind_for_pick(pick);
    lemma_bucket_of_in_range(mix.spec_weights(), pick);
}

/// A drawn ERC-20 function always has positive weight.
pub proof fn lemma_drawn_erc20_function_has_weight(w: Erc20FnWeights, f: Erc20Function)
    requires
        erc20_function_drawn(w, f),
    ensures
        w.weight_of(f) > 0,
{
    let pick = choose|pick: int| 0 <= pick < weight_sum(w.spec_weights()) && f == w.spec_function_for_pick(pick);
    lemma_bucket_of_in_range(w.spec_weights(), pick);
}

/// A drawn guzzler function always has positive weight.
pub proof fn lemma_drawn_guzzler_function_has_weight(w: GuzzlerFnWeights, f: GuzzlerFunction)
    requires
        guzzler_function_drawn(w, f),
    ensures
        w.weight_of(f) > 0,
{
    let pick = choose|pick: int| 0 <= pick < weight_sum(w.spec_weights()) && f == w.spec_function_for_pick(pick);
    lemma_bucket_of_in_range(w.spec_weights(), pick);
}

/// The draws exclude nothing they should offer: with a valid mix, a kind is
/// drawable exactly when its weight is positive, and likewise for the ERC-20
/// and guzzler functions.
pub proof fn lemma_drawable_exactly_the_weighted(
    mix: TxTypeMix,
    t: TxType,
    ew: Erc20FnWeights,
    e: Erc20Function,
    gw: GuzzlerFnWeights,
    g: GuzzlerFunction,
)
    ensures
        tx_type_drawn(mix, t) <==> mix.weight_of(t) > 0,
        erc20_function_drawn(ew, e) <==> ew.weight_of(e) > 0,
        guzzler_function_drawn(gw, g) <==> gw.weight_of(g) > 0,
{
    if mix.weight_of(t) > 0 {
        mix.lemma_weighted_kind_reachable(t);
    }
    if tx_type_drawn(mix, t) {
        lemma_drawn_tx_type_has_weight(mix, t);
    }
    if ew.weight_of(e) > 0 {
        ew.lemma_weighted_function_reachable(e);
    }
    if erc20_function_drawn(ew, e) {
        lemma_drawn_erc20_function_has_weight(ew, e);
    }
    if gw.weight_of(g) > 0 {
        gw.lemma_weighted_function_reachable(g);
    }
    if guzzler_function_drawn(gw, g) {
        lemma_drawn_guzzler_function_has_weight(gw, g);
    }
}

/// Draws a transaction kind with probability proportional to its weight.
pub fn select_tx_type(mix: &TxTypeMix) -> (r: Result<TxType, GeneratorError>)
    ensures
        weight_sum(mix.spec_weights()) > u32::MAX ==> r == Err::<TxType, GeneratorError>(GeneratorError::TxMixOverflow),
        weight_sum(mix.spec_weights()) == 0 ==> r == Err::<TxType, GeneratorError>(GeneratorError::TxMixEmpty),
        0 < weight_sum(mix.spec_weights()) <= u32::MAX ==> (r matches Ok(t) && tx_type_drawn(*mix, t)),
{
    let total = match mix.checked_total_weight() {
        Some(t) => t,
        None => return Err(GeneratorError::TxMixOverflow),
    };
    if total == 0 {
        return Err(GeneratorError::TxMixEmpty);
    }
    let pick = random_in_range(0, total as u64);
    Ok(mix.kind_for_pick(pick))
}

/// Draws an ERC-20 function with probability proportional to its weight.
pub fn select_erc20_function(w: &Erc20FnWeights) -> (r: Result<Erc20Function, GeneratorError>)
    ensures
        weight_sum(w.spec_weights()) == 0 ==> r == Err::<Erc20Function, GeneratorError>(GeneratorError::Erc20WeightsEmpty),
        weight_sum(w.spec_weights()) > 0 ==> (r matches Ok(f) && erc20_function_drawn(*w, f)),
{
    let total = w.total_weight();
    if total == 0 {
        return Err(GeneratorError::Erc20WeightsEmpty);
    }
    let pick = random_in_range(0, total);
    Ok(w.function_for_pick(pick))
}

/// Draws a guzzler function with probability proportional to its weight.
pub fn select_guzzler_function(w: &GuzzlerFnWeights) -> (r: Result<GuzzlerFunction, GeneratorError>)
    ensures
        weight_sum(w.spec_weights()) == 0 ==> r == Err::<GuzzlerFunction, GeneratorError>(GeneratorError::GuzzlerWeightsEmpty),
        weight_sum(w.spec_weights()) > 0 ==> (r matches Ok(f) && guzzler_function_drawn(*w, f)),
{
    let total = w.total_weight();
    if total == 0 {
        return Err(GeneratorError::GuzzlerWeightsEmpty);
    }
    let pick = random_in_range(0, total);
    Ok(w.function_for_pick(pick))
}

/// Recipient of an ERC-20 call from account `i` of `n`: the next account in
/// round-robin order, or a fixed address when the slice has one account.
pub open spec fn erc20_recipient_for(i: int, n: int) -> Erc20Recipient {
    if n > 1 {
        Erc20Recipient::Account(((i + 1) % n) as usize)
    } else {
        Erc20Recipient::Fixed(SINGLE_ACCOUNT_ERC20_RECIPIENT)
    }
}

/// An ERC-20 call never goes back to its sender: with more than one
/// account the recipient is the next account of the slice in round-robin
/// order (the first after the last), and a single account sends to the fixed
/// address ending in `0xEC20` instead.
pub proof fn lemma_erc20_recipient_is_not_sender(i: usize, n: usize)
    requires
        i < n,
    ensures
        n > 1 ==> (erc20_recipient_for(i as int, n as int) matches Erc20Recipient::Account(r) && r != i && r < n),
        n > 1 && i + 1 < n ==> erc20_recipient_for(i as int, n as int) == Erc20Recipient::Account((i + 1) as usize),
        n > 1 && i + 1 == n ==> erc20_recipient_for(i as int, n as int) == Erc20Recipient::Account(0),
        n == 1 ==> erc20_recipient_for(i as int, n as int) == Erc20Recipient::Fixed(SINGLE_ACCOUNT_ERC20_RECIPIENT),
        SINGLE_ACCOUNT_ERC20_RECIPIENT@ == crate::abi::zero_bytes(18) + seq![0xECu8, 0x20u8],
{
    assert(SINGLE_ACCOUNT_ERC20_RECIPIENT@ =~= crate::abi::zero_bytes(18) + seq![0xECu8, 0x20u8]);
    if n > 1 {
        if i + 1 < n {
            vstd::arithmetic::div_mod::lemma_small_mod((i + 1) as nat, n as nat);
        } else {
            vstd::arithmetic::div_mod::lemma_mod_self_0(n as int);
        }
    }
}

/// Moving `t` steps (at most one round) from `c` among `n` positions.
proof fn lemma_cyclic_step(c: int, t: int, n: int)
    requires
        0 <= c < n,
        0 <= t <= n,
    ensures
        (c + t) % n == if c + t < n { c + t } else { c + t - n },
{
    if c + t < n {
        vstd::arithmetic::div_mod::lemma_small_mod((c + t) as nat, n as nat);
    } else {
        vstd::arithmetic::div_mod::lemma_small_mod((c + t - n) as nat, n as nat);
        vstd::arithmetic::div_mod::lemma_mod_add_multiples_vanish(c + t - n, n);
    }
}

/// A node answer for a nonce, or 0 when every node failed.
pub open spec fn queried_nonce_or_zero_spec(answer: Option<u64>) -> u64 {
    match answer {
        Some(n) => n,
        None => 0,
    }
}

/// Starting nonce of an account set up with `query_latest_nonce` and the
/// nodes' `answer`: the answer (or 0 when they all failed) when querying,
/// else 0.
pub open spec fn initial_nonce(query_latest_nonce: bool, answer: Option<u64>) -> u64 {
    if query_latest_nonce { queried_nonce_or_zero_spec(answer) } else { 0 }
}

/// An account set up while querying starts at the nodes' answer, or at 0
/// when they all failed; one set up without querying starts at 0 whatever
/// the answer.
pub proof fn lemma_initial_nonce(answer: Option<u64>)
    ensures
        answer matches Some(n) ==> initial_nonce(true, answer) == n,
        answer is None ==> initial_nonce(true, answer) == 0,
        initial_nonce(false, answer) == 0,
        answer matches Some(n) ==> queried_nonce_or_zero_spec(answer) == n,
        answer is None ==> queried_nonce_or_zero_spec(answer) == 0,
{
}

/// The node answer for a nonce, or 0 when every node failed.
pub fn queried_nonce_or_zero(answer: Option<u64>) -> (n: u64)
    ensures
        n == queried_nonce_or_zero_spec(answer),
{
    match answer {
        Some(n) => n,
        None => 0,
    }
}

/// Generates transactions from a contiguous slice of accounts; `S` is the
/// signing key kept for each account once derived.
pub struct TxGenerator<S> {
    id: usize,
    signers: Vec<Option<S>>,
    range_start: usize,
    range_end: usize,
    next_nonces: Vec<Option<u64>>,
    max_txs_per_account: u64,
    query_latest_nonce: bool,
    tx_input_size: usize,
    guzzler_fn_weights: GuzzlerFnWeights,
    erc20_fn_weights: Erc20FnWeights,
    tx_type_mix: TxTypeMix,
    guzzler_verified: bool,
    test_token_verified: bool,
    tx_counts: Vec<u64>,
    next_account_index: usize,
    query_nonces_on_init: bool,
    skipped_accounts: HashSet<usize>,
    erc20_gas_cache: [Option<u64>; 3],
    guzzler_gas_cache: [Option<u64>; 5],
}

/// Number of accounts in `start..end` (none when `end <= start`).
pub open spec fn range_len(start: usize, end: usize) -> nat {
    if start < end { (end - start) as nat } else { 0 }
}

impl<S> TxGenerator<S> {
    /// Well-formedness: one nonce and one count per account, signer slots
    /// either unsized or one per account, the cursor inside the slice, a
    /// transfer gas limit that fits.
    pub closed spec fn wf(self) -> bool {
        let n = range_len(self.range_start, self.range_end);
        &&& self.next_nonces@.len() == n
        &&& self.tx_counts@.len() == n
        &&& (self.signers@.len() == 0 || self.signers@.len() == n)
        &&& (self.next_account_index == 0 || self.next_account_index < n)
        &&& crate::tx::input_size_fits(self.tx_input_size as nat)
    }

    /// Identifier of the generator.
    pub closed spec fn spec_id(self) -> usize {
        self.id
    }

    /// First account index of the slice.
    pub closed spec fn spec_range_start(self) -> usize {
        self.range_start
    }

    /// End (exclusive) of the slice.
    pub closed spec fn spec_range_end(self) -> usize {
        self.range_end
    }

    /// Number of accounts of the slice.
    pub open spec fn spec_range_len(self) -> nat {
        range_len(self.spec_range_start(), self.spec_range_end())
    }

    /// Signer slots: empty until sized, then one per account.
    pub closed spec fn spec_signers(self) -> Seq<Option<S>> {
        self.signers@
    }

    /// Accounts served in round robin: one per signer slot.
    pub open spec fn spec_num_accounts(self) -> nat {
        self.spec_signers().len()
    }

    /// Cached next nonce of each account (`None` until known).
    pub closed spec fn spec_next_nonces(self) -> Seq<Option<u64>> {
        self.next_nonces@
    }

    /// Acknowledged transactions of each account.
    pub closed spec fn spec_tx_counts(self) -> Seq<u64> {
        self.tx_counts@
    }

    /// Round-robin cursor: the account tried first by the next selection.
    pub closed spec fn spec_cursor(self) -> usize {
        self.next_account_index
    }

    /// Accounts excluded for good.
    pub closed spec fn spec_skipped(self) -> Set<usize> {
        self.skipped_accounts@
    }

    /// Per-account cap on transactions; 0 means unlimited.
    pub closed spec fn spec_max_txs_per_account(self) -> u64 {
        self.max_txs_per_account
    }

    /// Whether an unknown nonce is asked from the nodes (else it starts at 0).
    pub closed spec fn spec_query_latest_nonce(self) -> bool {
        self.query_latest_nonce
    }

    /// Zero bytes of input carried by every transfer.
    pub closed spec fn spec_tx_input_size(self) -> usize {
        self.tx_input_size
    }

    pub closed spec fn spec_tx_type_mix(self) -> TxTypeMix {
        self.tx_type_mix
    }

    pub closed spec fn spec_erc20_fn_weights(self) -> Erc20FnWeights {
        self.erc20_fn_weights
    }

    pub closed spec fn spec_guzzler_fn_weights(self) -> GuzzlerFnWeights {
        self.guzzler_fn_weights
    }

    pub closed spec fn spec_guzzler_verified(self) -> bool {
        self.guzzler_verified
    }

    pub closed spec fn spec_test_token_verified(self) -> bool {
        self.test_token_verified
    }

    pub closed spec fn spec_query_nonces_on_init(self) -> bool {
        self.query_nonces_on_init
    }

    /// Whether account `i` may be served: not excluded and, with a cap, below
    /// it.
    pub open spec fn eligible(self, i: int) -> bool {
        &&& !self.spec_skipped().contains(i as usize)
        &&& !(self.spec_max_txs_per_account() > 0 && self.spec_tx_counts()[i] >= self.spec_max_txs_per_account())
    }

    /// The configuration is as in `other`: identity, account slice, cap,
    /// nonce querying, input size and the weights of the mix.
    pub open spec fn same_config(self, other: Self) -> bool {
        &&& self.spec_id() == other.spec_id()
        &&& self.spec_range_start() == other.spec_range_start()
        &&& self.spec_range_end() == other.spec_range_end()
        &&& self.spec_max_txs_per_account() == other.spec_max_txs_per_account()
        &&& self.spec_query_latest_nonce() == other.spec_query_latest_nonce()
        &&& self.spec_tx_input_size() == other.spec_tx_input_size()
        &&& self.spec_tx_type_mix() == other.spec_tx_type_mix()
        &&& self.spec_erc20_fn_weights() == other.spec_erc20_fn_weights()
        &&& self.spec_guzzler_fn_weights() == other.spec_guzzler_fn_weights()
    }

    /// The contract checks, the pending nonce query and the gas caches are
    /// as in `other`.
    pub open spec fn same_setup(self, other: Self) -> bool {
        &&& self.spec_guzzler_verified() == other.spec_guzzler_verified()
        &&& self.spec_test_token_verified() == other.spec_test_token_verified()
        &&& self.spec_query_nonces_on_init() == other.spec_query_nonces_on_init()
        &&& self.spec_erc20_gas_cache() == other.spec_erc20_gas_cache()
        &&& self.spec_guzzler_gas_cache() == other.spec_guzzler_gas_cache()
    }

    /// The progress is as in `other`: cached nonces, counts, cursor and
    /// excluded accounts.
    pub open spec fn same_progress(self, other: Self) -> bool {
        &&& self.spec_next_nonces() == other.spec_next_nonces()
        &&& self.spec_tx_counts() == other.spec_tx_counts()
        &&& self.spec_cursor() == other.spec_cursor()
        &&& self.spec_skipped() == other.spec_skipped()
    }

    /// Everything but the signers is as in `other`.
    pub open spec fn same_except_signers(self, other: Self) -> bool {
        &&& self.same_config(other)
        &&& self.same_setup(other)
        &&& self.same_progress(other)
    }

    /// Everything but the round-robin cursor is as in `other`.
    pub open spec fn same_except_cursor(self, other: Self) -> bool {
        &&& self.same_config(other)
        &&& self.same_setup(other)
        &&& self.spec_signers() == other.spec_signers()
        &&& self.spec_next_nonces() == other.spec_next_nonces()
        &&& self.spec_tx_counts() == other.spec_tx_counts()
        &&& self.spec_skipped() == other.spec_skipped()
    }

    /// One round-robin selection from `self` yields `r` and leaves `next`:
    /// starting at the cursor, `r` is the first eligible account in cyclic
    /// order; the cursor ends just after it, or where it was when no account
    /// is eligible; nothing else changes.
    pub open spec fn round_robin_step(self, next: Self, r: Option<usize>) -> bool {
        let n = self.spec_num_accounts() as int;
        let c = self.spec_cursor() as int;
        &&& next.same_except_cursor(self)
        &&& n == 0 ==> r is None && next.spec_cursor() == self.spec_cursor()
        &&& r matches Some(i) ==> {
            &&& i < n
            &&& self.eligible(i as int)
            &&& forall|j: int| 0 <= j < n && cyclic_offset(c, j, n) < cyclic_offset(c, i as int, n)
                ==> !self.eligible(j)
            &&& next.spec_cursor() == (i + 1) % n
        }
        &&& r is None ==> {
            &&& forall|j: int| 0 <= j < n ==> !self.eligible(j)
            &&& next.spec_cursor() == self.spec_cursor()
        }
    }

    /// A generator for accounts `start..end`, with no key derived, no nonce
    /// known and nothing sent yet.
    pub fn new(
        id: usize,
        signers_range: std::ops::Range<usize>,
        max_txs_per_account: u64,
        query_latest_nonce: bool,
        tx_input_size: usize,
        guzzler_fn_weights: GuzzlerFnWeights,
        erc20_fn_weights: Erc20FnWeights,
        tx_type_mix: TxTypeMix,
    ) -> (g: Self)
        requires
            crate::tx::input_size_fits(tx_input_size as nat),
        ensures
            g.wf(),
            g.spec_id() == id,
            g.spec_range_start() == signers_range.start,
            g.spec_range_end() == signers_range.end,
            g.spec_num_accounts() == g.spec_range_len(),
            forall|i: int| 0 <= i < g.spec_num_accounts() ==> g.spec_signers()[i] is None,
            g.spec_next_nonces() == Seq::new(g.spec_range_len(), |i: int| None::<u64>),
            g.spec_tx_counts() == Seq::new(g.spec_range_len(), |i: int| 0u64),
            g.spec_cursor() == 0,
            g.spec_skipped() == Set::<usize>::empty(),
            g.spec_max_txs_per_account() == max_txs_per_account,
            g.spec_query_latest_nonce() == query_latest_nonce,
            g.spec_tx_input_size() == tx_input_size,
            g.spec_tx_type_mix() == tx_type_mix,
            g.spec_erc20_fn_weights() == erc20_fn_weights,
            g.spec_guzzler_fn_weights() == guzzler_fn_weights,
            !g.spec_guzzler_verified(),
            !g.spec_test_token_verified(),
            !g.spec_query_nonces_on_init(),
            g.spec_erc20_gas_cache() == seq![None::<u64>, None, None],
            g.spec_guzzler_gas_cache() == seq![None::<u64>, None, None, None, None],
    {
        let start = signers_range.start;
        let end = signers_range.end;
        let size: usize = if start < end { end - start } else { 0 };
        let mut signers: Vec<Option<S>> = Vec::new();
        let mut next_nonces: Vec<Option<u64>> = Vec::new();
        let mut tx_counts: Vec<u64> = Vec::new();
        let mut i: usize = 0;
        while i < size
            invariant
                0 <= i <= size,
                signers@.len() == i,
                forall|k: int| 0 <= k < i ==> signers@[k] is None,
                next_nonces@ == Seq::new(i as nat, |k: int| None::<u64>),
                tx_counts@ == Seq::new(i as nat, |k: int| 0u64),
            decreases size - i,
        {
            signers.push(None);
            next_nonces.push(None);
            tx_counts.push(0);
            i = i + 1;
        }
        let g = TxGenerator {
            id,
            signers,
            range_start: start,
            range_end: end,
            next_nonces,
            max_txs_per_account,
            query_latest_nonce,
            tx_input_size,
            guzzler_fn_weights,
            erc20_fn_weights,
            tx_type_mix,
            guzzler_verified: false,
            test_token_verified: false,
            tx_counts,
            next_account_index: 0,
            query_nonces_on_init: false,
            skipped_accounts: HashSet::new(),
            erc20_gas_cache: [None, None, None],
            guzzler_gas_cache: [None, None, None, None, None],
        };
        proof {
            assert(g.erc20_gas_cache@ =~= seq![None::<u64>, None, None]);
            assert(g.guzzler_gas_cache@ =~= seq![None::<u64>, None, None, None, None]);
        }
        g
    }

    /// Whether account `i` is excluded.
    fn is_skipped(&self, i: usize) -> (b: bool)
        ensures
            b == self.spec_skipped().contains(i),
    {
        broadcast use vstd::std_specs::hash::group_hash_axioms;
        self.skipped_accounts.contains(&i)
    }

    /// Picks the next account in round-robin order: starting at the cursor,
    /// the first account that is neither excluded nor at its cap. The cursor
    /// moves one past every account tried, so it ends just after the chosen
    /// account, or back where it started when no account is eligible.
    pub fn next_account(&mut self) -> (r: Option<usize>)
        requires
            old(self).wf(),
        ensures
            final(self).wf(),
            old(self).round_robin_step(*final(self), r),
    {
        let num_accounts = self.signers.len();
        let ghost c = self.next_account_index as int;
        let ghost n = num_accounts as int;
        let mut tried: usize = 0;
        proof {
            if n > 0 {
                lemma_cyclic_step(c, 0, n);
            }
        }
        while tried < num_accounts
            invariant
                n == num_accounts,
                num_accounts == self.signers@.len(),
                num_accounts == old(self).spec_num_accounts(),
                self.same_except_cursor(*old(self)),
                c == old(self).spec_cursor(),
                0 <= c,
                n > 0 ==> c < n,
                0 <= tried <= num_accounts,
                n > 0 ==> self.next_account_index == (c + tried) % n,
                n > 0 ==> self.next_account_index < n,
                n == 0 ==> self.next_account_index == c,
                self.wf(),
                forall|j: int| 0 <= j < n && cyclic_offset(c, j, n) < tried ==> !old(self).eligible(j),
            decreases num_accounts - tried,
        {
            let i = self.next_account_index % num_accounts;
            self.next_account_index = (self.next_account_index + 1) % num_accounts;
            tried = tried + 1;
            proof {
                lemma_cyclic_step(c, tried - 1, n);
                lemma_cyclic_step(c, tried as int, n);
                let prev = (c + tried - 1) % n;
                vstd::arithmetic::div_mod::lemma_small_mod(prev as nat, n as nat);
                lemma_cyclic_step(prev, 1, n);
                assert(i == prev);
                assert(cyclic_offset(c, i as int, n) == tried - 1);
                assert(self.next_account_index == (c + tried) % n);
            }
            if self.is_skipped(i) {
                proof {
                    assert forall|j: int| 0 <= j < n && cyclic_offset(c, j, n) < tried implies !old(self).eligible(j) by {
                        if cyclic_offset(c, j, n) == tried - 1 {
                            assert(j == i);
                        }
                    }
                }
                continue;
            }
            if self.max_txs_per_account > 0 && self.tx_counts[i] >= self.max_txs_per_account {
                proof {
                    assert forall|j: int| 0 <= j < n && cyclic_offset(c, j, n) < tried implies !old(self).eligible(j) by {
                        if cyclic_offset(c, j, n) == tried - 1 {
                            assert(j == i);
                        }
                    }
                }
                continue;
            }
            proof {
                let prev = (c + tried - 1) % n;
                lemma_cyclic_step(prev, 1, n);
            }
            return Some(i);
        }
        proof {
            if n > 0 {
                lemma_cyclic_step(c, n, n);
            }
        }
        None
    }

    /// Plans the next transaction: picks the sending account in round-robin
    /// order (as `next_account`), then draws the transaction kind and, for a
    /// contract call, the function; an ERC-20 call goes to the next account
    /// of the slice (or a fixed address when there is only one). `Ok(None)`
    /// when every account is excluded or at its cap. A weight error comes
    /// after the cursor has moved past the chosen account.
    pub fn plan_next_tx(&mut self) -> (r: Result<Option<TxPlan>, GeneratorError>)
        requires
            old(self).wf(),
        ensures
            final(self).wf(),
            r matches Ok(None) ==> old(self).round_robin_step(*final(self), None),
            r matches Ok(Some(p)) ==> {
                let n = old(self).spec_num_accounts() as int;
                &&& old(self).round_robin_step(*final(self), Some(p.account_index))
                &&& tx_type_drawn(old(self).spec_tx_type_mix(), p.tx_type)
                &&& (p.tx_type == TxType::Guzzler) == (p.guzzler is Some)
                &&& p.guzzler matches Some(g) ==> guzzler_function_drawn(old(self).spec_guzzler_fn_weights(), g.0)
                    && g.1 == old(self).spec_guzzler_fn_weights().spec_arg_for(g.0)
                &&& (p.tx_type == TxType::Erc20) == (p.erc20_function is Some)
                &&& p.erc20_function matches Some(f) ==> erc20_function_drawn(old(self).spec_erc20_fn_weights(), f)
                &&& (p.tx_type == TxType::Erc20) == (p.erc20_recipient is Some)
                &&& p.erc20_recipient matches Some(rcpt) ==> rcpt == erc20_recipient_for(p.account_index as int, n)
            },
            r matches Err(e) ==> {
                let mix = old(self).spec_tx_type_mix();
                &&& exists|i: usize| old(self).round_robin_step(*final(self), Some(i))
                &&& e == GeneratorError::TxMixOverflow <==> weight_sum(mix.spec_weights()) > u32::MAX
                &&& e == GeneratorError::TxMixEmpty <==> weight_sum(mix.spec_weights()) == 0
                &&& e == GeneratorError::GuzzlerWeightsEmpty ==> mix.guzzler > 0
                    && weight_sum(old(self).spec_guzzler_fn_weights().spec_weights()) == 0
                &&& e == GeneratorError::Erc20WeightsEmpty ==> mix.erc20 > 0
                    && weight_sum(old(self).spec_erc20_fn_weights().spec_weights()) == 0
                &&& e != GeneratorError::GuzzlerNotDeployed && e != GeneratorError::TestTokenNotDeployed
            },
            (exists|i: usize| old(self).round_robin_step(*final(self), Some(i)))
                && 0 < weight_sum(old(self).spec_tx_type_mix().spec_weights()) <= u32::MAX
                && (old(self).spec_tx_type_mix().guzzler == 0
                    || weight_sum(old(self).spec_guzzler_fn_weights().spec_weights()) > 0)
                && (old(self).spec_tx_type_mix().erc20 == 0
                    || weight_sum(old(self).spec_erc20_fn_weights().spec_weights()) > 0)
                ==> r matches Ok(Some(_)),
    {
        let ghost g0 = *self;
        let i = match self.next_account() {
            None => {
                proof {
                    assert forall|k: usize| !g0.round_robin_step(*self, Some(k)) by {
                        if g0.round_robin_step(*self, Some(k)) {
                            assert(g0.eligible(k as int));
                        }
                    }
                }
                return Ok(None);
            },
            Some(i) => i,
        };
        assert(g0.round_robin_step(*self, Some(i)));
        let num_accounts = self.signers.len();
        assert(num_accounts == g0.spec_num_accounts());
        assert(self.tx_type_mix == g0.spec_tx_type_mix());
        assert(self.erc20_fn_weights == g0.spec_erc20_fn_weights());
        assert(self.guzzler_fn_weights == g0.spec_guzzler_fn_weights());
        let tx_type = match select_tx_type(&self.tx_type_mix) {
            Ok(t) => t,
            Err(e) => return Err(e),
        };
        proof {
            lemma_drawn_tx_type_has_weight(self.tx_type_mix, tx_type);
        }
        let guzzler = match tx_type {
            TxType::Guzzler => {
                let f = match select_guzzler_function(&self.guzzler_fn_weights) {
                    Ok(f) => f,
                    Err(e) => return Err(e),
                };
                Some((f, self.guzzler_fn_weights.arg_for(f)))
            },
            _ => None,
        };
        let erc20_function = match tx_type {
            TxType::Erc20 => {
                let f = match select_erc20_function(&self.erc20_fn_weights) {
                    Ok(f) => f,
                    Err(e) => return Err(e),
                };
                Some(f)
            },
            _ => None,
        };
        let erc20_recipient = match tx_type {
            TxType::Erc20 => {
                if num_accounts > 1 {
                    Some(Erc20Recipient::Account((i + 1) % num_accounts))
                } else {
                    Some(Erc20Recipient::Fixed(SINGLE_ACCOUNT_ERC20_RECIPIENT))
                }
            },
            _ => None,
        };
        Ok(Some(TxPlan { account_index: i, tx_type, guzzler, erc20_function, erc20_recipient }))
    }

    /// Number of accounts served in round robin (one per signer slot).
    pub fn num_accounts(&self) -> (n: usize)
        requires
            self.wf(),
        ensures
            n == self.spec_num_accounts(),
            n == 0 || n == self.spec_range_len(),
    {
        self.signers.len()
    }

    /// The account slice `start..end`.
    pub fn signers_range(&self) -> (r: std::ops::Range<usize>)
        requires
            self.wf(),
        ensures
            r.start == self.spec_range_start(),
            r.end == self.spec_range_end(),
    {
        self.range_start..self.range_end
    }

    /// Number of accounts of the slice.
    pub fn range_len(&self) -> (n: usize)
        requires
            self.wf(),
        ensures
            n == self.spec_range_len(),
            n == self.spec_next_nonces().len(),
            n == self.spec_tx_counts().len(),
    {
        if self.range_start < self.range_end { self.range_end - self.range_start } else { 0 }
    }

    /// The identifier of the generator.
    pub fn id(&self) -> (id: usize)
        requires
            self.wf(),
        ensures
            id == self.spec_id(),
    {
        self.id
    }

    /// The configured transaction mix.
    pub fn tx_type_mix(&self) -> (m: TxTypeMix)
        requires
            self.wf(),
        ensures
            m == self.spec_tx_type_mix(),
    {
        self.tx_type_mix
    }

    /// The configured ERC-20 function weights.
    pub fn erc20_fn_weights(&self) -> (w: Erc20FnWeights)
        requires
            self.wf(),
        ensures
            w == self.spec_erc20_fn_weights(),
    {
        self.erc20_fn_weights
    }

    /// The configured guzzler function weights and arguments.
    pub fn guzzler_fn_weights(&self) -> (w: GuzzlerFnWeights)
        requires
            self.wf(),
        ensures
            w == self.spec_guzzler_fn_weights(),
    {
        self.guzzler_fn_weights
    }

    /// The round-robin cursor.
    pub fn next_account_index(&self) -> (c: usize)
        requires
            self.wf(),
        ensures
            c == self.spec_cursor(),
            c == 0 || c < self.spec_range_len(),
    {
        self.next_account_index
    }

    /// The cached next nonce of account `i`.
    pub fn cached_nonce(&self, i: usize) -> (n: Option<u64>)
        requires
            self.wf(),
            i < self.spec_range_len(),
        ensures
            n == self.spec_next_nonces()[i as int],
    {
        self.next_nonces[i]
    }

    /// Acknowledged transactions of account `i`.
    pub fn tx_count(&self, i: usize) -> (c: u64)
        requires
            self.wf(),
            i < self.spec_range_len(),
        ensures
            c == self.spec_tx_counts()[i as int],
    {
        self.tx_counts[i]
    }

    /// Whether account `i` is excluded for good.
    pub fn is_account_skipped(&self, i: usize) -> (b: bool)
        requires
            self.wf(),
        ensures
            b == self.spec_skipped().contains(i),
    {
        self.is_skipped(i)
    }

    /// Whether account `i`'s nonce must be asked from the nodes before its
    /// next transaction: it is not cached and querying is enabled.
    pub fn needs_nonce_query(&self, i: usize) -> (b: bool)
        requires
            self.wf(),
            i < self.spec_range_len(),
        ensures
            b == (self.spec_next_nonces()[i as int] is None && self.spec_query_latest_nonce()),
    {
        self.next_nonces[i].is_none() && self.query_latest_nonce
    }

    /// The nonce the next transaction of account `i` uses, given the answer
    /// of the nodes when one was asked for (`None` when they all failed).
    pub open spec fn spec_starting_nonce(self, i: int, queried: Option<u64>) -> u64 {
        match self.spec_next_nonces()[i] {
            Some(n) => n,
            None => if self.spec_query_latest_nonce() {
                match queried {
                    Some(q) => q,
                    None => 0,
                }
            } else {
                0
            },
        }
    }

    /// The nonce for the next transaction of account `i`: the cached one;
    /// otherwise the nodes' answer when querying is enabled (0 when they all
    /// failed); otherwise 0.
    pub fn starting_nonce(&self, i: usize, queried: Option<u64>) -> (n: u64)
        requires
            self.wf(),
            i < self.spec_range_len(),
        ensures
            n == self.spec_starting_nonce(i as int, queried),
            self.spec_next_nonces()[i as int] matches Some(c) ==> n == c,
            self.spec_next_nonces()[i as int] is None && !self.spec_query_latest_nonce() ==> n == 0,
            self.spec_next_nonces()[i as int] is None && self.spec_query_latest_nonce() ==> (queried matches Some(q)
                ==> n == q),
            self.spec_next_nonces()[i as int] is None && self.spec_query_latest_nonce() && queried is None ==> n == 0,
    {
        match self.next_nonces[i] {
            Some(n) => n,
            None => if self.query_latest_nonce {
                match queried {
                    Some(q) => q,
                    None => 0,
                }
            } else {
                0
            },
        }
    }

    /// Everything but the nonce of account `i` is as in `other`.
    pub open spec fn same_except_nonce(self, other: Self, i: int) -> bool {
        &&& self.same_config(other)
        &&& self.same_setup(other)
        &&& self.spec_signers() == other.spec_signers()
        &&& self.spec_next_nonces().len() == other.spec_next_nonces().len()
        &&& forall|j: int| 0 <= j < self.spec_next_nonces().len() && j != i
            ==> self.spec_next_nonces()[j] == other.spec_next_nonces()[j]
        &&& self.spec_tx_counts() == other.spec_tx_counts()
        &&& self.spec_cursor() == other.spec_cursor()
        &&& self.spec_skipped() == other.spec_skipped()
    }

    /// Records `nonce` as the cached nonce of account `i`: after building a
    /// transaction (so that a retry without acknowledgement reuses it), or
    /// after reading it from the nodes.
    pub fn set_nonce(&mut self, i: usize, nonce: u64)
        requires
            old(self).wf(),
            i < old(self).spec_range_len(),
        ensures
            final(self).wf(),
            final(self).same_except_nonce(*old(self), i as int),
            final(self).spec_next_nonces()[i as int] == Some(nonce),
    {
        self.next_nonces.set(i, Some(nonce));
    }

    /// Acknowledges that a transaction of account `i` was accepted: its
    /// cached nonce (when known) moves on by one and its count grows by one.
    pub fn ack_nonce(&mut self, i: usize)
        requires
            old(self).wf(),
            i < old(self).spec_range_len(),
            old(self).spec_next_nonces()[i as int] matches Some(n) ==> n < u64::MAX,
            old(self).spec_tx_counts()[i as int] < u64::MAX,
        ensures
            final(self).wf(),
            final(self).spec_next_nonces() == old(self).spec_next_nonces().update(
                i as int,
                match old(self).spec_next_nonces()[i as int] {
                    Some(n) => Some((n + 1) as u64),
                    None => None,
                },
            ),
            final(self).spec_tx_counts() == old(self).spec_tx_counts().update(i as int, (old(self).spec_tx_counts()[i as int] + 1) as u64),
            final(self).spec_cursor() == old(self).spec_cursor(),
            final(self).spec_skipped() == old(self).spec_skipped(),
            final(self).spec_signers() == old(self).spec_signers(),
            final(self).same_config(*old(self)),
            final(self).same_setup(*old(self)),
    {
        if let Some(nonce) = self.next_nonces[i] {
            self.next_nonces.set(i, Some(nonce + 1));
        }
        let c = self.tx_counts[i];
        self.tx_counts.set(i, c + 1);
    }

    /// Excludes account `i` from every later round-robin selection.
    pub fn skip_account(&mut self, i: usize)
        requires
            old(self).wf(),
        ensures
            final(self).wf(),
            final(self).spec_skipped() == old(self).spec_skipped().insert(i),
            final(self).same_except_skipped(*old(self)),
    {
        broadcast use vstd::std_specs::hash::group_hash_axioms;
        self.skipped_accounts.insert(i);
    }

    /// Everything but the excluded accounts is as in `other`.
    pub open spec fn same_except_skipped(self, other: Self) -> bool {
        &&& self.same_config(other)
        &&& self.same_setup(other)
        &&& self.spec_signers() == other.spec_signers()
        &&& self.spec_next_nonces() == other.spec_next_nonces()
        &&& self.spec_tx_counts() == other.spec_tx_counts()
        &&& self.spec_cursor() == other.spec_cursor()
    }

    /// Builds the EIP-1559 transfer with nonce `nonce`.
    pub fn make_eip1559_tx(&self, nonce: u64) -> (tx: crate::tx::TxEip1559)
        requires
            self.wf(),
        ensures
            tx.chain_id == crate::tx::TESTNET_CHAIN_ID,
            tx.nonce == nonce,
            tx.max_priority_fee_per_gas == crate::tx::MAX_PRIORITY_FEE_PER_GAS,
            tx.max_fee_per_gas == crate::tx::MAX_FEE_PER_GAS,
            tx.gas_limit == crate::tx::transfer_gas_limit(self.spec_tx_input_size() as nat),
            tx.gas_limit == 30_000 + 16 * self.spec_tx_input_size(),
            tx.to@ == crate::tx::transfer_recipient(nonce),
            tx.value == crate::tx::TRANSFER_VALUE,
            tx.input@ == crate::abi::zero_bytes(self.spec_tx_input_size() as nat),
    {
        crate::tx::make_eip1559_tx(self.tx_input_size, nonce)
    }

    /// Builds the legacy transfer with nonce `nonce`.
    pub fn make_legacy_tx(&self, nonce: u64) -> (tx: crate::tx::TxLegacy)
        requires
            self.wf(),
        ensures
            tx.chain_id == Some(crate::tx::TESTNET_CHAIN_ID),
            tx.nonce == nonce,
            tx.gas_price == crate::tx::MAX_FEE_PER_GAS,
            tx.gas_limit == crate::tx::transfer_gas_limit(self.spec_tx_input_size() as nat),
            tx.gas_limit == 30_000 + 16 * self.spec_tx_input_size(),
            tx.to@ == crate::tx::transfer_recipient(nonce),
            tx.value == crate::tx::TRANSFER_VALUE,
            tx.input@ == crate::abi::zero_bytes(self.spec_tx_input_size() as nat),
    {
        crate::tx::make_legacy_tx(self.tx_input_size, nonce)
    }

    /// Enables or disables the query of every account's nonce on the first
    /// initialisation.
    pub fn with_query_nonces_on_init(self, enabled: bool) -> (g: Self)
        requires
            self.wf(),
        ensures
            g.wf(),
            g.spec_query_nonces_on_init() == enabled,
            g.same_config(self),
            g.same_progress(self),
            g.spec_signers() == self.spec_signers(),
            g.spec_guzzler_verified() == self.spec_guzzler_verified(),
            g.spec_test_token_verified() == self.spec_test_token_verified(),
            g.spec_erc20_gas_cache() == self.spec_erc20_gas_cache(),
            g.spec_guzzler_gas_cache() == self.spec_guzzler_gas_cache(),
    {
        let mut g = self;
        g.query_nonces_on_init = enabled;
        g
    }

    /// Whether every account of the slice has its signer.
    pub fn signers_populated(&self) -> (b: bool)
        requires
            self.wf(),
        ensures
            b == (self.spec_num_accounts() == self.spec_range_len()
                && forall|i: int| 0 <= i < self.spec_num_accounts() ==> self.spec_signers()[i] is Some),
    {
        let size = self.range_len();
        if self.signers.len() != size {
            return false;
        }
        let mut i: usize = 0;
        while i < self.signers.len()
            invariant
                0 <= i <= self.signers@.len(),
                forall|k: int| 0 <= k < i ==> self.signers@[k] is Some,
            decreases self.signers@.len() - i,
        {
            if self.signers[i].is_none() {
                return false;
            }
            i = i + 1;
        }
        true
    }

    /// Sizes the signer slots to one per account, all empty, unless they are
    /// already sized.
    pub fn ensure_signers_capacity(&mut self)
        requires
            old(self).wf(),
        ensures
            final(self).wf(),
            final(self).spec_num_accounts() == final(self).spec_range_len(),
            old(self).spec_num_accounts() == old(self).spec_range_len() ==> final(self).spec_signers() == old(self).spec_signers(),
            old(self).spec_num_accounts() != old(self).spec_range_len() ==>
                forall|i: int| 0 <= i < final(self).spec_num_accounts() ==> final(self).spec_signers()[i] is None,
            final(self).same_except_signers(*old(self)),
    {
        let size = self.range_len();
        if self.signers.len() != size {
            let mut signers: Vec<Option<S>> = Vec::new();
            let mut i: usize = 0;
            while i < size
                invariant
                    0 <= i <= size,
                    signers@.len() == i,
                    forall|k: int| 0 <= k < i ==> signers@[k] is None,
                decreases size - i,
            {
                signers.push(None);
                i = i + 1;
            }
            self.signers = signers;
        }
    }

    /// The signer of account `i`, if derived.
    pub fn signer(&self, i: usize) -> (s: Option<&S>)
        requires
            self.wf(),
            i < self.spec_num_accounts(),
        ensures
            match self.spec_signers()[i as int] {
                Some(k) => s == Some(&k),
                None => s is None,
            },
    {
        match &self.signers[i] {
            Some(k) => Some(k),
            None => None,
        }
    }

    /// Stores the derived signer of account `i`.
    pub fn set_signer(&mut self, i: usize, signer: S)
        requires
            old(self).wf(),
            i < old(self).spec_num_accounts(),
        ensures
            final(self).wf(),
            final(self).spec_signers() == old(self).spec_signers().update(i as int, Some(signer)),
            final(self).same_except_signers(*old(self)),
    {
        self.signers.set(i, Some(signer));
    }

    /// Replaces every signer slot, one per account.
    pub fn install_signers(&mut self, signers: Vec<Option<S>>)
        requires
            old(self).wf(),
            signers@.len() == old(self).spec_range_len(),
        ensures
            final(self).wf(),
            final(self).spec_signers() == signers@,
            final(self).same_except_signers(*old(self)),
    {
        self.signers = signers;
    }

    /// Sets up every account at once: its signer and its starting nonce,
    /// which is the nodes' answer for the account when `query_latest_nonce`
    /// (0 when they all failed), else 0.
    pub fn initialize_accounts(&mut self, signers: Vec<Option<S>>, answers: Vec<Option<u64>>, query_latest_nonce: bool)
        requires
            old(self).wf(),
            signers@.len() == old(self).spec_range_len(),
            answers@.len() == old(self).spec_range_len(),
        ensures
            final(self).wf(),
            final(self).spec_signers() == signers@,
            final(self).spec_next_nonces().len() == answers@.len(),
            forall|i: int| 0 <= i < answers@.len() ==> #[trigger] final(self).spec_next_nonces()[i]
                == Some(initial_nonce(query_latest_nonce, answers@[i])),
            final(self).spec_tx_counts() == old(self).spec_tx_counts(),
            final(self).spec_cursor() == old(self).spec_cursor(),
            final(self).spec_skipped() == old(self).spec_skipped(),
            final(self).same_config(*old(self)),
            final(self).same_setup(*old(self)),
    {
        let mut next_nonces: Vec<Option<u64>> = Vec::new();
        let mut i: usize = 0;
        while i < answers.len()
            invariant
                0 <= i <= answers@.len(),
                next_nonces@.len() == i,
                forall|k: int| 0 <= k < i ==> #[trigger] next_nonces@[k] == Some(initial_nonce(query_latest_nonce, answers@[k])),
            decreases answers@.len() - i,
        {
            let nonce = if query_latest_nonce { queried_nonce_or_zero(answers[i]) } else { 0 };
            next_nonces.push(Some(nonce));
            i = i + 1;
        }
        self.signers = signers;
        self.next_nonces = next_nonces;
    }

    /// Stores the nonce the nodes gave for account `i`, or 0 when they all
    /// failed.
    pub fn record_queried_nonce(&mut self, i: usize, answer: Option<u64>)
        requires
            old(self).wf(),
            i < old(self).spec_range_len(),
        ensures
            final(self).wf(),
            final(self).same_except_nonce(*old(self), i as int),
            final(self).spec_next_nonces()[i as int] == Some(queried_nonce_or_zero_spec(answer)),
    {
        let nonce = queried_nonce_or_zero(answer);
        self.set_nonce(i, nonce);
    }

    /// The accounts whose nonce is not cached yet, in order.
    pub fn accounts_without_nonce(&self) -> (r: Vec<usize>)
        requires
            self.wf(),
        ensures
            forall|k: int| 0 <= k < r@.len() ==> r@[k] < self.spec_range_len()
                && self.spec_next_nonces()[r@[k] as int] is None,
            forall|i: usize| i < self.spec_range_len() && self.spec_next_nonces()[i as int] is None ==> r@.contains(i),
            forall|k: int, l: int| 0 <= k < l < r@.len() ==> r@[k] < r@[l],
    {
        let size = self.range_len();
        let mut r: Vec<usize> = Vec::new();
        let mut i: usize = 0;
        while i < size
            invariant
                size == self.spec_range_len(),
                size == self.spec_next_nonces().len(),
                0 <= i <= size,
                forall|k: int| 0 <= k < r@.len() ==> r@[k] < i && self.spec_next_nonces()[r@[k] as int] is None,
                forall|j: usize| j < i && self.spec_next_nonces()[j as int] is None ==> r@.contains(j),
                forall|k: int, l: int| 0 <= k < l < r@.len() ==> r@[k] < r@[l],
            decreases size - i,
        {
            let ghost r_before = r@;
            if self.next_nonces[i].is_none() {
                let ghost before = r@;
                r.push(i);
                proof {
                    assert(r@[r@.len() - 1] == i);
                    assert forall|j: usize| before.contains(j) implies r@.contains(j) by {
                        let m = choose|m: int| 0 <= m < before.len() && before[m] == j;
                        assert(r@[m] == j);
                    }
                    assert(r@.contains(i));
                }
            }
            proof {
                assert forall|j: usize| j < i + 1 && self.spec_next_nonces()[j as int] is None implies r@.contains(j) by {
                    if j < i {
                        assert(r_before.contains(j));
                        let m = choose|m: int| 0 <= m < r_before.len() && r_before[m] == j;
                        assert(r@[m] == j);
                    }
                }
            }
            i = i + 1;
        }
        r
    }

    /// Whether the guzzler contract must still be checked for: guzzler calls
    /// are in the mix and it was not found yet.
    pub fn needs_guzzler_check(&self) -> (b: bool)
        requires
            self.wf(),
        ensures
            b == (self.spec_tx_type_mix().guzzler > 0 && !self.spec_guzzler_verified()),
    {
        self.tx_type_mix.guzzler > 0 && !self.guzzler_verified
    }

    /// Takes in the nodes' answer to the guzzler contract check: found, it is
    /// recorded as verified; not found, initialisation fails with
    /// `GuzzlerNotDeployed` and nothing changes.
    pub fn record_guzzler_check(&mut self, found: bool) -> (r: Result<(), GeneratorError>)
        requires
            old(self).wf(),
        ensures
            final(self).wf(),
            found ==> r is Ok,
            !found ==> r == Err::<(), GeneratorError>(GeneratorError::GuzzlerNotDeployed),
            final(self).spec_guzzler_verified() == (old(self).spec_guzzler_verified() || found),
            final(self).spec_test_token_verified() == old(self).spec_test_token_verified(),
            final(self).spec_query_nonces_on_init() == old(self).spec_query_nonces_on_init(),
            final(self).spec_erc20_gas_cache() == old(self).spec_erc20_gas_cache(),
            final(self).spec_guzzler_gas_cache() == old(self).spec_guzzler_gas_cache(),
            final(self).same_config(*old(self)),
            final(self).same_progress(*old(self)),
            final(self).spec_signers() == old(self).spec_signers(),
    {
        if !found {
            return Err(GeneratorError::GuzzlerNotDeployed);
        }
        self.guzzler_verified = true;
        Ok(())
    }

    /// Whether the ERC-20 test token must still be checked for.
    pub fn needs_test_token_check(&self) -> (b: bool)
        requires
            self.wf(),
        ensures
            b == (self.spec_tx_type_mix().erc20 > 0 && !self.spec_test_token_verified()),
    {
        self.tx_type_mix.erc20 > 0 && !self.test_token_verified
    }

    /// Takes in the nodes' answer to the test token check: found, it is
    /// recorded as verified; not found, initialisation fails with
    /// `TestTokenNotDeployed` and nothing changes.
    pub fn record_test_token_check(&mut self, found: bool) -> (r: Result<(), GeneratorError>)
        requires
            old(self).wf(),
        ensures
            final(self).wf(),
            found ==> r is Ok,
            !found ==> r == Err::<(), GeneratorError>(GeneratorError::TestTokenNotDeployed),
            final(self).spec_test_token_verified() == (old(self).spec_test_token_verified() || found),
            final(self).spec_guzzler_verified() == old(self).spec_guzzler_verified(),
            final(self).spec_query_nonces_on_init() == old(self).spec_query_nonces_on_init(),
            final(self).spec_erc20_gas_cache() == old(self).spec_erc20_gas_cache(),
            final(self).spec_guzzler_gas_cache() == old(self).spec_guzzler_gas_cache(),
            final(self).same_config(*old(self)),
            final(self).same_progress(*old(self)),
            final(self).spec_signers() == old(self).spec_signers(),
    {
        if !found {
            return Err(GeneratorError::TestTokenNotDeployed);
        }
        self.test_token_verified = true;
        Ok(())
    }

    /// Whether the first initialisation must query every account's nonce;
    /// the request is consumed, so it runs once.
    pub fn take_query_nonces_on_init(&mut self) -> (b: bool)
        requires
            old(self).wf(),
        ensures
            final(self).wf(),
            b == old(self).spec_query_nonces_on_init(),
            !final(self).spec_query_nonces_on_init(),
            final(self).spec_guzzler_verified() == old(self).spec_guzzler_verified(),
            final(self).spec_test_token_verified() == old(self).spec_test_token_verified(),
            final(self).spec_erc20_gas_cache() == old(self).spec_erc20_gas_cache(),
            final(self).spec_guzzler_gas_cache() == old(self).spec_guzzler_gas_cache(),
            final(self).same_config(*old(self)),
            final(self).same_progress(*old(self)),
            final(self).spec_signers() == old(self).spec_signers(),
    {
        let b = self.query_nonces_on_init;
        self.query_nonces_on_init = false;
        b
    }

    /// Cached gas limits of the ERC-20 functions, in bucket order.
    pub closed spec fn spec_erc20_gas_cache(self) -> Seq<Option<u64>> {
        self.erc20_gas_cache@
    }

    /// Cached gas limits of the guzzler functions, in bucket order.
    pub closed spec fn spec_guzzler_gas_cache(self) -> Seq<Option<u64>> {
        self.guzzler_gas_cache@
    }

    /// The cached gas limit of an ERC-20 function.
    pub fn erc20_cached_gas(&self, f: Erc20Function) -> (g: Option<u64>)
        requires
            self.wf(),
        ensures
            g == self.spec_erc20_gas_cache()[erc20_slot(f)],
    {
        self.erc20_gas_cache[erc20_slot_exec(f)]
    }

    /// The cached gas limit of a guzzler function.
    pub fn guzzler_cached_gas(&self, f: GuzzlerFunction) -> (g: Option<u64>)
        requires
            self.wf(),
        ensures
            g == self.spec_guzzler_gas_cache()[guzzler_slot(f)],
    {
        self.guzzler_gas_cache[guzzler_slot_exec(f)]
    }

    /// The ERC-20 functions to estimate gas for during initialisation: when
    /// ERC-20 calls are in the mix and some function with positive weight has
    /// no cached limit, every function with positive weight; otherwise none.
    pub fn erc20_gas_estimates_needed(&self) -> (fs: Vec<Erc20Function>)
        requires
            self.wf(),
        ensures
            ({
                let w = self.spec_erc20_fn_weights();
                let incomplete = exists|k: int| 0 <= k < 3 && w.spec_weights()[k] > 0
                    && self.spec_erc20_gas_cache()[k] is None;
                &&& (self.spec_tx_type_mix().erc20 > 0 && incomplete) ==>
                    fs@ == Seq::new(3, |k: int| Erc20FnWeights::function_at(k)).filter(|f: Erc20Function| w.weight_of(f) > 0)
                &&& !(self.spec_tx_type_mix().erc20 > 0 && incomplete) ==> fs@.len() == 0
            }),
    {
        let buckets = self.erc20_fn_weights.buckets();
        proof { self.spec_erc20_fn_weights().lemma_bucket_weights(); }
        let mut incomplete = false;
        let mut k: usize = 0;
        while k < 3
            invariant
                0 <= k <= 3,
                forall|j: int| 0 <= j < 3 ==> buckets@[j].0 == Erc20FnWeights::function_at(j)
                    && buckets@[j].1 == self.spec_erc20_fn_weights().weight_of(buckets@[j].0),
                incomplete <==> exists|j: int| 0 <= j < k && self.spec_erc20_fn_weights().spec_weights()[j] > 0
                    && self.spec_erc20_gas_cache()[j] is None,
            decreases 3 - k,
        {
            proof { self.spec_erc20_fn_weights().lemma_bucket_weights(); }
            if buckets[k].1 > 0 && self.erc20_gas_cache[k].is_none() {
                incomplete = true;
            }
            k = k + 1;
        }
        let mut fs: Vec<Erc20Function> = Vec::new();
        if self.tx_type_mix.erc20 > 0 && incomplete {
            let ghost all = Seq::new(3, |j: int| Erc20FnWeights::function_at(j));
            let ghost pred = |f: Erc20Function| self.spec_erc20_fn_weights().weight_of(f) > 0;
            let mut k: usize = 0;
            while k < 3
                invariant
                    0 <= k <= 3,
                    forall|j: int| 0 <= j < 3 ==> buckets@[j].0 == Erc20FnWeights::function_at(j)
                        && buckets@[j].1 == self.spec_erc20_fn_weights().weight_of(buckets@[j].0),
                    all == Seq::new(3, |j: int| Erc20FnWeights::function_at(j)),
                    pred == (|f: Erc20Function| self.spec_erc20_fn_weights().weight_of(f) > 0),
                    fs@ == all.subrange(0, k as int).filter(pred),
                decreases 3 - k,
            {
                reveal_with_fuel(Seq::filter, 1);
                assert(all.subrange(0, k + 1).drop_last() == all.subrange(0, k as int));
                if buckets[k].1 > 0 {
                    fs.push(buckets[k].0);
                }
                k = k + 1;
            }
            assert(all.subrange(0, 3) == all);
        }
        fs
    }

    /// Caches the gas limit of an ERC-20 function from an estimate, with a
    /// twofold buffer (saturating).
    pub fn record_erc20_gas_estimate(&mut self, f: Erc20Function, estimate: u64)
        requires
            old(self).wf(),
        ensures
            final(self).wf(),
            final(self).spec_erc20_gas_cache() == old(self).spec_erc20_gas_cache().update(
                erc20_slot(f),
                Some(crate::tx::saturating_mul(estimate, crate::tx::GAS_CACHE_BUFFER)),
            ),
            estimate * 2 <= u64::MAX ==> final(self).spec_erc20_gas_cache()[erc20_slot(f)] == Some((estimate * 2) as u64),
            estimate * 2 > u64::MAX ==> final(self).spec_erc20_gas_cache()[erc20_slot(f)] == Some(u64::MAX),
            final(self).spec_guzzler_gas_cache() == old(self).spec_guzzler_gas_cache(),
            final(self).spec_guzzler_verified() == old(self).spec_guzzler_verified(),
            final(self).spec_test_token_verified() == old(self).spec_test_token_verified(),
            final(self).spec_query_nonces_on_init() == old(self).spec_query_nonces_on_init(),
            final(self).same_config(*old(self)),
            final(self).same_progress(*old(self)),
            final(self).spec_signers() == old(self).spec_signers(),
    {
        let g = crate::tx::saturating_mul_u64(estimate, crate::tx::GAS_CACHE_BUFFER);
        self.erc20_gas_cache[erc20_slot_exec(f)] = Some(g);
    }

    /// The guzzler functions to estimate gas for during initialisation: when
    /// guzzler calls are in the mix and some function with positive weight
    /// has no cached limit, every function with positive weight; otherwise
    /// none.
    pub fn guzzler_gas_estimates_needed(&self) -> (fs: Vec<GuzzlerFunction>)
        requires
            self.wf(),
        ensures
            ({
                let w = self.spec_guzzler_fn_weights();
                let incomplete = exists|k: int| 0 <= k < 5 && w.spec_weights()[k] > 0
                    && self.spec_guzzler_gas_cache()[k] is None;
                &&& (self.spec_tx_type_mix().guzzler > 0 && incomplete) ==>
                    fs@ == Seq::new(5, |k: int| GuzzlerFnWeights::function_at(k)).filter(|f: GuzzlerFunction| w.weight_of(f) > 0)
                &&& !(self.spec_tx_type_mix().guzzler > 0 && incomplete) ==> fs@.len() == 0
            }),
    {
        let buckets = self.guzzler_fn_weights.buckets();
        proof { self.spec_guzzler_fn_weights().lemma_bucket_weights(); }
        let mut incomplete = false;
        let mut k: usize = 0;
        while k < 5
            invariant
                0 <= k <= 5,
                forall|j: int| 0 <= j < 5 ==> buckets@[j].0 == GuzzlerFnWeights::function_at(j)
                    && buckets@[j].1 == self.spec_guzzler_fn_weights().weight_of(buckets@[j].0),
                incomplete <==> exists|j: int| 0 <= j < k && self.spec_guzzler_fn_weights().spec_weights()[j] > 0
                    && self.spec_guzzler_gas_cache()[j] is None,
            decreases 5 - k,
        {
            proof { self.spec_guzzler_fn_weights().lemma_bucket_weights(); }
            if buckets[k].1 > 0 && self.guzzler_gas_cache[k].is_none() {
                incomplete = true;
            }
            k = k + 1;
        }
        let mut fs: Vec<GuzzlerFunction> = Vec::new();
        if self.tx_type_mix.guzzler > 0 && incomplete {
            let ghost all = Seq::new(5, |j: int| GuzzlerFnWeights::function_at(j));
            let ghost pred = |f: GuzzlerFunction| self.spec_guzzler_fn_weights().weight_of(f) > 0;
            let mut k: usize = 0;
            while k < 5
                invariant
                    0 <= k <= 5,
                    forall|j: int| 0 <= j < 5 ==> buckets@[j].0 == GuzzlerFnWeights::function_at(j)
                        && buckets@[j].1 == self.spec_guzzler_fn_weights().weight_of(buckets@[j].0),
                    all == Seq::new(5, |j: int| GuzzlerFnWeights::function_at(j)),
                    pred == (|f: GuzzlerFunction| self.spec_guzzler_fn_weights().weight_of(f) > 0),
                    fs@ == all.subrange(0, k as int).filter(pred),
                decreases 5 - k,
            {
                reveal_with_fuel(Seq::filter, 1);
                assert(all.subrange(0, k + 1).drop_last() == all.subrange(0, k as int));
                if buckets[k].1 > 0 {
                    fs.push(buckets[k].0);
                }
                k = k + 1;
            }
            assert(all.subrange(0, 5) == all);
        }
        fs
    }

    /// Caches the gas limit of a guzzler function from an estimate, with a
    /// twofold buffer (saturating).
    pub fn record_guzzler_gas_estimate(&mut self, f: GuzzlerFunction, estimate: u64)
        requires
            old(self).wf(),
        ensures
            final(self).wf(),
            final(self).spec_guzzler_gas_cache() == old(self).spec_guzzler_gas_cache().update(
                guzzler_slot(f),
                Some(crate::tx::saturating_mul(estimate, crate::tx::GAS_CACHE_BUFFER)),
            ),
            estimate * 2 <= u64::MAX ==> final(self).spec_guzzler_gas_cache()[guzzler_slot(f)] == Some((estimate * 2) as u64),
            estimate * 2 > u64::MAX ==> final(self).spec_guzzler_gas_cache()[guzzler_slot(f)] == Some(u64::MAX),
            final(self).spec_erc20_gas_cache() == old(self).spec_erc20_gas_cache(),
            final(self).spec_guzzler_verified() == old(self).spec_guzzler_verified(),
            final(self).spec_test_token_verified() == old(self).spec_test_token_verified(),
            final(self).spec_query_nonces_on_init() == old(self).spec_query_nonces_on_init(),
            final(self).same_config(*old(self)),
            final(self).same_progress(*old(self)),
            final(self).spec_signers() == old(self).spec_signers(),
    {
        let g = crate::tx::saturating_mul_u64(estimate, crate::tx::GAS_CACHE_BUFFER);
        self.guzzler_gas_cache[guzzler_slot_exec(f)] = Some(g);
    }
}

/// Slot of an ERC-20 function in the gas cache (bucket order).
pub open spec fn erc20_slot(f: Erc20Function) -> int {
    match f {
        Erc20Function::Transfer => 0,
        Erc20Function::Approve => 1,
        Erc20Function::TransferFrom => 2,
    }
}

fn erc20_slot_exec(f: Erc20Function) -> (k: usize)
    ensures
        k == erc20_slot(f),
{
    match f {
        Erc20Function::Transfer => 0,
        Erc20Function::Approve => 1,
        Erc20Function::TransferFrom => 2,
    }
}

/// Slot of a guzzler function in the gas cache (bucket order).
pub open spec fn guzzler_slot(f: GuzzlerFunction) -> int {
    match f {
        GuzzlerFunction::HashLoop => 0,
        GuzzlerFunction::StorageWrite => 1,
        GuzzlerFunction::StorageRead => 2,
        GuzzlerFunction::Guzzle => 3,
        GuzzlerFunction::Guzzle2 => 4,
    }
}

fn guzzler_slot_exec(f: GuzzlerFunction) -> (k: usize)
    ensures
        k == guzzler_slot(f),
{
    match f {
        GuzzlerFunction::HashLoop => 0,
        GuzzlerFunction::StorageWrite => 1,
        GuzzlerFunction::StorageRead => 2,
        GuzzlerFunction::Guzzle => 3,
        GuzzlerFunction::Guzzle2 => 4,
    }
}

/// The persistent part of a generator, without keys: what is saved between
/// runs and restored on resume. Signer slots come back unsized and keys are
/// derived again on demand.
#[derive(Debug)]
pub struct GeneratorSnapshot {
    pub id: usize,
    pub signers_start: usize,
    pub signers_end: usize,
    pub next_nonces: Vec<Option<u64>>,
    pub max_txs_per_account: u64,
    pub query_latest_nonce: bool,
    pub tx_input_size: usize,
    pub guzzler_fn_weights: GuzzlerFnWeights,
    pub erc20_fn_weights: Erc20FnWeights,
    pub tx_type_mix: TxTypeMix,
    pub guzzler_verified: bool,
    pub test_token_verified: bool,
    pub tx_counts: Vec<u64>,
    pub next_account_index: usize,
    pub query_nonces_on_init: bool,
    pub skipped_accounts: Vec<usize>,
    /// Cached ERC-20 gas limits in bucket order (transfer, approve,
    /// transferFrom).
    pub erc20_gas_cache: [Option<u64>; 3],
    /// Cached guzzler gas limits in bucket order (hashLoop, storageWrite,
    /// storageRead, guzzle, guzzle2).
    pub guzzler_gas_cache: [Option<u64>; 5],
}

/// A snapshot that describes a well-formed generator: one nonce and one
/// count per account, the cursor inside the slice, and a transfer gas limit
/// that fits.
pub open spec fn snapshot_consistent(s: GeneratorSnapshot) -> bool {
    let n = range_len(s.signers_start, s.signers_end);
    &&& s.next_nonces@.len() == n
    &&& s.tx_counts@.len() == n
    &&& (s.next_account_index == 0 || s.next_account_index < n)
    &&& crate::tx::input_size_fits(s.tx_input_size as nat)
}

fn copy_nonces(v: &Vec<Option<u64>>) -> (r: Vec<Option<u64>>)
    ensures
        r@ == v@,
{
    let mut r: Vec<Option<u64>> = Vec::new();
    let mut i: usize = 0;
    while i < v.len()
        invariant
            0 <= i <= v@.len(),
            r@ == v@.subrange(0, i as int),
        decreases v@.len() - i,
    {
        r.push(v[i]);
        i = i + 1;
    }
    assert(v@.subrange(0, v@.len() as int) == v@);
    r
}

fn copy_u64s(v: &Vec<u64>) -> (r: Vec<u64>)
    ensures
        r@ == v@,
{
    let mut r: Vec<u64> = Vec::new();
    let mut i: usize = 0;
    while i < v.len()
        invariant
            0 <= i <= v@.len(),
            r@ == v@.subrange(0, i as int),
        decreases v@.len() - i,
    {
        r.push(v[i]);
        i = i + 1;
    }
    assert(v@.subrange(0, v@.len() as int) == v@);
    r
}

impl<S> TxGenerator<S> {
    /// The persisted fields of `self` are those of the snapshot `s`.
    pub open spec fn snapshot_matches(self, s: GeneratorSnapshot) -> bool {
        &&& self.spec_id() == s.id
        &&& self.spec_range_start() == s.signers_start
        &&& self.spec_range_end() == s.signers_end
        &&& self.spec_next_nonces() == s.next_nonces@
        &&& self.spec_max_txs_per_account() == s.max_txs_per_account
        &&& self.spec_query_latest_nonce() == s.query_latest_nonce
        &&& self.spec_tx_input_size() == s.tx_input_size
        &&& self.spec_guzzler_fn_weights() == s.guzzler_fn_weights
        &&& self.spec_erc20_fn_weights() == s.erc20_fn_weights
        &&& self.spec_tx_type_mix() == s.tx_type_mix
        &&& self.spec_guzzler_verified() == s.guzzler_verified
        &&& self.spec_test_token_verified() == s.test_token_verified
        &&& self.spec_tx_counts() == s.tx_counts@
        &&& self.spec_cursor() == s.next_account_index
        &&& self.spec_query_nonces_on_init() == s.query_nonces_on_init
        &&& self.spec_skipped() == s.skipped_accounts@.to_set()
        &&& self.spec_erc20_gas_cache() == s.erc20_gas_cache@
        &&& self.spec_guzzler_gas_cache() == s.guzzler_gas_cache@
    }

    /// Saves the persistent state of the generator.
    pub fn to_snapshot(&self) -> (s: GeneratorSnapshot)
        requires
            self.wf(),
        ensures
            self.snapshot_matches(s),
    {
        broadcast use vstd::std_specs::hash::group_hash_axioms;
        let mut skipped: Vec<usize> = Vec::new();
        for x in it: self.skipped_accounts.iter()
            invariant
                it.seq() == self.skipped_accounts.iter().remaining(),
                skipped@ == it.seq().take(it.index() as int).map_values(|r: &usize| *r),
        {
            proof {
                assert(it.seq().take(it.index() + 1).map_values(|r: &usize| *r)
                    =~= it.seq().take(it.index() as int).map_values(|r: &usize| *r).push(*x));
            }
            skipped.push(*x);
        }
        proof {
            assert(skipped@ =~= self.skipped_accounts.iter().remaining().unref());
        }
        GeneratorSnapshot {
            id: self.id,
            signers_start: self.range_start,
            signers_end: self.range_end,
            next_nonces: copy_nonces(&self.next_nonces),
            max_txs_per_account: self.max_txs_per_account,
            query_latest_nonce: self.query_latest_nonce,
            tx_input_size: self.tx_input_size,
            guzzler_fn_weights: self.guzzler_fn_weights,
            erc20_fn_weights: self.erc20_fn_weights,
            tx_type_mix: self.tx_type_mix,
            guzzler_verified: self.guzzler_verified,
            test_token_verified: self.test_token_verified,
            tx_counts: copy_u64s(&self.tx_counts),
            next_account_index: self.next_account_index,
            query_nonces_on_init: self.query_nonces_on_init,
            skipped_accounts: skipped,
            erc20_gas_cache: self.erc20_gas_cache,
            guzzler_gas_cache: self.guzzler_gas_cache,
        }
    }

    /// Restores a generator from a snapshot, with unsized signer slots; `None`
    /// when the snapshot does not describe a well-formed generator.
    pub fn from_snapshot(s: GeneratorSnapshot) -> (r: Option<Self>)
        ensures
            r is Some <==> snapshot_consistent(s),
            r matches Some(g) ==> g.wf() && g.snapshot_matches(s) && g.spec_num_accounts() == 0,
    {
        let n: usize = if s.signers_start < s.signers_end { s.signers_end - s.signers_start } else { 0 };
        if s.next_nonces.len() != n || s.tx_counts.len() != n {
            return None;
        }
        if !(s.next_account_index == 0 || s.next_account_index < n) {
            return None;
        }
        if !crate::tx::gas_limit_fits(s.tx_input_size) {
            return None;
        }
        broadcast use vstd::std_specs::hash::group_hash_axioms;
        let mut skipped: HashSet<usize> = HashSet::new();
        let mut i: usize = 0;
        while i < s.skipped_accounts.len()
            invariant
                0 <= i <= s.skipped_accounts@.len(),
                skipped@ == s.skipped_accounts@.subrange(0, i as int).to_set(),
            decreases s.skipped_accounts@.len() - i,
        {
            let x = s.skipped_accounts[i];
            proof {
                let prev = s.skipped_accounts@.subrange(0, i as int);
                assert(s.skipped_accounts@.subrange(0, i + 1) == prev.push(x));
                prev.lemma_push_to_set_commute(x);
            }
            skipped.insert(x);
            i = i + 1;
        }
        assert(s.skipped_accounts@.subrange(0, s.skipped_accounts@.len() as int) == s.skipped_accounts@);
        Some(TxGenerator {
            id: s.id,
            signers: Vec::new(),
            range_start: s.signers_start,
            range_end: s.signers_end,
            next_nonces: s.next_nonces,
            max_txs_per_account: s.max_txs_per_account,
            query_latest_nonce: s.query_latest_nonce,
            tx_input_size: s.tx_input_size,
            guzzler_fn_weights: s.guzzler_fn_weights,
            erc20_fn_weights: s.erc20_fn_weights,
            tx_type_mix: s.tx_type_mix,
            guzzler_verified: s.guzzler_verified,
            test_token_verified: s.test_token_verified,
            tx_counts: s.tx_counts,
            next_account_index: s.next_account_index,
            query_nonces_on_init: s.query_nonces_on_init,
            skipped_accounts: skipped,
            erc20_gas_cache: s.erc20_gas_cache,
            guzzler_gas_cache: s.guzzler_gas_cache,
        })
    }
}

/// What well-formedness guarantees of the visible state: one cached nonce
/// and one count per account of the slice, signer slots unsized or one per
/// account, and the cursor at 0 or inside the slice.
pub proof fn lemma_wf_bounds<S>(g: TxGenerator<S>)
    requires
        g.wf(),
    ensures
        g.spec_next_nonces().len() == g.spec_range_len(),
        g.spec_tx_counts().len() == g.spec_range_len(),
        g.spec_num_accounts() == 0 || g.spec_num_accounts() == g.spec_range_len(),
        g.spec_cursor() == 0 || g.spec_cursor() < g.spec_range_len(),
        g.spec_num_accounts() > 0 ==> g.spec_cursor() < g.spec_num_accounts(),
{
}

/// The persisted fields of `g` and `other` agree.
pub open spec fn same_persisted_state<S>(g: TxGenerator<S>, other: TxGenerator<S>) -> bool {
    &&& g.spec_id() == other.spec_id()
    &&& g.spec_range_start() == other.spec_range_start()
    &&& g.spec_range_end() == other.spec_range_end()
    &&& g.spec_next_nonces() == other.spec_next_nonces()
    &&& g.spec_max_txs_per_account() == other.spec_max_txs_per_account()
    &&& g.spec_query_latest_nonce() == other.spec_query_latest_nonce()
    &&& g.spec_tx_input_size() == other.spec_tx_input_size()
    &&& g.spec_guzzler_fn_weights() == other.spec_guzzler_fn_weights()
    &&& g.spec_erc20_fn_weights() == other.spec_erc20_fn_weights()
    &&& g.spec_tx_type_mix() == other.spec_tx_type_mix()
    &&& g.spec_guzzler_verified() == other.spec_guzzler_verified()
    &&& g.spec_test_token_verified() == other.spec_test_token_verified()
    &&& g.spec_tx_counts() == other.spec_tx_counts()
    &&& g.spec_cursor() == other.spec_cursor()
    &&& g.spec_query_nonces_on_init() == other.spec_query_nonces_on_init()
    &&& g.spec_skipped() == other.spec_skipped()
    &&& g.spec_erc20_gas_cache() == other.spec_erc20_gas_cache()
    &&& g.spec_guzzler_gas_cache() == other.spec_guzzler_gas_cache()
}

/// What is saved is what comes back: the snapshot of a well-formed
/// generator is consistent, so `from_snapshot` accepts it, and any generator
/// matching that snapshot has the saved generator's persisted fields.
pub proof fn lemma_snapshot_round_trip<S>(g: TxGenerator<S>, s: GeneratorSnapshot, restored: TxGenerator<S>)
    requires
        g.wf(),
        g.snapshot_matches(s),
        restored.snapshot_matches(s),
    ensures
        snapshot_consistent(s),
        same_persisted_state(g, restored),
{
}

/// When every account is eligible, a round-robin selection picks the account
/// at the cursor and moves the cursor to the next account (cyclically).
pub proof fn lemma_round_robin_picks_cursor<S>(g: TxGenerator<S>, next: TxGenerator<S>, r: Option<usize>)
    requires
        g.wf(),
        g.round_robin_step(next, r),
        g.spec_num_accounts() > 0,
        forall|j: int| 0 <= j < g.spec_num_accounts() ==> g.eligible(j),
    ensures
        r == Some(g.spec_cursor()),
        next.spec_cursor() == (g.spec_cursor() + 1) % (g.spec_num_accounts() as int),
{
    let n = g.spec_num_accounts() as int;
    let c = g.spec_cursor() as int;
    assert(c < n);
    assert(g.eligible(c));
    if r is Some {
        let i = r->0 as int;
        if i != c {
            assert(cyclic_offset(c, c, n) == 0);
            assert(cyclic_offset(c, i, n) > 0);
        }
    }
}

/// A run of selections with acknowledgements (or anything else that keeps
/// the cursor) in between: `before[t]` selects `picks[t]` and leaves
/// `after[t]`, whose cursor `before[t + 1]` starts from, over a slice of
/// `n > 0` accounts that stay eligible throughout.
pub open spec fn turns_taken<S>(before: Seq<TxGenerator<S>>, after: Seq<TxGenerator<S>>, picks: Seq<Option<usize>>, n: nat) -> bool {
    &&& before.len() == picks.len()
    &&& after.len() == picks.len()
    &&& n > 0
    &&& forall|t: int| 0 <= t < picks.len() ==> (#[trigger] before[t]).wf()
        && before[t].round_robin_step(after[t], picks[t])
        && before[t].spec_num_accounts() == n
        && forall|j: int| 0 <= j < n ==> before[t].eligible(j)
    &&& forall|t: int| 1 <= t < picks.len() ==> (#[trigger] before[t]).spec_cursor() == after[t - 1].spec_cursor()
}

proof fn lemma_turn_cursor<S>(before: Seq<TxGenerator<S>>, after: Seq<TxGenerator<S>>, picks: Seq<Option<usize>>, n: nat, t: int)
    requires
        turns_taken(before, after, picks, n),
        0 <= t < picks.len(),
    ensures
        before[t].spec_cursor() == (before[0].spec_cursor() + t) % (n as int),
        picks[t] == Some(before[t].spec_cursor()),
        after[t].spec_cursor() == (before[0].spec_cursor() + t + 1) % (n as int),
    decreases t,
{
    let c0 = before[0].spec_cursor() as int;
    assert(before[t].wf());
    lemma_round_robin_picks_cursor(before[t], after[t], picks[t]);
    if t == 0 {
        assert(c0 < n) by {
            assert(before[0].wf());
        }
        vstd::arithmetic::div_mod::lemma_small_mod(c0 as nat, n);
    } else {
        lemma_turn_cursor(before, after, picks, n, t - 1);
        assert(before[t].spec_cursor() == after[t - 1].spec_cursor());
    }
    let x = c0 + t;
    vstd::arithmetic::div_mod::lemma_add_mod_noop(x, 1, n as int);
    vstd::arithmetic::div_mod::lemma_add_mod_noop(x % (n as int), 1, n as int);
    vstd::arithmetic::div_mod::lemma_mod_twice(x, n as int);
}

/// Accounts take turns: when every account stays eligible, selection `t`
/// of a run picks the account `t` places after the starting cursor,
/// cyclically, so over whole rounds every account is served equally often.
pub proof fn lemma_round_robin_takes_turns<S>(before: Seq<TxGenerator<S>>, after: Seq<TxGenerator<S>>, picks: Seq<Option<usize>>, n: nat)
    requires
        turns_taken(before, after, picks, n),
    ensures
        forall|t: int| 0 <= t < picks.len() ==> #[trigger] picks[t] == Some(((before[0].spec_cursor() + t) % (n as int)) as usize),
{
    assert forall|t: int| 0 <= t < picks.len() implies #[trigger] picks[t] == Some(((before[0].spec_cursor() + t) % (n as int)) as usize) by {
        lemma_turn_cursor(before, after, picks, n, t);
    }
}

/// A selected account is never one that was excluded, and with a cap it is
/// below the cap, so acknowledging its transaction keeps it within the cap.
pub proof fn lemma_selection_respects_exclusion_and_cap<S>(g: TxGenerator<S>, next: TxGenerator<S>, i: usize)
    requires
        g.round_robin_step(next, Some(i)),
    ensures
        !g.spec_skipped().contains(i),
        g.spec_max_txs_per_account() > 0 ==> g.spec_tx_counts()[i as int] + 1 <= g.spec_max_txs_per_account(),
{
}

/// A transaction built again for the same account without an
/// acknowledgement reuses the cached nonce, whatever the nodes would say.
pub proof fn lemma_retry_without_ack_reuses_nonce<S>(g: TxGenerator<S>, i: int, nonce: u64, q1: Option<u64>, q2: Option<u64>)
    requires
        g.spec_next_nonces()[i] == Some(nonce),
    ensures
        g.spec_starting_nonce(i, q1) == nonce,
        g.spec_starting_nonce(i, q2) == nonce,
{
}

/// After an acknowledgement the next transaction of the account uses the
/// following nonce.
pub proof fn lemma_ack_advances_nonce<S>(g: TxGenerator<S>, acked: TxGenerator<S>, i: int, nonce: u64, q: Option<u64>)
    requires
        0 <= i < g.spec_next_nonces().len(),
        g.spec_next_nonces()[i] == Some(nonce),
        nonce < u64::MAX,
        acked.spec_next_nonces() == g.spec_next_nonces().update(i, Some((nonce + 1) as u64)),
    ensures
        acked.spec_starting_nonce(i, q) == nonce + 1,
{
}

} // verus!
