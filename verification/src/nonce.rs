//! Nonce and gas bookkeeping against the nodes: reading the hexadecimal
//! answers of `eth_getTransactionCount` and `eth_estimateGas`, combining the
//! answers of several nodes, and splitting a nonce resync across workers.
use vstd::prelude::*;
use vstd::string::StrSliceExecFns;

verus! {

/// Value of a hexadecimal digit (`0-9`, `a-f`, `A-F`).
pub open spec fn hex_digit_value(c: char) -> Option<nat> {
    if '0' <= c && c <= '9' {
        Some(((c as int) - ('0' as int)) as nat)
    } else if 'a' <= c && c <= 'f' {
        Some(((c as int) - ('a' as int) + 10) as nat)
    } else if 'A' <= c && c <= 'F' {
        Some(((c as int) - ('A' as int) + 10) as nat)
    } else {
        None
    }
}

/// Value of a string of hexadecimal digits, most significant first; `None`
/// when some character is not a hexadecimal digit.
pub open spec fn hex_digits_value(s: Seq<char>) -> Option<nat>
    decreases s.len(),
{
    if s.len() == 0 {
        Some(0)
    } else {
        match (hex_digits_value(s.drop_last()), hex_digit_value(s.last())) {
            (Some(v), Some(d)) => Some(v * 16 + d),
            _ => None,
        }
    }
}

/// `u64::from_str_radix(s, 16)` as documented: an optional `+` followed by
/// at least one hexadecimal digit and nothing else, whose value fits in a
/// `u64`.
pub open spec fn from_str_radix_16(s: Seq<char>) -> Option<u64> {
    let digits = if s.len() > 0 && s[0] == '+' { s.drop_first() } else { s };
    if digits.len() == 0 {
        None
    } else {
        match hex_digits_value(digits) {
            Some(v) => if v <= u64::MAX { Some(v as u64) } else { None },
            None => None,
        }
    }
}

/// Parses a hexadecimal `u64` with `u64::from_str_radix(s, 16)`. Trusted: the
/// result follows the standard library's documentation, an optional `+` sign
/// followed by hexadecimal digits only, with no overflow.
#[verifier::external_body]
pub fn parse_hex_u64(s: &str) -> (r: Option<u64>)
    ensures
        r == from_str_radix_16(s@),
{
    u64::from_str_radix(s, 16).ok()
}

/// `s` without one leading `0x`, if it has one.
pub open spec fn strip_hex_prefix(s: Seq<char>) -> Seq<char> {
    if s.len() >= 2 && s[0] == '0' && s[1] == 'x' {
        s.subrange(2, s.len() as int)
    } else {
        s
    }
}

/// `s` without any number of leading `0x`.
pub open spec fn strip_hex_prefixes(s: Seq<char>) -> Seq<char>
    decreases s.len(),
{
    if s.len() >= 2 && s[0] == '0' && s[1] == 'x' {
        strip_hex_prefixes(s.subrange(2, s.len() as int))
    } else {
        s
    }
}

/// One `0x` prefix is removed and only one: a prefixed string loses exactly
/// its first two characters, any other string stays as it is.
pub proof fn lemma_strip_hex_prefix(s: Seq<char>)
    ensures
        strip_hex_prefix(seq!['0', 'x'] + s) == s,
        !(s.len() >= 2 && s[0] == '0' && s[1] == 'x') ==> strip_hex_prefix(s) == s,
{
    assert((seq!['0', 'x'] + s).subrange(2, s.len() + 2int) =~= s);
}

/// Every leading `0x` is removed: the result never starts with `0x`, and a
/// prefixed string strips to what its rest strips to.
pub proof fn lemma_strip_hex_prefixes(s: Seq<char>)
    ensures
        !(strip_hex_prefixes(s).len() >= 2 && strip_hex_prefixes(s)[0] == '0' && strip_hex_prefixes(s)[1] == 'x'),
        strip_hex_prefixes(seq!['0', 'x'] + s) == strip_hex_prefixes(s),
    decreases s.len(),
{
    assert((seq!['0', 'x'] + s).subrange(2, s.len() + 2int) =~= s);
    if s.len() >= 2 && s[0] == '0' && s[1] == 'x' {
        lemma_strip_hex_prefixes(s.subrange(2, s.len() as int));
    }
}

/// Reads a nonce answer: hexadecimal, with or without one `0x` prefix.
pub fn parse_nonce_response(response: &str) -> (r: Option<u64>)
    ensures
        r == from_str_radix_16(strip_hex_prefix(response@)),
{
    let n = response.unicode_len();
    if n >= 2 && response.get_char(0) == '0' && response.get_char(1) == 'x' {
        parse_hex_u64(response.substring_char(2, n))
    } else {
        parse_hex_u64(response)
    }
}

/// Reads a gas-estimate answer: hexadecimal after any number of leading
/// `0x`.
pub fn parse_gas_estimate_response(response: &str) -> (r: Option<u64>)
    ensures
        r == from_str_radix_16(strip_hex_prefixes(response@)),
{
    let mut rest: &str = response;
    loop
        invariant
            strip_hex_prefixes(rest@) == strip_hex_prefixes(response@),
        ensures
            strip_hex_prefixes(rest@) == strip_hex_prefixes(response@),
            !(rest@.len() >= 2 && rest@[0] == '0' && rest@[1] == 'x'),
        decreases rest@.len(),
    {
        let n = rest.unicode_len();
        if n >= 2 && rest.get_char(0) == '0' && rest.get_char(1) == 'x' {
            rest = rest.substring_char(2, n);
        } else {
            break;
        }
    }
    parse_hex_u64(rest)
}

/// Whether an `eth_getCode` answer, with surrounding whitespace removed,
/// shows deployed code: anything but `0x` and `0x0`.
pub fn code_is_deployed(code: &str) -> (b: bool)
    ensures
        b == !(code@ == "0x"@ || code@ == "0x0"@),
{
    proof {
        reveal_strlit("0x");
        reveal_strlit("0x0");
    }
    let n = code.unicode_len();
    if n == 2 && code.get_char(0) == '0' && code.get_char(1) == 'x' {
        assert(code@ =~= "0x"@);
        return false;
    }
    if n == 3 && code.get_char(0) == '0' && code.get_char(1) == 'x' && code.get_char(2) == '0' {
        assert(code@ =~= "0x0"@);
        return false;
    }
    proof {
        if code@ == "0x"@ {
            assert(code@[0] == '0' && code@[1] == 'x');
        }
        if code@ == "0x0"@ {
            assert(code@[0] == '0' && code@[1] == 'x' && code@[2] == '0');
        }
    }
    true
}

/// The highest nonce among the nodes that answered, walking the answers in
/// order and keeping the larger value.
pub open spec fn highest_answer(answers: Seq<Option<u64>>) -> Option<u64>
    decreases answers.len(),
{
    if answers.len() == 0 {
        None
    } else {
        match (highest_answer(answers.drop_last()), answers.last()) {
            (None, last) => last,
            (Some(h), None) => Some(h),
            (Some(h), Some(n)) => Some(if h >= n { h } else { n }),
        }
    }
}

/// The highest answer is missing exactly when no node answered, and
/// otherwise it is one of the answers and no answer exceeds it.
pub proof fn lemma_highest_answer(answers: Seq<Option<u64>>)
    ensures
        highest_answer(answers) is None <==> (forall|k: int| 0 <= k < answers.len() ==> answers[k] is None),
        highest_answer(answers) matches Some(m) ==> (exists|k: int| 0 <= k < answers.len() && answers[k] == Some(m)),
        highest_answer(answers) matches Some(m) ==> (forall|k: int| 0 <= k < answers.len() && answers[k] is Some
            ==> answers[k]->0 <= m),
    decreases answers.len(),
{
    if answers.len() > 0 {
        let prefix = answers.drop_last();
        lemma_highest_answer(prefix);
        assert forall|k: int| 0 <= k < prefix.len() implies prefix[k] == answers[k] by {}
        let last_k = answers.len() - 1;
        assert(answers[last_k] == answers.last());
        if highest_answer(prefix) is Some {
            let m0 = highest_answer(prefix)->0;
            let k0 = choose|k: int| 0 <= k < prefix.len() && prefix[k] == Some(m0);
            assert(answers[k0] == Some(m0));
        }
    }
}

/// The highest nonce reported by any node, or `None` when none answered.
pub fn highest_nonce(answers: &[Option<u64>]) -> (r: Option<u64>)
    ensures
        r == highest_answer(answers@),
{
    let mut highest: Option<u64> = None;
    let mut i: usize = 0;
    while i < answers.len()
        invariant
            0 <= i <= answers@.len(),
            highest == highest_answer(answers@.subrange(0, i as int)),
        decreases answers@.len() - i,
    {
        let a = answers[i];
        proof {
            let next = answers@.subrange(0, i + 1);
            assert(next.drop_last() == answers@.subrange(0, i as int));
            assert(next.last() == a);
        }
        highest = match (highest, a) {
            (None, last) => last,
            (Some(h), None) => Some(h),
            (Some(h), Some(n)) => Some(if h >= n { h } else { n }),
        };
        i = i + 1;
    }
    assert(answers@.subrange(0, answers@.len() as int) == answers@);
    highest
}

/// The first answer that was read successfully.
pub open spec fn first_answer(answers: Seq<Option<u64>>) -> Option<u64>
    decreases answers.len(),
{
    if answers.len() == 0 {
        None
    } else if answers[0] is Some {
        answers[0]
    } else {
        first_answer(answers.drop_first())
    }
}

/// The first answer is missing exactly when no node answered; otherwise it
/// is the answer of a node before which no node answered.
pub proof fn lemma_first_answer(answers: Seq<Option<u64>>)
    ensures
        first_answer(answers) is None <==> (forall|k: int| 0 <= k < answers.len() ==> answers[k] is None),
        first_answer(answers) is Some ==> (exists|k: int| 0 <= k < answers.len() && answers[k] == first_answer(answers)
            && forall|j: int| 0 <= j < k ==> answers[j] is None),
    decreases answers.len(),
{
    if answers.len() > 0 {
        let rest = answers.drop_first();
        lemma_first_answer(rest);
        assert forall|k: int| 0 <= k < rest.len() implies rest[k] == answers[k + 1] by {}
        if answers[0] is None {
            if first_answer(rest) is Some {
                let k0 = choose|k: int| 0 <= k < rest.len() && rest[k] == first_answer(rest)
                    && forall|j: int| 0 <= j < k ==> rest[j] is None;
                assert(answers[k0 + 1] == first_answer(answers));
                assert forall|j: int| 0 <= j < k0 + 1 implies answers[j] is None by {
                    if j > 0 {
                        assert(rest[j - 1] is None);
                    }
                }
            } else {
                assert forall|k: int| 0 <= k < answers.len() implies answers[k] is None by {
                    if k > 0 {
                        assert(rest[k - 1] is None);
                    }
                }
            }
        }
    }
}

/// The first gas estimate that some node returned, trying the nodes in
/// order.
pub fn first_estimate(answers: &[Option<u64>]) -> (r: Option<u64>)
    ensures
        r == first_answer(answers@),
{
    let mut i: usize = 0;
    assert(answers@.subrange(0, answers@.len() as int) == answers@);
    while i < answers.len()
        invariant
            0 <= i <= answers@.len(),
            first_answer(answers@) == first_answer(answers@.subrange(i as int, answers@.len() as int)),
        decreases answers@.len() - i,
    {
        let tail = Ghost(answers@.subrange(i as int, answers@.len() as int));
        assert(tail@.drop_first() == answers@.subrange(i + 1, answers@.len() as int));
        assert(tail@[0] == answers@[i as int]);
        if answers[i].is_some() {
            return answers[i];
        }
        i = i + 1;
    }
    None
}

/// Nonce to keep after asking the nodes: the fresh answer, or the cached
/// value when every node failed; `None` (an error) when there is neither.
pub fn nonce_or_cached(latest: Option<u64>, cached: Option<u64>) -> (r: Option<u64>)
    ensures
        latest is Some ==> r == latest,
        latest is None ==> r == cached,
{
    match latest {
        Some(n) => Some(n),
        None => cached,
    }
}

/// Number of parallel workers of a nonce resync.
pub const RESYNC_CONCURRENCY: usize = 8;

/// Workers used for `size` accounts: at most `RESYNC_CONCURRENCY`, at most
/// one per account, at least one.
pub open spec fn resync_workers(size: nat) -> nat {
    if size < RESYNC_CONCURRENCY { if size == 0 { 1 } else { size } } else { RESYNC_CONCURRENCY as nat }
}

/// Accounts per worker: `size` divided by the number of workers, rounded up.
pub open spec fn resync_chunk_len(size: nat) -> nat {
    let w = resync_workers(size);
    size / w + if size % w == 0 { 0nat } else { 1nat }
}

/// Account range `[start, end)` of worker `w`.
pub open spec fn resync_range(size: nat, w: nat) -> (nat, nat) {
    let c = resync_chunk_len(size);
    (if w * c < size { w * c } else { size }, if (w + 1) * c < size { ((w + 1) * c) as nat } else { size })
}

/// Whether worker `w` has any account to query.
pub open spec fn resync_range_nonempty(size: nat, w: nat) -> bool {
    resync_range(size, w).0 < resync_range(size, w).1
}

proof fn lemma_chunk_covers(size: nat)
    ensures
        resync_workers(size) * resync_chunk_len(size) >= size,
        resync_workers(size) * resync_chunk_len(size) < size + resync_workers(size),
        resync_workers(size) >= 1,
{
    let w = resync_workers(size);
    let q = size / w;
    let r = size % w;
    assert(size == w * q + r) by (nonlinear_arith)
        requires w >= 1, q == size / w, r == size % w;
    assert(0 <= r < w) by (nonlinear_arith)
        requires w >= 1, r == size % w;
    assert(w * resync_chunk_len(size) >= size) by (nonlinear_arith)
        requires size == w * q + r, 0 <= r < w, resync_chunk_len(size) == q + if r == 0 { 0nat } else { 1nat };
    assert(w * resync_chunk_len(size) < size + w) by (nonlinear_arith)
        requires size == w * q + r, 0 <= r < w, resync_chunk_len(size) == q + if r == 0 { 0nat } else { 1nat };
}

proof fn lemma_range_monotone(size: nat, j: nat, w: nat)
    requires
        j <= w,
        !resync_range_nonempty(size, j),
    ensures
        !resync_range_nonempty(size, w),
{
    let c = resync_chunk_len(size);
    assert(j * c <= w * c) by (nonlinear_arith)
        requires j <= w;
    assert((w + 1) * c == w * c + c) by (nonlinear_arith);
    assert((j + 1) * c == j * c + c) by (nonlinear_arith);
}

/// Splits `size` accounts into the contiguous, non-empty ranges of the resync
/// workers, in order: worker `w` takes accounts
/// `[w * chunk, min((w + 1) * chunk, size))`; workers with nothing left to do
/// are dropped.
pub fn resync_chunks(size: usize) -> (chunks: Vec<(usize, usize)>)
    requires
        size + RESYNC_CONCURRENCY <= usize::MAX,
    ensures
        chunks@.len() <= resync_workers(size as nat),
        chunks@.len() <= 8,
        forall|k: int| 0 <= k < chunks@.len() ==> (#[trigger] chunks@[k]).0 == resync_range(size as nat, k as nat).0
            && chunks@[k].1 == resync_range(size as nat, k as nat).1,
        forall|k: int| 0 <= k < chunks@.len() ==> (#[trigger] chunks@[k]).0 < chunks@[k].1,
        forall|w: nat| chunks@.len() <= w ==> !#[trigger] resync_range_nonempty(size as nat, w),
{
    let workers: usize = if size < RESYNC_CONCURRENCY { if size == 0 { 1 } else { size } } else { RESYNC_CONCURRENCY };
    let chunk: usize = size / workers + if size % workers == 0 { 0 } else { 1 };
    proof {
        lemma_chunk_covers(size as nat);
        assert(chunk == resync_chunk_len(size as nat));
        assert(chunk <= size) by (nonlinear_arith)
            requires workers >= 1, chunk == size / workers + if size % workers == 0 { 0nat } else { 1nat },
                size >= 1 || chunk == 0,
            {
                if size >= 1 {
                    assert(size / workers <= size);
                    if size % workers != 0 {
                        assert(workers >= 2);
                        assert(size / workers < size);
                    }
                }
            }
    }
    let mut chunks: Vec<(usize, usize)> = Vec::new();
    let mut w: usize = 0;
    while w < workers
        invariant
            workers == resync_workers(size as nat),
            chunk == resync_chunk_len(size as nat),
            workers * chunk >= size,
            workers * chunk < size + workers,
            chunk <= size,
            size + RESYNC_CONCURRENCY <= usize::MAX,
            workers <= RESYNC_CONCURRENCY,
            0 <= w <= workers,
            chunks@.len() <= w,
            forall|k: int| 0 <= k < chunks@.len() ==> (#[trigger] chunks@[k]).0 == resync_range(size as nat, k as nat).0
                && chunks@[k].1 == resync_range(size as nat, k as nat).1,
            forall|k: int| 0 <= k < chunks@.len() ==> (#[trigger] chunks@[k]).0 < chunks@[k].1,
            forall|j: nat| chunks@.len() <= j < w ==> !#[trigger] resync_range_nonempty(size as nat, j),
        decreases workers - w,
    {
        assert((w + 1) * chunk <= workers * chunk) by (nonlinear_arith)
            requires w + 1 <= workers;
        assert(w * chunk <= (w + 1) * chunk) by (nonlinear_arith);
        let start_raw: usize = w * chunk;
        let end_raw: usize = (w + 1) * chunk;
        let start: usize = if start_raw < size { start_raw } else { size };
        let end: usize = if end_raw < size { end_raw } else { size };
        if start < end {
            proof {
                if chunks@.len() < w {
                    lemma_range_monotone(size as nat, chunks@.len() as nat, w as nat);
                }
            }
            chunks.push((start, end));
        }
        w = w + 1;
    }
    proof {
        assert forall|j: nat| chunks@.len() <= j implies !#[trigger] resync_range_nonempty(size as nat, j) by {
            if j >= workers {
                let c = chunk as nat;
                assert(j * c >= size) by (nonlinear_arith)
                    requires j >= workers, workers * c >= size;
                assert((j + 1) * c >= j * c) by (nonlinear_arith);
            }
        }
    }
    chunks
}

/// Whether some range of `chunks` holds index `i`.
pub open spec fn some_range_holds(chunks: Seq<(usize, usize)>, i: nat) -> bool {
    exists|k: int| 0 <= k < chunks.len() && (#[trigger] chunks[k]).0 <= i < chunks[k].1
}

/// Every account is covered by exactly one resync worker range: the ranges
/// returned for `size` accounts are disjoint and together hold every index
/// below `size`.
pub proof fn lemma_resync_ranges_partition(size: nat, chunks: Seq<(usize, usize)>)
    requires
        forall|k: int| 0 <= k < chunks.len() ==> (#[trigger] chunks[k]).0 == resync_range(size, k as nat).0
            && chunks[k].1 == resync_range(size, k as nat).1,
        forall|w: nat| chunks.len() <= w ==> !#[trigger] resync_range_nonempty(size, w),
    ensures
        forall|i: nat| i < size ==> #[trigger] some_range_holds(chunks, i),
        forall|k: int, l: int| 0 <= k < l < chunks.len() ==> (#[trigger] chunks[k]).1 <= (#[trigger] chunks[l]).0,
{
    let c = resync_chunk_len(size);
    lemma_chunk_covers(size);
    assert forall|i: nat| i < size implies #[trigger] some_range_holds(chunks, i) by {
        assert(c > 0) by (nonlinear_arith)
            requires resync_workers(size) * c >= size, i < size;
        let k = i / c;
        assert(k * c <= i && i < (k + 1) * c) by (nonlinear_arith)
            requires c > 0, k == i / c;
        assert(resync_range_nonempty(size, k));
        assert(k < chunks.len());
        assert(chunks[k as int].0 <= i < chunks[k as int].1);
    }
    assert forall|k: int, l: int| 0 <= k < l < chunks.len() implies (#[trigger] chunks[k]).1 <= (#[trigger] chunks[l]).0 by {
        assert((k + 1) * c <= l * c) by (nonlinear_arith)
            requires k + 1 <= l, c >= 0;
    }
}

/// Outcome of one fire-and-forget submission as seen by the sender.
#[derive(PartialEq, Eq, Structural, Clone, Copy, Debug)]
pub enum AckOutcome {
    /// The node accepted the transaction; the cached nonce already moved on.
    Accepted,
    /// The node rejected the transaction sent from this account index; its
    /// cached nonce must be refreshed from the chain.
    Rejected(usize),
}

/// The accounts to refresh after a batch of outcomes: each rejected account
/// once.
pub fn rejected_accounts(acks: &[AckOutcome]) -> (dirty: Vec<usize>)
    ensures
        forall|x: usize| dirty@.contains(x) <==> acks@.contains(AckOutcome::Rejected(x)),
        forall|k: int, l: int| 0 <= k < l < dirty@.len() ==> dirty@[k] != dirty@[l],
{
    let mut dirty: Vec<usize> = Vec::new();
    let mut i: usize = 0;
    while i < acks.len()
        invariant
            0 <= i <= acks@.len(),
            forall|x: usize| dirty@.contains(x) <==> acks@.subrange(0, i as int).contains(AckOutcome::Rejected(x)),
            forall|k: int, l: int| 0 <= k < l < dirty@.len() ==> dirty@[k] != dirty@[l],
        decreases acks@.len() - i,
    {
        let a = acks[i];
        let ghost prev = acks@.subrange(0, i as int);
        let ghost next = acks@.subrange(0, i + 1);
        assert(next == prev.push(a));
        let ghost old_dirty = dirty@;
        match a {
            AckOutcome::Accepted => {},
            AckOutcome::Rejected(idx) => {
                let mut seen = false;
                let mut j: usize = 0;
                while j < dirty.len()
                    invariant
                        0 <= j <= dirty@.len(),
                        dirty@ == old_dirty,
                        seen <==> (exists|k: int| 0 <= k < j && dirty@[k] == idx),
                    decreases dirty@.len() - j,
                {
                    if dirty[j] == idx {
                        seen = true;
                    }
                    j = j + 1;
                }
                if !seen {
                    dirty.push(idx);
                }
            },
        }
        proof {
            assert forall|x: usize| dirty@.contains(x) <==> next.contains(AckOutcome::Rejected(x)) by {
                if next.contains(AckOutcome::Rejected(x)) {
                    let k = choose|k: int| 0 <= k < next.len() && next[k] == AckOutcome::Rejected(x);
                    if k < prev.len() {
                        assert(prev[k] == AckOutcome::Rejected(x));
                        assert(old_dirty.contains(x));
                        let m = choose|m: int| 0 <= m < old_dirty.len() && old_dirty[m] == x;
                        assert(dirty@[m] == x);
                    } else {
                        assert(a == AckOutcome::Rejected(x));
                        if old_dirty.contains(x) {
                            let m = choose|m: int| 0 <= m < old_dirty.len() && old_dirty[m] == x;
                            assert(dirty@[m] == x);
                        } else {
                            assert(dirty@[dirty@.len() - 1] == x);
                        }
                    }
                }
                if dirty@.contains(x) {
                    let m = choose|m: int| 0 <= m < dirty@.len() && dirty@[m] == x;
                    if m < old_dirty.len() {
                        assert(old_dirty[m] == x);
                        assert(old_dirty.contains(x));
                        let k = choose|k: int| 0 <= k < prev.len() && prev[k] == AckOutcome::Rejected(x);
                        assert(next[k] == AckOutcome::Rejected(x));
                    } else {
                        assert(next[i as int] == AckOutcome::Rejected(x));
                    }
                }
            }
        }
        i = i + 1;
    }
    assert(acks@.subrange(0, acks@.len() as int) == acks@);
    dirty
}

} // verus!
