//! Transaction mix of the load generator: which kinds of transaction it
//! sends, which contract functions it calls, and the weights that pick them.
use vstd::prelude::*;

verus! {

/// Kind of generated transaction.
#[derive(PartialEq, Eq, Structural, Clone, Copy, Debug, Hash)]
pub enum TxType {
    /// EIP-1559 native value transfer.
    Transfer,
    /// EIP-1559 call of the ERC-20 test token.
    Erc20,
    /// EIP-1559 call of the gas-guzzling contract.
    Guzzler,
    /// Legacy (type 0) native value transfer.
    Legacy,
}

/// Function of the ERC-20 test token.
#[derive(PartialEq, Eq, Structural, Clone, Copy, Debug, Hash)]
pub enum Erc20Function {
    Transfer,
    Approve,
    TransferFrom,
}

/// Function of the gas-guzzling contract.
#[derive(PartialEq, Eq, Structural, Clone, Copy, Debug, Hash)]
pub enum GuzzlerFunction {
    HashLoop,
    StorageWrite,
    StorageRead,
    Guzzle,
    Guzzle2,
}

/// Sum of a sequence of weights.
pub open spec fn weight_sum(weights: Seq<u64>) -> nat
    decreases weights.len(),
{
    if weights.len() == 0 {
        0
    } else {
        (weights[0] + weight_sum(weights.drop_first())) as nat
    }
}

/// The bucket that `pick` falls into when buckets of the given widths are
/// laid end to end from 0; `None` when `pick` lies past the last one.
pub open spec fn bucket_of(weights: Seq<u64>, pick: int) -> Option<int>
    decreases weights.len(),
{
    if weights.len() == 0 {
        None
    } else if pick < weights[0] {
        Some(0)
    } else {
        match bucket_of(weights.drop_first(), pick - weights[0]) {
            Some(k) => Some(k + 1),
            None => None,
        }
    }
}

/// A pick below the total weight lands in a bucket of positive width.
pub proof fn lemma_bucket_of_in_range(weights: Seq<u64>, pick: int)
    requires
        0 <= pick < weight_sum(weights),
    ensures
        bucket_of(weights, pick) matches Some(k) && 0 <= k < weights.len() && weights[k] > 0,
    decreases weights.len(),
{
    if weights.len() == 0 {
    } else if pick < weights[0] {
    } else {
        lemma_bucket_of_in_range(weights.drop_first(), pick - weights[0]);
    }
}

/// Finds the bucket that `pick` falls into, walking the weights in order and
/// subtracting each weight that `pick` is not below.
pub fn pick_bucket(weights: &[u64], pick: u64) -> (r: Option<usize>)
    ensures
        match r {
            Some(k) => bucket_of(weights@, pick as int) == Some(k as int),
            None => bucket_of(weights@, pick as int) is None,
        },
{
    let mut rest: u64 = pick;
    let mut i: usize = 0;
    assert(weights@.subrange(0, weights@.len() as int) == weights@);
    while i < weights.len()
        invariant
            0 <= i <= weights@.len(),
            bucket_of(weights@, pick as int) == (match bucket_of(weights@.subrange(i as int, weights@.len() as int), rest as int) {
                Some(k) => Some(k + i),
                None => None,
            }),
        decreases weights@.len() - i,
    {
        let w = weights[i];
        let ghost tail = weights@.subrange(i as int, weights@.len() as int);
        assert(tail.drop_first() == weights@.subrange(i + 1, weights@.len() as int));
        assert(tail[0] == w);
        if rest < w {
            return Some(i);
        }
        rest = rest - w;
        i = i + 1;
    }
    assert(weights@.subrange(i as int, weights@.len() as int).len() == 0);
    None
}

/// Weights of the transaction kinds.
#[derive(Clone, Copy, Debug, Default)]
pub struct TxTypeMix {
    pub transfer: u32,
    pub erc20: u32,
    pub guzzler: u32,
    pub legacy: u32,
}

impl TxTypeMix {
    /// The weights in bucket order: transfer, ERC-20, guzzler, legacy.
    pub open spec fn spec_weights(self) -> Seq<u64> {
        seq![self.transfer as u64, self.erc20 as u64, self.guzzler as u64, self.legacy as u64]
    }

    /// The kind of the bucket with index `k`.
    pub open spec fn kind_at(k: int) -> TxType {
        if k == 0 {
            TxType::Transfer
        } else if k == 1 {
            TxType::Erc20
        } else if k == 2 {
            TxType::Guzzler
        } else {
            TxType::Legacy
        }
    }

    /// The weight of a transaction kind.
    pub open spec fn weight_of(self, t: TxType) -> u32 {
        match t {
            TxType::Transfer => self.transfer,
            TxType::Erc20 => self.erc20,
            TxType::Guzzler => self.guzzler,
            TxType::Legacy => self.legacy,
        }
    }

    /// The kind picked by `pick`; transfer when `pick` is past every bucket.
    pub open spec fn spec_kind_for_pick(self, pick: int) -> TxType {
        match bucket_of(self.spec_weights(), pick) {
            Some(k) => Self::kind_at(k),
            None => TxType::Transfer,
        }
    }

    /// Picks fall into consecutive intervals, one per kind in the order
    /// transfer, ERC-20, guzzler, legacy, each as wide as the kind's weight;
    /// the total weight is the sum of the four weights.
    pub proof fn lemma_kind_intervals(self, pick: int)
        requires
            0 <= pick,
        ensures
            weight_sum(self.spec_weights()) == self.transfer + self.erc20 + self.guzzler + self.legacy,
            pick < self.transfer ==> self.spec_kind_for_pick(pick) == TxType::Transfer,
            self.transfer <= pick < self.transfer + self.erc20 ==> self.spec_kind_for_pick(pick) == TxType::Erc20,
            self.transfer + self.erc20 <= pick < self.transfer + self.erc20 + self.guzzler
                ==> self.spec_kind_for_pick(pick) == TxType::Guzzler,
            self.transfer + self.erc20 + self.guzzler <= pick < self.transfer + self.erc20 + self.guzzler + self.legacy
                ==> self.spec_kind_for_pick(pick) == TxType::Legacy,
    {
        let w = self.spec_weights();
        assert(w.drop_first() =~= seq![self.erc20 as u64, self.guzzler as u64, self.legacy as u64]);
        assert(w.drop_first().drop_first() =~= seq![self.guzzler as u64, self.legacy as u64]);
        assert(w.drop_first().drop_first().drop_first() =~= seq![self.legacy as u64]);
        assert(w.drop_first().drop_first().drop_first().drop_first() =~= Seq::<u64>::empty());
        reveal_with_fuel(weight_sum, 5);
        reveal_with_fuel(bucket_of, 5);
    }

    /// Every kind with positive weight can be drawn: some pick below the
    /// total weight selects it.
    pub proof fn lemma_weighted_kind_reachable(self, t: TxType)
        requires
            self.weight_of(t) > 0,
        ensures
            exists|pick: int| 0 <= pick < weight_sum(self.spec_weights()) && self.spec_kind_for_pick(pick) == t,
    {
        let start: int = match t {
            TxType::Transfer => 0,
            TxType::Erc20 => self.transfer as int,
            TxType::Guzzler => self.transfer + self.erc20,
            TxType::Legacy => self.transfer + self.erc20 + self.guzzler,
        };
        self.lemma_kind_intervals(start);
    }

    /// The total weight, or `None` when it does not fit in a `u32`.
    pub fn checked_total_weight(&self) -> (r: Option<u32>)
        ensures
            weight_sum(self.spec_weights()) <= u32::MAX ==> r == Some(weight_sum(self.spec_weights()) as u32),
            weight_sum(self.spec_weights()) > u32::MAX ==> r is None,
    {
        reveal_with_fuel(weight_sum, 5);
        let a = self.transfer.checked_add(self.erc20)?;
        let b = a.checked_add(self.guzzler)?;
        b.checked_add(self.legacy)
    }

    /// Maps a random pick to a kind by walking the weighted buckets.
    pub fn kind_for_pick(&self, pick: u64) -> (t: TxType)
        ensures
            t == self.spec_kind_for_pick(pick as int),
    {
        let weights = [self.transfer as u64, self.erc20 as u64, self.guzzler as u64, self.legacy as u64];
        assert(weights@ == self.spec_weights());
        match pick_bucket(&weights, pick) {
            Some(0) => TxType::Transfer,
            Some(1) => TxType::Erc20,
            Some(2) => TxType::Guzzler,
            Some(_) => TxType::Legacy,
            None => TxType::Transfer,
        }
    }
}

/// Weights of the ERC-20 functions.
#[derive(Clone, Copy, Debug, Default)]
pub struct Erc20FnWeights {
    pub transfer: u32,
    pub approve: u32,
    pub transfer_from: u32,
}

impl Erc20FnWeights {
    /// The weights in bucket order: transfer, approve, transferFrom.
    pub open spec fn spec_weights(self) -> Seq<u64> {
        seq![self.transfer as u64, self.approve as u64, self.transfer_from as u64]
    }

    pub open spec fn function_at(k: int) -> Erc20Function {
        if k == 0 {
            Erc20Function::Transfer
        } else if k == 1 {
            Erc20Function::Approve
        } else {
            Erc20Function::TransferFrom
        }
    }

    pub open spec fn weight_of(self, f: Erc20Function) -> u32 {
        match f {
            Erc20Function::Transfer => self.transfer,
            Erc20Function::Approve => self.approve,
            Erc20Function::TransferFrom => self.transfer_from,
        }
    }

    /// The function picked by `pick`; transfer when `pick` is past every
    /// bucket.
    pub open spec fn spec_function_for_pick(self, pick: int) -> Erc20Function {
        match bucket_of(self.spec_weights(), pick) {
            Some(k) => Self::function_at(k),
            None => Erc20Function::Transfer,
        }
    }

    /// Each bucket's width is the weight of its function.
    pub proof fn lemma_bucket_weights(self)
        ensures
            forall|k: int| 0 <= k < 3 ==> #[trigger] self.spec_weights()[k] == self.weight_of(Self::function_at(k)) as u64,
    {
        assert forall|k: int| 0 <= k < 3 implies #[trigger] self.spec_weights()[k] == self.weight_of(Self::function_at(k)) as u64 by {
            if k == 0 {} else if k == 1 {} else {}
        }
    }

    /// Picks fall into consecutive intervals, one per function in the order
    /// transfer, approve, transferFrom, each as wide as its weight; the total
    /// weight is the sum of the three weights.
    pub proof fn lemma_function_intervals(self, pick: int)
        requires
            0 <= pick,
        ensures
            weight_sum(self.spec_weights()) == self.transfer + self.approve + self.transfer_from,
            pick < self.transfer ==> self.spec_function_for_pick(pick) == Erc20Function::Transfer,
            self.transfer <= pick < self.transfer + self.approve
                ==> self.spec_function_for_pick(pick) == Erc20Function::Approve,
            self.transfer + self.approve <= pick < self.transfer + self.approve + self.transfer_from
                ==> self.spec_function_for_pick(pick) == Erc20Function::TransferFrom,
    {
        let w = self.spec_weights();
        assert(w.drop_first() =~= seq![self.approve as u64, self.transfer_from as u64]);
        assert(w.drop_first().drop_first() =~= seq![self.transfer_from as u64]);
        assert(w.drop_first().drop_first().drop_first() =~= Seq::<u64>::empty());
        reveal_with_fuel(weight_sum, 4);
        reveal_with_fuel(bucket_of, 4);
    }

    /// Every function with positive weight can be drawn.
    pub proof fn lemma_weighted_function_reachable(self, f: Erc20Function)
        requires
            self.weight_of(f) > 0,
        ensures
            exists|pick: int| 0 <= pick < weight_sum(self.spec_weights()) && self.spec_function_for_pick(pick) == f,
    {
        let start: int = match f {
            Erc20Function::Transfer => 0,
            Erc20Function::Approve => self.transfer as int,
            Erc20Function::TransferFrom => self.transfer + self.approve,
        };
        self.lemma_function_intervals(start);
    }

    /// The functions with their weights, in bucket order.
    pub fn buckets(&self) -> (b: [(Erc20Function, u32); 3])
        ensures
            forall|k: int| 0 <= k < 3 ==> b@[k].0 == Self::function_at(k) && b@[k].1 == self.weight_of(b@[k].0),
    {
        [
            (Erc20Function::Transfer, self.transfer),
            (Erc20Function::Approve, self.approve),
            (Erc20Function::TransferFrom, self.transfer_from),
        ]
    }

    /// Sum of the weights.
    pub fn total_weight(&self) -> (t: u64)
        ensures
            t == weight_sum(self.spec_weights()),
    {
        reveal_with_fuel(weight_sum, 4);
        self.transfer as u64 + self.approve as u64 + self.transfer_from as u64
    }

    pub fn function_for_pick(&self, pick: u64) -> (f: Erc20Function)
        ensures
            f == self.spec_function_for_pick(pick as int),
    {
        let weights = [self.transfer as u64, self.approve as u64, self.transfer_from as u64];
        assert(weights@ == self.spec_weights());
        match pick_bucket(&weights, pick) {
            Some(0) => Erc20Function::Transfer,
            Some(1) => Erc20Function::Approve,
            Some(_) => Erc20Function::TransferFrom,
            None => Erc20Function::Transfer,
        }
    }
}

/// Weights of the gas-guzzler functions and the argument each is called with.
#[derive(Clone, Copy, Debug, Default)]
pub struct GuzzlerFnWeights {
    pub hash_loop: u32,
    pub storage_write: u32,
    pub storage_read: u32,
    pub guzzle: u32,
    pub guzzle2: u32,
    /// Iterations for `hashLoop`.
    pub hash_loop_arg: u64,
    /// Iterations for `storageWrite`.
    pub storage_write_arg: u64,
    /// Iterations for `storageRead`.
    pub storage_read_arg: u64,
    /// Gas to burn for `guzzle`.
    pub guzzle_arg: u64,
    /// Gas to burn for `guzzle2`.
    pub guzzle2_arg: u64,
}

impl GuzzlerFnWeights {
    /// The weights in bucket order: hashLoop, storageWrite, storageRead,
    /// guzzle, guzzle2.
    pub open spec fn spec_weights(self) -> Seq<u64> {
        seq![
            self.hash_loop as u64,
            self.storage_write as u64,
            self.storage_read as u64,
            self.guzzle as u64,
            self.guzzle2 as u64,
        ]
    }

    pub open spec fn function_at(k: int) -> GuzzlerFunction {
        if k == 0 {
            GuzzlerFunction::HashLoop
        } else if k == 1 {
            GuzzlerFunction::StorageWrite
        } else if k == 2 {
            GuzzlerFunction::StorageRead
        } else if k == 3 {
            GuzzlerFunction::Guzzle
        } else {
            GuzzlerFunction::Guzzle2
        }
    }

    pub open spec fn weight_of(self, f: GuzzlerFunction) -> u32 {
        match f {
            GuzzlerFunction::HashLoop => self.hash_loop,
            GuzzlerFunction::StorageWrite => self.storage_write,
            GuzzlerFunction::StorageRead => self.storage_read,
            GuzzlerFunction::Guzzle => self.guzzle,
            GuzzlerFunction::Guzzle2 => self.guzzle2,
        }
    }

    pub open spec fn spec_arg_for(self, f: GuzzlerFunction) -> u64 {
        match f {
            GuzzlerFunction::HashLoop => self.hash_loop_arg,
            GuzzlerFunction::StorageWrite => self.storage_write_arg,
            GuzzlerFunction::StorageRead => self.storage_read_arg,
            GuzzlerFunction::Guzzle => self.guzzle_arg,
            GuzzlerFunction::Guzzle2 => self.guzzle2_arg,
        }
    }

    /// The function picked by `pick`; hashLoop when `pick` is past every
    /// bucket.
    pub open spec fn spec_function_for_pick(self, pick: int) -> GuzzlerFunction {
        match bucket_of(self.spec_weights(), pick) {
            Some(k) => Self::function_at(k),
            None => GuzzlerFunction::HashLoop,
        }
    }

    /// Each bucket's width is the weight of its function.
    pub proof fn lemma_bucket_weights(self)
        ensures
            forall|k: int| 0 <= k < 5 ==> #[trigger] self.spec_weights()[k] == self.weight_of(Self::function_at(k)) as u64,
    {
        assert forall|k: int| 0 <= k < 5 implies #[trigger] self.spec_weights()[k] == self.weight_of(Self::function_at(k)) as u64 by {
            if k == 0 {} else if k == 1 {} else if k == 2 {} else if k == 3 {} else {}
        }
    }

    /// Picks fall into consecutive intervals, one per function in the order
    /// hashLoop, storageWrite, storageRead, guzzle, guzzle2, each as wide as
    /// its weight; the total weight is the sum of the five weights.
    pub proof fn lemma_function_intervals(self, pick: int)
        requires
            0 <= pick,
        ensures
            weight_sum(self.spec_weights())
                == self.hash_loop + self.storage_write + self.storage_read + self.guzzle + self.guzzle2,
            pick < self.hash_loop ==> self.spec_function_for_pick(pick) == GuzzlerFunction::HashLoop,
            self.hash_loop <= pick < self.hash_loop + self.storage_write
                ==> self.spec_function_for_pick(pick) == GuzzlerFunction::StorageWrite,
            self.hash_loop + self.storage_write <= pick < self.hash_loop + self.storage_write + self.storage_read
                ==> self.spec_function_for_pick(pick) == GuzzlerFunction::StorageRead,
            self.hash_loop + self.storage_write + self.storage_read <= pick
                < self.hash_loop + self.storage_write + self.storage_read + self.guzzle
                ==> self.spec_function_for_pick(pick) == GuzzlerFunction::Guzzle,
            self.hash_loop + self.storage_write + self.storage_read + self.guzzle <= pick
                < self.hash_loop + self.storage_write + self.storage_read + self.guzzle + self.guzzle2
                ==> self.spec_function_for_pick(pick) == GuzzlerFunction::Guzzle2,
    {
        let w = self.spec_weights();
        assert(w.drop_first() =~= seq![self.storage_write as u64, self.storage_read as u64, self.guzzle as u64, self.guzzle2 as u64]);
        assert(w.drop_first().drop_first() =~= seq![self.storage_read as u64, self.guzzle as u64, self.guzzle2 as u64]);
        assert(w.drop_first().drop_first().drop_first() =~= seq![self.guzzle as u64, self.guzzle2 as u64]);
        assert(w.drop_first().drop_first().drop_first().drop_first() =~= seq![self.guzzle2 as u64]);
        assert(w.drop_first().drop_first().drop_first().drop_first().drop_first() =~= Seq::<u64>::empty());
        reveal_with_fuel(weight_sum, 6);
        reveal_with_fuel(bucket_of, 6);
    }

    /// Every function with positive weight can be drawn.
    pub proof fn lemma_weighted_function_reachable(self, f: GuzzlerFunction)
        requires
            self.weight_of(f) > 0,
        ensures
            exists|pick: int| 0 <= pick < weight_sum(self.spec_weights()) && self.spec_function_for_pick(pick) == f,
    {
        let start: int = match f {
            GuzzlerFunction::HashLoop => 0,
            GuzzlerFunction::StorageWrite => self.hash_loop as int,
            GuzzlerFunction::StorageRead => self.hash_loop + self.storage_write,
            GuzzlerFunction::Guzzle => self.hash_loop + self.storage_write + self.storage_read,
            GuzzlerFunction::Guzzle2 => self.hash_loop + self.storage_write + self.storage_read + self.guzzle,
        };
        self.lemma_function_intervals(start);
    }

    /// Each function is called with its own configured argument.
    pub proof fn lemma_argument_of_each_function(self)
        ensures
            self.spec_arg_for(GuzzlerFunction::HashLoop) == self.hash_loop_arg,
            self.spec_arg_for(GuzzlerFunction::StorageWrite) == self.storage_write_arg,
            self.spec_arg_for(GuzzlerFunction::StorageRead) == self.storage_read_arg,
            self.spec_arg_for(GuzzlerFunction::Guzzle) == self.guzzle_arg,
            self.spec_arg_for(GuzzlerFunction::Guzzle2) == self.guzzle2_arg,
    {
    }

    /// The functions with their weights, in bucket order.
    pub fn buckets(&self) -> (b: [(GuzzlerFunction, u32); 5])
        ensures
            forall|k: int| 0 <= k < 5 ==> b@[k].0 == Self::function_at(k) && b@[k].1 == self.weight_of(b@[k].0),
    {
        [
            (GuzzlerFunction::HashLoop, self.hash_loop),
            (GuzzlerFunction::StorageWrite, self.storage_write),
            (GuzzlerFunction::StorageRead, self.storage_read),
            (GuzzlerFunction::Guzzle, self.guzzle),
            (GuzzlerFunction::Guzzle2, self.guzzle2),
        ]
    }

    /// The argument a function is called with.
    pub fn arg_for(&self, f: GuzzlerFunction) -> (a: u64)
        ensures
            a == self.spec_arg_for(f),
            f == GuzzlerFunction::HashLoop ==> a == self.hash_loop_arg,
            f == GuzzlerFunction::StorageWrite ==> a == self.storage_write_arg,
            f == GuzzlerFunction::StorageRead ==> a == self.storage_read_arg,
            f == GuzzlerFunction::Guzzle ==> a == self.guzzle_arg,
            f == GuzzlerFunction::Guzzle2 ==> a == self.guzzle2_arg,
    {
        match f {
            GuzzlerFunction::HashLoop => self.hash_loop_arg,
            GuzzlerFunction::StorageWrite => self.storage_write_arg,
            GuzzlerFunction::StorageRead => self.storage_read_arg,
            GuzzlerFunction::Guzzle => self.guzzle_arg,
            GuzzlerFunction::Guzzle2 => self.guzzle2_arg,
        }
    }

    /// Sum of the weights.
    pub fn total_weight(&self) -> (t: u64)
        ensures
            t == weight_sum(self.spec_weights()),
    {
        reveal_with_fuel(weight_sum, 6);
        self.hash_loop as u64 + self.storage_write as u64 + self.storage_read as u64 + self.guzzle as u64
            + self.guzzle2 as u64
    }

    pub fn function_for_pick(&self, pick: u64) -> (f: GuzzlerFunction)
        ensures
            f == self.spec_function_for_pick(pick as int),
    {
        let weights = [
            self.hash_loop as u64,
            self.storage_write as u64,
            self.storage_read as u64,
            self.guzzle as u64,
            self.guzzle2 as u64,
        ];
        assert(weights@ == self.spec_weights());
        match pick_bucket(&weights, pick) {
            Some(0) => GuzzlerFunction::HashLoop,
            Some(1) => GuzzlerFunction::StorageWrite,
            Some(2) => GuzzlerFunction::StorageRead,
            Some(3) => GuzzlerFunction::Guzzle,
            Some(_) => GuzzlerFunction::Guzzle2,
            None => GuzzlerFunction::HashLoop,
        }
    }
}

} // verus!
