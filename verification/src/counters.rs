//! The counter ledger: six fixed categories, each split into an
//! outside-a-trust-region bucket and an inside-one bucket, plus the
//! file-level "forbids trust regions" flag.
use vstd::prelude::*;

verus! {

/// One category's pair of buckets.
pub struct Count {
    /// Occurrences observed outside any trust region.
    pub safe: u64,
    /// Occurrences observed inside one or more trust regions.
    pub unsafe_: u64,
}

/// Mathematical model of a [`Count`]: the same two buckets, unbounded.
pub ghost struct CountModel {
    pub safe: nat,
    pub unsafe_: nat,
}

impl View for Count {
    type V = CountModel;

    open spec fn view(&self) -> CountModel {
        CountModel { safe: self.safe as nat, unsafe_: self.unsafe_ as nat }
    }
}

/// What one increment does to a pair of buckets: exactly one of the two
/// grows by one, chosen by whether the node stood inside a trust region.
pub open spec fn bump(c: CountModel, in_unsafe: bool) -> CountModel {
    if in_unsafe {
        CountModel { unsafe_: c.unsafe_ + 1, ..c }
    } else {
        CountModel { safe: c.safe + 1, ..c }
    }
}

impl Count {
    /// The ledger's one operation: add the observed node to the bucket
    /// selected by the flag, leaving the other bucket untouched.
    pub fn count(&mut self, is_unsafe: bool)
        requires
            old(self).safe < u64::MAX,
            old(self).unsafe_ < u64::MAX,
        ensures
            final(self)@ == bump(old(self)@, is_unsafe),
    {
        if is_unsafe {
            self.unsafe_ = self.unsafe_ + 1;
        } else {
            self.safe = self.safe + 1;
        }
    }
}

impl Default for Count {
    /// Both buckets empty.
    fn default() -> (c: Count)
        ensures
            c@ == (CountModel { safe: 0, unsafe_: 0 }),
    {
        Count { safe: 0, unsafe_: 0 }
    }
}

/// The five counted categories.
pub struct CounterBlock {
    pub functions: Count,
    pub exprs: Count,
    pub item_impls: Count,
    pub item_traits: Count,
    pub methods: Count,
}

/// Mathematical model of a [`CounterBlock`].
pub ghost struct CounterBlockModel {
    pub functions: CountModel,
    pub exprs: CountModel,
    pub item_impls: CountModel,
    pub item_traits: CountModel,
    pub methods: CountModel,
}

impl View for CounterBlock {
    type V = CounterBlockModel;

    open spec fn view(&self) -> CounterBlockModel {
        CounterBlockModel {
            functions: self.functions@,
            exprs: self.exprs@,
            item_impls: self.item_impls@,
            item_traits: self.item_traits@,
            methods: self.methods@,
        }
    }
}

/// Sum of every bucket of every category: the ledger's total load, used to
/// bound each bucket away from overflow during a scan.
pub open spec fn block_total(b: CounterBlockModel) -> nat {
    b.functions.safe + b.functions.unsafe_ + b.exprs.safe + b.exprs.unsafe_ + b.item_impls.safe
        + b.item_impls.unsafe_ + b.item_traits.safe + b.item_traits.unsafe_ + b.methods.safe
        + b.methods.unsafe_
}

/// An empty counter block.
pub open spec fn empty_block() -> CounterBlockModel {
    CounterBlockModel {
        functions: CountModel { safe: 0, unsafe_: 0 },
        exprs: CountModel { safe: 0, unsafe_: 0 },
        item_impls: CountModel { safe: 0, unsafe_: 0 },
        item_traits: CountModel { safe: 0, unsafe_: 0 },
        methods: CountModel { safe: 0, unsafe_: 0 },
    }
}

impl Default for CounterBlock {
    /// Every bucket empty.
    fn default() -> (b: CounterBlock)
        ensures
            b@ == empty_block(),
    {
        CounterBlock {
            functions: Default::default(),
            exprs: Default::default(),
            item_impls: Default::default(),
            item_traits: Default::default(),
            methods: Default::default(),
        }
    }
}

/// Everything one file scan yields: the populated counters and the
/// file-level "forbids trust regions" flag.
pub struct RsFileMetrics {
    pub counters: CounterBlock,
    pub forbids_unsafe: bool,
}

/// Mathematical model of [`RsFileMetrics`].
pub ghost struct RsFileMetricsModel {
    pub counters: CounterBlockModel,
    pub forbids_unsafe: bool,
}

impl View for RsFileMetrics {
    type V = RsFileMetricsModel;

    open spec fn view(&self) -> RsFileMetricsModel {
        RsFileMetricsModel { counters: self.counters@, forbids_unsafe: self.forbids_unsafe }
    }
}

impl Default for RsFileMetrics {
    /// Empty counters, flag clear.
    fn default() -> (m: RsFileMetrics)
        ensures
            m@ == (RsFileMetricsModel { counters: empty_block(), forbids_unsafe: false }),
    {
        RsFileMetrics { counters: Default::default(), forbids_unsafe: false }
    }
}

} // verus!
