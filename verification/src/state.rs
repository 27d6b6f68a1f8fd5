//! The process-wide nucleus state: the application descriptor and the
//! pending call table.
//!
//! The table maps a call descriptor to an optional terminal value: absent
//! key, never requested; key present with empty value, dispatched and
//! awaiting completion; key present with a value, terminal. Keys are unique,
//! no key is ever removed, and a terminal value, once written, never changes.
//! Only the reducer (see [`crate::reducer`]) mutates the table.

use vstd::prelude::*;

use crate::call::{CallId, ZomeFnCall};
use crate::dna::{Dna, DnaView};
use crate::error::{HolochainError, HolochainErrorView};

verus! {

/// The terminal value of one call: the returned payload, or the failure.
pub type ZomeFnResult = Result<String, HolochainError>;

/// Mathematical model of a terminal value.
pub open spec fn result_view(r: ZomeFnResult) -> Result<Seq<char>, HolochainErrorView> {
    match r {
        Ok(s) => Ok(s@),
        Err(e) => Err(e@),
    }
}

/// Mathematical model of one table slot: empty means dispatched but not yet
/// completed; a value is terminal.
pub open spec fn record_view(r: Option<ZomeFnResult>) -> Option<
    Result<Seq<char>, HolochainErrorView>,
> {
    match r {
        None => None,
        Some(x) => Some(result_view(x)),
    }
}

/// Duplicate a terminal value; the duplicate models identically.
pub fn clone_zome_fn_result(r: &ZomeFnResult) -> (c: ZomeFnResult)
    ensures
        result_view(c) == result_view(*r),
{
    match r {
        Ok(s) => Ok(s.clone()),
        Err(e) => Err(e.clone()),
    }
}

/// First table entry whose key equals `k`, if any.
pub open spec fn table_get(
    entries: Seq<(CallId, Option<Result<Seq<char>, HolochainErrorView>>)>,
    k: CallId,
) -> Option<Option<Result<Seq<char>, HolochainErrorView>>>
    decreases entries.len(),
{
    if entries.len() == 0 {
        None
    } else if entries[0].0 == k {
        Some(entries[0].1)
    } else {
        table_get(entries.drop_first(), k)
    }
}

/// Each descriptor keys at most one table entry.
pub open spec fn table_unique(
    entries: Seq<(CallId, Option<Result<Seq<char>, HolochainErrorView>>)>,
) -> bool {
    forall|i: int, j: int|
        0 <= i < j < entries.len() ==> #[trigger] entries[i].0 != #[trigger] entries[j].0
}

/// A key is absent exactly when no entry carries it.
pub proof fn lemma_table_get_absent(
    entries: Seq<(CallId, Option<Result<Seq<char>, HolochainErrorView>>)>,
    k: CallId,
)
    ensures
        (table_get(entries, k) is None) <==> (forall|i: int|
            0 <= i < entries.len() ==> #[trigger] entries[i].0 != k),
    decreases entries.len(),
{
    if entries.len() == 0 {
    } else if entries[0].0 == k {
    } else {
        lemma_table_get_absent(entries.drop_first(), k);
        assert forall|i: int|
            0 <= i < entries.drop_first().len() implies #[trigger] entries.drop_first()[i]
            == entries[i + 1] by {}
        if table_get(entries, k) is None {
            assert forall|i: int| 0 <= i < entries.len() implies #[trigger] entries[i].0 != k by {
                if i > 0 {
                    assert(entries.drop_first()[i - 1] == entries[i]);
                }
            }
        }
    }
}

/// Updating the first entry that carries `k` stores the new slot under `k`
/// and leaves every other key's slot unchanged.
pub proof fn lemma_table_get_update(
    entries: Seq<(CallId, Option<Result<Seq<char>, HolochainErrorView>>)>,
    i: int,
    k: CallId,
    v: Option<Result<Seq<char>, HolochainErrorView>>,
)
    requires
        0 <= i < entries.len(),
        entries[i].0 == k,
        forall|j: int| 0 <= j < i ==> #[trigger] entries[j].0 != k,
    ensures
        table_get(entries.update(i, (k, v)), k) == Some(v),
        forall|k2: CallId|
            k2 != k ==> #[trigger] table_get(entries.update(i, (k, v)), k2) == table_get(
                entries,
                k2,
            ),
    decreases i,
{
    let updated = entries.update(i, (k, v));
    if i == 0 {
        assert(updated[0] == (k, v));
        assert(updated.drop_first() =~= entries.drop_first());
        assert forall|k2: CallId|
            k2 != k implies #[trigger] table_get(updated, k2) == table_get(entries, k2) by {
            assert(table_get(updated, k2) == table_get(updated.drop_first(), k2));
            assert(table_get(entries, k2) == table_get(entries.drop_first(), k2));
        }
    } else {
        assert(updated[0] == entries[0]);
        assert(entries[0].0 != k);
        assert(updated.drop_first() =~= entries.drop_first().update(i - 1, (k, v)));
        assert(entries.drop_first()[i - 1] == entries[i]);
        assert forall|j: int| 0 <= j < i - 1 implies #[trigger] entries.drop_first()[j].0 != k by {
            assert(entries.drop_first()[j] == entries[j + 1]);
        }
        lemma_table_get_update(entries.drop_first(), i - 1, k, v);
        assert forall|k2: CallId|
            k2 != k implies #[trigger] table_get(updated, k2) == table_get(entries, k2) by {
            if entries[0].0 == k2 {
                assert(table_get(updated, k2) == Some(updated[0].1));
                assert(table_get(entries, k2) == Some(entries[0].1));
            } else {
                assert(table_get(updated, k2) == table_get(updated.drop_first(), k2));
                assert(table_get(entries, k2) == table_get(entries.drop_first(), k2));
                assert(table_get(entries.drop_first().update(i - 1, (k, v)), k2) == table_get(
                    entries.drop_first(),
                    k2,
                ));
            }
        }
    }
}

/// Appending an entry under an absent key stores its slot under that key and
/// leaves every other key's slot unchanged.
pub proof fn lemma_table_get_push(
    entries: Seq<(CallId, Option<Result<Seq<char>, HolochainErrorView>>)>,
    k: CallId,
    v: Option<Result<Seq<char>, HolochainErrorView>>,
)
    requires
        table_get(entries, k) is None,
    ensures
        table_get(entries.push((k, v)), k) == Some(v),
        forall|k2: CallId|
            k2 != k ==> #[trigger] table_get(entries.push((k, v)), k2) == table_get(entries, k2),
    decreases entries.len(),
{
    let pushed = entries.push((k, v));
    if entries.len() == 0 {
        assert(pushed[0] == (k, v));
        assert(pushed.drop_first() =~= Seq::<
            (CallId, Option<Result<Seq<char>, HolochainErrorView>>),
        >::empty());
        assert forall|k2: CallId|
            k2 != k implies #[trigger] table_get(pushed, k2) == table_get(entries, k2) by {
            assert(table_get(pushed, k2) == table_get(pushed.drop_first(), k2));
        }
    } else {
        assert(pushed[0] == entries[0]);
        assert(pushed.drop_first() =~= entries.drop_first().push((k, v)));
        lemma_table_get_push(entries.drop_first(), k, v);
        assert forall|k2: CallId|
            k2 != k implies #[trigger] table_get(pushed, k2) == table_get(entries, k2) by {
            if entries[0].0 == k2 {
                assert(table_get(pushed, k2) == Some(pushed[0].1));
                assert(table_get(entries, k2) == Some(entries[0].1));
            } else {
                assert(table_get(pushed, k2) == table_get(pushed.drop_first(), k2));
                assert(table_get(entries, k2) == table_get(entries.drop_first(), k2));
                assert(table_get(entries.drop_first().push((k, v)), k2) == table_get(
                    entries.drop_first(),
                    k2,
                ));
            }
        }
    }
}

/// With unique keys, no descriptor ever keys two entries: any two entries
/// that carry the same key are the same entry.
pub proof fn lemma_table_at_most_one_entry(
    entries: Seq<(CallId, Option<Result<Seq<char>, HolochainErrorView>>)>,
    k: CallId,
    i: int,
    j: int,
)
    requires
        table_unique(entries),
        0 <= i < entries.len(),
        0 <= j < entries.len(),
        entries[i].0 == k,
        entries[j].0 == k,
    ensures
        i == j,
{
}

/// The process-wide state: the loaded application descriptor, if any, and
/// the pending call table.
pub struct NucleusState {
    pub dna: Option<Dna>,
    pub zome_calls: Vec<(ZomeFnCall, Option<ZomeFnResult>)>,
}

/// Mathematical model of the nucleus state.
pub ghost struct NucleusStateView {
    pub dna: Option<DnaView>,
    pub zome_calls: Seq<(CallId, Option<Result<Seq<char>, HolochainErrorView>>)>,
}

impl View for NucleusState {
    type V = NucleusStateView;

    open spec fn view(&self) -> NucleusStateView {
        NucleusStateView {
            dna: match self.dna {
                None => None,
                Some(d) => Some(d@),
            },
            zome_calls: self.zome_calls@.map(
                |i: int, e: (ZomeFnCall, Option<ZomeFnResult>)| (e.0@, record_view(e.1)),
            ),
        }
    }
}

impl NucleusState {
    /// Well-formed: the table's keys are unique.
    pub open spec fn wf(&self) -> bool {
        table_unique(self@.zome_calls)
    }

    /// Fresh state: no application loaded, no call ever requested.
    pub fn new() -> (s: NucleusState)
        ensures
            s@.dna is None,
            s@.zome_calls.len() == 0,
            s.wf(),
    {
        let s = NucleusState { dna: None, zome_calls: Vec::new() };
        proof {
            assert(s@.zome_calls =~= Seq::<
                (CallId, Option<Result<Seq<char>, HolochainErrorView>>),
            >::empty());
        }
        s
    }

    /// Decide well-formedness at run time: are the table's keys unique?
    pub fn table_keys_unique(&self) -> (b: bool)
        ensures
            b == self.wf(),
    {
        let n = self.zome_calls.len();
        let mut i: usize = 0;
        while i < n
            invariant
                i <= n,
                n == self.zome_calls.len(),
                forall|a: int, b: int|
                    0 <= a < b < n && a < i ==> #[trigger] self@.zome_calls[a].0
                        != #[trigger] self@.zome_calls[b].0,
            decreases n - i,
        {
            let mut j: usize = i + 1;
            while j < n
                invariant
                    i < j <= n,
                    n == self.zome_calls.len(),
                    forall|b: int|
                        i < b < j ==> self@.zome_calls[i as int].0 != #[trigger] self@.zome_calls[b].0,
                decreases n - j,
            {
                proof {
                    assert(self@.zome_calls[i as int] == (
                        self.zome_calls@[i as int].0@,
                        record_view(self.zome_calls@[i as int].1),
                    ));
                    assert(self@.zome_calls[j as int] == (
                        self.zome_calls@[j as int].0@,
                        record_view(self.zome_calls@[j as int].1),
                    ));
                }
                if self.zome_calls[i].0 == self.zome_calls[j].0 {
                    proof {
                        assert(self@.zome_calls[i as int].0 == self@.zome_calls[j as int].0);
                        assert(!table_unique(self@.zome_calls));
                    }
                    return false;
                }
                j = j + 1;
            }
            i = i + 1;
        }
        true
    }

    /// Index of the entry keyed by `zome_call`, if any; scans in order, so
    /// the result is the first (and, with unique keys, only) occurrence.
    fn find_index(&self, zome_call: &ZomeFnCall) -> (r: Option<usize>)
        ensures
            match r {
                Some(i) => i < self.zome_calls.len() && self@.zome_calls[i as int].0 == zome_call@
                    && forall|j: int|
                    0 <= j < i ==> #[trigger] self@.zome_calls[j].0 != zome_call@,
                None => forall|j: int|
                    0 <= j < self@.zome_calls.len() ==> #[trigger] self@.zome_calls[j].0
                        != zome_call@,
            },
    {
        let n = self.zome_calls.len();
        let mut i: usize = 0;
        while i < n
            invariant
                i <= n,
                n == self.zome_calls.len(),
                forall|j: int| 0 <= j < i ==> #[trigger] self@.zome_calls[j].0 != zome_call@,
            decreases n - i,
        {
            proof {
                assert(self@.zome_calls[i as int] == (
                    self.zome_calls@[i as int].0@,
                    record_view(self.zome_calls@[i as int].1),
                ));
            }
            if self.zome_calls[i].0 == *zome_call {
                return Some(i);
            }
            i = i + 1;
        }
        None
    }

    /// The terminal value recorded for `zome_call`, if one is present. An
    /// absent key and a still-pending entry both answer `None`.
    pub fn zome_call_result(&self, zome_call: &ZomeFnCall) -> (r: Option<&ZomeFnResult>)
        ensures
            match r {
                Some(v) => table_get(self@.zome_calls, zome_call@) == Some(
                    Some(result_view(*v)),
                ),
                None => table_get(self@.zome_calls, zome_call@) is None || table_get(
                    self@.zome_calls,
                    zome_call@,
                ) == Some(None::<Result<Seq<char>, HolochainErrorView>>),
            },
    {
        match self.find_index(zome_call) {
            Some(i) => {
                proof {
                    assert(self@.zome_calls[i as int] == (
                        self.zome_calls@[i as int].0@,
                        record_view(self.zome_calls@[i as int].1),
                    ));
                    lemma_table_get_first_occurrence(self@.zome_calls, i as int, zome_call@);
                }
                match &self.zome_calls[i].1 {
                    Some(v) => Some(v),
                    None => None,
                }
            },
            None => {
                proof {
                    lemma_table_get_absent(self@.zome_calls, zome_call@);
                }
                None
            },
        }
    }

    /// Store `value` under `zome_call`: overwrite the slot if the key is
    /// present, append the entry if it is not.
    pub(crate) fn put_zome_call(&mut self, zome_call: ZomeFnCall, value: Option<ZomeFnResult>)
        requires
            old(self).wf(),
        ensures
            final(self).wf(),
            final(self)@.dna == old(self)@.dna,
            table_get(final(self)@.zome_calls, zome_call@) == Some(record_view(value)),
            forall|k: CallId|
                k != zome_call@ ==> #[trigger] table_get(final(self)@.zome_calls, k) == table_get(
                    old(self)@.zome_calls,
                    k,
                ),
    {
        let ghost pre = self@.zome_calls;
        let ghost pair = (zome_call@, record_view(value));
        match self.find_index(&zome_call) {
            Some(i) => {
                let _ = self.zome_calls.remove(i);
                self.zome_calls.insert(i, (zome_call, value));
                proof {
                    assert(self@.zome_calls =~= pre.update(i as int, pair));
                    lemma_table_get_update(pre, i as int, pair.0, pair.1);
                    assert forall|a: int, b: int|
                        0 <= a < b < self@.zome_calls.len() implies #[trigger] self@.zome_calls[a].0
                        != #[trigger] self@.zome_calls[b].0 by {
                        assert(self@.zome_calls[a].0 == pre[a].0);
                        assert(self@.zome_calls[b].0 == pre[b].0);
                    }
                }
            },
            None => {
                self.zome_calls.push((zome_call, value));
                proof {
                    assert(self@.zome_calls =~= pre.push(pair));
                    lemma_table_get_absent(pre, pair.0);
                    lemma_table_get_push(pre, pair.0, pair.1);
                    assert forall|a: int, b: int|
                        0 <= a < b < self@.zome_calls.len() implies #[trigger] self@.zome_calls[a].0
                        != #[trigger] self@.zome_calls[b].0 by {
                        if b < pre.len() {
                            assert(self@.zome_calls[a].0 == pre[a].0);
                            assert(self@.zome_calls[b].0 == pre[b].0);
                        } else {
                            assert(self@.zome_calls[a].0 == pre[a].0);
                            assert(self@.zome_calls[b].0 == pair.0);
                        }
                    }
                }
            },
        }
    }
}

/// At the first occurrence of `k`, the table answers that entry's slot.
pub proof fn lemma_table_get_first_occurrence(
    entries: Seq<(CallId, Option<Result<Seq<char>, HolochainErrorView>>)>,
    i: int,
    k: CallId,
)
    requires
        0 <= i < entries.len(),
        entries[i].0 == k,
        forall|j: int| 0 <= j < i ==> #[trigger] entries[j].0 != k,
    ensures
        table_get(entries, k) == Some(entries[i].1),
    decreases i,
{
    if i == 0 {
    } else {
        assert(entries.drop_first()[i - 1] == entries[i]);
        assert forall|j: int| 0 <= j < i - 1 implies #[trigger] entries.drop_first()[j].0 != k by {
            assert(entries.drop_first()[j] == entries[j + 1]);
        }
        lemma_table_get_first_occurrence(entries.drop_first(), i - 1, k);
    }
}

} // verus!
