//! An ordered, id-keyed bag of control values with typed access.
//!
//! A list knows which control ids its owner declares. Setting an id that is
//! not declared is ignored: the list is left as it was, so that every id it
//! holds is a declared one.
use vstd::prelude::*;

use crate::control::Control;
use crate::control_value::{
    AssignToRawControlValue, ControlData, ControlElement, ControlValue, FromRawControlValue,
};
use crate::error::{Error, ErrorKind};

verus! {

/// One id with its value.
#[derive(Debug)]
pub struct ControlEntry {
    pub id: u32,
    pub value: ControlValue,
}

#[derive(Debug)]
pub struct ControlList {
    declared: Vec<u32>,
    entries: Vec<ControlEntry>,
}

/// The values that a sequence of entries holds, by id; a later entry for an id
/// overrides an earlier one.
pub open spec fn entries_map(entries: Seq<ControlEntry>) -> Map<u32, ControlData>
    decreases entries.len(),
{
    if entries.len() == 0 {
        Map::empty()
    } else {
        entries_map(entries.drop_last()).insert(entries.last().id, entries.last().value@)
    }
}

/// No id occurs in two entries.
pub open spec fn unique_ids(entries: Seq<ControlEntry>) -> bool {
    forall|i: int, j: int|
        0 <= i < entries.len() && 0 <= j < entries.len() && i != j ==> #[trigger] entries[i].id
            != #[trigger] entries[j].id
}

proof fn lemma_entries_map_dom(entries: Seq<ControlEntry>, id: u32)
    ensures
        entries_map(entries).contains_key(id) <==> exists|i: int|
            0 <= i < entries.len() && #[trigger] entries[i].id == id,
    decreases entries.len(),
{
    if entries.len() > 0 {
        let rest = entries.drop_last();
        lemma_entries_map_dom(rest, id);
        if entries_map(entries).contains_key(id) && entries.last().id != id {
            let i = choose|i: int| 0 <= i < rest.len() && #[trigger] rest[i].id == id;
            assert(entries[i].id == id);
        }
        if exists|i: int| 0 <= i < entries.len() && #[trigger] entries[i].id == id {
            let i = choose|i: int| 0 <= i < entries.len() && #[trigger] entries[i].id == id;
            if i < rest.len() {
                assert(rest[i].id == id);
            }
        }
    }
}

proof fn lemma_entries_map_at(entries: Seq<ControlEntry>, i: int)
    requires
        unique_ids(entries),
        0 <= i < entries.len(),
    ensures
        entries_map(entries).contains_key(entries[i].id),
        entries_map(entries)[entries[i].id] == entries[i].value@,
    decreases entries.len(),
{
    let rest = entries.drop_last();
    if i < entries.len() - 1 {
        assert(unique_ids(rest)) by {
            assert forall|a: int, b: int|
                0 <= a < rest.len() && 0 <= b < rest.len() && a != b implies #[trigger] rest[a].id
                != #[trigger] rest[b].id by {
                assert(rest[a] == entries[a] && rest[b] == entries[b]);
            }
        }
        lemma_entries_map_at(rest, i);
        assert(rest[i] == entries[i]);
        assert(entries[i].id != entries[entries.len() - 1].id);
    }
}

proof fn lemma_entries_map_update(entries: Seq<ControlEntry>, i: int, e: ControlEntry)
    requires
        0 <= i < entries.len(),
        e.id == entries[i].id,
        unique_ids(entries),
    ensures
        entries_map(entries.update(i, e)) == entries_map(entries).insert(e.id, e.value@),
    decreases entries.len(),
{
    let rest = entries.drop_last();
    let updated = entries.update(i, e);
    if i == entries.len() - 1 {
        assert(updated.drop_last() =~= rest);
        assert(entries_map(updated) =~= entries_map(entries).insert(e.id, e.value@));
    } else {
        assert(unique_ids(rest)) by {
            assert forall|a: int, b: int|
                0 <= a < rest.len() && 0 <= b < rest.len() && a != b implies #[trigger] rest[a].id
                != #[trigger] rest[b].id by {
                assert(rest[a] == entries[a] && rest[b] == entries[b]);
            }
        }
        lemma_entries_map_update(rest, i, e);
        assert(updated.drop_last() =~= rest.update(i, e));
        assert(entries.last().id != e.id);
        assert(entries_map(updated) =~= entries_map(entries).insert(e.id, e.value@));
    }
}

impl ControlList {
    /// The control ids that the list's owner declares.
    pub closed spec fn declared(&self) -> Set<u32> {
        self.declared@.to_set()
    }

    /// The ids held, in the order they were first set.
    pub closed spec fn spec_ids(&self) -> Seq<u32> {
        self.entries@.map_values(|e: ControlEntry| e.id)
    }

    /// The values held, by id.
    pub closed spec fn values(&self) -> Map<u32, ControlData> {
        entries_map(self.entries@)
    }

    /// Every id is held once, is declared, and has a value.
    pub closed spec fn wf(&self) -> bool {
        &&& unique_ids(self.entries@)
        &&& forall|i: int| 0 <= i < self.entries@.len() ==> self.declared@.contains(#[trigger] self.entries@[i].id)
    }

    pub proof fn lemma_wf_facts(&self)
        requires
            self.wf(),
        ensures
            self.values().dom() == self.spec_ids().to_set(),
            self.values().dom().subset_of(self.declared()),
            self.spec_ids().no_duplicates(),
    {
        assert forall|id: u32| self.values().dom().contains(id) <==> self.spec_ids().to_set().contains(id) by {
            lemma_entries_map_dom(self.entries@, id);
            if self.values().dom().contains(id) {
                let i = choose|i: int| 0 <= i < self.entries@.len() && #[trigger] self.entries@[i].id == id;
                assert(self.spec_ids()[i] == id);
            }
            if self.spec_ids().to_set().contains(id) {
                let i = choose|i: int| 0 <= i < self.spec_ids().len() && self.spec_ids()[i] == id;
                assert(self.entries@[i].id == id);
            }
        }
        assert(self.values().dom() =~= self.spec_ids().to_set());
        assert forall|id: u32| self.values().dom().contains(id) implies self.declared().contains(id) by {
            lemma_entries_map_dom(self.entries@, id);
            let i = choose|i: int| 0 <= i < self.entries@.len() && #[trigger] self.entries@[i].id == id;
            assert(self.declared@.contains(self.entries@[i].id));
        }
        assert forall|i: int, j: int| 0 <= i < self.spec_ids().len() && 0 <= j < self.spec_ids().len() && i != j
            implies self.spec_ids()[i] != self.spec_ids()[j] by {
            assert(self.entries@[i].id != self.entries@[j].id);
        }
    }

    /// An empty list for an owner that declares the ids `declared`.
    pub fn new(declared: Vec<u32>) -> (r: ControlList)
        ensures
            r.wf(),
            r.declared() == declared@.to_set(),
            r.values() == Map::<u32, ControlData>::empty(),
            r.spec_ids() == Seq::<u32>::empty(),
    {
        let r = ControlList { declared, entries: Vec::new() };
        assert(r.spec_ids() =~= Seq::<u32>::empty());
        r
    }

    /// Whether the list holds a value for `id`.
    pub fn contains(&self, id: u32) -> (r: bool)
        requires
            self.wf(),
        ensures
            r == self.values().contains_key(id),
    {
        match self.position(id) {
            Some(_) => true,
            None => false,
        }
    }

    /// The number of values held.
    pub fn len(&self) -> (r: usize)
        requires
            self.wf(),
        ensures
            r == self.values().len(),
    {
        proof {
            self.lemma_wf_facts();
            self.spec_ids().unique_seq_to_set();
        }
        self.entries.len()
    }

    fn position(&self, id: u32) -> (r: Option<usize>)
        requires
            self.wf(),
        ensures
            match r {
                Some(i) => {
                    &&& i < self.entries@.len()
                    &&& self.entries@[i as int].id == id
                    &&& self.values().contains_key(id)
                    &&& self.values()[id] == self.entries@[i as int].value@
                },
                None => !self.values().contains_key(id),
            },
    {
        let n = self.entries.len();
        for i in 0..n
            invariant
                n == self.entries@.len(),
                self.wf(),
                forall|j: int| 0 <= j < i ==> #[trigger] self.entries@[j].id != id,
        {
            if self.entries[i].id == id {
                proof {
                    lemma_entries_map_at(self.entries@, i as int);
                }
                return Some(i);
            }
        }
        proof {
            lemma_entries_map_dom(self.entries@, id);
        }
        None
    }

    /// The ids held, in the order they were first set.
    pub fn ids(&self) -> (r: Vec<u32>)
        ensures
            r@ == self.spec_ids(),
    {
        let mut out: Vec<u32> = Vec::new();
        let n = self.entries.len();
        for i in 0..n
            invariant
                n == self.entries@.len(),
                out@ == self.spec_ids().subrange(0, i as int),
        {
            out.push(self.entries[i].id);
            assert(out@ =~= self.spec_ids().subrange(0, i as int + 1));
        }
        assert(self.spec_ids().subrange(0, n as int) =~= self.spec_ids());
        out
    }

    /// Whether the owner declares `id`.
    pub fn is_declared(&self, id: u32) -> (r: bool)
        ensures
            r == self.declared().contains(id),
    {
        let n = self.declared.len();
        for i in 0..n
            invariant
                n == self.declared@.len(),
                forall|j: int| 0 <= j < i ==> #[trigger] self.declared@[j] != id,
        {
            if self.declared[i] == id {
                assert(self.declared@.contains(id));
                return true;
            }
        }
        false
    }

    /// The value held for the control, read as its type: none where the list
    /// holds no value for it, a type mismatch where the value's tag does not
    /// fit the control's type.
    pub fn get<T: FromRawControlValue>(&self, control: &Control<T>) -> (r: Result<Option<T>, Error>)
        requires
            self.wf(),
        ensures
            !self.values().contains_key(control.spec_id()) ==> r == Ok::<Option<T>, Error>(None),
            self.values().contains_key(control.spec_id()) ==> match T::from_data(
                self.values()[control.spec_id()],
            ) {
                Some(v) => r matches Ok(Some(x)) && x@ == v,
                None => r == Err::<Option<T>, Error>(
                    Error { kind: ErrorKind::MarshalTypeMismatch, code: 0 },
                ),
            },
    {
        match self.position(control.id()) {
            None => Ok(None),
            Some(i) => {
                match T::from_value(&self.entries[i].value) {
                    Some(x) => Ok(Some(x)),
                    None => Err(Error { kind: ErrorKind::MarshalTypeMismatch, code: 0 }),
                }
            },
        }
    }

    /// Writes `value` for the control. An id that the owner does not declare
    /// is ignored. A new id is placed after the ids already held; an id already
    /// held keeps its place.
    pub fn set<T: AssignToRawControlValue>(&mut self, control: &Control<T>, value: T)
        requires
            old(self).wf(),
        ensures
            final(self).wf(),
            final(self).declared() == old(self).declared(),
            old(self).declared().contains(control.spec_id()) ==> final(self).values() == old(self).values().insert(control.spec_id(), T::raw_data(value@)),
            !old(self).declared().contains(control.spec_id()) ==> final(self).values() == old(self).values(),
            old(self).values().contains_key(control.spec_id()) ==> final(self).spec_ids() == old(self).spec_ids(),
            old(self).declared().contains(control.spec_id()) && !old(self).values().contains_key(
                control.spec_id(),
            ) ==> final(self).spec_ids() == old(self).spec_ids().push(control.spec_id()),
            !old(self).declared().contains(control.spec_id()) ==> final(self).spec_ids() == old(self).spec_ids(),
    {
        let mut raw = ControlValue::Empty;
        value.assign_to(&mut raw);
        self.set_value(control.id(), raw);
    }

    /// Writes a raw value for `id`, with the same rules as `set`.
    pub fn set_value(&mut self, id: u32, value: ControlValue)
        requires
            old(self).wf(),
        ensures
            final(self).wf(),
            final(self).declared() == old(self).declared(),
            old(self).declared().contains(id) ==> final(self).values() == old(self).values().insert(
                id,
                value@,
            ),
            !old(self).declared().contains(id) ==> final(self).values() == old(self).values(),
            old(self).values().contains_key(id) ==> final(self).spec_ids() == old(self).spec_ids(),
            old(self).declared().contains(id) && !old(self).values().contains_key(id)
                ==> final(self).spec_ids() == old(self).spec_ids().push(id),
            !old(self).declared().contains(id) ==> final(self).spec_ids() == old(self).spec_ids(),
    {
        if !self.is_declared(id) {
            proof {
                if self.values().contains_key(id) {
                    self.lemma_wf_facts();
                }
            }
            return;
        }
        let ghost before = self.entries@;
        let entry = ControlEntry { id, value };
        match self.position(id) {
            Some(i) => {
                self.entries.set(i, entry);
                proof {
                    lemma_entries_map_update(before, i as int, entry);
                    assert(self.entries@ == before.update(i as int, entry));
                    assert forall|a: int, b: int|
                        0 <= a < self.entries@.len() && 0 <= b < self.entries@.len() && a != b
                        implies #[trigger] self.entries@[a].id != #[trigger] self.entries@[b].id by {
                        assert(before[a].id == self.entries@[a].id);
                        assert(before[b].id == self.entries@[b].id);
                    }
                    assert(self.spec_ids() =~= before.map_values(|e: ControlEntry| e.id));
                }
            },
            None => {
                proof {
                    lemma_entries_map_dom(before, id);
                }
                self.entries.push(entry);
                proof {
                    assert(self.entries@.drop_last() =~= before);
                    assert forall|a: int, b: int|
                        0 <= a < self.entries@.len() && 0 <= b < self.entries@.len() && a != b
                        implies #[trigger] self.entries@[a].id != #[trigger] self.entries@[b].id by {
                        if a < before.len() && b < before.len() {
                            assert(before[a].id == self.entries@[a].id);
                            assert(before[b].id == self.entries@[b].id);
                        } else if a < before.len() {
                            assert(before[a].id == self.entries@[a].id);
                        } else {
                            assert(before[b].id == self.entries@[b].id);
                        }
                    }
                    assert(self.spec_ids() =~= before.map_values(|e: ControlEntry| e.id).push(id));
                }
            },
        }
    }
}

/// Setting a control and reading it back gives the value that was set: after
/// `set(control, v)` the list holds for the control's id the raw value that `v`
/// is written as, and that raw value reads as `v` in the control's type.
pub proof fn lemma_set_then_get<T: FromRawControlValue>(list: ControlList, control: Control<T>, v: T)
    requires
        list.wf(),
        list.declared().contains(control.spec_id()),
    ensures
        ({
            let values = list.values().insert(control.spec_id(), T::raw_data(v@));
            &&& values.contains_key(control.spec_id())
            &&& T::from_data(values[control.spec_id()]) == Some(v@)
        }),
{
    T::lemma_round_trip(v);
}

/// A fixed-length array control of length `N`, set and read back, gives
/// exactly `N` elements, those of the array in their order.
pub proof fn lemma_fixed_array_round_trip<T: ControlElement + Copy, const N: usize>(
    list: ControlList,
    control: Control<[T; N]>,
    v: [T; N],
)
    requires
        list.wf(),
        list.declared().contains(control.spec_id()),
    ensures
        ({
            let values = list.values().insert(control.spec_id(), <[T; N]>::raw_data(v@));
            &&& values.contains_key(control.spec_id())
            &&& <[T; N]>::from_data(values[control.spec_id()]) matches Some(items) && items.len()
                == N && forall|i: int| 0 <= i < N ==> items[i] == v[i]
        }),
{
    <[T; N] as FromRawControlValue>::lemma_round_trip(v);
}

} // verus!
