//! The owner-scoped record engine.
//!
//! An arena holds the records of one resource table in the order they were
//! created. Each record has an identifier, an owner and, for resources that form
//! a tree, an optional parent. Every operation takes the caller's identifier and
//! sees only the caller's records: a record of another owner is as good as
//! absent.
//!
//! Deleting a record detaches its children: their parent is cleared, so a
//! parent reference never dangles. A record cannot be made its own parent;
//! longer loops of parents are not looked for.
//!
//! A listing has no ceiling: a caller may ask for pages of any size that a
//! 32-bit number can say.
//!
//! What a record refers to in another arena (the list of a task, the label of
//! a pair) is kept whole by the handlers of the resources: a list that holds
//! tasks is not deleted, and a label or a task that is deleted is taken out of
//! the pairs.

use vstd::prelude::*;
use crate::ids::Id;
use crate::patch::Patch;

verus! {

/// One stored resource: who it is, whose it is, what it hangs under, and its
/// fields.
#[derive(Debug)]
pub struct Record<P> {
    pub id: Id,
    pub owner: Id,
    pub parent: Option<Id>,
    pub payload: P,
}

/// Why an operation on the arena did not go through.
#[derive(Debug, Clone, Copy, PartialEq, Eq, Structural)]
pub enum Failure {
    /// The record is absent, or belongs to someone else.
    NotFound,
    /// The parent named in the request is absent, or belongs to someone else.
    InvalidParent,
    /// The request names the record itself as its parent.
    OwnParent,
    /// A rule of the storage does not hold: the identifier for a new record is
    /// taken, a field that must be there is emptied, a reference points nowhere.
    Conflict,
    /// The request changes nothing where a change is asked for.
    EmptyPatch,
}

/// Whether some record has this identifier.
pub open spec fn present<P>(rows: Seq<Record<P>>, id: Id) -> bool {
    exists|i: int| 0 <= i < rows.len() && (#[trigger] rows[i]).id == id
}

/// The place of the record with this identifier.
pub open spec fn index_of<P>(rows: Seq<Record<P>>, id: Id) -> int {
    choose|i: int| 0 <= i < rows.len() && (#[trigger] rows[i]).id == id
}

/// Whether the record with this identifier exists and belongs to `owner`.
pub open spec fn visible<P>(rows: Seq<Record<P>>, owner: Id, id: Id) -> bool {
    present(rows, id) && rows[index_of(rows, id)].owner == owner
}

/// No two records share an identifier.
pub open spec fn ids_distinct<P>(rows: Seq<Record<P>>) -> bool {
    forall|i: int, j: int|
        0 <= i < j < rows.len() ==> (#[trigger] rows[i]).id != (#[trigger] rows[j]).id
}

/// Every parent is another record of the same owner.
pub open spec fn parents_valid<P>(rows: Seq<Record<P>>) -> bool {
    forall|i: int|
        0 <= i < rows.len() && (#[trigger] rows[i]).parent is Some ==> rows[i].parent->0
            != rows[i].id && visible(rows, rows[i].owner, rows[i].parent->0)
}

/// The arena's invariant.
pub open spec fn well_formed<P>(rows: Seq<Record<P>>) -> bool {
    ids_distinct(rows) && parents_valid(rows)
}

/// The records of one owner, in the order of the arena.
pub open spec fn owned<P>(rows: Seq<Record<P>>, owner: Id) -> Seq<Record<P>> {
    rows.filter(|r: Record<P>| r.owner == owner)
}

/// The identifiers of the records that hang under `id`, in the order of the
/// arena.
pub open spec fn child_ids<P>(rows: Seq<Record<P>>, id: Id) -> Seq<Id> {
    rows.filter(|r: Record<P>| r.parent == Some(id)).map_values(|r: Record<P>| r.id)
}

/// The record without its parent, if that parent is `gone`.
pub open spec fn detached<P>(r: Record<P>, gone: Id) -> Record<P> {
    if r.parent == Some(gone) {
        Record { id: r.id, owner: r.owner, parent: None, payload: r.payload }
    } else {
        r
    }
}

/// The arena without the record at place `i`, the children of that record
/// detached.
pub open spec fn without<P>(rows: Seq<Record<P>>, i: int) -> Seq<Record<P>>
    recommends
        0 <= i < rows.len(),
{
    rows.remove(i).map_values(|r: Record<P>| detached(r, rows[i].id))
}

/// What fetching one record gives the caller.
pub open spec fn get_result<P>(rows: Seq<Record<P>>, owner: Id, id: Id) -> Result<
    Record<P>,
    Failure,
> {
    if visible(rows, owner, id) {
        Ok(rows[index_of(rows, id)])
    } else {
        Err(Failure::NotFound)
    }
}

/// What creating a record does: the arena with the new record at its end, or
/// the reason for refusing.
pub open spec fn create_result<P>(
    rows: Seq<Record<P>>,
    id: Id,
    owner: Id,
    parent: Option<Id>,
    payload: P,
) -> Result<Seq<Record<P>>, Failure> {
    if present(rows, id) {
        Err(Failure::Conflict)
    } else if parent is Some && !visible(rows, owner, parent->0) {
        Err(Failure::InvalidParent)
    } else {
        Ok(rows.push(Record { id, owner, parent, payload }))
    }
}

/// The record after a patch: new fields where the request gives any, and the
/// parent as the request says.
pub open spec fn patched<P>(r: Record<P>, payload: Option<P>, parent: Patch<Id>) -> Record<P> {
    Record {
        id: r.id,
        owner: r.owner,
        parent: parent.applied(r.parent),
        payload: match payload {
            Some(p) => p,
            None => r.payload,
        },
    }
}

/// What patching a record does: the arena with the record changed in place, or
/// the reason for refusing. A request that names the record as its own parent is
/// refused before the arena is looked at.
pub open spec fn patch_result<P>(
    rows: Seq<Record<P>>,
    owner: Id,
    id: Id,
    payload: Option<P>,
    parent: Patch<Id>,
) -> Result<Seq<Record<P>>, Failure> {
    if parent == Patch::Value(id) {
        Err(Failure::OwnParent)
    } else if !visible(rows, owner, id) {
        Err(Failure::NotFound)
    } else if parent is Value && !visible(rows, owner, parent->Value_0) {
        Err(Failure::InvalidParent)
    } else {
        let i = index_of(rows, id);
        Ok(rows.update(i, patched(rows[i], payload, parent)))
    }
}

/// What deleting a record does: the arena without it, its children detached,
/// or the reason for refusing.
pub open spec fn delete_result<P>(rows: Seq<Record<P>>, owner: Id, id: Id) -> Result<
    Seq<Record<P>>,
    Failure,
> {
    if visible(rows, owner, id) {
        Ok(without(rows, index_of(rows, id)))
    } else {
        Err(Failure::NotFound)
    }
}

/// With distinct identifiers, the place of an identifier is the one place where
/// it stands.
pub proof fn lemma_index_unique<P>(rows: Seq<Record<P>>, i: int)
    requires
        ids_distinct(rows),
        0 <= i < rows.len(),
    ensures
        present(rows, rows[i].id),
        index_of(rows, rows[i].id) == i,
{
    let id = rows[i].id;
    assert(present(rows, id));
    let j = index_of(rows, id);
    assert(0 <= j < rows.len() && rows[j].id == id);
    if j < i {
        assert(rows[j].id != rows[i].id);
    } else if i < j {
        assert(rows[i].id != rows[j].id);
    }
}

/// The records of an arena, behind its invariant.
#[derive(Debug)]
pub struct Arena<P> {
    rows: Vec<Record<P>>,
}

impl<P> View for Arena<P> {
    type V = Seq<Record<P>>;

    closed spec fn view(&self) -> Seq<Record<P>> {
        self.rows@
    }
}

impl<P> Arena<P> {
    /// Whether the arena's invariant holds.
    pub open spec fn wf(&self) -> bool {
        well_formed(self@)
    }

    /// An arena without records.
    pub fn new() -> (arena: Arena<P>)
        ensures
            arena@ == Seq::<Record<P>>::empty(),
            arena.wf(),
    {
        Arena { rows: Vec::new() }
    }

    /// How many records the arena holds, of all owners.
    pub fn len(&self) -> (n: usize)
        ensures
            n == self@.len(),
    {
        self.rows.len()
    }

    /// The record at a place.
    pub fn at(&self, i: usize) -> (record: &Record<P>)
        requires
            i < self@.len(),
        ensures
            *record == self@[i as int],
    {
        &self.rows[i]
    }

    /// The place of the record with this identifier, whoever owns it.
    pub fn position(&self, id: Id) -> (place: Option<usize>)
        ensures
            match place {
                Some(i) => i < self@.len() && self@[i as int].id == id,
                None => !present(self@, id),
            },
    {
        let mut i: usize = 0;
        while i < self.rows.len()
            invariant
                i <= self.rows.len(),
                forall|k: int| 0 <= k < i ==> (#[trigger] self.rows@[k]).id != id,
            decreases self.rows.len() - i,
        {
            if self.rows[i].id == id {
                return Some(i);
            }
            i += 1;
        }
        None
    }

    /// The place of the caller's record with this identifier.
    pub fn find(&self, owner: Id, id: Id) -> (place: Option<usize>)
        requires
            self.wf(),
        ensures
            place is Some <==> visible(self@, owner, id),
            place is Some ==> place->0 == index_of(self@, id) && place->0 < self@.len(),
    {
        match self.position(id) {
            Some(i) => {
                proof {
                    lemma_index_unique(self@, i as int);
                }
                if self.rows[i].owner == owner {
                    Some(i)
                } else {
                    None
                }
            },
            None => None,
        }
    }

    /// Fetches one record: the caller's record with this identifier, or
    /// `NotFound` where there is none or it is someone else's.
    pub fn get(&self, owner: Id, id: Id) -> (found: Result<&Record<P>, Failure>)
        requires
            self.wf(),
        ensures
            match get_result(self@, owner, id) {
                Ok(record) => found is Ok && *found->Ok_0 == record,
                Err(failure) => found == Err::<&Record<P>, Failure>(failure),
            },
    {
        match self.find(owner, id) {
            Some(i) => Ok(&self.rows[i]),
            None => Err(Failure::NotFound),
        }
    }
}

} // verus!

verus! {

/// Two arenas with the same identifiers and owners at the same places show the
/// same records to the same callers.
pub proof fn lemma_visible_same_keys<P>(a: Seq<Record<P>>, b: Seq<Record<P>>, owner: Id, id: Id)
    requires
        ids_distinct(a),
        a.len() == b.len(),
        forall|k: int|
            0 <= k < a.len() ==> (#[trigger] a[k]).id == b[k].id && a[k].owner == b[k].owner,
    ensures
        ids_distinct(b),
        visible(a, owner, id) == visible(b, owner, id),
        present(a, id) == present(b, id),
        present(a, id) ==> index_of(a, id) == index_of(b, id),
{
    assert forall|i: int, j: int| 0 <= i < j < b.len() implies (#[trigger] b[i]).id != (
    #[trigger] b[j]).id by {
        assert(a[i].id != a[j].id);
    }
    if present(a, id) {
        let i = index_of(a, id);
        assert(b[i].id == id);
        lemma_index_unique(b, i);
    }
    if present(b, id) {
        let i = index_of(b, id);
        assert(a[i].id == id);
        lemma_index_unique(a, i);
        lemma_index_unique(b, i);
    }
}

impl<P> Arena<P> {
    /// Creates a record for the caller. The identifier must be new, and a
    /// parent, where one is given, must be a record of the caller.
    pub fn create(&mut self, id: Id, owner: Id, parent: Option<Id>, payload: P) -> (created:
        Result<Id, Failure>)
        requires
            old(self).wf(),
        ensures
            final(self).wf(),
            match create_result(old(self)@, id, owner, parent, payload) {
                Ok(rows) => created == Ok::<Id, Failure>(id) && final(self)@ == rows,
                Err(failure) => created == Err::<Id, Failure>(failure) && final(self)@ == old(
                    self,
                )@,
            },
    {
        if self.position(id).is_some() {
            return Err(Failure::Conflict);
        }
        if let Some(p) = parent {
            if self.find(owner, p).is_none() {
                return Err(Failure::InvalidParent);
            }
        }
        let ghost before = self@;
        self.rows.push(Record { id, owner, parent, payload });
        proof {
            let after = self@;
            let n = before.len() as int;
            assert(after == before.push(Record { id, owner, parent, payload }));
            assert forall|i: int, j: int| 0 <= i < j < after.len() implies (#[trigger] after[i]).id
                != (#[trigger] after[j]).id by {
                if j < n {
                    assert(before[i].id != before[j].id);
                } else {
                    assert(before[i].id != id);
                }
            }
            assert forall|i: int| 0 <= i < after.len() && (#[trigger] after[i]).parent is Some
                implies after[i].parent->0 != after[i].id && visible(
                after,
                after[i].owner,
                after[i].parent->0,
            ) by {
                let p = after[i].parent->0;
                let o = after[i].owner;
                if i < n {
                    assert(before[i].parent is Some);
                }
                assert(visible(before, o, p));
                let j = index_of(before, p);
                assert(after[j] == before[j]);
                lemma_index_unique(after, j);
            }
        }
        Ok(id)
    }

    /// Patches the caller's record: new fields where `payload` gives any, and
    /// the parent kept, cleared or set as `parent` says. Either all of it is
    /// applied or nothing is.
    pub fn patch(&mut self, owner: Id, id: Id, payload: Option<P>, parent: Patch<Id>) -> (patched:
        Result<(), Failure>)
        requires
            old(self).wf(),
        ensures
            final(self).wf(),
            match patch_result(old(self)@, owner, id, payload, parent) {
                Ok(rows) => patched is Ok && final(self)@ == rows,
                Err(failure) => patched == Err::<(), Failure>(failure) && final(self)@ == old(
                    self,
                )@,
            },
    {
        if let Patch::Value(p) = parent {
            if p == id {
                return Err(Failure::OwnParent);
            }
        }
        let i = match self.find(owner, id) {
            Some(i) => i,
            None => {
                return Err(Failure::NotFound);
            },
        };
        if let Patch::Value(p) = parent {
            if self.find(owner, p).is_none() {
                return Err(Failure::InvalidParent);
            }
        }
        let ghost before = self@;
        let current = self.rows.remove(i);
        let changed = Record {
            id: current.id,
            owner: current.owner,
            parent: parent.apply(current.parent),
            payload: match payload {
                Some(p) => p,
                None => current.payload,
            },
        };
        self.rows.insert(i, changed);
        proof {
            let after = self@;
            assert(after =~= before.update(i as int, patched(before[i as int], payload, parent)));
            assert forall|k: int| 0 <= k < before.len() implies (#[trigger] before[k]).id
                == after[k].id && before[k].owner == after[k].owner by {}
            assert forall|k: int| 0 <= k < after.len() && (#[trigger] after[k]).parent is Some
                implies after[k].parent->0 != after[k].id && visible(
                after,
                after[k].owner,
                after[k].parent->0,
            ) by {
                let p = after[k].parent->0;
                let o = after[k].owner;
                lemma_visible_same_keys(before, after, o, p);
                if k != i {
                    assert(before[k].parent is Some);
                } else if parent is Missing {
                    assert(before[k].parent is Some);
                }
            }
            lemma_visible_same_keys(before, after, owner, id);
        }
        Ok(())
    }
}

} // verus!

verus! {

/// The arena after a delete keeps its invariant.
pub proof fn lemma_without_well_formed<P>(rows: Seq<Record<P>>, i: int)
    requires
        well_formed(rows),
        0 <= i < rows.len(),
    ensures
        well_formed(without(rows, i)),
        !present(without(rows, i), rows[i].id),
{
    let gone = rows[i].id;
    let after = without(rows, i);
    let back = |k: int| if k < i { k } else { k + 1 };
    assert forall|k: int| 0 <= k < after.len() implies (#[trigger] after[k]).id == rows[back(
        k,
    )].id && after[k].owner == rows[back(k)].owner && after[k] == detached(rows[back(k)], gone) by {
        assert(rows.remove(i)[k] == rows[back(k)]);
    }
    assert forall|a: int, b: int| 0 <= a < b < after.len() implies (#[trigger] after[a]).id != (
    #[trigger] after[b]).id by {
        assert(rows[back(a)].id != rows[back(b)].id);
    }
    assert forall|k: int| 0 <= k < after.len() implies (#[trigger] after[k]).id != gone by {
        if back(k) < i {
            assert(rows[back(k)].id != rows[i].id);
        } else {
            assert(rows[i].id != rows[back(k)].id);
        }
    }
    assert forall|k: int| 0 <= k < after.len() && (#[trigger] after[k]).parent is Some implies
        after[k].parent->0 != after[k].id && visible(after, after[k].owner, after[k].parent->0) by {
        let old_row = rows[back(k)];
        let p = after[k].parent->0;
        assert(old_row.parent == Some(p));
        assert(p != gone);
        assert(visible(rows, old_row.owner, p));
        let j = index_of(rows, p);
        assert(j != i);
        let j2 = if j < i { j } else { j - 1 };
        assert(back(j2) == j);
        assert(after[j2].id == p);
        lemma_index_unique(after, j2);
    }
}

impl<P> Arena<P> {
    /// Deletes the caller's record and detaches its children.
    pub fn delete(&mut self, owner: Id, id: Id) -> (deleted: Result<(), Failure>)
        requires
            old(self).wf(),
        ensures
            final(self).wf(),
            match delete_result(old(self)@, owner, id) {
                Ok(rows) => deleted is Ok && final(self)@ == rows,
                Err(failure) => deleted == Err::<(), Failure>(failure) && final(self)@ == old(
                    self,
                )@,
            },
    {
        let i = match self.find(owner, id) {
            Some(i) => i,
            None => {
                return Err(Failure::NotFound);
            },
        };
        let ghost before = self@;
        let ghost target = without(before, i as int);
        let mut kept: Vec<Record<P>> = Vec::new();
        let mut rest: Vec<Record<P>> = Vec::new();
        core::mem::swap(&mut self.rows, &mut rest);
        let _gone = rest.remove(i);
        assert(rest@ == before.remove(i as int));
        // Walk the remaining records from the back, so that each can be moved out.
        let mut n: usize = rest.len();
        while n > 0
            invariant
                n == rest.len(),
                n <= before.len() - 1,
                rest@ == before.remove(i as int).take(n as int),
                kept.len() == before.len() - 1 - n,
                forall|k: int|
                    0 <= k < kept.len() ==> (#[trigger] kept[k]) == target[target.len() - 1 - k],
                target == without(before, i as int),
                target.len() == before.len() - 1,
                id == before[i as int].id,
                0 <= i < before.len(),
            decreases n,
        {
            let row = rest.pop().unwrap();
            n -= 1;
            assert(row == before.remove(i as int)[n as int]);
            let moved = if row.parent == Some(id) {
                Record { id: row.id, owner: row.owner, parent: None, payload: row.payload }
            } else {
                row
            };
            assert(moved == target[n as int]);
            kept.push(moved);
            assert(rest@ =~= before.remove(i as int).take(n as int));
        }
        // `kept` holds the records in reverse; put them back in order.
        let mut m: usize = kept.len();
        while m > 0
            invariant
                m == kept.len(),
                m <= target.len(),
                self.rows@ == target.take((target.len() - m) as int),
                forall|k: int|
                    0 <= k < kept.len() ==> (#[trigger] kept[k]) == target[target.len() - 1 - k],
            decreases m,
        {
            let row = kept.pop().unwrap();
            m -= 1;
            self.rows.push(row);
            assert(self.rows@ =~= target.take((target.len() - m) as int));
        }
        proof {
            assert(self.rows@ =~= target);
            lemma_without_well_formed(before, i as int);
        }
        Ok(())
    }
}

} // verus!

verus! {

/// How many items a request gets when it names no limit.
pub const GET_LIMIT: u32 = 1000;

/// One page of a listing, with the limit and the page number it was made for.
#[derive(Debug, PartialEq, Eq)]
pub struct GetAllResponse<T> {
    pub items: Vec<T>,
    pub limit: u32,
    pub page: u32,
}

/// Where a page starts among the items.
pub open spec fn page_start(len: nat, limit: nat, page: nat) -> int {
    if page * limit < len {
        (page * limit) as int
    } else {
        len as int
    }
}

/// Where a page ends among the items.
pub open spec fn page_end(len: nat, limit: nat, page: nat) -> int {
    if page * limit + limit < len {
        (page * limit + limit) as int
    } else {
        len as int
    }
}

/// Page number `page` of `items`, cut into pages of `limit` items: the items
/// from place `page * limit` on, `limit` of them at most.
pub open spec fn page_of<T>(items: Seq<T>, limit: nat, page: nat) -> Seq<T> {
    items.subrange(page_start(items.len(), limit, page), page_end(items.len(), limit, page))
}

/// The pages before page number `count`, one after another.
pub open spec fn pages_before<T>(items: Seq<T>, limit: nat, count: nat) -> Seq<T>
    decreases count,
{
    if count == 0 {
        Seq::empty()
    } else {
        pages_before(items, limit, (count - 1) as nat) + page_of(
            items,
            limit,
            (count - 1) as nat,
        )
    }
}

/// The limit that a request works with.
pub open spec fn limit_or_default(limit: Option<u32>) -> u32 {
    match limit {
        Some(l) => l,
        None => GET_LIMIT,
    }
}

/// The page that a request asks for.
pub open spec fn page_or_first(page: Option<u32>) -> u32 {
    match page {
        Some(p) => p,
        None => 0,
    }
}

/// The records that a list of references points at.
pub open spec fn pointed<P>(items: Seq<&Record<P>>) -> Seq<Record<P>> {
    Seq::new(items.len(), |k: int| *items[k])
}

/// The pages before the first empty one are their items up to where that page
/// would start.
pub proof fn lemma_pages_before<T>(items: Seq<T>, limit: nat, count: nat)
    requires
        limit >= 1,
    ensures
        pages_before(items, limit, count) == items.take(page_start(items.len(), limit, count)),
    decreases count,
{
    if count == 0 {
        assert(items.take(0) =~= Seq::<T>::empty());
    } else {
        let prev = (count - 1) as nat;
        lemma_pages_before(items, limit, prev);
        assert(prev * limit + limit == count * limit) by (nonlinear_arith)
            requires
                prev + 1 == count,
        ;
        assert(pages_before(items, limit, count) =~= items.take(
            page_start(items.len(), limit, count),
        ));
    }
}

/// Paging through a listing with a fixed limit of at least one, up to the first
/// empty page, gives every item once and in order: the same as one fetch with a
/// limit that holds them all.
pub proof fn lemma_pagination_complete<T>(items: Seq<T>, limit: nat, count: nat, all: nat)
    requires
        limit >= 1,
        page_of(items, limit, count).len() == 0,
        all >= items.len(),
    ensures
        pages_before(items, limit, count) == items,
        page_of(items, all, 0) == items,
{
    lemma_pages_before(items, limit, count);
    assert(count * limit + limit > count * limit);
    assert(page_start(items.len(), limit, count) == items.len());
    assert(items.take(items.len() as int) =~= items);
    assert(0 * all == 0);
    assert(page_of(items, all, 0) =~= items);
}

/// A page that is not full is the last one that holds anything: the page after
/// it is empty.
pub proof fn lemma_short_page_is_last<T>(items: Seq<T>, limit: nat, page: nat)
    requires
        page_of(items, limit, page).len() < limit,
    ensures
        page_of(items, limit, page + 1).len() == 0,
{
    assert((page + 1) * limit == page * limit + limit) by (nonlinear_arith);
}

impl<P> Arena<P> {
    /// The identifiers of the records that hang under `id`.
    pub fn children(&self, id: Id) -> (ids: Vec<Id>)
        ensures
            ids@ == child_ids(self@, id),
    {
        let mut ids: Vec<Id> = Vec::new();
        let mut i: usize = 0;
        let ghost under = |r: Record<P>| r.parent == Some(id);
        let ghost name = |r: Record<P>| r.id;
        while i < self.rows.len()
            invariant
                i <= self.rows.len(),
                under == |r: Record<P>| r.parent == Some(id),
                name == |r: Record<P>| r.id,
                ids@ == self.rows@.take(i as int).filter(under).map_values(name),
            decreases self.rows.len() - i,
        {
            proof {
                let next = self.rows@.take(i + 1);
                assert(next.drop_last() =~= self.rows@.take(i as int));
                assert(next.last() == self.rows@[i as int]);
                reveal(Seq::filter);
            }
            let hangs = match self.rows[i].parent {
                Some(p) => p == id,
                None => false,
            };
            if hangs {
                ids.push(self.rows[i].id);
                assert(ids@ =~= self.rows@.take(i + 1).filter(under).map_values(name));
            } else {
                assert(ids@ =~= self.rows@.take(i + 1).filter(under).map_values(name));
            }
            i += 1;
        }
        assert(self.rows@.take(self.rows.len() as int) =~= self.rows@);
        ids
    }

    /// Lists the caller's records, one page of them: `limit` items per page
    /// (1000 where none is given), page `page` (the first where none is given).
    pub fn list(&self, owner: Id, limit: Option<u32>, page: Option<u32>) -> (listing:
        GetAllResponse<&Record<P>>)
        ensures
            listing.limit == limit_or_default(limit),
            listing.page == page_or_first(page),
            pointed(listing.items@) == page_of(
                owned(self@, owner),
                listing.limit as nat,
                listing.page as nat,
            ),
    {
        let limit: u32 = match limit {
            Some(l) => l,
            None => GET_LIMIT,
        };
        let page: u32 = match page {
            Some(p) => p,
            None => 0,
        };
        assert(page * limit <= 0xffff_ffff * 0xffff_ffff) by (nonlinear_arith)
            requires
                0 <= page <= 0xffff_ffff,
                0 <= limit <= 0xffff_ffff,
        ;
        let first: u64 = (page as u64) * (limit as u64);
        let last: u64 = first + (limit as u64);
        let mut items: Vec<&Record<P>> = Vec::new();
        let mut seen: u64 = 0;
        let mut i: usize = 0;
        let ghost mine = |r: Record<P>| r.owner == owner;
        while i < self.rows.len()
            invariant
                i <= self.rows.len(),
                mine == |r: Record<P>| r.owner == owner,
                first == page * limit,
                last == first + limit,
                seen == self.rows@.take(i as int).filter(mine).len(),
                seen <= i,
                pointed(items@) == page_of(
                    self.rows@.take(i as int).filter(mine),
                    limit as nat,
                    page as nat,
                ),
            decreases self.rows.len() - i,
        {
            let ghost before = self.rows@.take(i as int).filter(mine);
            let ghost shown = pointed(items@);
            proof {
                let next = self.rows@.take(i + 1);
                assert(next.drop_last() =~= self.rows@.take(i as int));
                assert(next.last() == self.rows@[i as int]);
                reveal(Seq::filter);
            }
            if self.rows[i].owner == owner {
                let ghost after = before.push(self.rows@[i as int]);
                assert(self.rows@.take(i + 1).filter(mine) =~= after);
                if first <= seen && seen < last {
                    items.push(&self.rows[i]);
                    assert(pointed(items@) =~= shown.push(self.rows@[i as int]));
                    assert(pointed(items@) =~= page_of(after, limit as nat, page as nat));
                } else {
                    assert(pointed(items@) =~= page_of(after, limit as nat, page as nat));
                }
                seen += 1;
            } else {
                assert(self.rows@.take(i + 1).filter(mine) =~= before);
            }
            i += 1;
        }
        assert(self.rows@.take(self.rows.len() as int) =~= self.rows@);
        GetAllResponse { items, limit, page }
    }
}

} // verus!

verus! {

/// A record is out of reach for everyone but its owner: fetching, patching or
/// deleting it as another caller gives `NotFound`, the same answer as for a
/// record that does not exist. (A patch that names the record as its own parent
/// is refused as such before the arena is looked at.)
pub proof fn lemma_foreign_record_not_found<P>(
    rows: Seq<Record<P>>,
    owner: Id,
    caller: Id,
    id: Id,
    payload: Option<P>,
    parent: Patch<Id>,
)
    requires
        well_formed(rows),
        visible(rows, owner, id),
        caller != owner,
    ensures
        get_result(rows, caller, id) == Err::<Record<P>, Failure>(Failure::NotFound),
        delete_result(rows, caller, id) == Err::<Seq<Record<P>>, Failure>(Failure::NotFound),
        parent != Patch::Value(id) ==> patch_result(rows, caller, id, payload, parent) == Err::<
            Seq<Record<P>>,
            Failure,
        >(Failure::NotFound),
        !owned(rows, caller).contains(rows[index_of(rows, id)]),
{
    let i = index_of(rows, id);
    let theirs = |r: Record<P>| r.owner == caller;
    if owned(rows, caller).contains(rows[i]) {
        rows.lemma_filter_contains_rev(theirs, rows[i]);
    }
}

/// Ownership isolation: what one user creates, another user cannot fetch, patch
/// or delete. To the other user it is not there.
pub proof fn lemma_ownership_isolation<P>(
    rows: Seq<Record<P>>,
    id: Id,
    a: Id,
    b: Id,
    parent: Option<Id>,
    payload: P,
    change: Option<P>,
    move_to: Patch<Id>,
)
    requires
        well_formed(rows),
        a != b,
        create_result(rows, id, b, parent, payload) is Ok,
    ensures
        ({
            let after = create_result(rows, id, b, parent, payload)->Ok_0;
            &&& get_result(after, b, id) is Ok
            &&& get_result(after, a, id) == Err::<Record<P>, Failure>(Failure::NotFound)
            &&& delete_result(after, a, id) == Err::<Seq<Record<P>>, Failure>(Failure::NotFound)
            &&& move_to != Patch::Value(id) ==> patch_result(after, a, id, change, move_to)
                == Err::<Seq<Record<P>>, Failure>(Failure::NotFound)
        }),
{
    let after = create_result(rows, id, b, parent, payload)->Ok_0;
    let n = rows.len() as int;
    assert(after[n].id == id);
    assert forall|i: int, j: int| 0 <= i < j < after.len() implies (#[trigger] after[i]).id != (
    #[trigger] after[j]).id by {
        if j < n {
            assert(rows[i].id != rows[j].id);
        } else {
            assert(rows[i].id != id);
        }
    }
    lemma_index_unique(after, n);
}

/// Self-parent rejection: a patch that names the record itself as its parent is
/// refused as `OwnParent`, whatever the arena holds and whoever asks.
pub proof fn lemma_own_parent_rejected<P>(
    rows: Seq<Record<P>>,
    owner: Id,
    id: Id,
    payload: Option<P>,
)
    ensures
        patch_result(rows, owner, id, payload, Patch::Value(id)) == Err::<
            Seq<Record<P>>,
            Failure,
        >(Failure::OwnParent),
{
}

/// Reparent atomicity: a patch that goes through changes exactly one record,
/// and on that record both the fields and the parent are as the request says.
/// A patch whose parent is refused changes nothing, whatever fields it carries:
/// there is no outcome with the fields applied and the parent not.
pub proof fn lemma_patch_all_or_nothing<P>(
    rows: Seq<Record<P>>,
    owner: Id,
    id: Id,
    payload: Option<P>,
    parent: Patch<Id>,
)
    requires
        well_formed(rows),
    ensures
        match patch_result(rows, owner, id, payload, parent) {
            Ok(after) => {
                let i = index_of(rows, id);
                &&& 0 <= i < rows.len()
                &&& after.len() == rows.len()
                &&& after[i].id == id
                &&& after[i].owner == owner
                &&& after[i].parent == parent.applied(rows[i].parent)
                &&& payload is Some ==> after[i].payload == payload->0
                &&& payload is None ==> after[i].payload == rows[i].payload
                &&& forall|k: int| 0 <= k < rows.len() && k != i ==> after[k] == rows[k]
            },
            Err(_) => parent is Value ==> (parent->Value_0 == id || !visible(rows, owner, id)
                || !visible(rows, owner, parent->Value_0)),
        },
{
}

/// After a delete the record is gone for its owner too, and nothing hangs under
/// it any more.
pub proof fn lemma_deleted_is_gone<P>(rows: Seq<Record<P>>, owner: Id, id: Id)
    requires
        well_formed(rows),
        delete_result(rows, owner, id) is Ok,
    ensures
        ({
            let after = delete_result(rows, owner, id)->Ok_0;
            &&& well_formed(after)
            &&& get_result(after, owner, id) == Err::<Record<P>, Failure>(Failure::NotFound)
            &&& child_ids(after, id) == Seq::<Id>::empty()
        }),
{
    let i = index_of(rows, id);
    let after = without(rows, i);
    lemma_without_well_formed(rows, i);
    let under = |r: Record<P>| r.parent == Some(id);
    assert(rows[i].id == id);
    assert forall|k: int| 0 <= k < after.len() implies !under(#[trigger] after[k]) by {
        let back = if k < i { k } else { k + 1 };
        assert(rows.remove(i)[k] == rows[back]);
    }
    if after.filter(under).len() > 0 {
        let r = after.filter(under)[0];
        assert(after.filter(under).contains(r));
        after.lemma_filter_contains_rev(under, r);
    }
    assert(after.filter(under) =~= Seq::<Record<P>>::empty());
    assert(child_ids(after, id) =~= Seq::<Id>::empty());
}

} // verus!

verus! {

/// A payload that goes out of date at a point in time.
pub trait Expires {
    /// The point in time from which the payload is out of date.
    spec fn expiry(&self) -> int;

    /// The point in time from which the payload is out of date.
    fn expires_at(&self) -> (at: i64)
        ensures
            at as int == self.expiry(),
    ;
}

/// No record hangs under another.
pub open spec fn flat<P>(rows: Seq<Record<P>>) -> bool {
    forall|i: int| 0 <= i < rows.len() ==> (#[trigger] rows[i]).parent is None
}

/// Whether a record belongs to `owner` and is out of date at `now`.
pub open spec fn stale<P: Expires>(r: Record<P>, owner: Id, now: int) -> bool {
    r.owner == owner && r.payload.expiry() <= now
}

/// The arena without the records of `owner` that are out of date at `now`.
pub open spec fn pruned<P: Expires>(rows: Seq<Record<P>>, owner: Id, now: int) -> Seq<Record<P>> {
    rows.filter(|r: Record<P>| !stale(r, owner, now))
}

/// What is left after pruning was there before, and nothing stale is left.
pub proof fn lemma_pruned<P: Expires>(rows: Seq<Record<P>>, owner: Id, now: int, id: Id)
    requires
        ids_distinct(rows),
    ensures
        present(pruned(rows, owner, now), id) <==> present(rows, id) && !stale(
            rows[index_of(rows, id)],
            owner,
            now,
        ),
{
    let fresh = |r: Record<P>| !stale(r, owner, now);
    let left = pruned(rows, owner, now);
    if present(left, id) {
        let k = choose|k: int| 0 <= k < left.len() && (#[trigger] left[k]).id == id;
        assert(left.contains(left[k]));
        rows.lemma_filter_contains_rev(fresh, left[k]);
        let i = choose|i: int| 0 <= i < rows.len() && rows[i] == left[k];
        assert(rows[i].id == id);
        lemma_index_unique(rows, i);
    }
    if present(rows, id) && !stale(rows[index_of(rows, id)], owner, now) {
        let i = index_of(rows, id);
        rows.lemma_filter_contains(fresh, i);
        let k = choose|k: int| 0 <= k < left.len() && left[k] == rows[i];
        assert(left[k].id == id);
    }
}

impl<P: Expires> Arena<P> {
    /// Removes the records of `owner` that are out of date at `now`, and says how
    /// many there were.
    pub fn prune(&mut self, owner: Id, now: i64) -> (removed: usize)
        requires
            old(self).wf(),
            flat(old(self)@),
        ensures
            final(self)@ == pruned(old(self)@, owner, now as int),
            removed == old(self)@.len() - final(self)@.len(),
            final(self).wf(),
            flat(final(self)@),
    {
        let ghost all = self@;
        let ghost fresh = |r: Record<P>| !stale(r, owner, now as int);
        assert(all.len() == self.rows.len());
        let mut removed: usize = 0;
        let mut i: usize = 0;
        proof {
            assert(all.take(0).filter(fresh) =~= Seq::<Record<P>>::empty()) by {
                reveal(Seq::filter);
            }
            assert(all.skip(0) =~= all);
        }
        while i < self.rows.len()
            invariant
                fresh == |r: Record<P>| !stale(r, owner, now as int),
                i <= self.rows.len(),
                i + removed <= all.len(),
                all.len() <= usize::MAX,
                self.rows@ == all.take(i + removed).filter(fresh) + all.skip(i + removed),
                i == all.take(i + removed).filter(fresh).len(),
                ids_distinct(self.rows@),
                flat(self.rows@),
            decreases self.rows.len() - i,
        {
            let ghost j = (i + removed) as int;
            let ghost rows = self.rows@;
            proof {
                assert(rows[i as int] == all.skip(j)[0]);
                assert(j < all.len());
                let next = all.take(j + 1);
                assert(next.drop_last() =~= all.take(j));
                assert(next.last() == all[j]);
                reveal(Seq::filter);
            }
            let out_of_date = self.rows[i].owner == owner && self.rows[i].payload.expires_at()
                <= now;
            if out_of_date {
                let _gone = self.rows.remove(i);
                proof {
                    assert(all.take(j + 1).filter(fresh) =~= all.take(j).filter(fresh));
                    assert(self.rows@ =~= all.take(j + 1).filter(fresh) + all.skip(j + 1));
                    let back = |k: int| if k < i { k } else { k + 1 };
                    assert forall|a: int, b: int| 0 <= a < b < self.rows@.len() implies (
                    #[trigger] self.rows@[a]).id != (#[trigger] self.rows@[b]).id by {
                        assert(self.rows@[a] == rows[back(a)]);
                        assert(self.rows@[b] == rows[back(b)]);
                    }
                    assert forall|k: int| 0 <= k < self.rows@.len() implies (
                    #[trigger] self.rows@[k]).parent is None by {
                        assert(self.rows@[k] == rows[back(k)]);
                    }
                }
                removed += 1;
            } else {
                proof {
                    assert(all.take(j + 1).filter(fresh) =~= all.take(j).filter(fresh).push(
                        all[j],
                    ));
                    assert(self.rows@ =~= all.take(j + 1).filter(fresh) + all.skip(j + 1));
                }
                i += 1;
            }
        }
        proof {
            let j = (i + removed) as int;
            assert(j == all.len()) by {
                assert(self.rows@.len() == i + all.skip(j).len());
            }
            assert(all.take(j) =~= all);
            assert(all.skip(j) =~= Seq::<Record<P>>::empty());
            assert(self.rows@ =~= pruned(all, owner, now as int));
        }
        removed
    }
}

} // verus!

verus! {

/// What hangs under a record belongs to the owner of that record: the children
/// that a caller is shown with its record are the caller's own.
pub proof fn lemma_children_share_owner<P>(rows: Seq<Record<P>>, i: int)
    requires
        well_formed(rows),
        0 <= i < rows.len(),
        rows[i].parent is Some,
    ensures
        present(rows, rows[i].parent->0),
        rows[index_of(rows, rows[i].parent->0)].owner == rows[i].owner,
        rows[i].parent->0 != rows[i].id,
        child_ids(rows, rows[i].parent->0).contains(rows[i].id),
{
    let id = rows[i].parent->0;
    let under = |r: Record<P>| r.parent == Some(id);
    rows.lemma_filter_contains(under, i);
    let kids = rows.filter(under);
    let k = choose|k: int| 0 <= k < kids.len() && kids[k] == rows[i];
    assert(child_ids(rows, id)[k] == rows[i].id);
}

} // verus!
