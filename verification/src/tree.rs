//! Folding joined rows into resources with their children and labels.
//!
//! A relational storage answers a fetch of a tree resource with one row per
//! pair of child and label, the resource's own columns repeated in each. The
//! rows of one resource are folded into one group: the resource once, and the
//! identifiers of its children and labels, each once, in the order they came.

use vstd::prelude::*;
use crate::ids::Id;

verus! {

/// One row of a joined fetch: the resource, and a child or a label of it where
/// the row has one.
#[derive(Debug)]
pub struct JoinRow<B> {
    pub id: Id,
    pub base: B,
    pub child_id: Option<Id>,
    pub label_id: Option<Id>,
}

/// A resource with the identifiers of its children and labels. The two lists
/// stand for sets: [`group_rows`] puts no identifier into one of them twice.
#[derive(Debug)]
pub struct Group<B> {
    pub id: Id,
    pub base: B,
    pub child_ids: Vec<Id>,
    pub label_ids: Vec<Id>,
}

/// The mathematical content of a [`Group`].
pub struct GroupView<B> {
    pub id: Id,
    pub base: B,
    pub child_ids: Seq<Id>,
    pub label_ids: Seq<Id>,
}

impl<B> View for Group<B> {
    type V = GroupView<B>;

    open spec fn view(&self) -> GroupView<B> {
        GroupView {
            id: self.id,
            base: self.base,
            child_ids: self.child_ids@,
            label_ids: self.label_ids@,
        }
    }
}

/// The views of a list of groups.
pub open spec fn group_views<B>(groups: Seq<Group<B>>) -> Seq<GroupView<B>> {
    Seq::new(groups.len(), |i: int| groups[i]@)
}

/// The identifiers with `id` added at the end, unless there is none or it is
/// there already.
pub open spec fn with_once(ids: Seq<Id>, id: Option<Id>) -> Seq<Id> {
    match id {
        Some(x) => if ids.contains(x) {
            ids
        } else {
            ids.push(x)
        },
        None => ids,
    }
}

/// The place of the group of a resource, or the number of groups where it has
/// none yet.
pub open spec fn group_place<B>(groups: Seq<GroupView<B>>, id: Id) -> int
    decreases groups.len(),
{
    if groups.len() == 0 {
        0
    } else if groups[0].id == id {
        0
    } else {
        1 + group_place(groups.skip(1), id)
    }
}

/// The groups after one more row: the row's child and label go to the group of
/// its resource, which is opened at the end where the resource is new.
pub open spec fn absorbed<B>(groups: Seq<GroupView<B>>, row: JoinRow<B>) -> Seq<GroupView<B>> {
    let k = group_place(groups, row.id);
    if k < groups.len() {
        groups.update(
            k,
            GroupView {
                id: groups[k].id,
                base: groups[k].base,
                child_ids: with_once(groups[k].child_ids, row.child_id),
                label_ids: with_once(groups[k].label_ids, row.label_id),
            },
        )
    } else {
        groups.push(
            GroupView {
                id: row.id,
                base: row.base,
                child_ids: with_once(Seq::empty(), row.child_id),
                label_ids: with_once(Seq::empty(), row.label_id),
            },
        )
    }
}

/// The groups of a list of rows: one per resource, in the order the resources
/// first came.
pub open spec fn grouped<B>(rows: Seq<JoinRow<B>>) -> Seq<GroupView<B>>
    decreases rows.len(),
{
    if rows.len() == 0 {
        Seq::empty()
    } else {
        absorbed(grouped(rows.drop_last()), rows.last())
    }
}

/// No identifier stands twice.
pub open spec fn no_repeats(ids: Seq<Id>) -> bool {
    forall|i: int, j: int| 0 <= i < j < ids.len() ==> ids[i] != ids[j]
}

/// Whether the groups are of distinct resources and hold no identifier twice.
pub open spec fn tidy<B>(groups: Seq<GroupView<B>>) -> bool {
    &&& forall|i: int, j: int|
        0 <= i < j < groups.len() ==> (#[trigger] groups[i]).id != (#[trigger] groups[j]).id
    &&& forall|i: int|
        0 <= i < groups.len() ==> no_repeats((#[trigger] groups[i]).child_ids) && no_repeats(
            groups[i].label_ids,
        )
}

/// The place of a group is within the groups and holds the identifier, or it is
/// the number of groups and no group holds the identifier.
pub proof fn lemma_group_place<B>(groups: Seq<GroupView<B>>, id: Id)
    ensures
        0 <= group_place(groups, id) <= groups.len(),
        group_place(groups, id) < groups.len() ==> groups[group_place(groups, id)].id == id,
        forall|k: int| 0 <= k < group_place(groups, id) ==> (#[trigger] groups[k]).id != id,
    decreases groups.len(),
{
    if groups.len() > 0 && groups[0].id != id {
        lemma_group_place(groups.skip(1), id);
        assert forall|k: int| 0 <= k < group_place(groups, id) implies (#[trigger] groups[k]).id
            != id by {
            if k > 0 {
                assert(groups.skip(1)[k - 1] == groups[k]);
            }
        }
    }
}

/// Adding an identifier once keeps a list without repeats.
pub proof fn lemma_with_once(ids: Seq<Id>, id: Option<Id>)
    requires
        no_repeats(ids),
    ensures
        no_repeats(with_once(ids, id)),
{
}

/// Folding rows gives one group per resource, and no child or label twice.
pub proof fn lemma_grouped_tidy<B>(rows: Seq<JoinRow<B>>)
    ensures
        tidy(grouped(rows)),
    decreases rows.len(),
{
    if rows.len() > 0 {
        let before = grouped(rows.drop_last());
        let row = rows.last();
        lemma_grouped_tidy(rows.drop_last());
        lemma_group_place(before, row.id);
        let k = group_place(before, row.id);
        let after = absorbed(before, row);
        if k < before.len() {
            lemma_with_once(before[k].child_ids, row.child_id);
            lemma_with_once(before[k].label_ids, row.label_id);
            assert forall|i: int, j: int| 0 <= i < j < after.len() implies (#[trigger] after[i]).id
                != (#[trigger] after[j]).id by {
                assert(before[i].id != before[j].id);
            }
            assert forall|i: int| 0 <= i < after.len() implies no_repeats(
                (#[trigger] after[i]).child_ids,
            ) && no_repeats(after[i].label_ids) by {
                if i != k {
                    assert(after[i] == before[i]);
                }
            }
        } else {
            lemma_with_once(Seq::empty(), row.child_id);
            lemma_with_once(Seq::empty(), row.label_id);
            assert forall|i: int, j: int| 0 <= i < j < after.len() implies (#[trigger] after[i]).id
                != (#[trigger] after[j]).id by {
                if j < before.len() {
                    assert(before[i].id != before[j].id);
                } else {
                    assert(before[i].id != row.id);
                }
            }
            assert forall|i: int| 0 <= i < after.len() implies no_repeats(
                (#[trigger] after[i]).child_ids,
            ) && no_repeats(after[i].label_ids) by {
                if i < before.len() {
                    assert(after[i] == before[i]);
                }
            }
        }
    }
}

fn holds(ids: &Vec<Id>, x: Id) -> (found: bool)
    ensures
        found == ids@.contains(x),
{
    let mut i: usize = 0;
    while i < ids.len()
        invariant
            i <= ids.len(),
            forall|k: int| 0 <= k < i ==> ids@[k] != x,
        decreases ids.len() - i,
    {
        if ids[i] == x {
            assert(ids@[i as int] == x);
            return true;
        }
        i += 1;
    }
    false
}

/// Adds an identifier at the end, unless there is none or it is there already.
pub fn push_once(ids: &mut Vec<Id>, id: Option<Id>)
    ensures
        final(ids)@ == with_once(old(ids)@, id),
{
    if let Some(x) = id {
        if !holds(ids, x) {
            ids.push(x);
        }
    }
}

fn find_group<B>(groups: &Vec<Group<B>>, id: Id) -> (place: usize)
    ensures
        place == group_place(group_views(groups@), id),
        place <= groups.len(),
{
    let ghost all = group_views(groups@);
    let mut i: usize = 0;
    proof {
        assert(all.skip(0) =~= all);
    }
    while i < groups.len()
        invariant
            i <= groups.len(),
            all == group_views(groups@),
            group_place(all, id) == i + group_place(all.skip(i as int), id),
        decreases groups.len() - i,
    {
        proof {
            assert(all.skip(i as int)[0] == all[i as int]);
            assert(all.skip(i as int).skip(1) =~= all.skip(i + 1));
        }
        if groups[i].id == id {
            return i;
        }
        i += 1;
    }
    proof {
        assert(all.skip(groups.len() as int) =~= Seq::<GroupView<B>>::empty());
    }
    i
}

/// Folds the rows of a joined fetch into one group per resource. The groups
/// stand in the order their resources first came, each with the columns of its
/// first row and with the identifiers of its children and labels, each once, in
/// the order they came.
pub fn group_rows<B>(rows: Vec<JoinRow<B>>) -> (groups: Vec<Group<B>>)
    ensures
        group_views(groups@) == grouped(rows@),
        tidy(group_views(groups@)),
{
    let mut groups: Vec<Group<B>> = Vec::new();
    assert(group_views(groups@) =~= grouped(rows@.take(0)));
    for row in it: rows.into_iter()
        invariant
            it.seq() == rows@,
            group_views(groups@) == grouped(rows@.take(it.index() as int)),
    {
        let ghost before = group_views(groups@);
        proof {
            let next = rows@.take(it.index() + 1);
            assert(next.drop_last() =~= rows@.take(it.index() as int));
            assert(next.last() == row);
            lemma_group_place(before, row.id);
        }
        let k = find_group(&groups, row.id);
        if k < groups.len() {
            let mut group = groups.remove(k);
            push_once(&mut group.child_ids, row.child_id);
            push_once(&mut group.label_ids, row.label_id);
            groups.insert(k, group);
            assert(group_views(groups@) =~= absorbed(before, row));
        } else {
            let mut child_ids: Vec<Id> = Vec::new();
            let mut label_ids: Vec<Id> = Vec::new();
            push_once(&mut child_ids, row.child_id);
            push_once(&mut label_ids, row.label_id);
            groups.push(Group { id: row.id, base: row.base, child_ids, label_ids });
            assert(group_views(groups@) =~= absorbed(before, row));
        }
    }
    proof {
        assert(rows@.take(rows@.len() as int) =~= rows@);
        lemma_grouped_tidy(rows@);
    }
    groups
}

/// The group of a single fetch: the first group of the rows, or nothing where
/// there are no rows.
pub fn group_single<B>(rows: Vec<JoinRow<B>>) -> (group: Option<Group<B>>)
    ensures
        match group {
            Some(g) => grouped(rows@).len() > 0 && g@ == grouped(rows@)[0],
            None => rows@.len() == 0,
        },
{
    let ghost all = rows@;
    let mut groups = group_rows(rows);
    if groups.len() == 0 {
        proof {
            if all.len() > 0 {
                lemma_group_place(grouped(all.drop_last()), all.last().id);
            }
        }
        None
    } else {
        let first = groups.swap_remove(0);
        Some(first)
    }
}

} // verus!
