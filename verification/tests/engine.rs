use toast_task::arena::{Arena, Failure, GET_LIMIT};
use toast_task::patch::Patch;

fn three_lists() -> Arena<&'static str> {
    let mut arena = Arena::new();
    assert_eq!(arena.create(1, 10, None, "groceries"), Ok(1));
    assert_eq!(arena.create(2, 10, Some(1), "fruit"), Ok(2));
    assert_eq!(arena.create(3, 20, None, "work"), Ok(3));
    arena
}

#[test]
fn create_stamps_the_owner() {
    let arena = three_lists();
    let record = arena.get(10, 1).unwrap();
    assert_eq!((record.id, record.owner, record.parent, record.payload), (1, 10, None, "groceries"));
    assert_eq!(arena.len(), 3);
}

#[test]
fn create_refuses_a_taken_identifier() {
    let mut arena = three_lists();
    assert_eq!(arena.create(1, 20, None, "again"), Err(Failure::Conflict));
    assert_eq!(arena.len(), 3);
}

#[test]
fn create_refuses_a_parent_that_is_absent_or_foreign() {
    let mut arena = three_lists();
    assert_eq!(arena.create(4, 10, Some(99), "x"), Err(Failure::InvalidParent));
    assert_eq!(arena.create(4, 10, Some(3), "x"), Err(Failure::InvalidParent));
    assert_eq!(arena.len(), 3);
}

#[test]
fn foreign_record_is_not_found() {
    let mut arena = three_lists();
    assert!(matches!(arena.get(10, 3), Err(Failure::NotFound)));
    assert_eq!(arena.patch(10, 3, Some("mine"), Patch::Missing), Err(Failure::NotFound));
    assert_eq!(arena.delete(10, 3), Err(Failure::NotFound));
    assert_eq!(arena.get(20, 3).unwrap().payload, "work");
}

#[test]
fn absent_record_is_not_found() {
    let mut arena = three_lists();
    assert!(matches!(arena.get(10, 99), Err(Failure::NotFound)));
    assert_eq!(arena.patch(10, 99, None, Patch::Null), Err(Failure::NotFound));
    assert_eq!(arena.delete(10, 99), Err(Failure::NotFound));
}

#[test]
fn own_parent_is_always_refused() {
    let mut arena = three_lists();
    assert_eq!(arena.patch(10, 2, None, Patch::Value(2)), Err(Failure::OwnParent));
    assert_eq!(arena.patch(10, 3, None, Patch::Value(3)), Err(Failure::OwnParent));
    assert_eq!(arena.patch(10, 99, Some("x"), Patch::Value(99)), Err(Failure::OwnParent));
    assert_eq!(arena.get(10, 2).unwrap().parent, Some(1));
}

#[test]
fn patch_applies_fields_and_parent_together() {
    let mut arena = three_lists();
    assert_eq!(arena.create(4, 10, None, "sweets"), Ok(4));
    assert_eq!(arena.patch(10, 2, Some("vegetables"), Patch::Value(4)), Ok(()));
    let record = arena.get(10, 2).unwrap();
    assert_eq!((record.payload, record.parent), ("vegetables", Some(4)));
}

#[test]
fn patch_with_a_refused_parent_changes_nothing() {
    let mut arena = three_lists();
    assert_eq!(arena.patch(10, 2, Some("vegetables"), Patch::Value(3)), Err(Failure::InvalidParent));
    assert_eq!(arena.patch(10, 2, Some("vegetables"), Patch::Value(99)), Err(Failure::InvalidParent));
    let record = arena.get(10, 2).unwrap();
    assert_eq!((record.payload, record.parent), ("fruit", Some(1)));
}

#[test]
fn patch_null_detaches_and_missing_keeps() {
    let mut arena = three_lists();
    assert_eq!(arena.patch(10, 2, None, Patch::Missing), Ok(()));
    assert_eq!(arena.get(10, 2).unwrap().parent, Some(1));
    assert_eq!(arena.patch(10, 2, None, Patch::Null), Ok(()));
    assert_eq!(arena.get(10, 2).unwrap().parent, None);
    assert_eq!(arena.get(10, 2).unwrap().payload, "fruit");
}

#[test]
fn children_are_found_by_reverse_lookup() {
    let mut arena = three_lists();
    assert_eq!(arena.create(4, 10, Some(1), "dairy"), Ok(4));
    assert_eq!(arena.children(1), vec![2, 4]);
    assert_eq!(arena.children(2), Vec::<u128>::new());
    assert_eq!(arena.patch(10, 2, None, Patch::Null), Ok(()));
    assert_eq!(arena.children(1), vec![4]);
}

#[test]
fn delete_detaches_the_children() {
    let mut arena = three_lists();
    assert_eq!(arena.delete(10, 1), Ok(()));
    assert!(matches!(arena.get(10, 1), Err(Failure::NotFound)));
    let child = arena.get(10, 2).unwrap();
    assert_eq!(child.parent, None);
    assert_eq!(arena.len(), 2);
    assert_eq!(arena.delete(10, 1), Err(Failure::NotFound));
}

#[test]
fn list_uses_the_default_limit_and_first_page() {
    let arena = three_lists();
    let listing = arena.list(10, None, None);
    assert_eq!(listing.limit, GET_LIMIT);
    assert_eq!(listing.limit, 1000);
    assert_eq!(listing.page, 0);
    let ids: Vec<u128> = listing.items.iter().map(|r| r.id).collect();
    assert_eq!(ids, vec![1, 2]);
}

#[test]
fn list_shows_only_the_callers_records() {
    let arena = three_lists();
    let ids: Vec<u128> = arena.list(20, None, None).items.iter().map(|r| r.id).collect();
    assert_eq!(ids, vec![3]);
    assert!(arena.list(30, None, None).items.is_empty());
}

#[test]
fn paging_until_an_empty_page_gives_every_record_once() {
    let mut arena: Arena<u32> = Arena::new();
    for i in 0..7u32 {
        assert_eq!(arena.create(i as u128, 10, None, i), Ok(i as u128));
        assert_eq!(arena.create(100 + i as u128, 20, None, i), Ok(100 + i as u128));
    }
    let all: Vec<u128> = arena.list(10, Some(u32::MAX), None).items.iter().map(|r| r.id).collect();
    assert_eq!(all, vec![0, 1, 2, 3, 4, 5, 6]);
    for limit in 1..9u32 {
        let mut paged: Vec<u128> = Vec::new();
        let mut page = 0u32;
        loop {
            let listing = arena.list(10, Some(limit), Some(page));
            assert_eq!((listing.limit, listing.page), (limit, page));
            if listing.items.is_empty() {
                break;
            }
            assert!(listing.items.len() <= limit as usize);
            paged.extend(listing.items.iter().map(|r| r.id));
            page += 1;
        }
        assert_eq!(paged, all);
    }
}

#[test]
fn page_with_limit_zero_is_empty() {
    let arena = three_lists();
    assert!(arena.list(10, Some(0), Some(0)).items.is_empty());
}

#[test]
fn page_far_beyond_the_end_is_empty() {
    let arena = three_lists();
    assert!(arena.list(10, Some(u32::MAX), Some(u32::MAX)).items.is_empty());
    assert!(arena.list(10, Some(2), Some(1)).items.is_empty());
    assert_eq!(arena.list(10, Some(1), Some(1)).items.len(), 1);
}
