use arcweak::protocol::Block;

#[test]
fn construct_starts_with_one_unit_of_each_counter() {
    let b = Block::construct();
    assert_eq!(b.strong, 1);
    assert_eq!(b.alloc, 1);
    assert!(b.payload_live);
    assert!(b.block_live);
}

#[test]
fn last_strong_drop_destroys_payload_and_frees_block() {
    let mut b = Block::construct();
    let outcome = b.drop_strong();
    assert!(outcome.destroyed_payload);
    assert!(outcome.freed_block);
    assert_eq!(b.strong, 0);
    assert_eq!(b.alloc, 0);
    assert!(!b.payload_live);
    assert!(!b.block_live);
}

#[test]
fn only_the_last_strong_drop_destroys() {
    let mut b = Block::construct();
    assert!(b.clone_strong());
    assert!(b.clone_strong());
    assert_eq!(b.strong, 3);
    assert!(!b.drop_strong().destroyed_payload);
    assert!(!b.drop_strong().destroyed_payload);
    let last = b.drop_strong();
    assert!(last.destroyed_payload);
    assert!(last.freed_block);
}

#[test]
fn teardown_with_a_weak_handle_frees_only_on_weak_drop() {
    let mut b = Block::construct();
    b.downgrade();
    assert_eq!(b.alloc, 2);
    let outcome = b.drop_strong();
    assert!(outcome.destroyed_payload);
    assert!(!outcome.freed_block);
    assert!(b.block_live);
    let freed = b.drop_weak();
    assert!(freed);
    assert!(!b.block_live);
    assert_eq!(b.alloc, 0);
}

#[test]
fn upgrade_succeeds_exactly_while_strong_units_remain() {
    let mut b = Block::construct();
    b.downgrade();
    assert!(b.try_upgrade());
    assert_eq!(b.strong, 2);
    assert!(!b.drop_strong().destroyed_payload);
    assert!(b.drop_strong().destroyed_payload);
    assert!(!b.try_upgrade());
    assert_eq!(b.strong, 0);
    assert!(!b.try_upgrade());
}

#[test]
fn strong_clone_refuses_past_half_the_range() {
    let half: usize = usize::MAX / 2;
    let mut b = Block {
        strong: half + 1,
        alloc: 1,
        payload_live: true,
        block_live: true,
    };
    assert!(!b.clone_strong());
    assert_eq!(b.strong, half + 1);
}

#[test]
fn weak_clone_refuses_past_half_the_range() {
    let half: usize = usize::MAX / 2;
    let mut b = Block {
        strong: 0,
        alloc: half + 1,
        payload_live: false,
        block_live: true,
    };
    assert!(!b.clone_weak());
    assert_eq!(b.alloc, half + 1);
}
