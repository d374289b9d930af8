use syncprims::arc::basic;
use syncprims::arc::optimiz;
use syncprims::arc::optimiz::claim_allocs;
use syncprims::arc::optimiz::downgrade_should_spin;
use syncprims::arc::optimiz::CLAIMED;
use syncprims::arc::weak;

#[test]
fn optimiz_claim_words() {
    // The exclusivity claim succeeds only on an allocation count of one,
    // and parks the sentinel there while it checks.
    assert_eq!(claim_allocs(1), (CLAIMED, true));
    assert_eq!(claim_allocs(2), (2, false));
    // A downgrade spins exactly while the sentinel is in place.
    assert!(downgrade_should_spin(CLAIMED));
    assert!(!downgrade_should_spin(1));
}

#[test]
fn basic_arc_destroys_payload_once() {
    let (mut block, x) = basic::Arc::new(("hello", 1u8));
    let y = block.clone_strong(&x);
    assert_eq!(block.get(&x).0, "hello");
    assert_eq!(block.get(&y).0, "hello");
    // Dropping one of two handles destroys nothing.
    assert!(block.drop_strong(x).is_none());
    // Dropping the last one surrenders the payload, exactly once.
    let gone = block.drop_strong(y);
    assert_eq!(gone.map(|p| p.0), Some("hello"));
}

#[test]
fn basic_arc_exclusive_access() {
    let (mut block, x) = basic::Arc::new(7u64);
    let y = block.clone_strong(&x);
    assert!(!basic::Arc::is_unique(&x, &block), "two handles: not unique");
    assert!(block.drop_strong(y).is_none());
    assert!(basic::Arc::is_unique(&x, &block), "one handle: unique");
    *basic::Arc::get_mut(&x, &mut block) = 8;
    assert_eq!(*block.get(&x), 8);
    assert_eq!(block.drop_strong(x), Some(8));
}

#[test]
fn weak_arc_upgrade_follows_the_strong_count() {
    let (mut block, x) = weak::Arc::new("hello");
    let y = weak::Arc::downgrade(&x, &mut block);
    let z = weak::Arc::downgrade(&x, &mut block);
    // While a strong handle lives, a weak handle upgrades.
    let up = y.upgrade(&mut block);
    assert!(up.is_some());
    assert_eq!(*block.get(&x), "hello");
    // Drop every strong handle: the payload is surrendered on the last.
    assert!(block.drop_strong(x).is_none());
    assert_eq!(block.drop_strong(up.unwrap()), Some("hello"));
    // The block is still alive for the weak handles, but dead forever.
    assert!(z.upgrade(&mut block).is_none());
    assert!(z.upgrade(&mut block).is_none());
    block.drop_weak(y);
    block.drop_weak(z);
}

#[test]
fn weak_arc_counts_embed_the_owners() {
    let (mut block, x) = weak::Arc::new(1u32);
    let w = weak::Arc::downgrade(&x, &mut block);
    let w2 = block.clone_weak(&w);
    let x2 = block.clone_strong(&x);
    // Retiring handles in any order leaves a single destruction.
    block.drop_weak(w2);
    assert!(block.drop_strong(x2).is_none());
    assert_eq!(block.drop_strong(x), Some(1));
    assert!(w.upgrade(&mut block).is_none());
    block.drop_weak(w);
}

#[test]
fn optimiz_arc_unique_checks_both_counts() {
    let (mut block, x) = optimiz::Arc::new("hello");
    assert!(optimiz::Arc::is_unique(&x, &mut block));
    let w = optimiz::Arc::downgrade(&x, &mut block);
    assert!(
        !optimiz::Arc::is_unique(&x, &mut block),
        "a weak handle forbids exclusive access",
    );
    block.drop_weak(w);
    assert!(optimiz::Arc::is_unique(&x, &mut block));
    let p = optimiz::Arc::get_mut(&x, &mut block);
    *p = "world";
    assert_eq!(*block.get(&x), "world");
    assert_eq!(block.drop_strong(x), Some("world"));
}

#[test]
fn optimiz_arc_upgrade_and_destruction() {
    let (mut block, x) = optimiz::Arc::new(5i32);
    let y = block.clone_strong(&x);
    let w = optimiz::Arc::downgrade(&x, &mut block);
    let up = w.upgrade(&mut block);
    assert!(up.is_some());
    assert!(block.drop_strong(x).is_none());
    assert!(block.drop_strong(y).is_none());
    assert_eq!(block.drop_strong(up.unwrap()), Some(5));
    assert!(w.upgrade(&mut block).is_none(), "no resurrection");
    block.drop_weak(w);
}
