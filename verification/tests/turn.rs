use centichain_validator::trun_sync::{Sync, Turn};

#[test]
fn fresh_turn_is_off() {
    let t = Turn::new();
    assert!(!t.shift);
    assert_eq!(t.waiting, 0);
}

#[test]
fn turn_on_and_off() {
    let mut t = Turn::new();
    t.off(3);
    assert_eq!(t, Turn { shift: false, waiting: 3 });
    t.on();
    assert_eq!(t, Turn { shift: true, waiting: 0 });
}

#[test]
fn turn_counts_down_to_eligibility() {
    let mut t = Turn { shift: false, waiting: 2 };
    t.waiting_update();
    assert_eq!(t, Turn { shift: false, waiting: 1 });
    t.waiting_update();
    assert_eq!(t, Turn { shift: true, waiting: 0 });
    t.waiting_update();
    assert_eq!(t, Turn { shift: true, waiting: 0 });
    let mut idle = Turn::new();
    idle.waiting_update();
    assert_eq!(idle, Turn { shift: false, waiting: 0 });
}

#[test]
fn sync_is_one_way() {
    let mut s = Sync::new();
    assert_eq!(s, Sync::NotSynced);
    s.synced();
    assert_eq!(s, Sync::Synced);
    s.synced();
    assert_eq!(s, Sync::Synced);
}
