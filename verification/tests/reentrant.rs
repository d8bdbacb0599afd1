use irq_mutex::cortex_m_interrupt_free::ReentrantMutex;
use irq_mutex::Lockable;

const T1: u32 = 1;
const T2: u32 = 2;

#[test]
fn nested_owner_holds_until_its_last_guard_is_released() {
    let mut lock = ReentrantMutex::new(0);
    let mut g1 = lock.try_lock(T1).expect("a new mutex is free");
    let mut g2 = g1.parent.try_lock(T1).expect("the holder may nest");
    assert!(g2.parent.try_lock(T2).is_none());
    g2.release();
    assert!(g1.parent.try_lock(T2).is_none());
    g1.release();
    let g3 = lock.try_lock(T2);
    assert!(g3.is_some());
}

#[test]
fn same_owner_is_granted_again_and_counts_deeper() {
    let mut lock = ReentrantMutex::new('x');
    let mut g1 = lock.try_lock(T1).unwrap();
    let mut g2 = g1.parent.try_lock(T1).unwrap();
    let g3 = g2.parent.try_lock(T1).unwrap();
    // depth is three: three releases, and not fewer, free the mutex
    g3.release();
    assert!(g2.parent.try_lock(T2).is_none());
    g2.release();
    assert!(g1.parent.try_lock(T2).is_none());
    g1.release();
    assert!(lock.try_lock(T2).is_some());
}

#[test]
fn other_owner_is_turned_away_while_held() {
    let mut lock = ReentrantMutex::new(0u8);
    let mut held = lock.try_lock(T1).unwrap();
    assert!(held.parent.try_lock(T2).is_none());
    assert!(held.parent.try_lock(T2).is_none());
    held.release();
    let mut other = lock.try_lock(T2).expect("free after the only release");
    assert!(other.parent.try_lock(T1).is_none());
}

#[test]
fn failed_attempt_does_not_count() {
    let mut lock = ReentrantMutex::new(0u8);
    let mut held = lock.try_lock(T1).unwrap();
    assert!(held.parent.try_lock(T2).is_none());
    held.release();
    // had the failed attempt counted, the mutex would still be held by T1
    assert!(lock.try_lock(T2).is_some());
}

#[test]
fn round_trip_leaves_a_free_mutex() {
    let mut lock = ReentrantMutex::new(vec![1u8]);
    for owner in [T1, T2, T1] {
        let mut outer = lock.try_lock(owner).expect("free at the start of every round");
        let mut inner = outer.parent.try_lock(owner).unwrap();
        inner.push(owner as u8);
        inner.release();
        outer.release();
    }
    let guard = lock.try_lock(T2).unwrap();
    assert_eq!(*guard, vec![1u8, 1, 2, 1]);
}

#[test]
fn tokens_are_compared_by_value() {
    let mut lock = ReentrantMutex::new(0i32);
    let mut g1 = lock.try_lock(String::from("main")).unwrap();
    let mut g2 = g1.parent.try_lock(String::from("main")).expect("an equal token is the same owner");
    assert!(g2.parent.try_lock(String::from("irq")).is_none());
    g2.release();
    g1.release();
    assert!(lock.try_lock(String::from("irq")).is_some());
}

#[derive(Debug)]
struct Tagged {
    owner: u8,
    note: &'static str,
}

impl PartialEq for Tagged {
    fn eq(&self, other: &Tagged) -> bool {
        self.owner == other.owner
    }
}

#[test]
fn holder_of_a_held_mutex_is_kept_on_reentry() {
    let mut lock = ReentrantMutex::new(());
    let mut g1 = lock.try_lock(Tagged { owner: 1, note: "first" }).unwrap();
    let mut g2 = g1.parent.try_lock(Tagged { owner: 1, note: "second" }).expect("same owner");
    assert!(g2.parent.try_lock(Tagged { owner: 2, note: "first" }).is_none());
    g2.release();
    g1.release();
    assert!(lock.try_lock(Tagged { owner: 2, note: "third" }).is_some());
}

#[test]
fn nested_guards_see_the_same_data() {
    let mut lock = ReentrantMutex::new(0);
    let mut g1 = lock.try_lock(T1).unwrap();
    *g1 = 1;
    let mut g2 = g1.parent.try_lock(T1).unwrap();
    assert_eq!(*g2, 1);
    *g2 += 10;
    g2.release();
    assert_eq!(*g1, 11);
    *g1 += 100;
    g1.release();
    assert_eq!(*lock.try_lock(T2).unwrap(), 111);
}

#[test]
fn guard_that_is_not_released_keeps_its_acquisition() {
    let mut lock = ReentrantMutex::new(0u8);
    {
        let guard = lock.try_lock(T1);
        assert!(guard.is_some());
    }
    assert!(lock.try_lock(T2).is_none());
    let again = lock.try_lock(T1).expect("still held by T1");
    again.release();
    // one of two acquisitions is still outstanding
    assert!(lock.try_lock(T2).is_none());
}

#[test]
fn reentrant_through_the_trait() {
    let mut lock = ReentrantMutex::new(5u64);
    let mut g1 = Lockable::try_lock(&mut lock, &T1).expect("free");
    let mut g2 = Lockable::try_lock(&mut *g1.parent, &T1).expect("same owner");
    assert!(Lockable::try_lock(&mut *g2.parent, &T2).is_none());
    *g2 *= 2;
    g2.release();
    g1.release();
    let g3 = Lockable::try_lock(&mut lock, &T2).expect("free again");
    assert_eq!(*g3, 10);
}
