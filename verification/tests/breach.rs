use build_n_fight::flow::breach::{BreachCreatedEvent, BreachPoint, BreachPoints};
use build_n_fight::handle::Handle;
use build_n_fight::position::Position;

#[test]
fn new_breach_is_unclaimed() {
    let b = BreachPoint::new(Position::new(1, 2, 3));
    assert_eq!(b.position, Position::new(1, 2, 3));
    assert_eq!(b.claimed_by, None);
    assert_eq!(b.reinforcement_requests, 0);
    assert_eq!(b.age, 0);
    assert!(!b.is_claimed());
}

#[test]
fn add_is_idempotent_and_keeps_the_claim() {
    let mut registry = BreachPoints::new();
    let p = Position::new(3, 3, 0);
    registry.add(p);
    registry.add(p);
    assert_eq!(registry.len(), 1);
    assert!(registry.claim(p, Handle::new(42)));
    registry.add(p);
    assert_eq!(registry.len(), 1);
    assert_eq!(registry.at_position(p).unwrap().claimed_by, Some(Handle::new(42)));
    registry.add(Position::new(3, 3, 1));
    assert_eq!(registry.len(), 2);
    assert_eq!(registry.points()[0].position, p);
    assert_eq!(registry.points()[1].position, Position::new(3, 3, 1));
}

#[test]
fn nearest_unclaimed_moves_on_when_claimed() {
    let mut registry = BreachPoints::new();
    let near = Position::new(1, 1, 0);
    let mid = Position::new(2, -2, 1);
    let far = Position::new(10, 0, 0);
    registry.add(far);
    registry.add(near);
    registry.add(mid);
    let from = Position::new(0, 0, 0);
    assert_eq!(registry.nearest_unclaimed(from).unwrap().position, near);
    assert!(registry.claim(near, Handle::new(1)));
    let next = registry.nearest_unclaimed(from).unwrap();
    assert_eq!(next.position, mid);
    assert!(!next.is_claimed());
    assert!(registry.claim(mid, Handle::new(2)));
    assert_eq!(registry.nearest_unclaimed(from).unwrap().position, far);
    assert!(registry.claim(far, Handle::new(3)));
    assert!(registry.nearest_unclaimed(from).is_none());
}

#[test]
fn nearest_uses_manhattan_distance_and_first_wins_ties() {
    let mut registry = BreachPoints::new();
    // Straight-line nearer, Manhattan farther.
    let diagonal = Position::new(3, 3, 3);
    let axis = Position::new(8, 0, 0);
    let tie = Position::new(0, -8, 0);
    registry.add(diagonal);
    registry.add(axis);
    registry.add(tie);
    let from = Position::new(0, 0, 0);
    assert_eq!(registry.nearest_unclaimed(from).unwrap().position, axis);
    let mut other = BreachPoints::new();
    other.add(tie);
    other.add(axis);
    assert_eq!(other.nearest_unclaimed(from).unwrap().position, tie);
}

#[test]
fn nearest_does_not_overflow_at_the_edges() {
    let mut registry = BreachPoints::new();
    let low = Position::new(i32::MIN, i32::MIN, i32::MIN);
    let high = Position::new(i32::MAX, i32::MAX, i32::MAX);
    registry.add(low);
    registry.add(high);
    assert_eq!(registry.nearest_unclaimed(Position::new(-1, -1, -1)).unwrap().position, low);
    assert_eq!(registry.nearest_unclaimed(Position::new(0, 0, 0)).unwrap().position, high);
    assert_eq!(low.manhattan_distance(high), 3 * (u32::MAX as u64));
}

#[test]
fn claim_is_last_writer_wins() {
    let mut registry = BreachPoints::new();
    let p = Position::new(0, 0, 0);
    registry.add(p);
    assert!(registry.claim(p, Handle::new(1)));
    assert!(registry.claim(p, Handle::new(2)));
    assert_eq!(registry.at_position(p).unwrap().claimed_by, Some(Handle::new(2)));
    assert!(!registry.claim(Position::new(9, 9, 9), Handle::new(3)));
    assert_eq!(registry.len(), 1);
}

#[test]
fn reinforcement_requests_accumulate() {
    let mut registry = BreachPoints::new();
    let p = Position::new(0, 0, 0);
    let q = Position::new(1, 0, 0);
    registry.add(p);
    registry.add(q);
    assert!(registry.request_reinforcements(p, 3));
    assert!(registry.request_reinforcements(p, 4));
    assert!(!registry.request_reinforcements(Position::new(5, 5, 5), 1));
    assert_eq!(registry.at_position(p).unwrap().reinforcement_requests, 7);
    assert_eq!(registry.at_position(q).unwrap().reinforcement_requests, 0);
    let mut single = BreachPoint::new(p);
    single.request_reinforcements(u32::MAX);
    assert_eq!(single.reinforcement_requests, u32::MAX);
}

#[test]
fn tick_ages_every_breach() {
    let mut registry = BreachPoints::new();
    registry.add(Position::new(0, 0, 0));
    registry.tick(16);
    registry.add(Position::new(1, 0, 0));
    registry.tick(16);
    registry.tick(u32::MAX);
    assert_eq!(registry.points()[0].age, 32 + u32::MAX as u64);
    assert_eq!(registry.points()[1].age, 16 + u32::MAX as u64);
}

#[test]
fn manage_records_then_ages() {
    let mut registry = BreachPoints::new();
    let p = Position::new(7, 7, 7);
    let events = vec![BreachCreatedEvent { position: p }, BreachCreatedEvent { position: p }];
    registry.manage(&events, 250);
    assert_eq!(registry.len(), 1);
    assert_eq!(registry.at_position(p).unwrap().age, 250);
    registry.manage(&Vec::new(), 250);
    assert_eq!(registry.at_position(p).unwrap().age, 500);
    assert!(registry.at_position(Position::new(0, 0, 0)).is_none());
}
