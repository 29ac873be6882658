use build_n_fight::ai::caste::AntCaste;
use build_n_fight::ai::tunnel_queue::{
    advance_all, split_at_progress, Emergence, QueuedAnt, TunnelNetwork, TunnelSegment, PROGRESS_ONE,
};
use build_n_fight::handle::Handle;
use build_n_fight::position::Position;

// Rates are in thousandths of a corridor per second, times in milliseconds and
// progress in millionths of a corridor.
fn rate(v: f64) -> u32 {
    (v * 1000.0).round() as u32
}

fn seconds(v: f64) -> u32 {
    (v * 1000.0).round() as u32
}

fn progress(v: f64) -> u64 {
    (v * 1_000_000.0).round() as u64
}

fn ant(caste: AntCaste, nest: u64) -> QueuedAnt {
    QueuedAnt { caste, progress: 123_456, leader: Some(Handle::new(77)), nest: Handle::new(nest) }
}

#[test]
fn new_segment_is_intact_and_empty() {
    let s = TunnelSegment::new(Position::new(0, 0, 0), Position::new(9, 0, 0), rate(0.5));
    assert_eq!(s.start, Position::new(0, 0, 0));
    assert_eq!(s.end, Position::new(9, 0, 0));
    assert_eq!(s.move_rate, 500);
    assert!(s.intact);
    assert!(s.queue.is_empty());
}

#[test]
fn enqueue_resets_progress() {
    let mut s = TunnelSegment::new(Position::new(0, 0, 0), Position::new(9, 0, 0), rate(0.5));
    s.enqueue(ant(AntCaste::Major, 1));
    assert_eq!(s.queue.len(), 1);
    assert_eq!(s.queue[0].progress, 0);
    assert_eq!(s.queue[0].caste, AntCaste::Major);
    assert_eq!(s.queue[0].leader, Some(Handle::new(77)));
    assert_eq!(s.queue[0].nest, Handle::new(1));
}

#[test]
fn fresh_agent_emerges_when_it_reaches_the_end() {
    let mut s = TunnelSegment::new(Position::new(0, 0, 0), Position::new(9, 0, 0), rate(0.5));
    s.enqueue(ant(AntCaste::Minor, 1));
    let emerged = s.update(seconds(2.0));
    assert_eq!(emerged.len(), 1);
    assert_eq!(emerged[0].progress, progress(1.0));
    assert_eq!(emerged[0].progress, PROGRESS_ONE);
    assert_eq!(emerged[0].caste, AntCaste::Minor);
    assert!(s.queue.is_empty());
    assert!(s.intact);
}

#[test]
fn agent_short_of_the_end_stays() {
    let mut s = TunnelSegment::new(Position::new(0, 0, 0), Position::new(9, 0, 0), rate(0.5));
    s.enqueue(ant(AntCaste::Minor, 1));
    assert!(s.update(seconds(1.999)).is_empty());
    assert_eq!(s.queue[0].progress, 999_500);
    let emerged = s.update(seconds(0.001));
    assert_eq!(emerged.len(), 1);
    assert_eq!(emerged[0].progress, 1_000_000);
}

#[test]
fn update_keeps_queue_order() {
    let mut s = TunnelSegment::new(Position::new(0, 0, 0), Position::new(9, 0, 0), rate(0.25));
    s.enqueue(ant(AntCaste::Minor, 1));
    s.update(seconds(2.0));
    s.enqueue(ant(AntCaste::Median, 2));
    s.update(seconds(1.0));
    s.enqueue(ant(AntCaste::Major, 3));
    s.enqueue(ant(AntCaste::Siege, 4));
    assert_eq!(
        s.queue.iter().map(|a| a.progress).collect::<Vec<u64>>(),
        vec![750_000, 250_000, 0, 0]
    );
    let emerged = s.update(seconds(3.0));
    assert_eq!(emerged.iter().map(|a| a.nest.bits()).collect::<Vec<u64>>(), vec![1, 2]);
    assert_eq!(emerged[0].progress, 1_500_000);
    assert_eq!(s.queue.iter().map(|a| a.nest.bits()).collect::<Vec<u64>>(), vec![3, 4]);
    assert_eq!(s.queue[0].progress, 750_000);
}

#[test]
fn break_ejects_those_short_of_the_break() {
    let mut network = TunnelNetwork::new();
    let start = Position::new(0, 0, 0);
    let end = Position::new(10, -20, 4);
    network.add_segment(start, end, rate(0.1));
    {
        let s = network.segment_at_mut(start).unwrap();
        s.enqueue(ant(AntCaste::Major, 7));
    }
    assert!(network.update(seconds(4.0)).is_empty());
    network.segment_at_mut(start).unwrap().enqueue(ant(AntCaste::Minor, 3));
    assert!(network.update(seconds(3.0)).is_empty());
    {
        let s = network.segment_at(start).unwrap();
        assert_eq!(s.queue[0].progress, progress(0.7));
        assert_eq!(s.queue[1].progress, progress(0.3));
    }
    let (at, ejected) = network.segment_at_mut(start).unwrap().break_at(progress(0.5));
    assert_eq!(at, Position::new(5, -10, 2));
    assert_eq!(ejected.len(), 1);
    assert_eq!(ejected[0].nest, Handle::new(3));
    assert_eq!(ejected[0].progress, progress(0.3));
    let s = network.segment_at(start).unwrap();
    assert!(!s.intact);
    assert_eq!(s.queue.len(), 1);
    assert_eq!(s.queue[0].nest, Handle::new(7));

    // The agent beyond the break is stranded for good.
    for _ in 0..10 {
        assert!(network.update(seconds(60.0)).is_empty());
    }
    let s = network.segment_at(start).unwrap();
    assert_eq!(s.queue.len(), 1);
    assert_eq!(s.queue[0].progress, progress(0.7));
    assert!(!s.intact);
}

#[test]
fn broken_segment_does_not_advance() {
    let mut s = TunnelSegment::new(Position::new(0, 0, 0), Position::new(10, 0, 0), rate(0.1));
    s.enqueue(ant(AntCaste::Major, 7));
    assert!(s.update(seconds(4.0)).is_empty());
    s.enqueue(ant(AntCaste::Minor, 3));
    assert!(s.update(seconds(3.0)).is_empty());
    assert_eq!(s.queue[0].progress, progress(0.7));
    assert_eq!(s.queue[1].progress, progress(0.3));
    let (at, ejected) = s.break_at(progress(0.5));
    assert_eq!(at, Position::new(5, 0, 0));
    assert_eq!(ejected.len(), 1);
    assert_eq!(ejected[0].nest, Handle::new(3));
    assert!(!s.intact);
    // The segment's own update leaves the stranded agent where it is, however long.
    for dt in [seconds(1.0), seconds(10.0), 0, u32::MAX] {
        assert!(s.update(dt).is_empty());
        assert_eq!(s.queue.len(), 1);
        assert_eq!(s.queue[0].progress, 700_000);
        assert_eq!(s.queue[0].nest, Handle::new(7));
        assert!(!s.intact);
    }
    // An agent that enters a broken corridor stays at its entrance.
    s.enqueue(ant(AntCaste::Scout, 9));
    assert!(s.update(seconds(100.0)).is_empty());
    assert_eq!(s.queue[1].progress, 0);
}

#[test]
fn intact_segment_still_advances_beside_a_broken_one() {
    let mut broken = TunnelSegment::new(Position::new(0, 0, 0), Position::new(10, 0, 0), rate(1.0));
    let mut whole = TunnelSegment::new(Position::new(0, 0, 0), Position::new(10, 0, 0), rate(1.0));
    broken.enqueue(ant(AntCaste::Minor, 1));
    whole.enqueue(ant(AntCaste::Minor, 2));
    broken.break_at(0);
    assert!(broken.update(seconds(1.0)).is_empty());
    assert_eq!(broken.queue[0].progress, 0);
    let emerged = whole.update(seconds(1.0));
    assert_eq!(emerged.len(), 1);
    assert_eq!(emerged[0].progress, 1_000_000);
}

#[test]
fn break_position_rounds_toward_zero() {
    let mut s = TunnelSegment::new(Position::new(0, 0, 0), Position::new(11, -11, 1), 1);
    assert_eq!(s.break_at(progress(0.5)).0, Position::new(5, -5, 0));
    let mut t = TunnelSegment::new(Position::new(3, 3, 3), Position::new(7, -5, 3), 1);
    assert_eq!(t.break_at(0).0, Position::new(3, 3, 3));
    assert_eq!(t.break_at(PROGRESS_ONE).0, Position::new(7, -5, 3));
    assert_eq!(t.break_at(progress(0.25)).0, Position::new(4, 1, 3));
    let mut far = TunnelSegment::new(
        Position::new(i32::MIN, i32::MAX, 0),
        Position::new(i32::MAX, i32::MIN, 0),
        1,
    );
    assert_eq!(far.break_at(progress(0.5)).0, Position::new(0, 0, 0));
    assert_eq!(far.break_at(2 * PROGRESS_ONE).0, Position::new(i32::MAX, i32::MIN, 0));
}

#[test]
fn break_at_zero_ejects_nobody_and_at_the_end_everybody() {
    let mut s = TunnelSegment::new(Position::new(0, 0, 0), Position::new(4, 0, 0), rate(0.5));
    s.enqueue(ant(AntCaste::Minor, 1));
    s.enqueue(ant(AntCaste::Minor, 2));
    let (_, ejected) = s.break_at(0);
    assert!(ejected.is_empty());
    assert_eq!(s.queue.len(), 2);
    let (at, ejected) = s.break_at(PROGRESS_ONE);
    assert_eq!(at, Position::new(4, 0, 0));
    assert_eq!(ejected.len(), 2);
    assert!(s.queue.is_empty());
}

#[test]
fn network_update_reports_where_agents_emerge() {
    let mut network = TunnelNetwork::new();
    network.add_segment(Position::new(0, 0, 0), Position::new(5, 0, 0), rate(1.0));
    network.add_segment(Position::new(0, 1, 0), Position::new(0, 9, -3), rate(2.0));
    network.add_segment(Position::new(0, 0, 0), Position::new(-5, 0, 0), rate(1.0));
    assert_eq!(network.segment_index(Position::new(0, 0, 0)), Some(0));
    assert_eq!(network.segment_index(Position::new(0, 1, 0)), Some(1));
    assert_eq!(network.segment_index(Position::new(5, 0, 0)), None);
    assert!(network.segment_at(Position::new(5, 0, 0)).is_none());
    assert!(network.segment_at_mut(Position::new(5, 0, 0)).is_none());
    assert_eq!(network.segment_at(Position::new(0, 0, 0)).unwrap().end, Position::new(5, 0, 0));
    network.segments[0].enqueue(ant(AntCaste::Minor, 1));
    network.segments[1].enqueue(ant(AntCaste::Scout, 2));
    network.segments[1].enqueue(ant(AntCaste::Scout, 3));
    network.segments[2].enqueue(ant(AntCaste::Siege, 4));
    let emerged = network.update(seconds(0.5));
    assert_eq!(
        emerged,
        vec![
            Emergence {
                position: Position::new(0, 9, -3),
                ant: QueuedAnt {
                    caste: AntCaste::Scout,
                    progress: 1_000_000,
                    leader: Some(Handle::new(77)),
                    nest: Handle::new(2)
                }
            },
            Emergence {
                position: Position::new(0, 9, -3),
                ant: QueuedAnt {
                    caste: AntCaste::Scout,
                    progress: 1_000_000,
                    leader: Some(Handle::new(77)),
                    nest: Handle::new(3)
                }
            },
        ]
    );
    assert_eq!(network.segments[0].queue[0].progress, 500_000);
    assert!(network.segments[1].queue.is_empty());
    let emerged = network.update(seconds(0.5));
    assert_eq!(emerged.len(), 2);
    assert_eq!(emerged[0].position, Position::new(5, 0, 0));
    assert_eq!(emerged[1].position, Position::new(-5, 0, 0));
}

#[test]
fn progress_stops_at_the_largest_value() {
    let queue = vec![QueuedAnt {
        caste: AntCaste::Minor,
        progress: u64::MAX - 5,
        leader: None,
        nest: Handle::new(1),
    }];
    let moved = advance_all(&queue, 10);
    assert_eq!(moved[0].progress, u64::MAX);
    let (short, reached) = split_at_progress(&moved, u64::MAX);
    assert!(short.is_empty());
    assert_eq!(reached.len(), 1);
}
