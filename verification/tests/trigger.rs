use thunderscope::trigger::State;
use thunderscope::{Edge, EdgeFilter, Trigger};

fn prime_trigger(state: State) -> Trigger {
    let mut trig = Trigger::new(50, 1);
    match state {
        State::Fresh => {}
        State::Below => {
            trig.find(&[0], EdgeFilter::Both);
        }
        State::Above => {
            trig.find(&[127], EdgeFilter::Both);
        }
    }
    trig
}

#[test]
fn test_fresh_empty() {
    let mut trig = Trigger::new(50, 1);
    assert!(matches!(trig.state(), State::Fresh));
    assert_eq!(trig.find(&[], EdgeFilter::Both), (0, None));
    assert!(matches!(trig.state(), State::Fresh));
}

#[test]
fn test_fresh_above() {
    let mut trig = Trigger::new(50, 1);
    assert!(matches!(trig.state(), State::Fresh));
    assert_eq!(trig.find(&[80], EdgeFilter::Both), (1, None));
    assert!(matches!(trig.state(), State::Above));
    assert_eq!(trig.above(), 51);
    assert_eq!(trig.below(), 49);
}

#[test]
fn test_fresh_below() {
    let mut trig = Trigger::new(50, 1);
    assert!(matches!(trig.state(), State::Fresh));
    assert_eq!(trig.find(&[10], EdgeFilter::Both), (1, None));
    assert!(matches!(trig.state(), State::Below));
    assert_eq!(trig.above(), 51);
    assert_eq!(trig.below(), 49);
}

#[test]
fn test_short() {
    let mut trig = prime_trigger(State::Below);
    let data = &[10, 10, 10, 10];
    assert_eq!(trig.find(data, EdgeFilter::Both), (0, None));
    assert!(matches!(trig.state(), State::Below));
}

const RISING_BLOCK: [i8; 16] = [10, 10, 10, 10, 10, 10, 10, 10, 10, 80, 80, 80, 80, 80, 80, 80];

#[test]
fn test_rising_both() {
    let mut trig = prime_trigger(State::Below);
    assert_eq!(trig.find(&RISING_BLOCK, EdgeFilter::Both), (9, Some(Edge::Rising)));
    assert!(matches!(trig.state(), State::Above));
}

#[test]
fn test_rising_only() {
    let mut trig = prime_trigger(State::Below);
    assert_eq!(trig.find(&RISING_BLOCK, EdgeFilter::Rising), (9, Some(Edge::Rising)));
    assert!(matches!(trig.state(), State::Above));
}

#[test]
fn test_rising_excluded_short() {
    let mut trig = prime_trigger(State::Below);
    assert_eq!(trig.find(&RISING_BLOCK, EdgeFilter::Falling), (9, None));
    assert!(matches!(trig.state(), State::Above));
}

#[test]
fn test_rising_excluded_long() {
    let mut trig = prime_trigger(State::Below);
    let data = &[
        10, 10, 10, 10, 10, 10, 10, 10, 10, 80, 80, 80, 80, 80, 80, 80, 80, 80, 80, 80, 80, 80,
        80, 80, 80,
    ];
    assert_eq!(trig.find(data, EdgeFilter::Falling), (25, None));
    assert!(matches!(trig.state(), State::Above));
}

#[test]
fn test_rising_two_blocks() {
    let mut trig = prime_trigger(State::Below);
    let data = &[
        10, 10, 10, 10, 10, 10, 10, 10, 10, 80, 80, 80, 80, 80, 80, 80, 80, 80, 80, 80, 80, 80,
        80, 80, 80, 80, 80, 80, 80, 80, 80, 80, 80, 80, 80, 80, 80, 80, 80, 80, 80,
    ];
    assert_eq!(trig.find(data, EdgeFilter::Falling), (41, None));
    assert!(matches!(trig.state(), State::Above));
}

#[test]
fn test_rising_almost_two_blocks() {
    let mut trig = prime_trigger(State::Below);
    let data = &[
        10, 10, 10, 10, 10, 10, 10, 10, 10, 80, 80, 80, 80, 80, 80, 80, 80, 80, 80, 80, 80, 80,
        80, 80, 80, 80, 80, 80, 80, 80, 80, 80, 80, 80, 80, 80, 80, 80, 80, 80,
    ];
    assert_eq!(trig.find(data, EdgeFilter::Falling), (25, None));
    assert!(matches!(trig.state(), State::Above));
}

#[test]
fn test_rising_within_dead_zone() {
    let mut trig = prime_trigger(State::Below);
    let data = &[
        10, 10, 10, 10, 10, 10, 10, 10, 10, 49, 49, 49, 49, 49, 49, 49, 49, 49, 49, 10, 10, 10,
        10, 10, 10, 10, 10, 10, 10, 10, 10, 10,
    ];
    assert_eq!(trig.find(data, EdgeFilter::Falling), (32, None));
    assert!(matches!(trig.state(), State::Below));
}

const FALLING_BLOCK: [i8; 16] = [80, 80, 80, 80, 80, 80, 80, 80, 80, 20, 20, 20, 20, 20, 20, 20];

#[test]
fn test_falling_both() {
    let mut trig = prime_trigger(State::Above);
    assert_eq!(trig.find(&FALLING_BLOCK, EdgeFilter::Both), (9, Some(Edge::Falling)));
    assert!(matches!(trig.state(), State::Below));
}

#[test]
fn test_falling_only() {
    let mut trig = prime_trigger(State::Above);
    assert_eq!(trig.find(&FALLING_BLOCK, EdgeFilter::Falling), (9, Some(Edge::Falling)));
    assert!(matches!(trig.state(), State::Below));
}

#[test]
fn test_falling_excluded_short() {
    let mut trig = prime_trigger(State::Above);
    assert_eq!(trig.find(&FALLING_BLOCK, EdgeFilter::Rising), (9, None));
    assert!(matches!(trig.state(), State::Below));
}

#[test]
fn test_falling_excluded_long() {
    let mut trig = prime_trigger(State::Above);
    let data = &[
        80, 80, 80, 80, 80, 80, 80, 80, 80, 20, 20, 20, 20, 20, 20, 20, 20, 20, 20, 20, 20, 20,
        20, 20, 20,
    ];
    assert_eq!(trig.find(data, EdgeFilter::Rising), (25, None));
    assert!(matches!(trig.state(), State::Below));
}

#[test]
fn test_falling_two_blocks() {
    let mut trig = prime_trigger(State::Above);
    let data = &[
        80, 80, 80, 80, 80, 80, 80, 80, 80, 20, 20, 20, 20, 20, 20, 20, 20, 20, 20, 20, 20, 20,
        20, 20, 20, 20, 20, 20, 20, 20, 20, 20, 20, 20, 20, 20, 20, 20, 20, 20, 20,
    ];
    assert_eq!(trig.find(data, EdgeFilter::Rising), (41, None));
    assert!(matches!(trig.state(), State::Below));
}

#[test]
fn test_falling_almost_two_blocks() {
    let mut trig = prime_trigger(State::Above);
    let data = &[
        80, 80, 80, 80, 80, 80, 80, 80, 80, 20, 20, 20, 20, 20, 20, 20, 20, 20, 20, 20, 20, 20,
        20, 20, 20, 20, 20, 20, 20, 20, 20, 20, 20, 20, 20, 20, 20, 20, 20, 20,
    ];
    assert_eq!(trig.find(data, EdgeFilter::Rising), (25, None));
    assert!(matches!(trig.state(), State::Below));
}

#[test]
fn test_falling_dead_zone() {
    // different from test_rising_within_dead_zone: the trigger stays above
    let mut trig = prime_trigger(State::Above);
    let data = &[
        80, 80, 80, 80, 80, 80, 80, 80, 80, 50, 50, 50, 50, 50, 50, 50, 50, 50, 50, 50, 50, 50,
        50, 50, 50, 50, 50, 50, 50, 50, 50, 50,
    ];
    assert_eq!(trig.find(data, EdgeFilter::Rising), (32, None));
    assert!(matches!(trig.state(), State::Above));
}

#[test]
fn test_hysteresis_extreme_high() {
    let mut trig = Trigger::new(0x7f, 3);
    let data = &[80, 80, 80, 80, 80, 80, 80, 80, 80, 127, 127, 127, 127, 127, 127, 127, 127];
    assert_eq!(trig.find(data, EdgeFilter::Rising), (9, Some(Edge::Rising)));
    assert!(matches!(trig.state(), State::Above));
}

#[test]
fn test_hysteresis_extreme_low() {
    let mut trig = Trigger::new(-128, 3);
    let data = &[
        80, 80, 80, 80, 80, 80, 80, 80, 80, -128, -128, -128, -128, -128, -128, -128, -128,
    ];
    assert_eq!(trig.find(data, EdgeFilter::Falling), (9, Some(Edge::Falling)));
    assert!(matches!(trig.state(), State::Below));
}

#[test]
fn test_bug_move_mask_must_be_cast_to_u16() {
    let mut trig = prime_trigger(State::Below);
    let data = &[
        1, 1, -1, -3, -4, -4, -4, -5, -4, -4, -2, -2, -2, -4, -5, -5, -5, -5, -4, -3, -3, -3, -4,
        -5, -5, -5, -5, -4, -4, 0, 14, 34, 53, 68, 77, 80, 80, 81, 83, 84, 82, 82, 82, 82, 82, 85,
        88, 89,
    ];
    println!("{:?}", trig);
    assert_eq!(trig.find(data, EdgeFilter::Rising), (32, Some(Edge::Rising)));
    assert!(matches!(trig.state(), State::Above));
}

#[test]
fn test_reset_returns_to_fresh() {
    let mut trig = prime_trigger(State::Above);
    trig.reset();
    assert!(matches!(trig.state(), State::Fresh));
    assert_eq!(trig.level(), 50);
    assert_eq!(trig.find(&[10], EdgeFilter::Both), (1, None));
    assert!(matches!(trig.state(), State::Below));
}

#[test]
fn test_scan_agrees_with_find() {
    // scan advances the slice by exactly the count find reports, and yields
    // the same edge
    let data: [i8; 32] = [
        10, 10, 10, 10, 10, 10, 10, 10, 10, 80, 80, 80, 80, 80, 80, 80, 80, 80, 80, 80, 80, 80,
        80, 80, 80, 80, 80, 80, 80, 80, 80, 80,
    ];
    let mut by_find = prime_trigger(State::Below);
    let (consumed, edge_of_find) = by_find.find(&data, EdgeFilter::Both);
    let mut by_scan = prime_trigger(State::Below);
    let mut rest: &[i8] = &data;
    let edge_of_scan = by_scan.scan(&mut rest, EdgeFilter::Both);
    assert_eq!(edge_of_scan, edge_of_find);
    assert_eq!(rest.len(), data.len() - consumed);
    assert_eq!(rest[0], 80); // the slice rests on the sample that fired
    assert!(matches!(by_scan.state(), State::Above));
}

#[test]
fn test_edges_alternate() {
    // a square wave reports strictly alternating edges
    let mut trig = prime_trigger(State::Below);
    let mut wave = Vec::new();
    for _ in 0..4 {
        wave.extend_from_slice(&[10i8; 16]);
        wave.extend_from_slice(&[80i8; 16]);
    }
    let mut edges = Vec::new();
    let mut rest = wave.as_slice();
    loop {
        let (consumed, edge) = trig.find(rest, EdgeFilter::Both);
        match edge {
            Some(e) => {
                edges.push(e);
                // step past the sample that fired the trigger
                rest = &rest[consumed + 1..];
            }
            None => break,
        }
    }
    assert_eq!(
        edges,
        vec![
            Edge::Rising,
            Edge::Falling,
            Edge::Rising,
            Edge::Falling,
            Edge::Rising,
            Edge::Falling,
            Edge::Rising
        ]
    );
}
