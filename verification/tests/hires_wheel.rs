use mushak::hidpp::features::hires_wheel::{deadzone_step, scale_step};

/// The wheel reports 8 increments per detent on the MX Master 2S.
const DETENT: i32 = 8;
const DEADZONE: i32 = 4;

/// Not yet scrolling.
const IDLE: i32 = 0;

#[test]
fn a_deliberate_detent_scrolls_immediately() {
    let (emit, pending, dir) = deadzone_step(DETENT, DEADZONE, 0, IDLE);
    assert_eq!(emit, Some(DETENT), "a full detent must not be held back");
    assert_eq!(pending, 0);
    assert_eq!(dir, 1, "now scrolling down");
}

#[test]
fn a_nudge_below_the_threshold_is_swallowed() {
    let (emit, pending, dir) = deadzone_step(2, DEADZONE, 0, IDLE);
    assert_eq!(emit, None);
    assert_eq!(pending, 2, "held, not discarded");
    assert_eq!(dir, IDLE, "not scrolling yet");
}

#[test]
fn nudges_that_add_up_release_everything_held() {
    let (emit, pending, _) = deadzone_step(2, DEADZONE, 0, IDLE);
    assert_eq!(emit, None);
    // Second nudge crosses the threshold: both must come out, or slow
    // scrolling would silently lose movement.
    let (emit, pending, dir) = deadzone_step(2, DEADZONE, pending, IDLE);
    assert_eq!(emit, Some(4));
    assert_eq!(pending, 0);
    assert_eq!(dir, 1);
}

#[test]
fn rocking_back_and_forth_never_scrolls() {
    // A finger resting on the wheel: it drifts one way, then back.
    let mut pending = 0;
    for delta in [1, 1, -1, -2, 1, -1, 1] {
        let (emit, p, dir) = deadzone_step(delta, DEADZONE, pending, IDLE);
        assert_eq!(emit, None, "{delta} from pending {pending} should not scroll");
        assert_eq!(dir, IDLE);
        pending = p;
    }
}

#[test]
fn once_scrolling_the_smallest_forward_movement_passes() {
    let (emit, _, dir) = deadzone_step(1, DEADZONE, 0, 1);
    assert_eq!(emit, Some(1), "a scroll in progress must not be clipped");
    assert_eq!(dir, 1);
}

#[test]
fn negative_movement_crosses_the_threshold_too() {
    let (emit, _, dir) = deadzone_step(-DETENT, DEADZONE, 0, IDLE);
    assert_eq!(emit, Some(-DETENT), "scrolling up must work like scrolling down");
    assert_eq!(dir, -1);
}

#[test]
fn a_zero_deadzone_disables_the_filter() {
    let (emit, _, dir) = deadzone_step(1, 0, 0, IDLE);
    assert_eq!(emit, Some(1));
    assert_eq!(dir, 1);
}

/// The bug this guards against: a free-spinning wheel coasting to a stop
/// emits a small backward increment. While scrolling down it must not reach
/// Windows as an upward scroll.
#[test]
fn a_backward_twitch_while_scrolling_is_swallowed() {
    // Scrolling down (dir = +1); the wheel settles back one increment.
    let (emit, pending, dir) = deadzone_step(-1, DEADZONE, 0, 1);
    assert_eq!(emit, None, "a settling twitch must not scroll backward");
    assert_eq!(pending, -1, "held against the current direction");
    assert_eq!(dir, 1, "still a downward scroll");
}

#[test]
fn several_backward_twitches_still_do_not_reverse() {
    // Even a few increments of coast-back stay under the threshold.
    let mut pending = 0;
    for _ in 0..3 {
        let (emit, p, dir) = deadzone_step(-1, DEADZONE, pending, 1);
        assert_eq!(emit, None);
        assert_eq!(dir, 1);
        pending = p;
    }
    assert_eq!(pending, -3);
}

#[test]
fn a_deliberate_reversal_is_honored() {
    // Genuinely scrolling back up: once the backward movement clears the
    // deadzone it comes through and the direction flips.
    let (emit, _, dir) = deadzone_step(-DEADZONE, DEADZONE, 0, 1);
    assert_eq!(emit, Some(-DEADZONE), "a real reversal must get through");
    assert_eq!(dir, -1, "now scrolling up");
}

#[test]
fn resuming_forward_abandons_a_half_built_reversal() {
    // A couple of backward twitches were held while scrolling down...
    let (_, pending, _) = deadzone_step(-1, DEADZONE, 0, 1);
    let (_, pending, _) = deadzone_step(-1, DEADZONE, pending, 1);
    assert_eq!(pending, -2);
    // ...then the wheel keeps going down. The twitches are dropped, not
    // emitted as a phantom upward scroll.
    let (emit, pending, dir) = deadzone_step(3, DEADZONE, pending, 1);
    assert_eq!(emit, Some(3), "forward movement is never clipped");
    assert_eq!(pending, 0, "the half-built reversal is discarded");
    assert_eq!(dir, 1);
}

/// The MX Master 2S multiplier divides 120 evenly, so nothing is ever left
/// over and the remainder is a non-issue on that hardware.
#[test]
fn a_dividing_multiplier_never_leaves_a_remainder() {
    assert_eq!(scale_step(1, 8, 0), (15, 0));
    assert_eq!(scale_step(-1, 8, 0), (-15, 0));
}

/// A multiplier that does not divide 120 leaves a fraction that must be
/// carried, or a slow scroll would be rounded away one increment at a time.
#[test]
fn a_fraction_is_carried_across_same_direction_reports() {
    // 120 / 16 = 7 remainder 8.
    assert_eq!(scale_step(1, 16, 0), (7, 8));
    // Next increment the same way spends the carried 8: 128 / 16 = 8.
    assert_eq!(scale_step(1, 16, 8), (8, 0));
}

/// The bug: a fraction accumulated scrolling one way must not bleed into the
/// first step of a scroll back the other way.
#[test]
fn the_carry_is_dropped_when_the_wheel_reverses() {
    // Scrolling down left a positive fraction behind.
    let (_, remainder) = scale_step(1, 16, 0);
    assert_eq!(remainder, 8);
    // Now reverse. With the stale +8 carried it would be -112 / 16; dropped,
    // it is a clean -120 / 16, and the leftover now points the new way.
    let (out, remainder) = scale_step(-1, 16, remainder);
    assert_eq!(out, -7);
    assert!(remainder <= 0, "the carry must not still point the old way");
    // Continuing back up spends that fraction: -128 / 16 = -8.
    assert_eq!(scale_step(-1, 16, remainder), (-8, 0));
}
