//! Software gesture detection for the thumb button.
//!
//! Fed by diverted REPROG_CONTROLS_V4 events (button hold + raw XY). On
//! button-down the detector starts accumulating raw motion; on button-up the
//! accumulated vector is classified into tap / up / down / left / right and the
//! configured action is handed back for injection.

use crate::config::{Action, ActionView, GestureConfig, GestureConfigView};
use vstd::prelude::*;

verus! {

#[derive(Clone, Copy, Debug, PartialEq, Eq, Structural)]
pub enum Outcome {
    Tap,
    Up,
    Down,
    Left,
    Right,
}

pub open spec fn abs64(x: int) -> int {
    if x < 0 {
        -x
    } else {
        x
    }
}

/// The outcome of an accumulated motion vector. Screen coordinates: +y is
/// downward. Movement under the threshold on both axes is a tap; otherwise the
/// dominant axis decides (horizontal on a tie) and its sign the direction.
pub open spec fn classify_spec(dx: int, dy: int, threshold: int) -> Outcome {
    if abs64(dx) < threshold && abs64(dy) < threshold {
        Outcome::Tap
    } else if abs64(dx) >= abs64(dy) {
        if dx >= 0 {
            Outcome::Right
        } else {
            Outcome::Left
        }
    } else if dy >= 0 {
        Outcome::Down
    } else {
        Outcome::Up
    }
}

/// Classify an accumulated motion vector.
pub fn classify(dx: i64, dy: i64, threshold: i64) -> (r: Outcome)
    requires
        dx > i64::MIN,
        dy > i64::MIN,
    ensures
        r == classify_spec(dx as int, dy as int, threshold as int),
{
    let ax = if dx < 0 { -dx } else { dx };
    let ay = if dy < 0 { -dy } else { dy };
    if ax < threshold && ay < threshold {
        return Outcome::Tap;
    }
    if ax >= ay {
        if dx >= 0 {
            Outcome::Right
        } else {
            Outcome::Left
        }
    } else if dy >= 0 {
        Outcome::Down
    } else {
        Outcome::Up
    }
}

/// Tracks one press of the gesture button and the motion during it.
pub struct GestureDetector {
    pub active: bool,
    pub dx: i64,
    pub dy: i64,
}

/// The detector after a buttons event: `(outcome, detector after)`.
pub open spec fn button_step(d: GestureDetector, held: bool, threshold: int) -> (Option<Outcome>, GestureDetector) {
    if held && !d.active {
        (None, GestureDetector { active: true, dx: 0, dy: 0 })
    } else if !held && d.active {
        (Some(classify_spec(d.dx as int, d.dy as int, threshold)), GestureDetector { active: false, ..d })
    } else {
        (None, d)
    }
}

/// The detector after raw motion: accumulated while a press is active.
pub open spec fn xy_step(d: GestureDetector, dx: int, dy: int) -> GestureDetector {
    if d.active {
        GestureDetector { dx: (d.dx + dx) as i64, dy: (d.dy + dy) as i64, ..d }
    } else {
        d
    }
}

impl GestureDetector {
    /// The accumulated motion can still be classified (its magnitude exists).
    pub open spec fn wf(&self) -> bool {
        self.dx > i64::MIN && self.dy > i64::MIN
    }

    /// Whether adding `dx, dy` keeps the accumulated motion representable.
    pub open spec fn can_add(&self, dx: int, dy: int) -> bool {
        !self.active || (i64::MIN < self.dx + dx <= i64::MAX && i64::MIN < self.dy + dy
            <= i64::MAX)
    }

    pub fn new() -> (r: GestureDetector)
        ensures
            r == (GestureDetector { active: false, dx: 0, dy: 0 }),
            r.wf(),
    {
        GestureDetector { active: false, dx: 0, dy: 0 }
    }

    /// A buttons event: a press starts a gesture, the release ends it with its
    /// outcome.
    pub fn on_button(&mut self, gesture_held: bool, threshold: i32) -> (r: Option<Outcome>)
        requires
            old(self).wf(),
        ensures
            (r, *final(self)) == button_step(*old(self), gesture_held, threshold as int),
            final(self).wf(),
    {
        if gesture_held && !self.active {
            self.active = true;
            self.dx = 0;
            self.dy = 0;
            None
        } else if !gesture_held && self.active {
            self.active = false;
            Some(classify(self.dx, self.dy, threshold as i64))
        } else {
            None
        }
    }

    /// Raw motion: accumulated while a gesture is in progress.
    pub fn on_raw_xy(&mut self, dx: i32, dy: i32)
        requires
            old(self).wf(),
            old(self).can_add(dx as int, dy as int),
        ensures
            *final(self) == xy_step(*old(self), dx as int, dy as int),
            final(self).wf(),
    {
        if self.active {
            self.dx = self.dx + dx as i64;
            self.dy = self.dy + dy as i64;
        }
    }
}

/// The configured action for a gesture outcome.
pub open spec fn action_of(g: GestureConfigView, outcome: Outcome) -> ActionView {
    match outcome {
        Outcome::Tap => g.tap,
        Outcome::Up => g.up,
        Outcome::Down => g.down,
        Outcome::Left => g.left,
        Outcome::Right => g.right,
    }
}

pub fn action_for(outcome: Outcome, g: &GestureConfig) -> (r: Action)
    ensures
        r@ == action_of(g@, outcome),
{
    match outcome {
        Outcome::Tap => g.tap.clone(),
        Outcome::Up => g.up.clone(),
        Outcome::Down => g.down.clone(),
        Outcome::Left => g.left.clone(),
        Outcome::Right => g.right.clone(),
    }
}

/// Handle a diverted-buttons event (whether the gesture button is currently
/// held). Returns the action to inject when a gesture completes and its action
/// replaces the native event.
/// What a button event hands to the injector: the action mapped to a finished
/// gesture's outcome, unless that action is pass-through.
pub open spec fn fired_action(g: GestureConfigView, outcome: Option<Outcome>) -> Option<ActionView> {
    match outcome {
        Some(o) => if action_of(g, o) is PassThrough {
            None
        } else {
            Some(action_of(g, o))
        },
        None => None,
    }
}

pub open spec fn opt_action_view(a: Option<Action>) -> Option<ActionView> {
    match a {
        Some(x) => Some(x@),
        None => None,
    }
}

pub fn handle_buttons(det: &mut GestureDetector, gesture_held: bool, g: &GestureConfig) -> (r: Option<Action>)
    requires
        old(det).wf(),
    ensures
        final(det).wf(),
        *final(det) == button_step(*old(det), gesture_held, g.tap_threshold as int).1,
        match button_step(*old(det), gesture_held, g.tap_threshold as int).0 {
            Some(o) => if action_of(g@, o) is PassThrough {
                r is None
            } else {
                r matches Some(a) && a@ == action_of(g@, o)
            },
            None => r is None,
        },
        opt_action_view(r) == fired_action(g@, button_step(*old(det), gesture_held, g.tap_threshold as int).0),
{
    let outcome = det.on_button(gesture_held, g.tap_threshold);
    match outcome {
        Some(o) => {
            let action = action_for(o, g);
            if action.intercepts() {
                Some(action)
            } else {
                None
            }
        },
        None => None,
    }
}

/// Handle a diverted raw-XY event. While the gesture button is held the motion
/// is accumulated for classification and `true` comes back; otherwise `false`
/// tells the caller to re-inject it as cursor movement so the pointer is never
/// frozen.
pub fn handle_raw_xy(det: &mut GestureDetector, dx: i32, dy: i32) -> (accumulated: bool)
    requires
        old(det).wf(),
        old(det).can_add(dx as int, dy as int),
    ensures
        accumulated == old(det).active,
        *final(det) == xy_step(*old(det), dx as int, dy as int),
        final(det).wf(),
{
    if det.active {
        det.on_raw_xy(dx, dy);
        true
    } else {
        false
    }
}

/// The motion accumulated from `moves` in order.
pub open spec fn moves_fold(d: GestureDetector, moves: Seq<(int, int)>) -> GestureDetector
    decreases moves.len(),
{
    if moves.len() == 0 {
        d
    } else {
        xy_step(moves_fold(d, moves.drop_last()), moves.last().0, moves.last().1)
    }
}

pub open spec fn sum_x(moves: Seq<(int, int)>) -> int
    decreases moves.len(),
{
    if moves.len() == 0 {
        0
    } else {
        sum_x(moves.drop_last()) + moves.last().0
    }
}

pub open spec fn sum_y(moves: Seq<(int, int)>) -> int
    decreases moves.len(),
{
    if moves.len() == 0 {
        0
    } else {
        sum_y(moves.drop_last()) + moves.last().1
    }
}

/// While a press is active, each raw movement adds to the accumulated vector
/// (for sums that stay representable).
proof fn lemma_fold_accumulates(moves: Seq<(int, int)>)
    requires
        forall|k: int|
            0 <= k <= moves.len() ==> i64::MIN < #[trigger] sum_x(moves.take(k)) <= i64::MAX && i64::MIN
                < sum_y(moves.take(k)) <= i64::MAX,
    ensures
        moves_fold(GestureDetector { active: true, dx: 0, dy: 0 }, moves) == (GestureDetector {
            active: true,
            dx: sum_x(moves) as i64,
            dy: sum_y(moves) as i64,
        }),
    decreases moves.len(),
{
    if moves.len() > 0 {
        let init = moves.drop_last();
        assert forall|k: int| 0 <= k <= init.len() implies i64::MIN < #[trigger] sum_x(init.take(k))
            <= i64::MAX && i64::MIN < sum_y(init.take(k)) <= i64::MAX by {
            assert(init.take(k) =~= moves.take(k));
        }
        lemma_fold_accumulates(init);
        assert(moves.take(moves.len() as int) =~= moves);
        assert(moves.take(init.len() as int) =~= init);
    }
}

/// A complete gesture: pressing the button, moving by `moves`, then releasing
/// it yields exactly one outcome, the classification of the total movement;
/// the press itself yields none. Releasing without a press yields nothing.
pub proof fn lemma_press_move_release(moves: Seq<(int, int)>, threshold: int)
    requires
        forall|k: int|
            0 <= k <= moves.len() ==> i64::MIN < #[trigger] sum_x(moves.take(k)) <= i64::MAX && i64::MIN
                < sum_y(moves.take(k)) <= i64::MAX,
    ensures
        ({
            let idle = GestureDetector { active: false, dx: 0, dy: 0 };
            let (pressed_out, pressed) = button_step(idle, true, threshold);
            let moved = moves_fold(pressed, moves);
            let (released_out, released) = button_step(moved, false, threshold);
            &&& pressed_out is None
            &&& released_out == Some(classify_spec(sum_x(moves), sum_y(moves), threshold))
            &&& !released.active
            &&& button_step(released, false, threshold).0 is None
        }),
{
    lemma_fold_accumulates(moves);
    assert(moves.take(moves.len() as int) =~= moves);
}

/// The thumb-button gesture as the hook sees it: from any idle detector, a
/// press starts a gesture and fires nothing; each raw movement while it is
/// held adds to the vector (and is not passed to the cursor); a repeated
/// press neither fires nor resets the vector; the release fires the action
/// mapped to the classification of the total movement (nothing when that is
/// pass-through) and ends the gesture, after which movement goes to the
/// cursor again and a second release fires nothing.
pub proof fn lemma_gesture_fires_once(d: GestureDetector, moves: Seq<(int, int)>, g: GestureConfigView)
    requires
        !d.active,
        forall|k: int|
            0 <= k <= moves.len() ==> i64::MIN < #[trigger] sum_x(moves.take(k)) <= i64::MAX && i64::MIN
                < sum_y(moves.take(k)) <= i64::MAX,
    ensures
        ({
            let t = g.tap_threshold as int;
            let (pressed_out, pressed) = button_step(d, true, t);
            let moved = moves_fold(pressed, moves);
            let (again_out, again) = button_step(moved, true, t);
            let (released_out, released) = button_step(moved, false, t);
            &&& fired_action(g, pressed_out) is None
            &&& moved.active
            &&& moved.dx == sum_x(moves) && moved.dy == sum_y(moves)
            &&& fired_action(g, again_out) is None && again == moved
            &&& released_out == Some(classify_spec(sum_x(moves), sum_y(moves), t))
            &&& fired_action(g, released_out) == (if action_of(g, classify_spec(sum_x(moves), sum_y(moves), t)) is PassThrough {
                None
            } else {
                Some(action_of(g, classify_spec(sum_x(moves), sum_y(moves), t)))
            })
            &&& !released.active
            &&& forall|dx: int, dy: int| #[trigger] xy_step(released, dx, dy) == released
            &&& fired_action(g, button_step(released, false, t).0) is None
        }),
{
    let t = g.tap_threshold as int;
    assert(button_step(d, true, t).1 == GestureDetector { active: true, dx: 0, dy: 0 });
    lemma_fold_accumulates(moves);
    assert(moves.take(moves.len() as int) =~= moves);
}

} // verus!
