use vstd::prelude::*;
use crate::input::{
    DomEvent, InputEvent, InputModel, KeyInput, Modifiers, MouseButton, MouseInput, State,
    TouchInput, next, run, spread,
};
use crate::keys::{Key, key_for_code};

verus! {

/// An event that a handler earlier on the page has claimed changes nothing, and
/// the window leaves it alone.
pub proof fn lemma_prevented_event_changes_nothing(s: InputModel, e: DomEvent)
    requires
        e.prevented(),
    ensures
        next(s, e) == (s, false),
{
}

/// One browser event changes the queue by at most one event at its end.
pub proof fn lemma_step_appends_at_most_one(s: InputModel, e: DomEvent)
    ensures
        s.events.is_prefix_of(next(s, e).0.events),
        next(s, e).0.events.len() <= s.events.len() + 1,
{
}

/// No browser event releases a modifier: a modifier, once pressed, stays pressed.
pub proof fn lemma_step_keeps_modifiers_pressed(s: InputModel, e: DomEvent)
    ensures
        next(s, e).0.modifiers.keeps_pressed(s.modifiers),
{
}

/// Over any run of browser events, the queue only grows at its end, by at most one
/// event per browser event, and every modifier that was pressed stays pressed.
pub proof fn lemma_run_appends_and_keeps_modifiers(s: InputModel, es: Seq<DomEvent>)
    ensures
        s.events.is_prefix_of(run(s, es).events),
        run(s, es).events.len() <= s.events.len() + es.len(),
        run(s, es).modifiers.keeps_pressed(s.modifiers),
    decreases es.len(),
{
    if es.len() > 0 {
        let mid = run(s, es.drop_last());
        lemma_run_appends_and_keeps_modifiers(s, es.drop_last());
        lemma_step_appends_at_most_one(mid, es.last());
        lemma_step_keeps_modifiers_pressed(mid, es.last());
        assert(s.events.is_prefix_of(run(s, es).events)) by {
            assert forall|i: int| 0 <= i < s.events.len() implies s.events[i] == run(
                s,
                es,
            ).events[i] by {
                assert(mid.events[i] == s.events[i]);
            }
        }
    }
}

/// A touch that the window handles leaves it remembering at most one of a finger
/// position and a pinch spread.
pub proof fn lemma_touch_remembers_one_gesture(s: InputModel, e: DomEvent)
    requires
        e is TouchStart || e is TouchEnd || e is TouchMove,
        !e.prevented(),
    ensures
        !(next(s, e).0.last_position is Some && next(s, e).0.last_zoom is Some),
{
}

/// The sum of the deltas of the pointer motions in a queue.
pub open spec fn motion_sum(events: Seq<InputEvent>) -> (int, int)
    decreases events.len(),
{
    if events.len() == 0 {
        (0, 0)
    } else {
        let rest = motion_sum(events.drop_last());
        match events.last() {
            InputEvent::MouseMotion { delta, position } => (rest.0 + delta.0, rest.1 + delta.1),
            _ => rest,
        }
    }
}

/// All the events are pointer moves that the window handles.
pub open spec fn all_handled_mouse_moves(es: Seq<DomEvent>) -> bool {
    forall|i: int| 0 <= i < es.len() ==> (#[trigger] es[i] is MouseMove && !es[i].prevented())
}

/// The position a pointer move reports.
pub open spec fn move_position(e: DomEvent) -> (i32, i32) {
    match e {
        DomEvent::MouseMove(m) => (m.offset_x, m.offset_y),
        _ => (0, 0),
    }
}

/// Once the window knows where the pointer is, the deltas of the motions that a run
/// of pointer moves queues add up to the distance from where the pointer was to
/// where the last move put it.
pub proof fn lemma_motion_deltas_add_up(s: InputModel, es: Seq<DomEvent>, start: (i32, i32))
    requires
        s.last_position == Some(start),
        es.len() > 0,
        all_handled_mouse_moves(es),
    ensures
        run(s, es).last_position == Some(move_position(es.last())),
        motion_sum(run(s, es).events).0 - motion_sum(s.events).0 == move_position(es.last()).0
            - start.0,
        motion_sum(run(s, es).events).1 - motion_sum(s.events).1 == move_position(es.last()).1
            - start.1,
    decreases es.len(),
{
    let before = es.drop_last();
    assert(es.last() == es[es.len() - 1]);
    if before.len() == 0 {
        assert(run(s, before) == s);
    } else {
        assert forall|i: int| 0 <= i < before.len() implies (#[trigger] before[i] is MouseMove
            && !before[i].prevented()) by {
            assert(before[i] == es[i]);
        }
        lemma_motion_deltas_add_up(s, before, start);
        assert(before.last() == es[es.len() - 2]);
    }
    let mid = run(s, before);
    let after = run(s, es);
    assert(after.events.drop_last() =~= mid.events);
}


/// The pinch spread of two touches is the square of their distance: the sum of the
/// squares of the differences of their coordinates.
pub proof fn lemma_spread_is_squared_distance(a: (i32, i32), b: (i32, i32))
    ensures
        spread(a, b) == (a.0 - b.0) * (a.0 - b.0) + (a.1 - b.1) * (a.1 - b.1),
        spread(a, b) >= 0,
{
    assert((a.0 - b.0) * (a.0 - b.0) >= 0) by (nonlinear_arith);
    assert((a.1 - b.1) * (a.1 - b.1) >= 0) by (nonlinear_arith);
}

/// The spread of two touches does not depend on their order.
pub proof fn lemma_spread_symmetric(a: (i32, i32), b: (i32, i32))
    ensures
        spread(a, b) == spread(b, a),
{
    assert((a.0 - b.0) * (a.0 - b.0) == (b.0 - a.0) * (b.0 - a.0)) by (nonlinear_arith);
    assert((a.1 - b.1) * (a.1 - b.1) == (b.1 - a.1) * (b.1 - a.1)) by (nonlinear_arith);
}

/// Moving both touches by the same offset leaves their spread unchanged.
pub proof fn lemma_spread_unchanged_by_shift(a: (i32, i32), b: (i32, i32), a2: (i32, i32), b2: (i32, i32))
    requires
        a2.0 - a.0 == b2.0 - b.0,
        a2.1 - a.1 == b2.1 - b.1,
    ensures
        spread(a2, b2) == spread(a, b),
{
    assert(a2.0 - b2.0 == a.0 - b.0);
    assert(a2.1 - b2.1 == a.1 - b.1);
}

/// Two touches on the same row `d` pixels apart have spread `d * d`; on the same
/// column likewise.
pub proof fn lemma_spread_along_an_axis(x1: i32, x2: i32, y: i32)
    ensures
        spread((x1, y), (x2, y)) == (x1 - x2) * (x1 - x2),
        spread((y, x1), (y, x2)) == (x1 - x2) * (x1 - x2),
{
    assert((y - y) * (y - y) == 0) by (nonlinear_arith);
}

/// Two fingers that touch down make the window remember the squared distance
/// between them, and forget any single-finger position.
pub proof fn lemma_two_finger_start_remembers_distance(s: InputModel, t: TouchInput)
    requires
        !t.default_prevented,
        t.touches@.len() == 2,
    ensures
        ({
            let a = t.touches@[0];
            let b = t.touches@[1];
            next(s, DomEvent::TouchStart(t)).0.last_zoom == Some(
                ((a.0 - b.0) * (a.0 - b.0) + (a.1 - b.1) * (a.1 - b.1)) as u128,
            )
        }),
        next(s, DomEvent::TouchStart(t)).0.last_position is None,
        next(s, DomEvent::TouchStart(t)).0.events == s.events,
{
}

/// Two fingers that move after a pinch queue a pinch from the remembered spread to
/// the squared distance between them now, and remember that distance.
pub proof fn lemma_pinch_moves_from_old_to_new_distance(s: InputModel, t: TouchInput, old: u128)
    requires
        !t.default_prevented,
        t.touches@.len() == 2,
        s.last_zoom == Some(old),
    ensures
        ({
            let a = t.touches@[0];
            let b = t.touches@[1];
            let d = ((a.0 - b.0) * (a.0 - b.0) + (a.1 - b.1) * (a.1 - b.1)) as u128;
            &&& next(s, DomEvent::TouchMove(t)).0.events == s.events.push(
                InputEvent::Pinch {
                    previous_spread: old,
                    spread: d,
                    position_sum: ((a.0 + b.0) as i64, (a.1 + b.1) as i64),
                },
            )
            &&& next(s, DomEvent::TouchMove(t)).0.last_zoom == Some(d)
        }),
{
}

/// A key press that names no known key records, as pressed, each modifier that the
/// event reports as held (command for ctrl or meta), leaves the others as they
/// were, and queues nothing.
pub proof fn lemma_other_key_press_records_modifiers(s: InputModel, k: KeyInput)
    requires
        !k.default_prevented,
        key_for_code(k.code@) is None,
    ensures
        ({
            let after = next(s, DomEvent::KeyDown(k)).0.modifiers;
            &&& k.alt_key ==> after.alt == State::Pressed
            &&& !k.alt_key ==> after.alt == s.modifiers.alt
            &&& k.ctrl_key ==> after.ctrl == State::Pressed
            &&& !k.ctrl_key ==> after.ctrl == s.modifiers.ctrl
            &&& k.shift_key ==> after.shift == State::Pressed
            &&& !k.shift_key ==> after.shift == s.modifiers.shift
            &&& (k.ctrl_key || k.meta_key) ==> after.command == State::Pressed
            &&& !(k.ctrl_key || k.meta_key) ==> after.command == s.modifiers.command
        }),
        next(s, DomEvent::KeyDown(k)).0.events == s.events,
        next(s, DomEvent::KeyDown(k)).1 == (k.alt_key || k.ctrl_key || k.shift_key || k.meta_key),
{
}

/// A known key that goes down or up queues one key event, for that key, carrying
/// the modifiers held before the event, and changes the modifiers not.
pub proof fn lemma_known_key_carries_held_modifiers(s: InputModel, k: KeyInput, down: bool)
    requires
        !k.default_prevented,
        key_for_code(k.code@) is Some,
    ensures
        ({
            let e = if down { DomEvent::KeyDown(k) } else { DomEvent::KeyUp(k) };
            let after = next(s, e).0;
            &&& after.events.len() == s.events.len() + 1
            &&& after.events.drop_last() == s.events
            &&& after.events.last() == InputEvent::Key {
                state: if down { State::Pressed } else { State::Released },
                kind: key_for_code(k.code@).unwrap(),
                modifiers: s.modifiers,
            }
            &&& after.modifiers == s.modifiers
            &&& next(s, e).1
        }),
{
    let e = if down { DomEvent::KeyDown(k) } else { DomEvent::KeyUp(k) };
    assert(next(s, e).0.events.drop_last() =~= s.events);
}

/// A modifier key held down before a known key makes that key's event report the
/// modifier as pressed: shift then a letter is a shifted letter.
pub proof fn lemma_modifier_then_key(s: InputModel, m: KeyInput, k: KeyInput)
    requires
        !m.default_prevented,
        key_for_code(m.code@) is None,
        !k.default_prevented,
        key_for_code(k.code@) is Some,
    ensures
        ({
            let last = run(s, seq![DomEvent::KeyDown(m), DomEvent::KeyDown(k)]).events.last();
            &&& last is Key
            &&& m.shift_key ==> last->Key_modifiers.shift == State::Pressed
            &&& m.alt_key ==> last->Key_modifiers.alt == State::Pressed
            &&& m.ctrl_key ==> last->Key_modifiers.ctrl == State::Pressed
            &&& (m.ctrl_key || m.meta_key) ==> last->Key_modifiers.command == State::Pressed
        }),
{
    let es = seq![DomEvent::KeyDown(m), DomEvent::KeyDown(k)];
    assert(es.drop_last() =~= seq![DomEvent::KeyDown(m)]);
    assert(seq![DomEvent::KeyDown(m)].drop_last() =~= Seq::<DomEvent>::empty());
    let mid = run(s, es.drop_last());
    lemma_other_key_press_records_modifiers(s, m);
    lemma_known_key_carries_held_modifiers(mid, k, true);
}

/// A mouse button that goes down or up queues one click: pressed or released, of
/// the button the browser numbers 0 (left), 1 (middle) or 2 (right), at the
/// event's offset, carrying the modifiers held before the event.
pub proof fn lemma_click_carries_held_modifiers(s: InputModel, m: MouseInput, down: bool)
    requires
        !m.default_prevented,
        0 <= m.button <= 2,
    ensures
        ({
            let e = if down { DomEvent::MouseDown(m) } else { DomEvent::MouseUp(m) };
            let after = next(s, e).0;
            let button = if m.button == 0 {
                MouseButton::Left
            } else if m.button == 1 {
                MouseButton::Middle
            } else {
                MouseButton::Right
            };
            &&& after.events.len() == s.events.len() + 1
            &&& after.events.drop_last() == s.events
            &&& after.events.last() == InputEvent::MouseClick {
                state: if down { State::Pressed } else { State::Released },
                button,
                position: (m.offset_x, m.offset_y),
                modifiers: s.modifiers,
            }
            &&& after.modifiers == s.modifiers
            &&& next(s, e).1
        }),
{
    let e = if down { DomEvent::MouseDown(m) } else { DomEvent::MouseUp(m) };
    assert(next(s, e).0.events.drop_last() =~= s.events);
}

/// A ctrl key press before a click makes the click a ctrl click (and a command
/// click), whatever the state before.
pub proof fn lemma_ctrl_then_click(s: InputModel, k: KeyInput, m: MouseInput)
    requires
        !k.default_prevented,
        key_for_code(k.code@) is None,
        k.ctrl_key,
        !m.default_prevented,
        0 <= m.button <= 2,
    ensures
        ({
            let last = run(s, seq![DomEvent::KeyDown(k), DomEvent::MouseDown(m)]).events.last();
            &&& last is MouseClick
            &&& last->MouseClick_modifiers.ctrl == State::Pressed
            &&& last->MouseClick_modifiers.command == State::Pressed
        }),
{
    let es = seq![DomEvent::KeyDown(k), DomEvent::MouseDown(m)];
    assert(es.drop_last() =~= seq![DomEvent::KeyDown(k)]);
    assert(seq![DomEvent::KeyDown(k)].drop_last() =~= Seq::<DomEvent>::empty());
    let mid = run(s, es.drop_last());
    lemma_other_key_press_records_modifiers(s, k);
    lemma_click_carries_held_modifiers(mid, m, true);
}


/// One finger acts as the left mouse button: touching down queues a left press
/// at the finger, with no modifiers, and remembers where it is.
pub proof fn lemma_one_finger_presses_left(s: InputModel, t: TouchInput)
    requires
        !t.default_prevented,
        t.touches@.len() == 1,
    ensures
        next(s, DomEvent::TouchStart(t)).0.events == s.events.push(
            InputEvent::MouseClick {
                state: State::Pressed,
                button: MouseButton::Left,
                position: t.touches@[0],
                modifiers: Modifiers::none_pressed(),
            },
        ),
        next(s, DomEvent::TouchStart(t)).0.last_position == Some(t.touches@[0]),
        next(s, DomEvent::TouchStart(t)).0.last_zoom is None,
        next(s, DomEvent::TouchStart(t)).0.modifiers == s.modifiers,
{
}

/// A finger that moves after the window knew where it was queues a motion by the
/// distance it moved.
pub proof fn lemma_one_finger_moves_by_its_distance(s: InputModel, t: TouchInput, last: (i32, i32))
    requires
        !t.default_prevented,
        t.touches@.len() == 1,
        s.last_position == Some(last),
    ensures
        ({
            let p = t.touches@[0];
            let after = next(s, DomEvent::TouchMove(t)).0;
            &&& after.events.len() == s.events.len() + 1
            &&& after.events.last() is MouseMotion
            &&& after.events.last()->MouseMotion_delta.0 + last.0 == p.0
            &&& after.events.last()->MouseMotion_delta.1 + last.1 == p.1
            &&& after.events.last()->MouseMotion_position == p
            &&& after.last_position == Some(p)
        }),
{
}

/// A finger that leaves the surface queues a left release at the first touch that
/// remains, with no modifiers, and the window forgets the finger and the pinch.
pub proof fn lemma_finger_up_releases_left(s: InputModel, t: TouchInput)
    requires
        !t.default_prevented,
        t.touches@.len() >= 1,
    ensures
        next(s, DomEvent::TouchEnd(t)).0.events == s.events.push(
            InputEvent::MouseClick {
                state: State::Released,
                button: MouseButton::Left,
                position: t.touches@[0],
                modifiers: Modifiers::none_pressed(),
            },
        ),
        next(s, DomEvent::TouchEnd(t)).0.last_position is None,
        next(s, DomEvent::TouchEnd(t)).0.last_zoom is None,
{
}

} // verus!
