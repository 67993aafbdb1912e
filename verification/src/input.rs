use vstd::prelude::*;
use crate::keys::{Key, key_for_code, translate_key};

verus! {

/// Whether a button or key is down or up.
#[derive(Clone, Copy, Debug, PartialEq, Eq, Structural)]
pub enum State {
    Pressed,
    Released,
}

/// The mouse buttons that the window reports.
#[derive(Clone, Copy, Debug, PartialEq, Eq, Structural)]
pub enum MouseButton {
    Left,
    Middle,
    Right,
}

/// The modifier keys, as the window has seen them.
#[derive(Clone, Copy, Debug, PartialEq, Eq, Structural)]
pub struct Modifiers {
    pub alt: State,
    pub ctrl: State,
    pub shift: State,
    pub command: State,
}

impl Modifiers {
    /// No modifier is held.
    pub open spec fn none_pressed() -> Modifiers {
        Modifiers {
            alt: State::Released,
            ctrl: State::Released,
            shift: State::Released,
            command: State::Released,
        }
    }

    /// Every modifier that is pressed in `earlier` is pressed in `self` too.
    pub open spec fn keeps_pressed(self, earlier: Modifiers) -> bool {
        &&& earlier.alt == State::Pressed ==> self.alt == State::Pressed
        &&& earlier.ctrl == State::Pressed ==> self.ctrl == State::Pressed
        &&& earlier.shift == State::Pressed ==> self.shift == State::Pressed
        &&& earlier.command == State::Pressed ==> self.command == State::Pressed
    }
}

impl Default for Modifiers {
    fn default() -> (m: Modifiers)
        ensures
            m == Modifiers::none_pressed(),
    {
        Modifiers {
            alt: State::Released,
            ctrl: State::Released,
            shift: State::Released,
            command: State::Released,
        }
    }
}

/// An input event as the window queues it for the next frame. Positions are in
/// CSS pixels of the canvas (mouse) or of the page (touch).
#[derive(Clone, Copy, Debug, PartialEq, Eq)]
pub enum InputEvent {
    /// A mouse button, or a single finger, went down or up.
    MouseClick { state: State, button: MouseButton, position: (i32, i32), modifiers: Modifiers },
    /// The pointer moved by `delta` to `position`.
    MouseMotion { delta: (i64, i64), position: (i32, i32) },
    /// The wheel turned; `delta_y_bits` carries, unchanged, the bits of the wheel's
    /// vertical delta as the browser reported it.
    Scroll { delta_y_bits: u64, position: (i32, i32) },
    /// Two fingers moved while pinching. The spreads are the squared distances
    /// between the fingers before and after; `position_sum` is the sum of the two
    /// fingers' positions (twice their midpoint).
    Pinch { previous_spread: u128, spread: u128, position_sum: (i64, i64) },
    /// A key went down or up.
    Key { state: State, kind: Key, modifiers: Modifiers },
}

/// What a mouse event tells the window.
#[derive(Clone, Copy, Debug)]
pub struct MouseInput {
    pub default_prevented: bool,
    /// The button number that the browser reports (0 left, 1 middle, 2 right).
    pub button: i16,
    pub offset_x: i32,
    pub offset_y: i32,
}

/// What a wheel event tells the window.
#[derive(Clone, Copy, Debug)]
pub struct WheelInput {
    pub default_prevented: bool,
    pub delta_y_bits: u64,
    pub offset_x: i32,
    pub offset_y: i32,
}

/// What a touch event tells the window: the page positions of the touches that
/// are on the surface.
pub struct TouchInput {
    pub default_prevented: bool,
    pub touches: Vec<(i32, i32)>,
}

/// What a keyboard event tells the window.
pub struct KeyInput {
    pub default_prevented: bool,
    /// The code of the physical key, such as `KeyA` or `ArrowUp`.
    pub code: String,
    pub alt_key: bool,
    pub ctrl_key: bool,
    pub shift_key: bool,
    pub meta_key: bool,
}

/// A browser event that the window listens to.
pub enum DomEvent {
    MouseDown(MouseInput),
    MouseUp(MouseInput),
    MouseMove(MouseInput),
    Wheel(WheelInput),
    TouchStart(TouchInput),
    TouchEnd(TouchInput),
    TouchMove(TouchInput),
    KeyDown(KeyInput),
    KeyUp(KeyInput),
}

impl DomEvent {
    /// Whether a handler earlier on the page has already claimed the event.
    pub open spec fn prevented(&self) -> bool {
        match self {
            DomEvent::MouseDown(m) => m.default_prevented,
            DomEvent::MouseUp(m) => m.default_prevented,
            DomEvent::MouseMove(m) => m.default_prevented,
            DomEvent::Wheel(w) => w.default_prevented,
            DomEvent::TouchStart(t) => t.default_prevented,
            DomEvent::TouchEnd(t) => t.default_prevented,
            DomEvent::TouchMove(t) => t.default_prevented,
            DomEvent::KeyDown(k) => k.default_prevented,
            DomEvent::KeyUp(k) => k.default_prevented,
        }
    }

    /// The window can take the event: a touch that ends and that the window handles
    /// leaves at least one touch on the surface.
    pub open spec fn acceptable(&self) -> bool {
        match self {
            DomEvent::TouchEnd(t) => t.default_prevented || t.touches@.len() >= 1,
            _ => true,
        }
    }
}

/// The input state of the window between two frames.
pub struct InputState {
    pub events: Vec<InputEvent>,
    pub modifiers: Modifiers,
    pub last_position: Option<(i32, i32)>,
    /// The squared distance between the two fingers of the last pinch.
    pub last_zoom: Option<u128>,
}

/// The mathematical form of an [`InputState`].
pub struct InputModel {
    pub events: Seq<InputEvent>,
    pub modifiers: Modifiers,
    pub last_position: Option<(i32, i32)>,
    pub last_zoom: Option<u128>,
}

impl View for InputState {
    type V = InputModel;

    open spec fn view(&self) -> InputModel {
        InputModel {
            events: self.events@,
            modifiers: self.modifiers,
            last_position: self.last_position,
            last_zoom: self.last_zoom,
        }
    }
}

/// The state of a window that has seen no input.
pub open spec fn initial_model() -> InputModel {
    InputModel {
        events: Seq::empty(),
        modifiers: Modifiers::none_pressed(),
        last_position: None,
        last_zoom: None,
    }
}

/// The button that a browser button number names.
pub open spec fn mouse_button_for(code: i16) -> Option<MouseButton> {
    if code == 0 {
        Some(MouseButton::Left)
    } else if code == 1 {
        Some(MouseButton::Middle)
    } else if code == 2 {
        Some(MouseButton::Right)
    } else {
        None
    }
}

/// The squared distance between two touches.
pub open spec fn spread(a: (i32, i32), b: (i32, i32)) -> int {
    (a.0 - b.0) * (a.0 - b.0) + (a.1 - b.1) * (a.1 - b.1)
}

/// The model with another queued event.
pub open spec fn with_event(s: InputModel, e: InputEvent) -> InputModel {
    InputModel { events: s.events.push(e), ..s }
}

/// The model with new pointer and pinch memories.
pub open spec fn with_memory(
    s: InputModel,
    last_position: Option<(i32, i32)>,
    last_zoom: Option<u128>,
) -> InputModel {
    InputModel { last_position, last_zoom, ..s }
}

/// A mouse button went `state` (down or up).
pub open spec fn after_mouse_button(s: InputModel, state: State, m: MouseInput) -> (InputModel, bool) {
    if m.default_prevented {
        (s, false)
    } else {
        match mouse_button_for(m.button) {
            Some(button) => (
                with_event(
                    s,
                    InputEvent::MouseClick {
                        state,
                        button,
                        position: (m.offset_x, m.offset_y),
                        modifiers: s.modifiers,
                    },
                ),
                true,
            ),
            None => (s, true),
        }
    }
}

/// The pointer moved.
pub open spec fn after_mouse_move(s: InputModel, m: MouseInput) -> (InputModel, bool) {
    if m.default_prevented {
        (s, false)
    } else {
        let position = (m.offset_x, m.offset_y);
        let delta: (i64, i64) = match s.last_position {
            Some(p) => ((m.offset_x - p.0) as i64, (m.offset_y - p.1) as i64),
            None => (0, 0),
        };
        (
            with_memory(
                with_event(s, InputEvent::MouseMotion { delta, position }),
                Some(position),
                s.last_zoom,
            ),
            true,
        )
    }
}

/// The wheel turned.
pub open spec fn after_wheel(s: InputModel, w: WheelInput) -> (InputModel, bool) {
    if w.default_prevented {
        (s, false)
    } else {
        (
            with_event(
                s,
                InputEvent::Scroll { delta_y_bits: w.delta_y_bits, position: (w.offset_x, w.offset_y) },
            ),
            true,
        )
    }
}

/// Fingers touched the surface.
pub open spec fn after_touch_start(s: InputModel, t: TouchInput) -> (InputModel, bool) {
    let touches = t.touches@;
    if t.default_prevented {
        (s, false)
    } else if touches.len() == 1 {
        (
            with_memory(
                with_event(
                    s,
                    InputEvent::MouseClick {
                        state: State::Pressed,
                        button: MouseButton::Left,
                        position: touches[0],
                        modifiers: Modifiers::none_pressed(),
                    },
                ),
                Some(touches[0]),
                None,
            ),
            true,
        )
    } else if touches.len() == 2 {
        (with_memory(s, None, Some(spread(touches[0], touches[1]) as u128)), true)
    } else {
        (with_memory(s, None, None), true)
    }
}

/// A finger left the surface; `touches` are those that remain.
pub open spec fn after_touch_end(s: InputModel, t: TouchInput) -> (InputModel, bool) {
    if t.default_prevented {
        (s, false)
    } else {
        (
            with_memory(
                with_event(
                    s,
                    InputEvent::MouseClick {
                        state: State::Released,
                        button: MouseButton::Left,
                        position: t.touches@[0],
                        modifiers: Modifiers::none_pressed(),
                    },
                ),
                None,
                None,
            ),
            true,
        )
    }
}

/// Fingers moved on the surface.
pub open spec fn after_touch_move(s: InputModel, t: TouchInput) -> (InputModel, bool) {
    let touches = t.touches@;
    if t.default_prevented {
        (s, false)
    } else if touches.len() == 1 {
        let p = touches[0];
        let moved = match s.last_position {
            Some(last) => with_event(
                s,
                InputEvent::MouseMotion {
                    delta: ((p.0 - last.0) as i64, (p.1 - last.1) as i64),
                    position: p,
                },
            ),
            None => s,
        };
        (with_memory(moved, Some(p), None), true)
    } else if touches.len() == 2 {
        let a = touches[0];
        let b = touches[1];
        let zoom = spread(a, b) as u128;
        let pinched = match s.last_zoom {
            Some(old) => with_event(
                s,
                InputEvent::Pinch {
                    previous_spread: old,
                    spread: zoom,
                    position_sum: ((a.0 + b.0) as i64, (a.1 + b.1) as i64),
                },
            ),
            None => s,
        };
        (with_memory(pinched, None, Some(zoom)), true)
    } else {
        (with_memory(s, None, None), true)
    }
}

/// A key went down. A key the window knows is queued; any other key press
/// records the modifiers that the event reports as held.
pub open spec fn after_key_down(s: InputModel, k: KeyInput) -> (InputModel, bool) {
    if k.default_prevented {
        (s, false)
    } else {
        match key_for_code(k.code@) {
            Some(kind) => (
                with_event(
                    s,
                    InputEvent::Key { state: State::Pressed, kind, modifiers: s.modifiers },
                ),
                true,
            ),
            None => {
                let m = s.modifiers;
                let modifiers = Modifiers {
                    alt: if k.alt_key { State::Pressed } else { m.alt },
                    ctrl: if k.ctrl_key { State::Pressed } else { m.ctrl },
                    shift: if k.shift_key { State::Pressed } else { m.shift },
                    command: if k.ctrl_key || k.meta_key { State::Pressed } else { m.command },
                };
                (
                    InputModel { modifiers, ..s },
                    k.alt_key || k.ctrl_key || k.shift_key || k.meta_key,
                )
            },
        }
    }
}

/// A key went up.
pub open spec fn after_key_up(s: InputModel, k: KeyInput) -> (InputModel, bool) {
    if k.default_prevented {
        (s, false)
    } else {
        match key_for_code(k.code@) {
            Some(kind) => (
                with_event(
                    s,
                    InputEvent::Key { state: State::Released, kind, modifiers: s.modifiers },
                ),
                true,
            ),
            None => (s, false),
        }
    }
}

/// The state after a browser event, and whether the window handled the event (it
/// then stops the event's propagation and prevents its default action).
pub open spec fn next(s: InputModel, e: DomEvent) -> (InputModel, bool) {
    match e {
        DomEvent::MouseDown(m) => after_mouse_button(s, State::Pressed, m),
        DomEvent::MouseUp(m) => after_mouse_button(s, State::Released, m),
        DomEvent::MouseMove(m) => after_mouse_move(s, m),
        DomEvent::Wheel(w) => after_wheel(s, w),
        DomEvent::TouchStart(t) => after_touch_start(s, t),
        DomEvent::TouchEnd(t) => after_touch_end(s, t),
        DomEvent::TouchMove(t) => after_touch_move(s, t),
        DomEvent::KeyDown(k) => after_key_down(s, k),
        DomEvent::KeyUp(k) => after_key_up(s, k),
    }
}

/// The state after a run of browser events, in order.
pub open spec fn run(s: InputModel, es: Seq<DomEvent>) -> InputModel
    decreases es.len(),
{
    if es.len() == 0 {
        s
    } else {
        next(run(s, es.drop_last()), es.last()).0
    }
}

/// The button that a browser button number names.
pub fn mouse_button(code: i16) -> (r: Option<MouseButton>)
    ensures
        r == mouse_button_for(code),
{
    if code == 0 {
        Some(MouseButton::Left)
    } else if code == 1 {
        Some(MouseButton::Middle)
    } else if code == 2 {
        Some(MouseButton::Right)
    } else {
        None
    }
}

/// The squared distance between two touches.
pub fn touch_spread(a: (i32, i32), b: (i32, i32)) -> (r: u128)
    ensures
        r == spread(a, b),
{
    let dx: i64 = a.0 as i64 - b.0 as i64;
    let dy: i64 = a.1 as i64 - b.1 as i64;
    let ax: u128 = if dx < 0 { (-dx) as u128 } else { dx as u128 };
    let ay: u128 = if dy < 0 { (-dy) as u128 } else { dy as u128 };
    assert(ax < 0x1_0000_0000 && ay < 0x1_0000_0000);
    assert(ax * ax < 0x1_0000_0000_0000_0000) by (nonlinear_arith)
        requires
            ax < 0x1_0000_0000,
    ;
    assert(ay * ay < 0x1_0000_0000_0000_0000) by (nonlinear_arith)
        requires
            ay < 0x1_0000_0000,
    ;
    assert(ax * ax == dx * dx) by (nonlinear_arith)
        requires
            ax == dx || ax == -dx,
    ;
    assert(ay * ay == dy * dy) by (nonlinear_arith)
        requires
            ay == dy || ay == -dy,
    ;
    ax * ax + ay * ay
}

impl InputState {
    /// A window that has seen no input.
    pub fn new() -> (s: InputState)
        ensures
            s@ == initial_model(),
    {
        InputState {
            events: Vec::new(),
            modifiers: Modifiers::default(),
            last_position: None,
            last_zoom: None,
        }
    }

    fn on_mouse_button(&mut self, state: State, m: MouseInput) -> (handled: bool)
        ensures
            (final(self)@, handled) == after_mouse_button(old(self)@, state, m),
    {
        if m.default_prevented {
            return false;
        }
        if let Some(button) = mouse_button(m.button) {
            let modifiers = self.modifiers;
            self.events.push(
                InputEvent::MouseClick {
                    state,
                    button,
                    position: (m.offset_x, m.offset_y),
                    modifiers,
                },
            );
        }
        true
    }

    fn on_mouse_move(&mut self, m: MouseInput) -> (handled: bool)
        ensures
            (final(self)@, handled) == after_mouse_move(old(self)@, m),
    {
        if m.default_prevented {
            return false;
        }
        let delta: (i64, i64) = match self.last_position {
            Some(p) => (m.offset_x as i64 - p.0 as i64, m.offset_y as i64 - p.1 as i64),
            None => (0, 0),
        };
        let position = (m.offset_x, m.offset_y);
        self.events.push(InputEvent::MouseMotion { delta, position });
        self.last_position = Some(position);
        true
    }

    fn on_wheel(&mut self, w: WheelInput) -> (handled: bool)
        ensures
            (final(self)@, handled) == after_wheel(old(self)@, w),
    {
        if w.default_prevented {
            return false;
        }
        self.events.push(
            InputEvent::Scroll { delta_y_bits: w.delta_y_bits, position: (w.offset_x, w.offset_y) },
        );
        true
    }

    fn on_touch_start(&mut self, t: &TouchInput) -> (handled: bool)
        ensures
            (final(self)@, handled) == after_touch_start(old(self)@, *t),
    {
        if t.default_prevented {
            return false;
        }
        let n = t.touches.len();
        if n == 1 {
            let p = t.touches[0];
            self.events.push(
                InputEvent::MouseClick {
                    state: State::Pressed,
                    button: MouseButton::Left,
                    position: p,
                    modifiers: Modifiers::default(),
                },
            );
            self.last_position = Some(p);
            self.last_zoom = None;
        } else if n == 2 {
            let zoom = touch_spread(t.touches[0], t.touches[1]);
            self.last_zoom = Some(zoom);
            self.last_position = None;
        } else {
            self.last_zoom = None;
            self.last_position = None;
        }
        true
    }

    fn on_touch_end(&mut self, t: &TouchInput) -> (handled: bool)
        requires
            t.default_prevented || t.touches@.len() >= 1,
        ensures
            (final(self)@, handled) == after_touch_end(old(self)@, *t),
    {
        if t.default_prevented {
            return false;
        }
        let p = t.touches[0];
        self.last_position = None;
        self.last_zoom = None;
        self.events.push(
            InputEvent::MouseClick {
                state: State::Released,
                button: MouseButton::Left,
                position: p,
                modifiers: Modifiers::default(),
            },
        );
        true
    }

    fn on_touch_move(&mut self, t: &TouchInput) -> (handled: bool)
        ensures
            (final(self)@, handled) == after_touch_move(old(self)@, *t),
    {
        if t.default_prevented {
            return false;
        }
        let n = t.touches.len();
        if n == 1 {
            let p = t.touches[0];
            if let Some(last) = self.last_position {
                self.events.push(
                    InputEvent::MouseMotion {
                        delta: (p.0 as i64 - last.0 as i64, p.1 as i64 - last.1 as i64),
                        position: p,
                    },
                );
            }
            self.last_position = Some(p);
            self.last_zoom = None;
        } else if n == 2 {
            let a = t.touches[0];
            let b = t.touches[1];
            let zoom = touch_spread(a, b);
            if let Some(old_zoom) = self.last_zoom {
                self.events.push(
                    InputEvent::Pinch {
                        previous_spread: old_zoom,
                        spread: zoom,
                        position_sum: (a.0 as i64 + b.0 as i64, a.1 as i64 + b.1 as i64),
                    },
                );
            }
            self.last_zoom = Some(zoom);
            self.last_position = None;
        } else {
            self.last_zoom = None;
            self.last_position = None;
        }
        true
    }

    fn on_key_down(&mut self, k: &KeyInput) -> (handled: bool)
        ensures
            (final(self)@, handled) == after_key_down(old(self)@, *k),
    {
        if k.default_prevented {
            return false;
        }
        match translate_key(k.code.as_str()) {
            Some(kind) => {
                let modifiers = self.modifiers;
                self.events.push(InputEvent::Key { state: State::Pressed, kind, modifiers });
                true
            },
            None => {
                if k.alt_key {
                    self.modifiers.alt = State::Pressed;
                }
                if k.ctrl_key {
                    self.modifiers.ctrl = State::Pressed;
                }
                if k.shift_key {
                    self.modifiers.shift = State::Pressed;
                }
                if k.ctrl_key || k.meta_key {
                    self.modifiers.command = State::Pressed;
                }
                k.alt_key || k.ctrl_key || k.shift_key || k.meta_key
            },
        }
    }

    fn on_key_up(&mut self, k: &KeyInput) -> (handled: bool)
        ensures
            (final(self)@, handled) == after_key_up(old(self)@, *k),
    {
        if k.default_prevented {
            return false;
        }
        match translate_key(k.code.as_str()) {
            Some(kind) => {
                let modifiers = self.modifiers;
                self.events.push(InputEvent::Key { state: State::Released, kind, modifiers });
                true
            },
            None => false,
        }
    }

    /// Takes a browser event into the state. The result says whether the window
    /// handled the event: it then stops its propagation and prevents its default.
    pub fn handle(&mut self, event: &DomEvent) -> (handled: bool)
        requires
            event.acceptable(),
        ensures
            (final(self)@, handled) == next(old(self)@, *event),
    {
        match event {
            DomEvent::MouseDown(m) => self.on_mouse_button(State::Pressed, *m),
            DomEvent::MouseUp(m) => self.on_mouse_button(State::Released, *m),
            DomEvent::MouseMove(m) => self.on_mouse_move(*m),
            DomEvent::Wheel(w) => self.on_wheel(*w),
            DomEvent::TouchStart(t) => self.on_touch_start(t),
            DomEvent::TouchEnd(t) => self.on_touch_end(t),
            DomEvent::TouchMove(t) => self.on_touch_move(t),
            DomEvent::KeyDown(k) => self.on_key_down(k),
            DomEvent::KeyUp(k) => self.on_key_up(k),
        }
    }

    /// Hands over the events queued since the last frame and empties the queue.
    pub fn take_events(&mut self) -> (taken: Vec<InputEvent>)
        ensures
            taken@ == old(self)@.events,
            final(self)@.events == Seq::<InputEvent>::empty(),
            final(self)@.modifiers == old(self)@.modifiers,
            final(self)@.last_position == old(self)@.last_position,
            final(self)@.last_zoom == old(self)@.last_zoom,
    {
        let mut taken: Vec<InputEvent> = Vec::new();
        std::mem::swap(&mut taken, &mut self.events);
        taken
    }
}

} // verus!
