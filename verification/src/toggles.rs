//! Render-state toggle machine: a pure reducer from input events to the
//! three per-frame render toggles and the terminal quit flag.

use vstd::prelude::*;

verus! {

/// The keys the toggle machine designates; every other key is `Other`.
#[derive(Clone, Copy, Debug, PartialEq, Eq, Structural)]
pub enum Key {
    Left,
    Right,
    Down,
    Other,
}

/// One polled input event, as the windowing backend delivers it.
#[derive(Clone, Copy, Debug, PartialEq, Eq, Structural)]
pub enum InputEvent {
    /// Window close or an explicit quit signal.
    Quit,
    /// A discrete key-press event.
    KeyDown { key: Key },
    /// Any event this core ignores.
    Ignored,
}

/// The process-wide render state the frame renderer reads each frame,
/// plus the terminal quit flag the main loop consumes.
#[derive(Clone, Copy, Debug, PartialEq, Eq, Structural)]
pub struct ToggleState {
    pub wireframe: bool,
    pub small_viewport: bool,
    pub scissor: bool,
    pub quit_requested: bool,
}

impl ToggleState {
    /// The state at startup: every toggle off, no quit seen.
    pub fn new() -> (s: ToggleState)
        ensures
            s == (ToggleState {
                wireframe: false,
                small_viewport: false,
                scissor: false,
                quit_requested: false,
            }),
    {
        ToggleState { wireframe: false, small_viewport: false, scissor: false, quit_requested: false }
    }
}

/// The toggle a designated key controls; `Other` controls none.
pub open spec fn toggle_of(s: ToggleState, k: Key) -> bool {
    match k {
        Key::Left => s.wireframe,
        Key::Right => s.small_viewport,
        Key::Down => s.scissor,
        Key::Other => false,
    }
}

/// What one event does to the state: a quit event sets the terminal flag,
/// a designated key press flips its toggle, everything else is ignored.
pub open spec fn step_spec(s: ToggleState, e: InputEvent) -> ToggleState {
    match e {
        InputEvent::Quit => ToggleState { quit_requested: true, ..s },
        InputEvent::KeyDown { key } => match key {
            Key::Left => ToggleState { wireframe: !s.wireframe, ..s },
            Key::Right => ToggleState { small_viewport: !s.small_viewport, ..s },
            Key::Down => ToggleState { scissor: !s.scissor, ..s },
            Key::Other => s,
        },
        InputEvent::Ignored => s,
    }
}

/// Folding a whole event sequence through `step_spec`, oldest event first.
pub open spec fn run_spec(s: ToggleState, es: Seq<InputEvent>) -> ToggleState
    decreases es.len(),
{
    if es.len() == 0 {
        s
    } else {
        step_spec(run_spec(s, es.drop_last()), es.last())
    }
}

/// Applies one polled event to the render state.
pub fn apply_event(s: ToggleState, e: InputEvent) -> (r: ToggleState)
    ensures
        r == step_spec(s, e),
{
    match e {
        InputEvent::Quit => ToggleState { quit_requested: true, ..s },
        InputEvent::KeyDown { key } => match key {
            Key::Left => ToggleState { wireframe: !s.wireframe, ..s },
            Key::Right => ToggleState { small_viewport: !s.small_viewport, ..s },
            Key::Down => ToggleState { scissor: !s.scissor, ..s },
            Key::Other => s,
        },
        InputEvent::Ignored => s,
    }
}

/// Drains one frame's worth of polled events through the reducer, in order.
pub fn apply_events(s: ToggleState, es: &Vec<InputEvent>) -> (r: ToggleState)
    ensures
        r == run_spec(s, es@),
{
    let mut state = s;
    let mut i: usize = 0;
    while i < es.len()
        invariant
            i <= es.len(),
            state == run_spec(s, es@.subrange(0, i as int)),
        decreases es.len() - i,
    {
        proof {
            assert(es@.subrange(0, i + 1 as int).drop_last() =~= es@.subrange(0, i as int));
        }
        state = apply_event(state, es[i]);
        i = i + 1;
    }
    proof {
        assert(es@.subrange(0, es@.len() as int) =~= es@);
    }
    state
}

/// Whether the main loop should run another frame: it stops exactly when a
/// quit event has been observed.
pub fn should_continue(s: &ToggleState) -> (b: bool)
    ensures
        b == !s.quit_requested,
{
    !s.quit_requested
}

/// A run of `n` consecutive presses of the same key.
pub open spec fn presses(k: Key, n: nat) -> Seq<InputEvent> {
    Seq::new(n, |i: int| InputEvent::KeyDown { key: k })
}

/// One press of a designated key flips exactly its own toggle: the other
/// two toggles and the quit flag are untouched.
pub proof fn lemma_press_flips(s: ToggleState, k: Key)
    requires
        k != Key::Other,
    ensures
        toggle_of(step_spec(s, InputEvent::KeyDown { key: k }), k) == !toggle_of(s, k),
        forall|k2: Key| k2 != k ==> toggle_of(step_spec(s, InputEvent::KeyDown { key: k }), k2)
            == toggle_of(s, k2),
        step_spec(s, InputEvent::KeyDown { key: k }).quit_requested == s.quit_requested,
{
}

/// Repeated presses of one designated key alternate its toggle strictly:
/// after `n` presses the toggle is flipped exactly when `n` is odd, and no
/// other part of the state moves.
pub proof fn lemma_presses_alternate(s: ToggleState, k: Key, n: nat)
    requires
        k != Key::Other,
    ensures
        toggle_of(run_spec(s, presses(k, n)), k) == if n % 2 == 1 {
            !toggle_of(s, k)
        } else {
            toggle_of(s, k)
        },
        forall|k2: Key| k2 != k ==> toggle_of(run_spec(s, presses(k, n)), k2) == toggle_of(s, k2),
        run_spec(s, presses(k, n)).quit_requested == s.quit_requested,
    decreases n,
{
    if n == 0 {
        assert(presses(k, 0) =~= Seq::<InputEvent>::empty());
    } else {
        assert(presses(k, n).drop_last() =~= presses(k, (n - 1) as nat));
        lemma_presses_alternate(s, k, (n - 1) as nat);
        lemma_press_flips(run_spec(s, presses(k, (n - 1) as nat)), k);
    }
}

/// A quit event sets the terminal flag and leaves every toggle as it was;
/// once set, no further event clears it.
pub proof fn lemma_quit_is_terminal(s: ToggleState, e: InputEvent)
    requires
        s.quit_requested,
    ensures
        step_spec(s, e).quit_requested,
{
}

} // verus!
