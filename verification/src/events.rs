//! The event classifier and the per-tick drain. A raw input event becomes at
//! most one state mutation plus a dirty marker, following a fixed decision
//! table: quit signal first, then the two designated game keys (legacy
//! channel), then any other non-repeat key transition (keyboard channel, the
//! channel is marked dirty whether or not the name is mapped), then mouse
//! wheel, then mouse motion and buttons. Unrecognized events are ignored.

use vstd::prelude::*;
use vstd::string::*;
use crate::keymap::{lookup, spec_lookup, lemma_lookup_range};
use crate::state::{
    InputState, spec_apply_legacy, spec_apply_keyboard, lemma_apply_legacy_idempotent,
    lemma_apply_keyboard_idempotent,
};
use crate::text::str_eq;

verus! {

/// One raw input event, as the surrounding program hands it in. Key events
/// carry the symbolic key name and the source's auto-repeat flag.
#[derive(Debug)]
pub enum InputEvent {
    /// The quit / terminate signal.
    Quit,
    /// A key went down.
    KeyDown { name: String, repeat: bool },
    /// A key came up.
    KeyUp { name: String, repeat: bool },
    /// The mouse moved.
    MouseMotion,
    /// A mouse button went down.
    MouseButtonDown,
    /// A mouse button came up.
    MouseButtonUp,
    /// The mouse wheel turned by the given signed amount.
    MouseWheel { y: i32 },
}

/// The names of the two designated game keys that drive the legacy channel.
#[derive(Debug)]
pub struct KeyConfig {
    /// The key behind legacy bit 0.
    pub primary: String,
    /// The key behind legacy bit 1.
    pub secondary: String,
}

impl KeyConfig {
    /// A configuration with the given two key names.
    pub fn new(primary: String, secondary: String) -> (r: KeyConfig)
        ensures
            r.primary@ == primary@,
            r.secondary@ == secondary@,
    {
        KeyConfig { primary, secondary }
    }

    /// The default pair of game keys.
    pub fn defaults() -> (r: KeyConfig)
        ensures
            r.primary@ == "Z"@,
            r.secondary@ == "X"@,
    {
        KeyConfig { primary: String::from_str("Z"), secondary: String::from_str("X") }
    }
}

/// Per-tick bookkeeping: the dirty marker of each channel, the wheel delta
/// recorded this tick, and whether a quit signal was seen.
#[derive(Clone, Copy, PartialEq, Eq, Structural, Debug)]
pub struct Tick {
    /// A quit signal was seen this tick.
    pub quit: bool,
    /// The legacy channel must be sent.
    pub legacy: bool,
    /// The keyboard channel must be sent.
    pub keyboard: bool,
    /// The mouse channel must be sent.
    pub mouse: bool,
    /// Signed wheel delta recorded this tick; zero when no wheel event came.
    pub wheel: i32,
}

impl Tick {
    /// The bookkeeping at the start of a tick: nothing dirty, wheel delta zero.
    pub open spec fn initial() -> Tick {
        Tick { quit: false, legacy: false, keyboard: false, mouse: false, wheel: 0 }
    }

    /// Fresh per-tick bookkeeping.
    pub fn init() -> (r: Tick)
        ensures
            r == Tick::initial(),
    {
        Tick { quit: false, legacy: false, keyboard: false, mouse: false, wheel: 0 }
    }
}

/// The classifier's decision for one key transition (rules two and three of
/// the decision table): a repeat transition does nothing; one of the two game
/// keys mutates its legacy bit and marks the legacy channel; any other name
/// mutates its keyboard bit when mapped and marks the keyboard channel
/// whether or not the name was mapped.
pub open spec fn step_key(
    s: InputState,
    t: Tick,
    name: Seq<char>,
    down: bool,
    repeat: bool,
    cfg: KeyConfig,
) -> (InputState, Tick) {
    if repeat {
        (s, t)
    } else if name == cfg.primary@ {
        (
            InputState { legacy: spec_apply_legacy(s.legacy, 0, down), ..s },
            Tick { legacy: true, ..t },
        )
    } else if name == cfg.secondary@ {
        (
            InputState { legacy: spec_apply_legacy(s.legacy, 1, down), ..s },
            Tick { legacy: true, ..t },
        )
    } else {
        let s2 = match spec_lookup(name) {
            Some(idx) => InputState { keyboard: spec_apply_keyboard(s.keyboard, idx, down), ..s },
            None => s,
        };
        (s2, Tick { keyboard: true, ..t })
    }
}

/// The whole decision table: what one event does to the registers and to the
/// per-tick bookkeeping.
pub open spec fn step(s: InputState, t: Tick, ev: InputEvent, cfg: KeyConfig) -> (InputState, Tick) {
    match ev {
        InputEvent::Quit => (s, Tick { quit: true, ..t }),
        InputEvent::KeyDown { name, repeat } => step_key(s, t, name@, true, repeat, cfg),
        InputEvent::KeyUp { name, repeat } => step_key(s, t, name@, false, repeat, cfg),
        InputEvent::MouseWheel { y } => (s, Tick { mouse: true, wheel: y, ..t }),
        InputEvent::MouseMotion => (s, Tick { mouse: true, ..t }),
        InputEvent::MouseButtonDown => (s, Tick { mouse: true, ..t }),
        InputEvent::MouseButtonUp => (s, Tick { mouse: true, ..t }),
    }
}

fn apply_key(
    s: &mut InputState,
    t: &mut Tick,
    name: &str,
    down: bool,
    repeat: bool,
    cfg: &KeyConfig,
)
    ensures
        (*final(s), *final(t)) == step_key(*old(s), *old(t), name@, down, repeat, *cfg),
{
    if repeat {
        return ;
    }
    if str_eq(name, cfg.primary.as_str()) {
        s.apply_legacy(0, down);
        t.legacy = true;
    } else if str_eq(name, cfg.secondary.as_str()) {
        s.apply_legacy(1, down);
        t.legacy = true;
    } else {
        match lookup(name) {
            Some(idx) => {
                proof {
                    lemma_lookup_range(name@);
                }
                s.apply_keyboard(idx, down);
            },
            None => {},
        }
        t.keyboard = true;
    }
}

/// Applies the classifier's decision for one event to the registers and to
/// the per-tick bookkeeping.
pub fn apply_event(s: &mut InputState, t: &mut Tick, ev: &InputEvent, cfg: &KeyConfig)
    ensures
        (*final(s), *final(t)) == step(*old(s), *old(t), *ev, *cfg),
{
    match ev {
        InputEvent::Quit => {
            t.quit = true;
        },
        InputEvent::KeyDown { name, repeat } => {
            apply_key(s, t, name.as_str(), true, *repeat, cfg);
        },
        InputEvent::KeyUp { name, repeat } => {
            apply_key(s, t, name.as_str(), false, *repeat, cfg);
        },
        InputEvent::MouseWheel { y } => {
            t.wheel = *y;
            t.mouse = true;
        },
        InputEvent::MouseMotion => {
            t.mouse = true;
        },
        InputEvent::MouseButtonDown => {
            t.mouse = true;
        },
        InputEvent::MouseButtonUp => {
            t.mouse = true;
        },
    }
}

/// The registers and bookkeeping after a whole batch of events, applied in
/// order, starting from the given state.
pub open spec fn run_events(
    s: InputState,
    t: Tick,
    evs: Seq<InputEvent>,
    cfg: KeyConfig,
) -> (InputState, Tick)
    decreases evs.len(),
{
    if evs.len() == 0 {
        (s, t)
    } else {
        let st = step(s, t, evs[0], cfg);
        run_events(st.0, st.1, evs.drop_first(), cfg)
    }
}

/// Drains one tick's batch of pending events: every event is classified and
/// applied in order, against fresh per-tick bookkeeping.
pub fn drain_events(s: InputState, events: &Vec<InputEvent>, cfg: &KeyConfig) -> (r: (
    InputState,
    Tick,
))
    ensures
        r == run_events(s, Tick::initial(), events@, *cfg),
{
    let mut cur = s;
    let mut t = Tick::init();
    let n = events.len();
    let mut i: usize = 0;
    proof {
        assert(events@.skip(0) =~= events@);
    }
    while i < n
        invariant
            n == events@.len(),
            i <= n,
            run_events(s, Tick::initial(), events@, *cfg) == run_events(
                cur,
                t,
                events@.skip(i as int),
                *cfg,
            ),
        decreases n - i,
    {
        proof {
            assert(events@.skip(i as int)[0] == events@[i as int]);
            assert(events@.skip(i as int).drop_first() =~= events@.skip(i as int + 1));
        }
        apply_event(&mut cur, &mut t, &events[i], cfg);
        i += 1;
    }
    proof {
        assert(events@.skip(n as int) =~= Seq::<InputEvent>::empty());
    }
    (cur, t)
}

/// Idempotence of a key-down: applying the same key-down event twice in a
/// row leaves both the registers and the per-tick bookkeeping exactly as
/// after the first application.
pub proof fn lemma_keydown_idempotent(s: InputState, t: Tick, ev: InputEvent, cfg: KeyConfig)
    requires
        ev is KeyDown,
    ensures
        ({
            let st1 = step(s, t, ev, cfg);
            step(st1.0, st1.1, ev, cfg) == st1
        }),
{
    match ev {
        InputEvent::KeyDown { name, repeat } => {
            if !repeat {
                if name@ == cfg.primary@ {
                    lemma_apply_legacy_idempotent(s.legacy, 0, true);
                } else if name@ == cfg.secondary@ {
                    lemma_apply_legacy_idempotent(s.legacy, 1, true);
                } else {
                    match spec_lookup(name@) {
                        Some(idx) => {
                            lemma_lookup_range(name@);
                            lemma_apply_keyboard_idempotent(s.keyboard, idx, true);
                        },
                        None => {},
                    }
                }
            }
        },
        _ => {},
    }
}

/// The poll loop's two states.
#[derive(Clone, Copy, PartialEq, Eq, Structural, Debug)]
pub enum LoopState {
    /// Ticks keep coming.
    Running,
    /// Terminal: the loop exits.
    Stopped,
}

/// The poll loop's transition, taken once per tick after the tick's sends:
/// a quit signal stops the loop, and a stopped loop stays stopped.
pub fn next_state(cur: LoopState, quit_seen: bool) -> (r: LoopState)
    ensures
        r == (if quit_seen || cur is Stopped {
            LoopState::Stopped
        } else {
            LoopState::Running
        }),
{
    if quit_seen {
        LoopState::Stopped
    } else {
        cur
    }
}

} // verus!
