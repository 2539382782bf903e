//! The wire-protocol encoder. Each channel's state renders to one text line
//! (the terminating newline is added by the transport client):
//! `OSU|<u8 decimal>`, `KEYBOARD|<u128 decimal>`, and
//! `MOUSE|<dx>;<dy>;<wheel>;<buttons>`. The two deltas arrive pre-rendered,
//! since their scaling is the caller's floating-point business; everything
//! else is rendered here.

use vstd::prelude::*;
use vstd::string::*;
use crate::events::Tick;
use crate::state::{InputState, spec_sample_mouse};
use crate::text::{
    dec_rep, i32_to_string, int_rep, lemma_dec_rep_no_newline, lemma_int_rep_no_newline,
    lemma_no_newline_concat, no_newline, u128_to_string,
};

verus! {

/// The legacy-channel wire line (without the terminating newline).
pub open spec fn legacy_msg(v: nat) -> Seq<char> {
    "OSU|"@ + dec_rep(v)
}

/// The keyboard-channel wire line.
pub open spec fn keyboard_msg(v: nat) -> Seq<char> {
    "KEYBOARD|"@ + dec_rep(v)
}

/// The mouse-channel wire line: the two scaled deltas exactly as handed in,
/// then the wheel delta and the button register in decimal.
pub open spec fn mouse_msg(dx: Seq<char>, dy: Seq<char>, wheel: int, buttons: nat) -> Seq<char> {
    "MOUSE|"@ + dx + ";"@ + dy + ";"@ + int_rep(wheel) + ";"@ + dec_rep(buttons)
}

/// Renders the legacy register.
pub fn encode_legacy(v: u8) -> (r: String)
    ensures
        r@ == legacy_msg(v as nat),
{
    let mut s = String::from_str("OSU|");
    s.append(u128_to_string(v as u128).as_str());
    s
}

/// Renders the keyboard register.
pub fn encode_keyboard(v: u128) -> (r: String)
    ensures
        r@ == keyboard_msg(v as nat),
{
    let mut s = String::from_str("KEYBOARD|");
    s.append(u128_to_string(v).as_str());
    s
}

/// Renders the mouse line from the pre-rendered deltas, the wheel delta, and
/// the button register.
pub fn encode_mouse(dx: &str, dy: &str, wheel: i32, buttons: u8) -> (r: String)
    ensures
        r@ == mouse_msg(dx@, dy@, wheel as int, buttons as nat),
{
    let mut s = String::from_str("MOUSE|");
    s.append(dx);
    s.append(";");
    s.append(dy);
    s.append(";");
    s.append(i32_to_string(wheel).as_str());
    s.append(";");
    s.append(u128_to_string(buttons as u128).as_str());
    s
}

/// The lines owed for the two edge-triggered channels this tick, in the fixed
/// send order: legacy first, then keyboard. A channel contributes exactly one
/// line when dirty and none otherwise; the mouse line, when owed, follows
/// these and is rendered by [`mouse_message`].
pub open spec fn spec_tick_messages(s: InputState, t: Tick) -> Seq<Seq<char>> {
    let a: Seq<Seq<char>> = if t.legacy {
        seq![legacy_msg(s.legacy as nat)]
    } else {
        Seq::empty()
    };
    let b: Seq<Seq<char>> = if t.keyboard {
        seq![keyboard_msg(s.keyboard as nat)]
    } else {
        Seq::empty()
    };
    a + b
}

/// Renders the lines owed for the dirty edge-triggered channels.
pub fn tick_messages(s: &InputState, t: &Tick) -> (msgs: Vec<String>)
    ensures
        msgs.deep_view() == spec_tick_messages(*s, *t),
{
    let mut msgs: Vec<String> = Vec::new();
    if t.legacy {
        msgs.push(encode_legacy(s.legacy));
    }
    if t.keyboard {
        msgs.push(encode_keyboard(s.keyboard));
    }
    proof {
        assert(msgs.deep_view() =~= spec_tick_messages(*s, *t));
    }
    msgs
}

/// Samples the mouse buttons into the register (level-triggered, from the
/// instantaneous status) and renders the mouse line from the pre-rendered
/// deltas, this tick's wheel delta, and the freshly sampled register.
pub fn mouse_message(
    s: &mut InputState,
    dx: &str,
    dy: &str,
    wheel: i32,
    left: bool,
    right: bool,
) -> (r: String)
    ensures
        final(s).mouse == spec_sample_mouse(old(s).mouse, left, right),
        final(s).legacy == old(s).legacy,
        final(s).keyboard == old(s).keyboard,
        r@ == mouse_msg(dx@, dy@, wheel as int, final(s).mouse as nat),
{
    s.sample_mouse(left, right);
    encode_mouse(dx, dy, wheel, s.snapshot_mouse())
}

/// The vertical mouse delta is sign-inverted on output; inversion happens on
/// the raw delta, before the caller scales it.
pub fn invert_axis(raw: i32) -> (r: i64)
    ensures
        r == -(raw as int),
{
    -(raw as i64)
}

/// No encoded message contains an embedded newline on the legacy or keyboard
/// channel: the terminating newline the transport client appends is the only
/// one that ever reaches the wire.
pub proof fn lemma_channel_msgs_no_newline(v: nat, w: nat)
    ensures
        no_newline(legacy_msg(v)),
        no_newline(keyboard_msg(w)),
{
    reveal_strlit("OSU|");
    reveal_strlit("KEYBOARD|");
    lemma_dec_rep_no_newline(v);
    lemma_dec_rep_no_newline(w);
    lemma_no_newline_concat("OSU|"@, dec_rep(v));
    lemma_no_newline_concat("KEYBOARD|"@, dec_rep(w));
}

/// The same for the mouse channel, as long as the two pre-rendered deltas are
/// themselves newline-free.
pub proof fn lemma_mouse_msg_no_newline(dx: Seq<char>, dy: Seq<char>, wheel: int, buttons: nat)
    requires
        no_newline(dx),
        no_newline(dy),
    ensures
        no_newline(mouse_msg(dx, dy, wheel, buttons)),
{
    reveal_strlit("MOUSE|");
    reveal_strlit(";");
    lemma_int_rep_no_newline(wheel);
    lemma_dec_rep_no_newline(buttons);
    lemma_no_newline_concat("MOUSE|"@, dx);
    lemma_no_newline_concat("MOUSE|"@ + dx, ";"@);
    lemma_no_newline_concat("MOUSE|"@ + dx + ";"@, dy);
    lemma_no_newline_concat("MOUSE|"@ + dx + ";"@ + dy, ";"@);
    lemma_no_newline_concat("MOUSE|"@ + dx + ";"@ + dy + ";"@, int_rep(wheel));
    lemma_no_newline_concat("MOUSE|"@ + dx + ";"@ + dy + ";"@ + int_rep(wheel), ";"@);
    lemma_no_newline_concat(
        "MOUSE|"@ + dx + ";"@ + dy + ";"@ + int_rep(wheel) + ";"@,
        dec_rep(buttons),
    );
}

/// The startup display label: `<address>@<rate>ms`.
pub fn title_label(address: &str, rate_ms: u64) -> (r: String)
    ensures
        r@ == address@ + "@"@ + dec_rep(rate_ms as nat) + "ms"@,
{
    let mut s = String::from_str(address);
    s.append("@");
    s.append(u128_to_string(rate_ms as u128).as_str());
    s.append("ms");
    s
}

} // verus!
