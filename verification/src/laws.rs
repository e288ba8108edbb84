use vstd::prelude::*;
use crate::client::{
    is_key_event, step_event, step_ic_created, step_open_finished, step_update_pos, EventAction, Ic,
    IcValues, ImeView,
};

verus! {

/// After a move of the IME window that reached the IM server, the input
/// context serves the window that the move named: it is the window that the
/// callbacks receive from then on, and the context keeps its handle.
pub proof fn lemma_update_pos_sets_callback_window(s: ImeView, win: u32, x: i16, y: i16)
    requires
        step_update_pos(s, win, x, y).1 is Some,
    ensures
        step_update_pos(s, win, x, y).0.ic == Some(Ic { win, ic: s.ic->0.ic }),
{
}

/// A move of the IME window reaches the IM server exactly when the input
/// context has been created; otherwise it changes nothing.
pub proof fn lemma_update_pos_needs_created_ic(s: ImeView, win: u32, x: i16, y: i16)
    ensures
        step_update_pos(s, win, x, y).1 is Some <==> (s.ic is Some && s.ic->0.ic != 0),
        step_update_pos(s, win, x, y).1 is None ==> step_update_pos(s, win, x, y).0 == s,
{
}

/// A move sends the spot location to the client's own input context, and
/// names the window only where it differs from the one the context served.
pub proof fn lemma_update_pos_values(s: ImeView, win: u32, x: i16, y: i16)
    requires
        step_update_pos(s, win, x, y).1 is Some,
    ensures
        step_update_pos(s, win, x, y).1->0.ic == s.ic->0.ic,
        step_update_pos(s, win, x, y).1->0.spot_x == x,
        step_update_pos(s, win, x, y).1->0.spot_y == y,
        step_update_pos(s, win, x, y).1->0.window is Some <==> win != s.ic->0.win,
        step_update_pos(s, win, x, y).1->0.window is Some ==> step_update_pos(
            s,
            win,
            x,
            y,
        ).1->0.window->0 == win,
{
}

/// Repeating a move changes nothing more, and the repeat names no window.
pub proof fn lemma_update_pos_repeat(s: ImeView, win: u32, x: i16, y: i16)
    requires
        step_update_pos(s, win, x, y).1 is Some,
    ensures
        step_update_pos(step_update_pos(s, win, x, y).0, win, x, y).0 == step_update_pos(
            s,
            win,
            x,
            y,
        ).0,
        step_update_pos(step_update_pos(s, win, x, y).0, win, x, y).1 == Some(
            IcValues { ic: s.ic->0.ic, window: None, spot_x: x, spot_y: y },
        ),
{
}

/// The IME handles an event exactly when the IM library consumed it, or it
/// is a key press or release and the input context has been created; in the
/// latter case the event goes to that context.
pub proof fn lemma_handled_iff_consumed_or_forwarded(
    s: ImeView,
    filtered: bool,
    response_type: u8,
    win: u32,
)
    ensures
        ({
            let a = step_event(s, filtered, response_type, win).1;
            (a is Forward || a is Consumed) <==> (filtered || ((response_type % 128 == 2 || response_type % 128 == 3)
                && s.ic is Some && s.ic->0.ic != 0))
        }),
        step_event(s, filtered, response_type, win).1 is Forward ==> !filtered && step_event(
            s,
            filtered,
            response_type,
            win,
        ).1->ic == s.ic->0.ic,
{
}

/// An event sent by `SendEvent` is decided as the same event sent by the
/// X server.
pub proof fn lemma_send_event_bit_ignored(s: ImeView, filtered: bool, response_type: u8, win: u32)
    ensures
        step_event(s, filtered, response_type | 0x80, win) == step_event(
            s,
            filtered,
            response_type & 0x7f,
            win,
        ),
{
    assert(((response_type | 0x80) % 128) == (response_type % 128)) by (bit_vector);
    assert(((response_type & 0x7f) % 128) == (response_type % 128)) by (bit_vector);
}

/// An event that the IM library consumed is handled by the IME and changes
/// nothing more.
pub proof fn lemma_consumed_events_handled(s: ImeView, response_type: u8, win: u32)
    ensures
        step_event(s, true, response_type, win) == (s, EventAction::Consumed),
{
}

/// Any other event that is not a key press (code 2) or a key release (code
/// 3), once the bit of `SendEvent` (`0x80`) is cleared, changes nothing and
/// is left to the application: no request is sent and no connection opened.
pub proof fn lemma_other_events_inert(s: ImeView, response_type: u8, win: u32)
    requires
        response_type % 128 != 2,
        response_type % 128 != 3,
    ensures
        step_event(s, false, response_type, win) == (s, EventAction::Ignore),
{
}

/// The connection to the IM server is opened only by a key event while the
/// client has no input context, and the new context serves the event's
/// window; once the client has a context, no event changes it.
pub proof fn lemma_open_only_without_ic(s: ImeView, filtered: bool, response_type: u8, win: u32)
    ensures
        step_event(s, filtered, response_type, win).1 is OpenIm ==> s.ic is None && step_event(
            s,
            filtered,
            response_type,
            win,
        ).0.ic == Some(Ic { win, ic: 0 }),
        s.ic is Some ==> step_event(s, filtered, response_type, win).0 == s,
{
}

/// While the IM server has not yet created the input context, key events are
/// left to the application and change nothing.
pub proof fn lemma_pending_ic_drops_key_events(s: ImeView, response_type: u8, win: u32)
    requires
        s.ic is Some,
        s.ic->0.ic == 0,
    ensures
        step_event(s, false, response_type, win) == (s, EventAction::Ignore),
{
}

/// When opening the connection fails, the client is back where it was, so that
/// the next key event tries again.
pub proof fn lemma_failed_open_restores(s: ImeView, response_type: u8, win: u32)
    requires
        s.ic is None,
        response_type % 128 == 2 || response_type % 128 == 3,
    ensures
        step_event(s, false, response_type, win).1 == (EventAction::OpenIm { win }),
        step_open_finished(step_event(s, false, response_type, win).0, false) == s,
        step_event(step_open_finished(step_event(s, false, response_type, win).0, false), false, response_type, win)
            == step_event(s, false, response_type, win),
{
}

/// Once the IM server has created the input context, key events go to it and
/// the IME handles them.
pub proof fn lemma_created_ic_receives_keys(s: ImeView, new_ic: u16, response_type: u8, win: u32)
    requires
        s.ic is Some,
        new_ic != 0,
        response_type % 128 == 2 || response_type % 128 == 3,
    ensures
        step_event(step_ic_created(s, new_ic), false, response_type, win) == (
            step_ic_created(s, new_ic),
            EventAction::Forward { ic: new_ic },
        ),
        step_ic_created(s, new_ic).ic == Some(Ic { win: s.ic->0.win, ic: new_ic }),
{
}

/// The full round: the first key event opens the connection for its window,
/// the server creates the context, and the next key event goes to it.
pub proof fn lemma_first_key_opens_then_forwards(
    s: ImeView,
    first: u8,
    win: u32,
    new_ic: u16,
    next: u8,
    next_win: u32,
)
    requires
        s.ic is None,
        first % 128 == 2 || first % 128 == 3,
        next % 128 == 2 || next % 128 == 3,
        new_ic != 0,
    ensures
        ({
            let (s1, a1) = step_event(s, false, first, win);
            let s2 = step_ic_created(step_open_finished(s1, true), new_ic);
            let (s3, a3) = step_event(s2, false, next, next_win);
            &&& a1 == EventAction::OpenIm { win }
            &&& s2.ic == Some(Ic { win, ic: new_ic })
            &&& a3 == EventAction::Forward { ic: new_ic }
            &&& s3 == s2
        }),
{
}

/// No step changes the input style that the client was made with.
pub proof fn lemma_input_style_kept(
    s: ImeView,
    filtered: bool,
    response_type: u8,
    win: u32,
    x: i16,
    y: i16,
    opened: bool,
    new_ic: u16,
)
    ensures
        step_event(s, filtered, response_type, win).0.input_style == s.input_style,
        step_update_pos(s, win, x, y).0.input_style == s.input_style,
        step_open_finished(s, opened).input_style == s.input_style,
        step_ic_created(s, new_ic).input_style == s.input_style,
{
}

/// The key events are exactly those whose code, once the bit of `SendEvent`
/// is cleared, is 2 (`KeyPress`) or 3 (`KeyRelease`).
pub proof fn lemma_key_event_codes(response_type: u8)
    ensures
        is_key_event(response_type) <==> (response_type % 128 == 2 || response_type % 128 == 3),
        is_key_event(response_type) <==> ((response_type & 0x7f) == 2 || (response_type & 0x7f)
            == 3),
{
    assert((response_type & 0x7f) == response_type % 128) by (bit_vector);
}

/// A key event before any input context opens the connection for the
/// event's window, whatever the event's other bits.
pub proof fn lemma_key_event_without_ic_opens(s: ImeView, response_type: u8, win: u32)
    requires
        s.ic is None,
        response_type % 128 == 2 || response_type % 128 == 3,
    ensures
        step_event(s, false, response_type, win) == (
            ImeView { ic: Some(Ic { win, ic: 0 }), input_style: s.input_style },
            EventAction::OpenIm { win },
        ),
{
}

/// A successful open keeps the state; creating the context keeps its window
/// and records the handle.
pub proof fn lemma_open_and_create(s: ImeView, new_ic: u16)
    requires
        s.ic is Some,
    ensures
        step_open_finished(s, true) == s,
        step_ic_created(s, new_ic) == (ImeView {
            ic: Some(Ic { win: s.ic->0.win, ic: new_ic }),
            input_style: s.input_style,
        }),
{
}

} // verus!
