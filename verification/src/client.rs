use vstd::prelude::*;
use crate::style::InputStyle;

verus! {

/// Event code of `KeyPress` in the X protocol.
pub const XCB_KEY_PRESS: u8 = 2;

/// Event code of `KeyRelease` in the X protocol.
pub const XCB_KEY_RELEASE: u8 = 3;

/// The event code of a response type: the type without the bit that marks an
/// event sent by `SendEvent`.
pub open spec fn event_code(response_type: u8) -> u8 {
    (response_type % 128) as u8
}

/// Whether an event of this response type is a key press or a key release.
pub open spec fn is_key_event(response_type: u8) -> bool {
    event_code(response_type) == XCB_KEY_PRESS || event_code(response_type) == XCB_KEY_RELEASE
}

/// The input context of the client: the window it serves and the handle that
/// the IM server gave it. A handle of `0` means that the server has not yet
/// answered the request that creates the context.
#[derive(Clone, Copy, PartialEq, Eq, Structural, Debug)]
pub struct Ic {
    pub win: u32,
    pub ic: u16,
}

/// What the client knows: its input context, if it asked for one, and the bits
/// of the input style that it was made with.
pub struct ImeView {
    pub ic: Option<Ic>,
    pub input_style: u32,
}

/// What the caller must do once the client has decided on an event.
#[derive(Clone, Copy, PartialEq, Eq, Structural, Debug)]
pub enum EventAction {
    /// Nothing: the event is not for the IME, and the caller handles it.
    Ignore,
    /// Nothing more: the IM library consumed the event already as part of
    /// the protocol with the IM server; the IME handles it.
    Consumed,
    /// Hand the event to the IM server for the input context `ic`; the IME
    /// consumes it.
    Forward { ic: u16 },
    /// Open the connection to the IM server on behalf of window `win`, then
    /// report the outcome with [`ImeClient::open_finished`]; the caller
    /// handles the event itself.
    OpenIm { win: u32 },
}

impl EventAction {
    /// Whether the IME handles the event, so that the caller need not.
    pub fn handled(&self) -> (r: bool)
        ensures
            r <==> (self is Forward || self is Consumed),
    {
        match self {
            EventAction::Forward { .. } => true,
            EventAction::Consumed => true,
            _ => false,
        }
    }
}

/// The changes to the values of the input context that a move of the IME
/// window needs: always the spot location, and the client and focus window
/// where the window changed.
#[derive(Clone, Copy, PartialEq, Eq, Structural, Debug)]
pub struct IcValues {
    pub ic: u16,
    pub window: Option<u32>,
    pub spot_x: i16,
    pub spot_y: i16,
}

/// The values of the request that creates the input context.
#[derive(Clone, Copy, PartialEq, Eq, Structural, Debug)]
pub struct CreateIcRequest {
    pub input_style: u32,
    pub client_window: u32,
    pub focus_window: u32,
    pub spot_x: i16,
    pub spot_y: i16,
}

/// The client's state and what an event does to it, and the action it asks for.
pub open spec fn step_event(s: ImeView, filtered: bool, response_type: u8, win: u32) -> (
    ImeView,
    EventAction,
) {
    if filtered {
        (s, EventAction::Consumed)
    } else if !is_key_event(response_type) {
        (s, EventAction::Ignore)
    } else {
        match s.ic {
            Some(ic) => if ic.ic == 0 {
                (s, EventAction::Ignore)
            } else {
                (s, EventAction::Forward { ic: ic.ic })
            },
            None => (
                ImeView { ic: Some(Ic { win, ic: 0 }), input_style: s.input_style },
                EventAction::OpenIm { win },
            ),
        }
    }
}

/// What a move of the IME window to `(x, y)` relative to `win` does to the
/// client's state, and the values it sends to the IM server, if any.
pub open spec fn step_update_pos(s: ImeView, win: u32, x: i16, y: i16) -> (
    ImeView,
    Option<IcValues>,
) {
    match s.ic {
        Some(ic) => if ic.ic != 0 {
            (
                ImeView { ic: Some(Ic { win, ic: ic.ic }), input_style: s.input_style },
                Some(
                    IcValues {
                        ic: ic.ic,
                        window: if win != ic.win {
                            Some(win)
                        } else {
                            None
                        },
                        spot_x: x,
                        spot_y: y,
                    },
                ),
            )
        } else {
            (s, None)
        },
        None => (s, None),
    }
}

/// The client's state once the attempt to open the connection to the IM
/// server has ended: a failed attempt gives up the input context.
pub open spec fn step_open_finished(s: ImeView, opened: bool) -> ImeView {
    if opened {
        s
    } else {
        ImeView { ic: None, input_style: s.input_style }
    }
}

/// The client's state once the IM server has created its input context with
/// handle `new_ic`.
pub open spec fn step_ic_created(s: ImeView, new_ic: u16) -> ImeView {
    match s.ic {
        Some(ic) => ImeView { ic: Some(Ic { win: ic.win, ic: new_ic }), input_style: s.input_style },
        None => s,
    }
}

/// The decisions of an input method client: when to open the connection to the
/// IM server, which key events go to it, and what a move of the IME window
/// sends. The calls into the IM library are the caller's; each method says
/// which one to make.
pub struct ImeClient {
    ic: Option<Ic>,
    input_style: InputStyle,
}

impl View for ImeClient {
    type V = ImeView;

    closed spec fn view(&self) -> ImeView {
        ImeView { ic: self.ic, input_style: self.input_style@ }
    }
}

impl ImeClient {
    /// A client with the given input style and no input context yet.
    pub fn new(input_style: InputStyle) -> (r: ImeClient)
        ensures
            r@.ic is None,
            r@.input_style == input_style@,
    {
        ImeClient { ic: None, input_style }
    }

    /// The input style that the client was made with.
    pub fn input_style(&self) -> (r: InputStyle)
        ensures
            r@ == self@.input_style,
    {
        self.input_style
    }

    /// The input context, if the client asked for one.
    pub fn ic(&self) -> (r: Option<Ic>)
        ensures
            r == self@.ic,
    {
        self.ic
    }

    /// Ask for an input context for window `win`, unless the client has one.
    /// Returns whether the caller must now open the connection to the IM
    /// server.
    pub fn try_open_ic(&mut self, win: u32) -> (r: bool)
        ensures
            r <==> old(self)@.ic is None,
            final(self)@.input_style == old(self)@.input_style,
            final(self)@.ic == (if r {
                Some(Ic { win, ic: 0 })
            } else {
                old(self)@.ic
            }),
    {
        if self.ic.is_some() {
            return false;
        }
        self.ic = Some(Ic { win, ic: 0 });
        true
    }

    /// Record the outcome of opening the connection to the IM server: where
    /// it failed, the input context is given up, so that the next key event
    /// tries again.
    pub fn open_finished(&mut self, opened: bool)
        ensures
            final(self)@ == step_open_finished(old(self)@, opened),
    {
        if !opened {
            self.ic = None;
        }
    }

    /// Decide on an event from the X server. `filtered` is whether the IM
    /// library consumed the event already; `win` is the window of the event,
    /// read only for key events. The action's [`EventAction::handled`] is
    /// what the client answers: `true` where the IME handles the event (it
    /// consumed it, or the event goes to the input context), `false` where
    /// the application must handle it.
    pub fn process_event(&mut self, filtered: bool, response_type: u8, win: u32) -> (r:
        EventAction)
        ensures
            (final(self)@, r) == step_event(old(self)@, filtered, response_type, win),
    {
        if filtered {
            return EventAction::Consumed;
        } else {
            let mask: u8 = response_type & 0x7f;
            proof {
                assert(response_type & 0x7f == response_type % 128) by (bit_vector);
            }
            if mask == XCB_KEY_PRESS || mask == XCB_KEY_RELEASE {
                match &self.ic {
                    Some(ic) => {
                        if ic.ic == 0 {
                            return EventAction::Ignore;
                        }
                        return EventAction::Forward { ic: ic.ic };
                    },
                    None => {
                        let opening = self.try_open_ic(win);
                        assert(opening);
                        return EventAction::OpenIm { win };
                    },
                }
            }
        }
        EventAction::Ignore
    }

    /// Move the IME window to `(x, y)` relative to window `win`. Returns the
    /// values to send to the IM server, or `None` where the input context
    /// does not exist yet and nothing can be sent.
    pub fn update_pos(&mut self, win: u32, x: i16, y: i16) -> (r: Option<IcValues>)
        ensures
            (final(self)@, r) == step_update_pos(old(self)@, win, x, y),
    {
        match self.ic {
            Some(ic) => {
                if ic.ic != 0 {
                    let window = if win != ic.win {
                        Some(win)
                    } else {
                        None
                    };
                    self.ic = Some(Ic { win, ic: ic.ic });
                    Some(IcValues { ic: ic.ic, window, spot_x: x, spot_y: y })
                } else {
                    None
                }
            },
            None => None,
        }
    }

    /// The request that creates the input context, once the connection to the
    /// IM server is open: the client's input style, its window as client and
    /// focus window, and the spot at the window's origin.
    pub fn create_ic_request(&self) -> (r: CreateIcRequest)
        requires
            self@.ic is Some,
        ensures
            r == (CreateIcRequest {
                input_style: self@.input_style,
                client_window: self@.ic->0.win,
                focus_window: self@.ic->0.win,
                spot_x: 0,
                spot_y: 0,
            }),
    {
        let win = match self.ic {
            Some(ic) => ic.win,
            None => 0,
        };
        CreateIcRequest {
            input_style: self.input_style.bits(),
            client_window: win,
            focus_window: win,
            spot_x: 0,
            spot_y: 0,
        }
    }

    /// Record the handle of the input context that the IM server created.
    /// The caller then gives the context the input focus.
    pub fn ic_created(&mut self, new_ic: u16)
        requires
            old(self)@.ic is Some,
        ensures
            final(self)@ == step_ic_created(old(self)@, new_ic),
    {
        if let Some(ic) = self.ic {
            self.ic = Some(Ic { win: ic.win, ic: new_ic });
        }
    }

    /// The window that the callbacks receive: the one that the input
    /// context serves, as last set by [`ImeClient::update_pos`].
    pub fn callback_window(&self) -> (r: u32)
        requires
            self@.ic is Some,
        ensures
            r == self@.ic->0.win,
    {
        match self.ic {
            Some(ic) => ic.win,
            None => 0,
        }
    }
}

} // verus!
