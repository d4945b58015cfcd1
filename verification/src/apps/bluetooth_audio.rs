//! The Bluetooth audio app: connect to a target device, pick the audio
//! output, and toggle the headphone link, with three on-screen buttons.
use vstd::prelude::*;

use crate::apps::common::{AppResult, W};
use crate::ui::{text_or, utf8_text_or, Color};
use vstd::string::StringSliceAdditionalSpecFns;

verus! {

/// Left edge of the buttons.
pub const BTN_X: i32 = 30;

/// Width of the buttons.
pub const BTN_W: i32 = W - BTN_X * 2;

/// Height of a button.
pub const BTN_H: i32 = 56;

/// Vertical gap between two buttons.
pub const BTN_GAP: i32 = 12;

/// Top of the first button.
pub const BTN_Y0: i32 = 150;

/// Bytes of the target label that the app keeps.
pub const TARGET_CAPACITY: usize = 18;

/// Where the app sends audio.
#[derive(Clone, Copy, Debug, PartialEq, Eq, Structural)]
pub enum OutputMode {
    /// Headphones when they are linked, the speaker otherwise.
    Auto,
    Speaker,
    Headphones,
}

/// The mode that the output button selects after `m`.
pub open spec fn next_output_mode(m: OutputMode) -> OutputMode {
    match m {
        OutputMode::Auto => OutputMode::Speaker,
        OutputMode::Speaker => OutputMode::Headphones,
        OutputMode::Headphones => OutputMode::Auto,
    }
}

/// The state of the app as its users see it.
pub struct BtAudioState {
    pub connected: bool,
    pub connecting: bool,
    /// Bytes of the target label.
    pub target: Seq<u8>,
    pub output_mode: OutputMode,
    pub headphones_connected: bool,
    /// A connection was asked for and not yet taken.
    pub request_connect: bool,
    /// A disconnection was asked for and not yet taken.
    pub request_disconnect: bool,
}

/// Top edge of button `idx` (0: connect, 1: output, 2: headphone link).
pub open spec fn button_top(idx: int) -> int {
    BTN_Y0 + idx * (BTN_H + BTN_GAP)
}

/// The point lies on button `idx`, edges included.
pub open spec fn on_button(x: int, y: int, idx: int) -> bool {
    BTN_X <= x <= BTN_X + BTN_W && button_top(idx) <= y <= button_top(idx) + BTN_H
}

impl BtAudioState {
    /// What holds of every state the app can be in.
    pub open spec fn wf(self) -> bool {
        &&& self.target.len() <= TARGET_CAPACITY
        &&& !(self.connected && self.connecting)
    }

    /// A tap on the connect button: disconnects when connected or
    /// connecting, starts connecting otherwise.
    pub open spec fn tap_connect(self) -> BtAudioState {
        if self.connected || self.connecting {
            BtAudioState {
                request_disconnect: true,
                connecting: false,
                connected: false,
                ..self
            }
        } else {
            BtAudioState { request_connect: true, connecting: true, ..self }
        }
    }

    /// A tap on the output button: the next output mode.
    pub open spec fn tap_output(self) -> BtAudioState {
        BtAudioState { output_mode: next_output_mode(self.output_mode), ..self }
    }

    /// A tap on the headphone link button: the link flips.
    pub open spec fn tap_headphones(self) -> BtAudioState {
        BtAudioState { headphones_connected: !self.headphones_connected, ..self }
    }

    /// The state after a tap at `(x, y)`: the first button under it acts.
    pub open spec fn tap(self, x: int, y: int) -> BtAudioState {
        if on_button(x, y, 0) {
            self.tap_connect()
        } else if on_button(x, y, 1) {
            self.tap_output()
        } else if on_button(x, y, 2) {
            self.tap_headphones()
        } else {
            self
        }
    }

    /// Text of the output that audio goes to now.
    pub open spec fn route_label(self) -> Seq<char> {
        match self.output_mode {
            OutputMode::Auto => if self.headphones_connected {
                "HEADPHONES (AMP)"@
            } else {
                "SPEAKER"@
            },
            OutputMode::Speaker => "SPEAKER"@,
            OutputMode::Headphones => "HEADPHONES (AMP)"@,
        }
    }
}

/// The Bluetooth audio app.
pub struct BluetoothAudioApp {
    connected: bool,
    connecting: bool,
    target_label: [u8; 18],
    target_len: usize,
    output_mode: OutputMode,
    headphones_connected: bool,
    request_connect: bool,
    request_disconnect: bool,
}

impl View for BluetoothAudioApp {
    type V = BtAudioState;

    closed spec fn view(&self) -> BtAudioState {
        BtAudioState {
            connected: self.connected,
            connecting: self.connecting,
            target: self.target_label@.subrange(0, self.target_len as int),
            output_mode: self.output_mode,
            headphones_connected: self.headphones_connected,
            request_connect: self.request_connect,
            request_disconnect: self.request_disconnect,
        }
    }
}

/// What the Bluetooth audio screen shows that depends on the state.
pub struct BtAudioScreen {
    /// The target device, below the title.
    pub target: String,
    /// Connection status line.
    pub status: &'static str,
    pub status_color: Color,
    /// Label and background of the connect button.
    pub connect_label: &'static str,
    pub connect_bg: Color,
    /// Label of the output button.
    pub output_label: &'static str,
    /// Label and background of the headphone link button.
    pub headphones_label: &'static str,
    pub headphones_bg: Color,
    /// The active route, near the bottom.
    pub route: &'static str,
}

impl BluetoothAudioApp {
    #[verifier::type_invariant]
    spec fn inv(&self) -> bool {
        &&& self.target_len <= TARGET_CAPACITY
        &&& !(self.connected && self.connecting)
    }

    /// A disconnected app whose target reads `--:--:--:--:--:--`, output
    /// on auto, headphones unlinked, nothing requested.
    pub fn new() -> (res: Self)
        ensures
            res@.wf(),
            res@ == (BtAudioState {
                connected: false,
                connecting: false,
                target: seq![45u8, 45, 58, 45, 45, 58, 45, 45, 58, 45, 45, 58, 45, 45, 58, 45, 45],
                output_mode: OutputMode::Auto,
                headphones_connected: false,
                request_connect: false,
                request_disconnect: false,
            }),
    {
        let res = Self {
            connected: false,
            connecting: false,
            // "--:--:--:--:--:--" and one spare byte
            target_label: [45, 45, 58, 45, 45, 58, 45, 45, 58, 45, 45, 58, 45, 45, 58, 45, 45, 0],
            target_len: 17,
            output_mode: OutputMode::Auto,
            headphones_connected: false,
            request_connect: false,
            request_disconnect: false,
        };
        assert(res@.target =~= seq![45u8, 45, 58, 45, 45, 58, 45, 45, 58, 45, 45, 58, 45, 45, 58, 45, 45]);
        res
    }

    /// Sets the target label to the first bytes of `label`, at most
    /// [`TARGET_CAPACITY`] of them.
    pub fn set_target_label(&mut self, label: &str)
        ensures
            final(self)@.wf(),
            final(self)@ == (BtAudioState {
                target: label.spec_bytes().take(
                    if label.spec_bytes().len() < TARGET_CAPACITY {
                        label.spec_bytes().len() as int
                    } else {
                        TARGET_CAPACITY as int
                    },
                ),
                ..old(self)@
            }),
    {
        proof {
            use_type_invariant(&*self);
        }
        let bytes = label.as_bytes();
        let len = if bytes.len() < TARGET_CAPACITY {
            bytes.len()
        } else {
            TARGET_CAPACITY
        };
        let mut buf = self.target_label;
        let mut k: usize = 0;
        while k < len
            invariant
                k <= len <= TARGET_CAPACITY,
                len <= bytes@.len(),
                buf@.len() == 18,
                forall|j: int| 0 <= j < k ==> #[trigger] buf@[j] == bytes@[j],
            decreases len - k,
        {
            buf[k] = bytes[k];
            k += 1;
        }
        self.target_label = buf;
        self.target_len = len;
        assert(self@.target =~= label.spec_bytes().take(len as int));
    }

    /// Records the link state reported by the radio; any connection
    /// attempt is over.
    pub fn set_connected(&mut self, connected: bool)
        ensures
            final(self)@.wf(),
            final(self)@ == (BtAudioState { connected, connecting: false, ..old(self)@ }),
    {
        proof {
            use_type_invariant(&*self);
        }
        self.connecting = false;
        self.connected = connected;
    }

    pub fn output_mode(&self) -> (res: OutputMode)
        ensures
            res == self@.output_mode,
    {
        self.output_mode
    }

    pub fn headphones_connected(&self) -> (res: bool)
        ensures
            res == self@.headphones_connected,
    {
        self.headphones_connected
    }

    /// Whether a connection was asked for since the last call; clears the
    /// request.
    pub fn take_connect_request(&mut self) -> (res: bool)
        ensures
            final(self)@.wf(),
            res == old(self)@.request_connect,
            final(self)@ == (BtAudioState { request_connect: false, ..old(self)@ }),
    {
        proof {
            use_type_invariant(&*self);
        }
        let req = self.request_connect;
        self.request_connect = false;
        req
    }

    /// Whether a disconnection was asked for since the last call; clears
    /// the request.
    pub fn take_disconnect_request(&mut self) -> (res: bool)
        ensures
            final(self)@.wf(),
            res == old(self)@.request_disconnect,
            final(self)@ == (BtAudioState { request_disconnect: false, ..old(self)@ }),
    {
        proof {
            use_type_invariant(&*self);
        }
        let req = self.request_disconnect;
        self.request_disconnect = false;
        req
    }

    /// Acts on a tap at `(x, y)`: the connect, output or headphone button
    /// under it, if any.
    pub fn handle_tap(&mut self, x: u16, y: u16)
        ensures
            final(self)@.wf(),
            final(self)@ == old(self)@.tap(x as int, y as int),
    {
        proof {
            use_type_invariant(&*self);
        }
        let xi = x as i32;
        let yi = y as i32;
        let mut idx: i32 = 0;
        while idx < 3
            invariant
                0 <= idx <= 3,
                xi == x,
                yi == y,
                self@ == old(self)@,
                forall|j: int| 0 <= j < idx ==> !on_button(xi as int, yi as int, j),
            decreases 3 - idx,
        {
            proof {
                use_type_invariant(&*self);
            }
            let by = BTN_Y0 + idx * (BTN_H + BTN_GAP);
            if xi >= BTN_X && xi <= BTN_X + BTN_W && yi >= by && yi <= by + BTN_H {
                if idx == 0 {
                    if self.connected || self.connecting {
                        self.request_disconnect = true;
                        self.connecting = false;
                        self.connected = false;
                    } else {
                        self.request_connect = true;
                        self.connecting = true;
                    }
                } else if idx == 1 {
                    self.output_mode = match self.output_mode {
                        OutputMode::Auto => OutputMode::Speaker,
                        OutputMode::Speaker => OutputMode::Headphones,
                        OutputMode::Headphones => OutputMode::Auto,
                    };
                } else {
                    self.headphones_connected = !self.headphones_connected;
                }
                return;
            }
            idx += 1;
        }
    }

    /// The target label as text, or `--` where its bytes are not valid
    /// UTF-8.
    fn target_str(&self) -> (res: String)
        ensures
            res@ == text_or(self@.target, "--"@),
    {
        proof {
            use_type_invariant(self);
        }
        let mut v: Vec<u8> = Vec::new();
        let mut k: usize = 0;
        while k < self.target_len
            invariant
                k <= self.target_len <= TARGET_CAPACITY,
                v@ == self.target_label@.subrange(0, k as int),
            decreases self.target_len - k,
        {
            v.push(self.target_label[k]);
            k += 1;
            assert(v@ =~= self.target_label@.subrange(0, k as int));
        }
        utf8_text_or(v.as_slice(), "--")
    }

    /// The output that audio goes to now.
    pub fn active_output_label(&self) -> (res: &'static str)
        ensures
            res@ == self@.route_label(),
    {
        match self.output_mode {
            OutputMode::Auto => {
                if self.headphones_connected {
                    "HEADPHONES (AMP)"
                } else {
                    "SPEAKER"
                }
            },
            OutputMode::Speaker => "SPEAKER",
            OutputMode::Headphones => "HEADPHONES (AMP)",
        }
    }

    pub fn name(&self) -> (res: &'static str)
        ensures
            res@ == "Bluetooth Audio"@,
    {
        "Bluetooth Audio"
    }

    /// Drops requests left from an earlier session.
    pub fn setup(&mut self)
        ensures
            final(self)@.wf(),
            final(self)@ == (BtAudioState {
                request_connect: false,
                request_disconnect: false,
                ..old(self)@
            }),
    {
        proof {
            use_type_invariant(&*self);
        }
        self.request_connect = false;
        self.request_disconnect = false;
    }

    /// Nothing changes from frame to frame: the app reacts to taps only.
    pub fn update(&mut self) -> (res: AppResult)
        ensures
            final(self)@ == old(self)@,
            res == AppResult::Continue,
    {
        AppResult::Continue
    }

    /// What the screen shows for the current state.
    pub fn screen(&self) -> (res: BtAudioScreen)
        ensures
            res.target@ == text_or(self@.target, "--"@),
            res.status@ == (if self@.connected {
                "CONNECTED"@
            } else if self@.connecting {
                "CONNECTING..."@
            } else {
                "DISCONNECTED"@
            }),
            res.status_color == (if self@.connected {
                Color::Green
            } else {
                Color::Yellow
            }),
            res.connect_label@ == (if self@.connected || self@.connecting {
                "DISCONNECT"@
            } else {
                "CONNECT"@
            }),
            res.connect_bg == (if self@.connected || self@.connecting {
                Color::Rgb(16, 4, 2)
            } else {
                Color::Rgb(2, 12, 20)
            }),
            res.output_label@ == (match self@.output_mode {
                OutputMode::Auto => "OUTPUT: AUTO"@,
                OutputMode::Speaker => "OUTPUT: SPEAKER"@,
                OutputMode::Headphones => "OUTPUT: HEADPHONES"@,
            }),
            res.headphones_label@ == (if self@.headphones_connected {
                "HP LINK: ON"@
            } else {
                "HP LINK: OFF"@
            }),
            res.headphones_bg == (if self@.headphones_connected {
                Color::Rgb(2, 16, 6)
            } else {
                Color::Rgb(6, 6, 6)
            }),
            res.route@ == self@.route_label(),
    {
        let busy = self.connected || self.connecting;
        BtAudioScreen {
            target: self.target_str(),
            status: if self.connected {
                "CONNECTED"
            } else if self.connecting {
                "CONNECTING..."
            } else {
                "DISCONNECTED"
            },
            status_color: if self.connected {
                Color::Green
            } else {
                Color::Yellow
            },
            connect_label: if busy {
                "DISCONNECT"
            } else {
                "CONNECT"
            },
            connect_bg: if busy {
                Color::Rgb(16, 4, 2)
            } else {
                Color::Rgb(2, 12, 20)
            },
            output_label: match self.output_mode {
                OutputMode::Auto => "OUTPUT: AUTO",
                OutputMode::Speaker => "OUTPUT: SPEAKER",
                OutputMode::Headphones => "OUTPUT: HEADPHONES",
            },
            headphones_label: if self.headphones_connected {
                "HP LINK: ON"
            } else {
                "HP LINK: OFF"
            },
            headphones_bg: if self.headphones_connected {
                Color::Rgb(2, 16, 6)
            } else {
                Color::Rgb(6, 6, 6)
            },
            route: self.active_output_label(),
        }
    }
}

/// The output button goes through its three modes: three taps on it give
/// back the state they started from.
pub proof fn lemma_output_button_cycles(s: BtAudioState, x: int, y: int)
    requires
        on_button(x, y, 1),
    ensures
        s.tap(x, y).tap(x, y).tap(x, y) == s,
{
}

/// Two taps on the headphone link button give back the state they
/// started from.
pub proof fn lemma_headphone_button_flips_back(s: BtAudioState, x: int, y: int)
    requires
        on_button(x, y, 2),
    ensures
        s.tap(x, y).tap(x, y) == s,
{
}

/// From a disconnected, idle app, a tap on the connect button starts a
/// connection and asks for it; a second tap cancels it and asks for a
/// disconnection, leaving the app disconnected and idle again.
pub proof fn lemma_connect_button_round_trip(s: BtAudioState, x: int, y: int)
    requires
        s.wf(),
        !s.connected,
        !s.connecting,
        on_button(x, y, 0),
    ensures
        s.tap(x, y).connecting,
        s.tap(x, y).request_connect,
        s.tap(x, y).tap(x, y) == (BtAudioState {
            request_connect: true,
            request_disconnect: true,
            ..s
        }),
{
}

/// A tap never leaves the app both connected and connecting, and a tap on
/// the connect button always leaves it disconnected or connecting.
pub proof fn lemma_tap_keeps_wf(s: BtAudioState, x: int, y: int)
    requires
        s.wf(),
    ensures
        s.tap(x, y).wf(),
        on_button(x, y, 0) ==> !s.tap(x, y).connected,
{
}

/// The route follows the output mode: in Headphones mode it is the
/// headphones and in Speaker mode the speaker, whatever the headphone link;
/// only in Auto mode does the link choose.
pub proof fn lemma_route_follows_mode(s: BtAudioState)
    ensures
        s.output_mode == OutputMode::Headphones ==> s.route_label() == "HEADPHONES (AMP)"@,
        s.output_mode == OutputMode::Speaker ==> s.route_label() == "SPEAKER"@,
        s.output_mode == OutputMode::Auto ==> s.route_label() == (if s.headphones_connected {
            "HEADPHONES (AMP)"@
        } else {
            "SPEAKER"@
        }),
        s.output_mode != OutputMode::Auto ==> s.route_label() == (BtAudioState {
            headphones_connected: !s.headphones_connected,
            ..s
        }).route_label(),
{
}

} // verus!
