//! The settings app: radio switches, CPU clock, brightness, wallpaper,
//! a manual clock, and a shortcut to the gyroscope app, as rows that react
//! to taps. Each change the hardware has to carry out is left as a request
//! that the firmware takes once.
use vstd::prelude::*;

use crate::apps::common::W;
use crate::ui::{decimal_value, is_decimal_text, lemma_decimal_value_small, text_or, utf8_text_or, Color};

verus! {

/// Left edge of the rows.
pub const X: i32 = 14;

/// Width of a row.
pub const ROW_W: i32 = W - 28;

/// Height of a row.
pub const ROW_H: i32 = 34;

/// Vertical gap between two rows.
pub const GAP: i32 = 6;

/// Tops of the rows, from the top of the screen down.
pub const ROW_WIFI: i32 = 58;

pub const ROW_BLE: i32 = ROW_WIFI + (ROW_H + GAP);

pub const ROW_CPU: i32 = ROW_BLE + (ROW_H + GAP);

pub const ROW_BRI: i32 = ROW_CPU + (ROW_H + GAP);

pub const ROW_WALL: i32 = ROW_BRI + (ROW_H + GAP);

pub const ROW_TIME: i32 = ROW_WALL + (ROW_H + GAP);

pub const ROW_BTN: i32 = ROW_TIME + (ROW_H + GAP);

pub const ROW_GYRO: i32 = ROW_BTN + (ROW_H + GAP);

/// The state of the app as its users see it.
pub struct SettingsState {
    pub wifi_on: bool,
    pub ble_on: bool,
    pub cpu_mhz: u16,
    pub brightness: u8,
    /// The clock as set by hand.
    pub manual_hour: u8,
    pub manual_minute: u8,
    /// The clock was changed by hand and not yet applied.
    pub manual_dirty: bool,
    pub wallpaper_names: Seq<String>,
    pub wallpaper_index: usize,
    /// Requests not yet taken by the firmware.
    pub req_wifi_toggle: bool,
    pub req_ble_toggle: bool,
    pub req_cpu_cycle: bool,
    pub req_brightness: Option<u8>,
    pub req_apply_time: bool,
    pub req_open_gyro: bool,
    pub req_wallpaper: Option<usize>,
}

/// The row with top `row_top` holds height `y`.
pub open spec fn in_row(y: int, row_top: int) -> bool {
    row_top <= y < row_top + ROW_H
}

/// Height `y` falls on one of the eight rows.
pub open spec fn on_some_row(y: int) -> bool {
    ||| in_row(y, ROW_WIFI as int)
    ||| in_row(y, ROW_BLE as int)
    ||| in_row(y, ROW_CPU as int)
    ||| in_row(y, ROW_BRI as int)
    ||| in_row(y, ROW_WALL as int)
    ||| in_row(y, ROW_TIME as int)
    ||| in_row(y, ROW_BTN as int)
    ||| in_row(y, ROW_GYRO as int)
}

/// The CPU clock after `mhz` in the cycle 80, 160, 240 MHz; any other
/// clock goes to 80 MHz.
pub open spec fn next_cpu_mhz(mhz: u16) -> u16 {
    if mhz == 80 {
        160
    } else if mhz == 160 {
        240
    } else {
        80
    }
}

/// Brightness after a tap on its row: 16 steps down on the left half (not
/// below 16), 16 steps up on the right half (not above 255).
pub open spec fn next_brightness(b: u8, x: int) -> u8 {
    if x < W / 2 {
        if b < 32 {
            16
        } else {
            (b - 16) as u8
        }
    } else {
        if b > 239 {
            255
        } else {
            (b + 16) as u8
        }
    }
}

impl SettingsState {
    /// What holds of every state the app can be in: the manual clock is a
    /// time of day, and the wallpaper index names a wallpaper (0 when there
    /// is none).
    pub open spec fn wf(self) -> bool {
        &&& self.manual_hour < 24
        &&& self.manual_minute < 60
        &&& self.wallpaper_names.len() <= usize::MAX
        &&& self.wallpaper_names.len() == 0 ==> self.wallpaper_index == 0
        &&& self.wallpaper_names.len() > 0 ==> self.wallpaper_index
            < self.wallpaper_names.len()
    }

    /// The manual clock after a tap at `x` on its row: from left to right,
    /// hour down, hour up, minute down, minute up, wrapping around.
    pub open spec fn tap_time(self, x: int) -> SettingsState {
        if x < 145 {
            SettingsState {
                manual_dirty: true,
                manual_hour: ((self.manual_hour + 23) % 24) as u8,
                ..self
            }
        } else if x < 270 {
            SettingsState {
                manual_dirty: true,
                manual_hour: ((self.manual_hour + 1) % 24) as u8,
                ..self
            }
        } else if x < 340 {
            SettingsState {
                manual_dirty: true,
                manual_minute: ((self.manual_minute + 59) % 60) as u8,
                ..self
            }
        } else {
            SettingsState {
                manual_dirty: true,
                manual_minute: ((self.manual_minute + 1) % 60) as u8,
                ..self
            }
        }
    }

    /// The next wallpaper, wrapping around, and a request to show it;
    /// nothing where there is no wallpaper.
    pub open spec fn tap_wallpaper(self) -> SettingsState {
        if self.wallpaper_names.len() > 0 {
            let i = ((self.wallpaper_index + 1) % (self.wallpaper_names.len() as int)) as usize;
            SettingsState { wallpaper_index: i, req_wallpaper: Some(i), ..self }
        } else {
            self
        }
    }

    /// The state after a tap at `(x, y)`: the row under it acts.
    pub open spec fn tap(self, x: int, y: int) -> SettingsState {
        if in_row(y, ROW_WIFI as int) {
            SettingsState { req_wifi_toggle: true, wifi_on: !self.wifi_on, ..self }
        } else if in_row(y, ROW_BLE as int) {
            SettingsState { req_ble_toggle: true, ble_on: !self.ble_on, ..self }
        } else if in_row(y, ROW_CPU as int) {
            SettingsState { req_cpu_cycle: true, cpu_mhz: next_cpu_mhz(self.cpu_mhz), ..self }
        } else if in_row(y, ROW_BRI as int) {
            let b = next_brightness(self.brightness, x);
            SettingsState { brightness: b, req_brightness: Some(b), ..self }
        } else if in_row(y, ROW_WALL as int) {
            self.tap_wallpaper()
        } else if in_row(y, ROW_TIME as int) {
            self.tap_time(x)
        } else if in_row(y, ROW_BTN as int) {
            SettingsState { req_apply_time: true, ..self }
        } else if in_row(y, ROW_GYRO as int) {
            SettingsState { req_open_gyro: true, ..self }
        } else {
            self
        }
    }
}

/// Background of a switch row.
pub open spec fn row_bg(active: bool) -> Color {
    if active {
        Color::Rgb(2, 10, 12)
    } else {
        Color::Rgb(3, 4, 5)
    }
}

/// `HH:MM` as bytes, two digits each.
pub open spec fn hhmm_bytes(h: u8, m: u8) -> Seq<u8> {
    seq![
        (48 + h / 10) as u8,
        (48 + h % 10) as u8,
        58u8,
        (48 + m / 10) as u8,
        (48 + m % 10) as u8,
    ]
}

/// Brightness in percent of full, rounded down.
pub open spec fn percent(v: u8) -> int {
    (v * 100) / 255
}

/// The percentage of a brightness as bytes: its decimal digits, then `%`.
pub open spec fn pct_bytes(v: u8) -> Seq<u8> {
    let p = percent(v);
    (if p >= 100 {
        seq![49u8, 48, 48]
    } else if p >= 10 {
        seq![(48 + p / 10) as u8, (48 + p % 10) as u8]
    } else {
        seq![(48 + p) as u8]
    }) + seq![37u8]
}

/// The wallpapers and the one shown, kept together so that both change in
/// one step.
struct Wallpapers {
    names: Vec<String>,
    index: usize,
}

/// The settings app.
pub struct SettingsApp {
    wifi_on: bool,
    ble_on: bool,
    cpu_mhz: u16,
    brightness: u8,
    manual_hour: u8,
    manual_minute: u8,
    manual_dirty: bool,
    wallpapers: Wallpapers,
    req_wifi_toggle: bool,
    req_ble_toggle: bool,
    req_cpu_cycle: bool,
    req_brightness: Option<u8>,
    req_apply_time: bool,
    req_open_gyro: bool,
    req_wallpaper: Option<usize>,
}

impl View for SettingsApp {
    type V = SettingsState;

    closed spec fn view(&self) -> SettingsState {
        SettingsState {
            wifi_on: self.wifi_on,
            ble_on: self.ble_on,
            cpu_mhz: self.cpu_mhz,
            brightness: self.brightness,
            manual_hour: self.manual_hour,
            manual_minute: self.manual_minute,
            manual_dirty: self.manual_dirty,
            wallpaper_names: self.wallpapers.names@,
            wallpaper_index: self.wallpapers.index,
            req_wifi_toggle: self.req_wifi_toggle,
            req_ble_toggle: self.req_ble_toggle,
            req_cpu_cycle: self.req_cpu_cycle,
            req_brightness: self.req_brightness,
            req_apply_time: self.req_apply_time,
            req_open_gyro: self.req_open_gyro,
            req_wallpaper: self.req_wallpaper,
        }
    }
}

/// What the settings screen shows that depends on the state.
pub struct SettingsScreen {
    /// Value and background of the WiFi row.
    pub wifi: &'static str,
    pub wifi_bg: Color,
    /// Value and background of the Bluetooth row.
    pub ble: &'static str,
    pub ble_bg: Color,
    /// Value and background of the CPU row.
    pub cpu: &'static str,
    pub cpu_bg: Color,
    /// The brightness in percent.
    pub brightness: String,
    /// Name of the wallpaper shown.
    pub wallpaper: String,
    /// The manual clock.
    pub time: String,
}

/// `HH:MM` for a time of day.
fn fmt_hhmm(h: u8, m: u8) -> (res: Vec<u8>)
    requires
        h < 24,
        m < 60,
    ensures
        res@ == hhmm_bytes(h, m),
{
    let mut buf: Vec<u8> = Vec::new();
    buf.push(48 + h / 10);
    buf.push(48 + h % 10);
    buf.push(58);  // ':'
    buf.push(48 + m / 10);
    buf.push(48 + m % 10);
    assert(buf@ =~= hhmm_bytes(h, m));
    buf
}

/// The brightness as a percentage of full, e.g. `62%`.
fn fmt_pct(v: u8) -> (res: Vec<u8>)
    ensures
        res@ == pct_bytes(v),
{
    let pct: u8 = ((v as u16 * 100) / 255) as u8;
    let mut buf: Vec<u8> = Vec::new();
    if pct >= 100 {
        buf.push(49);  // '1'
        buf.push(48);  // '0'
        buf.push(48);  // '0'
    } else {
        if pct >= 10 {
            buf.push(48 + pct / 10);
        }
        buf.push(48 + pct % 10);
    }
    buf.push(37);  // '%'
    assert(buf@ =~= pct_bytes(v));
    buf
}

impl SettingsApp {
    #[verifier::type_invariant]
    spec fn inv(&self) -> bool {
        self@.wf()
    }

    /// Radios off, 160 MHz, brightness 0xA0, manual clock 12:00, no
    /// wallpapers, nothing requested.
    pub fn new() -> (res: Self)
        ensures
            res@.wf(),
            res@ == (SettingsState {
                wifi_on: false,
                ble_on: false,
                cpu_mhz: 160,
                brightness: 0xA0,
                manual_hour: 12,
                manual_minute: 0,
                manual_dirty: false,
                wallpaper_names: Seq::empty(),
                wallpaper_index: 0,
                req_wifi_toggle: false,
                req_ble_toggle: false,
                req_cpu_cycle: false,
                req_brightness: None,
                req_apply_time: false,
                req_open_gyro: false,
                req_wallpaper: None,
            }),
    {
        let res = Self {
            wifi_on: false,
            ble_on: false,
            cpu_mhz: 160,
            brightness: 0xA0,
            manual_hour: 12,
            manual_minute: 0,
            manual_dirty: false,
            wallpapers: Wallpapers { names: Vec::new(), index: 0 },
            req_wifi_toggle: false,
            req_ble_toggle: false,
            req_cpu_cycle: false,
            req_brightness: None,
            req_apply_time: false,
            req_open_gyro: false,
            req_wallpaper: None,
        };
        assert(res@.wallpaper_names =~= Seq::empty());
        res
    }

    /// Nothing changes with time alone.
    pub fn update(&mut self, _dt_ms: u32)
        ensures
            final(self)@ == old(self)@,
    {
    }

    /// Records the state of the hardware.
    pub fn set_runtime_state(&mut self, wifi_on: bool, ble_on: bool, cpu_mhz: u16, brightness: u8)
        ensures
            final(self)@.wf(),
            final(self)@ == (SettingsState { wifi_on, ble_on, cpu_mhz, brightness, ..old(self)@ }),
    {
        proof {
            use_type_invariant(&*self);
        }
        self.wifi_on = wifi_on;
        self.ble_on = ble_on;
        self.cpu_mhz = cpu_mhz;
        self.brightness = brightness;
    }

    /// Shows the current time on the manual clock (hour capped at 23,
    /// minute at 59), unless the manual clock was changed by hand and not
    /// yet applied.
    pub fn set_current_time(&mut self, hour: u8, minute: u8)
        ensures
            final(self)@.wf(),
            old(self)@.manual_dirty ==> final(self)@ == old(self)@,
            !old(self)@.manual_dirty ==> final(self)@ == (SettingsState {
                manual_hour: if hour < 23 {
                    hour
                } else {
                    23
                },
                manual_minute: if minute < 59 {
                    minute
                } else {
                    59
                },
                ..old(self)@
            }),
    {
        proof {
            use_type_invariant(&*self);
        }
        if !self.manual_dirty {
            self.manual_hour = if hour < 23 {
                hour
            } else {
                23
            };
            self.manual_minute = if minute < 59 {
                minute
            } else {
                59
            };
        }
    }

    /// Replaces the wallpapers; the index goes back to the first one where
    /// it is past the end.
    pub fn set_wallpaper_options(&mut self, names: Vec<String>)
        ensures
            final(self)@.wf(),
            final(self)@ == (SettingsState {
                wallpaper_names: names@,
                wallpaper_index: if old(self)@.wallpaper_index >= names@.len() {
                    0
                } else {
                    old(self)@.wallpaper_index
                },
                ..old(self)@
            }),
    {
        proof {
            use_type_invariant(&*self);
        }
        let index = if self.wallpapers.index >= names.len() {
            0
        } else {
            self.wallpapers.index
        };
        self.wallpapers = Wallpapers { names, index };
    }

    /// Shows wallpaper `idx`, or the last one where `idx` is past the end
    /// (0 when there is none). No request is made.
    pub fn set_wallpaper_index(&mut self, idx: usize)
        ensures
            final(self)@.wf(),
            final(self)@ == (SettingsState {
                wallpaper_index: if old(self)@.wallpaper_names.len() == 0 {
                    0
                } else if idx < old(self)@.wallpaper_names.len() {
                    idx
                } else {
                    (old(self)@.wallpaper_names.len() - 1) as usize
                },
                ..old(self)@
            }),
    {
        proof {
            use_type_invariant(&*self);
        }
        if self.wallpapers.names.len() == 0 {
            self.wallpapers.index = 0;
            return;
        }
        self.wallpapers.index = if idx < self.wallpapers.names.len() {
            idx
        } else {
            self.wallpapers.names.len() - 1
        };
    }

    pub fn wallpaper_index(&self) -> (res: usize)
        ensures
            res == self@.wallpaper_index,
    {
        self.wallpapers.index
    }

    /// The next wallpaper, and a request to show it.
    fn step_wallpaper(&mut self)
        ensures
            final(self)@.wf(),
            final(self)@ == old(self)@.tap_wallpaper(),
    {
        proof {
            use_type_invariant(&*self);
        }
        if self.wallpapers.names.len() > 0 {
            let i = (self.wallpapers.index + 1) % self.wallpapers.names.len();
            self.wallpapers.index = i;
            self.req_wallpaper = Some(i);
        }
    }

    /// One step of the manual clock, chosen by where on the row the tap
    /// fell.
    fn adjust_time(&mut self, xi: i32)
        ensures
            final(self)@.wf(),
            final(self)@ == old(self)@.tap_time(xi as int),
    {
        proof {
            use_type_invariant(&*self);
        }
        self.manual_dirty = true;
        if xi < 145 {
            self.manual_hour = (self.manual_hour + 23) % 24;
        } else if xi < 270 {
            self.manual_hour = (self.manual_hour + 1) % 24;
        } else if xi < 340 {
            self.manual_minute = (self.manual_minute + 59) % 60;
        } else {
            self.manual_minute = (self.manual_minute + 1) % 60;
        }
    }

    /// Acts on a tap at `(x, y)`; tells whether it fell on a row.
    pub fn handle_tap(&mut self, x: u16, y: u16) -> (res: bool)
        ensures
            final(self)@.wf(),
            final(self)@ == old(self)@.tap(x as int, y as int),
            res == on_some_row(y as int),
    {
        proof {
            use_type_invariant(&*self);
        }
        let xi = x as i32;
        let yi = y as i32;

        if in_row_exec(yi, ROW_WIFI) {
            self.req_wifi_toggle = true;
            self.wifi_on = !self.wifi_on;
            return true;
        }
        if in_row_exec(yi, ROW_BLE) {
            self.req_ble_toggle = true;
            self.ble_on = !self.ble_on;
            return true;
        }
        if in_row_exec(yi, ROW_CPU) {
            self.req_cpu_cycle = true;
            self.cpu_mhz = if self.cpu_mhz == 80 {
                160
            } else if self.cpu_mhz == 160 {
                240
            } else {
                80
            };
            return true;
        }
        if in_row_exec(yi, ROW_BRI) {
            let new_bri = if xi < W / 2 {
                let down = self.brightness.saturating_sub(16);
                if down < 0x10 {
                    0x10
                } else {
                    down
                }
            } else {
                self.brightness.saturating_add(16)
            };
            self.brightness = new_bri;
            self.req_brightness = Some(new_bri);
            return true;
        }
        if in_row_exec(yi, ROW_WALL) {
            self.step_wallpaper();
            return true;
        }
        if in_row_exec(yi, ROW_TIME) {
            self.adjust_time(xi);
            return true;
        }
        if in_row_exec(yi, ROW_BTN) {
            self.req_apply_time = true;
            return true;
        }
        if in_row_exec(yi, ROW_GYRO) {
            self.req_open_gyro = true;
            return true;
        }
        false
    }

    /// Whether WiFi is to be switched; clears the request.
    pub fn take_wifi_toggle_request(&mut self) -> (res: bool)
        ensures
            final(self)@.wf(),
            res == old(self)@.req_wifi_toggle,
            final(self)@ == (SettingsState { req_wifi_toggle: false, ..old(self)@ }),
    {
        proof {
            use_type_invariant(&*self);
        }
        let v = self.req_wifi_toggle;
        self.req_wifi_toggle = false;
        v
    }

    /// Whether Bluetooth is to be switched; clears the request.
    pub fn take_ble_toggle_request(&mut self) -> (res: bool)
        ensures
            final(self)@.wf(),
            res == old(self)@.req_ble_toggle,
            final(self)@ == (SettingsState { req_ble_toggle: false, ..old(self)@ }),
    {
        proof {
            use_type_invariant(&*self);
        }
        let v = self.req_ble_toggle;
        self.req_ble_toggle = false;
        v
    }

    /// Whether the CPU clock is to change; clears the request.
    pub fn take_cpu_cycle_request(&mut self) -> (res: bool)
        ensures
            final(self)@.wf(),
            res == old(self)@.req_cpu_cycle,
            final(self)@ == (SettingsState { req_cpu_cycle: false, ..old(self)@ }),
    {
        proof {
            use_type_invariant(&*self);
        }
        let v = self.req_cpu_cycle;
        self.req_cpu_cycle = false;
        v
    }

    /// The brightness to apply, if one was asked for; clears the request.
    pub fn take_brightness_request(&mut self) -> (res: Option<u8>)
        ensures
            final(self)@.wf(),
            res == old(self)@.req_brightness,
            final(self)@ == (SettingsState { req_brightness: None, ..old(self)@ }),
    {
        proof {
            use_type_invariant(&*self);
        }
        let v = self.req_brightness;
        self.req_brightness = None;
        v
    }

    /// Whether the gyroscope app is to open; clears the request.
    pub fn take_open_gyro_request(&mut self) -> (res: bool)
        ensures
            final(self)@.wf(),
            res == old(self)@.req_open_gyro,
            final(self)@ == (SettingsState { req_open_gyro: false, ..old(self)@ }),
    {
        proof {
            use_type_invariant(&*self);
        }
        let v = self.req_open_gyro;
        self.req_open_gyro = false;
        v
    }

    /// The manual time to apply, if that was asked for: the request is
    /// cleared, and the clock follows the current time again.
    pub fn take_apply_time_request(&mut self) -> (res: Option<(u8, u8)>)
        ensures
            final(self)@.wf(),
            old(self)@.req_apply_time ==> {
                &&& res == Some((old(self)@.manual_hour, old(self)@.manual_minute))
                &&& final(self)@ == (SettingsState {
                    req_apply_time: false,
                    manual_dirty: false,
                    ..old(self)@
                })
            },
            !old(self)@.req_apply_time ==> res is None && final(self)@ == old(self)@,
    {
        proof {
            use_type_invariant(&*self);
        }
        if self.req_apply_time {
            self.req_apply_time = false;
            self.manual_dirty = false;
            Some((self.manual_hour, self.manual_minute))
        } else {
            None
        }
    }

    /// The wallpaper to show, if one was picked; clears the request.
    pub fn take_wallpaper_request(&mut self) -> (res: Option<usize>)
        ensures
            final(self)@.wf(),
            res == old(self)@.req_wallpaper,
            final(self)@ == (SettingsState { req_wallpaper: None, ..old(self)@ }),
    {
        proof {
            use_type_invariant(&*self);
        }
        let v = self.req_wallpaper;
        self.req_wallpaper = None;
        v
    }

    /// What the screen shows for the current state.
    pub fn screen(&self) -> (res: SettingsScreen)
        ensures
            res.wifi@ == (if self@.wifi_on {
                "ON"@
            } else {
                "OFF"@
            }),
            res.wifi_bg == row_bg(self@.wifi_on),
            res.ble@ == (if self@.ble_on {
                "ON"@
            } else {
                "OFF"@
            }),
            res.ble_bg == row_bg(self@.ble_on),
            res.cpu@ == (if self@.cpu_mhz == 80 {
                "80MHz"@
            } else if self@.cpu_mhz == 240 {
                "240MHz"@
            } else {
                "160MHz"@
            }),
            res.cpu_bg == row_bg(true),
            res.brightness@ == text_or(pct_bytes(self@.brightness), "0%"@),
            res.wallpaper@ == (if self@.wallpaper_names.len() == 0 {
                "sem imagens"@
            } else {
                self@.wallpaper_names[self@.wallpaper_index as int]@
            }),
            res.time@ == text_or(hhmm_bytes(self@.manual_hour, self@.manual_minute), "00:00"@),
    {
        proof {
            use_type_invariant(self);
        }
        let pct = fmt_pct(self.brightness);
        let hhmm = fmt_hhmm(self.manual_hour, self.manual_minute);
        SettingsScreen {
            wifi: if self.wifi_on {
                "ON"
            } else {
                "OFF"
            },
            wifi_bg: row_bg_exec(self.wifi_on),
            ble: if self.ble_on {
                "ON"
            } else {
                "OFF"
            },
            ble_bg: row_bg_exec(self.ble_on),
            cpu: if self.cpu_mhz == 80 {
                "80MHz"
            } else if self.cpu_mhz == 240 {
                "240MHz"
            } else {
                "160MHz"
            },
            cpu_bg: row_bg_exec(true),
            brightness: utf8_text_or(pct.as_slice(), "0%"),
            wallpaper: if self.wallpapers.names.len() == 0 {
                "sem imagens".to_owned()
            } else {
                self.wallpapers.names[self.wallpapers.index].clone()
            },
            time: utf8_text_or(hhmm.as_slice(), "00:00"),
        }
    }
}

/// Whether height `y` is on the row with top `row_top`.
fn in_row_exec(y: i32, row_top: i32) -> (res: bool)
    requires
        0 <= row_top < 1000,
    ensures
        res == in_row(y as int, row_top as int),
{
    y >= row_top && y < row_top + ROW_H
}

/// Background of a switch row.
fn row_bg_exec(active: bool) -> (res: Color)
    ensures
        res == row_bg(active),
{
    if active {
        Color::Rgb(2, 10, 12)
    } else {
        Color::Rgb(3, 4, 5)
    }
}

/// The WiFi and Bluetooth rows are switches: two taps on one give back
/// its setting, and each tap asks for the switch.
pub proof fn lemma_switch_rows_flip_back(s: SettingsState, x: int, y: int)
    requires
        in_row(y, ROW_WIFI as int) || in_row(y, ROW_BLE as int),
    ensures
        s.tap(x, y).tap(x, y).wifi_on == s.wifi_on,
        s.tap(x, y).tap(x, y).ble_on == s.ble_on,
        in_row(y, ROW_WIFI as int) ==> s.tap(x, y).req_wifi_toggle,
        in_row(y, ROW_BLE as int) ==> s.tap(x, y).req_ble_toggle,
{
}

/// The CPU row goes round 80, 160 and 240 MHz: from any clock one tap
/// lands in that cycle, and three taps come back to where they started.
pub proof fn lemma_cpu_cycle(mhz: u16)
    ensures
        next_cpu_mhz(mhz) == 80 || next_cpu_mhz(mhz) == 160 || next_cpu_mhz(mhz) == 240,
        (mhz == 80 || mhz == 160 || mhz == 240) ==> next_cpu_mhz(
            next_cpu_mhz(next_cpu_mhz(mhz)),
        ) == mhz,
{
}

/// After a tap on the brightness row the brightness is at least 16, and a
/// request to apply it is pending.
pub proof fn lemma_brightness_floor(s: SettingsState, x: int, y: int)
    requires
        in_row(y, ROW_BRI as int),
    ensures
        s.tap(x, y).brightness >= 16,
        s.tap(x, y).req_brightness == Some(s.tap(x, y).brightness),
{
}

/// Hour down then hour up, or minute down then minute up, give back the
/// manual clock, which stays a time of day.
pub proof fn lemma_time_steps_undo(s: SettingsState, x_down: int, x_up: int)
    requires
        s.wf(),
        (x_down < 145 && 145 <= x_up < 270) || (270 <= x_down < 340 && 340 <= x_up),
    ensures
        s.tap_time(x_down).wf(),
        s.tap_time(x_down).tap_time(x_up).manual_hour == s.manual_hour,
        s.tap_time(x_down).tap_time(x_up).manual_minute == s.manual_minute,
        s.tap_time(x_down).tap_time(x_up).manual_dirty,
{
}

/// The wallpaper row steps through the wallpapers in order, wrapping
/// around, and asks to show the one it lands on.
pub proof fn lemma_wallpaper_steps(s: SettingsState)
    requires
        s.wf(),
        s.wallpaper_names.len() > 0,
    ensures
        s.tap_wallpaper().wf(),
        s.tap_wallpaper().wallpaper_index == (if s.wallpaper_index + 1 < s.wallpaper_names.len() {
            s.wallpaper_index + 1
        } else {
            0
        }),
        s.tap_wallpaper().req_wallpaper == Some(s.tap_wallpaper().wallpaper_index),
{
    let n = s.wallpaper_names.len();
    let i = s.wallpaper_index + 1;
    if i < n {
        vstd::arithmetic::div_mod::lemma_small_mod(i as nat, n as nat);
    } else {
        vstd::arithmetic::div_mod::lemma_mod_self_0(n as int);
    }
}

/// A tap keeps the state valid, and it changes something only where it
/// falls on a row.
pub proof fn lemma_tap_keeps_wf(s: SettingsState, x: int, y: int)
    requires
        s.wf(),
    ensures
        s.tap(x, y).wf(),
        !on_some_row(y) ==> s.tap(x, y) == s,
{
}

/// A tap on the right half of the brightness row adds 16, up to 255; one
/// on the left half takes 16 away, down to 16. Whatever the brightness,
/// the step is at most 16 up (never a jump to full).
pub proof fn lemma_brightness_step(s: SettingsState, x: int, y: int)
    requires
        in_row(y, ROW_BRI as int),
    ensures
        x >= 205 ==> s.tap(x, y).brightness == (if s.brightness + 16 < 255 {
            s.brightness + 16
        } else {
            255
        }),
        x >= 205 && s.brightness <= 239 ==> s.tap(x, y).brightness == s.brightness + 16,
        x < 205 ==> s.tap(x, y).brightness == (if s.brightness - 16 > 16 {
            s.brightness - 16
        } else {
            16
        }),
        s.tap(x, y).brightness <= s.brightness + 16,
        s.tap(x, y).req_brightness == Some(s.tap(x, y).brightness),
{
}

/// The brightness text is the decimal text of `v * 100 / 255`, rounded
/// down, then `%`: its digits read back as that percentage, so it says
/// `100%` for full brightness only.
pub proof fn lemma_pct_text_reads_back(v: u8)
    ensures
        pct_bytes(v).len() >= 2,
        pct_bytes(v).last() == 37,
        is_decimal_text(pct_bytes(v).drop_last()),
        decimal_value(pct_bytes(v).drop_last()) == (v as int * 100) / 255,
        (pct_bytes(v) =~= seq![49u8, 48, 48, 37]) <==> v == 255,
{
    let p = (v as int * 100) / 255;
    assert(0 <= p <= 100) by (nonlinear_arith)
        requires
            p == (v as int * 100) / 255,
            0 <= v <= 255,
    ;
    assert(v < 255 ==> p < 100) by (nonlinear_arith)
        requires
            p == (v as int * 100) / 255,
            0 <= v <= 255,
    ;
    assert(percent(v) == p);
    let d = pct_bytes(v).drop_last();
    if p >= 100 {
        assert(d =~= seq![49u8, 48, 48]);
        lemma_decimal_value_small(49, 48, 48);
    } else if p >= 10 {
        assert(d =~= seq![(48 + p / 10) as u8, (48 + p % 10) as u8]);
        lemma_decimal_value_small((48 + p / 10) as u8, (48 + p % 10) as u8, 48);
    } else {
        assert(d =~= seq![(48 + p) as u8]);
        lemma_decimal_value_small((48 + p) as u8, 48, 48);
    }
    if pct_bytes(v) =~= seq![49u8, 48, 48, 37] {
        assert(d =~= seq![49u8, 48, 48]);
        assert(d.len() == 3);
    }
}

} // verus!
