//! The gyroscope app: a ball inside a ring, moved by the accelerometer,
//! and the two tilt readings as text.
use vstd::prelude::*;

use crate::apps::common::AppResult;
use crate::ui::{decimal_value, is_decimal_text, lemma_decimal_value_small, text_or, utf8_text_or};

verus! {

/// Centre of the ring: the middle of the display, 10 pixels below its
/// vertical middle.
pub const CX: i32 = 205;

pub const CY: i32 = 261;

/// Radius of the ring.
pub const R: i32 = 92;

/// Half the side of the ball.
pub const BALL_R: i32 = 12;

/// Farthest the ball's centre goes from the ring's centre on each axis.
pub const MAX_OFF: i32 = R - BALL_R - 6;

/// The tilt readings, in hundredths of g.
pub struct GyroState {
    pub ax: i16,
    pub ay: i16,
}

/// Integer division rounding toward zero, as Rust's `/` does.
pub open spec fn div_toward_zero(a: int, b: int) -> int
    recommends
        b > 0,
{
    if a >= 0 {
        a / b
    } else {
        -((-a) / b)
    }
}

pub open spec fn clamp(v: int, lo: int, hi: int) -> int {
    if v < lo {
        lo
    } else if v > hi {
        hi
    } else {
        v
    }
}

/// Offset of the ball from the ring's centre for a reading, in pixels:
/// the reading scaled so that 100 (one g) reaches [`MAX_OFF`], and held
/// within the ring.
pub open spec fn ball_offset(reading: int) -> int {
    clamp(div_toward_zero(reading * MAX_OFF, 100), -MAX_OFF as int, MAX_OFF as int)
}

/// Decimal digits of a reading: a minus sign for negative values, then the
/// hundreds, tens and units digits, leading zeros left out. Only three
/// digit places are written: the hundreds place holds `'0'` plus
/// `|v| / 100` taken modulo 256, whatever that byte is.
pub open spec fn i16_text(v: i16) -> Seq<u8> {
    let a = if v < 0 {
        -(v as int)
    } else {
        v as int
    };
    (if v < 0 {
        seq![45u8]
    } else {
        Seq::empty()
    }) + (if a >= 100 {
        seq![(48 + (a / 100) % 256) as u8]
    } else {
        Seq::empty()
    }) + (if a >= 10 {
        seq![(48 + (a / 10) % 10) as u8]
    } else {
        Seq::empty()
    }) + seq![(48 + a % 10) as u8]
}

/// The hundreds place of [`i16_text`] stays within a byte: `'0'` plus
/// `|v| / 100` modulo 256 is below 256.
pub open spec fn i16_text_fits(v: i16) -> bool {
    let a = if v < 0 {
        -(v as int)
    } else {
        v as int
    };
    (a / 100) % 256 < 208
}

/// `X:<x> Y:<y>` as bytes.
pub open spec fn axes_bytes(x: i16, y: i16) -> Seq<u8> {
    seq![88u8, 58] + i16_text(x) + seq![32u8, 89, 58] + i16_text(y)
}

/// Appends the decimal text of `v` to `buf`.
fn write_i16(buf: &mut Vec<u8>, v: i16)
    requires
        i16_text_fits(v),
    ensures
        final(buf)@ == old(buf)@ + i16_text(v),
{
    let ghost start = buf@;
    if v < 0 {
        buf.push(45);  // '-'
    }
    let a: u16 = if v < 0 {
        (-(v as i32)) as u16
    } else {
        v as u16
    };
    if a >= 100 {
        let h: u16 = a / 100;
        let hb: u8 = h as u8;
        assert(hb == h % 256) by (bit_vector)
            requires
                hb == h as u8,
        ;
        buf.push(48 + hb);
    }
    if a >= 10 {
        buf.push(48 + ((a / 10) % 10) as u8);
    }
    buf.push(48 + (a % 10) as u8);
    assert(buf@ =~= start + i16_text(v));
}

/// The bytes of `X:<x> Y:<y>`.
fn fmt_axes(x: i16, y: i16) -> (res: Vec<u8>)
    requires
        i16_text_fits(x),
        i16_text_fits(y),
    ensures
        res@ == axes_bytes(x, y),
{
    let mut buf: Vec<u8> = Vec::new();
    buf.push(88);  // 'X'
    buf.push(58);  // ':'
    write_i16(&mut buf, x);
    buf.push(32);  // ' '
    buf.push(89);  // 'Y'
    buf.push(58);  // ':'
    write_i16(&mut buf, y);
    assert(buf@ =~= axes_bytes(x, y));
    buf
}

/// Whether [`i16_text`] of `v` stays within a byte.
fn text_fits(v: i16) -> (res: bool)
    ensures
        res == i16_text_fits(v),
{
    let a: u16 = if v < 0 {
        (-(v as i32)) as u16
    } else {
        v as u16
    };
    (a / 100) % 256 < 208
}

/// `a / 100` rounded toward zero, clamped to `-MAX_OFF..=MAX_OFF`.
fn scale_offset(a: i32) -> (res: i32)
    requires
        -10_000_000 <= a <= 10_000_000,
    ensures
        res == clamp(div_toward_zero(a as int, 100), -MAX_OFF as int, MAX_OFF as int),
{
    let q: i32 = if a >= 0 {
        a / 100
    } else {
        -((-a) / 100)
    };
    if q < -MAX_OFF {
        -MAX_OFF
    } else if q > MAX_OFF {
        MAX_OFF
    } else {
        q
    }
}

/// The gyroscope app.
pub struct GyroApp {
    ax: i16,
    ay: i16,
}

impl View for GyroApp {
    type V = GyroState;

    closed spec fn view(&self) -> GyroState {
        GyroState { ax: self.ax, ay: self.ay }
    }
}

/// What the gyroscope screen shows that depends on the readings.
pub struct GyroScreen {
    /// Top-left corner of the ball.
    pub ball_x: i32,
    pub ball_y: i32,
    /// The readings, below the ring.
    pub axes: String,
}

impl GyroApp {
    /// Both readings zero.
    pub fn new() -> (res: Self)
        ensures
            res@ == (GyroState { ax: 0, ay: 0 }),
    {
        Self { ax: 0, ay: 0 }
    }

    pub fn name(&self) -> (res: &'static str)
        ensures
            res@ == "Gyroscope"@,
    {
        "Gyroscope"
    }

    pub fn setup(&mut self)
        ensures
            final(self)@ == old(self)@,
    {
    }

    /// Takes the accelerometer's readings on the two axes, in hundredths
    /// of g.
    pub fn update(&mut self, ax: i16, ay: i16) -> (res: AppResult)
        ensures
            final(self)@ == (GyroState { ax, ay }),
            res == AppResult::Continue,
    {
        self.ax = ax;
        self.ay = ay;
        AppResult::Continue
    }

    /// Whether [`Self::screen`] can write both readings: the hundreds
    /// digit of each stays within a byte.
    pub fn readings_fit(&self) -> (res: bool)
        ensures
            res == (i16_text_fits(self@.ax) && i16_text_fits(self@.ay)),
    {
        text_fits(self.ax) && text_fits(self.ay)
    }

    /// What the screen shows: the ball moves right as `ay` falls and down
    /// as `ax` rises; the readings read `X:<ax> Y:<ay>`, or `X:0 Y:0`
    /// where that text is not valid UTF-8.
    pub fn screen(&self) -> (res: GyroScreen)
        requires
            i16_text_fits(self@.ax),
            i16_text_fits(self@.ay),
        ensures
            res.ball_x == CX + ball_offset(-(self@.ay as int)) - BALL_R,
            res.ball_y == CY + ball_offset(self@.ax as int) - BALL_R,
            res.axes@ == text_or(axes_bytes(self@.ax, self@.ay), "X:0 Y:0"@),
    {
        let ny: i32 = -(self.ay as i32);
        let nx: i32 = self.ax as i32;
        assert(-32768 * 74 <= ny * 74 <= 32768 * 74) by (nonlinear_arith)
            requires
                -32768 <= ny <= 32768,
        ;
        assert(-32768 * 74 <= nx * 74 <= 32768 * 74) by (nonlinear_arith)
            requires
                -32768 <= nx <= 32768,
        ;
        let bx = scale_offset(ny * MAX_OFF);
        let by = scale_offset(nx * MAX_OFF);
        let text = fmt_axes(self.ax, self.ay);
        GyroScreen {
            ball_x: CX + bx - BALL_R,
            ball_y: CY + by - BALL_R,
            axes: utf8_text_or(text.as_slice(), "X:0 Y:0"),
        }
    }
}

/// The ball never leaves the ring: its offset from the centre is at most
/// [`MAX_OFF`] on each axis. It moves with the reading, never against it.
pub proof fn lemma_ball_offset_bounded_monotone(a: int, b: int)
    ensures
        -MAX_OFF <= ball_offset(a) <= MAX_OFF,
        a <= b ==> ball_offset(a) <= ball_offset(b),
        a == 0 ==> ball_offset(a) == 0,
{
    if a <= b {
        let p = a * MAX_OFF;
        let q = b * MAX_OFF;
        assert(p <= q) by (nonlinear_arith)
            requires
                a <= b,
                MAX_OFF == 74,
                p == a * MAX_OFF,
                q == b * MAX_OFF,
        ;
        assert(div_toward_zero(p, 100) <= div_toward_zero(q, 100)) by (nonlinear_arith)
            requires
                p <= q,
        ;
    }
}

/// A reading's text starts with `-` exactly for negative readings, and a
/// negative reading reads `-` followed by the text of its magnitude. For
/// readings below 1000 in magnitude the digits read back as that magnitude.
pub proof fn lemma_i16_text_sign_and_digits(v: i16)
    requires
        i16_text_fits(v),
    ensures
        (i16_text(v)[0] == 45) <==> v < 0,
        v < 0 && v > i16::MIN ==> i16_text(v) == seq![45u8] + i16_text((-v) as i16),
        0 <= v < 1000 ==> is_decimal_text(i16_text(v)) && decimal_value(i16_text(v)) == v,
        -1000 < v < 0 ==> is_decimal_text(i16_text(v).drop_first()) && decimal_value(
            i16_text(v).drop_first(),
        ) == -v,
{
    let a: int = if v < 0 {
        -(v as int)
    } else {
        v as int
    };
    assert((a / 100) % 256 < 208);
    if v < 0 && v > i16::MIN {
        let w = (-v) as i16;
        assert(w as int == a);
        assert(i16_text(v) =~= seq![45u8] + i16_text(w));
    }
    if a < 1000 {
        let d = if v < 0 {
            i16_text(v).drop_first()
        } else {
            i16_text(v)
        };
        assert((a / 100) % 256 == a / 100);
        if a >= 100 {
            assert(d =~= seq![(48 + a / 100) as u8, (48 + (a / 10) % 10) as u8, (48 + a % 10) as u8]);
            lemma_decimal_value_small((48 + a / 100) as u8, (48 + (a / 10) % 10) as u8, (48 + a % 10) as u8);
        } else if a >= 10 {
            assert(d =~= seq![(48 + (a / 10) % 10) as u8, (48 + a % 10) as u8]);
            lemma_decimal_value_small((48 + (a / 10) % 10) as u8, (48 + a % 10) as u8, 48);
        } else {
            assert(d =~= seq![(48 + a % 10) as u8]);
            lemma_decimal_value_small((48 + a % 10) as u8, 48, 48);
        }
    }
}

} // verus!
