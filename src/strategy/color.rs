//! Mapping strategies between colors and samples.

use vstd::prelude::*;
use vstd::arithmetic::div_mod::lemma_fundamental_div_mod;

verus! {

/// An opaque pixel of four 8-bit channels.
#[derive(Clone, Copy, Debug, PartialEq, Eq, Structural)]
pub struct Rgba {
    pub red: u8,
    pub green: u8,
    pub blue: u8,
    pub alpha: u8,
}

/// A mapping between sound samples and colors.
///
/// Both directions accept every value. There are more colors than samples, so
/// the two cannot be inverse to each other; a color that no sample maps to is
/// read as a best guess.
pub trait ColorStrategy {
    /// The color of `sample`.
    spec fn spec_sample_to_color(&self, sample: i16) -> Rgba;

    /// The sample read from `color`.
    spec fn spec_color_to_sample(&self, color: Rgba) -> i16;

    /// Convert a sample to a color.
    fn sample_to_color(&self, sample: i16) -> (r: Rgba)
        ensures
            r == self.spec_sample_to_color(sample),
    ;

    /// Convert a color to a sample.
    fn color_to_sample(&self, color: &Rgba) -> (r: i16)
        ensures
            r == self.spec_color_to_sample(*color),
    ;
}

/// The number of hue steps in one sixth of the color wheel: a sample's offset
/// from `i16::MIN`, times six, counts these steps from red.
pub const SECTOR: u64 = 65536;

/// Full scale of a channel, of saturation and of value.
pub const FULL: u64 = 255;

/// `v * (1 - s * f)` in channel units, for value `v` and saturation `s` in
/// units of 1/255 and `f = steps / SECTOR`, rounded down.
pub open spec fn shade(v: int, s: int, steps: int) -> int {
    v * (255 * 65536 - s * steps) / (255 * 65536) as int
}

/// The red, green and blue channels at `pos` steps around the wheel (in six
/// sectors of `SECTOR` steps), with saturation `s` and value `v` in units of
/// 1/255.
pub open spec fn hsv_channels(pos: int, s: int, v: int) -> (int, int, int) {
    let k = pos / 65536;
    let f = pos % 65536;
    let max = v;
    let min = shade(v, s, 65536);
    let falling = shade(v, s, f);
    let rising = shade(v, s, 65536 - f);
    if k == 0 {
        (max, rising, min)
    } else if k == 1 {
        (falling, max, min)
    } else if k == 2 {
        (min, max, rising)
    } else if k == 3 {
        (min, falling, max)
    } else if k == 4 {
        (rising, min, max)
    } else {
        (max, min, falling)
    }
}

/// The position of `sample` on the wheel, in steps from red.
pub open spec fn hue_position(sample: i16) -> int {
    6 * (sample as int + 32768)
}

/// The opaque color of `sample` at saturation `s` and value `v`.
pub open spec fn hue_color(sample: i16, s: int, v: int) -> Rgba {
    let (r, g, b) = hsv_channels(hue_position(sample), s, v);
    Rgba { red: r as u8, green: g as u8, blue: b as u8, alpha: 255 }
}

pub open spec fn max3(a: int, b: int, c: int) -> int {
    if a >= b && a >= c {
        a
    } else if b >= c {
        b
    } else {
        c
    }
}

pub open spec fn min3(a: int, b: int, c: int) -> int {
    if a <= b && a <= c {
        a
    } else if b <= c {
        b
    } else {
        c
    }
}

/// The hue of a color that is not grey, in units of `1/d` of a sector from red,
/// where `d` is the difference between the largest and the smallest channel:
/// a value in `[0, 6d)`.
pub open spec fn hue_steps(r: int, g: int, b: int) -> int {
    let d = max3(r, g, b) - min3(r, g, b);
    if r == max3(r, g, b) {
        if g >= b {
            g - b
        } else {
            g - b + 6 * d
        }
    } else if g == max3(r, g, b) {
        b - r + 2 * d
    } else {
        r - g + 4 * d
    }
}

/// Division rounded toward zero.
pub open spec fn div_toward_zero(a: int, b: int) -> int {
    if a >= 0 {
        a / b
    } else {
        -((-a) / b)
    }
}

/// The sample that the hue of `color` stands for; a grey reads as red. Alpha is
/// not read.
pub open spec fn hue_sample(color: Rgba) -> i16 {
    let (r, g, b) = (color.red as int, color.green as int, color.blue as int);
    let d = max3(r, g, b) - min3(r, g, b);
    if d == 0 {
        i16::MIN
    } else {
        div_toward_zero(65536 * hue_steps(r, g, b) - 32768 * 6 * d, 6 * d) as i16
    }
}

/// A color strategy that maps a sample to a hue, at fixed saturation and value.
pub struct HueColorStrategy {
    saturation: u8,
    value: u8,
}

impl HueColorStrategy {
    /// The saturation, in units of 1/255.
    pub closed spec fn spec_saturation(&self) -> int {
        self.saturation as int
    }

    /// The value, in units of 1/255.
    pub closed spec fn spec_value(&self) -> int {
        self.value as int
    }

    /// A strategy with the given saturation and value, each in units of 1/255
    /// (255 is full).
    pub fn new(saturation: u8, value: u8) -> (r: Self)
        ensures
            r.spec_saturation() == saturation,
            r.spec_value() == value,
    {
        HueColorStrategy { saturation, value }
    }
}

impl Default for HueColorStrategy {
    /// Full saturation and full value.
    fn default() -> (r: Self)
        ensures
            r.spec_saturation() == 255,
            r.spec_value() == 255,
    {
        HueColorStrategy::new(255, 255)
    }
}

/// `shade(v, s, steps)` computed on machine integers.
fn shade_exec(v: u64, s: u64, steps: u64) -> (r: u64)
    requires
        v <= FULL,
        s <= FULL,
        steps <= SECTOR,
    ensures
        r == shade(v as int, s as int, steps as int),
        r <= v,
{
    assert(s * steps <= 255 * 65536) by (nonlinear_arith)
        requires s <= 255, steps <= 65536;
    let num = FULL * SECTOR - s * steps;
    assert(v * num <= v * (255 * 65536)) by (nonlinear_arith)
        requires num <= 255 * 65536;
    assert(v * num / (255 * 65536) as int <= v) by (nonlinear_arith)
        requires v * num <= v * (255 * 65536), v >= 0;
    v * num / (FULL * SECTOR)
}

impl ColorStrategy for HueColorStrategy {
    open spec fn spec_sample_to_color(&self, sample: i16) -> Rgba {
        hue_color(sample, self.spec_saturation(), self.spec_value())
    }

    open spec fn spec_color_to_sample(&self, color: Rgba) -> i16 {
        hue_sample(color)
    }

    fn sample_to_color(&self, sample: i16) -> (r: Rgba) {
        let pos: u64 = 6 * ((sample as i32 + 32768) as u64);
        let k = pos / SECTOR;
        let f = pos % SECTOR;
        let v = self.value as u64;
        let s = self.saturation as u64;
        let max = v;
        let min = shade_exec(v, s, SECTOR);
        let falling = shade_exec(v, s, f);
        let rising = shade_exec(v, s, SECTOR - f);
        let (r, g, b) = if k == 0 {
            (max, rising, min)
        } else if k == 1 {
            (falling, max, min)
        } else if k == 2 {
            (min, max, rising)
        } else if k == 3 {
            (min, falling, max)
        } else if k == 4 {
            (rising, min, max)
        } else {
            (max, min, falling)
        };
        Rgba { red: r as u8, green: g as u8, blue: b as u8, alpha: 255 }
    }

    fn color_to_sample(&self, color: &Rgba) -> (r: i16) {
        let (r, g, b) = (color.red as i64, color.green as i64, color.blue as i64);
        let max = if r >= g && r >= b {
            r
        } else if g >= b {
            g
        } else {
            b
        };
        let min = if r <= g && r <= b {
            r
        } else if g <= b {
            g
        } else {
            b
        };
        let d = max - min;
        if d == 0 {
            return i16::MIN;
        }
        let steps = if r == max {
            if g >= b {
                g - b
            } else {
                g - b + 6 * d
            }
        } else if g == max {
            b - r + 2 * d
        } else {
            r - g + 4 * d
        };
        let num: i64 = 65536 * steps - 32768 * 6 * d;
        let q: i64 = if num >= 0 {
            ((num as u64) / ((6 * d) as u64)) as i64
        } else {
            -((((-num) as u64) / ((6 * d) as u64)) as i64)
        };
        q as i16
    }
}

/// At full saturation and value, `shade` is `255 * (1 - steps / SECTOR)` rounded
/// down.
proof fn lemma_full_shade(steps: int)
    requires
        0 <= steps <= 65536,
    ensures
        shade(255, 255, steps) * 65536 <= 255 * (65536 - steps) < shade(255, 255, steps) * 65536
            + 65536,
        0 <= shade(255, 255, steps) <= 255,
{
    let x = 255 * (255 * 65536 - 255 * steps);
    lemma_fundamental_div_mod(x, (255 * 65536) as int);
    assert(x == 65025 * (65536 - steps));
}

/// A quotient rounded toward zero lies within 43 of `target` when the dividend
/// lies within one sector of `1530 * target`.
proof fn lemma_div_toward_zero_near(num: int, target: int)
    requires
        1530 * target - 65536 <= num <= 1530 * target + 65536,
    ensures
        -43 <= div_toward_zero(num, 1530) - target <= 43,
{
    if num >= 0 {
        lemma_fundamental_div_mod(num, 1530);
    } else {
        lemma_fundamental_div_mod(-num, 1530);
    }
}

/// At full saturation and value, reading back the color of a sample gives the
/// sample again to within 43, counted around the color wheel: the largest
/// samples are read as the smallest, where the wheel closes on red.
pub proof fn lemma_hue_round_trip(sample: i16)
    ensures
        ({
            let e = hue_sample(hue_color(sample, 255, 255)) - sample;
            (-43 <= e <= 43) || (-43 <= e + 65536 <= 43)
        }),
{
    let pos = hue_position(sample);
    let k = pos / 65536;
    let f = pos % 65536;
    lemma_fundamental_div_mod(pos, 65536);
    assert(0 <= k < 6);
    lemma_full_shade(65536);
    lemma_full_shade(f);
    lemma_full_shade(65536 - f);
    let falling = shade(255, 255, f);
    let rising = shade(255, 255, 65536 - f);
    assert(shade(255, 255, 65536) == 0);
    let c = hue_color(sample, 255, 255);
    let (r, g, b) = (c.red as int, c.green as int, c.blue as int);
    assert(max3(r, g, b) == 255 && min3(r, g, b) == 0);
    let h = hue_steps(r, g, b);
    // 1530 * sample == 255 * pos - 255 * 6 * 32768
    if k == 5 && falling == 0 {
        assert(h == 0);
        lemma_div_toward_zero_near(65536 * h - 32768 * 6 * 255, sample - 65536);
    } else {
        assert(-65536 <= 65536 * h - 255 * pos <= 65536);
        lemma_div_toward_zero_near(65536 * h - 32768 * 6 * 255, sample as int);
    }
}

} // verus!
