//! Conversion between streams of audio samples and raster images.
//!
//! Each sample's position in time is mapped to a point in space by a
//! [`SpaceStrategy`], and each sample's amplitude to a color by a
//! [`ColorStrategy`]. An [`Encoder`] turns samples into pixels; a [`Decoder`]
//! reads samples back from an image.

use vstd::prelude::*;

pub mod image;
pub mod preset;
pub mod strategy;

use crate::image::{background, RgbaImage};
use crate::strategy::color::{div_toward_zero, ColorStrategy, Rgba};
pub use crate::strategy::space::Coord;
use crate::strategy::space::SpaceStrategy;

verus! {

/// A pixel that an encoder yields: its point and its color.
pub type PixelData = (Coord<2>, Rgba);

/// The smaller of `a` and `b`.
pub open spec fn min_nat(a: nat, b: nat) -> nat {
    if a <= b {
        a
    } else {
        b
    }
}

/// Whether `p` is the pixel of sample `i`: its point is the space's point of
/// index `i`, within the image, and its color that of the sample.
pub open spec fn is_encoded_pixel<S: SpaceStrategy<2>, C: ColorStrategy>(
    space: S,
    color: C,
    samples: Seq<i16>,
    i: int,
    p: PixelData,
) -> bool {
    &&& p.0@ == space.spec_coord(i)
    &&& p.0@[0] < space.spec_length(0)
    &&& p.0@[1] < space.spec_length(1)
    &&& p.1 == color.spec_sample_to_color(samples[i])
}

/// The pixels of an image of the space's extent after the first `n` samples
/// were written at their points, in order, over the background.
pub open spec fn painted<S: SpaceStrategy<2>, C: ColorStrategy>(
    space: S,
    color: C,
    samples: Seq<i16>,
    n: nat,
) -> Seq<Rgba>
    decreases n,
{
    let width = space.spec_length(0);
    if n == 0 {
        Seq::new(width * space.spec_length(1), |i: int| background())
    } else {
        let c = space.spec_coord(n - 1);
        painted(space, color, samples, (n - 1) as nat).update(
            c[1] * width + c[0],
            color.spec_sample_to_color(samples[n - 1]),
        )
    }
}

/// Turns a sequence of samples into pixels, one per sample, until either the
/// samples or the space run out.
pub struct Encoder<S: SpaceStrategy<2>, C: ColorStrategy> {
    index: usize,
    samples: Vec<i16>,
    color_strategy: C,
    space_strategy: S,
}

impl<S: SpaceStrategy<2>, C: ColorStrategy> Encoder<S, C> {
    /// How many pixels have been yielded.
    pub closed spec fn spec_index(&self) -> nat {
        self.index as nat
    }

    pub closed spec fn spec_samples(&self) -> Seq<i16> {
        self.samples@
    }

    pub closed spec fn spec_color_strategy(&self) -> C {
        self.color_strategy
    }

    pub closed spec fn spec_space_strategy(&self) -> S {
        self.space_strategy
    }

    /// How many pixels the encoder yields in all: one per sample, but no more
    /// than the space holds.
    pub open spec fn spec_len(&self) -> nat {
        min_nat(self.spec_space_strategy().spec_size(), self.spec_samples().len())
    }

    pub open spec fn well_formed(&self) -> bool {
        &&& self.spec_space_strategy().well_formed()
        &&& self.spec_index() <= self.spec_len()
    }

    pub fn new(samples: Vec<i16>, color_strategy: C, space_strategy: S) -> (r: Self)
        requires
            space_strategy.well_formed(),
        ensures
            r.well_formed(),
            r.spec_index() == 0,
            r.spec_samples() == samples@,
            r.spec_color_strategy() == color_strategy,
            r.spec_space_strategy() == space_strategy,
    {
        Encoder { index: 0, samples, color_strategy, space_strategy }
    }

    /// The next pixel: the one of the next sample, while both samples and
    /// space remain.
    pub fn next(&mut self) -> (r: Option<PixelData>)
        requires
            old(self).well_formed(),
        ensures
            final(self).well_formed(),
            final(self).spec_samples() == old(self).spec_samples(),
            final(self).spec_color_strategy() == old(self).spec_color_strategy(),
            final(self).spec_space_strategy() == old(self).spec_space_strategy(),
            old(self).spec_index() < old(self).spec_len() ==> {
                &&& final(self).spec_index() == old(self).spec_index() + 1
                &&& r matches Some(p) && is_encoded_pixel(
                    old(self).spec_space_strategy(),
                    old(self).spec_color_strategy(),
                    old(self).spec_samples(),
                    old(self).spec_index() as int,
                    p,
                )
            },
            old(self).spec_index() >= old(self).spec_len() ==> {
                &&& r.is_none()
                &&& final(self).spec_index() == old(self).spec_index()
            },
    {
        if self.index >= self.space_strategy.size() {
            return None;
        }
        if self.index >= self.samples.len() {
            return None;
        }
        let coords = match self.space_strategy.index_to_coord(self.index) {
            Some(c) => c,
            None => {
                return None;
            },
        };
        let sample = self.samples[self.index];
        self.index = self.index + 1;
        let color = self.color_strategy.sample_to_color(sample);
        Some((coords, color))
    }

    /// The number of pixels left, as a lower and an upper bound.
    pub fn size_hint(&self) -> (r: (usize, Option<usize>))
        requires
            self.well_formed(),
        ensures
            r.0 == self.spec_len() - self.spec_index(),
            r.1 == Some(r.0),
    {
        let size = self.space_strategy.size();
        let n = self.samples.len();
        let len = if size <= n {
            size
        } else {
            n
        };
        (len - self.index, Some(len - self.index))
    }

    /// All the pixels left, in order.
    pub fn into_pixels(self) -> (r: Vec<PixelData>)
        requires
            self.well_formed(),
        ensures
            r@.len() == self.spec_len() - self.spec_index(),
            forall|j: int|
                0 <= j < r@.len() ==> #[trigger] is_encoded_pixel(
                    self.spec_space_strategy(),
                    self.spec_color_strategy(),
                    self.spec_samples(),
                    self.spec_index() + j,
                    r@[j],
                ),
    {
        let (len, _) = self.size_hint();
        let start = self.index;
        let mut encoder = self;
        let mut out: Vec<PixelData> = Vec::new();
        let mut k: usize = 0;
        while k < len
            invariant
                encoder.well_formed(),
                encoder.spec_samples() == self.spec_samples(),
                encoder.spec_color_strategy() == self.spec_color_strategy(),
                encoder.spec_space_strategy() == self.spec_space_strategy(),
                len == self.spec_len() - self.spec_index(),
                start == self.spec_index(),
                k <= len,
                encoder.spec_index() == start + k,
                out@.len() == k,
                forall|j: int|
                    0 <= j < k ==> #[trigger] is_encoded_pixel(
                        self.spec_space_strategy(),
                        self.spec_color_strategy(),
                        self.spec_samples(),
                        self.spec_index() + j,
                        out@[j],
                    ),
            decreases len - k,
        {
            if let Some(p) = encoder.next() {
                out.push(p);
            }
            k = k + 1;
        }
        out
    }
}

/// Write each sample's pixel into an image of the space's extent, over the
/// background, in order; cells that no sample reaches keep the background.
pub fn encode_image<S: SpaceStrategy<2>, C: ColorStrategy>(
    samples: Vec<i16>,
    color_strategy: C,
    space_strategy: S,
) -> (r: RgbaImage)
    requires
        space_strategy.well_formed(),
        space_strategy.spec_length(0) * space_strategy.spec_length(1) <= usize::MAX,
    ensures
        r.well_formed(),
        r.spec_width() == space_strategy.spec_length(0),
        r.spec_height() == space_strategy.spec_length(1),
        r.spec_pixels() == painted(
            space_strategy,
            color_strategy,
            samples@,
            min_nat(space_strategy.spec_size(), samples@.len()),
        ),
{
    let width = space_strategy.length(0);
    let height = space_strategy.length(1);
    let mut image = RgbaImage::new(width, height);
    let ghost s = samples@;
    let mut encoder = Encoder::new(samples, color_strategy, space_strategy);
    let (len, _) = encoder.size_hint();
    let mut k: usize = 0;
    assert(image.spec_pixels() =~= painted(space_strategy, color_strategy, s, 0));
    while k < len
        invariant
            encoder.well_formed(),
            encoder.spec_samples() == s,
            encoder.spec_color_strategy() == color_strategy,
            encoder.spec_space_strategy() == space_strategy,
            len == encoder.spec_len(),
            k <= len,
            encoder.spec_index() == k,
            image.well_formed(),
            image.spec_width() == width,
            image.spec_height() == height,
            width == space_strategy.spec_length(0),
            height == space_strategy.spec_length(1),
            image.spec_pixels() == painted(space_strategy, color_strategy, s, k as nat),
        decreases len - k,
    {
        if let Some((coords, color)) = encoder.next() {
            image.put_pixel(coords[0], coords[1], color);
        }
        k = k + 1;
    }
    image
}

/// Why a decoder could not be built.
#[derive(Clone, Copy, Debug, PartialEq, Eq, Structural)]
pub enum DecodeError {
    /// The image's extent is not the space's.
    DimensionMismatch { expected_width: u32, expected_height: u32, width: u32, height: u32 },
}

/// The sample that a decoder reads for index `i`: the color strategy's reading
/// of the image's pixel at the space's point of `i`.
pub open spec fn decoded_sample<S: SpaceStrategy<2>, C: ColorStrategy>(
    space: S,
    color: C,
    image: RgbaImage,
    i: int,
) -> i16 {
    let c = space.spec_coord(i);
    color.spec_color_to_sample(image.spec_pixel(c[0] as int, c[1] as int))
}

/// Reads one sample per index of the space from an image of the space's
/// extent.
pub struct Decoder<S: SpaceStrategy<2>, C: ColorStrategy> {
    index: usize,
    image: RgbaImage,
    color_strategy: C,
    space_strategy: S,
}

impl<S: SpaceStrategy<2>, C: ColorStrategy> Decoder<S, C> {
    /// How many samples have been yielded.
    pub closed spec fn spec_index(&self) -> nat {
        self.index as nat
    }

    pub closed spec fn spec_image(&self) -> RgbaImage {
        self.image
    }

    pub closed spec fn spec_color_strategy(&self) -> C {
        self.color_strategy
    }

    pub closed spec fn spec_space_strategy(&self) -> S {
        self.space_strategy
    }

    pub open spec fn well_formed(&self) -> bool {
        &&& self.spec_space_strategy().well_formed()
        &&& self.spec_image().well_formed()
        &&& self.spec_image().spec_width() == self.spec_space_strategy().spec_length(0)
        &&& self.spec_image().spec_height() == self.spec_space_strategy().spec_length(1)
        &&& self.spec_index() <= self.spec_space_strategy().spec_size()
    }

    /// A decoder over `image`, whose extent must be the space's; no pixel is
    /// read here.
    pub fn new(image: RgbaImage, color_strategy: C, space_strategy: S) -> (r: Result<
        Self,
        DecodeError,
    >)
        requires
            space_strategy.well_formed(),
            image.well_formed(),
        ensures
            r.is_ok() <==> image.spec_width() == space_strategy.spec_length(0)
                && image.spec_height() == space_strategy.spec_length(1),
            r matches Ok(d) ==> {
                &&& d.well_formed()
                &&& d.spec_index() == 0
                &&& d.spec_image() == image
                &&& d.spec_color_strategy() == color_strategy
                &&& d.spec_space_strategy() == space_strategy
            },
            r matches Err(e) ==> e == (DecodeError::DimensionMismatch {
                expected_width: space_strategy.spec_length(0) as u32,
                expected_height: space_strategy.spec_length(1) as u32,
                width: image.spec_width() as u32,
                height: image.spec_height() as u32,
            }),
    {
        let expected_width = space_strategy.length(0);
        let expected_height = space_strategy.length(1);
        let width = image.width();
        let height = image.height();
        if width != expected_width || height != expected_height {
            return Err(DecodeError::DimensionMismatch { expected_width, expected_height, width, height });
        }
        Ok(Decoder { index: 0, image, color_strategy, space_strategy })
    }

    /// The next sample, while indices of the space remain.
    pub fn next(&mut self) -> (r: Option<i16>)
        requires
            old(self).well_formed(),
        ensures
            final(self).well_formed(),
            final(self).spec_image() == old(self).spec_image(),
            final(self).spec_color_strategy() == old(self).spec_color_strategy(),
            final(self).spec_space_strategy() == old(self).spec_space_strategy(),
            old(self).spec_index() < old(self).spec_space_strategy().spec_size() ==> {
                &&& final(self).spec_index() == old(self).spec_index() + 1
                &&& r == Some(
                    decoded_sample(
                        old(self).spec_space_strategy(),
                        old(self).spec_color_strategy(),
                        old(self).spec_image(),
                        old(self).spec_index() as int,
                    ),
                )
            },
            old(self).spec_index() >= old(self).spec_space_strategy().spec_size() ==> {
                &&& r.is_none()
                &&& final(self).spec_index() == old(self).spec_index()
            },
    {
        if self.index >= self.space_strategy.size() {
            return None;
        }
        let coords = match self.space_strategy.index_to_coord(self.index) {
            Some(c) => c,
            None => {
                return None;
            },
        };
        self.index = self.index + 1;
        let color = self.image.get_pixel(coords[0], coords[1]);
        let sample = self.color_strategy.color_to_sample(&color);
        Some(sample)
    }

    /// The number of samples left, as a lower and an upper bound.
    pub fn size_hint(&self) -> (r: (usize, Option<usize>))
        requires
            self.well_formed(),
        ensures
            r.0 == self.spec_space_strategy().spec_size() - self.spec_index(),
            r.1 == Some(r.0),
    {
        let left = self.space_strategy.size() - self.index;
        (left, Some(left))
    }

    /// All the samples left, in order.
    pub fn into_samples(self) -> (r: Vec<i16>)
        requires
            self.well_formed(),
        ensures
            r@.len() == self.spec_space_strategy().spec_size() - self.spec_index(),
            forall|j: int|
                0 <= j < r@.len() ==> r@[j] == decoded_sample(
                    self.spec_space_strategy(),
                    self.spec_color_strategy(),
                    self.spec_image(),
                    self.spec_index() + j,
                ),
    {
        let (len, _) = self.size_hint();
        let start = self.index;
        let mut decoder = self;
        let mut out: Vec<i16> = Vec::new();
        let mut k: usize = 0;
        while k < len
            invariant
                decoder.well_formed(),
                decoder.spec_image() == self.spec_image(),
                decoder.spec_color_strategy() == self.spec_color_strategy(),
                decoder.spec_space_strategy() == self.spec_space_strategy(),
                len == self.spec_space_strategy().spec_size() - self.spec_index(),
                start == self.spec_index(),
                k <= len,
                decoder.spec_index() == start + k,
                out@.len() == k,
                forall|j: int|
                    0 <= j < k ==> out@[j] == decoded_sample(
                        self.spec_space_strategy(),
                        self.spec_color_strategy(),
                        self.spec_image(),
                        self.spec_index() + j,
                    ),
            decreases len - k,
        {
            if let Some(sample) = decoder.next() {
                out.push(sample);
            }
            k = k + 1;
        }
        out
    }
}

/// Read every sample of the space from `image`, in order; fails, reading no
/// pixel, when the image's extent is not the space's.
pub fn decode_image<S: SpaceStrategy<2>, C: ColorStrategy>(
    image: RgbaImage,
    color_strategy: C,
    space_strategy: S,
) -> (r: Result<Vec<i16>, DecodeError>)
    requires
        space_strategy.well_formed(),
        image.well_formed(),
    ensures
        r.is_ok() <==> image.spec_width() == space_strategy.spec_length(0)
            && image.spec_height() == space_strategy.spec_length(1),
        r matches Ok(samples) ==> {
            &&& samples@.len() == space_strategy.spec_size()
            &&& forall|i: int|
                0 <= i < samples@.len() ==> samples@[i] == decoded_sample(
                    space_strategy,
                    color_strategy,
                    image,
                    i,
                )
        },
        r matches Err(e) ==> e == (DecodeError::DimensionMismatch {
            expected_width: space_strategy.spec_length(0) as u32,
            expected_height: space_strategy.spec_length(1) as u32,
            width: image.spec_width() as u32,
            height: image.spec_height() as u32,
        }),
{
    match Decoder::new(image, color_strategy, space_strategy) {
        Ok(decoder) => Ok(decoder.into_samples()),
        Err(e) => Err(e),
    }
}

/// A sample format that can be brought into the signed 16-bit domain.
pub trait SampleConvert {
    /// The 16-bit sample that `self` stands for.
    spec fn spec_to_i16(self) -> i16;

    fn convert_to_i16(self) -> (r: i16)
        ensures
            r == self.spec_to_i16(),
    ;
}

impl SampleConvert for i16 {
    open spec fn spec_to_i16(self) -> i16 {
        self
    }

    fn convert_to_i16(self) -> (r: i16) {
        self
    }
}

impl SampleConvert for i32 {
    /// The upper half of the bits: the sample divided by 2^16, rounded toward
    /// zero.
    open spec fn spec_to_i16(self) -> i16 {
        div_toward_zero(self as int, 65536) as i16
    }

    fn convert_to_i16(self) -> (r: i16) {
        let x = self as i64;
        if x >= 0 {
            ((x as u64) / 65536) as i16
        } else {
            (-((((-x) as u64) / 65536) as i64)) as i16
        }
    }
}

/// Convert each sample into the signed 16-bit domain, in order.
pub fn convert_samples<T: SampleConvert + Copy>(samples: &Vec<T>) -> (r: Vec<i16>)
    ensures
        r@.len() == samples@.len(),
        forall|i: int| 0 <= i < r@.len() ==> r@[i] == (#[trigger] samples@[i]).spec_to_i16(),
{
    let mut out: Vec<i16> = Vec::new();
    let mut i: usize = 0;
    while i < samples.len()
        invariant
            i <= samples@.len(),
            out@.len() == i,
            forall|j: int| 0 <= j < i ==> out@[j] == (#[trigger] samples@[j]).spec_to_i16(),
        decreases samples@.len() - i,
    {
        out.push(samples[i].convert_to_i16());
        i = i + 1;
    }
    out
}

} // verus!
