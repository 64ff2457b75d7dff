//! Folding pictures into a running average, pixel by pixel.
use vstd::prelude::*;

use crate::job::{is_error, is_info, is_send, JobEffect, Received};
use crate::text::{decimal, numbered};

verus! {

/// A picture in 8-bit RGB, its pixels row by row (left to right, top to
/// bottom).
pub struct RgbPicture {
    width: u32,
    height: u32,
    pixels: Vec<[u8; 3]>,
}

impl View for RgbPicture {
    type V = Seq<[u8; 3]>;

    closed spec fn view(&self) -> Seq<[u8; 3]> {
        self.pixels@
    }
}

/// The pixel that three consecutive bytes of a raw RGB buffer describe.
pub open spec fn raw_pixel(raw: Seq<u8>, k: int) -> [u8; 3] {
    [raw[3 * k], raw[3 * k + 1], raw[3 * k + 2]]
}

impl RgbPicture {
    #[verifier::type_invariant]
    spec fn shape(self) -> bool {
        self.pixels@.len() == self.width as int * self.height as int
    }

    pub closed spec fn spec_width(&self) -> u32 {
        self.width
    }

    pub closed spec fn spec_height(&self) -> u32 {
        self.height
    }

    pub fn width(&self) -> (r: u32)
        ensures
            r == self.spec_width(),
    {
        self.width
    }

    pub fn height(&self) -> (r: u32)
        ensures
            r == self.spec_height(),
    {
        self.height
    }

    /// The number of pixels, which is the width times the height.
    pub fn len(&self) -> (r: usize)
        ensures
            r == self@.len(),
            r == self.spec_width() as int * self.spec_height() as int,
    {
        proof {
            use_type_invariant(self);
        }
        self.pixels.len()
    }

    /// The pixel at position `k` in row order.
    pub fn pixel(&self, k: usize) -> (r: [u8; 3])
        requires
            k < self@.len(),
        ensures
            r == self@[k as int],
    {
        self.pixels[k]
    }

    /// A picture of the given size from its pixels in row order; `None` where
    /// the number of pixels is not the width times the height.
    pub fn from_pixels(width: u32, height: u32, pixels: Vec<[u8; 3]>) -> (r: Option<RgbPicture>)
        ensures
            r is Some <==> pixels@.len() == width as int * height as int,
            r matches Some(p) ==> p@ == pixels@ && p.spec_width() == width && p.spec_height()
                == height,
    {
        proof {
            lemma_area_fits(width, height);
        }
        if (width as u64) * (height as u64) != pixels.len() as u64 {
            return None;
        }
        Some(RgbPicture { width, height, pixels })
    }

    /// A picture of the given size from a raw buffer of RGB bytes in row
    /// order, three bytes per pixel; bytes past the picture are ignored.
    /// `None` where the buffer is shorter than three bytes per pixel.
    pub fn from_raw(width: u32, height: u32, raw: &Vec<u8>) -> (r: Option<RgbPicture>)
        ensures
            r is Some <==> raw@.len() >= 3 * (width as int * height as int),
            r matches Some(p) ==> p.spec_width() == width && p.spec_height() == height && p@.len()
                == width as int * height as int && forall|k: int|
                0 <= k < p@.len() ==> #[trigger] p@[k] == raw_pixel(raw@, k),
    {
        proof {
            lemma_area_fits(width, height);
        }
        let count: u64 = (width as u64) * (height as u64);
        if (raw.len() as u64) / 3 < count {
            return None;
        }
        let n = count as usize;
        let mut pixels: Vec<[u8; 3]> = Vec::new();
        let mut k: usize = 0;
        while k < n
            invariant
                n == width as int * height as int,
                3 * n <= raw@.len(),
                raw@.len() <= usize::MAX,
                k <= n,
                pixels@.len() == k,
                forall|j: int| 0 <= j < k ==> #[trigger] pixels@[j] == raw_pixel(raw@, j),
            decreases n - k,
        {
            let px: [u8; 3] = [raw[3 * k], raw[3 * k + 1], raw[3 * k + 2]];
            pixels.push(px);
            k = k + 1;
        }
        Some(RgbPicture { width, height, pixels })
    }

    /// The raw buffer of the picture: three bytes per pixel, in row order.
    pub fn into_raw(self) -> (raw: Vec<u8>)
        ensures
            raw@.len() == 3 * self@.len(),
            forall|k: int| 0 <= k < self@.len() ==> raw_pixel(raw@, k) == #[trigger] self@[k],
    {
        let mut raw: Vec<u8> = Vec::new();
        let mut k: usize = 0;
        while k < self.pixels.len()
            invariant
                k <= self.pixels@.len(),
                raw@.len() == 3 * k,
                forall|j: int| 0 <= j < k ==> raw_pixel(raw@, j) == #[trigger] self.pixels@[j],
            decreases self.pixels@.len() - k,
        {
            let px = self.pixels[k];
            let ghost before = raw@;
            raw.push(px[0]);
            raw.push(px[1]);
            raw.push(px[2]);
            proof {
                assert forall|j: int| 0 <= j < k + 1 implies raw_pixel(raw@, j)
                    == #[trigger] self.pixels@[j] by {
                    if j < k {
                        assert(raw_pixel(before, j) == self.pixels@[j]);
                        assert(raw@[3 * j] == before[3 * j]);
                        assert(raw@[3 * j + 1] == before[3 * j + 1]);
                        assert(raw@[3 * j + 2] == before[3 * j + 2]);
                    } else {
                        assert(raw_pixel(raw@, j) =~= px);
                    }
                }
            }
            k = k + 1;
        }
        raw
    }
}

/// The number of pixels of a picture fits in a `u64`.
proof fn lemma_area_fits(width: u32, height: u32)
    ensures
        width as int * height as int <= u64::MAX,
{
    assert(width as int * height as int <= u32::MAX as int * u32::MAX as int) by (nonlinear_arith);
}

/// The running average of one colour channel after `i + 1` pictures: the old
/// value moves toward the new one by the difference divided by `i + 1`,
/// rounded toward the old value.
pub open spec fn spec_new_byte(byte: u8, medium_byte: u8, i: u8) -> u8 {
    if byte > medium_byte {
        (medium_byte + (byte - medium_byte) / (i + 1)) as u8
    } else {
        (medium_byte - (medium_byte - byte) / (i + 1)) as u8
    }
}

/// A pixel counts as white when each of its channels is at least 250.
pub open spec fn is_white(p: [u8; 3]) -> bool {
    p[0] >= 250 && p[1] >= 250 && p[2] >= 250
}

/// The averaged pixel. A white new pixel leaves the average alone; a white
/// average is replaced by the new pixel; otherwise the first channel is
/// averaged with the new first channel, the second channel takes the average
/// of the new and old third channels, and the third channel is kept.
pub open spec fn spec_new_color(pixel: [u8; 3], medium_pixel: [u8; 3], i: u8) -> [u8; 3] {
    if is_white(pixel) {
        medium_pixel
    } else if is_white(medium_pixel) {
        pixel
    } else {
        [
            spec_new_byte(pixel[0], medium_pixel[0], i),
            spec_new_byte(pixel[2], medium_pixel[2], i),
            medium_pixel[2],
        ]
    }
}

/// Whether averaging the pixel pair with iteration `i` stays within `u8`
/// arithmetic: it does unless both pixels are coloured and `i + 1` overflows.
pub open spec fn color_in_range(pixel: [u8; 3], medium_pixel: [u8; 3], i: u8) -> bool {
    i < 255 || is_white(pixel) || is_white(medium_pixel)
}

/// One channel of the running average.
pub fn calculate_new_byte(byte: u8, medium_byte: u8, i: u8) -> (r: u8)
    requires
        i < 255,
    ensures
        r == spec_new_byte(byte, medium_byte, i),
{
    if byte > medium_byte {
        medium_byte + (byte - medium_byte) / (i + 1)
    } else {
        medium_byte - (medium_byte - byte) / (i + 1)
    }
}

/// One pixel of the running average, updated in place.
pub fn calculate_new_color(pixel: &[u8; 3], medium_pixel: &mut [u8; 3], iteration: u8)
    requires
        color_in_range(*pixel, *old(medium_pixel), iteration),
    ensures
        *final(medium_pixel) == spec_new_color(*pixel, *old(medium_pixel), iteration),
{
    let pixel_is_white = pixel[0] >= 250 && pixel[1] >= 250 && pixel[2] >= 250;
    let medium_pixel_is_white = medium_pixel[0] >= 250 && medium_pixel[1] >= 250
        && medium_pixel[2] >= 250;
    if pixel_is_white {
    } else if medium_pixel_is_white {
        medium_pixel[0] = pixel[0];
        medium_pixel[1] = pixel[1];
        medium_pixel[2] = pixel[2];
        assert(medium_pixel@ =~= pixel@);
    } else {
        let b0 = calculate_new_byte(pixel[0], medium_pixel[0], iteration);
        medium_pixel[0] = b0;
        let b1 = calculate_new_byte(pixel[1], medium_pixel[1], iteration);
        medium_pixel[1] = b1;
        let b2 = calculate_new_byte(pixel[2], medium_pixel[2], iteration);
        medium_pixel[1] = b2;
        assert(medium_pixel@ =~= spec_new_color(*pixel, *old(medium_pixel), iteration)@);
    }
}

/// Folds `image` into the running average `medium_image`, pairing the pixels
/// of both in row order; the pixels of `image` past those of `medium_image`
/// are not used.
pub fn accumulate(image: &RgbPicture, iteration: u8, medium_image: &mut RgbPicture)
    requires
        image@.len() >= old(medium_image)@.len(),
        forall|k: int|
            0 <= k < old(medium_image)@.len() ==> color_in_range(
                #[trigger] image@[k],
                old(medium_image)@[k],
                iteration,
            ),
    ensures
        final(medium_image)@.len() == old(medium_image)@.len(),
        final(medium_image).spec_width() == old(medium_image).spec_width(),
        final(medium_image).spec_height() == old(medium_image).spec_height(),
        forall|k: int|
            0 <= k < old(medium_image)@.len() ==> #[trigger] final(medium_image)@[k]
                == spec_new_color(image@[k], old(medium_image)@[k], iteration),
{
    proof {
        use_type_invariant(&*medium_image);
    }
    let n = medium_image.pixels.len();
    let mut pixels: Vec<[u8; 3]> = Vec::new();
    let mut k: usize = 0;
    while k < n
        invariant
            n == medium_image@.len(),
            image@.len() >= n,
            k <= n,
            pixels@.len() == k,
            forall|j: int|
                0 <= j < n ==> color_in_range(#[trigger] image@[j], medium_image@[j], iteration),
            forall|j: int|
                0 <= j < k ==> #[trigger] pixels@[j] == spec_new_color(
                    image@[j],
                    medium_image@[j],
                    iteration,
                ),
        decreases n - k,
    {
        let pixel = image.pixels[k];
        let mut medium_pixel = medium_image.pixels[k];
        calculate_new_color(&pixel, &mut medium_pixel, iteration);
        pixels.push(medium_pixel);
        k = k + 1;
    }
    *medium_image = RgbPicture { width: medium_image.width, height: medium_image.height, pixels };
}

/// A channel of the running average never leaves the range between the old
/// value and the new one.
pub proof fn law_new_byte_between(byte: u8, medium_byte: u8, i: u8)
    requires
        i < 255,
    ensures
        (byte <= spec_new_byte(byte, medium_byte, i) <= medium_byte) || (medium_byte <= spec_new_byte(
            byte,
            medium_byte,
            i,
        ) <= byte),
{
    let d = i as int + 1;
    if byte > medium_byte {
        assert((byte - medium_byte) / d <= byte - medium_byte) by (nonlinear_arith)
            requires
                d >= 1,
                byte - medium_byte > 0,
        ;
    } else {
        assert((medium_byte - byte) / d <= medium_byte - byte) by (nonlinear_arith)
            requires
                d >= 1,
                medium_byte - byte >= 0,
        ;
    }
}

/// Averaging with iteration 0 takes the new value; averaging a value with
/// itself keeps it.
pub proof fn law_new_byte_fixed_points(byte: u8, medium_byte: u8, i: u8)
    requires
        i < 255,
    ensures
        spec_new_byte(byte, medium_byte, 0) == byte,
        spec_new_byte(byte, byte, i) == byte,
{
}

/// A white pixel leaves the average alone, and a white average takes the new
/// pixel as it is.
pub proof fn law_white_pixels(pixel: [u8; 3], medium_pixel: [u8; 3], i: u8)
    ensures
        is_white(pixel) ==> spec_new_color(pixel, medium_pixel, i) == medium_pixel,
        !is_white(pixel) && is_white(medium_pixel) ==> spec_new_color(pixel, medium_pixel, i) == pixel,
{
}

/// Folding a pixel into the average: where all three channels of the pixel
/// are at least 250 (white) the average stays; else where all three of the
/// average are, it becomes the pixel; else, whatever any single channel
/// holds, channel 0 moves from the average toward the pixel by the
/// difference divided by `i + 1` (rounded toward the average), channel 1
/// takes the same blend of the third channels, and channel 2 stays.
pub proof fn law_color_blend(p: [u8; 3], m: [u8; 3], i: u8)
    ensures
        p[0] >= 250 && p[1] >= 250 && p[2] >= 250 ==> spec_new_color(p, m, i) == m,
        !(p[0] >= 250 && p[1] >= 250 && p[2] >= 250) && (m[0] >= 250 && m[1] >= 250 && m[2] >= 250)
            ==> spec_new_color(p, m, i) == p,
        !(p[0] >= 250 && p[1] >= 250 && p[2] >= 250) && !(m[0] >= 250 && m[1] >= 250 && m[2] >= 250)
            ==> {
            let r = spec_new_color(p, m, i);
            &&& r[0] as int == if p[0] > m[0] {
                m[0] + (p[0] - m[0]) / (i + 1)
            } else {
                m[0] - (m[0] - p[0]) / (i + 1)
            }
            &&& r[1] as int == if p[2] > m[2] {
                m[2] + (p[2] - m[2]) / (i + 1)
            } else {
                m[2] - (m[2] - p[2]) / (i + 1)
            }
            &&& r[2] == m[2]
        },
{
    if !(p[0] >= 250 && p[1] >= 250 && p[2] >= 250) && !(m[0] >= 250 && m[1] >= 250 && m[2] >= 250) {
        let d: int = i + 1;
        if p[0] > m[0] {
            assert((p[0] - m[0]) / d <= p[0] - m[0]) by (nonlinear_arith)
                requires
                    d >= 1,
                    p[0] - m[0] >= 0,
            ;
        } else {
            assert((m[0] - p[0]) / d <= m[0] - p[0]) by (nonlinear_arith)
                requires
                    d >= 1,
                    m[0] - p[0] >= 0,
            ;
        }
        if p[2] > m[2] {
            assert((p[2] - m[2]) / d <= p[2] - m[2]) by (nonlinear_arith)
                requires
                    d >= 1,
                    p[2] - m[2] >= 0,
            ;
        } else {
            assert((m[2] - p[2]) / d <= m[2] - p[2]) by (nonlinear_arith)
                requires
                    d >= 1,
                    m[2] - p[2] >= 0,
            ;
        }
    }
}

/// Folding a pixel into an equal average leaves it unchanged when it is white
/// or its second and third channels agree (the second channel of the average
/// takes the blend of the third channels).
pub proof fn law_same_pixel_kept(p: [u8; 3], i: u8)
    requires
        i < 255,
        is_white(p) || p[1] == p[2],
    ensures
        spec_new_color(p, p, i) == p,
{
    if !is_white(p) {
        assert(spec_new_color(p, p, i) =~= p);
    }
}

/// Turning a picture into its raw buffer and that buffer back into a picture
/// gives the same pixels: what `from_raw` reads from a buffer that
/// `into_raw` wrote is the picture that was written.
pub proof fn law_raw_round_trip(pixels: Seq<[u8; 3]>, raw: Seq<u8>, back: Seq<[u8; 3]>)
    requires
        raw.len() == 3 * pixels.len(),
        forall|k: int| 0 <= k < pixels.len() ==> raw_pixel(raw, k) == #[trigger] pixels[k],
        back.len() == pixels.len(),
        forall|k: int| 0 <= k < back.len() ==> #[trigger] back[k] == raw_pixel(raw, k),
    ensures
        back == pixels,
{
    assert(back =~= pixels);
}

/// The state of an accumulating worker: it waits for its first picture, then
/// folds every further picture into it until the end marker comes, and then
/// it is finished.
pub enum AccumulateJob {
    WaitingFirst,
    Accumulating { medium: RgbPicture, iteration: u8 },
    Finished,
}

/// Whether an accumulating worker can take `event` without an arithmetic
/// overflow or a missing pixel: a further picture needs the iteration count
/// below 255 and at least as many pixels as the running average.
pub open spec fn accumulate_step_in_range(job: AccumulateJob, event: Received) -> bool {
    match (job, event) {
        (AccumulateJob::Accumulating { medium, iteration }, Received::Picture(p)) => iteration < 255
            && p@.len() >= medium@.len(),
        _ => true,
    }
}

impl AccumulateJob {
    pub fn new() -> (r: AccumulateJob)
        ensures
            r is WaitingFirst,
    {
        AccumulateJob::WaitingFirst
    }

    /// The next state and the effects for one event.
    ///
    /// Waiting for the first picture: a picture starts the average (logging
    /// "Got first." and one unit of progress); the end marker, or a channel
    /// without senders (logged as an error first), makes the worker pass the
    /// end marker on and close. Accumulating: a picture is folded in with the
    /// current iteration, which then grows by one, and "Accumulated n." is
    /// logged with n the new iteration, with one unit of progress; the end
    /// marker makes the worker send the average, then the end marker, and
    /// close; a channel without senders changes nothing. Finished: nothing.
    pub fn step(self, event: Received) -> (r: (AccumulateJob, Vec<JobEffect>))
        requires
            accumulate_step_in_range(self, event),
        ensures
            match (self, event) {
                (AccumulateJob::WaitingFirst, Received::Picture(p)) => {
                    &&& r.0 == AccumulateJob::Accumulating { medium: p, iteration: 1 }
                    &&& r.1@.len() == 2
                    &&& is_info(r.1@[0], "Got first."@)
                    &&& r.1@[1] is Progress
                },
                (AccumulateJob::WaitingFirst, Received::End) => {
                    &&& r.0 is Finished
                    &&& r.1@.len() == 2
                    &&& is_send(r.1@[0], None, "Can't send early result"@)
                    &&& r.1@[1] is Closed
                },
                (AccumulateJob::WaitingFirst, Received::Disconnected) => {
                    &&& r.0 is Finished
                    &&& r.1@.len() == 3
                    &&& is_error(r.1@[0], "Can't get picture from channel"@)
                    &&& is_send(r.1@[1], None, "Can't send early result"@)
                    &&& r.1@[2] is Closed
                },
                (AccumulateJob::Accumulating { medium, iteration }, Received::Picture(p)) => {
                    &&& r.0 matches AccumulateJob::Accumulating { medium: m2, iteration: i2 }
                    &&& i2 == iteration + 1
                    &&& m2.spec_width() == medium.spec_width()
                    &&& m2.spec_height() == medium.spec_height()
                    &&& m2@.len() == medium@.len()
                    &&& forall|k: int|
                        0 <= k < medium@.len() ==> #[trigger] m2@[k] == spec_new_color(
                            p@[k],
                            medium@[k],
                            iteration,
                        )
                    &&& r.1@.len() == 2
                    &&& is_info(r.1@[0], "Accumulated "@ + decimal((iteration + 1) as nat) + "."@)
                    &&& r.1@[1] is Progress
                },
                (AccumulateJob::Accumulating { medium, iteration }, Received::End) => {
                    &&& r.0 is Finished
                    &&& r.1@.len() == 3
                    &&& is_send(r.1@[0], Some(medium), "Can't send accumulated result"@)
                    &&& is_send(r.1@[1], None, "Can't send end result"@)
                    &&& r.1@[2] is Closed
                },
                (AccumulateJob::Accumulating { medium, iteration }, Received::Disconnected) => {
                    &&& r.0 == self
                    &&& r.1@.len() == 0
                },
                (AccumulateJob::Finished, _) => {
                    &&& r.0 is Finished
                    &&& r.1@.len() == 0
                },
            },
    {
        let mut effects: Vec<JobEffect> = Vec::new();
        match self {
            AccumulateJob::WaitingFirst => match event {
                Received::Picture(p) => {
                    effects.push(JobEffect::Info(String::from_str("Got first.")));
                    effects.push(JobEffect::Progress);
                    (AccumulateJob::Accumulating { medium: p, iteration: 1 }, effects)
                },
                Received::End => {
                    effects.push(
                        JobEffect::Send {
                            picture: None,
                            on_failure: String::from_str("Can't send early result"),
                        },
                    );
                    effects.push(JobEffect::Closed);
                    (AccumulateJob::Finished, effects)
                },
                Received::Disconnected => {
                    effects.push(JobEffect::Error(String::from_str("Can't get picture from channel")));
                    effects.push(
                        JobEffect::Send {
                            picture: None,
                            on_failure: String::from_str("Can't send early result"),
                        },
                    );
                    effects.push(JobEffect::Closed);
                    (AccumulateJob::Finished, effects)
                },
            },
            AccumulateJob::Accumulating { medium, iteration } => match event {
                Received::Picture(p) => {
                    let mut medium = medium;
                    accumulate(&p, iteration, &mut medium);
                    effects.push(JobEffect::Info(numbered("Accumulated ", (iteration + 1) as u64, ".")));
                    effects.push(JobEffect::Progress);
                    (AccumulateJob::Accumulating { medium, iteration: iteration + 1 }, effects)
                },
                Received::End => {
                    effects.push(
                        JobEffect::Send {
                            picture: Some(medium),
                            on_failure: String::from_str("Can't send accumulated result"),
                        },
                    );
                    effects.push(
                        JobEffect::Send {
                            picture: None,
                            on_failure: String::from_str("Can't send end result"),
                        },
                    );
                    effects.push(JobEffect::Closed);
                    (AccumulateJob::Finished, effects)
                },
                Received::Disconnected => (AccumulateJob::Accumulating { medium, iteration }, effects),
            },
            AccumulateJob::Finished => (AccumulateJob::Finished, effects),
        }
    }
}

} // verus!
