//! Health tiers: the classification of a measured latency against the
//! configured thresholds.

use vstd::prelude::*;
use crate::settings::LatencyThresholds;

verus! {

/// Discrete health tier, from best to worst. `Unknown` stands for "no
/// measurement yet" and is never the tier of a latency.
#[derive(Debug, Clone, Copy, PartialEq, Eq, PartialOrd, Ord, Structural)]
pub enum IconStatus {
    Excellent,
    Good,
    Warning,
    Critical,
    Unknown,
}

/// Microseconds in a millisecond: latencies are measured in microseconds,
/// thresholds are configured in milliseconds.
pub const MICROS_PER_MILLI: u64 = 1000;

/// Rank of a tier in the order from best to worst.
pub open spec fn rank(status: IconStatus) -> int {
    match status {
        IconStatus::Excellent => 0,
        IconStatus::Good => 1,
        IconStatus::Warning => 2,
        IconStatus::Critical => 3,
        IconStatus::Unknown => 4,
    }
}

/// The tier of a latency of `latency_us` microseconds: the first of
/// excellent, good and warning whose threshold the latency does not exceed,
/// else critical. A latency equal to a threshold belongs to the better tier.
pub open spec fn classify(latency_us: int, thresholds: LatencyThresholds) -> IconStatus {
    if latency_us <= thresholds.excellent * MICROS_PER_MILLI {
        IconStatus::Excellent
    } else if latency_us <= thresholds.good * MICROS_PER_MILLI {
        IconStatus::Good
    } else if latency_us <= thresholds.warning * MICROS_PER_MILLI {
        IconStatus::Warning
    } else {
        IconStatus::Critical
    }
}

/// The colour of a tier as red, green, blue and opacity: green for
/// excellent, yellow for good, orange for warning, red for critical and grey
/// for unknown.
pub open spec fn tier_colour(status: IconStatus) -> Seq<u8> {
    match status {
        IconStatus::Excellent => seq![34u8, 197u8, 94u8, 255u8],
        IconStatus::Good => seq![234u8, 179u8, 8u8, 255u8],
        IconStatus::Warning => seq![249u8, 115u8, 22u8, 255u8],
        IconStatus::Critical => seq![239u8, 68u8, 68u8, 255u8],
        IconStatus::Unknown => seq![156u8, 163u8, 175u8, 255u8],
    }
}

impl IconStatus {
    /// The tier of a latency of `latency_us` microseconds.
    pub fn from_latency(latency_us: u64, thresholds: &LatencyThresholds) -> (status: Self)
        ensures
            status == classify(latency_us as int, *thresholds),
    {
        if latency_us <= (thresholds.excellent as u64) * MICROS_PER_MILLI {
            IconStatus::Excellent
        } else if latency_us <= (thresholds.good as u64) * MICROS_PER_MILLI {
            IconStatus::Good
        } else if latency_us <= (thresholds.warning as u64) * MICROS_PER_MILLI {
            IconStatus::Warning
        } else {
            IconStatus::Critical
        }
    }

    /// The colour of the tier as red, green, blue and opacity.
    pub fn get_color(&self) -> (rgba: [u8; 4])
        ensures
            rgba@ == tier_colour(*self),
    {
        let rgba: [u8; 4] = match self {
            IconStatus::Excellent => [34, 197, 94, 255],
            IconStatus::Good => [234, 179, 8, 255],
            IconStatus::Warning => [249, 115, 22, 255],
            IconStatus::Critical => [239, 68, 68, 255],
            IconStatus::Unknown => [156, 163, 175, 255],
        };
        assert(rgba@ =~= tier_colour(*self));
        rgba
    }
}

/// The tier never gets better as the latency grows, whatever the
/// thresholds are.
pub proof fn lemma_classify_monotonic(slower: int, faster: int, thresholds: LatencyThresholds)
    requires
        faster <= slower,
    ensures
        rank(classify(faster, thresholds)) <= rank(classify(slower, thresholds)),
{
}

/// No latency is classified as `Unknown`.
pub proof fn lemma_classify_never_unknown(latency_us: int, thresholds: LatencyThresholds)
    ensures
        classify(latency_us, thresholds) != IconStatus::Unknown,
{
}

/// A latency equal to the excellent threshold is excellent, whatever the
/// other thresholds are.
pub proof fn lemma_excellent_boundary(thresholds: LatencyThresholds)
    ensures
        classify(thresholds.excellent * MICROS_PER_MILLI, thresholds) == IconStatus::Excellent,
{
}

/// With ascending thresholds each boundary belongs to the better tier and
/// the least latency above it to the next one.
pub proof fn lemma_boundaries(thresholds: LatencyThresholds)
    requires
        thresholds.excellent < thresholds.good < thresholds.warning,
    ensures
        classify(thresholds.excellent * MICROS_PER_MILLI, thresholds) == IconStatus::Excellent,
        classify(thresholds.excellent * MICROS_PER_MILLI + 1, thresholds) == IconStatus::Good,
        classify(thresholds.good * MICROS_PER_MILLI, thresholds) == IconStatus::Good,
        classify(thresholds.good * MICROS_PER_MILLI + 1, thresholds) == IconStatus::Warning,
        classify(thresholds.warning * MICROS_PER_MILLI, thresholds) == IconStatus::Warning,
        classify(thresholds.warning * MICROS_PER_MILLI + 1, thresholds) == IconStatus::Critical,
{
}

/// With ascending thresholds every latency above the excellent threshold
/// and up to the good one is good.
pub proof fn lemma_above_excellent_is_good(latency_us: int, thresholds: LatencyThresholds)
    requires
        thresholds.excellent * MICROS_PER_MILLI < latency_us <= thresholds.good
            * MICROS_PER_MILLI,
    ensures
        classify(latency_us, thresholds) == IconStatus::Good,
{
}

/// Width and height of the icon in pixels.
pub const ICON_SIZE: u32 = 64;

/// Square of the radius of the coloured disc.
pub const DISC_RADIUS_SQUARED: u32 = 784;

/// Square of the outer radius of the white border round the disc.
pub const BORDER_RADIUS_SQUARED: u32 = 900;

/// Square of the distance of a pixel from the centre of the icon.
pub open spec fn distance_squared(x: int, y: int) -> int {
    (x - ICON_SIZE / 2) * (x - ICON_SIZE / 2) + (y - ICON_SIZE / 2) * (y - ICON_SIZE / 2)
}

/// The pixel of the icon at column `x` and row `y`: the colour of the
/// tier within 28 pixels of the centre, a translucent white border up to 30
/// pixels from it, and nothing beyond.
pub open spec fn icon_pixel(status: IconStatus, x: int, y: int) -> Seq<u8> {
    if distance_squared(x, y) <= DISC_RADIUS_SQUARED {
        tier_colour(status)
    } else if distance_squared(x, y) <= BORDER_RADIUS_SQUARED {
        seq![255u8, 255u8, 255u8, 200u8]
    } else {
        seq![0u8, 0u8, 0u8, 0u8]
    }
}

/// The pixels of the icon, row by row, four bytes each.
pub open spec fn icon_pixels(status: IconStatus) -> Seq<u8> {
    Seq::new(
        (ICON_SIZE * ICON_SIZE * 4) as nat,
        |i: int|
            icon_pixel(status, (i / 4) % (ICON_SIZE as int), (i / 4) / (ICON_SIZE as int))[i
                % 4],
    )
}

/// Paints the icon of a tier.
pub fn render_icon(status: IconStatus) -> (pixels: Vec<u8>)
    ensures
        pixels@ == icon_pixels(status),
{
    let colour = status.get_color();
    let mut pixels: Vec<u8> = Vec::new();
    let mut k: u32 = 0;
    while k < ICON_SIZE * ICON_SIZE
        invariant
            k <= ICON_SIZE * ICON_SIZE,
            pixels.len() == 4 * k,
            colour@ == tier_colour(status),
            forall|i: int| 0 <= i < 4 * k ==> pixels@[i] == icon_pixels(status)[i],
        decreases ICON_SIZE * ICON_SIZE - k,
    {
        let x: u32 = k % ICON_SIZE;
        let y: u32 = k / ICON_SIZE;
        let dx: u32 = if x >= ICON_SIZE / 2 {
            x - ICON_SIZE / 2
        } else {
            ICON_SIZE / 2 - x
        };
        let dy: u32 = if y >= ICON_SIZE / 2 {
            y - ICON_SIZE / 2
        } else {
            ICON_SIZE / 2 - y
        };
        assert(dx <= 32 && dy <= 32);
        assert(dx * dx <= 1024 && dy * dy <= 1024) by (nonlinear_arith)
            requires
                dx <= 32 && dy <= 32,
        ;
        let d2: u32 = dx * dx + dy * dy;
        assert(d2 == distance_squared(x as int, y as int)) by (nonlinear_arith)
            requires
                d2 == dx * dx + dy * dy,
                dx == x - 32 || dx == 32 - x,
                dy == y - 32 || dy == 32 - y,
        ;
        let pixel: [u8; 4] = if d2 <= DISC_RADIUS_SQUARED {
            colour
        } else if d2 <= BORDER_RADIUS_SQUARED {
            [255, 255, 255, 200]
        } else {
            [0, 0, 0, 0]
        };
        assert(pixel@ =~= icon_pixel(status, x as int, y as int));
        let ghost before = pixels@;
        pixels.push(pixel[0]);
        pixels.push(pixel[1]);
        pixels.push(pixel[2]);
        pixels.push(pixel[3]);
        proof {
            assert forall|i: int| 0 <= i < 4 * (k + 1) implies pixels@[i] == icon_pixels(
                status,
            )[i] by {
                if i >= 4 * k {
                    assert(i / 4 == k);
                    assert(pixels@[i] == pixel@[i % 4]);
                } else {
                    assert(pixels@[i] == before[i]);
                }
            }
        }
        k += 1;
    }
    assert(pixels@ =~= icon_pixels(status));
    pixels
}

/// The PNG file that the encoder of the `image` crate writes for an image
/// of the given width and height whose pixels, row by row, are four bytes of
/// red, green, blue and opacity each; `None` where the encoder refuses the
/// image.
pub uninterp spec fn png_encoding(width: u32, height: u32, rgba: Seq<u8>) -> Option<Seq<u8>>;

/// Calls `image::write_buffer_with_format` with the PNG format and the
/// colour type of four 8-bit channels, writing to memory. The contract only
/// names the result. The encoder panics on a buffer of the wrong length,
/// which `requires` leaves out.
#[verifier::external_body]
pub(crate) fn encode_png(width: u32, height: u32, rgba: &Vec<u8>) -> (png: Option<Vec<u8>>)
    requires
        rgba.len() == width * height * 4,
    ensures
        png.deep_view() == png_encoding(width, height, rgba@),
{
    let mut out = std::io::Cursor::new(Vec::new());
    image::write_buffer_with_format(
        &mut out,
        rgba,
        width,
        height,
        image::ExtendedColorType::Rgba8,
        image::ImageFormat::Png,
    ).ok()?;
    Some(out.into_inner())
}

/// The icon of a tier as a PNG file; `None` where it cannot be encoded.
pub fn generate_tray_icon(status: IconStatus) -> (png: Option<Vec<u8>>)
    ensures
        png.deep_view() == png_encoding(ICON_SIZE, ICON_SIZE, icon_pixels(status)),
{
    let pixels = render_icon(status);
    encode_png(ICON_SIZE, ICON_SIZE, &pixels)
}

} // verus!
