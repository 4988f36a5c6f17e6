//! Image checks: container format, dimensions and animation frames, read
//! from the header without decoding pixels (GIF frames excepted).

use vstd::prelude::*;
use std::io::Cursor;
use image::codecs::gif::GifDecoder;
use image::{AnimationDecoder, Frame, Frames, ImageError, ImageReader};
use crate::config::ImagePolicySection;
use crate::config::{opt_view, views_of};
use crate::policy::ResolvedPolicy;
use crate::text::{ascii_lower, eq_ignore_ascii_case_str};
use crate::validators::{denial, denial_of, Details, Finding, ValidatorOutcome, ValidatorStatus};

verus! {

/// `image::Frames`, the iterator over a GIF's frames, carried opaquely.
#[verifier::external_type_specification]
#[verifier::external_body]
pub struct ExFrames<'a>(Frames<'a>);

/// `image::Frame`, the item type of `image::Frames`, never inspected.
#[verifier::external_type_specification]
#[verifier::external_body]
pub struct ExFrame(Frame);

/// `image::ImageError`, the error of a frame, never inspected.
#[verifier::external_type_specification]
#[verifier::external_body]
pub struct ExImageError(ImageError);

/// The file extensions of the image format that the first bytes of `data`
/// show, when they show one.
pub uninterp spec fn image_format_of(data: Seq<u8>) -> Option<Seq<Seq<char>>>;

/// Relies on `image::ImageReader::with_guessed_format` over an in-memory
/// cursor (whose reads do not fail), then `ImageReader::format` and
/// `ImageFormat::extensions_str`: the extensions of the detected format,
/// `None` when no known format is detected.
#[verifier::external_body]
fn guess_image_format(data: &[u8]) -> (r: Option<Vec<String>>)
    ensures
        match r {
            Some(v) => image_format_of(data@) == Some(views_of(v@)),
            None => image_format_of(data@) is None,
        },
{
    let reader = ImageReader::new(Cursor::new(data)).with_guessed_format().ok()?;
    reader.format().map(|f| f.extensions_str().iter().map(|e| e.to_string()).collect())
}

/// The parts joined, with `,` between consecutive ones.
pub open spec fn comma_joined(parts: Seq<Seq<char>>) -> Seq<char>
    decreases parts.len(),
{
    if parts.len() == 0 {
        Seq::empty()
    } else if parts.len() == 1 {
        parts[0]
    } else {
        comma_joined(parts.drop_last()) + ","@ + parts.last()
    }
}

/// Joins `parts` with commas.
pub fn join_with_commas(parts: &Vec<String>) -> (r: String)
    ensures
        r@ == comma_joined(views_of(parts@)),
{
    let mut r = String::new();
    let mut i: usize = 0;
    while i < parts.len()
        invariant
            i <= parts@.len(),
            r@ == comma_joined(views_of(parts@.subrange(0, i as int))),
        decreases parts@.len() - i,
    {
        let ghost prefix = parts@.subrange(0, i + 1);
        assert(prefix.drop_last() =~= parts@.subrange(0, i as int));
        assert(views_of(prefix).drop_last() =~= views_of(parts@.subrange(0, i as int)));
        if i > 0 {
            r.append(",");
        }
        r.append(parts[i].as_str());
        proof {
            if i == 0 {
                assert(views_of(prefix) =~= seq![parts@[0]@]);
            }
        }
        i = i + 1;
    }
    assert(parts@.subrange(0, parts@.len() as int) =~= parts@);
    r
}

/// The width and height that the header of `data` declares, when its format
/// is detected and the header decodes.
pub uninterp spec fn image_dims_of(data: Seq<u8>) -> Option<(u32, u32)>;

/// Relies on `image::ImageReader::into_dimensions` after the same format
/// guess: the width and height declared by the header, `None` when no format
/// is detected or the header cannot be decoded.
#[verifier::external_body]
fn read_image_dimensions(data: &[u8]) -> (r: Option<(u32, u32)>)
    ensures
        r == image_dims_of(data@),
{
    let reader = ImageReader::new(Cursor::new(data)).with_guessed_format().ok()?;
    reader.into_dimensions().ok()
}

/// What decoding the GIF in `data` yields, item by item: key `k` holds
/// whether the `k`-th item is a decoded frame (`true`) or a decoding error
/// (`false`); `None` when the GIF header cannot be read.
pub uninterp spec fn gif_frames_of(data: Seq<u8>) -> Option<Map<nat, bool>>;

/// The items that a frame iterator has still to yield, numbered from 0.
pub uninterp spec fn frames_remaining(frames: Frames<'_>) -> Map<nat, bool>;

/// The items of `m` from position `n` on, renumbered from 0.
pub open spec fn items_from(m: Map<nat, bool>, n: nat) -> Map<nat, bool> {
    Map::new(|k: nat| m.dom().contains(k + n), |k: nat| m[k + n])
}

/// Relies on `image::codecs::gif::GifDecoder::new` and
/// `AnimationDecoder::into_frames`: the iterator over the GIF's frames;
/// `None` when the GIF header cannot be read.
#[verifier::external_body]
fn open_gif_frames<'a>(data: &'a [u8]) -> (r: Option<Frames<'a>>)
    ensures
        match r {
            Some(f) => gif_frames_of(data@) == Some(frames_remaining(f)),
            None => gif_frames_of(data@) is None,
        },
{
    let decoder = GifDecoder::new(Cursor::new(data)).ok()?;
    Some(decoder.into_frames())
}

/// Relies on `Iterator::next` of `image::Frames`: `None` at the end,
/// `Some(true)` for a decoded frame, `Some(false)` for a decoding error; the
/// item taken leaves the iterator.
#[verifier::external_body]
fn next_gif_frame(frames: &mut Frames<'_>) -> (r: Option<bool>)
    ensures
        frames_remaining(*old(frames)).dom().contains(0) ==> r == Some(
            frames_remaining(*old(frames))[0],
        ) && frames_remaining(*final(frames)) == items_from(frames_remaining(*old(frames)), 1),
        !frames_remaining(*old(frames)).dom().contains(0) ==> r is None,
{
    frames.next().map(|f| f.is_ok())
}

/// Items counted from position `k` on: decoded frames are counted until the
/// end, the first decoding error (counted too) or `limit` items.
pub open spec fn frames_counted(m: Map<nat, bool>, k: nat, limit: nat) -> nat
    decreases limit - k,
{
    if k >= limit || !m.dom().contains(k) {
        k
    } else if m[k] {
        frames_counted(m, k + 1, limit)
    } else {
        k + 1
    }
}

/// The frame count of an image: for a GIF, its frames counted up to the
/// buffer's length in bytes (every frame takes some); 1 otherwise.
pub open spec fn frames_of(mime: Seq<char>, data: Seq<u8>) -> u64 {
    if is_gif_mime(mime) {
        match gif_frames_of(data) {
            Some(m) => frames_counted(m, 0, data.len()) as u64,
            None => 1,
        }
    } else {
        1
    }
}

/// Frames of a GIF, counted until the decoder ends or reports an error (the
/// failed frame included), and at most one per byte of the buffer.
fn count_gif_frames(data: &[u8]) -> (r: Option<u64>)
    ensures
        match gif_frames_of(data@) {
            Some(m) => r == Some(frames_counted(m, 0, data@.len()) as u64),
            None => r is None,
        },
{
    let mut frames = match open_gif_frames(data) {
        Some(f) => f,
        None => {
            return None;
        },
    };
    let ghost m = frames_remaining(frames);
    let limit = data.len() as u64;
    let mut n: u64 = 0;
    assert(items_from(m, 0) =~= m);
    while n < limit
        invariant_except_break
            frames_remaining(frames) == items_from(m, n as nat),
            frames_counted(m, 0, limit as nat) == frames_counted(m, n as nat, limit as nat),
        invariant
            n <= limit,
            limit == data@.len(),
        ensures
            frames_counted(m, 0, limit as nat) == n,
        decreases limit - n,
    {
        let ghost rest = frames_remaining(frames);
        match next_gif_frame(&mut frames) {
            None => {
                break;
            },
            Some(true) => {
                assert(items_from(rest, 1) =~= items_from(m, (n + 1) as nat));
                n = n + 1;
            },
            Some(false) => {
                n = n + 1;
                break;
            },
        }
    }
    Some(n)
}

/// What the image reader found in the header.
#[derive(Debug, Clone)]
pub enum ImageProbe {
    /// The container format could not be detected.
    Undetected,
    /// The format is known but the dimensions could not be read.
    Unreadable,
    /// Dimensions and, when known, the format's extensions (comma separated).
    Read { width: u32, height: u32, format: Option<String> },
}

/// The image section in force: the resolved one, or no limits.
pub open spec fn image_section_same(s: &ImagePolicySection, policy: Option<ResolvedPolicy>) -> bool {
    match policy {
        Some(p) => s.same_as(&p.image),
        None => s.max_dimensions is None && s.max_frames is None && s.strip_metadata is None,
    }
}

/// The extension list, when it is not empty.
pub open spec fn present(format: Option<String>) -> Option<String> {
    match format {
        Some(f) => if f@.len() > 0 {
            Some(f)
        } else {
            None
        },
        None => None,
    }
}

/// Whether metadata stripping is requested with mode `deny` (any case).
pub open spec fn strip_requested(strip: Option<Seq<char>>) -> bool {
    strip matches Some(s) && ascii_lower(s) == ascii_lower("deny"@)
}

/// Verdict on an image, checks in order: format, dimensions, size bound,
/// frame count, metadata stripping.
pub open spec fn image_verdict(
    probe: ImageProbe,
    frames: u64,
    max_dimensions: Option<[u32; 2]>,
    max_frames: Option<u32>,
    strip: Option<Seq<char>>,
) -> ValidatorOutcome {
    match probe {
        ImageProbe::Undetected => ValidatorOutcome {
            name: "image",
            status: ValidatorStatus::Error,
            details: Details::Finding(Finding::ImageFormatUndetected),
        },
        ImageProbe::Unreadable => denial("image", Finding::ImageDimensionsUnreadable),
        ImageProbe::Read { width, height, format } => {
            if max_dimensions matches Some(d) && (width > d[0] || height > d[1]) {
                denial(
                    "image",
                    Finding::ImageTooLarge {
                        width,
                        height,
                        max_width: max_dimensions->0[0],
                        max_height: max_dimensions->0[1],
                    },
                )
            } else if max_frames matches Some(m) && frames > m {
                denial("image", Finding::ImageTooManyFrames { frames, max_frames: max_frames->0 })
            } else if strip_requested(strip) {
                ValidatorOutcome {
                    name: "image",
                    status: ValidatorStatus::Warn,
                    details: Details::Finding(Finding::ImageMetadataNotStripped),
                }
            } else {
                ValidatorOutcome {
                    name: "image",
                    status: ValidatorStatus::Pass,
                    details: Details::Image { width, height, format: present(format), frames },
                }
            }
        },
    }
}

/// Whether the dimensions are within `[max_width, max_height]`.
fn within_bounds(width: u32, height: u32, max_dimensions: Option<[u32; 2]>) -> (r: bool)
    ensures
        r == !(max_dimensions matches Some(d) && (width > d[0] || height > d[1])),
{
    match max_dimensions {
        Some(d) => width <= d[0] && height <= d[1],
        None => true,
    }
}

/// Applies the image policy to what the reader found and to the frame count.
pub fn image_outcome(probe: ImageProbe, frames: u64, policy: &ImagePolicySection) -> (r: ValidatorOutcome)
    ensures
        r == image_verdict(
            probe,
            frames,
            policy.max_dimensions,
            policy.max_frames,
            opt_view(policy.strip_metadata),
        ),
{
    match probe {
        ImageProbe::Undetected => ValidatorOutcome::new(
            "image",
            ValidatorStatus::Error,
            Details::Finding(Finding::ImageFormatUndetected),
        ),
        ImageProbe::Unreadable => denial_of("image", Finding::ImageDimensionsUnreadable),
        ImageProbe::Read { width, height, format } => {
            if !within_bounds(width, height, policy.max_dimensions) {
                let d = policy.max_dimensions.unwrap();
                return denial_of(
                    "image",
                    Finding::ImageTooLarge { width, height, max_width: d[0], max_height: d[1] },
                );
            }
            if let Some(max_frames) = policy.max_frames {
                if frames > max_frames as u64 {
                    return denial_of("image", Finding::ImageTooManyFrames { frames, max_frames });
                }
            }
            if let Some(mode) = &policy.strip_metadata {
                if eq_ignore_ascii_case_str(mode.as_str(), "deny") {
                    return ValidatorOutcome::new(
                        "image",
                        ValidatorStatus::Warn,
                        Details::Finding(Finding::ImageMetadataNotStripped),
                    );
                }
            }
            let format = match format {
                Some(f) => if f.as_str().is_empty() {
                    None
                } else {
                    Some(f)
                },
                None => None,
            };
            ValidatorOutcome::new(
                "image",
                ValidatorStatus::Pass,
                Details::Image { width, height, format, frames },
            )
        },
    }
}

/// Whether `mime` is `image/gif`, in any case.
pub open spec fn is_gif_mime(mime: Seq<char>) -> bool {
    ascii_lower(mime) == ascii_lower("image/gif"@)
}

/// `probe` is what the reader reports on `data`: no format detected, a
/// format whose header does not decode, or the declared dimensions with the
/// format's extensions joined by commas.
pub open spec fn probe_matches(probe: ImageProbe, data: Seq<u8>) -> bool {
    match image_format_of(data) {
        None => probe is Undetected,
        Some(exts) => match image_dims_of(data) {
            None => probe is Unreadable,
            Some(d) => {
                &&& probe is Read
                &&& probe->width == d.0
                &&& probe->height == d.1
                &&& probe->format matches Some(f)
                &&& probe->format->0@ == comma_joined(exts)
            },
        },
    }
}

/// `r` is the image policy in force applied to what the reader reports on
/// `data` and to its frame count.
pub open spec fn image_result(
    r: ValidatorOutcome,
    mime: Seq<char>,
    data: Seq<u8>,
    policy: Option<ResolvedPolicy>,
) -> bool {
    exists|probe: ImageProbe, section: ImagePolicySection|
        {
            &&& image_section_same(&section, policy)
            &&& probe_matches(probe, data)
            &&& r == image_verdict(
                probe,
                frames_of(mime, data),
                section.max_dimensions,
                section.max_frames,
                opt_view(section.strip_metadata),
            )
        }
}

/// An image whose header declares a width or height above the configured
/// bound is denied, whatever its type and frames.
pub proof fn lemma_oversized_image_denied(
    r: ValidatorOutcome,
    mime: Seq<char>,
    data: Seq<u8>,
    policy: ResolvedPolicy,
)
    requires
        image_result(r, mime, data, Some(policy)),
        image_format_of(data) is Some,
        image_dims_of(data) matches Some(d) && policy.image.max_dimensions matches Some(m) && (
        d.0 > m[0] || d.1 > m[1]),
    ensures
        r.name == "image",
        r.status == ValidatorStatus::Deny,
{
    let (probe, section) = choose|probe: ImageProbe, section: ImagePolicySection|
        {
            &&& image_section_same(&section, Some(policy))
            &&& probe_matches(probe, data)
            &&& r == image_verdict(
                probe,
                frames_of(mime, data),
                section.max_dimensions,
                section.max_frames,
                opt_view(section.strip_metadata),
            )
        };
    assert(section.max_dimensions == policy.image.max_dimensions);
}

/// Image checks on `data`, whose sniffed type is `mime`.
///
/// Whatever the image reader reports, the result is the policy applied to
/// it; the frame count is 1 except for GIFs, whose frames are counted.
pub fn validate_image(mime: &str, data: &[u8], policy: Option<&ResolvedPolicy>) -> (r: ValidatorOutcome)
    ensures
        image_result(
            r,
            mime@,
            data@,
            match policy {
                Some(p) => Some(*p),
                None => None,
            },
        ),
{
    let fallback = ImagePolicySection::default();
    let section = match policy {
        Some(p) => &p.image,
        None => &fallback,
    };
    let probe = match guess_image_format(data) {
        None => ImageProbe::Undetected,
        Some(extensions) => match read_image_dimensions(data) {
            None => ImageProbe::Unreadable,
            Some((width, height)) => ImageProbe::Read {
                width,
                height,
                format: Some(join_with_commas(&extensions)),
            },
        },
    };
    let ghost read = probe;
    let mut frames: u64 = 1;
    if let ImageProbe::Read { width, height, .. } = &probe {
        if within_bounds(*width, *height, section.max_dimensions) && eq_ignore_ascii_case_str(
            mime,
            "image/gif",
        ) {
            if let Some(n) = count_gif_frames(data) {
                frames = n;
            }
        }
    }
    let r = image_outcome(probe, frames, section);
    proof {
        let dims = section.max_dimensions;
        let strip = opt_view(section.strip_metadata);
        assert(image_verdict(read, frames, dims, section.max_frames, strip) == image_verdict(
            read,
            frames_of(mime@, data@),
            dims,
            section.max_frames,
            strip,
        ));
        assert(probe_matches(read, data@));
    }
    r
}

} // verus!
