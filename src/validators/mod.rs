//! Type-specific content validators and the dispatcher that picks one.

use vstd::prelude::*;

pub mod archive;
pub mod generic;
pub mod pdf;
pub mod raster;

pub use archive::validate_archive;
pub use generic::validate_generic;
pub use pdf::validate_pdf;
pub use raster::validate_image;

use vstd::string::*;
use crate::policy::ResolvedPolicy;
use archive::{archive_result, archive_section};
use generic::generic_verdict;
use pdf::{pdf_section, pdf_verdict};
use raster::image_result;

verus! {

/// A `Deny` outcome of validator `name` for reason `f`.
pub open spec fn denial(name: &'static str, f: Finding) -> ValidatorOutcome {
    ValidatorOutcome { name, status: ValidatorStatus::Deny, details: Details::Finding(f) }
}

/// Builds the `Deny` outcome of validator `name` for reason `f`.
pub fn denial_of(name: &'static str, f: Finding) -> (r: ValidatorOutcome)
    ensures
        r == denial(name, f),
{
    ValidatorOutcome { name, status: ValidatorStatus::Deny, details: Details::Finding(f) }
}

/// Status of one validator's run, as written in reports.
#[derive(Debug, Clone, Copy, PartialEq, Eq, Structural)]
pub enum ValidatorStatus {
    Pass,
    Warn,
    Deny,
    Error,
}

impl ValidatorStatus {
    /// Report label of the status.
    pub open spec fn label(self) -> Seq<char> {
        match self {
            ValidatorStatus::Pass => "pass"@,
            ValidatorStatus::Warn => "warn"@,
            ValidatorStatus::Deny => "deny"@,
            ValidatorStatus::Error => "error"@,
        }
    }

    /// `pass`, `warn`, `deny` or `error`.
    pub fn as_str(&self) -> (r: &'static str)
        ensures
            r@ == self.label(),
    {
        match self {
            ValidatorStatus::Pass => "pass",
            ValidatorStatus::Warn => "warn",
            ValidatorStatus::Deny => "deny",
            ValidatorStatus::Error => "error",
        }
    }
}

/// Why a validator did not pass a file.
#[derive(Debug, Clone, PartialEq, Eq)]
pub enum Finding {
    /// The buffer does not start with `%PDF-`.
    PdfHeaderMissing,
    /// More page markers than `max_pages`.
    PdfTooManyPages { pages: u64, max_pages: u32 },
    /// A `/JavaScript` or `/JS` marker while scripts are not allowed.
    PdfJavaScript,
    /// An `/EmbeddedFiles` marker while embedded files are forbidden.
    PdfEmbeddedFiles,
    /// The image container format could not be detected.
    ImageFormatUndetected,
    /// The format is known but the dimensions could not be read.
    ImageDimensionsUnreadable,
    /// Width or height above the configured bound.
    ImageTooLarge { width: u32, height: u32, max_width: u32, max_height: u32 },
    /// More animation frames than `max_frames`.
    ImageTooManyFrames { frames: u64, max_frames: u32 },
    /// Metadata stripping was asked for but is not performed: the file is
    /// returned unmodified.
    ImageMetadataNotStripped,
    /// The buffer is not a readable zip central directory.
    ArchiveInvalid,
    /// The entry at this index could not be read.
    ArchiveEntryUnreadable { index: usize },
    /// The entry's name does not resolve to a path enclosed in the archive.
    ArchivePathTraversal { entry: String },
    /// The entry is a symbolic link.
    ArchiveSymlink { entry: String },
    /// The entry's compression ratio `uncompressed / compressed` is above `max_ratio`.
    ArchiveRatioExceeded { entry: String, compressed: u64, uncompressed: u64, max_ratio: u32 },
    /// The entry's path is deeper than `max_depth`.
    ArchiveTooDeep { entry: String, depth: u64, max_depth: u32 },
}

/// Compressed and uncompressed size of one archive entry.
#[derive(Debug, Clone, Copy, PartialEq, Eq, Structural)]
pub struct ArchiveEntryStats {
    pub compressed_size: u64,
    pub uncompressed_size: u64,
}

/// Validator-specific payload of an outcome.
#[derive(Debug, Clone, PartialEq, Eq)]
pub enum Details {
    Empty,
    /// Free-form explanation.
    Message(String),
    /// Structured reason for a non-passing outcome.
    Finding(Finding),
    /// A PDF that passed.
    Pdf { size_bytes: u64, page_count: u64 },
    /// An image that passed; `format` is the detected container's file
    /// extensions, comma separated, when there are any.
    Image { width: u32, height: u32, format: Option<String>, frames: u64 },
    /// An archive that passed, with the sizes of every entry in order.
    Archive { entries: Vec<ArchiveEntryStats> },
    /// Content without a specialised validator.
    Generic { size_bytes: u64 },
}

/// What one validator concluded about one file.
#[derive(Debug, Clone)]
pub struct ValidatorOutcome {
    pub name: &'static str,
    pub status: ValidatorStatus,
    pub details: Details,
}

impl ValidatorOutcome {
    pub fn new(name: &'static str, status: ValidatorStatus, details: Details) -> (r: Self)
        ensures
            r == (ValidatorOutcome { name, status, details }),
    {
        ValidatorOutcome { name, status, details }
    }

    pub fn pass(name: &'static str) -> (r: Self)
        ensures
            r == (ValidatorOutcome { name, status: ValidatorStatus::Pass, details: Details::Empty }),
    {
        Self::new(name, ValidatorStatus::Pass, Details::Empty)
    }

    pub fn warn(name: &'static str, message: String) -> (r: Self)
        ensures
            r == (ValidatorOutcome {
                name,
                status: ValidatorStatus::Warn,
                details: Details::Message(message),
            }),
    {
        Self::new(name, ValidatorStatus::Warn, Details::Message(message))
    }

    pub fn deny(name: &'static str, message: String) -> (r: Self)
        ensures
            r == (ValidatorOutcome {
                name,
                status: ValidatorStatus::Deny,
                details: Details::Message(message),
            }),
    {
        Self::new(name, ValidatorStatus::Deny, Details::Message(message))
    }

    pub fn error(name: &'static str, message: String) -> (r: Self)
        ensures
            r == (ValidatorOutcome {
                name,
                status: ValidatorStatus::Error,
                details: Details::Message(message),
            }),
    {
        Self::new(name, ValidatorStatus::Error, Details::Message(message))
    }
}

/// The closed set of content classes, each with its own validator.
#[derive(Debug, Clone, Copy, PartialEq, Eq, Structural)]
pub enum ContentClass {
    Image,
    Pdf,
    Archive,
    Generic,
}

/// The class of a sniffed MIME type: `image/...` is an image,
/// `application/pdf` a PDF, the zip family an archive, anything else generic.
pub open spec fn class_of(mime: Seq<char>) -> ContentClass {
    if mime.len() >= 6 && mime.subrange(0, 6) == "image/"@ {
        ContentClass::Image
    } else if mime == "application/pdf"@ {
        ContentClass::Pdf
    } else if mime == "application/zip"@ || mime == "application/x-zip-compressed"@ || mime
        == "application/x-zip"@ || mime == "multipart/x-zip"@ {
        ContentClass::Archive
    } else {
        ContentClass::Generic
    }
}

fn is(mime: &str, literal: &str) -> (r: bool)
    ensures
        r == (mime@ == literal@),
{
    String::from_str(mime) == String::from_str(literal)
}

/// The class of the sniffed MIME type `mime`.
pub fn content_class(mime: &str) -> (r: ContentClass)
    ensures
        r == class_of(mime@),
{
    if mime.unicode_len() >= 6 && is(mime.substring_char(0, 6), "image/") {
        ContentClass::Image
    } else if is(mime, "application/pdf") {
        ContentClass::Pdf
    } else if is(mime, "application/zip") || is(mime, "application/x-zip-compressed") || is(
        mime,
        "application/x-zip",
    ) || is(mime, "multipart/x-zip") {
        ContentClass::Archive
    } else {
        ContentClass::Generic
    }
}

/// `r` is the single outcome of the validator that the class of `mime` selects.
pub open spec fn validators_result(
    r: Seq<ValidatorOutcome>,
    mime: Seq<char>,
    data: Seq<u8>,
    p: Option<ResolvedPolicy>,
) -> bool {
    &&& r.len() == 1
    &&& match class_of(mime) {
        ContentClass::Image => image_result(r[0], mime, data, p),
        ContentClass::Pdf => r[0] == pdf_verdict(data, pdf_section(p)),
        ContentClass::Archive => archive_result(r[0], data, archive_section(p)),
        ContentClass::Generic => r[0] == generic_verdict(data),
    }
}

/// Runs the one validator that the sniffed type selects.
pub fn evaluate_validators(mime: &str, data: &[u8], policy: Option<&ResolvedPolicy>) -> (r: Vec<ValidatorOutcome>)
    ensures
        validators_result(
            r@,
            mime@,
            data@,
            match policy {
                Some(p) => Some(*p),
                None => None,
            },
        ),
{
    let mut outcomes: Vec<ValidatorOutcome> = Vec::new();
    let outcome = match content_class(mime) {
        ContentClass::Image => validate_image(mime, data, policy),
        ContentClass::Pdf => validate_pdf(data, policy),
        ContentClass::Archive => validate_archive(mime, data, policy),
        ContentClass::Generic => validate_generic(mime, data, policy),
    };
    outcomes.push(outcome);
    outcomes
}

} // verus!
