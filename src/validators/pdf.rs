//! Byte-level PDF checks: signature, approximate page count, scripts and
//! embedded files. No object graph is parsed.

use vstd::prelude::*;
use crate::config::PdfPolicySection;
use crate::policy::ResolvedPolicy;
use crate::validators::{denial, denial_of, Details, Finding, ValidatorOutcome, ValidatorStatus};

verus! {

/// ASCII lower case of one byte.
pub open spec fn lower_byte(b: u8) -> u8 {
    if 65 <= b && b <= 90 {
        (b + 32) as u8
    } else {
        b
    }
}

/// `h[i..i + n.len()]` equals `n` up to ASCII case.
pub open spec fn window_matches(h: Seq<u8>, i: int, n: Seq<u8>) -> bool {
    &&& 0 <= i
    &&& i + n.len() <= h.len()
    &&& forall|j: int| 0 <= j < n.len() ==> lower_byte(#[trigger] h[i + j]) == lower_byte(n[j])
}

/// `n` occurs somewhere in `h`, up to ASCII case.
pub open spec fn contains_ci(h: Seq<u8>, n: Seq<u8>) -> bool {
    exists|i: int| #[trigger] window_matches(h, i, n)
}

/// Occurrences of `n` in `h[i..]`, up to ASCII case, scanning left to right
/// and resuming after each occurrence (so occurrences do not overlap).
pub open spec fn count_from(h: Seq<u8>, n: Seq<u8>, i: int) -> nat
    decreases h.len() - i,
{
    if n.len() == 0 || i < 0 || i + n.len() > h.len() {
        0
    } else if window_matches(h, i, n) {
        1 + count_from(h, n, i + n.len())
    } else {
        count_from(h, n, i + 1)
    }
}

/// `%PDF-`
pub open spec fn pdf_signature() -> Seq<u8> {
    seq![37u8, 80u8, 68u8, 70u8, 45u8]
}

/// `/Type /Page`
pub open spec fn page_marker() -> Seq<u8> {
    seq![47u8, 84u8, 121u8, 112u8, 101u8, 32u8, 47u8, 80u8, 97u8, 103u8, 101u8]
}

/// `/JavaScript`
pub open spec fn javascript_marker() -> Seq<u8> {
    seq![47u8, 74u8, 97u8, 118u8, 97u8, 83u8, 99u8, 114u8, 105u8, 112u8, 116u8]
}

/// `/JS`
pub open spec fn js_marker() -> Seq<u8> {
    seq![47u8, 74u8, 83u8]
}

/// `/EmbeddedFiles`
pub open spec fn embedded_marker() -> Seq<u8> {
    seq![47u8, 69u8, 109u8, 98u8, 101u8, 100u8, 100u8, 101u8, 100u8, 70u8, 105u8, 108u8, 101u8, 115u8]
}

/// The buffer starts with the literal `%PDF-`.
pub open spec fn has_pdf_signature(data: Seq<u8>) -> bool {
    data.len() >= 5 && data.subrange(0, 5) == pdf_signature()
}

/// The PDF section in force: the resolved one, or the defaults.
pub open spec fn pdf_section(policy: Option<ResolvedPolicy>) -> PdfPolicySection {
    match policy {
        Some(p) => p.pdf,
        None => PdfPolicySection {
            allow_javascript: Some(false),
            max_pages: Some(200),
            forbid_embedded_files: Some(true),
        },
    }
}

/// Outcome of the PDF checks, in order: signature, page count, scripts,
/// embedded files.
pub open spec fn pdf_verdict(data: Seq<u8>, p: PdfPolicySection) -> ValidatorOutcome {
    let pages = count_from(data, page_marker(), 0);
    if !has_pdf_signature(data) {
        denial("pdf", Finding::PdfHeaderMissing)
    } else if p.max_pages matches Some(m) && pages > m {
        denial("pdf", Finding::PdfTooManyPages { pages: pages as u64, max_pages: p.max_pages->0 })
    } else if p.allow_javascript != Some(true) && (contains_ci(data, javascript_marker())
        || contains_ci(data, js_marker())) {
        denial("pdf", Finding::PdfJavaScript)
    } else if p.forbid_embedded_files != Some(false) && contains_ci(data, embedded_marker()) {
        denial("pdf", Finding::PdfEmbeddedFiles)
    } else {
        ValidatorOutcome {
            name: "pdf",
            status: ValidatorStatus::Pass,
            details: Details::Pdf { size_bytes: data.len() as u64, page_count: pages as u64 },
        }
    }
}

fn page_marker_bytes() -> (r: Vec<u8>)
    ensures
        r@ == page_marker(),
{
    let r = vec![47u8, 84u8, 121u8, 112u8, 101u8, 32u8, 47u8, 80u8, 97u8, 103u8, 101u8];
    assert(r@ =~= page_marker());
    r
}

fn javascript_marker_bytes() -> (r: Vec<u8>)
    ensures
        r@ == javascript_marker(),
{
    let r = vec![47u8, 74u8, 97u8, 118u8, 97u8, 83u8, 99u8, 114u8, 105u8, 112u8, 116u8];
    assert(r@ =~= javascript_marker());
    r
}

fn js_marker_bytes() -> (r: Vec<u8>)
    ensures
        r@ == js_marker(),
{
    let r = vec![47u8, 74u8, 83u8];
    assert(r@ =~= js_marker());
    r
}

fn embedded_marker_bytes() -> (r: Vec<u8>)
    ensures
        r@ == embedded_marker(),
{
    let r = vec![47u8, 69u8, 109u8, 98u8, 101u8, 100u8, 100u8, 101u8, 100u8, 70u8, 105u8, 108u8, 101u8, 115u8];
    assert(r@ =~= embedded_marker());
    r
}

fn lower(b: u8) -> (r: u8)
    ensures
        r == lower_byte(b),
{
    if 65 <= b && b <= 90 {
        b + 32
    } else {
        b
    }
}

/// Whether `haystack[at..at + needle.len()]` equals `needle` up to ASCII case.
fn eq_ascii_case(haystack: &[u8], at: usize, needle: &[u8]) -> (r: bool)
    ensures
        r == window_matches(haystack@, at as int, needle@),
{
    if at > haystack.len() || needle.len() > haystack.len() - at {
        return false;
    }
    let len = haystack.len();
    let mut j: usize = 0;
    while j < needle.len()
        invariant
            len == haystack@.len(),
            at + needle@.len() <= haystack@.len(),
            j <= needle@.len(),
            forall|k: int| 0 <= k < j ==> lower_byte(#[trigger] haystack@[at + k]) == lower_byte(needle@[k]),
        decreases needle@.len() - j,
    {
        assert(at + j < len);
        if lower(haystack[at + j]) != lower(needle[j]) {
            return false;
        }
        j = j + 1;
    }
    true
}

/// Whether `needle` occurs in `haystack`, up to ASCII case.
pub fn contains_case_insensitive(haystack: &[u8], needle: &[u8]) -> (r: bool)
    ensures
        r == contains_ci(haystack@, needle@),
{
    let mut i: usize = 0;
    loop
        invariant
            i <= haystack@.len(),
            forall|k: int| 0 <= k < i ==> !#[trigger] window_matches(haystack@, k, needle@),
        decreases haystack@.len() - i,
    {
        if eq_ascii_case(haystack, i, needle) {
            return true;
        }
        if i == haystack.len() {
            assert forall|k: int| !#[trigger] window_matches(haystack@, k, needle@) by {
                if 0 <= k && k < i {
                }
            }
            return false;
        }
        i = i + 1;
    }
}

/// Occurrences of a non-empty `needle` in `haystack`, up to ASCII case,
/// without overlaps.
pub fn count_occurrences(haystack: &[u8], needle: &[u8]) -> (r: usize)
    requires
        needle@.len() > 0,
    ensures
        r == count_from(haystack@, needle@, 0),
{
    let mut count: usize = 0;
    let mut i: usize = 0;
    while i <= haystack.len() && needle.len() <= haystack.len() - i
        invariant
            needle@.len() > 0,
            count <= i <= haystack@.len() + needle@.len(),
            count + count_from(haystack@, needle@, i as int) == count_from(haystack@, needle@, 0),
        decreases haystack@.len() + needle@.len() - i,
    {
        if eq_ascii_case(haystack, i, needle) {
            count = count + 1;
            i = i + needle.len();
        } else {
            i = i + 1;
        }
    }
    count
}

/// Heuristic PDF checks on the raw bytes.
pub fn validate_pdf(data: &[u8], policy: Option<&ResolvedPolicy>) -> (r: ValidatorOutcome)
    ensures
        r == pdf_verdict(
            data@,
            pdf_section(
                match policy {
                    Some(p) => Some(*p),
                    None => None,
                },
            ),
        ),
{
    let section = match policy {
        Some(p) => p.pdf,
        None => PdfPolicySection::default(),
    };
    let signed = data.len() >= 5 && data[0] == 37u8 && data[1] == 80u8 && data[2] == 68u8
        && data[3] == 70u8 && data[4] == 45u8;
    if signed {
        assert(data@.subrange(0, 5) =~= pdf_signature());
    } else if data.len() >= 5 {
        assert(data@.subrange(0, 5) != pdf_signature()) by {
            if data@.subrange(0, 5) == pdf_signature() {
                assert(data@.subrange(0, 5)[0] == data@[0]);
                assert(data@.subrange(0, 5)[1] == data@[1]);
                assert(data@.subrange(0, 5)[2] == data@[2]);
                assert(data@.subrange(0, 5)[3] == data@[3]);
                assert(data@.subrange(0, 5)[4] == data@[4]);
            }
        }
    }
    if !signed {
        return denial_of("pdf", Finding::PdfHeaderMissing);
    }

    let pages = count_occurrences(data, page_marker_bytes().as_slice()) as u64;
    if let Some(max_pages) = section.max_pages {
        if pages > max_pages as u64 {
            return denial_of("pdf", Finding::PdfTooManyPages { pages, max_pages });
        }
    }
    if section.allow_javascript != Some(true) {
        if contains_case_insensitive(data, javascript_marker_bytes().as_slice())
            || contains_case_insensitive(data, js_marker_bytes().as_slice()) {
            return denial_of("pdf", Finding::PdfJavaScript);
        }
    }
    if section.forbid_embedded_files != Some(false) {
        if contains_case_insensitive(data, embedded_marker_bytes().as_slice()) {
            return denial_of("pdf", Finding::PdfEmbeddedFiles);
        }
    }
    ValidatorOutcome::new(
        "pdf",
        ValidatorStatus::Pass,
        Details::Pdf { size_bytes: data.len() as u64, page_count: pages },
    )
}

} // verus!
