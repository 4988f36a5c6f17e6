use std::io::{Cursor, Write};

use guardupload::config::{ArchivePolicySection, ImagePolicySection, PolicyConfig};
use guardupload::decision::Decision;
use guardupload::policy::{PolicyEngine, ResolvedPolicy};
use guardupload::validators::archive::{
    depth_of, exceeds_ratio, is_symlink, violates_entry, ZipEntryInfo,
};
use guardupload::validators::pdf::{contains_case_insensitive, count_occurrences};
use guardupload::validators::raster::{image_outcome, ImageProbe};
use guardupload::validators::{
    content_class, evaluate_validators, validate_archive, validate_generic, validate_image,
    validate_pdf, ArchiveEntryStats, ContentClass, Details, Finding, ValidatorStatus,
};
use image::{ImageFormat, RgbImage};
use zip::write::SimpleFileOptions;
use zip::ZipWriter;

fn policy_from(config: &PolicyConfig) -> ResolvedPolicy {
    ResolvedPolicy::from_config(config)
}

fn png(width: u32, height: u32) -> Vec<u8> {
    let img = RgbImage::new(width, height);
    let mut out = Cursor::new(Vec::new());
    img.write_to(&mut out, ImageFormat::Png).expect("encode png");
    out.into_inner()
}

fn gif(frames: usize) -> Vec<u8> {
    let mut out = Vec::new();
    {
        let mut encoder = image::codecs::gif::GifEncoder::new(&mut out);
        let list: Vec<image::Frame> = (0..frames)
            .map(|_| image::Frame::new(image::RgbaImage::new(4, 4)))
            .collect();
        encoder.encode_frames(list).expect("encode gif");
    }
    out
}

fn zip_of(names: &[&str]) -> Vec<u8> {
    let mut writer = ZipWriter::new(Cursor::new(Vec::new()));
    let options = SimpleFileOptions::default().compression_method(zip::CompressionMethod::Stored);
    for name in names {
        writer.start_file(*name, options).expect("start file");
        writer.write_all(b"content").expect("write");
    }
    writer.finish().expect("finish").into_inner()
}

fn entry(name: &str, compressed: u64, size: u64) -> ZipEntryInfo {
    ZipEntryInfo { name: name.into(), enclosed: true, unix_mode: None, compressed_size: compressed, size }
}

#[test]
fn pdf_without_signature_is_denied() {
    let r = validate_pdf(b"abc", None);
    assert_eq!(r.status, ValidatorStatus::Deny);
    assert_eq!(r.details, Details::Finding(Finding::PdfHeaderMissing));
    let r = validate_pdf(b"hello world, not a pdf", None);
    assert_eq!(r.details, Details::Finding(Finding::PdfHeaderMissing));
    let r = validate_pdf(b"", None);
    assert_eq!(r.status, ValidatorStatus::Deny);
}

#[test]
fn pdf_plain_document_passes() {
    let data = b"%PDF-1.4\n1 0 obj << /Type /Page >> endobj\n2 0 obj << /TYPE /PAGE >> endobj";
    let r = validate_pdf(data, None);
    assert_eq!(r.name, "pdf");
    assert_eq!(r.status, ValidatorStatus::Pass);
    assert_eq!(r.details, Details::Pdf { size_bytes: data.len() as u64, page_count: 2 });
}

#[test]
fn pdf_javascript_and_embedded_files() {
    let js = b"%PDF-1.7 << /JavaScript (app.alert(1)) >>";
    assert_eq!(validate_pdf(js, None).details, Details::Finding(Finding::PdfJavaScript));
    let short_js = b"%PDF-1.7 << /js 3 0 R >>";
    assert_eq!(validate_pdf(short_js, None).details, Details::Finding(Finding::PdfJavaScript));
    let embedded = b"%PDF-1.7 << /EmbeddedFiles 4 0 R >>";
    assert_eq!(validate_pdf(embedded, None).details, Details::Finding(Finding::PdfEmbeddedFiles));

    let mut config = PolicyConfig::default();
    config.pdf.allow_javascript = Some(true);
    config.pdf.forbid_embedded_files = Some(false);
    let policy = policy_from(&config);
    assert_eq!(validate_pdf(js, Some(&policy)).status, ValidatorStatus::Pass);
    assert_eq!(validate_pdf(embedded, Some(&policy)).status, ValidatorStatus::Pass);
}

#[test]
fn pdf_page_limit() {
    let mut data = b"%PDF-1.4\n".to_vec();
    for _ in 0..3 {
        data.extend_from_slice(b"<< /Type /Page >>\n");
    }
    let mut config = PolicyConfig::default();
    config.pdf.max_pages = Some(2);
    let policy = policy_from(&config);
    let r = validate_pdf(&data, Some(&policy));
    assert_eq!(r.details, Details::Finding(Finding::PdfTooManyPages { pages: 3, max_pages: 2 }));
    config.pdf.max_pages = Some(3);
    let policy = policy_from(&config);
    assert_eq!(validate_pdf(&data, Some(&policy)).status, ValidatorStatus::Pass);
}

#[test]
fn occurrence_counting() {
    assert_eq!(count_occurrences(b"aaaa", b"aa"), 2);
    assert_eq!(count_occurrences(b"xAbyaBz", b"ab"), 2);
    assert_eq!(count_occurrences(b"", b"a"), 0);
    assert!(contains_case_insensitive(b"hello WORLD", b"world"));
    assert!(!contains_case_insensitive(b"hello", b"help"));
}

#[test]
fn image_too_large_is_denied() {
    let mut config = PolicyConfig::default();
    config.image.max_dimensions = Some([100, 100]);
    let policy = policy_from(&config);
    let data = png(200, 50);
    let r = validate_image("image/png", &data, Some(&policy));
    assert_eq!(r.status, ValidatorStatus::Deny);
    assert_eq!(
        r.details,
        Details::Finding(Finding::ImageTooLarge { width: 200, height: 50, max_width: 100, max_height: 100 })
    );
    let engine = PolicyEngine::new(config);
    let outcome = engine.decide("image/png", data.len() as u64, &[r], Some(&policy));
    assert_eq!(outcome.decision, Decision::Deny);
    assert_eq!(outcome.rules_triggered, vec!["validator:image:deny"]);
}

#[test]
fn image_within_bounds_passes() {
    let data = png(20, 10);
    let r = validate_image("image/png", &data, None);
    assert_eq!(r.status, ValidatorStatus::Pass);
    match r.details {
        Details::Image { width, height, format, frames } => {
            assert_eq!((width, height, frames), (20, 10, 1));
            assert!(format.expect("format").contains("png"));
        }
        other => panic!("unexpected details {other:?}"),
    }
}

#[test]
fn image_without_known_format_is_an_error() {
    let r = validate_image("image/png", b"not an image at all", None);
    assert_eq!(r.name, "image");
    assert_eq!(r.status, ValidatorStatus::Error);
    assert_eq!(r.details, Details::Finding(Finding::ImageFormatUndetected));
}

#[test]
fn truncated_image_header_is_denied() {
    let data = png(20, 10);
    let r = validate_image("image/png", &data[..12], None);
    assert_eq!(r.status, ValidatorStatus::Deny);
    assert_eq!(r.details, Details::Finding(Finding::ImageDimensionsUnreadable));
}

#[test]
fn gif_frames_are_counted() {
    let data = gif(3);
    let mut config = PolicyConfig::default();
    config.image.max_frames = Some(2);
    let policy = policy_from(&config);
    let r = validate_image("image/gif", &data, Some(&policy));
    assert_eq!(r.details, Details::Finding(Finding::ImageTooManyFrames { frames: 3, max_frames: 2 }));
    let r = validate_image("image/png", &data, Some(&policy));
    assert_eq!(r.status, ValidatorStatus::Pass);
}

#[test]
fn strip_metadata_request_warns() {
    let mut section = ImagePolicySection::default();
    section.strip_metadata = Some("DENY".into());
    let probe = ImageProbe::Read { width: 1, height: 1, format: Some("png".into()) };
    let r = image_outcome(probe, 1, &section);
    assert_eq!(r.status, ValidatorStatus::Warn);
    assert_eq!(r.details, Details::Finding(Finding::ImageMetadataNotStripped));
    let r = image_outcome(ImageProbe::Undetected, 1, &section);
    assert_eq!(r.status, ValidatorStatus::Error);
    let r = image_outcome(ImageProbe::Unreadable, 1, &section);
    assert_eq!(r.details, Details::Finding(Finding::ImageDimensionsUnreadable));
    let probe = ImageProbe::Read { width: 1, height: 1, format: Some(String::new()) };
    let r = image_outcome(probe, 1, &ImagePolicySection::default());
    assert_eq!(r.details, Details::Image { width: 1, height: 1, format: None, frames: 1 });
}

#[test]
fn archive_traversal_stops_the_scan() {
    let data = zip_of(&["ok.txt", "../evil.txt", "a/b/c/d/e.txt"]);
    let mut config = PolicyConfig::default();
    config.archive.zip_max_depth = Some(2);
    let policy = policy_from(&config);
    let r = validate_archive("application/zip", &data, Some(&policy));
    assert_eq!(r.status, ValidatorStatus::Deny);
    assert_eq!(r.details, Details::Finding(Finding::ArchivePathTraversal { entry: "../evil.txt".into() }));
}

fn zip_with_link(link_first: bool) -> Vec<u8> {
    let mut writer = ZipWriter::new(Cursor::new(Vec::new()));
    let options = SimpleFileOptions::default().compression_method(zip::CompressionMethod::Stored);
    writer.start_file("a.txt", options).expect("start file");
    writer.write_all(b"content").expect("write");
    if link_first {
        writer.add_symlink("link", "a.txt", options).expect("symlink");
        writer.start_file("../x", options).expect("start file");
    } else {
        writer.start_file("../x", options).expect("start file");
        writer.write_all(b"content").expect("write");
        writer.add_symlink("link", "a.txt", options).expect("symlink");
    }
    writer.finish().expect("finish").into_inner()
}

#[test]
fn archive_first_violation_wins() {
    let r = validate_archive("application/zip", &zip_with_link(false), None);
    assert_eq!(r.details, Details::Finding(Finding::ArchivePathTraversal { entry: "../x".into() }));
    let r = validate_archive("application/zip", &zip_with_link(true), None);
    assert_eq!(r.details, Details::Finding(Finding::ArchiveSymlink { entry: "link".into() }));
}

#[test]
fn archive_ratio_edges() {
    assert!(!exceeds_ratio(0, 0, 1));
    assert!(!exceeds_ratio(5, 0, 1));
    assert!(exceeds_ratio(0, 10, 1000));
    assert!(exceeds_ratio(10, 101, 10));
    assert!(!exceeds_ratio(10, 100, 10));
    let mut policy = ArchivePolicySection::default();
    policy.zip_max_ratio = Some(100);
    assert_eq!(violates_entry(&entry("empty", 0, 0), &policy), None);
    assert_eq!(
        violates_entry(&entry("bomb", 0, 10), &policy),
        Some(Finding::ArchiveRatioExceeded { entry: "bomb".into(), compressed: 0, uncompressed: 10, max_ratio: 100 })
    );
}

#[test]
fn archive_passes_with_entry_sizes() {
    let data = zip_of(&["a.txt", "dir/b.txt"]);
    let r = validate_archive("application/zip", &data, None);
    assert_eq!(r.status, ValidatorStatus::Pass);
    assert_eq!(
        r.details,
        Details::Archive {
            entries: vec![
                ArchiveEntryStats { compressed_size: 7, uncompressed_size: 7 },
                ArchiveEntryStats { compressed_size: 7, uncompressed_size: 7 },
            ]
        }
    );
    let r = validate_archive("application/zip", b"PK not really", None);
    assert_eq!(r.details, Details::Finding(Finding::ArchiveInvalid));
}

#[test]
fn archive_depth_and_links() {
    assert_eq!(depth_of("a/b/c/"), 3);
    assert_eq!(depth_of("//a//b"), 2);
    assert_eq!(depth_of(""), 0);
    assert!(is_symlink(0o120777));
    assert!(!is_symlink(0o100644));
    let mut policy = ArchivePolicySection::default();
    policy.zip_max_depth = Some(2);
    assert_eq!(
        violates_entry(&entry("a/b/c.txt", 1, 1), &policy),
        Some(Finding::ArchiveTooDeep { entry: "a/b/c.txt".into(), depth: 3, max_depth: 2 })
    );
    policy.forbid_symlinks = Some(false);
    let mut link = entry("l", 1, 1);
    link.unix_mode = Some(0o120777);
    assert_eq!(violates_entry(&link, &policy), None);
}

#[test]
fn dispatch_by_mime() {
    assert_eq!(content_class("image/png"), ContentClass::Image);
    assert_eq!(content_class("application/pdf"), ContentClass::Pdf);
    assert_eq!(content_class("application/x-zip-compressed"), ContentClass::Archive);
    assert_eq!(content_class("multipart/x-zip"), ContentClass::Archive);
    assert_eq!(content_class("text/plain"), ContentClass::Generic);
    assert_eq!(content_class("image"), ContentClass::Generic);
    let outcomes = evaluate_validators("application/pdf", b"xx", None);
    assert_eq!(outcomes.len(), 1);
    assert_eq!(outcomes[0].name, "pdf");
    let outcomes = evaluate_validators("text/plain", b"hello", None);
    assert_eq!(outcomes[0].details, Details::Generic { size_bytes: 5 });
    assert_eq!(validate_generic("x/y", b"", None).status, ValidatorStatus::Pass);
}

#[test]
fn status_labels() {
    assert_eq!(ValidatorStatus::Pass.as_str(), "pass");
    assert_eq!(ValidatorStatus::Warn.as_str(), "warn");
    assert_eq!(ValidatorStatus::Deny.as_str(), "deny");
    assert_eq!(ValidatorStatus::Error.as_str(), "error");
}
