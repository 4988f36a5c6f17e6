//! Zip archive checks: path traversal, symbolic links, compression ratio
//! and path depth, entry by entry; the first violation ends the scan.

use vstd::prelude::*;
use vstd::string::*;
use vstd::utf8::encode_utf8;
use std::io::Cursor;
use zip::ZipArchive;
use crate::config::ArchivePolicySection;
use crate::policy::ResolvedPolicy;
use crate::validators::{
    denial, denial_of, ArchiveEntryStats, Details, Finding, ValidatorOutcome, ValidatorStatus,
};

verus! {

/// `std::io::Cursor`, the in-memory reader that the zip archive reads from.
#[verifier::external_type_specification]
#[verifier::external_body]
#[verifier::reject_recursive_types(T)]
pub struct ExCursor<T>(Cursor<T>);

/// `zip::ZipArchive`, an opened archive, carried opaquely between the
/// calls that read it.
#[verifier::external_type_specification]
#[verifier::external_body]
#[verifier::reject_recursive_types(R)]
pub struct ExZipArchive<R>(ZipArchive<R>);

/// Metadata of one archive entry, as read from the central directory.
#[derive(Debug, Clone)]
pub struct ZipEntryInfo {
    pub name: String,
    /// Whether the name resolves to a relative path that stays inside the
    /// extraction directory.
    pub enclosed: bool,
    pub unix_mode: Option<u32>,
    pub compressed_size: u64,
    pub size: u64,
}

/// Name, enclosed flag, Unix mode, compressed size and size of an entry.
pub type EntryView = (Seq<char>, bool, Option<u32>, u64, u64);

impl View for ZipEntryInfo {
    type V = EntryView;

    open spec fn view(&self) -> EntryView {
        (self.name@, self.enclosed, self.unix_mode, self.compressed_size, self.size)
    }
}

/// The entries that the central directory of `data` lists, in order, each
/// as its metadata or `None` when it cannot be read; `None` when `data` is
/// not a readable zip archive.
pub uninterp spec fn zip_listing_of(data: Seq<u8>) -> Option<Seq<Option<EntryView>>>;

/// The entries of an opened archive, in order, each as its metadata or
/// `None` when it cannot be read.
pub uninterp spec fn zip_entries(archive: ZipArchive<Cursor<&[u8]>>) -> Seq<Option<EntryView>>;

/// Relies on `zip::ZipArchive::new`: parses the central directory of the
/// buffer, and fails on anything that is not a readable zip archive.
#[verifier::external_body]
fn open_zip<'a>(data: &'a [u8]) -> (r: Option<ZipArchive<Cursor<&'a [u8]>>>)
    ensures
        match r {
            Some(a) => zip_listing_of(data@) == Some(zip_entries(a)),
            None => zip_listing_of(data@) is None,
        },
{
    ZipArchive::new(Cursor::new(data)).ok()
}

/// Relies on `zip::ZipArchive::len`: the number of entries in the central
/// directory.
#[verifier::external_body]
fn zip_entry_count(archive: &ZipArchive<Cursor<&[u8]>>) -> (r: usize)
    ensures
        r == zip_entries(*archive).len(),
{
    archive.len()
}

/// Relies on `zip::ZipArchive::by_index` and the metadata accessors of the
/// entry it returns (`name`, `enclosed_name`, `unix_mode`, `compressed_size`,
/// `size`); `None` when the entry or its name cannot be read. Reading seeks
/// to the entry's own offset, so the archive lists the same entries after.
#[verifier::external_body]
fn read_zip_entry(archive: &mut ZipArchive<Cursor<&[u8]>>, index: usize) -> (r: Option<ZipEntryInfo>)
    ensures
        zip_entries(*final(archive)) == zip_entries(*old(archive)),
        index < zip_entries(*old(archive)).len() ==> match zip_entries(*old(archive))[index as int] {
            Some(v) => r matches Some(e) && e@ == v,
            None => r is None,
        },
{
    let file = archive.by_index(index).ok()?;
    let name = file.name().ok()?.into_owned();
    Some(ZipEntryInfo {
        name,
        enclosed: file.enclosed_name().is_some(),
        unix_mode: file.unix_mode(),
        compressed_size: file.compressed_size(),
        size: file.size(),
    })
}

/// The file-type bits of a Unix mode say "symbolic link".
pub open spec fn is_symlink_mode(mode: u32) -> bool {
    mode & 0o170000u32 == 0o120000u32
}

/// Whether the Unix `mode` denotes a symbolic link.
pub fn is_symlink(unix_mode: u32) -> (r: bool)
    ensures
        r == is_symlink_mode(unix_mode),
{
    (unix_mode & 0o170000u32) == 0o120000u32
}

/// Whether the compression ratio `uncompressed / compressed` is above
/// `max_ratio`. An empty entry has ratio 1; a non-empty entry stored in zero
/// bytes has an infinite ratio.
pub open spec fn ratio_exceeds(compressed: u64, uncompressed: u64, max_ratio: u32) -> bool {
    if uncompressed == 0 {
        1 > max_ratio
    } else if compressed == 0 {
        true
    } else {
        uncompressed > max_ratio * compressed
    }
}

/// Exact comparison of the compression ratio with `max_ratio`.
pub fn exceeds_ratio(compressed: u64, uncompressed: u64, max_ratio: u32) -> (r: bool)
    ensures
        r == ratio_exceeds(compressed, uncompressed, max_ratio),
{
    if uncompressed == 0 {
        1 > max_ratio
    } else if compressed == 0 {
        true
    } else {
        assert(max_ratio * compressed <= 0xffff_ffff * 0xffff_ffff_ffff_ffff) by (nonlinear_arith)
            requires
                max_ratio <= 0xffff_ffff,
                compressed <= 0xffff_ffff_ffff_ffff,
        ;
        uncompressed as u128 > max_ratio as u128 * compressed as u128
    }
}

/// Position `i` of `b` starts a path segment: not a `/`, and first or after a `/`.
pub open spec fn starts_segment(b: Seq<u8>, i: int) -> bool {
    b[i] != 47u8 && (i == 0 || b[i - 1] == 47u8)
}

/// Number of non-empty `/`-separated segments of a path.
pub open spec fn path_depth(b: Seq<u8>) -> nat
    decreases b.len(),
{
    if b.len() == 0 {
        0
    } else {
        path_depth(b.drop_last()) + if starts_segment(b, b.len() - 1) {
            1nat
        } else {
            0nat
        }
    }
}

/// Depth of an entry name: its non-empty `/`-separated segments.
pub fn depth_of(name: &str) -> (r: u64)
    ensures
        r == path_depth(name.spec_bytes()),
{
    let b = name.as_bytes();
    let mut depth: u64 = 0;
    let mut i: usize = 0;
    while i < b.len()
        invariant
            i <= b@.len(),
            b@ == name.spec_bytes(),
            depth == path_depth(b@.subrange(0, i as int)),
            depth <= i,
        decreases b@.len() - i,
    {
        let ghost prefix = b@.subrange(0, i + 1);
        proof {
            assert(prefix.drop_last() =~= b@.subrange(0, i as int));
        }
        if b[i] != 47u8 && (i == 0 || b[i - 1] == 47u8) {
            assert(starts_segment(prefix, i as int));
            depth = depth + 1;
        } else {
            assert(!starts_segment(prefix, i as int));
        }
        i = i + 1;
    }
    assert(b@.subrange(0, b@.len() as int) =~= b@);
    depth
}

/// The first rule that `e` breaks, checked in order: path traversal,
/// symbolic link, compression ratio, depth.
pub open spec fn entry_finding(e: ZipEntryInfo, p: ArchivePolicySection) -> Option<Finding> {
    if p.forbid_path_traversal != Some(false) && !e.enclosed {
        Some(Finding::ArchivePathTraversal { entry: e.name })
    } else if p.forbid_symlinks != Some(false) && (e.unix_mode matches Some(m) && is_symlink_mode(
        m,
    )) {
        Some(Finding::ArchiveSymlink { entry: e.name })
    } else if p.zip_max_ratio matches Some(mr) && ratio_exceeds(e.compressed_size, e.size, mr) {
        Some(
            Finding::ArchiveRatioExceeded {
                entry: e.name,
                compressed: e.compressed_size,
                uncompressed: e.size,
                max_ratio: p.zip_max_ratio->0,
            },
        )
    } else if p.zip_max_depth matches Some(md) && path_depth(encode_utf8(e.name@)) > md {
        Some(
            Finding::ArchiveTooDeep {
                entry: e.name,
                depth: path_depth(encode_utf8(e.name@)) as u64,
                max_depth: p.zip_max_depth->0,
            },
        )
    } else {
        None
    }
}

/// The first rule that the entry breaks, if any.
pub fn violates_entry(e: &ZipEntryInfo, p: &ArchivePolicySection) -> (r: Option<Finding>)
    ensures
        r == entry_finding(*e, *p),
{
    if p.forbid_path_traversal != Some(false) && !e.enclosed {
        return Some(Finding::ArchivePathTraversal { entry: e.name.clone() });
    }
    if p.forbid_symlinks != Some(false) {
        if let Some(mode) = e.unix_mode {
            if is_symlink(mode) {
                return Some(Finding::ArchiveSymlink { entry: e.name.clone() });
            }
        }
    }
    if let Some(max_ratio) = p.zip_max_ratio {
        if exceeds_ratio(e.compressed_size, e.size, max_ratio) {
            return Some(
                Finding::ArchiveRatioExceeded {
                    entry: e.name.clone(),
                    compressed: e.compressed_size,
                    uncompressed: e.size,
                    max_ratio,
                },
            );
        }
    }
    if let Some(max_depth) = p.zip_max_depth {
        let depth = depth_of(e.name.as_str());
        if depth > max_depth as u64 {
            return Some(Finding::ArchiveTooDeep { entry: e.name.clone(), depth, max_depth });
        }
    }
    None
}

/// The first finding among `es`, scanning in order.
pub open spec fn first_finding(es: Seq<ZipEntryInfo>, p: ArchivePolicySection) -> Option<Finding>
    decreases es.len(),
{
    if es.len() == 0 {
        None
    } else {
        match first_finding(es.drop_last(), p) {
            Some(f) => Some(f),
            None => entry_finding(es.last(), p),
        }
    }
}

/// Sizes of one entry.
pub open spec fn entry_stats(e: ZipEntryInfo) -> ArchiveEntryStats {
    ArchiveEntryStats { compressed_size: e.compressed_size, uncompressed_size: e.size }
}

/// `r` is the verdict on an archive whose entries are `es`: `Deny` for the
/// first entry that breaks a rule, otherwise `Pass` with every entry's sizes.
pub open spec fn archive_verdict(r: ValidatorOutcome, es: Seq<ZipEntryInfo>, p: ArchivePolicySection) -> bool {
    match first_finding(es, p) {
        Some(f) => r == denial("archive", f),
        None => {
            &&& r.name == "archive"
            &&& r.status == ValidatorStatus::Pass
            &&& r.details matches Details::Archive { entries }
            &&& entries@ == es.map_values(|e: ZipEntryInfo| entry_stats(e))
        },
    }
}

/// Compression-ratio edges: an empty entry (ratio 1) is never flagged when
/// the limit is at least 1, and a non-empty entry stored in zero bytes
/// (infinite ratio) is flagged whenever a limit is set and the path and
/// link checks pass.
pub proof fn lemma_ratio_edges(e: ZipEntryInfo, p: ArchivePolicySection)
    ensures
        e.size == 0 && (p.zip_max_ratio matches Some(m) && m >= 1) ==> !(entry_finding(e, p) matches Some(
            Finding::ArchiveRatioExceeded { .. },
        )),
        e.size > 0 && e.compressed_size == 0 && p.zip_max_ratio is Some && (p.forbid_path_traversal
            == Some(false) || e.enclosed) && (p.forbid_symlinks == Some(false) || !(e.unix_mode matches Some(
            m,
        ) && is_symlink_mode(m))) ==> entry_finding(e, p) == Some(
            Finding::ArchiveRatioExceeded {
                entry: e.name,
                compressed: 0,
                uncompressed: e.size,
                max_ratio: p.zip_max_ratio->0,
            },
        ),
{
}

/// The archive section in force: the resolved one, or no limits.
pub open spec fn archive_section(policy: Option<ResolvedPolicy>) -> ArchivePolicySection {
    match policy {
        Some(p) => p.archive,
        None => ArchivePolicySection {
            zip_max_depth: None,
            zip_max_ratio: None,
            forbid_symlinks: None,
            forbid_path_traversal: None,
        },
    }
}

fn stats_of(e: &ZipEntryInfo) -> (r: ArchiveEntryStats)
    ensures
        r == entry_stats(*e),
{
    ArchiveEntryStats { compressed_size: e.compressed_size, uncompressed_size: e.size }
}

/// Once a prefix of the entries has a finding, the verdict on the whole
/// archive is that finding: the entries after it make no difference.
pub proof fn lemma_first_finding_prefix(es: Seq<ZipEntryInfo>, p: ArchivePolicySection, k: int)
    requires
        0 <= k <= es.len(),
        first_finding(es.subrange(0, k), p) is Some,
    ensures
        first_finding(es, p) == first_finding(es.subrange(0, k), p),
    decreases es.len() - k,
{
    if k < es.len() {
        assert(es.subrange(0, k + 1).drop_last() =~= es.subrange(0, k));
        lemma_first_finding_prefix(es, p, k + 1);
    } else {
        assert(es.subrange(0, k) =~= es);
    }
}

/// `es` are the entries of `listing` read in order from the first, each
/// readable.
pub open spec fn read_in_order(es: Seq<ZipEntryInfo>, listing: Seq<Option<EntryView>>) -> bool {
    &&& es.len() <= listing.len()
    &&& forall|i: int| 0 <= i < es.len() ==> listing[i] == Some(#[trigger] es[i]@)
}

/// `r` is the verdict on an archive listing `listing`, entry by entry until
/// the first that cannot be read or breaks a rule: `Deny` naming that entry,
/// or `Pass` with every entry's sizes.
pub open spec fn listing_verdict(
    r: ValidatorOutcome,
    listing: Seq<Option<EntryView>>,
    p: ArchivePolicySection,
) -> bool {
    exists|es: Seq<ZipEntryInfo>|
        #![trigger first_finding(es, p)]
        {
            &&& read_in_order(es, listing)
            &&& {
                ||| {
                    &&& es.len() < listing.len()
                    &&& listing[es.len() as int] is None
                    &&& first_finding(es, p) is None
                    &&& r == denial(
                        "archive",
                        Finding::ArchiveEntryUnreadable { index: es.len() as usize },
                    )
                }
                ||| {
                    &&& es.len() > 0
                    &&& first_finding(es.drop_last(), p) is None
                    &&& first_finding(es, p) is Some
                    &&& archive_verdict(r, es, p)
                }
                ||| {
                    &&& es.len() == listing.len()
                    &&& first_finding(es, p) is None
                    &&& archive_verdict(r, es, p)
                }
            }
        }
}

/// `r` is the verdict on the zip archive in `data`: `Deny` when it is not a
/// readable archive, else the verdict on the entries it lists.
pub open spec fn archive_result(r: ValidatorOutcome, data: Seq<u8>, p: ArchivePolicySection) -> bool {
    match zip_listing_of(data) {
        None => r == denial("archive", Finding::ArchiveInvalid),
        Some(listing) => listing_verdict(r, listing, p),
    }
}

/// Structural checks on a zip archive held in `data`.
///
/// Whatever the zip reader returns, the result is one of: the archive is
/// unreadable; an entry is unreadable after every earlier entry passed; or
/// the verdict on the entries that were read.
pub fn validate_archive(_mime: &str, data: &[u8], policy: Option<&ResolvedPolicy>) -> (r: ValidatorOutcome)
    ensures
        archive_result(
            r,
            data@,
            archive_section(
                match policy {
                    Some(p) => Some(*p),
                    None => None,
                },
            ),
        ),
{
    let section = match policy {
        Some(p) => p.archive,
        None => ArchivePolicySection::default(),
    };
    let mut archive = match open_zip(data) {
        Some(a) => a,
        None => {
            return denial_of("archive", Finding::ArchiveInvalid);
        },
    };
    let ghost listing = zip_entries(archive);
    let count = zip_entry_count(&archive);
    let mut stats: Vec<ArchiveEntryStats> = Vec::new();
    let ghost mut seen: Seq<ZipEntryInfo> = Seq::empty();
    let mut i: usize = 0;
    while i < count
        invariant
            i <= count,
            count == listing.len(),
            zip_listing_of(data@) == Some(listing),
            zip_entries(archive) == listing,
            seen.len() == i,
            read_in_order(seen, listing),
            section == archive_section(
                match policy {
                    Some(p) => Some(*p),
                    None => None,
                },
            ),
            first_finding(seen, section) is None,
            stats@ == seen.map_values(|e: ZipEntryInfo| entry_stats(e)),
        decreases count - i,
    {
        let entry = match read_zip_entry(&mut archive, i) {
            Some(e) => e,
            None => {
                let r = denial_of("archive", Finding::ArchiveEntryUnreadable { index: i });
                assert(seen.len() as usize == i);
                assert(first_finding(seen, section) is None);
                return r;
            },
        };
        let ghost next = seen.push(entry);
        assert(next.drop_last() =~= seen);
        assert(read_in_order(next, listing)) by {
            assert forall|j: int| 0 <= j < next.len() implies listing[j] == Some(
                #[trigger] next[j]@,
            ) by {
                if j < seen.len() {
                    assert(next[j] == seen[j]);
                }
            }
        }
        if let Some(f) = violates_entry(&entry, &section) {
            let r = denial_of("archive", f);
            assert(archive_verdict(r, next, section));
            assert(first_finding(next, section) is Some);
            return r;
        }
        stats.push(stats_of(&entry));
        proof {
            seen = next;
        }
        assert(stats@ =~= seen.map_values(|e: ZipEntryInfo| entry_stats(e)));
        i = i + 1;
    }
    let r = ValidatorOutcome::new("archive", ValidatorStatus::Pass, Details::Archive { entries: stats });
    assert(archive_verdict(r, seen, section));
    assert(first_finding(seen, section) is None);
    r
}

} // verus!
