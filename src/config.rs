//! Policy configuration: global defaults and per-type sections.
//!
//! Every field may be absent; each consumer documents its fallback.

use vstd::prelude::*;

verus! {

/// Values that apply to every file.
#[derive(Debug)]
pub struct DefaultsSection {
    pub max_size_mb: Option<u32>,
    pub allow_types: Vec<String>,
    pub deny_types: Vec<String>,
    pub fail_on: Option<String>,
}

/// The characters of each string.
pub open spec fn views_of(v: Seq<String>) -> Seq<Seq<char>> {
    v.map_values(|s: String| s@)
}

pub open spec fn opt_view(o: Option<String>) -> Option<Seq<char>> {
    match o {
        Some(s) => Some(s@),
        None => None,
    }
}

impl DefaultsSection {
    /// Same content, compared through the strings' characters.
    pub open spec fn same_as(&self, o: &DefaultsSection) -> bool {
        &&& self.max_size_mb == o.max_size_mb
        &&& views_of(self.allow_types@) == views_of(o.allow_types@)
        &&& views_of(self.deny_types@) == views_of(o.deny_types@)
        &&& opt_view(self.fail_on) == opt_view(o.fail_on)
    }
}

fn clone_strings(v: &Vec<String>) -> (r: Vec<String>)
    ensures
        views_of(r@) == views_of(v@),
{
    let mut r: Vec<String> = Vec::new();
    let mut i: usize = 0;
    while i < v.len()
        invariant
            i <= v@.len(),
            views_of(r@) == views_of(v@.subrange(0, i as int)),
        decreases v@.len() - i,
    {
        let ghost before = r@;
        r.push(v[i].clone());
        proof {
            assert(views_of(r@) =~= views_of(before).push(v@[i as int]@));
            assert(v@.subrange(0, i + 1) =~= v@.subrange(0, i as int).push(v@[i as int]));
            assert(views_of(v@.subrange(0, i + 1)) =~= views_of(v@.subrange(0, i as int)).push(
                v@[i as int]@,
            ));
        }
        i = i + 1;
    }
    assert(v@.subrange(0, v@.len() as int) =~= v@);
    r
}

fn clone_opt_string(o: &Option<String>) -> (r: Option<String>)
    ensures
        opt_view(r) == opt_view(*o),
{
    match o {
        Some(s) => Some(s.clone()),
        None => None,
    }
}

impl Clone for DefaultsSection {
    fn clone(&self) -> (r: Self)
        ensures
            r.same_as(self),
    {
        DefaultsSection {
            max_size_mb: self.max_size_mb,
            allow_types: clone_strings(&self.allow_types),
            deny_types: clone_strings(&self.deny_types),
            fail_on: clone_opt_string(&self.fail_on),
        }
    }
}

impl Default for DefaultsSection {
    fn default() -> (r: Self)
        ensures
            r.max_size_mb is None,
            r.allow_types@.len() == 0,
            r.deny_types@.len() == 0,
            r.fail_on is None,
    {
        DefaultsSection {
            max_size_mb: None,
            allow_types: Vec::new(),
            deny_types: Vec::new(),
            fail_on: None,
        }
    }
}

/// Constraints on PDF files.
#[derive(Debug, Clone, Copy, PartialEq, Eq, Structural)]
pub struct PdfPolicySection {
    pub allow_javascript: Option<bool>,
    pub max_pages: Option<u32>,
    pub forbid_embedded_files: Option<bool>,
}

impl Default for PdfPolicySection {
    /// Scripts refused, at most 200 pages, embedded files forbidden.
    fn default() -> (r: Self)
        ensures
            r == (PdfPolicySection {
                allow_javascript: Some(false),
                max_pages: Some(200),
                forbid_embedded_files: Some(true),
            }),
    {
        PdfPolicySection {
            allow_javascript: Some(false),
            max_pages: Some(200),
            forbid_embedded_files: Some(true),
        }
    }
}

/// Constraints on images.
#[derive(Debug)]
pub struct ImagePolicySection {
    /// `[max_width, max_height]`.
    pub max_dimensions: Option<[u32; 2]>,
    pub max_frames: Option<u32>,
    pub strip_metadata: Option<String>,
}

impl ImagePolicySection {
    /// Same content, compared through the strings' characters.
    pub open spec fn same_as(&self, o: &ImagePolicySection) -> bool {
        &&& self.max_dimensions == o.max_dimensions
        &&& self.max_frames == o.max_frames
        &&& opt_view(self.strip_metadata) == opt_view(o.strip_metadata)
    }
}

impl Clone for ImagePolicySection {
    fn clone(&self) -> (r: Self)
        ensures
            r.same_as(self),
    {
        ImagePolicySection {
            max_dimensions: self.max_dimensions,
            max_frames: self.max_frames,
            strip_metadata: clone_opt_string(&self.strip_metadata),
        }
    }
}

impl Default for ImagePolicySection {
    fn default() -> (r: Self)
        ensures
            r.max_dimensions is None,
            r.max_frames is None,
            r.strip_metadata is None,
    {
        ImagePolicySection { max_dimensions: None, max_frames: None, strip_metadata: None }
    }
}

/// Constraints on zip archives.
#[derive(Debug, Clone, Copy, PartialEq, Eq, Structural)]
pub struct ArchivePolicySection {
    pub zip_max_depth: Option<u32>,
    pub zip_max_ratio: Option<u32>,
    pub forbid_symlinks: Option<bool>,
    pub forbid_path_traversal: Option<bool>,
}

impl Default for ArchivePolicySection {
    fn default() -> (r: Self)
        ensures
            r == (ArchivePolicySection {
                zip_max_depth: None,
                zip_max_ratio: None,
                forbid_symlinks: None,
                forbid_path_traversal: None,
            }),
    {
        ArchivePolicySection {
            zip_max_depth: None,
            zip_max_ratio: None,
            forbid_symlinks: None,
            forbid_path_traversal: None,
        }
    }
}

/// The whole policy.
///
/// Conditional overrides (by MIME type or by source) are not part of the
/// model: every file is judged by the unconditional sections below.
#[derive(Debug)]
pub struct PolicyConfig {
    pub defaults: DefaultsSection,
    pub pdf: PdfPolicySection,
    pub image: ImagePolicySection,
    pub archive: ArchivePolicySection,
}

impl PolicyConfig {
    /// Same content, compared through the strings' characters.
    pub open spec fn same_as(&self, o: &PolicyConfig) -> bool {
        &&& self.defaults.same_as(&o.defaults)
        &&& self.pdf == o.pdf
        &&& self.image.same_as(&o.image)
        &&& self.archive == o.archive
    }
}

impl Clone for PolicyConfig {
    fn clone(&self) -> (r: Self)
        ensures
            r.same_as(self),
    {
        PolicyConfig {
            defaults: self.defaults.clone(),
            pdf: self.pdf,
            image: self.image.clone(),
            archive: self.archive,
        }
    }
}

impl Default for PolicyConfig {
    /// Empty defaults, the default PDF section, no image or archive limits.
    fn default() -> (r: Self)
        ensures
            r.defaults.max_size_mb is None,
            r.defaults.allow_types@.len() == 0,
            r.defaults.deny_types@.len() == 0,
            r.defaults.fail_on is None,
            r.pdf == (PdfPolicySection {
                allow_javascript: Some(false),
                max_pages: Some(200),
                forbid_embedded_files: Some(true),
            }),
            r.image.max_dimensions is None,
            r.image.max_frames is None,
            r.image.strip_metadata is None,
            r.archive == (ArchivePolicySection {
                zip_max_depth: None,
                zip_max_ratio: None,
                forbid_symlinks: None,
                forbid_path_traversal: None,
            }),
    {
        PolicyConfig {
            defaults: DefaultsSection::default(),
            pdf: PdfPolicySection::default(),
            image: ImagePolicySection::default(),
            archive: ArchivePolicySection::default(),
        }
    }
}

} // verus!
