//! Content-type sniffing and the magic-byte fingerprint.

use vstd::prelude::*;
use crate::error::GuardUploadError;
use crate::text::{hex_spaced, hex_upper_spaced};

verus! {

/// Relies on `tree_magic_mini::from_u8`: the MIME type that the shared MIME
/// database assigns to the bytes. The database is read from this machine's
/// disk, so nothing is promised about the result. The type walk always ends
/// at a match: the built-in `application/octet-stream` matches any bytes.
#[verifier::external_body]
fn sniff_mime(data: &[u8]) -> String {
    tree_magic_mini::from_u8(data).to_string()
}

/// What sniffing found.
#[derive(Debug, Clone)]
pub struct SniffResult {
    pub mime_real: String,
    /// The first 8 bytes as upper-case hexadecimal pairs separated by spaces.
    pub magic: Option<String>,
}

/// The fingerprint of a buffer: its first 8 bytes in hexadecimal, or
/// nothing when it is shorter.
pub open spec fn magic_of(data: Seq<u8>) -> Option<Seq<char>> {
    if data.len() >= 8 {
        Some(hex_spaced(data.subrange(0, 8)))
    } else {
        None
    }
}

/// The fingerprint of `data`.
pub fn magic_fingerprint(data: &[u8]) -> (r: Option<String>)
    ensures
        match r {
            Some(s) => magic_of(data@) == Some(s@),
            None => magic_of(data@) is None,
        },
{
    if data.len() < 8 {
        return None;
    }
    let mut head: Vec<u8> = Vec::new();
    let mut i: usize = 0;
    while i < 8
        invariant
            i <= 8 <= data@.len(),
            head@ == data@.subrange(0, i as int),
        decreases 8 - i,
    {
        head.push(data[i]);
        assert(head@ =~= data@.subrange(0, i + 1));
        i = i + 1;
    }
    Some(hex_upper_spaced(head.as_slice()))
}

/// Sniffs the MIME type of `data` and takes its fingerprint. Never fails.
pub fn sniff_bytes(data: &[u8]) -> (r: Result<SniffResult, GuardUploadError>)
    ensures
        r matches Ok(s) && match s.magic {
            Some(m) => magic_of(data@) == Some(m@),
            None => magic_of(data@) is None,
        },
{
    let mime_real = sniff_mime(data);
    let magic = magic_fingerprint(data);
    Ok(SniffResult { mime_real, magic })
}

} // verus!
