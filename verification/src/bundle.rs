//! The asset bundle: an immutable mapping from normalized path to byte
//! content, built once at startup from a build-time snapshot, with exact-match
//! lookup, content-type inference from the file extension, and a designated
//! entry document that must exist or construction fails.

use vstd::prelude::*;
use vstd::slice::slice_to_vec;

use crate::text::{ascii, bytes_eq, ends_with, lit_slice};

verus! {

/// One bundled file: its normalized path (no leading slash) and its bytes.
pub struct Asset {
    pub path: Vec<u8>,
    pub data: Vec<u8>,
}

/// The content type the server labels a response with.
#[derive(Clone, Copy, PartialEq, Eq, Debug)]
pub enum ContentType {
    Json,
    Html,
    Text,
}

/// First-match lookup of a path among the bundled entries.
pub open spec fn lookup(entries: Seq<Asset>, path: Seq<u8>) -> Option<Seq<u8>>
    decreases entries.len(),
{
    if entries.len() == 0 {
        None
    } else if entries[0].path@ == path {
        Some(entries[0].data@)
    } else {
        lookup(entries.skip(1), path)
    }
}

/// The content type inferred from a path: `.html` files are HTML, everything
/// else is served as plain UTF-8 text.
pub open spec fn content_type_of(path: Seq<u8>) -> ContentType {
    if ascii(".html").is_suffix_of(path) {
        ContentType::Html
    } else {
        ContentType::Text
    }
}

/// Why a bundle cannot be built: its designated entry document is missing.
#[derive(Debug)]
pub enum ConfigError {
    MissingEntryDocument,
}

impl ConfigError {
    /// A diagnostic line for the fatal startup report.
    pub fn message(&self) -> (r: &'static str)
        ensures
            r@ == "the entry document is missing from the asset bundle"@,
    {
        "the entry document is missing from the asset bundle"
    }
}

/// The embedded, read-only collection of built frontend files, together with
/// the name and bytes of its entry document.
pub struct AssetBundle {
    pub entries: Vec<Asset>,
    pub entry_name: Vec<u8>,
    pub entry_doc: Vec<u8>,
}

impl AssetBundle {
    /// A well-formed bundle holds its entry document, and `entry_doc` caches
    /// exactly those bytes.
    pub open spec fn wf(&self) -> bool {
        lookup(self.entries@, self.entry_name@) == Some(self.entry_doc@)
    }

    /// Builds a bundle from a snapshot of entries. Fails, and the server must
    /// refuse to start, when the entry document named `entry_name` is absent.
    pub fn new(entries: Vec<Asset>, entry_name: Vec<u8>) -> (r: Result<AssetBundle, ConfigError>)
        ensures
            r is Ok <==> lookup(entries@, entry_name@) is Some,
            r matches Ok(b) ==> b.wf() && b.entries@ == entries@ && b.entry_name@ == entry_name@
                && Some(b.entry_doc@) == lookup(entries@, entry_name@),
    {
        let doc = find(&entries, entry_name.as_slice());
        match doc {
            Some(d) => Ok(AssetBundle { entries, entry_name, entry_doc: d }),
            None => Err(ConfigError::MissingEntryDocument),
        }
    }

    /// Exact-match lookup: the stored bytes and the inferred content type, or
    /// nothing for an absent path; absence is an expected case, never a fault.
    pub fn get(&self, path: &[u8]) -> (r: Option<(Vec<u8>, ContentType)>)
        ensures
            match lookup(self.entries@, path@) {
                Some(d) => r matches Some(p) && p.0@ == d && p.1 == content_type_of(path@),
                None => r is None,
            },
    {
        proof {
            reveal_strlit(".html");
        }
        match find(&self.entries, path) {
            Some(d) => {
                let ct = if ends_with(path, lit_slice(".html")) {
                    ContentType::Html
                } else {
                    ContentType::Text
                };
                Some((d, ct))
            },
            None => None,
        }
    }

    /// The designated root document, also used as the fallback for unmatched
    /// paths.
    pub fn entry_document(&self) -> (r: Vec<u8>)
        requires
            self.wf(),
        ensures
            r@ == self.entry_doc@,
    {
        slice_to_vec(self.entry_doc.as_slice())
    }
}

/// First-match scan of the entries, returning a copy of the stored bytes.
fn find(entries: &Vec<Asset>, path: &[u8]) -> (r: Option<Vec<u8>>)
    ensures
        match lookup(entries@, path@) {
            Some(d) => r matches Some(v) && v@ == d,
            None => r is None,
        },
{
    let mut i: usize = 0;
    proof {
        assert(entries@.skip(0) =~= entries@);
    }
    while i < entries.len()
        invariant
            i <= entries.len(),
            lookup(entries@, path@) == lookup(entries@.skip(i as int), path@),
        decreases entries.len() - i,
    {
        proof {
            assert(entries@.skip(i as int)[0] == entries@[i as int]);
            assert(entries@.skip(i as int).skip(1) =~= entries@.skip(i + 1 as int));
        }
        if bytes_eq(entries[i].path.as_slice(), path) {
            return Some(slice_to_vec(entries[i].data.as_slice()));
        }
        i = i + 1;
    }
    None
}

} // verus!
