//! The fixed table of image types a caller can ask for.
//!
//! Each entry says under which registered format names the payload of that
//! type may be found, in priority order, and how the payload is to be read:
//! as the input of an image codec, or as text to be handed on verbatim.

use vstd::prelude::*;
use vstd::string::*;
use vstd::utf8::*;

verus! {

/// The codec that reads and writes the payload of a binary entry.
#[derive(Clone, Copy, Debug, PartialEq, Eq, Structural)]
pub enum CodecTag {
    Bmp,
    Png,
    Jpeg,
    Gif,
    Ico,
    WebP,
}

/// How the payload of an entry is to be read. A binary payload names its
/// codec, so an entry has a codec exactly when it is binary.
#[derive(Clone, Copy, Debug, PartialEq, Eq, Structural)]
pub enum PayloadKind {
    Binary(CodecTag),
    Text,
}

/// The character sequences of a list of names.
pub open spec fn names_of(names: Seq<&str>) -> Seq<Seq<char>> {
    names.map_values(|name: &str| name@)
}

/// One line of the table.
#[derive(Debug, PartialEq, Eq)]
pub struct CatalogEntry {
    /// The name callers use.
    pub user_name: &'static str,
    pub kind: PayloadKind,
    /// The registered format names that may carry the payload, best first.
    pub candidate_format_names: Vec<&'static str>,
}

/// A catalog entry as a mathematical value.
pub struct CatalogEntryView {
    pub user_name: Seq<char>,
    pub kind: PayloadKind,
    pub candidates: Seq<Seq<char>>,
}

impl View for CatalogEntry {
    type V = CatalogEntryView;

    open spec fn view(&self) -> CatalogEntryView {
        CatalogEntryView {
            user_name: self.user_name@,
            kind: self.kind,
            candidates: names_of(self.candidate_format_names@),
        }
    }
}

impl CatalogEntryView {
    /// The codec of a binary entry; a text entry has none.
    pub open spec fn codec_tag(self) -> Option<CodecTag> {
        match self.kind {
            PayloadKind::Binary(tag) => Some(tag),
            PayloadKind::Text => None,
        }
    }

    /// An entry names at least one and at most two formats, none of them empty.
    pub open spec fn well_formed(self) -> bool {
        &&& 1 <= self.candidates.len() <= 2
        &&& forall|i: int| 0 <= i < self.candidates.len() ==> #[trigger] self.candidates[i].len() > 0
    }
}

impl CatalogEntry {
    /// The codec of a binary entry; a text entry has none.
    pub fn codec_tag(&self) -> (tag: Option<CodecTag>)
        ensures
            tag == self@.codec_tag(),
            tag.is_some() <==> self.kind != PayloadKind::Text,
    {
        match self.kind {
            PayloadKind::Binary(tag) => Some(tag),
            PayloadKind::Text => None,
        }
    }
}

/// The registered name of the bare bitmap format, whose payload lacks a file header.
pub const LEGACY_DIB_FORMAT: &'static str = "CF_DIBV5";

/// An entry with one candidate name.
pub open spec fn entry_one(user_name: Seq<char>, kind: PayloadKind, first: Seq<char>) -> CatalogEntryView {
    CatalogEntryView { user_name, kind, candidates: seq![first] }
}

/// An entry with two candidate names.
pub open spec fn entry_two(
    user_name: Seq<char>,
    kind: PayloadKind,
    first: Seq<char>,
    second: Seq<char>,
) -> CatalogEntryView {
    CatalogEntryView { user_name, kind, candidates: seq![first, second] }
}

/// The table: the entry filed under `name`, if there is one.
pub open spec fn catalog(name: Seq<char>) -> Option<CatalogEntryView> {
    if name == "Bmp"@ {
        Some(entry_one(name, PayloadKind::Binary(CodecTag::Bmp), "CF_DIBV5"@))
    } else if name == "Png"@ {
        Some(entry_two(name, PayloadKind::Binary(CodecTag::Png), "PNG"@, "image/png"@))
    } else if name == "Jpeg"@ {
        Some(entry_two(name, PayloadKind::Binary(CodecTag::Jpeg), "JFIF"@, "image/jpeg"@))
    } else if name == "Gif"@ {
        Some(entry_two(name, PayloadKind::Binary(CodecTag::Gif), "GIF"@, "image/gif"@))
    } else if name == "Ico"@ {
        Some(entry_one(name, PayloadKind::Binary(CodecTag::Ico), "image/ico"@))
    } else if name == "WebP"@ {
        Some(entry_one(name, PayloadKind::Binary(CodecTag::WebP), "image/webp"@))
    } else if name == "Svg"@ {
        Some(entry_one(name, PayloadKind::Text, "image/svg+xml"@))
    } else {
        None
    }
}

/// Whether `name` is one of the names the table is keyed by.
pub open spec fn is_known(name: Seq<char>) -> bool {
    name == "Bmp"@ || name == "Png"@ || name == "Jpeg"@ || name == "Gif"@ || name == "Ico"@
        || name == "WebP"@ || name == "Svg"@
}

/// Every entry of the table is filed under its own name and is well formed,
/// and the table has an entry for exactly the known names.
pub proof fn lemma_catalog_entries(name: Seq<char>)
    ensures
        catalog(name).is_some() <==> is_known(name),
        catalog(name) matches Some(entry) ==> entry.user_name == name && entry.well_formed() && (
        entry.codec_tag().is_some() <==> entry.kind != PayloadKind::Text),
{
    reveal_strlit("CF_DIBV5");
    reveal_strlit("PNG");
    reveal_strlit("image/png");
    reveal_strlit("JFIF");
    reveal_strlit("image/jpeg");
    reveal_strlit("GIF");
    reveal_strlit("image/gif");
    reveal_strlit("image/ico");
    reveal_strlit("image/webp");
    reveal_strlit("image/svg+xml");
}

/// The table, line by line.
pub proof fn lemma_catalog_table()
    ensures
        catalog("Bmp"@) == Some(
            entry_one("Bmp"@, PayloadKind::Binary(CodecTag::Bmp), "CF_DIBV5"@),
        ),
        catalog("Png"@) == Some(
            entry_two("Png"@, PayloadKind::Binary(CodecTag::Png), "PNG"@, "image/png"@),
        ),
        catalog("Jpeg"@) == Some(
            entry_two("Jpeg"@, PayloadKind::Binary(CodecTag::Jpeg), "JFIF"@, "image/jpeg"@),
        ),
        catalog("Gif"@) == Some(
            entry_two("Gif"@, PayloadKind::Binary(CodecTag::Gif), "GIF"@, "image/gif"@),
        ),
        catalog("Ico"@) == Some(
            entry_one("Ico"@, PayloadKind::Binary(CodecTag::Ico), "image/ico"@),
        ),
        catalog("WebP"@) == Some(
            entry_one("WebP"@, PayloadKind::Binary(CodecTag::WebP), "image/webp"@),
        ),
        catalog("Svg"@) == Some(entry_one("Svg"@, PayloadKind::Text, "image/svg+xml"@)),
{
    reveal_strlit("Bmp");
    reveal_strlit("Png");
    reveal_strlit("Jpeg");
    reveal_strlit("Gif");
    reveal_strlit("Ico");
    reveal_strlit("WebP");
    reveal_strlit("Svg");
    assert("Png"@[0] != "Bmp"@[0]);
    assert("Gif"@[0] != "Bmp"@[0] && "Gif"@[0] != "Png"@[0]);
    assert("Ico"@[0] != "Bmp"@[0] && "Ico"@[0] != "Png"@[0] && "Ico"@[0] != "Gif"@[0]);
    assert("Svg"@[0] != "Bmp"@[0] && "Svg"@[0] != "Png"@[0] && "Svg"@[0] != "Gif"@[0] && "Svg"@[0]
        != "Ico"@[0]);
    assert("WebP"@[0] != "Jpeg"@[0]);
}

/// Whether two strings hold the same characters.
pub fn str_eq(a: &str, b: &str) -> (same: bool)
    ensures
        same == (a@ == b@),
{
    let x = a.as_bytes();
    let y = b.as_bytes();
    proof {
        encode_utf8_decode_utf8(a@);
        encode_utf8_decode_utf8(b@);
    }
    if x.len() != y.len() {
        return false;
    }
    let mut i: usize = 0;
    while i < x.len()
        invariant
            x@ == encode_utf8(a@),
            y@ == encode_utf8(b@),
            x@.len() == y@.len(),
            i <= x@.len(),
            forall|j: int| 0 <= j < i ==> x@[j] == y@[j],
        decreases x@.len() - i,
    {
        if x[i] != y[i] {
            return false;
        }
        i += 1;
    }
    assert(x@ =~= y@);
    true
}

/// Looks `user_name` up in the table.
pub fn lookup(user_name: &str) -> (found: Option<CatalogEntry>)
    ensures
        found.is_some() <==> is_known(user_name@),
        match found {
            Some(entry) => catalog(user_name@) == Some(entry@) && entry@.well_formed(),
            None => catalog(user_name@).is_none(),
        },
{
    proof {
        lemma_catalog_entries(user_name@);
    }
    let found = if str_eq(user_name, "Bmp") {
        Some(one_name("Bmp", PayloadKind::Binary(CodecTag::Bmp), LEGACY_DIB_FORMAT))
    } else if str_eq(user_name, "Png") {
        Some(two_names("Png", PayloadKind::Binary(CodecTag::Png), "PNG", "image/png"))
    } else if str_eq(user_name, "Jpeg") {
        Some(two_names("Jpeg", PayloadKind::Binary(CodecTag::Jpeg), "JFIF", "image/jpeg"))
    } else if str_eq(user_name, "Gif") {
        Some(two_names("Gif", PayloadKind::Binary(CodecTag::Gif), "GIF", "image/gif"))
    } else if str_eq(user_name, "Ico") {
        Some(one_name("Ico", PayloadKind::Binary(CodecTag::Ico), "image/ico"))
    } else if str_eq(user_name, "WebP") {
        Some(one_name("WebP", PayloadKind::Binary(CodecTag::WebP), "image/webp"))
    } else if str_eq(user_name, "Svg") {
        Some(one_name("Svg", PayloadKind::Text, "image/svg+xml"))
    } else {
        None
    };
    found
}

/// Builds an entry with one candidate name.
fn one_name(user_name: &'static str, kind: PayloadKind, first: &'static str) -> (entry: CatalogEntry)
    ensures
        entry@ == entry_one(user_name@, kind, first@),
{
    let mut names: Vec<&'static str> = Vec::new();
    names.push(first);
    let entry = CatalogEntry { user_name, kind, candidate_format_names: names };
    assert(entry@.candidates =~= seq![first@]);
    entry
}

/// Builds an entry with two candidate names.
fn two_names(
    user_name: &'static str,
    kind: PayloadKind,
    first: &'static str,
    second: &'static str,
) -> (entry: CatalogEntry)
    ensures
        entry@ == entry_two(user_name@, kind, first@, second@),
{
    let mut names: Vec<&'static str> = Vec::new();
    names.push(first);
    names.push(second);
    let entry = CatalogEntry { user_name, kind, candidate_format_names: names };
    assert(entry@.candidates =~= seq![first@, second@]);
    entry
}

} // verus!
