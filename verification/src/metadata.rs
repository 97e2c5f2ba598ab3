//! On-chain metadata of an asset, and where in it the cover image is named.

use vstd::prelude::*;
use vstd::string::StrSliceExecFns;

verus! {

/// Number of characters of the URI scheme `ipfs://` that precedes a content
/// identifier in a cover path.
pub const SCHEME_LEN: usize = 7;

/// A JSON document, as far as the shape of its containers and its texts go.
pub enum Metadata {
    /// The JSON `null`.
    Null,
    /// A JSON boolean.
    Flag(bool),
    /// A JSON number, kept as its decimal text.
    Number(String),
    /// A JSON string.
    Text(String),
    /// A JSON array.
    List(Vec<Metadata>),
    /// A JSON object: its members in order, each a key and a value.
    Record(Vec<(String, Metadata)>),
}

/// What the asset-detail service reports of an asset, as far as it is used.
pub struct AssetDetails {
    /// The metadata stored on chain when the asset was minted, if any.
    pub onchain_metadata: Option<Metadata>,
}

/// The value of the first member of `fields` whose key is `key`.
pub open spec fn first_with_key(fields: Seq<(String, Metadata)>, key: Seq<char>) -> Option<
    Metadata,
>
    decreases fields.len(),
{
    if fields.len() == 0 {
        None
    } else if fields[0].0@ == key {
        Some(fields[0].1)
    } else {
        first_with_key(fields.skip(1), key)
    }
}

impl Metadata {
    /// The member `key` of an object; `None` for a missing key and for
    /// anything that is not an object.
    pub open spec fn member(self, key: Seq<char>) -> Option<Metadata> {
        match self {
            Metadata::Record(fields) => first_with_key(fields@, key),
            _ => None,
        }
    }

    /// The element at `index` of an array; `None` past its end and for
    /// anything that is not an array.
    pub open spec fn element(self, index: int) -> Option<Metadata> {
        match self {
            Metadata::List(items) => if 0 <= index < items@.len() {
                Some(items@[index])
            } else {
                None
            },
            _ => None,
        }
    }

    /// The text of a string; `None` for anything else.
    pub open spec fn text(self) -> Option<Seq<char>> {
        match self {
            Metadata::Text(s) => Some(s@),
            _ => None,
        }
    }

    /// Looks up the member `key` of an object.
    pub fn get_member<'a>(&'a self, key: &String) -> (res: Option<&'a Metadata>)
        ensures
            match res {
                Some(m) => self.member(key@) == Some(*m),
                None => self.member(key@) is None,
            },
    {
        match self {
            Metadata::Record(fields) => {
                let mut i: usize = 0;
                assert(fields@.skip(0) =~= fields@);
                while i < fields.len()
                    invariant
                        i <= fields.len(),
                        self.member(key@) == first_with_key(fields@, key@),
                        first_with_key(fields@, key@) == first_with_key(
                            fields@.skip(i as int),
                            key@,
                        ),
                    decreases fields.len() - i,
                {
                    let ghost rest = fields@.skip(i as int);
                    assert(rest.len() > 0 && rest[0] == fields@[i as int]);
                    assert(rest.skip(1) =~= fields@.skip(i + 1));
                    if fields[i].0 == *key {
                        return Some(&fields[i].1);
                    }
                    i = i + 1;
                }
                None
            },
            _ => None,
        }
    }

    /// Looks up the element at `index` of an array.
    pub fn get_element<'a>(&'a self, index: usize) -> (res: Option<&'a Metadata>)
        ensures
            match res {
                Some(m) => self.element(index as int) == Some(*m),
                None => self.element(index as int) is None,
            },
    {
        match self {
            Metadata::List(items) => {
                if index < items.len() {
                    Some(&items[index])
                } else {
                    None
                }
            },
            _ => None,
        }
    }

    /// Reads a string's text.
    pub fn as_text<'a>(&'a self) -> (res: Option<&'a String>)
        ensures
            match res {
                Some(s) => self.text() == Some(s@),
                None => self.text() is None,
            },
    {
        match self {
            Metadata::Text(s) => Some(s),
            _ => None,
        }
    }
}

/// Where the metadata names the high-resolution cover: the `src` of the
/// first entry of `files`, when that is a string. Metadata that is missing,
/// or shaped otherwise anywhere along that path, names no cover.
pub open spec fn cover_path(details: AssetDetails) -> Option<Seq<char>> {
    match details.onchain_metadata {
        None => None,
        Some(root) => match root.member("files"@) {
            None => None,
            Some(files) => match files.element(0) {
                None => None,
                Some(first) => match first.member("src"@) {
                    None => None,
                    Some(src) => src.text(),
                },
            },
        },
    }
}

/// The title that the metadata gives the asset: its `name`, when that is a
/// string.
pub open spec fn cover_title(details: AssetDetails) -> Option<Seq<char>> {
    match details.onchain_metadata {
        None => None,
        Some(root) => match root.member("name"@) {
            None => None,
            Some(name) => name.text(),
        },
    }
}

/// Extracts the high-resolution cover path from an asset's metadata.
pub fn get_high_res_cover_path(asset_details: &AssetDetails) -> (path: Option<String>)
    ensures
        match path {
            Some(p) => cover_path(*asset_details) == Some(p@),
            None => cover_path(*asset_details) is None,
        },
{
    let files_key = "files".to_owned();
    let src_key = "src".to_owned();
    match &asset_details.onchain_metadata {
        None => None,
        Some(root) => match root.get_member(&files_key) {
            None => None,
            Some(files) => match files.get_element(0) {
                None => None,
                Some(first) => match first.get_member(&src_key) {
                    None => None,
                    Some(src) => match src.as_text() {
                        None => None,
                        Some(s) => Some(s.clone()),
                    },
                },
            },
        },
    }
}

/// Extracts the title of an asset from its metadata.
pub fn get_title(asset_details: &AssetDetails) -> (title: Option<String>)
    ensures
        match title {
            Some(t) => cover_title(*asset_details) == Some(t@),
            None => cover_title(*asset_details) is None,
        },
{
    let name_key = "name".to_owned();
    match &asset_details.onchain_metadata {
        None => None,
        Some(root) => match root.get_member(&name_key) {
            None => None,
            Some(name) => match name.as_text() {
                None => None,
                Some(s) => Some(s.clone()),
            },
        },
    }
}

/// The content identifier that a cover path holds: what follows its first
/// `SCHEME_LEN` characters. A shorter path holds none.
pub open spec fn content_id_of(path: Seq<char>) -> Option<Seq<char>> {
    if path.len() >= SCHEME_LEN {
        Some(path.skip(SCHEME_LEN as int))
    } else {
        None
    }
}

/// Strips the URI scheme from a cover path.
pub fn content_id(path: &str) -> (cid: Option<String>)
    ensures
        match cid {
            Some(c) => content_id_of(path@) == Some(c@),
            None => content_id_of(path@) is None,
        },
{
    let len: usize = path.unicode_len();
    if len >= SCHEME_LEN {
        let rest = path.substring_char(SCHEME_LEN, len);
        assert(path@.subrange(SCHEME_LEN as int, len as int) =~= path@.skip(SCHEME_LEN as int));
        Some(rest.to_owned())
    } else {
        None
    }
}

} // verus!
