//! Decisions about asset files that do not need the files themselves.

use vstd::prelude::*;
use vstd::string::StrSliceExecFns;

verus! {

#[verifier::external_type_specification]
#[verifier::external_body]
pub struct ExJsonValue(serde_json::Value);

#[verifier::external_type_specification]
#[verifier::external_body]
pub struct ExJsonError(serde_json::Error);

/// Whether serde_json reads the bytes as one JSON document.
pub uninterp spec fn json_document(bytes: Seq<u8>) -> bool;

/// Relies on `serde_json::from_slice`: it succeeds or fails on the bytes alone.
#[verifier::external_body]
fn parse_json(bytes: &[u8]) -> (r: Result<serde_json::Value, serde_json::Error>)
    ensures
        r is Ok <==> json_document(bytes@),
{
    serde_json::from_slice(bytes)
}

/// Relies on serde_json's `Index<&str>` for `Value`: the member `key`, or
/// `Null` when there is none; it does not panic.
#[verifier::external_body]
fn json_member<'a>(value: &'a serde_json::Value, key: &str) -> (r: &'a serde_json::Value) {
    &value[key]
}

/// Relies on serde_json's `Display` for `Value`: the value written as JSON text.
#[verifier::external_body]
fn json_text(value: &serde_json::Value) -> (r: String) {
    value.to_string()
}

/// The texture image encodings the asset loader accepts.
#[derive(Clone, Copy, Debug, PartialEq, Eq, Structural)]
pub enum ImageKind {
    Png,
    Jpeg,
    Bmp,
    Gif,
}

/// The encoding named by a file extension (without its dot), if it is one
/// the loader accepts. Matching is exact and case-sensitive, on the ASCII
/// bytes of `png`, `jpg`, `bmp` and `gif`.
pub open spec fn image_kind_of(ext: Seq<u8>) -> Option<ImageKind> {
    if ext == seq![0x70u8, 0x6eu8, 0x67u8] {
        Some(ImageKind::Png)
    } else if ext == seq![0x6au8, 0x70u8, 0x67u8] {
        Some(ImageKind::Jpeg)
    } else if ext == seq![0x62u8, 0x6du8, 0x70u8] {
        Some(ImageKind::Bmp)
    } else if ext == seq![0x67u8, 0x69u8, 0x66u8] {
        Some(ImageKind::Gif)
    } else {
        None
    }
}

fn is_three(ext: &[u8], a: u8, b: u8, c: u8) -> (r: bool)
    ensures
        r == (ext@ == seq![a, b, c]),
{
    if ext.len() != 3 {
        proof {
            assert(seq![a, b, c].len() == 3);
        }
        return false;
    }
    let r = ext[0] == a && ext[1] == b && ext[2] == c;
    proof {
        if r {
            assert(ext@ =~= seq![a, b, c]);
        } else {
            assert(ext@ != seq![a, b, c]) by {
                if ext@ == seq![a, b, c] {
                    assert(ext@[0] == a && ext@[1] == b && ext@[2] == c);
                }
            }
        }
    }
    r
}

/// Picks the image encoding from a file extension: `png`, `jpg`, `bmp` and
/// `gif` are known; anything else is `None`.
pub fn image_kind(ext: &[u8]) -> (r: Option<ImageKind>)
    ensures
        r == image_kind_of(ext@),
{
    if is_three(ext, 0x70u8, 0x6eu8, 0x67u8) {
        Some(ImageKind::Png)
    } else if is_three(ext, 0x6au8, 0x70u8, 0x67u8) {
        Some(ImageKind::Jpeg)
    } else if is_three(ext, 0x62u8, 0x6du8, 0x70u8) {
        Some(ImageKind::Bmp)
    } else if is_three(ext, 0x67u8, 0x69u8, 0x66u8) {
        Some(ImageKind::Gif)
    } else {
        None
    }
}

/// The file extension (without its dot) that marks an asset descriptor:
/// the ASCII bytes of `json`, exactly.
pub open spec fn is_descriptor_extension(ext: Seq<u8>) -> bool {
    ext == seq![0x6au8, 0x73u8, 0x6fu8, 0x6eu8]
}

/// Whether a file with this extension is an asset descriptor to load.
pub fn is_descriptor(ext: &[u8]) -> (r: bool)
    ensures
        r == is_descriptor_extension(ext@),
{
    if ext.len() != 4 {
        return false;
    }
    let r = ext[0] == 0x6au8 && ext[1] == 0x73u8 && ext[2] == 0x6fu8 && ext[3] == 0x6eu8;
    proof {
        let json = seq![0x6au8, 0x73u8, 0x6fu8, 0x6eu8];
        if r {
            assert(ext@ =~= json);
        } else if ext@ == json {
            assert(ext@[0] == json[0] && ext@[1] == json[1] && ext@[2] == json[2] && ext@[3]
                == json[3]);
        }
    }
    r
}

/// `s` without the double quotes at either end, however many there are.
pub open spec fn unquoted(s: Seq<char>) -> Seq<char>
    decreases s.len(),
{
    if s.len() > 0 && s[0] == '"' {
        unquoted(s.drop_first())
    } else if s.len() > 0 && s.last() == '"' {
        unquoted(s.drop_last())
    } else {
        s
    }
}

/// Strips every leading and trailing double quote from `text`; quotes inside
/// are kept.
pub fn trim_quotes(text: &str) -> (r: String)
    ensures
        r@ == unquoted(text@),
{
    let n = text.unicode_len();
    let mut start: usize = 0;
    assert(text@.subrange(0, n as int) =~= text@);
    while start < n && text.get_char(start) == '"'
        invariant
            n == text@.len(),
            start <= n,
            unquoted(text@) == unquoted(text@.subrange(start as int, n as int)),
        decreases n - start,
    {
        assert(text@.subrange(start as int + 1, n as int) =~= text@.subrange(
            start as int,
            n as int,
        ).drop_first());
        start += 1;
    }
    let mut end: usize = n;
    while end > start && text.get_char(end - 1) == '"'
        invariant
            n == text@.len(),
            start <= end <= n,
            start < n ==> text@[start as int] != '"',
            unquoted(text@) == unquoted(text@.subrange(start as int, end as int)),
        decreases end - start,
    {
        assert(text@.subrange(start as int, end as int - 1) =~= text@.subrange(
            start as int,
            end as int,
        ).drop_last());
        end -= 1;
    }
    let inner = text.substring_char(start, end);
    proof {
        let rest = text@.subrange(start as int, end as int);
        if rest.len() > 0 {
            assert(rest[0] == text@[start as int]);
            assert(rest.last() == text@[end as int - 1]);
        }
    }
    inner.to_owned()
}

/// What one asset descriptor file names: a mesh and a texture pair, each
/// under the key the renderer looks it up by.
#[derive(Debug, PartialEq, Eq)]
pub struct AssetEntry {
    pub object_key: String,
    pub object_file_path: String,
    pub texture_key: String,
    pub diffuse_file_path: String,
    pub normal_file_path: String,
}

/// Why an asset descriptor could not be read.
#[derive(Clone, Copy, Debug, PartialEq, Eq, Structural)]
pub enum AssetError {
    /// The bytes are not a JSON document.
    Malformed,
}

impl AssetEntry {
    /// Builds an entry from the JSON text of each member, stripped of its
    /// quotes.
    pub fn from_member_texts(
        object_key: &str,
        object_file_path: &str,
        texture_key: &str,
        diffuse_file_path: &str,
        normal_file_path: &str,
    ) -> (r: AssetEntry)
        ensures
            r.object_key@ == unquoted(object_key@),
            r.object_file_path@ == unquoted(object_file_path@),
            r.texture_key@ == unquoted(texture_key@),
            r.diffuse_file_path@ == unquoted(diffuse_file_path@),
            r.normal_file_path@ == unquoted(normal_file_path@),
    {
        AssetEntry {
            object_key: trim_quotes(object_key),
            object_file_path: trim_quotes(object_file_path),
            texture_key: trim_quotes(texture_key),
            diffuse_file_path: trim_quotes(diffuse_file_path),
            normal_file_path: trim_quotes(normal_file_path),
        }
    }
}

fn member_text(value: &serde_json::Value, key: &str) -> (r: String) {
    json_text(json_member(value, key))
}

/// Reads an asset descriptor: a JSON document whose members `object_key`,
/// `object_file_path`, `texture_key`, `diffuse_file_path` and
/// `normal_file_path` are taken as JSON text without their quotes (a missing
/// member reads as `null`). Bytes that are not JSON are `Malformed`.
pub fn parse_asset_entry(bytes: &[u8]) -> (r: Result<AssetEntry, AssetError>)
    ensures
        r is Ok <==> json_document(bytes@),
        r is Err ==> r == Err::<AssetEntry, AssetError>(AssetError::Malformed),
        r matches Ok(entry) ==> {
            &&& entry.object_key@ == unquoted(entry.object_key@)
            &&& entry.object_file_path@ == unquoted(entry.object_file_path@)
            &&& entry.texture_key@ == unquoted(entry.texture_key@)
            &&& entry.diffuse_file_path@ == unquoted(entry.diffuse_file_path@)
            &&& entry.normal_file_path@ == unquoted(entry.normal_file_path@)
        },
{
    match parse_json(bytes) {
        Ok(value) => {
            let object_key = member_text(&value, "object_key");
            let object_file_path = member_text(&value, "object_file_path");
            let texture_key = member_text(&value, "texture_key");
            let diffuse_file_path = member_text(&value, "diffuse_file_path");
            let normal_file_path = member_text(&value, "normal_file_path");
            let entry = AssetEntry::from_member_texts(
                object_key.as_str(),
                object_file_path.as_str(),
                texture_key.as_str(),
                diffuse_file_path.as_str(),
                normal_file_path.as_str(),
            );
            proof {
                lemma_unquoted_idempotent(object_key@);
                lemma_unquoted_idempotent(object_file_path@);
                lemma_unquoted_idempotent(texture_key@);
                lemma_unquoted_idempotent(diffuse_file_path@);
                lemma_unquoted_idempotent(normal_file_path@);
            }
            Ok(entry)
        },
        Err(_) => Err(AssetError::Malformed),
    }
}

/// Stripping quotes twice strips nothing more.
pub proof fn lemma_unquoted_idempotent(s: Seq<char>)
    ensures
        unquoted(unquoted(s)) == unquoted(s),
    decreases s.len(),
{
    if s.len() > 0 && s[0] == '"' {
        lemma_unquoted_idempotent(s.drop_first());
    } else if s.len() > 0 && s.last() == '"' {
        lemma_unquoted_idempotent(s.drop_last());
    }
}

} // verus!
