//! Names given to new props, looks and audio tracks.
use vstd::prelude::*;
use crate::ids::{is_uuid_text, new_id};
use crate::numbers::{decimal, push_decimal};
use crate::text::{owned, trim, trimmed};

verus! {

/// What `Path::file_stem` gives for the path `p` (the file name without its
/// extension), when it is text.
pub uninterp spec fn path_file_stem(p: Seq<char>) -> Option<Seq<char>>;

/// What `Path::file_name` gives for the path `p` (its last component), when
/// it is text.
pub uninterp spec fn path_file_name(p: Seq<char>) -> Option<Seq<char>>;

/// `std::path::Path::file_stem`, as text; the part of the path it is, is
/// named rather than spelled out.
#[verifier::external_body]
fn file_stem_of(path: &str) -> (r: Option<String>)
    ensures
        match r {
            Some(s) => path_file_stem(path@) == Some(s@),
            None => path_file_stem(path@) is None,
        },
{
    std::path::Path::new(path).file_stem().and_then(|n| n.to_str()).map(|n| n.to_owned())
}

/// `std::path::Path::file_name`, as text; the part of the path it is, is
/// named rather than spelled out.
#[verifier::external_body]
fn file_name_of(path: &str) -> (r: Option<String>)
    ensures
        match r {
            Some(s) => path_file_name(path@) == Some(s@),
            None => path_file_name(path@) is None,
        },
{
    std::path::Path::new(path).file_name().and_then(|n| n.to_str()).map(|n| n.to_owned())
}

/// The typed name, trimmed, or `fallback` when it is blank.
pub open spec fn name_or_default(field: Seq<char>, fallback: Seq<char>) -> Seq<char> {
    if trim(field).len() == 0 {
        fallback
    } else {
        trim(field)
    }
}

/// The name of a new text prop: the typed name, or "New Text Prop".
pub fn text_prop_name(field: &str) -> (n: String)
    ensures
        n@ == name_or_default(field@, "New Text Prop"@),
{
    let t = trimmed(field);
    if t.as_str().is_empty() {
        owned("New Text Prop")
    } else {
        t
    }
}

/// The name of a new image prop: the typed name, or the image's file name
/// without extension, or "Image".
pub fn image_prop_name(field: &str, path: &str) -> (n: String)
    ensures
        n@ == name_or_default(
            field@,
            match path_file_stem(path@) {
                Some(s) => s,
                None => "Image"@,
            },
        ),
{
    let t = trimmed(field);
    if t.as_str().is_empty() {
        match file_stem_of(path) {
            Some(s) => s,
            None => owned("Image"),
        }
    } else {
        t
    }
}

/// The name of a new look when `existing` looks are saved: the typed name,
/// or "Look n" numbering it after them.
pub fn look_name(field: &str, existing: usize) -> (n: String)
    requires
        existing < usize::MAX,
    ensures
        n@ == name_or_default(field@, "Look "@ + decimal(existing as nat + 1)),
{
    let t = trimmed(field);
    if t.as_str().is_empty() {
        let mut s = owned("Look ");
        push_decimal(&mut s, existing as u64 + 1);
        s
    } else {
        t
    }
}

/// The name an audio track is shown under: its file name, or "unknown".
pub fn track_name(path: &str) -> (n: String)
    ensures
        n@ == match path_file_name(path@) {
            Some(s) => s,
            None => "unknown"@,
        },
{
    match file_name_of(path) {
        Some(s) => s,
        None => owned("unknown"),
    }
}

/// The identity and name of a new prop; its content and geometry are left
/// to the renderer.
#[derive(Debug)]
pub struct PropIdentity {
    pub id: String,
    pub name: String,
}

/// A new text prop: a fresh identity and the name from the name field (see
/// [`text_prop_name`]).
pub fn new_text_prop(field: &str) -> (p: PropIdentity)
    ensures
        is_uuid_text(p.id@),
        p.name@ == name_or_default(field@, "New Text Prop"@),
{
    PropIdentity { id: new_id(), name: text_prop_name(field) }
}

/// A new image prop for the image at `path`: a fresh identity and the name
/// from the name field or the file (see [`image_prop_name`]).
pub fn new_image_prop(field: &str, path: &str) -> (p: PropIdentity)
    ensures
        is_uuid_text(p.id@),
        p.name@ == name_or_default(
            field@,
            match path_file_stem(path@) {
                Some(s) => s,
                None => "Image"@,
            },
        ),
{
    PropIdentity { id: new_id(), name: image_prop_name(field, path) }
}

} // verus!
