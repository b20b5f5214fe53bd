//! What the service answers without touching storage: the greeting, and the
//! media type that a file extension stands for.

use vstd::prelude::*;
use vstd::string::StringExecFns;

verus! {

/// The media types that the service tells apart.
#[derive(Clone, Copy, Debug, PartialEq, Eq, Structural)]
pub enum MediaType {
    Pdf,
    Plain,
    Html,
    Binary,
}

/// The greeting for `name`: personal where a name is given, general where none
/// is.
pub open spec fn greeting(name: Option<Seq<char>>) -> Seq<char> {
    match name {
        Some(n) => "Hello "@ + n + "!"@,
        None => "Hello World!"@,
    }
}

/// The media type that the extension `extension` stands for. Extensions are
/// matched exactly, in lower case; every other one, and a missing one, is
/// binary data.
pub open spec fn media_type_of(extension: Option<Seq<char>>) -> MediaType {
    match extension {
        Some(e) => if e == "pdf"@ {
            MediaType::Pdf
        } else if e == "txt"@ {
            MediaType::Plain
        } else if e == "html"@ {
            MediaType::Html
        } else {
            MediaType::Binary
        },
        None => MediaType::Binary,
    }
}

/// The view of an optional string.
pub open spec fn text_of(value: Option<String>) -> Option<Seq<char>> {
    match value {
        Some(s) => Some(s@),
        None => None,
    }
}

/// The view of an optional string slice.
pub open spec fn slice_text_of(value: Option<&str>) -> Option<Seq<char>> {
    match value {
        Some(s) => Some(s@),
        None => None,
    }
}

/// Greets the user by name, or the world where no name is given.
pub fn greet(name: Option<String>) -> (text: String)
    ensures
        text@ == greeting(text_of(name)),
{
    match name {
        Some(n) => String::from_str("Hello ").concat(n.as_str()).concat("!"),
        None => String::from_str("Hello World!"),
    }
}

/// Chooses the media type to serve a file under, from the extension of its
/// path.
pub fn mine_type(extension: Option<&str>) -> (kind: MediaType)
    ensures
        kind == media_type_of(slice_text_of(extension)),
{
    match extension {
        Some(e) => {
            let given = String::from_str(e);
            if given == String::from_str("pdf") {
                MediaType::Pdf
            } else if given == String::from_str("txt") {
                MediaType::Plain
            } else if given == String::from_str("html") {
                MediaType::Html
            } else {
                MediaType::Binary
            }
        },
        None => MediaType::Binary,
    }
}

} // verus!
