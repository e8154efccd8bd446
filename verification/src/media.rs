//! The media type of a file, guessed from its name, and the content type
//! under which the file is served.

use vstd::prelude::*;

verus! {

/// A media type as the guesser reports it: its top-level type, its subtype
/// and its full text.
#[derive(Debug, PartialEq, Eq)]
pub struct MediaType {
    pub kind: String,
    pub subkind: String,
    pub text: String,
}

/// The characters of a `MediaType`.
pub struct MediaTypeView {
    pub kind: Seq<char>,
    pub subkind: Seq<char>,
    pub text: Seq<char>,
}

impl View for MediaType {
    type V = MediaTypeView;

    open spec fn view(&self) -> MediaTypeView {
        MediaTypeView { kind: self.kind@, subkind: self.subkind@, text: self.text@ }
    }
}

/// The first media type that `mime_guess::from_path` lists for `path`, or
/// `application/octet-stream` where it lists none.
pub uninterp spec fn guessed_media(path: Seq<char>) -> MediaTypeView;

/// Asks `mime_guess::from_path` for the media types of `path` and takes
/// `first_or_octet_stream` of its answer. The guess is looked up in a fixed
/// table by the extension of `path`; no file is opened.
#[verifier::external_body]
pub(crate) fn guess_media(path: &str) -> (media: MediaType)
    ensures
        media@ == guessed_media(path@),
{
    let mime = mime_guess::from_path(path).first_or_octet_stream();
    MediaType {
        kind: mime.type_().as_str().to_string(),
        subkind: mime.subtype().as_str().to_string(),
        text: mime.as_ref().to_string(),
    }
}

/// The content type under which a file of the given media type is served:
/// HTML and plain text are qualified with the UTF-8 charset, every other
/// media type is passed on as it is.
pub open spec fn spec_content_type(media: MediaTypeView) -> Seq<char> {
    if media.kind == "text"@ && media.subkind == "html"@ {
        "text/html; charset=utf-8"@
    } else if media.kind == "text"@ && media.subkind == "plain"@ {
        "text/plain; charset=utf-8"@
    } else {
        media.text
    }
}

/// The content type under which a file of the given media type is served.
pub fn content_type(media: &MediaType) -> (text: String)
    ensures
        text@ == spec_content_type(media@),
{
    let text_kind = String::from_str("text");
    if media.kind == text_kind && media.subkind == String::from_str("html") {
        String::from_str("text/html; charset=utf-8")
    } else if media.kind == text_kind && media.subkind == String::from_str("plain") {
        String::from_str("text/plain; charset=utf-8")
    } else {
        media.text.clone()
    }
}

/// The content type under which the file at `path` is served, going by the
/// media type guessed from its name.
pub fn content_type_of_path(path: &str) -> (text: String)
    ensures
        text@ == spec_content_type(guessed_media(path@)),
{
    let media = guess_media(path);
    content_type(&media)
}

} // verus!
