//! Media types as the upstream services name them.
use vstd::prelude::*;

use crate::text::same_text;

verus! {

broadcast use vstd::string::group_string_axioms;

/// The error with which `mime` refuses a text.
#[verifier::external_type_specification]
#[verifier::external_body]
pub struct ExFromStrError(mime::FromStrError);

/// The text of the media type that `mime` reads from a value, if it reads one: type and subtype
/// in lower case, with the parameters.
pub uninterp spec fn mime_text(value: Seq<char>) -> Option<Seq<char>>;

/// A character that may stand in the type or the subtype.
pub open spec fn is_token(c: char) -> bool {
    ||| 'a' <= c <= 'z'
    ||| 'A' <= c <= 'Z'
    ||| '0' <= c <= '9'
    ||| seq!['!', '#', '$', '%', '&', '\'', '*', '+', '-', '.', '^', '_', '`', '|', '~'].contains(c)
}

/// A type, a slash and a subtype, without parameters.
pub open spec fn is_bare(value: Seq<char>) -> bool {
    exists|slash: int|
        0 < slash < value.len() && #[trigger] value[slash] == '/' && forall|i: int|
            0 <= i < value.len() && i != slash ==> is_token(#[trigger] value[i])
}

/// An ASCII letter in lower case; any other character as it is.
pub open spec fn lower(c: char) -> char {
    if 'A' <= c <= 'Z' {
        ((c as u32) + 32) as char
    } else {
        c
    }
}

/// Reads a media type with `<mime::Mime as FromStr>::from_str` and takes its text with
/// `AsRef<str>`. The text is a function of the value; a value without parameters is read
/// whatever it names, and its text is the value in lower case.
#[verifier::external_body]
pub(crate) fn parse_mime(value: &str) -> (parsed: Result<String, mime::FromStrError>)
    ensures
        parsed is Ok <==> mime_text(value@) is Some,
        parsed matches Ok(text) ==> mime_text(value@) == Some(text@),
        is_bare(value@) ==> parsed is Ok && parsed->Ok_0@ == value@.map_values(|c: char| lower(c)),
{
    match value.parse::<mime::Mime>() {
        Ok(media_type) => Ok(media_type.as_ref().to_string()),
        Err(error) => Err(error),
    }
}

/// Tokens and the slash are visible ASCII.
pub(crate) proof fn bare_is_visible(value: Seq<char>, i: int)
    requires
        is_bare(value),
        0 <= i < value.len(),
    ensures
        33 <= value[i] as u32 <= 126,
{
    let slash = choose|slash: int|
        0 < slash < value.len() && #[trigger] value[slash] == '/' && forall|i: int|
            0 <= i < value.len() && i != slash ==> is_token(#[trigger] value[i]);
    if i != slash {
        assert(is_token(value[i]));
    }
}

/// A literal media type, read back.
pub(crate) proof fn bare_lower_case(value: Seq<char>, slash: int)
    requires
        0 < slash < value.len(),
        value[slash] == '/',
        forall|i: int|
            0 <= i < value.len() && i != slash ==> 'a' <= #[trigger] value[i] <= 'z' || value[i]
                == '-',
    ensures
        is_bare(value),
        value.map_values(|c: char| lower(c)) == value,
{
    let marks = seq!['!', '#', '$', '%', '&', '\'', '*', '+', '-', '.', '^', '_', '`', '|', '~'];
    assert(marks[8] == '-');
    assert forall|i: int| 0 <= i < value.len() && i != slash implies is_token(
        #[trigger] value[i],
    ) by {
        if value[i] == '-' {
            assert(marks.contains(value[i]));
        }
    }
    assert(value.map_values(|c: char| lower(c)) =~= value);
}

/// The media type `text/plain`.
pub(crate) fn plain_text() -> (text: String)
    ensures
        text@ == "text/plain"@,
{
    proof {
        reveal_strlit("text/plain");
        bare_lower_case("text/plain"@, 4);
    }
    match parse_mime("text/plain") {
        Ok(text) => text,
        Err(_) => {
            assert(false);
            String::new()
        },
    }
}

/// The media type `application/octet-stream`.
pub(crate) fn octet_stream() -> (text: String)
    ensures
        text@ == "application/octet-stream"@,
{
    proof {
        reveal_strlit("application/octet-stream");
        bare_lower_case("application/octet-stream"@, 11);
    }
    match parse_mime("application/octet-stream") {
        Ok(text) => text,
        Err(_) => {
            assert(false);
            String::new()
        },
    }
}

/// What the proxy can do with an object, by its media type.
#[derive(Debug, Clone, Copy, PartialEq, Eq, Structural)]
pub enum Kind {
    Jpeg,
    Png,
    WebP,
    Gif,
    Svg,
    Mp4,
    /// Markup or plain text, which no service sends as an image.
    Document,
    /// Bytes of which the service does not say what they are.
    Unknown,
    /// Anything else.
    Other,
}

/// What can be done with objects of a media type. The whole text counts: a media type with
/// parameters is none of those named here.
pub open spec fn kind_named(content_type: Seq<char>) -> Kind {
    if content_type == "image/jpeg"@ || content_type == "image/jpg"@ {
        Kind::Jpeg
    } else if content_type == "image/png"@ {
        Kind::Png
    } else if content_type == "image/webp"@ {
        Kind::WebP
    } else if content_type == "image/gif"@ {
        Kind::Gif
    } else if content_type == "image/svg+xml"@ {
        Kind::Svg
    } else if content_type == "video/mp4"@ {
        Kind::Mp4
    } else if content_type == "text/html"@ || content_type == "text/plain"@ {
        Kind::Document
    } else if content_type == "application/octet-stream"@ {
        Kind::Unknown
    } else {
        Kind::Other
    }
}

/// What can be done with objects of a media type.
pub fn kind_of(content_type: &str) -> (kind: Kind)
    ensures
        kind == kind_named(content_type@),
{
    if same_text(content_type, "image/jpeg") || same_text(content_type, "image/jpg") {
        Kind::Jpeg
    } else if same_text(content_type, "image/png") {
        Kind::Png
    } else if same_text(content_type, "image/webp") {
        Kind::WebP
    } else if same_text(content_type, "image/gif") {
        Kind::Gif
    } else if same_text(content_type, "image/svg+xml") {
        Kind::Svg
    } else if same_text(content_type, "video/mp4") {
        Kind::Mp4
    } else if same_text(content_type, "text/html") || same_text(content_type, "text/plain") {
        Kind::Document
    } else if same_text(content_type, "application/octet-stream") {
        Kind::Unknown
    } else {
        Kind::Other
    }
}

/// What can be done with an object follows from its media type alone, and a media type that is
/// none of these ten is like any other.
pub proof fn kinds_follow_from_media_types(content_type: &str, kind: Kind)
    requires
        call_ensures(kind_of, (content_type,), kind),
    ensures
        kind == Kind::Jpeg <==> content_type@ == "image/jpeg"@ || content_type@ == "image/jpg"@,
        kind == Kind::Png <==> content_type@ == "image/png"@,
        kind == Kind::WebP <==> content_type@ == "image/webp"@,
        kind == Kind::Gif <==> content_type@ == "image/gif"@,
        kind == Kind::Svg <==> content_type@ == "image/svg+xml"@,
        kind == Kind::Mp4 <==> content_type@ == "video/mp4"@,
        kind == Kind::Document <==> content_type@ == "text/html"@ || content_type@
            == "text/plain"@,
        kind == Kind::Unknown <==> content_type@ == "application/octet-stream"@,
{
    reveal_strlit("image/jpeg");
    reveal_strlit("image/jpg");
    reveal_strlit("image/png");
    reveal_strlit("image/webp");
    reveal_strlit("image/gif");
    reveal_strlit("image/svg+xml");
    reveal_strlit("video/mp4");
    reveal_strlit("text/html");
    reveal_strlit("text/plain");
    reveal_strlit("application/octet-stream");
    assert("image/jpeg"@[6] == 'j' && "image/jpg"@[6] == 'j' && "image/png"@[6] == 'p'
        && "image/webp"@[6] == 'w' && "image/gif"@[6] == 'g' && "image/svg+xml"@[6] == 's');
    assert("image/jpeg"@[0] == 'i' && "image/jpg"@[0] == 'i' && "image/png"@[0] == 'i'
        && "image/webp"@[0] == 'i' && "image/gif"@[0] == 'i' && "image/svg+xml"@[0] == 'i');
    assert("video/mp4"@[0] == 'v' && "text/html"@[0] == 't' && "text/plain"@[0] == 't'
        && "application/octet-stream"@[0] == 'a');
}

} // verus!
