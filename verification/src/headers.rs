//! Headers of upstream answers: the media type they name, and what is passed on to clients.
use actix_web::http::header::{HeaderMap, CONTENT_TYPE};
use vstd::prelude::*;

use crate::media::{octet_stream, parse_mime};
use crate::text::same_text;
#[allow(unused_imports)]
use crate::media;

verus! {

broadcast use vstd::string::group_string_axioms;

/// A multi-map from header names to the values that stand under them.
#[verifier::external_type_specification]
#[verifier::external_body]
pub struct ExHeaderMap(actix_web::http::header::HeaderMap);

/// What a header map holds: under each name, in lower case, the bytes of its values in the order
/// in which they were added.
pub uninterp spec fn header_contents(headers: HeaderMap) -> Map<Seq<char>, Seq<Seq<u8>>>;

/// The values that stand under a name; none if the name is not there.
pub open spec fn values_under(contents: Map<Seq<char>, Seq<Seq<u8>>>, name: Seq<char>) -> Seq<
    Seq<u8>,
> {
    if contents.contains_key(name) {
        contents[name]
    } else {
        Seq::empty()
    }
}

/// The values that a list of headers gives for a name, in order.
pub open spec fn values_listed(pairs: Seq<(Seq<char>, Seq<u8>)>, name: Seq<char>) -> Seq<Seq<u8>>
    decreases pairs.len(),
{
    if pairs.len() == 0 {
        Seq::empty()
    } else if pairs.last().0 == name {
        values_listed(pairs.drop_last(), name).push(pairs.last().1)
    } else {
        values_listed(pairs.drop_last(), name)
    }
}

/// `HeaderMap::get` with `CONTENT_TYPE`: the first value under that name, if there is one.
#[verifier::external_body]
fn content_type_value(headers: &HeaderMap) -> (value: Option<Vec<u8>>)
    ensures
        value is Some <==> values_under(header_contents(*headers), "content-type"@).len() > 0,
        value matches Some(bytes) ==> bytes@ == values_under(
            header_contents(*headers),
            "content-type"@,
        )[0],
{
    match headers.get(CONTENT_TYPE) {
        Some(value) => Some(value.as_bytes().to_vec()),
        None => None,
    }
}

/// `HeaderMap::iter`: every value with its name. The order of the names is arbitrary; the values
/// under one name come in their order.
#[verifier::external_body]
fn header_pairs(headers: &HeaderMap) -> (pairs: Vec<(String, Vec<u8>)>)
    ensures
        forall|name: Seq<char>| #[trigger]
            values_listed(pairs.deep_view(), name) == values_under(header_contents(*headers), name),
{
    headers.iter().map(|(name, value)| (name.as_str().to_string(), value.as_bytes().to_vec())).collect()
}

/// Why a media type cannot be taken from the headers of an answer.
#[derive(Debug, Clone, Copy, PartialEq, Eq, Structural)]
pub enum ContentTypeError {
    /// The header holds bytes that are not visible ASCII.
    NotText,
    /// The header does not name a media type.
    Malformed,
}

/// A byte that a header value may hold to be read as text.
pub open spec fn is_visible(byte: u8) -> bool {
    32 <= byte < 127 || byte == 9
}

/// ASCII bytes as characters.
pub open spec fn ascii_text(bytes: Seq<u8>) -> Seq<char> {
    bytes.map_values(|byte: u8| byte as char)
}

/// The media type that the value of a `content-type` header names; that of unknown bytes where
/// there is no such header.
pub open spec fn content_type_named(value: Option<Seq<u8>>) -> Result<Seq<char>, ContentTypeError> {
    match value {
        None => Ok("application/octet-stream"@),
        Some(bytes) => if exists|i: int| 0 <= i < bytes.len() && !is_visible(bytes[i]) {
            Err(ContentTypeError::NotText)
        } else {
            match media::mime_text(ascii_text(bytes)) {
                Some(text) => Ok(text),
                None => Err(ContentTypeError::Malformed),
            }
        },
    }
}

/// The media type that the headers of an answer name: by the first value, if there are several.
pub open spec fn content_type_of(contents: Map<Seq<char>, Seq<Seq<u8>>>) -> Result<
    Seq<char>,
    ContentTypeError,
> {
    let values = values_under(contents, "content-type"@);
    content_type_named(
        if values.len() == 0 {
            None
        } else {
            Some(values[0])
        },
    )
}

/// A header value as text, if all its bytes are visible ASCII or tabs.
pub fn header_text(value: &Vec<u8>) -> (text: Option<String>)
    ensures
        text is Some <==> forall|i: int| 0 <= i < value@.len() ==> is_visible(value@[i]),
        text matches Some(text) ==> text@ == ascii_text(value@),
{
    let mut text = String::new();
    let mut i: usize = 0;
    while i < value.len()
        invariant
            i <= value.len(),
            forall|j: int| 0 <= j < i ==> is_visible(value@[j]),
            text@ == ascii_text(value@.take(i as int)),
        decreases value.len() - i,
    {
        let byte: u8 = value[i];
        if !((32 <= byte && byte < 127) || byte == 9) {
            assert(!is_visible(value@[i as int]));
            return None;
        }
        text.push(byte as char);
        i = i + 1;
        assert(text@ =~= ascii_text(value@.take(i as int)));
    }
    assert(value@.take(i as int) =~= value@);
    Some(text)
}

/// The media type that the value of a `content-type` header names; that of unknown bytes where
/// there is no such header. A type and subtype without parameters are always taken, in lower
/// case.
pub fn content_type_from(value: Option<Vec<u8>>) -> (result: Result<String, ContentTypeError>)
    ensures
        match content_type_named(value.deep_view()) {
            Ok(text) => result is Ok && result->Ok_0@ == text,
            Err(error) => result == Err::<String, ContentTypeError>(error),
        },
        value matches Some(bytes) ==> media::is_bare(ascii_text(bytes@)) ==> result is Ok
            && result->Ok_0@ == ascii_text(bytes@).map_values(|c: char| media::lower(c)),
{
    match value {
        None => Ok(octet_stream()),
        Some(value) => {
            assert(value.deep_view() =~= value@);
            match header_text(&value) {
                None => {
                    proof {
                        let i = choose|i: int| 0 <= i < value@.len() && !is_visible(value@[i]);
                        if media::is_bare(ascii_text(value@)) {
                            media::bare_is_visible(ascii_text(value@), i);
                        }
                    }
                    Err(ContentTypeError::NotText)
                },
                Some(text) => match parse_mime(text.as_str()) {
                    Ok(text) => Ok(text),
                    Err(_) => Err(ContentTypeError::Malformed),
                },
            }
        },
    }
}

/// The media type that the headers of an answer name.
pub fn content_type(headers: &HeaderMap) -> (result: Result<String, ContentTypeError>)
    ensures
        match content_type_of(header_contents(*headers)) {
            Ok(text) => result is Ok && result->Ok_0@ == text,
            Err(error) => result == Err::<String, ContentTypeError>(error),
        },
        ({
            let values = values_under(header_contents(*headers), "content-type"@);
            values.len() > 0 && media::is_bare(ascii_text(values[0])) ==> result is Ok
                && result->Ok_0@ == ascii_text(values[0]).map_values(|c: char| media::lower(c))
        }),
{
    let value = content_type_value(headers);
    proof {
        if value is Some {
            assert(value->0.deep_view() =~= value->0@);
        }
    }
    content_type_from(value)
}

/// A header that is passed on to clients: any but `connection`.
pub open spec fn is_forwarded(pair: (Seq<char>, Seq<u8>)) -> bool {
    pair.0 != "connection"@
}

/// The headers of a list that are passed on, in their order.
pub fn without_connection(pairs: &Vec<(String, Vec<u8>)>) -> (kept: Vec<(String, Vec<u8>)>)
    ensures
        kept.deep_view() == pairs.deep_view().filter(|pair| is_forwarded(pair)),
{
    let ghost all = pairs.deep_view();
    let ghost wanted = |pair: (Seq<char>, Seq<u8>)| is_forwarded(pair);
    let mut kept: Vec<(String, Vec<u8>)> = Vec::new();
    let mut i: usize = 0;
    proof {
        reveal(Seq::filter);
        assert(kept.deep_view() =~= all.take(0).filter(wanted));
    }
    while i < pairs.len()
        invariant
            i <= pairs.len(),
            all == pairs.deep_view(),
            wanted == (|pair: (Seq<char>, Seq<u8>)| is_forwarded(pair)),
            kept.deep_view() == all.take(i as int).filter(wanted),
        decreases pairs.len() - i,
    {
        let ghost before = kept.deep_view();
        let name = &pairs[i].0;
        let value = &pairs[i].1;
        proof {
            reveal(Seq::filter);
            assert(all[i as int] == (name@, value.deep_view()));
            assert(all.take(i + 1).drop_last() =~= all.take(i as int));
            assert(all.take(i + 1).last() == all[i as int]);
        }
        if !same_text(name.as_str(), "connection") {
            let copy = value.clone();
            assert(copy@ =~= value@);
            assert(copy.deep_view() =~= value.deep_view());
            kept.push((name.clone(), copy));
            assert(kept.deep_view() =~= before.push((name@, value.deep_view())));
        }
        i = i + 1;
    }
    assert(all.take(i as int) =~= all);
    kept
}

/// Leaving `connection` out leaves the values of every other name as they are.
proof fn values_without_connection(pairs: Seq<(Seq<char>, Seq<u8>)>, name: Seq<char>)
    ensures
        values_listed(pairs.filter(|pair| is_forwarded(pair)), name) == if name == "connection"@ {
            Seq::empty()
        } else {
            values_listed(pairs, name)
        },
    decreases pairs.len(),
{
    let wanted = |pair: (Seq<char>, Seq<u8>)| is_forwarded(pair);
    reveal(Seq::filter);
    if pairs.len() > 0 {
        let rest = pairs.drop_last();
        values_without_connection(rest, name);
        if is_forwarded(pairs.last()) {
            assert(pairs.filter(wanted) == rest.filter(wanted).push(pairs.last()));
            assert(pairs.filter(wanted).drop_last() =~= rest.filter(wanted));
        } else {
            assert(pairs.filter(wanted) == rest.filter(wanted));
        }
    }
}

/// The headers of an upstream answer that a client is given: all but `connection`. The order of
/// the names is that of the header map, which is arbitrary.
pub fn forwarded_headers(headers: &HeaderMap) -> (kept: Vec<(String, Vec<u8>)>)
    ensures
        forall|name: Seq<char>| #[trigger]
            values_listed(kept.deep_view(), name) == if name == "connection"@ {
                Seq::empty()
            } else {
                values_under(header_contents(*headers), name)
            },
{
    let pairs = header_pairs(headers);
    let kept = without_connection(&pairs);
    assert forall|name: Seq<char>| #[trigger]
        values_listed(kept.deep_view(), name) == if name == "connection"@ {
            Seq::empty()
        } else {
            values_under(header_contents(*headers), name)
        } by {
        values_without_connection(pairs.deep_view(), name);
        let given = values_listed(pairs.deep_view(), name);
    }
    kept
}

/// What a client holds after headers were set one by one, each replacing what its name had.
pub open spec fn set_in_turn(pairs: Seq<(Seq<char>, Seq<u8>)>) -> Map<Seq<char>, Seq<u8>>
    decreases pairs.len(),
{
    if pairs.len() == 0 {
        Map::empty()
    } else {
        set_in_turn(pairs.drop_last()).insert(pairs.last().0, pairs.last().1)
    }
}

/// Setting headers in turn leaves each listed name with the last value listed for it, whatever
/// the order of the names.
pub proof fn last_value_stays(pairs: Seq<(Seq<char>, Seq<u8>)>, name: Seq<char>)
    ensures
        set_in_turn(pairs).contains_key(name) <==> values_listed(pairs, name).len() > 0,
        set_in_turn(pairs).contains_key(name) ==> set_in_turn(pairs)[name] == values_listed(
            pairs,
            name,
        ).last(),
    decreases pairs.len(),
{
    if pairs.len() > 0 {
        last_value_stays(pairs.drop_last(), name);
    }
}

/// A header value is text exactly when it holds nothing but tabs, blanks and printed ASCII
/// characters, and the text has a character for each byte.
pub proof fn header_values_are_read_byte_by_byte(value: &Vec<u8>, text: Option<String>)
    requires
        call_ensures(header_text, (value,), text),
    ensures
        text is Some <==> forall|i: int|
            0 <= i < value@.len() ==> 32 <= #[trigger] value@[i] <= 126 || value@[i] == 9,
        text matches Some(text) ==> text@.len() == value@.len() && forall|i: int|
            0 <= i < value@.len() ==> #[trigger] text@[i] == value@[i] as char,
{
    assert forall|i: int| 0 <= i < value@.len() implies (is_visible(#[trigger] value@[i]) <==> 32
        <= value@[i] <= 126 || value@[i] == 9) by {}
}

/// The media type is read from the value of the header: unknown bytes where there is none, an
/// error of its own where the value is no text, and otherwise what the text names, if anything.
pub proof fn media_types_are_read_from_the_value(
    value: Option<Vec<u8>>,
    result: Result<String, ContentTypeError>,
)
    requires
        call_ensures(content_type_from, (value,), result),
    ensures
        value is None ==> (result matches Ok(text) && text@ == "application/octet-stream"@),
        value matches Some(bytes) ==> {
            let text = Seq::new(bytes@.len(), |i: int| bytes@[i] as char);
            if forall|i: int|
                0 <= i < bytes@.len() ==> 32 <= #[trigger] bytes@[i] <= 126 || bytes@[i] == 9 {
                match media::mime_text(text) {
                    Some(named) => result matches Ok(text) && text@ == named,
                    None => result matches Err(error) && error == ContentTypeError::Malformed,
                }
            } else {
                result matches Err(error) && error == ContentTypeError::NotText
            }
        },
{
    if let Some(bytes) = value {
        assert(value.deep_view() == Some(bytes.deep_view()));
        assert(bytes.deep_view() =~= bytes@);
        value_is_read(bytes@);
    }
}

/// What a value names, byte by byte.
proof fn value_is_read(bytes: Seq<u8>)
    ensures
        ({
            let text = Seq::new(bytes.len(), |i: int| bytes[i] as char);
            content_type_named(Some(bytes)) == if forall|i: int|
                0 <= i < bytes.len() ==> 32 <= #[trigger] bytes[i] <= 126 || bytes[i] == 9 {
                match media::mime_text(text) {
                    Some(named) => Ok(named),
                    None => Err(ContentTypeError::Malformed),
                }
            } else {
                Err(ContentTypeError::NotText)
            }
        }),
{
    assert(Seq::new(bytes.len(), |i: int| bytes[i] as char) =~= ascii_text(bytes));
    if exists|i: int| 0 <= i < bytes.len() && !is_visible(bytes[i]) {
        let i = choose|i: int| 0 <= i < bytes.len() && !is_visible(bytes[i]);
        assert(!(32 <= bytes[i] <= 126 || bytes[i] == 9));
    } else {
        assert forall|i: int| 0 <= i < bytes.len() implies 32 <= #[trigger] bytes[i] <= 126
            || bytes[i] == 9 by {
            assert(is_visible(bytes[i]));
        }
    }
}

/// Of an answer's headers, the first value under `content-type` names the media type; where there
/// is none, the bytes are unknown.
pub proof fn media_types_come_from_the_first_value(
    headers: &HeaderMap,
    result: Result<String, ContentTypeError>,
)
    requires
        call_ensures(content_type, (headers,), result),
    ensures
        ({
            let contents = header_contents(*headers);
            let values = contents["content-type"@];
            let text = Seq::new(values[0].len(), |i: int| values[0][i] as char);
            if !contents.contains_key("content-type"@) || values.len() == 0 {
                result matches Ok(text) && text@ == "application/octet-stream"@
            } else if forall|i: int|
                0 <= i < values[0].len() ==> 32 <= #[trigger] values[0][i] <= 126 || values[0][i]
                    == 9 {
                match media::mime_text(text) {
                    Some(named) => result matches Ok(text) && text@ == named,
                    None => result matches Err(error) && error == ContentTypeError::Malformed,
                }
            } else {
                result matches Err(error) && error == ContentTypeError::NotText
            }
        }),
{
    value_is_read(header_contents(*headers)["content-type"@][0]);
}

/// The headers of a list that are passed on are all but those named `connection`, in their order.
pub proof fn connection_headers_are_left_out(
    pairs: &Vec<(String, Vec<u8>)>,
    kept: Vec<(String, Vec<u8>)>,
)
    requires
        call_ensures(without_connection, (pairs,), kept),
    ensures
        kept.deep_view() == pairs.deep_view().filter(
            |pair: (Seq<char>, Seq<u8>)| pair.0 != "connection"@,
        ),
{
    let wanted = |pair: (Seq<char>, Seq<u8>)| is_forwarded(pair);
    let named = |pair: (Seq<char>, Seq<u8>)| pair.0 != "connection"@;
    assert(wanted =~= named);
}

/// A value that a list gives for a name stands in the list under that name.
proof fn listed_values_are_there(pairs: Seq<(Seq<char>, Seq<u8>)>, name: Seq<char>, k: int) -> (i:
    int)
    requires
        0 <= k < values_listed(pairs, name).len(),
    ensures
        0 <= i < pairs.len(),
        pairs[i] == (name, values_listed(pairs, name)[k]),
    decreases pairs.len(),
{
    let rest = pairs.drop_last();
    if k < values_listed(rest, name).len() {
        listed_values_are_there(rest, name, k)
    } else {
        pairs.len() - 1
    }
}

/// What stands in a list under a name is one of the values that the list gives for it.
proof fn pairs_are_listed(pairs: Seq<(Seq<char>, Seq<u8>)>, i: int)
    requires
        0 <= i < pairs.len(),
    ensures
        values_listed(pairs, pairs[i].0).contains(pairs[i].1),
    decreases pairs.len(),
{
    let rest = pairs.drop_last();
    let name = pairs[i].0;
    let all = values_listed(pairs, name);
    if i == pairs.len() - 1 {
        assert(all.last() == pairs[i].1);
    } else {
        pairs_are_listed(rest, i);
        let earlier = values_listed(rest, name);
        let k = choose|k: int| 0 <= k < earlier.len() && earlier[k] == pairs[i].1;
        assert(all[k] == pairs[i].1);
    }
}

/// The client is given no header named `connection`, every value of every other name that the
/// answer has, and none that it has not.
pub proof fn headers_are_passed_on(headers: &HeaderMap, kept: Vec<(String, Vec<u8>)>)
    requires
        call_ensures(forwarded_headers, (headers,), kept),
    ensures
        ({
            let contents = header_contents(*headers);
            let given = kept.deep_view();
            &&& forall|i: int|
                0 <= i < given.len() ==> {
                    &&& (#[trigger] given[i]).0 != "connection"@
                    &&& contents.contains_key(given[i].0)
                    &&& contents[given[i].0].contains(given[i].1)
                }
            &&& forall|name: Seq<char>, k: int|
                name != "connection"@ && contents.contains_key(name) && 0 <= k
                    < contents[name].len() ==> given.contains(
                    (name, #[trigger] contents[name][k]),
                )
        }),
{
    let contents = header_contents(*headers);
    let given = kept.deep_view();
    assert forall|i: int| 0 <= i < given.len() implies (#[trigger] given[i]).0 != "connection"@
        && contents.contains_key(given[i].0) && contents[given[i].0].contains(given[i].1) by {
        pairs_are_listed(given, i);
        let listed = values_listed(given, given[i].0);
        let k = choose|k: int| 0 <= k < listed.len() && listed[k] == given[i].1;
        assert(listed.len() > 0);
    }
    assert forall|name: Seq<char>, k: int|
        name != "connection"@ && contents.contains_key(name) && 0 <= k
            < contents[name].len() implies given.contains(
        (name, #[trigger] contents[name][k]),
    ) by {
        let listed = values_listed(given, name);
        assert(listed == contents[name]);
        let i = listed_values_are_there(given, name, k);
        assert(given[i] == (name, contents[name][k]));
    }
}

} // verus!
