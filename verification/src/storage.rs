//! Where objects live: paths in storage and addresses at the services.
use vstd::prelude::*;

use crate::names::remote_path;
use crate::text::push_decimal;
#[allow(unused_imports)]
use crate::{names, text};

verus! {

broadcast use vstd::string::group_string_axioms;

/// Where an object is kept as the service sent it.
pub open spec fn base_path_of(storage: Seq<char>, service: Seq<char>, name: Seq<char>) -> Seq<
    char,
> {
    storage + "/base/"@ + service + "/"@ + name
}

/// Where an object is kept scaled to a width.
pub open spec fn variant_path_of(
    storage: Seq<char>,
    service: Seq<char>,
    scale: u32,
    name: Seq<char>,
) -> Seq<char> {
    storage + "/mod/"@ + service + "/"@ + text::decimal(scale as nat) + "/"@ + name
}

/// Where the variant of an object that was made last is kept, whatever its width.
pub open spec fn latest_path_of(storage: Seq<char>, service: Seq<char>, name: Seq<char>) -> Seq<
    char,
> {
    storage + "/mod/latest/"@ + service + "/"@ + name
}

/// The directories that must be there before an object is stored, in the order of creation.
pub open spec fn directories_of(storage: Seq<char>, service: Seq<char>, scale: u32) -> Seq<
    Seq<char>,
> {
    seq![
        storage + "/base/"@ + service,
        storage + "/mod/latest/"@ + service,
        storage + "/mod/"@ + service + "/"@ + text::decimal(scale as nat),
    ]
}

/// Where a service keeps an object.
pub open spec fn url_of(endpoint: Seq<char>, name: Seq<char>) -> Seq<char> {
    endpoint + "/"@ + names::unflattened(name)
}

/// Where an object is kept as the service sent it.
pub fn base_path(storage: &str, service: &str, name: &str) -> (path: String)
    ensures
        path@ == base_path_of(storage@, service@, name@),
{
    let mut path = storage.to_owned();
    path.append("/base/");
    path.append(service);
    path.append("/");
    path.append(name);
    path
}

/// Where an object is kept scaled to a width.
pub fn variant_path(storage: &str, service: &str, scale: u32, name: &str) -> (path: String)
    ensures
        path@ == variant_path_of(storage@, service@, scale, name@),
{
    let mut path = storage.to_owned();
    path.append("/mod/");
    path.append(service);
    path.append("/");
    push_decimal(&mut path, scale);
    path.append("/");
    path.append(name);
    path
}

/// Where the variant of an object that was made last is kept.
pub fn latest_path(storage: &str, service: &str, name: &str) -> (path: String)
    ensures
        path@ == latest_path_of(storage@, service@, name@),
{
    let mut path = storage.to_owned();
    path.append("/mod/latest/");
    path.append(service);
    path.append("/");
    path.append(name);
    path
}

/// The directories that must be there before an object is stored, in the order of creation.
pub fn directories(storage: &str, service: &str, scale: u32) -> (paths: Vec<String>)
    ensures
        paths.deep_view() =~= directories_of(storage@, service@, scale),
{
    let mut base = storage.to_owned();
    base.append("/base/");
    base.append(service);
    let mut latest = storage.to_owned();
    latest.append("/mod/latest/");
    latest.append(service);
    let mut variant = storage.to_owned();
    variant.append("/mod/");
    variant.append(service);
    variant.append("/");
    push_decimal(&mut variant, scale);
    let mut paths: Vec<String> = Vec::new();
    paths.push(base);
    paths.push(latest);
    paths.push(variant);
    paths
}

/// Where a service keeps an object. The address is never empty.
pub fn url(endpoint: &str, name: &str) -> (address: String)
    ensures
        address@ == url_of(endpoint@, name@),
        address@.len() > 0,
{
    proof {
        reveal_strlit("/");
    }
    let mut address = endpoint.to_owned();
    address.append("/");
    let path = remote_path(name);
    address.append(path.as_str());
    address
}

/// Every file of an object lies directly below one of the directories made for it.
pub proof fn files_lie_in_directories(
    storage: Seq<char>,
    service: Seq<char>,
    scale: u32,
    name: Seq<char>,
)
    ensures
        base_path_of(storage, service, name) == directories_of(storage, service, scale)[0] + "/"@
            + name,
        latest_path_of(storage, service, name) == directories_of(storage, service, scale)[1]
            + "/"@ + name,
        variant_path_of(storage, service, scale, name) == directories_of(
            storage,
            service,
            scale,
        )[2] + "/"@ + name,
{
}

/// Variants of one object in different widths are different files.
pub proof fn variants_of_widths_differ(
    storage: Seq<char>,
    service: Seq<char>,
    name: Seq<char>,
    a: u32,
    b: u32,
)
    requires
        a != b,
    ensures
        variant_path_of(storage, service, a, name) != variant_path_of(storage, service, b, name),
{
    let head = storage + "/mod/"@ + service + "/"@;
    let x = text::decimal(a as nat);
    let y = text::decimal(b as nat);
    let tail = "/"@ + name;
    let left = variant_path_of(storage, service, a, name);
    let right = variant_path_of(storage, service, b, name);
    assert(left =~= head + x + tail);
    assert(right =~= head + y + tail);
    if left == right {
        assert(x.len() == y.len());
        assert(left.subrange(head.len() as int, (head.len() + x.len()) as int) =~= x);
        assert(right.subrange(head.len() as int, (head.len() + y.len()) as int) =~= y);
        text::decimal_is_injective(a as nat, b as nat);
    }
}

/// The object as sent is never the same file as a variant, of any object.
pub proof fn originals_are_not_variants(
    storage: Seq<char>,
    service: Seq<char>,
    name: Seq<char>,
    other_service: Seq<char>,
    scale: u32,
    other_name: Seq<char>,
)
    ensures
        base_path_of(storage, service, name) != variant_path_of(
            storage,
            other_service,
            scale,
            other_name,
        ),
        base_path_of(storage, service, name) != latest_path_of(storage, other_service, other_name),
{
    reveal_strlit("/base/");
    reveal_strlit("/mod/");
    reveal_strlit("/mod/latest/");
    let n = storage.len() as int + 1;
    assert(base_path_of(storage, service, name)[n] == 'b');
    assert(variant_path_of(storage, other_service, scale, other_name)[n] == 'm');
    assert(latest_path_of(storage, other_service, other_name)[n] == 'm');
}

/// A text behind which a slash and digits stand is never the text behind `latest/`.
proof fn latest_segment_is_foreign(service: Seq<char>, digits: Seq<char>)
    requires
        digits.len() > 0,
        '0' <= digits[0] <= '9',
    ensures
        service + "/"@ + digits != "latest/"@ + service,
    decreases service.len(),
{
    reveal_strlit("/");
    reveal_strlit("latest/");
    let left = service + "/"@ + digits;
    let right = "latest/"@ + service;
    let n = service.len() as int;
    if left == right {
        assert(left[n] == '/');
        if n < 6 {
            assert(right[n] == "latest/"@[n]);
        } else if n == 6 {
            assert(right[7] == service[0]);
            assert(left[7] == digits[0]);
            assert(service[0] == left[0]);
            assert(right[0] == 'l');
        } else {
            let rest = service.skip(7);
            assert(service =~= "latest/"@ + rest) by {
                assert(service.take(7) =~= left.take(7));
                assert("latest/"@ =~= right.take(7));
                assert(service =~= service.take(7) + rest);
            }
            assert(left.skip(7) =~= rest + "/"@ + digits);
            assert(right.skip(7) =~= service);
            latest_segment_is_foreign(rest, digits);
        }
    }
}

proof fn decimal_starts_with_digit(n: nat)
    ensures
        text::decimal(n).len() > 0,
        '0' <= text::decimal(n)[0] <= '9',
    decreases n,
{
    if n >= 10 {
        decimal_starts_with_digit(n / 10);
        assert(text::decimal(n)[0] == text::decimal(n / 10)[0]);
    }
}

/// The variant kept by width and the one kept as the latest are two files.
pub proof fn variant_is_not_latest(
    storage: Seq<char>,
    service: Seq<char>,
    scale: u32,
    name: Seq<char>,
)
    ensures
        variant_path_of(storage, service, scale, name) != latest_path_of(storage, service, name),
{
    reveal_strlit("/mod/");
    reveal_strlit("latest/");
    reveal_strlit("/mod/latest/");
    let digits = text::decimal(scale as nat);
    decimal_starts_with_digit(scale as nat);
    latest_segment_is_foreign(service, digits);
    let head = storage + "/mod/"@;
    let tail = "/"@ + name;
    let x = service + "/"@ + digits;
    let y = "latest/"@ + service;
    let left = variant_path_of(storage, service, scale, name);
    let right = latest_path_of(storage, service, name);
    assert("/mod/latest/"@ =~= "/mod/"@ + "latest/"@);
    assert(left =~= head + x + tail);
    assert(right =~= head + y + tail);
    if left == right {
        assert(x.len() == y.len());
        assert(left.subrange(head.len() as int, (head.len() + x.len()) as int) =~= x);
        assert(right.subrange(head.len() as int, (head.len() + y.len()) as int) =~= y);
    }
}

/// Texts that differ still do behind a common beginning.
proof fn common_beginning(head: Seq<char>, a: Seq<char>, b: Seq<char>)
    ensures
        head + a == head + b <==> a == b,
{
    if head + a == head + b {
        assert((head + a).skip(head.len() as int) =~= a);
        assert((head + b).skip(head.len() as int) =~= b);
    }
}

/// An image that is asked for without a path is downloaded from the address below the endpoint
/// that a forwarded request takes literally, exactly when its name holds no separator.
pub proof fn plain_images_are_asked_for_literally(endpoint: Seq<char>, image: Seq<char>)
    ensures
        url_of(endpoint, names::object_name_of(image, None)) == endpoint + "/"@ + image
            <==> !text::occurs_in(image, names::separator()),
{
    names::plain_name_is_kept(image);
    common_beginning(endpoint + "/"@, names::unflattened(image), image);
}

/// An object with a custom path is asked for at that path below the image, exactly when no
/// separator is read where none was written.
pub proof fn custom_paths_are_asked_for(endpoint: Seq<char>, image: Seq<char>, path: Seq<char>)
    ensures
        url_of(endpoint, names::object_name_of(image, Some(path))) == endpoint + "/"@ + (image
            + "/"@ + path) <==> names::clean_segment(image) && names::clean_path(path),
{
    names::custom_path_is_restored(image, path);
    common_beginning(
        endpoint + "/"@,
        names::unflattened(names::object_name_of(image, Some(path))),
        image + "/"@ + path,
    );
}

/// Files are placed by service, width and name below the storage directory: what a service sent
/// below `base`, a variant below `mod` by its width, and the latest variant below `mod/latest`.
pub proof fn files_are_placed_by_service_width_and_name(
    storage: &str,
    service: &str,
    scale: u32,
    name: &str,
    base: String,
    variant: String,
    latest: String,
    made: Vec<String>,
)
    requires
        call_ensures(base_path, (storage, service, name), base),
        call_ensures(variant_path, (storage, service, scale, name), variant),
        call_ensures(latest_path, (storage, service, name), latest),
        call_ensures(directories, (storage, service, scale), made),
    ensures
        base@ == storage@ + "/base/"@ + service@ + "/"@ + name@,
        variant@ == storage@ + "/mod/"@ + service@ + "/"@ + text::decimal(scale as nat) + "/"@
            + name@,
        latest@ == storage@ + "/mod/latest/"@ + service@ + "/"@ + name@,
        made@.len() == 3,
        base@ == made@[0]@ + "/"@ + name@,
        latest@ == made@[1]@ + "/"@ + name@,
        variant@ == made@[2]@ + "/"@ + name@,
{
    let texts = made.deep_view();
    assert(texts.len() == 3);
    assert(texts[0] == made@[0]@ && texts[1] == made@[1]@ && texts[2] == made@[2]@);
}

/// A service keeps an object below its endpoint at the path that the object's name stands for.
pub proof fn objects_are_kept_below_the_endpoint(endpoint: &str, name: &str, address: String)
    requires
        call_ensures(url, (endpoint, name), address),
    ensures
        address@ == endpoint@ + "/"@ + names::unflattened(name@),
{
}

} // verus!
