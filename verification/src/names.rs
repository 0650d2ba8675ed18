//! Object names: a path below a service folded into one path segment, and back.
use vstd::prelude::*;

use crate::text::replace;
#[allow(unused_imports)]
use crate::text;

verus! {

broadcast use vstd::string::group_string_axioms;

/// What stands for a slash in an object name.
pub open spec fn separator() -> Seq<char> {
    "-_-"@
}

/// A path with each slash written as the separator.
pub open spec fn flattened(path: Seq<char>) -> Seq<char> {
    text::replaced(path, "/"@, separator())
}

/// A name with each separator, found from left to right, written as a slash.
pub open spec fn unflattened(name: Seq<char>) -> Seq<char> {
    text::replaced(name, separator(), "/"@)
}

/// The name under which an object is stored: the image segment, followed by the flattened path
/// if one is given.
pub open spec fn object_name_of(image: Seq<char>, path: Option<Seq<char>>) -> Seq<char> {
    match path {
        Some(path) => image + separator() + flattened(path),
        None => image,
    }
}

/// The name under which an object is stored.
pub fn object_name(image: &str, path: Option<&str>) -> (name: String)
    ensures
        name@ == object_name_of(
            image@,
            match path {
                Some(path) => Some(path@),
                None => None,
            },
        ),
{
    let mut name = image.to_owned();
    if let Some(path) = path {
        proof {
            reveal_strlit("/");
        }
        name.append("-_-");
        let flat = replace(path, "/", "-_-");
        name.append(flat.as_str());
    }
    name
}

/// The path below a service's endpoint that an object name stands for.
pub fn remote_path(name: &str) -> (path: String)
    ensures
        path@ == unflattened(name@),
{
    proof {
        reveal_strlit("-_-");
    }
    replace(name, "-_-", "/")
}

/// A text that can stand before a separator without taking part in one.
pub open spec fn clean_segment(s: Seq<char>) -> bool {
    &&& !text::occurs_in(s, separator())
    &&& !(s.len() >= 2 && s[s.len() - 2] == '-' && s[s.len() - 1] == '_')
}

/// A path in which no separator is read where none was written.
pub open spec fn clean_path(path: Seq<char>) -> bool {
    &&& !text::occurs_in(path, separator())
    &&& !text::occurs_in(path, "-_/"@)
}

proof fn literals()
    ensures
        separator() =~= seq!['-', '_', '-'],
        "/"@ =~= seq!['/'],
        "-_/"@ =~= seq!['-', '_', '/'],
{
    reveal_strlit("-_-");
    reveal_strlit("/");
    reveal_strlit("-_/");
}

/// A three-character pattern stands at `i` exactly when its characters do.
proof fn three_chars(s: Seq<char>, a: char, b: char, c: char, i: int)
    ensures
        text::occurs_at(s, seq![a, b, c], i) <==> (0 <= i && i + 3 <= s.len() && s[i] == a
            && s[i + 1] == b && s[i + 2] == c),
{
    let p = seq![a, b, c];
    if 0 <= i && i + 3 <= s.len() {
        let sub = s.subrange(i, i + 3);
        assert(sub[0] == s[i] && sub[1] == s[i + 1] && sub[2] == s[i + 2]);
        if s[i] == a && s[i + 1] == b && s[i + 2] == c {
            assert(sub =~= p);
        }
        if sub == p {
            assert(p[0] == a && p[1] == b && p[2] == c);
        }
    }
}

proof fn one_char(s: Seq<char>, a: char, i: int)
    ensures
        text::occurs_at(s, seq![a], i) <==> (0 <= i < s.len() && s[i] == a),
{
    let p = seq![a];
    if 0 <= i < s.len() {
        let sub = s.subrange(i, i + 1);
        assert(sub[0] == s[i]);
        if s[i] == a {
            assert(sub =~= p);
        }
        if sub == p {
            assert(p[0] == a);
        }
    }
}

/// Where a pattern occurs, there is a first place where it does.
proof fn first_occurrence(s: Seq<char>, pattern: Seq<char>, i: int) -> (first: int)
    requires
        text::occurs_at(s, pattern, i),
    ensures
        0 <= first <= i,
        text::occurs_at(s, pattern, first),
        forall|j: int| 0 <= j < first ==> !text::occurs_at(s, pattern, j),
    decreases i,
{
    if exists|j: int| 0 <= j < i && text::occurs_at(s, pattern, j) {
        let j = choose|j: int| 0 <= j < i && text::occurs_at(s, pattern, j);
        first_occurrence(s, pattern, j)
    } else {
        i
    }
}

/// Replacement copies up to the first occurrence, replaces it, and goes on behind it.
proof fn replaced_at_first(s: Seq<char>, from: Seq<char>, to: Seq<char>, first: int)
    requires
        from.len() > 0,
        text::occurs_at(s, from, first),
        forall|j: int| 0 <= j < first ==> !text::occurs_at(s, from, j),
    ensures
        text::replaced(s, from, to) == s.take(first) + to + text::replaced(
            s.skip(first + from.len()),
            from,
            to,
        ),
    decreases s.len(),
{
    if first == 0 {
        assert(s.take(0) + to =~= to);
    } else {
        assert(!text::occurs_at(s, from, 0));
        let rest = s.skip(1);
        assert(rest.subrange(first - 1, first - 1 + from.len()) =~= s.subrange(
            first,
            first + from.len(),
        ));
        assert forall|j: int| 0 <= j < first - 1 implies !text::occurs_at(rest, from, j) by {
            if text::occurs_at(rest, from, j) {
                assert(rest.subrange(j, j + from.len()) =~= s.subrange(j + 1, j + 1 + from.len()));
                assert(text::occurs_at(s, from, j + 1));
            }
        }
        replaced_at_first(rest, from, to, first - 1);
        let tail = text::replaced(s.skip(first + from.len()), from, to);
        assert(rest.skip(first - 1 + from.len()) =~= s.skip(first + from.len()));
        assert(seq![s[0]] + (rest.take(first - 1) + to + tail) =~= s.take(first) + to + tail);
    }
}

/// Replacement leaves a text alone in which the pattern does not occur.
proof fn replaced_nowhere(s: Seq<char>, from: Seq<char>, to: Seq<char>)
    requires
        !text::occurs_in(s, from),
    ensures
        text::replaced(s, from, to) == s,
    decreases s.len(),
{
    if from.len() > 0 && s.len() > 0 {
        assert(!text::occurs_at(s, from, 0));
        let rest = s.skip(1);
        assert(!text::occurs_in(rest, from)) by {
            if text::occurs_in(rest, from) {
                let j = choose|j: int| text::occurs_at(rest, from, j);
                assert(rest.subrange(j, j + from.len()) =~= s.subrange(j + 1, j + 1 + from.len()));
                assert(text::occurs_at(s, from, j + 1));
            }
        }
        replaced_nowhere(rest, from, to);
        assert(seq![s[0]] + rest =~= s);
    }
}

/// A name without a separator is its own remote path, and no other name is.
pub proof fn plain_name_is_kept(name: Seq<char>)
    ensures
        unflattened(name) == name <==> !text::occurs_in(name, separator()),
{
    literals();
    if text::occurs_in(name, separator()) {
        let i = choose|i: int| text::occurs_at(name, separator(), i);
        let first = first_occurrence(name, separator(), i);
        replaced_at_first(name, separator(), "/"@, first);
        three_chars(name, '-', '_', '-', first);
        assert(unflattened(name)[first] == '/');
    } else {
        replaced_nowhere(name, separator(), "/"@);
    }
}

/// Behind a clean segment the separator is read as the slash it stands for; behind any other
/// text a slash appears too early.
proof fn segment_then_separator(a: Seq<char>, rest: Seq<char>)
    ensures
        clean_segment(a) ==> unflattened(a + separator() + rest) == a + "/"@ + unflattened(rest),
        !clean_segment(a) ==> exists|k: int|
            0 <= k < a.len() && a[k] == '-' && k < unflattened(a + separator() + rest).len()
                && #[trigger] unflattened(a + separator() + rest)[k] == '/',
{
    literals();
    let s = a + separator() + rest;
    let n = a.len() as int;
    three_chars(s, '-', '_', '-', n);
    if clean_segment(a) {
        assert forall|j: int| 0 <= j < n implies !text::occurs_at(s, separator(), j) by {
            three_chars(s, '-', '_', '-', j);
            three_chars(a, '-', '_', '-', j);
            if text::occurs_at(s, separator(), j) {
                if j + 3 <= n {
                    assert(text::occurs_at(a, separator(), j));
                } else if j + 2 == n {
                    assert(a[n - 2] == '-' && a[n - 1] == '_');
                } else {
                    assert(s[j + 1] == separator()[0]);
                }
            }
        }
        replaced_at_first(s, separator(), "/"@, n);
        assert(s.take(n) =~= a);
        assert(s.skip(n + 3) =~= rest);
    } else {
        let i = if text::occurs_in(a, separator()) {
            let i = choose|i: int| text::occurs_at(a, separator(), i);
            three_chars(a, '-', '_', '-', i);
            i
        } else {
            n - 2
        };
        three_chars(s, '-', '_', '-', i);
        assert(text::occurs_at(s, separator(), i));
        let first = first_occurrence(s, separator(), i);
        three_chars(s, '-', '_', '-', first);
        replaced_at_first(s, separator(), "/"@, first);
        assert(a[first] == '-');
        assert(unflattened(s)[first] == '/');
    }
}

/// A text that is one segment of a path: no slash stands in it.
pub open spec fn one_segment(s: Seq<char>) -> bool {
    forall|i: int| 0 <= i < s.len() ==> s[i] != '/'
}

/// No slash is left in a flattened path.
pub proof fn flattened_path_is_one_segment(path: Seq<char>)
    ensures
        forall|i: int| 0 <= i < flattened(path).len() ==> flattened(path)[i] != '/',
    decreases path.len(),
{
    literals();
    if path.len() > 0 {
        let rest = path.skip(1);
        let head = if path[0] == '/' {
            separator()
        } else {
            seq![path[0]]
        };
        one_char(path, '/', 0);
        flattened_path_is_one_segment(rest);
        assert(flattened(path) == head + flattened(rest));
        assert forall|i: int| 0 <= i < flattened(path).len() implies flattened(path)[i]
            != '/' by {
            if i >= head.len() {
                assert(flattened(path)[i] == flattened(rest)[i - head.len()]);
            }
        }
    }
}

/// An object's name is one path segment exactly when the image segment is, whatever the path.
pub proof fn object_name_is_one_segment(image: Seq<char>, path: Option<Seq<char>>)
    ensures
        one_segment(object_name_of(image, path)) <==> one_segment(image),
{
    if let Some(path) = path {
        literals();
        flattened_path_is_one_segment(path);
        let name = object_name_of(image, Some(path));
        assert forall|i: int| 0 <= i < image.len() implies image[i] == name[i] by {}
        assert forall|i: int| image.len() <= i < name.len() implies name[i] != '/' by {
            if i >= image.len() + 3 {
                assert(name[i] == flattened(path)[i - image.len() - 3]);
            }
        }
    }
}

/// Flattening a path is undone by unflattening exactly when the path is clean.
pub proof fn flattening_is_undone(path: Seq<char>)
    ensures
        unflattened(flattened(path)) == path <==> clean_path(path),
    decreases path.len(),
{
    literals();
    if text::occurs_in(path, "/"@) {
        let i = choose|i: int| text::occurs_at(path, "/"@, i);
        let k = first_occurrence(path, "/"@, i);
        one_char(path, '/', k);
        replaced_at_first(path, "/"@, separator(), k);
        let head = path.take(k);
        let rest = path.skip(k + 1);
        assert(path =~= head + "/"@ + rest);
        assert forall|j: int| 0 <= j < k implies path[j] != '/' by {
            one_char(path, '/', j);
        }
        flattening_is_undone(rest);
        segment_then_separator(head, flattened(rest));
        assert(flattened(path) == head + separator() + flattened(rest));
        path_splits_at_slash(head, rest);
        if clean_segment(head) {
            let back = unflattened(flattened(rest));
            if head + "/"@ + back == path {
                assert(path.skip(k + 1) =~= rest);
                assert((head + "/"@ + back).skip(k + 1) =~= back);
            }
        } else {
            let j = choose|j: int|
                0 <= j < head.len() && head[j] == '-' && j < unflattened(flattened(path)).len()
                    && #[trigger] unflattened(flattened(path))[j] == '/';
            assert(path[j] == '-');
        }
    } else {
        replaced_nowhere(path, "/"@, separator());
        plain_name_is_kept(path);
        assert(!text::occurs_in(path, "-_/"@)) by {
            if text::occurs_in(path, "-_/"@) {
                let j = choose|j: int| text::occurs_at(path, "-_/"@, j);
                three_chars(path, '-', '_', '/', j);
                one_char(path, '/', j + 2);
            }
        }
    }
}

/// A path is clean exactly when its first segment and the rest are.
proof fn path_splits_at_slash(head: Seq<char>, rest: Seq<char>)
    requires
        forall|j: int| 0 <= j < head.len() ==> head[j] != '/',
    ensures
        clean_path(head + "/"@ + rest) <==> clean_segment(head) && clean_path(rest),
{
    literals();
    let path = head + "/"@ + rest;
    let n = head.len() as int;
    if text::occurs_in(path, separator()) {
        let j = choose|j: int| text::occurs_at(path, separator(), j);
        three_chars(path, '-', '_', '-', j);
        three_chars(head, '-', '_', '-', j);
        three_chars(rest, '-', '_', '-', j - n - 1);
        assert(path[n] == '/');
        if j + 3 <= n {
            assert(text::occurs_at(head, separator(), j));
        } else {
            assert(text::occurs_at(rest, separator(), j - n - 1));
        }
    }
    if text::occurs_in(path, "-_/"@) {
        let j = choose|j: int| text::occurs_at(path, "-_/"@, j);
        three_chars(path, '-', '_', '/', j);
        three_chars(rest, '-', '_', '/', j - n - 1);
        assert(path[n] == '/');
        if j + 2 == n {
            assert(head[n - 2] == '-' && head[n - 1] == '_');
        } else {
            assert(j + 2 > n) by {
                if j + 2 < n {
                    assert(head[j + 2] == path[j + 2]);
                }
            }
            assert(text::occurs_at(rest, "-_/"@, j - n - 1));
        }
    }
    if text::occurs_in(head, separator()) {
        let j = choose|j: int| text::occurs_at(head, separator(), j);
        three_chars(head, '-', '_', '-', j);
        three_chars(path, '-', '_', '-', j);
        assert(text::occurs_at(path, separator(), j));
    }
    if n >= 2 && head[n - 2] == '-' && head[n - 1] == '_' {
        three_chars(path, '-', '_', '/', n - 2);
        assert(text::occurs_at(path, "-_/"@, n - 2));
    }
    if text::occurs_in(rest, separator()) {
        let j = choose|j: int| text::occurs_at(rest, separator(), j);
        three_chars(rest, '-', '_', '-', j);
        three_chars(path, '-', '_', '-', n + 1 + j);
        assert(text::occurs_at(path, separator(), n + 1 + j));
    }
    if text::occurs_in(rest, "-_/"@) {
        let j = choose|j: int| text::occurs_at(rest, "-_/"@, j);
        three_chars(rest, '-', '_', '/', j);
        three_chars(path, '-', '_', '/', n + 1 + j);
        assert(text::occurs_at(path, "-_/"@, n + 1 + j));
    }
}

/// The object named by an image and a custom path is asked for upstream as the image, a slash and
/// that path, exactly when the image is a clean segment and the path is clean.
pub proof fn custom_path_is_restored(image: Seq<char>, path: Seq<char>)
    ensures
        unflattened(object_name_of(image, Some(path))) == image + "/"@ + path <==> clean_segment(
            image,
        ) && clean_path(path),
{
    literals();
    let n = image.len() as int;
    let name = object_name_of(image, Some(path));
    segment_then_separator(image, flattened(path));
    flattening_is_undone(path);
    let wanted = image + "/"@ + path;
    if clean_segment(image) {
        let back = unflattened(flattened(path));
        if image + "/"@ + back == wanted {
            assert(wanted.skip(n + 1) =~= path);
            assert((image + "/"@ + back).skip(n + 1) =~= back);
        }
    } else {
        let k = choose|k: int|
            0 <= k < image.len() && image[k] == '-' && k < unflattened(name).len()
                && #[trigger] unflattened(name)[k] == '/';
        assert(wanted[k] == '-');
    }
}

/// A separator stands at a place.
pub open spec fn separator_at(s: Seq<char>, i: int) -> bool {
    0 <= i && i + 3 <= s.len() && s[i] == '-' && s[i + 1] == '_' && s[i + 2] == '-'
}

/// Flattening writes every slash as a hyphen, an underscore and a hyphen, and leaves the texts
/// between slashes alone.
pub proof fn slashes_become_separators(segment: Seq<char>, rest: Seq<char>)
    requires
        forall|i: int| 0 <= i < segment.len() ==> segment[i] != '/',
    ensures
        flattened(segment) == segment,
        flattened(segment + seq!['/'] + rest) == segment + seq!['-', '_', '-'] + flattened(rest),
{
    literals();
    let path = segment + seq!['/'] + rest;
    let n = segment.len() as int;
    assert(!text::occurs_in(segment, "/"@)) by {
        if text::occurs_in(segment, "/"@) {
            let i = choose|i: int| text::occurs_at(segment, "/"@, i);
            one_char(segment, '/', i);
        }
    }
    replaced_nowhere(segment, "/"@, separator());
    one_char(path, '/', n);
    assert forall|j: int| 0 <= j < n implies !text::occurs_at(path, "/"@, j) by {
        one_char(path, '/', j);
        assert(path[j] == segment[j]);
    }
    replaced_at_first(path, "/"@, separator(), n);
    assert(path.take(n) =~= segment);
    assert(path.skip(n + 1) =~= rest);
}

/// Unflattening writes every separator, found from the left, as a slash, and leaves the texts
/// between separators alone.
pub proof fn separators_become_slashes(segment: Seq<char>, rest: Seq<char>)
    ensures
        (forall|i: int| !separator_at(segment, i)) ==> unflattened(segment) == segment,
        (forall|i: int|
            0 <= i < segment.len() ==> !separator_at(segment + seq!['-', '_', '-'], i))
            ==> unflattened(segment + seq!['-', '_', '-'] + rest) == segment + seq!['/']
            + unflattened(rest),
{
    literals();
    let n = segment.len() as int;
    if forall|i: int| !separator_at(segment, i) {
        assert(!text::occurs_in(segment, separator())) by {
            if text::occurs_in(segment, separator()) {
                let i = choose|i: int| text::occurs_at(segment, separator(), i);
                three_chars(segment, '-', '_', '-', i);
                assert(separator_at(segment, i));
            }
        }
        replaced_nowhere(segment, separator(), "/"@);
    }
    let name = segment + seq!['-', '_', '-'];
    let whole = name + rest;
    if forall|i: int| 0 <= i < n ==> !separator_at(name, i) {
        three_chars(whole, '-', '_', '-', n);
        assert forall|j: int| 0 <= j < n implies !text::occurs_at(whole, separator(), j) by {
            three_chars(whole, '-', '_', '-', j);
            assert(!separator_at(name, j));
            if text::occurs_at(whole, separator(), j) {
                assert(whole[j] == name[j] && whole[j + 1] == name[j + 1] && whole[j + 2]
                    == name[j + 2]);
            }
        }
        replaced_at_first(whole, separator(), "/"@, n);
        assert(whole.take(n) =~= segment);
        assert(whole.skip(n + 3) =~= rest);
    }
}

/// An object is named by the image segment alone, or by that, a separator and the flattened path.
pub proof fn objects_are_named_by_image_and_path(image: &str, path: Option<&str>, name: String)
    requires
        call_ensures(object_name, (image, path), name),
    ensures
        path is None ==> name@ == image@,
        path matches Some(path) ==> name@ == image@ + seq!['-', '_', '-'] + flattened(path@),
{
    literals();
}

/// The path that is asked for below an endpoint is the name, unflattened.
pub proof fn remote_paths_are_unflattened_names(name: &str, path: String)
    requires
        call_ensures(remote_path, (name,), path),
    ensures
        path@ == unflattened(name@),
{
}

} // verus!
