//! Text operations on character sequences: substring search, replacement and decimal notation.
use vstd::prelude::*;

verus! {

broadcast use vstd::string::group_string_axioms;

/// `String::push` appends one character to the end of the string.
pub assume_specification[ String::push ](s: &mut String, c: char)
    ensures
        final(s)@ == old(s)@.push(c),
;

/// `pattern` stands in `s` at position `i`.
pub open spec fn occurs_at(s: Seq<char>, pattern: Seq<char>, i: int) -> bool {
    &&& 0 <= i
    &&& i + pattern.len() <= s.len()
    &&& s.subrange(i, i + pattern.len()) == pattern
}

/// `pattern` stands somewhere in `s`.
pub open spec fn occurs_in(s: Seq<char>, pattern: Seq<char>) -> bool {
    exists|i: int| occurs_at(s, pattern, i)
}

/// `s` with every non-overlapping occurrence of the non-empty `from`, found from left to right,
/// replaced by `to`.
pub open spec fn replaced(s: Seq<char>, from: Seq<char>, to: Seq<char>) -> Seq<char>
    decreases s.len(),
{
    if from.len() == 0 || s.len() == 0 {
        s
    } else if occurs_at(s, from, 0) {
        to + replaced(s.skip(from.len() as int), from, to)
    } else {
        seq![s[0]] + replaced(s.skip(1), from, to)
    }
}

/// The decimal digit of a number below ten.
pub open spec fn digit(n: nat) -> char {
    (('0' as u32) + n) as char
}

/// A number in decimal notation, without leading zeros.
pub open spec fn decimal(n: nat) -> Seq<char>
    decreases n,
{
    if n < 10 {
        seq![digit(n)]
    } else {
        decimal(n / 10).push(digit(n % 10))
    }
}

/// The characters of `s`.
pub(crate) fn chars_of(s: &str) -> (chars: Vec<char>)
    ensures
        chars@ == s@,
{
    let mut chars: Vec<char> = Vec::new();
    for c in iter: s.chars()
        invariant
            chars@ == iter.seq().take(iter.index() as int),
            iter.seq() == s@,
    {
        chars.push(c);
    }
    chars
}

/// Whether `pattern` stands in `s` at position `i`.
fn matches_at(s: &Vec<char>, pattern: &Vec<char>, i: usize) -> (found: bool)
    requires
        i <= s.len(),
    ensures
        found == occurs_at(s@, pattern@, i as int),
{
    if pattern.len() > s.len() - i {
        return false;
    }
    let mut k: usize = 0;
    while k < pattern.len()
        invariant
            i + pattern.len() <= s.len(),
            k <= pattern.len(),
            forall|j: int| 0 <= j < k ==> s@[i + j] == pattern@[j],
        decreases pattern.len() - k,
    {
        if s[i + k] != pattern[k] {
            assert(s@.subrange(i as int, i + pattern.len())[k as int] != pattern@[k as int]);
            return false;
        }
        k = k + 1;
    }
    assert(s@.subrange(i as int, i + pattern.len()) =~= pattern@);
    true
}

/// Whether `pattern` stands somewhere in `s`.
pub fn contains(s: &str, pattern: &str) -> (found: bool)
    ensures
        found == occurs_in(s@, pattern@),
{
    let text = chars_of(s);
    let wanted = chars_of(pattern);
    let mut i: usize = 0;
    loop
        invariant
            text@ == s@,
            wanted@ == pattern@,
            i <= text.len(),
            forall|j: int| 0 <= j < i ==> !occurs_at(s@, pattern@, j),
        decreases text.len() - i,
    {
        if matches_at(&text, &wanted, i) {
            return true;
        }
        if i == text.len() {
            return false;
        }
        i = i + 1;
    }
}

/// `s` with every non-overlapping occurrence of `from`, found from left to right, replaced by
/// `to`.
pub(crate) fn replace(s: &str, from: &str, to: &str) -> (result: String)
    requires
        from@.len() > 0,
    ensures
        result@ == replaced(s@, from@, to@),
{
    let text = chars_of(s);
    let wanted = chars_of(from);
    let mut result = String::new();
    let mut i: usize = 0;
    assert(s@.skip(0) =~= s@);
    while i < text.len()
        invariant
            text@ == s@,
            wanted@ == from@,
            from@.len() > 0,
            i <= text.len(),
            replaced(s@, from@, to@) == result@ + replaced(s@.skip(i as int), from@, to@),
        decreases text.len() - i,
    {
        let ghost rest = s@.skip(i as int);
        if matches_at(&text, &wanted, i) {
            proof {
                assert(rest.subrange(0, from@.len() as int) =~= s@.subrange(
                    i as int,
                    i + from@.len(),
                ));
                assert(occurs_at(rest, from@, 0));
                assert(rest.skip(from@.len() as int) =~= s@.skip(i + from@.len()));
            }
            let ghost before = result@;
            result.append(to);
            i = i + wanted.len();
            assert(before + (to@ + replaced(s@.skip(i as int), from@, to@)) =~= (before + to@)
                + replaced(s@.skip(i as int), from@, to@));
        } else {
            proof {
                if occurs_at(rest, from@, 0) {
                    assert(rest.subrange(0, from@.len() as int) =~= s@.subrange(
                        i as int,
                        i + from@.len(),
                    ));
                }
                assert(rest.skip(1) =~= s@.skip(i + 1));
                assert(rest[0] == s@[i as int]);
            }
            let ghost before = result@;
            result.push(text[i]);
            i = i + 1;
            assert(before + (seq![rest[0]] + replaced(s@.skip(i as int), from@, to@))
                =~= before.push(rest[0]) + replaced(s@.skip(i as int), from@, to@));
        }
    }
    assert(replaced(s@.skip(i as int), from@, to@) =~= Seq::<char>::empty());
    result
}

fn digit_char(n: u32) -> (c: char)
    requires
        n < 10,
    ensures
        c == digit(n as nat),
{
    match n {
        0 => '0',
        1 => '1',
        2 => '2',
        3 => '3',
        4 => '4',
        5 => '5',
        6 => '6',
        7 => '7',
        8 => '8',
        _ => '9',
    }
}

/// Appends `n` in decimal notation.
pub fn push_decimal(out: &mut String, n: u32)
    ensures
        final(out)@ == old(out)@ + decimal(n as nat),
    decreases n,
{
    if n >= 10 {
        push_decimal(out, n / 10);
    }
    out.push(digit_char(n % 10));
}

/// Text equality.
pub fn same_text(a: &str, b: &str) -> (same: bool)
    ensures
        same == (a@ == b@),
{
    let left = chars_of(a);
    let right = chars_of(b);
    if left.len() != right.len() {
        return false;
    }
    assert(left@.subrange(0, left.len() as int) =~= left@);
    matches_at(&left, &right, 0)
}

/// A decimal digit is never a slash, and distinct numbers below ten have distinct digits.
proof fn digits_are_distinct(a: nat, b: nat)
    requires
        a < 10,
        b < 10,
    ensures
        digit(a) != '/',
        digit(a) == digit(b) ==> a == b,
{
}

/// Decimal notation is one-to-one, and holds no slash.
pub proof fn decimal_is_injective(a: nat, b: nat)
    ensures
        decimal(a).len() > 0,
        forall|i: int| 0 <= i < decimal(a).len() ==> decimal(a)[i] != '/',
        decimal(a) == decimal(b) ==> a == b,
    decreases a,
{
    digits_are_distinct(a % 10, b % 10);
    if a >= 10 {
        decimal_is_injective(a / 10, b / 10);
        assert(decimal(a).drop_last() =~= decimal(a / 10));
    }
    if b >= 10 {
        assert(decimal(b).drop_last() =~= decimal(b / 10));
        assert(decimal(b).len() >= 1);
    }
    if decimal(a) == decimal(b) {
        assert(decimal(a).last() == digit(a % 10));
        assert(decimal(b).last() == digit(b % 10));
        if a < 10 && b >= 10 {
            decimal_is_not_empty(b / 10);
            assert(decimal(b).len() >= 2);
        }
        if a >= 10 && b < 10 {
            assert(decimal(a).len() >= 2);
        }
    }
}

proof fn decimal_is_not_empty(n: nat)
    ensures
        decimal(n).len() > 0,
{
}

/// The number that a row of decimal digits is read as.
pub open spec fn number_read(digits: Seq<char>) -> int
    decreases digits.len(),
{
    if digits.len() == 0 {
        0
    } else {
        10 * number_read(digits.drop_last()) + (digits.last() as int - '0' as int)
    }
}

/// Decimal notation is a row of digits that is read as the number, and it starts with a zero only
/// where that is all of it.
pub proof fn decimal_reads_back(n: nat)
    ensures
        decimal(n).len() > 0,
        forall|i: int| 0 <= i < decimal(n).len() ==> '0' <= #[trigger] decimal(n)[i] <= '9',
        number_read(decimal(n)) == n,
        decimal(n).len() > 1 ==> decimal(n)[0] != '0',
    decreases n,
{
    reveal_with_fuel(number_read, 2);
    if n >= 10 {
        decimal_reads_back(n / 10);
        assert(decimal(n).drop_last() =~= decimal(n / 10));
        if decimal(n / 10).len() == 1 {
            assert(decimal(n / 10)[0] == digit(n / 10));
        }
    }
}

/// A pattern is found exactly in the texts that are some text, the pattern, and some text behind
/// it.
pub proof fn found_patterns_split_the_text(s: &str, pattern: &str, found: bool)
    requires
        call_ensures(contains, (s, pattern), found),
    ensures
        found <==> exists|before: Seq<char>, after: Seq<char>|
            s@ == #[trigger] (before + pattern@ + after),
{
    let n = pattern@.len();
    if found {
        let i = choose|i: int| occurs_at(s@, pattern@, i);
        assert(s@ =~= s@.take(i) + pattern@ + s@.skip(i + n));
    }
    if exists|before: Seq<char>, after: Seq<char>| s@ == #[trigger] (before + pattern@ + after) {
        let (before, after) = choose|before: Seq<char>, after: Seq<char>|
            s@ == #[trigger] (before + pattern@ + after);
        let i = before.len() as int;
        assert(s@.subrange(i, i + n) =~= pattern@);
        assert(occurs_at(s@, pattern@, i));
    }
}

/// Texts are the same exactly when they have the same characters in the same places.
pub proof fn same_texts_have_the_same_characters(a: &str, b: &str, same: bool)
    requires
        call_ensures(same_text, (a, b), same),
    ensures
        same <==> a@.len() == b@.len() && forall|i: int|
            0 <= i < a@.len() ==> #[trigger] a@[i] == b@[i],
{
    if a@.len() == b@.len() && (forall|i: int| 0 <= i < a@.len() ==> #[trigger] a@[i] == b@[i]) {
        assert(a@ =~= b@);
    }
}

} // verus!
