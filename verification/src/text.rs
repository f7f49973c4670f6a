//! Small operations on text that the rest of the library shares.

use vstd::prelude::*;
use vstd::std_specs::iter::IteratorSpec;
use vstd::string::StrSliceExecFns;
use vstd::string::StringExecFns;

verus! {

/// Whether a character has Unicode's White_Space property: the space, the
/// controls from tab to carriage return, next line, the no-break spaces,
/// the Ogham space mark, the spaces of fixed width, the line and paragraph
/// separators, the mathematical and the ideographic space.
pub open spec fn is_white_space(c: char) -> bool {
    let code = c as u32;
    ||| code == 0x20
    ||| 0x09 <= code <= 0x0d
    ||| code == 0x85
    ||| code == 0xa0
    ||| code == 0x1680
    ||| 0x2000 <= code <= 0x200a
    ||| code == 0x2028
    ||| code == 0x2029
    ||| code == 0x202f
    ||| code == 0x205f
    ||| code == 0x3000
}

/// How many characters of White_Space a text begins with.
pub open spec fn leading_white(s: Seq<char>) -> nat
    decreases s.len(),
{
    if s.len() > 0 && is_white_space(s[0]) {
        1 + leading_white(s.skip(1))
    } else {
        0
    }
}

/// How many characters of White_Space a text ends with.
pub open spec fn trailing_white(s: Seq<char>) -> nat
    decreases s.len(),
{
    if s.len() > 0 && is_white_space(s.last()) {
        1 + trailing_white(s.drop_last())
    } else {
        0
    }
}

/// A text without the White_Space at its start and at its end.
pub open spec fn trimmed(s: Seq<char>) -> Seq<char> {
    let rest = s.skip(leading_white(s) as int);
    rest.take(rest.len() - trailing_white(rest))
}

/// `char::is_whitespace`. Claimed: it holds of the 25 characters that
/// Unicode gives the White_Space property, and of no other.
pub assume_specification[ char::is_whitespace ](c: char) -> (white: bool)
    ensures
        white == is_white_space(c),
;

/// White_Space up to `a`, and none at `a`: the text begins with `a` of them.
proof fn lemma_leading_white(s: Seq<char>, a: int)
    requires
        0 <= a <= s.len(),
        forall|k: int| 0 <= k < a ==> is_white_space(s[k]),
        a < s.len() ==> !is_white_space(s[a]),
    ensures
        leading_white(s) == a,
    decreases a,
{
    if a > 0 {
        let rest = s.skip(1);
        assert forall|k: int| 0 <= k < a - 1 implies is_white_space(rest[k]) by {
            assert(rest[k] == s[k + 1]);
        }
        if a < s.len() {
            assert(rest[a - 1] == s[a]);
        }
        lemma_leading_white(rest, a - 1);
    }
}

/// White_Space from `b` on, and none just before `b`: the text ends with
/// all that follows `b`.
proof fn lemma_trailing_white(s: Seq<char>, b: int)
    requires
        0 <= b <= s.len(),
        forall|k: int| b <= k < s.len() ==> is_white_space(s[k]),
        b > 0 ==> !is_white_space(s[b - 1]),
    ensures
        trailing_white(s) == s.len() - b,
    decreases s.len() - b,
{
    if b < s.len() {
        let rest = s.drop_last();
        assert forall|k: int| b <= k < rest.len() implies is_white_space(rest[k]) by {
            assert(rest[k] == s[k]);
        }
        if b > 0 {
            assert(rest[b - 1] == s[b - 1]);
        }
        lemma_trailing_white(rest, b);
    }
}

/// The text without the White_Space at its start and at its end.
pub fn trim(s: &str) -> (t: &str)
    ensures
        t@ == trimmed(s@),
{
    broadcast use vstd::string::group_string_axioms;

    let n = s.unicode_len();
    let mut chars = s.chars();
    let mut i: usize = 0;
    let mut start: usize = 0;
    let mut end: usize = 0;
    let mut seen = false;
    loop
        invariant
            n == s@.len(),
            i <= n,
            chars.remaining() == s@.skip(i as int),
            !seen ==> start == 0 && end == 0 && (forall|k: int| 0 <= k < i ==> is_white_space(s@[k])),
            seen ==> start < end <= i && !is_white_space(s@[start as int]) && !is_white_space(
                s@[end - 1],
            ) && (forall|k: int| 0 <= k < start ==> is_white_space(s@[k])) && (forall|k: int|
                end <= k < i ==> is_white_space(s@[k])),
        ensures
            i == n,
        decreases n - i,
    {
        let ghost before = chars.remaining();
        match chars.next() {
            Some(c) => {
                assert(c == before[0] && before[0] == s@[i as int]);
                assert(chars.remaining() =~= s@.skip(i + 1));
                if !c.is_whitespace() {
                    if !seen {
                        start = i;
                        seen = true;
                    }
                    end = i + 1;
                }
                i += 1;
            },
            None => {
                assert(before.len() == 0);
                break ;
            },
        }
    }
    if !seen {
        start = n;
        end = n;
    }
    proof {
        lemma_trimmed_is_stretch(s@, start as int, end as int);
    }
    s.substring_char(start, end)
}

/// Whether two texts are the same, character by character.
pub fn same_text(a: &str, b: &str) -> (same: bool)
    ensures
        same == (a@ == b@),
{
    let x = a.to_owned();
    let y = b.to_owned();
    x == y
}

/// Whether a text holds nothing but White_Space.
pub open spec fn all_white(s: Seq<char>) -> bool {
    forall|k: int| 0 <= k < s.len() ==> is_white_space(#[trigger] s[k])
}

/// What `leading_white` counts is White_Space, and what follows it is not.
pub proof fn lemma_leading_white_is_exact(s: Seq<char>)
    ensures
        leading_white(s) <= s.len(),
        forall|k: int| 0 <= k < leading_white(s) ==> is_white_space(#[trigger] s[k]),
        leading_white(s) < s.len() ==> !is_white_space(s[leading_white(s) as int]),
    decreases s.len(),
{
    if s.len() > 0 && is_white_space(s[0]) {
        let rest = s.skip(1);
        lemma_leading_white_is_exact(rest);
        assert forall|k: int| 0 <= k < leading_white(s) implies is_white_space(
            #[trigger] s[k],
        ) by {
            if k > 0 {
                assert(s[k] == rest[k - 1]);
            }
        }
        if leading_white(s) < s.len() {
            assert(s[leading_white(s) as int] == rest[leading_white(rest) as int]);
        }
    }
}

/// What `trailing_white` counts is White_Space, and what precedes it is not.
pub proof fn lemma_trailing_white_is_exact(s: Seq<char>)
    ensures
        trailing_white(s) <= s.len(),
        forall|k: int| s.len() - trailing_white(s) <= k < s.len() ==> is_white_space(#[trigger] s[k]),
        trailing_white(s) < s.len() ==> !is_white_space(s[s.len() - trailing_white(s) - 1]),
    decreases s.len(),
{
    if s.len() > 0 && is_white_space(s.last()) {
        let rest = s.drop_last();
        lemma_trailing_white_is_exact(rest);
        assert forall|k: int| s.len() - trailing_white(s) <= k < s.len() implies is_white_space(
            #[trigger] s[k],
        ) by {
            if k < s.len() - 1 {
                assert(s[k] == rest[k]);
            }
        }
        if trailing_white(s) < s.len() {
            assert(s[s.len() - trailing_white(s) - 1] == rest[rest.len() - trailing_white(rest)
                - 1]);
        }
    }
}

/// Trimming yields the stretch from the first to the last character that is
/// not White_Space: given its bounds, the result is that stretch.
proof fn lemma_trimmed_is_stretch(s: Seq<char>, a: int, b: int)
    requires
        0 <= a <= b <= s.len(),
        forall|k: int| 0 <= k < a ==> is_white_space(s[k]),
        forall|k: int| b <= k < s.len() ==> is_white_space(s[k]),
        a < b ==> !is_white_space(s[a]) && !is_white_space(s[b - 1]),
        a == b ==> a == s.len(),
    ensures
        trimmed(s) == s.subrange(a, b),
{
    lemma_leading_white(s, a);
    let rest = s.skip(a);
    assert forall|k: int| b - a <= k < rest.len() implies is_white_space(rest[k]) by {
        assert(rest[k] == s[k + a]);
    }
    if b > a {
        assert(rest[b - a - 1] == s[b - 1]);
    }
    lemma_trailing_white(rest, b - a);
    assert(rest.take(b - a) =~= s.subrange(a, b));
}

/// A text that neither begins nor ends with White_Space is left as it is.
pub proof fn lemma_trimmed_keeps_tight_text(s: Seq<char>)
    requires
        s.len() > 0 ==> !is_white_space(s[0]) && !is_white_space(s.last()),
    ensures
        trimmed(s) == s,
{
    lemma_trimmed_is_stretch(s, 0, s.len() as int);
    assert(s.subrange(0, s.len() as int) =~= s);
}

/// White_Space around a text does not change what trimming leaves of it.
pub proof fn lemma_trimmed_ignores_white_around(before: Seq<char>, s: Seq<char>, after: Seq<char>)
    requires
        all_white(before),
        all_white(after),
    ensures
        trimmed(before + s + after) == trimmed(s),
{
    let whole = before + s + after;
    lemma_leading_white_is_exact(s);
    let a = leading_white(s) as int;
    let rest = s.skip(a);
    lemma_trailing_white_is_exact(rest);
    let b = s.len() - trailing_white(rest);
    assert forall|k: int| 0 <= k < whole.len() implies whole[k] == if k < before.len() {
        before[k]
    } else if k < before.len() + s.len() {
        s[k - before.len()]
    } else {
        after[k - before.len() - s.len()]
    } by {}
    assert forall|k: int| b <= k < s.len() implies is_white_space(s[k]) by {
        assert(s[k] == rest[k - a]);
    }
    if a < s.len() {
        assert(rest[0] == s[a]);
        assert(trailing_white(rest) < rest.len()) by {
            if trailing_white(rest) == rest.len() {
                assert(is_white_space(rest[0]));
            }
        }
        assert(rest[rest.len() - trailing_white(rest) - 1] == s[b - 1]);
        lemma_trimmed_is_stretch(s, a, b);
        lemma_trimmed_is_stretch(whole, before.len() + a, before.len() + b);
        assert(whole.subrange(before.len() + a, before.len() + b) =~= s.subrange(a, b));
    } else {
        lemma_trimmed_is_stretch(s, s.len() as int, s.len() as int);
        lemma_trimmed_is_stretch(whole, whole.len() as int, whole.len() as int);
        assert(whole.subrange(whole.len() as int, whole.len() as int) =~= s.subrange(
            s.len() as int,
            s.len() as int,
        ));
    }
}

/// Whether `needle` stands in `haystack` at position `at`.
pub open spec fn occurs_at(haystack: Seq<char>, needle: Seq<char>, at: int) -> bool {
    0 <= at && at + needle.len() <= haystack.len() && haystack.subrange(at, at + needle.len())
        == needle
}

/// Whether `needle` stands somewhere in `haystack`.
pub open spec fn contains_text(haystack: Seq<char>, needle: Seq<char>) -> bool {
    exists|at: int| occurs_at(haystack, needle, at)
}

/// The characters of a text, one by one.
pub fn chars_of(s: &str) -> (chars: Vec<char>)
    ensures
        chars@ == s@,
{
    broadcast use vstd::string::group_string_axioms;

    let n = s.unicode_len();
    let mut iter = s.chars();
    let mut chars: Vec<char> = Vec::new();
    loop
        invariant
            n == s@.len(),
            chars@ + iter.remaining() == s@,
        ensures
            chars@ == s@,
        decreases n - chars.len(),
    {
        let ghost before = iter.remaining();
        match iter.next() {
            Some(c) => {
                chars.push(c);
                assert(chars@ + iter.remaining() =~= s@) by {
                    assert(before =~= seq![c] + iter.remaining());
                }
            },
            None => {
                assert(chars@ + before =~= chars@);
                break ;
            },
        }
    }
    chars
}

/// Whether `needle` stands somewhere in `haystack`.
pub fn contains(haystack: &str, needle: &str) -> (found: bool)
    ensures
        found == contains_text(haystack@, needle@),
{
    let h = chars_of(haystack);
    let n = chars_of(needle);
    if n.len() > h.len() {
        return false;
    }
    let last = h.len() - n.len();
    let mut at: usize = 0;
    while at <= last
        invariant
            h@ == haystack@,
            n@ == needle@,
            n.len() <= h.len(),
            last == h.len() - n.len(),
            at <= last + 1,
            forall|k: int| 0 <= k < at ==> !occurs_at(h@, n@, k),
        decreases last + 1 - at,
    {
        let mut j: usize = 0;
        while j < n.len() && h[at + j] == n[j]
            invariant
                at <= last,
                last == h.len() - n.len(),
                n.len() <= h.len(),
                j <= n.len(),
                forall|k: int| 0 <= k < j ==> h@[at + k] == n@[k],
            decreases n.len() - j,
        {
            j += 1;
        }
        if j == n.len() {
            assert(h@.subrange(at as int, at + n.len()) =~= n@);
            assert(occurs_at(h@, n@, at as int));
            return true;
        }
        assert(!occurs_at(h@, n@, at as int)) by {
            if occurs_at(h@, n@, at as int) {
                assert(h@.subrange(at as int, at + n.len())[j as int] == n@[j as int]);
            }
        }
        at += 1;
    }
    false
}

/// The character of a decimal digit.
pub open spec fn digit_char(d: nat) -> char {
    if d == 0 {
        '0'
    } else if d == 1 {
        '1'
    } else if d == 2 {
        '2'
    } else if d == 3 {
        '3'
    } else if d == 4 {
        '4'
    } else if d == 5 {
        '5'
    } else if d == 6 {
        '6'
    } else if d == 7 {
        '7'
    } else if d == 8 {
        '8'
    } else {
        '9'
    }
}

/// A number in decimal, without leading zeros.
pub open spec fn decimal_digits(n: nat) -> Seq<char>
    decreases n,
{
    if n < 10 {
        seq![digit_char(n)]
    } else {
        decimal_digits(n / 10).push(digit_char(n % 10))
    }
}

/// The text of a decimal digit.
fn digit(d: u32) -> (text: &'static str)
    requires
        d < 10,
    ensures
        text@ == seq![digit_char(d as nat)],
{
    proof {
        reveal_strlit("0");
        reveal_strlit("1");
        reveal_strlit("2");
        reveal_strlit("3");
        reveal_strlit("4");
        reveal_strlit("5");
        reveal_strlit("6");
        reveal_strlit("7");
        reveal_strlit("8");
        reveal_strlit("9");
    }
    let text = if d == 0 {
        "0"
    } else if d == 1 {
        "1"
    } else if d == 2 {
        "2"
    } else if d == 3 {
        "3"
    } else if d == 4 {
        "4"
    } else if d == 5 {
        "5"
    } else if d == 6 {
        "6"
    } else if d == 7 {
        "7"
    } else if d == 8 {
        "8"
    } else {
        "9"
    };
    assert(text@ =~= seq![digit_char(d as nat)]);
    text
}

/// A number in decimal, without leading zeros.
pub fn decimal(n: u32) -> (text: String)
    ensures
        text@ == decimal_digits(n as nat),
    decreases n,
{
    if n < 10 {
        String::from_str(digit(n))
    } else {
        let text = decimal(n / 10).concat(digit(n % 10));
        assert(text@ =~= decimal_digits(n as nat / 10).push(digit_char(n as nat % 10)));
        text
    }
}

} // verus!
