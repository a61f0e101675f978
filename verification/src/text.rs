//! Small verified helpers on strings: comparison, Unicode whitespace and
//! trimming.

use vstd::prelude::*;
use vstd::std_specs::iter::IteratorSpec;
use vstd::string::*;

verus! {

/// Whether two string slices hold the same characters.
pub fn str_eq(a: &str, b: &str) -> (same: bool)
    ensures
        same == (a@ == b@),
{
    let left = a.to_owned();
    let right = b.to_owned();
    left == right
}

/// The characters of an optional string.
pub open spec fn text_of(text: Option<String>) -> Option<Seq<char>> {
    match text {
        Some(s) => Some(s@),
        None => None,
    }
}

/// The characters with the Unicode property `White_Space`.
pub open spec fn is_whitespace(c: char) -> bool {
    let code = c as u32;
    ||| 0x09 <= code <= 0x0D
    ||| code == 0x20
    ||| code == 0x85
    ||| code == 0xA0
    ||| code == 0x1680
    ||| 0x2000 <= code <= 0x200A
    ||| code == 0x2028
    ||| code == 0x2029
    ||| code == 0x202F
    ||| code == 0x205F
    ||| code == 0x3000
}

/// Whether `c` is a whitespace character.
pub fn char_is_whitespace(c: char) -> (white: bool)
    ensures
        white == is_whitespace(c),
{
    let code: u32 = c as u32;
    (0x09 <= code && code <= 0x0D) || code == 0x20 || code == 0x85 || code == 0xA0 || code
        == 0x1680 || (0x2000 <= code && code <= 0x200A) || code == 0x2028 || code == 0x2029 || code
        == 0x202F || code == 0x205F || code == 0x3000
}

/// Whether every character of `s` is whitespace (true of the empty sequence).
pub open spec fn all_whitespace(s: Seq<char>) -> bool {
    forall|i: int| 0 <= i < s.len() ==> is_whitespace(#[trigger] s[i])
}

/// The index of the first character of `s` that is not whitespace, or the
/// length of `s` where there is none.
pub open spec fn trim_start_index(s: Seq<char>) -> int
    decreases s.len(),
{
    if s.len() == 0 || !is_whitespace(s[0]) {
        0
    } else {
        1 + trim_start_index(s.drop_first())
    }
}

/// One past the index of the last character of `s` that is not whitespace,
/// or 0 where there is none.
pub open spec fn trim_end_index(s: Seq<char>) -> int
    decreases s.len(),
{
    if s.len() == 0 || !is_whitespace(s.last()) {
        s.len() as int
    } else {
        trim_end_index(s.drop_last())
    }
}

/// `s` without its leading and trailing whitespace.
pub open spec fn trimmed(s: Seq<char>) -> Seq<char> {
    if trim_end_index(s) <= trim_start_index(s) {
        Seq::empty()
    } else {
        s.subrange(trim_start_index(s), trim_end_index(s))
    }
}

/// `trim_start_index` is the one index before which all is whitespace and at
/// which the sequence ends or holds a character that is not whitespace.
pub proof fn lemma_trim_start_index(s: Seq<char>, a: int)
    requires
        0 <= a <= s.len(),
        forall|j: int| 0 <= j < a ==> is_whitespace(#[trigger] s[j]),
        a == s.len() || !is_whitespace(s[a]),
    ensures
        trim_start_index(s) == a,
    decreases s.len(),
{
    if s.len() > 0 && is_whitespace(s[0]) {
        let rest = s.drop_first();
        assert(a > 0);
        assert forall|j: int| 0 <= j < a - 1 implies is_whitespace(#[trigger] rest[j]) by {
            assert(rest[j] == s[j + 1]);
        }
        if a < s.len() {
            assert(rest[a - 1] == s[a]);
        }
        lemma_trim_start_index(rest, a - 1);
    }
}

/// `trim_end_index` is the one index from which all is whitespace and before
/// which the sequence starts or holds a character that is not whitespace.
pub proof fn lemma_trim_end_index(s: Seq<char>, b: int)
    requires
        0 <= b <= s.len(),
        forall|j: int| b <= j < s.len() ==> is_whitespace(#[trigger] s[j]),
        b == 0 || !is_whitespace(s[b - 1]),
    ensures
        trim_end_index(s) == b,
    decreases s.len(),
{
    if s.len() > 0 && is_whitespace(s.last()) {
        let rest = s.drop_last();
        assert(b < s.len());
        assert forall|j: int| b <= j < rest.len() implies is_whitespace(#[trigger] rest[j]) by {
            assert(rest[j] == s[j]);
        }
        if b > 0 {
            assert(rest[b - 1] == s[b - 1]);
        }
        lemma_trim_end_index(rest, b);
    }
}

/// What trimming leaves: a part of `s` that neither starts nor ends with
/// whitespace, empty exactly when `s` is all whitespace, and with only
/// whitespace cut off on both sides.
pub proof fn lemma_trimmed(s: Seq<char>)
    ensures
        trimmed(s).len() <= s.len(),
        trimmed(s).len() == 0 <==> all_whitespace(s),
        trimmed(s).len() > 0 ==> !is_whitespace(trimmed(s).first()) && !is_whitespace(
            trimmed(s).last(),
        ),
        0 <= trim_start_index(s) <= s.len(),
        0 <= trim_end_index(s) <= s.len(),
        forall|j: int| 0 <= j < trim_start_index(s) ==> is_whitespace(#[trigger] s[j]),
        forall|j: int| trim_end_index(s) <= j < s.len() ==> is_whitespace(#[trigger] s[j]),
        !all_whitespace(s) ==> trim_start_index(s) < trim_end_index(s) && trimmed(s)
            == s.subrange(trim_start_index(s), trim_end_index(s)),
{
    lemma_trim_indices(s);
    let a = trim_start_index(s);
    let b = trim_end_index(s);
    if a < s.len() {
        assert(!is_whitespace(s[a]));
        if b <= a {
            assert(is_whitespace(s[a]));
        }
    }
    if b > 0 {
        assert(!is_whitespace(s[b - 1]));
    }
    if a < b {
        assert(trimmed(s).first() == s[a]);
        assert(trimmed(s).last() == s[b - 1]);
    }
}

/// The two indices between which trimming keeps the characters.
pub proof fn lemma_trim_indices(s: Seq<char>)
    ensures
        0 <= trim_start_index(s) <= s.len(),
        0 <= trim_end_index(s) <= s.len(),
        forall|j: int| 0 <= j < trim_start_index(s) ==> is_whitespace(#[trigger] s[j]),
        forall|j: int| trim_end_index(s) <= j < s.len() ==> is_whitespace(#[trigger] s[j]),
        trim_start_index(s) < s.len() ==> !is_whitespace(s[trim_start_index(s)]),
        trim_end_index(s) > 0 ==> !is_whitespace(s[trim_end_index(s) - 1]),
    decreases s.len(),
{
    if s.len() > 0 {
        if is_whitespace(s[0]) {
            let rest = s.drop_first();
            lemma_trim_indices(rest);
            assert forall|j: int| 0 <= j < trim_start_index(s) implies is_whitespace(
                #[trigger] s[j],
            ) by {
                if j > 0 {
                    assert(s[j] == rest[j - 1]);
                }
            }
            if trim_start_index(s) < s.len() {
                assert(s[trim_start_index(s)] == rest[trim_start_index(rest)]);
            }
        }
        if is_whitespace(s.last()) {
            let rest = s.drop_last();
            lemma_trim_indices(rest);
            assert forall|j: int| trim_end_index(s) <= j < s.len() implies is_whitespace(
                #[trigger] s[j],
            ) by {
                if j < rest.len() {
                    assert(s[j] == rest[j]);
                }
            }
            if trim_end_index(s) > 0 {
                assert(s[trim_end_index(s) - 1] == rest[trim_end_index(rest) - 1]);
            }
        }
    }
}

/// Trimming what is already trimmed changes nothing.
pub proof fn lemma_trimmed_idempotent(s: Seq<char>)
    ensures
        trimmed(trimmed(s)) == trimmed(s),
{
    lemma_trimmed(s);
    let t = trimmed(s);
    if t.len() > 0 {
        lemma_trim_start_index(t, 0);
        lemma_trim_end_index(t, t.len() as int);
        assert(t.subrange(0, t.len() as int) =~= t);
    } else {
        lemma_trim_start_index(t, 0);
        lemma_trim_end_index(t, 0);
    }
}

/// `s` without its leading and trailing whitespace, as an owned string.
pub fn trim(s: &str) -> (t: String)
    ensures
        t@ == trimmed(s@),
{
    let n = s.unicode_len();
    let mut it = s.chars();
    let mut i: usize = 0;
    let mut found = false;
    let mut start: usize = 0;
    let mut end: usize = 0;
    loop
        invariant
            n == s@.len(),
            i <= n,
            it.remaining() == s@.subrange(i as int, n as int),
            !found ==> start == 0 && end == 0 && forall|j: int|
                0 <= j < i ==> is_whitespace(#[trigger] s@[j]),
            found ==> start < end <= i && !is_whitespace(s@[start as int]) && !is_whitespace(
                s@[end - 1],
            ) && (forall|j: int| 0 <= j < start ==> is_whitespace(#[trigger] s@[j])) && (forall|
                j: int,
            | end <= j < i ==> is_whitespace(#[trigger] s@[j])),
        ensures
            i == n,
        decreases n - i,
    {
        let ghost before = it.remaining();
        match it.next() {
            None => {
                assert(before.len() == 0);
                break ;
            },
            Some(c) => {
                assert(before.len() > 0);
                assert(c == s@[i as int]);
                assert(it.remaining() == s@.subrange(i + 1, n as int));
                if !char_is_whitespace(c) {
                    if !found {
                        found = true;
                        start = i;
                    }
                    end = i + 1;
                }
                i = i + 1;
            },
        }
    }
    proof {
        if found {
            lemma_trim_start_index(s@, start as int);
            lemma_trim_end_index(s@, end as int);
        } else {
            lemma_trim_start_index(s@, n as int);
            lemma_trim_end_index(s@, 0);
        }
    }
    if found {
        s.substring_char(start, end).to_owned()
    } else {
        String::new()
    }
}

/// The character that stands for the digit `d`.
pub open spec fn digit(d: int) -> char
    recommends
        0 <= d < 10,
{
    "0123456789"@[d]
}

/// The decimal digits of a natural number, without leading zeros.
pub open spec fn decimal_digits(n: nat) -> Seq<char>
    decreases n,
{
    if n < 10 {
        seq![digit(n as int)]
    } else {
        decimal_digits(n / 10).push(digit((n % 10) as int))
    }
}

/// An integer in decimal, with a minus sign where it is negative.
pub open spec fn decimal(n: int) -> Seq<char> {
    if n < 0 {
        seq!['-'] + decimal_digits((-n) as nat)
    } else {
        decimal_digits(n as nat)
    }
}

/// The digit `d` as a string of one character.
fn digit_str(d: u128) -> (s: &'static str)
    requires
        d < 10,
    ensures
        s@ == seq![digit(d as int)],
{
    proof {
        reveal_strlit("0123456789");
        reveal_strlit("0");
        reveal_strlit("1");
        reveal_strlit("2");
        reveal_strlit("3");
        reveal_strlit("4");
        reveal_strlit("5");
        reveal_strlit("6");
        reveal_strlit("7");
        reveal_strlit("8");
        reveal_strlit("9");
    }
    let s = if d == 0 {
        "0"
    } else if d == 1 {
        "1"
    } else if d == 2 {
        "2"
    } else if d == 3 {
        "3"
    } else if d == 4 {
        "4"
    } else if d == 5 {
        "5"
    } else if d == 6 {
        "6"
    } else if d == 7 {
        "7"
    } else if d == 8 {
        "8"
    } else {
        "9"
    };
    assert(s@ =~= seq![digit(d as int)]);
    s
}

/// Appends the decimal digits of `n` to `out`.
pub fn append_decimal_digits(out: &mut String, n: u128)
    ensures
        final(out)@ == old(out)@ + decimal_digits(n as nat),
    decreases n,
{
    if n >= 10 {
        append_decimal_digits(out, n / 10);
    }
    out.append(digit_str(n % 10));
    assert(out@ =~= old(out)@ + decimal_digits(n as nat));
}

/// Appends `n` in decimal to `out`.
pub fn append_decimal(out: &mut String, n: i64)
    ensures
        final(out)@ == old(out)@ + decimal(n as int),
{
    let wide: i128 = n as i128;
    if wide < 0 {
        out.append("-");
        proof {
            reveal_strlit("-");
            assert("-"@ =~= seq!['-']);
        }
        append_decimal_digits(out, (-wide) as u128);
    } else {
        append_decimal_digits(out, wide as u128);
    }
    assert(out@ =~= old(out)@ + decimal(n as int));
}

} // verus!
