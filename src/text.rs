//! Splitting text into whitespace-separated words, and case folding.

use vstd::prelude::*;

verus! {

/// Unicode `White_Space`, the set that `char::is_whitespace` tests.
pub open spec fn is_white_space(c: char) -> bool {
    let u = c as u32;
    ||| 0x9 <= u <= 0xd
    ||| u == 0x20
    ||| u == 0x85
    ||| u == 0xa0
    ||| u == 0x1680
    ||| 0x2000 <= u <= 0x200a
    ||| u == 0x2028
    ||| u == 0x2029
    ||| u == 0x202f
    ||| u == 0x205f
    ||| u == 0x3000
}

/// Whether `c` is whitespace.
pub fn white_space(c: char) -> (r: bool)
    ensures
        r == is_white_space(c),
{
    let u = c as u32;
    (0x9 <= u && u <= 0xd) || u == 0x20 || u == 0x85 || u == 0xa0 || u == 0x1680 || (0x2000
        <= u && u <= 0x200a) || u == 0x2028 || u == 0x2029 || u == 0x202f || u == 0x205f || u
        == 0x3000
}

/// The first position at or after `i` that does not hold whitespace (or the end).
pub open spec fn skip_space(s: Seq<char>, i: int) -> int
    decreases s.len() - i,
{
    if i < 0 || i >= s.len() {
        s.len() as int
    } else if is_white_space(s[i]) {
        skip_space(s, i + 1)
    } else {
        i
    }
}

/// The first position at or after `i` that holds whitespace (or the end).
pub open spec fn skip_word(s: Seq<char>, i: int) -> int
    decreases s.len() - i,
{
    if i < 0 || i >= s.len() {
        s.len() as int
    } else if is_white_space(s[i]) {
        i
    } else {
        skip_word(s, i + 1)
    }
}

/// Bounds of the word that starts at the first non-whitespace position at or
/// after `i`: `(start, end)`; `start == s.len()` when no word is left.
pub open spec fn word_from(s: Seq<char>, i: int) -> (int, int) {
    let start = skip_space(s, i);
    (start, skip_word(s, start))
}

/// The first whitespace-separated word of `s`, if any.
pub open spec fn first_word(s: Seq<char>) -> Option<Seq<char>> {
    let (a, b) = word_from(s, 0);
    if a < s.len() {
        Some(s.subrange(a, b))
    } else {
        None
    }
}

/// The second whitespace-separated word of `s`, if any.
pub open spec fn second_word(s: Seq<char>) -> Option<Seq<char>> {
    let (a, b) = word_from(s, 0);
    let (c, d) = word_from(s, b);
    if a < s.len() && c < s.len() {
        Some(s.subrange(c, d))
    } else {
        None
    }
}

/// Finds the word that starts at or after `from`; see [`word_from`].
pub fn find_word(s: &str, from: usize) -> (r: (usize, usize))
    requires
        from <= s@.len(),
    ensures
        r.0 as int == word_from(s@, from as int).0,
        r.1 as int == word_from(s@, from as int).1,
        from <= r.0 <= r.1 <= s@.len(),
{
    let n = s.unicode_len();
    let mut i: usize = from;
    while i < n && white_space(s.get_char(i))
        invariant
            n == s@.len(),
            from <= i <= n,
            skip_space(s@, i as int) == skip_space(s@, from as int),
        decreases n - i,
    {
        i = i + 1;
    }
    let start = i;
    while i < n && !white_space(s.get_char(i))
        invariant
            n == s@.len(),
            start <= i <= n,
            start as int == skip_space(s@, from as int),
            skip_word(s@, i as int) == skip_word(s@, start as int),
        decreases n - i,
    {
        i = i + 1;
    }
    (start, i)
}

/// The name of `str::to_lowercase`'s result: Unicode lower case, character by
/// character, where some characters lower to more than one.
pub uninterp spec fn lower_of(s: Seq<char>) -> Seq<char>;

/// Relies on `str::to_lowercase`: its result depends on the characters alone.
#[verifier::external_body]
pub(crate) fn lowercase(s: &str) -> (r: String)
    ensures
        r@ == lower_of(s@),
{
    s.to_lowercase()
}

/// Whether a string holds exactly the characters of `lit`.
pub fn same_text(s: &String, lit: &str) -> (r: bool)
    ensures
        r == (s@ == lit@),
{
    let other = String::from_str(lit);
    s.eq(&other)
}

/// The character of a decimal digit.
pub open spec fn digit_char(d: nat) -> char {
    seq!['0', '1', '2', '3', '4', '5', '6', '7', '8', '9'][d as int]
}

/// The decimal digits of a natural number, most significant first, no leading zeros.
pub open spec fn digits_of(n: nat) -> Seq<char>
    decreases n,
{
    if n < 10 {
        seq![digit_char(n)]
    } else {
        digits_of(n / 10).push(digit_char(n % 10))
    }
}

/// The decimal text of an integer, with a leading `-` when it is negative.
pub open spec fn decimal_of(n: int) -> Seq<char> {
    if n < 0 {
        seq!['-'] + digits_of((-n) as nat)
    } else {
        digits_of(n as nat)
    }
}

/// The one-character text of a decimal digit.
fn digit_text(d: u64) -> (r: &'static str)
    requires
        d < 10,
    ensures
        r@ == seq![digit_char(d as nat)],
{
    proof {
        reveal_strlit("0");
        reveal_strlit("1");
        reveal_strlit("2");
        reveal_strlit("3");
        reveal_strlit("4");
        reveal_strlit("5");
        reveal_strlit("6");
        reveal_strlit("7");
        reveal_strlit("8");
        reveal_strlit("9");
    }
    let r = if d == 0 {
        "0"
    } else if d == 1 {
        "1"
    } else if d == 2 {
        "2"
    } else if d == 3 {
        "3"
    } else if d == 4 {
        "4"
    } else if d == 5 {
        "5"
    } else if d == 6 {
        "6"
    } else if d == 7 {
        "7"
    } else if d == 8 {
        "8"
    } else {
        "9"
    };
    assert(r@ =~= seq![digit_char(d as nat)]);
    r
}

/// The decimal text of a natural number (see [`digits_of`]).
pub fn digits_text(n: u64) -> (r: String)
    ensures
        r@ == digits_of(n as nat),
{
    let mut m: u64 = n / 10;
    let mut acc = String::from_str(digit_text(n % 10));
    while m > 0
        invariant
            digits_of(n as nat) == (if m > 0 {
                digits_of(m as nat)
            } else {
                Seq::<char>::empty()
            }) + acc@,
        decreases m,
    {
        let d = m % 10;
        proof {
            assert(digits_of(m as nat) == (if m / 10 > 0 {
                digits_of((m / 10) as nat)
            } else {
                Seq::<char>::empty()
            }) + seq![digit_char(d as nat)]);
        }
        let next = String::from_str(digit_text(d)).concat(acc.as_str());
        proof {
            assert(digits_of(n as nat) == (if m / 10 > 0 {
                digits_of((m / 10) as nat)
            } else {
                Seq::<char>::empty()
            }) + next@);
        }
        acc = next;
        m = m / 10;
    }
    acc
}

/// The decimal text of an integer, with a leading `-` when it is negative.
pub fn decimal_text(n: i64) -> (r: String)
    ensures
        r@ == decimal_of(n as int),
{
    if n < 0 {
        let magnitude: u64 = if n == i64::MIN {
            9223372036854775808u64
        } else {
            (-n) as u64
        };
        let digits = digits_text(magnitude);
        proof {
            reveal_strlit("-");
        }
        String::from_str("-").concat(digits.as_str())
    } else {
        digits_text(n as u64)
    }
}

} // verus!
