//! Characters, digit runs and tokens: what every group matcher is built from.
//!
//! Text is a sequence of characters and a matcher looks at it from a position
//! onwards. Reading past the end yields the NUL character, which no group
//! contains, so a matcher never has to ask how long the text is.

use vstd::prelude::*;

verus! {

/// The character at `i`, or NUL outside the text.
pub open spec fn char_at(s: Seq<char>, i: int) -> char {
    if 0 <= i < s.len() {
        s[i]
    } else {
        '\0'
    }
}

/// Whether `c` is one of the ten decimal digits.
pub open spec fn is_digit(c: char) -> bool {
    '0' <= c && c <= '9'
}

/// Whether `c` is one of the letters `A` to `Z`.
pub open spec fn is_upper(c: char) -> bool {
    'A' <= c && c <= 'Z'
}

/// Whether `c` has the Unicode property White_Space.
pub open spec fn is_space(c: char) -> bool {
    ||| c == ' '
    ||| ('\u{9}' <= c && c <= '\u{d}')
    ||| c == '\u{85}'
    ||| c == '\u{a0}'
    ||| c == '\u{1680}'
    ||| ('\u{2000}' <= c && c <= '\u{200a}')
    ||| c == '\u{2028}'
    ||| c == '\u{2029}'
    ||| c == '\u{202f}'
    ||| c == '\u{205f}'
    ||| c == '\u{3000}'
}

/// The value of a decimal digit.
pub open spec fn digit_value(c: char) -> int {
    c as int - '0' as int
}

/// How many digits stand in a row from `p` on.
pub open spec fn digit_run(s: Seq<char>, p: int) -> nat
    decreases s.len() - p,
{
    if 0 <= p < s.len() && is_digit(s[p]) {
        1 + digit_run(s, p + 1)
    } else {
        0
    }
}

/// The number that the `n` characters from `p` on spell in base ten.
pub open spec fn decimal(s: Seq<char>, p: int, n: nat) -> int
    decreases n,
{
    if n == 0 {
        0
    } else {
        decimal(s, p, (n - 1) as nat) * 10 + digit_value(char_at(s, p + n - 1))
    }
}

/// Ten to the power `n`.
pub open spec fn pow10(n: nat) -> int
    decreases n,
{
    if n == 0 {
        1
    } else {
        10 * pow10((n - 1) as nat)
    }
}

/// The first position from `p` on that holds `c`, or the length of the text.
pub open spec fn find_char(s: Seq<char>, c: char, p: int) -> int
    decreases s.len() - p,
{
    if 0 <= p < s.len() {
        if s[p] == c {
            p
        } else {
            find_char(s, c, p + 1)
        }
    } else if p < 0 {
        0
    } else {
        s.len() as int
    }
}

/// Whether `s` is exactly the character `a`.
pub open spec fn word1(s: Seq<char>, a: char) -> bool {
    s.len() == 1 && s[0] == a
}

/// Whether `s` is exactly the two characters `a`, `b`.
pub open spec fn word2(s: Seq<char>, a: char, b: char) -> bool {
    s.len() == 2 && s[0] == a && s[1] == b
}

/// Whether `s` is exactly the three characters `a`, `b`, `c`.
pub open spec fn word3(s: Seq<char>, a: char, b: char, c: char) -> bool {
    s.len() == 3 && s[0] == a && s[1] == b && s[2] == c
}

/// Whether `s` is exactly the four characters `a`, `b`, `c`, `d`.
pub open spec fn word4(s: Seq<char>, a: char, b: char, c: char, d: char) -> bool {
    s.len() == 4 && s[0] == a && s[1] == b && s[2] == c && s[3] == d
}

/// Whether `s` is exactly the five characters `a`, `b`, `c`, `d`, `e`.
pub open spec fn word5(s: Seq<char>, a: char, b: char, c: char, d: char, e: char) -> bool {
    s.len() == 5 && s[0] == a && s[1] == b && s[2] == c && s[3] == d && s[4] == e
}

/// Whether the two characters `a`, `b` stand at `p`.
pub open spec fn two_at(s: Seq<char>, p: int, a: char, b: char) -> bool {
    char_at(s, p) == a && char_at(s, p + 1) == b
}

/// Whether the three characters `a`, `b`, `c` stand at `p`.
pub open spec fn three_at(s: Seq<char>, p: int, a: char, b: char, c: char) -> bool {
    char_at(s, p) == a && char_at(s, p + 1) == b && char_at(s, p + 2) == c
}

/// Whether the four characters `a` to `d` stand at `p`.
pub open spec fn four_at(s: Seq<char>, p: int, a: char, b: char, c: char, d: char) -> bool {
    two_at(s, p, a, b) && two_at(s, p + 2, c, d)
}

/// Whether the five characters `a` to `e` stand at `p`.
pub open spec fn five_at(s: Seq<char>, p: int, a: char, b: char, c: char, d: char, e: char) -> bool {
    three_at(s, p, a, b, c) && two_at(s, p + 3, d, e)
}

/// Whether the blank that ends a group stands at `p`. A cleaned report has
/// no white space but single blanks.
pub open spec fn ends_at(s: Seq<char>, p: int) -> bool {
    char_at(s, p) == ' '
}

/// Whether `n` digits stand at `p`, for `n` up to six.
pub open spec fn digits_at(s: Seq<char>, p: int, n: int) -> bool {
    &&& (n >= 1 ==> is_digit(char_at(s, p)))
    &&& (n >= 2 ==> is_digit(char_at(s, p + 1)))
    &&& (n >= 3 ==> is_digit(char_at(s, p + 2)))
    &&& (n >= 4 ==> is_digit(char_at(s, p + 3)))
    &&& (n >= 5 ==> is_digit(char_at(s, p + 4)))
    &&& (n >= 6 ==> is_digit(char_at(s, p + 5)))
}

/// Whether a match, if there is one, takes at least one character from `at`
/// and none past the end of a text of `len` characters.
pub open spec fn advances<T>(r: Option<(T, usize)>, at: usize, len: nat) -> bool {
    match r {
        Some((_, n)) => 0 < n && at + n <= len,
        None => true,
    }
}

/// What a match holds, for a type with a view.
pub open spec fn viewed<T: View>(r: Option<(T, usize)>) -> Option<(T::V, usize)> {
    match r {
        Some((t, n)) => Some((t@, n)),
        None => None,
    }
}

/// The characters of `s`, in order.
pub(crate) fn chars_of(s: &str) -> (v: Vec<char>)
    ensures
        v@ == s@,
{
    let mut v: Vec<char> = Vec::new();
    for c in it: s.chars()
        invariant
            v@ == it.history(),
    {
        v.push(c);
    }
    v
}

/// `String::push` appends one character.
pub assume_specification[ String::push ](s: &mut String, ch: char)
    ensures
        final(s)@ == old(s)@.push(ch),
;

/// The string made of `chars`.
pub(crate) fn string_of(chars: &[char]) -> (s: String)
    ensures
        s@ == chars@,
{
    let mut s = String::new();
    let mut i: usize = 0;
    while i < chars.len()
        invariant
            i <= chars.len(),
            s@ == chars@.subrange(0, i as int),
        decreases chars.len() - i,
    {
        s.push(chars[i]);
        assert(chars@.subrange(0, i as int).push(chars@[i as int]) =~= chars@.subrange(0, i + 1));
        i += 1;
    }
    assert(chars@.subrange(0, chars@.len() as int) =~= chars@);
    s
}

/// The character `k` places after `base`, or NUL past the end.
pub(crate) fn peek(text: &[char], base: usize, k: usize) -> (c: char)
    ensures
        c == char_at(text@, base + k),
        c != '\0' ==> base + k < text.len(),
{
    if k < text.len() && base < text.len() - k {
        text[base + k]
    } else {
        '\0'
    }
}

/// Whether `c` is a decimal digit.
pub(crate) fn digit(c: char) -> (b: bool)
    ensures
        b == is_digit(c),
{
    '0' <= c && c <= '9'
}

/// Whether `c` is a letter `A` to `Z`.
pub(crate) fn upper(c: char) -> (b: bool)
    ensures
        b == is_upper(c),
{
    'A' <= c && c <= 'Z'
}

/// Whether `c` is white space.
pub(crate) fn space(c: char) -> (b: bool)
    ensures
        b == is_space(c),
{
    c == ' ' || ('\u{9}' <= c && c <= '\u{d}') || c == '\u{85}' || c == '\u{a0}' || c
        == '\u{1680}' || ('\u{2000}' <= c && c <= '\u{200a}') || c == '\u{2028}' || c
        == '\u{2029}' || c == '\u{202f}' || c == '\u{205f}' || c == '\u{3000}'
}

/// Whether `token` is exactly the character `a`.
pub(crate) fn is_word1(token: &[char], a: char) -> (r: bool)
    ensures
        r == word1(token@, a),
{
    token.len() == 1 && token[0] == a
}

/// Whether `token` is exactly the two characters `a`, `b`.
pub(crate) fn is_word2(token: &[char], a: char, b: char) -> (r: bool)
    ensures
        r == word2(token@, a, b),
{
    token.len() == 2 && token[0] == a && token[1] == b
}

/// Whether `token` is exactly the three characters `a`, `b`, `c`.
pub(crate) fn is_word3(token: &[char], a: char, b: char, c: char) -> (r: bool)
    ensures
        r == word3(token@, a, b, c),
{
    token.len() == 3 && token[0] == a && token[1] == b && token[2] == c
}

/// Whether `token` is exactly the four characters `a` to `d`.
pub(crate) fn is_word4(token: &[char], a: char, b: char, c: char, d: char) -> (r: bool)
    ensures
        r == word4(token@, a, b, c, d),
{
    token.len() == 4 && token[0] == a && token[1] == b && token[2] == c && token[3] == d
}

/// Whether `token` is exactly the five characters `a` to `e`.
pub(crate) fn is_word5(token: &[char], a: char, b: char, c: char, d: char, e: char) -> (r: bool)
    ensures
        r == word5(token@, a, b, c, d, e),
{
    token.len() == 5 && token[0] == a && token[1] == b && token[2] == c && token[3] == d
        && token[4] == e
}

/// Whether the two characters `a`, `b` stand at `p`.
pub(crate) fn has_two(text: &[char], p: usize, a: char, b: char) -> (r: bool)
    ensures
        r == two_at(text@, p as int, a, b),
        r && b != '\0' ==> p + 2 <= text.len(),
{
    peek(text, p, 0) == a && peek(text, p, 1) == b
}

/// Whether the three characters `a`, `b`, `c` stand at `p`.
pub(crate) fn has_three(text: &[char], p: usize, a: char, b: char, c: char) -> (r: bool)
    ensures
        r == three_at(text@, p as int, a, b, c),
        r && c != '\0' ==> p + 3 <= text.len(),
{
    peek(text, p, 0) == a && peek(text, p, 1) == b && peek(text, p, 2) == c
}

/// Whether the four characters `a` to `d` stand at `p`.
pub(crate) fn has_four(text: &[char], p: usize, a: char, b: char, c: char, d: char) -> (r: bool)
    ensures
        r == four_at(text@, p as int, a, b, c, d),
        r && d != '\0' ==> p + 4 <= text.len(),
{
    peek(text, p, 0) == a && peek(text, p, 1) == b && peek(text, p, 2) == c && peek(text, p, 3)
        == d
}

/// Whether the five characters `a` to `e` stand at `p`.
pub(crate) fn has_five(text: &[char], p: usize, a: char, b: char, c: char, d: char, e: char) -> (r: bool)
    ensures
        r == five_at(text@, p as int, a, b, c, d, e),
        r && e != '\0' ==> p + 5 <= text.len(),
{
    peek(text, p, 0) == a && peek(text, p, 1) == b && peek(text, p, 2) == c && peek(text, p, 3)
        == d && peek(text, p, 4) == e
}

/// Whether `n` digits stand at `p`.
pub(crate) fn has_digits(text: &[char], p: usize, n: usize) -> (r: bool)
    requires
        n <= 6,
    ensures
        r == digits_at(text@, p as int, n as int),
        r && n > 0 ==> p + n <= text.len(),
{
    let mut i: usize = 0;
    while i < n
        invariant
            i <= n <= 6,
            digits_at(text@, p as int, i as int),
            i > 0 ==> p + i <= text.len(),
        decreases n - i,
    {
        if !digit(peek(text, p, i)) {
            return false;
        }
        i += 1;
    }
    true
}

/// Counts the digits that stand in a row from `p` on, giving up at `limit`.
pub(crate) fn count_digits(text: &[char], p: usize, limit: usize) -> (n: usize)
    requires
        p <= text.len(),
    ensures
        n <= limit,
        n < limit ==> n == digit_run(text@, p as int),
        n == limit ==> digit_run(text@, p as int) >= limit,
        p + n <= text.len(),
{
    let mut n: usize = 0;
    while n < limit && n < text.len() - p && digit(text[p + n])
        invariant
            p <= text.len(),
            n <= limit,
            p + n <= text.len(),
            digit_run(text@, p as int) == n + digit_run(text@, p + n),
        decreases limit - n,
    {
        n += 1;
    }
    n
}

/// The first `n` characters of a run of at least `n` digits are digits.
pub proof fn lemma_run_prefix(s: Seq<char>, p: int, n: nat)
    requires
        digit_run(s, p) >= n,
        0 <= p <= s.len(),
    ensures
        p + n <= s.len(),
        forall|i: int| p <= i < p + n ==> is_digit(#[trigger] char_at(s, i)),
    decreases n,
{
    if n > 0 {
        lemma_run_prefix(s, p + 1, (n - 1) as nat);
    }
}

/// Reads the number that the `n` digits at `p` spell.
pub(crate) fn read_decimal(text: &[char], p: usize, n: usize) -> (r: u32)
    requires
        n <= 9,
        n == 0 ==> p <= text.len(),
        digit_run(text@, p as int) >= n,
    ensures
        r == decimal(text@, p as int, n as nat),
        r < pow10(n as nat),
{
    proof {
        if n > 0 {
            reveal_with_fuel(digit_run, 2);
        }
        lemma_run_prefix(text@, p as int, n as nat);
        lemma_pow10_monotonic(0, 9);
    }
    let mut r: u64 = 0;
    let mut i: usize = 0;
    while i < n
        invariant
            i <= n <= 9,
            p + n <= text.len(),
            forall|j: int| p <= j < p + n ==> is_digit(#[trigger] char_at(text@, j)),
            r == decimal(text@, p as int, i as nat),
            0 <= r < pow10(i as nat),
            pow10(i as nat) <= pow10(9),
            pow10(9) == 1_000_000_000,
        decreases n - i,
    {
        let c: char = text[p + i];
        assert(is_digit(char_at(text@, p + i)));
        proof {
            lemma_pow10_monotonic((i + 1) as nat, 9);
        }
        r = r * 10 + ((c as u32) - ('0' as u32)) as u64;
        i += 1;
    }
    r as u32
}

/// Reads the number that `n` digits known to stand at `p` spell.
pub(crate) fn read_digits(text: &[char], p: usize, n: usize) -> (r: u32)
    requires
        1 <= n <= 6,
        digits_at(text@, p as int, n as int),
    ensures
        r == decimal(text@, p as int, n as nat),
        r < pow10(n as nat),
        r < 1_000_000,
{
    proof {
        lemma_digits_run(text@, p as int, n as int);
        lemma_pow10_monotonic(n as nat, 6);
    }
    read_decimal(text, p, n)
}

/// Where `n` digits stand at `p`, the run of digits from `p` is at least
/// `n` long.
pub proof fn lemma_digits_run(s: Seq<char>, p: int, n: int)
    requires
        0 <= p,
        0 <= n <= 6,
        digits_at(s, p, n),
    ensures
        digit_run(s, p) >= n,
        n > 0 ==> p + n <= s.len(),
{
    reveal_with_fuel(digit_run, 7);
}

/// Powers of ten are positive and grow with the exponent.
pub proof fn lemma_pow10_monotonic(a: nat, b: nat)
    requires
        a <= b,
    ensures
        0 < pow10(a) <= pow10(b),
        pow10(9) == 1_000_000_000,
        pow10(6) == 1_000_000,
    decreases b,
{
    reveal_with_fuel(pow10, 10);
    if a < b {
        lemma_pow10_monotonic(a, (b - 1) as nat);
    } else if a > 0 {
        lemma_pow10_monotonic((a - 1) as nat, (b - 1) as nat);
    }
}

/// Finds the first `c` from `p` on; gives the length of the text if there is none.
pub(crate) fn find(text: &[char], c: char, p: usize) -> (r: usize)
    requires
        p <= text.len(),
    ensures
        r == find_char(text@, c, p as int),
        p <= r <= text.len(),
        r < text.len() ==> text@[r as int] == c,
        forall|i: int| p <= i < r ==> text@[i] != c,
{
    let mut r: usize = p;
    while r < text.len() && text[r] != c
        invariant
            p <= r <= text.len(),
            find_char(text@, c, p as int) == find_char(text@, c, r as int),
            forall|i: int| p <= i < r ==> text@[i] != c,
        decreases text.len() - r,
    {
        r += 1;
    }
    r
}

/// A copy of the characters from `from` up to `to`.
pub(crate) fn copy_range(text: &[char], from: usize, to: usize) -> (v: Vec<char>)
    requires
        from <= to <= text.len(),
    ensures
        v@ == text@.subrange(from as int, to as int),
{
    let mut v: Vec<char> = Vec::new();
    let mut i: usize = from;
    while i < to
        invariant
            from <= i <= to <= text.len(),
            v@ == text@.subrange(from as int, i as int),
        decreases to - i,
    {
        v.push(text[i]);
        assert(text@.subrange(from as int, i as int).push(text@[i as int]) =~= text@.subrange(
            from as int,
            i + 1,
        ));
        i += 1;
    }
    v
}

} // verus!
