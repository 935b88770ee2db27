//! Text primitives: case folding, trimming and the order of strings.

use vstd::prelude::*;

verus! {

/// The lower-case form of a text, as the standard library computes it.
pub uninterp spec fn lowercase(s: Seq<char>) -> Seq<char>;

/// Whether a character is white space, as the standard library tells it.
pub uninterp spec fn is_white_space(c: char) -> bool;

/// The number of white-space characters at the start of a text.
pub open spec fn leading_white(s: Seq<char>) -> nat
    decreases s.len(),
{
    if s.len() > 0 && is_white_space(s[0]) {
        1 + leading_white(s.drop_first())
    } else {
        0
    }
}

/// The number of white-space characters at the end of a text.
pub open spec fn trailing_white(s: Seq<char>) -> nat
    decreases s.len(),
{
    if s.len() > 0 && is_white_space(s.last()) {
        1 + trailing_white(s.drop_last())
    } else {
        0
    }
}

/// A text without its leading and trailing white space.
pub open spec fn trimmed(s: Seq<char>) -> Seq<char> {
    if leading_white(s) == s.len() {
        Seq::empty()
    } else {
        s.subrange(leading_white(s) as int, s.len() - trailing_white(s))
    }
}

/// Whether a text holds nothing but white space.
pub open spec fn is_blank(s: Seq<char>) -> bool {
    forall|i: int| 0 <= i < s.len() ==> is_white_space(#[trigger] s[i])
}

/// Strict lexicographic order of two texts by the code points of their
/// characters; a proper prefix comes before the longer text.
pub open spec fn text_lt(a: Seq<char>, b: Seq<char>) -> bool
    decreases a.len(),
{
    if b.len() == 0 {
        false
    } else if a.len() == 0 {
        true
    } else if a[0] != b[0] {
        (a[0] as u32) < (b[0] as u32)
    } else {
        text_lt(a.drop_first(), b.drop_first())
    }
}

/// Calls `str::to_lowercase`. The result is named by [`lowercase`]: the
/// conversion depends on the characters of the argument alone.
#[verifier::external_body]
pub(crate) fn fold_case(s: &str) -> (r: String)
    ensures
        r@ == lowercase(s@),
{
    s.to_lowercase()
}

/// Calls `char::is_whitespace`. The result is named by
/// [`is_white_space`]: it depends on the character alone.
#[verifier::external_body]
pub(crate) fn white_space(c: char) -> (r: bool)
    ensures
        r == is_white_space(c),
{
    c.is_whitespace()
}

/// `String::push` appends one character.
pub assume_specification[ String::push ](s: &mut String, ch: char)
    ensures
        final(s)@ == old(s)@.push(ch),
;

/// `String::pop` removes the last character and returns it, or returns
/// nothing for the empty string, which it leaves as it is.
pub assume_specification[ String::pop ](s: &mut String) -> (r: Option<char>)
    ensures
        old(s)@.len() > 0 ==> r == Some(old(s)@.last()) && final(s)@ == old(s)@.drop_last(),
        old(s)@.len() == 0 ==> r is None && final(s)@ == old(s)@,
;

/// No text comes before itself.
pub proof fn lemma_text_lt_irreflexive(a: Seq<char>)
    ensures
        !text_lt(a, a),
    decreases a.len(),
{
    if a.len() > 0 {
        lemma_text_lt_irreflexive(a.drop_first());
    }
}

/// The order of texts is transitive.
pub proof fn lemma_text_lt_transitive(a: Seq<char>, b: Seq<char>, c: Seq<char>)
    requires
        text_lt(a, b),
        text_lt(b, c),
    ensures
        text_lt(a, c),
    decreases a.len(),
{
    if a.len() > 0 && a[0] == b[0] && b[0] == c[0] {
        lemma_text_lt_transitive(a.drop_first(), b.drop_first(), c.drop_first());
    }
}

/// Two texts of which neither comes before the other are the same text.
pub proof fn lemma_text_lt_total(a: Seq<char>, b: Seq<char>)
    requires
        !text_lt(a, b),
        !text_lt(b, a),
    ensures
        a == b,
    decreases a.len(),
{
    if a.len() > 0 && b.len() > 0 {
        assert(a[0] == b[0]) by {
            vstd::utf8::char_u32_cast(a[0], a[0] as u32);
            vstd::utf8::char_u32_cast(b[0], b[0] as u32);
        }
        lemma_text_lt_total(a.drop_first(), b.drop_first());
        assert(a =~= seq![a[0]] + a.drop_first());
        assert(b =~= seq![b[0]] + b.drop_first());
    } else {
        assert(a =~= b);
    }
}

/// The text of an optional string.
pub open spec fn opt_text(o: Option<String>) -> Option<Seq<char>> {
    match o {
        Some(s) => Some(s@),
        None => None,
    }
}

/// The texts of a sequence of strings.
pub open spec fn texts(v: Seq<String>) -> Seq<Seq<char>> {
    v.map_values(|s: String| s@)
}

/// A copy of an optional string.
pub fn copy_opt(o: &Option<String>) -> (r: Option<String>)
    ensures
        opt_text(r) == opt_text(*o),
{
    match o {
        Some(s) => Some(s.clone()),
        None => None,
    }
}

/// The concatenation of two strings.
pub fn join2(a: &str, b: &str) -> (r: String)
    ensures
        r@ == a@ + b@,
{
    let mut r = String::from_str(a);
    r.append(b);
    r
}

/// The character of a decimal digit.
pub open spec fn digit_char(d: nat) -> char {
    if d == 0 {
        '0'
    } else if d == 1 {
        '1'
    } else if d == 2 {
        '2'
    } else if d == 3 {
        '3'
    } else if d == 4 {
        '4'
    } else if d == 5 {
        '5'
    } else if d == 6 {
        '6'
    } else if d == 7 {
        '7'
    } else if d == 8 {
        '8'
    } else {
        '9'
    }
}

/// A number in decimal notation, without leading zeros.
pub open spec fn decimal_text(n: nat) -> Seq<char>
    decreases n,
{
    if n < 10 {
        seq![digit_char(n)]
    } else {
        decimal_text(n / 10).push(digit_char(n % 10))
    }
}

/// The digits of `digits` from the last to the first.
pub open spec fn backwards(digits: Seq<char>) -> Seq<char> {
    Seq::new(digits.len(), |i: int| digits[digits.len() - 1 - i])
}

/// The character of the decimal digit `d`.
fn digit(d: u64) -> (c: char)
    requires
        d < 10,
    ensures
        c == digit_char(d as nat),
{
    if d == 0 {
        '0'
    } else if d == 1 {
        '1'
    } else if d == 2 {
        '2'
    } else if d == 3 {
        '3'
    } else if d == 4 {
        '4'
    } else if d == 5 {
        '5'
    } else if d == 6 {
        '6'
    } else if d == 7 {
        '7'
    } else if d == 8 {
        '8'
    } else {
        '9'
    }
}

/// Writes a number in decimal notation.
pub fn decimal(n: u64) -> (r: String)
    ensures
        r@ == decimal_text(n as nat),
{
    let mut digits: Vec<char> = Vec::new();
    let mut rest: u64 = n;
    digits.push(digit(rest % 10));
    rest = rest / 10;
    assert(backwards(digits@) =~= seq![digit_char((n % 10) as nat)]);
    while rest > 0
        invariant
            digits.len() > 0,
            rest > 0 ==> decimal_text(n as nat) == decimal_text(rest as nat) + backwards(digits@),
            rest == 0 ==> decimal_text(n as nat) == backwards(digits@),
        decreases rest,
    {
        let ghost before = digits@;
        digits.push(digit(rest % 10));
        assert(backwards(digits@) =~= seq![digit_char((rest % 10) as nat)] + backwards(before));
        assert(decimal_text(rest as nat) + backwards(before) =~= if rest >= 10 {
            decimal_text((rest / 10) as nat) + backwards(digits@)
        } else {
            backwards(digits@)
        });
        rest = rest / 10;
    }
    let mut r = String::new();
    let mut i: usize = digits.len();
    while i > 0
        invariant
            i <= digits.len(),
            r@ == backwards(digits@).take(digits.len() - i),
        decreases i,
    {
        i = i - 1;
        let ghost before = r@;
        r.push(digits[i]);
        assert(r@ =~= backwards(digits@).take(digits.len() - i));
    }
    assert(backwards(digits@).take(digits.len() as int) =~= backwards(digits@));
    r
}

/// The white space at the start of a text ends at the first character
/// that is none.
pub proof fn lemma_leading_white(s: Seq<char>, k: nat)
    requires
        k <= s.len(),
        forall|i: int| 0 <= i < k ==> is_white_space(#[trigger] s[i]),
        k < s.len() ==> !is_white_space(s[k as int]),
    ensures
        leading_white(s) == k,
    decreases k,
{
    if k > 0 {
        let rest = s.drop_first();
        assert forall|i: int| 0 <= i < k - 1 implies is_white_space(#[trigger] rest[i]) by {
            assert(rest[i] == s[i + 1]);
        }
        lemma_leading_white(rest, (k - 1) as nat);
    }
}

/// The white space at the end of a text starts after the last character
/// that is none.
pub proof fn lemma_trailing_white(s: Seq<char>, k: nat)
    requires
        k <= s.len(),
        forall|i: int| s.len() - k <= i < s.len() ==> is_white_space(#[trigger] s[i]),
        k < s.len() ==> !is_white_space(s[s.len() - k - 1]),
    ensures
        trailing_white(s) == k,
    decreases k,
{
    if k > 0 {
        let rest = s.drop_last();
        assert forall|i: int| rest.len() - (k - 1) <= i < rest.len() implies is_white_space(
            #[trigger] rest[i],
        ) by {
            assert(rest[i] == s[i]);
        }
        lemma_trailing_white(rest, (k - 1) as nat);
    }
}

/// The characters counted by `leading_white` are white space, and the one
/// after them is none.
pub proof fn lemma_leading_white_counts(s: Seq<char>)
    ensures
        leading_white(s) <= s.len(),
        forall|i: int| 0 <= i < leading_white(s) ==> is_white_space(#[trigger] s[i]),
        leading_white(s) < s.len() ==> !is_white_space(s[leading_white(s) as int]),
    decreases s.len(),
{
    if s.len() > 0 && is_white_space(s[0]) {
        let rest = s.drop_first();
        lemma_leading_white_counts(rest);
        assert forall|i: int| 0 <= i < leading_white(s) implies is_white_space(#[trigger] s[i]) by {
            if i > 0 {
                assert(s[i] == rest[i - 1]);
            }
        }
        if leading_white(s) < s.len() {
            assert(s[leading_white(s) as int] == rest[leading_white(rest) as int]);
        }
    }
}

/// Trimming leaves nothing exactly of the texts that hold nothing but
/// white space.
pub proof fn lemma_trimmed_empty(s: Seq<char>)
    ensures
        trimmed(s).len() == 0 <==> is_blank(s),
{
    lemma_leading_white_counts(s);
    let a = leading_white(s);
    if a < s.len() {
        // the character at `a` is no white space, and it survives
        lemma_trailing_bound(s, a);
        assert(!is_white_space(s[a as int]));
    }
}

/// The white space at the end of a text does not reach back to a
/// character that is none.
pub proof fn lemma_trailing_bound(s: Seq<char>, a: nat)
    requires
        a < s.len(),
        !is_white_space(s[a as int]),
    ensures
        a + trailing_white(s) < s.len(),
    decreases s.len(),
{
    if is_white_space(s.last()) {
        lemma_trailing_bound(s.drop_last(), a);
    }
}

/// Removes the white space at the start and at the end of a text, as
/// `str::trim` does.
pub fn trim_text(s: &str) -> (r: String)
    ensures
        r@ == trimmed(s@),
{
    let n = s.unicode_len();
    let mut start: usize = 0;
    while start < n
        invariant
            start <= n,
            n == s@.len(),
            forall|i: int| 0 <= i < start ==> is_white_space(#[trigger] s@[i]),
        ensures
            start <= n,
            forall|i: int| 0 <= i < start ==> is_white_space(#[trigger] s@[i]),
            start < n ==> !is_white_space(s@[start as int]),
        decreases n - start,
    {
        if !white_space(s.get_char(start)) {
            break;
        }
        start = start + 1;
    }
    proof {
        lemma_leading_white(s@, start as nat);
    }
    if start == n {
        return String::new();
    }
    let mut end: usize = n;
    while end > start + 1
        invariant
            start < end <= n,
            n == s@.len(),
            !is_white_space(s@[start as int]),
            forall|i: int| end <= i < n ==> is_white_space(#[trigger] s@[i]),
        ensures
            start < end <= n,
            forall|i: int| end <= i < n ==> is_white_space(#[trigger] s@[i]),
            !is_white_space(s@[end - 1]),
        decreases end,
    {
        if !white_space(s.get_char(end - 1)) {
            break;
        }
        end = end - 1;
    }
    proof {
        lemma_trailing_white(s@, (n - end) as nat);
    }
    s.substring_char(start, end).to_owned()
}

/// The characters of a string.
pub fn chars_of(s: &str) -> (r: Vec<char>)
    ensures
        r@ == s@,
{
    let n = s.unicode_len();
    let mut r: Vec<char> = Vec::new();
    let mut i: usize = 0;
    while i < n
        invariant
            i <= n,
            n == s@.len(),
            r@ == s@.take(i as int),
        decreases n - i,
    {
        r.push(s.get_char(i));
        assert(r@ =~= s@.take(i + 1));
        i = i + 1;
    }
    assert(s@.take(n as int) =~= s@);
    r
}

/// Whether the text `a` comes before the text `b`, as `<` orders strings:
/// lexicographically by code point.
pub fn chars_before(a: &Vec<char>, b: &Vec<char>) -> (r: bool)
    ensures
        r == text_lt(a@, b@),
{
    let mut i: usize = 0;
    assert(a@.skip(0) =~= a@ && b@.skip(0) =~= b@);
    while i < a.len() && i < b.len()
        invariant
            i <= a.len(),
            i <= b.len(),
            text_lt(a@, b@) == text_lt(a@.skip(i as int), b@.skip(i as int)),
        decreases a.len() - i,
    {
        let x = a[i];
        let y = b[i];
        assert(a@.skip(i as int)[0] == x && b@.skip(i as int)[0] == y);
        if x != y {
            return (x as u32) < (y as u32);
        }
        assert(a@.skip(i as int).drop_first() =~= a@.skip(i + 1));
        assert(b@.skip(i as int).drop_first() =~= b@.skip(i + 1));
        i = i + 1;
    }
    i < b.len()
}

/// Whether the string `a` comes before the string `b`, as `<` orders
/// strings.
pub fn text_before(a: &str, b: &str) -> (r: bool)
    ensures
        r == text_lt(a@, b@),
{
    chars_before(&chars_of(a), &chars_of(b))
}

} // verus!
