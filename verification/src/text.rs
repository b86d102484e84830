//! Character-level helpers: Unicode white space, trimming and decimal
//! rendering of port numbers.

use vstd::prelude::*;

verus! {

/// The Unicode `White_Space` property, as used by `char::is_whitespace`.
pub open spec fn is_space(c: char) -> bool {
    let v = c as u32;
    ||| 0x09 <= v <= 0x0D
    ||| v == 0x20
    ||| v == 0x85
    ||| v == 0xA0
    ||| v == 0x1680
    ||| 0x2000 <= v <= 0x200A
    ||| v == 0x2028
    ||| v == 0x2029
    ||| v == 0x202F
    ||| v == 0x205F
    ||| v == 0x3000
}

/// Number of white-space characters at the front of `s`.
pub open spec fn leading_spaces(s: Seq<char>) -> nat
    decreases s.len(),
{
    if s.len() == 0 || !is_space(s[0]) {
        0
    } else {
        1 + leading_spaces(s.drop_first())
    }
}

/// Number of white-space characters at the back of `s`.
pub open spec fn trailing_spaces(s: Seq<char>) -> nat
    decreases s.len(),
{
    if s.len() == 0 || !is_space(s.last()) {
        0
    } else {
        1 + trailing_spaces(s.drop_last())
    }
}

/// `s` without its leading and trailing white space (what `str::trim` gives).
pub open spec fn trim_seq(s: Seq<char>) -> Seq<char> {
    let a = leading_spaces(s);
    if a == s.len() {
        Seq::empty()
    } else {
        s.subrange(a as int, s.len() - trailing_spaces(s))
    }
}

/// The ASCII digit for `d < 10`.
pub open spec fn digit_char(d: nat) -> char {
    (('0' as u32) + d) as char
}

/// Decimal rendering of `n`, without sign or leading zeros.
pub open spec fn decimal(n: nat) -> Seq<char>
    decreases n,
{
    if n < 10 {
        seq![digit_char(n)]
    } else {
        decimal(n / 10) + seq![digit_char(n % 10)]
    }
}

/// The base-10 value of a string of ASCII digits.
pub open spec fn digits_value(s: Seq<char>) -> int
    decreases s.len(),
{
    if s.len() == 0 {
        0
    } else {
        digits_value(s.drop_last()) * 10 + ((s.last() as u32) - 0x30)
    }
}

/// Law: `decimal(n)` reads back as `n`: it is a non-empty string of ASCII
/// digits `'0'..='9'`, its base-10 value is `n`, and it has no leading zero.
pub proof fn law_decimal_reads_back(n: nat)
    ensures
        decimal(n).len() > 0,
        forall|i: int| 0 <= i < decimal(n).len() ==> 0x30 <= #[trigger] (decimal(n)[i] as u32) <= 0x39,
        digits_value(decimal(n)) == n,
        decimal(n)[0] == '0' ==> n == 0,
    decreases n,
{
    if n < 10 {
        assert(digit_char(n) as u32 == 0x30 + n);
        assert(decimal(n) =~= seq![digit_char(n)]);
        assert(decimal(n).drop_last() =~= Seq::<char>::empty());
        assert(digits_value(decimal(n).drop_last()) == 0);
        assert(digits_value(decimal(n)) == digits_value(decimal(n).drop_last()) * 10 + ((
        decimal(n).last() as u32) - 0x30));
    } else {
        let q = n / 10;
        let r = n % 10;
        law_decimal_reads_back(q);
        assert(digit_char(r) as u32 == 0x30 + r);
        let d = decimal(n);
        assert(d =~= decimal(q) + seq![digit_char(r)]);
        assert(d.drop_last() =~= decimal(q));
        assert(d.last() == digit_char(r));
        assert(d[0] == decimal(q)[0]);
        assert(q * 10 + r == n) by (nonlinear_arith)
            requires
                q == n / 10,
                r == n % 10,
        ;
        assert(digits_value(d) == digits_value(d.drop_last()) * 10 + ((d.last() as u32) - 0x30));
        assert(digits_value(d) == q * 10 + r);
        assert forall|i: int| 0 <= i < d.len() implies 0x30 <= #[trigger] (d[i] as u32) <= 0x39 by {
            if i < decimal(q).len() {
                assert(d[i] == decimal(q)[i]);
            }
        }
    }
}

/// Law: printable ASCII characters other than the space (letters, digits,
/// punctuation) are never white space, and the ASCII white-space characters
/// (space, tab, line feed, vertical tab, form feed, carriage return) are.
pub proof fn law_ascii_white_space(c: char)
    ensures
        0x21 <= (c as u32) <= 0x7E ==> !is_space(c),
        (c == ' ' || c == '\t' || c == '\n' || c == '\x0B' || c == '\x0C' || c == '\r') ==> is_space(c),
        (c as u32) > 0x3000 ==> !is_space(c),
{
}

/// Law: trimming removes only white space: a text that starts and ends with
/// a printable ASCII character other than the space (such as a token made of
/// letters, digits and dashes) comes back unchanged.
pub proof fn law_trim_keeps_visible_ends(s: Seq<char>)
    requires
        s.len() > 0,
        0x21 <= (s[0] as u32) <= 0x7E,
        0x21 <= (s.last() as u32) <= 0x7E,
    ensures
        trim_seq(s) == s,
{
    assert(leading_spaces(s) == 0);
    assert(trailing_spaces(s) == 0);
    assert(s.subrange(0, s.len() as int) =~= s);
}

/// `leading_spaces` is the index of the first character that is not white space.
pub proof fn lemma_leading_spaces(s: Seq<char>, i: int)
    requires
        0 <= i <= s.len(),
        forall|k: int| 0 <= k < i ==> is_space(#[trigger] s[k]),
        i == s.len() || !is_space(s[i]),
    ensures
        leading_spaces(s) == i,
    decreases i,
{
    if i > 0 {
        let t = s.drop_first();
        assert forall|k: int| 0 <= k < i - 1 implies is_space(#[trigger] t[k]) by {
            assert(t[k] == s[k + 1]);
        }
        if i - 1 < t.len() {
            assert(t[i - 1] == s[i]);
        }
        lemma_leading_spaces(t, i - 1);
    }
}

/// `trailing_spaces` counts the white space after the last other character.
pub proof fn lemma_trailing_spaces(s: Seq<char>, j: int)
    requires
        0 <= j <= s.len(),
        forall|k: int| j <= k < s.len() ==> is_space(#[trigger] s[k]),
        j == 0 || !is_space(s[j - 1]),
    ensures
        trailing_spaces(s) == s.len() - j,
    decreases s.len() - j,
{
    if j < s.len() {
        let t = s.drop_last();
        assert forall|k: int| j <= k < t.len() implies is_space(#[trigger] t[k]) by {
            assert(t[k] == s[k]);
        }
        if j > 0 {
            assert(t[j - 1] == s[j - 1]);
        }
        lemma_trailing_spaces(t, j);
    }
}

/// The characters counted by `leading_spaces` are white space, and the one after them is not.
pub proof fn lemma_leading_bounds(s: Seq<char>)
    ensures
        leading_spaces(s) <= s.len(),
        forall|k: int| 0 <= k < leading_spaces(s) ==> is_space(#[trigger] s[k]),
        leading_spaces(s) < s.len() ==> !is_space(s[leading_spaces(s) as int]),
    decreases s.len(),
{
    if s.len() > 0 && is_space(s[0]) {
        let t = s.drop_first();
        lemma_leading_bounds(t);
        assert forall|k: int| 0 <= k < leading_spaces(s) implies is_space(#[trigger] s[k]) by {
            if k > 0 {
                assert(s[k] == t[k - 1]);
            }
        }
        if leading_spaces(s) < s.len() {
            assert(s[leading_spaces(s) as int] == t[leading_spaces(t) as int]);
        }
    }
}

/// The characters counted by `trailing_spaces` are white space, and the one before them is not.
pub proof fn lemma_trailing_bounds(s: Seq<char>)
    ensures
        trailing_spaces(s) <= s.len(),
        forall|k: int| s.len() - trailing_spaces(s) <= k < s.len() ==> is_space(#[trigger] s[k]),
        trailing_spaces(s) < s.len() ==> !is_space(s[s.len() - 1 - trailing_spaces(s)]),
    decreases s.len(),
{
    if s.len() > 0 && is_space(s.last()) {
        let t = s.drop_last();
        lemma_trailing_bounds(t);
        assert forall|k: int| s.len() - trailing_spaces(s) <= k < s.len() implies is_space(
            #[trigger] s[k],
        ) by {
            if k < s.len() - 1 {
                assert(s[k] == t[k]);
            }
        }
        if trailing_spaces(s) < s.len() {
            assert(s[s.len() - 1 - trailing_spaces(s)] == t[t.len() - 1 - trailing_spaces(t)]);
        }
    }
}

/// Trimming twice gives what trimming once gives.
pub proof fn lemma_trim_idempotent(s: Seq<char>)
    ensures
        trim_seq(trim_seq(s)) == trim_seq(s),
{
    lemma_leading_bounds(s);
    lemma_trailing_bounds(s);
    let a = leading_spaces(s) as int;
    let b = trailing_spaces(s) as int;
    if a < s.len() {
        assert(a < s.len() - b) by {
            if a >= s.len() - b {
                assert(is_space(s[a]));
            }
        }
        let t = trim_seq(s);
        assert(t[0] == s[a]);
        assert(t.last() == s[s.len() - 1 - b]);
        assert(leading_spaces(t) == 0);
        assert(trailing_spaces(t) == 0);
        assert(t.subrange(0, t.len() as int) =~= t);
    }
}

/// Whether `c` is white space in the sense of `char::is_whitespace`.
pub fn char_is_space(c: char) -> (r: bool)
    ensures
        r == is_space(c),
{
    let v = c as u32;
    (0x09 <= v && v <= 0x0D) || v == 0x20 || v == 0x85 || v == 0xA0 || v == 0x1680 || (0x2000
        <= v && v <= 0x200A) || v == 0x2028 || v == 0x2029 || v == 0x202F || v == 0x205F || v
        == 0x3000
}

/// Removes leading and trailing white space, as `str::trim` does.
pub fn trim_text(s: &str) -> (r: String)
    ensures
        r@ == trim_seq(s@),
{
    let n = s.unicode_len();
    let mut i: usize = 0;
    while i < n && char_is_space(s.get_char(i))
        invariant
            n == s@.len(),
            i <= n,
            forall|k: int| 0 <= k < i ==> is_space(#[trigger] s@[k]),
        decreases n - i,
    {
        i = i + 1;
    }
    proof {
        lemma_leading_spaces(s@, i as int);
    }
    if i == n {
        return String::new();
    }
    let mut j: usize = n;
    while j > i && char_is_space(s.get_char(j - 1))
        invariant
            n == s@.len(),
            i < n,
            i <= j <= n,
            !is_space(s@[i as int]),
            forall|k: int| j <= k < n ==> is_space(#[trigger] s@[k]),
        decreases j,
    {
        j = j - 1;
    }
    proof {
        lemma_trailing_spaces(s@, j as int);
    }
    s.substring_char(i, j).to_owned()
}

/// Appends the decimal rendering of `n` to `out`.
pub fn push_decimal(out: &mut String, n: u16)
    ensures
        final(out)@ == old(out)@ + decimal(n as nat),
    decreases n,
{
    if n >= 10 {
        push_decimal(out, n / 10);
    }
    let d: usize = (n % 10) as usize;
    let digits = "0123456789";
    proof {
        reveal_strlit("0123456789");
    }
    let one = digits.substring_char(d, d + 1);
    assert(one@ =~= seq![digit_char(d as nat)]);
    out.append(one);
    assert(out@ =~= old(out)@ + decimal(n as nat));
}

} // verus!
