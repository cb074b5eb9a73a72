//! String handling for key names: whitespace trimming, lowercasing, splitting
//! on a separator and integer parsing in the manner of `i32::from_str_radix`.

use vstd::prelude::*;
use vstd::string::*;

verus! {

/// Whether `c` has the Unicode `White_Space` property (PropList.txt): U+0009 to
/// U+000D, U+0020, U+0085, U+00A0, U+1680, U+2000 to U+200A, U+2028, U+2029,
/// U+202F, U+205F and U+3000.
pub open spec fn white_space(c: char) -> bool {
    ||| ('\u{9}' <= c && c <= '\u{D}')
    ||| c == ' '
    ||| c == '\u{85}'
    ||| c == '\u{A0}'
    ||| c == '\u{1680}'
    ||| ('\u{2000}' <= c && c <= '\u{200A}')
    ||| c == '\u{2028}'
    ||| c == '\u{2029}'
    ||| c == '\u{202F}'
    ||| c == '\u{205F}'
    ||| c == '\u{3000}'
}

/// Calls `char::is_whitespace`, which its documentation defines as the Unicode
/// `White_Space` property of `c`.
#[verifier::external_body]
fn is_white_space(c: char) -> (b: bool)
    ensures
        b == white_space(c),
{
    c.is_whitespace()
}

/// Every character of `s` is ASCII.
pub open spec fn is_ascii_text(s: Seq<char>) -> bool {
    forall|i: int| 0 <= i < s.len() ==> (#[trigger] s[i] as int) < 128
}

/// The ASCII lowercase of `c`: `A`-`Z` become `a`-`z`, every other character stays.
pub open spec fn ascii_lower(c: char) -> char {
    if 'A' <= c && c <= 'Z' {
        ((c as int) + 32) as char
    } else {
        c
    }
}

/// `s` with each character ASCII-lowercased.
pub open spec fn ascii_lowercase_text(s: Seq<char>) -> Seq<char> {
    s.map_values(|c: char| ascii_lower(c))
}

/// The lowercase mapping of a string that is not all ASCII, as `str::to_lowercase`
/// computes it.
pub uninterp spec fn unicode_lowercase(s: Seq<char>) -> Seq<char>;

/// The lowercase mapping of a string, as `str::to_lowercase` computes it: on ASCII
/// text each character is lowercased in place; otherwise it is the Unicode mapping.
pub open spec fn lowercase(s: Seq<char>) -> Seq<char> {
    if is_ascii_text(s) {
        ascii_lowercase_text(s)
    } else {
        unicode_lowercase(s)
    }
}

/// Calls `str::to_lowercase`. On ASCII text the result is the text with `A`-`Z`
/// lowercased. Otherwise its documentation defines the result by the Unicode
/// `Lowercase` property, with context rules (final sigma) and multi-character
/// expansions; that mapping is not restated here, the result is the name
/// `unicode_lowercase(s@)`.
#[verifier::external_body]
pub(crate) fn to_lowercase(s: &str) -> (r: String)
    ensures
        is_ascii_text(s@) ==> r@ == ascii_lowercase_text(s@),
        !is_ascii_text(s@) ==> r@ == unicode_lowercase(s@),
{
    s.to_lowercase()
}

/// The characters of `s`, one by one.
pub fn chars_of(s: &str) -> (v: Vec<char>)
    ensures
        v@ == s@,
{
    let n = s.unicode_len();
    let mut v: Vec<char> = Vec::new();
    let mut i: usize = 0;
    while i < n
        invariant
            n == s@.len(),
            i <= n,
            v@ == s@.subrange(0, i as int),
        decreases n - i,
    {
        v.push(s.get_char(i));
        i = i + 1;
    }
    assert(v@ =~= s@);
    v
}

/// Whether the characters `v` spell `lit` exactly.
pub fn chars_eq(v: &Vec<char>, lit: &str) -> (b: bool)
    ensures
        b == (v@ == lit@),
{
    let w = chars_of(lit);
    if v.len() != w.len() {
        return false;
    }
    let n = v.len();
    let mut i: usize = 0;
    while i < n
        invariant
            n == v@.len(),
            n == w@.len(),
            w@ == lit@,
            i <= n,
            forall|j: int| 0 <= j < i ==> v@[j] == w@[j],
        decreases n - i,
    {
        if v[i] != w[i] {
            return false;
        }
        i = i + 1;
    }
    assert(v@ =~= w@);
    true
}

/// `s` without its leading white space.
pub open spec fn trim_start(s: Seq<char>) -> Seq<char>
    decreases s.len(),
{
    if s.len() > 0 && white_space(s[0]) {
        trim_start(s.subrange(1, s.len() as int))
    } else {
        s
    }
}

/// `s` without its trailing white space.
pub open spec fn trim_end(s: Seq<char>) -> Seq<char>
    decreases s.len(),
{
    if s.len() > 0 && white_space(s.last()) {
        trim_end(s.drop_last())
    } else {
        s
    }
}

/// `s` without leading and trailing white space, as `str::trim` leaves it.
pub open spec fn trimmed(s: Seq<char>) -> Seq<char> {
    trim_end(trim_start(s))
}

/// Removes leading and trailing white space (the Unicode `White_Space` property),
/// as `str::trim` does.
pub fn trim(s: &str) -> (r: &str)
    ensures
        r@ == trimmed(s@),
{
    let v = chars_of(s);
    let n = v.len();
    let mut i: usize = 0;
    assert(s@.subrange(0, n as int) =~= s@);
    while i < n
        invariant
            n == s@.len(),
            v@ == s@,
            i <= n,
            trim_start(s@) == trim_start(s@.subrange(i as int, n as int)),
        ensures
            i == n || !white_space(s@[i as int]),
        decreases n - i,
    {
        if !is_white_space(v[i]) {
            break;
        }
        assert(s@.subrange(i as int, n as int).subrange(1, n - i) =~= s@.subrange(i + 1, n as int));
        i = i + 1;
    }
    assert(trim_start(s@.subrange(i as int, n as int)) == s@.subrange(i as int, n as int));
    let mut j: usize = n;
    while j > i
        invariant
            n == s@.len(),
            v@ == s@,
            i <= j <= n,
            trim_start(s@) == s@.subrange(i as int, n as int),
            trim_end(s@.subrange(i as int, n as int)) == trim_end(s@.subrange(i as int, j as int)),
        ensures
            j == i || !white_space(s@[j - 1]),
        decreases j,
    {
        if !is_white_space(v[j - 1]) {
            break;
        }
        assert(s@.subrange(i as int, j as int).drop_last() =~= s@.subrange(i as int, j - 1));
        j = j - 1;
    }
    s.substring_char(i, j)
}

/// The value of the digit `c` in base `radix`: `0`-`9`, then `a`-`z` or `A`-`Z`
/// for 10 to 35, and no value when that is not below `radix`.
pub open spec fn digit_value(c: char, radix: nat) -> Option<nat> {
    let d: int = if '0' <= c && c <= '9' {
        c as int - '0' as int
    } else if 'a' <= c && c <= 'z' {
        c as int - 'a' as int + 10
    } else if 'A' <= c && c <= 'Z' {
        c as int - 'A' as int + 10
    } else {
        radix as int
    };
    if 0 <= d < radix {
        Some(d as nat)
    } else {
        None
    }
}

/// The value of the digit string `ds` in base `radix`, most significant digit
/// first; no value when some character is not a digit.
pub open spec fn digits_value(ds: Seq<char>, radix: nat) -> Option<int>
    decreases ds.len(),
{
    if ds.len() == 0 {
        Some(0)
    } else {
        match (digits_value(ds.drop_last(), radix), digit_value(ds.last(), radix)) {
            (Some(v), Some(d)) => Some(v * radix + d),
            _ => None,
        }
    }
}

/// What `i32::from_str_radix(s, radix)` accepts: an optional `+` or `-`, then one
/// or more digits of base `radix`, with a value that fits an `i32`.
pub open spec fn parse_i32(s: Seq<char>, radix: nat) -> Option<i32> {
    let signed = s.len() > 0 && (s[0] == '+' || s[0] == '-');
    let negative = s.len() > 0 && s[0] == '-';
    let ds = if signed { s.skip(1) } else { s };
    if ds.len() == 0 {
        None
    } else {
        match digits_value(ds, radix) {
            Some(v) => {
                let x = if negative { -v } else { v };
                if i32::MIN <= x <= i32::MAX { Some(x as i32) } else { None }
            },
            None => None,
        }
    }
}

/// A digit string whose prefix is not a digit string is not one either.
proof fn lemma_digits_prefix_invalid(s: Seq<char>, k: int, radix: nat)
    requires
        0 <= k <= s.len(),
        digits_value(s.take(k), radix) is None,
    ensures
        digits_value(s, radix) is None,
    decreases s.len(),
{
    if k == s.len() {
        assert(s.take(k) =~= s);
    } else {
        assert(s.drop_last().take(k) =~= s.take(k));
        lemma_digits_prefix_invalid(s.drop_last(), k, radix);
    }
}

/// Appending digits never makes the value of a digit string smaller.
proof fn lemma_digits_monotone(s: Seq<char>, k: int, radix: nat, a: int)
    requires
        0 <= k <= s.len(),
        radix >= 1,
        a >= 0,
        digits_value(s.take(k), radix) == Some(a),
    ensures
        digits_value(s, radix) matches Some(b) ==> a <= b,
    decreases s.len(),
{
    if k == s.len() {
        assert(s.take(k) =~= s);
    } else {
        assert(s.drop_last().take(k) =~= s.take(k));
        lemma_digits_monotone(s.drop_last(), k, radix, a);
        if let Some(b) = digits_value(s, radix) {
            let b0 = digits_value(s.drop_last(), radix)->0;
            let d = digit_value(s.last(), radix)->0;
            assert(b == b0 * radix + d);
            assert(b0 * radix >= b0) by (nonlinear_arith)
                requires
                    b0 >= 0,
                    radix >= 1,
            ;
        }
    }
}

/// The value of the digit `c` in base `radix`, as `char::to_digit` gives it.
fn digit_of(c: char, radix: u32) -> (r: Option<u32>)
    requires
        2 <= radix <= 36,
    ensures
        r matches Some(d) ==> digit_value(c, radix as nat) == Some(d as nat),
        r is None ==> digit_value(c, radix as nat) is None,
{
    let d: u32 = if '0' <= c && c <= '9' {
        c as u32 - '0' as u32
    } else if 'a' <= c && c <= 'z' {
        c as u32 - 'a' as u32 + 10
    } else if 'A' <= c && c <= 'Z' {
        c as u32 - 'A' as u32 + 10
    } else {
        radix
    };
    if d < radix {
        Some(d)
    } else {
        None
    }
}

/// Parses `v[from..]` as `i32::from_str_radix` would parse the same characters.
pub fn parse_i32_from(v: &Vec<char>, from: usize, radix: u32) -> (r: Option<i32>)
    requires
        from <= v@.len(),
        2 <= radix <= 36,
    ensures
        r == parse_i32(v@.skip(from as int), radix as nat),
{
    let ghost s = v@.skip(from as int);
    let n = v.len();
    let mut i = from;
    let mut negative = false;
    if i < n && (v[i] == '+' || v[i] == '-') {
        negative = v[i] == '-';
        i = i + 1;
    }
    let start = i;
    let ghost ds = v@.subrange(start as int, n as int);
    assert(ds =~= (if s.len() > 0 && (s[0] == '+' || s[0] == '-') { s.skip(1) } else { s }));
    if i == n {
        return None;
    }
    let mut acc: i64 = 0;
    assert(v@.subrange(start as int, start as int) =~= Seq::<char>::empty());
    while i < n
        invariant
            n == v@.len(),
            start <= i <= n,
            2 <= radix <= 36,
            ds == v@.subrange(start as int, n as int),
            s == v@.skip(from as int),
            ds == (if s.len() > 0 && (s[0] == '+' || s[0] == '-') { s.skip(1) } else { s }),
            ds.len() > 0,
            negative == (s.len() > 0 && s[0] == '-'),
            0 <= acc <= 0x8000_0000,
            digits_value(v@.subrange(start as int, i as int), radix as nat) == Some(acc as int),
        decreases n - i,
    {
        assert(v@.subrange(start as int, i + 1).drop_last() =~= v@.subrange(start as int, i as int));
        assert(ds.take(i + 1 - start) =~= v@.subrange(start as int, i + 1));
        match digit_of(v[i], radix) {
            None => {
                proof {
                    lemma_digits_prefix_invalid(ds, i + 1 - start, radix as nat);
                }
                return None;
            },
            Some(d) => {
                assert(acc * radix <= 0x8000_0000 * 36) by (nonlinear_arith)
                    requires
                        0 <= acc <= 0x8000_0000,
                        radix <= 36,
                ;
                acc = acc * (radix as i64) + (d as i64);
                if acc > 0x8000_0000 {
                    proof {
                        lemma_digits_monotone(ds, i + 1 - start, radix as nat, acc as int);
                    }
                    return None;
                }
                i = i + 1;
            },
        }
    }
    assert(v@.subrange(start as int, n as int) =~= ds);
    if negative {
        Some((-acc) as i32)
    } else if acc <= 0x7fff_ffff {
        Some(acc as i32)
    } else {
        None
    }
}

} // verus!
