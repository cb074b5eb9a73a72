//! Properties of the integer parser that key codes go through: numbers written in
//! a base read back as themselves, signs and leading zeros act as in ordinary
//! notation, and a character that is not a digit of the base spoils the number.

use vstd::prelude::*;
use crate::keys::{key_for_name, InputKey};
use crate::laws_names::lemma_named_keys_start_with_a_letter;
use crate::text::{digit_value, digits_value, parse_i32};

verus! {

/// The character of digit `d` (below 36): `0`-`9`, then letters from `a` (or `A`
/// when `upper`) for 10 to 35.
pub open spec fn digit_char(d: nat, upper: bool) -> char {
    if d < 10 {
        (d + 48) as char
    } else if upper {
        (d - 10 + 65) as char
    } else {
        (d - 10 + 97) as char
    }
}

/// `n` written in base `radix`, most significant digit first, without leading zeros.
pub open spec fn digits_text(n: nat, radix: nat, upper: bool) -> Seq<char>
    decreases n,
{
    if radix < 2 {
        Seq::empty()
    } else if n < radix {
        seq![digit_char(n, upper)]
    } else {
        proof {
            vstd::arithmetic::div_mod::lemma_div_decreases(n as int, radix as int);
        }
        digits_text(n / radix, radix, upper).push(digit_char(n % radix, upper))
    }
}

/// `x` written in base `radix`, with a `-` in front when it is negative.
pub open spec fn signed_text(x: i32, radix: nat, upper: bool) -> Seq<char> {
    if x < 0 {
        seq!['-'] + digits_text((-x) as nat, radix, upper)
    } else {
        digits_text(x as nat, radix, upper)
    }
}

proof fn lemma_digit_char(d: nat, radix: nat, upper: bool)
    requires
        d < radix <= 36,
    ensures
        digit_value(digit_char(d, upper), radix) == Some(d),
        digit_char(d, upper) != '+' && digit_char(d, upper) != '-',
{
}

proof fn lemma_digits_text(n: nat, radix: nat, upper: bool)
    requires
        2 <= radix <= 36,
    ensures
        digits_value(digits_text(n, radix, upper), radix) == Some(n as int),
        digits_text(n, radix, upper).len() > 0,
        digits_text(n, radix, upper)[0] != '+' && digits_text(n, radix, upper)[0] != '-',
    decreases n,
{
    if n < radix {
        lemma_digit_char(n, radix, upper);
        let t = digits_text(n, radix, upper);
        assert(t.drop_last() =~= Seq::<char>::empty());
        assert(t.last() == digit_char(n, upper));
        assert(0 * radix == 0) by (nonlinear_arith);
        assert(digits_value(Seq::<char>::empty(), radix) == Some(0int));
        assert(digits_value(t, radix) == Some(n as int));
    } else {
        vstd::arithmetic::div_mod::lemma_div_decreases(n as int, radix as int);
        vstd::arithmetic::div_mod::lemma_fundamental_div_mod(n as int, radix as int);
        vstd::arithmetic::div_mod::lemma_mod_pos_bound(n as int, radix as int);
        let q = n / radix;
        let r = n % radix;
        lemma_digits_text(q, radix, upper);
        lemma_digit_char(r, radix, upper);
        let t = digits_text(n, radix, upper);
        assert(t.drop_last() =~= digits_text(q, radix, upper));
        assert(t.last() == digit_char(r, upper));
        assert(q * radix + r == n) by (nonlinear_arith)
            requires
                n == radix * q + r,
        ;
        assert(digits_value(t.drop_last(), radix) == Some(q as int));
        assert(digits_value(t, radix) == Some(n as int));
    }
}

/// A number written in a base reads back as itself.
pub proof fn law_digits_read_back(n: nat, radix: nat, upper: bool)
    requires
        2 <= radix <= 36,
    ensures
        digits_value(digits_text(n, radix, upper), radix) == Some(n as int),
{
    lemma_digits_text(n, radix, upper);
}

/// Every `i32`, written in a base with a `-` when negative, parses back as itself,
/// in either letter case.
pub proof fn law_parse_reads_back_written_numbers(x: i32, radix: nat, upper: bool)
    requires
        2 <= radix <= 36,
    ensures
        parse_i32(signed_text(x, radix, upper), radix) == Some(x),
{
    if x < 0 {
        let n = (-x) as nat;
        lemma_digits_text(n, radix, upper);
        let s = signed_text(x, radix, upper);
        assert(s.skip(1) =~= digits_text(n, radix, upper));
    } else {
        lemma_digits_text(x as nat, radix, upper);
    }
}

/// Leading zeros do not change the value of a digit string.
pub proof fn law_leading_zero(s: Seq<char>, radix: nat)
    requires
        2 <= radix <= 36,
    ensures
        digits_value(seq!['0'] + s, radix) == digits_value(s, radix),
    decreases s.len(),
{
    let z = seq!['0'] + s;
    if s.len() == 0 {
        assert(z.drop_last() =~= Seq::<char>::empty());
        assert(s =~= Seq::<char>::empty());
        assert(z.last() == '0');
        assert(0 * radix == 0) by (nonlinear_arith);
    } else {
        assert(z.drop_last() =~= seq!['0'] + s.drop_last());
        assert(z.last() == s.last());
        law_leading_zero(s.drop_last(), radix);
        assert(digits_value(z.drop_last(), radix) == digits_value(s.drop_last(), radix));
    }
}

/// A character that is not a digit of the base, anywhere in a digit string, makes
/// it no number.
pub proof fn law_non_digit_spoils_the_number(s: Seq<char>, radix: nat, i: int)
    requires
        0 <= i < s.len(),
        digit_value(s[i], radix) is None,
    ensures
        digits_value(s, radix) is None,
    decreases s.len(),
{
    if i < s.len() - 1 {
        assert(s.drop_last()[i] == s[i]);
        law_non_digit_spoils_the_number(s.drop_last(), radix, i);
    }
}

proof fn lemma_digits_nonneg(s: Seq<char>, radix: nat)
    ensures
        digits_value(s, radix) matches Some(v) ==> v >= 0,
    decreases s.len(),
{
    if s.len() > 0 {
        lemma_digits_nonneg(s.drop_last(), radix);
        if let Some(v) = digits_value(s.drop_last(), radix) {
            assert(v * radix >= 0) by (nonlinear_arith)
                requires
                    v >= 0,
            ;
        }
    }
}

/// A `+` in front of digits changes nothing, and a `-` in front negates their
/// value, down to `i32::MIN`.
pub proof fn law_signs(d: Seq<char>, radix: nat, v: int)
    requires
        d.len() > 0,
        d[0] != '+' && d[0] != '-',
        digits_value(d, radix) == Some(v),
    ensures
        parse_i32(seq!['+'] + d, radix) == parse_i32(d, radix),
        v <= 0x8000_0000 ==> parse_i32(seq!['-'] + d, radix) == Some((-v) as i32),
        v > 0x8000_0000 ==> parse_i32(seq!['-'] + d, radix) is None,
{
    lemma_digits_nonneg(d, radix);
    assert((seq!['+'] + d).skip(1) =~= d);
    assert((seq!['-'] + d).skip(1) =~= d);
}

/// A character is a digit of a base exactly when it is the character, in either
/// letter case, of a number below the base, and its value is that number.
pub proof fn law_digit_values(c: char, radix: nat, d: nat)
    requires
        radix <= 36,
    ensures
        (digit_value(c, radix) == Some(d)) == (d < radix && (c == digit_char(d, false) || c == digit_char(d, true))),
{
    if d < radix {
        lemma_digit_char(d, radix, false);
        lemma_digit_char(d, radix, true);
    }
}

/// Digits without a sign parse to their value when it fits an `i32`, and to
/// nothing when it does not.
pub proof fn law_unsigned_range(d: Seq<char>, radix: nat, v: int)
    requires
        d.len() > 0,
        d[0] != '+' && d[0] != '-',
        digits_value(d, radix) == Some(v),
    ensures
        parse_i32(d, radix) == (if v <= 0x7fff_ffff { Some(v as i32) } else { None }),
{
    lemma_digits_nonneg(d, radix);
}

proof fn lemma_digits_text_chars(n: nat, radix: nat, upper: bool)
    requires
        2 <= radix <= 36,
    ensures
        forall|i: int|
            0 <= i < digits_text(n, radix, upper).len() ==> exists|k: nat|
                k < radix && #[trigger] digits_text(n, radix, upper)[i] == digit_char(k, upper),
    decreases n,
{
    let t = digits_text(n, radix, upper);
    if n < radix {
        assert forall|i: int| 0 <= i < t.len() implies exists|k: nat|
            k < radix && #[trigger] t[i] == digit_char(k, upper) by {
            assert(t[i] == digit_char(n, upper));
        }
    } else {
        vstd::arithmetic::div_mod::lemma_div_decreases(n as int, radix as int);
        vstd::arithmetic::div_mod::lemma_mod_pos_bound(n as int, radix as int);
        let q = n / radix;
        lemma_digits_text_chars(q, radix, upper);
        let h = digits_text(q, radix, upper);
        assert forall|i: int| 0 <= i < t.len() implies exists|k: nat|
            k < radix && #[trigger] t[i] == digit_char(k, upper) by {
            if i < h.len() {
                assert(t[i] == h[i]);
            } else {
                assert(t[i] == digit_char(n % radix, upper));
            }
        }
    }
}

/// A hexadecimal key code after `0x`, in either letter case, names the keyboard
/// key with that code, for every `i32`.
pub proof fn law_hex_key_codes(x: i32, upper: bool)
    ensures
        key_for_name(seq!['0', 'x'] + signed_text(x, 16, upper)) == Some(InputKey::Keyboard(x)),
{
    let t = signed_text(x, 16, upper);
    let n = seq!['0', 'x'] + t;
    law_parse_reads_back_written_numbers(x, 16, upper);
    lemma_digits_text(if x < 0 { (-x) as nat } else { x as nat }, 16, upper);
    lemma_named_keys_start_with_a_letter(n);
    assert(n[0] == '0' && n[1] == 'x');
    assert(n.skip(2) =~= t);
}

/// A decimal key code of two or more characters (ten and above, or negative)
/// names the keyboard key with that code, for every `i32`; single digits name the
/// digit keys instead.
pub proof fn law_decimal_key_codes(x: i32)
    requires
        x >= 10 || x < 0,
    ensures
        key_for_name(signed_text(x, 10, false)) == Some(InputKey::Keyboard(x)),
{
    let n = signed_text(x, 10, false);
    law_parse_reads_back_written_numbers(x, 10, false);
    let m: nat = if x < 0 { (-x) as nat } else { x as nat };
    lemma_digits_text(m, 10, false);
    lemma_digits_text_chars(m, 10, false);
    lemma_named_keys_start_with_a_letter(n);
    let t = digits_text(m, 10, false);
    if x >= 10 {
        vstd::arithmetic::div_mod::lemma_div_pos_is_pos(m as int, 10);
        assert(t =~= digits_text(m / 10, 10, false).push(digit_char(m % 10, false)));
        lemma_digits_text(m / 10, 10, false);
        assert(t.len() >= 2);
        let k = choose|k: nat| k < 10 && #[trigger] t[1] == digit_char(k, false);
        assert(n[1] != 'x');
        let k0 = choose|k: nat| k < 10 && #[trigger] t[0] == digit_char(k, false);
        assert(!('a' <= n[0] && n[0] <= 'z'));
    } else {
        assert(n[0] == '-');
    }
}

} // verus!
