//! Small text helpers shared by the diagnostics and the matching rules.

use vstd::prelude::*;
use vstd::string::*;
use vstd::utf8::*;

verus! {

/// Two string slices hold the same characters.
pub fn str_eq(a: &str, b: &str) -> (same: bool)
    ensures
        same == (a@ == b@),
{
    let x = a.as_bytes();
    let y = b.as_bytes();
    proof {
        encode_utf8_decode_utf8(a@);
        encode_utf8_decode_utf8(b@);
    }
    if x.len() != y.len() {
        return false;
    }
    let mut i: usize = 0;
    while i < x.len()
        invariant
            x@ == a.spec_bytes(),
            y@ == b.spec_bytes(),
            x@.len() == y@.len(),
            i <= x@.len(),
            forall|k: int| 0 <= k < i ==> x@[k] == y@[k],
            decode_utf8(a.spec_bytes()) == a@,
            decode_utf8(b.spec_bytes()) == b@,
        decreases x@.len() - i,
    {
        if x[i] != y[i] {
            return false;
        }
        i = i + 1;
    }
    assert(x@ =~= y@);
    true
}

/// Two optional strings are both absent or hold the same characters.
pub fn opt_string_eq(a: &Option<String>, b: &Option<String>) -> (same: bool)
    ensures
        same == (opt_chars(*a) == opt_chars(*b)),
{
    match (a, b) {
        (Some(x), Some(y)) => str_eq(x.as_str(), y.as_str()),
        (None, None) => true,
        _ => false,
    }
}

/// The characters of an optional string.
pub open spec fn opt_chars(s: Option<String>) -> Option<Seq<char>> {
    match s {
        Some(x) => Some(x@),
        None => None,
    }
}

/// The characters of an optional string slice.
pub open spec fn opt_str_chars(s: Option<&str>) -> Option<Seq<char>> {
    match s {
        Some(x) => Some(x@),
        None => None,
    }
}

/// The decimal digit character for `d < 10`.
pub open spec fn digit_char(d: nat) -> char {
    if d == 0 { '0' } else if d == 1 { '1' } else if d == 2 { '2' } else if d == 3 { '3' }
    else if d == 4 { '4' } else if d == 5 { '5' } else if d == 6 { '6' } else if d == 7 { '7' }
    else if d == 8 { '8' } else { '9' }
}

/// The decimal spelling of a natural number, without leading zeros.
pub open spec fn decimal_spec(n: nat) -> Seq<char>
    decreases n,
{
    if n < 10 {
        seq![digit_char(n)]
    } else {
        decimal_spec(n / 10).push(digit_char(n % 10))
    }
}

fn digit_str(d: usize) -> (s: &'static str)
    requires
        d < 10,
    ensures
        s@ == seq![digit_char(d as nat)],
{
    proof {
        reveal_strlit("0");
        reveal_strlit("1");
        reveal_strlit("2");
        reveal_strlit("3");
        reveal_strlit("4");
        reveal_strlit("5");
        reveal_strlit("6");
        reveal_strlit("7");
        reveal_strlit("8");
        reveal_strlit("9");
    }
    if d == 0 { "0" } else if d == 1 { "1" } else if d == 2 { "2" } else if d == 3 { "3" }
    else if d == 4 { "4" } else if d == 5 { "5" } else if d == 6 { "6" } else if d == 7 { "7" }
    else if d == 8 { "8" } else { "9" }
}

/// Spells `n` in decimal.
pub fn decimal(n: usize) -> (s: String)
    ensures
        s@ == decimal_spec(n as nat),
    decreases n,
{
    if n < 10 {
        String::from_str(digit_str(n))
    } else {
        let mut s = decimal(n / 10);
        s.append(digit_str(n % 10));
        proof {
            assert(seq![digit_char((n % 10) as nat)] == Seq::<char>::empty().push(digit_char((n % 10) as nat)));
        }
        assert(s@ =~= decimal_spec(n as nat));
        s
    }
}

/// The characters of each string in a list.
pub open spec fn names_view(names: Seq<String>) -> Seq<Seq<char>> {
    names.map_values(|s: String| s@)
}

/// The set of strings in a list.
pub open spec fn name_set(names: Seq<String>) -> Set<Seq<char>> {
    names_view(names).to_set()
}

/// The list holds a string equal to `name`.
pub fn names_contain(names: &Vec<String>, name: &str) -> (found: bool)
    ensures
        found == name_set(names@).contains(name@),
{
    let mut i: usize = 0;
    while i < names.len()
        invariant
            i <= names@.len(),
            forall|k: int| 0 <= k < i ==> names@[k]@ != name@,
        decreases names@.len() - i,
    {
        if str_eq(names[i].as_str(), name) {
            assert(names_view(names@)[i as int] == name@);
            return true;
        }
        i = i + 1;
    }
    assert(!names_view(names@).contains(name@)) by {
        if names_view(names@).contains(name@) {
            let k = choose|k: int| 0 <= k < names_view(names@).len() && names_view(names@)[k] == name@;
            assert(names@[k]@ == name@);
        }
    }
    false
}

/// The uppercase hexadecimal digit for `n < 16`.
pub open spec fn hex_digit(n: nat) -> char {
    if n < 10 { digit_char(n) } else if n == 10 { 'A' } else if n == 11 { 'B' } else if n == 12 { 'C' }
    else if n == 13 { 'D' } else if n == 14 { 'E' } else { 'F' }
}

/// Two uppercase hexadecimal digits for a byte.
pub open spec fn byte_hex(b: u8) -> Seq<char> {
    seq![hex_digit((b / 16) as nat), hex_digit((b % 16) as nat)]
}

/// The first `n` bytes as two-digit hexadecimal, separated by spaces.
pub open spec fn hex_prefix(bytes: Seq<u8>, n: nat) -> Seq<char>
    decreases n,
{
    if n == 0 {
        Seq::empty()
    } else if n == 1 {
        byte_hex(bytes[0])
    } else {
        hex_prefix(bytes, (n - 1) as nat) + " "@ + byte_hex(bytes[n - 1])
    }
}

/// All bytes as two-digit hexadecimal, separated by spaces.
pub open spec fn hex_spec(bytes: Seq<u8>) -> Seq<char> {
    hex_prefix(bytes, bytes.len())
}

fn hex_digit_str(n: u8) -> (s: &'static str)
    requires
        n < 16,
    ensures
        s@ == seq![hex_digit(n as nat)],
{
    proof {
        reveal_strlit("A");
        reveal_strlit("B");
        reveal_strlit("C");
        reveal_strlit("D");
        reveal_strlit("E");
        reveal_strlit("F");
    }
    if n < 10 {
        digit_str(n as usize)
    } else if n == 10 { "A" } else if n == 11 { "B" } else if n == 12 { "C" }
    else if n == 13 { "D" } else if n == 14 { "E" } else { "F" }
}

/// Formats bytes for diagnostics, such as `90 E9 00`.
pub fn hex(bytes: &[u8]) -> (text: String)
    ensures
        text@ == hex_spec(bytes@),
{
    let mut text = String::new();
    let mut i: usize = 0;
    while i < bytes.len()
        invariant
            i <= bytes@.len(),
            text@ == hex_prefix(bytes@, i as nat),
        decreases bytes@.len() - i,
    {
        let ghost before = text@;
        if i > 0 {
            text.append(" ");
        }
        let b = bytes[i];
        text.append(hex_digit_str(b / 16));
        text.append(hex_digit_str(b % 16));
        proof {
            reveal_strlit(" ");
            if i == 0 {
                assert(text@ =~= byte_hex(b));
            } else {
                assert(text@ =~= before + " "@ + byte_hex(b));
            }
        }
        i = i + 1;
    }
    text
}

/// The number of hexadecimal digits of `n`.
pub open spec fn hex_len(n: nat) -> nat
    decreases n,
{
    if n < 16 {
        1
    } else {
        1 + hex_len(n / 16)
    }
}

/// The last `width` uppercase hexadecimal digits of `n`.
pub open spec fn hex_fixed(n: nat, width: nat) -> Seq<char>
    decreases width,
{
    if width == 0 {
        Seq::empty()
    } else {
        hex_fixed(n / 16, (width - 1) as nat).push(hex_digit(n % 16))
    }
}

/// `n` in uppercase hexadecimal, padded with zeros to at least `min_width`
/// digits, as `format!("{n:0min_width$X}")` writes it.
pub open spec fn hex_number_spec(n: nat, min_width: nat) -> Seq<char> {
    hex_fixed(n, if hex_len(n) < min_width { min_width } else { hex_len(n) })
}

pub open spec fn pow16(k: nat) -> nat
    decreases k,
{
    if k == 0 {
        1
    } else {
        16 * pow16((k - 1) as nat)
    }
}

proof fn lemma_hex_len_below(n: nat, k: nat)
    requires
        k >= 1,
        n < pow16(k),
    ensures
        hex_len(n) <= k,
    decreases k,
{
    if n >= 16 {
        reveal_with_fuel(pow16, 2);
        assert(pow16(1) == 16);
        if k == 1 {
            assert(false);
        }
        let j = (k - 1) as nat;
        assert(n < 16 * pow16(j));
        assert(n / 16 < pow16(j)) by (nonlinear_arith)
            requires
                n < 16 * pow16(j),
        ;
        lemma_hex_len_below(n / 16, j);
    }
}

fn append_hex_fixed(text: &mut String, n: u64, width: usize)
    ensures
        final(text)@ == old(text)@ + hex_fixed(n as nat, width as nat),
    decreases width,
{
    if width == 0 {
        assert(old(text)@ + hex_fixed(n as nat, 0) =~= old(text)@);
        return;
    }
    append_hex_fixed(text, n / 16, width - 1);
    let ghost middle = text@;
    text.append(hex_digit_str((n % 16) as u8));
    assert(text@ =~= old(text)@ + hex_fixed(n as nat, width as nat));
}

/// Formats `n` as uppercase hexadecimal with at least `min_width` digits.
pub fn hex_number(n: u64, min_width: usize) -> (text: String)
    ensures
        text@ == hex_number_spec(n as nat, min_width as nat),
{
    proof {
        reveal_with_fuel(pow16, 17);
        assert(pow16(16) == 0x1_0000_0000_0000_0000);
        lemma_hex_len_below(n as nat, 16);
    }
    let mut m: u64 = n;
    let mut len: usize = 1;
    while m >= 16
        invariant
            len + hex_len(m as nat) == hex_len(n as nat) + 1,
            hex_len(n as nat) <= 16,
            len >= 1,
        decreases m,
    {
        m = m / 16;
        len = len + 1;
    }
    let width = if len < min_width { min_width } else { len };
    let mut text = String::new();
    append_hex_fixed(&mut text, n, width);
    assert(text@ =~= hex_number_spec(n as nat, min_width as nat));
    text
}

} // verus!
