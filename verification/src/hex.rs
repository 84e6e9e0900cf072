//! Hex wire encodings.
//!
//! The node's API speaks in `0x`-prefixed lowercase hex strings of two
//! shapes: full-width strings with two digits per byte (addresses,
//! hashes, storage keys, bytecode), and minimal quantity strings with
//! leading zero digits removed (block numbers, nonces, fees). Both
//! directions — emitting and parsing — are defined here.

use vstd::prelude::*;

verus! {

/// The lowercase hex digit for a nibble.
pub open spec fn hex_char_of(n: u8) -> char {
    if n == 0 {
        '0'
    } else if n == 1 {
        '1'
    } else if n == 2 {
        '2'
    } else if n == 3 {
        '3'
    } else if n == 4 {
        '4'
    } else if n == 5 {
        '5'
    } else if n == 6 {
        '6'
    } else if n == 7 {
        '7'
    } else if n == 8 {
        '8'
    } else if n == 9 {
        '9'
    } else if n == 10 {
        'a'
    } else if n == 11 {
        'b'
    } else if n == 12 {
        'c'
    } else if n == 13 {
        'd'
    } else if n == 14 {
        'e'
    } else {
        'f'
    }
}

/// Whether a character is one of the sixteen lowercase hex digits.
pub open spec fn is_lower_hex_digit(c: char) -> bool {
    c == '0' || c == '1' || c == '2' || c == '3' || c == '4' || c == '5' || c == '6' || c == '7'
        || c == '8' || c == '9' || c == 'a' || c == 'b' || c == 'c' || c == 'd' || c == 'e' || c
        == 'f'
}

/// Two lowercase digits per byte, in order: the full-width hex body.
pub open spec fn bytes_hex(s: Seq<u8>) -> Seq<char>
    decreases s.len(),
{
    if s.len() == 0 {
        Seq::<char>::empty()
    } else {
        bytes_hex(s.drop_last()) + seq![
            hex_char_of(s.last() / 16),
            hex_char_of(s.last() % 16),
        ]
    }
}

/// The string body behind a `0x` prefix.
pub open spec fn with_0x(body: Seq<char>) -> Seq<char> {
    seq!['0', 'x'] + body
}

pub broadcast proof fn lemma_bytes_hex_len(s: Seq<u8>)
    ensures
        #[trigger] bytes_hex(s).len() == 2 * s.len(),
    decreases s.len(),
{
    if s.len() > 0 {
        lemma_bytes_hex_len(s.drop_last());
    }
}

pub broadcast proof fn lemma_bytes_hex_digits(s: Seq<u8>, i: int)
    requires
        0 <= i < bytes_hex(s).len(),
    ensures
        is_lower_hex_digit(#[trigger] bytes_hex(s)[i]),
    decreases s.len(),
{
    lemma_bytes_hex_len(s);
    if s.len() > 0 {
        lemma_bytes_hex_len(s.drop_last());
        if i < 2 * (s.len() - 1) {
            lemma_bytes_hex_digits(s.drop_last(), i);
        }
    }
}

/// One lowercase hex digit as a string slice.
fn hex_digit_str(n: u8) -> (s: &'static str)
    requires
        n < 16,
    ensures
        s@.len() == 1,
        s@[0] == hex_char_of(n),
{
    proof {
        reveal_strlit("0");
        reveal_strlit("1");
        reveal_strlit("2");
        reveal_strlit("3");
        reveal_strlit("4");
        reveal_strlit("5");
        reveal_strlit("6");
        reveal_strlit("7");
        reveal_strlit("8");
        reveal_strlit("9");
        reveal_strlit("a");
        reveal_strlit("b");
        reveal_strlit("c");
        reveal_strlit("d");
        reveal_strlit("e");
        reveal_strlit("f");
    }
    match n {
        0 => "0",
        1 => "1",
        2 => "2",
        3 => "3",
        4 => "4",
        5 => "5",
        6 => "6",
        7 => "7",
        8 => "8",
        9 => "9",
        10 => "a",
        11 => "b",
        12 => "c",
        13 => "d",
        14 => "e",
        _ => "f",
    }
}

/// `0x` followed by two lowercase digits for each byte, in order.
pub fn encode_hex_prefixed(bytes: &[u8]) -> (r: String)
    ensures
        r@ == with_0x(bytes_hex(bytes@)),
{
    let mut out = String::from_str("0x");
    proof {
        reveal_strlit("0x");
        assert(out@ =~= seq!['0', 'x'] + bytes_hex(bytes@.subrange(0, 0)));
    }
    let mut i: usize = 0;
    while i < bytes.len()
        invariant
            i <= bytes@.len(),
            out@ == seq!['0', 'x'] + bytes_hex(bytes@.subrange(0, i as int)),
        decreases bytes@.len() - i,
    {
        let b = bytes[i];
        let hi = hex_digit_str(b / 16);
        out.append(hi);
        let lo = hex_digit_str(b % 16);
        out.append(lo);
        proof {
            let pre = bytes@.subrange(0, i as int);
            let cur = bytes@.subrange(0, i + 1 as int);
            assert(cur.drop_last() =~= pre);
            assert(cur.last() == bytes@[i as int]);
            assert(bytes_hex(cur) == bytes_hex(pre) + seq![
                hex_char_of(bytes@[i as int] / 16),
                hex_char_of(bytes@[i as int] % 16),
            ]);
            assert(out@ =~= seq!['0', 'x'] + bytes_hex(cur));
        }
        i = i + 1;
    }
    proof {
        assert(bytes@.subrange(0, bytes@.len() as int) =~= bytes@);
    }
    out
}

/// The full-width encoding of a 32-byte word is `0x` followed by
/// exactly 64 lowercase hex digits — left-zero-padded, whatever the
/// word's numeric value.
pub proof fn lemma_padded_word_shape(s: Seq<u8>)
    requires
        s.len() == 32,
    ensures
        with_0x(bytes_hex(s)).len() == 66,
        with_0x(bytes_hex(s))[0] == '0',
        with_0x(bytes_hex(s))[1] == 'x',
        forall|i: int| 2 <= i < 66 ==> is_lower_hex_digit(#[trigger] with_0x(bytes_hex(s))[i]),
{
    lemma_bytes_hex_len(s);
    assert forall|i: int| 2 <= i < 66 implies is_lower_hex_digit(with_0x(bytes_hex(s))[i]) by {
        lemma_bytes_hex_digits(s, i - 2);
    }
}

/// The hex body with its leading zero digits removed.
pub open spec fn trim_zeros(s: Seq<char>) -> Seq<char>
    decreases s.len(),
{
    if s.len() == 0 {
        s
    } else if s[0] == '0' {
        trim_zeros(s.drop_first())
    } else {
        s
    }
}

/// The digits of a quantity: the full-width body with leading zeros
/// removed, except that the value zero keeps one digit.
pub open spec fn quantity_chars(s: Seq<u8>) -> Seq<char> {
    if trim_zeros(bytes_hex(s)).len() == 0 {
        seq!['0']
    } else {
        trim_zeros(bytes_hex(s))
    }
}

/// `bytes_hex` seen from the front: the head byte's pair of digits,
/// then the rest.
proof fn lemma_bytes_hex_first(s: Seq<u8>)
    requires
        s.len() > 0,
    ensures
        bytes_hex(s) == seq![hex_char_of(s[0] / 16), hex_char_of(s[0] % 16)] + bytes_hex(
            s.drop_first(),
        ),
    decreases s.len(),
{
    if s.len() == 1 {
        assert(s.drop_last() =~= Seq::<u8>::empty());
        assert(s.drop_first() =~= Seq::<u8>::empty());
        assert(bytes_hex(s) =~= seq![hex_char_of(s[0] / 16), hex_char_of(s[0] % 16)] + bytes_hex(
            s.drop_first(),
        ));
    } else {
        lemma_bytes_hex_first(s.drop_last());
        assert(s.drop_last()[0] == s[0]);
        assert(s.drop_last().drop_first() =~= s.drop_first().drop_last());
        assert(s.drop_first().last() == s.last());
        assert(bytes_hex(s) =~= seq![hex_char_of(s[0] / 16), hex_char_of(s[0] % 16)] + bytes_hex(
            s.drop_first(),
        ));
    }
}

/// A zero head byte adds two `'0'` digits, which trimming removes.
proof fn lemma_trim_zero_head(s: Seq<u8>)
    requires
        s.len() > 0,
        s[0] == 0,
    ensures
        trim_zeros(bytes_hex(s)) == trim_zeros(bytes_hex(s.drop_first())),
{
    lemma_bytes_hex_first(s);
    let rest = bytes_hex(s.drop_first());
    let whole = seq!['0', '0'] + rest;
    assert(bytes_hex(s) =~= whole);
    assert(whole[0] == '0');
    assert(trim_zeros(whole) == trim_zeros(whole.drop_first()));
    assert(whole.drop_first() =~= seq!['0'] + rest);
    assert((seq!['0'] + rest)[0] == '0');
    assert(trim_zeros(seq!['0'] + rest) == trim_zeros((seq!['0'] + rest).drop_first()));
    assert((seq!['0'] + rest).drop_first() =~= rest);
}

/// Trimming ignores any all-zero prefix of the bytes.
proof fn lemma_trim_zero_prefix(s: Seq<u8>, j: int)
    requires
        0 <= j <= s.len(),
        forall|k: int| 0 <= k < j ==> s[k] == 0,
    ensures
        trim_zeros(bytes_hex(s)) == trim_zeros(bytes_hex(s.subrange(j, s.len() as int))),
    decreases j,
{
    if j == 0 {
        assert(s.subrange(0, s.len() as int) =~= s);
    } else {
        lemma_trim_zero_prefix(s, j - 1);
        let tail = s.subrange(j - 1, s.len() as int);
        lemma_trim_zero_head(tail);
        assert(tail.drop_first() =~= s.subrange(j, s.len() as int));
    }
}

/// At a nonzero head byte, trimming keeps one or two digits of that
/// byte and everything after it.
proof fn lemma_trim_nonzero_head(s: Seq<u8>)
    requires
        s.len() > 0,
        s[0] != 0,
    ensures
        s[0] / 16 == 0 ==> trim_zeros(bytes_hex(s)) == seq![hex_char_of(s[0] % 16)] + bytes_hex(
            s.drop_first(),
        ),
        s[0] / 16 != 0 ==> trim_zeros(bytes_hex(s)) == seq![
            hex_char_of(s[0] / 16),
            hex_char_of(s[0] % 16),
        ] + bytes_hex(s.drop_first()),
{
    lemma_bytes_hex_first(s);
    let rest = bytes_hex(s.drop_first());
    let hi = hex_char_of(s[0] / 16);
    let lo = hex_char_of(s[0] % 16);
    let whole = seq![hi, lo] + rest;
    assert(bytes_hex(s) =~= whole);
    if s[0] / 16 == 0 {
        assert(s[0] % 16 != 0);
        assert(lo != '0');
        assert(whole[0] == '0');
        assert(trim_zeros(whole) == trim_zeros(whole.drop_first()));
        assert(whole.drop_first() =~= seq![lo] + rest);
        assert((seq![lo] + rest)[0] == lo);
        assert(trim_zeros(seq![lo] + rest) == seq![lo] + rest);
    } else {
        assert(hi != '0');
        assert(whole[0] == hi);
        assert(trim_zeros(whole) == whole);
    }
}

/// `0x` followed by the quantity digits of the bytes, big-endian:
/// minimal lowercase hex, `0x0` for zero.
pub fn encode_quantity_bytes(bytes: &[u8]) -> (r: String)
    ensures
        r@ == with_0x(quantity_chars(bytes@)),
{
    let n = bytes.len();
    let mut j: usize = 0;
    while j < n && bytes[j] == 0
        invariant
            j <= n,
            n == bytes@.len(),
            forall|k: int| 0 <= k < j ==> bytes@[k] == 0,
        decreases n - j,
    {
        j = j + 1;
    }
    proof {
        lemma_trim_zero_prefix(bytes@, j as int);
    }
    if j == n {
        proof {
            assert(bytes@.subrange(n as int, n as int) =~= Seq::<u8>::empty());
            reveal_strlit("0x0");
        }
        let out = String::from_str("0x0");
        proof {
            assert(out@ =~= with_0x(seq!['0']));
        }
        return out;
    }
    let ghost tail = bytes@.subrange(j as int, n as int);
    proof {
        lemma_trim_nonzero_head(tail);
        assert(tail.drop_first() =~= bytes@.subrange(j + 1 as int, n as int));
    }
    let mut out = String::from_str("0x");
    proof {
        reveal_strlit("0x");
    }
    let b = bytes[j];
    let ghost head = if b / 16 == 0 {
        seq![hex_char_of(b % 16)]
    } else {
        seq![hex_char_of(b / 16), hex_char_of(b % 16)]
    };
    if b / 16 != 0 {
        let hi = hex_digit_str(b / 16);
        out.append(hi);
    }
    let lo = hex_digit_str(b % 16);
    out.append(lo);
    proof {
        assert(bytes@.subrange(j + 1 as int, (j + 1) as int) =~= Seq::<u8>::empty());
        assert(out@ =~= seq!['0', 'x'] + head + bytes_hex(
            bytes@.subrange(j + 1 as int, (j + 1) as int),
        ));
    }
    let mut i: usize = j + 1;
    while i < n
        invariant
            j < i <= n,
            n == bytes@.len(),
            out@ == seq!['0', 'x'] + head + bytes_hex(bytes@.subrange(j + 1 as int, i as int)),
        decreases n - i,
    {
        let b2 = bytes[i];
        let hi2 = hex_digit_str(b2 / 16);
        out.append(hi2);
        let lo2 = hex_digit_str(b2 % 16);
        out.append(lo2);
        proof {
            let pre = bytes@.subrange(j + 1 as int, i as int);
            let cur = bytes@.subrange(j + 1 as int, i + 1 as int);
            assert(cur.drop_last() =~= pre);
            assert(cur.last() == bytes@[i as int]);
            assert(out@ =~= seq!['0', 'x'] + head + bytes_hex(cur));
        }
        i = i + 1;
    }
    proof {
        assert(trim_zeros(bytes_hex(bytes@)) == head + bytes_hex(
            bytes@.subrange(j + 1 as int, n as int),
        ));
        assert(trim_zeros(bytes_hex(bytes@)).len() > 0);
        assert(out@ =~= with_0x(quantity_chars(bytes@)));
    }
    out
}

/// The eight big-endian bytes of a 64-bit number.
pub open spec fn u64_be_bytes(n: u64) -> Seq<u8> {
    Seq::new(8, |i: int| ((n >> (((7 - i) * 8) as u64)) & 0xff) as u8)
}

/// The quantity encoding of a 64-bit number.
pub fn encode_quantity_u64(n: u64) -> (r: String)
    ensures
        r@ == with_0x(quantity_chars(u64_be_bytes(n))),
{
    let mut bytes: Vec<u8> = Vec::new();
    let mut k: usize = 0;
    while k < 8
        invariant
            k <= 8,
            bytes@.len() == k,
            forall|i: int| 0 <= i < k ==> bytes@[i] == u64_be_bytes(n)[i],
        decreases 8 - k,
    {
        let shift: u64 = ((7 - k) as u64) * 8;
        bytes.push(((n >> shift) & 0xff) as u8);
        k = k + 1;
    }
    proof {
        assert(bytes@ =~= u64_be_bytes(n));
    }
    encode_quantity_bytes(bytes.as_slice())
}

/// The nibble a hex digit stands for; both letter cases are read.
pub open spec fn hex_val_of(c: char) -> Option<u8> {
    let u = c as u32;
    if 48 <= u && u <= 57 {
        Some((u - 48) as u8)
    } else if 97 <= u && u <= 102 {
        Some((u - 87) as u8)
    } else if 65 <= u && u <= 70 {
        Some((u - 55) as u8)
    } else {
        None
    }
}

fn hex_val(c: char) -> (r: Option<u8>)
    ensures
        r == hex_val_of(c),
{
    let u = c as u32;
    if 48 <= u && u <= 57 {
        Some((u - 48) as u8)
    } else if 97 <= u && u <= 102 {
        Some((u - 87) as u8)
    } else if 65 <= u && u <= 70 {
        Some((u - 55) as u8)
    } else {
        None
    }
}

pub open spec fn pow16(k: nat) -> nat
    decreases k,
{
    if k == 0 {
        1
    } else {
        16 * pow16((k - 1) as nat)
    }
}

proof fn lemma_pow16_mono(a: nat, b: nat)
    requires
        a <= b,
    ensures
        pow16(a) <= pow16(b),
        pow16(a) >= 1,
    decreases b,
{
    if b > 0 {
        if a < b {
            lemma_pow16_mono(a, (b - 1) as nat);
        } else {
            lemma_pow16_mono((a - 1) as nat, (b - 1) as nat);
        }
    }
}

proof fn lemma_pow16_16()
    ensures
        pow16(16nat) == 0x10000000000000000nat,
{
    assert(pow16(0nat) == 1);
    assert(pow16(1nat) == 16);
    assert(pow16(2nat) == 0x100);
    assert(pow16(3nat) == 0x1000);
    assert(pow16(4nat) == 0x10000);
    assert(pow16(5nat) == 0x100000);
    assert(pow16(6nat) == 0x1000000);
    assert(pow16(7nat) == 0x10000000);
    assert(pow16(8nat) == 0x100000000);
    assert(pow16(9nat) == 0x1000000000);
    assert(pow16(10nat) == 0x10000000000);
    assert(pow16(11nat) == 0x100000000000);
    assert(pow16(12nat) == 0x1000000000000);
    assert(pow16(13nat) == 0x10000000000000);
    assert(pow16(14nat) == 0x100000000000000);
    assert(pow16(15nat) == 0x1000000000000000);
    assert(pow16(16nat) == 0x10000000000000000);
}

/// The numeric value of a string of hex digits, most significant
/// first; `None` as soon as one character is no hex digit.
pub open spec fn hex_digits_val(s: Seq<char>) -> Option<nat>
    decreases s.len(),
{
    if s.len() == 0 {
        Some(0)
    } else {
        match (hex_digits_val(s.drop_last()), hex_val_of(s.last())) {
            (Some(v), Some(d)) => Some((v * 16 + d) as nat),
            _ => None,
        }
    }
}

proof fn lemma_hex_digits_val_bound(s: Seq<char>)
    requires
        hex_digits_val(s) is Some,
    ensures
        hex_digits_val(s)->Some_0 < pow16(s.len()),
    decreases s.len(),
{
    if s.len() > 0 {
        lemma_hex_digits_val_bound(s.drop_last());
    }
}

proof fn lemma_hex_digits_invalid(s: Seq<char>, k: int)
    requires
        0 <= k < s.len(),
        hex_val_of(s[k]) is None,
    ensures
        hex_digits_val(s) is None,
    decreases s.len(),
{
    if k < s.len() - 1 {
        lemma_hex_digits_invalid(s.drop_last(), k);
    }
}

/// The value of a quantity string: `0x`, then one to sixteen hex
/// digits (the node's 64-bit quantities never carry more), read as a
/// big-endian number.
pub open spec fn parse_quantity(s: Seq<char>) -> Option<u64> {
    if 3 <= s.len() && s.len() <= 18 && s[0] == '0' && s[1] == 'x' {
        match hex_digits_val(s.subrange(2, s.len() as int)) {
            Some(v) => if v <= u64::MAX {
                Some(v as u64)
            } else {
                None
            },
            None => None,
        }
    } else {
        None
    }
}

/// Reads a hex-quantity string such as `0x1` into a native number.
pub fn parse_quantity_str(s: &str) -> (r: Option<u64>)
    ensures
        r == parse_quantity(s@),
{
    let len = s.unicode_len();
    if len < 3 || len > 18 {
        return None;
    }
    if s.get_char(0) != '0' || s.get_char(1) != 'x' {
        proof {
            reveal_strlit("0");
            reveal_strlit("x");
        }
        return None;
    }
    proof {
        reveal_strlit("0");
        reveal_strlit("x");
    }
    let ghost digits = s@.subrange(2, s@.len() as int);
    let mut acc: u64 = 0;
    let mut i: usize = 2;
    while i < len
        invariant
            2 <= i <= len,
            len == s@.len(),
            3 <= len <= 18,
            digits == s@.subrange(2, s@.len() as int),
            hex_digits_val(s@.subrange(2, i as int)) == Some(acc as nat),
            acc < pow16((i - 2) as nat),
        decreases len - i,
    {
        let c = s.get_char(i);
        match hex_val(c) {
            Some(d) => {
                proof {
                    lemma_pow16_mono((i - 2) as nat, 15nat);
                    lemma_pow16_16();
                    assert(pow16(16nat) == 16 * pow16(15nat));
                    assert(acc * 16 <= (pow16(15nat) - 1) * 16) by (nonlinear_arith)
                        requires
                            acc <= pow16(15nat) - 1,
                    ;
                }
                let next: u64 = acc * 16 + (d as u64);
                proof {
                    let pre = s@.subrange(2, i as int);
                    let cur = s@.subrange(2, i + 1 as int);
                    assert(cur.drop_last() =~= pre);
                    assert(cur.last() == s@[i as int]);
                    assert(hex_digits_val(cur) == Some((acc * 16 + d) as nat));
                    lemma_hex_digits_val_bound(cur);
                }
                acc = next;
            },
            None => {
                proof {
                    lemma_hex_digits_invalid(digits, i - 2);
                }
                return None;
            },
        }
        i = i + 1;
    }
    proof {
        assert(s@.subrange(2, len as int) =~= digits);
    }
    Some(acc)
}

/// The bytes behind a string of hex digit pairs; `None` on an odd
/// count or a character that is no hex digit.
pub open spec fn hex_bytes_val(s: Seq<char>) -> Option<Seq<u8>>
    decreases s.len(),
{
    if s.len() % 2 != 0 {
        None
    } else if s.len() == 0 {
        Some(Seq::<u8>::empty())
    } else {
        match (hex_bytes_val(s.drop_last().drop_last()),
        hex_val_of(s[s.len() - 2]),
        hex_val_of(s.last())) {
            (Some(bs), Some(hi), Some(lo)) => Some(bs.push((hi * 16 + lo) as u8)),
            _ => None,
        }
    }
}

/// The bytes behind a `0x`-prefixed byte string such as bytecode.
pub open spec fn parse_hex_bytes(s: Seq<char>) -> Option<Seq<u8>> {
    if s.len() >= 2 && s[0] == '0' && s[1] == 'x' {
        hex_bytes_val(s.subrange(2, s.len() as int))
    } else {
        None
    }
}

proof fn lemma_hex_bytes_invalid(s: Seq<char>, k: int)
    requires
        s.len() % 2 == 0,
        0 <= k < s.len(),
        hex_val_of(s[k]) is None,
    ensures
        hex_bytes_val(s) is None,
    decreases s.len(),
{
    if k < s.len() - 2 {
        lemma_hex_bytes_invalid(s.drop_last().drop_last(), k);
    }
}

/// Reads a `0x`-prefixed byte string into its bytes.
pub fn parse_hex_bytes_str(s: &str) -> (r: Option<Vec<u8>>)
    ensures
        match r {
            Some(v) => parse_hex_bytes(s@) == Some(v@),
            None => parse_hex_bytes(s@) is None,
        },
{
    let len = s.unicode_len();
    if len < 2 {
        return None;
    }
    if s.get_char(0) != '0' || s.get_char(1) != 'x' {
        proof {
            reveal_strlit("0");
            reveal_strlit("x");
        }
        return None;
    }
    proof {
        reveal_strlit("0");
        reveal_strlit("x");
    }
    let ghost digits = s@.subrange(2, s@.len() as int);
    if (len - 2) % 2 != 0 {
        return None;
    }
    let mut out: Vec<u8> = Vec::new();
    let mut i: usize = 2;
    while i < len
        invariant
            2 <= i <= len,
            len == s@.len(),
            (len - 2) % 2 == 0,
            (i - 2) % 2 == 0,
            digits == s@.subrange(2, s@.len() as int),
            hex_bytes_val(s@.subrange(2, i as int)) == Some(out@),
        decreases len - i,
    {
        let chi = s.get_char(i);
        let clo = s.get_char(i + 1);
        let hi = match hex_val(chi) {
            Some(d) => d,
            None => {
                proof {
                    lemma_hex_bytes_invalid(digits, i - 2);
                }
                return None;
            },
        };
        let lo = match hex_val(clo) {
            Some(d) => d,
            None => {
                proof {
                    lemma_hex_bytes_invalid(digits, i - 1);
                }
                return None;
            },
        };
        let ghost pre_out = out@;
        out.push(hi * 16 + lo);
        proof {
            let pre = s@.subrange(2, i as int);
            let cur = s@.subrange(2, i + 2 as int);
            assert(cur.drop_last().drop_last() =~= pre);
            assert(cur[cur.len() - 2] == s@[i as int]);
            assert(cur.last() == s@[i + 1 as int]);
            assert(cur.len() % 2 == 0);
            assert(hex_bytes_val(cur) == Some(pre_out.push((hi * 16 + lo) as u8)));
        }
        i = i + 2;
    }
    proof {
        assert(s@.subrange(2, len as int) =~= digits);
    }
    Some(out)
}

} // verus!
