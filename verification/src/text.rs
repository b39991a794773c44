//! Text helpers: lowercase hexadecimal and decimal encodings,
//! hexadecimal parsing, and byte/string comparison.
use vstd::prelude::*;
use vstd::utf8::encode_utf8;

verus! {

/// The UTF-8 bytes of a character sequence (what `str::len` and `str::as_bytes` see).
pub open spec fn utf8(s: Seq<char>) -> Seq<u8> {
    encode_utf8(s)
}

/// `b` is one of `0-9` or `a-f` (lowercase hexadecimal digit).
pub open spec fn is_hex_digit(b: u8) -> bool {
    (48 <= b && b <= 57) || (97 <= b && b <= 102)
}

pub open spec fn all_hex(s: Seq<u8>) -> bool {
    forall|i: int| 0 <= i < s.len() ==> is_hex_digit(#[trigger] s[i])
}

pub open spec fn is_ascii_bytes(s: Seq<u8>) -> bool {
    forall|i: int| 0 <= i < s.len() ==> #[trigger] s[i] < 128
}

pub open spec fn hex_digit_value(b: u8) -> nat {
    if b <= 57 {
        (b - 48) as nat
    } else {
        (b - 87) as nat
    }
}

/// Big-endian value of a hexadecimal digit string.
pub open spec fn hex_value(s: Seq<u8>) -> nat
    decreases s.len(),
{
    if s.len() == 0 {
        0
    } else {
        hex_value(s.drop_last()) * 16 + hex_digit_value(s.last())
    }
}

pub open spec fn pow16(n: nat) -> nat
    decreases n,
{
    if n == 0 {
        1
    } else {
        16 * pow16((n - 1) as nat)
    }
}

pub open spec fn hex_char(d: nat) -> u8 {
    if d < 10 {
        (48 + d) as u8
    } else {
        (87 + d) as u8
    }
}

/// `v` written with exactly `width` lowercase hexadecimal digits (zero padded,
/// high digits dropped when `v` does not fit).
pub open spec fn hex_fixed(v: nat, width: nat) -> Seq<u8>
    decreases width,
{
    if width == 0 {
        seq![]
    } else {
        hex_fixed(v / 16, (width - 1) as nat).push(hex_char(v % 16))
    }
}

/// Lowercase hexadecimal of a byte string, two digits per byte.
pub open spec fn hex_bytes(s: Seq<u8>) -> Seq<u8>
    decreases s.len(),
{
    if s.len() == 0 {
        seq![]
    } else {
        hex_bytes(s.drop_last()) + hex_fixed(s.last() as nat, 2)
    }
}

/// The `n` low bytes of `v`, least significant first.
pub open spec fn le_bytes(v: nat, n: nat) -> Seq<u8>
    decreases n,
{
    if n == 0 {
        seq![]
    } else {
        seq![(v % 256) as u8] + le_bytes(v / 256, (n - 1) as nat)
    }
}

/// The `n` low bytes of `v`, most significant first.
pub open spec fn be_bytes(v: nat, n: nat) -> Seq<u8>
    decreases n,
{
    if n == 0 {
        seq![]
    } else {
        be_bytes(v / 256, (n - 1) as nat).push((v % 256) as u8)
    }
}

/// The decimal digit `d` (`d < 10`).
pub open spec fn digit_char(d: nat) -> char {
    if d == 0 {
        '0'
    } else if d == 1 {
        '1'
    } else if d == 2 {
        '2'
    } else if d == 3 {
        '3'
    } else if d == 4 {
        '4'
    } else if d == 5 {
        '5'
    } else if d == 6 {
        '6'
    } else if d == 7 {
        '7'
    } else if d == 8 {
        '8'
    } else {
        '9'
    }
}

/// Shortest decimal representation of `v`.
pub open spec fn decimal(v: nat) -> Seq<char>
    decreases v,
{
    if v < 10 {
        seq![digit_char(v)]
    } else {
        decimal(v / 10).push(digit_char(v % 10))
    }
}

pub proof fn lemma_pow16_monotone(a: nat, b: nat)
    requires
        a <= b,
    ensures
        1 <= pow16(a) <= pow16(b),
    decreases b,
{
    if b > 0 {
        if a < b {
            lemma_pow16_monotone(a, (b - 1) as nat);
        } else {
            lemma_pow16_monotone((b - 1) as nat, (b - 1) as nat);
        }
    }
}

pub proof fn lemma_pow16_16()
    ensures
        pow16(16) == 0x1_0000_0000_0000_0000,
        pow16(15) == 0x1000_0000_0000_0000,
        pow16(2) == 256,
{
    reveal_with_fuel(pow16, 17);
}

pub proof fn lemma_hex_char(d: nat)
    requires
        d < 16,
    ensures
        is_hex_digit(hex_char(d)),
        hex_digit_value(hex_char(d)) == d,
{
}

pub proof fn lemma_hex_fixed(v: nat, width: nat)
    ensures
        hex_fixed(v, width).len() == width,
        all_hex(hex_fixed(v, width)),
        is_ascii_bytes(hex_fixed(v, width)),
        v < pow16(width) ==> hex_value(hex_fixed(v, width)) == v,
    decreases width,
{
    if width > 0 {
        let w1 = (width - 1) as nat;
        lemma_hex_fixed(v / 16, w1);
        lemma_hex_char(v % 16);
        let s = hex_fixed(v, width);
        assert(s.drop_last() =~= hex_fixed(v / 16, w1));
        if v < pow16(width) {
            assert(v / 16 < pow16(w1)) by (nonlinear_arith)
                requires
                    v < 16 * pow16(w1),
            ;
        }
    }
}

pub proof fn lemma_hex_value_bound(s: Seq<u8>)
    requires
        all_hex(s),
    ensures
        hex_value(s) < pow16(s.len()),
    decreases s.len(),
{
    if s.len() > 0 {
        let p = s.drop_last();
        lemma_hex_value_bound(p);
        let a = hex_value(p);
        let d = hex_digit_value(s.last());
        let q = pow16(p.len());
        assert(a * 16 + d < 16 * q) by (nonlinear_arith)
            requires
                a < q,
                d < 16,
        ;
    }
}

/// Two strings hexadecimal-equal in value and length are the same digit strings.
pub proof fn lemma_hex_value_injective(a: Seq<u8>, b: Seq<u8>)
    requires
        all_hex(a),
        all_hex(b),
        a.len() == b.len(),
        hex_value(a) == hex_value(b),
    ensures
        a == b,
    decreases a.len(),
{
    if a.len() > 0 {
        let pa = a.drop_last();
        let pb = b.drop_last();
        lemma_hex_value_bound(pa);
        lemma_hex_value_bound(pb);
        let x = hex_value(pa);
        let y = hex_value(pb);
        let c = hex_digit_value(a.last());
        let d = hex_digit_value(b.last());
        assert(x == y && c == d) by (nonlinear_arith)
            requires
                x * 16 + c == y * 16 + d,
                c < 16,
                d < 16,
        ;
        lemma_hex_value_injective(pa, pb);
        assert(a.last() == b.last());
        assert(a =~= pa.push(a.last()));
        assert(b =~= pb.push(b.last()));
    }
}

pub proof fn lemma_hex_bytes(s: Seq<u8>)
    ensures
        hex_bytes(s).len() == 2 * s.len(),
        all_hex(hex_bytes(s)),
        is_ascii_bytes(hex_bytes(s)),
    decreases s.len(),
{
    if s.len() > 0 {
        lemma_hex_bytes(s.drop_last());
        lemma_hex_fixed(s.last() as nat, 2);
    }
}


/// Equality of two byte strings.
/// `prefix` + `name` + `suffix` as an owned string.
pub fn quoted(prefix: &str, name: &str, suffix: &str) -> (text: String)
    ensures
        text@ == prefix@ + name@ + suffix@,
{
    let mut text = String::from_str(prefix);
    text.append(name);
    text.append(suffix);
    text
}

/// Length in bytes of the UTF-8 encoding of `s`.
pub fn byte_len(s: &str) -> (n: usize)
    ensures
        n == utf8(s@).len(),
{
    s.as_bytes().len()
}

pub fn bytes_equal(a: &[u8], b: &[u8]) -> (equal: bool)
    ensures
        equal == (a@ == b@),
{
    if a.len() != b.len() {
        return false;
    }
    let mut i: usize = 0;
    while i < a.len()
        invariant
            a@.len() == b@.len(),
            i <= a@.len(),
            forall|j: int| 0 <= j < i ==> a@[j] == b@[j],
        decreases a@.len() - i,
    {
        if a[i] != b[i] {
            return false;
        }
        i = i + 1;
    }
    assert(a@ =~= b@);
    true
}

/// Equality of two strings, compared byte by byte.
pub fn str_eq(a: &str, b: &str) -> (equal: bool)
    ensures
        equal == (a@ == b@),
{
    let equal = bytes_equal(a.as_bytes(), b.as_bytes());
    proof {
        vstd::utf8::encode_utf8_decode_utf8(a@);
        vstd::utf8::encode_utf8_decode_utf8(b@);
    }
    equal
}

/// Whether `bytes[start..end]` holds only lowercase hexadecimal digits.
pub fn is_hex_range(bytes: &[u8], start: usize, end: usize) -> (hex: bool)
    requires
        start <= end <= bytes@.len(),
    ensures
        hex == all_hex(bytes@.subrange(start as int, end as int)),
{
    let mut i = start;
    while i < end
        invariant
            start <= i <= end <= bytes@.len(),
            forall|j: int| start <= j < i ==> is_hex_digit(#[trigger] bytes@[j]),
        decreases end - i,
    {
        let b = bytes[i];
        if !((48 <= b && b <= 57) || (97 <= b && b <= 102)) {
            assert(bytes@.subrange(start as int, end as int)[i - start] == b);
            return false;
        }
        i = i + 1;
    }
    assert forall|j: int| 0 <= j < end - start implies is_hex_digit(
        #[trigger] bytes@.subrange(start as int, end as int)[j],
    ) by {
        assert(bytes@.subrange(start as int, end as int)[j] == bytes@[start + j]);
    }
    true
}

/// Value of the hexadecimal digits `bytes[start..end]` (at most sixteen digits).
pub fn parse_hex_u64(bytes: &[u8], start: usize, end: usize) -> (value: u64)
    requires
        start <= end <= bytes@.len(),
        end - start <= 16,
        all_hex(bytes@.subrange(start as int, end as int)),
    ensures
        value == hex_value(bytes@.subrange(start as int, end as int)),
{
    proof {
        lemma_pow16_16();
    }
    let mut value: u64 = 0;
    let mut i = start;
    while i < end
        invariant
            start <= i <= end <= bytes@.len(),
            end - start <= 16,
            all_hex(bytes@.subrange(start as int, end as int)),
            value == hex_value(bytes@.subrange(start as int, i as int)),
            value < pow16((i - start) as nat),
            pow16(15) == 0x1000_0000_0000_0000,
        decreases end - i,
    {
        let b = bytes[i];
        assert(bytes@.subrange(start as int, end as int)[i - start] == b);
        let d: u64 = if b <= 57 {
            (b - 48) as u64
        } else {
            (b - 87) as u64
        };
        let ghost k = (i - start) as nat;
        proof {
            lemma_pow16_monotone(k, 15);
            let p = pow16(k);
            assert(value * 16 + d < 16 * p) by (nonlinear_arith)
                requires
                    value < p,
                    d < 16,
            ;
            assert(16 * p <= 0x1_0000_0000_0000_0000) by (nonlinear_arith)
                requires
                    p <= 0x1000_0000_0000_0000,
            ;
            let s = bytes@.subrange(start as int, i + 1);
            assert(s.drop_last() =~= bytes@.subrange(start as int, i as int));
        }
        value = value * 16 + d;
        i = i + 1;
    }
    value
}

/// Appends `value` as exactly `width` lowercase hexadecimal digits.
pub fn push_hex_fixed(out: &mut Vec<u8>, value: u64, width: usize)
    ensures
        final(out)@ == old(out)@ + hex_fixed(value as nat, width as nat),
    decreases width,
{
    if width == 0 {
        assert(old(out)@ + hex_fixed(value as nat, 0) =~= old(out)@);
        return;
    }
    push_hex_fixed(out, value / 16, width - 1);
    let d = value % 16;
    let c: u8 = if d < 10 {
        (48 + d) as u8
    } else {
        (87 + d) as u8
    };
    out.push(c);
    assert(final(out)@ =~= old(out)@ + hex_fixed(value as nat, width as nat));
}

/// Appends the lowercase hexadecimal form of `bytes`.
pub fn push_hex_bytes(out: &mut Vec<u8>, bytes: &[u8])
    ensures
        final(out)@ == old(out)@ + hex_bytes(bytes@),
{
    let mut i: usize = 0;
    while i < bytes.len()
        invariant
            i <= bytes@.len(),
            out@ == old(out)@ + hex_bytes(bytes@.subrange(0, i as int)),
        decreases bytes@.len() - i,
    {
        proof {
            let s = bytes@.subrange(0, i + 1);
            assert(s.drop_last() =~= bytes@.subrange(0, i as int));
        }
        push_hex_fixed(out, bytes[i] as u64, 2);
        i = i + 1;
        assert(out@ =~= old(out)@ + hex_bytes(bytes@.subrange(0, i as int)));
    }
    assert(bytes@.subrange(0, bytes@.len() as int) =~= bytes@);
}

/// Appends the `n` low bytes of `value`, least significant first.
pub fn push_le(out: &mut Vec<u8>, value: u64, n: usize)
    ensures
        final(out)@ == old(out)@ + le_bytes(value as nat, n as nat),
    decreases n,
{
    if n == 0 {
        assert(old(out)@ + le_bytes(value as nat, 0) =~= old(out)@);
        return;
    }
    out.push((value % 256) as u8);
    push_le(out, value / 256, n - 1);
    assert(final(out)@ =~= old(out)@ + le_bytes(value as nat, n as nat));
}

/// Appends the `n` low bytes of `value`, most significant first.
pub fn push_be(out: &mut Vec<u8>, value: u64, n: usize)
    ensures
        final(out)@ == old(out)@ + be_bytes(value as nat, n as nat),
    decreases n,
{
    if n == 0 {
        assert(old(out)@ + be_bytes(value as nat, 0) =~= old(out)@);
        return;
    }
    push_be(out, value / 256, n - 1);
    out.push((value % 256) as u8);
    assert(final(out)@ =~= old(out)@ + be_bytes(value as nat, n as nat));
}

/// Appends `bytes`.
pub fn push_bytes(out: &mut Vec<u8>, bytes: &[u8])
    ensures
        final(out)@ == old(out)@ + bytes@,
{
    let mut i: usize = 0;
    while i < bytes.len()
        invariant
            i <= bytes@.len(),
            out@ == old(out)@ + bytes@.subrange(0, i as int),
        decreases bytes@.len() - i,
    {
        out.push(bytes[i]);
        i = i + 1;
        assert(out@ =~= old(out)@ + bytes@.subrange(0, i as int));
    }
    assert(bytes@.subrange(0, bytes@.len() as int) =~= bytes@);
}

/// Whether `bytes[start..start + expected.len()]` equals `expected`.
pub fn bytes_equal_at(bytes: &[u8], start: usize, expected: &[u8]) -> (equal: bool)
    requires
        start as int + expected@.len() <= bytes@.len(),
    ensures
        equal == (bytes@.subrange(start as int, start + expected@.len()) == expected@),
{
    let n = bytes.len();
    let mut i: usize = 0;
    while i < expected.len()
        invariant
            n == bytes@.len(),
            start as int + expected@.len() <= bytes@.len(),
            i <= expected@.len(),
            forall|j: int| 0 <= j < i ==> bytes@[start + j] == expected@[j],
        decreases expected@.len() - i,
    {
        if bytes[start + i] != expected[i] {
            assert(bytes@.subrange(start as int, start + expected@.len())[i as int] != expected@[i as int]);
            return false;
        }
        i = i + 1;
    }
    assert(bytes@.subrange(start as int, start + expected@.len()) =~= expected@);
    true
}

fn digit_str(d: u64) -> (digit: &'static str)
    requires
        d < 10,
    ensures
        digit@ == seq![digit_char(d as nat)],
{
    if d == 0 {
        proof { reveal_strlit("0"); }
        "0"
    } else if d == 1 {
        proof { reveal_strlit("1"); }
        "1"
    } else if d == 2 {
        proof { reveal_strlit("2"); }
        "2"
    } else if d == 3 {
        proof { reveal_strlit("3"); }
        "3"
    } else if d == 4 {
        proof { reveal_strlit("4"); }
        "4"
    } else if d == 5 {
        proof { reveal_strlit("5"); }
        "5"
    } else if d == 6 {
        proof { reveal_strlit("6"); }
        "6"
    } else if d == 7 {
        proof { reveal_strlit("7"); }
        "7"
    } else if d == 8 {
        proof { reveal_strlit("8"); }
        "8"
    } else {
        proof { reveal_strlit("9"); }
        "9"
    }
}

/// The decimal form of `value`, as a string.
pub fn decimal_text(value: u64) -> (text: String)
    ensures
        text@ == decimal(value as nat),
    decreases value,
{
    if value < 10 {
        let text = String::from_str(digit_str(value));
        assert(text@ =~= decimal(value as nat));
        text
    } else {
        let mut text = decimal_text(value / 10);
        text.append(digit_str(value % 10));
        assert(text@ =~= decimal(value as nat));
        text
    }
}

} // verus!
