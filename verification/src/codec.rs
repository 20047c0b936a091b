//! Numeric codecs used by the ledger: 128-bit balances as fixed-width
//! big-endian byte strings, and decimal strings for query output, transfer
//! amounts and audit log values.

use vstd::prelude::*;

verus! {

// ---------------------------------------------------------------------------
// Big-endian 16-byte encoding of 128-bit balances.
// ---------------------------------------------------------------------------

/// 256 raised to the power `n`.
pub open spec fn pow256(n: nat) -> nat
    decreases n,
{
    if n == 0 {
        1
    } else {
        256 * pow256((n - 1) as nat)
    }
}

/// The value a byte string denotes when read as a big-endian integer
/// (the first byte is the most significant).
pub open spec fn be_val(s: Seq<u8>) -> nat
    decreases s.len(),
{
    if s.len() == 0 {
        0
    } else {
        (be_val(s.drop_last()) * 256 + s.last()) as nat
    }
}

/// A big-endian byte string of length `n` denotes a value below `256^n`.
pub proof fn lemma_be_val_bound(s: Seq<u8>)
    ensures
        be_val(s) < pow256(s.len()),
    decreases s.len(),
{
    if s.len() > 0 {
        lemma_be_val_bound(s.drop_last());
        let v = be_val(s.drop_last());
        let p = pow256((s.len() - 1) as nat);
        assert(v * 256 + s.last() < 256 * p) by (nonlinear_arith)
            requires
                v < p,
                s.last() < 256,
        ;
    }
}

/// `pow256` is monotonic.
pub proof fn lemma_pow256_mono(a: nat, b: nat)
    requires
        a <= b,
    ensures
        pow256(a) <= pow256(b),
    decreases b,
{
    if a < b {
        lemma_pow256_mono(a, (b - 1) as nat);
        assert(pow256(b) == 256 * pow256((b - 1) as nat));
        assert(pow256((b - 1) as nat) <= 256 * pow256((b - 1) as nat));
    }
}

/// Prepending a byte shifts the rest of the string up by one byte position.
proof fn lemma_be_val_prepend(b: u8, s: Seq<u8>)
    ensures
        be_val(seq![b] + s) == b * pow256(s.len()) + be_val(s),
    decreases s.len(),
{
    if s.len() == 0 {
        let t = seq![b] + s;
        assert(t =~= seq![b]);
        assert(t.drop_last() =~= Seq::<u8>::empty());
        assert(be_val(Seq::<u8>::empty()) == 0);
        assert(be_val(t) == be_val(t.drop_last()) * 256 + t.last());
        assert(be_val(t) == b);
        assert(pow256(s.len()) == 1);
    } else {
        let t = seq![b] + s;
        assert(t.drop_last() =~= seq![b] + s.drop_last());
        assert(t.last() == s.last());
        lemma_be_val_prepend(b, s.drop_last());
        let p1 = pow256((s.len() - 1) as nat);
        let v1 = be_val(s.drop_last());
        assert(be_val(t) == (b * p1 + v1) * 256 + s.last());
        assert((b * p1 + v1) * 256 == b * (256 * p1) + v1 * 256) by (nonlinear_arith);
        assert(pow256(s.len()) == 256 * p1);
        assert(be_val(s) == v1 * 256 + s.last());
        assert(be_val(t) == b * pow256(s.len()) + be_val(s));
    }
}

/// The largest 16-byte value is the largest `u128`.
pub proof fn lemma_pow256_16()
    ensures
        pow256(16) == 0x1_0000_0000_0000_0000_0000_0000_0000_0000,
{
    reveal_with_fuel(pow256, 17);
}

/// Encodes a 128-bit value as exactly 16 big-endian bytes.
pub fn u128_to_be_bytes(x: u128) -> (r: Vec<u8>)
    ensures
        r@.len() == 16,
        be_val(r@) == x,
{
    let mut out: Vec<u8> = Vec::new();
    let mut v: u128 = x;
    let mut i: usize = 0;
    proof {
        lemma_pow256_16();
        assert(out@ =~= Seq::<u8>::empty());
        assert(be_val(Seq::<u8>::empty()) == 0);
        assert(pow256(0) == 1);
    }
    while i < 16
        invariant
            i <= 16,
            out@.len() == i,
            v * pow256(i as nat) + be_val(out@) == x,
            v < pow256((16 - i) as nat),
        decreases 16 - i,
    {
        let ghost prev = out@;
        let ghost vp = v as nat;
        assert(v % 256 < 256) by (nonlinear_arith);
        let b: u8 = (v % 256) as u8;
        out.insert(0, b);
        v = v / 256;
        proof {
            assert(out@ =~= seq![b] + prev);
            lemma_be_val_prepend(b, prev);
            let p = pow256(i as nat);
            assert(pow256((i + 1) as nat) == 256 * p);
            assert(vp == 256 * (vp / 256) + (vp % 256)) by (nonlinear_arith);
            assert((vp / 256) * (256 * p) + (vp % 256) * p == vp * p) by (nonlinear_arith)
                requires
                    vp == 256 * (vp / 256) + (vp % 256),
            ;
            let q = pow256((16 - (i + 1)) as nat);
            assert(pow256((16 - i) as nat) == 256 * q);
            assert(vp / 256 < q) by (nonlinear_arith)
                requires
                    vp < 256 * q,
            ;
        }
        i += 1;
    }
    proof {
        assert(pow256(0) == 1);
    }
    out
}

/// Decodes exactly 16 big-endian bytes into a 128-bit value.
pub fn u128_from_be_bytes(data: &[u8]) -> (r: u128)
    requires
        data@.len() == 16,
    ensures
        r == be_val(data@),
{
    let mut acc: u128 = 0;
    let mut i: usize = 0;
    proof {
        assert(data@.take(0) =~= Seq::<u8>::empty());
    }
    while i < 16
        invariant
            i <= 16,
            data@.len() == 16,
            acc == be_val(data@.take(i as int)),
        decreases 16 - i,
    {
        proof {
            lemma_be_val_bound(data@.take(i as int));
            lemma_pow256_mono(i as nat, 15);
            lemma_pow256_16();
            let p15 = pow256(15);
            assert(acc * 256 + 255 < 256 * p15) by (nonlinear_arith)
                requires
                    (acc as nat) < p15,
            ;
        }
        let b: u8 = *vstd::slice::slice_index_get(data, i);
        acc = acc * 256 + (b as u128);
        proof {
            assert(data@.take((i + 1) as int).drop_last() =~= data@.take(i as int));
            assert(data@.take((i + 1) as int).last() == data@[i as int]);
        }
        i += 1;
    }
    proof {
        assert(data@.take(16) =~= data@);
    }
    acc
}

// ---------------------------------------------------------------------------
// Decimal strings.
// ---------------------------------------------------------------------------

/// The character for a single decimal digit.
pub open spec fn dec_digit(n: nat) -> char {
    if n == 0 {
        '0'
    } else if n == 1 {
        '1'
    } else if n == 2 {
        '2'
    } else if n == 3 {
        '3'
    } else if n == 4 {
        '4'
    } else if n == 5 {
        '5'
    } else if n == 6 {
        '6'
    } else if n == 7 {
        '7'
    } else if n == 8 {
        '8'
    } else {
        '9'
    }
}

/// The decimal representation of a nonnegative integer, without leading
/// zeroes (`0` is written as "0").
pub open spec fn dec_chars(n: nat) -> Seq<char>
    decreases n,
{
    if n < 10 {
        seq![dec_digit(n)]
    } else {
        dec_chars(n / 10).push(dec_digit(n % 10))
    }
}

/// The decimal representation of a signed value: a minus sign followed by
/// the magnitude when negative.
pub open spec fn dec_chars_int(n: int) -> Seq<char> {
    if n >= 0 {
        dec_chars(n as nat)
    } else {
        seq!['-'] + dec_chars((-n) as nat)
    }
}

/// Whether a character is a decimal digit.
pub open spec fn is_dec_digit(c: char) -> bool {
    '0' <= c && c <= '9'
}

/// Whether a string consists of decimal digits only.
pub open spec fn is_dec_digits(s: Seq<char>) -> bool {
    forall|i: int| 0 <= i < s.len() ==> is_dec_digit(#[trigger] s[i])
}

/// The numeric value of one digit character (0 for a non-digit).
pub open spec fn digit_val(c: char) -> nat {
    if is_dec_digit(c) {
        (c as nat - '0' as nat) as nat
    } else {
        0
    }
}

/// The value a digit string denotes when read as a decimal number.
pub open spec fn dec_val(s: Seq<char>) -> nat
    decreases s.len(),
{
    if s.len() == 0 {
        0
    } else {
        (dec_val(s.drop_last()) * 10 + digit_val(s.last())) as nat
    }
}

/// A decimal representation is nonempty, all digits, and reads back as the
/// value written.
pub proof fn lemma_dec_chars_round_trip(n: nat)
    ensures
        dec_chars(n).len() >= 1,
        is_dec_digits(dec_chars(n)),
        dec_val(dec_chars(n)) == n,
    decreases n,
{
    if n < 10 {
        let s = seq![dec_digit(n)];
        assert(s.drop_last() =~= Seq::<char>::empty());
        assert(dec_val(Seq::<char>::empty()) == 0);
        assert(dec_val(s) == digit_val(dec_digit(n)));
    } else {
        lemma_dec_chars_round_trip(n / 10);
        let s = dec_chars(n);
        let t = dec_chars(n / 10);
        assert(s == t.push(dec_digit(n % 10)));
        assert(s.drop_last() =~= t);
        assert(s.last() == dec_digit(n % 10));
        assert(n % 10 < 10) by (nonlinear_arith);
        assert(dec_val(s) == dec_val(t) * 10 + digit_val(dec_digit(n % 10)));
        assert((n / 10) * 10 + n % 10 == n) by (nonlinear_arith);
        assert forall|i: int| 0 <= i < s.len() implies is_dec_digit(#[trigger] s[i]) by {
            if i < s.len() - 1 {
                assert(s[i] == t[i]);
            }
        };
    }
}

/// A single-character string for one decimal digit.
fn digit_str(d: u8) -> (r: &'static str)
    requires
        d < 10,
    ensures
        r@ =~= seq![dec_digit(d as nat)],
{
    proof {
        reveal_strlit("0");
        reveal_strlit("1");
        reveal_strlit("2");
        reveal_strlit("3");
        reveal_strlit("4");
        reveal_strlit("5");
        reveal_strlit("6");
        reveal_strlit("7");
        reveal_strlit("8");
        reveal_strlit("9");
    }
    if d == 0 {
        "0"
    } else if d == 1 {
        "1"
    } else if d == 2 {
        "2"
    } else if d == 3 {
        "3"
    } else if d == 4 {
        "4"
    } else if d == 5 {
        "5"
    } else if d == 6 {
        "6"
    } else if d == 7 {
        "7"
    } else if d == 8 {
        "8"
    } else {
        "9"
    }
}

/// Writes a 128-bit value as a decimal string.
pub fn u128_to_dec_string(x: u128) -> (r: String)
    ensures
        r@ == dec_chars(x as nat),
    decreases x,
{
    if x < 10 {
        String::from_str(digit_str(x as u8))
    } else {
        assert(x / 10 < x && x / 10 >= 0) by (nonlinear_arith)
            requires
                x >= 10,
        ;
        let mut s = u128_to_dec_string(x / 10);
        assert(x % 10 < 10) by (nonlinear_arith);
        let d = digit_str((x % 10) as u8);
        s.append(d);
        proof {
            assert(dec_chars((x / 10) as nat) + seq![dec_digit((x % 10) as nat)] =~= dec_chars(
                (x / 10) as nat,
            ).push(dec_digit((x % 10) as nat)));
        }
        s
    }
}

/// Writes a signed 64-bit value as a decimal string.
pub fn i64_to_dec_string(x: i64) -> (r: String)
    ensures
        r@ == dec_chars_int(x as int),
{
    if x >= 0 {
        u128_to_dec_string(x as u128)
    } else {
        let m: u128 = (-(x as i128)) as u128;
        let mut s = String::from_str("-");
        let digits = u128_to_dec_string(m);
        s.append(digits.as_str());
        proof {
            reveal_strlit("-");
            assert(s@ =~= seq!['-'] + dec_chars(m as nat));
        }
        s
    }
}

/// A digit string read up to a prefix denotes no more than the whole string.
proof fn lemma_dec_val_prefix(s: Seq<char>, j: int)
    requires
        0 <= j <= s.len(),
    ensures
        dec_val(s.take(j)) <= dec_val(s),
    decreases s.len() - j,
{
    if j < s.len() {
        lemma_dec_val_prefix(s, j + 1);
        assert(s.take(j + 1).drop_last() =~= s.take(j));
        assert(dec_val(s.take(j + 1)) == dec_val(s.take(j)) * 10 + digit_val(s.take(j + 1).last()));
        assert(dec_val(s.take(j)) * 10 >= dec_val(s.take(j))) by (nonlinear_arith);
    } else {
        assert(s.take(j) =~= s);
    }
}

/// Whether a string parses as a 128-bit decimal number: nonempty, digits
/// only, and in range.
pub open spec fn parses_as_u128(s: Seq<char>) -> bool {
    s.len() > 0 && is_dec_digits(s) && dec_val(s) <= u128::MAX
}

/// Reads a decimal string as a 128-bit value.  Fails on an empty string, a
/// non-digit character, or a value that does not fit.
pub fn parse_dec_u128(source: &str) -> (r: Option<u128>)
    ensures
        r == if parses_as_u128(source@) {
            Some(dec_val(source@) as u128)
        } else {
            Option::<u128>::None
        },
{
    let n = source.unicode_len();
    if n == 0 {
        return None;
    }
    let mut acc: u128 = 0;
    let mut i: usize = 0;
    proof {
        assert(source@.take(0) =~= Seq::<char>::empty());
    }
    while i < n
        invariant
            0 <= i <= n,
            n == source@.len(),
            is_dec_digits(source@.take(i as int)),
            acc == dec_val(source@.take(i as int)),
        decreases n - i,
    {
        let c = source.get_char(i);
        let cv = c as u32;
        if cv < 48 || cv > 57 {
            proof {
                assert(!is_dec_digit(source@[i as int]));
            }
            return None;
        }
        let d: u128 = (cv - 48) as u128;
        proof {
            assert(source@.take((i + 1) as int).drop_last() =~= source@.take(i as int));
            assert(source@.take((i + 1) as int).last() == source@[i as int]);
            assert(digit_val(source@[i as int]) == d);
        }
        if acc > (u128::MAX - d) / 10 {
            proof {
                let m = (u128::MAX - d) as nat;
                assert(acc * 10 + d > u128::MAX) by (nonlinear_arith)
                    requires
                        (acc as nat) > m / 10,
                        d < 10,
                        m == (u128::MAX - d) as nat,
                ;
                assert(dec_val(source@.take((i + 1) as int)) > u128::MAX);
                lemma_dec_val_prefix(source@, i + 1);
            }
            return None;
        }
        proof {
            let m = (u128::MAX - d) as nat;
            assert(acc * 10 + d <= u128::MAX) by (nonlinear_arith)
                requires
                    (acc as nat) <= m / 10,
                    d < 10,
                    m == (u128::MAX - d) as nat,
            ;
        }
        acc = acc * 10 + d;
        i += 1;
    }
    proof {
        assert(source@.take(n as int) =~= source@);
    }
    Some(acc)
}

} // verus!
