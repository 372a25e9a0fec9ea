//! A verified JSON emitter for the responses this service produces: string
//! escaping as common JSON serializers write it (two-character escapes for
//! the usual control characters, `\u00XX` for the rest below 0x20), decimal
//! rendering of 64-bit integers, and appending of ASCII literals.

use vstd::prelude::*;

use crate::text::ascii;

verus! {

/// The ASCII code of a hexadecimal digit, lower case.
pub open spec fn hex_digit(n: int) -> u8 {
    if n < 10 {
        (48 + n) as u8
    } else {
        (87 + n) as u8
    }
}

/// How one byte of a JSON string value is written.
pub open spec fn esc_byte(c: u8) -> Seq<u8> {
    if c == 34 {
        seq![92u8, 34u8]
    } else if c == 92 {
        seq![92u8, 92u8]
    } else if c == 8 {
        seq![92u8, 98u8]
    } else if c == 9 {
        seq![92u8, 116u8]
    } else if c == 10 {
        seq![92u8, 110u8]
    } else if c == 12 {
        seq![92u8, 102u8]
    } else if c == 13 {
        seq![92u8, 114u8]
    } else if c < 32 {
        seq![92u8, 117u8, 48u8, 48u8, hex_digit(c as int / 16), hex_digit(c as int % 16)]
    } else {
        seq![c]
    }
}

/// The escaped form of a whole byte string.
pub open spec fn escaped(s: Seq<u8>) -> Seq<u8>
    decreases s.len(),
{
    if s.len() == 0 {
        Seq::empty()
    } else {
        esc_byte(s[0]) + escaped(s.skip(1))
    }
}

proof fn lemma_escaped_push(s: Seq<u8>, c: u8)
    ensures
        escaped(s.push(c)) == escaped(s) + esc_byte(c),
    decreases s.len(),
{
    if s.len() == 0 {
        assert(s.push(c)[0] == c);
        assert(s.push(c).skip(1) =~= Seq::<u8>::empty());
        assert(escaped(Seq::<u8>::empty()) == Seq::<u8>::empty());
        assert(escaped(s.push(c)) == esc_byte(c) + escaped(Seq::<u8>::empty()));
        assert(escaped(s) == Seq::<u8>::empty());
        assert(escaped(s.push(c)) =~= escaped(s) + esc_byte(c));
    } else {
        assert(s.push(c)[0] == s[0]);
        assert(s.push(c).skip(1) =~= s.skip(1).push(c));
        lemma_escaped_push(s.skip(1), c);
        assert(escaped(s.push(c)) =~= escaped(s) + esc_byte(c));
    }
}

fn hex_digit_exec(n: u8) -> (r: u8)
    requires
        n < 16,
    ensures
        r == hex_digit(n as int),
{
    if n < 10 {
        48 + n
    } else {
        87 + n
    }
}

/// Appends the escaped form of `s` to `out`.
pub fn escape_into(out: &mut Vec<u8>, s: &[u8])
    ensures
        final(out)@ == old(out)@ + escaped(s@),
{
    let mut i: usize = 0;
    proof {
        assert(s@.take(0) =~= Seq::<u8>::empty());
        assert(out@ =~= out@ + escaped(s@.take(0)));
    }
    while i < s.len()
        invariant
            i <= s.len(),
            out@ == old(out)@ + escaped(s@.take(i as int)),
        decreases s.len() - i,
    {
        let c = s[i];
        if c == 34 {
            out.push(92);
            out.push(34);
        } else if c == 92 {
            out.push(92);
            out.push(92);
        } else if c == 8 {
            out.push(92);
            out.push(98);
        } else if c == 9 {
            out.push(92);
            out.push(116);
        } else if c == 10 {
            out.push(92);
            out.push(110);
        } else if c == 12 {
            out.push(92);
            out.push(102);
        } else if c == 13 {
            out.push(92);
            out.push(114);
        } else if c < 32 {
            out.push(92);
            out.push(117);
            out.push(48);
            out.push(48);
            out.push(hex_digit_exec(c / 16));
            out.push(hex_digit_exec(c % 16));
        } else {
            out.push(c);
        }
        proof {
            lemma_escaped_push(s@.take(i as int), c);
            assert(s@.take(i as int).push(c) =~= s@.take(i + 1 as int));
            assert(out@ =~= old(out)@ + escaped(s@.take(i + 1 as int)));
        }
        i = i + 1;
    }
    proof {
        assert(s@.take(s@.len() as int) =~= s@);
    }
}

/// Appends the bytes of the ASCII literal `s` to `out`.
pub fn push_lit(out: &mut Vec<u8>, s: &str)
    requires
        s.is_ascii(),
    ensures
        final(out)@ == old(out)@ + ascii(s),
{
    broadcast use vstd::string::is_ascii_spec_bytes;

    let bytes: &[u8] = s.as_bytes();
    proof {
        assert(bytes@ =~= ascii(s));
    }
    out.extend_from_slice(bytes);
}

/// The decimal digits of a non-negative number.
pub open spec fn dec_nat(n: nat) -> Seq<u8>
    decreases n,
{
    if n < 10 {
        seq![(48 + n) as u8]
    } else {
        dec_nat(n / 10) + seq![(48 + n % 10) as u8]
    }
}

/// The decimal rendering of an integer, with `-` for negative values.
pub open spec fn dec_int(n: int) -> Seq<u8> {
    if n < 0 {
        seq![45u8] + dec_nat((-n) as nat)
    } else {
        dec_nat(n as nat)
    }
}

/// Renders `n` in decimal.
pub fn enc_u64(n: u64) -> (r: Vec<u8>)
    ensures
        r@ == dec_nat(n as nat),
{
    let mut r: Vec<u8> = Vec::new();
    let mut m: u64 = n;
    proof {
        assert(dec_nat(n as nat) =~= dec_nat(m as nat) + r@);
    }
    while m >= 10
        invariant
            dec_nat(n as nat) == dec_nat(m as nat) + r@,
        decreases m,
    {
        let d: u8 = (m % 10) as u8;
        proof {
            assert(dec_nat(m as nat) == dec_nat(m as nat / 10) + seq![(48 + m as nat % 10) as u8]);
            assert(m as nat / 10 == (m / 10) as nat);
            assert((48 + m as nat % 10) as u8 == (48 + d) as u8);
            assert(dec_nat(n as nat) =~= dec_nat((m / 10) as nat) + r@.insert(0, (48 + d) as u8));
        }
        r.insert(0, 48 + d);
        m = m / 10;
    }
    let d: u8 = m as u8;
    proof {
        assert(dec_nat(m as nat) =~= seq![(48 + m as nat) as u8]);
        assert((48 + m as nat) as u8 == (48 + d) as u8);
        assert(dec_nat(n as nat) =~= r@.insert(0, (48 + d) as u8));
    }
    r.insert(0, 48 + d);
    r
}

/// Renders `n` in decimal, with a leading `-` when it is negative.
pub fn enc_i64(n: i64) -> (r: Vec<u8>)
    ensures
        r@ == dec_int(n as int),
{
    if n >= 0 {
        let r = enc_u64(n as u64);
        r
    } else {
        let wide: i128 = -(n as i128);
        let m: u64 = wide as u64;
        let mut r = enc_u64(m);
        proof {
            assert(r@.insert(0, 45u8) =~= seq![45u8] + dec_nat(m as nat));
            assert((-(n as int)) as nat == m as nat);
        }
        r.insert(0, 45);
        r
    }
}

} // verus!
