//! Dotted-quad IPv4 addresses: reading one into its big-endian `u32`, and
//! writing a `u32` back as a dotted quad.

use vstd::prelude::*;

use crate::decimal::{decimal, parse_u8, parse_u8_text, u64_to_decimal, lemma_decimal_digits,
    lemma_parse_u8_of_decimal, is_digit};
use crate::text::{split_on, split_text, text_result, lacks, lemma_split_append};

verus! {

/// `u32::from_be_bytes([a, b, c, d])`.
pub open spec fn pack_be(a: u8, b: u8, c: u8, d: u8) -> u32 {
    ((a as u32) << 24u32) | ((b as u32) << 16u32) | ((c as u32) << 8u32) | (d as u32)
}

/// Byte `k` (0 is the most significant) of the big-endian bytes of `x`.
pub open spec fn be_byte(x: u32, k: int) -> u8 {
    ((x >> ((24 - 8 * k) as u32)) & 0xffu32) as u8
}

/// The error text for a text that is not four dot-separated pieces.
pub open spec fn address_error(addr: Seq<char>) -> Seq<char> {
    "invalid IPv4 address: "@ + addr
}

/// The error text for a piece of `addr` that is not a decimal byte.
pub open spec fn octet_error(octet: Seq<char>, addr: Seq<char>) -> Seq<char> {
    "invalid IPv4 octet `"@ + octet + "` in "@ + addr
}

/// What reading `addr` as a dotted quad gives: its four dot-separated pieces
/// each read as `u8::from_str` reads a byte, packed big-endian; else the
/// error for a wrong number of pieces, or for the first piece that is no byte.
pub open spec fn parse_ipv4_text(addr: Seq<char>) -> Result<u32, Seq<char>> {
    let p = split_on(addr, '.');
    if p.len() != 4 {
        Err(address_error(addr))
    } else if parse_u8_text(p[0]) is None {
        Err(octet_error(p[0], addr))
    } else if parse_u8_text(p[1]) is None {
        Err(octet_error(p[1], addr))
    } else if parse_u8_text(p[2]) is None {
        Err(octet_error(p[2], addr))
    } else if parse_u8_text(p[3]) is None {
        Err(octet_error(p[3], addr))
    } else {
        Ok(
            pack_be(
                parse_u8_text(p[0])->0,
                parse_u8_text(p[1])->0,
                parse_u8_text(p[2])->0,
                parse_u8_text(p[3])->0,
            ),
        )
    }
}

/// The dotted-quad text of `x`, as `Ipv4Addr::from(x).to_string()` writes it.
pub open spec fn ipv4_text(x: u32) -> Seq<char> {
    decimal(be_byte(x, 0) as nat) + "."@ + decimal(be_byte(x, 1) as nat) + "."@ + decimal(
        be_byte(x, 2) as nat,
    ) + "."@ + decimal(be_byte(x, 3) as nat)
}

fn octet_error_text(octet: &str, addr: &str) -> (r: String)
    ensures
        r@ == octet_error(octet@, addr@),
{
    let mut e = String::from_str("invalid IPv4 octet `");
    e.append(octet);
    e.append("` in ");
    e.append(addr);
    e
}

/// Validates and packs a dotted-quad IPv4 text into its octets in
/// big-endian order.
pub fn parse_ipv4(addr: &str) -> (r: Result<u32, String>)
    ensures
        text_result(r) == parse_ipv4_text(addr@),
{
    let octets = split_text(addr, '.');
    let ghost p = split_on(addr@, '.');
    assert(octets@.len() == p.len());
    if octets.len() != 4 {
        let mut e = String::from_str("invalid IPv4 address: ");
        e.append(addr);
        return Err(e);
    }
    assert(octets@[0]@ == p[0]);
    assert(octets@[1]@ == p[1]);
    assert(octets@[2]@ == p[2]);
    assert(octets@[3]@ == p[3]);
    let a = match parse_u8(octets[0]) {
        Some(v) => v,
        None => { return Err(octet_error_text(octets[0], addr)); },
    };
    let b = match parse_u8(octets[1]) {
        Some(v) => v,
        None => { return Err(octet_error_text(octets[1], addr)); },
    };
    let c = match parse_u8(octets[2]) {
        Some(v) => v,
        None => { return Err(octet_error_text(octets[2], addr)); },
    };
    let d = match parse_u8(octets[3]) {
        Some(v) => v,
        None => { return Err(octet_error_text(octets[3], addr)); },
    };
    Ok(((a as u32) << 24u32) | ((b as u32) << 16u32) | ((c as u32) << 8u32) | (d as u32))
}

/// Writes `x` as a dotted quad, most significant byte first.
pub fn ipv4_to_string(x: u32) -> (r: String)
    ensures
        r@ == ipv4_text(x),
{
    proof {
        assert((x >> 24u32) & 0xffu32 < 256 && (x >> 16u32) & 0xffu32 < 256
            && (x >> 8u32) & 0xffu32 < 256 && x & 0xffu32 < 256
            && (x >> 0u32) & 0xffu32 == x & 0xffu32) by (bit_vector);
        assert(be_byte(x, 0) as nat == ((x >> 24u32) & 0xffu32) as nat);
        assert(be_byte(x, 1) as nat == ((x >> 16u32) & 0xffu32) as nat);
        assert(be_byte(x, 2) as nat == ((x >> 8u32) & 0xffu32) as nat);
        assert(be_byte(x, 3) as nat == (x & 0xffu32) as nat);
    }
    let mut r = u64_to_decimal(((x >> 24u32) & 0xffu32) as u64);
    r.append(".");
    let s1 = u64_to_decimal(((x >> 16u32) & 0xffu32) as u64);
    r.append(s1.as_str());
    r.append(".");
    let s2 = u64_to_decimal(((x >> 8u32) & 0xffu32) as u64);
    r.append(s2.as_str());
    r.append(".");
    let s3 = u64_to_decimal((x & 0xffu32) as u64);
    r.append(s3.as_str());
    r
}

/// The decimal text of a byte holds no dot.
proof fn lemma_decimal_lacks_dot(n: nat)
    ensures
        lacks(decimal(n), '.'),
{
    lemma_decimal_digits(n);
    assert forall|i: int| 0 <= i < decimal(n).len() implies decimal(n)[i] != '.' by {
        assert(is_digit(decimal(n)[i]));
    }
}

/// Packing the four big-endian bytes of `x` gives `x` back.
proof fn lemma_pack_be_bytes(x: u32)
    ensures
        pack_be(be_byte(x, 0), be_byte(x, 1), be_byte(x, 2), be_byte(x, 3)) == x,
{
    assert((((((x >> 24u32) & 0xffu32) as u8) as u32) << 24u32) | (((((x >> 16u32) & 0xffu32) as u8) as u32) << 16u32)
        | (((((x >> 8u32) & 0xffu32) as u8) as u32) << 8u32) | ((((x >> 0u32) & 0xffu32) as u8) as u32) == x)
        by (bit_vector);
}

/// Reading back the dotted-quad text of any address gives that address.
pub proof fn lemma_parse_ipv4_of_text(x: u32)
    ensures
        parse_ipv4_text(ipv4_text(x)) == Ok::<u32, Seq<char>>(x),
{
    let d0 = decimal(be_byte(x, 0) as nat);
    let d1 = decimal(be_byte(x, 1) as nat);
    let d2 = decimal(be_byte(x, 2) as nat);
    let d3 = decimal(be_byte(x, 3) as nat);
    reveal_strlit(".");
    lemma_decimal_lacks_dot(be_byte(x, 0) as nat);
    lemma_decimal_lacks_dot(be_byte(x, 1) as nat);
    lemma_decimal_lacks_dot(be_byte(x, 2) as nat);
    lemma_decimal_lacks_dot(be_byte(x, 3) as nat);
    lemma_split_append(Seq::<char>::empty(), d0, '.');
    lemma_split_append(d0, d1, '.');
    lemma_split_append(d0.push('.') + d1, d2, '.');
    lemma_split_append((d0.push('.') + d1).push('.') + d2, d3, '.');
    assert(ipv4_text(x) =~= ((d0.push('.') + d1).push('.') + d2).push('.') + d3);
    let p = split_on(ipv4_text(x), '.');
    assert(p =~= seq![d0, d1, d2, d3]);
    lemma_parse_u8_of_decimal(be_byte(x, 0));
    lemma_parse_u8_of_decimal(be_byte(x, 1));
    lemma_parse_u8_of_decimal(be_byte(x, 2));
    lemma_parse_u8_of_decimal(be_byte(x, 3));
    lemma_pack_be_bytes(x);
}

/// Reading a dotted quad succeeds exactly where the text is four
/// dot-separated pieces that each read as a byte, and then gives the value
/// whose big-endian bytes are those bytes, most significant first.
pub proof fn lemma_parse_ipv4_value(addr: Seq<char>)
    ensures
        ({
            let p = split_on(addr, '.');
            &&& parse_ipv4_text(addr) is Ok <==> (p.len() == 4 && parse_u8_text(p[0]) is Some
                && parse_u8_text(p[1]) is Some && parse_u8_text(p[2]) is Some && parse_u8_text(
                p[3],
            ) is Some)
            &&& parse_ipv4_text(addr) matches Ok(v) ==> v as int == (parse_u8_text(p[0])->0 as int)
                * 16777216 + (parse_u8_text(p[1])->0 as int) * 65536 + (parse_u8_text(p[2])->0 as int)
                * 256 + (parse_u8_text(p[3])->0 as int)
        }),
{
    let p = split_on(addr, '.');
    if parse_ipv4_text(addr) is Ok {
        let a = parse_u8_text(p[0])->0;
        let b = parse_u8_text(p[1])->0;
        let c = parse_u8_text(p[2])->0;
        let d = parse_u8_text(p[3])->0;
        assert((((a as u32) << 24u32) | ((b as u32) << 16u32) | ((c as u32) << 8u32) | (d as u32))
            as int == (a as int) * 16777216 + (b as int) * 65536 + (c as int) * 256 + (d as int))
            by (bit_vector);
    }
}

} // verus!
