//! Fixed-shape values read from the value bytes of one record.
use vstd::prelude::*;
use vstd::utf8::{decode_utf8, valid_utf8};

verus! {

/// An IPv4 address, held as its four octets in network order.
#[derive(Debug, Clone, Copy, PartialEq, Eq, Hash)]
pub struct Ipv4Address {
    pub octets: [u8; 4],
}

impl Ipv4Address {
    /// The address `a.b.c.d`.
    pub fn new(a: u8, b: u8, c: u8, d: u8) -> (r: Ipv4Address)
        ensures
            r.octets@ == seq![a, b, c, d],
    {
        let r = Ipv4Address { octets: [a, b, c, d] };
        assert(r.octets@ =~= seq![a, b, c, d]);
        r
    }
}

/// The big-endian unsigned value of two bytes.
pub open spec fn be_u16(v: Seq<u8>) -> int {
    v[0] * 256 + v[1]
}

/// The big-endian unsigned value of four bytes.
pub open spec fn be_u32(v: Seq<u8>) -> int {
    v[0] * 16777216 + v[1] * 65536 + v[2] * 256 + v[3]
}

/// The big-endian two's complement value of four bytes.
pub open spec fn be_i32(v: Seq<u8>) -> int {
    if be_u32(v) >= 2147483648 {
        be_u32(v) - 4294967296
    } else {
        be_u32(v)
    }
}

/// Reads a `u32` from exactly four bytes.
pub fn read_u32(v: &[u8]) -> (r: Option<u32>)
    ensures
        r is Some <==> v@.len() == 4,
        r matches Some(x) ==> x as int == be_u32(v@),
{
    if v.len() != 4 {
        return None;
    }
    Some((v[0] as u32) * 16777216 + (v[1] as u32) * 65536 + (v[2] as u32) * 256 + v[3] as u32)
}

/// Reads a `u8` from exactly one byte.
pub fn read_u8(v: &[u8]) -> (r: Option<u8>)
    ensures
        r is Some <==> v@.len() == 1,
        r matches Some(x) ==> x == v@[0],
{
    if v.len() != 1 {
        return None;
    }
    Some(v[0])
}

/// Reads a `u16` from exactly two bytes.
pub fn read_u16(v: &[u8]) -> (r: Option<u16>)
    ensures
        r is Some <==> v@.len() == 2,
        r matches Some(x) ==> x as int == be_u16(v@),
{
    if v.len() != 2 {
        return None;
    }
    Some((v[0] as u16) * 256 + v[1] as u16)
}

/// Reads an `i32` from exactly four bytes.
pub fn read_i32(v: &[u8]) -> (r: Option<i32>)
    ensures
        r is Some <==> v@.len() == 4,
        r matches Some(x) ==> x as int == be_i32(v@),
{
    match read_u32(v) {
        None => None,
        Some(u) => {
            if u >= 2147483648 {
                Some(((u - 2147483648) as i32) - 2147483647 - 1)
            } else {
                Some(u as i32)
            }
        },
    }
}

/// A flag is the single byte `1`; every other value is rejected.
pub open spec fn flag_ok(v: Seq<u8>) -> bool {
    v.len() == 1 && v[0] == 1
}

/// Reads a flag: exactly one byte, which must be `1`.
pub fn read_flag(v: &[u8]) -> (r: Option<bool>)
    ensures
        r is Some <==> flag_ok(v@),
        r matches Some(x) ==> x,
{
    if v.len() == 1 && v[0] == 1 {
        Some(true)
    } else {
        None
    }
}

/// `a` is the address written in the four bytes of `v` from `i` on.
pub open spec fn ipv4_at(a: Ipv4Address, v: Seq<u8>, i: int) -> bool {
    a.octets@ == v.subrange(i, i + 4)
}

/// Reads one address from exactly four bytes.
pub fn read_ipv4(v: &[u8]) -> (r: Option<Ipv4Address>)
    ensures
        r is Some <==> v@.len() == 4,
        r matches Some(a) ==> ipv4_at(a, v@, 0),
{
    if v.len() != 4 {
        return None;
    }
    let a = Ipv4Address::new(v[0], v[1], v[2], v[3]);
    assert(a.octets@ =~= v@.subrange(0, 4));
    Some(a)
}

/// `l` holds, in order, the addresses written in `v`, four bytes each.
pub open spec fn ipv4_list_at(l: Seq<Ipv4Address>, v: Seq<u8>) -> bool {
    &&& l.len() * 4 == v.len()
    &&& forall|k: int| 0 <= k < l.len() ==> ipv4_at(#[trigger] l[k], v, 4 * k)
}

/// A list of addresses is a positive multiple of four bytes.
pub open spec fn ipv4_list_ok(v: Seq<u8>) -> bool {
    v.len() > 0 && v.len() % 4 == 0
}

/// Reads a non-empty list of addresses.
pub fn read_ipv4_list(v: &[u8]) -> (r: Option<Vec<Ipv4Address>>)
    ensures
        r is Some <==> ipv4_list_ok(v@),
        r matches Some(l) ==> ipv4_list_at(l@, v@),
{
    if v.len() == 0 || v.len() % 4 != 0 {
        return None;
    }
    let len: usize = v.len();
    let n: usize = len / 4;
    let mut out: Vec<Ipv4Address> = Vec::new();
    let mut i: usize = 0;
    while i < n
        invariant
            n * 4 == len,
            len == v@.len(),
            i <= n,
            out@.len() == i,
            forall|k: int| 0 <= k < i ==> ipv4_at(#[trigger] out@[k], v@, 4 * k),
        decreases n - i,
    {
        let j: usize = 4 * i;
        let a = Ipv4Address::new(v[j], v[j + 1], v[j + 2], v[j + 3]);
        assert(a.octets@ =~= v@.subrange(4 * i, 4 * i + 4));
        out.push(a);
        i = i + 1;
    }
    Some(out)
}

/// `l` holds, in order, the (address, mask) pairs written in `v`: eight bytes
/// each, the address first.
pub open spec fn ipv4_pairs_at(l: Seq<(Ipv4Address, Ipv4Address)>, v: Seq<u8>) -> bool {
    &&& l.len() * 8 == v.len()
    &&& forall|k: int|
        0 <= k < l.len() ==> ipv4_at((#[trigger] l[k]).0, v, 8 * k) && ipv4_at(l[k].1, v, 8 * k + 4)
}

/// A list of pairs is a positive multiple of eight bytes.
pub open spec fn ipv4_pairs_ok(v: Seq<u8>) -> bool {
    v.len() > 0 && v.len() % 8 == 0
}

/// Reads a non-empty list of (address, mask) pairs.
pub fn read_ipv4_pairs(v: &[u8]) -> (r: Option<Vec<(Ipv4Address, Ipv4Address)>>)
    ensures
        r is Some <==> ipv4_pairs_ok(v@),
        r matches Some(l) ==> ipv4_pairs_at(l@, v@),
{
    if v.len() == 0 || v.len() % 8 != 0 {
        return None;
    }
    let len: usize = v.len();
    let n: usize = len / 8;
    let mut out: Vec<(Ipv4Address, Ipv4Address)> = Vec::new();
    let mut i: usize = 0;
    while i < n
        invariant
            n * 8 == len,
            len == v@.len(),
            i <= n,
            out@.len() == i,
            forall|k: int|
                0 <= k < i ==> ipv4_at((#[trigger] out@[k]).0, v@, 8 * k) && ipv4_at(
                    out@[k].1,
                    v@,
                    8 * k + 4,
                ),
        decreases n - i,
    {
        let j: usize = 8 * i;
        let a = Ipv4Address::new(v[j], v[j + 1], v[j + 2], v[j + 3]);
        let m = Ipv4Address::new(v[j + 4], v[j + 5], v[j + 6], v[j + 7]);
        assert(a.octets@ =~= v@.subrange(8 * i, 8 * i + 4));
        assert(m.octets@ =~= v@.subrange(8 * i + 4, 8 * i + 8));
        out.push((a, m));
        i = i + 1;
    }
    Some(out)
}

/// `l` holds, in order, the big-endian `u16` values written in `v`.
pub open spec fn u16_list_at(l: Seq<u16>, v: Seq<u8>) -> bool {
    &&& l.len() * 2 == v.len()
    &&& forall|k: int| 0 <= k < l.len() ==> #[trigger] l[k] as int == be_u16(v.subrange(2 * k, 2 * k + 2))
}

/// A list of `u16` values is a positive multiple of two bytes.
pub open spec fn u16_list_ok(v: Seq<u8>) -> bool {
    v.len() > 0 && v.len() % 2 == 0
}

/// Reads a non-empty list of `u16` values.
pub fn read_u16_list(v: &[u8]) -> (r: Option<Vec<u16>>)
    ensures
        r is Some <==> u16_list_ok(v@),
        r matches Some(l) ==> u16_list_at(l@, v@),
{
    if v.len() == 0 || v.len() % 2 != 0 {
        return None;
    }
    let len: usize = v.len();
    let n: usize = len / 2;
    let mut out: Vec<u16> = Vec::new();
    let mut i: usize = 0;
    while i < n
        invariant
            n * 2 == len,
            len == v@.len(),
            i <= n,
            out@.len() == i,
            forall|k: int| 0 <= k < i ==> #[trigger] out@[k] as int == be_u16(v@.subrange(2 * k, 2 * k + 2)),
        decreases n - i,
    {
        let j: usize = 2 * i;
        let x: u16 = (v[j] as u16) * 256 + v[j + 1] as u16;
        assert(be_u16(v@.subrange(2 * i, 2 * i + 2)) == v@[j as int] * 256 + v@[j + 1]);
        out.push(x);
        i = i + 1;
    }
    Some(out)
}

/// Copies value bytes out of the buffer.
pub fn read_bytes(v: &[u8]) -> (r: Vec<u8>)
    ensures
        r@ == v@,
{
    vstd::slice::slice_to_vec(v)
}

/// Relies on `String::from_utf8`: it succeeds exactly on well-formed UTF-8,
/// and the string then holds the characters that the bytes encode.
#[verifier::external_body]
fn utf8_to_string(v: Vec<u8>) -> (r: Option<String>)
    ensures
        r is Some <==> valid_utf8(v@),
        r matches Some(s) ==> s@ == decode_utf8(v@),
{
    match String::from_utf8(v) {
        Ok(s) => Some(s),
        Err(_) => None,
    }
}

/// Reads text: the whole value must be well-formed UTF-8.
pub fn read_text(v: &[u8]) -> (r: Option<String>)
    ensures
        r is Some <==> valid_utf8(v@),
        r matches Some(s) ==> s@ == decode_utf8(v@),
{
    utf8_to_string(read_bytes(v))
}

} // verus!
