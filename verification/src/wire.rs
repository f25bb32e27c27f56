//! Little-endian integers on the wire.
//!
//! Every multi-byte integer of the protocol is written least significant
//! byte first. The model is arithmetic: a number is the sum of its base-256
//! digits.

use vstd::prelude::*;

verus! {

/// 256 to the power `n`.
pub open spec fn pow256(n: nat) -> nat
    decreases n,
{
    if n == 0 {
        1
    } else {
        256 * pow256((n - 1) as nat)
    }
}

/// The `n` low-order base-256 digits of `x`, least significant first.
pub open spec fn le_bytes(x: nat, n: nat) -> Seq<u8>
    decreases n,
{
    if n == 0 {
        Seq::empty()
    } else {
        seq![(x % 256) as u8] + le_bytes(x / 256, (n - 1) as nat)
    }
}

/// The number whose base-256 digits, least significant first, are `s`.
pub open spec fn le_value(s: Seq<u8>) -> nat
    decreases s.len(),
{
    if s.len() == 0 {
        0
    } else {
        s[0] as nat + 256 * le_value(s.drop_first())
    }
}

/// `n` digits are `n` bytes.
pub proof fn lemma_le_bytes_len(x: nat, n: nat)
    ensures
        le_bytes(x, n).len() == n,
    decreases n,
{
    if n > 0 {
        lemma_le_bytes_len(x / 256, (n - 1) as nat);
    }
}

/// A sequence of `n` bytes stands for a number below `256^n`.
pub proof fn lemma_le_value_bound(s: Seq<u8>)
    ensures
        le_value(s) < pow256(s.len()),
    decreases s.len(),
{
    if s.len() > 0 {
        let rest = s.drop_first();
        lemma_le_value_bound(rest);
        let p = pow256(rest.len());
        assert(le_value(rest) + 1 <= p);
        assert(256 * (le_value(rest) + 1) <= 256 * p) by (nonlinear_arith)
            requires
                le_value(rest) + 1 <= p,
        ;
    }
}

/// Decoding what was encoded gives the number back, if it fits in `n` bytes.
pub proof fn lemma_le_value_of_bytes(x: nat, n: nat)
    requires
        x < pow256(n),
    ensures
        le_value(le_bytes(x, n)) == x,
    decreases n,
{
    if n > 0 {
        let m = (n - 1) as nat;
        let s = le_bytes(x, n);
        assert(x / 256 < pow256(m)) by (nonlinear_arith)
            requires
                x < 256 * pow256(m),
        ;
        lemma_le_value_of_bytes(x / 256, m);
        assert(s.drop_first() =~= le_bytes(x / 256, m));
        assert(s[0] == (x % 256) as u8);
        assert(x == 256 * (x / 256) + x % 256) by (nonlinear_arith);
    }
}

/// The number in the `n` bytes of `b` that start at `at`.
pub open spec fn uint_at(b: Seq<u8>, at: int, n: nat) -> nat {
    le_value(b.subrange(at, at + n))
}

/// What stands after `prefix` is found again at `prefix.len()`.
pub proof fn lemma_uint_at_concat(prefix: Seq<u8>, x: nat, n: nat, suffix: Seq<u8>)
    requires
        x < pow256(n),
    ensures
        uint_at(prefix + le_bytes(x, n) + suffix, prefix.len() as int, n) == x,
{
    lemma_le_bytes_len(x, n);
    lemma_le_value_of_bytes(x, n);
    let b = prefix + le_bytes(x, n) + suffix;
    assert(b.subrange(prefix.len() as int, (prefix.len() + n) as int) =~= le_bytes(x, n));
}

/// The powers that the integer widths of the protocol need.
pub proof fn lemma_pow256_values()
    ensures
        pow256(1) == 0x100,
        pow256(2) == 0x1_0000,
        pow256(4) == 0x1_0000_0000,
        pow256(8) == 0x1_0000_0000_0000_0000,
        pow256(16) == 0x1_0000_0000_0000_0000_0000_0000_0000_0000,
{
    reveal_with_fuel(pow256, 17);
}

/// A higher power is not smaller.
pub proof fn lemma_pow256_monotonic(a: nat, b: nat)
    requires
        a <= b,
    ensures
        pow256(a) <= pow256(b),
    decreases b,
{
    if a < b {
        lemma_pow256_monotonic(a, (b - 1) as nat);
    }
}

/// Appends the `n` low-order bytes of `x`, least significant first.
pub fn put_le(out: &mut Vec<u8>, x: u128, n: usize)
    requires
        n <= 16,
    ensures
        final(out)@ == old(out)@ + le_bytes(x as nat, n as nat),
{
    let mut rest: u128 = x;
    let mut i: usize = 0;
    while i < n
        invariant
            i <= n <= 16,
            out@ + le_bytes(rest as nat, (n - i) as nat) == old(out)@ + le_bytes(
                x as nat,
                n as nat,
            ),
        decreases n - i,
    {
        let ghost before = out@;
        let byte: u8 = (rest % 256) as u8;
        out.push(byte);
        proof {
            let tail = le_bytes(rest as nat / 256, (n - i - 1) as nat);
            assert(le_bytes(rest as nat, (n - i) as nat) == seq![byte] + tail);
            assert(before.push(byte) + tail =~= before + (seq![byte] + tail));
        }
        rest = rest / 256;
        i = i + 1;
    }
    assert(out@ + le_bytes(rest as nat, 0) =~= out@);
}

/// Reads the number in the `n` bytes of `buf` that start at `at`.
pub fn get_le(buf: &[u8], at: usize, n: usize) -> (x: u128)
    requires
        n <= 16,
        at + n <= buf@.len(),
    ensures
        x as nat == uint_at(buf@, at as int, n as nat),
{
    let len = buf.len();
    let mut acc: u128 = 0;
    let mut i: usize = n;
    proof {
        assert(buf@.subrange(at + n, at + n) =~= Seq::<u8>::empty());
    }
    while i > 0
        invariant
            i <= n <= 16,
            at + n <= buf@.len() == len,
            acc as nat == le_value(buf@.subrange(at + i, at + n)),
        decreases i,
    {
        i = i - 1;
        let byte: u8 = buf[at + i];
        proof {
            let high = buf@.subrange(at + i + 1, at + n);
            let all = buf@.subrange(at + i, at + n);
            assert(all.drop_first() =~= high);
            assert(all[0] == byte);
            lemma_le_value_bound(high);
            lemma_pow256_monotonic(high.len(), 15);
            lemma_pow256_values();
            assert(pow256(16) == 256 * pow256(15));
        }
        acc = acc * 256 + byte as u128;
    }
    acc
}

/// Appends a `u16`, two bytes.
pub fn put_u16(out: &mut Vec<u8>, x: u16)
    ensures
        final(out)@ == old(out)@ + le_bytes(x as nat, 2),
{
    put_le(out, x as u128, 2);
}

/// Appends a `u32`, four bytes.
pub fn put_u32(out: &mut Vec<u8>, x: u32)
    ensures
        final(out)@ == old(out)@ + le_bytes(x as nat, 4),
{
    put_le(out, x as u128, 4);
}

/// Appends a `u64`, eight bytes.
pub fn put_u64(out: &mut Vec<u8>, x: u64)
    ensures
        final(out)@ == old(out)@ + le_bytes(x as nat, 8),
{
    put_le(out, x as u128, 8);
}

/// Appends a `u128`, sixteen bytes.
pub fn put_u128(out: &mut Vec<u8>, x: u128)
    ensures
        final(out)@ == old(out)@ + le_bytes(x as nat, 16),
{
    put_le(out, x, 16);
}

/// Reads the `u16` in the two bytes at `at`.
pub fn get_u16(buf: &[u8], at: usize) -> (x: u16)
    requires
        at + 2 <= buf@.len(),
    ensures
        x as nat == uint_at(buf@, at as int, 2),
{
    let wide = get_le(buf, at, 2);
    proof {
        lemma_le_value_bound(buf@.subrange(at as int, at + 2));
        lemma_pow256_values();
    }
    wide as u16
}

/// Reads the `u32` in the four bytes at `at`.
pub fn get_u32(buf: &[u8], at: usize) -> (x: u32)
    requires
        at + 4 <= buf@.len(),
    ensures
        x as nat == uint_at(buf@, at as int, 4),
{
    let wide = get_le(buf, at, 4);
    proof {
        lemma_le_value_bound(buf@.subrange(at as int, at + 4));
        lemma_pow256_values();
    }
    wide as u32
}

/// Reads the `u64` in the eight bytes at `at`.
pub fn get_u64(buf: &[u8], at: usize) -> (x: u64)
    requires
        at + 8 <= buf@.len(),
    ensures
        x as nat == uint_at(buf@, at as int, 8),
{
    let wide = get_le(buf, at, 8);
    proof {
        lemma_le_value_bound(buf@.subrange(at as int, at + 8));
        lemma_pow256_values();
    }
    wide as u64
}

/// Reads the `u128` in the sixteen bytes at `at`.
pub fn get_u128(buf: &[u8], at: usize) -> (x: u128)
    requires
        at + 16 <= buf@.len(),
    ensures
        x as nat == uint_at(buf@, at as int, 16),
{
    get_le(buf, at, 16)
}

/// Appends the bytes of `s`.
pub fn put_bytes(out: &mut Vec<u8>, s: &[u8])
    ensures
        final(out)@ == old(out)@ + s@,
{
    let n = s.len();
    let mut i: usize = 0;
    while i < n
        invariant
            i <= n == s@.len(),
            out@ == old(out)@ + s@.subrange(0, i as int),
        decreases n - i,
    {
        out.push(s[i]);
        assert(s@.subrange(0, i + 1) =~= s@.subrange(0, i as int).push(s@[i as int]));
        i = i + 1;
    }
    assert(s@.subrange(0, n as int) =~= s@);
}

/// The bytes of `buf` from `from` up to `to`, as a vector of their own.
pub fn copy_range(buf: &[u8], from: usize, to: usize) -> (v: Vec<u8>)
    requires
        from <= to <= buf@.len(),
    ensures
        v@ == buf@.subrange(from as int, to as int),
{
    let mut v: Vec<u8> = Vec::new();
    let mut i: usize = from;
    while i < to
        invariant
            from <= i <= to <= buf@.len(),
            v@ == buf@.subrange(from as int, i as int),
        decreases to - i,
    {
        v.push(buf[i]);
        assert(buf@.subrange(from as int, i + 1) =~= buf@.subrange(from as int, i as int).push(
            buf@[i as int],
        ));
        i = i + 1;
    }
    v
}

/// A field: its length in two bytes, then its bytes.
pub open spec fn field_bytes(s: Seq<u8>) -> Seq<u8> {
    le_bytes(s.len(), 2) + s
}

/// A whole field stands in `b` at `at`.
pub open spec fn has_field(b: Seq<u8>, at: int) -> bool {
    at + 2 <= b.len() && at + 2 + uint_at(b, at, 2) <= b.len()
}

/// The bytes of the field at `at`, without its length.
pub open spec fn field_at(b: Seq<u8>, at: int) -> Seq<u8> {
    b.subrange(at + 2, at + 2 + uint_at(b, at, 2))
}

/// Where the field at `at` ends.
pub open spec fn field_end(b: Seq<u8>, at: int) -> int {
    at + 2 + uint_at(b, at, 2)
}

/// A field that was written after `prefix` is read back at `prefix.len()`.
pub proof fn lemma_field_concat(prefix: Seq<u8>, s: Seq<u8>, suffix: Seq<u8>)
    requires
        s.len() <= 0xffff,
    ensures
        ({
            let b = prefix + field_bytes(s) + suffix;
            let at = prefix.len() as int;
            &&& has_field(b, at)
            &&& field_at(b, at) == s
            &&& field_end(b, at) == at + 2 + s.len()
        }),
{
    let b = prefix + field_bytes(s) + suffix;
    let at = prefix.len() as int;
    lemma_pow256_values();
    lemma_le_bytes_len(s.len(), 2);
    lemma_uint_at_concat(prefix, s.len(), 2, s + suffix);
    assert(prefix + le_bytes(s.len(), 2) + (s + suffix) =~= b);
    assert(b.subrange(at + 2, at + 2 + s.len()) =~= s);
}

/// Appends `s` as a field.
pub fn put_field(out: &mut Vec<u8>, s: &[u8])
    requires
        s@.len() <= 0xffff,
    ensures
        final(out)@ == old(out)@ + field_bytes(s@),
{
    let ghost before = out@;
    put_u16(out, s.len() as u16);
    put_bytes(out, s);
    assert(before + le_bytes(s@.len(), 2) + s@ =~= before + field_bytes(s@));
}

/// Reads the field at `at`: its bytes, and where it ends.
pub fn get_field(buf: &[u8], at: usize) -> (r: Option<(Vec<u8>, usize)>)
    requires
        at <= buf@.len(),
    ensures
        match r {
            Some((bytes, next)) => has_field(buf@, at as int) && bytes@ == field_at(buf@, at as int)
                && next == field_end(buf@, at as int),
            None => !has_field(buf@, at as int),
        },
{
    let len = buf.len();
    if len - at < 2 {
        return None;
    }
    let n = get_u16(buf, at) as usize;
    if len - at - 2 < n {
        return None;
    }
    let bytes = copy_range(buf, at + 2, at + 2 + n);
    Some((bytes, at + 2 + n))
}

/// An endpoint on the wire: the address in sixteen bytes, the port in two.
pub open spec fn endpoint_bytes(e: (u128, u16)) -> Seq<u8> {
    le_bytes(e.0 as nat, 16) + le_bytes(e.1 as nat, 2)
}

/// The endpoint in the eighteen bytes at `at`.
pub open spec fn endpoint_at(b: Seq<u8>, at: int) -> (u128, u16) {
    (uint_at(b, at, 16) as u128, uint_at(b, at + 16, 2) as u16)
}

/// A list of endpoints on the wire, one after the other.
pub open spec fn endpoints_bytes(s: Seq<(u128, u16)>) -> Seq<u8>
    decreases s.len(),
{
    if s.len() == 0 {
        Seq::empty()
    } else {
        endpoints_bytes(s.drop_last()) + endpoint_bytes(s.last())
    }
}

/// The `count` endpoints that start at `at`.
pub open spec fn endpoints_at(b: Seq<u8>, at: int, count: nat) -> Seq<(u128, u16)> {
    Seq::new(count, |i: int| endpoint_at(b, at + 18 * i))
}

/// An endpoint is eighteen bytes.
pub proof fn lemma_endpoint_bytes_len(e: (u128, u16))
    ensures
        endpoint_bytes(e).len() == 18,
{
    lemma_le_bytes_len(e.0 as nat, 16);
    lemma_le_bytes_len(e.1 as nat, 2);
}

/// A list of endpoints is eighteen bytes for each.
pub proof fn lemma_endpoints_bytes_len(s: Seq<(u128, u16)>)
    ensures
        endpoints_bytes(s).len() == 18 * s.len(),
    decreases s.len(),
{
    if s.len() > 0 {
        lemma_endpoints_bytes_len(s.drop_last());
        lemma_endpoint_bytes_len(s.last());
    }
}

/// An endpoint that was written after `prefix` is read back at `prefix.len()`.
pub proof fn lemma_endpoint_concat(prefix: Seq<u8>, e: (u128, u16), suffix: Seq<u8>)
    ensures
        endpoint_at(prefix + endpoint_bytes(e) + suffix, prefix.len() as int) == e,
{
    let b = prefix + endpoint_bytes(e) + suffix;
    lemma_pow256_values();
    lemma_le_bytes_len(e.0 as nat, 16);
    lemma_le_bytes_len(e.1 as nat, 2);
    lemma_uint_at_concat(prefix, e.0 as nat, 16, le_bytes(e.1 as nat, 2) + suffix);
    assert(prefix + le_bytes(e.0 as nat, 16) + (le_bytes(e.1 as nat, 2) + suffix) =~= b);
    lemma_uint_at_concat(prefix + le_bytes(e.0 as nat, 16), e.1 as nat, 2, suffix);
    assert(prefix + le_bytes(e.0 as nat, 16) + le_bytes(e.1 as nat, 2) + suffix =~= b);
}

/// A list that was written after `prefix` is read back, entry by entry.
pub proof fn lemma_endpoints_concat(prefix: Seq<u8>, s: Seq<(u128, u16)>, suffix: Seq<u8>)
    ensures
        endpoints_at(prefix + endpoints_bytes(s) + suffix, prefix.len() as int, s.len()) == s,
    decreases s.len(),
{
    let b = prefix + endpoints_bytes(s) + suffix;
    let at = prefix.len() as int;
    if s.len() > 0 {
        let front = s.drop_last();
        let last = s.last();
        lemma_endpoints_bytes_len(front);
        lemma_endpoint_bytes_len(last);
        lemma_endpoints_concat(prefix, front, endpoint_bytes(last) + suffix);
        assert(prefix + endpoints_bytes(front) + (endpoint_bytes(last) + suffix) =~= b);
        lemma_endpoint_concat(prefix + endpoints_bytes(front), last, suffix);
        assert(prefix + endpoints_bytes(front) + endpoint_bytes(last) + suffix =~= b);
        assert forall|i: int| 0 <= i < s.len() implies endpoints_at(b, at, s.len())[i] == s[i] by {
            if i < front.len() {
                assert(endpoints_at(b, at, front.len())[i] == front[i]);
            }
        }
    }
    assert(endpoints_at(b, at, s.len()) =~= s);
}

/// Appends one endpoint.
pub fn put_endpoint(out: &mut Vec<u8>, e: (u128, u16))
    ensures
        final(out)@ == old(out)@ + endpoint_bytes(e),
{
    let ghost before = out@;
    put_u128(out, e.0);
    put_u16(out, e.1);
    assert(before + le_bytes(e.0 as nat, 16) + le_bytes(e.1 as nat, 2) =~= before + endpoint_bytes(
        e,
    ));
}

/// Appends a list of endpoints.
pub fn put_endpoints(out: &mut Vec<u8>, s: &Vec<(u128, u16)>)
    ensures
        final(out)@ == old(out)@ + endpoints_bytes(s@),
{
    let n = s.len();
    let mut i: usize = 0;
    assert(old(out)@ + endpoints_bytes(s@.take(0)) =~= old(out)@);
    while i < n
        invariant
            i <= n == s@.len(),
            out@ == old(out)@ + endpoints_bytes(s@.take(i as int)),
        decreases n - i,
    {
        let ghost before = out@;
        put_endpoint(out, s[i]);
        proof {
            let done = s@.take(i as int);
            let next = s@.take(i + 1);
            assert(next.drop_last() =~= done);
            assert(next.last() == s@[i as int]);
            assert(old(out)@ + endpoints_bytes(done) + endpoint_bytes(s@[i as int]) =~= old(out)@
                + endpoints_bytes(next));
        }
        i = i + 1;
    }
    assert(s@.take(n as int) =~= s@);
}

/// Reads the `count` endpoints that start at `at`.
pub fn get_endpoints(buf: &[u8], at: usize, count: usize) -> (v: Vec<(u128, u16)>)
    requires
        at + 18 * count <= buf@.len(),
    ensures
        v@ == endpoints_at(buf@, at as int, count as nat),
{
    let len = buf.len();
    let mut v: Vec<(u128, u16)> = Vec::new();
    let mut i: usize = 0;
    while i < count
        invariant
            i <= count,
            at + 18 * count <= buf@.len() == len,
            v@ == endpoints_at(buf@, at as int, i as nat),
        decreases count - i,
    {
        let pos = at + 18 * i;
        let ip = get_u128(buf, pos);
        let port = get_u16(buf, pos + 16);
        v.push((ip, port));
        assert(v@ =~= endpoints_at(buf@, at as int, (i + 1) as nat));
        i = i + 1;
    }
    v
}

/// A copy of a list of endpoints.
pub fn copy_endpoints(s: &Vec<(u128, u16)>) -> (v: Vec<(u128, u16)>)
    ensures
        v@ == s@,
{
    let n = s.len();
    let mut v: Vec<(u128, u16)> = Vec::new();
    let mut i: usize = 0;
    while i < n
        invariant
            i <= n == s@.len(),
            v@ == s@.take(i as int),
        decreases n - i,
    {
        v.push(s[i]);
        assert(v@ =~= s@.take(i + 1));
        i = i + 1;
    }
    assert(s@.take(n as int) =~= s@);
    v
}

} // verus!
