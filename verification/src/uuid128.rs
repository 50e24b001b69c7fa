use vstd::prelude::*;

verus! {

/// The 16-bit Bluetooth SDP short form `XXXX` expands to the 128-bit
/// identifier `0000XXXX-0000-1000-8000-00805f9b34fb`. These two constants are
/// the fixed halves of that base identifier with the `XXXX` field zeroed.
pub const BASE_UUID_HI: u64 = 0x0000_0000_0000_1000;
pub const BASE_UUID_LO: u64 = 0x8000_0080_5F9B_34FB;

/// A 128-bit attribute identifier, stored as the two 64-bit halves of its
/// big-endian value: `hi` covers the first sixteen hexadecimal digits of the
/// canonical text form and `lo` the remaining sixteen.
#[derive(Debug, Clone, Copy, PartialEq, Eq, Hash, Structural)]
pub struct Uuid {
    pub hi: u64,
    pub lo: u64,
}

impl Uuid {
    /// The identifier whose canonical digits are those of `hi` followed by
    /// those of `lo`.
    pub fn from_u64_pair(hi: u64, lo: u64) -> (r: Uuid)
        ensures
            r.hi == hi,
            r.lo == lo,
    {
        Uuid { hi, lo }
    }

    /// Expands a 16-bit SDP short identifier into the Bluetooth base
    /// identifier, placing the short value in digits four to eight of the
    /// canonical form.
    pub fn from_sdp_short_uuid(short: u16) -> (r: Uuid)
        ensures
            r.hi == BASE_UUID_HI + short * 0x1_0000_0000,
            r.lo == BASE_UUID_LO,
    {
        Uuid { hi: BASE_UUID_HI + (short as u64) * 0x1_0000_0000, lo: BASE_UUID_LO }
    }

    /// The `(data1, data2, data3)` leading fields of the identifier, as a
    /// GUID-style decomposition of `hi`: the first eight canonical digits,
    /// then the next four, then the next four.
    pub fn to_fields(&self) -> (r: (u32, u16, u16))
        ensures
            r.0 == self.hi / 0x1_0000_0000,
            r.1 == (self.hi / 0x1_0000) % 0x1_0000,
            r.2 == self.hi % 0x1_0000,
    {
        (
            (self.hi / 0x1_0000_0000) as u32,
            ((self.hi / 0x1_0000) % 0x1_0000) as u16,
            (self.hi % 0x1_0000) as u16,
        )
    }

    /// The sixteen bytes of the identifier in big-endian order.
    pub fn to_bytes(&self) -> (r: Vec<u8>)
        ensures
            r@ == uuid_bytes(*self),
    {
        let mut out: Vec<u8> = Vec::new();
        push_be_bytes(&mut out, self.hi);
        push_be_bytes(&mut out, self.lo);
        proof {
            assert(out@ =~= uuid_bytes(*self));
        }
        out
    }
}

/// The `n` lowest bytes of `v`, most significant first.
pub open spec fn be_bytes_rec(v: nat, n: nat) -> Seq<u8>
    decreases n,
{
    if n == 0 {
        Seq::empty()
    } else {
        be_bytes_rec(v / 256, (n - 1) as nat).push((v % 256) as u8)
    }
}

/// The eight big-endian bytes of a 64-bit half.
pub open spec fn be_bytes8(v: u64) -> Seq<u8> {
    be_bytes_rec(v as nat, 8)
}

/// `be_bytes_rec` yields exactly the asked-for number of bytes.
pub proof fn lemma_be_bytes_rec_len(v: nat, n: nat)
    ensures
        be_bytes_rec(v, n).len() == n,
    decreases n,
{
    if n > 0 {
        lemma_be_bytes_rec_len(v / 256, (n - 1) as nat);
    }
}

/// The sixteen big-endian bytes of an identifier.
pub open spec fn uuid_bytes(u: Uuid) -> Seq<u8> {
    be_bytes8(u.hi) + be_bytes8(u.lo)
}

/// Appends the eight big-endian bytes of `v`.
fn push_be_bytes(out: &mut Vec<u8>, v: u64)
    ensures
        final(out)@ == old(out)@ + be_bytes8(v),
{
    let t7: u64 = v;
    let b7: u8 = (t7 % 0x100) as u8;
    let t6: u64 = t7 / 0x100;
    let b6: u8 = (t6 % 0x100) as u8;
    let t5: u64 = t6 / 0x100;
    let b5: u8 = (t5 % 0x100) as u8;
    let t4: u64 = t5 / 0x100;
    let b4: u8 = (t4 % 0x100) as u8;
    let t3: u64 = t4 / 0x100;
    let b3: u8 = (t3 % 0x100) as u8;
    let t2: u64 = t3 / 0x100;
    let b2: u8 = (t2 % 0x100) as u8;
    let t1: u64 = t2 / 0x100;
    let b1: u8 = (t1 % 0x100) as u8;
    let t0: u64 = t1 / 0x100;
    let b0: u8 = (t0 % 0x100) as u8;
    out.push(b0);
    out.push(b1);
    out.push(b2);
    out.push(b3);
    out.push(b4);
    out.push(b5);
    out.push(b6);
    out.push(b7);
    proof {
        assert(be_bytes_rec(t0 as nat / 256, 0) =~= Seq::<u8>::empty());
        assert(be_bytes_rec(t0 as nat, 1) =~= seq![b0]);
        assert(be_bytes_rec(t1 as nat, 2) =~= seq![b0, b1]);
        assert(be_bytes_rec(t2 as nat, 3) =~= seq![b0, b1, b2]);
        assert(be_bytes_rec(t3 as nat, 4) =~= seq![b0, b1, b2, b3]);
        assert(be_bytes_rec(t4 as nat, 5) =~= seq![b0, b1, b2, b3, b4]);
        assert(be_bytes_rec(t5 as nat, 6) =~= seq![b0, b1, b2, b3, b4, b5]);
        assert(be_bytes_rec(t6 as nat, 7) =~= seq![b0, b1, b2, b3, b4, b5, b6]);
        assert(be_bytes_rec(t7 as nat, 8) =~= seq![b0, b1, b2, b3, b4, b5, b6, b7]);
        assert(out@ =~= old(out)@ + be_bytes8(v));
    }
}

} // verus!
