//! Configuration interface: the UBX-CFG-VALSET payload builder.
//!
//! Every configuration item is addressed by a 32-bit key id whose bits
//! 30..28 encode the value size (1: one bit stored as a byte, 2: one
//! byte, 3: two bytes, 4: four bytes, 5: eight bytes). Each `add_*` call
//! takes keys of its own width only.
//!
//! Layer semantics: RAM is the live configuration, BBR survives main-rail
//! power cycles on V_BCKP.

use vstd::prelude::*;
use crate::bytes::{bytes_le16, bytes_le32, to_le16, to_le32};

verus! {

/// Apply to the live (RAM) configuration.
pub const LAYER_RAM: u8 = 0x01;
/// Apply to battery-backed RAM - survives main-rail off while V_BCKP is
/// supplied.
pub const LAYER_BBR: u8 = 0x02;

/// Width in bytes of a key's value, from key id bits 30..28.
pub open spec fn key_width(key: u32) -> int {
    let code = (key >> 28) & 0x7;
    if code == 1 || code == 2 {
        1
    } else if code == 3 {
        2
    } else if code == 4 {
        4
    } else if code == 5 {
        8
    } else {
        0
    }
}

/// What a [`ValSet`] has built: the bytes so far, the room for them, and
/// whether something did not fit.
pub ghost struct Built {
    pub bytes: Seq<u8>,
    pub capacity: nat,
    pub overflow: bool,
}

impl Built {
    /// `chunk` appended whole, or, where it does not fit, dropped whole
    /// and remembered.
    pub open spec fn with(self, chunk: Seq<u8>) -> Built {
        if self.bytes.len() + chunk.len() <= self.capacity {
            Built { bytes: self.bytes + chunk, ..self }
        } else {
            Built { overflow: true, ..self }
        }
    }

    /// A key/value pair appended: the key, then the value.
    pub open spec fn with_item(self, key: u32, value: Seq<u8>) -> Built {
        self.with(bytes_le32(key)).with(value)
    }
}

/// Builds a transactionless UBX-CFG-VALSET payload (message version 0)
/// into a caller buffer: header `[0, layers, 0, 0]` then packed key/value
/// pairs, little-endian. Frame it with [`super::frame::encode`] under
/// class [`super::class::CFG`], id [`super::msg::CFG_VALSET`]. The
/// receiver answers ACK-ACK/NAK.
///
/// Capacity overflow is remembered and surfaced by [`Self::payload`]
/// returning `None` - one check at the end instead of one per add.
pub struct ValSet<'a> {
    buf: &'a mut [u8],
    len: usize,
    overflow: bool,
}

impl<'a> View for ValSet<'a> {
    type V = Built;

    closed spec fn view(&self) -> Built {
        Built { bytes: self.buf@.take(self.len as int), capacity: self.buf@.len(), overflow: self.overflow }
    }
}

impl<'a> ValSet<'a> {
    /// The bytes built lie within the buffer.
    #[verifier::type_invariant]
    spec fn within(self) -> bool {
        self.len <= self.buf@.len()
    }

    /// Start a VALSET targeting `layers` (OR of [`LAYER_RAM`] /
    /// [`LAYER_BBR`]). Needs 4 bytes + 4+width per item.
    pub fn new(buf: &'a mut [u8], layers: u8) -> (s: ValSet<'a>)
        ensures
            s@ == (Built { bytes: Seq::empty(), capacity: old(buf)@.len(), overflow: false }).with(
                seq![0u8, layers, 0u8, 0u8],
            ),
    {
        let mut s = ValSet { buf, len: 0, overflow: false };
        let header: [u8; 4] = [0, layers, 0, 0];
        assert(header@ =~= seq![0u8, layers, 0u8, 0u8]);
        assert(s@.bytes =~= Seq::<u8>::empty());
        s.raw(&header);
        s
    }

    fn raw(&mut self, bytes: &[u8])
        ensures
            final(self)@ == old(self)@.with(bytes@),
    {
        proof {
            use_type_invariant(&*self);
        }
        if self.buf.len() - self.len < bytes.len() {
            self.overflow = true;
            return ;
        }
        let start: usize = self.len;
        let mut i: usize = 0;
        while i < bytes.len()
            invariant
                i <= bytes@.len(),
                start + bytes@.len() <= self.buf@.len(),
                self.len == start,
                self.buf@.len() == old(self).buf@.len(),
                self.overflow == old(self).overflow,
                start == old(self).len,
                forall|j: int| 0 <= j < start ==> self.buf@[j] == old(self).buf@[j],
                forall|j: int| 0 <= j < i ==> self.buf@[start + j] == bytes@[j],
            decreases bytes@.len() - i,
        {
            let n: usize = self.buf.len();
            self.buf[start + i] = bytes[i];
            i = i + 1;
        }
        self.len = start + bytes.len();
        assert(self@.bytes =~= old(self)@.bytes + bytes@);
    }

    fn item(&mut self, key: u32, value: &[u8]) -> (r: &mut ValSet<'a>)
        requires
            key_width(key) == value@.len(),
        ensures
            r@ == old(self)@.with_item(key, value@),
            *final(self) == *final(r),
    {
        let k: [u8; 4] = to_le32(key);
        self.raw(&k);
        self.raw(value);
        self
    }

    /// Add a one-bit (L) item.
    pub fn add_bool(&mut self, key: u32, v: bool) -> (r: &mut ValSet<'a>)
        requires
            key_width(key) == 1,
        ensures
            r@ == old(self)@.with_item(key, seq![if v { 1u8 } else { 0u8 }]),
            *final(self) == *final(r),
    {
        let value: [u8; 1] = [if v { 1u8 } else { 0u8 }];
        assert(value@ =~= seq![if v { 1u8 } else { 0u8 }]);
        self.item(key, &value)
    }

    /// Add a one-byte (U1/E1/X1) item.
    pub fn add_u8(&mut self, key: u32, v: u8) -> (r: &mut ValSet<'a>)
        requires
            key_width(key) == 1,
        ensures
            r@ == old(self)@.with_item(key, seq![v]),
            *final(self) == *final(r),
    {
        let value: [u8; 1] = [v];
        assert(value@ =~= seq![v]);
        self.item(key, &value)
    }

    /// Add a two-byte (U2/E2/X2) item.
    pub fn add_u16(&mut self, key: u32, v: u16) -> (r: &mut ValSet<'a>)
        requires
            key_width(key) == 2,
        ensures
            r@ == old(self)@.with_item(key, bytes_le16(v)),
            *final(self) == *final(r),
    {
        let value: [u8; 2] = to_le16(v);
        self.item(key, &value)
    }

    /// Add a four-byte (U4/E4/X4) item.
    pub fn add_u32(&mut self, key: u32, v: u32) -> (r: &mut ValSet<'a>)
        requires
            key_width(key) == 4,
        ensures
            r@ == old(self)@.with_item(key, bytes_le32(v)),
            *final(self) == *final(r),
    {
        let value: [u8; 4] = to_le32(v);
        self.item(key, &value)
    }

    /// The finished payload, or `None` if the buffer overflowed or no
    /// items were added.
    pub fn payload(&self) -> (r: Option<&[u8]>)
        ensures
            r is Some <==> !self@.overflow && self@.bytes.len() > 4,
            r matches Some(p) ==> p@ == self@.bytes,
    {
        proof {
            use_type_invariant(&*self);
        }
        if self.overflow || self.len <= 4 {
            None
        } else {
            let p = &self.buf[0..self.len];
            assert(p@ =~= self@.bytes);
            Some(p)
        }
    }
}

/// A value set that once overflowed stays so, whatever is added.
pub proof fn overflow_is_kept(b: Built, key: u32, value: Seq<u8>)
    requires
        b.overflow,
    ensures
        b.with_item(key, value).overflow,
{
}

/// While nothing overflows, the payload is the concatenation of
/// everything added, in order.
pub proof fn items_are_kept_in_order(b: Built, key: u32, value: Seq<u8>)
    requires
        !b.with_item(key, value).overflow,
    ensures
        !b.overflow,
        b.with_item(key, value).bytes == b.bytes + bytes_le32(key) + value,
{
}

} // verus!
