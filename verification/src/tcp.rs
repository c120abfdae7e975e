//! The TCP header of hand-made packets.

use crate::bytes::{be16, be32, push_be16, push_be32};
use vstd::prelude::*;

verus! {

/// The flags of a TCP header, one bit each: FIN is bit 0, SYN bit 1, RST
/// bit 2, PSH bit 3, ACK bit 4, URG bit 5, ECE bit 6 and CWR bit 7.
#[derive(Debug, Clone, Copy, PartialEq, Eq, Structural)]
pub struct Flag {
    pub inner: u8,
}

/// The byte with bit `fnum` set or cleared, and every other bit as it was.
pub open spec fn with_bit(inner: u8, fnum: u8, val: bool) -> u8 {
    if val {
        inner | (1u8 << fnum)
    } else {
        inner & !(1u8 << fnum)
    }
}

/// Whether bit `fnum` of the byte is set.
pub open spec fn bit_of(inner: u8, fnum: u8) -> bool {
    (inner >> fnum) & 1u8 == 1u8
}

/// Setting a bit makes it read as it was set, and leaves the others alone.
pub proof fn lemma_with_bit(inner: u8, fnum: u8, val: bool, other: u8)
    requires
        fnum < 8,
        other < 8,
    ensures
        bit_of(with_bit(inner, fnum, val), fnum) == val,
        other != fnum ==> bit_of(with_bit(inner, fnum, val), other) == bit_of(inner, other),
{
    assert(((inner | (1u8 << fnum)) >> fnum) & 1u8 == 1u8) by (bit_vector)
        requires
            fnum < 8,
    ;
    assert(((inner & !(1u8 << fnum)) >> fnum) & 1u8 == 0u8) by (bit_vector)
        requires
            fnum < 8,
    ;
    assert(other != fnum ==> ((inner | (1u8 << fnum)) >> other) & 1u8 == (inner >> other) & 1u8)
        by (bit_vector)
        requires
            fnum < 8,
            other < 8,
    ;
    assert(other != fnum ==> ((inner & !(1u8 << fnum)) >> other) & 1u8 == (inner >> other) & 1u8)
        by (bit_vector)
        requires
            fnum < 8,
            other < 8,
    ;
}

impl Flag {
    /// Sets or clears bit `fnum`.
    fn set_field_to(&mut self, fnum: u8, val: bool)
        requires
            fnum < 8,
        ensures
            final(self).inner == with_bit(old(self).inner, fnum, val),
    {
        let mask: u8 = 1u8 << fnum;
        if val {
            self.inner = self.inner | mask;
        } else {
            self.inner = self.inner & !mask;
        }
    }

    /// Sets or clears CWR.
    pub fn set_cwr(&mut self, val: bool)
        ensures
            final(self).inner == with_bit(old(self).inner, 7, val),
    {
        self.set_field_to(7, val);
    }

    /// Sets or clears ECE.
    pub fn set_ece(&mut self, val: bool)
        ensures
            final(self).inner == with_bit(old(self).inner, 6, val),
    {
        self.set_field_to(6, val);
    }

    /// Sets or clears URG.
    pub fn set_urg(&mut self, val: bool)
        ensures
            final(self).inner == with_bit(old(self).inner, 5, val),
    {
        self.set_field_to(5, val);
    }

    /// Sets or clears ACK.
    pub fn set_ack(&mut self, val: bool)
        ensures
            final(self).inner == with_bit(old(self).inner, 4, val),
    {
        self.set_field_to(4, val);
    }

    /// Sets or clears PSH.
    pub fn set_psh(&mut self, val: bool)
        ensures
            final(self).inner == with_bit(old(self).inner, 3, val),
    {
        self.set_field_to(3, val);
    }

    /// Sets or clears RST.
    pub fn set_rst(&mut self, val: bool)
        ensures
            final(self).inner == with_bit(old(self).inner, 2, val),
    {
        self.set_field_to(2, val);
    }

    /// Sets or clears SYN.
    pub fn set_syn(&mut self, val: bool)
        ensures
            final(self).inner == with_bit(old(self).inner, 1, val),
    {
        self.set_field_to(1, val);
    }

    /// Sets or clears FIN.
    pub fn set_fin(&mut self, val: bool)
        ensures
            final(self).inner == with_bit(old(self).inner, 0, val),
    {
        self.set_field_to(0, val);
    }
}

/// A TCP header, as far as hand-made packets fill it in.
#[derive(Debug, Clone, Copy, PartialEq, Eq, Structural)]
pub struct TCPHeader {
    pub src: u16,
    pub dst: u16,
    pub seqnum: u32,
    pub acknum: u32,
    pub data_offset: u32,
    pub reserved: u8,
    pub flags: Flag,
    pub window: u16,
    pub urg_pointer: u16,
    pub checksum: u16,
}

/// The largest data offset that a header can carry.
pub const MAX_DATA_OFFSET: u32 = 352;

/// The byte that holds the low four bits of the data offset above the low
/// four bits of the reserved field.
pub open spec fn offset_byte(data_offset: u32, reserved: u8) -> u8 {
    ((data_offset % 16) * 16 + reserved % 16) as u8
}

/// The bytes of a header: the ports, the sequence and acknowledgement
/// numbers, the offset byte, the flags, the window, the checksum, the urgent
/// pointer, and the data offset in full, each number with its highest byte
/// first.
pub open spec fn tcp_header_bytes(header: TCPHeader) -> Seq<u8> {
    be16(header.src) + be16(header.dst) + be32(header.seqnum) + be32(header.acknum) + seq![
        offset_byte(header.data_offset, header.reserved),
        header.flags.inner,
    ] + be16(header.window) + be16(header.checksum) + be16(header.urg_pointer) + be32(
        header.data_offset,
    )
}

impl TCPHeader {
    /// The bytes of the header. The data offset must be one that a header
    /// can carry.
    pub fn into(self) -> (header: Vec<u8>)
        requires
            self.data_offset <= MAX_DATA_OFFSET,
        ensures
            header@ == tcp_header_bytes(self),
            header@.len() == 24,
    {
        let mut header: Vec<u8> = Vec::new();
        push_be16(&mut header, self.src);
        push_be16(&mut header, self.dst);
        push_be32(&mut header, self.seqnum);
        push_be32(&mut header, self.acknum);
        let high: u8 = (self.data_offset % 16) as u8;
        let low: u8 = self.reserved % 16;
        header.push(high * 16 + low);
        header.push(self.flags.inner);
        push_be16(&mut header, self.window);
        push_be16(&mut header, self.checksum);
        push_be16(&mut header, self.urg_pointer);
        push_be32(&mut header, self.data_offset);
        assert(header@ =~= tcp_header_bytes(self));
        header
    }
}

} // verus!
