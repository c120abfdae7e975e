//! The IPv4 header of hand-made packets.

use crate::bytes::{be16, be32, push_be16, push_be32};
use vstd::prelude::*;

verus! {

/// The assured-forwarding classes of the differentiated services field.
#[derive(Debug, Clone, Copy, PartialEq, Eq, Structural)]
pub enum AFBGroup {
    LowClass1,
    MediumClass1,
    HighClass1,
    LowClass2,
    MediumClass2,
    HighClass2,
    LowClass3,
    MediumClass3,
    HighClass3,
    LowClass4,
    MediumClass4,
    HighClass4,
}

/// The class selectors of the differentiated services field.
#[derive(Debug, Clone, Copy, PartialEq, Eq, Structural)]
pub enum ClassSelectorMapping {
    Standard,
    LowPriority,
    OAM,
    Broadcast,
    RealTime,
    Signaling,
    Routing,
    Reserved,
}

/// A value of the differentiated services field.
#[derive(Debug, Clone, Copy, PartialEq, Eq, Structural)]
pub enum DSCPValue {
    AFB(AFBGroup),
    CSM(ClassSelectorMapping),
}

/// The explicit congestion notification bits.
#[derive(Debug, Clone, Copy, PartialEq, Eq, Structural)]
pub enum ECNValue {
    NonECT,
    ECT1,
    ECT,
    CE,
}

/// The fragmentation flags, with and without the reserved bit.
#[derive(Debug, Clone, Copy, PartialEq, Eq, Structural)]
pub enum FragmentationFlags {
    Df,
    Mf,
    DfMf,
    RDf,
    RMf,
    RDfMf,
}

/// The protocol that a packet carries.
#[derive(Debug, Clone, Copy, PartialEq, Eq, Structural)]
pub enum Protocol {
    ICMP,
    IGMP,
    TCP,
    UDP,
    IPv6Encapsulation,
    OSPF,
    SCTP,
}

/// The code point of an assured-forwarding class.
pub open spec fn afb_code(group: AFBGroup) -> u8 {
    match group {
        AFBGroup::LowClass1 => 0x0A,
        AFBGroup::MediumClass1 => 0x0C,
        AFBGroup::HighClass1 => 0x0E,
        AFBGroup::LowClass2 => 0x12,
        AFBGroup::MediumClass2 => 0x14,
        AFBGroup::HighClass2 => 0x16,
        AFBGroup::LowClass3 => 0x1A,
        AFBGroup::MediumClass3 => 0x1C,
        AFBGroup::HighClass3 => 0x1E,
        AFBGroup::LowClass4 => 0x22,
        AFBGroup::MediumClass4 => 0x24,
        AFBGroup::HighClass4 => 0x26,
    }
}

/// The code point of a class selector.
pub open spec fn csm_code(class: ClassSelectorMapping) -> u8 {
    match class {
        ClassSelectorMapping::Standard => 0,
        ClassSelectorMapping::LowPriority => 8,
        ClassSelectorMapping::OAM => 16,
        ClassSelectorMapping::Broadcast => 24,
        ClassSelectorMapping::RealTime => 32,
        ClassSelectorMapping::Signaling => 40,
        ClassSelectorMapping::Routing => 48,
        ClassSelectorMapping::Reserved => 56,
    }
}

/// The code point of a value of the differentiated services field.
pub open spec fn dscp_code(value: DSCPValue) -> u8 {
    match value {
        DSCPValue::AFB(group) => afb_code(group),
        DSCPValue::CSM(class) => csm_code(class),
    }
}

/// The number of the explicit congestion notification bits.
pub open spec fn ecn_code(value: ECNValue) -> u8 {
    match value {
        ECNValue::NonECT => 0,
        ECNValue::ECT1 => 1,
        ECNValue::ECT => 2,
        ECNValue::CE => 3,
    }
}

/// The number of the fragmentation flags.
pub open spec fn fragmentation_code(flags: FragmentationFlags) -> u16 {
    match flags {
        FragmentationFlags::Df => 0b01000000,
        FragmentationFlags::Mf => 0b00100000,
        FragmentationFlags::DfMf => 0b01100000,
        FragmentationFlags::RDf => 0b11000000,
        FragmentationFlags::RMf => 0b10100000,
        FragmentationFlags::RDfMf => 0b11100000,
    }
}

/// The number of a protocol.
pub open spec fn protocol_code(protocol: Protocol) -> u8 {
    match protocol {
        Protocol::ICMP => 1,
        Protocol::IGMP => 2,
        Protocol::TCP => 6,
        Protocol::UDP => 17,
        Protocol::IPv6Encapsulation => 41,
        Protocol::OSPF => 89,
        Protocol::SCTP => 132,
    }
}

impl AFBGroup {
    /// The code point of the class.
    pub fn as_u8(&self) -> (r: u8)
        ensures
            r == afb_code(*self),
    {
        match self {
            AFBGroup::LowClass1 => 0x0A,
            AFBGroup::MediumClass1 => 0x0C,
            AFBGroup::HighClass1 => 0x0E,
            AFBGroup::LowClass2 => 0x12,
            AFBGroup::MediumClass2 => 0x14,
            AFBGroup::HighClass2 => 0x16,
            AFBGroup::LowClass3 => 0x1A,
            AFBGroup::MediumClass3 => 0x1C,
            AFBGroup::HighClass3 => 0x1E,
            AFBGroup::LowClass4 => 0x22,
            AFBGroup::MediumClass4 => 0x24,
            AFBGroup::HighClass4 => 0x26,
        }
    }
}

impl ClassSelectorMapping {
    /// The code point of the class selector.
    pub fn as_u8(&self) -> (r: u8)
        ensures
            r == csm_code(*self),
    {
        match self {
            ClassSelectorMapping::Standard => 0,
            ClassSelectorMapping::LowPriority => 8,
            ClassSelectorMapping::OAM => 16,
            ClassSelectorMapping::Broadcast => 24,
            ClassSelectorMapping::RealTime => 32,
            ClassSelectorMapping::Signaling => 40,
            ClassSelectorMapping::Routing => 48,
            ClassSelectorMapping::Reserved => 56,
        }
    }
}

impl DSCPValue {
    /// The code point of the value.
    pub fn as_u8(&self) -> (r: u8)
        ensures
            r == dscp_code(*self),
            r <= 56,
    {
        match self {
            DSCPValue::AFB(group) => group.as_u8(),
            DSCPValue::CSM(class) => class.as_u8(),
        }
    }
}

impl ECNValue {
    /// The number of the bits.
    pub fn as_u8(&self) -> (r: u8)
        ensures
            r == ecn_code(*self),
    {
        match self {
            ECNValue::NonECT => 0,
            ECNValue::ECT1 => 1,
            ECNValue::ECT => 2,
            ECNValue::CE => 3,
        }
    }
}

impl FragmentationFlags {
    /// The number of the flags.
    pub fn as_u16(&self) -> (r: u16)
        ensures
            r == fragmentation_code(*self),
    {
        match self {
            FragmentationFlags::Df => 0b01000000,
            FragmentationFlags::Mf => 0b00100000,
            FragmentationFlags::DfMf => 0b01100000,
            FragmentationFlags::RDf => 0b11000000,
            FragmentationFlags::RMf => 0b10100000,
            FragmentationFlags::RDfMf => 0b11100000,
        }
    }
}

impl Protocol {
    /// The number of the protocol.
    pub fn as_u8(&self) -> (r: u8)
        ensures
            r == protocol_code(*self),
    {
        match self {
            Protocol::ICMP => 1,
            Protocol::IGMP => 2,
            Protocol::TCP => 6,
            Protocol::UDP => 17,
            Protocol::IPv6Encapsulation => 41,
            Protocol::OSPF => 89,
            Protocol::SCTP => 132,
        }
    }
}

/// An IPv4 header, as far as hand-made packets fill it in.
#[derive(Debug, Clone, Copy, PartialEq, Eq, Structural)]
pub struct IPv4Header {
    pub ihl: u8,
    pub dscp: DSCPValue,
    pub ecn: ECNValue,
    pub length: u16,
    pub identification: u16,
    pub fragmentation_flags: FragmentationFlags,
    pub fragment_offset: u16,
    pub ttl: u8,
    pub protocol: Protocol,
    pub checksum: u16,
    pub src: u32,
    pub dst: u32,
}

/// The sum after a word was added to it: where the sum passes sixteen bits,
/// its low sixteen bits joined by `or` with what lies above them.
pub open spec fn folded(sum: u32, word: u16) -> u32 {
    let t: u32 = (sum + word) as u32;
    if t > 0xffff {
        (t & 0xffff) | (t >> 16)
    } else {
        t
    }
}

/// The sum of the first `pairs` words of the bytes, folded after each word.
pub open spec fn word_sum(bytes: Seq<u8>, pairs: int) -> u32
    decreases pairs,
{
    if pairs <= 0 {
        0
    } else {
        folded(
            word_sum(bytes, pairs - 1),
            (bytes[2 * pairs - 2] as int * 256 + bytes[2 * pairs - 1] as int) as u16,
        )
    }
}

/// The checksum of an even number of bytes: the complement of the folded sum
/// of its words.
pub open spec fn checksum_of(bytes: Seq<u8>) -> u16 {
    !(word_sum(bytes, bytes.len() as int / 2) as u16)
}

/// A folded sum fits in sixteen bits.
proof fn lemma_folded_fits(sum: u32, word: u16)
    requires
        sum <= 0xffff,
    ensures
        folded(sum, word) <= 0xffff,
{
    let t: u32 = (sum + word) as u32;
    assert(t <= 0x1fffe);
    assert(t > 0xffff && t <= 0x1fffe ==> (t & 0xffff) | (t >> 16) <= 0xffff) by (bit_vector);
}

/// The checksum of an even number of bytes.
pub fn crc16(bytes: &[u8]) -> (r: u16)
    requires
        bytes@.len() % 2 == 0,
    ensures
        r == checksum_of(bytes@),
{
    let n: usize = bytes.len();
    let mut sum: u32 = 0;
    let mut i: usize = 0;
    while i < n
        invariant
            n == bytes@.len(),
            n % 2 == 0,
            i % 2 == 0,
            i <= n,
            sum <= 0xffff,
            sum == word_sum(bytes@, i as int / 2),
        decreases n - i,
    {
        let word: u16 = bytes[i] as u16 * 256 + bytes[i + 1] as u16;
        proof {
            lemma_folded_fits(sum, word);
        }
        sum = sum + word as u32;
        if sum > 0xffff {
            sum = (sum & 0xffff) | (sum >> 16);
        }
        i += 2;
    }
    !(sum as u16)
}

/// The word that holds the fragmentation flags above the fragment offset:
/// the flags moved up by thirteen bits, as far as they stay inside the word,
/// joined by `or` with the offset.
pub open spec fn fragment_word(flags: FragmentationFlags, offset: u16) -> u16 {
    (((fragmentation_code(flags) as int * 8192) % 65536) as u16) | offset
}

/// The bytes of a header before its checksum is filled in.
pub open spec fn raw_header_bytes(header: IPv4Header) -> Seq<u8> {
    seq![
        64u8 | header.ihl,
        ((dscp_code(header.dscp) * 4) as u8) | ecn_code(header.ecn),
    ] + be16(header.identification) + be16(
        fragment_word(header.fragmentation_flags, header.fragment_offset),
    ) + seq![header.ttl, protocol_code(header.protocol), 0u8, 0u8] + be32(header.src) + be32(
        header.dst,
    )
}

/// The bytes of a header: eighteen bytes, with the checksum of all of them
/// written to the bytes at 11 and 12.
pub open spec fn ipv4_header_bytes(header: IPv4Header) -> Seq<u8> {
    let raw = raw_header_bytes(header);
    let crc = checksum_of(raw);
    raw.update(11, (crc / 256) as u8).update(12, (crc % 256) as u8)
}

impl IPv4Header {
    /// The bytes of the header.
    pub fn into(self) -> (bytes: Vec<u8>)
        ensures
            bytes@ == ipv4_header_bytes(self),
            bytes@.len() == 18,
    {
        let mut bytes: Vec<u8> = Vec::new();
        bytes.push(64u8 | self.ihl);
        bytes.push((self.dscp.as_u8() * 4) | self.ecn.as_u8());
        push_be16(&mut bytes, self.identification);
        let moved: u16 = ((self.fragmentation_flags.as_u16() as u32 * 8192) % 65536) as u16;
        push_be16(&mut bytes, moved | self.fragment_offset);
        bytes.push(self.ttl);
        bytes.push(self.protocol.as_u8());
        bytes.push(0);
        bytes.push(0);
        push_be32(&mut bytes, self.src);
        push_be32(&mut bytes, self.dst);
        assert(bytes@ =~= raw_header_bytes(self));
        let crc: u16 = crc16(bytes.as_slice());
        bytes[11] = (crc / 256) as u8;
        bytes[12] = (crc % 256) as u8;
        bytes
    }
}

} // verus!
