//! The ClientHello of hand-made TLS 1.2 records.

use crate::bytes::{append_bytes, be16, push_be16};
use vstd::prelude::*;
use vstd::utf8::encode_utf8;

verus! {

/// The eight bytes of a number, the highest byte first.
pub open spec fn be64(x: u64) -> Seq<u8> {
    seq![
        (x / 0x100_0000_0000_0000) as u8,
        ((x / 0x1_0000_0000_0000) % 256) as u8,
        ((x / 0x100_0000_0000) % 256) as u8,
        ((x / 0x1_0000_0000) % 256) as u8,
        ((x / 0x100_0000) % 256) as u8,
        ((x / 0x1_0000) % 256) as u8,
        ((x / 0x100) % 256) as u8,
        (x % 256) as u8,
    ]
}

/// The bytes of a length as the machine holds it, the highest byte first:
/// eight on a machine with 64-bit lengths, four on one with 32-bit lengths.
pub open spec fn length_bytes(n: usize) -> Seq<u8> {
    if usize::BITS == 64 {
        be64(n as u64)
    } else {
        be64(n as u64).skip(4)
    }
}

/// Appends the bytes of a length as the machine holds it.
pub fn push_length(out: &mut Vec<u8>, n: usize)
    ensures
        final(out)@ == old(out)@ + length_bytes(n),
{
    let x: u64 = n as u64;
    if usize::BITS == 64 {
        out.push((x / 0x100_0000_0000_0000) as u8);
        out.push(((x / 0x1_0000_0000_0000) % 256) as u8);
        out.push(((x / 0x100_0000_0000) % 256) as u8);
        out.push(((x / 0x1_0000_0000) % 256) as u8);
    }
    out.push(((x / 0x100_0000) % 256) as u8);
    out.push(((x / 0x1_0000) % 256) as u8);
    out.push(((x / 0x100) % 256) as u8);
    out.push((x % 256) as u8);
    assert(out@ =~= old(out)@ + length_bytes(n));
}

/// The cipher suites that a ClientHello can offer.
#[derive(Debug, Clone, Copy, PartialEq, Eq, Structural)]
pub enum ChipherSuite {
    TlsEcdheRsaWithChacha20Poly1305Sha256,
    TlsEcdheEcdsaWithChacha20Poly1305Sha256,
    TlsEcdheRsaWithAes128GcmSha256,
    TlsEcdheRsaWithAes256GcmSha384,
    TlsEcdheEcdsaWithAes128GcmSha256,
    TlsEcdheEcdsaWithAes256GcmSha384,
    TlsEcdheRsaWithAes128CbcSha,
    TlsEcdheEcdsaWithAes128CbcSha,
    TlsEcdheRsaWithAes256CbcSha,
    TlsEcdheEcdsaWithAes256CbcSha,
    TlsRsaWithAes128GcmSha256,
    TlsRsaWithAes256GcmSha384,
    TlsRsaWithAes128CbcSha,
    TlsRsaWithAes256CbcSha,
    TlsEcdheRsaWith3desEdeCbcSha,
    TlsRsaWith3desEdeCbcSha,
}

impl ChipherSuite {
    /// The number that stands for the variant on the wire.
    pub open spec fn code(self) -> u16 {
        match self {
        ChipherSuite::TlsEcdheRsaWithChacha20Poly1305Sha256 => 52392,
        ChipherSuite::TlsEcdheEcdsaWithChacha20Poly1305Sha256 => 52393,
        ChipherSuite::TlsEcdheRsaWithAes128GcmSha256 => 49199,
        ChipherSuite::TlsEcdheRsaWithAes256GcmSha384 => 49200,
        ChipherSuite::TlsEcdheEcdsaWithAes128GcmSha256 => 49195,
        ChipherSuite::TlsEcdheEcdsaWithAes256GcmSha384 => 49196,
        ChipherSuite::TlsEcdheRsaWithAes128CbcSha => 49171,
        ChipherSuite::TlsEcdheEcdsaWithAes128CbcSha => 49161,
        ChipherSuite::TlsEcdheRsaWithAes256CbcSha => 49172,
        ChipherSuite::TlsEcdheEcdsaWithAes256CbcSha => 49162,
        ChipherSuite::TlsRsaWithAes128GcmSha256 => 156,
        ChipherSuite::TlsRsaWithAes256GcmSha384 => 157,
        ChipherSuite::TlsRsaWithAes128CbcSha => 47,
        ChipherSuite::TlsRsaWithAes256CbcSha => 53,
        ChipherSuite::TlsEcdheRsaWith3desEdeCbcSha => 49170,
        ChipherSuite::TlsRsaWith3desEdeCbcSha => 10,
        }
    }

    /// The number that stands for the variant on the wire.
    pub fn as_u16(&self) -> (r: u16)
        ensures
            r == self.code(),
    {
        match self {
        ChipherSuite::TlsEcdheRsaWithChacha20Poly1305Sha256 => 52392,
        ChipherSuite::TlsEcdheEcdsaWithChacha20Poly1305Sha256 => 52393,
        ChipherSuite::TlsEcdheRsaWithAes128GcmSha256 => 49199,
        ChipherSuite::TlsEcdheRsaWithAes256GcmSha384 => 49200,
        ChipherSuite::TlsEcdheEcdsaWithAes128GcmSha256 => 49195,
        ChipherSuite::TlsEcdheEcdsaWithAes256GcmSha384 => 49196,
        ChipherSuite::TlsEcdheRsaWithAes128CbcSha => 49171,
        ChipherSuite::TlsEcdheEcdsaWithAes128CbcSha => 49161,
        ChipherSuite::TlsEcdheRsaWithAes256CbcSha => 49172,
        ChipherSuite::TlsEcdheEcdsaWithAes256CbcSha => 49162,
        ChipherSuite::TlsRsaWithAes128GcmSha256 => 156,
        ChipherSuite::TlsRsaWithAes256GcmSha384 => 157,
        ChipherSuite::TlsRsaWithAes128CbcSha => 47,
        ChipherSuite::TlsRsaWithAes256CbcSha => 53,
        ChipherSuite::TlsEcdheRsaWith3desEdeCbcSha => 49170,
        ChipherSuite::TlsRsaWith3desEdeCbcSha => 10,
        }
    }
}

/// The groups of the supported-groups extension.
#[derive(Debug, Clone, Copy, PartialEq, Eq, Structural)]
pub enum NamedGroup {
    X25519,
    Secp256r1,
    Secp384r1,
    Secp521r1,
    X448,
    Ffdhe2048,
    Ffdhe3072,
    Ffdhe4096,
    Ffdhe6144,
    Ffdhe8192,
}

impl NamedGroup {
    /// The number that stands for the variant on the wire.
    pub open spec fn code(self) -> u16 {
        match self {
        NamedGroup::X25519 => 29,
        NamedGroup::Secp256r1 => 23,
        NamedGroup::Secp384r1 => 24,
        NamedGroup::Secp521r1 => 25,
        NamedGroup::X448 => 30,
        NamedGroup::Ffdhe2048 => 256,
        NamedGroup::Ffdhe3072 => 257,
        NamedGroup::Ffdhe4096 => 258,
        NamedGroup::Ffdhe6144 => 259,
        NamedGroup::Ffdhe8192 => 260,
        }
    }

    /// The number that stands for the variant on the wire.
    pub fn as_u16(&self) -> (r: u16)
        ensures
            r == self.code(),
    {
        match self {
        NamedGroup::X25519 => 29,
        NamedGroup::Secp256r1 => 23,
        NamedGroup::Secp384r1 => 24,
        NamedGroup::Secp521r1 => 25,
        NamedGroup::X448 => 30,
        NamedGroup::Ffdhe2048 => 256,
        NamedGroup::Ffdhe3072 => 257,
        NamedGroup::Ffdhe4096 => 258,
        NamedGroup::Ffdhe6144 => 259,
        NamedGroup::Ffdhe8192 => 260,
        }
    }
}

/// The algorithms of the signature-algorithms extension.
#[derive(Debug, Clone, Copy, PartialEq, Eq, Structural)]
pub enum SignatureAlgorithms {
    RsaPkscs1Sha256,
    EcdsaSecp256r1Sha256,
    RsaPkcs1Sha384,
    EcdsaSecp384r1Sha384,
    RsaPkcs1Sha512,
    EcdsaSecp521r1Sha512,
    RsaPkcs1Sha1,
    EcdsaSha1,
}

impl SignatureAlgorithms {
    /// The number that stands for the variant on the wire.
    pub open spec fn code(self) -> u16 {
        match self {
        SignatureAlgorithms::RsaPkscs1Sha256 => 1025,
        SignatureAlgorithms::EcdsaSecp256r1Sha256 => 1027,
        SignatureAlgorithms::RsaPkcs1Sha384 => 1281,
        SignatureAlgorithms::EcdsaSecp384r1Sha384 => 1283,
        SignatureAlgorithms::RsaPkcs1Sha512 => 1537,
        SignatureAlgorithms::EcdsaSecp521r1Sha512 => 1539,
        SignatureAlgorithms::RsaPkcs1Sha1 => 513,
        SignatureAlgorithms::EcdsaSha1 => 515,
        }
    }

    /// The number that stands for the variant on the wire.
    pub fn as_u16(&self) -> (r: u16)
        ensures
            r == self.code(),
    {
        match self {
        SignatureAlgorithms::RsaPkscs1Sha256 => 1025,
        SignatureAlgorithms::EcdsaSecp256r1Sha256 => 1027,
        SignatureAlgorithms::RsaPkcs1Sha384 => 1281,
        SignatureAlgorithms::EcdsaSecp384r1Sha384 => 1283,
        SignatureAlgorithms::RsaPkcs1Sha512 => 1537,
        SignatureAlgorithms::EcdsaSecp521r1Sha512 => 1539,
        SignatureAlgorithms::RsaPkcs1Sha1 => 513,
        SignatureAlgorithms::EcdsaSha1 => 515,
        }
    }
}

/// The server-name extension.
#[derive(Debug, Clone, PartialEq)]
pub struct ServerNameExtension {
    pub sni: String,
}

/// The status-request extension.
#[derive(Debug, Clone, Copy, PartialEq, Eq, Structural)]
pub struct OCSPRequestExtension();

/// The supported-groups extension.
#[derive(Debug, Clone, PartialEq)]
pub struct EllipticCurvesExtension {
    pub groups: Vec<NamedGroup>,
}

/// The point-formats extension.
#[derive(Debug, Clone, Copy, PartialEq, Eq, Structural)]
pub struct ECPointFormatsExtension();

/// The signature-algorithms extension.
#[derive(Debug, Clone, PartialEq)]
pub struct SignatureAlgorithmsExtension {
    pub algorithms: Vec<SignatureAlgorithms>,
}

/// The renegotiation-info extension.
#[derive(Debug, Clone, Copy, PartialEq, Eq, Structural)]
pub struct RenegotiationInfoExtension();

/// The signed-certificate-timestamp extension.
#[derive(Debug, Clone, Copy, PartialEq, Eq, Structural)]
pub struct SignedCertificatetTimestampExtension();

/// An extension of a ClientHello.
#[derive(Debug, Clone, PartialEq)]
pub enum Extensions {
    ServerName(ServerNameExtension),
    StatusRequest(OCSPRequestExtension),
    EllipticCurves(EllipticCurvesExtension),
    ECPointFormats(ECPointFormatsExtension),
    SignatureAlgorithms(SignatureAlgorithmsExtension),
    RenegotiationInfo(RenegotiationInfoExtension),
    SignedCertificateTimestamp(SignedCertificatetTimestampExtension),
}

/// A ClientHello.
#[derive(Debug, Clone, PartialEq)]
pub struct ClientHello {
    pub record_len: u16,
    pub ch_len: u16,
    pub random: [u8; 32],
    pub session_id: u8,
    pub cipher_suites: Vec<ChipherSuite>,
    pub extensions: Vec<Extensions>,
}

/// The low sixteen bits of a length.
pub open spec fn low16(n: int) -> u16 {
    (n % 65536) as u16
}

/// The bytes behind a length as the machine holds it, and that length first.
pub open spec fn behind_length(body: Seq<u8>) -> Seq<u8> {
    length_bytes(body.len() as usize) + body
}

/// The server-name extension for a name given as bytes: the type, the length
/// of all that follows as the machine holds it, the length of the entry
/// likewise, the kind of name, the low sixteen bits of the length of the
/// name, and the name.
pub open spec fn server_name_bytes(sni: Seq<u8>) -> Seq<u8> {
    seq![0x00u8, 0x00u8] + behind_length(
        behind_length(seq![0u8] + be16(low16(sni.len() as int)) + sni),
    )
}

/// The codes of the groups, two bytes each.
pub open spec fn group_bytes(groups: Seq<NamedGroup>) -> Seq<u8>
    decreases groups.len(),
{
    if groups.len() == 0 {
        Seq::empty()
    } else {
        group_bytes(groups.drop_last()) + be16(groups.last().code())
    }
}

/// The codes of the algorithms, two bytes each.
pub open spec fn algorithm_bytes(algorithms: Seq<SignatureAlgorithms>) -> Seq<u8>
    decreases algorithms.len(),
{
    if algorithms.len() == 0 {
        Seq::empty()
    } else {
        algorithm_bytes(algorithms.drop_last()) + be16(algorithms.last().code())
    }
}

/// The codes of the cipher suites, two bytes each, the last suite first.
pub open spec fn suite_bytes(suites: Seq<ChipherSuite>) -> Seq<u8>
    decreases suites.len(),
{
    if suites.len() == 0 {
        Seq::empty()
    } else {
        be16(suites.last().code()) + suite_bytes(suites.drop_last())
    }
}

/// The supported-groups extension: the type, the low sixteen bits of the
/// length of all that follows, those of the length of the list, and the list.
pub open spec fn curves_bytes(groups: Seq<NamedGroup>) -> Seq<u8> {
    seq![0x00u8, 0x0Au8] + be16(low16(group_bytes(groups).len() as int + 2)) + be16(
        low16(group_bytes(groups).len() as int),
    ) + group_bytes(groups)
}

/// The signature-algorithms extension: the type, the length of all that
/// follows as the machine holds it, the length of the list likewise, and the
/// list.
pub open spec fn signature_bytes(algorithms: Seq<SignatureAlgorithms>) -> Seq<u8> {
    seq![0x00u8, 0x0du8] + behind_length(behind_length(algorithm_bytes(algorithms)))
}

/// The bytes of an extension.
pub open spec fn extension_bytes(extension: Extensions) -> Seq<u8> {
    match extension {
        Extensions::ServerName(ext) => server_name_bytes(encode_utf8(ext.sni@)),
        Extensions::StatusRequest(_) => seq![0u8, 5, 0, 5, 1, 0, 0, 0, 0],
        Extensions::EllipticCurves(ext) => curves_bytes(ext.groups@),
        Extensions::ECPointFormats(_) => seq![0x00u8, 0x0B, 0x00, 0x02, 0x01, 0x00],
        Extensions::SignatureAlgorithms(ext) => signature_bytes(ext.algorithms@),
        Extensions::RenegotiationInfo(_) => seq![0xffu8, 0x01, 0x00, 0x01, 0x00],
        Extensions::SignedCertificateTimestamp(_) => seq![0x00u8, 0x12, 0x00, 0x00],
    }
}

/// The bytes of the extensions, one behind the other.
pub open spec fn extensions_bytes(extensions: Seq<Extensions>) -> Seq<u8>
    decreases extensions.len(),
{
    if extensions.len() == 0 {
        Seq::empty()
    } else {
        extensions_bytes(extensions.drop_last()) + extension_bytes(extensions.last())
    }
}

/// The body of the ClientHello: the version, the random, the session id, the
/// low sixteen bits of the length of the suites, the suites with the last
/// first, no compression, and the extensions behind their length.
pub open spec fn hello_body(hello: ClientHello) -> Seq<u8> {
    seq![0x03u8, 0x03u8] + hello.random@ + seq![hello.session_id] + be16(
        low16(suite_bytes(hello.cipher_suites@).len() as int),
    ) + suite_bytes(hello.cipher_suites@) + seq![1u8, 0u8] + behind_length(
        extensions_bytes(hello.extensions@),
    )
}

/// The handshake message: its type, and the body behind its length.
pub open spec fn handshake_bytes(hello: ClientHello) -> Seq<u8> {
    seq![1u8, 0u8] + behind_length(hello_body(hello))
}

/// The low three bytes of a length, the highest first.
pub open spec fn low24(n: int) -> Seq<u8> {
    seq![((n / 65536) % 256) as u8, ((n / 256) % 256) as u8, (n % 256) as u8]
}

/// The record: the record header, the low three bytes of the length of the
/// handshake message, and the message.
pub open spec fn client_hello_bytes(hello: ClientHello) -> Seq<u8> {
    seq![0x16u8, 0x03u8, 0x01u8] + low24(handshake_bytes(hello).len() as int) + handshake_bytes(
        hello,
    )
}

/// The body behind its length as the machine holds it.
fn with_length(body: &Vec<u8>) -> (out: Vec<u8>)
    ensures
        out@ == behind_length(body@),
{
    let mut out: Vec<u8> = Vec::new();
    push_length(&mut out, body.len());
    append_bytes(&mut out, body.as_slice());
    assert(out@ =~= behind_length(body@));
    out
}

/// The codes of the groups, two bytes each.
fn group_list(groups: &Vec<NamedGroup>) -> (list: Vec<u8>)
    ensures
        list@ == group_bytes(groups@),
{
    let mut list: Vec<u8> = Vec::new();
    let mut i: usize = 0;
    assert(groups@.take(0) =~= Seq::<NamedGroup>::empty());
    while i < groups.len()
        invariant
            i <= groups@.len(),
            list@ == group_bytes(groups@.take(i as int)),
        decreases groups@.len() - i,
    {
        assert(groups@.take(i + 1).drop_last() =~= groups@.take(i as int));
        push_be16(&mut list, groups[i].as_u16());
        i += 1;
    }
    assert(groups@.take(groups@.len() as int) =~= groups@);
    list
}

/// The codes of the algorithms, two bytes each.
fn algorithm_list(algorithms: &Vec<SignatureAlgorithms>) -> (list: Vec<u8>)
    ensures
        list@ == algorithm_bytes(algorithms@),
{
    let mut list: Vec<u8> = Vec::new();
    let mut i: usize = 0;
    assert(algorithms@.take(0) =~= Seq::<SignatureAlgorithms>::empty());
    while i < algorithms.len()
        invariant
            i <= algorithms@.len(),
            list@ == algorithm_bytes(algorithms@.take(i as int)),
        decreases algorithms@.len() - i,
    {
        assert(algorithms@.take(i + 1).drop_last() =~= algorithms@.take(i as int));
        push_be16(&mut list, algorithms[i].as_u16());
        i += 1;
    }
    assert(algorithms@.take(algorithms@.len() as int) =~= algorithms@);
    list
}

impl ServerNameExtension {
    /// The bytes of the extension.
    pub fn into(self) -> (ext: Vec<u8>)
        ensures
            ext@ == server_name_bytes(encode_utf8(self.sni@)),
    {
        self.bytes()
    }

    /// The bytes of the extension.
    pub fn bytes(&self) -> (ext: Vec<u8>)
        ensures
            ext@ == server_name_bytes(encode_utf8(self.sni@)),
    {
        let sni_bytes = self.sni.as_str().as_bytes();
        let mut entry: Vec<u8> = Vec::new();
        entry.push(0);
        push_be16(&mut entry, (sni_bytes.len() % 65536) as u16);
        append_bytes(&mut entry, sni_bytes);
        let list = with_length(&entry);
        let all = with_length(&list);
        let mut ext: Vec<u8> = Vec::new();
        ext.push(0x00);
        ext.push(0x00);
        append_bytes(&mut ext, all.as_slice());
        assert(entry@ =~= seq![0u8] + be16(low16(sni_bytes@.len() as int)) + sni_bytes@);
        assert(ext@ =~= server_name_bytes(encode_utf8(self.sni@)));
        ext
    }
}

impl OCSPRequestExtension {
    /// The bytes of the extension.
    pub fn into(self) -> (ext: Vec<u8>)
        ensures
            ext@ == seq![0u8, 5, 0, 5, 1, 0, 0, 0, 0],
    {
        self.bytes()
    }

    /// The bytes of the extension: a request for an OCSP response, without
    /// responder ids and without extensions.
    pub fn bytes(&self) -> (ext: Vec<u8>)
        ensures
            ext@ == seq![0u8, 5, 0, 5, 1, 0, 0, 0, 0],
    {
        let mut ext: Vec<u8> = Vec::new();
        ext.push(0);
        ext.push(5);
        ext.push(0);
        ext.push(5);
        ext.push(1);
        ext.push(0);
        ext.push(0);
        ext.push(0);
        ext.push(0);
        assert(ext@ =~= seq![0u8, 5, 0, 5, 1, 0, 0, 0, 0]);
        ext
    }
}

impl EllipticCurvesExtension {
    /// The bytes of the extension.
    pub fn into(self) -> (ext: Vec<u8>)
        ensures
            ext@ == curves_bytes(self.groups@),
    {
        self.bytes()
    }

    /// The bytes of the extension.
    pub fn bytes(&self) -> (ext: Vec<u8>)
        ensures
            ext@ == curves_bytes(self.groups@),
    {
        let list = group_list(&self.groups);
        let mut ext: Vec<u8> = Vec::new();
        ext.push(0x00);
        ext.push(0x0A);
        let inner: usize = list.len() % 65536;
        let outer: usize = (inner + 2) % 65536;
        assert(outer == (list@.len() + 2) % 65536);
        push_be16(&mut ext, outer as u16);
        push_be16(&mut ext, inner as u16);
        append_bytes(&mut ext, list.as_slice());
        assert(ext@ =~= curves_bytes(self.groups@));
        ext
    }
}

impl ECPointFormatsExtension {
    /// The bytes of the extension.
    pub fn into(self) -> (ext: Vec<u8>)
        ensures
            ext@ == seq![0x00u8, 0x0B, 0x00, 0x02, 0x01, 0x00],
    {
        self.bytes()
    }

    /// The bytes of the extension: uncompressed points only.
    pub fn bytes(&self) -> (ext: Vec<u8>)
        ensures
            ext@ == seq![0x00u8, 0x0B, 0x00, 0x02, 0x01, 0x00],
    {
        let mut ext: Vec<u8> = Vec::new();
        ext.push(0x00);
        ext.push(0x0B);
        ext.push(0x00);
        ext.push(0x02);
        ext.push(0x01);
        ext.push(0x00);
        assert(ext@ =~= seq![0x00u8, 0x0B, 0x00, 0x02, 0x01, 0x00]);
        ext
    }
}

impl SignatureAlgorithmsExtension {
    /// The bytes of the extension.
    pub fn into(self) -> (ext: Vec<u8>)
        ensures
            ext@ == signature_bytes(self.algorithms@),
    {
        self.bytes()
    }

    /// The bytes of the extension.
    pub fn bytes(&self) -> (ext: Vec<u8>)
        ensures
            ext@ == signature_bytes(self.algorithms@),
    {
        let list = algorithm_list(&self.algorithms);
        let data = with_length(&list);
        let all = with_length(&data);
        let mut ext: Vec<u8> = Vec::new();
        ext.push(0x00);
        ext.push(0x0d);
        append_bytes(&mut ext, all.as_slice());
        assert(ext@ =~= signature_bytes(self.algorithms@));
        ext
    }
}

impl RenegotiationInfoExtension {
    /// The bytes of the extension.
    pub fn into(self) -> (ext: Vec<u8>)
        ensures
            ext@ == seq![0xffu8, 0x01, 0x00, 0x01, 0x00],
    {
        self.bytes()
    }

    /// The bytes of the extension: no renegotiation in progress.
    pub fn bytes(&self) -> (ext: Vec<u8>)
        ensures
            ext@ == seq![0xffu8, 0x01, 0x00, 0x01, 0x00],
    {
        let mut ext: Vec<u8> = Vec::new();
        ext.push(0xff);
        ext.push(0x01);
        ext.push(0x00);
        ext.push(0x01);
        ext.push(0x00);
        assert(ext@ =~= seq![0xffu8, 0x01, 0x00, 0x01, 0x00]);
        ext
    }
}

impl SignedCertificatetTimestampExtension {
    /// The bytes of the extension.
    pub fn into(self) -> (ext: Vec<u8>)
        ensures
            ext@ == seq![0x00u8, 0x12, 0x00, 0x00],
    {
        self.bytes()
    }

    /// The bytes of the extension: the server may send a timestamp.
    pub fn bytes(&self) -> (ext: Vec<u8>)
        ensures
            ext@ == seq![0x00u8, 0x12, 0x00, 0x00],
    {
        let mut ext: Vec<u8> = Vec::new();
        ext.push(0x00);
        ext.push(0x12);
        ext.push(0x00);
        ext.push(0x00);
        assert(ext@ =~= seq![0x00u8, 0x12, 0x00, 0x00]);
        ext
    }
}

impl Extensions {
    /// The bytes of the extension.
    pub fn into(self) -> (ext: Vec<u8>)
        ensures
            ext@ == extension_bytes(self),
    {
        self.bytes()
    }

    /// The bytes of the extension.
    pub fn bytes(&self) -> (ext: Vec<u8>)
        ensures
            ext@ == extension_bytes(*self),
    {
        match self {
            Extensions::ECPointFormats(ext) => ext.bytes(),
            Extensions::EllipticCurves(ext) => ext.bytes(),
            Extensions::RenegotiationInfo(ext) => ext.bytes(),
            Extensions::ServerName(ext) => ext.bytes(),
            Extensions::SignatureAlgorithms(ext) => ext.bytes(),
            Extensions::SignedCertificateTimestamp(ext) => ext.bytes(),
            Extensions::StatusRequest(ext) => ext.bytes(),
        }
    }
}

impl ClientHello {
    /// The body of the ClientHello.
    fn body(&self) -> (body: Vec<u8>)
        ensures
            body@ == hello_body(*self),
    {
        let mut all_extensions: Vec<u8> = Vec::new();
        let mut i: usize = 0;
        assert(self.extensions@.take(0) =~= Seq::<Extensions>::empty());
        while i < self.extensions.len()
            invariant
                i <= self.extensions@.len(),
                all_extensions@ == extensions_bytes(self.extensions@.take(i as int)),
            decreases self.extensions@.len() - i,
        {
            assert(self.extensions@.take(i + 1).drop_last() =~= self.extensions@.take(i as int));
            let ext = self.extensions[i].bytes();
            append_bytes(&mut all_extensions, ext.as_slice());
            i += 1;
        }
        assert(self.extensions@.take(self.extensions@.len() as int) =~= self.extensions@);
        let mut suites: Vec<u8> = Vec::new();
        let mut k: usize = self.cipher_suites.len();
        assert(self.cipher_suites@.skip(k as int) =~= Seq::<ChipherSuite>::empty());
        assert(self.cipher_suites@.take(k as int) =~= self.cipher_suites@);
        while k > 0
            invariant
                k <= self.cipher_suites@.len(),
                suites@ + suite_bytes(self.cipher_suites@.take(k as int)) == suite_bytes(
                    self.cipher_suites@,
                ),
            decreases k,
        {
            let ghost before = suites@;
            assert(self.cipher_suites@.take(k as int).drop_last() =~= self.cipher_suites@.take(
                k - 1,
            ));
            k -= 1;
            push_be16(&mut suites, self.cipher_suites[k].as_u16());
            assert(suites@ + suite_bytes(self.cipher_suites@.take(k as int)) =~= before
                + suite_bytes(self.cipher_suites@.take(k + 1)));
        }
        assert(suites@ =~= suite_bytes(self.cipher_suites@));
        let mut body: Vec<u8> = Vec::new();
        body.push(0x03);
        body.push(0x03);
        let mut r: usize = 0;
        let ghost head = body@;
        while r < 32
            invariant
                r <= 32,
                body@ == head + self.random@.take(r as int),
            decreases 32 - r,
        {
            body.push(self.random[r]);
            assert(body@ =~= head + self.random@.take(r + 1));
            r += 1;
        }
        assert(self.random@.take(32) =~= self.random@);
        body.push(self.session_id);
        push_be16(&mut body, (suites.len() % 65536) as u16);
        append_bytes(&mut body, suites.as_slice());
        body.push(1);
        body.push(0);
        let behind = with_length(&all_extensions);
        append_bytes(&mut body, behind.as_slice());
        assert(body@ =~= hello_body(*self));
        body
    }

    /// The bytes of the record that carries the ClientHello.
    pub fn into(self) -> (record: Vec<u8>)
        ensures
            record@ == client_hello_bytes(self),
    {
        let body = self.body();
        let behind = with_length(&body);
        let mut handshake: Vec<u8> = Vec::new();
        handshake.push(1);
        handshake.push(0);
        append_bytes(&mut handshake, behind.as_slice());
        assert(handshake@ =~= handshake_bytes(self));
        let len: usize = handshake.len();
        let mut record: Vec<u8> = Vec::new();
        record.push(0x16);
        record.push(0x03);
        record.push(0x01);
        record.push(((len / 65536) % 256) as u8);
        record.push(((len / 256) % 256) as u8);
        record.push((len % 256) as u8);
        append_bytes(&mut record, handshake.as_slice());
        assert(record@ =~= client_hello_bytes(self));
        record
    }
}

} // verus!
