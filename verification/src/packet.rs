//! Fixed-width wire records: an address/port pair per endpoint, and the
//! bounds-checked decoder that turns a raw byte slice into a typed record.

use vstd::prelude::*;

verus! {

/// Width in bytes of the meaningful part of one wire record:
/// 4-byte source address, 2-byte source port, 4-byte destination address,
/// 2-byte destination port.
pub const RECORD_WIDTH: usize = 12;

/// IP & port
#[derive(Copy, Clone, Debug)]
pub struct IPP {
    pub ip: [u8; 4],
    pub port: u16,
}

/// Basic information on a packet
#[derive(Copy, Clone, Debug)]
pub struct PacketInfo {
    pub src: IPP,
    pub dst: IPP,
}

/// Decode-time failure: the input slice is shorter than one record.
#[derive(Copy, Clone, Debug, PartialEq, Eq, Structural)]
pub enum DecodeError {
    Malformed,
}

/// Mathematical model of an address/port pair.
pub ghost struct IppModel {
    pub ip: Seq<u8>,
    pub port: u16,
}

/// Mathematical model of a packet record.
pub ghost struct PacketModel {
    pub src: IppModel,
    pub dst: IppModel,
}

impl View for IPP {
    type V = IppModel;

    open spec fn view(&self) -> IppModel {
        IppModel { ip: self.ip@, port: self.port }
    }
}

impl View for PacketInfo {
    type V = PacketModel;

    open spec fn view(&self) -> PacketModel {
        PacketModel { src: self.src@, dst: self.dst@ }
    }
}

impl IppModel {
    /// A model arising from a real `IPP` always carries exactly four address bytes.
    pub open spec fn wf(self) -> bool {
        self.ip.len() == 4
    }
}

impl PacketModel {
    pub open spec fn wf(self) -> bool {
        self.src.wf() && self.dst.wf()
    }
}

/// The 16-bit value laid down least-significant byte first.
pub open spec fn spec_le16(lo: u8, hi: u8) -> u16 {
    (lo + hi * 256) as u16
}

/// What a (sufficiently long) byte slice decodes to.
pub open spec fn spec_decode(b: Seq<u8>) -> PacketModel {
    PacketModel {
        src: IppModel { ip: b.subrange(0, 4), port: spec_le16(b[4], b[5]) },
        dst: IppModel { ip: b.subrange(6, 10), port: spec_le16(b[10], b[11]) },
    }
}

/// The wire image of a record: each endpoint's four address bytes followed by
/// its port, least-significant byte first.
pub open spec fn spec_encode(m: PacketModel) -> Seq<u8> {
    m.src.ip + seq![(m.src.port % 256) as u8, (m.src.port / 256) as u8] + m.dst.ip
        + seq![(m.dst.port % 256) as u8, (m.dst.port / 256) as u8]
}

impl IPP {
    /// Make a new address/port pair.
    pub fn new(ip: [u8; 4], port: u16) -> (r: IPP)
        ensures
            r.ip == ip,
            r.port == port,
    {
        IPP { ip, port }
    }
}

impl PacketInfo {
    /// Make a new packet record from its two endpoints.
    pub fn new(src: IPP, dst: IPP) -> (r: PacketInfo)
        ensures
            r.src == src,
            r.dst == dst,
    {
        PacketInfo { src, dst }
    }

    /// Decode one record from the front of a byte slice. Fails with
    /// `Malformed` exactly when the slice is shorter than `RECORD_WIDTH`;
    /// bytes past the record width are ignored.
    pub fn try_from(value: &[u8]) -> (r: Result<PacketInfo, DecodeError>)
        ensures
            value@.len() < RECORD_WIDTH <==> r is Err,
            r matches Err(e) ==> e == DecodeError::Malformed,
            r matches Ok(p) ==> p@ == spec_decode(value@),
    {
        if value.len() < RECORD_WIDTH {
            return Err(DecodeError::Malformed);
        }
        let src_ip: [u8; 4] = [value[0], value[1], value[2], value[3]];
        let src_port: u16 = value[4] as u16 + value[5] as u16 * 256;
        let dst_ip: [u8; 4] = [value[6], value[7], value[8], value[9]];
        let dst_port: u16 = value[10] as u16 + value[11] as u16 * 256;
        let p = PacketInfo {
            src: IPP { ip: src_ip, port: src_port },
            dst: IPP { ip: dst_ip, port: dst_port },
        };
        proof {
            assert(p@.src.ip =~= value@.subrange(0, 4));
            assert(p@.dst.ip =~= value@.subrange(6, 10));
        }
        Ok(p)
    }

    /// Re-encode this record as its `RECORD_WIDTH`-byte wire image.
    pub fn encode(&self) -> (out: Vec<u8>)
        ensures
            out@ == spec_encode(self@),
            out@.len() == RECORD_WIDTH,
    {
        let mut out: Vec<u8> = Vec::new();
        out.push(self.src.ip[0]);
        out.push(self.src.ip[1]);
        out.push(self.src.ip[2]);
        out.push(self.src.ip[3]);
        out.push((self.src.port % 256) as u8);
        out.push((self.src.port / 256) as u8);
        out.push(self.dst.ip[0]);
        out.push(self.dst.ip[1]);
        out.push(self.dst.ip[2]);
        out.push(self.dst.ip[3]);
        out.push((self.dst.port % 256) as u8);
        out.push((self.dst.port / 256) as u8);
        proof {
            assert(out@ =~= spec_encode(self@));
        }
        out
    }
}

/// Round trip, starting from bytes: decoding a long-enough slice and encoding
/// the result reproduces the slice's first `RECORD_WIDTH` bytes exactly.
pub proof fn lemma_decode_then_encode(b: Seq<u8>)
    requires
        b.len() >= RECORD_WIDTH,
    ensures
        spec_encode(spec_decode(b)) == b.subrange(0, RECORD_WIDTH as int),
{
    assert(spec_le16(b[4], b[5]) % 256 == b[4]) by (nonlinear_arith)
        requires b[4] < 256 && b[5] < 256;
    assert(spec_le16(b[4], b[5]) / 256 == b[5]) by (nonlinear_arith)
        requires b[4] < 256 && b[5] < 256;
    assert(spec_le16(b[10], b[11]) % 256 == b[10]) by (nonlinear_arith)
        requires b[10] < 256 && b[11] < 256;
    assert(spec_le16(b[10], b[11]) / 256 == b[11]) by (nonlinear_arith)
        requires b[10] < 256 && b[11] < 256;
    assert(spec_encode(spec_decode(b)) =~= b.subrange(0, RECORD_WIDTH as int));
}

/// Round trip, starting from a record: a well-formed record model survives
/// encoding followed by decoding unchanged.
pub proof fn lemma_encode_then_decode(m: PacketModel)
    requires
        m.wf(),
    ensures
        spec_decode(spec_encode(m)) == m,
{
    let b = spec_encode(m);
    assert(b.len() == 12);
    assert(b[4] == (m.src.port % 256) as u8);
    assert(b[5] == (m.src.port / 256) as u8);
    assert(spec_le16((m.src.port % 256) as u8, (m.src.port / 256) as u8) == m.src.port)
        by (nonlinear_arith);
    assert(spec_le16((m.dst.port % 256) as u8, (m.dst.port / 256) as u8) == m.dst.port)
        by (nonlinear_arith);
    assert(spec_decode(b).src.ip =~= m.src.ip);
    assert(spec_decode(b).dst.ip =~= m.dst.ip);
}

} // verus!
