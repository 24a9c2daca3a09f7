//! The messages that travel inside frames, their byte encoding, and the
//! frame envelope around them.
//!
//! All integers are big-endian. An enum is written as its variant's position
//! (a `u32`) followed by the variant's fields; a string as its UTF-8 byte
//! count (a `u64`) followed by the bytes. A frame is the payload's length (a
//! `u32`) followed by the payload.
use crate::constants::{MAX_PACKET_SIZE, MIN_PACKET_SIZE};
use crate::wire::{
    be_bytes, be_value, lemma_be_bytes_len, lemma_be_value_of_bytes,
    pow256, push_string, push_u32_be, read_string, read_u32_be, string_at, string_wire, u32_at,
};
use crate::{FilePath, HashAlgorithms, PathModel};
use vstd::prelude::*;
use vstd::utf8::*;

verus! {

/// Why a frame or a message could not be read or written.
#[derive(Debug, PartialEq, Eq, Clone, Copy, Structural)]
pub enum ProtocolError {
    /// Fewer than the four header bytes were available.
    PacketTooShort,
    /// A payload, declared or actual, is larger than `MAX_PACKET_SIZE`.
    PacketTooLarge(usize),
    /// The payload is not the encoding of any message.
    Malformed,
    /// The connection failed while reading or writing.
    Io,
    /// The peer did not deliver a whole frame before the deadline.
    TimeOutError,
}

/// Everything that travels inside a frame.
#[derive(Debug)]
pub enum ProtocolMessage {
    /// Work asked of the server.
    TaskRequest(TaskRequest),
    /// The server's answer to one request.
    TaskResponse(TaskResponse),
}

/// The outcome of one task.
#[derive(Debug)]
pub enum TaskResponse {
    /// The lowercase hex digest of the requested file.
    Success(String),
    /// The task could not be done; no reason is given to the client.
    Failed,
}

/// The kinds of work a client can ask for.
#[derive(Debug)]
pub enum TaskRequest {
    /// Hash one file.
    HashPacket(HashingPacket),
}

/// The parameters of a hashing task.
#[derive(Debug)]
pub struct HashingPacket {
    /// The digest to compute.
    pub algorithm: HashAlgorithms,
    /// The file to compute it over.
    pub path: FilePath,
}

/// What a [`HashingPacket`] denotes.
pub ghost struct PacketModel {
    pub algorithm: HashAlgorithms,
    pub path: PathModel,
}

/// What a [`TaskRequest`] denotes.
pub ghost enum RequestModel {
    HashPacket(PacketModel),
}

/// What a [`TaskResponse`] denotes.
pub ghost enum ResponseModel {
    Success(Seq<char>),
    Failed,
}

/// What a [`ProtocolMessage`] denotes.
pub ghost enum MessageModel {
    TaskRequest(RequestModel),
    TaskResponse(ResponseModel),
}

impl View for HashingPacket {
    type V = PacketModel;

    open spec fn view(&self) -> PacketModel {
        PacketModel { algorithm: self.algorithm, path: self.path@ }
    }
}

impl View for TaskRequest {
    type V = RequestModel;

    open spec fn view(&self) -> RequestModel {
        match self {
            TaskRequest::HashPacket(p) => RequestModel::HashPacket(p@),
        }
    }
}

impl View for TaskResponse {
    type V = ResponseModel;

    open spec fn view(&self) -> ResponseModel {
        match self {
            TaskResponse::Success(s) => ResponseModel::Success(s@),
            TaskResponse::Failed => ResponseModel::Failed,
        }
    }
}

impl View for ProtocolMessage {
    type V = MessageModel;

    open spec fn view(&self) -> MessageModel {
        match self {
            ProtocolMessage::TaskRequest(t) => MessageModel::TaskRequest(t@),
            ProtocolMessage::TaskResponse(t) => MessageModel::TaskResponse(t@),
        }
    }
}

impl HashingPacket {
    /// The digest asked for.
    pub fn algorithm(&self) -> (r: &HashAlgorithms)
        ensures
            *r == self.algorithm,
    {
        &self.algorithm
    }

    /// The file to hash.
    pub fn path(&self) -> (r: &FilePath)
        ensures
            r@ == self.path@,
    {
        &self.path
    }
}

/// The wire number of each algorithm: its position in the declaration.
pub open spec fn algorithm_tag(a: HashAlgorithms) -> nat {
    match a {
        HashAlgorithms::SHA224 => 0,
        HashAlgorithms::SHA256 => 1,
        HashAlgorithms::SHA384 => 2,
        HashAlgorithms::SHA512 => 3,
        HashAlgorithms::SHA512_224 => 4,
        HashAlgorithms::SHA512_256 => 5,
        HashAlgorithms::SHA3_224 => 6,
        HashAlgorithms::SHA3_256 => 7,
        HashAlgorithms::SHA3_384 => 8,
        HashAlgorithms::SHA3_512 => 9,
        HashAlgorithms::SHAKE128 => 10,
        HashAlgorithms::SHAKE256 => 11,
        HashAlgorithms::BLAKE3 => 12,
        HashAlgorithms::UNIMPLEMENTED => 13,
    }
}

/// The algorithm a wire number names; a number no algorithm has reads as
/// `UNIMPLEMENTED`, so that older peers degrade instead of failing.
pub open spec fn algorithm_of_tag(t: nat) -> HashAlgorithms {
    if t == 0 {
        HashAlgorithms::SHA224
    } else if t == 1 {
        HashAlgorithms::SHA256
    } else if t == 2 {
        HashAlgorithms::SHA384
    } else if t == 3 {
        HashAlgorithms::SHA512
    } else if t == 4 {
        HashAlgorithms::SHA512_224
    } else if t == 5 {
        HashAlgorithms::SHA512_256
    } else if t == 6 {
        HashAlgorithms::SHA3_224
    } else if t == 7 {
        HashAlgorithms::SHA3_256
    } else if t == 8 {
        HashAlgorithms::SHA3_384
    } else if t == 9 {
        HashAlgorithms::SHA3_512
    } else if t == 10 {
        HashAlgorithms::SHAKE128
    } else if t == 11 {
        HashAlgorithms::SHAKE256
    } else if t == 12 {
        HashAlgorithms::BLAKE3
    } else {
        HashAlgorithms::UNIMPLEMENTED
    }
}

/// The encoding of a file path.
pub open spec fn path_wire(p: PathModel) -> Seq<u8> {
    match p {
        PathModel::Local(s) => be_bytes(0, 4) + string_wire(s),
        PathModel::Remote(s) => be_bytes(1, 4) + string_wire(s),
    }
}

/// The encoding of a message: the payload of its frame.
pub open spec fn message_wire(m: MessageModel) -> Seq<u8> {
    match m {
        MessageModel::TaskRequest(RequestModel::HashPacket(p)) => be_bytes(0, 4) + be_bytes(0, 4)
            + be_bytes(algorithm_tag(p.algorithm), 4) + path_wire(p.path),
        MessageModel::TaskResponse(ResponseModel::Success(s)) => be_bytes(1, 4) + be_bytes(0, 4)
            + string_wire(s),
        MessageModel::TaskResponse(ResponseModel::Failed) => be_bytes(1, 4) + be_bytes(1, 4),
    }
}

/// The message that a payload encodes, if any. Every byte must be used, and
/// an unknown tag fails everywhere but in the algorithm field.
pub open spec fn parse_message(b: Seq<u8>) -> Option<MessageModel> {
    match (u32_at(b, 0), u32_at(b, 4)) {
        (Some(outer), Some(inner)) => if outer == 0 && inner == 0 {
            parse_hash_packet(b)
        } else if outer == 1 && inner == 0 {
            match string_at(b, 8) {
                Some((s, end)) if end == b.len() => Some(
                    MessageModel::TaskResponse(ResponseModel::Success(s)),
                ),
                _ => None,
            }
        } else if outer == 1 && inner == 1 && b.len() == 8 {
            Some(MessageModel::TaskResponse(ResponseModel::Failed))
        } else {
            None
        },
        _ => None,
    }
}

/// The hashing request whose fields start at byte 8 of `b`, if `b` holds one
/// and nothing after it.
pub open spec fn parse_hash_packet(b: Seq<u8>) -> Option<MessageModel> {
    match (u32_at(b, 8), u32_at(b, 12), string_at(b, 16)) {
        (Some(tag), Some(kind), Some((s, end))) if kind <= 1 && end == b.len() => {
            let path = if kind == 0 {
                PathModel::Local(s)
            } else {
                PathModel::Remote(s)
            };
            Some(
                MessageModel::TaskRequest(
                    RequestModel::HashPacket(PacketModel { algorithm: algorithm_of_tag(tag), path }),
                ),
            )
        },
        _ => None,
    }
}

impl HashAlgorithms {
    /// The wire number of this algorithm.
    pub fn tag(self) -> (r: u32)
        ensures
            r as nat == algorithm_tag(self),
    {
        match self {
            HashAlgorithms::SHA224 => 0,
            HashAlgorithms::SHA256 => 1,
            HashAlgorithms::SHA384 => 2,
            HashAlgorithms::SHA512 => 3,
            HashAlgorithms::SHA512_224 => 4,
            HashAlgorithms::SHA512_256 => 5,
            HashAlgorithms::SHA3_224 => 6,
            HashAlgorithms::SHA3_256 => 7,
            HashAlgorithms::SHA3_384 => 8,
            HashAlgorithms::SHA3_512 => 9,
            HashAlgorithms::SHAKE128 => 10,
            HashAlgorithms::SHAKE256 => 11,
            HashAlgorithms::BLAKE3 => 12,
            HashAlgorithms::UNIMPLEMENTED => 13,
        }
    }

    /// The algorithm a wire number names; any number past the known ones
    /// gives `UNIMPLEMENTED`.
    pub fn from_tag(t: u32) -> (r: HashAlgorithms)
        ensures
            r == algorithm_of_tag(t as nat),
            t > 12 ==> r == HashAlgorithms::UNIMPLEMENTED,
    {
        match t {
            0 => HashAlgorithms::SHA224,
            1 => HashAlgorithms::SHA256,
            2 => HashAlgorithms::SHA384,
            3 => HashAlgorithms::SHA512,
            4 => HashAlgorithms::SHA512_224,
            5 => HashAlgorithms::SHA512_256,
            6 => HashAlgorithms::SHA3_224,
            7 => HashAlgorithms::SHA3_256,
            8 => HashAlgorithms::SHA3_384,
            9 => HashAlgorithms::SHA3_512,
            10 => HashAlgorithms::SHAKE128,
            11 => HashAlgorithms::SHAKE256,
            12 => HashAlgorithms::BLAKE3,
            _ => HashAlgorithms::UNIMPLEMENTED,
        }
    }
}

/// Encodes a message into the payload of a frame.
pub fn serialize(msg: &ProtocolMessage) -> (r: Vec<u8>)
    ensures
        r@ == message_wire(msg@),
{
    let mut out: Vec<u8> = Vec::new();
    match msg {
        ProtocolMessage::TaskRequest(TaskRequest::HashPacket(p)) => {
            push_u32_be(&mut out, 0);
            push_u32_be(&mut out, 0);
            push_u32_be(&mut out, p.algorithm.tag());
            match &p.path {
                FilePath::Local(s) => {
                    push_u32_be(&mut out, 0);
                    push_string(&mut out, s);
                },
                FilePath::Remote(s) => {
                    push_u32_be(&mut out, 1);
                    push_string(&mut out, s);
                },
            }
        },
        ProtocolMessage::TaskResponse(TaskResponse::Success(s)) => {
            push_u32_be(&mut out, 1);
            push_u32_be(&mut out, 0);
            push_string(&mut out, s);
        },
        ProtocolMessage::TaskResponse(TaskResponse::Failed) => {
            push_u32_be(&mut out, 1);
            push_u32_be(&mut out, 1);
        },
    }
    assert(out@ =~= message_wire(msg@));
    out
}

/// Decodes the payload of a frame. It fails with `Malformed` exactly when the
/// bytes are not the encoding of a message.
pub fn deserialize(b: &[u8]) -> (r: Result<ProtocolMessage, ProtocolError>)
    ensures
        match parse_message(b@) {
            Some(m) => r matches Ok(x) && x@ == m,
            None => r == Err::<ProtocolMessage, ProtocolError>(ProtocolError::Malformed),
        },
{
    let len = b.len();
    if len < 8 {
        return Err(ProtocolError::Malformed);
    }
    let outer = read_u32_be(b, 0);
    let inner = read_u32_be(b, 4);
    if outer == 0 && inner == 0 {
        if len < 16 {
            return Err(ProtocolError::Malformed);
        }
        let tag = read_u32_be(b, 8);
        let kind = read_u32_be(b, 12);
        if kind > 1 {
            return Err(ProtocolError::Malformed);
        }
        match read_string(b, 16) {
            Some((s, end)) => {
                if end != len {
                    return Err(ProtocolError::Malformed);
                }
                let path = if kind == 0 {
                    FilePath::Local(s)
                } else {
                    FilePath::Remote(s)
                };
                let packet = HashingPacket { algorithm: HashAlgorithms::from_tag(tag), path };
                Ok(ProtocolMessage::TaskRequest(TaskRequest::HashPacket(packet)))
            },
            None => Err(ProtocolError::Malformed),
        }
    } else if outer == 1 && inner == 0 {
        match read_string(b, 8) {
            Some((s, end)) => {
                if end != len {
                    return Err(ProtocolError::Malformed);
                }
                Ok(ProtocolMessage::TaskResponse(TaskResponse::Success(s)))
            },
            None => Err(ProtocolError::Malformed),
        }
    } else if outer == 1 && inner == 1 && len == 8 {
        Ok(ProtocolMessage::TaskResponse(TaskResponse::Failed))
    } else {
        Err(ProtocolError::Malformed)
    }
}

proof fn lemma_u32_field(b: Seq<u8>, pos: int, v: nat)
    requires
        0 <= pos,
        pos + 4 <= b.len(),
        b.subrange(pos, pos + 4) == be_bytes(v, 4),
        v < pow256(4),
    ensures
        u32_at(b, pos) == Some(v),
{
    lemma_be_value_of_bytes(v, 4);
}

proof fn lemma_string_field(b: Seq<u8>, pos: int, s: Seq<char>)
    requires
        0 <= pos <= b.len(),
        b.subrange(pos, b.len() as int) == string_wire(s),
        encode_utf8(s).len() < pow256(8),
    ensures
        string_at(b, pos) == Some((s, b.len() as int)),
{
    let n = encode_utf8(s).len();
    let w = string_wire(s);
    lemma_be_bytes_len(n, 8);
    let t = b.subrange(pos, b.len() as int);
    assert(w.len() == 8 + n);
    assert(t.len() == b.len() - pos);
    assert(t.subrange(0, 8) =~= b.subrange(pos, pos + 8));
    assert(w.subrange(0, 8) =~= be_bytes(n, 8));
    lemma_be_value_of_bytes(n, 8);
    assert(t.subrange(8, 8 + n as int) =~= b.subrange(pos + 8, pos + 8 + n));
    assert(w.subrange(8, 8 + n as int) =~= encode_utf8(s));
    encode_utf8_valid_utf8(s);
    encode_utf8_decode_utf8(s);
}

/// Decoding the encoding of a message gives the message back, provided its
/// strings are short enough for their lengths to be written.
pub proof fn lemma_message_round_trip(m: MessageModel)
    requires
        message_wire(m).len() < pow256(8),
    ensures
        parse_message(message_wire(m)) == Some(m),
{
    let b = message_wire(m);
    assert(pow256(4) == 4294967296) by {
        reveal_with_fuel(pow256, 5);
    }
    lemma_be_bytes_len(0, 4);
    lemma_be_bytes_len(1, 4);
    match m {
        MessageModel::TaskRequest(RequestModel::HashPacket(p)) => {
            let tag = algorithm_tag(p.algorithm);
            lemma_be_bytes_len(tag, 4);
            let (kind, s) = match p.path {
                PathModel::Local(s) => (0nat, s),
                PathModel::Remote(s) => (1nat, s),
            };
            lemma_be_bytes_len(kind, 4);
            lemma_be_bytes_len(encode_utf8(s).len(), 8);
            assert(b.subrange(0, 4) =~= be_bytes(0, 4));
            assert(b.subrange(4, 8) =~= be_bytes(0, 4));
            assert(b.subrange(8, 12) =~= be_bytes(tag, 4));
            assert(b.subrange(12, 16) =~= be_bytes(kind, 4));
            assert(b.subrange(16, b.len() as int) =~= string_wire(s));
            lemma_u32_field(b, 0, 0);
            lemma_u32_field(b, 4, 0);
            lemma_u32_field(b, 8, tag);
            lemma_u32_field(b, 12, kind);
            lemma_string_field(b, 16, s);
            assert(parse_hash_packet(b) == Some(m));
        },
        MessageModel::TaskResponse(ResponseModel::Success(s)) => {
            lemma_be_bytes_len(encode_utf8(s).len(), 8);
            assert(b.subrange(0, 4) =~= be_bytes(1, 4));
            assert(b.subrange(4, 8) =~= be_bytes(0, 4));
            assert(b.subrange(8, b.len() as int) =~= string_wire(s));
            lemma_u32_field(b, 0, 1);
            lemma_u32_field(b, 4, 0);
            lemma_string_field(b, 8, s);
        },
        MessageModel::TaskResponse(ResponseModel::Failed) => {
            assert(b.subrange(0, 4) =~= be_bytes(1, 4));
            assert(b.subrange(4, 8) =~= be_bytes(1, 4));
            lemma_u32_field(b, 0, 1);
            lemma_u32_field(b, 4, 1);
        },
    }
}

/// The length of a payload as the four header bytes of its frame carry it.
#[derive(Debug, Copy, Clone, PartialEq, Eq, Structural)]
pub struct PacketSize(u32);

impl View for PacketSize {
    type V = nat;

    closed spec fn view(&self) -> nat {
        self.0 as nat
    }
}

impl PacketSize {
    /// Reads a size from the first four bytes of `slice`, most significant
    /// first. Fails with `PacketTooShort` exactly when there are fewer than four.
    pub fn from_slice(slice: &[u8]) -> (r: Result<PacketSize, ProtocolError>)
        ensures
            slice@.len() < 4 ==> r == Err::<PacketSize, ProtocolError>(
                ProtocolError::PacketTooShort,
            ),
            slice@.len() >= 4 ==> (r matches Ok(p) && p@ == be_value(slice@.subrange(0, 4))),
    {
        if slice.len() < 4 {
            return Err(ProtocolError::PacketTooShort);
        }
        Ok(PacketSize(read_u32_be(slice, 0)))
    }

    /// The four header bytes that carry this size.
    pub fn to_bytes(self) -> (r: [u8; 4])
        ensures
            r@ == be_bytes(self@, 4),
    {
        let mut v: Vec<u8> = Vec::new();
        push_u32_be(&mut v, self.0);
        proof {
            lemma_be_bytes_len(self@, 4);
        }
        let r = [v[0], v[1], v[2], v[3]];
        assert(r@ =~= v@);
        r
    }
}

impl From<PacketSize> for usize {
    fn from(ps: PacketSize) -> (r: usize) {
        ps.0 as usize
    }
}

impl vstd::std_specs::convert::FromSpecImpl<PacketSize> for usize {
    open spec fn obeys_from_spec() -> bool {
        true
    }

    open spec fn from_spec(ps: PacketSize) -> usize {
        ps@ as usize
    }
}

impl From<u32> for PacketSize {
    fn from(val: u32) -> (r: PacketSize)
        ensures
            r@ == val as nat,
    {
        PacketSize(val)
    }
}

impl vstd::std_specs::convert::FromSpecImpl<u32> for PacketSize {
    open spec fn obeys_from_spec() -> bool {
        true
    }

    closed spec fn from_spec(val: u32) -> PacketSize {
        PacketSize(val)
    }
}

/// A frame: the payload's length in four big-endian bytes, then the payload.
pub open spec fn frame_wire(payload: Seq<u8>) -> Seq<u8> {
    be_bytes(payload.len(), 4) + payload
}

/// What a header announces: the payload length, or why none can be read.
/// A length above `MAX_PACKET_SIZE` is refused here, before any payload is
/// read or any room is made for it.
pub open spec fn header_result(h: Seq<u8>) -> Result<nat, ProtocolError> {
    if h.len() < MIN_PACKET_SIZE {
        Err(ProtocolError::PacketTooShort)
    } else if be_value(h.subrange(0, 4)) > MAX_PACKET_SIZE {
        Err(ProtocolError::PacketTooLarge(be_value(h.subrange(0, 4)) as usize))
    } else {
        Ok(be_value(h.subrange(0, 4)))
    }
}

/// The message carried by `b`, which must be exactly one frame.
pub open spec fn parse_frame(b: Seq<u8>) -> Result<MessageModel, ProtocolError> {
    match header_result(b) {
        Err(e) => Err(e),
        Ok(n) => if b.len() != 4 + n {
            Err(ProtocolError::Malformed)
        } else {
            match parse_message(b.subrange(4, b.len() as int)) {
                Some(m) => Ok(m),
                None => Err(ProtocolError::Malformed),
            }
        },
    }
}

/// Checks a frame header: the payload length it announces, `PacketTooShort`
/// when fewer than four bytes are given, `PacketTooLarge` when the length is
/// above `MAX_PACKET_SIZE`.
pub fn decode_header(header: &[u8]) -> (r: Result<usize, ProtocolError>)
    ensures
        match header_result(header@) {
            Ok(n) => r == Ok::<usize, ProtocolError>(n as usize),
            Err(e) => r == Err::<usize, ProtocolError>(e),
        },
        header@.len() < 4 ==> r == Err::<usize, ProtocolError>(ProtocolError::PacketTooShort),
{
    let size = PacketSize::from_slice(header)?;
    let len = usize::from(size);
    if len > MAX_PACKET_SIZE {
        return Err(ProtocolError::PacketTooLarge(len));
    }
    Ok(len)
}

/// Puts a payload in a frame. Fails with `PacketTooLarge` exactly when the
/// payload is longer than `MAX_PACKET_SIZE`.
pub fn encode_frame(payload: &[u8]) -> (r: Result<Vec<u8>, ProtocolError>)
    ensures
        payload@.len() > MAX_PACKET_SIZE ==> r == Err::<Vec<u8>, ProtocolError>(
            ProtocolError::PacketTooLarge(payload@.len() as usize),
        ),
        payload@.len() <= MAX_PACKET_SIZE ==> (r matches Ok(v) && v@ == frame_wire(payload@)),
{
    let n = payload.len();
    if n > MAX_PACKET_SIZE {
        return Err(ProtocolError::PacketTooLarge(n));
    }
    let mut out: Vec<u8> = Vec::new();
    push_u32_be(&mut out, n as u32);
    let mut i: usize = 0;
    while i < n
        invariant
            n == payload@.len(),
            i <= n,
            out@ == be_bytes(n as nat, 4) + payload@.subrange(0, i as int),
        decreases n - i,
    {
        out.push(payload[i]);
        i = i + 1;
        assert(out@ =~= be_bytes(n as nat, 4) + payload@.subrange(0, i as int));
    }
    assert(payload@.subrange(0, n as int) =~= payload@);
    Ok(out)
}

/// Reads the message out of a buffer that holds exactly one frame.
pub fn decode_packet(bytes: &[u8]) -> (r: Result<ProtocolMessage, ProtocolError>)
    ensures
        match parse_frame(bytes@) {
            Ok(m) => r matches Ok(x) && x@ == m,
            Err(e) => r == Err::<ProtocolMessage, ProtocolError>(e),
        },
{
    let n = decode_header(bytes)?;
    if bytes.len() - 4 != n {
        return Err(ProtocolError::Malformed);
    }
    let mut payload: Vec<u8> = Vec::new();
    let mut i: usize = 4;
    while i < bytes.len()
        invariant
            4 <= i <= bytes@.len(),
            payload@ == bytes@.subrange(4, i as int),
        decreases bytes@.len() - i,
    {
        payload.push(bytes[i]);
        i = i + 1;
        assert(payload@ =~= bytes@.subrange(4, i as int));
    }
    deserialize(payload.as_slice())
}

impl ProtocolMessage {
    /// Encodes the message and puts it in a frame. Fails with
    /// `PacketTooLarge` exactly when the encoding is longer than
    /// `MAX_PACKET_SIZE`.
    pub fn into_packet(&self) -> (r: Result<Vec<u8>, ProtocolError>)
        ensures
            message_wire(self@).len() > MAX_PACKET_SIZE ==> r == Err::<Vec<u8>, ProtocolError>(
                ProtocolError::PacketTooLarge(message_wire(self@).len() as usize),
            ),
            message_wire(self@).len() <= MAX_PACKET_SIZE ==> (r matches Ok(v) && v@ == frame_wire(
                message_wire(self@),
            )),
    {
        let payload = serialize(self);
        encode_frame(payload.as_slice())
    }
}

/// Whatever message fits in a frame comes back unchanged from the frame that
/// `into_packet` makes of it.
pub proof fn lemma_packet_round_trip(m: MessageModel)
    requires
        message_wire(m).len() <= MAX_PACKET_SIZE,
    ensures
        parse_frame(frame_wire(message_wire(m))) == Ok::<MessageModel, ProtocolError>(m),
{
    let p = message_wire(m);
    let f = frame_wire(p);
    assert(pow256(4) == 4294967296) by {
        reveal_with_fuel(pow256, 5);
    }
    assert(pow256(8) > 4294967296) by {
        reveal_with_fuel(pow256, 9);
    }
    lemma_be_bytes_len(p.len(), 4);
    assert(f.subrange(0, 4) =~= be_bytes(p.len(), 4));
    lemma_be_value_of_bytes(p.len(), 4);
    assert(f.subrange(4, f.len() as int) =~= p);
    lemma_message_round_trip(m);
}

} // verus!
