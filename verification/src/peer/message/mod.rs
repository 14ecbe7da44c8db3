//! Messages of the peer wire protocol.
//!
//! On the wire a message is a length of four bytes, most significant first,
//! and then that many bytes of payload: an id of one byte and a body. The
//! length 0 is the keep-alive, which has no id.

pub mod extended;
pub mod standard;

use crate::peer::message::standard::{
    lemma_block_wire_injective,
    BitFieldMessage,
    CancelMessage,
    HaveMessage,
    PieceMessage,
    RequestMessage,
};
use crate::util::convert::{
    be_bytes,
    be_value,
    copy_bytes,
    extend_bytes,
    lemma_be_bytes_injective,
    lemma_be_bytes_len,
    lemma_be_bytes_of_value,
    lemma_be_value_of_bytes,
    lemma_concat_parts,
    lemma_radix_pow_values,
    read_u32_be,
    write_u32_be,
};
use crate::util::error::FramingError;
use vstd::prelude::*;
use vstd::slice::slice_subrange;

verus! {

/// Length of the length prefix.
pub const MESSAGE_LENGTH_LEN_BYTES: usize = 4;

pub const CHOKE_MESSAGE_ID: u8 = 0;

pub const UNCHOKE_MESSAGE_ID: u8 = 1;

pub const INTERESTED_MESSAGE_ID: u8 = 2;

pub const UNINTERESTED_MESSAGE_ID: u8 = 3;

pub const HAVE_MESSAGE_ID: u8 = 4;

pub const BITFIELD_MESSAGE_ID: u8 = 5;

pub const REQUEST_MESSAGE_ID: u8 = 6;

pub const PIECE_MESSAGE_ID: u8 = 7;

pub const CANCEL_MESSAGE_ID: u8 = 8;

pub const EXTENSION_MESSAGE_ID: u8 = 20;

/// A length of a message as a length in memory.
pub fn u32_to_usize(value: u32) -> (r: usize)
    ensures
        r == value,
{
    value as usize
}

/// A message of an extension: the id that the extension has in this
/// connection, and the body, which only the extension understands. The id 0
/// is the handshake of the extension protocol.
#[derive(Clone, Debug, Hash, PartialEq, Eq)]
pub struct ExtensionMessage {
    pub sub_id: u8,
    pub body: Vec<u8>,
}

/// A message of the peer wire protocol.
#[derive(Clone, Debug, Hash, PartialEq, Eq)]
pub enum PeerWireProtocolMessage {
    /// Message to keep the connection alive.
    KeepAlive,
    /// Message to tell a peer we will not be responding to their requests.
    Choke,
    /// Message to tell a peer we will now be responding to their requests.
    UnChoke,
    /// Message to tell a peer we are interested in downloading pieces from them.
    Interested,
    /// Message to tell a peer we are not interested in downloading pieces from them.
    UnInterested,
    /// Message to tell a peer we have some (validated) piece.
    Have(HaveMessage),
    /// Message to effectively send multiple `HaveMessages` in a single message.
    BitField(BitFieldMessage),
    /// Message to request a block from a peer.
    Request(RequestMessage),
    /// Message from a peer containing a block: its place and its bytes.
    Piece(PieceMessage, Vec<u8>),
    /// Message to cancel a block request from a peer.
    Cancel(CancelMessage),
    /// Message of an extension.
    Extension(ExtensionMessage),
}

/// What a message is, apart from how it is stored.
pub enum MessageModel {
    KeepAlive,
    Choke,
    UnChoke,
    Interested,
    UnInterested,
    Have(HaveMessage),
    BitField(Seq<u8>),
    Request(RequestMessage),
    Piece(PieceMessage, Seq<u8>),
    Cancel(CancelMessage),
    Extension(u8, Seq<u8>),
}

impl View for PeerWireProtocolMessage {
    type V = MessageModel;

    open spec fn view(&self) -> MessageModel {
        match self {
            PeerWireProtocolMessage::KeepAlive => MessageModel::KeepAlive,
            PeerWireProtocolMessage::Choke => MessageModel::Choke,
            PeerWireProtocolMessage::UnChoke => MessageModel::UnChoke,
            PeerWireProtocolMessage::Interested => MessageModel::Interested,
            PeerWireProtocolMessage::UnInterested => MessageModel::UnInterested,
            PeerWireProtocolMessage::Have(m) => MessageModel::Have(*m),
            PeerWireProtocolMessage::BitField(m) => MessageModel::BitField(m@),
            PeerWireProtocolMessage::Request(m) => MessageModel::Request(*m),
            PeerWireProtocolMessage::Piece(m, block) => MessageModel::Piece(*m, block@),
            PeerWireProtocolMessage::Cancel(m) => MessageModel::Cancel(*m),
            PeerWireProtocolMessage::Extension(m) => MessageModel::Extension(m.sub_id, m.body@),
        }
    }
}

/// The payload of a message: its id and its body; nothing for a keep-alive.
pub open spec fn payload(m: MessageModel) -> Seq<u8> {
    match m {
        MessageModel::KeepAlive => Seq::empty(),
        MessageModel::Choke => seq![CHOKE_MESSAGE_ID],
        MessageModel::UnChoke => seq![UNCHOKE_MESSAGE_ID],
        MessageModel::Interested => seq![INTERESTED_MESSAGE_ID],
        MessageModel::UnInterested => seq![UNINTERESTED_MESSAGE_ID],
        MessageModel::Have(h) => seq![HAVE_MESSAGE_ID] + h.wire(),
        MessageModel::BitField(b) => seq![BITFIELD_MESSAGE_ID] + b,
        MessageModel::Request(r) => seq![REQUEST_MESSAGE_ID] + r.wire(),
        MessageModel::Piece(p, block) => seq![PIECE_MESSAGE_ID] + p.wire() + block,
        MessageModel::Cancel(c) => seq![CANCEL_MESSAGE_ID] + c.wire(),
        MessageModel::Extension(sub_id, body) => seq![EXTENSION_MESSAGE_ID, sub_id] + body,
    }
}

/// Whether a message can be written: the length of its payload fits the four
/// bytes of the prefix, and the frame a buffer in memory; the length of a
/// block that is asked for or cancelled fits four bytes, and a piece states
/// the length of the block it carries.
pub open spec fn encodable(m: MessageModel) -> bool {
    &&& payload(m).len() <= u32::MAX
    &&& payload(m).len() + 4 <= usize::MAX
    &&& m matches MessageModel::Request(r) ==> r.wf()
    &&& m matches MessageModel::Cancel(c) ==> c.wf()
    &&& m matches MessageModel::Piece(p, block) ==> p.block_length == block.len()
}

/// The frame of a message: the length of the payload, then the payload.
pub open spec fn frame(m: MessageModel) -> Seq<u8> {
    be_bytes(payload(m).len(), 4) + payload(m)
}

/// The number of bytes that the message at the start of `s` has in all, where
/// `s` is long enough to tell: four more than what its first four bytes
/// denote. A payload longer than `max_payload` is a bad length.
pub open spec fn needed(s: Seq<u8>, max_payload: nat) -> Result<Option<nat>, FramingError> {
    if s.len() < 4 {
        Ok(None)
    } else {
        let length = be_value(s.subrange(0, 4));
        if length > max_payload {
            Err(FramingError::BadLength)
        } else {
            Ok(Some(4 + length))
        }
    }
}

/// What is wrong with the payload `p` (id and body) of a message, if
/// anything: an unknown id is an invalid value; a payload whose length does
/// not suit its id is a bad length.
pub open spec fn payload_fault(p: Seq<u8>) -> Option<FramingError> {
    if p.len() == 0 {
        None
    } else {
        let id = p[0];
        if id == CHOKE_MESSAGE_ID || id == UNCHOKE_MESSAGE_ID || id == INTERESTED_MESSAGE_ID || id
            == UNINTERESTED_MESSAGE_ID {
            if p.len() == 1 {
                None
            } else {
                Some(FramingError::BadLength)
            }
        } else if id == HAVE_MESSAGE_ID {
            if p.len() == 5 {
                None
            } else {
                Some(FramingError::BadLength)
            }
        } else if id == BITFIELD_MESSAGE_ID {
            None
        } else if id == REQUEST_MESSAGE_ID || id == CANCEL_MESSAGE_ID {
            if p.len() == 13 {
                None
            } else {
                Some(FramingError::BadLength)
            }
        } else if id == PIECE_MESSAGE_ID {
            if p.len() >= 9 {
                None
            } else {
                Some(FramingError::BadLength)
            }
        } else if id == EXTENSION_MESSAGE_ID {
            if p.len() >= 2 {
                None
            } else {
                Some(FramingError::BadLength)
            }
        } else {
            Some(FramingError::InvalidValue)
        }
    }
}

/// What reading one message from the start of `s` gives. Input that ends
/// before the length prefix or before the payload does is a short read; a
/// payload can be at fault as [`payload_fault`] says; otherwise the result is
/// the encodable message whose frame the first bytes of `s` are, and the
/// length of that frame.
pub open spec fn parsed(s: Seq<u8>, r: Result<(PeerWireProtocolMessage, usize), FramingError>) -> bool {
    if s.len() < 4 || s.len() < 4 + be_value(s.subrange(0, 4)) {
        r == Err::<(PeerWireProtocolMessage, usize), FramingError>(FramingError::ShortRead)
    } else {
        let length = be_value(s.subrange(0, 4));
        match payload_fault(s.subrange(4, 4 + length as int)) {
            Some(fault) => r == Err::<(PeerWireProtocolMessage, usize), FramingError>(fault),
            None => {
                &&& r matches Ok((message, n))
                &&& n == 4 + length
                &&& encodable(message@)
                &&& frame(message@) == s.subrange(0, n as int)
            },
        }
    }
}

impl PeerWireProtocolMessage {
    /// Whether the message can be written; see [`encodable`].
    pub open spec fn wf(&self) -> bool {
        encodable(self@)
    }

    /// Total number of bytes needed to parse a complete message. This is not
    /// in addition to what we were given, this is the total number of bytes.
    ///
    /// `None` means that more bytes are needed to determine the number. An
    /// error means that the payload is longer than `max_payload`, or than
    /// memory can address.
    pub fn bytes_needed(bytes: &[u8], max_payload: usize) -> (r: Result<
        Option<usize>,
        FramingError,
    >)
        ensures
            match needed(bytes@, max_payload as nat) {
                Ok(Some(n)) => if n <= usize::MAX {
                    r == Ok::<Option<usize>, FramingError>(Some(n as usize))
                } else {
                    r == Err::<Option<usize>, FramingError>(FramingError::BadLength)
                },
                Ok(None) => r == Ok::<Option<usize>, FramingError>(None),
                Err(e) => r == Err::<Option<usize>, FramingError>(e),
            },
    {
        match read_u32_be(bytes, 0) {
            None => Ok(None),
            Some(length) => {
                let length = u32_to_usize(length);
                if length > max_payload {
                    Err(FramingError::BadLength)
                } else if length > usize::MAX - MESSAGE_LENGTH_LEN_BYTES {
                    Err(FramingError::BadLength)
                } else {
                    Ok(Some(MESSAGE_LENGTH_LEN_BYTES + length))
                }
            },
        }
    }

    /// Parse one message from the start of `bytes`.
    pub fn parse_bytes(bytes: &[u8]) -> (r: Result<(PeerWireProtocolMessage, usize), FramingError>)
        ensures
            parsed(bytes@, r),
    {
        let length = match read_u32_be(bytes, 0) {
            Some(length) => u32_to_usize(length),
            None => {
                return Err(FramingError::ShortRead);
            },
        };
        if length > bytes.len() - 4 {
            return Err(FramingError::ShortRead);
        }
        let ghost s = bytes@;
        let total = 4 + length;
        proof {
            lemma_be_bytes_of_value(s.subrange(0, 4));
            assert(s.subrange(0, total as int) =~= s.subrange(0, 4) + s.subrange(4, total as int));
        }
        if length == 0 {
            proof {
                assert(s.subrange(4, 4) =~= Seq::<u8>::empty());
            }
            return Ok((PeerWireProtocolMessage::KeepAlive, total));
        }
        let id = bytes[4];
        let body = slice_subrange(bytes, 5, total);
        proof {
            assert(s.subrange(4, total as int) =~= seq![id] + body@);
            assert(s.subrange(4, total as int)[0] == id);
        }
        if id == CHOKE_MESSAGE_ID || id == UNCHOKE_MESSAGE_ID || id == INTERESTED_MESSAGE_ID || id
            == UNINTERESTED_MESSAGE_ID {
            if length != 1 {
                return Err(FramingError::BadLength);
            }
            proof {
                assert(body@ =~= Seq::<u8>::empty());
                assert(seq![id] + body@ =~= seq![id]);
            }
            let message = if id == CHOKE_MESSAGE_ID {
                PeerWireProtocolMessage::Choke
            } else if id == UNCHOKE_MESSAGE_ID {
                PeerWireProtocolMessage::UnChoke
            } else if id == INTERESTED_MESSAGE_ID {
                PeerWireProtocolMessage::Interested
            } else {
                PeerWireProtocolMessage::UnInterested
            };
            Ok((message, total))
        } else if id == HAVE_MESSAGE_ID {
            if length != 5 {
                return Err(FramingError::BadLength);
            }
            match HaveMessage::from_bytes(body) {
                Ok((have, _)) => {
                    proof {
                        assert(body@.subrange(0, 4) =~= body@);
                    }
                    Ok((PeerWireProtocolMessage::Have(have), total))
                },
                Err(e) => Err(e),
            }
        } else if id == BITFIELD_MESSAGE_ID {
            let bitfield = BitFieldMessage { bytes: copy_bytes(body) };
            Ok((PeerWireProtocolMessage::BitField(bitfield), total))
        } else if id == REQUEST_MESSAGE_ID {
            if length != 13 {
                return Err(FramingError::BadLength);
            }
            match RequestMessage::from_bytes(body) {
                Ok((request, _)) => {
                    proof {
                        assert(body@.subrange(0, 12) =~= body@);
                    }
                    Ok((PeerWireProtocolMessage::Request(request), total))
                },
                Err(e) => Err(e),
            }
        } else if id == CANCEL_MESSAGE_ID {
            if length != 13 {
                return Err(FramingError::BadLength);
            }
            match CancelMessage::from_bytes(body) {
                Ok((cancel, _)) => {
                    proof {
                        assert(body@.subrange(0, 12) =~= body@);
                    }
                    Ok((PeerWireProtocolMessage::Cancel(cancel), total))
                },
                Err(e) => Err(e),
            }
        } else if id == PIECE_MESSAGE_ID {
            if length < 9 {
                return Err(FramingError::BadLength);
            }
            let block_length = length - 9;
            match PieceMessage::from_bytes(body, block_length as u32) {
                Ok((piece, _)) => {
                    let block = copy_bytes(slice_subrange(body, 8, body.len()));
                    proof {
                        assert(body@ =~= body@.subrange(0, 8) + block@);
                        assert(seq![id] + body@ =~= seq![id] + piece.wire() + block@);
                    }
                    Ok((PeerWireProtocolMessage::Piece(piece, block), total))
                },
                Err(e) => Err(e),
            }
        } else if id == EXTENSION_MESSAGE_ID {
            if length < 2 {
                return Err(FramingError::BadLength);
            }
            let sub_id = body[0];
            let ext_body = copy_bytes(slice_subrange(body, 1, body.len()));
            proof {
                assert(seq![id] + body@ =~= seq![id, sub_id] + ext_body@);
            }
            Ok(
                (
                    PeerWireProtocolMessage::Extension(ExtensionMessage { sub_id, body: ext_body }),
                    total,
                ),
            )
        } else {
            Err(FramingError::InvalidValue)
        }
    }

    /// The length of the payload, where the message can be written.
    fn payload_len(&self) -> (r: Option<u32>)
        ensures
            r is Some <==> self.wf(),
            r matches Some(n) ==> n == payload(self@).len(),
    {
        proof {
            lemma_payload_len(self@);
        }
        if let Some(length) = self.payload_len_u32() {
            if length as u64 + 4 > usize::MAX as u64 {
                None
            } else {
                Some(length)
            }
        } else {
            None
        }
    }

    /// The length of the payload, where it fits the prefix and the lengths
    /// inside the message are in order.
    fn payload_len_u32(&self) -> (r: Option<u32>)
        ensures
            r is Some <==> {
                &&& payload(self@).len() <= u32::MAX
                &&& self@ matches MessageModel::Request(r) ==> r.wf()
                &&& self@ matches MessageModel::Cancel(c) ==> c.wf()
                &&& self@ matches MessageModel::Piece(p, block) ==> p.block_length == block.len()
            },
            r matches Some(n) ==> n == payload(self@).len(),
    {
        proof {
            lemma_payload_len(self@);
        }
        match self {
            PeerWireProtocolMessage::KeepAlive => Some(0),
            PeerWireProtocolMessage::Choke => Some(1),
            PeerWireProtocolMessage::UnChoke => Some(1),
            PeerWireProtocolMessage::Interested => Some(1),
            PeerWireProtocolMessage::UnInterested => Some(1),
            PeerWireProtocolMessage::Have(_) => Some(5),
            PeerWireProtocolMessage::BitField(m) => {
                if m.bytes.len() > 0xffff_fffe {
                    None
                } else {
                    Some((m.bytes.len() + 1) as u32)
                }
            },
            PeerWireProtocolMessage::Request(m) => {
                if m.block_length > 0xffff_ffff {
                    None
                } else {
                    Some(13)
                }
            },
            PeerWireProtocolMessage::Piece(m, block) => {
                if block.len() > 0xffff_fff6 || m.block_length != block.len() {
                    None
                } else {
                    Some((block.len() + 9) as u32)
                }
            },
            PeerWireProtocolMessage::Cancel(m) => {
                if m.block_length > 0xffff_ffff {
                    None
                } else {
                    Some(13)
                }
            },
            PeerWireProtocolMessage::Extension(m) => {
                if m.body.len() > 0xffff_fffd {
                    None
                } else {
                    Some((m.body.len() + 2) as u32)
                }
            },
        }
    }

    /// Write the frame of the message to `out` and return the number of bytes
    /// written. A message that cannot be written is a bad length, and nothing
    /// is written.
    pub fn write_bytes(&self, out: &mut Vec<u8>) -> (r: Result<usize, FramingError>)
        ensures
            self.wf() ==> r == Ok::<usize, FramingError>(frame(self@).len() as usize),
            self.wf() ==> final(out)@ == old(out)@ + frame(self@),
            !self.wf() ==> r == Err::<usize, FramingError>(FramingError::BadLength),
            !self.wf() ==> final(out)@ == old(out)@,
    {
        let length = match self.payload_len() {
            Some(length) => length,
            None => {
                return Err(FramingError::BadLength);
            },
        };
        proof {
            lemma_be_bytes_len(length as nat, 4);
        }
        write_u32_be(out, length);
        match self {
            PeerWireProtocolMessage::KeepAlive => {},
            PeerWireProtocolMessage::Choke => {
                out.push(CHOKE_MESSAGE_ID);
            },
            PeerWireProtocolMessage::UnChoke => {
                out.push(UNCHOKE_MESSAGE_ID);
            },
            PeerWireProtocolMessage::Interested => {
                out.push(INTERESTED_MESSAGE_ID);
            },
            PeerWireProtocolMessage::UnInterested => {
                out.push(UNINTERESTED_MESSAGE_ID);
            },
            PeerWireProtocolMessage::Have(m) => {
                out.push(HAVE_MESSAGE_ID);
                m.write_bytes(out);
            },
            PeerWireProtocolMessage::BitField(m) => {
                out.push(BITFIELD_MESSAGE_ID);
                extend_bytes(out, m.bytes.as_slice());
            },
            PeerWireProtocolMessage::Request(m) => {
                out.push(REQUEST_MESSAGE_ID);
                m.write_bytes(out);
            },
            PeerWireProtocolMessage::Piece(m, block) => {
                out.push(PIECE_MESSAGE_ID);
                m.write_bytes(out);
                extend_bytes(out, block.as_slice());
            },
            PeerWireProtocolMessage::Cancel(m) => {
                out.push(CANCEL_MESSAGE_ID);
                m.write_bytes(out);
            },
            PeerWireProtocolMessage::Extension(m) => {
                out.push(EXTENSION_MESSAGE_ID);
                out.push(m.sub_id);
                extend_bytes(out, m.body.as_slice());
            },
        }
        assert(out@ =~= old(out)@ + frame(self@));
        Ok(4 + length as usize)
    }

    /// Retrieve how many bytes the message will occupy on the wire: the
    /// number that `write_bytes` writes and returns.
    pub fn message_size(&self) -> (r: Result<usize, FramingError>)
        ensures
            self.wf() ==> r == Ok::<usize, FramingError>(frame(self@).len() as usize),
            !self.wf() ==> r == Err::<usize, FramingError>(FramingError::BadLength),
    {
        match self.payload_len() {
            Some(length) => {
                proof {
                    lemma_be_bytes_len(length as nat, 4);
                    lemma_payload_len(self@);
                }
                Ok(4 + length as usize)
            },
            None => Err(FramingError::BadLength),
        }
    }
}

/// The length of the payload of each kind of message. A message that can be
/// written has a frame that memory can hold.
pub proof fn lemma_payload_len(m: MessageModel)
    ensures
        payload(m).len() == (match m {
            MessageModel::KeepAlive => 0,
            MessageModel::Choke => 1,
            MessageModel::UnChoke => 1,
            MessageModel::Interested => 1,
            MessageModel::UnInterested => 1,
            MessageModel::Have(_) => 5,
            MessageModel::BitField(b) => 1 + b.len(),
            MessageModel::Request(_) => 13,
            MessageModel::Piece(_, block) => 9 + block.len(),
            MessageModel::Cancel(_) => 13,
            MessageModel::Extension(_, body) => 2 + body.len(),
        }),
        frame(m).len() == 4 + payload(m).len(),
{
    lemma_be_bytes_len(payload(m).len(), 4);
    match m {
        MessageModel::Have(h) => {
            lemma_be_bytes_len(h.piece_index as nat, 4);
        },
        MessageModel::Request(r) => {
            lemma_be_bytes_len(r.piece_index as nat, 4);
            lemma_be_bytes_len(r.block_offset as nat, 4);
            lemma_be_bytes_len(r.block_length as nat, 4);
        },
        MessageModel::Cancel(r) => {
            lemma_be_bytes_len(r.piece_index as nat, 4);
            lemma_be_bytes_len(r.block_offset as nat, 4);
            lemma_be_bytes_len(r.block_length as nat, 4);
        },
        MessageModel::Piece(p, _) => {
            lemma_be_bytes_len(p.piece_index as nat, 4);
            lemma_be_bytes_len(p.block_offset as nat, 4);
        },
        _ => {},
    }
}

/// Once the bytes received tell how long the message is, more bytes do not
/// change the answer: if `needed` is `Some(n)` on a prefix of `longer`, it is
/// `Some(n)` on `longer`.
pub proof fn lemma_needed_monotone(prefix: Seq<u8>, longer: Seq<u8>, max_payload: nat, n: nat)
    requires
        prefix.len() <= longer.len(),
        longer.subrange(0, prefix.len() as int) == prefix,
        needed(prefix, max_payload) == Ok::<Option<nat>, FramingError>(Some(n)),
    ensures
        needed(longer, max_payload) == Ok::<Option<nat>, FramingError>(Some(n)),
{
    assert(longer.subrange(0, 4) =~= prefix.subrange(0, 4));
}

/// An encodable message is determined by its frame.
pub proof fn lemma_frame_injective(a: MessageModel, b: MessageModel)
    requires
        encodable(a),
        encodable(b),
        frame(a) == frame(b),
    ensures
        a == b,
{
    lemma_radix_pow_values();
    lemma_payload_len(a);
    lemma_payload_len(b);
    let pa = payload(a);
    let pb = payload(b);
    lemma_be_bytes_len(pa.len(), 4);
    lemma_be_bytes_len(pb.len(), 4);
    assert(frame(a).subrange(0, 4) =~= be_bytes(pa.len(), 4));
    assert(frame(b).subrange(0, 4) =~= be_bytes(pb.len(), 4));
    lemma_be_bytes_injective(pa.len(), pb.len(), 4);
    lemma_concat_parts(be_bytes(pa.len(), 4), pa, be_bytes(pb.len(), 4), pb);
    if pa.len() > 0 {
        assert(pa[0] == pb[0]);
        match (a, b) {
            (MessageModel::Have(x), MessageModel::Have(y)) => {
                lemma_be_bytes_len(x.piece_index as nat, 4);
                lemma_be_bytes_len(y.piece_index as nat, 4);
                lemma_concat_parts(seq![HAVE_MESSAGE_ID], x.wire(), seq![HAVE_MESSAGE_ID], y.wire());
                lemma_be_bytes_injective(x.piece_index as nat, y.piece_index as nat, 4);
            },
            (MessageModel::BitField(x), MessageModel::BitField(y)) => {
                lemma_concat_parts(seq![BITFIELD_MESSAGE_ID], x, seq![BITFIELD_MESSAGE_ID], y);
            },
            (MessageModel::Request(x), MessageModel::Request(y)) => {
                lemma_concat_parts(
                    seq![REQUEST_MESSAGE_ID],
                    x.wire(),
                    seq![REQUEST_MESSAGE_ID],
                    y.wire(),
                );
                lemma_block_wire_injective(
                    (x.piece_index, x.block_offset, x.block_length),
                    (y.piece_index, y.block_offset, y.block_length),
                );
            },
            (MessageModel::Cancel(x), MessageModel::Cancel(y)) => {
                lemma_concat_parts(
                    seq![CANCEL_MESSAGE_ID],
                    x.wire(),
                    seq![CANCEL_MESSAGE_ID],
                    y.wire(),
                );
                lemma_block_wire_injective(
                    (x.piece_index, x.block_offset, x.block_length),
                    (y.piece_index, y.block_offset, y.block_length),
                );
            },
            (MessageModel::Piece(x, xb), MessageModel::Piece(y, yb)) => {
                lemma_be_bytes_len(x.piece_index as nat, 4);
                lemma_be_bytes_len(x.block_offset as nat, 4);
                lemma_be_bytes_len(y.piece_index as nat, 4);
                lemma_be_bytes_len(y.block_offset as nat, 4);
                lemma_concat_parts(
                    seq![PIECE_MESSAGE_ID] + x.wire(),
                    xb,
                    seq![PIECE_MESSAGE_ID] + y.wire(),
                    yb,
                );
                lemma_concat_parts(seq![PIECE_MESSAGE_ID], x.wire(), seq![PIECE_MESSAGE_ID], y.wire());
                lemma_concat_parts(
                    be_bytes(x.piece_index as nat, 4),
                    be_bytes(x.block_offset as nat, 4),
                    be_bytes(y.piece_index as nat, 4),
                    be_bytes(y.block_offset as nat, 4),
                );
                lemma_be_bytes_injective(x.piece_index as nat, y.piece_index as nat, 4);
                lemma_be_bytes_injective(x.block_offset as nat, y.block_offset as nat, 4);
            },
            (MessageModel::Extension(xi, xb), MessageModel::Extension(yi, yb)) => {
                lemma_concat_parts(
                    seq![EXTENSION_MESSAGE_ID, xi],
                    xb,
                    seq![EXTENSION_MESSAGE_ID, yi],
                    yb,
                );
                assert(seq![EXTENSION_MESSAGE_ID, xi][1] == xi);
                assert(seq![EXTENSION_MESSAGE_ID, yi][1] == yi);
            },
            _ => {},
        }
    }
}

/// Reading the frame of an encodable message gives the message back:
/// whatever meets [`parsed`] on the frame is a message with the same
/// contents, together with the length of the frame.
pub proof fn lemma_round_trip(
    message: MessageModel,
    r: Result<(PeerWireProtocolMessage, usize), FramingError>,
)
    requires
        encodable(message),
        parsed(frame(message), r),
    ensures
        r matches Ok((read, n)) && read@ == message && n == frame(message).len(),
{
    let s = frame(message);
    let p = payload(message);
    lemma_radix_pow_values();
    lemma_payload_len(message);
    lemma_be_bytes_len(p.len(), 4);
    lemma_be_value_of_bytes(p.len(), 4);
    assert(s.subrange(0, 4) =~= be_bytes(p.len(), 4));
    assert(s.subrange(4, 4 + p.len() as int) =~= p);
    assert(payload_fault(p) is None) by {
        if p.len() > 0 {
            match message {
                MessageModel::Extension(sub_id, body) => {
                    assert(p[0] == EXTENSION_MESSAGE_ID);
                },
                _ => {},
            }
        }
    }
    let (read, n) = r->Ok_0;
    assert(s.subrange(0, n as int) =~= s);
    lemma_frame_injective(read@, message);
}

} // verus!
