//! Cutting a stream of bytes into pieces.
//!
//! The files of a torrent count as one run of bytes. It is cut into pieces of
//! one length; only the last piece may be shorter.

use vstd::prelude::*;

verus! {

/// The pieces `pieces`, one after the other.
pub open spec fn concat_pieces(pieces: Seq<Vec<u8>>) -> Seq<u8>
    decreases pieces.len(),
{
    if pieces.len() == 0 {
        Seq::empty()
    } else {
        concat_pieces(pieces.drop_last()) + pieces.last()@
    }
}

/// Cuts the bytes that it is fed into pieces of one length.
pub struct PieceCutter {
    piece_length: usize,
    pending: Vec<u8>,
}

impl PieceCutter {
    #[verifier::type_invariant]
    spec fn inv(self) -> bool {
        self.pending@.len() < self.piece_length
    }

    /// The length of a piece.
    pub closed spec fn piece_length(&self) -> usize {
        self.piece_length
    }

    /// The bytes that were fed and are not part of a whole piece yet.
    pub closed spec fn pending(&self) -> Seq<u8> {
        self.pending@
    }

    /// A cutter for pieces of `piece_length` bytes, which must not be zero.
    pub fn new(piece_length: usize) -> (r: Option<PieceCutter>)
        ensures
            r is Some <==> piece_length > 0,
            r matches Some(cutter) ==> cutter.piece_length() == piece_length && cutter.pending()
                == Seq::<u8>::empty(),
    {
        if piece_length == 0 {
            None
        } else {
            Some(PieceCutter { piece_length, pending: Vec::new() })
        }
    }

    /// Feeds `bytes` and returns the pieces that they complete, in order.
    /// What was pending and what was fed is what is returned and what is
    /// pending then; every piece returned is whole, and less than a piece is
    /// pending.
    pub fn feed(&mut self, bytes: &[u8]) -> (r: Vec<Vec<u8>>)
        ensures
            final(self).piece_length() == old(self).piece_length(),
            concat_pieces(r@) + final(self).pending() == old(self).pending() + bytes@,
            forall|i: int| 0 <= i < r@.len() ==> (#[trigger] r@[i])@.len() == old(self).piece_length(),
            final(self).pending().len() < old(self).piece_length(),
    {
        proof {
            use_type_invariant(&*self);
        }
        let piece_length = self.piece_length;
        let mut taken = PieceCutter { piece_length: 1, pending: Vec::new() };
        core::mem::swap(self, &mut taken);
        let mut pending = taken.pending;
        let mut pieces: Vec<Vec<u8>> = Vec::new();
        let mut i: usize = 0;
        proof {
            assert(bytes@.subrange(0, 0) =~= Seq::<u8>::empty());
            assert(concat_pieces(pieces@) + pending@ =~= old(self).pending() + bytes@.subrange(
                0,
                0,
            ));
        }
        while i < bytes.len()
            invariant
                i <= bytes.len(),
                piece_length == old(self).piece_length(),
                pending@.len() < piece_length,
                concat_pieces(pieces@) + pending@ == old(self).pending() + bytes@.subrange(
                    0,
                    i as int,
                ),
                forall|j: int| 0 <= j < pieces@.len() ==> (#[trigger] pieces@[j])@.len() == piece_length,
            decreases bytes.len() - i,
        {
            let ghost before_pieces = pieces@;
            let ghost before_pending = pending@;
            pending.push(bytes[i]);
            proof {
                assert(bytes@.subrange(0, i + 1) =~= bytes@.subrange(0, i as int).push(
                    bytes@[i as int],
                ));
                assert(concat_pieces(before_pieces) + pending@ =~= (concat_pieces(before_pieces)
                    + before_pending).push(bytes@[i as int]));
            }
            if pending.len() == piece_length {
                let mut piece: Vec<u8> = Vec::new();
                core::mem::swap(&mut piece, &mut pending);
                let ghost whole = piece@;
                pieces.push(piece);
                proof {
                    assert(pieces@.drop_last() =~= before_pieces);
                    assert(concat_pieces(pieces@) + pending@ =~= concat_pieces(before_pieces)
                        + whole);
                }
            }
            i += 1;
        }
        proof {
            assert(bytes@.subrange(0, bytes.len() as int) =~= bytes@);
        }
        *self = PieceCutter { piece_length, pending };
        pieces
    }

    /// Ends the stream and returns the last piece, where bytes are pending:
    /// it is shorter than the others.
    pub fn finish(self) -> (r: Option<Vec<u8>>)
        ensures
            r is Some <==> self.pending().len() > 0,
            r matches Some(piece) ==> piece@ == self.pending() && piece@.len()
                < self.piece_length(),
    {
        proof {
            use_type_invariant(&self);
        }
        if self.pending.len() == 0 {
            None
        } else {
            Some(self.pending)
        }
    }
}

} // verus!
