//! How long the pieces of a torrent are.
//!
//! Piece length is inversely related to the size of the metainfo file, and
//! transfer reliability is inversely related to piece length. Each optimising
//! strategy therefore takes the smallest power of two that keeps the piece
//! hashes within its budget, but never less than its minimum and never more
//! than the common cap.

use vstd::prelude::*;

verus! {

/// Greatest piece length that an optimising strategy chooses: 16 MiB. It takes
/// priority over the budget of piece hashes. Custom lengths are not held to it.
pub const ALL_OPT_MAX_PIECE_LENGTH: usize = 16 * 1024 * 1024;

/// Budget, in bytes of piece hashes, of the balanced strategy.
pub const BALANCED_MAX_PIECES_SIZE: usize = 40000;

/// Least piece length of the balanced strategy: 512 KiB.
pub const BALANCED_MIN_PIECE_LENGTH: usize = 512 * 1024;

/// Budget, in bytes of piece hashes, of the strategy that favours a small file.
pub const FILE_SIZE_MAX_PIECES_SIZE: usize = 20000;

/// Least piece length of the strategy that favours a small file: 1 MiB.
pub const FILE_SIZE_MIN_PIECE_LENGTH: usize = 1024 * 1024;

/// Budget, in bytes of piece hashes, of the strategy that favours transfer.
pub const TRANSFER_MAX_PIECES_SIZE: usize = 60000;

/// Least piece length of the strategy that favours transfer: 1 KiB.
pub const TRANSFER_MIN_PIECE_LENGTH: usize = 1024;

/// Bytes of one piece hash.
pub const PIECE_HASH_LEN: usize = 20;

/// Enumerates settings for piece length for generating a torrent file.
#[derive(Debug, Clone, Copy, PartialEq, Eq, PartialOrd, Ord)]
pub enum PieceLength {
    /// Optimize piece length for torrent file size and file transfer.
    OptBalanced,
    /// Optimize piece length for torrent file size.
    OptFileSize,
    /// Optimize piece length for torrent file transfer.
    OptTransfer,
    /// Custom piece length.
    Custom(usize),
}

/// `a / b`, rounded up.
pub open spec fn ceil_div(a: nat, b: nat) -> nat
    recommends
        b > 0,
{
    ((a + b - 1) / (b as int)) as nat
}

/// Whether `n` is a power of two.
pub open spec fn is_power_of_two(n: nat) -> bool
    decreases n,
{
    n == 1 || (n > 1 && n % 2 == 0 && is_power_of_two(n / 2))
}

/// The least power of two that is not below `n`.
pub open spec fn next_power_of_two(n: nat) -> nat
    decreases n,
{
    if n <= 1 {
        1
    } else {
        2 * next_power_of_two((n + 1) / 2)
    }
}

/// The piece length for `total_file_size` bytes under a budget of
/// `max_pieces_size` bytes of hashes: the budget allows `max_pieces_size / 20`
/// pieces, so a piece has to hold the `total_file_size * 20 / max_pieces_size`
/// bytes, rounded up; that is raised to a power of two, and then to
/// `min_piece_length` or down to the common cap.
pub open spec fn piece_length_for(
    total_file_size: nat,
    max_pieces_size: nat,
    min_piece_length: nat,
) -> nat {
    let needed = ceil_div(total_file_size * PIECE_HASH_LEN as nat, max_pieces_size);
    let pot_piece_length = next_power_of_two(needed);
    if pot_piece_length <= min_piece_length {
        min_piece_length
    } else if pot_piece_length < ALL_OPT_MAX_PIECE_LENGTH {
        pot_piece_length
    } else {
        ALL_OPT_MAX_PIECE_LENGTH as nat
    }
}

/// The budget of piece hashes of a strategy, in bytes; none for a custom length.
pub open spec fn max_pieces_size_of(piece_length: PieceLength) -> nat {
    match piece_length {
        PieceLength::OptBalanced => BALANCED_MAX_PIECES_SIZE as nat,
        PieceLength::OptFileSize => FILE_SIZE_MAX_PIECES_SIZE as nat,
        PieceLength::OptTransfer => TRANSFER_MAX_PIECES_SIZE as nat,
        PieceLength::Custom(_) => 0,
    }
}

/// The least piece length of a strategy; none for a custom length.
pub open spec fn min_piece_length_of(piece_length: PieceLength) -> nat {
    match piece_length {
        PieceLength::OptBalanced => BALANCED_MIN_PIECE_LENGTH as nat,
        PieceLength::OptFileSize => FILE_SIZE_MIN_PIECE_LENGTH as nat,
        PieceLength::OptTransfer => TRANSFER_MIN_PIECE_LENGTH as nat,
        PieceLength::Custom(_) => 0,
    }
}

/// The final piece length for `total_file_size` bytes under a setting.
pub open spec fn determined_piece_length(total_file_size: nat, piece_length: PieceLength) -> nat {
    match piece_length {
        PieceLength::Custom(len) => len as nat,
        _ => piece_length_for(
            total_file_size,
            max_pieces_size_of(piece_length),
            min_piece_length_of(piece_length),
        ),
    }
}

/// `next_power_of_two(n)` is a power of two, is not below `n`, and no smaller
/// power of two is: half of it is below `n`.
pub proof fn lemma_next_power_of_two(n: nat)
    ensures
        is_power_of_two(next_power_of_two(n)),
        next_power_of_two(n) >= n,
        next_power_of_two(n) >= 1,
        n >= 1 ==> next_power_of_two(n) < 2 * n,
    decreases n,
{
    if n > 1 {
        lemma_next_power_of_two((n + 1) / 2);
        let h = next_power_of_two((n + 1) / 2);
        assert((2 * h) / 2 == h);
    }
}

/// A power of two that is not below `n`, and half of which is, is
/// `next_power_of_two(n)`.
pub proof fn lemma_next_power_of_two_unique(p: nat, n: nat)
    requires
        is_power_of_two(p),
        p >= n,
        p == 1 || p / 2 < n,
    ensures
        p == next_power_of_two(n),
    decreases p,
{
    if p == 1 {
    } else {
        lemma_next_power_of_two_unique(p / 2, (n + 1) / 2);
    }
}

/// Twice a power of two is a power of two.
pub proof fn lemma_double_power_of_two(p: nat)
    requires
        is_power_of_two(p),
    ensures
        is_power_of_two(2 * p),
{
    assert((2 * p) / 2 == p);
}

/// The cap and the three minimum lengths are powers of two.
pub proof fn lemma_limits_are_powers_of_two()
    ensures
        is_power_of_two(ALL_OPT_MAX_PIECE_LENGTH as nat),
        is_power_of_two(BALANCED_MIN_PIECE_LENGTH as nat),
        is_power_of_two(FILE_SIZE_MIN_PIECE_LENGTH as nat),
        is_power_of_two(TRANSFER_MIN_PIECE_LENGTH as nat),
{
    reveal_with_fuel(is_power_of_two, 26);
}

/// For each optimising strategy and every total size, the piece length is a
/// power of two between the strategy's minimum and the common cap; and unless
/// the cap cut it short, the hashes of all pieces fit the strategy's budget.
pub proof fn lemma_piece_length_law(total_file_size: nat, piece_length: PieceLength)
    requires
        !(piece_length is Custom),
    ensures
        ({
            let len = determined_piece_length(total_file_size, piece_length);
            let needed = ceil_div(
                total_file_size * PIECE_HASH_LEN as nat,
                max_pieces_size_of(piece_length),
            );
            &&& is_power_of_two(len)
            &&& min_piece_length_of(piece_length) <= len <= ALL_OPT_MAX_PIECE_LENGTH
            &&& next_power_of_two(needed) <= ALL_OPT_MAX_PIECE_LENGTH ==> ceil_div(
                total_file_size,
                len,
            ) * PIECE_HASH_LEN <= max_pieces_size_of(piece_length)
        }),
{
    let max = max_pieces_size_of(piece_length);
    let min = min_piece_length_of(piece_length);
    let needed = ceil_div(total_file_size * PIECE_HASH_LEN as nat, max);
    let pot = next_power_of_two(needed);
    let len = determined_piece_length(total_file_size, piece_length);
    lemma_next_power_of_two(needed);
    lemma_limits_are_powers_of_two();
    if pot <= ALL_OPT_MAX_PIECE_LENGTH {
        // the pieces that the budget allows
        let pieces = max / (PIECE_HASH_LEN as nat);
        assert(pieces * 20 == max);
        assert(len >= needed);
        lemma_budget(total_file_size, pieces, needed, len);
    }
}

/// Pieces of at least `total * 20 / (pieces * 20)` bytes, rounded up, are at
/// most `pieces` in number.
proof fn lemma_budget(total: nat, pieces: nat, needed: nat, len: nat)
    requires
        pieces > 0,
        needed == ceil_div(total * 20, pieces * 20),
        len >= needed,
        len > 0,
    ensures
        ceil_div(total, len) * 20 <= pieces * 20,
{
    // needed * pieces >= total
    assert(needed * (pieces * 20) >= total * 20) by (nonlinear_arith)
        requires
            pieces > 0,
            needed == ((total * 20 + pieces * 20 - 1) / ((pieces * 20) as int)) as nat,
    ;
    assert(len * pieces >= total) by (nonlinear_arith)
        requires
            needed * (pieces * 20) >= total * 20,
            len >= needed,
            pieces > 0,
    ;
    assert(((total + len - 1) / (len as int)) <= pieces) by (nonlinear_arith)
        requires
            len * pieces >= total,
            len > 0,
    ;
}

/// Calculate the minimum power of 2 piece length for the given max pieces size
/// and total file size.
pub fn calculate_piece_length(
    total_file_size: u64,
    max_pieces_size: usize,
    min_piece_length: usize,
) -> (r: usize)
    requires
        max_pieces_size > 0,
    ensures
        r == piece_length_for(
            total_file_size as nat,
            max_pieces_size as nat,
            min_piece_length as nat,
        ),
{
    let budget: u128 = max_pieces_size as u128;
    let hashed: u128 = total_file_size as u128 * 20;
    let needed: u128 = (hashed + budget - 1) / budget;
    assert(needed == ceil_div(total_file_size as nat * PIECE_HASH_LEN as nat, max_pieces_size as nat));
    assert(needed <= hashed) by (nonlinear_arith)
        requires
            budget >= 1,
            needed == (hashed + budget - 1) / (budget as int),
    ;
    let mut pot_piece_length: u128 = 1;
    while pot_piece_length < needed
        invariant
            is_power_of_two(pot_piece_length as nat),
            pot_piece_length >= 1,
            pot_piece_length == 1 || pot_piece_length / 2 < needed,
            needed <= 20 * 0x1_0000_0000_0000_0000,
        decreases 2 * needed - pot_piece_length,
    {
        proof {
            lemma_double_power_of_two(pot_piece_length as nat);
        }
        pot_piece_length = pot_piece_length * 2;
    }
    proof {
        lemma_next_power_of_two_unique(pot_piece_length as nat, needed as nat);
    }
    if pot_piece_length <= min_piece_length as u128 {
        min_piece_length
    } else if pot_piece_length < ALL_OPT_MAX_PIECE_LENGTH as u128 {
        pot_piece_length as usize
    } else {
        ALL_OPT_MAX_PIECE_LENGTH
    }
}

/// Calculate the final piece length given the total file size and piece length
/// strategy.
///
/// Lower piece length will result in a bigger file but better transfer
/// reliability and vice versa.
pub fn determine_piece_length(total_file_size: u64, piece_length: &PieceLength) -> (r: usize)
    ensures
        r == determined_piece_length(total_file_size as nat, *piece_length),
{
    match piece_length {
        PieceLength::Custom(len) => *len,
        PieceLength::OptBalanced => calculate_piece_length(
            total_file_size,
            BALANCED_MAX_PIECES_SIZE,
            BALANCED_MIN_PIECE_LENGTH,
        ),
        PieceLength::OptFileSize => calculate_piece_length(
            total_file_size,
            FILE_SIZE_MAX_PIECES_SIZE,
            FILE_SIZE_MIN_PIECE_LENGTH,
        ),
        PieceLength::OptTransfer => calculate_piece_length(
            total_file_size,
            TRANSFER_MAX_PIECES_SIZE,
            TRANSFER_MIN_PIECE_LENGTH,
        ),
    }
}

} // verus!
