//! Decoding of fixed-width ASCII fields.
//!
//! The input container stores identifiers in fixed-capacity byte cells,
//! padded at the end with zero bytes.  Decoding strips that padding and
//! rejects any remaining byte outside the ASCII range.

use vstd::prelude::*;

verus! {

/// Failure of fixed-width field decoding.
#[derive(Clone, Copy, PartialEq, Eq, Structural, Debug)]
pub enum DecodeError {
    /// The field content holds a byte outside the ASCII range.
    NonAscii,
}

/// The logical content of a fixed-width cell: its bytes with all trailing
/// zero-byte padding removed.
pub open spec fn trim_padding(s: Seq<u8>) -> Seq<u8>
    decreases s.len(),
{
    if s.len() > 0 && s[s.len() - 1] == 0u8 {
        trim_padding(s.drop_last())
    } else {
        s
    }
}

/// Every byte of the sequence is ASCII.
pub open spec fn ascii_seq(s: Seq<u8>) -> bool {
    forall|i: int| 0 <= i < s.len() ==> s[i] < 128
}

/// A cell decodes exactly when its content after padding removal is ASCII.
pub open spec fn cell_decodes(s: Seq<u8>) -> bool {
    ascii_seq(trim_padding(s))
}

/// Decode one fixed-width cell: strip trailing zero-byte padding and check
/// that what remains is ASCII.
pub fn decode_cell(cell: &Vec<u8>) -> (r: Result<Vec<u8>, DecodeError>)
    ensures
        match r {
            Ok(v) => cell_decodes(cell@) && v@ == trim_padding(cell@),
            Err(e) => !cell_decodes(cell@) && e == DecodeError::NonAscii,
        },
{
    let mut end: usize = cell.len();
    assert(cell@.take(end as int) =~= cell@);
    while end > 0 && cell[end - 1] == 0u8
        invariant
            end <= cell@.len(),
            trim_padding(cell@) == trim_padding(cell@.take(end as int)),
        decreases end,
    {
        assert(cell@.take(end as int).drop_last() =~= cell@.take(end - 1));
        end = end - 1;
    }
    assert(trim_padding(cell@) == cell@.take(end as int));
    let mut out: Vec<u8> = Vec::new();
    let mut i: usize = 0;
    while i < end
        invariant
            i <= end <= cell@.len(),
            trim_padding(cell@) == cell@.take(end as int),
            out@ == cell@.take(i as int),
            forall|k: int| 0 <= k < i ==> cell@[k] < 128,
        decreases end - i,
    {
        if cell[i] >= 128 {
            assert(!ascii_seq(trim_padding(cell@))) by {
                assert(trim_padding(cell@)[i as int] == cell@[i as int]);
            }
            return Err(DecodeError::NonAscii);
        }
        out.push(cell[i]);
        assert(out@ =~= cell@.take(i + 1));
        i = i + 1;
    }
    assert(out@ == trim_padding(cell@));
    Ok(out)
}

} // verus!
