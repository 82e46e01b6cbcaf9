use vstd::prelude::*;

use crate::error::PreviewError;

verus! {

/// End of the range that a read of `length + 1` bytes from `offset` covers
/// in a file of `n` bytes: the read stops early only at end of file.
pub open spec fn range_end(n: int, offset: int, length: int) -> int {
    if offset + length + 1 <= n {
        offset + length + 1
    } else {
        n
    }
}

/// Reads `length + 1` bytes of `contents` from `offset`, or fewer where the
/// file ends first. The extra byte is slack for the decoder's lookahead.
/// An offset past the end of the file is an I/O error.
pub fn read_range(contents: &Vec<u8>, offset: u64, length: u32) -> (r: Result<Vec<u8>, PreviewError>)
    ensures
        r is Err <==> offset > contents@.len(),
        r is Err ==> r == Err::<Vec<u8>, PreviewError>(PreviewError::Io),
        r is Ok ==> r->Ok_0@ == contents@.subrange(
            offset as int,
            range_end(contents@.len() as int, offset as int, length as int),
        ),
        r is Ok ==> r->Ok_0@.len() == if length + 1 <= contents@.len() - offset {
            length + 1
        } else {
            contents@.len() - offset
        },
        r is Ok && offset < contents@.len() ==> r->Ok_0@[0] == contents@[offset as int],
{
    let n = contents.len();
    if offset > n as u64 {
        return Err(PreviewError::Io);
    }
    let start = offset as usize;
    let end: usize = if (length as u64) < (n - start) as u64 {
        start + length as usize + 1
    } else {
        n
    };
    let mut out: Vec<u8> = Vec::new();
    let mut i: usize = start;
    while i < end
        invariant
            start <= i <= end,
            end <= contents@.len(),
            out@ == contents@.subrange(start as int, i as int),
        decreases end - i,
    {
        out.push(contents[i]);
        proof {
            assert(contents@.subrange(start as int, i + 1) =~= contents@.subrange(start as int, i as int).push(contents@[i as int]));
        }
        i = i + 1;
    }
    Ok(out)
}

} // verus!
