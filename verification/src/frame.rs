use vstd::prelude::*;

verus! {

use vstd::arithmetic::div_mod::lemma_fundamental_div_mod_converse;
use vstd::arithmetic::mul::lemma_mul_inequality;

/// The tightly packed payload obtained from a staging buffer laid out with
/// `stride` bytes per row: row-major, `width * 4` logical bytes per row, any
/// trailing per-row padding stripped.
pub open spec fn packed_frame(src: Seq<u8>, width: nat, height: nat, stride: nat) -> Seq<u8> {
    Seq::new(
        height * (width * 4),
        |i: int| src[(i / (width * 4) as int) * stride + i % (width * 4) as int],
    )
}

/// Copy the logical pixel bytes out of a mapped staging buffer, dropping the
/// per-row padding the copy mechanism may have imposed. The result is the
/// exact `width * height * 4`-byte row-major payload.
pub fn extract_frame(src: &Vec<u8>, width: u32, height: u32, bytes_per_row: usize) -> (out: Vec<u8>)
    requires
        width * 4 <= bytes_per_row,
        height * bytes_per_row <= src@.len(),
        width * height * 4 <= usize::MAX,
    ensures
        out@ == packed_frame(src@, width as nat, height as nat, bytes_per_row as nat),
        out@.len() == width * height * 4,
{
    let row_bytes: usize = (width as usize) * 4;
    let src_len: usize = src.len();
    let mut out: Vec<u8> = Vec::new();
    let mut r: usize = 0;
    proof {
        assert((height as int) * (row_bytes as int) <= (height as int) * (bytes_per_row as int))
            by (nonlinear_arith)
            requires
                row_bytes <= bytes_per_row,
                height >= 0,
        ;
        assert((height as int) * (row_bytes as int) == width * height * 4) by (nonlinear_arith)
            requires
                row_bytes == width * 4,
        ;
    }
    while r < height as usize
        invariant
            r <= height,
            row_bytes == width * 4,
            row_bytes <= bytes_per_row,
            src_len == src@.len(),
            height * bytes_per_row <= src_len,
            (height as int) * (row_bytes as int) == width * height * 4,
            width * height * 4 <= usize::MAX,
            out@.len() == r * row_bytes,
            forall|i: int| 0 <= i < out@.len() ==> out@[i] == src@[
                (i / (row_bytes as int)) * bytes_per_row + i % (row_bytes as int)
            ],
        decreases height - r,
    {
        let mut c: usize = 0;
        proof {
            assert((r + 1) * row_bytes <= (height as int) * (row_bytes as int)) by {
                lemma_mul_inequality(r + 1, height as int, row_bytes as int);
            }
            assert((r + 1) * (bytes_per_row as int) <= (height as int) * (bytes_per_row as int))
                by {
                lemma_mul_inequality(r + 1, height as int, bytes_per_row as int);
            }
            assert((r + 1) * row_bytes == r * row_bytes + row_bytes) by (nonlinear_arith);
            assert((r + 1) * (bytes_per_row as int) == r * bytes_per_row + bytes_per_row)
                by (nonlinear_arith);
        }
        while c < row_bytes
            invariant
                c <= row_bytes,
                r < height,
                row_bytes == width * 4,
                row_bytes <= bytes_per_row,
                src_len == src@.len(),
                height * bytes_per_row <= src_len,
                (height as int) * (row_bytes as int) == width * height * 4,
                width * height * 4 <= usize::MAX,
                r * row_bytes + row_bytes <= (height as int) * (row_bytes as int),
                r * bytes_per_row + bytes_per_row <= (height as int) * (bytes_per_row as int),
                out@.len() == r * row_bytes + c,
                forall|i: int| 0 <= i < out@.len() ==> out@[i] == src@[
                    (i / (row_bytes as int)) * bytes_per_row + i % (row_bytes as int)
                ],
            decreases row_bytes - c,
        {
            let idx: usize = r * bytes_per_row + c;
            proof {
                lemma_fundamental_div_mod_converse(
                    r * row_bytes + c,
                    row_bytes as int,
                    r as int,
                    c as int,
                );
            }
            out.push(src[idx]);
            c = c + 1;
        }
        r = r + 1;
    }
    proof {
        assert(out@ =~= packed_frame(src@, width as nat, height as nat, bytes_per_row as nat));
    }
    out
}

} // verus!
