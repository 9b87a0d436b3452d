//! Stride-aware packing of a converted frame into an exactly sized buffer.
//!
//! A converted frame's rows may be padded: its stride — the bytes from one
//! row's start to the next — may exceed the visible row width of
//! `width * bytes_per_pixel`. Packing copies, for each of `height` rows,
//! exactly the visible row bytes starting at `row * stride`, concatenating
//! the rows with no gaps, so that no stride padding leaks into the output
//! and the output length is exactly `width * height * bytes_per_pixel`.

use vstd::prelude::*;
use vstd::arithmetic::div_mod::lemma_fundamental_div_mod_converse;
use vstd::arithmetic::mul::lemma_mul_inequality;
use vstd::arithmetic::mul::lemma_mul_upper_bound;
use crate::error::{VideoError, VideoErrorCode};
use crate::request::{PixelFormat, bytes_per_pixel, spec_bytes_per_pixel};

verus! {

/// The byte a packed buffer holds at index `i`: with `row_bytes` visible
/// bytes per row, index `i` lies in row `i / row_bytes` at column
/// `i % row_bytes`, and comes from the padded data at
/// `(i / row_bytes) * stride + (i % row_bytes)`.
pub open spec fn packed_byte(data: Seq<u8>, row_bytes: int, stride: int, i: int) -> u8 {
    data[(i / row_bytes) * stride + (i % row_bytes)]
}

/// `out` is the tight packing of the padded frame `data`: its length is
/// exactly `width * height * bpp`, and every byte is the corresponding
/// visible byte of the padded data — no stride padding leaks through.
pub open spec fn is_packed(
    out: Seq<u8>,
    data: Seq<u8>,
    width: int,
    height: int,
    bpp: int,
    stride: int,
) -> bool {
    &&& out.len() == width * height * bpp
    &&& forall|i: int|
        0 <= i < out.len() ==> #[trigger] out[i] == packed_byte(data, width * bpp, stride, i)
}

/// The geometry under which a padded frame can be packed: the stride
/// covers a visible row, the data covers every row up to the last visible
/// byte, and the packed size fits the machine.
pub open spec fn geometry_ok(
    data_len: int,
    width: int,
    height: int,
    bpp: int,
    stride: int,
) -> bool {
    &&& width * bpp <= stride
    &&& height > 0 ==> (height - 1) * stride + width * bpp <= data_len
    &&& width * height * bpp <= usize::MAX
}

/// Packs a converted frame's padded data into a tight buffer, removing
/// row padding: for each of `height` rows, exactly the visible
/// `width * bytes_per_pixel(format)` bytes starting at `row * stride` are
/// copied, in row order. Data whose geometry is inconsistent — a stride
/// shorter than a visible row, or too little data for the rows it claims —
/// is a backend anomaly and is rejected as such, never packed partially.
pub fn pack_frame(
    data: &Vec<u8>,
    width: u32,
    height: u32,
    format: PixelFormat,
    stride: usize,
) -> (r: Result<Vec<u8>, VideoError>)
    ensures
        geometry_ok(
            data@.len() as int,
            width as int,
            height as int,
            spec_bytes_per_pixel(format),
            stride as int,
        ) ==> (r matches Ok(out) && is_packed(
            out@,
            data@,
            width as int,
            height as int,
            spec_bytes_per_pixel(format),
            stride as int,
        )),
        !geometry_ok(
            data@.len() as int,
            width as int,
            height as int,
            spec_bytes_per_pixel(format),
            stride as int,
        ) ==> (r matches Err(e) && e.code == VideoErrorCode::BackendError),
{
    let bpp: u32 = bytes_per_pixel(format);
    proof {
        lemma_mul_upper_bound(width as int, u32::MAX as int, bpp as int, 4);
        lemma_mul_upper_bound(
            width as int * bpp as int,
            u32::MAX as int * 4,
            height as int,
            u32::MAX as int,
        );
        assert((width as int * bpp as int) * height as int == width as int * height as int
            * bpp as int) by (nonlinear_arith);
    }
    let data_len: usize = data.len();
    let row_bytes_w: u128 = (width as u128) * (bpp as u128);
    let total_w: u128 = row_bytes_w * (height as u128);
    let rows_fit: bool = if height == 0 {
        true
    } else {
        proof {
            lemma_mul_upper_bound(
                height as int - 1,
                u32::MAX as int,
                stride as int,
                usize::MAX as int,
            );
        }
        ((height as u128) - 1) * (stride as u128) + row_bytes_w <= (data_len as u128)
    };
    let geometry: bool = row_bytes_w <= (stride as u128) && rows_fit && total_w <= (usize::MAX
        as u128);
    if !geometry {
        return Err(
            VideoError::new(
                VideoErrorCode::BackendError,
                Some("inconsistent converted frame geometry".to_owned()),
            ),
        );
    }
    let row_bytes: usize = (width as usize) * (bpp as usize);
    let height_us: usize = height as usize;
    let mut out: Vec<u8> = Vec::new();
    let mut row: usize = 0;
    while row < height_us
        invariant
            row <= height_us,
            height_us == height,
            row_bytes == width as int * spec_bytes_per_pixel(format),
            bpp == spec_bytes_per_pixel(format),
            row_bytes <= stride,
            data_len == data@.len(),
            height > 0 ==> (height as int - 1) * stride as int + row_bytes as int
                <= data_len,
            width as int * height as int * spec_bytes_per_pixel(format) <= usize::MAX,
            out@.len() == row as int * row_bytes as int,
            forall|i: int|
                0 <= i < out@.len() ==> #[trigger] out@[i] == packed_byte(
                    data@,
                    row_bytes as int,
                    stride as int,
                    i,
                ),
        decreases height_us - row,
    {
        let mut col: usize = 0;
        proof {
            lemma_mul_inequality(row as int, height as int - 1, stride as int);
            lemma_mul_inequality(row as int + 1, height as int, row_bytes as int);
            assert((row as int + 1) * row_bytes as int == row as int * row_bytes as int
                + row_bytes as int) by (nonlinear_arith);
            assert(height as int * (width as int * spec_bytes_per_pixel(format)) == width as int
                * height as int * spec_bytes_per_pixel(format)) by (nonlinear_arith);
        }
        while col < row_bytes
            invariant
                col <= row_bytes,
                row < height_us,
                height_us == height,
                row_bytes == width as int * spec_bytes_per_pixel(format),
                row_bytes <= stride,
                data_len == data@.len(),
                height > 0 ==> (height as int - 1) * stride as int + row_bytes as int
                    <= data_len,
                row as int * stride as int <= (height as int - 1) * stride as int,
                row as int * row_bytes as int + row_bytes as int <= usize::MAX,
                out@.len() == row as int * row_bytes as int + col as int,
                forall|i: int|
                    0 <= i < out@.len() ==> #[trigger] out@[i] == packed_byte(
                        data@,
                        row_bytes as int,
                        stride as int,
                        i,
                    ),
            decreases row_bytes - col,
        {
            let idx: usize = row * stride + col;
            let b: u8 = data[idx];
            out.push(b);
            proof {
                lemma_fundamental_div_mod_converse(
                    row as int * row_bytes as int + col as int,
                    row_bytes as int,
                    row as int,
                    col as int,
                );
            }
            col = col + 1;
        }
        row = row + 1;
    }
    proof {
        assert(height as int * (width as int * spec_bytes_per_pixel(format)) == width as int
            * height as int * spec_bytes_per_pixel(format)) by (nonlinear_arith);
    }
    Ok(out)
}

/// Every successful packing yields a buffer of exactly
/// `width * height * bpp` bytes: stride padding never leaks into the
/// output's size.
pub proof fn lemma_packed_buffer_exact_length(
    out: Seq<u8>,
    data: Seq<u8>,
    width: int,
    height: int,
    bpp: int,
    stride: int,
)
    requires
        is_packed(out, data, width, height, bpp, stride),
    ensures
        out.len() == width * height * bpp,
{
}

/// Packing is a function of the padded data and its geometry alone: two
/// buffers that are both tight packings of the same data are
/// byte-identical.
pub proof fn lemma_packing_deterministic(
    out1: Seq<u8>,
    out2: Seq<u8>,
    data: Seq<u8>,
    width: int,
    height: int,
    bpp: int,
    stride: int,
)
    requires
        is_packed(out1, data, width, height, bpp, stride),
        is_packed(out2, data, width, height, bpp, stride),
    ensures
        out1 == out2,
{
    assert forall|i: int| 0 <= i < out1.len() implies out1[i] == out2[i] by {
        assert(out1[i] == packed_byte(data, width * bpp, stride, i));
        assert(out2[i] == packed_byte(data, width * bpp, stride, i));
    }
    assert(out1 =~= out2);
}

} // verus!
