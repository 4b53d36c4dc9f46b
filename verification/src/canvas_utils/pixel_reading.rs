//! Utilities for pixel reading: packing of pixel data read back from a GPU texture.
//!
//! A texture-to-buffer copy lays each row out at a stride that is rounded up
//! to the copy alignment. The functions here strip that padding, either
//! keeping the four-byte pixels in their native order or converting them to
//! tightly packed RGB stored from the bottom row up.

use vstd::prelude::*;
use vstd::string::*;

verus! {

/// Byte alignment that row pitches of texture-to-buffer copies must respect
/// (`wgpu::COPY_BYTES_PER_ROW_ALIGNMENT`, defined by wgpu-types as 256).
#[verifier::external_body]
fn copy_bytes_per_row_alignment() -> (align: usize)
    ensures
        align == 256,
{
    wgpu::COPY_BYTES_PER_ROW_ALIGNMENT as usize
}

/// The row length in bytes, rounded up to the next multiple of 256.
pub open spec fn padded_row_len(unpadded: int) -> int {
    ((unpadded + 255) / 256) * 256
}

/// The rounded row length is the least multiple of 256 that is not below
/// the unpadded length.
pub proof fn lemma_padded_row_len(unpadded: int)
    requires
        0 <= unpadded,
    ensures
        padded_row_len(unpadded) % 256 == 0,
        unpadded <= padded_row_len(unpadded) < unpadded + 256,
        forall|m: int| #![trigger (m % 256)] m % 256 == 0 && unpadded <= m ==> padded_row_len(unpadded) <= m,
{
    let q = (unpadded + 255) / 256;
    assert(q * 256 % 256 == 0) by (nonlinear_arith);
    assert(unpadded <= q * 256 < unpadded + 256) by (nonlinear_arith)
        requires
            q == (unpadded + 255) / 256,
            0 <= unpadded,
    ;
    assert forall|m: int| #![trigger (m % 256)] m % 256 == 0 && unpadded <= m implies q * 256 <= m by {
        assert(q * 256 <= m) by (nonlinear_arith)
            requires
                q == (unpadded + 255) / 256,
                m % 256 == 0,
                unpadded <= m,
                0 <= unpadded,
        ;
    }
}

/// Calculates the padded bytes per row for texture copying: `width *
/// bytes_per_pixel` rounded up to the copy alignment.
pub fn calculate_padded_bytes_per_row(width: usize, bytes_per_pixel: usize) -> (padded: usize)
    requires
        width * bytes_per_pixel <= usize::MAX - 255,
    ensures
        padded == padded_row_len(width * bytes_per_pixel),
        padded % 256 == 0,
        width * bytes_per_pixel <= padded < width * bytes_per_pixel + 256,
{
    let unpadded = width * bytes_per_pixel;
    let align = copy_bytes_per_row_alignment();
    let rows = (unpadded + (align - 1)) / align;
    proof {
        lemma_padded_row_len(unpadded as int);
        assert(rows * align == padded_row_len(unpadded as int));
    }
    rows * align
}

/// Order of the four channels of a pixel in the texture being read back.
#[derive(Clone, Copy, Debug, PartialEq, Eq, Structural)]
pub enum ChannelOrder {
    /// Red, green, blue, alpha.
    Rgba,
    /// Blue, green, red, alpha.
    Bgra,
}

/// Offset, within a four-byte source pixel, of RGB output channel `ch`
/// (0 = red, 1 = green, 2 = blue).
pub open spec fn source_channel(order: ChannelOrder, ch: int) -> int {
    match order {
        ChannelOrder::Rgba => ch,
        ChannelOrder::Bgra => 2 - ch,
    }
}

/// Position of channel `ch` of pixel (`row`, `col`) in a packed image of
/// `width` pixels per row and `channels` bytes per pixel.
pub open spec fn packed_index(width: int, channels: int, row: int, col: int, ch: int) -> int {
    (row * width + col) * channels + ch
}

/// Position in the padded readback of the byte that becomes channel `ch` of
/// output pixel (`row`, `col`): output rows run bottom to top.
pub open spec fn rgb_source_index(
    height: int,
    padded: int,
    order: ChannelOrder,
    row: int,
    col: int,
    ch: int,
) -> int {
    (height - 1 - row) * padded + col * 4 + source_channel(order, ch)
}

/// `out` is the RGB image (three bytes per pixel, bottom row first, no row
/// padding) held by the padded four-byte-per-pixel readback `data`.
pub open spec fn is_rgb_image_of(
    out: Seq<u8>,
    data: Seq<u8>,
    width: int,
    height: int,
    padded: int,
    order: ChannelOrder,
) -> bool {
    &&& out.len() == width * height * 3
    &&& forall|row: int, col: int, ch: int|
        0 <= row < height && 0 <= col < width && 0 <= ch < 3 ==> #[trigger] out[packed_index(
            width,
            3,
            row,
            col,
            ch,
        )] == data[rgb_source_index(height, padded, order, row, col, ch)]
}

proof fn lemma_packed_before(width: int, channels: int, row: int, col: int, ch: int, i: int, c: int)
    requires
        0 <= row,
        0 <= col < width,
        0 <= ch < channels,
        0 <= c <= width,
        (row < i) || (row == i && col < c),
    ensures
        0 <= packed_index(width, channels, row, col, ch) < (i * width + c) * channels,
{
    assert(0 <= row * width) by (nonlinear_arith)
        requires
            0 <= row,
            0 <= width,
    ;
    if row < i {
        assert(row * width + col < i * width + c) by (nonlinear_arith)
            requires
                row < i,
                0 <= col < width,
                0 <= c,
        ;
    }
    let p = row * width + col;
    assert(p * channels + ch < (i * width + c) * channels) by (nonlinear_arith)
        requires
            p < i * width + c,
            0 <= ch < channels,
    ;
    assert(0 <= p * channels) by (nonlinear_arith)
        requires
            0 <= p,
            0 <= channels,
    ;
}

proof fn lemma_row_within(height: int, padded: int, r: int)
    requires
        0 <= r < height,
        0 <= padded,
    ensures
        0 <= r * padded,
        r * padded + padded <= height * padded,
{
    assert(0 <= r * padded) by (nonlinear_arith)
        requires
            0 <= r,
            0 <= padded,
    ;
    assert(r * padded + padded <= height * padded) by (nonlinear_arith)
        requires
            r < height,
            0 <= padded,
    ;
}

proof fn lemma_pixel_slot(width: int, row: int, col: int)
    requires
        0 <= row,
        0 <= col,
    ensures
        packed_index(width, 3, row, col, 0) == (row * width + col) * 3,
        packed_index(width, 3, row, col, 1) == (row * width + col) * 3 + 1,
        packed_index(width, 3, row, col, 2) == (row * width + col) * 3 + 2,
        (row * width + col) * 3 + 3 == (row * width + col + 1) * 3,
{
}

/// Output row `row` of an RGB image is texture row `height - 1 - row`: the
/// image is the texture turned bottom up, with red, green and blue taken
/// from bytes 0, 1, 2 of each pixel (bytes 2, 1, 0 for BGRA). In particular
/// the output's last row is the texture's first row.
pub proof fn lemma_rgb_image_rows_reversed(
    out: Seq<u8>,
    data: Seq<u8>,
    width: int,
    height: int,
    padded: int,
    order: ChannelOrder,
)
    requires
        is_rgb_image_of(out, data, width, height, padded, order),
    ensures
        out.len() == width * height * 3,
        forall|row: int, col: int, ch: int|
            #![trigger out[(row * width + col) * 3 + ch]]
            0 <= row < height && 0 <= col < width && 0 <= ch < 3 ==> out[(row * width + col) * 3 + ch]
                == data[(height - 1 - row) * padded + col * 4 + (if order == ChannelOrder::Bgra {
                2 - ch
            } else {
                ch
            })],
{
    assert forall|row: int, col: int, ch: int|
        0 <= row < height && 0 <= col < width && 0 <= ch < 3 implies #[trigger] out[(row * width + col) * 3 + ch]
        == data[(height - 1 - row) * padded + col * 4 + (if order == ChannelOrder::Bgra {
            2 - ch
        } else {
            ch
        })] by {
        assert(out[packed_index(width, 3, row, col, ch)] == data[rgb_source_index(
            height,
            padded,
            order,
            row,
            col,
            ch,
        )]);
    }
}

/// Converts a padded four-byte-per-pixel readback to RGB.
///
/// `out` is cleared and filled with three bytes per pixel, bottom row first
/// (the texture's rows are top row first), without row padding. For
/// [`ChannelOrder::Bgra`] the red and blue channels are swapped back.
pub fn pack_rgb_bottom_up(
    data: &[u8],
    out: &mut Vec<u8>,
    width: usize,
    height: usize,
    padded_bytes_per_row: usize,
    order: ChannelOrder,
)
    requires
        width * height * 3 <= usize::MAX,
        width * 4 <= padded_bytes_per_row,
        padded_bytes_per_row * height <= data@.len(),
    ensures
        is_rgb_image_of(
            final(out)@,
            data@,
            width as int,
            height as int,
            padded_bytes_per_row as int,
            order,
        ),
        final(out)@.len() == width * height * 3,
        forall|row: int, col: int, ch: int|
            #![trigger final(out)@[(row * width + col) * 3 + ch]]
            0 <= row < height && 0 <= col < width && 0 <= ch < 3 ==> final(out)@[(row * width + col) * 3 + ch]
                == data@[(height - 1 - row) * padded_bytes_per_row + col * 4 + (if order == ChannelOrder::Bgra {
                2 - ch
            } else {
                ch
            })],
{
    let bytes_per_pixel: usize = 4;
    let data_len = data.len();
    let rgb_size = width * height * 3;
    out.clear();
    out.reserve(rgb_size);
    let is_bgra = match order {
        ChannelOrder::Bgra => true,
        ChannelOrder::Rgba => false,
    };
    let ghost w = width as int;
    let ghost h = height as int;
    let ghost pad = padded_bytes_per_row as int;
    let mut i: usize = 0;
    while i < height
        invariant
            i <= height,
            width * height * 3 <= usize::MAX,
            width * 4 <= padded_bytes_per_row,
            padded_bytes_per_row * height <= data@.len(),
            is_bgra == (order == ChannelOrder::Bgra),
            bytes_per_pixel == 4,
            data_len == data@.len(),
            w == width,
            h == height,
            pad == padded_bytes_per_row,
            out@.len() == (i * w) * 3,
            forall|row: int, col: int, ch: int|
                0 <= row < i && 0 <= col < w && 0 <= ch < 3 ==> #[trigger] out@[packed_index(
                    w,
                    3,
                    row,
                    col,
                    ch,
                )] == data@[rgb_source_index(h, pad, order, row, col, ch)],
        decreases height - i,
    {
        let row = height - 1 - i;
        proof {
            lemma_row_within(h, pad, row as int);
            assert((i as int) * w + w <= h * w) by (nonlinear_arith)
                requires
                    i < h,
                    0 <= w,
            ;
            assert((i as int + 1) * w == (i as int) * w + w) by (nonlinear_arith);
        }
        let row_start = row * padded_bytes_per_row;
        let mut col: usize = 0;
        while col < width
            invariant
                i < height,
                row == height - 1 - i,
                row_start == row * padded_bytes_per_row,
                row_start + padded_bytes_per_row <= data@.len(),
                data_len == data@.len(),
                (i as int) * w + w <= h * w,
                (i as int + 1) * w == (i as int) * w + w,
                col <= width,
                width * height * 3 <= usize::MAX,
                width * 4 <= padded_bytes_per_row,
                is_bgra == (order == ChannelOrder::Bgra),
                bytes_per_pixel == 4,
                w == width,
                h == height,
                pad == padded_bytes_per_row,
                out@.len() == (i * w + col) * 3,
                forall|r: int, c: int, ch: int|
                    0 <= r && 0 <= c < w && 0 <= ch < 3 && ((r < i) || (r == i && c < col))
                        ==> #[trigger] out@[packed_index(w, 3, r, c, ch)] == data@[rgb_source_index(
                        h,
                        pad,
                        order,
                        r,
                        c,
                        ch,
                    )],
            decreases width - col,
        {
            proof {
                assert(col * bytes_per_pixel == col * 4);
            }
            let pixel_start = row_start + col * bytes_per_pixel;
            let ghost before = out@;
            proof {
                lemma_pixel_slot(w, i as int, col as int);
            }
            if is_bgra {
                out.push(data[pixel_start + 2]);
                out.push(data[pixel_start + 1]);
                out.push(data[pixel_start]);
            } else {
                out.push(data[pixel_start]);
                out.push(data[pixel_start + 1]);
                out.push(data[pixel_start + 2]);
            }
            proof {
                assert forall|r: int, c: int, ch: int|
                    0 <= r && 0 <= c < w && 0 <= ch < 3 && ((r < i) || (r == i && c < col + 1))
                        implies #[trigger] out@[packed_index(w, 3, r, c, ch)]
                        == data@[rgb_source_index(h, pad, order, r, c, ch)] by {
                    if r == i && c == col {
                        assert(rgb_source_index(h, pad, order, r, c, ch) == pixel_start
                            + source_channel(order, ch));
                    } else {
                        lemma_packed_before(w, 3, r, c, ch, i as int, col as int);
                        assert(out@[packed_index(w, 3, r, c, ch)] == before[packed_index(
                            w,
                            3,
                            r,
                            c,
                            ch,
                        )]);
                    }
                }
            }
            col = col + 1;
        }
        i = i + 1;
    }
    proof {
        assert(out@.len() == w * h * 3) by (nonlinear_arith)
            requires
                out@.len() == (i * w) * 3,
                i == h,
        ;
        lemma_rgb_image_rows_reversed(out@, data@, w, h, pad, order);
    }
}

/// The two channel orders give the same image up to swapping the red and
/// blue channels of every pixel.
pub proof fn lemma_channel_orders_swap_red_blue(
    data: Seq<u8>,
    rgba_out: Seq<u8>,
    bgra_out: Seq<u8>,
    width: int,
    height: int,
    padded: int,
)
    requires
        is_rgb_image_of(rgba_out, data, width, height, padded, ChannelOrder::Rgba),
        is_rgb_image_of(bgra_out, data, width, height, padded, ChannelOrder::Bgra),
    ensures
        rgba_out.len() == bgra_out.len(),
        forall|row: int, col: int, ch: int|
            0 <= row < height && 0 <= col < width && 0 <= ch < 3 ==> #[trigger] bgra_out[packed_index(
                width,
                3,
                row,
                col,
                ch,
            )] == rgba_out[packed_index(width, 3, row, col, 2 - ch)],
{
    assert forall|row: int, col: int, ch: int|
        0 <= row < height && 0 <= col < width && 0 <= ch < 3 implies #[trigger] bgra_out[packed_index(
            width,
            3,
            row,
            col,
            ch,
        )] == rgba_out[packed_index(width, 3, row, col, 2 - ch)] by {
        assert(rgba_out[packed_index(width, 3, row, col, 2 - ch)] == data[rgb_source_index(
            height,
            padded,
            ChannelOrder::Rgba,
            row,
            col,
            2 - ch,
        )]);
    }
}

/// Position of byte `x` of row `y` in an image whose rows are `pitch` bytes
/// apart.
pub open spec fn row_byte_index(pitch: int, y: int, x: int) -> int {
    y * pitch + x
}

/// `buffer` holds the first `stride` bytes of each of the `height` rows of
/// `mapped`, whose rows are `padded` bytes apart, with no gap between rows.
pub open spec fn is_unpadded_copy_of(
    buffer: Seq<u8>,
    mapped: Seq<u8>,
    stride: int,
    height: int,
    padded: int,
) -> bool {
    &&& buffer.len() == stride * height
    &&& forall|y: int, x: int|
        0 <= y < height && 0 <= x < stride ==> #[trigger] buffer[row_byte_index(stride, y, x)]
            == mapped[row_byte_index(padded, y, x)]
}

proof fn lemma_row_slot(stride: int, height: int, y: int, x: int)
    requires
        0 <= y < height,
        0 <= x < stride,
    ensures
        0 <= row_byte_index(stride, y, x) < stride * height,
        row_byte_index(stride, y, x) < y * stride + stride,
        y * stride <= row_byte_index(stride, y, x),
{
    assert(0 <= y * stride) by (nonlinear_arith)
        requires
            0 <= y,
            0 <= stride,
    ;
    assert(y * stride + stride <= stride * height) by (nonlinear_arith)
        requires
            y < height,
            0 <= stride,
    ;
}

/// Copies the rows of a padded four-byte-per-pixel readback into `buffer`
/// without the padding, keeping the texture's own channel and row order.
///
/// `buffer` ends up exactly `width * 4 * height` bytes long. When the padded
/// pitch equals the row length the readback is copied in one piece,
/// otherwise row by row.
pub fn unpad_rows(mapped: &[u8], buffer: &mut Vec<u8>, width: u32, height: u32, padded_bytes_per_row: usize)
    requires
        width * 4 <= u32::MAX,
        width * 4 * height <= usize::MAX,
        width * 4 <= padded_bytes_per_row,
        padded_bytes_per_row * height <= mapped@.len(),
    ensures
        is_unpadded_copy_of(
            final(buffer)@,
            mapped@,
            width * 4,
            height as int,
            padded_bytes_per_row as int,
        ),
{
    let stride = (width * 4) as usize;
    let output_size = stride * height as usize;
    let mapped_len = mapped.len();
    let ghost h = height as int;
    let ghost s = stride as int;
    let ghost pad = padded_bytes_per_row as int;
    buffer.resize(output_size, 0);
    if padded_bytes_per_row == stride {
        // The readback is already tightly packed: its first `output_size`
        // bytes are the image.
        let mut k: usize = 0;
        while k < output_size
            invariant
                k <= output_size,
                output_size == s * h,
                s * h <= mapped@.len(),
                buffer@.len() == output_size,
                forall|j: int| 0 <= j < k ==> #[trigger] buffer@[j] == mapped@[j],
            decreases output_size - k,
        {
            buffer.set(k, mapped[k]);
            k = k + 1;
        }
        proof {
            assert forall|y: int, x: int| 0 <= y < h && 0 <= x < s implies #[trigger] buffer@[row_byte_index(
                s,
                y,
                x,
            )] == mapped@[row_byte_index(pad, y, x)] by {
                lemma_row_slot(s, h, y, x);
            }
        }
    } else {
        let mut y: usize = 0;
        while y < height as usize
            invariant
                y <= h,
                h == height,
                s == stride,
                pad == padded_bytes_per_row,
                output_size == s * h,
                s <= pad,
                pad * h <= mapped@.len(),
                mapped_len == mapped@.len(),
                buffer@.len() == output_size,
                forall|yy: int, x: int|
                    0 <= yy < y && 0 <= x < s ==> #[trigger] buffer@[row_byte_index(s, yy, x)]
                        == mapped@[row_byte_index(pad, yy, x)],
            decreases h - y,
        {
            proof {
                lemma_row_within(h, pad, y as int);
                lemma_row_within(h, s, y as int);
                assert(h * s == s * h) by (nonlinear_arith);
            }
            let src_row_start = y * padded_bytes_per_row;
            let dst_row_start = y * stride;
            let mut x: usize = 0;
            while x < stride
                invariant
                    y < h,
                    h == height,
                    s == stride,
                    pad == padded_bytes_per_row,
                    x <= stride,
                    src_row_start == y * pad,
                    dst_row_start == y * s,
                    src_row_start + s <= mapped@.len(),
                    dst_row_start + s <= output_size,
                    mapped_len == mapped@.len(),
                    buffer@.len() == output_size,
                    output_size == s * h,
                    forall|yy: int, xx: int|
                        0 <= yy < y && 0 <= xx < s ==> #[trigger] buffer@[row_byte_index(s, yy, xx)]
                            == mapped@[row_byte_index(pad, yy, xx)],
                    forall|xx: int| 0 <= xx < x ==> #[trigger] buffer@[row_byte_index(s, y as int, xx)]
                        == mapped@[row_byte_index(pad, y as int, xx)],
                decreases stride - x,
            {
                let ghost before = buffer@;
                buffer.set(dst_row_start + x, mapped[src_row_start + x]);
                proof {
                    assert forall|yy: int, xx: int|
                        0 <= yy < y && 0 <= xx < s implies #[trigger] buffer@[row_byte_index(s, yy, xx)]
                        == mapped@[row_byte_index(pad, yy, xx)] by {
                        lemma_row_slot(s, h, yy, xx);
                        assert(yy * s + s <= (y as int) * s) by (nonlinear_arith)
                            requires
                                yy < y,
                                0 <= s,
                        ;
                        assert(buffer@[row_byte_index(s, yy, xx)] == before[row_byte_index(s, yy, xx)]);
                    }
                }
                x = x + 1;
            }
            y = y + 1;
        }
    }
}

/// When the rows carry no padding, the unpadded copy is exactly the first
/// `stride * height` bytes of the readback.
pub proof fn lemma_unpadded_copy_without_padding_is_prefix(
    buffer: Seq<u8>,
    mapped: Seq<u8>,
    stride: int,
    height: int,
)
    requires
        0 <= stride,
        0 <= height,
        stride * height <= mapped.len(),
        is_unpadded_copy_of(buffer, mapped, stride, height, stride),
    ensures
        buffer == mapped.subrange(0, stride * height),
{
    assert forall|j: int| 0 <= j < stride * height implies #[trigger] buffer[j] == mapped[j] by {
        let y = j / stride;
        let x = j % stride;
        assert(0 < stride) by (nonlinear_arith)
            requires
                0 <= j < stride * height,
                0 <= stride,
                0 <= height,
        ;
        vstd::arithmetic::div_mod::lemma_fundamental_div_mod(j, stride);
        assert(0 <= x < stride);
        assert(0 <= y < height) by (nonlinear_arith)
            requires
                y == j / stride,
                0 <= j < stride * height,
                0 < stride,
        ;
        assert(y * stride == stride * y) by (nonlinear_arith);
        assert(row_byte_index(stride, y, x) == j);
        assert(buffer[row_byte_index(stride, y, x)] == mapped[row_byte_index(stride, y, x)]);
    }
    assert(buffer =~= mapped.subrange(0, stride * height));
}

/// The texture formats whose readback needs a channel decision; every
/// other format reads back as [`Other`](TextureFormatKind::Other).
#[derive(Clone, Copy, Debug, PartialEq, Eq, Structural)]
pub enum TextureFormatKind {
    Bgra8Unorm,
    Bgra8UnormSrgb,
    Other,
}

/// The channel order in which a texture of the given format reads back:
/// the two eight-bit BGRA formats are blue-first, every other format is
/// treated as red-first.
pub fn channel_order(format: TextureFormatKind) -> (order: ChannelOrder)
    ensures
        order == (if format is Bgra8Unorm || format is Bgra8UnormSrgb {
            ChannelOrder::Bgra
        } else {
            ChannelOrder::Rgba
        }),
{
    match format {
        TextureFormatKind::Bgra8Unorm => ChannelOrder::Bgra,
        TextureFormatKind::Bgra8UnormSrgb => ChannelOrder::Bgra,
        TextureFormatKind::Other => ChannelOrder::Rgba,
    }
}

/// The message for a staging-buffer map whose result never arrived,
/// `detail` being the text of the receive error.
pub fn map_result_lost_message(detail: &str) -> (text: String)
    ensures
        text@ == "Failed to receive buffer map result: "@ + detail@,
{
    String::from_str("Failed to receive buffer map result: ").concat(detail)
}

/// The message for a staging buffer that could not be mapped, `detail`
/// being the text of the mapping error.
pub fn map_failed_message(detail: &str) -> (text: String)
    ensures
        text@ == "Failed to map staging buffer: "@ + detail@,
{
    String::from_str("Failed to map staging buffer: ").concat(detail)
}

} // verus!
