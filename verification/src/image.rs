//! Export of a mapped image into a buffer without padding.

use vstd::arithmetic::div_mod::lemma_fundamental_div_mod_converse;
use vstd::prelude::*;

use crate::chroma_extent;
use crate::decoded_frame_size_u64;
use crate::error::Error;
use crate::format::decoded_format_of;
use crate::format::VA_FOURCC_I420;
use crate::format::VA_FOURCC_NV12;
use crate::frame_size;
use crate::DecodedFormat;

verus! {

/// Whether a plane of `rows` rows of `row_bytes` bytes each, which starts at
/// `offset` and whose rows start `pitch` bytes apart, lies within `len`
/// bytes.
pub open spec fn plane_fits(len: int, offset: int, pitch: int, rows: int, row_bytes: int) -> bool {
    rows == 0 || row_bytes == 0 || offset + (rows - 1) * pitch + row_bytes <= len
}

/// The bytes of a plane without the padding between its rows: byte `i` is
/// the byte of row `i / row_bytes` at column `i % row_bytes`.
pub open spec fn packed_plane(
    data: Seq<u8>,
    offset: int,
    pitch: int,
    rows: int,
    row_bytes: int,
) -> Seq<u8> {
    Seq::new(
        (rows * row_bytes) as nat,
        |i: int| data[offset + (i / row_bytes) * pitch + i % row_bytes],
    )
}

/// Whether the planes of an image of `format` and `width` x `height` pixels
/// with the given pitches and offsets lie within `len` bytes.
pub open spec fn layout_fits(
    format: DecodedFormat,
    width: int,
    height: int,
    pitches: [u32; 3],
    offsets: [u32; 3],
    len: int,
) -> bool {
    let cw = chroma_extent(width);
    let ch = chroma_extent(height);
    match format {
        DecodedFormat::NV12 => {
            &&& plane_fits(len, offsets[0] as int, pitches[0] as int, height, width)
            &&& plane_fits(len, offsets[1] as int, pitches[1] as int, ch, 2 * cw)
        },
        DecodedFormat::I420 => {
            &&& plane_fits(len, offsets[0] as int, pitches[0] as int, height, width)
            &&& plane_fits(len, offsets[1] as int, pitches[1] as int, ch, cw)
            &&& plane_fits(len, offsets[2] as int, pitches[2] as int, ch, cw)
        },
    }
}

/// The frame that the image holds, without any padding: the luma plane,
/// then for NV12 the plane of interleaved chroma samples, for I420 the U
/// plane and the V plane.
pub open spec fn packed_frame(
    format: DecodedFormat,
    data: Seq<u8>,
    width: int,
    height: int,
    pitches: [u32; 3],
    offsets: [u32; 3],
) -> Seq<u8> {
    let cw = chroma_extent(width);
    let ch = chroma_extent(height);
    let luma = packed_plane(data, offsets[0] as int, pitches[0] as int, height, width);
    match format {
        DecodedFormat::NV12 => luma + packed_plane(
            data,
            offsets[1] as int,
            pitches[1] as int,
            ch,
            2 * cw,
        ),
        DecodedFormat::I420 => luma + packed_plane(
            data,
            offsets[1] as int,
            pitches[1] as int,
            ch,
            cw,
        ) + packed_plane(data, offsets[2] as int, pitches[2] as int, ch, cw),
    }
}

/// Where byte `col` of row `row` of a plane goes and comes from.
proof fn lemma_plane_index(row: int, col: int, rows: int, row_bytes: int, pitch: int)
    requires
        0 <= row < rows,
        0 <= col < row_bytes,
        0 <= pitch,
    ensures
        (row * row_bytes + col) / row_bytes == row,
        (row * row_bytes + col) % row_bytes == col,
        0 <= row * row_bytes + col < rows * row_bytes,
        (row + 1) * row_bytes <= rows * row_bytes,
        0 <= row * pitch <= (rows - 1) * pitch,
{
    lemma_fundamental_div_mod_converse(row * row_bytes + col, row_bytes, row, col);
    assert(0 <= row * row_bytes) by (nonlinear_arith)
        requires
            0 <= row,
            0 <= row_bytes,
    ;
    assert((row + 1) * row_bytes <= rows * row_bytes) by (nonlinear_arith)
        requires
            row + 1 <= rows,
            0 <= row_bytes,
    ;
    assert((row + 1) * row_bytes == row * row_bytes + row_bytes) by (nonlinear_arith);
    assert(0 <= row * pitch <= (rows - 1) * pitch) by (nonlinear_arith)
        requires
            0 <= row <= rows - 1,
            0 <= pitch,
    ;
}

/// Copies a plane of `src` into `dst` from `dst_start` on, leaving out the
/// padding between its rows. Returns where the copy ends in `dst`.
fn copy_plane(
    src: &[u8],
    dst: &mut [u8],
    dst_start: usize,
    offset: usize,
    pitch: usize,
    rows: usize,
    row_bytes: usize,
) -> (dst_end: usize)
    requires
        plane_fits(src@.len() as int, offset as int, pitch as int, rows as int, row_bytes as int),
        dst_start + rows * row_bytes <= old(dst)@.len(),
    ensures
        dst_end == dst_start + rows * row_bytes,
        final(dst)@ == old(dst)@.subrange(0, dst_start as int) + packed_plane(
            src@,
            offset as int,
            pitch as int,
            rows as int,
            row_bytes as int,
        ) + old(dst)@.subrange(dst_end as int, old(dst)@.len() as int),
{
    let ghost before = dst@;
    let ghost packed = packed_plane(
        src@,
        offset as int,
        pitch as int,
        rows as int,
        row_bytes as int,
    );
    if row_bytes == 0 {
        assert(rows * row_bytes == 0) by (nonlinear_arith)
            requires
                row_bytes == 0,
        ;
        assert(dst@ =~= before.subrange(0, dst_start as int) + packed + before.subrange(
            dst_start as int,
            before.len() as int,
        ));
        return dst_start;
    }
    let mut row: usize = 0;
    let mut src_row: usize = offset;
    let mut dst_row: usize = dst_start;
    assert(src@.len() == src.len() && before.len() == dst.len());
    while row < rows
        invariant
            row_bytes > 0,
            row <= rows,
            src@.len() <= usize::MAX,
            before.len() <= usize::MAX,
            plane_fits(
                src@.len() as int,
                offset as int,
                pitch as int,
                rows as int,
                row_bytes as int,
            ),
            dst_start + rows * row_bytes <= before.len(),
            dst@.len() == before.len(),
            packed == packed_plane(
                src@,
                offset as int,
                pitch as int,
                rows as int,
                row_bytes as int,
            ),
            row < rows ==> src_row == offset + row * pitch,
            dst_row == dst_start + row * row_bytes,
            forall|i: int| 0 <= i < dst_start ==> dst@[i] == before[i],
            forall|i: int| dst_row <= i < before.len() ==> dst@[i] == before[i],
            forall|i: int| 0 <= i < row * row_bytes ==> dst@[dst_start + i] == packed[i],
        decreases rows - row,
    {
        let mut col: usize = 0;
        proof {
            lemma_plane_index(row as int, 0, rows as int, row_bytes as int, pitch as int);
        }
        while col < row_bytes
            invariant
                row_bytes > 0,
                row < rows,
                col <= row_bytes,
                src@.len() <= usize::MAX,
                before.len() <= usize::MAX,
                plane_fits(
                    src@.len() as int,
                    offset as int,
                    pitch as int,
                    rows as int,
                    row_bytes as int,
                ),
                dst_start + rows * row_bytes <= before.len(),
                (row + 1) * row_bytes <= rows * row_bytes,
                dst@.len() == before.len(),
                packed == packed_plane(
                    src@,
                    offset as int,
                    pitch as int,
                    rows as int,
                    row_bytes as int,
                ),
                src_row == offset + row * pitch,
                dst_row == dst_start + row * row_bytes,
                forall|i: int| 0 <= i < dst_start ==> dst@[i] == before[i],
                forall|i: int| dst_row + col <= i < before.len() ==> dst@[i] == before[i],
                forall|i: int| 0 <= i < row * row_bytes + col ==> dst@[dst_start + i] == packed[i],
            decreases row_bytes - col,
        {
            proof {
                lemma_plane_index(row as int, col as int, rows as int, row_bytes as int, pitch as int);
            }
            let byte = src[src_row + col];
            dst[dst_row + col] = byte;
            col = col + 1;
        }
        proof {
            assert((row + 1) * row_bytes == row * row_bytes + row_bytes) by (nonlinear_arith);
            assert((row + 1) * pitch == row * pitch + pitch) by (nonlinear_arith);
            if row + 1 < rows {
                lemma_plane_index(row + 1, 0, rows as int, row_bytes as int, pitch as int);
            }
        }
        row = row + 1;
        dst_row = dst_row + row_bytes;
        if row < rows {
            src_row = src_row + pitch;
        }
    }
    assert(dst@ =~= before.subrange(0, dst_start as int) + packed + before.subrange(
        dst_row as int,
        before.len() as int,
    ));
    dst_row
}

/// Half of `v`, rounded up.
fn half_up(v: usize) -> (half: usize)
    ensures
        half == chroma_extent(v as int),
{
    v / 2 + v % 2
}

/// Copies `src` into `dst` as NV12, removing any extra padding.
///
/// `src` holds a luma plane and a plane of interleaved chroma samples at
/// the given offsets, with the given strides from row to row. `dst` has the
/// size of the frame.
pub fn nv12_copy(
    src: &[u8],
    dst: &mut [u8],
    width: u32,
    height: u32,
    strides: [u32; 3],
    offsets: [u32; 3],
)
    requires
        layout_fits(
            DecodedFormat::NV12,
            width as int,
            height as int,
            strides,
            offsets,
            src@.len() as int,
        ),
        old(dst)@.len() == frame_size(DecodedFormat::NV12, width as int, height as int),
    ensures
        final(dst)@ == packed_frame(
            DecodedFormat::NV12,
            src@,
            width as int,
            height as int,
            strides,
            offsets,
        ),
{
    let w: usize = width as usize;
    let h: usize = height as usize;
    let cw: usize = half_up(w);
    let ch: usize = half_up(h);
    proof {
        assert(0 <= w * h) by (nonlinear_arith)
            requires
                0 <= w,
                0 <= h,
        ;
        assert(0 <= cw * ch) by (nonlinear_arith)
            requires
                0 <= cw,
                0 <= ch,
        ;
        assert(ch * (2 * cw) == 2 * (cw * ch)) by (nonlinear_arith);
        assert(dst@.len() == dst.len());
        assert(ch >= 1 ==> cw <= cw * ch) by (nonlinear_arith)
            requires
                0 <= cw,
        ;
    }
    if ch == 0 {
        // A frame of no rows: there is nothing to copy, and the width of a
        // chroma row may not even be a number of this machine.
        proof {
            assert(h * w == 0) by (nonlinear_arith)
                requires
                    h == 0,
            ;
            assert(ch * (2 * cw) == 0) by (nonlinear_arith)
                requires
                    ch == 0,
            ;
            assert(dst@ =~= packed_frame(
                DecodedFormat::NV12,
                src@,
                width as int,
                height as int,
                strides,
                offsets,
            ));
        }
        return;
    }
    // Copy luma
    let luma_end: usize = copy_plane(src, dst, 0, offsets[0] as usize, strides[0] as usize, h, w);
    // Copy chroma
    copy_plane(src, dst, luma_end, offsets[1] as usize, strides[1] as usize, ch, 2 * cw);
    assert(dst@ =~= packed_frame(
        DecodedFormat::NV12,
        src@,
        width as int,
        height as int,
        strides,
        offsets,
    ));
}

/// Copies `src` into `dst` as I420, removing any extra padding.
///
/// `src` holds a luma plane, a U plane and a V plane at the given offsets,
/// with the given strides from row to row. `dst` has the size of the frame.
pub fn i420_copy(
    src: &[u8],
    dst: &mut [u8],
    width: u32,
    height: u32,
    strides: [u32; 3],
    offsets: [u32; 3],
)
    requires
        layout_fits(
            DecodedFormat::I420,
            width as int,
            height as int,
            strides,
            offsets,
            src@.len() as int,
        ),
        old(dst)@.len() == frame_size(DecodedFormat::I420, width as int, height as int),
    ensures
        final(dst)@ == packed_frame(
            DecodedFormat::I420,
            src@,
            width as int,
            height as int,
            strides,
            offsets,
        ),
{
    let w: usize = width as usize;
    let h: usize = height as usize;
    let cw: usize = half_up(w);
    let ch: usize = half_up(h);
    proof {
        assert(0 <= w * h) by (nonlinear_arith)
            requires
                0 <= w,
                0 <= h,
        ;
        assert(0 <= cw * ch) by (nonlinear_arith)
            requires
                0 <= cw,
                0 <= ch,
        ;
        assert(ch * cw == cw * ch) by (nonlinear_arith);
    }
    // Copy luma
    let luma_end: usize = copy_plane(src, dst, 0, offsets[0] as usize, strides[0] as usize, h, w);
    // Copy U
    let u_end: usize = copy_plane(
        src,
        dst,
        luma_end,
        offsets[1] as usize,
        strides[1] as usize,
        ch,
        cw,
    );
    // Copy V
    copy_plane(src, dst, u_end, offsets[2] as usize, strides[2] as usize, ch, cw);
    assert(dst@ =~= packed_frame(
        DecodedFormat::I420,
        src@,
        width as int,
        height as int,
        strides,
        offsets,
    ));
}

/// An image that a surface was mapped into: the description that the
/// hardware gives of it, and its bytes.
///
/// Where the image is in a format that can be exported, its planes lie
/// within its bytes.
pub struct Image<'a> {
    fourcc: u32,
    width: u16,
    height: u16,
    pitches: [u32; 3],
    offsets: [u32; 3],
    data: &'a [u8],
}

/// The mathematical content of an `Image`.
pub struct ImageView {
    /// The fourcc of the image format.
    pub fourcc: u32,
    pub width: u16,
    pub height: u16,
    /// For each plane, the number of bytes from a row to the next.
    pub pitches: [u32; 3],
    /// For each plane, where it starts in the data.
    pub offsets: [u32; 3],
    pub data: Seq<u8>,
}

impl ImageView {
    /// The format of the image, if it is one that can be exported.
    pub open spec fn format(self) -> Result<DecodedFormat, Error> {
        decoded_format_of(self.fourcc)
    }

    /// Whether the planes of the image lie within its data, as far as its
    /// format says where they are.
    pub open spec fn well_formed(self) -> bool {
        self.format() matches Ok(format) ==> layout_fits(
            format,
            self.width as int,
            self.height as int,
            self.pitches,
            self.offsets,
            self.data.len() as int,
        )
    }

    /// The size of the frame that the image holds.
    pub open spec fn image_size(self) -> int
        recommends
            self.format() is Ok,
    {
        frame_size(self.format()->Ok_0, self.width as int, self.height as int)
    }

    /// The frame that the image holds, without any padding.
    pub open spec fn frame(self) -> Seq<u8>
        recommends
            self.format() is Ok,
    {
        packed_frame(
            self.format()->Ok_0,
            self.data,
            self.width as int,
            self.height as int,
            self.pitches,
            self.offsets,
        )
    }

    /// What `read` returns for a buffer of `buffer_size` bytes.
    pub open spec fn read_result(self, buffer_size: usize) -> Result<(), Error> {
        match self.format() {
            Err(e) => Err(e),
            Ok(_) => if buffer_size == self.image_size() {
                Ok(())
            } else {
                Err(
                    Error::SizeMismatch {
                        buffer_size,
                        image_size: self.image_size() as u64,
                    },
                )
            },
        }
    }
}

/// An image in a format that can be exported is read into a buffer of
/// exactly the size of a frame of its format and dimensions. Into a buffer
/// of any other size it is not read, which is reported as a mismatch of the
/// two sizes.
pub proof fn lemma_read_needs_frame_size(image: ImageView, buffer_size: usize)
    requires
        image.format() is Ok,
    ensures
        buffer_size == frame_size(image.format()->Ok_0, image.width as int, image.height as int)
            ==> image.read_result(buffer_size) == Ok::<(), Error>(()),
        buffer_size != frame_size(image.format()->Ok_0, image.width as int, image.height as int)
            ==> image.read_result(buffer_size) == Err::<(), Error>(
            Error::SizeMismatch {
                buffer_size,
                image_size: frame_size(
                    image.format()->Ok_0,
                    image.width as int,
                    image.height as int,
                ) as u64,
            },
        ),
{
}

impl<'a> View for Image<'a> {
    type V = ImageView;

    closed spec fn view(&self) -> ImageView {
        ImageView {
            fourcc: self.fourcc,
            width: self.width,
            height: self.height,
            pitches: self.pitches,
            offsets: self.offsets,
            data: self.data@,
        }
    }
}

/// Whether a plane lies within `len` bytes.
fn plane_within(len: usize, offset: u32, pitch: u32, rows: u32, row_bytes: u32) -> (fits: bool)
    requires
        rows <= 0x1_0000,
        row_bytes <= 0x2_0000,
    ensures
        fits == plane_fits(
            len as int,
            offset as int,
            pitch as int,
            rows as int,
            row_bytes as int,
        ),
{
    if rows == 0 || row_bytes == 0 {
        return true;
    }
    let last_row: u64 = (rows - 1) as u64;
    assert(last_row * (pitch as u64) <= 0xffff * 0xffff_ffff) by (nonlinear_arith)
        requires
            last_row <= 0xffff,
            pitch <= 0xffff_ffff,
    ;
    let end: u64 = offset as u64 + last_row * (pitch as u64) + row_bytes as u64;
    end <= len as u64
}

impl<'a> Image<'a> {
    #[verifier::type_invariant]
    spec fn planes_within_data(self) -> bool {
        self@.well_formed()
    }

    /// Describes an image of the given format and size, whose planes start
    /// at `offsets` in `data` and have rows that start `pitches` apart.
    /// Returns `None` if its format can be exported and a plane does not
    /// lie within `data`.
    pub fn new(
        fourcc: u32,
        width: u16,
        height: u16,
        pitches: [u32; 3],
        offsets: [u32; 3],
        data: &'a [u8],
    ) -> (r: Option<Self>)
        ensures
            r is Some <==> (ImageView {
                fourcc,
                width,
                height,
                pitches,
                offsets,
                data: data@,
            }).well_formed(),
            r is Some ==> r->0@ == (ImageView {
                fourcc,
                width,
                height,
                pitches,
                offsets,
                data: data@,
            }),
    {
        let len = data.len();
        let w: u32 = width as u32;
        let h: u32 = height as u32;
        let cw: u32 = (w + 1) / 2;
        let ch: u32 = (h + 1) / 2;
        let fits = if fourcc == VA_FOURCC_NV12 {
            plane_within(len, offsets[0], pitches[0], h, w) && plane_within(
                len,
                offsets[1],
                pitches[1],
                ch,
                2 * cw,
            )
        } else if fourcc == VA_FOURCC_I420 {
            plane_within(len, offsets[0], pitches[0], h, w) && plane_within(
                len,
                offsets[1],
                pitches[1],
                ch,
                cw,
            ) && plane_within(len, offsets[2], pitches[2], ch, cw)
        } else {
            true
        };
        if fits {
            Some(Image { fourcc, width, height, pitches, offsets, data })
        } else {
            None
        }
    }

    /// Returns the fourcc of the image format.
    pub fn fourcc(&self) -> (fourcc: u32)
        ensures
            fourcc == self@.fourcc,
    {
        self.fourcc
    }

    /// Returns the size that a buffer must have for the image to be read
    /// into it. The image is in a format that can be exported.
    pub fn image_size(&self) -> (size: usize)
        requires
            self@.format() is Ok,
            self@.image_size() <= usize::MAX,
        ensures
            size == self@.image_size(),
    {
        let format = if self.fourcc == VA_FOURCC_NV12 {
            DecodedFormat::NV12
        } else {
            DecodedFormat::I420
        };
        decoded_frame_size_u64(format, self.width, self.height) as usize
    }

    /// Copies the frame that the image holds into `buffer`, without any
    /// padding.
    ///
    /// Fails, and leaves `buffer` as it is, if the image is in a format that
    /// cannot be exported or if `buffer` does not have the size of the
    /// frame.
    pub fn read(&self, buffer: &mut [u8]) -> (r: Result<(), Error>)
        ensures
            r == self@.read_result(old(buffer)@.len() as usize),
            final(buffer)@ == (if r is Ok {
                self@.frame()
            } else {
                old(buffer)@
            }),
            self@.format() is Ok ==> (r is Ok <==> old(buffer)@.len() == self@.image_size()),
            self@.format() is Err ==> r == Err::<(), Error>(Error::UnsupportedFormat),
    {
        proof {
            use_type_invariant(self);
        }
        let format = match decoded_format(self.fourcc) {
            Ok(format) => format,
            Err(e) => {
                return Err(e);
            },
        };
        let image_size = decoded_frame_size_u64(format, self.width, self.height);
        let width: u32 = self.width as u32;
        let height: u32 = self.height as u32;

        if buffer.len() as u64 != image_size {
            return Err(Error::SizeMismatch { buffer_size: buffer.len(), image_size });
        }
        match format {
            DecodedFormat::NV12 => {
                nv12_copy(self.data, buffer, width, height, self.pitches, self.offsets);
            },
            DecodedFormat::I420 => {
                i420_copy(self.data, buffer, width, height, self.pitches, self.offsets);
            },
        }

        Ok(())
    }
}

/// The decoded format that images of the given fourcc are in.
fn decoded_format(fourcc: u32) -> (r: Result<DecodedFormat, Error>)
    ensures
        r == decoded_format_of(fourcc),
{
    if fourcc == VA_FOURCC_NV12 {
        Ok(DecodedFormat::NV12)
    } else if fourcc == VA_FOURCC_I420 {
        Ok(DecodedFormat::I420)
    } else {
        Err(Error::UnsupportedFormat)
    }
}

} // verus!
