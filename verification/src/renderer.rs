//! The software renderer: the frame buffer between the engine's render
//! callback and presentation.
//!
//! The render callback copies the engine's exported pixels into the buffer;
//! presentation reads them from it. Pixels are ARGB32, one `u32` each with
//! alpha in the high byte, in rows from the top.

use vstd::prelude::*;

verus! {

/// The colour of storage that nothing was written to: opaque black.
pub const CLEAR_COLOR: u32 = 0xFF00_0000;

/// A dimension as storage keeps it: never zero.
pub open spec fn clamped(n: u32) -> u32 {
    if n == 0 {
        1
    } else {
        n
    }
}

/// A sequence brought to a length: cut off at the end, or continued with the
/// clear colour.
pub open spec fn refitted(pixels: Seq<u32>, len: nat) -> Seq<u32> {
    if len <= pixels.len() {
        pixels.subrange(0, len as int)
    } else {
        pixels + Seq::new((len - pixels.len()) as nat, |i: int| CLEAR_COLOR)
    }
}

/// The pixel that four bytes of an exported buffer stand for, the first byte
/// being the lowest: ARGB32 as a little-endian machine lays it out.
pub open spec fn pixel_of(b0: u8, b1: u8, b2: u8, b3: u8) -> u32 {
    (b0 as u32) | ((b1 as u32) << 8) | ((b2 as u32) << 16) | ((b3 as u32) << 24)
}

/// Where the pixel in column `x` of row `y` starts in an exported buffer whose
/// rows are `stride` bytes apart.
pub open spec fn source_offset(x: int, y: int, stride: int) -> int {
    y * stride + x * 4
}

/// The pixel at a byte offset of an exported buffer.
pub open spec fn source_pixel(src: Seq<u8>, offset: int) -> u32 {
    pixel_of(src[offset], src[offset + 1], src[offset + 2], src[offset + 3])
}

/// The smaller of two dimensions.
pub open spec fn min_dim(a: u32, b: u32) -> u32 {
    if a <= b {
        a
    } else {
        b
    }
}

/// What a frame buffer holds.
pub struct Frame {
    /// The pixels, row after row from the top.
    pub pixels: Seq<u32>,
    /// The number of pixels in a row.
    pub width: u32,
    /// The number of rows.
    pub height: u32,
    /// Whether the producer wrote since the consumer last took the contents.
    pub dirty: bool,
}

impl Frame {
    /// Whether no dimension is zero and there is one pixel for each position.
    pub open spec fn wf(self) -> bool {
        &&& self.width >= 1
        &&& self.height >= 1
        &&& self.pixels.len() == self.width * self.height
    }

    /// The pixel in column `x` of row `y`.
    pub open spec fn pixel(self, x: int, y: int) -> u32 {
        self.pixels[y * self.width + x]
    }

    /// Whether a copy from a source of the given description reaches the
    /// pixel in column `x` of row `y`: the pixel lies within both the frame
    /// and the source, and the source holds its four bytes.
    pub open spec fn reached(
        self,
        x: int,
        y: int,
        src_len: int,
        src_width: u32,
        src_height: u32,
        stride: u32,
    ) -> bool {
        &&& 0 <= x < min_dim(self.width, src_width)
        &&& 0 <= y < min_dim(self.height, src_height)
        &&& source_offset(x, y, stride as int) + 4 <= src_len
    }

    /// Whether `after` is this frame after a copy from the given source: the
    /// dimensions are the same, the frame is dirty, every pixel that the copy
    /// reaches is the source's pixel at that position, and every other pixel
    /// is as it was.
    pub open spec fn copied(
        self,
        src: Seq<u8>,
        src_width: u32,
        src_height: u32,
        stride: u32,
        after: Frame,
    ) -> bool {
        &&& after.width == self.width
        &&& after.height == self.height
        &&& after.pixels.len() == self.pixels.len()
        &&& after.dirty
        &&& forall|x: int, y: int|
            0 <= x < self.width && 0 <= y < self.height ==> #[trigger] after.pixel(x, y)
                == if self.reached(x, y, src.len() as int, src_width, src_height, stride) {
                source_pixel(src, source_offset(x, y, stride as int))
            } else {
                self.pixel(x, y)
            }
    }

    /// The frame after a resize to the given dimensions, a zero dimension
    /// being raised to one. With the dimensions that the frame has, it is the
    /// frame itself. Otherwise the pixels are brought to the new size in
    /// storage order, and the frame is not dirty.
    pub open spec fn resized(self, width: u32, height: u32) -> Frame {
        if clamped(width) == self.width && clamped(height) == self.height {
            self
        } else {
            Frame {
                pixels: refitted(self.pixels, (clamped(width) * clamped(height)) as nat),
                width: clamped(width),
                height: clamped(height),
                dirty: false,
            }
        }
    }
}

/// A second resize to the same dimensions changes nothing.
pub proof fn lemma_resize_idempotent(frame: Frame, width: u32, height: u32)
    ensures
        frame.resized(width, height).resized(width, height) == frame.resized(width, height),
{
}

/// A resize never leaves a frame without storage: it keeps a well-formed
/// frame well formed, with at least one pixel, and a resize to nothing gives
/// a frame of one pixel.
pub proof fn lemma_resize_keeps_storage(frame: Frame, width: u32, height: u32)
    requires
        frame.wf(),
    ensures
        frame.resized(width, height).wf(),
        frame.resized(width, height).width == clamped(width),
        frame.resized(width, height).height == clamped(height),
        frame.resized(width, height).pixels.len() >= 1,
        frame.resized(0, 0).width == 1,
        frame.resized(0, 0).height == 1,
        frame.resized(0, 0).pixels.len() == 1,
{
    lemma_position_in_range(0, 0, clamped(width) as int, clamped(height) as int);
    lemma_position_in_range(0, 0, frame.width as int, frame.height as int);
}

/// A software renderer: the pixel storage shared by the producer of frames
/// and their consumer.
#[derive(Debug)]
pub struct SoftwareRenderer {
    pixels: Vec<u32>,
    width: u32,
    height: u32,
    dirty: bool,
}

impl View for SoftwareRenderer {
    type V = Frame;

    open spec fn view(&self) -> Frame {
        Frame {
            pixels: self.pixels(),
            width: self.spec_width(),
            height: self.spec_height(),
            dirty: self.spec_dirty(),
        }
    }
}

impl SoftwareRenderer {
    /// Whether the buffer is well formed: no dimension is zero, and the storage
    /// holds one pixel for each position. Every buffer that this module hands
    /// out is, and every method keeps it so.
    pub open spec fn wf(self) -> bool {
        self@.wf()
    }

    /// The pixels, row after row from the top.
    pub closed spec fn pixels(self) -> Seq<u32> {
        self.pixels@
    }

    /// The number of pixels in a row.
    pub closed spec fn spec_width(self) -> u32 {
        self.width
    }

    /// The number of rows.
    pub closed spec fn spec_height(self) -> u32 {
        self.height
    }

    /// Whether the producer wrote since the consumer last took the contents.
    pub closed spec fn spec_dirty(self) -> bool {
        self.dirty
    }

    /// The pixel in column `x` of row `y`.
    spec fn pixel(self, x: int, y: int) -> u32 {
        self.pixels@[y * self.width + x]
    }

    /// Whether a copy from a source of the given description reaches the
    /// pixel in column `x` of row `y`.
    spec fn written(
        self,
        x: int,
        y: int,
        src_len: int,
        src_width: u32,
        src_height: u32,
        stride: u32,
    ) -> bool {
        &&& 0 <= x < min_dim(self.spec_width(), src_width)
        &&& 0 <= y < min_dim(self.spec_height(), src_height)
        &&& source_offset(x, y, stride as int) + 4 <= src_len
    }

    /// Create a buffer of the given dimensions, each raised to one where it is
    /// zero, filled with the clear colour and not dirty.
    pub fn new(width: u32, height: u32) -> (buffer: Self)
        requires
            clamped(width) * clamped(height) <= usize::MAX,
        ensures
            buffer.wf(),
            buffer.spec_width() == clamped(width),
            buffer.spec_height() == clamped(height),
            buffer.pixels() == Seq::new(
                (clamped(width) * clamped(height)) as nat,
                |i: int| CLEAR_COLOR,
            ),
            buffer.pixels().len() >= 1,
            !buffer.spec_dirty(),
    {
        let width = if width == 0 {
            1
        } else {
            width
        };
        let height = if height == 0 {
            1
        } else {
            height
        };
        let len = pixel_count(width, height);
        let mut pixels: Vec<u32> = Vec::new();
        pixels.resize(len, CLEAR_COLOR);
        proof {
            assert(pixels@ =~= Seq::new(len as nat, |i: int| CLEAR_COLOR));
        }
        SoftwareRenderer { pixels, width, height, dirty: false }
    }

    /// Create a buffer, if this machine can address its storage.
    pub fn try_new(width: u32, height: u32) -> (buffer: Option<Self>)
        ensures
            buffer is Some == (clamped(width) * clamped(height) <= usize::MAX),
            buffer matches Some(b) ==> b.wf() && b@ == (Frame {
                pixels: Seq::new((clamped(width) * clamped(height)) as nat, |i: int| CLEAR_COLOR),
                width: clamped(width),
                height: clamped(height),
                dirty: false,
            }),
    {
        if fits(width, height) {
            Some(SoftwareRenderer::new(width, height))
        } else {
            None
        }
    }

    /// Resize the buffer, if this machine can address the new storage;
    /// otherwise the buffer stays as it is. Returns whether it was resized.
    pub fn try_resize(&mut self, width: u32, height: u32) -> (resized: bool)
        requires
            old(self).wf(),
        ensures
            final(self).wf(),
            resized == (clamped(width) * clamped(height) <= usize::MAX),
            final(self)@ == if resized {
                old(self)@.resized(width, height)
            } else {
                old(self)@
            },
    {
        if fits(width, height) {
            self.resize(width, height);
            true
        } else {
            false
        }
    }

    /// Resize the buffer. A zero dimension is raised to one.
    ///
    /// Where the dimensions are those that the buffer has, nothing changes.
    /// Otherwise the storage is brought to the new size, keeping its pixels in
    /// storage order and continuing with the clear colour, and the buffer is
    /// no longer dirty. Storage is never empty.
    pub fn resize(&mut self, width: u32, height: u32)
        requires
            old(self).wf(),
            clamped(width) * clamped(height) <= usize::MAX,
        ensures
            final(self).wf(),
            final(self)@ == old(self)@.resized(width, height),
            final(self).spec_width() == clamped(width),
            final(self).spec_height() == clamped(height),
            final(self).pixels() == refitted(
                old(self).pixels(),
                (clamped(width) * clamped(height)) as nat,
            ),
            final(self).pixels().len() == clamped(width) * clamped(height),
            final(self).pixels().len() >= 1,
            final(self).spec_dirty() == (old(self).spec_dirty() && clamped(width) == old(
                self,
            ).spec_width() && clamped(height) == old(self).spec_height()),
    {
        let width = if width == 0 {
            1
        } else {
            width
        };
        let height = if height == 0 {
            1
        } else {
            height
        };
        if self.width != width || self.height != height {
            let len = pixel_count(width, height);
            let ghost before = self.pixels@;
            self.pixels.resize(len, CLEAR_COLOR);
            self.width = width;
            self.height = height;
            self.dirty = false;
            proof {
                assert(self.pixels@ =~= refitted(before, len as nat));
            }
        } else {
            proof {
                lemma_position_in_range(0, 0, width as int, height as int);
                assert(self.pixels@ =~= refitted(self.pixels@, self.pixels@.len()));
            }
        }
    }

    /// Copy an exported buffer into this one.
    ///
    /// `src` holds rows of `src_width` pixels of four bytes, `stride` bytes
    /// apart, `src_height` of them. The copy is clipped to the smaller of the
    /// two widths and of the two heights, and to the bytes that `src` holds:
    /// every pixel within that region is replaced, and no other. The
    /// dimensions stay as they are, and the buffer is dirty afterwards.
    pub fn copy_shm_buffer(&mut self, src: &[u8], src_width: u32, src_height: u32, stride: u32)
        requires
            old(self).wf(),
        ensures
            final(self).wf(),
            old(self)@.copied(src@, src_width, src_height, stride, final(self)@),
    {
        let columns = if self.width <= src_width {
            self.width
        } else {
            src_width
        };
        let rows = if self.height <= src_height {
            self.height
        } else {
            src_height
        };
        let ghost before = *self;
        let width = self.width;
        let height = self.height;
        let total = self.pixels.len();
        self.dirty = true;
        let mut y: u32 = 0;
        while y < rows
            invariant
                y <= rows,
                rows == min_dim(height, src_height),
                columns == min_dim(width, src_width),
                self.width == width,
                self.height == height,
                width == before.width,
                height == before.height,
                self.dirty,
                before.wf(),
                self.pixels@.len() == before.pixels@.len(),
                total == width * height,
                total == self.pixels@.len(),
                forall|px: int, py: int|
                    0 <= px < width && 0 <= py < height ==> #[trigger] self.pixel(px, py) == if py
                        < y && before.written(
                        px,
                        py,
                        src@.len() as int,
                        src_width,
                        src_height,
                        stride,
                    ) {
                        source_pixel(src@, source_offset(px, py, stride as int))
                    } else {
                        before.pixel(px, py)
                    },
            decreases rows - y,
        {
            let mut x: u32 = 0;
            while x < columns
                invariant
                    x <= columns,
                    y < rows,
                    rows == min_dim(height, src_height),
                    columns == min_dim(width, src_width),
                    self.width == width,
                    self.height == height,
                    width == before.width,
                    height == before.height,
                    self.dirty,
                    before.wf(),
                    self.pixels@.len() == before.pixels@.len(),
                    total == width * height,
                    total == self.pixels@.len(),
                    forall|px: int, py: int|
                        0 <= px < width && 0 <= py < height ==> #[trigger] self.pixel(px, py)
                            == if (py < y || (py == y && px < x)) && before.written(
                            px,
                            py,
                            src@.len() as int,
                            src_width,
                            src_height,
                            stride,
                        ) {
                            source_pixel(src@, source_offset(px, py, stride as int))
                        } else {
                            before.pixel(px, py)
                        },
                decreases columns - x,
            {
                if let Some(at) = source_index(x, y, stride, src.len()) {
                    let value = assemble(src[at], src[at + 1], src[at + 2], src[at + 3]);
                    let index = position(x, y, width, height);
                    let ghost previous = *self;
                    self.pixels.set(index, value);
                    proof {
                        lemma_positions_differ(width as int, height as int);
                        assert forall|px: int, py: int|
                            0 <= px < width && 0 <= py < height implies #[trigger] self.pixel(
                            px,
                            py,
                        ) == if px == x && py == y {
                            value
                        } else {
                            previous.pixel(px, py)
                        } by {
                            lemma_position_in_range(px, py, width as int, height as int);
                            if !(px == x && py == y) {
                                assert(py * width + px != y * width + x);
                            }
                        }
                    }
                }
                x = x + 1;
            }
            y = y + 1;
        }
        proof {
            assert forall|px: int, py: int|
                0 <= px < before@.width && 0 <= py < before@.height implies #[trigger] self@.pixel(
                px,
                py,
            ) == if before@.reached(px, py, src@.len() as int, src_width, src_height, stride) {
                source_pixel(src@, source_offset(px, py, stride as int))
            } else {
                before@.pixel(px, py)
            } by {
                assert(self@.pixel(px, py) == self.pixel(px, py));
                assert(before@.pixel(px, py) == before.pixel(px, py));
            }
        }
    }

    /// Fill the buffer with a solid color. The buffer is dirty afterwards.
    pub fn fill(&mut self, color: u32)
        requires
            old(self).wf(),
        ensures
            final(self).wf(),
            final(self).spec_width() == old(self).spec_width(),
            final(self).spec_height() == old(self).spec_height(),
            final(self).pixels() == Seq::new(old(self).pixels().len(), |i: int| color),
            final(self).spec_dirty(),
    {
        let len = self.pixels.len();
        let mut i: usize = 0;
        while i < len
            invariant
                i <= len,
                len == self.pixels@.len(),
                self.pixels@.len() == old(self).pixels@.len(),
                self.width == old(self).width,
                self.height == old(self).height,
                self.dirty == old(self).dirty,
                forall|k: int| 0 <= k < i ==> self.pixels@[k] == color,
            decreases len - i,
        {
            self.pixels.set(i, color);
            i = i + 1;
        }
        self.dirty = true;
        proof {
            assert(self.pixels@ =~= Seq::new(old(self).pixels().len(), |i: int| color));
        }
    }

    /// The contents for presentation: the pixels in storage order, and the
    /// dimensions. Nothing is copied.
    pub fn read(&self) -> (frame: (&[u32], u32, u32))
        requires
            self.wf(),
        ensures
            frame.0@ == self.pixels(),
            frame.1 == self.spec_width(),
            frame.2 == self.spec_height(),
            frame.0@.len() == frame.1 * frame.2,
            frame.1 >= 1,
            frame.2 >= 1,
    {
        (self.pixels.as_slice(), self.width, self.height)
    }

    /// Get the current width.
    #[must_use]
    pub fn width(&self) -> (width: u32)
        requires
            self.wf(),
        ensures
            width == self.spec_width(),
            width >= 1,
    {
        self.width
    }

    /// Get the current height.
    #[must_use]
    pub fn height(&self) -> (height: u32)
        requires
            self.wf(),
        ensures
            height == self.spec_height(),
            height >= 1,
    {
        self.height
    }

    /// Whether the producer wrote since the consumer last took the contents.
    pub fn is_dirty(&self) -> (dirty: bool)
        ensures
            dirty == self.spec_dirty(),
    {
        self.dirty
    }

    /// Hand the buffer back to the producer, after presentation has consumed
    /// the contents. Only the flag changes.
    pub fn clear_dirty(&mut self)
        requires
            old(self).wf(),
        ensures
            final(self).wf(),
            !final(self).spec_dirty(),
            final(self).spec_width() == old(self).spec_width(),
            final(self).spec_height() == old(self).spec_height(),
            final(self).pixels() == old(self).pixels(),
    {
        self.dirty = false;
    }

    /// The pixels as the bytes that a presentation surface takes: four for
    /// each pixel, lowest first, cut off after `limit` bytes.
    pub fn to_bytes(&self, limit: usize) -> (bytes: Vec<u8>)
        ensures
            bytes@.len() == if limit <= 4 * self.pixels().len() {
                limit as int
            } else {
                (4 * self.pixels().len()) as int
            },
            forall|k: int| 0 <= k < bytes@.len() ==> #[trigger] bytes@[k] == byte_of(
                self.pixels()[k / 4],
                k % 4,
            ),
    {
        let mut bytes: Vec<u8> = Vec::new();
        let mut k: usize = 0;
        while k < limit && k / 4 < self.pixels.len()
            invariant
                bytes@.len() == k,
                k <= limit,
                k <= 4 * self.pixels@.len(),
                forall|j: int| 0 <= j < k ==> #[trigger] bytes@[j] == byte_of(
                    self.pixels@[j / 4],
                    j % 4,
                ),
            decreases limit - k,
        {
            let pixel = self.pixels[k / 4];
            bytes.push(split(pixel, (k % 4) as u8));
            k = k + 1;
        }
        bytes
    }

    /// The pixels to present on a surface that holds `surface_len` pixels:
    /// the contents in storage order, cut off where the surface ends. Nothing
    /// is copied.
    pub fn present(&self, surface_len: usize) -> (pixels: &[u32])
        requires
            self.wf(),
        ensures
            pixels@ == self.pixels().subrange(
                0,
                if surface_len <= self.pixels().len() {
                    surface_len as int
                } else {
                    self.pixels().len() as int
                },
            ),
    {
        let len = self.pixels.len();
        let n = if surface_len <= len {
            surface_len
        } else {
            len
        };
        vstd::slice::slice_subrange(self.pixels.as_slice(), 0, n)
    }
}

/// Shared state for buffer export callbacks.
#[derive(Debug)]
pub struct RenderContext {
    pub renderer: SoftwareRenderer,
    pub pending_frame: bool,
}

impl RenderContext {
    /// Create a new render context, with no frame pending.
    pub fn new(renderer: SoftwareRenderer) -> (context: Self)
        ensures
            context.renderer == renderer,
            !context.pending_frame,
    {
        RenderContext { renderer, pending_frame: false }
    }
}

/// Byte `n` of a pixel, the lowest being byte zero.
pub open spec fn byte_of(pixel: u32, n: int) -> u8 {
    if n == 0 {
        (pixel & 0xFF) as u8
    } else if n == 1 {
        ((pixel >> 8) & 0xFF) as u8
    } else if n == 2 {
        ((pixel >> 16) & 0xFF) as u8
    } else {
        ((pixel >> 24) & 0xFF) as u8
    }
}

/// Byte `n` of a pixel.
fn split(pixel: u32, n: u8) -> (b: u8)
    requires
        n < 4,
    ensures
        b == byte_of(pixel, n as int),
{
    if n == 0 {
        (pixel & 0xFF) as u8
    } else if n == 1 {
        ((pixel >> 8) & 0xFF) as u8
    } else if n == 2 {
        ((pixel >> 16) & 0xFF) as u8
    } else {
        ((pixel >> 24) & 0xFF) as u8
    }
}

/// Put four bytes together to a pixel.
fn assemble(b0: u8, b1: u8, b2: u8, b3: u8) -> (pixel: u32)
    ensures
        pixel == pixel_of(b0, b1, b2, b3),
{
    (b0 as u32) | ((b1 as u32) << 8) | ((b2 as u32) << 16) | ((b3 as u32) << 24)
}

/// Where a pixel starts in an exported buffer of `len` bytes, if the buffer
/// holds all four bytes of it.
fn source_index(x: u32, y: u32, stride: u32, len: usize) -> (at: Option<usize>)
    ensures
        at == if source_offset(x as int, y as int, stride as int) + 4 <= len {
            Some(source_offset(x as int, y as int, stride as int) as usize)
        } else {
            None
        },
{
    assert(0 <= y * stride <= 0xFFFF_FFFF * 0xFFFF_FFFF) by (nonlinear_arith)
        requires
            0 <= y <= 0xFFFF_FFFF,
            0 <= stride <= 0xFFFF_FFFF,
    ;
    let offset: u128 = (y as u128) * (stride as u128) + (x as u128) * 4;
    if offset + 4 <= len as u128 {
        Some(offset as usize)
    } else {
        None
    }
}

/// Whether this machine can address the storage of a buffer of the given
/// dimensions.
fn fits(width: u32, height: u32) -> (ok: bool)
    ensures
        ok == (clamped(width) * clamped(height) <= usize::MAX),
{
    let w: u128 = if width == 0 {
        1
    } else {
        width as u128
    };
    let h: u128 = if height == 0 {
        1
    } else {
        height as u128
    };
    assert(0 <= w * h <= 0xFFFF_FFFF * 0xFFFF_FFFF) by (nonlinear_arith)
        requires
            0 <= w <= 0xFFFF_FFFF,
            0 <= h <= 0xFFFF_FFFF,
    ;
    w * h <= usize::MAX as u128
}

/// The number of pixels of a buffer.
fn pixel_count(width: u32, height: u32) -> (len: usize)
    requires
        width * height <= usize::MAX,
    ensures
        len == width * height,
        width >= 1 && height >= 1 ==> len >= 1,
{
    assert(width * height >= 0 && (width >= 1 && height >= 1 ==> width * height >= 1))
        by (nonlinear_arith)
        requires
            width >= 0,
            height >= 0,
    ;
    ((width as u64) * (height as u64)) as usize
}

/// The place in storage of the pixel in column `x` of row `y`.
fn position(x: u32, y: u32, width: u32, height: u32) -> (index: usize)
    requires
        x < width,
        y < height,
        width * height <= usize::MAX,
    ensures
        index == y * width + x,
        index < width * height,
{
    assert(y * width + x < width * height && y * width >= 0) by (nonlinear_arith)
        requires
            0 <= x < width,
            0 <= y < height,
    ;
    ((y as u64) * (width as u64) + (x as u64)) as usize
}

/// Every position of a buffer has a place in its storage.
proof fn lemma_position_in_range(x: int, y: int, width: int, height: int)
    requires
        0 <= x < width,
        0 <= y < height,
    ensures
        0 <= y * width + x < width * height,
{
    assert(0 <= y * width + x < width * height) by (nonlinear_arith)
        requires
            0 <= x < width,
            0 <= y < height,
    ;
}

/// Two positions of a buffer are stored in one place only if they are the same
/// position.
proof fn lemma_positions_differ(width: int, height: int)
    requires
        width >= 1,
    ensures
        forall|x1: int, y1: int, x2: int, y2: int|
            0 <= x1 < width && 0 <= x2 < width && 0 <= y1 && 0 <= y2 && #[trigger] (y1 * width
                + x1) == #[trigger] (y2 * width + x2) ==> x1 == x2 && y1 == y2,
{
    assert forall|x1: int, y1: int, x2: int, y2: int|
        0 <= x1 < width && 0 <= x2 < width && 0 <= y1 && 0 <= y2 && #[trigger] (y1 * width + x1)
            == #[trigger] (y2 * width + x2) implies x1 == x2 && y1 == y2 by {
        assert(y1 == y2) by (nonlinear_arith)
            requires
                0 <= x1 < width,
                0 <= x2 < width,
                y1 * width + x1 == y2 * width + x2,
        ;
    }
}

} // verus!
