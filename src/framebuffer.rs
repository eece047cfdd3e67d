//! Byte-level planning of writes into the linear display framebuffer.
use vstd::prelude::*;

verus! {

/// Geometry of a 32-bit-per-pixel linear framebuffer: `width` and `height` in
/// pixels, `pitch` in bytes per row.
#[derive(PartialEq, Eq, Structural, Debug, Clone, Copy)]
pub struct Buffer {
    pub width: u64,
    pub height: u64,
    pub pitch: u64,
}

/// A run of bytes of the framebuffer, from its start.
#[derive(PartialEq, Eq, Structural, Debug, Clone, Copy)]
pub struct ByteSpan {
    pub start: usize,
    pub len: usize,
}

/// Copy of one source row: `len` pixels from element `src_start` of the
/// source to byte `dst_offset` of the framebuffer.
#[derive(PartialEq, Eq, Structural, Debug, Clone, Copy)]
pub struct RowCopy {
    pub src_start: usize,
    pub dst_offset: usize,
    pub len: usize,
}

/// Why a frame cannot be copied.
#[derive(PartialEq, Eq, Structural, Debug, Clone, Copy)]
pub enum FrameCopyError {
    /// The frame does not fit on the display at the requested place.
    OutOfBounds,
    /// The source holds fewer pixels than width times height.
    SourceTooSmall,
    /// A source row takes more bytes than a framebuffer row.
    RowTooWide,
}

/// How a scroll by some rows is carried out.
#[derive(PartialEq, Eq, Structural, Debug, Clone, Copy)]
pub enum ScrollPlan {
    /// Clear the whole framebuffer.
    ClearAll { clear: ByteSpan },
    /// Move `moved` bytes from byte `from` to the start, then clear `clear`.
    Shift { from: usize, moved: usize, clear: ByteSpan },
}

impl Buffer {
    /// The whole framebuffer fits in the address space and a row of pixels
    /// fits in the pitch.
    pub open spec fn wf(&self) -> bool {
        &&& self.height * self.pitch <= usize::MAX
        &&& 4 * self.width <= self.pitch
    }

    /// Total bytes of the framebuffer.
    pub open spec fn size(&self) -> int {
        self.height * self.pitch
    }

    /// Byte offset of the pixel in row `row`, column `col`.
    pub open spec fn pixel_offset(&self, row: int, col: int) -> int {
        row * self.pitch + col * 4
    }

    /// A framebuffer with the given geometry.
    pub fn new(width: u64, height: u64, pitch: u64) -> (r: Buffer)
        requires
            height * pitch <= usize::MAX,
            4 * width <= pitch,
        ensures
            r.wf(),
            r.width == width,
            r.height == height,
            r.pitch == pitch,
    {
        Buffer { width, height, pitch }
    }

    /// Byte offset at which to store the pixel in row `x`, column `y`; none
    /// when the pixel lies off the display.
    pub fn write_pixel(&self, x: u64, y: u64) -> (r: Option<usize>)
        requires
            self.wf(),
        ensures
            (x < self.height && y < self.width) <==> r is Some,
            r is Some ==> r.unwrap() == self.pixel_offset(x as int, y as int),
            r is Some ==> r.unwrap() + 4 <= self.size(),
    {
        if x >= self.height || y >= self.width {
            return None;
        }
        proof {
            assert(x * self.pitch + self.pitch <= self.height * self.pitch) by (nonlinear_arith)
                requires
                    x < self.height,
            ;
        }
        Some((x * self.pitch + y * 4) as usize)
    }

    /// Bytes of `count` rows from row `start_row` on.
    pub fn clear_rows(&self, start_row: u64, count: u64) -> (r: ByteSpan)
        requires
            self.wf(),
            start_row + count <= self.height,
        ensures
            r.start == start_row * self.pitch,
            r.len == count * self.pitch,
            r.start + r.len <= self.size(),
    {
        proof {
            assert(start_row * self.pitch + count * self.pitch <= self.height * self.pitch)
                by (nonlinear_arith)
                requires
                    start_row + count <= self.height,
            ;
            assert(start_row * self.pitch <= self.height * self.pitch) by (nonlinear_arith)
                requires
                    start_row <= self.height,
            ;
            assert(count * self.pitch <= self.height * self.pitch) by (nonlinear_arith)
                requires
                    count <= self.height,
            ;
        }
        ByteSpan { start: (start_row * self.pitch) as usize, len: (count * self.pitch) as usize }
    }

    /// Scrolling the contents up by `lines` rows: the rows below `lines` move
    /// to the top and the freed rows at the bottom are cleared. Scrolling by
    /// zero rows, or by the whole height or more, clears the framebuffer.
    pub fn scroll_lines(&self, lines: u64) -> (r: ScrollPlan)
        requires
            self.wf(),
        ensures
            lines == 0 || lines >= self.height ==> r == (ScrollPlan::ClearAll {
                clear: ByteSpan { start: 0, len: self.size() as usize },
            }),
            0 < lines < self.height ==> r == (ScrollPlan::Shift {
                from: (lines * self.pitch) as usize,
                moved: ((self.height - lines) * self.pitch) as usize,
                clear: ByteSpan {
                    start: ((self.height - lines) * self.pitch) as usize,
                    len: (lines * self.pitch) as usize,
                },
            }),
    {
        let height = self.height;
        if lines == 0 || lines >= height {
            return ScrollPlan::ClearAll { clear: self.clear_rows(0, height) };
        }
        proof {
            assert(lines * self.pitch <= self.height * self.pitch) by (nonlinear_arith)
                requires
                    lines <= self.height,
            ;
            assert((self.height - lines) * self.pitch <= self.height * self.pitch)
                by (nonlinear_arith)
                requires
                    lines <= self.height,
            ;
        }
        let from = (lines * self.pitch) as usize;
        let moved = ((height - lines) * self.pitch) as usize;
        ScrollPlan::Shift { from, moved, clear: self.clear_rows(height - lines, lines) }
    }
}

impl Buffer {
    /// Why a `src_w` x `src_h` frame held in `src_len` pixels cannot be copied
    /// to column `dst_col`, row `dst_row`; none when it can, or when it is empty.
    pub open spec fn frame_copy_error(
        &self,
        src_len: int,
        src_w: int,
        src_h: int,
        dst_col: int,
        dst_row: int,
    ) -> Option<FrameCopyError> {
        if src_w == 0 || src_h == 0 {
            None
        } else if dst_col + src_w > self.width || dst_row + src_h > self.height {
            Some(FrameCopyError::OutOfBounds)
        } else if src_len < src_w * src_h {
            Some(FrameCopyError::SourceTooSmall)
        } else if src_w * 4 > self.pitch {
            Some(FrameCopyError::RowTooWide)
        } else {
            None
        }
    }

    /// The copy of source row `row` of a `src_w`-wide frame placed at column
    /// `dst_col`, row `dst_row`.
    pub open spec fn row_copy(&self, row: int, src_w: int, dst_col: int, dst_row: int) -> RowCopy {
        RowCopy {
            src_start: (row * src_w) as usize,
            dst_offset: self.pixel_offset(dst_row + row, dst_col) as usize,
            len: src_w as usize,
        }
    }

    /// The row copies that place the `src_w` x `src_h` frame `src` (row-major)
    /// with its top-left pixel at column `dst_col`, row `dst_row`: one per
    /// source row, top to bottom. An empty frame needs no copy.
    pub fn write_frame(&self, src: &[u32], src_w: u64, src_h: u64, dst_col: u64, dst_row: u64) -> (r:
        Result<Vec<RowCopy>, FrameCopyError>)
        requires
            self.wf(),
        ensures
            r is Err <==> self.frame_copy_error(
                src@.len() as int,
                src_w as int,
                src_h as int,
                dst_col as int,
                dst_row as int,
            ) is Some,
            r is Err ==> Some(r->Err_0) == self.frame_copy_error(
                src@.len() as int,
                src_w as int,
                src_h as int,
                dst_col as int,
                dst_row as int,
            ),
            r is Ok ==> {
                let rows = r->Ok_0@;
                &&& rows.len() == (if src_w == 0 || src_h == 0 { 0 } else { src_h as int })
                &&& forall|i: int|
                    0 <= i < rows.len() ==> #[trigger] rows[i] == self.row_copy(
                        i,
                        src_w as int,
                        dst_col as int,
                        dst_row as int,
                    )
                &&& forall|i: int|
                    0 <= i < rows.len() ==> #[trigger] rows[i].src_start + rows[i].len
                        <= src@.len() && rows[i].dst_offset + 4 * rows[i].len <= self.size()
            },
    {
        if src_w == 0 || src_h == 0 {
            return Ok(Vec::new());
        }
        if dst_col > self.width || src_w > self.width - dst_col || dst_row > self.height || src_h
            > self.height - dst_row {
            return Err(FrameCopyError::OutOfBounds);
        }
        // Both dimensions are within the display, whose bytes fit in usize.
        proof {
            assert(src_w * src_h <= self.height * self.pitch) by (nonlinear_arith)
                requires
                    src_w <= self.width,
                    src_h <= self.height,
                    4 * self.width <= self.pitch,
            ;
        }
        let needed = (src_w * src_h) as usize;
        let src_len = src.len();
        if src_len < needed {
            return Err(FrameCopyError::SourceTooSmall);
        }
        if src_w * 4 > self.pitch {
            return Err(FrameCopyError::RowTooWide);
        }
        let mut rows: Vec<RowCopy> = Vec::new();
        let mut row: u64 = 0;
        while row < src_h
            invariant
                self.wf(),
                0 < src_w <= self.width,
                dst_col + src_w <= self.width,
                dst_row + src_h <= self.height,
                src_w * src_h <= src@.len(),
                src_len == src@.len(),
                row <= src_h,
                rows@.len() == row,
                forall|i: int|
                    0 <= i < rows@.len() ==> #[trigger] rows@[i] == self.row_copy(
                        i,
                        src_w as int,
                        dst_col as int,
                        dst_row as int,
                    ),
                forall|i: int|
                    0 <= i < rows@.len() ==> #[trigger] rows@[i].src_start + rows@[i].len
                        <= src@.len() && rows@[i].dst_offset + 4 * rows@[i].len <= self.size(),
            decreases src_h - row,
        {
            proof {
                assert(row * src_w + src_w <= src_w * src_h) by (nonlinear_arith)
                    requires
                        row < src_h,
                ;
                assert((dst_row + row) * self.pitch + self.pitch <= self.height * self.pitch)
                    by (nonlinear_arith)
                    requires
                        dst_row + row < self.height,
                ;
            }
            let src_start = (row * src_w) as usize;
            let dst_offset = ((dst_row + row) * self.pitch + dst_col * 4) as usize;
            assert(src_start + src_w <= src@.len());
            assert(dst_offset + 4 * src_w <= self.size());
            rows.push(RowCopy { src_start, dst_offset, len: src_w as usize });
            row = row + 1;
        }
        Ok(rows)
    }
}

} // verus!
