//! Frame-capture bookkeeping: the rotating pair of pixel-transfer buffers
//! used for asynchronous readback, the per-swap decisions of the capture
//! pipeline, and the bounds-checked, vertically flipped copy of a mapped
//! readback buffer into the shared-memory frame slot.
//!
//! The readback issued on one swap is consumed on the next: pixels are read
//! into the buffer at the rotating index while the buffer filled on the
//! previous swap is mapped for copying, so the pipeline never waits on the
//! current frame's transfer.  The source buffer is bottom-up and the shared
//! frame slot is top-down, so rows are copied in reverse vertical order.

use vstd::prelude::*;

use crate::shm::{MemoryManager, SharedMemory, IMAGE_DATA_SIZE};

verus! {

/// Row stride in bytes of a readback row: 4 bytes per pixel at 32 bits,
/// else 3 bytes per pixel padded to the legacy 4-byte row alignment.
pub open spec fn spec_row_chunk(width: usize, bpp: u32) -> int {
    if bpp > 24 {
        width * 4
    } else {
        width * 3 + width % 4
    }
}

/// The first `r` rows of the vertically flipped image: row `k` of the result
/// is row `height - 1 - k` of `inp`, each row `chunk` bytes wide.
pub open spec fn spec_flip_rows(inp: Seq<u8>, chunk: int, height: int, r: int) -> Seq<u8>
    decreases r,
{
    if r <= 0 {
        Seq::empty()
    } else {
        spec_flip_rows(inp, chunk, height, r - 1) + inp.subrange(
            (height - r) * chunk,
            (height - r + 1) * chunk,
        )
    }
}

/// The flipped prefix of `r` rows is `r * chunk` bytes long.
pub proof fn lemma_flip_rows_len(inp: Seq<u8>, chunk: int, height: int, r: int)
    requires
        chunk >= 0,
        0 <= r <= height,
        height * chunk <= inp.len(),
    ensures
        spec_flip_rows(inp, chunk, height, r).len() == r * chunk,
    decreases r,
{
    if r <= 0 {
        assert(r == 0);
        assert(r * chunk == 0) by (nonlinear_arith)
            requires
                r == 0,
        ;
    } else {
        lemma_flip_rows_len(inp, chunk, height, r - 1);
        let lo = (height - r) * chunk;
        let hi = (height - r + 1) * chunk;
        assert(0 <= lo && lo <= hi && hi <= height * chunk && hi - lo == chunk && (r - 1) * chunk
            + chunk == r * chunk) by (nonlinear_arith)
            requires
                chunk >= 0,
                0 < r <= height,
                lo == (height - r) * chunk,
                hi == (height - r + 1) * chunk,
        ;
        assert(inp.subrange(lo, hi).len() == chunk);
        assert(spec_flip_rows(inp, chunk, height, r) == spec_flip_rows(inp, chunk, height, r - 1)
            + inp.subrange(lo, hi));
        assert(spec_flip_rows(inp, chunk, height, r).len() == (r - 1) * chunk + chunk);
    }
}

/// Row `k` of the flipped prefix equals row `height - 1 - k` of the source.
pub proof fn lemma_flip_rows_row(inp: Seq<u8>, chunk: int, height: int, r: int, k: int)
    requires
        chunk >= 0,
        0 <= k < r <= height,
        height * chunk <= inp.len(),
    ensures
        spec_flip_rows(inp, chunk, height, r).subrange(k * chunk, (k + 1) * chunk) == inp.subrange(
            (height - 1 - k) * chunk,
            (height - k) * chunk,
        ),
    decreases r,
{
    lemma_flip_rows_len(inp, chunk, height, r);
    lemma_flip_rows_len(inp, chunk, height, r - 1);
    assert(0 <= k * chunk && (k + 1) * chunk <= r * chunk && 0 <= (height - r) * chunk && (height
        - r + 1) * chunk <= height * chunk && 0 <= (height - 1 - k) * chunk && (height - k) * chunk
        <= height * chunk) by (nonlinear_arith)
        requires
            chunk >= 0,
            0 <= k < r <= height,
    ;
    if k == r - 1 {
        assert((height - r) * chunk == (height - 1 - k) * chunk && (height - r + 1) * chunk == (
        height - k) * chunk) by (nonlinear_arith)
            requires
                k == r - 1,
        ;
        assert((k + 1) * chunk == k * chunk + chunk && (height - k) * chunk == (height - 1 - k)
            * chunk + chunk) by (nonlinear_arith);
        assert(spec_flip_rows(inp, chunk, height, r).subrange(k * chunk, (k + 1) * chunk)
            =~= inp.subrange((height - 1 - k) * chunk, (height - k) * chunk));
    } else {
        lemma_flip_rows_row(inp, chunk, height, r - 1, k);
        assert((k + 1) * chunk <= (r - 1) * chunk && (k + 1) * chunk == k * chunk + chunk)
            by (nonlinear_arith)
            requires
                chunk >= 0,
                k + 1 <= r - 1,
        ;
        assert(spec_flip_rows(inp, chunk, height, r).subrange(k * chunk, (k + 1) * chunk)
            =~= spec_flip_rows(inp, chunk, height, r - 1).subrange(k * chunk, (k + 1) * chunk));
    }
}

/// Copies `height` rows of `spec_row_chunk(width, bpp)` bytes from `input`
/// to `output` in reverse vertical order: output row `r` becomes input row
/// `height - 1 - r`.  Bytes of `output` beyond the copied frame are
/// untouched.
pub fn flip_image_bytes(
    input: &Vec<u8>,
    output: &mut Vec<u8>,
    width: usize,
    height: usize,
    bpp: u32,
)
    requires
        1 <= height,
        spec_row_chunk(width, bpp) * height <= input@.len(),
        spec_row_chunk(width, bpp) * height <= old(output)@.len(),
    ensures
        final(output)@.len() == old(output)@.len(),
        final(output)@ == spec_flip_rows(
            input@,
            spec_row_chunk(width, bpp),
            height as int,
            height as int,
        ) + old(output)@.skip(spec_row_chunk(width, bpp) * height),
{
    let in_len: usize = input.len();
    let out_len: usize = output.len();
    let ghost chunk_g = spec_row_chunk(width, bpp);
    proof {
        assert(chunk_g <= chunk_g * height) by (nonlinear_arith)
            requires
                1 <= height,
                chunk_g >= 0,
        ;
    }
    let chunk: usize = if bpp > 24 {
        width * 4
    } else {
        width * 3 + width % 4
    };
    let mut r: usize = 0;
    while r < height
        invariant
            r <= height,
            chunk == spec_row_chunk(width, bpp),
            chunk * height <= in_len,
            chunk * height <= out_len,
            in_len == input@.len(),
            out_len == output@.len(),
            output@.len() == old(output)@.len(),
            output@.subrange(0, r * chunk) == spec_flip_rows(
                input@,
                chunk as int,
                height as int,
                r as int,
            ),
            forall|j: int| r * chunk <= j < output@.len() ==> output@[j] == old(output)@[j],
        decreases height - r,
    {
        proof {
            assert(0 <= r * chunk && r * chunk + chunk == (r + 1) * chunk && (r + 1) * chunk
                <= chunk * height && 0 <= (height - 1 - r) * chunk && (height - 1 - r) * chunk
                + chunk == (height - r) * chunk && (height - r) * chunk <= chunk * height)
                by (nonlinear_arith)
                requires
                    0 <= r < height,
                    chunk >= 0,
            ;
        }
        let src_base: usize = (height - 1 - r) * chunk;
        let dst_base: usize = r * chunk;
        let mut c: usize = 0;
        while c < chunk
            invariant
                0 <= c <= chunk,
                r < height,
                src_base == (height - 1 - r) * chunk,
                dst_base == r * chunk,
                dst_base + chunk <= out_len,
                src_base + chunk <= in_len,
                chunk == spec_row_chunk(width, bpp),
                chunk * height <= in_len,
                chunk * height <= out_len,
                in_len == input@.len(),
                out_len == output@.len(),
                output@.len() == old(output)@.len(),
                output@.subrange(0, dst_base as int) == spec_flip_rows(
                    input@,
                    chunk as int,
                    height as int,
                    r as int,
                ),
                forall|i: int| 0 <= i < c ==> #[trigger] output@[dst_base + i] == input@[src_base
                    + i],
                forall|j: int|
                    dst_base + c <= j < output@.len() ==> output@[j] == old(output)@[j],
            decreases chunk - c,
        {
            let b = input[src_base + c];
            output.set(dst_base + c, b);
            proof {
                assert(output@.subrange(0, dst_base as int) =~= spec_flip_rows(
                    input@,
                    chunk as int,
                    height as int,
                    r as int,
                ));
            }
            c = c + 1;
        }
        proof {
            assert(height * chunk == chunk * height) by (nonlinear_arith);
            lemma_flip_rows_len(input@, chunk as int, height as int, r as int);
            lemma_flip_rows_len(input@, chunk as int, height as int, r + 1);
            let flipped = spec_flip_rows(input@, chunk as int, height as int, r + 1);
            assert(flipped == spec_flip_rows(input@, chunk as int, height as int, r as int)
                + input@.subrange(src_base as int, src_base + chunk));
            assert forall|j: int| 0 <= j < (r + 1) * chunk implies output@.subrange(
                0,
                (r + 1) * chunk,
            )[j] == flipped[j] by {
                if j < r * chunk {
                    assert(output@.subrange(0, r * chunk)[j] == output@[j]);
                } else {
                    let i = j - r * chunk;
                    assert(output@[dst_base + i] == input@[src_base + i]);
                    assert(flipped[j] == input@.subrange(src_base as int, src_base + chunk)[i]);
                }
            }
            assert(output@.subrange(0, (r + 1) * chunk) =~= flipped);
        }
        r = r + 1;
    }
    proof {
        assert(height * chunk == chunk * height && r * chunk == height * chunk
            && spec_row_chunk(width, bpp) * height == chunk * height) by (nonlinear_arith)
            requires
                r == height,
                chunk == spec_row_chunk(width, bpp),
        ;
        lemma_flip_rows_len(input@, chunk as int, height as int, height as int);
        let flipped = spec_flip_rows(input@, chunk as int, height as int, height as int);
        let expected = flipped + old(output)@.skip(chunk * height);
        assert forall|j: int| 0 <= j < output@.len() implies output@[j] == expected[j] by {
            if j < height * chunk {
                assert(output@.subrange(0, r * chunk)[j] == output@[j]);
            } else {
                assert(old(output)@.skip(chunk * height)[j - chunk * height] == old(output)@[j]);
            }
        }
        assert(output@ =~= expected);
    }
}

/// The rotating pair of pixel-transfer buffers: regenerated whenever the
/// requested dimensions differ from the last allocation, and alternated
/// between "being filled" and "being mapped" on every capture cycle.
pub struct PixelBufferPair {
    /// Width of the last allocation.
    pub width: i32,
    /// Height of the last allocation.
    pub height: i32,
    /// Which of the two buffers the next readback is issued into.
    pub index: usize,
    /// Whether the pair has been allocated at all.
    pub allocated: bool,
}

impl PixelBufferPair {
    pub open spec fn wf(self) -> bool {
        self.index < 2
    }

    /// A pair that has never been allocated.
    pub fn new() -> (r: PixelBufferPair)
        ensures
            r.wf(),
            !r.allocated,
            r.index == 0,
    {
        PixelBufferPair { width: 0, height: 0, index: 0, allocated: false }
    }

    /// Decision: must the transfer buffers be deleted and regenerated for
    /// this viewport?  Yes on first use and whenever a dimension changed.
    pub fn needs_realloc(&self, width: i32, height: i32) -> (r: bool)
        ensures
            r == (!self.allocated || self.width != width || self.height != height),
    {
        !self.allocated || self.width != width || self.height != height
    }

    /// Records that both buffers were regenerated for these dimensions.
    pub fn record_alloc(&mut self, width: i32, height: i32)
        requires
            old(self).wf(),
        ensures
            final(self).wf(),
            final(self).width == width,
            final(self).height == height,
            final(self).allocated,
            final(self).index == old(self).index,
    {
        self.width = width;
        self.height = height;
        self.allocated = true;
    }

    /// One capture cycle's buffer choice: read pixels into the buffer at the
    /// current index, map the other one — the buffer filled on the previous
    /// cycle — and advance the index.  Returns (read_index, map_index).
    pub fn rotate(&mut self) -> (r: (usize, usize))
        requires
            old(self).wf(),
        ensures
            final(self).wf(),
            r.0 == old(self).index,
            r.1 == 1 - old(self).index,
            r.0 != r.1,
            r.0 < 2,
            r.1 < 2,
            final(self).index == r.1,
            final(self).width == old(self).width,
            final(self).height == old(self).height,
            final(self).allocated == old(self).allocated,
    {
        let read_index = self.index;
        let map_index = 1 - self.index;
        self.index = map_index;
        (read_index, map_index)
    }
}

/// Law: the double-buffer rotation alternates.  Over two consecutive capture
/// cycles starting at index `i0`, the buffer mapped on the second cycle is
/// exactly the buffer the first cycle's readback was issued into, and the
/// two cycles map different buffers — so two consecutive cycles exercise
/// both halves of the pair.
pub proof fn lemma_rotation_alternates(i0: int)
    requires
        0 <= i0 < 2,
    ensures
        ({
            let read0 = i0;
            let map0 = 1 - i0;
            let i1 = 1 - i0;
            let read1 = i1;
            let map1 = 1 - i1;
            map1 == read0 && map0 != map1 && read0 != read1
        }),
{
}

/// Law: frame-capture round trip.  After a captured frame of `height` rows
/// of `chunk` bytes is stored, row `r` of the stored image equals row
/// `height - 1 - r` of the source — in particular the stored top row equals
/// the source's bottom row, whatever bytes follow the frame in the slot.
pub proof fn lemma_capture_vertical_flip(
    src: Seq<u8>,
    chunk: int,
    height: int,
    tail: Seq<u8>,
    r: int,
)
    requires
        chunk >= 0,
        0 <= r < height,
        height * chunk <= src.len(),
    ensures
        (spec_flip_rows(src, chunk, height, height) + tail).subrange(r * chunk, (r + 1) * chunk)
            == src.subrange((height - 1 - r) * chunk, (height - r) * chunk),
{
    lemma_flip_rows_len(src, chunk, height, height);
    lemma_flip_rows_row(src, chunk, height, height, r);
    assert(0 <= r * chunk && (r + 1) * chunk <= height * chunk && (r + 1) * chunk == r * chunk
        + chunk) by (nonlinear_arith)
        requires
            chunk >= 0,
            0 <= r < height,
    ;
    assert((spec_flip_rows(src, chunk, height, height) + tail).subrange(r * chunk, (r + 1) * chunk)
        =~= spec_flip_rows(src, chunk, height, height).subrange(r * chunk, (r + 1) * chunk));
}

/// What the swap hook does on one buffer-swap event.
#[derive(Clone, Copy, Debug, PartialEq, Eq, Structural)]
pub struct SwapPlan {
    /// Capture the frame into shared memory (and composite the overlay).
    pub capture: bool,
    /// Draw the cursor marker onto the live framebuffer.
    pub draw_cursor: bool,
}

/// Per-swap decisions: capture and overlay drawing happen only when the
/// extension functions resolved and the mapping is live — a resolution
/// failure degrades to skipping this frame, never to failing the host
/// application; the cursor marker is drawn only when the stored position is
/// known (not at its -1 sentinel) and inside the viewport.
pub fn plan_swap(mapped: bool, extensions_loaded: bool, width: i32, height: i32, mouse: (
    i32,
    i32,
)) -> (r: SwapPlan)
    ensures
        r.capture == (extensions_loaded && mapped),
        r.draw_cursor == (extensions_loaded && mouse.0 > -1 && mouse.1 > -1 && mouse.0 < width
            && mouse.1 < height),
{
    SwapPlan {
        capture: extensions_loaded && mapped,
        draw_cursor: extensions_loaded && mouse.0 > -1 && mouse.1 > -1 && mouse.0 < width
            && mouse.1 < height,
    }
}

/// Stores one captured frame into the shared-memory frame slot: rejects a
/// frame that does not fit the fixed capacity or the source buffer — and
/// records nothing at all then — and otherwise writes the vertically flipped
/// rows to the start of the frame slot, leaving every other field of the
/// region and the rest of the slot alone.
pub fn store_frame(mem: &mut MemoryManager, src: &Vec<u8>, width: usize, height: usize) -> (ok:
    bool)
    requires
        old(mem).spec_attached(),
    ensures
        final(mem).spec_attached(),
        ok == (1 <= width && 1 <= height && width * 4 * height <= IMAGE_DATA_SIZE && width * 4
            * height <= src@.len()),
        !ok ==> *final(mem) == *old(mem),
        ok ==> final(mem).region == (SharedMemory {
            img: final(mem).region.img,
            ..old(mem).region
        }),
        ok ==> final(mem).region.img@ == spec_flip_rows(
            src@,
            width * 4,
            height as int,
            height as int,
        ) + old(mem).region.img@.skip(width * 4 * height),
{
    if width == 0 || height == 0 || width > IMAGE_DATA_SIZE || height > IMAGE_DATA_SIZE {
        proof {
            if 1 <= width && 1 <= height && width * 4 * height <= IMAGE_DATA_SIZE {
                assert(width <= width * 4 * height && height <= width * 4 * height)
                    by (nonlinear_arith)
                    requires
                        1 <= width,
                        1 <= height,
                ;
            }
        }
        return false;
    }
    let w4: u64 = (width as u64) * 4;
    let h64: u64 = height as u64;
    proof {
        assert(w4 * h64 <= 132710408u64 * 33177602u64) by (nonlinear_arith)
            requires
                0 <= w4 <= 132710408,
                0 <= h64 <= 33177602,
        ;
        assert(w4 * h64 == width * 4 * height) by (nonlinear_arith)
            requires
                w4 == width * 4,
                h64 == height,
        ;
    }
    let frame64: u64 = w4 * h64;
    if frame64 > (IMAGE_DATA_SIZE as u64) {
        return false;
    }
    if frame64 > (src.len() as u64) {
        return false;
    }
    proof {
        assert(width * 4 * height == (width * 4) * height) by (nonlinear_arith);
        assert(spec_row_chunk(width, 32) == width * 4);
    }
    let img = mem.image_mut();
    flip_image_bytes(src, img, width, height, 32);
    true
}

} // verus!
