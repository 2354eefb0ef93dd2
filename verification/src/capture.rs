//! The frame capture pipeline's arithmetic and its published product.
//!
//! The GPU round-trip itself (staging-buffer creation, the copy command, the
//! blocking map) belongs to the embedding program; this module fixes the
//! numbers that round-trip must use — the staging buffer's size and the
//! copy's byte layout — and turns the mapped bytes into the owned RGBA frame
//! that goes into the shared state.

use vstd::prelude::*;

use crate::state::{state_wf, AIGymState, GymStateView};

verus! {

/// One captured RGBA frame: `width * height` pixels, four bytes each, in
/// row-major order.
pub struct Frame {
    pub width: u32,
    pub height: u32,
    pub pixels: Vec<u8>,
}

/// The mathematical model of `Frame`.
#[verifier::ext_equal]
pub ghost struct FrameView {
    pub width: u32,
    pub height: u32,
    pub pixels: Seq<u8>,
}

impl View for Frame {
    type V = FrameView;

    open spec fn view(&self) -> FrameView {
        FrameView { width: self.width, height: self.height, pixels: self.pixels@ }
    }
}

impl FrameView {
    /// Nonzero on both axes, with exactly four bytes per pixel.
    pub open spec fn wf(&self) -> bool {
        1 <= self.width && 1 <= self.height && self.pixels.len() == self.width * self.height * 4
    }
}

impl Frame {
    /// Builds a frame from the bytes a staging buffer handed back, accepting
    /// exactly a buffer of `width * height * 4` bytes for nonzero dimensions.
    pub fn from_raw(width: u32, height: u32, pixels: Vec<u8>) -> (r: Option<Frame>)
        ensures
            match r {
                Some(f) => f@ == (FrameView { width, height, pixels: pixels@ }) && f@.wf(),
                None => !(FrameView { width, height, pixels: pixels@ }).wf(),
            },
    {
        proof {
            vstd::arithmetic::mul::lemma_mul_upper_bound(
                width as int,
                u32::MAX as int,
                height as int,
                u32::MAX as int,
            );
        }
        let expected: u128 = (width as u128) * (height as u128) * 4;
        if 1 <= width && 1 <= height && (pixels.len() as u128) == expected {
            Some(Frame { width, height, pixels })
        } else {
            None
        }
    }
}

/// The pixel buffer of a synthetic frame filled with one solid RGBA color.
pub fn solid_pixels(width: u32, height: u32, red: u8, green: u8, blue: u8, alpha: u8) -> (v: Vec<
    u8,
>)
    requires
        width * height * 4 <= usize::MAX,
    ensures
        v@.len() == width * height * 4,
        forall|p: int|
            #![trigger v@[4 * p]]
            #![trigger v@[4 * p + 1]]
            #![trigger v@[4 * p + 2]]
            #![trigger v@[4 * p + 3]]
            0 <= p < width * height ==> {
                &&& v@[4 * p] == red
                &&& v@[4 * p + 1] == green
                &&& v@[4 * p + 2] == blue
                &&& v@[4 * p + 3] == alpha
            },
{
    proof {
        vstd::arithmetic::mul::lemma_mul_nonnegative(width as int, height as int);
    }
    let count: usize = (width as usize) * (height as usize);
    let mut v: Vec<u8> = Vec::new();
    let mut p: usize = 0;
    while p < count
        invariant
            p <= count,
            count == width * height,
            width * height * 4 <= usize::MAX,
            v@.len() == 4 * p,
            forall|q: int|
                #![trigger v@[4 * q]]
                #![trigger v@[4 * q + 1]]
                #![trigger v@[4 * q + 2]]
                #![trigger v@[4 * q + 3]]
                0 <= q < p ==> {
                    &&& v@[4 * q] == red
                    &&& v@[4 * q + 1] == green
                    &&& v@[4 * q + 2] == blue
                    &&& v@[4 * q + 3] == alpha
                },
        decreases count - p,
    {
        v.push(red);
        v.push(green);
        v.push(blue);
        v.push(alpha);
        p = p + 1;
    }
    v
}

/// The size, in bytes, of the host-visible staging buffer for one frame of
/// the given dimensions: exactly `width * height * 4`.
pub fn staging_buffer_size(width: u32, height: u32) -> (n: u64)
    requires
        width * height * 4 <= u64::MAX,
    ensures
        n == width * height * 4,
{
    proof {
        vstd::arithmetic::mul::lemma_mul_upper_bound(
            width as int,
            u32::MAX as int,
            height as int,
            u32::MAX as int,
        );
    }
    let bytes: u128 = (width as u128) * (height as u128) * 4;
    bytes as u64
}

/// The extent of the texture being read back, as the rendering subsystem
/// describes it.
pub struct TextureExtent {
    pub width: u32,
    pub height: u32,
    pub depth_or_array_layers: u32,
}

/// The byte layout of a texture-to-buffer copy. A `None` stride means the
/// field is irrelevant for the extent at hand (a single row, or a single
/// layer) and the copy command may ignore it.
pub struct ImageByteLayout {
    pub offset: u64,
    pub bytes_per_row: Option<u32>,
    pub rows_per_image: Option<u32>,
}

/// The copy layout for reading back a texture of the given extent and texel
/// block size: `bytes_per_row = width * block_size`, only meaningful when
/// there is more than one row, and `rows_per_image = height`, only meaningful
/// when there is more than one layer. A zero stride is expressed as absence.
pub fn texture_image_layout(size: TextureExtent, block_size: u32) -> (r: ImageByteLayout)
    requires
        size.width * block_size <= u32::MAX,
    ensures
        r.offset == 0,
        r.bytes_per_row == (if size.height > 1 && size.width * block_size != 0 {
            Some((size.width * block_size) as u32)
        } else {
            None::<u32>
        }),
        r.rows_per_image == (if size.depth_or_array_layers > 1 && size.height != 0 {
            Some(size.height)
        } else {
            None::<u32>
        }),
{
    let row_bytes: u32 = size.width * block_size;
    ImageByteLayout {
        offset: 0,
        bytes_per_row: if size.height > 1 && row_bytes != 0 {
            Some(row_bytes)
        } else {
            None
        },
        rows_per_image: if size.depth_or_array_layers > 1 && size.height != 0 {
            Some(size.height)
        } else {
            None
        },
    }
}

/// A capture that cannot be published. The capture device's own failures
/// (a failed copy or map) are fatal before this point; this error names the
/// one thing the bridge itself can still reject — a buffer that does not
/// match the configured dimensions.
#[derive(Clone, Copy, Debug, PartialEq, Eq, Structural)]
pub enum CaptureError {
    BadFrameData,
}

/// The state after the capture pipeline publishes a frame: the previous
/// frame, if any, is overwritten; nothing else moves.
pub open spec fn with_frame<T>(s: GymStateView<T>, f: FrameView) -> GymStateView<T> {
    GymStateView { frame: Some(f), ..s }
}

/// Publishes the bytes read back from the staging buffer as the current
/// frame. Accepts exactly a buffer of `width * height * 4` bytes for nonzero
/// dimensions; on a mismatch the state is left untouched and the caller must
/// treat the capture as failed.
pub fn publish_captured<T>(
    state: &mut AIGymState<T>,
    width: u32,
    height: u32,
    bytes: Vec<u8>,
) -> (r: Result<(), CaptureError>)
    ensures
        match r {
            Ok(()) => {
                &&& (FrameView { width, height, pixels: bytes@ }).wf()
                &&& final(state)@ == with_frame(
                    old(state)@,
                    FrameView { width, height, pixels: bytes@ },
                )
                &&& (state_wf(old(state)@) ==> state_wf(final(state)@))
            },
            Err(CaptureError::BadFrameData) => {
                &&& !(FrameView { width, height, pixels: bytes@ }).wf()
                &&& final(state)@ == old(state)@
            },
        },
{
    match Frame::from_raw(width, height, bytes) {
        Some(f) => {
            state.frame = Some(f);
            Ok(())
        },
        None => Err(CaptureError::BadFrameData),
    }
}

} // verus!
