//! A captured screen image: dimensions plus a BGRA pixel buffer.
//!
//! A [`Frame`] is always complete: its buffer holds exactly four bytes for
//! every pixel of its declared dimensions. The only way to obtain one is
//! [`Frame::new`], which refuses any buffer of another length.

use vstd::prelude::*;

verus! {

/// The number of bytes a complete frame of the given dimensions holds.
pub open spec fn frame_len(width: nat, height: nat) -> nat {
    width * height * 4
}

/// What a frame is, mathematically: its dimensions and its bytes.
pub struct FrameView {
    pub width: nat,
    pub height: nat,
    pub pixels: Seq<u8>,
}

impl FrameView {
    /// The buffer holds exactly four bytes per pixel.
    pub open spec fn complete(self) -> bool {
        self.pixels.len() == frame_len(self.width, self.height)
    }

    /// Number of pixels in the frame.
    pub open spec fn pixel_count(self) -> nat {
        self.width * self.height
    }
}

/// One complete captured screen image.
#[derive(Debug, PartialEq, Eq)]
pub struct Frame {
    width: u32,
    height: u32,
    buffer: Vec<u8>,
}

impl View for Frame {
    type V = FrameView;

    closed spec fn view(&self) -> FrameView {
        FrameView { width: self.width as nat, height: self.height as nat, pixels: self.buffer@ }
    }
}

impl Clone for Frame {
    /// A copy of the frame: the same dimensions and the same bytes.
    fn clone(&self) -> (copy: Frame)
        ensures
            copy@ == self@,
    {
        proof {
            use_type_invariant(self);
        }
        let buffer = self.buffer.clone();
        assert(buffer@ =~= self.buffer@);
        Frame { width: self.width, height: self.height, buffer }
    }
}

impl Frame {
    #[verifier::type_invariant]
    closed spec fn well_formed(&self) -> bool {
        self.buffer@.len() == frame_len(self.width as nat, self.height as nat)
    }

    /// Builds a frame from raw capture data. The buffer is accepted exactly
    /// when its length is `width * height * 4`; any other buffer is rejected.
    pub fn new(width: u32, height: u32, buffer: Vec<u8>) -> (r: Option<Frame>)
        ensures
            r is Some <==> buffer@.len() == frame_len(width as nat, height as nat),
            r matches Some(f) ==> f@ == (FrameView {
                width: width as nat,
                height: height as nat,
                pixels: buffer@,
            }),
    {
        assert(width * height <= 0xffff_ffff * 0xffff_ffff) by (nonlinear_arith)
            requires
                width <= 0xffff_ffff,
                height <= 0xffff_ffff,
        ;
        let pixels: u64 = (width as u64) * (height as u64);
        let expected: u128 = (pixels as u128) * 4;
        if buffer.len() as u128 == expected {
            Some(Frame { width, height, buffer })
        } else {
            None
        }
    }

    /// Width in pixels.
    pub fn width(&self) -> (w: u32)
        ensures
            w == self@.width,
    {
        self.width
    }

    /// Height in pixels.
    pub fn height(&self) -> (h: u32)
        ensures
            h == self@.height,
    {
        self.height
    }

    /// The pixel bytes, four per pixel, row by row.
    pub fn buffer(&self) -> (b: &Vec<u8>)
        ensures
            b@ == self@.pixels,
            self@.complete(),
    {
        proof {
            use_type_invariant(self);
        }
        &self.buffer
    }

    /// Gives up the frame, returning its pixel bytes.
    pub fn into_buffer(self) -> (b: Vec<u8>)
        ensures
            b@ == self@.pixels,
            self@.complete(),
    {
        proof {
            use_type_invariant(&self);
        }
        self.buffer
    }
}

} // verus!
