//! The image buffer that travels through the slot.

use vstd::prelude::*;

verus! {

/// What a frame is: its dimensions, its pixel format and its pixel bytes.
pub struct FrameView {
    pub width: int,
    pub height: int,
    pub format: int,
    pub data: Seq<u8>,
}

/// One captured image: dimensions, pixel format and raw pixel bytes.
///
/// The format is a code that the device and the display agree on; nothing
/// here reads it. A frame is only ever replaced as a whole; nothing merges
/// two frames.
#[derive(Debug)]
pub struct Frame {
    pub width: i32,
    pub height: i32,
    pub format: i32,
    pub data: Vec<u8>,
}

impl View for Frame {
    type V = FrameView;

    open spec fn view(&self) -> FrameView {
        FrameView {
            width: self.width as int,
            height: self.height as int,
            format: self.format as int,
            data: self.data@,
        }
    }
}

impl FrameView {
    /// The frame that holds no image.
    pub open spec fn empty() -> FrameView {
        FrameView { width: 0, height: 0, format: 0, data: Seq::empty() }
    }

    /// Whether the frame has an area that can be drawn.
    pub open spec fn displayable(self) -> bool {
        self.width > 0 && self.height > 0
    }
}

impl Frame {
    /// A frame without an image: zero by zero, no bytes.
    pub fn empty() -> (f: Frame)
        ensures
            f@ == FrameView::empty(),
    {
        Frame { width: 0, height: 0, format: 0, data: Vec::new() }
    }

    /// A frame of the given dimensions over the given bytes, in format 0.
    pub fn new(width: i32, height: i32, data: Vec<u8>) -> (f: Frame)
        ensures
            f@ == (FrameView {
                width: width as int,
                height: height as int,
                format: 0,
                data: data@,
            }),
    {
        Frame { width, height, format: 0, data }
    }

    /// A frame of the given dimensions and format over the given bytes.
    pub fn with_format(width: i32, height: i32, format: i32, data: Vec<u8>) -> (f: Frame)
        ensures
            f@ == (FrameView {
                width: width as int,
                height: height as int,
                format: format as int,
                data: data@,
            }),
    {
        Frame { width, height, format, data }
    }

    /// Whether both dimensions are positive, so that the frame can be drawn.
    pub fn is_displayable(&self) -> (b: bool)
        ensures
            b == self@.displayable(),
    {
        self.width > 0 && self.height > 0
    }

    /// Replaces this frame's whole content by a copy of `src`, reusing the
    /// byte buffer that is already allocated.
    pub fn overwrite_from(&mut self, src: &Frame)
        ensures
            final(self)@ == src@,
    {
        self.width = src.width;
        self.height = src.height;
        self.format = src.format;
        self.data.clear();
        let n: usize = src.data.len();
        let mut i: usize = 0;
        while i < n
            invariant
                n == src.data@.len(),
                i <= n,
                self.width == src.width,
                self.height == src.height,
                self.format == src.format,
                self.data@ == src.data@.subrange(0, i as int),
            decreases n - i,
        {
            self.data.push(src.data[i]);
            i += 1;
            assert(self.data@ =~= src.data@.subrange(0, i as int));
        }
        assert(self.data@ =~= src.data@);
    }
}

impl Clone for Frame {
    /// An independent copy with the same dimensions and bytes.
    fn clone(&self) -> (f: Frame)
        ensures
            f@ == self@,
    {
        let mut f = Frame::empty();
        f.overwrite_from(self);
        f
    }
}

} // verus!
