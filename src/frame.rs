use vstd::prelude::*;
use crate::error::CaptureError;

verus! {

/// Number of bytes of a packed 8-bit RGB image of the given size.
pub open spec fn frame_len(width: u32, height: u32) -> int {
    width as int * height as int * 3
}

proof fn lemma_frame_len_fits(width: u32, height: u32)
    ensures
        0 <= width as int * height as int <= 0xffff_ffff * 0xffff_ffff,
        frame_len(width, height) == (width as int * height as int) * 3,
{
    assert(0 <= width as int * height as int <= 0xffff_ffff * 0xffff_ffff) by (nonlinear_arith);
}

/// Frame byte count, computed without overflow.
fn frame_len_exec(width: u32, height: u32) -> (r: u128)
    ensures
        r as int == frame_len(width, height),
{
    proof {
        lemma_frame_len_fits(width, height);
    }
    let pixels: u128 = width as u128 * height as u128;
    pixels * 3
}

/// One raw RGB image taken from the capture process.
///
/// `timestamp` is the capture time in milliseconds since the Unix epoch.
#[derive(Debug)]
pub struct CameraFrame {
    pub width: u32,
    pub height: u32,
    pub data: Vec<u8>,
    pub timestamp: u64,
}

impl CameraFrame {
    /// The pixel bytes match the frame's dimensions exactly.
    pub open spec fn is_complete(&self) -> bool {
        self.data@.len() == frame_len(self.width, self.height)
    }

    /// Builds a frame from exactly one frame's worth of bytes; anything else is
    /// a short read and no frame is made.
    pub fn from_raw(width: u32, height: u32, data: Vec<u8>, timestamp: u64) -> (r: Result<
        CameraFrame,
        CaptureError,
    >)
        ensures
            data@.len() == frame_len(width, height) <==> r is Ok,
            r matches Ok(f) ==> f.is_complete() && f == (CameraFrame {
                width,
                height,
                data,
                timestamp,
            }),
            r matches Err(e) ==> e == (CaptureError::ShortRead {
                expected: frame_len(width, height) as u128,
                got: data.len(),
            }),
    {
        let expected: u128 = frame_len_exec(width, height);
        let got: usize = data.len();
        if got as u128 == expected {
            Ok(CameraFrame { width, height, data, timestamp })
        } else {
            Err(CaptureError::ShortRead { expected, got })
        }
    }

    /// Turns what a one-shot capture process left behind into a frame: its exit
    /// status, the bytes it wrote and its diagnostic text.
    pub fn from_process_output(
        width: u32,
        height: u32,
        success: bool,
        stdout: Vec<u8>,
        stderr: String,
        timestamp: u64,
    ) -> (r: Result<CameraFrame, CaptureError>)
        ensures
            r is Ok <==> success && stdout@.len() == frame_len(width, height),
            !success ==> (r matches Err(CaptureError::ProcessFailed(msg)) && msg@ == stderr@),
            r matches Ok(f) ==> f.is_complete() && f.width == width && f.height == height
                && f.data@ == stdout@ && f.timestamp == timestamp,
            success && stdout@.len() != frame_len(width, height) ==> (r matches Err(e)
                && e.is_short_read()),
    {
        if !success {
            return Err(CaptureError::ProcessFailed(stderr));
        }
        CameraFrame::from_raw(width, height, stdout, timestamp)
    }
}

/// The opaque colour of the pixel whose RGB bytes start at `3 * i`.
pub open spec fn rgba_at(data: Seq<u8>, i: int) -> Seq<u8> {
    seq![data[3 * i], data[3 * i + 1], data[3 * i + 2], 255u8]
}

impl CameraFrame {
    /// One opaque RGBA colour per complete RGB triple of the frame, in order;
    /// trailing bytes that make no whole pixel are left out.
    pub fn to_rgba_pixels(&self) -> (r: Vec<[u8; 4]>)
        ensures
            r@.len() == self.data@.len() / 3,
            forall|i: int| 0 <= i < r@.len() ==> (#[trigger] r@[i])@ == rgba_at(self.data@, i),
    {
        let len = self.data.len();
        let count = len / 3;
        let mut pixels: Vec<[u8; 4]> = Vec::new();
        let mut i: usize = 0;
        while i < count
            invariant
                len == self.data@.len(),
                count == len / 3,
                i <= count,
                pixels@.len() == i,
                forall|k: int| 0 <= k < i ==> (#[trigger] pixels@[k])@ == rgba_at(self.data@, k),
            decreases count - i,
        {
            assert(3 * i + 2 < len) by (nonlinear_arith)
                requires
                    i < count,
                    count == len / 3,
            ;
            let base = 3 * i;
            let px = [self.data[base], self.data[base + 1], self.data[base + 2], 255u8];
            assert(px@ =~= rgba_at(self.data@, i as int));
            pixels.push(px);
            i += 1;
        }
        pixels
    }
}

/// Bytes a reader must collect for one frame, or `None` where that count does
/// not fit in memory addresses.
pub fn frame_byte_len(width: u32, height: u32) -> (r: Option<usize>)
    ensures
        r matches Some(n) ==> n as int == frame_len(width, height),
        r is None <==> frame_len(width, height) > usize::MAX,
{
    let n: u128 = frame_len_exec(width, height);
    if n <= usize::MAX as u128 {
        Some(n as usize)
    } else {
        None
    }
}

} // verus!
