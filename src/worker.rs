use vstd::prelude::*;
use crate::config::CaptureConfig;
use crate::delay::{spec_target_size, step_held, step_out, DelayBuffer};
use crate::error::CaptureError;
use crate::frame::{frame_len, CameraFrame};

verus! {

/// What the worker does with one read from the capture process.
#[derive(Debug)]
pub enum WorkerOutput {
    /// Show this frame now (the delay has passed for it).
    Emit(CameraFrame),
    /// The frame was buffered; nothing to show yet.
    Hold,
    /// The stream is over: terminate the process and exit.
    Finish(CaptureError),
}

impl WorkerOutput {
    /// Whether the worker must leave its read loop after this output.
    pub fn ends_stream(&self) -> (r: bool)
        ensures
            r == (self is Finish),
    {
        matches!(self, WorkerOutput::Finish(_))
    }
}

/// The worker's own state: frame size and the delay buffer. The capture process
/// and its pipes stay with the thread that runs the worker.
pub struct StreamWorker {
    width: u32,
    height: u32,
    buffer: DelayBuffer<CameraFrame>,
}

impl StreamWorker {
    pub closed spec fn width(&self) -> u32 {
        self.width
    }

    pub closed spec fn height(&self) -> u32 {
        self.height
    }

    /// Frames waiting out the delay, oldest first.
    pub closed spec fn held(&self) -> Seq<CameraFrame> {
        self.buffer.contents()
    }

    pub closed spec fn target(&self) -> nat {
        self.buffer.target()
    }

    /// The buffer is within its bound and holds only complete frames of the
    /// worker's size.
    pub open spec fn wf(&self) -> bool {
        &&& self.buffer_wf()
        &&& forall|i: int|
            0 <= i < self.held().len() ==> #[trigger] self.held()[i].is_complete()
                && self.held()[i].width == self.width() && self.held()[i].height == self.height()
    }

    pub closed spec fn buffer_wf(&self) -> bool {
        self.buffer.wf()
    }

    /// A worker for `config`, with an empty delay buffer.
    pub fn new(config: &CaptureConfig) -> (r: StreamWorker)
        ensures
            r.wf(),
            r.width() == config.width,
            r.height() == config.height,
            r.held() == Seq::<CameraFrame>::empty(),
            r.target() == spec_target_size(config.delay_seconds, config.frame_rate),
    {
        StreamWorker {
            width: config.width,
            height: config.height,
            buffer: DelayBuffer::with_delay(config.delay_seconds, config.frame_rate),
        }
    }

    pub fn held_count(&self) -> (r: usize)
        ensures
            r == self.held().len(),
    {
        self.buffer.len()
    }

    /// Handles the bytes of one read attempt. Exactly one frame's worth makes a
    /// frame that goes through the delay buffer; anything shorter ends the stream
    /// with a short read, and no partial frame is ever shown.
    pub fn on_read(&mut self, bytes: Vec<u8>, timestamp: u64) -> (r: WorkerOutput)
        requires
            old(self).wf(),
        ensures
            final(self).wf(),
            final(self).width() == old(self).width(),
            final(self).height() == old(self).height(),
            final(self).target() == old(self).target(),
            r matches WorkerOutput::Emit(f) ==> f.is_complete() && f.width == old(self).width()
                && f.height == old(self).height(),
            bytes@.len() == frame_len(old(self).width(), old(self).height()) ==> {
                let f = CameraFrame {
                    width: old(self).width(),
                    height: old(self).height(),
                    data: bytes,
                    timestamp,
                };
                &&& final(self).held() == step_held(old(self).target(), old(self).held(), f)
                &&& match step_out(old(self).target(), old(self).held(), f) {
                    Some(x) => r == WorkerOutput::Emit(x),
                    None => r is Hold,
                }
            },
            bytes@.len() != frame_len(old(self).width(), old(self).height()) ==> {
                &&& final(self).held() == old(self).held()
                &&& r == WorkerOutput::Finish(
                    CaptureError::ShortRead {
                        expected: frame_len(old(self).width(), old(self).height()) as u128,
                        got: bytes.len(),
                    },
                )
            },
    {
        match CameraFrame::from_raw(self.width, self.height, bytes, timestamp) {
            Ok(frame) => {
                let ghost before = self.buffer.contents();
                let ghost all = before.push(frame);
                let out = self.buffer.push_and_maybe_pop(frame);
                assert(forall|k: int|
                    0 <= k < all.len() ==> #[trigger] all[k].is_complete() && all[k].width
                        == self.width && all[k].height == self.height) by {
                    assert(forall|k: int| 0 <= k < before.len() ==> all[k] == before[k]);
                }
                proof {
                    if before.len() + 1 > self.buffer.target() {
                        assert(all[0].is_complete());
                        assert forall|k: int| 0 <= k < self.held().len() implies #[trigger] self.held()[k].is_complete()
                            && self.held()[k].width == self.width() && self.held()[k].height
                            == self.height() by {
                            assert(self.held()[k] == all[k + 1]);
                            assert(all[k + 1].is_complete());
                        }
                    } else {
                        assert forall|k: int| 0 <= k < self.held().len() implies #[trigger] self.held()[k].is_complete()
                            && self.held()[k].width == self.width() && self.held()[k].height
                            == self.height() by {
                            assert(self.held()[k] == all[k]);
                            assert(all[k].is_complete());
                        }
                    }
                }
                match out {
                    Some(shown) => WorkerOutput::Emit(shown),
                    None => WorkerOutput::Hold,
                }
            },
            Err(e) => WorkerOutput::Finish(e),
        }
    }
}

} // verus!
