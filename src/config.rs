use vstd::prelude::*;
use crate::delay::{spec_target_size, target_size};

verus! {

/// Parameters of one stream, fixed for its whole life.
#[derive(Clone, Copy, Debug, PartialEq, Eq, Structural)]
pub struct CaptureConfig {
    pub device_id: u32,
    pub width: u32,
    pub height: u32,
    /// Frames per second asked of the capture process.
    pub frame_rate: u32,
    /// Display delay in whole seconds; zero shows frames as they arrive.
    pub delay_seconds: u32,
}

impl CaptureConfig {
    pub fn new(device_id: u32, width: u32, height: u32, frame_rate: u32, delay_seconds: u32) -> (r:
        CaptureConfig)
        ensures
            r == (CaptureConfig { device_id, width, height, frame_rate, delay_seconds }),
    {
        CaptureConfig { device_id, width, height, frame_rate, delay_seconds }
    }

    /// How many frames the delay buffer holds back for this configuration.
    pub fn target_size(&self) -> (r: u64)
        ensures
            r == spec_target_size(self.delay_seconds, self.frame_rate),
            self.delay_seconds == 0 ==> r == 0,
    {
        target_size(self.delay_seconds, self.frame_rate)
    }

    /// The same configuration on another device.
    pub fn with_device(&self, device_id: u32) -> (r: CaptureConfig)
        ensures
            r == (CaptureConfig { device_id, ..*self }),
    {
        CaptureConfig { device_id, ..*self }
    }

    /// The same configuration with another delay.
    pub fn with_delay(&self, delay_seconds: u32) -> (r: CaptureConfig)
        ensures
            r == (CaptureConfig { delay_seconds, ..*self }),
    {
        CaptureConfig { delay_seconds, ..*self }
    }
}

impl Default for CaptureConfig {
    /// Device 0, 640x480 at 30 frames per second, 30 seconds of delay.
    fn default() -> (r: CaptureConfig)
        ensures
            r == (CaptureConfig {
                device_id: 0,
                width: 640,
                height: 480,
                frame_rate: 30,
                delay_seconds: 30,
            }),
    {
        CaptureConfig { device_id: 0, width: 640, height: 480, frame_rate: 30, delay_seconds: 30 }
    }
}

} // verus!
