//! Udev backend.

use vstd::prelude::*;

use crate::backend::drm::{OutputDevice, RenderedFrame, Screencopy};
use crate::text::clone_opt;

verus! {

/// Retry delay after a WouldBlock when trying to add a DRM device, in milliseconds.
pub const DRM_RETRY_DELAY: u64 = 250;

/// Error number of an operation which would block.
pub const WOULD_BLOCK: i32 = 11;

/// The device could not be added.
#[derive(Clone, Copy, Debug, PartialEq, Eq, Structural)]
pub enum DeviceError {
    /// The device could not be opened, with its error number.
    Open(Option<i32>),
    /// The device cannot be used for output.
    Create,
    /// There is no output device.
    Missing,
}

/// Kick off rendering for a new device, if it was added.
///
/// The result tells if a frame has to be created.
pub fn add_device(result: &Result<(), DeviceError>) -> (r: bool)
    ensures
        r == (*result is Ok),
{
    result.is_ok()
}

/// What follows a vertical blank.
#[derive(Clone, Copy, Debug, PartialEq, Eq, Structural)]
pub enum NextFrame {
    /// Draw at once.
    Now,
    /// Draw after some nanoseconds.
    After(u64),
}

/// Next frame after a vertical blank.
pub open spec fn frame_after(interval: u64, prediction: Option<u64>) -> NextFrame {
    match prediction {
        Some(prediction) if prediction < interval => NextFrame::After(
            (interval - prediction) as u64,
        ),
        _ => NextFrame::Now,
    }
}

/// Choose when to draw the next frame.
///
/// If the time needed for a frame can be predicted, drawing is delayed to be
/// done just before the next vertical blank.
pub fn next_frame(interval: u64, prediction: Option<u64>) -> (r: NextFrame)
    ensures
        r == frame_after(interval, prediction),
{
    match prediction {
        Some(prediction) => {
            if prediction < interval {
                NextFrame::After(interval - prediction)
            } else {
                NextFrame::Now
            }
        },
        None => NextFrame::Now,
    }
}

/// A frame predicted to fit between two vertical blanks is done just in time.
pub proof fn law_frame_is_in_time(interval: u64, prediction: Option<u64>)
    ensures
        frame_after(interval, prediction) matches NextFrame::After(delay) ==> prediction matches Some(
            needed,
        ) && delay + needed == interval && delay > 0,
{
}

/// Replacement of a device.
#[derive(Debug, PartialEq, Eq)]
pub struct Replacement {
    /// Registration which has to be removed.
    pub token: u64,
    /// Path of the device which has to be added again.
    pub path: String,
}

/// Udev backend shared state.
#[derive(Debug, PartialEq, Eq)]
pub struct Udev {
    /// Registrations of pending redraws.
    pub scheduled_redraws: Vec<u64>,
    pub output_device: Option<OutputDevice>,
}

impl Udev {
    /// Create the state without any device.
    pub fn new() -> (r: Udev)
        ensures
            r.scheduled_redraws.len() == 0,
            r.output_device is None,
    {
        Udev { scheduled_redraws: Vec::new(), output_device: None }
    }

    /// Whether the output's state has to be set, and whether a redraw has to be scheduled.
    pub open spec fn display_change(&self, on: bool) -> (bool, bool) {
        match self.output_device {
            Some(_) => (true, on),
            None => (false, false),
        }
    }

    /// Set output power saving state.
    ///
    /// The first value tells if the output's state has to be set, the second
    /// one if a redraw has to be scheduled at once, so vblanks start coming in
    /// again.
    pub fn set_display_status(&self, on: bool) -> (r: (bool, bool))
        ensures
            r == self.display_change(on),
            r.0 == (self.output_device is Some),
            r.1 == (self.output_device is Some && on),
    {
        match &self.output_device {
            Some(_) => (true, on),
            None => (false, false),
        }
    }

    /// Outcome of setting the output mode.
    pub open spec fn mode_outcome<E>(&self, result: Result<(), E>) -> Result<(), E> {
        match self.output_device {
            Some(_) => result,
            None => Ok(()),
        }
    }

    /// Outcome of asking for buffer formats.
    pub open spec fn feedback_outcome<T>(&self, result: Result<T, DeviceError>) -> Result<
        T,
        DeviceError,
    > {
        match self.output_device {
            Some(_) => result,
            None => Err(DeviceError::Missing),
        }
    }

    /// ID of the output device.
    pub open spec fn device_id(&self) -> Option<u64> {
        match self.output_device {
            Some(device) => Some(device.id),
            None => None,
        }
    }

    /// Set the output mode.
    ///
    /// `result` is the outcome for the output device. Without any device this
    /// always succeeds.
    pub fn set_mode<E>(&self, result: Result<(), E>) -> (r: Result<(), E>)
        ensures
            r == self.mode_outcome(result),
            r == (if self.output_device is Some {
                result
            } else {
                Ok(())
            }),
    {
        match &self.output_device {
            Some(_) => result,
            None => Ok(()),
        }
    }

    /// Frame which was rendered.
    pub open spec fn frame_of<E>(&self, result: Result<RenderedFrame, E>) -> RenderedFrame {
        match (self.output_device, result) {
            (Some(_), Ok(frame)) => frame,
            _ => RenderedFrame { gpu_fence: None, rendered: false },
        }
    }

    /// Render a frame.
    ///
    /// `result` is the outcome for the output device. Nothing is rendered
    /// without any device, or if rendering failed.
    pub fn render<E>(&self, result: Result<RenderedFrame, E>) -> (r: RenderedFrame)
        ensures
            r == self.frame_of(result),
            r == (match result {
                Ok(frame) if self.output_device is Some => frame,
                _ => (RenderedFrame { gpu_fence: None, rendered: false }),
            }),
    {
        match (&self.output_device, result) {
            (Some(_), Ok(frame)) => frame,
            _ => RenderedFrame { gpu_fence: None, rendered: false },
        }
    }

    /// Check if there is a renderer.
    pub fn renderer(&self) -> (r: bool)
        ensures
            r == (self.output_device is Some),
    {
        self.output_device.is_some()
    }

    /// Note the registration of a redraw.
    pub fn schedule_redraw(&mut self, token: u64)
        ensures
            final(self).scheduled_redraws@ == old(self).scheduled_redraws@.push(token),
            final(self).output_device == old(self).output_device,
    {
        self.scheduled_redraws.push(token);
    }

    /// Cancel all pending redraws.
    ///
    /// Returns the registrations which have to be removed, in the order of
    /// their scheduling.
    pub fn cancel_scheduled_redraws(&mut self) -> (r: Vec<u64>)
        ensures
            r@ == old(self).scheduled_redraws@,
            final(self).scheduled_redraws@ == Seq::<u64>::empty(),
            final(self).output_device == old(self).output_device,
    {
        let mut tokens: Vec<u64> = Vec::new();
        std::mem::swap(&mut tokens, &mut self.scheduled_redraws);
        tokens
    }

    /// State with a copy of the next frame requested.
    pub open spec fn with_screencopy(self, screencopy: Screencopy) -> Udev {
        match self.output_device {
            Some(device) => Udev {
                output_device: Some(OutputDevice { screencopy: Some(screencopy), ..device }),
                ..self
            },
            None => self,
        }
    }

    /// Stage a screencopy request for the next frame.
    pub fn request_screencopy(&mut self, screencopy: Screencopy)
        ensures
            *final(self) == old(self).with_screencopy(screencopy),
    {
        if let Some(mut device) = self.output_device.take() {
            device.screencopy = Some(screencopy);
            self.output_device = Some(device);
        }
    }

    /// Default dma surface feedback.
    ///
    /// `result` is the outcome for the output device.
    pub fn default_dmabuf_feedback<T>(&self, result: Result<T, DeviceError>) -> (r: Result<
        T,
        DeviceError,
    >)
        ensures
            r == self.feedback_outcome(result),
            r == (if self.output_device is Some {
                result
            } else {
                Err(DeviceError::Missing)
            }),
    {
        match &self.output_device {
            Some(_) => result,
            None => Err(DeviceError::Missing),
        }
    }

    /// State after a device was added.
    pub open spec fn with_device(self, result: Result<OutputDevice, DeviceError>) -> Udev {
        match result {
            Ok(device) => Udev { output_device: Some(device), ..self },
            Err(_) => self,
        }
    }

    /// Delay until a device is added again, in milliseconds.
    pub open spec fn retry_delay(
        result: Result<OutputDevice, DeviceError>,
        retry_on_error: bool,
    ) -> Option<u64> {
        match result {
            Err(DeviceError::Open(Some(errno))) if retry_on_error && errno == WOULD_BLOCK => Some(
                DRM_RETRY_DELAY,
            ),
            _ => None,
        }
    }

    /// Add a device.
    ///
    /// `result` is the outcome of opening the device and of setting it up. The
    /// second value is the delay until adding the device is tried again, which
    /// is done only if opening it would have blocked.
    pub fn add_device(
        &mut self,
        result: Result<OutputDevice, DeviceError>,
        retry_on_error: bool,
    ) -> (r: (Result<(), DeviceError>, Option<u64>))
        ensures
            *final(self) == old(self).with_device(result),
            r.1 == Self::retry_delay(result, retry_on_error),
            r.0 == (match result {
                Ok(_) => Ok::<(), DeviceError>(()),
                Err(err) => Err(err),
            }),
            r.1 == (if retry_on_error && result == Err::<OutputDevice, DeviceError>(
                DeviceError::Open(Some(WOULD_BLOCK)),
            ) {
                Some(DRM_RETRY_DELAY)
            } else {
                None
            }),
    {
        match result {
            Ok(device) => {
                self.output_device = Some(device);
                (Ok(()), None)
            },
            Err(err) => {
                // Retry device on WouldBlock error.
                let blocked = match err {
                    DeviceError::Open(Some(errno)) => errno == WOULD_BLOCK,
                    _ => false,
                };
                if retry_on_error && blocked {
                    (Err(err), Some(DRM_RETRY_DELAY))
                } else {
                    (Err(err), None)
                }
            },
        }
    }

    /// Registration of the output device, if it has an ID.
    pub open spec fn device_token(&self, device_id: u64) -> Option<u64> {
        match self.output_device {
            Some(device) if device.id == device_id => Some(device.token),
            _ => None,
        }
    }

    /// State without any device.
    pub open spec fn without_device(self) -> Udev {
        Udev { scheduled_redraws: self.scheduled_redraws, output_device: None }
    }

    /// Remove a device.
    ///
    /// The output device is dropped whatever its ID. Returns the registration
    /// which has to be removed, if the ID is that of the output device.
    pub fn remove_device(&mut self, device_id: u64) -> (r: Option<u64>)
        ensures
            *final(self) == old(self).without_device(),
            r == old(self).device_token(device_id),
            *final(self) == (Udev { output_device: None, ..*old(self) }),
            r == (match old(self).output_device {
                Some(device) if device.id == device_id => Some(device.token),
                _ => None,
            }),
    {
        match self.output_device.take() {
            Some(device) => {
                if device.id == device_id {
                    Some(device.token)
                } else {
                    None
                }
            },
            None => None,
        }
    }

    /// Path of the output device, if it has an ID.
    pub open spec fn device_path(&self, device_id: u64) -> Option<String> {
        match self.output_device {
            Some(device) if device.id == device_id => device.path,
            _ => None,
        }
    }

    /// Replacement of a device which has changed.
    pub open spec fn replacement(&self, device_id: u64) -> Option<Replacement> {
        match (self.device_path(device_id), self.device_token(device_id)) {
            (Some(path), Some(token)) => Some(Replacement { token, path }),
            _ => None,
        }
    }

    /// State after a device has changed.
    pub open spec fn with_device_changed(self, device_id: u64) -> Udev {
        if self.replacement(device_id) is Some {
            self.without_device()
        } else {
            self
        }
    }

    /// Replace a device which has changed.
    ///
    /// Returns what has to be removed and added again. Other devices than the
    /// output device are left alone.
    pub fn change_device(&mut self, device_id: u64) -> (r: Option<Replacement>)
        ensures
            r == old(self).replacement(device_id),
            *final(self) == old(self).with_device_changed(device_id),
            match old(self).device_path(device_id) {
                Some(path) => {
                    &&& r == Some(Replacement { token: old(self).output_device->0.token, path })
                    &&& *final(self) == (Udev { output_device: None, ..*old(self) })
                },
                None => r is None && *final(self) == *old(self),
            },
    {
        let path = match &self.output_device {
            Some(device) => if device.id == device_id {
                clone_opt(&device.path)
            } else {
                None
            },
            None => None,
        };
        match path {
            Some(path) => match self.remove_device(device_id) {
                Some(token) => Some(Replacement { token, path }),
                None => None,
            },
            None => None,
        }
    }

    /// Get the device to replace when the session becomes active again.
    pub fn active_device(&self) -> (r: Option<u64>)
        ensures
            r == self.device_id(),
            r == (match self.output_device {
                Some(device) => Some(device.id),
                None => None,
            }),
    {
        match &self.output_device {
            Some(device) => Some(device.id),
            None => None,
        }
    }
}

} // verus!
