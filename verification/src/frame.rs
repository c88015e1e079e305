//! The frame model: width, height, and optionally-present raw RGBA pixel
//! bytes (4 bytes per pixel). A frame whose pixel data was never read back
//! to host memory carries `None` and is a caller error.

use vstd::prelude::*;
use crate::EncodeError;

verus! {

/// One uncompressed video frame handed to the sink by the producer.
pub struct Frame {
    /// Width in pixels.
    pub width: u32,
    /// Height in pixels.
    pub height: u32,
    /// Raw RGBA bytes, 4 per pixel, or `None` if no host-side pixel data
    /// is present.
    pub data: Option<Vec<u8>>,
}

impl Frame {
    /// The raw pixel bytes of this frame, or `EncodeError::NoPixelData`
    /// if the frame carries none.
    pub fn raw_bytes(&self) -> (r: Result<&Vec<u8>, EncodeError>)
        ensures
            self.data is Some <==> r is Ok,
            r matches Ok(b) ==> b@ == self.data->Some_0@,
            r matches Err(e) ==> e is NoPixelData,
    {
        match &self.data {
            Some(b) => Ok(b),
            None => Err(EncodeError::NoPixelData),
        }
    }
}

} // verus!
