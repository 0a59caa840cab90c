//! The device-side capabilities and the native layer behind the compiler,
//! modeled by the plain values the render pass logic reads of them: the
//! color attachment limit, the tiling granularity the driver reports, and
//! whether the bulk creation call runs out of memory.
//!
//! The real native layer is an external collaborator reached through a
//! single bulk creation call and a granularity query; this module stands
//! for it with a value type, so that everything the compiler and the
//! handle derive from the answers is stated and proved.

use vstd::prelude::*;

use crate::pack::PackedRenderPass;

verus! {

/// Memory exhaustion reported by the native layer.
#[derive(Clone, Copy, Debug, PartialEq, Eq, Structural)]
pub enum OomError {
    /// No memory available on the host.
    OutOfHostMemory,
    /// No memory available on the device.
    OutOfDeviceMemory,
}

impl OomError {
    /// The human-readable description of the error.
    pub open spec fn spec_message(self) -> Seq<char> {
        match self {
            OomError::OutOfHostMemory => "no memory available on the host"@,
            OomError::OutOfDeviceMemory => "no memory available on the device"@,
        }
    }

    /// Describes the error.
    pub fn message(&self) -> (r: &'static str)
        ensures
            r@ == self.spec_message(),
    {
        proof {
            reveal_strlit("no memory available on the host");
            reveal_strlit("no memory available on the device");
        }
        match self {
            OomError::OutOfHostMemory => "no memory available on the host",
            OomError::OutOfDeviceMemory => "no memory available on the device",
        }
    }
}

/// The opaque object the native layer hands back for a created render
/// pass, modeled by the values later queries read from it. It is owned
/// exclusively by one handle and torn down exactly once, when that handle
/// is dropped; the type is deliberately neither copyable nor clonable, so
/// a second teardown path cannot exist.
#[derive(Debug)]
pub struct NativeRenderPass {
    /// Horizontal render-area granularity the driver reports for this pass.
    pub granularity_width: u32,
    /// Vertical render-area granularity the driver reports for this pass.
    pub granularity_height: u32,
}

/// A device context: the capability values the compiler consults and the
/// behaviour of the native creation call.
#[derive(Clone, Copy, Debug)]
pub struct Device {
    /// The largest color attachment count any subpass may use.
    pub max_color_attachments: u32,
    /// Horizontal render-area granularity the driver reports.
    pub granularity_width: u32,
    /// Vertical render-area granularity the driver reports.
    pub granularity_height: u32,
    /// Whether the native creation call fails with memory exhaustion.
    pub exhausted: bool,
}

impl Device {
    /// The contract the native layer is held to: the granularity it
    /// reports is never zero in either dimension.
    pub open spec fn wf(self) -> bool {
        self.granularity_width > 0 && self.granularity_height > 0
    }

    /// Builds a device context from its capability values.
    pub fn new(
        max_color_attachments: u32,
        granularity_width: u32,
        granularity_height: u32,
        exhausted: bool,
    ) -> (r: Device)
        requires
            granularity_width > 0,
            granularity_height > 0,
        ensures
            r == (Device { max_color_attachments, granularity_width, granularity_height, exhausted }),
            r.wf(),
    {
        Device { max_color_attachments, granularity_width, granularity_height, exhausted }
    }

    /// The single bulk creation call: consumes a fully packed request and
    /// returns the native object, or the resource failure the native layer
    /// reports. No partial object exists on failure.
    pub fn create_render_pass(&self, _request: &PackedRenderPass) -> (r: Result<
        NativeRenderPass,
        OomError,
    >)
        ensures
            match r {
                Ok(native) => !self.exhausted && native.granularity_width
                    == self.granularity_width && native.granularity_height
                    == self.granularity_height,
                Err(e) => self.exhausted && e == OomError::OutOfHostMemory,
            },
    {
        if self.exhausted {
            Err(OomError::OutOfHostMemory)
        } else {
            Ok(
                NativeRenderPass {
                    granularity_width: self.granularity_width,
                    granularity_height: self.granularity_height,
                },
            )
        }
    }
}

} // verus!
