//! Surface negotiation and the presentable-image chain.
//!
//! `SwapchainState` holds what the engine negotiated with the surface:
//! the pixel format (an sRGB one when offered), the image extent, the
//! driver-chosen number of presentable images, and the monotone frame
//! counter whose remainder picks the per-frame resource slot.

use vstd::prelude::*;

use crate::device::{DeviceState, GpuOp};

verus! {

/// The fixed logical resolution the engine asks the surface for.
pub const DEFAULT_WIDTH: u32 = 1024;

/// See `DEFAULT_WIDTH`.
pub const DEFAULT_HEIGHT: u32 = 768;

/// The image count the engine asks for before clamping to what the
/// surface supports.
pub const DEFAULT_IMAGE_COUNT: u32 = 3;

/// A surface or image size in pixels.
#[derive(Clone, Copy, PartialEq, Eq, Structural, Debug)]
pub struct Extent2d {
    pub width: u32,
    pub height: u32,
}

/// A pixel format the surface can present.
#[derive(Clone, Copy, PartialEq, Eq, Structural, Debug)]
pub enum Format {
    Rgba8Srgb,
    Bgra8Srgb,
    Rgba8Unorm,
    Bgra8Unorm,
}

/// Whether a format carries an sRGB channel encoding.
pub open spec fn format_is_srgb(f: Format) -> bool {
    f == Format::Rgba8Srgb || f == Format::Bgra8Srgb
}

/// What the surface reports about itself before swapchain creation.
#[derive(Clone, Copy, PartialEq, Eq, Structural, Debug)]
pub struct SurfaceCapabilities {
    /// Fewest presentable images a swapchain may have; at least 1.
    pub min_image_count: u32,
    /// Most presentable images a swapchain may have.
    pub max_image_count: u32,
    /// The surface's current size, if it has an explicit one.
    pub current_extent: Option<Extent2d>,
    /// Smallest supported extent.
    pub min_extent: Extent2d,
    /// Largest supported extent.
    pub max_extent: Extent2d,
}

impl SurfaceCapabilities {
    /// The bounds the presentation API guarantees of its own report.
    /// Extents are capped so they fit the signed 16-bit viewport
    /// coordinates.
    pub open spec fn wf(&self) -> bool {
        &&& 1 <= self.min_image_count <= self.max_image_count
        &&& self.min_extent.width <= self.max_extent.width <= 32767
        &&& self.min_extent.height <= self.max_extent.height <= 32767
        &&& match self.current_extent {
            Some(e) => {
                &&& self.min_extent.width <= e.width <= self.max_extent.width
                &&& self.min_extent.height <= e.height <= self.max_extent.height
            },
            None => true,
        }
    }

    /// The extent the swapchain is configured with: the surface's
    /// current size when it has one, else the default clamped into the
    /// supported range.
    pub open spec fn clamped_extent_spec(&self, default: Extent2d) -> Extent2d {
        match self.current_extent {
            Some(e) => e,
            None => Extent2d {
                width: min_u32(self.max_extent.width, max_u32(default.width, self.min_extent.width)),
                height: min_u32(
                    self.max_extent.height,
                    max_u32(default.height, self.min_extent.height),
                ),
            },
        }
    }

    /// The image count the swapchain is configured with: the default
    /// clamped into the supported range.
    pub open spec fn clamped_image_count_spec(&self) -> u32 {
        min_u32(self.max_image_count, max_u32(DEFAULT_IMAGE_COUNT, self.min_image_count))
    }
}

/// The smaller of two values.
pub open spec fn min_u32(a: u32, b: u32) -> u32 {
    if a <= b {
        a
    } else {
        b
    }
}

/// The larger of two values.
pub open spec fn max_u32(a: u32, b: u32) -> u32 {
    if a >= b {
        a
    } else {
        b
    }
}

/// The format the engine settles on: with no reported format list, a
/// hard-coded sRGB fallback; otherwise the first sRGB-capable entry,
/// or the first entry when none is.
pub open spec fn selected_format(formats: Option<Vec<Format>>, r: Format) -> bool {
    match formats {
        None => r == Format::Rgba8Srgb,
        Some(v) => {
            if exists|i: int| 0 <= i < v@.len() && format_is_srgb(#[trigger] v@[i]) {
                exists|i: int|
                    {
                        &&& 0 <= i < v@.len()
                        &&& format_is_srgb(#[trigger] v@[i])
                        &&& r == v@[i]
                        &&& forall|j: int| 0 <= j < i ==> !format_is_srgb(v@[j])
                    }
            } else {
                r == v@[0]
            }
        },
    }
}

/// Pick the presentation format from what the surface supports.
pub fn select_format(formats: &Option<Vec<Format>>) -> (r: Format)
    requires
        match formats {
            Some(v) => v@.len() > 0,
            None => true,
        },
    ensures
        selected_format(*formats, r),
{
    match formats {
        None => Format::Rgba8Srgb,
        Some(v) => {
            let n = v.len();
            let mut i: usize = 0;
            while i < n
                invariant
                    *formats is Some,
                    (*formats)->Some_0 == *v,
                    n == v@.len(),
                    i <= n,
                    forall|j: int| 0 <= j < i ==> !format_is_srgb(v@[j]),
                decreases n - i,
            {
                let f = v[i];
                let srgb = match f {
                    Format::Rgba8Srgb => true,
                    Format::Bgra8Srgb => true,
                    Format::Rgba8Unorm => false,
                    Format::Bgra8Unorm => false,
                };
                if srgb {
                    proof {
                        assert(format_is_srgb(v@[i as int]));
                        assert(exists|m: int| 0 <= m < v@.len() && format_is_srgb(#[trigger] v@[m]));
                        assert(exists|m: int|
                            {
                                &&& 0 <= m < v@.len()
                                &&& format_is_srgb(#[trigger] v@[m])
                                &&& f == v@[m]
                                &&& forall|j: int| 0 <= j < m ==> !format_is_srgb(v@[j])
                            });
                    }
                    return f;
                }
                i = i + 1;
            }
            v[0]
        },
    }
}

/// The slot the frame counter selects in a chain of `k` images.
pub open spec fn slot_of(i: int, k: int) -> int
    recommends
        k >= 1,
{
    i % k
}

/// The frame-slot sequence is a round robin: each frame takes the slot
/// after the previous frame's, wrapping to 0 after `k - 1`, and the
/// whole sequence repeats with period `k` — so restarting the counter
/// at any multiple of `k` replays the same slots.
pub proof fn lemma_frame_slot_round_robin(i: int, k: int)
    requires
        0 <= i,
        1 <= k,
    ensures
        0 <= slot_of(i, k) < k,
        slot_of(i + 1, k) == if slot_of(i, k) == k - 1 {
            0int
        } else {
            slot_of(i, k) + 1
        },
        slot_of(i + k, k) == slot_of(i, k),
        slot_of(i, k) == slot_of(i % k, k),
{
    assert(0 <= i % k < k) by (nonlinear_arith)
        requires
            0 <= i && 1 <= k,
    ;
    assert((i + 1) % k == if i % k == k - 1 {
        0int
    } else {
        i % k + 1
    }) by (nonlinear_arith)
        requires
            0 <= i && 1 <= k,
    ;
    assert((i + k) % k == i % k) by (nonlinear_arith)
        requires
            0 <= i && 1 <= k,
    ;
    assert((i % k) % k == i % k) by (nonlinear_arith)
        requires
            0 <= i && 1 <= k,
    ;
}

/// A viewport covering the full swapchain extent.  The depth range is
/// the fixed full range and is not modelled.
#[derive(Clone, Copy, PartialEq, Eq, Structural, Debug)]
pub struct Viewport {
    pub x: i16,
    pub y: i16,
    pub w: i16,
    pub h: i16,
}

/// The negotiated presentable-image chain.
pub struct SwapchainState {
    /// The configured image extent.
    pub extent: Extent2d,
    /// The negotiated pixel format.
    pub format: Format,
    /// Monotone counter of frames begun; its remainder picks the slot.
    pub frame_index: u64,
    /// Number of presentable images in the chain.
    pub frame_queue_size: u32,
}

impl SwapchainState {
    /// A configured swapchain has at least one image, and an extent
    /// the signed 16-bit viewport can cover.
    pub open spec fn wf(&self) -> bool {
        &&& self.frame_queue_size >= 1
        &&& self.extent.width <= 32767
        &&& self.extent.height <= 32767
    }

    /// Negotiate and configure the presentable-image chain: pick the
    /// format, clamp the default resolution and image count into what
    /// the surface supports, and configure the surface.
    pub fn new(
        device: &mut DeviceState,
        caps: SurfaceCapabilities,
        formats: &Option<Vec<Format>>,
    ) -> (r: SwapchainState)
        requires
            old(device).next_id < u64::MAX,
            caps.wf(),
            match formats {
                Some(v) => v@.len() > 0,
                None => true,
            },
        ensures
            r.wf(),
            selected_format(*formats, r.format),
            r.extent == caps.clamped_extent_spec(
                Extent2d { width: DEFAULT_WIDTH, height: DEFAULT_HEIGHT },
            ),
            r.frame_queue_size == caps.clamped_image_count_spec(),
            r.frame_index == 0,
            final(device).log@ == old(device).log@.push(GpuOp::ConfigureSwapchain(old(device).next_id)),
            final(device).next_id == old(device).next_id + 1,
            final(device).wf() == old(device).wf(),
            final(device).memory_types == old(device).memory_types,
            final(device).limits == old(device).limits,
            final(device).buffer_type_mask == old(device).buffer_type_mask,
            final(device).image_type_mask == old(device).image_type_mask,
    {
        let format = select_format(formats);

        let extent = match caps.current_extent {
            Some(e) => e,
            None => {
                let mut width = DEFAULT_WIDTH;
                if width < caps.min_extent.width {
                    width = caps.min_extent.width;
                }
                if width > caps.max_extent.width {
                    width = caps.max_extent.width;
                }
                let mut height = DEFAULT_HEIGHT;
                if height < caps.min_extent.height {
                    height = caps.min_extent.height;
                }
                if height > caps.max_extent.height {
                    height = caps.max_extent.height;
                }
                Extent2d { width, height }
            },
        };

        let mut frame_queue_size = DEFAULT_IMAGE_COUNT;
        if frame_queue_size < caps.min_image_count {
            frame_queue_size = caps.min_image_count;
        }
        if frame_queue_size > caps.max_image_count {
            frame_queue_size = caps.max_image_count;
        }

        let id = device.fresh_id();
        device.log_op(GpuOp::ConfigureSwapchain(id));

        SwapchainState { extent, format, frame_index: 0, frame_queue_size }
    }

    /// Advance the frame counter and return the slot it selects.
    pub fn next_frame_slot(&mut self) -> (slot: usize)
        requires
            old(self).wf(),
            old(self).frame_index < u64::MAX,
        ensures
            slot == slot_of(old(self).frame_index as int, old(self).frame_queue_size as int),
            slot < old(self).frame_queue_size,
            final(self).frame_index == old(self).frame_index + 1,
            final(self).extent == old(self).extent,
            final(self).format == old(self).format,
            final(self).frame_queue_size == old(self).frame_queue_size,
            final(self).wf(),
    {
        proof {
            lemma_frame_slot_round_robin(
                self.frame_index as int,
                self.frame_queue_size as int,
            );
        }
        let slot = (self.frame_index % (self.frame_queue_size as u64)) as usize;
        self.frame_index = self.frame_index + 1;
        slot
    }

    /// A viewport (and scissor rectangle) covering the whole extent.
    pub fn make_viewport(&self) -> (r: Viewport)
        requires
            self.wf(),
        ensures
            r == (Viewport {
                x: 0i16,
                y: 0i16,
                w: self.extent.width as i16,
                h: self.extent.height as i16,
            }),
    {
        Viewport { x: 0, y: 0, w: self.extent.width as i16, h: self.extent.height as i16 }
    }
}

} // verus!
