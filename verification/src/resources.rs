//! Frame resources derived from the current surface dimensions: one
//! framebuffer per swapchain image, a shared depth attachment, and a viewport
//! descriptor. They are regenerated in full whenever the dimensions change and
//! are never partially updated.

use vstd::prelude::*;

verus! {

/// Surface dimensions in pixels.
#[derive(Clone, Copy, Debug, PartialEq, Eq, Structural)]
pub struct Dims {
    pub width: u32,
    pub height: u32,
}

/// The viewport derived from the surface dimensions: the whole surface,
/// anchored at the origin.
#[derive(Clone, Copy, Debug, PartialEq, Eq, Structural)]
pub struct ViewportDesc {
    pub origin_x: u32,
    pub origin_y: u32,
    pub width: u32,
    pub height: u32,
}

/// The depth attachment shared by every framebuffer, sized to the surface.
#[derive(Clone, Copy, Debug, PartialEq, Eq, Structural)]
pub struct DepthAttachment {
    pub width: u32,
    pub height: u32,
}

/// The attachments a render pass writes into for one swapchain image: the
/// image itself, identified by its index, at the surface dimensions.
#[derive(Clone, Copy, Debug, PartialEq, Eq, Structural)]
pub struct FramebufferBinding {
    pub image_index: usize,
    pub width: u32,
    pub height: u32,
}

/// Everything derived from one valid surface configuration.
#[derive(Clone, Debug)]
pub struct FrameResources {
    pub framebuffers: Vec<FramebufferBinding>,
    pub depth: DepthAttachment,
    pub viewport: ViewportDesc,
}

impl FrameResources {
    /// Exactly the resources that a surface with `image_count` images at
    /// `dims` derives: one framebuffer per image, bound to that image, all at
    /// the surface dimensions, with a matching depth attachment and viewport.
    pub open spec fn derived_from(self, image_count: nat, dims: Dims) -> bool {
        &&& self.framebuffers.len() == image_count
        &&& forall|i: int|
            0 <= i < image_count ==> self.framebuffers[i] == (FramebufferBinding {
                image_index: i as usize,
                width: dims.width,
                height: dims.height,
            })
        &&& self.depth == (DepthAttachment { width: dims.width, height: dims.height })
        &&& self.viewport == (ViewportDesc {
            origin_x: 0,
            origin_y: 0,
            width: dims.width,
            height: dims.height,
        })
    }
}

/// Derive the frame resources for a surface with `image_count` images at
/// `dims`. This is a pure function of its two arguments; it accepts any
/// dimensions, including zero-area ones, without failing.
pub fn gen_frame_resources(image_count: usize, dims: Dims) -> (r: FrameResources)
    ensures
        r.derived_from(image_count as nat, dims),
{
    let mut framebuffers: Vec<FramebufferBinding> = Vec::new();
    let mut i: usize = 0;
    while i < image_count
        invariant
            i <= image_count,
            framebuffers.len() == i,
            forall|j: int|
                0 <= j < i ==> framebuffers[j] == (FramebufferBinding {
                    image_index: j as usize,
                    width: dims.width,
                    height: dims.height,
                }),
        decreases image_count - i,
    {
        framebuffers.push(FramebufferBinding {
            image_index: i,
            width: dims.width,
            height: dims.height,
        });
        i = i + 1;
    }
    FrameResources {
        framebuffers,
        depth: DepthAttachment { width: dims.width, height: dims.height },
        viewport: ViewportDesc { origin_x: 0, origin_y: 0, width: dims.width, height: dims.height },
    }
}

/// The number of swapchain images to request: triple buffering, held to the
/// surface's capabilities — no more than any maximum the surface reports,
/// and no fewer than its minimum.
pub fn requested_image_count(min_image_count: u32, max_image_count: Option<u32>) -> (n: u32)
    ensures
        match max_image_count {
            Some(limit) => n == if limit <= 3 {
                limit
            } else {
                3u32
            },
            None => n == if min_image_count >= 3 {
                min_image_count
            } else {
                3u32
            },
        },
{
    match max_image_count {
        Some(limit) => if limit <= 3 {
            limit
        } else {
            3
        },
        None => if min_image_count >= 3 {
            min_image_count
        } else {
            3
        },
    }
}

/// Regeneration is idempotent: two resource sets derived for the same image
/// count and the same dimensions are functionally equivalent — the same
/// number of framebuffers, the same binding for each image, the same depth
/// attachment and viewport.
pub proof fn lemma_regeneration_idempotent(
    a: FrameResources,
    b: FrameResources,
    image_count: nat,
    dims: Dims,
)
    requires
        a.derived_from(image_count, dims),
        b.derived_from(image_count, dims),
    ensures
        a.framebuffers@ == b.framebuffers@,
        a.depth == b.depth,
        a.viewport == b.viewport,
{
    assert(a.framebuffers@ =~= b.framebuffers@);
}

} // verus!
