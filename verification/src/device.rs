use vstd::prelude::*;

use crate::allocator::{Allocator, MemoryRequirements};
use crate::barrier::SubresourceRange;
use crate::command::{CommandStream, Extent3d};
use crate::image::{ImageType, ImageViewType};

verus! {

/// A native buffer object, as the device created it.
#[derive(Clone, Copy, Debug, PartialEq, Eq, Structural)]
pub struct BufferRecord {
    pub handle: u64,
    pub size: u64,
    pub usage: u32,
}

/// A native image object, as the device created it.
#[derive(Clone, Copy, Debug, PartialEq, Eq, Structural)]
pub struct ImageRecord {
    pub handle: u64,
    pub image_type: ImageType,
    pub extent: Extent3d,
    pub format: u32,
    pub mip_levels: u32,
    pub usage: u32,
}

/// A native image view object, as the device created it.
#[derive(Clone, Copy, Debug, PartialEq, Eq, Structural)]
pub struct ViewRecord {
    pub handle: u64,
    pub image: u64,
    pub view_type: ImageViewType,
    pub range: SubresourceRange,
}

/// The device capability surface, as a ledger: native objects are fresh
/// handles, and every create and destroy is recorded so that a replay
/// against a real device can reproduce them in order.
#[derive(Debug, PartialEq)]
pub struct Device {
    /// The handle the next created object will get.
    pub next_handle: u64,
    /// The alignment the device reports for buffer memory.
    pub buffer_alignment: u64,
    /// The alignment the device reports for image memory.
    pub image_alignment: u64,
    /// Every buffer created so far, oldest first.
    pub buffers: Vec<BufferRecord>,
    /// Every image created so far, oldest first.
    pub images: Vec<ImageRecord>,
    /// Every image view created so far, oldest first.
    pub views: Vec<ViewRecord>,
    /// The handles destroyed so far, oldest first.
    pub destroyed: Vec<u64>,
}

impl Device {
    /// The device reports a positive alignment for every resource kind.
    pub open spec fn wf(&self) -> bool {
        &&& self.buffer_alignment >= 1
        &&& self.image_alignment >= 1
    }

    /// A fresh device ledger with the given reported alignments.
    pub fn new(buffer_alignment: u64, image_alignment: u64) -> (r: Device)
        requires
            buffer_alignment >= 1,
            image_alignment >= 1,
        ensures
            r.wf(),
            r.next_handle == 0,
            r.buffer_alignment == buffer_alignment,
            r.image_alignment == image_alignment,
            r.buffers@ =~= Seq::<BufferRecord>::empty(),
            r.images@ =~= Seq::<ImageRecord>::empty(),
            r.views@ =~= Seq::<ViewRecord>::empty(),
            r.destroyed@ =~= Seq::<u64>::empty(),
    {
        Device {
            next_handle: 0,
            buffer_alignment,
            image_alignment,
            buffers: Vec::new(),
            images: Vec::new(),
            views: Vec::new(),
            destroyed: Vec::new(),
        }
    }

    /// Creates a native buffer object of the given size and usage.
    pub fn create_buffer(&mut self, size: u64, usage: u32) -> (handle: u64)
        requires
            old(self).next_handle < u64::MAX,
        ensures
            handle == old(self).next_handle,
            final(self).next_handle == old(self).next_handle + 1,
            final(self).buffers@ =~= old(self).buffers@.push(BufferRecord { handle, size, usage }),
            final(self).buffer_alignment == old(self).buffer_alignment,
            final(self).image_alignment == old(self).image_alignment,
            final(self).images@ =~= old(self).images@,
            final(self).views@ =~= old(self).views@,
            final(self).destroyed@ =~= old(self).destroyed@,
    {
        let handle = self.next_handle;
        self.next_handle = self.next_handle + 1;
        self.buffers.push(BufferRecord { handle, size, usage });
        handle
    }

    /// Creates a native image object.
    pub fn create_image(
        &mut self,
        image_type: ImageType,
        extent: Extent3d,
        format: u32,
        mip_levels: u32,
        usage: u32,
    ) -> (handle: u64)
        requires
            old(self).next_handle < u64::MAX,
        ensures
            handle == old(self).next_handle,
            final(self).next_handle == old(self).next_handle + 1,
            final(self).images@ =~= old(self).images@.push(
                ImageRecord { handle, image_type, extent, format, mip_levels, usage },
            ),
            final(self).buffer_alignment == old(self).buffer_alignment,
            final(self).image_alignment == old(self).image_alignment,
            final(self).buffers@ =~= old(self).buffers@,
            final(self).views@ =~= old(self).views@,
            final(self).destroyed@ =~= old(self).destroyed@,
    {
        let handle = self.next_handle;
        self.next_handle = self.next_handle + 1;
        self.images.push(ImageRecord { handle, image_type, extent, format, mip_levels, usage });
        handle
    }

    /// Creates a native view of an image over a subresource range.
    pub fn create_image_view(
        &mut self,
        image: u64,
        view_type: ImageViewType,
        range: SubresourceRange,
    ) -> (handle: u64)
        requires
            old(self).next_handle < u64::MAX,
        ensures
            handle == old(self).next_handle,
            final(self).next_handle == old(self).next_handle + 1,
            final(self).views@ =~= old(self).views@.push(
                ViewRecord { handle, image, view_type, range },
            ),
            final(self).buffer_alignment == old(self).buffer_alignment,
            final(self).image_alignment == old(self).image_alignment,
            final(self).buffers@ =~= old(self).buffers@,
            final(self).images@ =~= old(self).images@,
            final(self).destroyed@ =~= old(self).destroyed@,
    {
        let handle = self.next_handle;
        self.next_handle = self.next_handle + 1;
        self.views.push(ViewRecord { handle, image, view_type, range });
        handle
    }

    /// Destroys a native object.  The ledger only records the destruction;
    /// the handle is never reissued.
    pub fn destroy(&mut self, handle: u64)
        ensures
            final(self).destroyed@ =~= old(self).destroyed@.push(handle),
            final(self).next_handle == old(self).next_handle,
            final(self).buffer_alignment == old(self).buffer_alignment,
            final(self).image_alignment == old(self).image_alignment,
            final(self).buffers@ =~= old(self).buffers@,
            final(self).images@ =~= old(self).images@,
            final(self).views@ =~= old(self).views@,
    {
        self.destroyed.push(handle);
    }

    /// The memory requirements the device reports for a buffer of `size`
    /// bytes.
    pub fn buffer_memory_requirements(&self, size: u64) -> (r: MemoryRequirements)
        ensures
            r == (MemoryRequirements { size, alignment: self.buffer_alignment }),
    {
        MemoryRequirements { size, alignment: self.buffer_alignment }
    }

    /// The memory requirements the device reports for an image whose base
    /// level holds `size` bytes.
    pub fn image_memory_requirements(&self, size: u64) -> (r: MemoryRequirements)
        ensures
            r == (MemoryRequirements { size, alignment: self.image_alignment }),
    {
        MemoryRequirements { size, alignment: self.image_alignment }
    }
}

/// Everything resource creation needs: an open command-recording scope, the
/// device capability surface, and exclusive use of the memory allocator.
#[derive(Debug, PartialEq)]
pub struct InitResources {
    pub commands: CommandStream,
    pub device: Device,
    pub allocator: Allocator,
}

impl InitResources {
    pub open spec fn wf(&self) -> bool {
        self.device.wf()
    }
}

} // verus!
