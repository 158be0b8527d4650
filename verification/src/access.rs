use vstd::prelude::*;

verus! {

// Pipeline stage bits, as the underlying API numbers them.
pub const STAGE_TOP_OF_PIPE: u32 = 0x1;
pub const STAGE_VERTEX_INPUT: u32 = 0x4;
pub const STAGE_VERTEX_SHADER: u32 = 0x8;
pub const STAGE_FRAGMENT_SHADER: u32 = 0x80;
pub const STAGE_EARLY_FRAGMENT_TESTS: u32 = 0x100;
pub const STAGE_LATE_FRAGMENT_TESTS: u32 = 0x200;
pub const STAGE_COLOR_ATTACHMENT_OUTPUT: u32 = 0x400;
pub const STAGE_COMPUTE_SHADER: u32 = 0x800;
pub const STAGE_TRANSFER: u32 = 0x1000;
pub const STAGE_BOTTOM_OF_PIPE: u32 = 0x2000;
pub const STAGE_HOST: u32 = 0x4000;
pub const STAGE_ALL_COMMANDS: u32 = 0x10000;

// Memory access bits, as the underlying API numbers them.
pub const ACCESS_INDEX_READ: u32 = 0x2;
pub const ACCESS_VERTEX_ATTRIBUTE_READ: u32 = 0x4;
pub const ACCESS_UNIFORM_READ: u32 = 0x8;
pub const ACCESS_SHADER_READ: u32 = 0x20;
pub const ACCESS_SHADER_WRITE: u32 = 0x40;
pub const ACCESS_COLOR_ATTACHMENT_READ: u32 = 0x80;
pub const ACCESS_COLOR_ATTACHMENT_WRITE: u32 = 0x100;
pub const ACCESS_DEPTH_STENCIL_ATTACHMENT_READ: u32 = 0x200;
pub const ACCESS_DEPTH_STENCIL_ATTACHMENT_WRITE: u32 = 0x400;
pub const ACCESS_TRANSFER_READ: u32 = 0x800;
pub const ACCESS_TRANSFER_WRITE: u32 = 0x1000;
pub const ACCESS_HOST_READ: u32 = 0x2000;
pub const ACCESS_HOST_WRITE: u32 = 0x4000;
pub const ACCESS_MEMORY_READ: u32 = 0x8000;
pub const ACCESS_MEMORY_WRITE: u32 = 0x10000;

/// How a resource is about to be used.  A barrier names the set of previous
/// accesses (possibly empty, meaning "no prior dependency") and the set of
/// next accesses; each access type resolves to a pipeline stage mask, a
/// memory access mask and an image layout through [`access_info`].
#[derive(Clone, Copy, Debug, PartialEq, Eq, Structural)]
pub enum AccessType {
    /// No access; useful for initialization barriers.
    Nothing,
    /// Read as an index buffer for drawing.
    IndexBuffer,
    /// Read as a vertex buffer for drawing.
    VertexBuffer,
    /// Read as a uniform buffer in a vertex shader.
    VertexShaderReadUniformBuffer,
    /// Read as a uniform buffer in a fragment shader.
    FragmentShaderReadUniformBuffer,
    /// Read as a sampled image or uniform texel buffer in a fragment shader.
    FragmentShaderReadSampledImage,
    /// Read by blending, logic operations or subpass load operations.
    ColorAttachmentRead,
    /// Read by depth/stencil tests or subpass load operations.
    DepthStencilAttachmentRead,
    /// Read as a uniform buffer in a compute shader.
    ComputeShaderReadUniformBuffer,
    /// Read as a sampled image or uniform texel buffer in a compute shader.
    ComputeShaderReadSampledImage,
    /// Read as the source of a transfer operation.
    TransferRead,
    /// Read on the host.
    HostRead,
    /// Read by the presentation engine.
    Present,
    /// Written as a color attachment during rendering.
    ColorAttachmentWrite,
    /// Written as a depth/stencil attachment during rendering.
    DepthStencilAttachmentWrite,
    /// Written as any resource in a compute shader.
    ComputeShaderWrite,
    /// Written as any resource in any shader.
    AnyShaderWrite,
    /// Written as the destination of a transfer operation.
    TransferWrite,
    /// Written on the host.
    HostWrite,
    /// Covers any access; a catch-all that is costly but always safe.
    General,
}

/// The layout policy a barrier requests for an image subresource.
#[derive(Clone, Copy, Debug, PartialEq, Eq, Structural)]
pub enum ImageLayout {
    /// Use the most optimal layout for each access, transitioning as needed.
    Optimal,
    /// Keep the image in the general layout, accessible by all access types.
    General,
}

/// A concrete image layout, as the underlying API knows them.
#[derive(Clone, Copy, Debug, PartialEq, Eq, Structural)]
pub enum NativeLayout {
    Undefined,
    General,
    ColorAttachmentOptimal,
    DepthStencilAttachmentOptimal,
    DepthStencilReadOnlyOptimal,
    ShaderReadOnlyOptimal,
    TransferSrcOptimal,
    TransferDstOptimal,
    PresentSrc,
}

/// The three primitive synchronization fields an access type resolves to.
#[derive(Clone, Copy, Debug, PartialEq, Eq, Structural)]
pub struct AccessInfo {
    pub stage_mask: u32,
    pub access_mask: u32,
    pub image_layout: NativeLayout,
}

/// The stage mask, access mask and optimal layout of each access type.
pub open spec fn access_info(access_type: AccessType) -> AccessInfo {
    match access_type {
        AccessType::Nothing => AccessInfo {
            stage_mask: 0,
            access_mask: 0,
            image_layout: NativeLayout::Undefined,
        },
        AccessType::IndexBuffer => AccessInfo {
            stage_mask: STAGE_VERTEX_INPUT,
            access_mask: ACCESS_INDEX_READ,
            image_layout: NativeLayout::Undefined,
        },
        AccessType::VertexBuffer => AccessInfo {
            stage_mask: STAGE_VERTEX_INPUT,
            access_mask: ACCESS_VERTEX_ATTRIBUTE_READ,
            image_layout: NativeLayout::Undefined,
        },
        AccessType::VertexShaderReadUniformBuffer => AccessInfo {
            stage_mask: STAGE_VERTEX_SHADER,
            access_mask: ACCESS_UNIFORM_READ,
            image_layout: NativeLayout::Undefined,
        },
        AccessType::FragmentShaderReadUniformBuffer => AccessInfo {
            stage_mask: STAGE_FRAGMENT_SHADER,
            access_mask: ACCESS_UNIFORM_READ,
            image_layout: NativeLayout::Undefined,
        },
        AccessType::FragmentShaderReadSampledImage => AccessInfo {
            stage_mask: STAGE_FRAGMENT_SHADER,
            access_mask: ACCESS_SHADER_READ,
            image_layout: NativeLayout::ShaderReadOnlyOptimal,
        },
        AccessType::ColorAttachmentRead => AccessInfo {
            stage_mask: STAGE_COLOR_ATTACHMENT_OUTPUT,
            access_mask: ACCESS_COLOR_ATTACHMENT_READ,
            image_layout: NativeLayout::ColorAttachmentOptimal,
        },
        AccessType::DepthStencilAttachmentRead => AccessInfo {
            stage_mask: STAGE_EARLY_FRAGMENT_TESTS | STAGE_LATE_FRAGMENT_TESTS,
            access_mask: ACCESS_DEPTH_STENCIL_ATTACHMENT_READ,
            image_layout: NativeLayout::DepthStencilReadOnlyOptimal,
        },
        AccessType::ComputeShaderReadUniformBuffer => AccessInfo {
            stage_mask: STAGE_COMPUTE_SHADER,
            access_mask: ACCESS_UNIFORM_READ,
            image_layout: NativeLayout::Undefined,
        },
        AccessType::ComputeShaderReadSampledImage => AccessInfo {
            stage_mask: STAGE_COMPUTE_SHADER,
            access_mask: ACCESS_SHADER_READ,
            image_layout: NativeLayout::ShaderReadOnlyOptimal,
        },
        AccessType::TransferRead => AccessInfo {
            stage_mask: STAGE_TRANSFER,
            access_mask: ACCESS_TRANSFER_READ,
            image_layout: NativeLayout::TransferSrcOptimal,
        },
        AccessType::HostRead => AccessInfo {
            stage_mask: STAGE_HOST,
            access_mask: ACCESS_HOST_READ,
            image_layout: NativeLayout::General,
        },
        AccessType::Present => AccessInfo {
            stage_mask: 0,
            access_mask: 0,
            image_layout: NativeLayout::PresentSrc,
        },
        AccessType::ColorAttachmentWrite => AccessInfo {
            stage_mask: STAGE_COLOR_ATTACHMENT_OUTPUT,
            access_mask: ACCESS_COLOR_ATTACHMENT_WRITE,
            image_layout: NativeLayout::ColorAttachmentOptimal,
        },
        AccessType::DepthStencilAttachmentWrite => AccessInfo {
            stage_mask: STAGE_EARLY_FRAGMENT_TESTS | STAGE_LATE_FRAGMENT_TESTS,
            access_mask: ACCESS_DEPTH_STENCIL_ATTACHMENT_WRITE,
            image_layout: NativeLayout::DepthStencilAttachmentOptimal,
        },
        AccessType::ComputeShaderWrite => AccessInfo {
            stage_mask: STAGE_COMPUTE_SHADER,
            access_mask: ACCESS_SHADER_WRITE,
            image_layout: NativeLayout::General,
        },
        AccessType::AnyShaderWrite => AccessInfo {
            stage_mask: STAGE_ALL_COMMANDS,
            access_mask: ACCESS_SHADER_WRITE,
            image_layout: NativeLayout::General,
        },
        AccessType::TransferWrite => AccessInfo {
            stage_mask: STAGE_TRANSFER,
            access_mask: ACCESS_TRANSFER_WRITE,
            image_layout: NativeLayout::TransferDstOptimal,
        },
        AccessType::HostWrite => AccessInfo {
            stage_mask: STAGE_HOST,
            access_mask: ACCESS_HOST_WRITE,
            image_layout: NativeLayout::General,
        },
        AccessType::General => AccessInfo {
            stage_mask: STAGE_ALL_COMMANDS,
            access_mask: ACCESS_MEMORY_READ | ACCESS_MEMORY_WRITE,
            image_layout: NativeLayout::General,
        },
    }
}

/// Whether an access type writes memory.  Only writes need their effects
/// made available by a barrier; read-after-read needs no memory dependency.
pub open spec fn is_write(access_type: AccessType) -> bool {
    match access_type {
        AccessType::ColorAttachmentWrite => true,
        AccessType::DepthStencilAttachmentWrite => true,
        AccessType::ComputeShaderWrite => true,
        AccessType::AnyShaderWrite => true,
        AccessType::TransferWrite => true,
        AccessType::HostWrite => true,
        AccessType::General => true,
        _ => false,
    }
}

/// The concrete layout an access settles in under a layout policy.
pub open spec fn layout_for(policy: ImageLayout, access_type: AccessType) -> NativeLayout {
    match policy {
        ImageLayout::General => {
            if access_type == AccessType::Present {
                NativeLayout::PresentSrc
            } else {
                NativeLayout::General
            }
        },
        ImageLayout::Optimal => access_info(access_type).image_layout,
    }
}

/// Resolves an access type to its stage mask, access mask and optimal layout.
pub fn get_access_info(access_type: AccessType) -> (r: AccessInfo)
    ensures
        r == access_info(access_type),
{
    match access_type {
        AccessType::Nothing => AccessInfo {
            stage_mask: 0,
            access_mask: 0,
            image_layout: NativeLayout::Undefined,
        },
        AccessType::IndexBuffer => AccessInfo {
            stage_mask: STAGE_VERTEX_INPUT,
            access_mask: ACCESS_INDEX_READ,
            image_layout: NativeLayout::Undefined,
        },
        AccessType::VertexBuffer => AccessInfo {
            stage_mask: STAGE_VERTEX_INPUT,
            access_mask: ACCESS_VERTEX_ATTRIBUTE_READ,
            image_layout: NativeLayout::Undefined,
        },
        AccessType::VertexShaderReadUniformBuffer => AccessInfo {
            stage_mask: STAGE_VERTEX_SHADER,
            access_mask: ACCESS_UNIFORM_READ,
            image_layout: NativeLayout::Undefined,
        },
        AccessType::FragmentShaderReadUniformBuffer => AccessInfo {
            stage_mask: STAGE_FRAGMENT_SHADER,
            access_mask: ACCESS_UNIFORM_READ,
            image_layout: NativeLayout::Undefined,
        },
        AccessType::FragmentShaderReadSampledImage => AccessInfo {
            stage_mask: STAGE_FRAGMENT_SHADER,
            access_mask: ACCESS_SHADER_READ,
            image_layout: NativeLayout::ShaderReadOnlyOptimal,
        },
        AccessType::ColorAttachmentRead => AccessInfo {
            stage_mask: STAGE_COLOR_ATTACHMENT_OUTPUT,
            access_mask: ACCESS_COLOR_ATTACHMENT_READ,
            image_layout: NativeLayout::ColorAttachmentOptimal,
        },
        AccessType::DepthStencilAttachmentRead => AccessInfo {
            stage_mask: STAGE_EARLY_FRAGMENT_TESTS | STAGE_LATE_FRAGMENT_TESTS,
            access_mask: ACCESS_DEPTH_STENCIL_ATTACHMENT_READ,
            image_layout: NativeLayout::DepthStencilReadOnlyOptimal,
        },
        AccessType::ComputeShaderReadUniformBuffer => AccessInfo {
            stage_mask: STAGE_COMPUTE_SHADER,
            access_mask: ACCESS_UNIFORM_READ,
            image_layout: NativeLayout::Undefined,
        },
        AccessType::ComputeShaderReadSampledImage => AccessInfo {
            stage_mask: STAGE_COMPUTE_SHADER,
            access_mask: ACCESS_SHADER_READ,
            image_layout: NativeLayout::ShaderReadOnlyOptimal,
        },
        AccessType::TransferRead => AccessInfo {
            stage_mask: STAGE_TRANSFER,
            access_mask: ACCESS_TRANSFER_READ,
            image_layout: NativeLayout::TransferSrcOptimal,
        },
        AccessType::HostRead => AccessInfo {
            stage_mask: STAGE_HOST,
            access_mask: ACCESS_HOST_READ,
            image_layout: NativeLayout::General,
        },
        AccessType::Present => AccessInfo {
            stage_mask: 0,
            access_mask: 0,
            image_layout: NativeLayout::PresentSrc,
        },
        AccessType::ColorAttachmentWrite => AccessInfo {
            stage_mask: STAGE_COLOR_ATTACHMENT_OUTPUT,
            access_mask: ACCESS_COLOR_ATTACHMENT_WRITE,
            image_layout: NativeLayout::ColorAttachmentOptimal,
        },
        AccessType::DepthStencilAttachmentWrite => AccessInfo {
            stage_mask: STAGE_EARLY_FRAGMENT_TESTS | STAGE_LATE_FRAGMENT_TESTS,
            access_mask: ACCESS_DEPTH_STENCIL_ATTACHMENT_WRITE,
            image_layout: NativeLayout::DepthStencilAttachmentOptimal,
        },
        AccessType::ComputeShaderWrite => AccessInfo {
            stage_mask: STAGE_COMPUTE_SHADER,
            access_mask: ACCESS_SHADER_WRITE,
            image_layout: NativeLayout::General,
        },
        AccessType::AnyShaderWrite => AccessInfo {
            stage_mask: STAGE_ALL_COMMANDS,
            access_mask: ACCESS_SHADER_WRITE,
            image_layout: NativeLayout::General,
        },
        AccessType::TransferWrite => AccessInfo {
            stage_mask: STAGE_TRANSFER,
            access_mask: ACCESS_TRANSFER_WRITE,
            image_layout: NativeLayout::TransferDstOptimal,
        },
        AccessType::HostWrite => AccessInfo {
            stage_mask: STAGE_HOST,
            access_mask: ACCESS_HOST_WRITE,
            image_layout: NativeLayout::General,
        },
        AccessType::General => AccessInfo {
            stage_mask: STAGE_ALL_COMMANDS,
            access_mask: ACCESS_MEMORY_READ | ACCESS_MEMORY_WRITE,
            image_layout: NativeLayout::General,
        },
    }
}

/// Whether an access type writes memory.
pub fn is_write_access(access_type: AccessType) -> (r: bool)
    ensures
        r == is_write(access_type),
{
    match access_type {
        AccessType::ColorAttachmentWrite => true,
        AccessType::DepthStencilAttachmentWrite => true,
        AccessType::ComputeShaderWrite => true,
        AccessType::AnyShaderWrite => true,
        AccessType::TransferWrite => true,
        AccessType::HostWrite => true,
        AccessType::General => true,
        _ => false,
    }
}

} // verus!
