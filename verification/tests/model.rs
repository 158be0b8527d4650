use vk_helpers::access::{
    get_access_info, is_write_access, AccessType, ImageLayout, NativeLayout,
    ACCESS_MEMORY_READ, ACCESS_MEMORY_WRITE, ACCESS_SHADER_READ, ACCESS_TRANSFER_READ,
    ACCESS_TRANSFER_WRITE, STAGE_ALL_COMMANDS, STAGE_BOTTOM_OF_PIPE, STAGE_FRAGMENT_SHADER,
    STAGE_TOP_OF_PIPE, STAGE_TRANSFER,
};
use vk_helpers::barrier::{resolve_image_barrier, ImageAspect, ImageBarrier, SubresourceRange};
use vk_helpers::error::Error;
use vk_helpers::image::{ty_from_view_ty, ImageType, ImageViewType};
use vk_helpers::pipeline::{
    CompareOp, CullMode, DepthStencilState, DynamicState, GraphicsPipelineDescriptor, PolygonMode,
    PrimitiveState, PrimitiveTopology, VertexInputBindingDescription, VertexInputRate,
};
use vk_helpers::shader::decode_spirv_words;
use vk_helpers::vertex::{
    create_vertex_attribute_descriptions, VertexAttribute, VertexInputAttributeDescription,
};

fn level_range(level: u32) -> SubresourceRange {
    SubresourceRange {
        aspect: ImageAspect::Color,
        base_mip_level: level,
        level_count: 1,
        layer_count: 1,
    }
}

#[test]
fn access_info_maps_transfer_accesses() {
    let read = get_access_info(AccessType::TransferRead);
    assert_eq!(read.stage_mask, STAGE_TRANSFER);
    assert_eq!(read.access_mask, ACCESS_TRANSFER_READ);
    assert_eq!(read.image_layout, NativeLayout::TransferSrcOptimal);

    let write = get_access_info(AccessType::TransferWrite);
    assert_eq!(write.stage_mask, STAGE_TRANSFER);
    assert_eq!(write.access_mask, ACCESS_TRANSFER_WRITE);
    assert_eq!(write.image_layout, NativeLayout::TransferDstOptimal);
}

#[test]
fn access_info_maps_shader_read_and_general() {
    let sampled = get_access_info(AccessType::FragmentShaderReadSampledImage);
    assert_eq!(sampled.stage_mask, STAGE_FRAGMENT_SHADER);
    assert_eq!(sampled.access_mask, ACCESS_SHADER_READ);
    assert_eq!(sampled.image_layout, NativeLayout::ShaderReadOnlyOptimal);

    let general = get_access_info(AccessType::General);
    assert_eq!(general.stage_mask, STAGE_ALL_COMMANDS);
    assert_eq!(general.access_mask, ACCESS_MEMORY_READ | ACCESS_MEMORY_WRITE);
    assert_eq!(general.image_layout, NativeLayout::General);

    let nothing = get_access_info(AccessType::Nothing);
    assert_eq!(nothing.stage_mask, 0);
    assert_eq!(nothing.access_mask, 0);
    assert_eq!(nothing.image_layout, NativeLayout::Undefined);
}

#[test]
fn write_accesses_are_exactly_the_writes() {
    assert!(is_write_access(AccessType::TransferWrite));
    assert!(is_write_access(AccessType::HostWrite));
    assert!(is_write_access(AccessType::ColorAttachmentWrite));
    assert!(is_write_access(AccessType::General));
    assert!(!is_write_access(AccessType::TransferRead));
    assert!(!is_write_access(AccessType::FragmentShaderReadSampledImage));
    assert!(!is_write_access(AccessType::Present));
    assert!(!is_write_access(AccessType::Nothing));
}

#[test]
fn resolve_write_to_read_barrier() {
    let barrier = ImageBarrier {
        previous_accesses: vec![AccessType::TransferWrite],
        next_accesses: vec![AccessType::FragmentShaderReadSampledImage],
        previous_layout: ImageLayout::Optimal,
        next_layout: ImageLayout::Optimal,
        discard_contents: false,
        image: 3,
        range: level_range(0),
    };
    let resolved = resolve_image_barrier(&barrier);
    assert_eq!(resolved.src_stage_mask, STAGE_TRANSFER);
    assert_eq!(resolved.dst_stage_mask, STAGE_FRAGMENT_SHADER);
    assert_eq!(resolved.src_access_mask, ACCESS_TRANSFER_WRITE);
    assert_eq!(resolved.dst_access_mask, ACCESS_SHADER_READ);
    assert_eq!(resolved.old_layout, NativeLayout::TransferDstOptimal);
    assert_eq!(resolved.new_layout, NativeLayout::ShaderReadOnlyOptimal);
    assert_eq!(resolved.image, 3);
}

#[test]
fn resolve_discard_starts_from_undefined_layout() {
    let barrier = ImageBarrier {
        previous_accesses: vec![AccessType::TransferWrite],
        next_accesses: vec![AccessType::TransferRead],
        previous_layout: ImageLayout::Optimal,
        next_layout: ImageLayout::Optimal,
        discard_contents: true,
        image: 1,
        range: level_range(0),
    };
    let resolved = resolve_image_barrier(&barrier);
    assert_eq!(resolved.old_layout, NativeLayout::Undefined);
    assert_eq!(resolved.new_layout, NativeLayout::TransferSrcOptimal);
}

#[test]
fn resolve_empty_accesses_default_to_pipe_ends() {
    let barrier = ImageBarrier {
        previous_accesses: Vec::new(),
        next_accesses: Vec::new(),
        previous_layout: ImageLayout::Optimal,
        next_layout: ImageLayout::Optimal,
        discard_contents: false,
        image: 1,
        range: level_range(0),
    };
    let resolved = resolve_image_barrier(&barrier);
    assert_eq!(resolved.src_stage_mask, STAGE_TOP_OF_PIPE);
    assert_eq!(resolved.dst_stage_mask, STAGE_BOTTOM_OF_PIPE);
    assert_eq!(resolved.src_access_mask, 0);
    assert_eq!(resolved.dst_access_mask, 0);
    assert_eq!(resolved.old_layout, NativeLayout::Undefined);
    assert_eq!(resolved.new_layout, NativeLayout::Undefined);
}

#[test]
fn resolve_read_before_read_needs_no_memory_access() {
    let barrier = ImageBarrier {
        previous_accesses: vec![AccessType::TransferRead],
        next_accesses: vec![AccessType::FragmentShaderReadSampledImage],
        previous_layout: ImageLayout::Optimal,
        next_layout: ImageLayout::Optimal,
        discard_contents: false,
        image: 1,
        range: level_range(0),
    };
    let resolved = resolve_image_barrier(&barrier);
    // A previous read contributes its stage but no availability operation.
    assert_eq!(resolved.src_stage_mask, STAGE_TRANSFER);
    assert_eq!(resolved.src_access_mask, 0);
}

#[test]
fn resolve_present_in_general_layout() {
    let barrier = ImageBarrier {
        previous_accesses: vec![AccessType::ColorAttachmentWrite],
        next_accesses: vec![AccessType::Present],
        previous_layout: ImageLayout::Optimal,
        next_layout: ImageLayout::General,
        discard_contents: false,
        image: 1,
        range: level_range(0),
    };
    let resolved = resolve_image_barrier(&barrier);
    assert_eq!(resolved.new_layout, NativeLayout::PresentSrc);
    assert_eq!(resolved.old_layout, NativeLayout::ColorAttachmentOptimal);
}

#[test]
fn view_types_map_to_their_base_dimensionality() {
    assert_eq!(ty_from_view_ty(ImageViewType::Type1d), ImageType::Type1d);
    assert_eq!(ty_from_view_ty(ImageViewType::Type1dArray), ImageType::Type1d);
    assert_eq!(ty_from_view_ty(ImageViewType::Type2d), ImageType::Type2d);
    assert_eq!(ty_from_view_ty(ImageViewType::Type2dArray), ImageType::Type2d);
    assert_eq!(ty_from_view_ty(ImageViewType::Cube), ImageType::Type2d);
    assert_eq!(ty_from_view_ty(ImageViewType::CubeArray), ImageType::Type2d);
    assert_eq!(ty_from_view_ty(ImageViewType::Type3d), ImageType::Type3d);
}

#[test]
fn attribute_sizes_in_bytes() {
    assert_eq!(VertexAttribute::Uint.size(), 4);
    assert_eq!(VertexAttribute::Float.size(), 4);
    assert_eq!(VertexAttribute::Vec2.size(), 8);
    assert_eq!(VertexAttribute::Vec3.size(), 12);
    assert_eq!(VertexAttribute::Vec4.size(), 16);
}

#[test]
fn attribute_descriptions_lay_out_locations_and_offsets() {
    let attributes = vec![
        vec![VertexAttribute::Vec2, VertexAttribute::Vec3, VertexAttribute::Float],
        vec![VertexAttribute::Vec4],
    ];
    let descriptions = create_vertex_attribute_descriptions(&attributes);
    assert_eq!(descriptions.len(), 4);
    let expected = vec![
        VertexInputAttributeDescription { binding: 0, location: 0, format: 103, offset: 0 },
        VertexInputAttributeDescription { binding: 0, location: 1, format: 106, offset: 8 },
        VertexInputAttributeDescription { binding: 0, location: 2, format: 100, offset: 20 },
        VertexInputAttributeDescription { binding: 1, location: 3, format: 109, offset: 0 },
    ];
    assert_eq!(descriptions, expected);
}

#[test]
fn attribute_descriptions_of_nothing_are_empty() {
    let attributes: Vec<Vec<VertexAttribute>> = Vec::new();
    assert!(create_vertex_attribute_descriptions(&attributes).is_empty());
}

#[test]
fn baked_pipeline_fixes_viewport_and_multisampling() {
    let descriptor = GraphicsPipelineDescriptor {
        primitive_state: PrimitiveState {
            cull_mode: CullMode::Back,
            topology: PrimitiveTopology::TriangleList,
            polygon_mode: PolygonMode::Fill,
        },
        depth_stencil_state: Some(DepthStencilState {
            depth_test_enable: true,
            depth_write_enable: true,
            depth_compare_op: CompareOp::Less,
        }),
        vertex_bindings: vec![VertexInputBindingDescription {
            binding: 0,
            stride: 20,
            input_rate: VertexInputRate::Vertex,
        }],
        vertex_attributes: vec![VertexInputAttributeDescription {
            binding: 0,
            location: 0,
            format: 103,
            offset: 0,
        }],
        colour_attachments: Vec::new(),
    };
    let baked = descriptor.as_baked();
    assert_eq!(baked.input_assembly.topology, PrimitiveTopology::TriangleList);
    assert_eq!(baked.rasterisation_state.cull_mode, CullMode::Back);
    assert_eq!(baked.rasterisation_state.polygon_mode, PolygonMode::Fill);
    assert_eq!(baked.viewport_state.viewport_count, 1);
    assert_eq!(baked.viewport_state.scissor_count, 1);
    assert_eq!(baked.dynamic_state.states, vec![DynamicState::Viewport, DynamicState::Scissor]);
    assert!(!baked.multisample_state.sample_shading_enable);
    assert_eq!(baked.multisample_state.rasterization_samples, 1);
    assert!(!baked.colour_blend_state.logic_op_enable);
    assert_eq!(baked.depth_stencil, descriptor.depth_stencil_state);
    assert_eq!(baked.vertex_input.bindings, descriptor.vertex_bindings);
    assert_eq!(baked.vertex_input.attributes, descriptor.vertex_attributes);

    let create = baked.as_pipeline_create_info(&vec![11, 12], 100, 200, 1);
    assert_eq!(create.stages, vec![11, 12]);
    assert_eq!(create.pipeline_layout, 100);
    assert_eq!(create.render_pass, 200);
    assert_eq!(create.subpass, 1);
    assert_eq!(create.depth_stencil, baked.depth_stencil);
    assert_eq!(create.input_assembly, baked.input_assembly);
}

#[test]
fn baked_pipeline_keeps_depth_stencil_absent() {
    let descriptor = GraphicsPipelineDescriptor {
        primitive_state: PrimitiveState {
            cull_mode: CullMode::NoCulling,
            topology: PrimitiveTopology::TriangleStrip,
            polygon_mode: PolygonMode::Line,
        },
        depth_stencil_state: None,
        vertex_bindings: Vec::new(),
        vertex_attributes: Vec::new(),
        colour_attachments: Vec::new(),
    };
    let baked = descriptor.as_baked();
    assert_eq!(baked.depth_stencil, None);
    let create = baked.as_pipeline_create_info(&Vec::new(), 1, 2, 0);
    assert_eq!(create.depth_stencil, None);
}

#[test]
fn spirv_words_decode_little_endian() {
    let bytes = [0x03u8, 0x02, 0x23, 0x07, 0x78, 0x56, 0x34, 0x12];
    let words = decode_spirv_words(&bytes).unwrap();
    assert_eq!(words, vec![0x0723_0203, 0x1234_5678]);
}

#[test]
fn spirv_words_decode_byte_swapped() {
    let bytes = [0x07u8, 0x23, 0x02, 0x03, 0x12, 0x34, 0x56, 0x78];
    let words = decode_spirv_words(&bytes).unwrap();
    assert_eq!(words, vec![0x0723_0203, 0x1234_5678]);
}

#[test]
fn spirv_rejects_ragged_length() {
    let bytes = [0x03u8, 0x02, 0x23];
    assert_eq!(decode_spirv_words(&bytes).unwrap_err(), Error::InvalidSpirvLength);
}

#[test]
fn spirv_rejects_missing_magic() {
    let bytes = [0u8, 0, 0, 0];
    assert_eq!(decode_spirv_words(&bytes).unwrap_err(), Error::InvalidSpirvMagic);
    let empty: [u8; 0] = [];
    assert_eq!(decode_spirv_words(&empty).unwrap_err(), Error::InvalidSpirvMagic);
}
