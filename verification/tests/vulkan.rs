use ash::vk;

use wgpu_external_frame::dma_buf::vulkan::{
    create_import_image, import_dma_buf, select_memory_type, validate_import, Access,
    AllocationRequest, GiveBack, HandleType, ImageAspect, ImageCommand, ImageFormat, ImageLayout,
    ImageTiling, ImageType, ImageUsage, ImportRejection, ImportedVulkanImage,
    MemoryRequirements, Offset, PendingAllocation, PendingBinding, PendingMemory, PendingType,
    PipelineStage, PlaneLayout, QueueOwner, RecordRejection, SharingMode, SubresourceLayers,
    SubresourceRange, VulkanDevice,
};
use wgpu_external_frame::dma_buf::{
    DmaBufFormat, DmaBufFrame, DmaBufPlane, DRM_FORMAT_MOD_INVALID,
};

type Frame = DmaBufFrame<i32, ()>;

fn frame(format: DmaBufFormat, modifier: u64) -> Frame {
    let planes = vec![DmaBufPlane { fd: 3, offset: 64, stride: 2560 }];
    DmaBufFrame::new(640, 480, format, modifier, planes, None).with_visible_size(600, 400)
}

fn required_extensions() -> Vec<String> {
    [
        ash::khr::external_memory_fd::NAME,
        ash::ext::external_memory_dma_buf::NAME,
        ash::ext::image_drm_format_modifier::NAME,
    ]
    .iter()
    .map(|name| name.to_str().unwrap().to_owned())
    .collect()
}

fn device() -> VulkanDevice {
    VulkanDevice { extensions: required_extensions(), queue_family_index: 2 }
}

fn pending_memory() -> PendingMemory<i32> {
    let mut frame = frame(DmaBufFormat::Bgra8, 7);
    import_dma_buf(Some(device()), &mut frame).unwrap().created(Some(100)).unwrap()
}

#[test]
fn the_required_extensions_suffice() {
    assert_eq!(validate_import(&required_extensions(), 0), Ok(()));
    let mut more = vec![String::from("VK_KHR_swapchain")];
    more.extend(required_extensions().into_iter().rev());
    assert_eq!(validate_import(&more, 0), Ok(()));
}

#[test]
fn each_missing_extension_is_told() {
    let without = |index: usize| {
        let mut extensions = required_extensions();
        extensions.remove(index);
        validate_import(&extensions, 0).unwrap_err()
    };
    assert_eq!(without(0), ImportRejection::NoExternalMemoryFd);
    assert_eq!(without(1), ImportRejection::NoExternalMemoryDmaBuf);
    assert_eq!(without(2), ImportRejection::NoImageDrmFormatModifier);
    assert_eq!(validate_import(&vec![], 0), Err(ImportRejection::NoExternalMemoryFd));
}

#[test]
fn an_implicit_modifier_is_rejected() {
    assert_eq!(
        validate_import(&required_extensions(), DRM_FORMAT_MOD_INVALID),
        Err(ImportRejection::ImplicitModifier)
    );
    assert_eq!(
        validate_import(&vec![], DRM_FORMAT_MOD_INVALID),
        Err(ImportRejection::NoExternalMemoryFd)
    );
}

#[test]
fn device_local_memory_is_preferred() {
    let local = vk::MemoryPropertyFlags::DEVICE_LOCAL.as_raw();
    let host = vk::MemoryPropertyFlags::HOST_VISIBLE.as_raw();
    assert_eq!(select_memory_type(0b111, &vec![host, local, local]), Some(1));
    assert_eq!(select_memory_type(0b101, &vec![host, local, local]), Some(2));
    assert_eq!(select_memory_type(0b101, &vec![host, local, local | host]), Some(2));
    assert_eq!(select_memory_type(0b110, &vec![local, host, host]), Some(1));
    assert_eq!(select_memory_type(0b110, &vec![local, 0, 0]), Some(1));
}

#[test]
fn only_types_of_the_device_are_selected() {
    assert_eq!(select_memory_type(0, &vec![1, 1]), None);
    assert_eq!(select_memory_type(0b100, &vec![1, 1]), None);
    assert_eq!(select_memory_type(u32::MAX, &vec![]), None);
    let mut types = vec![0; 32];
    types[31] = 1;
    assert_eq!(select_memory_type(u32::MAX, &types), Some(31));
    assert_eq!(select_memory_type(1 << 31, &types), Some(31));
}

#[test]
fn the_image_covers_the_allocation() {
    let frame = frame(DmaBufFormat::Rgbx8, 7);
    let request = create_import_image(frame.layout(), 64, 2560);
    assert_eq!(request.handle_type, HandleType::DmaBuf);
    assert_eq!(request.modifier, 7);
    assert_eq!(
        request.plane,
        PlaneLayout { offset: 64, size: 0, row_pitch: 2560, array_pitch: 0, depth_pitch: 0 }
    );
    assert_eq!(request.image_type, ImageType::Type2d);
    assert_eq!(request.format, ImageFormat::R8G8B8A8Unorm);
    assert_eq!((request.width, request.height, request.depth), (640, 480, 1));
    assert_eq!((request.mip_levels, request.array_layers, request.samples), (1, 1, 1));
    assert_eq!(request.tiling, ImageTiling::DrmFormatModifier);
    assert_eq!(request.usage, ImageUsage::TransferSource);
    assert_eq!(request.sharing_mode, SharingMode::Exclusive);
    assert_eq!(request.initial_layout, ImageLayout::Undefined);
}

#[test]
fn image_formats_keep_the_channel_order() {
    let format = |format| create_import_image(frame(format, 7).layout(), 0, 1).format;
    assert_eq!(format(DmaBufFormat::Bgra8), ImageFormat::B8G8R8A8Unorm);
    assert_eq!(format(DmaBufFormat::Bgrx8), ImageFormat::B8G8R8A8Unorm);
    assert_eq!(format(DmaBufFormat::Rgba8), ImageFormat::R8G8B8A8Unorm);
    assert_eq!(format(DmaBufFormat::Rgbx8), ImageFormat::R8G8B8A8Unorm);
}

#[test]
fn an_import_takes_the_plane() {
    let mut frame = frame(DmaBufFormat::Bgra8, 7);
    let pending = import_dma_buf(Some(device()), &mut frame).unwrap();
    assert_eq!(pending.plane.fd, 3);
    assert_eq!(pending.queue_family_index, 2);
    assert_eq!(pending.request, create_import_image(frame.layout(), 64, 2560));
    assert!(frame.planes.is_empty());
    let again = import_dma_buf(Some(device()), &mut frame);
    assert_eq!(again.unwrap_err(), ImportRejection::NoPlane);
}

#[test]
fn a_rejected_import_leaves_the_plane() {
    let mut explicit = frame(DmaBufFormat::Bgra8, 7);
    let other = import_dma_buf(None, &mut explicit);
    assert_eq!(other.unwrap_err(), ImportRejection::OtherBackend);
    assert_eq!(explicit.planes.len(), 1);
    let mut implicit = frame(DmaBufFormat::Bgra8, DRM_FORMAT_MOD_INVALID);
    let rejected = import_dma_buf(Some(device()), &mut implicit);
    assert_eq!(rejected.unwrap_err(), ImportRejection::ImplicitModifier);
    assert_eq!(implicit.planes.len(), 1);
}

#[test]
fn an_import_runs_through() {
    let requirements = MemoryRequirements { size: 4096, type_bits: 0b0110 };
    let pending: PendingType<i32> = pending_memory().suited(requirements, Some(0b1100)).unwrap();
    assert_eq!(pending.type_bits, 0b0100);
    let (pending, fd) = pending.select(&vec![1, 1, 0, 1]).unwrap();
    assert_eq!(fd, 3);
    assert_eq!(
        pending.request,
        AllocationRequest {
            handle_type: HandleType::DmaBuf,
            dedicated_image: 100,
            size: 4096,
            memory_type_index: 2,
        }
    );
    let pending = pending.allocated(fd, Some(200)).unwrap();
    assert_eq!(pending, PendingBinding { image: 100, memory: 200, queue_family_index: 2 });
    let imported = pending.bound(true).unwrap();
    assert_eq!(
        imported,
        ImportedVulkanImage { image: 100, memory: 200, queue_family_index: 2 }
    );
    assert_eq!(
        imported.give_back(),
        vec![GiveBack::DestroyImage(100), GiveBack::FreeMemory(200)]
    );
}

#[test]
fn a_failed_creation_owes_nothing() {
    let mut frame = frame(DmaBufFormat::Bgra8, 7);
    let pending = import_dma_buf(Some(device()), &mut frame).unwrap();
    let failure = pending.created(None).unwrap_err();
    assert_eq!(failure.reason, ImportRejection::ImageCreation);
    assert_eq!(failure.give_back, vec![]);
}

#[test]
fn a_failed_query_gives_the_image_back() {
    let requirements = MemoryRequirements { size: 4096, type_bits: 1 };
    let failure = pending_memory().suited(requirements, None).unwrap_err();
    assert_eq!(failure.reason, ImportRejection::DescriptorQuery);
    assert_eq!(failure.give_back, vec![GiveBack::DestroyImage(100)]);
}

#[test]
fn disjoint_memory_types_are_incompatible() {
    let requirements = MemoryRequirements { size: 4096, type_bits: 0b01 };
    let failure = pending_memory().suited(requirements, Some(0b10)).unwrap_err();
    assert_eq!(failure.reason, ImportRejection::IncompatibleMemory);
    assert_eq!(failure.give_back, vec![]);
}

#[test]
fn a_type_that_the_device_lacks_is_not_selected() {
    let requirements = MemoryRequirements { size: 4096, type_bits: 0b100 };
    let pending = pending_memory().suited(requirements, Some(0b100)).unwrap();
    let failure = pending.select(&vec![1, 1]).unwrap_err();
    assert_eq!(failure.reason, ImportRejection::NoMemoryType);
    assert_eq!(failure.give_back, vec![]);
}

#[test]
fn a_failed_allocation_closes_the_descriptor() {
    let request = AllocationRequest {
        handle_type: HandleType::DmaBuf,
        dedicated_image: 100,
        size: 4096,
        memory_type_index: 2,
    };
    let pending = PendingAllocation { request, queue_family_index: 2 };
    let failure = pending.allocated(3, None).unwrap_err();
    assert_eq!(failure.reason, ImportRejection::Allocation);
    assert_eq!(
        failure.give_back,
        vec![GiveBack::CloseDescriptor(3), GiveBack::DestroyImage(100)]
    );
}

#[test]
fn a_failed_binding_gives_the_image_back_before_the_memory() {
    let pending = PendingBinding { image: 100, memory: 200, queue_family_index: 2 };
    let failure = pending.bound(false).unwrap_err();
    assert_eq!(failure.reason, ImportRejection::Binding);
    assert_eq!(
        failure.give_back,
        vec![GiveBack::DestroyImage(100), GiveBack::FreeMemory(200)]
    );
}

#[test]
fn a_copy_needs_a_vulkan_destination_and_encoder() {
    let imported = ImportedVulkanImage { image: 100, memory: 200, queue_family_index: 2 };
    let reject = |destination, encoder| imported.record_copy(destination, encoder, 600, 400);
    assert_eq!(reject(None, true), Err(RecordRejection::Destination));
    assert_eq!(reject(None, false), Err(RecordRejection::Destination));
    assert_eq!(reject(Some(300), false), Err(RecordRejection::Encoder));
}

#[test]
fn a_copy_takes_the_image_over_and_hands_it_back() {
    let imported = ImportedVulkanImage { image: 100, memory: 200, queue_family_index: 2 };
    let writes = Access { memory_read: false, memory_write: true, transfer_read: false };
    let reads = Access { memory_read: false, memory_write: false, transfer_read: true };
    let any = Access { memory_read: true, memory_write: true, transfer_read: false };
    let range = SubresourceRange {
        aspect: ImageAspect::Color,
        base_mip_level: 0,
        level_count: 1,
        base_array_layer: 0,
        layer_count: 1,
    };
    let layers = SubresourceLayers {
        aspect: ImageAspect::Color,
        mip_level: 0,
        base_array_layer: 0,
        layer_count: 1,
    };
    let origin = Offset { x: 0, y: 0, z: 0 };
    assert_eq!(
        imported.record_copy(Some(300), true, 600, 400).unwrap(),
        vec![
            ImageCommand::Barrier {
                image: 100,
                range,
                source_stage: PipelineStage::AllCommands,
                destination_stage: PipelineStage::Transfer,
                source_access: writes,
                destination_access: reads,
                old_layout: ImageLayout::General,
                new_layout: ImageLayout::TransferSource,
                source_owner: QueueOwner::External,
                destination_owner: QueueOwner::Family(2),
            },
            ImageCommand::Copy {
                source: 100,
                source_layout: ImageLayout::TransferSource,
                source_layers: layers,
                source_offset: origin,
                destination: 300,
                destination_layout: ImageLayout::TransferDestination,
                destination_layers: layers,
                destination_offset: origin,
                width: 600,
                height: 400,
                depth: 1,
            },
            ImageCommand::Barrier {
                image: 100,
                range,
                source_stage: PipelineStage::Transfer,
                destination_stage: PipelineStage::AllCommands,
                source_access: reads,
                destination_access: any,
                old_layout: ImageLayout::TransferSource,
                new_layout: ImageLayout::General,
                source_owner: QueueOwner::Family(2),
                destination_owner: QueueOwner::External,
            },
        ]
    );
}
