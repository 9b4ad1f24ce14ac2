use wgpu_external_frame::dma_buf::{
    awaited, create_backend, AdapterBackend, CopyRejection, CopyStep, DmaBufFormat, DmaBufFrame,
    DmaBufImport, DmaBufImporter, DmaBufPlane, ImportPath, SubmissionFailed,
};
use wgpu_external_frame::texture::{
    Label, TextureDimension, TextureFormat, TextureRequest, TextureUsage,
};

type Frame = DmaBufFrame<i32, ()>;

fn frame() -> Frame {
    let planes = vec![DmaBufPlane { fd: 3, offset: 0, stride: 2560 }];
    DmaBufFrame::new(640, 480, DmaBufFormat::Bgrx8, 7, planes, None).with_visible_size(600, 400)
}

fn owned_texture() -> TextureRequest {
    TextureRequest {
        label: Label::OwnedDmaBuf,
        width: 600,
        height: 400,
        depth_or_array_layers: 1,
        mip_level_count: 1,
        sample_count: 1,
        dimension: TextureDimension::D2,
        format: TextureFormat::Bgra8Unorm,
        usage: TextureUsage { copy_src: false, copy_dst: true, texture_binding: true },
    }
}

#[test]
fn two_backends_import() {
    assert_eq!(create_backend(AdapterBackend::Vulkan), Some(ImportPath::Vulkan));
    assert_eq!(create_backend(AdapterBackend::Gl), Some(ImportPath::Gles));
    for backend in [
        AdapterBackend::Noop,
        AdapterBackend::Metal,
        AdapterBackend::Dx12,
        AdapterBackend::BrowserWebGpu,
    ] {
        assert_eq!(create_backend(backend), None);
    }
    assert_eq!(DmaBufImporter::new(AdapterBackend::Gl).path, ImportPath::Gles);
    assert_eq!(DmaBufImporter::new(AdapterBackend::Vulkan).path, ImportPath::Vulkan);
}

#[test]
fn a_vulkan_copy_waits_before_it_releases() {
    let importer = DmaBufImporter::new(AdapterBackend::Vulkan);
    assert_eq!(
        importer.copy_to_texture(&frame(), None).unwrap(),
        vec![
            CopyStep::CreateDestination(owned_texture()),
            CopyStep::CreateEncoder(Label::OwnedDmaBufCopy),
            CopyStep::ClearDestination,
            CopyStep::ImportImage,
            CopyStep::RecordCopy { width: 600, height: 400 },
            CopyStep::Present,
            CopyStep::Submit,
            CopyStep::AwaitSubmission,
            CopyStep::DropImport,
            CopyStep::Release,
        ]
    );
}

#[test]
fn a_gles_copy_finishes_before_it_presents() {
    let importer = DmaBufImporter::new(AdapterBackend::Gl);
    assert_eq!(
        importer.copy_to_texture(&frame(), None).unwrap(),
        vec![
            CopyStep::CreateDestination(owned_texture()),
            CopyStep::BlitImage { width: 600, height: 400 },
            CopyStep::FinishGl,
            CopyStep::Present,
            CopyStep::Release,
        ]
    );
}

#[test]
fn a_frame_that_is_not_ready_is_not_copied() {
    for backend in [AdapterBackend::Vulkan, AdapterBackend::Gl] {
        let importer = DmaBufImporter::new(backend);
        let mut fenced = frame();
        fenced.rendering_fence = Some(9);
        assert_eq!(importer.copy_to_texture(&fenced, Some(0)), Err(CopyRejection::NotReady));
        assert_eq!(importer.copy_to_texture(&fenced, Some(-1)), Err(CopyRejection::FencePoll));
        assert_eq!(
            importer.copy_to_texture(&fenced, Some(1)),
            importer.copy_to_texture(&frame(), None)
        );
    }
}

#[test]
fn a_deferred_vulkan_copy_stays_in_its_encoder() {
    assert_eq!(
        DmaBufImporter::new(AdapterBackend::Vulkan).copy_into(&frame()),
        vec![
            CopyStep::CreateEncoder(Label::DmaBufCopy),
            CopyStep::ClearDestination,
            CopyStep::ImportImage,
            CopyStep::RecordCopy { width: 600, height: 400 },
        ]
    );
}

#[test]
fn a_deferred_gles_copy_clears_before_it_blits() {
    assert_eq!(
        DmaBufImporter::new(AdapterBackend::Gl).copy_into(&frame()),
        vec![
            CopyStep::CreateEncoder(Label::DmaBufCopy),
            CopyStep::ClearDestination,
            CopyStep::Submit,
            CopyStep::BlitImage { width: 600, height: 400 },
            CopyStep::CreateEncoder(Label::DmaBufFollowUp),
        ]
    );
}

#[test]
fn the_guard_keeps_the_import_alive() {
    struct Noisy<'a>(&'a std::cell::Cell<bool>);
    impl Drop for Noisy<'_> {
        fn drop(&mut self) {
            self.0.set(true);
        }
    }
    let dropped = std::cell::Cell::new(false);
    let import = DmaBufImport::new("encoder", Some(Noisy(&dropped)));
    assert_eq!(import.encoder, "encoder");
    let guard = import.guard;
    assert!(!dropped.get());
    drop(guard);
    assert!(dropped.get());
}

#[test]
fn labels_name_what_they_are_for() {
    assert_eq!(Label::OwnedDmaBuf.text(), "wgpu_external_frame_owned_dma_buf");
    assert_eq!(Label::OwnedDmaBufCopy.text(), "wgpu_external_frame_owned_dma_buf_copy");
    assert_eq!(Label::DmaBufCopy.text(), "wgpu_external_frame_dma_buf_copy");
    assert_eq!(Label::DmaBufFollowUp.text(), "wgpu_external_frame_dma_buf_follow_up");
    assert_eq!(Label::IoSurface.text(), "wgpu_external_frame_io_surface");
    assert_eq!(Label::SharedHandle.text(), "wgpu_external_frame_shared_handle");
}

#[test]
fn a_failed_wait_ends_the_copy() {
    assert_eq!(awaited(true), Ok(()));
    assert_eq!(awaited(false), Err(SubmissionFailed));
}

#[test]
fn only_the_last_step_releases() {
    for backend in [AdapterBackend::Vulkan, AdapterBackend::Gl] {
        let importer = DmaBufImporter::new(backend);
        let steps = importer.copy_to_texture(&frame(), None).unwrap();
        let (last, before) = steps.split_last().unwrap();
        assert_eq!(*last, CopyStep::Release);
        assert!(!before.contains(&CopyStep::Release));
        let deferred = importer.copy_into(&frame());
        assert!(!deferred.contains(&CopyStep::Present));
        assert!(!deferred.contains(&CopyStep::Release));
    }
}
