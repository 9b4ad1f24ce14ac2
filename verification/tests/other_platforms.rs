use wgpu_external_frame::io_surface::{
    IoSurfaceFrame, IoSurfaceImport, IoSurfaceRejection, IoSurfaceTexture, MetalPixelFormat,
    MetalStorageMode, MetalTextureRequest, MetalTextureType, MetalTextureUsage,
};
use wgpu_external_frame::shared_handle::{
    duplicate_options, DuplicateOptions, OpenedHandle, SharedHandleFrame, SharedHandleRejection,
};
use wgpu_external_frame::texture::{
    AstcBlock, AstcChannel, Label, TextureFormat, TextureRequest, TextureUsage,
};

const COPY_SRC: TextureUsage =
    TextureUsage { copy_src: true, copy_dst: false, texture_binding: false };

#[test]
fn a_surface_keeps_what_it_was_retained_with() {
    let frame = IoSurfaceFrame::retain("surface", 640, 480, TextureFormat::Bgra8Unorm);
    assert_eq!(*frame.surface(), "surface");
    assert_eq!((frame.width(), frame.height()), (640, 480));
    assert_eq!(frame.format(), TextureFormat::Bgra8Unorm);
}

#[test]
fn a_surface_imports_at_its_own_extent() {
    let frame = IoSurfaceFrame::retain((), 640, 480, TextureFormat::Rgba8Unorm);
    assert_eq!(
        frame.import(Some(true)),
        Ok(IoSurfaceImport {
            metal: MetalTextureRequest {
                width: 640,
                height: 480,
                texture_type: MetalTextureType::Type2d,
                pixel_format: MetalPixelFormat::Rgba8Unorm,
                usage: MetalTextureUsage::ShaderRead,
                storage_mode: MetalStorageMode::Shared,
                plane: 0,
            },
            array_layers: 1,
            mip_levels: 1,
            copy_width: 640,
            copy_height: 480,
            copy_depth: 1,
            texture: TextureRequest::flat(
                Label::IoSurface,
                640,
                480,
                TextureFormat::Rgba8Unorm,
                COPY_SRC
            ),
        })
    );
}

#[test]
fn a_device_without_unified_memory_manages_the_surface() {
    let frame = IoSurfaceFrame::retain((), 640, 480, TextureFormat::Bgra8Unorm);
    let import = frame.import(Some(false)).unwrap();
    assert_eq!(import.metal.storage_mode, MetalStorageMode::Managed);
    assert_eq!(import.metal.pixel_format, MetalPixelFormat::Bgra8Unorm);
}

#[test]
fn a_surface_carries_two_formats() {
    let astc = TextureFormat::Astc { block: AstcBlock::B4x4, channel: AstcChannel::Hdr };
    for format in [TextureFormat::Bgra8UnormSrgb, TextureFormat::R8Unorm, astc] {
        let frame = IoSurfaceFrame::retain((), 640, 480, format);
        assert_eq!(frame.import(Some(true)), Err(IoSurfaceRejection::Format(format)));
        assert_eq!(frame.import(None), Err(IoSurfaceRejection::Format(format)));
    }
}

#[test]
fn a_surface_needs_a_metal_device() {
    let frame = IoSurfaceFrame::retain((), 640, 480, TextureFormat::Bgra8Unorm);
    assert_eq!(frame.import(None), Err(IoSurfaceRejection::OtherBackend));
}

#[test]
fn a_surface_is_adopted_as_the_texture_that_metal_made() {
    let frame = IoSurfaceFrame::retain((), 640, 480, TextureFormat::Bgra8Unorm);
    let import = frame.import(Some(true)).unwrap();
    assert_eq!(import.created(Some("metal")), Ok(IoSurfaceTexture { metal: "metal", import }));
    assert_eq!(import.created::<()>(None), Err(IoSurfaceRejection::TextureCreation));
}

#[test]
fn a_handle_is_duplicated_with_the_same_access() {
    assert_eq!(
        duplicate_options(),
        DuplicateOptions { desired_access: 0, inherit: false, same_access: true }
    );
}

#[test]
fn a_shared_frame_keeps_its_duplicate() {
    let frame =
        SharedHandleFrame::duplicate(Some(44), 640, 480, TextureFormat::Rgba16Float).unwrap();
    assert_eq!(*frame.handle(), 44);
    assert_eq!((frame.width(), frame.height()), (640, 480));
    assert_eq!(frame.format(), TextureFormat::Rgba16Float);
    let failed = SharedHandleFrame::<i32>::duplicate(None, 640, 480, TextureFormat::R8Unorm);
    assert_eq!(failed.unwrap_err(), SharedHandleRejection::Duplication);
}

#[test]
fn a_shared_resource_imports_as_it_is() {
    let frame =
        SharedHandleFrame::duplicate(Some(44), 640, 480, TextureFormat::Rgba16Float).unwrap();
    let import = frame.import(OpenedHandle::Resource("resource")).unwrap();
    assert_eq!(import.resource, "resource");
    assert_eq!(
        import.texture,
        TextureRequest::flat(Label::SharedHandle, 640, 480, TextureFormat::Rgba16Float, COPY_SRC)
    );
}

#[test]
fn failures_to_open_a_handle_are_told_apart() {
    let frame = SharedHandleFrame::duplicate(Some(44), 640, 480, TextureFormat::R8Unorm).unwrap();
    let reject = |opened: OpenedHandle<()>| frame.import(opened).unwrap_err();
    assert_eq!(reject(OpenedHandle::OtherBackend), SharedHandleRejection::OtherBackend);
    assert_eq!(reject(OpenedHandle::Failed), SharedHandleRejection::Opening);
    assert_eq!(reject(OpenedHandle::Empty), SharedHandleRejection::NoResource);
}
