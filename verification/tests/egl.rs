use wgpu_external_frame::dma_buf::egl::{
    destroyed, egl_attributes, request_image, EglImage, EglRejection, EglStep,
    EGL_DMA_BUF_PLANE0_FD_EXT,
    EGL_DMA_BUF_PLANE0_MODIFIER_HI_EXT, EGL_DMA_BUF_PLANE0_MODIFIER_LO_EXT,
    EGL_DMA_BUF_PLANE0_OFFSET_EXT, EGL_DMA_BUF_PLANE0_PITCH_EXT, EGL_HEIGHT,
    EGL_LINUX_DMA_BUF_EXT, EGL_LINUX_DRM_FOURCC_EXT, EGL_NONE, EGL_WIDTH,
};
use wgpu_external_frame::dma_buf::gles::{
    blit_egl_image, BlitMask, BlitRejection, GlCommand, GlesDestination, Rect, TexelFilter,
};
use wgpu_external_frame::dma_buf::{
    DmaBufFormat, DmaBufFrame, DmaBufPlane, DRM_FORMAT_MOD_INVALID,
};

type Frame = DmaBufFrame<i32, ()>;

fn frame(width: u32, height: u32, modifier: u64, offset: u32, stride: u32) -> Frame {
    let planes = vec![DmaBufPlane { fd: 3, offset, stride }];
    DmaBufFrame::new(width, height, DmaBufFormat::Rgbx8, modifier, planes, None)
}

fn texture() -> GlesDestination {
    GlesDestination::Texture { name: 17, target: glow::TEXTURE_2D }
}

#[test]
fn attributes_leave_a_missing_modifier_out() {
    let list = egl_attributes(&frame(640, 480, DRM_FORMAT_MOD_INVALID, 64, 2560), 5).unwrap();
    assert_eq!(
        list,
        vec![
            EGL_WIDTH,
            640,
            EGL_HEIGHT,
            480,
            EGL_LINUX_DRM_FOURCC_EXT,
            i32::from_ne_bytes(DmaBufFormat::Rgbx8.fourcc().to_ne_bytes()),
            EGL_DMA_BUF_PLANE0_FD_EXT,
            5,
            EGL_DMA_BUF_PLANE0_OFFSET_EXT,
            64,
            EGL_DMA_BUF_PLANE0_PITCH_EXT,
            2560,
            EGL_NONE,
        ]
    );
}

#[test]
fn attributes_split_the_modifier_into_halves() {
    let modifier = 0x8123_4567_89ab_cdef;
    let list = egl_attributes(&frame(640, 480, modifier, 0, 2560), 5).unwrap();
    assert_eq!(list.len(), 17);
    assert_eq!(list[12], EGL_DMA_BUF_PLANE0_MODIFIER_LO_EXT);
    assert_eq!(list[13].to_ne_bytes(), 0x89ab_cdef_u32.to_ne_bytes());
    assert_eq!(list[14], EGL_DMA_BUF_PLANE0_MODIFIER_HI_EXT);
    assert_eq!(list[15].to_ne_bytes(), 0x8123_4567_u32.to_ne_bytes());
    assert_eq!(list[16], EGL_NONE);
    let low = u64::from(u32::from_ne_bytes(list[13].to_ne_bytes()));
    let high = u64::from(u32::from_ne_bytes(list[15].to_ne_bytes()));
    assert_eq!(high << 32 | low, modifier);
}

#[test]
fn a_zero_modifier_is_explicit() {
    let list = egl_attributes(&frame(640, 480, 0, 0, 2560), 5).unwrap();
    assert_eq!(
        list[12..],
        [
            EGL_DMA_BUF_PLANE0_MODIFIER_LO_EXT,
            0,
            EGL_DMA_BUF_PLANE0_MODIFIER_HI_EXT,
            0,
            EGL_NONE
        ]
    );
}

#[test]
fn attributes_reject_what_exceeds_a_signed_integer() {
    let big = 0x8000_0000;
    let limit = 0x7fff_ffff;
    let reject = |frame: Frame| egl_attributes(&frame, 5).unwrap_err();
    assert_eq!(reject(frame(big, 480, 0, 0, 1)), EglRejection::Width);
    assert_eq!(reject(frame(640, big, 0, 0, 1)), EglRejection::Height);
    assert_eq!(reject(frame(640, 480, 0, big, 1)), EglRejection::Offset);
    assert_eq!(reject(frame(640, 480, 0, 0, big)), EglRejection::Stride);
    assert_eq!(reject(frame(big, big, 0, big, big)), EglRejection::Width);
    let list = egl_attributes(&frame(limit, limit, 0, limit, limit), 5).unwrap();
    assert_eq!((list[1], list[3], list[9], list[11]), (i32::MAX, i32::MAX, i32::MAX, i32::MAX));
}

#[test]
fn attributes_need_one_plane() {
    let mut empty = frame(640, 480, 0, 0, 1);
    empty.planes.clear();
    assert_eq!(egl_attributes(&empty, 5).unwrap_err(), EglRejection::PlaneCount);
    let mut two = frame(640, 480, 0, 0, 1);
    two.planes.push(DmaBufPlane { fd: 4, offset: 0, stride: 1 });
    assert_eq!(egl_attributes(&two, 5).unwrap_err(), EglRejection::PlaneCount);
}

#[test]
fn an_image_is_requested_on_the_current_display() {
    let request = request_image(&frame(640, 480, 0, 64, 2560), 5, 0x1000).unwrap();
    assert_eq!(request.display, 0x1000);
    assert_eq!((request.context, request.client_buffer), (0, 0));
    assert_eq!(request.target, EGL_LINUX_DMA_BUF_EXT);
    assert_eq!(request.target, 0x3270);
    assert_eq!(request.attributes, egl_attributes(&frame(640, 480, 0, 64, 2560), 5).unwrap());
}

#[test]
fn an_image_needs_a_display_first() {
    let rejected = request_image(&frame(0x8000_0000, 480, 0, 0, 1), 5, 0).unwrap_err();
    assert_eq!(rejected, EglRejection::NoDisplay);
    let rejected = request_image(&frame(0x8000_0000, 480, 0, 0, 1), 5, 0x1000).unwrap_err();
    assert_eq!(rejected, EglRejection::Width);
}

#[test]
fn an_image_is_destroyed_where_it_was_made() {
    let request = request_image(&frame(640, 480, 0, 0, 1), 5, 0x1000).unwrap();
    let image = request.created(0x2000).unwrap();
    assert_eq!(image, EglImage { display: 0x1000, image: 0x2000 });
    let frame = frame(640, 480, 0, 0, 1);
    let steps = image.copy(&frame, texture()).unwrap();
    assert_eq!(steps.last(), Some(&EglStep::Destroy { display: 0x1000, image: 0x2000 }));
}

#[test]
fn an_image_is_destroyed_once_after_its_copy() {
    let frame = frame(640, 480, 0, 0, 1).with_visible_size(636, 478);
    let image = EglImage { display: 0x1000, image: 0x2000 };
    let steps = image.copy(&frame, texture()).unwrap();
    let mut expected: Vec<EglStep> = blit_egl_image(&frame, texture(), 0x2000)
        .unwrap()
        .into_iter()
        .map(EglStep::Gl)
        .collect();
    expected.push(EglStep::Destroy { display: 0x1000, image: 0x2000 });
    assert_eq!(steps, expected);
    assert_eq!(steps.len(), 21);
    assert_eq!(steps[4], EglStep::Gl(GlCommand::AttachImage(0x2000)));
    let region = Rect { x0: 0, y0: 0, x1: 636, y1: 478 };
    let blit = GlCommand::Blit {
        source: region,
        destination: region,
        mask: BlitMask { color: true, depth: false, stencil: false },
        filter: TexelFilter::Nearest,
    };
    assert_eq!(steps[13], EglStep::Gl(blit));
}

#[test]
fn a_copy_is_rejected_as_its_blit_is() {
    let copy = |frame: Frame, destination| {
        EglImage { display: 0x1000, image: 0x2000 }.copy(&frame, destination)
    };
    let plain = || frame(640, 480, 0, 0, 1);
    let wide = frame(0x8000_0000, 1, 0, 0, 1);
    let high = frame(1, 0x8000_0000, 0, 0, 1);
    assert_eq!(copy(wide, texture()), Err(BlitRejection::Width));
    assert_eq!(copy(high, texture()), Err(BlitRejection::Height));
    assert_eq!(copy(plain(), GlesDestination::OtherBackend), Err(BlitRejection::OtherBackend));
    assert_eq!(copy(plain(), GlesDestination::NotATexture), Err(BlitRejection::NotATexture));
    let layered = GlesDestination::Texture { name: 17, target: glow::TEXTURE_2D_ARRAY };
    assert_eq!(copy(plain(), layered), Err(BlitRejection::NotTwoDimensional));
}

#[test]
fn failures_to_create_or_destroy_an_image_are_told_apart() {
    let request = request_image(&frame(640, 480, 0, 0, 1), 5, 0x1000).unwrap();
    assert_eq!(request.created(0), Err(EglRejection::ImageCreation));
    assert_eq!(destroyed(0), Err(EglRejection::ImageDestruction));
    assert_eq!(destroyed(2), Err(EglRejection::ImageDestruction));
    assert_eq!(destroyed(1), Ok(()));
}
