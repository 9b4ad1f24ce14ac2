use wgpu_external_frame::dma_buf::gles::{
    blit_egl_image, complete, framebuffer_created, texture_created, BlitMask, BlitRejection,
    FilterSide, FramebufferTarget, GlCommand, GlFailure, GlFramebuffer, GlTexture,
    GlesDestination, Rect, TexelFilter,
};
use wgpu_external_frame::dma_buf::symbols::{
    load_runtime, EntryPoint, Library, LibraryMissing, LoadStep, Lookup, SearchStep, SymbolSource,
};
use wgpu_external_frame::dma_buf::{DmaBufFormat, DmaBufFrame, DmaBufPlane};

type Frame = DmaBufFrame<i32, ()>;

fn frame(width: u32, height: u32) -> Frame {
    let planes = vec![DmaBufPlane { fd: 3, offset: 0, stride: 2560 }];
    DmaBufFrame::new(width, height, DmaBufFormat::Bgra8, 0, planes, None)
}

fn texture() -> GlesDestination {
    GlesDestination::Texture { name: 17, target: glow::TEXTURE_2D }
}

#[test]
fn a_blit_copies_the_visible_region_and_cleans_up() {
    let frame = frame(640, 480).with_visible_size(636, 478);
    let region = Rect { x0: 0, y0: 0, x1: 636, y1: 478 };
    assert_eq!(
        blit_egl_image(&frame, texture(), 0x2000).unwrap(),
        vec![
            GlCommand::CreateTexture,
            GlCommand::BindTexture(Some(GlTexture::Source)),
            GlCommand::SetFilter(FilterSide::Minify, TexelFilter::Nearest),
            GlCommand::SetFilter(FilterSide::Magnify, TexelFilter::Nearest),
            GlCommand::AttachImage(0x2000),
            GlCommand::CreateFramebuffer(GlFramebuffer::Read),
            GlCommand::CreateFramebuffer(GlFramebuffer::Draw),
            GlCommand::BindFramebuffer(FramebufferTarget::Read, Some(GlFramebuffer::Read)),
            GlCommand::AttachColor {
                target: FramebufferTarget::Read,
                texture: GlTexture::Source,
                attachment: 0,
                level: 0,
            },
            GlCommand::RequireComplete(FramebufferTarget::Read),
            GlCommand::BindFramebuffer(FramebufferTarget::Draw, Some(GlFramebuffer::Draw)),
            GlCommand::AttachColor {
                target: FramebufferTarget::Draw,
                texture: GlTexture::Destination(17),
                attachment: 0,
                level: 0,
            },
            GlCommand::RequireComplete(FramebufferTarget::Draw),
            GlCommand::Blit {
                source: region,
                destination: region,
                mask: BlitMask { color: true, depth: false, stencil: false },
                filter: TexelFilter::Nearest,
            },
            GlCommand::BindFramebuffer(FramebufferTarget::Read, None),
            GlCommand::BindFramebuffer(FramebufferTarget::Draw, None),
            GlCommand::BindTexture(None),
            GlCommand::DeleteFramebuffer(GlFramebuffer::Read),
            GlCommand::DeleteFramebuffer(GlFramebuffer::Draw),
            GlCommand::DeleteTexture,
        ]
    );
}

#[test]
fn a_blit_deletes_what_it_creates() {
    let commands = blit_egl_image(&frame(640, 480), texture(), 0x2000).unwrap();
    let count = |wanted: GlCommand| commands.iter().filter(|command| **command == wanted).count();
    assert_eq!(count(GlCommand::CreateTexture), count(GlCommand::DeleteTexture));
    for framebuffer in [GlFramebuffer::Read, GlFramebuffer::Draw] {
        assert_eq!(count(GlCommand::CreateFramebuffer(framebuffer)), 1);
        assert_eq!(count(GlCommand::DeleteFramebuffer(framebuffer)), 1);
    }
}

#[test]
fn a_blit_rejects_extents_beyond_a_signed_integer() {
    let wide = frame(0x8000_0000, 1);
    let high = frame(1, 0x8000_0000);
    assert_eq!(blit_egl_image(&wide, texture(), 1), Err(BlitRejection::Width));
    assert_eq!(blit_egl_image(&high, texture(), 1), Err(BlitRejection::Height));
    let narrowed = frame(0x8000_0000, 1).with_visible_size(0x7fff_ffff, 1);
    assert!(blit_egl_image(&narrowed, texture(), 1).is_ok());
}

#[test]
fn a_blit_needs_a_two_dimensional_gles_texture() {
    let frame = frame(640, 480);
    let reject = |destination| blit_egl_image(&frame, destination, 1).unwrap_err();
    assert_eq!(reject(GlesDestination::OtherBackend), BlitRejection::OtherBackend);
    assert_eq!(reject(GlesDestination::NotATexture), BlitRejection::NotATexture);
    let layered = GlesDestination::Texture { name: 17, target: glow::TEXTURE_2D_ARRAY };
    assert_eq!(reject(layered), BlitRejection::NotTwoDimensional);
}

#[test]
fn only_one_status_is_complete() {
    for target in [FramebufferTarget::Read, FramebufferTarget::Draw] {
        assert_eq!(complete(target, glow::FRAMEBUFFER_COMPLETE), Ok(()));
        let incomplete = Err(GlFailure::Incomplete(target));
        assert_eq!(complete(target, glow::FRAMEBUFFER_UNSUPPORTED), incomplete);
        assert_eq!(complete(target, 0), incomplete);
    }
}

#[test]
fn a_name_that_was_not_created_ends_the_copy() {
    assert_eq!(texture_created(Some(9)), Ok(9));
    assert_eq!(texture_created::<u32>(None), Err(GlFailure::SourceTexture));
    for which in [GlFramebuffer::Read, GlFramebuffer::Draw] {
        assert_eq!(framebuffer_created(which, Some(9)), Ok(9));
        let failed = framebuffer_created::<u32>(which, None);
        assert_eq!(failed, Err(GlFailure::Framebuffer(which)));
    }
}

#[test]
fn a_library_that_does_not_open_is_named() {
    for library in [Library::Egl, Library::Gles] {
        assert_eq!(library.opened(Some("handle")), Ok("handle"));
        assert_eq!(library.opened::<()>(None), Err(LibraryMissing(library)));
    }
}

#[test]
fn the_runtime_is_loaded_before_it_is_used() {
    assert_eq!(
        load_runtime(),
        vec![
            LoadStep::Open(Library::Egl),
            LoadStep::Open(Library::Gles),
            LoadStep::Resolve(EntryPoint::GetProcAddress),
            LoadStep::Resolve(EntryPoint::GetCurrentDisplay),
            LoadStep::Resolve(EntryPoint::CreateImage),
            LoadStep::Resolve(EntryPoint::DestroyImage),
            LoadStep::Resolve(EntryPoint::ImageTargetTexture2d),
            LoadStep::ResolveGl,
        ]
    );
}

#[test]
fn names_are_those_of_the_system() {
    assert_eq!(Library::Egl.soname(), "libEGL.so.1");
    assert_eq!(Library::Gles.soname(), "libGLESv2.so.2");
    assert_eq!(EntryPoint::GetProcAddress.name(), "eglGetProcAddress");
    assert_eq!(EntryPoint::GetCurrentDisplay.name(), "eglGetCurrentDisplay");
    assert_eq!(EntryPoint::CreateImage.name(), "eglCreateImageKHR");
    assert_eq!(EntryPoint::DestroyImage.name(), "eglDestroyImageKHR");
    assert_eq!(EntryPoint::ImageTargetTexture2d.name(), "glEGLImageTargetTexture2DOES");
    assert_eq!(EntryPoint::GetProcAddress.lookup(), Lookup::EglLibrary);
    assert_eq!(EntryPoint::CreateImage.lookup(), Lookup::Required);
}

#[test]
fn a_required_symbol_comes_from_the_first_that_knows_it() {
    let next = |answers: &[Option<usize>]| Lookup::Required.next(&answers.to_vec());
    assert_eq!(next(&[]), SearchStep::Ask(SymbolSource::Library(Library::Egl)));
    assert_eq!(next(&[Some(4)]), SearchStep::Found(4));
    assert_eq!(next(&[None]), SearchStep::Ask(SymbolSource::Library(Library::Gles)));
    assert_eq!(next(&[None, Some(5)]), SearchStep::Found(5));
    assert_eq!(next(&[None, None]), SearchStep::Ask(SymbolSource::ProcAddress));
    assert_eq!(next(&[None, None, Some(6)]), SearchStep::Found(6));
    assert_eq!(next(&[None, None, Some(0)]), SearchStep::Unavailable);
}

#[test]
fn a_required_symbol_is_never_null() {
    let next = |answers: &[Option<usize>]| Lookup::Required.next(&answers.to_vec());
    assert_eq!(next(&[Some(0)]), SearchStep::Ask(SymbolSource::Library(Library::Gles)));
    assert_eq!(next(&[Some(0), Some(0)]), SearchStep::Ask(SymbolSource::ProcAddress));
    assert_eq!(next(&[Some(0), Some(0), Some(6)]), SearchStep::Found(6));
    assert_eq!(next(&[Some(0), Some(0), Some(0)]), SearchStep::Unavailable);
    assert_eq!(Lookup::EglLibrary.next(&vec![Some(0)]), SearchStep::Unavailable);
}

#[test]
fn an_optional_symbol_may_be_null() {
    let next = |answers: &[Option<usize>]| Lookup::Optional.next(&answers.to_vec());
    assert_eq!(next(&[Some(4)]), SearchStep::Found(4));
    assert_eq!(next(&[Some(0)]), SearchStep::Ask(SymbolSource::Library(Library::Gles)));
    assert_eq!(next(&[None, Some(0)]), SearchStep::Ask(SymbolSource::ProcAddress));
    assert_eq!(next(&[Some(0), None, Some(6)]), SearchStep::Found(6));
    assert_eq!(next(&[None, None, Some(0)]), SearchStep::Found(0));
}

#[test]
fn the_resolver_is_sought_in_egl_alone() {
    let next = |answers: &[Option<usize>]| Lookup::EglLibrary.next(&answers.to_vec());
    assert_eq!(next(&[]), SearchStep::Ask(SymbolSource::Library(Library::Egl)));
    assert_eq!(next(&[Some(4)]), SearchStep::Found(4));
    assert_eq!(next(&[None]), SearchStep::Unavailable);
}
