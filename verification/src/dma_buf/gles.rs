//! Copying an imported EGL image into a texture with GLES.
//!
//! The copy is a list of GL commands. The three objects that it creates have
//! no names yet when the list is made, so the commands refer to them by role.
use vstd::prelude::*;

use crate::dma_buf::frame::DmaBufFrame;

verus! {

/// `glow::TEXTURE_2D`, the GL enumerant of two-dimensional textures: `0x0DE1`
/// in glow's table of constants.
#[verifier::external_body]
fn texture_2d() -> (enumerant: u32)
    ensures
        enumerant == TEXTURE_2D_ENUMERANT,
{
    glow::TEXTURE_2D
}

/// `glow::FRAMEBUFFER_COMPLETE`, the GL enumerant by which a framebuffer is
/// reported complete: `0x8CD5` in glow's table of constants.
#[verifier::external_body]
fn framebuffer_complete() -> (enumerant: u32)
    ensures
        enumerant == FRAMEBUFFER_COMPLETE_ENUMERANT,
{
    glow::FRAMEBUFFER_COMPLETE
}

/// `GL_TEXTURE_2D`.
pub const TEXTURE_2D_ENUMERANT: u32 = 0x0DE1;

/// `GL_FRAMEBUFFER_COMPLETE`.
pub const FRAMEBUFFER_COMPLETE_ENUMERANT: u32 = 0x8CD5;

/// A texture that the copy touches.
#[derive(Debug, Clone, Copy, PartialEq, Eq, Structural)]
pub enum GlTexture {
    /// The texture that the copy creates to hold the EGL image.
    Source,
    /// The caller's texture, by its GL name.
    Destination(u32),
}

/// A framebuffer that the copy creates.
#[derive(Debug, Clone, Copy, PartialEq, Eq, Structural)]
pub enum GlFramebuffer {
    Read,
    Draw,
}

/// Where a framebuffer is bound.
#[derive(Debug, Clone, Copy, PartialEq, Eq, Structural)]
pub enum FramebufferTarget {
    Read,
    Draw,
}

/// Which filter of a texture is set.
#[derive(Debug, Clone, Copy, PartialEq, Eq, Structural)]
pub enum FilterSide {
    Minify,
    Magnify,
}

/// A rectangle of texels, from its first corner up to its second.
#[derive(Debug, Clone, Copy, PartialEq, Eq, Structural)]
pub struct Rect {
    pub x0: i32,
    pub y0: i32,
    pub x1: i32,
    pub y1: i32,
}

/// How texels are sampled.
#[derive(Debug, Clone, Copy, PartialEq, Eq, Structural)]
pub enum TexelFilter {
    Nearest,
    Linear,
}

/// Which buffers of a framebuffer a blit copies.
#[derive(Debug, Clone, Copy, PartialEq, Eq, Structural)]
pub struct BlitMask {
    pub color: bool,
    pub depth: bool,
    pub stencil: bool,
}

/// A GL command. Textures are two-dimensional.
#[derive(Debug, Clone, Copy, PartialEq, Eq, Structural)]
pub enum GlCommand {
    /// Creates the source texture; see [`texture_created`].
    CreateTexture,
    BindTexture(Option<GlTexture>),
    /// Sets a filter of the bound texture.
    SetFilter(FilterSide, TexelFilter),
    /// Makes the EGL image at this address the storage of the bound texture.
    AttachImage(usize),
    /// See [`framebuffer_created`].
    CreateFramebuffer(GlFramebuffer),
    BindFramebuffer(FramebufferTarget, Option<GlFramebuffer>),
    /// Attaches a mip level of a texture at a color attachment of the
    /// framebuffer bound there.
    AttachColor { target: FramebufferTarget, texture: GlTexture, attachment: u32, level: i32 },
    /// Fails unless the framebuffer bound there is complete; see [`complete`].
    RequireComplete(FramebufferTarget),
    /// Copies from the read framebuffer to the draw framebuffer.
    Blit { source: Rect, destination: Rect, mask: BlitMask, filter: TexelFilter },
    DeleteFramebuffer(GlFramebuffer),
    /// Deletes the source texture.
    DeleteTexture,
}

/// What the destination of a copy turned out to be.
#[derive(Debug, Clone, Copy, PartialEq, Eq, Structural)]
pub enum GlesDestination {
    /// A texture of another backend.
    OtherBackend,
    /// A GLES object that is no texture, such as a renderbuffer.
    NotATexture,
    /// A GL texture, with its name and the target it was made for.
    Texture { name: u32, target: u32 },
}

/// Why a copy was not made.
#[derive(Debug, Clone, Copy, PartialEq, Eq, Structural)]
pub enum BlitRejection {
    /// The visible width exceeds `EGLint`.
    Width,
    /// The visible height exceeds `EGLint`.
    Height,
    /// The destination is not a GLES object.
    OtherBackend,
    /// The destination is not a texture.
    NotATexture,
    /// The destination is not two-dimensional.
    NotTwoDimensional,
}

/// The first reason for which a region is not copied to a destination.
pub open spec fn blit_rejection(size: (u32, u32), destination: GlesDestination) -> Option<
    BlitRejection,
> {
    if size.0 > i32::MAX {
        Some(BlitRejection::Width)
    } else if size.1 > i32::MAX {
        Some(BlitRejection::Height)
    } else {
        match destination {
            GlesDestination::OtherBackend => Some(BlitRejection::OtherBackend),
            GlesDestination::NotATexture => Some(BlitRejection::NotATexture),
            GlesDestination::Texture { name, target } => if target != TEXTURE_2D_ENUMERANT {
                Some(BlitRejection::NotTwoDimensional)
            } else {
                None
            },
        }
    }
}

/// The region of this size at the origin.
pub open spec fn region(size: (u32, u32)) -> Rect {
    Rect { x0: 0, y0: 0, x1: size.0 as i32, y1: size.1 as i32 }
}

/// Color alone.
pub open spec fn color_only() -> BlitMask {
    BlitMask { color: true, depth: false, stencil: false }
}

/// The commands that copy a region of the EGL image `image` to the texture
/// named `name`.
pub open spec fn blit_commands(size: (u32, u32), name: u32, image: usize) -> Seq<GlCommand> {
    seq![
        GlCommand::CreateTexture,
        GlCommand::BindTexture(Some(GlTexture::Source)),
        GlCommand::SetFilter(FilterSide::Minify, TexelFilter::Nearest),
        GlCommand::SetFilter(FilterSide::Magnify, TexelFilter::Nearest),
        GlCommand::AttachImage(image),
        GlCommand::CreateFramebuffer(GlFramebuffer::Read),
        GlCommand::CreateFramebuffer(GlFramebuffer::Draw),
        GlCommand::BindFramebuffer(FramebufferTarget::Read, Some(GlFramebuffer::Read)),
        GlCommand::AttachColor {
            target: FramebufferTarget::Read,
            texture: GlTexture::Source,
            attachment: 0,
            level: 0,
        },
        GlCommand::RequireComplete(FramebufferTarget::Read),
        GlCommand::BindFramebuffer(FramebufferTarget::Draw, Some(GlFramebuffer::Draw)),
        GlCommand::AttachColor {
            target: FramebufferTarget::Draw,
            texture: GlTexture::Destination(name),
            attachment: 0,
            level: 0,
        },
        GlCommand::RequireComplete(FramebufferTarget::Draw),
        GlCommand::Blit {
            source: region(size),
            destination: region(size),
            mask: color_only(),
            filter: TexelFilter::Nearest,
        },
        GlCommand::BindFramebuffer(FramebufferTarget::Read, None),
        GlCommand::BindFramebuffer(FramebufferTarget::Draw, None),
        GlCommand::BindTexture(None),
        GlCommand::DeleteFramebuffer(GlFramebuffer::Read),
        GlCommand::DeleteFramebuffer(GlFramebuffer::Draw),
        GlCommand::DeleteTexture,
    ]
}

/// A region is copied exactly where its size fits `EGLint` and the destination
/// is a two-dimensional texture. The size is told before the destination, and
/// the width before the height.
pub proof fn lemma_blit_needs_size_and_texture(size: (u32, u32), destination: GlesDestination)
    ensures
        blit_rejection(size, destination) == Some(BlitRejection::Width) <==> size.0 >= 0x8000_0000,
        blit_rejection(size, destination) == Some(BlitRejection::Height) <==> size.0 < 0x8000_0000
            && size.1 >= 0x8000_0000,
        size.0 < 0x8000_0000 && size.1 < 0x8000_0000 ==> match destination {
            GlesDestination::OtherBackend => blit_rejection(size, destination) == Some(
                BlitRejection::OtherBackend,
            ),
            GlesDestination::NotATexture => blit_rejection(size, destination) == Some(
                BlitRejection::NotATexture,
            ),
            GlesDestination::Texture { name, target } => if target == 0x0de1 {
                blit_rejection(size, destination) is None
            } else {
                blit_rejection(size, destination) == Some(BlitRejection::NotTwoDimensional)
            },
        },
{
}

/// Every blit among the commands copies color alone, from texel zero up to the
/// size in both images, so it neither scales, moves nor cuts the picture; and
/// there is one.
pub proof fn lemma_blit_copies_the_whole_size(size: (u32, u32), name: u32, image: usize, at: int)
    requires
        size.0 <= i32::MAX,
        size.1 <= i32::MAX,
        0 <= at < blit_commands(size, name, image).len(),
    ensures
        blit_commands(size, name, image)[at] is Blit <==> at == 13,
        blit_commands(size, name, image)[at] matches GlCommand::Blit {
            source,
            destination,
            mask,
            filter,
        } ==> {
            &&& source.x0 == 0 && source.y0 == 0
            &&& source.x1 == size.0 && source.y1 == size.1
            &&& destination.x0 == 0 && destination.y0 == 0
            &&& destination.x1 == size.0 && destination.y1 == size.1
            &&& mask.color && !mask.depth && !mask.stencil
            &&& filter == TexelFilter::Nearest
        },
        blit_commands(size, name, image).len() == 20,
{
}

/// The only EGL image that the commands attach is the given one, the only
/// texture that they draw to is the destination, and they read from the texture
/// that holds the image. No filter blends texels.
pub proof fn lemma_blit_touches_what_it_was_given(
    size: (u32, u32),
    name: u32,
    image: usize,
    at: int,
)
    requires
        0 <= at < blit_commands(size, name, image).len(),
    ensures
        blit_commands(size, name, image)[at] matches GlCommand::AttachImage(attached) ==> attached
            == image,
        blit_commands(size, name, image)[at] matches GlCommand::AttachColor {
            target,
            texture,
            attachment,
            level,
        } ==> {
            &&& attachment == 0 && level == 0
            &&& match target {
                FramebufferTarget::Read => texture == GlTexture::Source,
                FramebufferTarget::Draw => texture == GlTexture::Destination(name),
            }
        },
        blit_commands(size, name, image)[at] matches GlCommand::BindTexture(Some(texture))
            ==> texture == GlTexture::Source,
        blit_commands(size, name, image)[at] matches GlCommand::SetFilter(_, filter) ==> filter
            == TexelFilter::Nearest,
{
}

/// Both framebuffers are found complete before the blit, and every name that is
/// created is deleted after it.
pub proof fn lemma_blit_is_checked_before_and_cleaned_after(
    size: (u32, u32),
    name: u32,
    image: usize,
)
    ensures
        exists|i: int|
            0 <= i < 13 && #[trigger] blit_commands(size, name, image)[i]
                == GlCommand::RequireComplete(FramebufferTarget::Read),
        exists|i: int|
            0 <= i < 13 && #[trigger] blit_commands(size, name, image)[i]
                == GlCommand::RequireComplete(FramebufferTarget::Draw),
        exists|i: int|
            13 < i < 20 && #[trigger] blit_commands(size, name, image)[i]
                == GlCommand::DeleteFramebuffer(GlFramebuffer::Read),
        exists|i: int|
            13 < i < 20 && #[trigger] blit_commands(size, name, image)[i]
                == GlCommand::DeleteFramebuffer(GlFramebuffer::Draw),
        exists|i: int|
            13 < i < 20 && #[trigger] blit_commands(size, name, image)[i]
                == GlCommand::DeleteTexture,
{
    let commands = blit_commands(size, name, image);
    assert(commands[9] == GlCommand::RequireComplete(FramebufferTarget::Read));
    assert(commands[12] == GlCommand::RequireComplete(FramebufferTarget::Draw));
    assert(commands[17] == GlCommand::DeleteFramebuffer(GlFramebuffer::Read));
    assert(commands[18] == GlCommand::DeleteFramebuffer(GlFramebuffer::Draw));
    assert(commands[19] == GlCommand::DeleteTexture);
}

/// A command that failed. It ends the copy; no other command reports anything.
#[derive(Debug, Clone, Copy, PartialEq, Eq, Structural)]
pub enum GlFailure {
    /// The source texture was not created.
    SourceTexture,
    /// A framebuffer was not created.
    Framebuffer(GlFramebuffer),
    /// The framebuffer bound there is not complete.
    Incomplete(FramebufferTarget),
}

/// Takes the texture that [`GlCommand::CreateTexture`] created, if it did.
pub fn texture_created<T>(texture: Option<T>) -> (created: Result<T, GlFailure>)
    ensures
        created == match texture {
            Some(texture) => Ok::<T, GlFailure>(texture),
            None => Err(GlFailure::SourceTexture),
        },
{
    match texture {
        Some(texture) => Ok(texture),
        None => Err(GlFailure::SourceTexture),
    }
}

/// Takes the framebuffer that [`GlCommand::CreateFramebuffer`] created for
/// `which`, if it did.
pub fn framebuffer_created<T>(which: GlFramebuffer, framebuffer: Option<T>) -> (created: Result<
    T,
    GlFailure,
>)
    ensures
        created == match framebuffer {
            Some(framebuffer) => Ok::<T, GlFailure>(framebuffer),
            None => Err(GlFailure::Framebuffer(which)),
        },
{
    match framebuffer {
        Some(framebuffer) => Ok(framebuffer),
        None => Err(GlFailure::Framebuffer(which)),
    }
}

/// Judges the status of the framebuffer bound at `target`, for
/// [`GlCommand::RequireComplete`].
pub fn complete(target: FramebufferTarget, status: u32) -> (complete: Result<(), GlFailure>)
    ensures
        complete == if status == FRAMEBUFFER_COMPLETE_ENUMERANT {
            Ok::<(), GlFailure>(())
        } else {
            Err(GlFailure::Incomplete(target))
        },
{
    if status == framebuffer_complete() {
        Ok(())
    } else {
        Err(GlFailure::Incomplete(target))
    }
}

/// The commands that copy a frame's visible extent, imported as the EGL image
/// at address `image`, into `destination`.
///
/// The visible extent is the buffer's own size unless a producer padded its
/// allocation; the destination texture holds the picture.
pub fn blit_egl_image<F, L>(
    frame: &DmaBufFrame<F, L>,
    destination: GlesDestination,
    image: usize,
) -> (commands: Result<Vec<GlCommand>, BlitRejection>)
    ensures
        match commands {
            Ok(commands) => {
                &&& blit_rejection(frame@.visible_size(), destination) is None
                &&& commands@ == blit_commands(
                    frame@.visible_size(),
                    destination->name,
                    image,
                )
                &&& frame@.visible_size().0 <= i32::MAX && frame@.visible_size().1 <= i32::MAX
            },
            Err(reason) => blit_rejection(frame@.visible_size(), destination) == Some(reason),
        },
{
    let (visible_width, visible_height) = frame.visible_size();
    let limit: u32 = 0x7fff_ffff;
    if visible_width > limit {
        return Err(BlitRejection::Width);
    }
    if visible_height > limit {
        return Err(BlitRejection::Height);
    }
    let name: u32 = match destination {
        GlesDestination::OtherBackend => {
            return Err(BlitRejection::OtherBackend);
        },
        GlesDestination::NotATexture => {
            return Err(BlitRejection::NotATexture);
        },
        GlesDestination::Texture { name, target } => {
            if target != texture_2d() {
                return Err(BlitRejection::NotTwoDimensional);
            }
            name
        },
    };
    let region = Rect { x0: 0, y0: 0, x1: visible_width as i32, y1: visible_height as i32 };
    let commands: Vec<GlCommand> = vec![
        GlCommand::CreateTexture,
        GlCommand::BindTexture(Some(GlTexture::Source)),
        GlCommand::SetFilter(FilterSide::Minify, TexelFilter::Nearest),
        GlCommand::SetFilter(FilterSide::Magnify, TexelFilter::Nearest),
        GlCommand::AttachImage(image),
        GlCommand::CreateFramebuffer(GlFramebuffer::Read),
        GlCommand::CreateFramebuffer(GlFramebuffer::Draw),
        GlCommand::BindFramebuffer(FramebufferTarget::Read, Some(GlFramebuffer::Read)),
        GlCommand::AttachColor {
            target: FramebufferTarget::Read,
            texture: GlTexture::Source,
            attachment: 0,
            level: 0,
        },
        GlCommand::RequireComplete(FramebufferTarget::Read),
        GlCommand::BindFramebuffer(FramebufferTarget::Draw, Some(GlFramebuffer::Draw)),
        GlCommand::AttachColor {
            target: FramebufferTarget::Draw,
            texture: GlTexture::Destination(name),
            attachment: 0,
            level: 0,
        },
        GlCommand::RequireComplete(FramebufferTarget::Draw),
        GlCommand::Blit {
            source: region,
            destination: region,
            mask: BlitMask { color: true, depth: false, stencil: false },
            filter: TexelFilter::Nearest,
        },
        GlCommand::BindFramebuffer(FramebufferTarget::Read, None),
        GlCommand::BindFramebuffer(FramebufferTarget::Draw, None),
        GlCommand::BindTexture(None),
        GlCommand::DeleteFramebuffer(GlFramebuffer::Read),
        GlCommand::DeleteFramebuffer(GlFramebuffer::Draw),
        GlCommand::DeleteTexture,
    ];
    assert(commands@ =~= blit_commands(frame@.visible_size(), name, image));
    Ok(commands)
}

/// A framebuffer in the model of GL that the commands are held to.
pub struct FramebufferModel {
    pub live: bool,
    pub color: Option<GlTexture>,
    /// Reported complete since its attachment last changed.
    pub complete: bool,
}

/// A copy that a blit made: from the EGL image behind the read framebuffer to
/// the texture behind the draw framebuffer.
pub struct GlCopy {
    pub image: usize,
    pub destination: u32,
    pub from: Rect,
    pub to: Rect,
}

/// The part of a GL context that the commands touch.
pub struct GlModel {
    pub texture_live: bool,
    pub texture_image: Option<usize>,
    pub minify_nearest: bool,
    pub magnify_nearest: bool,
    pub bound_texture: Option<GlTexture>,
    pub read: FramebufferModel,
    pub draw: FramebufferModel,
    pub bound_read: Option<GlFramebuffer>,
    pub bound_draw: Option<GlFramebuffer>,
    pub copies: Seq<GlCopy>,
}

impl GlModel {
    /// A framebuffer that does not exist.
    pub open spec fn no_framebuffer() -> FramebufferModel {
        FramebufferModel { live: false, color: None, complete: false }
    }

    /// A context that holds nothing of the copy's.
    pub open spec fn clean() -> GlModel {
        GlModel {
            texture_live: false,
            texture_image: None,
            minify_nearest: false,
            magnify_nearest: false,
            bound_texture: None,
            read: Self::no_framebuffer(),
            draw: Self::no_framebuffer(),
            bound_read: None,
            bound_draw: None,
            copies: seq![],
        }
    }

    pub open spec fn framebuffer(self, which: GlFramebuffer) -> FramebufferModel {
        match which {
            GlFramebuffer::Read => self.read,
            GlFramebuffer::Draw => self.draw,
        }
    }

    pub open spec fn with_framebuffer(
        self,
        which: GlFramebuffer,
        framebuffer: FramebufferModel,
    ) -> GlModel {
        match which {
            GlFramebuffer::Read => GlModel { read: framebuffer, ..self },
            GlFramebuffer::Draw => GlModel { draw: framebuffer, ..self },
        }
    }

    pub open spec fn bound(self, target: FramebufferTarget) -> Option<GlFramebuffer> {
        match target {
            FramebufferTarget::Read => self.bound_read,
            FramebufferTarget::Draw => self.bound_draw,
        }
    }

    /// Whether a texture's name can be used.
    pub open spec fn names(self, texture: GlTexture) -> bool {
        texture == GlTexture::Source ==> self.texture_live
    }

    /// What one command does; `None` where it misuses a name: where it uses one
    /// that is not live, creates one that is, deletes one that is bound or
    /// attached, or blits between framebuffers that were not found complete. The
    /// model has the first color attachment and the first mip level alone, and
    /// blits of color alone that blend no texels.
    pub open spec fn step(self, command: GlCommand) -> Option<GlModel> {
        match command {
            GlCommand::CreateTexture => if self.texture_live {
                None
            } else {
                Some(
                    GlModel {
                        texture_live: true,
                        texture_image: None,
                        minify_nearest: false,
                        magnify_nearest: false,
                        ..self
                    },
                )
            },
            GlCommand::BindTexture(texture) => if texture is Some && !self.names(texture->0) {
                None
            } else {
                Some(GlModel { bound_texture: texture, ..self })
            },
            GlCommand::SetFilter(side, filter) => if self.bound_texture != Some(GlTexture::Source) {
                None
            } else {
                match side {
                    FilterSide::Minify => Some(
                        GlModel { minify_nearest: filter == TexelFilter::Nearest, ..self },
                    ),
                    FilterSide::Magnify => Some(
                        GlModel { magnify_nearest: filter == TexelFilter::Nearest, ..self },
                    ),
                }
            },
            GlCommand::AttachImage(image) => if self.bound_texture != Some(GlTexture::Source) {
                None
            } else {
                Some(GlModel { texture_image: Some(image), ..self })
            },
            GlCommand::CreateFramebuffer(which) => if self.framebuffer(which).live {
                None
            } else {
                Some(
                    self.with_framebuffer(
                        which,
                        FramebufferModel { live: true, color: None, complete: false },
                    ),
                )
            },
            GlCommand::BindFramebuffer(target, which) => if which is Some && !self.framebuffer(
                which->0,
            ).live {
                None
            } else {
                match target {
                    FramebufferTarget::Read => Some(GlModel { bound_read: which, ..self }),
                    FramebufferTarget::Draw => Some(GlModel { bound_draw: which, ..self }),
                }
            },
            GlCommand::AttachColor { target, texture, attachment, level } => match self.bound(
                target,
            ) {
                Some(which) => if self.names(texture) && attachment == 0 && level == 0 {
                    Some(
                        self.with_framebuffer(
                            which,
                            FramebufferModel { live: true, color: Some(texture), complete: false },
                        ),
                    )
                } else {
                    None
                },
                None => None,
            },
            GlCommand::RequireComplete(target) => match self.bound(target) {
                Some(which) => if self.framebuffer(which).color is Some {
                    Some(
                        self.with_framebuffer(
                            which,
                            FramebufferModel { complete: true, ..self.framebuffer(which) },
                        ),
                    )
                } else {
                    None
                },
                None => None,
            },
            GlCommand::Blit { source, destination, mask, filter } => match (
                self.bound_read,
                self.bound_draw,
            ) {
                (Some(from), Some(to)) => match (
                    self.framebuffer(from).color,
                    self.framebuffer(to).color,
                ) {
                    (Some(GlTexture::Source), Some(GlTexture::Destination(name))) => if {
                        &&& self.framebuffer(from).complete
                        &&& self.framebuffer(to).complete
                        &&& self.texture_image is Some
                        &&& self.minify_nearest
                        &&& self.magnify_nearest
                        &&& mask == color_only()
                        &&& filter == TexelFilter::Nearest
                    } {
                        Some(
                            GlModel {
                                copies: self.copies.push(
                                    GlCopy {
                                        image: self.texture_image->0,
                                        destination: name,
                                        from: source,
                                        to: destination,
                                    },
                                ),
                                ..self
                            },
                        )
                    } else {
                        None
                    },
                    _ => None,
                },
                _ => None,
            },
            GlCommand::DeleteFramebuffer(which) => if {
                ||| !self.framebuffer(which).live
                ||| self.bound_read == Some(which)
                ||| self.bound_draw == Some(which)
            } {
                None
            } else {
                Some(self.with_framebuffer(which, Self::no_framebuffer()))
            },
            GlCommand::DeleteTexture => if {
                ||| !self.texture_live
                ||| self.bound_texture == Some(GlTexture::Source)
                ||| self.read.color == Some(GlTexture::Source)
                ||| self.draw.color == Some(GlTexture::Source)
            } {
                None
            } else {
                Some(
                    GlModel {
                        texture_live: false,
                        texture_image: None,
                        minify_nearest: false,
                        magnify_nearest: false,
                        ..self
                    },
                )
            },
        }
    }

    /// What the first `count` commands of a list do, one after the other.
    pub open spec fn run(self, commands: Seq<GlCommand>, count: nat) -> Option<GlModel>
        decreases count,
    {
        if count == 0 {
            Some(self)
        } else {
            match self.run(commands, (count - 1) as nat) {
                Some(model) => model.step(commands[count - 1]),
                None => None,
            }
        }
    }
}

/// The copy uses each name only while it is live, blits only between
/// framebuffers that were found complete, makes exactly one copy, of the region
/// at its own size, and leaves nothing bound and nothing behind.
/// [`lemma_blit_copies_the_whole_size`] says in numbers what that region is.
pub proof fn lemma_blit_leaves_context_clean(size: (u32, u32), name: u32, image: usize)
    ensures
        GlModel::clean().run(
            blit_commands(size, name, image),
            blit_commands(size, name, image).len(),
        ) == Some(
            GlModel {
                copies: seq![
                    GlCopy { image, destination: name, from: region(size), to: region(size) },
                ],
                ..GlModel::clean()
            },
        ),
{
    let commands = blit_commands(size, name, image);
    let clean = GlModel::clean();
    reveal_with_fuel(GlModel::run, 21);
    let end = clean.run(commands, 20);
    assert(end is Some);
    assert(end->0.copies =~= seq![
        GlCopy { image, destination: name, from: region(size), to: region(size) },
    ]);
}

} // verus!
