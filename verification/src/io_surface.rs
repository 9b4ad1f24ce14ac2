//! macOS `IOSurface` import.
//!
//! An `IOSurface` is the system's cross-process handle to GPU-shareable pixel
//! memory. Metal imports one directly with
//! `newTextureWithDescriptor:iosurface:plane:`, and the resulting texture is
//! adopted as it is, so no pixel is copied.
//!
//! Producers typically hand the surface over inside a callback and reclaim it
//! the moment that callback returns, so a frame owns a reference of its own: a
//! value of the type parameter `S`, which is given up when the frame is
//! dropped.
use vstd::prelude::*;

use crate::texture::{Label, TextureDimension, TextureFormat, TextureRequest, TextureUsage};

verus! {

/// A retained `IOSurface` and the extent it was allocated at.
#[derive(Debug)]
pub struct IoSurfaceFrame<S> {
    surface: S,
    width: u32,
    height: u32,
    format: TextureFormat,
}

/// A frame as the contracts see it.
pub struct IoSurfaceView<S> {
    pub surface: S,
    pub width: u32,
    pub height: u32,
    pub format: TextureFormat,
}

/// A pixel format of Metal.
#[derive(Debug, Clone, Copy, PartialEq, Eq, Structural)]
pub enum MetalPixelFormat {
    Bgra8Unorm,
    Rgba8Unorm,
}

/// A texture type of Metal.
#[derive(Debug, Clone, Copy, PartialEq, Eq, Structural)]
pub enum MetalTextureType {
    Type1d,
    Type2d,
    Type3d,
}

/// What a Metal texture is used for.
#[derive(Debug, Clone, Copy, PartialEq, Eq, Structural)]
pub enum MetalTextureUsage {
    ShaderRead,
    RenderTarget,
}

/// Where a Metal texture is stored.
#[derive(Debug, Clone, Copy, PartialEq, Eq, Structural)]
pub enum MetalStorageMode {
    /// In memory that the CPU and the GPU share.
    Shared,
    /// In two copies, which are kept in step.
    Managed,
}

/// A Metal texture over a plane of a surface.
#[derive(Debug, Clone, Copy, PartialEq, Eq, Structural)]
pub struct MetalTextureRequest {
    pub width: usize,
    pub height: usize,
    pub texture_type: MetalTextureType,
    pub pixel_format: MetalPixelFormat,
    pub usage: MetalTextureUsage,
    pub storage_mode: MetalStorageMode,
    pub plane: usize,
}

/// An import: the Metal texture to create over the surface, and what it is to
/// be adopted as. The adopted texture has the Metal texture's type and one layer
/// and one mip level, and can be copied over the whole surface.
#[derive(Debug, Clone, Copy, PartialEq, Eq, Structural)]
pub struct IoSurfaceImport {
    pub metal: MetalTextureRequest,
    pub array_layers: u32,
    pub mip_levels: u32,
    pub copy_width: u32,
    pub copy_height: u32,
    pub copy_depth: u32,
    pub texture: TextureRequest,
}

/// Why a surface was not imported.
#[derive(Debug, Clone, Copy, PartialEq, Eq, Structural)]
pub enum IoSurfaceRejection {
    /// A surface cannot carry this format.
    Format(TextureFormat),
    /// The device is not a Metal device.
    OtherBackend,
    /// Metal made no texture of the surface.
    TextureCreation,
}

/// A Metal texture over a surface, and the import it was created for, which says
/// what it is to be adopted as.
#[derive(Debug, PartialEq, Eq)]
pub struct IoSurfaceTexture<T> {
    pub metal: T,
    pub import: IoSurfaceImport,
}

/// The pixel format under which Metal knows a format, for the two formats that
/// a surface can carry.
pub open spec fn pixel_format(format: TextureFormat) -> Option<MetalPixelFormat> {
    if format == TextureFormat::Bgra8Unorm {
        Some(MetalPixelFormat::Bgra8Unorm)
    } else if format == TextureFormat::Rgba8Unorm {
        Some(MetalPixelFormat::Rgba8Unorm)
    } else {
        None
    }
}

impl<S> IoSurfaceView<S> {
    /// The first reason for which the surface is not imported on a device.
    /// `unified_memory` is whether a Metal device has unified memory, and `None`
    /// for any other device.
    pub open spec fn rejection(self, unified_memory: Option<bool>) -> Option<IoSurfaceRejection> {
        if pixel_format(self.format) is None {
            Some(IoSurfaceRejection::Format(self.format))
        } else if unified_memory is None {
            Some(IoSurfaceRejection::OtherBackend)
        } else {
            None
        }
    }

    /// The import of the surface on a Metal device: a texture of the surface's
    /// own extent and format over its plane zero, to be copied from.
    pub open spec fn import(self, unified_memory: bool) -> IoSurfaceImport {
        IoSurfaceImport {
            metal: MetalTextureRequest {
                width: self.width as usize,
                height: self.height as usize,
                texture_type: MetalTextureType::Type2d,
                pixel_format: pixel_format(self.format)->0,
                usage: MetalTextureUsage::ShaderRead,
                storage_mode: if unified_memory {
                    MetalStorageMode::Shared
                } else {
                    MetalStorageMode::Managed
                },
                plane: 0,
            },
            array_layers: 1,
            mip_levels: 1,
            copy_width: self.width,
            copy_height: self.height,
            copy_depth: 1,
            texture: TextureRequest::spec_flat(
                Label::IoSurface,
                self.width,
                self.height,
                self.format,
                TextureUsage { copy_src: true, copy_dst: false, texture_binding: false },
            ),
        }
    }

    /// A surface is imported exactly where it carries one of two formats and the
    /// device is a Metal device. The format is told first, as it is.
    pub proof fn lemma_surface_needs_format_and_device(self, unified_memory: Option<bool>)
        ensures
            self.rejection(unified_memory) is None <==> (self.format == TextureFormat::Bgra8Unorm
                || self.format == TextureFormat::Rgba8Unorm) && unified_memory is Some,
            self.rejection(unified_memory) == Some(IoSurfaceRejection::Format(self.format)) <==> (
            self.format != TextureFormat::Bgra8Unorm && self.format != TextureFormat::Rgba8Unorm),
            self.rejection(unified_memory) == Some(IoSurfaceRejection::OtherBackend) <==> (
            self.format == TextureFormat::Bgra8Unorm || self.format == TextureFormat::Rgba8Unorm)
                && unified_memory is None,
    {
    }

    /// The adopted texture has the surface's own format, and the Metal texture
    /// under it has its channels in the same order. It is one flat image that is
    /// copied from and nothing else.
    pub proof fn lemma_import_keeps_format(self, unified_memory: bool)
        requires
            self.rejection(Some(unified_memory)) is None,
        ensures
            ({
                let import = self.import(unified_memory);
                &&& import.texture.format == self.format
                &&& import.metal.pixel_format == MetalPixelFormat::Bgra8Unorm <==> self.format
                    == TextureFormat::Bgra8Unorm
                &&& import.metal.pixel_format == MetalPixelFormat::Rgba8Unorm <==> self.format
                    == TextureFormat::Rgba8Unorm
                &&& import.texture.label == Label::IoSurface
                &&& import.texture.usage.copy_src
                &&& !import.texture.usage.copy_dst && !import.texture.usage.texture_binding
                &&& import.texture.dimension == TextureDimension::D2
                &&& import.texture.depth_or_array_layers == 1
                &&& import.texture.mip_level_count == 1 && import.texture.sample_count == 1
            }),
    {
    }

    /// The Metal texture is a flat one over plane zero that shaders read. It is
    /// shared exactly where the device's memory is unified, and managed where it
    /// is not; and it is adopted with one layer and one mip level.
    pub proof fn lemma_import_lies_over_plane_zero(self, unified_memory: bool)
        ensures
            ({
                let import = self.import(unified_memory);
                &&& import.metal.plane == 0
                &&& import.metal.texture_type == MetalTextureType::Type2d
                &&& import.metal.usage == MetalTextureUsage::ShaderRead
                &&& import.metal.storage_mode == MetalStorageMode::Shared <==> unified_memory
                &&& import.metal.storage_mode == MetalStorageMode::Managed <==> !unified_memory
                &&& import.array_layers == 1 && import.mip_levels == 1 && import.copy_depth == 1
            }),
    {
    }

    /// The Metal texture, the copies out of it and the adopted texture all have
    /// the surface's own extent, whatever the device's memory.
    pub proof fn lemma_import_keeps_extent(self, unified_memory: bool)
        ensures
            ({
                let import = self.import(unified_memory);
                &&& import.metal.width == self.width && import.metal.height == self.height
                &&& import.copy_width == self.width && import.copy_height == self.height
                &&& import.texture.width == self.width && import.texture.height == self.height
            }),
    {
    }
}

impl IoSurfaceImport {
    /// Takes the texture that Metal created over the surface, if it did.
    pub fn created<T>(self, texture: Option<T>) -> (created: Result<
        IoSurfaceTexture<T>,
        IoSurfaceRejection,
    >)
        ensures
            match texture {
                Some(metal) => created == Ok::<IoSurfaceTexture<T>, IoSurfaceRejection>(
                    IoSurfaceTexture { metal, import: self },
                ),
                None => created == Err::<IoSurfaceTexture<T>, IoSurfaceRejection>(
                    IoSurfaceRejection::TextureCreation,
                ),
            },
    {
        match texture {
            Some(metal) => Ok(IoSurfaceTexture { metal, import: self }),
            None => Err(IoSurfaceRejection::TextureCreation),
        }
    }
}

impl<S> View for IoSurfaceFrame<S> {
    type V = IoSurfaceView<S>;

    closed spec fn view(&self) -> IoSurfaceView<S> {
        IoSurfaceView {
            surface: self.surface,
            width: self.width,
            height: self.height,
            format: self.format,
        }
    }
}

impl<S> IoSurfaceFrame<S> {
    /// Keeps a reference on a surface, so that it stays valid past the callback
    /// that handed it over.
    ///
    /// `width` and `height` are the surface's allocated extent, which is what
    /// it must be imported as; a producer that padded its allocation should
    /// narrow the *copy* it makes out of the imported texture rather than
    /// claiming a smaller surface here.
    #[must_use]
    pub fn retain(surface: S, width: u32, height: u32, format: TextureFormat) -> (frame: Self)
        ensures
            frame@ == (IoSurfaceView { surface, width, height, format }),
    {
        IoSurfaceFrame { surface, width, height, format }
    }

    /// The retained surface.
    pub fn surface(&self) -> (surface: &S)
        ensures
            *surface == self@.surface,
    {
        &self.surface
    }

    /// The surface's allocated pixel width.
    #[must_use]
    pub fn width(&self) -> (width: u32)
        ensures
            width == self@.width,
    {
        self.width
    }

    /// The surface's allocated pixel height.
    #[must_use]
    pub fn height(&self) -> (height: u32)
        ensures
            height == self@.height,
    {
        self.height
    }

    /// The format the surface imports as.
    #[must_use]
    pub fn format(&self) -> (format: TextureFormat)
        ensures
            format == self@.format,
    {
        self.format
    }

    /// Describes the import of the surface as a texture to copy from; what Metal
    /// makes of it goes to [`IoSurfaceImport::created`].
    /// `unified_memory` is whether a Metal device has unified memory, and `None`
    /// for any other device.
    ///
    /// The texture aliases the surface's memory rather than owning a copy of
    /// it, so the producer may overwrite it as soon as it takes the surface
    /// back; copy out of the returned texture before that happens.
    pub fn import(&self, unified_memory: Option<bool>) -> (import: Result<
        IoSurfaceImport,
        IoSurfaceRejection,
    >)
        ensures
            match import {
                Ok(import) => {
                    &&& self@.rejection(unified_memory) is None
                    &&& import == self@.import(unified_memory->0)
                    &&& import.texture.format == self@.format
                    &&& import.texture.width == self@.width && import.texture.height == self@.height
                },
                Err(reason) => self@.rejection(unified_memory) == Some(reason),
            },
    {
        let texture = TextureRequest::flat(
            Label::IoSurface,
            self.width,
            self.height,
            self.format,
            TextureUsage { copy_src: true, copy_dst: false, texture_binding: false },
        );
        let pixel_format = match self.format {
            TextureFormat::Bgra8Unorm => MetalPixelFormat::Bgra8Unorm,
            TextureFormat::Rgba8Unorm => MetalPixelFormat::Rgba8Unorm,
            format => {
                return Err(IoSurfaceRejection::Format(format));
            },
        };
        let storage_mode = match unified_memory {
            Some(true) => MetalStorageMode::Shared,
            Some(false) => MetalStorageMode::Managed,
            None => {
                return Err(IoSurfaceRejection::OtherBackend);
            },
        };
        Ok(
            IoSurfaceImport {
                metal: MetalTextureRequest {
                    width: self.width as usize,
                    height: self.height as usize,
                    texture_type: MetalTextureType::Type2d,
                    pixel_format,
                    usage: MetalTextureUsage::ShaderRead,
                    storage_mode,
                    plane: 0,
                },
                array_layers: 1,
                mip_levels: 1,
                copy_width: self.width,
                copy_height: self.height,
                copy_depth: 1,
                texture,
            },
        )
    }
}

} // verus!
