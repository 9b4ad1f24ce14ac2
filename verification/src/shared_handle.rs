//! Windows shared texture handle import.
//!
//! A producer that renders with Direct3D publishes its texture as an NT shared
//! handle. Direct3D 12 reopens that handle as a resource, which is adopted as it
//! is, so no pixel is copied.
//!
//! The handle a producer hands over belongs to that producer and is usually
//! reclaimed when its callback returns, so it is duplicated into this process's
//! own handle table first. A frame owns the duplicate: a value of the type
//! parameter `H`.
use vstd::prelude::*;

use crate::texture::{Label, TextureDimension, TextureFormat, TextureRequest, TextureUsage};

verus! {

/// An owned duplicate of a producer's shared texture handle.
#[derive(Debug)]
pub struct SharedHandleFrame<H> {
    handle: H,
    width: u32,
    height: u32,
    format: TextureFormat,
}

/// A frame as the contracts see it.
pub struct SharedHandleView<H> {
    pub handle: H,
    pub width: u32,
    pub height: u32,
    pub format: TextureFormat,
}

/// How a handle is duplicated within this process.
#[derive(Debug, Clone, Copy, PartialEq, Eq, Structural)]
pub struct DuplicateOptions {
    /// Ignored where the access stays the same.
    pub desired_access: u32,
    /// Whether child processes inherit the duplicate.
    pub inherit: bool,
    /// Whether the duplicate has the access of the original.
    pub same_access: bool,
}

/// Why a handle was not duplicated or imported.
#[derive(Debug, Clone, Copy, PartialEq, Eq, Structural)]
pub enum SharedHandleRejection {
    /// The handle could not be duplicated.
    Duplication,
    /// The device is not a Direct3D 12 device.
    OtherBackend,
    /// Direct3D 12 could not open the handle.
    Opening,
    /// The handle does not name a resource.
    NoResource,
}

/// What opening a shared handle on a device gave.
#[derive(Debug)]
pub enum OpenedHandle<R> {
    /// The device is not a Direct3D 12 device.
    OtherBackend,
    /// Opening the handle failed.
    Failed,
    /// Opening the handle succeeded and gave no resource.
    Empty,
    /// The resource that the handle names.
    Resource(R),
}

/// A resource to adopt, and what it is to be adopted as.
#[derive(Debug)]
pub struct SharedHandleImport<R> {
    pub resource: R,
    pub texture: TextureRequest,
}

/// The options of a duplicate that is used as the original is: the same access,
/// and not inherited.
pub fn duplicate_options() -> (options: DuplicateOptions)
    ensures
        options == (DuplicateOptions { desired_access: 0, inherit: false, same_access: true }),
{
    DuplicateOptions { desired_access: 0, inherit: false, same_access: true }
}

impl<H> SharedHandleView<H> {
    /// What the resource is adopted as: a texture of its own extent and format,
    /// to be copied from.
    pub open spec fn texture(self) -> TextureRequest {
        TextureRequest::spec_flat(
            Label::SharedHandle,
            self.width,
            self.height,
            self.format,
            TextureUsage { copy_src: true, copy_dst: false, texture_binding: false },
        )
    }

    /// The adopted texture has the resource's own extent and format, and is a
    /// single two-dimensional image that is copied from and nothing else.
    pub proof fn lemma_import_keeps_resource(self)
        ensures
            self.texture().width == self.width,
            self.texture().height == self.height,
            self.texture().format == self.format,
            self.texture().dimension == TextureDimension::D2,
            self.texture().depth_or_array_layers == 1,
            self.texture().mip_level_count == 1,
            self.texture().sample_count == 1,
            self.texture().label == Label::SharedHandle,
            self.texture().usage.copy_src,
            !self.texture().usage.copy_dst && !self.texture().usage.texture_binding,
    {
    }
}

impl<H> View for SharedHandleFrame<H> {
    type V = SharedHandleView<H>;

    closed spec fn view(&self) -> SharedHandleView<H> {
        SharedHandleView {
            handle: self.handle,
            width: self.width,
            height: self.height,
            format: self.format,
        }
    }
}

impl<H> SharedHandleFrame<H> {
    /// Keeps the duplicate of a producer's handle, if there is one, so that it
    /// outlives the callback that handed the original over.
    ///
    /// `width` and `height` are the resource's allocated extent, which is what
    /// it must be imported as; a producer that padded its allocation should
    /// narrow the *copy* it makes out of the imported texture rather than
    /// claiming a smaller resource here.
    pub fn duplicate(duplicate: Option<H>, width: u32, height: u32, format: TextureFormat) -> (frame:
        Result<Self, SharedHandleRejection>)
        ensures
            match frame {
                Ok(frame) => {
                    &&& duplicate is Some
                    &&& frame@ == (SharedHandleView { handle: duplicate->0, width, height, format })
                },
                Err(reason) => duplicate is None && reason == SharedHandleRejection::Duplication,
            },
    {
        match duplicate {
            Some(handle) => Ok(SharedHandleFrame { handle, width, height, format }),
            None => Err(SharedHandleRejection::Duplication),
        }
    }

    /// The duplicated handle.
    pub fn handle(&self) -> (handle: &H)
        ensures
            *handle == self@.handle,
    {
        &self.handle
    }

    /// The resource's allocated pixel width.
    #[must_use]
    pub fn width(&self) -> (width: u32)
        ensures
            width == self@.width,
    {
        self.width
    }

    /// The resource's allocated pixel height.
    #[must_use]
    pub fn height(&self) -> (height: u32)
        ensures
            height == self@.height,
    {
        self.height
    }

    /// The format the resource imports as.
    #[must_use]
    pub fn format(&self) -> (format: TextureFormat)
        ensures
            format == self@.format,
    {
        self.format
    }

    /// Describes the import of the shared resource as a texture to copy from,
    /// from what opening the handle gave.
    ///
    /// The texture aliases the producer's resource rather than owning a copy of
    /// it, so the producer may overwrite it as soon as it takes the resource
    /// back; copy out of the returned texture before that happens.
    pub fn import<R>(&self, opened: OpenedHandle<R>) -> (import: Result<
        SharedHandleImport<R>,
        SharedHandleRejection,
    >)
        ensures
            match opened {
                OpenedHandle::OtherBackend => import matches Err(reason) && reason
                    == SharedHandleRejection::OtherBackend,
                OpenedHandle::Failed => import matches Err(reason) && reason
                    == SharedHandleRejection::Opening,
                OpenedHandle::Empty => import matches Err(reason) && reason
                    == SharedHandleRejection::NoResource,
                OpenedHandle::Resource(resource) => import matches Ok(import) && {
                    &&& import.resource == resource
                    &&& import.texture == self@.texture()
                },
            },
    {
        match opened {
            OpenedHandle::OtherBackend => Err(SharedHandleRejection::OtherBackend),
            OpenedHandle::Failed => Err(SharedHandleRejection::Opening),
            OpenedHandle::Empty => Err(SharedHandleRejection::NoResource),
            OpenedHandle::Resource(resource) => Ok(
                SharedHandleImport {
                    resource,
                    texture: TextureRequest::flat(
                        Label::SharedHandle,
                        self.width,
                        self.height,
                        self.format,
                        TextureUsage { copy_src: true, copy_dst: false, texture_binding: false },
                    ),
                },
            ),
        }
    }
}

} // verus!
