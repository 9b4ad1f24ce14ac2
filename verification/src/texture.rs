//! Texture descriptions: what a graphics device is asked to create or adopt.
use vstd::prelude::*;

verus! {

/// Block size of an ASTC compressed format.
#[derive(Debug, Clone, Copy, PartialEq, Eq, Structural)]
pub enum AstcBlock {
    B4x4,
    B5x4,
    B5x5,
    B6x5,
    B6x6,
    B8x5,
    B8x6,
    B8x8,
    B10x5,
    B10x6,
    B10x8,
    B10x10,
    B12x10,
    B12x12,
}

/// Channel encoding of an ASTC compressed format.
#[derive(Debug, Clone, Copy, PartialEq, Eq, Structural)]
pub enum AstcChannel {
    Unorm,
    UnormSrgb,
    Hdr,
}

/// A texture format, one variant for each format that `wgpu` knows.
#[derive(Debug, Clone, Copy, PartialEq, Eq, Structural)]
pub enum TextureFormat {
    R8Unorm,
    R8Snorm,
    R8Uint,
    R8Sint,
    R16Uint,
    R16Sint,
    R16Unorm,
    R16Snorm,
    R16Float,
    Rg8Unorm,
    Rg8Snorm,
    Rg8Uint,
    Rg8Sint,
    R32Uint,
    R32Sint,
    R32Float,
    Rg16Uint,
    Rg16Sint,
    Rg16Unorm,
    Rg16Snorm,
    Rg16Float,
    Rgba8Unorm,
    Rgba8UnormSrgb,
    Rgba8Snorm,
    Rgba8Uint,
    Rgba8Sint,
    Bgra8Unorm,
    Bgra8UnormSrgb,
    Rgb9e5Ufloat,
    Rgb10a2Uint,
    Rgb10a2Unorm,
    Rg11b10Ufloat,
    R64Uint,
    Rg32Uint,
    Rg32Sint,
    Rg32Float,
    Rgba16Uint,
    Rgba16Sint,
    Rgba16Unorm,
    Rgba16Snorm,
    Rgba16Float,
    Rgba32Uint,
    Rgba32Sint,
    Rgba32Float,
    Stencil8,
    Depth16Unorm,
    Depth24Plus,
    Depth24PlusStencil8,
    Depth32Float,
    Depth32FloatStencil8,
    NV12,
    P010,
    Bc1RgbaUnorm,
    Bc1RgbaUnormSrgb,
    Bc2RgbaUnorm,
    Bc2RgbaUnormSrgb,
    Bc3RgbaUnorm,
    Bc3RgbaUnormSrgb,
    Bc4RUnorm,
    Bc4RSnorm,
    Bc5RgUnorm,
    Bc5RgSnorm,
    Bc6hRgbUfloat,
    Bc6hRgbFloat,
    Bc7RgbaUnorm,
    Bc7RgbaUnormSrgb,
    Etc2Rgb8Unorm,
    Etc2Rgb8UnormSrgb,
    Etc2Rgb8A1Unorm,
    Etc2Rgb8A1UnormSrgb,
    Etc2Rgba8Unorm,
    Etc2Rgba8UnormSrgb,
    EacR11Unorm,
    EacR11Snorm,
    EacRg11Unorm,
    EacRg11Snorm,
    Astc { block: AstcBlock, channel: AstcChannel },
}

/// Number of dimensions of a texture.
#[derive(Debug, Clone, Copy, PartialEq, Eq, Structural)]
pub enum TextureDimension {
    D1,
    D2,
    D3,
}

/// What a texture may be used for.
#[derive(Debug, Clone, Copy, PartialEq, Eq, Structural)]
pub struct TextureUsage {
    pub copy_src: bool,
    pub copy_dst: bool,
    pub texture_binding: bool,
}

/// The debug label of a texture or a command encoder.
#[derive(Debug, Clone, Copy, PartialEq, Eq, Structural)]
pub enum Label {
    /// The texture that a synchronous DMA-BUF copy creates.
    OwnedDmaBuf,
    /// The encoder of a synchronous DMA-BUF copy.
    OwnedDmaBufCopy,
    /// The encoder of a deferred DMA-BUF copy.
    DmaBufCopy,
    /// The encoder that follows a deferred copy made outside the command stream.
    DmaBufFollowUp,
    /// The texture that aliases an `IOSurface`.
    IoSurface,
    /// The texture that aliases a shared handle's resource.
    SharedHandle,
}

impl Label {
    /// The characters of the label.
    pub open spec fn characters(self) -> Seq<char> {
        match self {
            Label::OwnedDmaBuf => "wgpu_external_frame_owned_dma_buf"@,
            Label::OwnedDmaBufCopy => "wgpu_external_frame_owned_dma_buf_copy"@,
            Label::DmaBufCopy => "wgpu_external_frame_dma_buf_copy"@,
            Label::DmaBufFollowUp => "wgpu_external_frame_dma_buf_follow_up"@,
            Label::IoSurface => "wgpu_external_frame_io_surface"@,
            Label::SharedHandle => "wgpu_external_frame_shared_handle"@,
        }
    }

    /// The label as text.
    pub fn text(self) -> (text: &'static str)
        ensures
            text@ == self.characters(),
    {
        match self {
            Label::OwnedDmaBuf => "wgpu_external_frame_owned_dma_buf",
            Label::OwnedDmaBufCopy => "wgpu_external_frame_owned_dma_buf_copy",
            Label::DmaBufCopy => "wgpu_external_frame_dma_buf_copy",
            Label::DmaBufFollowUp => "wgpu_external_frame_dma_buf_follow_up",
            Label::IoSurface => "wgpu_external_frame_io_surface",
            Label::SharedHandle => "wgpu_external_frame_shared_handle",
        }
    }
}

/// A texture to create, or to adopt from a raw driver object. No format other
/// than `format` may view it.
#[derive(Debug, Clone, Copy, PartialEq, Eq, Structural)]
pub struct TextureRequest {
    pub label: Label,
    pub width: u32,
    pub height: u32,
    pub depth_or_array_layers: u32,
    pub mip_level_count: u32,
    pub sample_count: u32,
    pub dimension: TextureDimension,
    pub format: TextureFormat,
    pub usage: TextureUsage,
}

impl TextureRequest {
    /// A single two-dimensional image: one layer, one mip level, one sample.
    pub open spec fn spec_flat(
        label: Label,
        width: u32,
        height: u32,
        format: TextureFormat,
        usage: TextureUsage,
    ) -> TextureRequest {
        TextureRequest {
            label,
            width,
            height,
            depth_or_array_layers: 1,
            mip_level_count: 1,
            sample_count: 1,
            dimension: TextureDimension::D2,
            format,
            usage,
        }
    }

    /// A flat texture has the extent, the format, the usage and the label that it
    /// was asked for with, and is one two-dimensional image, whatever they are.
    pub proof fn lemma_flat_keeps_what_it_is_given(
        label: Label,
        width: u32,
        height: u32,
        format: TextureFormat,
        usage: TextureUsage,
    )
        ensures
            ({
                let request = Self::spec_flat(label, width, height, format, usage);
                &&& request.label == label
                &&& request.width == width && request.height == height
                &&& request.format == format
                &&& request.usage == usage
                &&& request.dimension == TextureDimension::D2
                &&& request.depth_or_array_layers == 1
                &&& request.mip_level_count == 1 && request.sample_count == 1
            }),
    {
    }

    /// Describes a single two-dimensional image.
    pub fn flat(
        label: Label,
        width: u32,
        height: u32,
        format: TextureFormat,
        usage: TextureUsage,
    ) -> (request: Self)
        ensures
            request == Self::spec_flat(label, width, height, format, usage),
    {
        TextureRequest {
            label,
            width,
            height,
            depth_or_array_layers: 1,
            mip_level_count: 1,
            sample_count: 1,
            dimension: TextureDimension::D2,
            format,
            usage,
        }
    }
}

} // verus!
