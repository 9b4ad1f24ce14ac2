//! DMA-BUF import through Vulkan external memory.
//!
//! Vulkan objects are their 64-bit handles here. An import goes through the
//! states [`PendingImage`], [`PendingMemory`], [`PendingType`],
//! [`PendingAllocation`] and [`PendingBinding`] to [`ImportedVulkanImage`]: each
//! state says what the driver is to be asked for, takes what the driver
//! answered, and gives the next state, or the reason to stop and what has to be
//! given back first.
use vstd::prelude::*;

use crate::dma_buf::frame::{
    BufferLayout, DmaBufFormat, DmaBufFrame, DmaBufPlane, FrameView, DRM_FORMAT_MOD_INVALID,
};
use crate::texture::TextureFormat;
use ash::vk;

verus! {

/// `ash::khr::external_memory_fd::NAME`: the extension that imports memory from
/// a descriptor is called `VK_KHR_external_memory_fd`.
#[verifier::external_body]
fn external_memory_fd_name() -> (name: String)
    ensures
        name@ == "VK_KHR_external_memory_fd"@,
{
    ash::khr::external_memory_fd::NAME.to_string_lossy().into_owned()
}

/// `ash::ext::external_memory_dma_buf::NAME`: the extension for which such a
/// descriptor may be a DMA-BUF is called `VK_EXT_external_memory_dma_buf`.
#[verifier::external_body]
fn external_memory_dma_buf_name() -> (name: String)
    ensures
        name@ == "VK_EXT_external_memory_dma_buf"@,
{
    ash::ext::external_memory_dma_buf::NAME.to_string_lossy().into_owned()
}

/// `ash::ext::image_drm_format_modifier::NAME`: the extension that lays an image
/// out by a DRM modifier is called `VK_EXT_image_drm_format_modifier`.
#[verifier::external_body]
fn image_drm_format_modifier_name() -> (name: String)
    ensures
        name@ == "VK_EXT_image_drm_format_modifier"@,
{
    ash::ext::image_drm_format_modifier::NAME.to_string_lossy().into_owned()
}

/// `MemoryPropertyFlags::contains` of ash, asked for `DEVICE_LOCAL`: whether
/// that flag's bit, the lowest one, is set.
#[verifier::external_body]
fn is_device_local(property_flags: u32) -> (local: bool)
    ensures
        local == device_local(property_flags),
{
    vk::MemoryPropertyFlags::from_raw(property_flags).contains(vk::MemoryPropertyFlags::DEVICE_LOCAL)
}

/// Whether a memory type's property flags say that the memory is on the device.
pub open spec fn device_local(property_flags: u32) -> bool {
    property_flags & 1u32 == 1u32
}

/// Why an import did not succeed.
#[derive(Debug, Clone, Copy, PartialEq, Eq, Structural)]
pub enum ImportRejection {
    /// The device is not a Vulkan device.
    OtherBackend,
    /// `VK_KHR_external_memory_fd` is not enabled.
    NoExternalMemoryFd,
    /// `VK_EXT_external_memory_dma_buf` is not enabled.
    NoExternalMemoryDmaBuf,
    /// `VK_EXT_image_drm_format_modifier` is not enabled.
    NoImageDrmFormatModifier,
    /// The frame has no explicit DRM format modifier.
    ImplicitModifier,
    /// The frame has no plane.
    NoPlane,
    /// The image was not created.
    ImageCreation,
    /// The driver could not tell the descriptor's memory properties.
    DescriptorQuery,
    /// No memory type suits both the image and the descriptor.
    IncompatibleMemory,
    /// The device does not have any of the suitable memory types.
    NoMemoryType,
    /// The descriptor was not imported as memory.
    Allocation,
    /// The memory was not bound to the image.
    Binding,
}

/// What is read of a Vulkan device.
#[derive(Debug)]
pub struct VulkanDevice {
    /// The names of the enabled device extensions.
    pub extensions: Vec<String>,
    /// The queue family that commands are submitted to.
    pub queue_family_index: u32,
}

/// Whether an extension of this name is enabled.
pub open spec fn enables(extensions: Seq<String>, name: Seq<char>) -> bool {
    exists|i: int| 0 <= i < extensions.len() && (#[trigger] extensions[i])@ == name
}

/// The first reason for which a device does not import a buffer with this
/// modifier.
pub open spec fn device_rejection(extensions: Seq<String>, modifier: u64) -> Option<
    ImportRejection,
> {
    if !enables(extensions, "VK_KHR_external_memory_fd"@) {
        Some(ImportRejection::NoExternalMemoryFd)
    } else if !enables(extensions, "VK_EXT_external_memory_dma_buf"@) {
        Some(ImportRejection::NoExternalMemoryDmaBuf)
    } else if !enables(extensions, "VK_EXT_image_drm_format_modifier"@) {
        Some(ImportRejection::NoImageDrmFormatModifier)
    } else if modifier == DRM_FORMAT_MOD_INVALID {
        Some(ImportRejection::ImplicitModifier)
    } else {
        None
    }
}

/// Whether one of the names is `name`.
fn contains_name(extensions: &Vec<String>, name: &String) -> (found: bool)
    ensures
        found == enables(extensions@, name@),
{
    let mut index: usize = 0;
    while index < extensions.len()
        invariant
            index <= extensions@.len(),
            forall|i: int| 0 <= i < index ==> (#[trigger] extensions@[i])@ != name@,
        decreases extensions@.len() - index,
    {
        if extensions[index] == *name {
            assert(extensions@[index as int]@ == name@);
            return true;
        }
        index = index + 1;
    }
    false
}

/// Checks that a device can import a buffer with this modifier.
pub fn validate_import(extensions: &Vec<String>, modifier: u64) -> (valid: Result<
    (),
    ImportRejection,
>)
    ensures
        match valid {
            Ok(()) => device_rejection(extensions@, modifier) is None,
            Err(reason) => device_rejection(extensions@, modifier) == Some(reason),
        },
{
    if !contains_name(extensions, &external_memory_fd_name()) {
        Err(ImportRejection::NoExternalMemoryFd)
    } else if !contains_name(extensions, &external_memory_dma_buf_name()) {
        Err(ImportRejection::NoExternalMemoryDmaBuf)
    } else if !contains_name(extensions, &image_drm_format_modifier_name()) {
        Err(ImportRejection::NoImageDrmFormatModifier)
    } else if modifier == DRM_FORMAT_MOD_INVALID {
        Err(ImportRejection::ImplicitModifier)
    } else {
        Ok(())
    }
}

/// No device, whatever it enables, imports a buffer without an explicit
/// modifier.
pub proof fn lemma_implicit_modifier_is_rejected(extensions: Seq<String>)
    ensures
        device_rejection(extensions, DRM_FORMAT_MOD_INVALID) is Some,
{
}

/// A device imports a buffer exactly where each of the three extensions is among
/// those it enables, letter for letter, and the modifier is an explicit one. The
/// extensions are told in order, before the modifier.
pub proof fn lemma_device_needs_every_extension(extensions: Seq<String>, modifier: u64)
    ensures
        device_rejection(extensions, modifier) == Some(ImportRejection::NoExternalMemoryFd) <==> (
        forall|i: int|
            0 <= i < extensions.len() ==> (#[trigger] extensions[i])@
                != "VK_KHR_external_memory_fd"@),
        device_rejection(extensions, modifier) == Some(ImportRejection::NoExternalMemoryDmaBuf)
            ==> (forall|i: int|
            0 <= i < extensions.len() ==> (#[trigger] extensions[i])@
                != "VK_EXT_external_memory_dma_buf"@),
        device_rejection(extensions, modifier) == Some(ImportRejection::NoImageDrmFormatModifier)
            ==> (forall|i: int|
            0 <= i < extensions.len() ==> (#[trigger] extensions[i])@
                != "VK_EXT_image_drm_format_modifier"@),
        device_rejection(extensions, modifier) == Some(ImportRejection::ImplicitModifier)
            ==> modifier == 0xffff_ffff_ffff_ffff,
        device_rejection(extensions, modifier) is None <==> {
            &&& exists|i: int|
                0 <= i < extensions.len() && (#[trigger] extensions[i])@
                    == "VK_KHR_external_memory_fd"@
            &&& exists|i: int|
                0 <= i < extensions.len() && (#[trigger] extensions[i])@
                    == "VK_EXT_external_memory_dma_buf"@
            &&& exists|i: int|
                0 <= i < extensions.len() && (#[trigger] extensions[i])@
                    == "VK_EXT_image_drm_format_modifier"@
            &&& modifier != 0xffff_ffff_ffff_ffff
        },
        device_rejection(extensions, modifier) matches Some(reason) ==> {
            ||| reason == ImportRejection::NoExternalMemoryFd
            ||| reason == ImportRejection::NoExternalMemoryDmaBuf
            ||| reason == ImportRejection::NoImageDrmFormatModifier
            ||| reason == ImportRejection::ImplicitModifier
        },
        (exists|i: int|
            0 <= i < extensions.len() && (#[trigger] extensions[i])@
                == "VK_KHR_external_memory_fd"@) && (forall|i: int|
            0 <= i < extensions.len() ==> (#[trigger] extensions[i])@
                != "VK_EXT_external_memory_dma_buf"@) ==> device_rejection(extensions, modifier)
            == Some(ImportRejection::NoExternalMemoryDmaBuf),
        device_rejection(extensions, modifier) == Some(ImportRejection::ImplicitModifier) ==> (
        exists|i: int|
            0 <= i < extensions.len() && (#[trigger] extensions[i])@
                == "VK_EXT_image_drm_format_modifier"@),
{
}

/// Whether memory type `index` is among the types of a bit mask.
pub open spec fn among(type_bits: u32, index: int) -> bool {
    0 <= index < 32 && type_bits & (1u32 << (index as u32)) != 0
}

/// Whether `index` is a memory type of the device and among the types of a bit
/// mask. `types` holds the property flags of the device's types.
pub open spec fn usable(type_bits: u32, types: Seq<u32>, index: int) -> bool {
    0 <= index < types.len() && among(type_bits, index)
}

/// Whether `index` is the type to take: the first usable type on the device,
/// or, where none of the usable types is, the first usable type.
pub open spec fn is_preferred(type_bits: u32, types: Seq<u32>, index: int) -> bool {
    &&& usable(type_bits, types, index)
    &&& if device_local(types[index]) {
        forall|i: int| 0 <= i < index && usable(type_bits, types, i) ==> !device_local(types[i])
    } else {
        &&& forall|i: int| usable(type_bits, types, i) ==> !device_local(types[i])
        &&& forall|i: int| 0 <= i < index ==> !usable(type_bits, types, i)
    }
}

/// A type is usable exactly where the device has it and the mask, shifted down
/// to its bit, is odd; a type is on the device exactly where its flags are odd.
pub proof fn lemma_usable_in_numbers(type_bits: u32, types: Seq<u32>, index: int)
    ensures
        usable(type_bits, types, index) <==> 0 <= index < types.len() && index < 32 && (type_bits >> (
        index as u32)) % 2 == 1,
        0 <= index < types.len() ==> (device_local(types[index]) <==> types[index] % 2 == 1),
{
    if 0 <= index < 32 {
        let at: u32 = index as u32;
        assert(type_bits & (1u32 << at) != 0 <==> (type_bits >> at) % 2 == 1) by (bit_vector)
            requires
                at < 32,
        ;
    }
    if 0 <= index < types.len() {
        let flags: u32 = types[index];
        assert(flags & 1u32 == 1u32 <==> flags % 2 == 1) by (bit_vector);
    }
}

/// The type to take is usable, and no usable type is better: none is on the
/// device unless the taken one is, and none that comes first is as good.
pub proof fn lemma_no_type_is_better(type_bits: u32, types: Seq<u32>, index: int, other: int)
    requires
        is_preferred(type_bits, types, index),
        0 <= other < types.len(),
        other < 32,
        (type_bits >> (other as u32)) % 2 == 1,
    ensures
        0 <= index < types.len(),
        index < 32,
        (type_bits >> (index as u32)) % 2 == 1,
        types[other] % 2 == 1 ==> types[index] % 2 == 1,
        other < index ==> types[index] % 2 == 1 && types[other] % 2 == 0,
{
    lemma_usable_in_numbers(type_bits, types, index);
    lemma_usable_in_numbers(type_bits, types, other);
}

/// Picks the memory type for an import: among those whose bit is set, the first
/// on the device, else the first of all. A Vulkan device has at most 32 memory
/// types.
pub fn select_memory_type(type_bits: u32, types: &Vec<u32>) -> (selected: Option<u32>)
    requires
        types@.len() <= 32,
    ensures
        match selected {
            Some(index) => is_preferred(type_bits, types@, index as int),
            None => forall|i: int| !usable(type_bits, types@, i),
        },
{
    let mut first: Option<u32> = None;
    let mut index: u32 = 0;
    let count: u32 = types.len() as u32;
    while index < count
        invariant
            count == types@.len() <= 32,
            index <= count,
            match first {
                Some(found) => {
                    &&& found < index
                    &&& usable(type_bits, types@, found as int)
                    &&& forall|i: int| 0 <= i < found ==> !usable(type_bits, types@, i)
                },
                None => forall|i: int| 0 <= i < index ==> !usable(type_bits, types@, i),
            },
            forall|i: int|
                0 <= i < index && usable(type_bits, types@, i) ==> !device_local(types@[i]),
        decreases count - index,
    {
        if type_bits & (1u32 << index) != 0 {
            assert(usable(type_bits, types@, index as int));
            if first.is_none() {
                first = Some(index);
            }
            if is_device_local(types[index as usize]) {
                return Some(index);
            }
        }
        index = index + 1;
    }
    first
}

/// There is at most one type to take.
pub proof fn lemma_preferred_type_is_unique(type_bits: u32, types: Seq<u32>, a: int, b: int)
    requires
        is_preferred(type_bits, types, a),
        is_preferred(type_bits, types, b),
    ensures
        a == b,
{
}

/// A type that is picked from the types common to two masks is in both.
pub proof fn lemma_common_type_is_in_both(image_bits: u32, descriptor_bits: u32, index: int)
    requires
        among(image_bits & descriptor_bits, index),
    ensures
        among(image_bits, index),
        among(descriptor_bits, index),
{
    let bit: u32 = 1u32 << (index as u32);
    assert(image_bits & bit != 0 && descriptor_bits & bit != 0) by (bit_vector)
        requires
            (image_bits & descriptor_bits) & bit != 0,
    ;
}

/// The types common to two masks are exactly those that are in both.
pub proof fn lemma_common_types_are_those_in_both(
    image_bits: u32,
    descriptor_bits: u32,
    index: int,
)
    ensures
        among(image_bits & descriptor_bits, index) <==> among(image_bits, index) && among(
            descriptor_bits,
            index,
        ),
{
    if 0 <= index < 32 {
        let at: u32 = index as u32;
        assert((image_bits & descriptor_bits) & (1u32 << at) != 0 <==> image_bits & (1u32 << at)
            != 0 && descriptor_bits & (1u32 << at) != 0) by (bit_vector)
            requires
                at < 32,
        ;
    }
}

/// Number of dimensions of an image.
#[derive(Debug, Clone, Copy, PartialEq, Eq, Structural)]
pub enum ImageType {
    Type1d,
    Type2d,
    Type3d,
}

/// Format of an image.
#[derive(Debug, Clone, Copy, PartialEq, Eq, Structural)]
pub enum ImageFormat {
    B8G8R8A8Unorm,
    R8G8B8A8Unorm,
}

/// How texels are arranged in memory.
#[derive(Debug, Clone, Copy, PartialEq, Eq, Structural)]
pub enum ImageTiling {
    Optimal,
    Linear,
    DrmFormatModifier,
}

/// What an image is used for.
#[derive(Debug, Clone, Copy, PartialEq, Eq, Structural)]
pub enum ImageUsage {
    TransferSource,
    TransferDestination,
}

/// How queue families share an image.
#[derive(Debug, Clone, Copy, PartialEq, Eq, Structural)]
pub enum SharingMode {
    Exclusive,
    Concurrent,
}

/// The layout an image is in.
#[derive(Debug, Clone, Copy, PartialEq, Eq, Structural)]
pub enum ImageLayout {
    Undefined,
    General,
    TransferSource,
    TransferDestination,
}

/// A kind of handle that memory is imported from.
#[derive(Debug, Clone, Copy, PartialEq, Eq, Structural)]
pub enum HandleType {
    OpaqueDescriptor,
    DmaBuf,
}

/// Where the texels of a plane lie.
#[derive(Debug, Clone, Copy, PartialEq, Eq, Structural)]
pub struct PlaneLayout {
    pub offset: u64,
    pub size: u64,
    pub row_pitch: u64,
    pub array_pitch: u64,
    pub depth_pitch: u64,
}

/// An image to create over external memory: the arguments of `vkCreateImage`.
#[derive(Debug, Clone, Copy, PartialEq, Eq, Structural)]
pub struct ImageRequest {
    pub handle_type: HandleType,
    pub modifier: u64,
    /// The layout of the image's only plane.
    pub plane: PlaneLayout,
    pub image_type: ImageType,
    pub format: ImageFormat,
    pub width: u32,
    pub height: u32,
    pub depth: u32,
    pub mip_levels: u32,
    pub array_layers: u32,
    pub samples: u32,
    pub tiling: ImageTiling,
    pub usage: ImageUsage,
    pub sharing_mode: SharingMode,
    pub initial_layout: ImageLayout,
}

/// The image format of a buffer: the order of its channels, whether or not the
/// fourth is alpha.
pub open spec fn image_format(format: DmaBufFormat) -> ImageFormat {
    if format.with_alpha() == DmaBufFormat::Bgra8 {
        ImageFormat::B8G8R8A8Unorm
    } else {
        ImageFormat::R8G8B8A8Unorm
    }
}

/// The image over a buffer: as large as the allocation, laid out by the
/// buffer's modifier and its plane's offset and stride, and only copied from.
pub open spec fn image_request(layout: BufferLayout, offset: u32, stride: u32) -> ImageRequest {
    ImageRequest {
        handle_type: HandleType::DmaBuf,
        modifier: layout.modifier,
        plane: PlaneLayout {
            offset: offset as u64,
            size: 0,
            row_pitch: stride as u64,
            array_pitch: 0,
            depth_pitch: 0,
        },
        image_type: ImageType::Type2d,
        format: image_format(layout.format),
        width: layout.width,
        height: layout.height,
        depth: 1,
        mip_levels: 1,
        array_layers: 1,
        samples: 1,
        tiling: ImageTiling::DrmFormatModifier,
        usage: ImageUsage::TransferSource,
        sharing_mode: SharingMode::Exclusive,
        initial_layout: ImageLayout::Undefined,
    }
}

/// The image is read from where the buffer's texels are: it starts at the
/// plane's own offset, its rows lie the plane's own stride apart, and the tiling
/// is the buffer's own modifier. It is as large as the buffer and has its
/// channels in the buffer's order.
pub proof fn lemma_image_lies_over_plane(layout: BufferLayout, offset: u32, stride: u32)
    ensures
        ({
            let request = image_request(layout, offset, stride);
            &&& request.plane.offset == offset
            &&& request.plane.row_pitch == stride
            &&& request.plane.size == 0
            &&& request.plane.array_pitch == 0 && request.plane.depth_pitch == 0
            &&& request.modifier == layout.modifier
            &&& request.tiling == ImageTiling::DrmFormatModifier
            &&& request.width == layout.width && request.height == layout.height
            &&& request.format == ImageFormat::B8G8R8A8Unorm <==> (layout.format
                == DmaBufFormat::Bgra8 || layout.format == DmaBufFormat::Bgrx8)
            &&& request.format == ImageFormat::R8G8B8A8Unorm <==> (layout.format
                == DmaBufFormat::Rgba8 || layout.format == DmaBufFormat::Rgbx8)
        }),
{
}

/// The image is one flat image over a DMA-BUF that one queue family at a time
/// copies from, and nothing is known of its layout, whatever the buffer.
pub proof fn lemma_image_is_flat_and_copied_from(layout: BufferLayout, offset: u32, stride: u32)
    ensures
        ({
            let request = image_request(layout, offset, stride);
            &&& request.handle_type == HandleType::DmaBuf
            &&& request.image_type == ImageType::Type2d
            &&& request.depth == 1 && request.mip_levels == 1
            &&& request.array_layers == 1 && request.samples == 1
            &&& request.usage == ImageUsage::TransferSource
            &&& request.sharing_mode == SharingMode::Exclusive
            &&& request.initial_layout == ImageLayout::Undefined
        }),
{
}

/// Describes the image over a buffer's plane.
pub fn create_import_image(layout: BufferLayout, offset: u32, stride: u32) -> (request: ImageRequest)
    ensures
        request == image_request(layout, offset, stride),
        request.plane.offset == offset,
        request.plane.row_pitch == stride,
        request.modifier == layout.modifier,
        request.width == layout.width,
        request.height == layout.height,
{
    ImageRequest {
        handle_type: HandleType::DmaBuf,
        modifier: layout.modifier,
        plane: PlaneLayout {
            offset: offset as u64,
            size: 0,
            row_pitch: stride as u64,
            array_pitch: 0,
            depth_pitch: 0,
        },
        image_type: ImageType::Type2d,
        format: match layout.format {
            DmaBufFormat::Bgra8 | DmaBufFormat::Bgrx8 => ImageFormat::B8G8R8A8Unorm,
            DmaBufFormat::Rgba8 | DmaBufFormat::Rgbx8 => ImageFormat::R8G8B8A8Unorm,
        },
        width: layout.width,
        height: layout.height,
        depth: 1,
        mip_levels: 1,
        array_layers: 1,
        samples: 1,
        tiling: ImageTiling::DrmFormatModifier,
        usage: ImageUsage::TransferSource,
        sharing_mode: SharingMode::Exclusive,
        initial_layout: ImageLayout::Undefined,
    }
}

/// The imported image and the texture it is copied to have their channels in
/// the same order, for every format.
pub proof fn lemma_image_format_matches_texture(format: DmaBufFormat)
    ensures
        image_format(format) == ImageFormat::B8G8R8A8Unorm <==> format.spec_texture_format()
            == TextureFormat::Bgra8Unorm,
        image_format(format) == ImageFormat::R8G8B8A8Unorm <==> format.spec_texture_format()
            == TextureFormat::Rgba8Unorm,
{
}

/// One thing to give back to the driver or the system.
#[derive(Debug, Clone, Copy, PartialEq, Eq, Structural)]
pub enum GiveBack {
    DestroyImage(u64),
    /// Freeing imported memory also closes the descriptor it was imported from.
    FreeMemory(u64),
    CloseDescriptor(i32),
}

/// An import that stopped: why, and what to give back, in order.
#[derive(Debug)]
pub struct ImportFailure {
    pub reason: ImportRejection,
    pub give_back: Vec<GiveBack>,
}

/// Who has to close the buffer's descriptor.
pub enum DescriptorOwner {
    /// The plane: the descriptor is closed when the plane is dropped.
    Plane,
    /// Nobody but the importer, by its number.
    Importer(i32),
    /// The driver: the descriptor is closed when the memory is freed.
    Driver,
    /// It is closed.
    Closed,
}

/// What an import holds.
pub struct Holdings {
    pub image: Option<u64>,
    pub memory: Option<u64>,
    pub descriptor: DescriptorOwner,
}

impl Holdings {
    /// What is held after one thing is given back; `None` where it is not held,
    /// and for memory whose image is still held: the image goes first.
    pub open spec fn without(self, what: GiveBack) -> Option<Holdings> {
        match what {
            GiveBack::DestroyImage(image) => if self.image == Some(image) {
                Some(Holdings { image: None, ..self })
            } else {
                None
            },
            GiveBack::FreeMemory(memory) => if self.memory == Some(memory) && self.image is None {
                Some(Holdings { memory: None, descriptor: DescriptorOwner::Closed, ..self })
            } else {
                None
            },
            GiveBack::CloseDescriptor(fd) => if self.descriptor == DescriptorOwner::Importer(fd) {
                Some(Holdings { descriptor: DescriptorOwner::Closed, ..self })
            } else {
                None
            },
        }
    }

    /// What is held after the first `count` things of a list are given back.
    pub open spec fn without_all(self, list: Seq<GiveBack>, count: nat) -> Option<Holdings>
        decreases count,
    {
        if count == 0 {
            Some(self)
        } else {
            match self.without_all(list, (count - 1) as nat) {
                Some(rest) => rest.without(list[count - 1]),
                None => None,
            }
        }
    }

    /// Whether giving the list back is in order, nothing of it twice and no
    /// memory before its image, and leaves nothing: no image, no memory, and a
    /// descriptor that is closed or that its plane closes.
    pub open spec fn is_settled_by(self, list: Seq<GiveBack>) -> bool {
        match self.without_all(list, list.len()) {
            Some(rest) => {
                &&& rest.image is None
                &&& rest.memory is None
                &&& rest.descriptor == DescriptorOwner::Closed || rest.descriptor
                    == DescriptorOwner::Plane
            },
            None => false,
        }
    }
}

/// What the driver needs of the memory behind an image.
#[derive(Debug, Clone, Copy, PartialEq, Eq, Structural)]
pub struct MemoryRequirements {
    pub size: u64,
    pub type_bits: u32,
}

/// Memory to import from a descriptor: the arguments of `vkAllocateMemory`.
#[derive(Debug, Clone, Copy, PartialEq, Eq, Structural)]
pub struct AllocationRequest {
    pub handle_type: HandleType,
    /// The one image that the memory is for.
    pub dedicated_image: u64,
    pub size: u64,
    pub memory_type_index: u32,
}

/// An import whose image is to be created.
#[derive(Debug)]
pub struct PendingImage<F> {
    pub request: ImageRequest,
    pub plane: DmaBufPlane<F>,
    pub queue_family_index: u32,
}

/// An import whose image exists, and for which the driver is to be asked what
/// memory suits the image and the descriptor.
#[derive(Debug)]
pub struct PendingMemory<F> {
    pub image: u64,
    pub plane: DmaBufPlane<F>,
    pub queue_family_index: u32,
}

/// An import that is to pick a memory type among `type_bits`.
#[derive(Debug)]
pub struct PendingType<F> {
    pub image: u64,
    pub size: u64,
    pub type_bits: u32,
    pub plane: DmaBufPlane<F>,
    pub queue_family_index: u32,
}

/// An import whose memory is to be allocated from the descriptor. The
/// descriptor is no longer the plane's: the driver takes it, or the importer
/// closes it.
#[derive(Debug, PartialEq, Eq, Structural)]
pub struct PendingAllocation {
    pub request: AllocationRequest,
    pub queue_family_index: u32,
}

/// An import whose memory is to be bound to its image, at offset zero.
#[derive(Debug, PartialEq, Eq, Structural)]
pub struct PendingBinding {
    pub image: u64,
    pub memory: u64,
    pub queue_family_index: u32,
}

/// An image aliasing an imported DMA-BUF, to be kept until the GPU work reading
/// it has completed.
#[derive(Debug, PartialEq, Eq, Structural)]
pub struct ImportedVulkanImage {
    pub image: u64,
    pub memory: u64,
    pub queue_family_index: u32,
}

/// The first reason for which an import does not start.
pub open spec fn import_rejection<F, L>(
    device: Option<VulkanDevice>,
    frame: FrameView<F, L>,
) -> Option<ImportRejection> {
    match device {
        None => Some(ImportRejection::OtherBackend),
        Some(device) => match device_rejection(device.extensions@, frame.layout.modifier) {
            Some(reason) => Some(reason),
            None => if frame.planes.len() == 0 {
                Some(ImportRejection::NoPlane)
            } else {
                None
            },
        },
    }
}

/// An import starts exactly where there is a Vulkan device that can import the
/// buffer and the frame has a plane. The device is told first.
pub proof fn lemma_import_needs_device_and_plane<F, L>(
    device: Option<VulkanDevice>,
    frame: FrameView<F, L>,
)
    ensures
        import_rejection(device, frame) == Some(ImportRejection::OtherBackend) <==> device is None,
        device is Some && device_rejection(device->0.extensions@, frame.layout.modifier) is Some
            ==> import_rejection(device, frame) == device_rejection(
            device->0.extensions@,
            frame.layout.modifier,
        ),
        device is Some && device_rejection(device->0.extensions@, frame.layout.modifier) is None
            ==> if frame.planes.len() == 0 {
            import_rejection(device, frame) == Some(ImportRejection::NoPlane)
        } else {
            import_rejection(device, frame) is None
        },
{
    if device is Some {
        lemma_device_needs_every_extension(device->0.extensions@, frame.layout.modifier);
    }
}

/// Starts the import of a frame's plane on a device, which is `None` where the
/// device is not a Vulkan device. The plane leaves the frame only where the
/// import starts.
pub fn import_dma_buf<F, L>(device: Option<VulkanDevice>, frame: &mut DmaBufFrame<F, L>) -> (started:
    Result<PendingImage<F>, ImportRejection>)
    ensures
        match started {
            Ok(pending) => {
                let plane = old(frame)@.planes.last();
                &&& import_rejection(device, old(frame)@) is None
                &&& pending.plane == plane
                &&& pending.request == image_request(
                    old(frame)@.layout,
                    plane.offset,
                    plane.stride,
                )
                &&& pending.request.plane.offset == plane.offset
                &&& pending.request.plane.row_pitch == plane.stride
                &&& pending.request.modifier == old(frame)@.layout.modifier
                &&& pending.request.width == old(frame)@.layout.width
                &&& pending.request.height == old(frame)@.layout.height
                &&& pending.queue_family_index == device->0.queue_family_index
                &&& final(frame)@ == (FrameView::<F, L> {
                    planes: old(frame)@.planes.drop_last(),
                    ..old(frame)@
                })
            },
            Err(reason) => {
                &&& import_rejection(device, old(frame)@) == Some(reason)
                &&& final(frame)@ == old(frame)@
            },
        },
{
    let device = match device {
        Some(device) => device,
        None => {
            return Err(ImportRejection::OtherBackend);
        },
    };
    let layout = frame.layout();
    match validate_import(&device.extensions, layout.modifier) {
        Ok(()) => {},
        Err(reason) => {
            return Err(reason);
        },
    }
    match frame.take_plane() {
        Some(plane) => Ok(
            PendingImage {
                request: create_import_image(layout, plane.offset, plane.stride),
                plane,
                queue_family_index: device.queue_family_index,
            },
        ),
        None => Err(ImportRejection::NoPlane),
    }
}

impl<F> PendingImage<F> {
    /// What the import holds: the descriptor, in its plane.
    pub open spec fn holdings(&self) -> Holdings {
        Holdings { image: None, memory: None, descriptor: DescriptorOwner::Plane }
    }

    /// Takes the image that the driver created, if it did.
    pub fn created(self, image: Option<u64>) -> (next: Result<PendingMemory<F>, ImportFailure>)
        ensures
            match next {
                Ok(next) => {
                    &&& image == Some(next.image)
                    &&& next.plane == self.plane
                    &&& next.queue_family_index == self.queue_family_index
                },
                Err(failure) => {
                    &&& image is None
                    &&& failure.reason == ImportRejection::ImageCreation
                    &&& failure.give_back@ == Seq::<GiveBack>::empty()
                    &&& self.holdings().is_settled_by(failure.give_back@)
                },
            },
    {
        match image {
            Some(image) => Ok(
                PendingMemory {
                    image,
                    plane: self.plane,
                    queue_family_index: self.queue_family_index,
                },
            ),
            None => Err(
                ImportFailure { reason: ImportRejection::ImageCreation, give_back: Vec::new() },
            ),
        }
    }
}

impl<F> PendingMemory<F> {
    /// What the import holds: the image, and the descriptor in its plane.
    pub open spec fn holdings(&self) -> Holdings {
        Holdings { image: Some(self.image), memory: None, descriptor: DescriptorOwner::Plane }
    }

    /// Takes what the image requires of its memory, and the mask of the memory
    /// types that the descriptor can be imported to, if the driver could tell.
    ///
    /// Where no type suits both, the image stays with the device that made it.
    pub fn suited(self, requirements: MemoryRequirements, descriptor_bits: Option<u32>) -> (next:
        Result<PendingType<F>, ImportFailure>)
        ensures
            match next {
                Ok(next) => {
                    &&& descriptor_bits is Some
                    &&& next.type_bits == requirements.type_bits & descriptor_bits->0
                    &&& next.type_bits != 0
                    &&& forall|i: int|
                        #[trigger] among(next.type_bits, i) <==> among(requirements.type_bits, i)
                            && among(descriptor_bits->0, i)
                    &&& next.image == self.image
                    &&& next.size == requirements.size
                    &&& next.plane == self.plane
                    &&& next.queue_family_index == self.queue_family_index
                },
                Err(failure) => match descriptor_bits {
                    None => {
                        &&& failure.reason == ImportRejection::DescriptorQuery
                        &&& failure.give_back@ == seq![GiveBack::DestroyImage(self.image)]
                        &&& self.holdings().is_settled_by(failure.give_back@)
                    },
                    Some(bits) => {
                        &&& requirements.type_bits & bits == 0
                        &&& failure.reason == ImportRejection::IncompatibleMemory
                        &&& failure.give_back@ == Seq::<GiveBack>::empty()
                    },
                },
            },
    {
        let bits: u32 = match descriptor_bits {
            Some(bits) => bits,
            None => {
                let give_back: Vec<GiveBack> = vec![GiveBack::DestroyImage(self.image)];
                proof {
                    reveal_with_fuel(Holdings::without_all, 2);
                    assert(give_back@ =~= seq![GiveBack::DestroyImage(self.image)]);
                }
                return Err(ImportFailure { reason: ImportRejection::DescriptorQuery, give_back });
            },
        };
        let type_bits: u32 = requirements.type_bits & bits;
        assert forall|i: int| #[trigger] among(type_bits, i) <==> among(requirements.type_bits, i)
            && among(bits, i) by {
            lemma_common_types_are_those_in_both(requirements.type_bits, bits, i);
        }
        if type_bits == 0 {
            return Err(
                ImportFailure {
                    reason: ImportRejection::IncompatibleMemory,
                    give_back: Vec::new(),
                },
            );
        }
        Ok(
            PendingType {
                image: self.image,
                size: requirements.size,
                type_bits,
                plane: self.plane,
                queue_family_index: self.queue_family_index,
            },
        )
    }
}

impl<F> PendingType<F> {
    /// What the import holds: the image, and the descriptor in its plane.
    pub open spec fn holdings(&self) -> Holdings {
        Holdings { image: Some(self.image), memory: None, descriptor: DescriptorOwner::Plane }
    }

    /// Picks the memory type, from the property flags of the device's types,
    /// and takes the descriptor out of its plane for the allocation.
    ///
    /// Where the device has none of the suitable types, the image stays with
    /// it.
    pub fn select(self, types: &Vec<u32>) -> (next: Result<(PendingAllocation, F), ImportFailure>)
        requires
            types@.len() <= 32,
        ensures
            match next {
                Ok((next, fd)) => {
                    &&& is_preferred(self.type_bits, types@, next.request.memory_type_index as int)
                    &&& next.request.memory_type_index < types@.len()
                    &&& (self.type_bits >> next.request.memory_type_index) % 2 == 1
                    &&& next.request.handle_type == HandleType::DmaBuf
                    &&& next.request.dedicated_image == self.image
                    &&& next.request.size == self.size
                    &&& next.queue_family_index == self.queue_family_index
                    &&& fd == self.plane.fd
                },
                Err(failure) => {
                    &&& forall|i: int| !usable(self.type_bits, types@, i)
                    &&& failure.reason == ImportRejection::NoMemoryType
                    &&& failure.give_back@ == Seq::<GiveBack>::empty()
                },
            },
    {
        match select_memory_type(self.type_bits, types) {
            Some(memory_type_index) => {
                proof {
                    lemma_usable_in_numbers(self.type_bits, types@, memory_type_index as int);
                }
                Ok(
                    (
                        PendingAllocation {
                            request: AllocationRequest {
                                handle_type: HandleType::DmaBuf,
                                dedicated_image: self.image,
                                size: self.size,
                                memory_type_index,
                            },
                            queue_family_index: self.queue_family_index,
                        },
                        self.plane.fd,
                    ),
                )
            },
            None => Err(
                ImportFailure { reason: ImportRejection::NoMemoryType, give_back: Vec::new() },
            ),
        }
    }
}

impl PendingAllocation {
    /// What the import holds while the driver is asked: the image, and the
    /// descriptor numbered `fd`, which nobody else closes.
    pub open spec fn holdings(&self, fd: i32) -> Holdings {
        Holdings {
            image: Some(self.request.dedicated_image),
            memory: None,
            descriptor: DescriptorOwner::Importer(fd),
        }
    }

    /// Takes the memory that the driver imported from the descriptor numbered
    /// `fd`, if it did. The driver takes the descriptor only where it succeeds.
    pub fn allocated(self, fd: i32, memory: Option<u64>) -> (next: Result<
        PendingBinding,
        ImportFailure,
    >)
        ensures
            match next {
                Ok(next) => {
                    &&& memory == Some(next.memory)
                    &&& next.image == self.request.dedicated_image
                    &&& next.queue_family_index == self.queue_family_index
                },
                Err(failure) => {
                    &&& memory is None
                    &&& failure.reason == ImportRejection::Allocation
                    &&& failure.give_back@ == seq![
                        GiveBack::CloseDescriptor(fd),
                        GiveBack::DestroyImage(self.request.dedicated_image),
                    ]
                    &&& self.holdings(fd).is_settled_by(failure.give_back@)
                },
            },
    {
        match memory {
            Some(memory) => Ok(
                PendingBinding {
                    image: self.request.dedicated_image,
                    memory,
                    queue_family_index: self.queue_family_index,
                },
            ),
            None => {
                let give_back: Vec<GiveBack> = vec![
                    GiveBack::CloseDescriptor(fd),
                    GiveBack::DestroyImage(self.request.dedicated_image),
                ];
                proof {
                    reveal_with_fuel(Holdings::without_all, 3);
                    assert(give_back@ =~= seq![
                        GiveBack::CloseDescriptor(fd),
                        GiveBack::DestroyImage(self.request.dedicated_image),
                    ]);
                }
                Err(ImportFailure { reason: ImportRejection::Allocation, give_back })
            },
        }
    }
}

impl PendingBinding {
    /// What the import holds: the image, and the memory with the descriptor.
    pub open spec fn holdings(&self) -> Holdings {
        Holdings {
            image: Some(self.image),
            memory: Some(self.memory),
            descriptor: DescriptorOwner::Driver,
        }
    }

    /// Takes whether the driver bound the memory to the image. Where it did not,
    /// the memory goes after the image.
    pub fn bound(self, success: bool) -> (imported: Result<ImportedVulkanImage, ImportFailure>)
        ensures
            match imported {
                Ok(imported) => {
                    &&& success
                    &&& imported.image == self.image
                    &&& imported.memory == self.memory
                    &&& imported.queue_family_index == self.queue_family_index
                    &&& imported.holdings() == self.holdings()
                },
                Err(failure) => {
                    &&& !success
                    &&& failure.reason == ImportRejection::Binding
                    &&& failure.give_back@ == seq![
                        GiveBack::DestroyImage(self.image),
                        GiveBack::FreeMemory(self.memory),
                    ]
                    &&& self.holdings().is_settled_by(failure.give_back@)
                },
            },
    {
        if success {
            Ok(
                ImportedVulkanImage {
                    image: self.image,
                    memory: self.memory,
                    queue_family_index: self.queue_family_index,
                },
            )
        } else {
            let give_back: Vec<GiveBack> = vec![
                GiveBack::DestroyImage(self.image),
                GiveBack::FreeMemory(self.memory),
            ];
            proof {
                reveal_with_fuel(Holdings::without_all, 3);
                assert(give_back@ =~= seq![
                    GiveBack::DestroyImage(self.image),
                    GiveBack::FreeMemory(self.memory),
                ]);
            }
            Err(ImportFailure { reason: ImportRejection::Binding, give_back })
        }
    }
}

/// A stage of the pipeline that a barrier orders.
#[derive(Debug, Clone, Copy, PartialEq, Eq, Structural)]
pub enum PipelineStage {
    AllCommands,
    Transfer,
}

/// A set of ways in which memory is accessed.
#[derive(Debug, Clone, Copy, PartialEq, Eq, Structural)]
pub struct Access {
    pub memory_read: bool,
    pub memory_write: bool,
    pub transfer_read: bool,
}

/// Who may use an image that is not shared between queue families.
#[derive(Debug, Clone, Copy, PartialEq, Eq, Structural)]
pub enum QueueOwner {
    /// A queue outside this Vulkan instance.
    External,
    /// A queue family of this device.
    Family(u32),
}

/// A kind of data that an image holds.
#[derive(Debug, Clone, Copy, PartialEq, Eq, Structural)]
pub enum ImageAspect {
    Color,
    Depth,
}

/// The mip levels and array layers of an image that a barrier is about.
#[derive(Debug, Clone, Copy, PartialEq, Eq, Structural)]
pub struct SubresourceRange {
    pub aspect: ImageAspect,
    pub base_mip_level: u32,
    pub level_count: u32,
    pub base_array_layer: u32,
    pub layer_count: u32,
}

/// The array layers of one mip level of an image that a copy is about.
#[derive(Debug, Clone, Copy, PartialEq, Eq, Structural)]
pub struct SubresourceLayers {
    pub aspect: ImageAspect,
    pub mip_level: u32,
    pub base_array_layer: u32,
    pub layer_count: u32,
}

/// The corner of an image at which a copied region starts.
#[derive(Debug, Clone, Copy, PartialEq, Eq, Structural)]
pub struct Offset {
    pub x: i32,
    pub y: i32,
    pub z: i32,
}

/// Why a copy was not recorded.
#[derive(Debug, Clone, Copy, PartialEq, Eq, Structural)]
pub enum RecordRejection {
    /// The destination is not a Vulkan texture.
    Destination,
    /// The encoder is not a Vulkan encoder.
    Encoder,
}

/// A Vulkan command on images.
#[derive(Debug, Clone, Copy, PartialEq, Eq, Structural)]
pub enum ImageCommand {
    /// `vkCmdPipelineBarrier` with one image barrier and no dependency flags.
    Barrier {
        image: u64,
        range: SubresourceRange,
        source_stage: PipelineStage,
        destination_stage: PipelineStage,
        source_access: Access,
        destination_access: Access,
        old_layout: ImageLayout,
        new_layout: ImageLayout,
        source_owner: QueueOwner,
        destination_owner: QueueOwner,
    },
    /// `vkCmdCopyImage` of one region.
    Copy {
        source: u64,
        source_layout: ImageLayout,
        source_layers: SubresourceLayers,
        source_offset: Offset,
        destination: u64,
        destination_layout: ImageLayout,
        destination_layers: SubresourceLayers,
        destination_offset: Offset,
        width: u32,
        height: u32,
        depth: u32,
    },
}

/// All of an image that has one mip level and one layer, and holds color.
pub open spec fn whole_image() -> SubresourceRange {
    SubresourceRange {
        aspect: ImageAspect::Color,
        base_mip_level: 0,
        level_count: 1,
        base_array_layer: 0,
        layer_count: 1,
    }
}

/// The first layer of an image's first mip level.
pub open spec fn first_layer() -> SubresourceLayers {
    SubresourceLayers {
        aspect: ImageAspect::Color,
        mip_level: 0,
        base_array_layer: 0,
        layer_count: 1,
    }
}

/// The origin of an image.
pub open spec fn origin() -> Offset {
    Offset { x: 0, y: 0, z: 0 }
}

/// The first reason for which a copy is not recorded. `destination` is the
/// destination's image, and `None` where it is not a Vulkan texture.
pub open spec fn record_rejection(destination: Option<u64>, vulkan_encoder: bool) -> Option<
    RecordRejection,
> {
    if destination is None {
        Some(RecordRejection::Destination)
    } else if !vulkan_encoder {
        Some(RecordRejection::Encoder)
    } else {
        None
    }
}

/// The access of the producer: its writes.
pub open spec fn producer_writes() -> Access {
    Access { memory_read: false, memory_write: true, transfer_read: false }
}

/// The access of a copy from an image.
pub open spec fn copy_reads() -> Access {
    Access { memory_read: false, memory_write: false, transfer_read: true }
}

/// Any access of whoever gets the buffer next.
pub open spec fn any_access() -> Access {
    Access { memory_read: true, memory_write: true, transfer_read: false }
}

impl ImportedVulkanImage {
    /// What the import holds: the image, and the memory with the descriptor.
    pub open spec fn holdings(&self) -> Holdings {
        Holdings {
            image: Some(self.image),
            memory: Some(self.memory),
            descriptor: DescriptorOwner::Driver,
        }
    }

    /// The commands that copy a region of the image: take the image over from
    /// outside, copy, hand it back.
    pub open spec fn copy_commands(&self, destination: u64, width: u32, height: u32) -> Seq<
        ImageCommand,
    > {
        seq![
            ImageCommand::Barrier {
                image: self.image,
                range: whole_image(),
                source_stage: PipelineStage::AllCommands,
                destination_stage: PipelineStage::Transfer,
                source_access: producer_writes(),
                destination_access: copy_reads(),
                old_layout: ImageLayout::General,
                new_layout: ImageLayout::TransferSource,
                source_owner: QueueOwner::External,
                destination_owner: QueueOwner::Family(self.queue_family_index),
            },
            ImageCommand::Copy {
                source: self.image,
                source_layout: ImageLayout::TransferSource,
                source_layers: first_layer(),
                source_offset: origin(),
                destination,
                destination_layout: ImageLayout::TransferDestination,
                destination_layers: first_layer(),
                destination_offset: origin(),
                width,
                height,
                depth: 1,
            },
            ImageCommand::Barrier {
                image: self.image,
                range: whole_image(),
                source_stage: PipelineStage::Transfer,
                destination_stage: PipelineStage::AllCommands,
                source_access: copy_reads(),
                destination_access: any_access(),
                old_layout: ImageLayout::TransferSource,
                new_layout: ImageLayout::General,
                source_owner: QueueOwner::Family(self.queue_family_index),
                destination_owner: QueueOwner::External,
            },
        ]
    }

    /// The commands that copy the region of this size at the image's origin to
    /// the image `destination`, which is ready to be copied to. `destination` is
    /// `None` where the destination is not a Vulkan texture, and
    /// `vulkan_encoder` is whether the encoder to record into is a Vulkan one.
    pub fn record_copy(
        &self,
        destination: Option<u64>,
        vulkan_encoder: bool,
        width: u32,
        height: u32,
    ) -> (commands: Result<Vec<ImageCommand>, RecordRejection>)
        ensures
            match commands {
                Ok(commands) => {
                    &&& record_rejection(destination, vulkan_encoder) is None
                    &&& commands@ == self.copy_commands(destination->0, width, height)
                },
                Err(reason) => record_rejection(destination, vulkan_encoder) == Some(reason),
            },
    {
        let destination: u64 = match destination {
            Some(destination) => destination,
            None => {
                return Err(RecordRejection::Destination);
            },
        };
        if !vulkan_encoder {
            return Err(RecordRejection::Encoder);
        }
        let range = SubresourceRange {
            aspect: ImageAspect::Color,
            base_mip_level: 0,
            level_count: 1,
            base_array_layer: 0,
            layer_count: 1,
        };
        let layers = SubresourceLayers {
            aspect: ImageAspect::Color,
            mip_level: 0,
            base_array_layer: 0,
            layer_count: 1,
        };
        let offset = Offset { x: 0, y: 0, z: 0 };
        let writes = Access { memory_read: false, memory_write: true, transfer_read: false };
        let reads = Access { memory_read: false, memory_write: false, transfer_read: true };
        let any = Access { memory_read: true, memory_write: true, transfer_read: false };
        let commands: Vec<ImageCommand> = vec![
            ImageCommand::Barrier {
                image: self.image,
                range,
                source_stage: PipelineStage::AllCommands,
                destination_stage: PipelineStage::Transfer,
                source_access: writes,
                destination_access: reads,
                old_layout: ImageLayout::General,
                new_layout: ImageLayout::TransferSource,
                source_owner: QueueOwner::External,
                destination_owner: QueueOwner::Family(self.queue_family_index),
            },
            ImageCommand::Copy {
                source: self.image,
                source_layout: ImageLayout::TransferSource,
                source_layers: layers,
                source_offset: offset,
                destination,
                destination_layout: ImageLayout::TransferDestination,
                destination_layers: layers,
                destination_offset: offset,
                width,
                height,
                depth: 1,
            },
            ImageCommand::Barrier {
                image: self.image,
                range,
                source_stage: PipelineStage::Transfer,
                destination_stage: PipelineStage::AllCommands,
                source_access: reads,
                destination_access: any,
                old_layout: ImageLayout::TransferSource,
                new_layout: ImageLayout::General,
                source_owner: QueueOwner::Family(self.queue_family_index),
                destination_owner: QueueOwner::External,
            },
        ];
        assert(commands@ =~= self.copy_commands(destination, width, height));
        Ok(commands)
    }

    /// What to give back once the GPU has finished with the image. The image
    /// goes before the memory it is bound to.
    pub fn give_back(self) -> (list: Vec<GiveBack>)
        ensures
            list@ == seq![GiveBack::DestroyImage(self.image), GiveBack::FreeMemory(self.memory)],
            self.holdings().is_settled_by(list@),
    {
        let list: Vec<GiveBack> = vec![
            GiveBack::DestroyImage(self.image),
            GiveBack::FreeMemory(self.memory),
        ];
        proof {
            reveal_with_fuel(Holdings::without_all, 3);
            assert(list@ =~= seq![
                GiveBack::DestroyImage(self.image),
                GiveBack::FreeMemory(self.memory),
            ]);
        }
        list
    }
}

/// A copy is recorded exactly where both ends are Vulkan's; the destination is
/// told first.
pub proof fn lemma_record_needs_vulkan_ends(destination: Option<u64>, vulkan_encoder: bool)
    ensures
        record_rejection(destination, vulkan_encoder) is None <==> destination is Some
            && vulkan_encoder,
        record_rejection(destination, vulkan_encoder) == Some(RecordRejection::Destination)
            <==> destination is None,
        record_rejection(destination, vulkan_encoder) == Some(RecordRejection::Encoder)
            <==> destination is Some && !vulkan_encoder,
{
}

/// Every copy among the commands is from the imported image to the destination,
/// of the size that was asked for, from texel zero to texel zero of the first
/// layer of the first mip level of both; and there is one.
pub proof fn lemma_commands_copy_what_was_asked(
    imported: ImportedVulkanImage,
    destination: u64,
    width: u32,
    height: u32,
    at: int,
)
    requires
        0 <= at < imported.copy_commands(destination, width, height).len(),
    ensures
        imported.copy_commands(destination, width, height)[at] is Copy <==> at == 1,
        imported.copy_commands(destination, width, height)[at] matches ImageCommand::Copy {
            source,
            source_layout,
            source_layers,
            source_offset,
            destination: to,
            destination_layout,
            destination_layers,
            destination_offset,
            width: copied_width,
            height: copied_height,
            depth,
        } ==> {
            &&& source == imported.image && to == destination
            &&& copied_width == width && copied_height == height && depth == 1
            &&& source_layout == ImageLayout::TransferSource
            &&& destination_layout == ImageLayout::TransferDestination
            &&& source_offset.x == 0 && source_offset.y == 0 && source_offset.z == 0
            &&& destination_offset.x == 0 && destination_offset.y == 0 && destination_offset.z == 0
            &&& source_layers.aspect == ImageAspect::Color && source_layers.mip_level == 0
            &&& source_layers.base_array_layer == 0 && source_layers.layer_count == 1
            &&& destination_layers.aspect == ImageAspect::Color && destination_layers.mip_level == 0
            &&& destination_layers.base_array_layer == 0 && destination_layers.layer_count == 1
        },
{
}

/// There is one barrier on each side of the copy, both over the whole image. The
/// first makes the producer's writes visible to the copy and takes the image
/// over from outside; the second undoes it, layout and owner swapped, after the
/// copy has read and before anyone outside reads or writes.
pub proof fn lemma_barriers_mirror_each_other(
    imported: ImportedVulkanImage,
    destination: u64,
    width: u32,
    height: u32,
)
    ensures
        imported.copy_commands(destination, width, height).len() == 3,
        imported.copy_commands(destination, width, height)[0] matches ImageCommand::Barrier {
            image,
            range,
            source_stage,
            destination_stage,
            source_access,
            destination_access,
            old_layout,
            new_layout,
            source_owner,
            destination_owner,
        } && {
            &&& image == imported.image
            &&& range.aspect == ImageAspect::Color
            &&& range.base_mip_level == 0 && range.level_count == 1
            &&& range.base_array_layer == 0 && range.layer_count == 1
            &&& source_stage == PipelineStage::AllCommands
            &&& destination_stage == PipelineStage::Transfer
            &&& source_access.memory_write && !source_access.memory_read
            &&& !source_access.transfer_read
            &&& destination_access.transfer_read
            &&& !destination_access.memory_read && !destination_access.memory_write
            &&& old_layout == ImageLayout::General && new_layout == ImageLayout::TransferSource
            &&& source_owner == QueueOwner::External
            &&& destination_owner == QueueOwner::Family(imported.queue_family_index)
        },
        imported.copy_commands(destination, width, height)[2] matches ImageCommand::Barrier {
            image,
            range,
            source_stage,
            destination_stage,
            source_access,
            destination_access,
            old_layout,
            new_layout,
            source_owner,
            destination_owner,
        } && {
            &&& image == imported.image
            &&& range.aspect == ImageAspect::Color
            &&& range.base_mip_level == 0 && range.level_count == 1
            &&& range.base_array_layer == 0 && range.layer_count == 1
            &&& source_stage == PipelineStage::Transfer
            &&& destination_stage == PipelineStage::AllCommands
            &&& source_access.transfer_read
            &&& !source_access.memory_read && !source_access.memory_write
            &&& destination_access.memory_read && destination_access.memory_write
            &&& !destination_access.transfer_read
            &&& old_layout == ImageLayout::TransferSource && new_layout == ImageLayout::General
            &&& source_owner == QueueOwner::Family(imported.queue_family_index)
            &&& destination_owner == QueueOwner::External
        },
{
}

/// A copy that was made of an image.
pub struct ImageCopy {
    pub from: Offset,
    pub destination: u64,
    pub to: Offset,
    pub width: u32,
    pub height: u32,
    pub depth: u32,
}

/// An image in the model of Vulkan that the commands are held to.
pub struct ImageModel {
    pub image: u64,
    pub layout: ImageLayout,
    pub owner: QueueOwner,
    /// The stage from which the image can be used, and how.
    pub ready_stage: PipelineStage,
    pub ready_access: Access,
    pub copies: Seq<ImageCopy>,
}

impl ImageModel {
    /// An image as the producer leaves it: outside, in the general layout, open
    /// to whoever takes it over.
    pub open spec fn with_producer(image: u64) -> ImageModel {
        ImageModel {
            image,
            layout: ImageLayout::General,
            owner: QueueOwner::External,
            ready_stage: PipelineStage::AllCommands,
            ready_access: any_access(),
            copies: seq![],
        }
    }

    /// What one command does on a queue of family `family`; `None` where it
    /// names another image or not all of it, takes the image from a layout or an
    /// owner that it does not have, or copies from an image that the family does
    /// not own, that is not laid out for it, or that is not ready to be read.
    pub open spec fn step(self, family: u32, command: ImageCommand) -> Option<ImageModel> {
        match command {
            ImageCommand::Barrier {
                image,
                range,
                source_stage,
                destination_stage,
                source_access,
                destination_access,
                old_layout,
                new_layout,
                source_owner,
                destination_owner,
            } => if {
                &&& image == self.image
                &&& range == whole_image()
                &&& old_layout == self.layout
                &&& source_owner == self.owner
                &&& source_owner == QueueOwner::Family(family) || destination_owner
                    == QueueOwner::Family(family)
                &&& source_stage == self.ready_stage
            } {
                Some(
                    ImageModel {
                        layout: new_layout,
                        owner: destination_owner,
                        ready_stage: destination_stage,
                        ready_access: destination_access,
                        ..self
                    },
                )
            } else {
                None
            },
            ImageCommand::Copy {
                source,
                source_layout,
                source_layers,
                source_offset,
                destination,
                destination_layout,
                destination_layers,
                destination_offset,
                width,
                height,
                depth,
            } => if {
                &&& source == self.image
                &&& source_layers == first_layer()
                &&& destination_layers == first_layer()
                &&& source_layout == self.layout
                &&& self.layout == ImageLayout::TransferSource
                &&& destination_layout == ImageLayout::TransferDestination
                &&& self.owner == QueueOwner::Family(family)
                &&& self.ready_stage == PipelineStage::Transfer
                &&& self.ready_access.transfer_read
            } {
                Some(
                    ImageModel {
                        copies: self.copies.push(
                            ImageCopy {
                                from: source_offset,
                                destination,
                                to: destination_offset,
                                width,
                                height,
                                depth,
                            },
                        ),
                        ..self
                    },
                )
            } else {
                None
            },
        }
    }

    /// What the first `count` commands of a list do, one after the other.
    pub open spec fn run(self, family: u32, commands: Seq<ImageCommand>, count: nat) -> Option<
        ImageModel,
    >
        decreases count,
    {
        if count == 0 {
            Some(self)
        } else {
            match self.run(family, commands, (count - 1) as nat) {
                Some(model) => model.step(family, commands[count - 1]),
                None => None,
            }
        }
    }
}

/// A copy of a region of this size, from origin to origin.
pub open spec fn copy_at_origin(destination: u64, width: u32, height: u32) -> ImageCopy {
    ImageCopy { from: origin(), destination, to: origin(), width, height, depth: 1 }
}

/// The two barriers of a copy are a matched pair: the image is copied exactly
/// once, while the queue family owns it in the layout that the copy names, and
/// is then back outside in the layout in which the producer left it.
pub proof fn lemma_copy_returns_image(
    imported: ImportedVulkanImage,
    destination: u64,
    width: u32,
    height: u32,
)
    ensures
        ImageModel::with_producer(imported.image).run(
            imported.queue_family_index,
            imported.copy_commands(destination, width, height),
            imported.copy_commands(destination, width, height).len(),
        ) == Some(
            ImageModel {
                copies: seq![copy_at_origin(destination, width, height)],
                ..ImageModel::with_producer(imported.image)
            },
        ),
        copy_at_origin(destination, width, height) == (ImageCopy {
            from: Offset { x: 0, y: 0, z: 0 },
            destination,
            to: Offset { x: 0, y: 0, z: 0 },
            width,
            height,
            depth: 1,
        }),
{
    let commands = imported.copy_commands(destination, width, height);
    reveal_with_fuel(ImageModel::run, 4);
    let end = ImageModel::with_producer(imported.image).run(
        imported.queue_family_index,
        commands,
        3,
    );
    assert(end is Some);
    assert(end->0.copies =~= seq![copy_at_origin(destination, width, height)]);
}

} // verus!
