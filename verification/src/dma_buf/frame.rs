//! DMA-BUF frames: their format, their planes, and the producer's lease.
//!
//! A file descriptor is a value of a type parameter `F` here. A frame moves its
//! descriptors around and never looks inside one; where a call needs the raw
//! number, the number is an argument of its own.
use vstd::prelude::*;

use crate::texture::TextureFormat;

verus! {

/// `AR24`, the DRM code of 32-bit ARGB.
const DRM_FORMAT_ARGB8888: u32 = 0x3432_5241;

/// `XR24`, the DRM code of 32-bit RGB with an unused byte.
const DRM_FORMAT_XRGB8888: u32 = 0x3432_5258;

/// `AB24`, the DRM code of 32-bit ABGR.
const DRM_FORMAT_ABGR8888: u32 = 0x3432_4241;

/// `XB24`, the DRM code of 32-bit BGR with an unused byte.
const DRM_FORMAT_XBGR8888: u32 = 0x3432_4258;

/// The DRM format modifier that means "no modifier was negotiated".
///
/// Vulkan import needs an explicit modifier and rejects this value; EGL import
/// treats it as "omit the modifier attributes entirely".
pub const DRM_FORMAT_MOD_INVALID: u64 = 0xffff_ffff_ffff_ffff;

/// The number that four characters spell, the first in the lowest byte.
pub open spec fn fourcc_of(letters: Seq<char>) -> int {
    letters[0] as int + 0x100 * (letters[1] as int) + 0x1_0000 * (letters[2] as int) + 0x100_0000
        * (letters[3] as int)
}

/// Pixel format of a DMA-BUF frame.
///
/// Only the single-plane packed 32-bit formats are covered, which is what
/// browser and compositor output uses.
#[derive(Debug, Clone, Copy, PartialEq, Eq, Structural)]
pub enum DmaBufFormat {
    /// Little-endian BGRA with meaningful alpha.
    Bgra8,
    /// Little-endian BGRX; consumers must force alpha to one.
    Bgrx8,
    /// Little-endian RGBA with meaningful alpha.
    Rgba8,
    /// Little-endian RGBX; consumers must force alpha to one.
    Rgbx8,
}

impl DmaBufFormat {
    /// The four characters by which DRM names the format.
    pub open spec fn letters(self) -> Seq<char> {
        match self {
            DmaBufFormat::Bgra8 => seq!['A', 'R', '2', '4'],
            DmaBufFormat::Bgrx8 => seq!['X', 'R', '2', '4'],
            DmaBufFormat::Rgba8 => seq!['A', 'B', '2', '4'],
            DmaBufFormat::Rgbx8 => seq!['X', 'B', '2', '4'],
        }
    }

    /// The DRM `fourcc` code for this format.
    pub open spec fn spec_fourcc(self) -> int {
        fourcc_of(self.letters())
    }

    /// The format that a code names.
    pub open spec fn format_of(value: u32) -> Option<DmaBufFormat> {
        if value == DmaBufFormat::Bgra8.spec_fourcc() {
            Some(DmaBufFormat::Bgra8)
        } else if value == DmaBufFormat::Bgrx8.spec_fourcc() {
            Some(DmaBufFormat::Bgrx8)
        } else if value == DmaBufFormat::Rgba8.spec_fourcc() {
            Some(DmaBufFormat::Rgba8)
        } else if value == DmaBufFormat::Rgbx8.spec_fourcc() {
            Some(DmaBufFormat::Rgbx8)
        } else {
            None
        }
    }

    /// The format with the same channels whose fourth byte is alpha.
    pub open spec fn with_alpha(self) -> DmaBufFormat {
        match self {
            DmaBufFormat::Bgra8 | DmaBufFormat::Bgrx8 => DmaBufFormat::Bgra8,
            DmaBufFormat::Rgba8 | DmaBufFormat::Rgbx8 => DmaBufFormat::Rgba8,
        }
    }

    /// The format an imported texture of this format carries.
    pub open spec fn spec_texture_format(self) -> TextureFormat {
        if self.with_alpha() == DmaBufFormat::Bgra8 {
            TextureFormat::Bgra8Unorm
        } else {
            TextureFormat::Rgba8Unorm
        }
    }

    /// Looks a DRM `fourcc` code up among the four packed 32-bit formats.
    pub fn find_fourcc(value: u32) -> (found: Option<Self>)
        ensures
            found == Self::format_of(value),
    {
        if value == DRM_FORMAT_ARGB8888 {
            Some(DmaBufFormat::Bgra8)
        } else if value == DRM_FORMAT_XRGB8888 {
            Some(DmaBufFormat::Bgrx8)
        } else if value == DRM_FORMAT_ABGR8888 {
            Some(DmaBufFormat::Rgba8)
        } else if value == DRM_FORMAT_XBGR8888 {
            Some(DmaBufFormat::Rgbx8)
        } else {
            None
        }
    }

    /// Maps a DRM `fourcc` code onto the format it names.
    #[must_use]
    pub fn from_fourcc(value: u32) -> (format: Self)
        requires
            Self::format_of(value) is Some,
        ensures
            Some(format) == Self::format_of(value),
    {
        Self::find_fourcc(value).unwrap()
    }

    /// Four characters of one byte each are the four bytes of the number that
    /// they spell, from the lowest to the highest.
    pub proof fn lemma_fourcc_is_its_letters(a: char, b: char, c: char, d: char)
        requires
            a as int <= 0xff,
            b as int <= 0xff,
            c as int <= 0xff,
            d as int <= 0xff,
        ensures
            0 <= fourcc_of(seq![a, b, c, d]) <= 0xffff_ffff,
            fourcc_of(seq![a, b, c, d]) % 0x100 == a as int,
            fourcc_of(seq![a, b, c, d]) / 0x100 % 0x100 == b as int,
            fourcc_of(seq![a, b, c, d]) / 0x1_0000 % 0x100 == c as int,
            fourcc_of(seq![a, b, c, d]) / 0x100_0000 == d as int,
    {
    }

    /// The codes as DRM numbers them.
    pub proof fn lemma_fourcc_in_numbers(self)
        ensures
            self.spec_fourcc() == match self {
                DmaBufFormat::Bgra8 => 0x3432_5241int,
                DmaBufFormat::Bgrx8 => 0x3432_5258int,
                DmaBufFormat::Rgba8 => 0x3432_4241int,
                DmaBufFormat::Rgbx8 => 0x3432_4258int,
            },
    {
    }

    /// An imported texture has the channels in the order in which the buffer has
    /// them: blue first exactly for the two BGR formats, red first exactly for
    /// the two RGB formats. The counterpart with alpha differs from the format
    /// exactly where the fourth byte is unused.
    pub proof fn lemma_texture_keeps_channel_order(self)
        ensures
            self.spec_texture_format() == TextureFormat::Bgra8Unorm <==> (self
                == DmaBufFormat::Bgra8 || self == DmaBufFormat::Bgrx8),
            self.spec_texture_format() == TextureFormat::Rgba8Unorm <==> (self
                == DmaBufFormat::Rgba8 || self == DmaBufFormat::Rgbx8),
            self != self.with_alpha() <==> (self == DmaBufFormat::Bgrx8 || self
                == DmaBufFormat::Rgbx8),
    {
    }

    /// The DRM `fourcc` code for this format.
    #[must_use]
    pub fn fourcc(self) -> (code: u32)
        ensures
            code == self.spec_fourcc(),
    {
        match self {
            DmaBufFormat::Bgra8 => DRM_FORMAT_ARGB8888,
            DmaBufFormat::Bgrx8 => DRM_FORMAT_XRGB8888,
            DmaBufFormat::Rgba8 => DRM_FORMAT_ABGR8888,
            DmaBufFormat::Rgbx8 => DRM_FORMAT_XBGR8888,
        }
    }

    /// The format an imported texture of this format carries.
    ///
    /// The `X` variants have no alpha of their own but still occupy the
    /// channel, so they import as their `A` counterpart; see
    /// [`Self::force_opaque`].
    #[must_use]
    pub fn texture_format(self) -> (format: TextureFormat)
        ensures
            format == self.spec_texture_format(),
    {
        match self {
            DmaBufFormat::Bgra8 | DmaBufFormat::Bgrx8 => TextureFormat::Bgra8Unorm,
            DmaBufFormat::Rgba8 | DmaBufFormat::Rgbx8 => TextureFormat::Rgba8Unorm,
        }
    }

    /// Whether a consumer must ignore the imported alpha channel and treat the
    /// frame as opaque: exactly for the formats without alpha of their own.
    #[must_use]
    pub fn force_opaque(self) -> (opaque: bool)
        ensures
            opaque == (self != self.with_alpha()),
            opaque == (self == DmaBufFormat::Bgrx8 || self == DmaBufFormat::Rgbx8),
    {
        match self {
            DmaBufFormat::Bgrx8 | DmaBufFormat::Rgbx8 => true,
            DmaBufFormat::Bgra8 | DmaBufFormat::Rgba8 => false,
        }
    }

    /// A code names exactly the format it was made from.
    pub proof fn lemma_fourcc_round_trip(format: DmaBufFormat, code: u32)
        ensures
            code == format.spec_fourcc() <==> Self::format_of(code) == Some(format),
    {
    }

    /// A format and its counterpart with alpha import as the same texture
    /// format, and the four formats need only two texture formats.
    pub proof fn lemma_texture_format_ignores_alpha(format: DmaBufFormat)
        ensures
            format.spec_texture_format() == format.with_alpha().spec_texture_format(),
            format.spec_texture_format() == TextureFormat::Bgra8Unorm
                || format.spec_texture_format() == TextureFormat::Rgba8Unorm,
    {
    }
}

/// One owned plane in a DMA-BUF frame.
#[derive(Debug)]
pub struct DmaBufPlane<F> {
    /// Owned DMA-BUF file descriptor.
    pub fd: F,
    /// Byte offset of this plane.
    pub offset: u32,
    /// Bytes between adjacent rows.
    pub stride: u32,
}

/// The producer's ownership of the buffer behind a [`DmaBufFrame`].
///
/// A producer that hands out a buffer from a pool needs to know when the
/// importer has read it, so it can put the buffer back. That is a two-step
/// protocol: the import is recorded, then the GPU work referencing it
/// completes. This trait is both steps.
///
/// A lease is dropped rather than released whenever an import path is
/// abandoned, so implementations must treat `Drop` as an implicit release.
///
/// What the two steps do is the implementation's to say, in the three
/// specification functions; one that says nothing takes every call. A frame is
/// proved to take the steps, whatever they are.
pub trait DmaBufLease<F>: Sized {
    /// Whether the producer takes [`Self::presented`] now. A lease that was
    /// presented before typically does not.
    open spec fn accepts_presented(&self) -> bool {
        true
    }

    /// Whether [`Self::presented`] may take a lease from `before` to `after`.
    open spec fn presents(before: Self, after: Self) -> bool {
        true
    }

    /// What is known of a lease and a fence once [`Self::release`] was called
    /// with them.
    open spec fn released_with(lease: Self, release_fence: Option<F>) -> bool {
        true
    }

    /// Tells the producer the frame has been imported or copied.
    ///
    /// The GPU work reading it may still be in flight; only [`Self::release`]
    /// says it has finished.
    fn presented(&mut self)
        requires
            old(self).accepts_presented(),
        ensures
            Self::presents(*old(self), *final(self)),
    ;

    /// Returns the buffer to the producer once the importing GPU work has
    /// completed.
    ///
    /// `release_fence` is a fence the producer must wait on before reusing the
    /// buffer, for importers that can supply one instead of waiting themselves.
    fn release(self, release_fence: Option<F>)
        ensures
            Self::released_with(self, release_fence),
    ;
}

/// Why the parts of a frame do not make one.
#[derive(Debug, Clone, Copy, PartialEq, Eq, Structural)]
pub enum FrameRejection {
    /// The width or the height is zero.
    ZeroExtent,
    /// There is not exactly one plane.
    PlaneCount,
}

/// What a descriptor is polled for.
#[derive(Debug, Clone, Copy, PartialEq, Eq, Structural)]
pub enum PollEvent {
    /// That it can be read.
    Input,
    /// That it can be written.
    Output,
}

/// A fence to poll: one descriptor, for one event, for at most this many
/// milliseconds.
#[derive(Debug)]
pub struct FencePoll<'a, F> {
    pub fence: &'a F,
    pub event: PollEvent,
    pub timeout: i32,
}

/// The rendering fence could not be polled.
#[derive(Debug, Clone, Copy, PartialEq, Eq, Structural)]
pub struct FencePollFailed;

/// What an import path reads of a frame's buffer.
#[derive(Debug, Clone, Copy, PartialEq, Eq, Structural)]
pub struct BufferLayout {
    /// Pixel width of the allocation.
    pub width: u32,
    /// Pixel height of the allocation.
    pub height: u32,
    /// Pixel format.
    pub format: DmaBufFormat,
    /// DRM format modifier describing the plane layout.
    pub modifier: u64,
}

/// A DMA-BUF frame, its planes, and the producer's lease on the buffer.
#[derive(Debug)]
pub struct DmaBufFrame<F, L> {
    /// Pixel width of the allocation.
    pub width: u32,
    /// Pixel height of the allocation.
    pub height: u32,
    /// Pixel format.
    pub format: DmaBufFormat,
    /// DRM format modifier describing the plane layout.
    pub modifier: u64,
    /// Owned planes.
    pub planes: Vec<DmaBufPlane<F>>,
    /// Rendering completion fence supplied by the producer.
    pub rendering_fence: Option<F>,
    /// The part of the buffer that actually holds the image, when it is smaller
    /// than the allocation.
    visible: Option<(u32, u32)>,
    lease: Option<L>,
}

/// A frame as the contracts see it.
#[verifier::reject_recursive_types(F)]
#[verifier::reject_recursive_types(L)]
pub struct FrameView<F, L> {
    pub layout: BufferLayout,
    pub planes: Seq<DmaBufPlane<F>>,
    pub rendering_fence: Option<F>,
    /// The part of the buffer that holds the image, where it was narrowed.
    pub visible: Option<(u32, u32)>,
    pub lease: Option<L>,
}

impl<F, L> FrameView<F, L> {
    /// The first reason for which the parts do not make a frame.
    pub open spec fn rejection(width: u32, height: u32, plane_count: nat) -> Option<
        FrameRejection,
    > {
        if width == 0 || height == 0 {
            Some(FrameRejection::ZeroExtent)
        } else if plane_count != 1 {
            Some(FrameRejection::PlaneCount)
        } else {
            None
        }
    }

    /// Whether a region of this size is a non-empty part of the buffer.
    pub open spec fn holds_region(self, width: u32, height: u32) -> bool {
        0 < width <= self.layout.width && 0 < height <= self.layout.height
    }

    /// The offset and the stride of the only plane, if there is exactly one.
    pub open spec fn single_plane(self) -> Option<(u32, u32)> {
        if self.planes.len() == 1 {
            Some((self.planes[0].offset, self.planes[0].stride))
        } else {
            None
        }
    }

    /// The extent that should be presented.
    pub open spec fn visible_size(self) -> (u32, u32) {
        match self.visible {
            Some(size) => size,
            None => (self.layout.width, self.layout.height),
        }
    }

    /// Whether the frame can be read, given what polling its fence returned: a
    /// negative number where polling failed, and one once the fence signalled.
    pub open spec fn render_ready(self, polled: Option<i32>) -> Result<bool, FencePollFailed> {
        match self.rendering_fence {
            None => Ok(true),
            Some(_) => if polled->0 < 0 {
                Err(FencePollFailed)
            } else {
                Ok(polled->0 == 1)
            },
        }
    }

    /// A frame as its constructors leave it: a non-empty buffer in one packed
    /// plane, and a visible region inside it.
    pub open spec fn well_formed(self) -> bool {
        &&& Self::rejection(self.layout.width, self.layout.height, self.planes.len()) is None
        &&& self.visible matches Some(size) ==> self.holds_region(size.0, size.1)
    }

    /// What a frame was narrowed to is what it presents, whatever else it holds;
    /// a frame that was not narrowed presents its whole buffer.
    pub proof fn lemma_presents_what_it_was_narrowed_to(self, width: u32, height: u32)
        ensures
            (FrameView::<F, L> { visible: Some((width, height)), ..self }).visible_size() == (
                width,
                height,
            ),
            (FrameView::<F, L> { visible: None, ..self }).visible_size() == (
                self.layout.width,
                self.layout.height,
            ),
    {
    }

    /// Parts make a frame exactly where the buffer has texels and there is one
    /// plane; an empty buffer is told before a wrong number of planes.
    pub proof fn lemma_frames_have_texels_and_one_plane(width: u32, height: u32, plane_count: nat)
        ensures
            Self::rejection(width, height, plane_count) is None <==> width > 0 && height > 0
                && plane_count == 1,
            Self::rejection(width, height, plane_count) == Some(FrameRejection::ZeroExtent)
                <==> width * height == 0,
            Self::rejection(width, height, plane_count) == Some(FrameRejection::PlaneCount)
                <==> width * height != 0 && plane_count != 1,
    {
        assert(width * height == 0 <==> width == 0 || height == 0) by (nonlinear_arith);
    }

    /// A region is part of the buffer exactly where it has texels and its last
    /// texel is one of the buffer's.
    pub proof fn lemma_region_is_part_of_buffer(self, width: u32, height: u32)
        ensures
            self.holds_region(width, height) <==> 0 <= width - 1 < self.layout.width && 0 <= height
                - 1 < self.layout.height,
    {
    }

    /// A frame is well formed exactly where its buffer has texels and one plane
    /// and it presents a part of that buffer.
    pub proof fn lemma_well_formed_presents_its_buffer(self)
        ensures
            self.well_formed() <==> {
                &&& self.layout.width > 0 && self.layout.height > 0
                &&& self.planes.len() == 1
                &&& 0 < self.visible_size().0 <= self.layout.width
                &&& 0 < self.visible_size().1 <= self.layout.height
            },
    {
    }

    /// The only plane is told as it is, where it is the only one.
    pub proof fn lemma_single_plane_is_the_only_plane(self)
        ensures
            self.single_plane() is Some <==> self.planes.len() == 1,
            self.single_plane() matches Some(plane) ==> plane.0 == self.planes[0].offset
                && plane.1 == self.planes[0].stride,
    {
    }

    /// A frame without a fence is ready, whatever was polled. With a fence, a
    /// negative result is a failure, one is ready, and any other result is not.
    pub proof fn lemma_ready_once_the_fence_signals(self, result: i32)
        ensures
            (FrameView::<F, L> { rendering_fence: None, ..self }).render_ready(Some(result))
                == Ok::<bool, FencePollFailed>(true),
            (FrameView::<F, L> { rendering_fence: None, ..self }).render_ready(None) == Ok::<
                bool,
                FencePollFailed,
            >(true),
            self.rendering_fence is Some ==> {
                &&& self.render_ready(Some(result)) is Err <==> result < 0
                &&& self.render_ready(Some(result)) == Ok::<bool, FencePollFailed>(true) <==> result
                    == 1
                &&& self.render_ready(Some(result)) == Ok::<bool, FencePollFailed>(false) <==> (
                result == 0 || result > 1)
            },
    {
    }

    /// The visible extent of a well-formed frame is never empty and never
    /// reaches past the allocation, so a copy of it stays inside the buffer.
    pub proof fn lemma_visible_size_inside(self)
        requires
            self.well_formed(),
        ensures
            self.holds_region(self.visible_size().0, self.visible_size().1),
    {
    }
}

impl<F, L> View for DmaBufFrame<F, L> {
    type V = FrameView<F, L>;

    closed spec fn view(&self) -> FrameView<F, L> {
        FrameView {
            layout: BufferLayout {
                width: self.width,
                height: self.height,
                format: self.format,
                modifier: self.modifier,
            },
            planes: self.planes@,
            rendering_fence: self.rendering_fence,
            visible: self.visible,
            lease: self.lease,
        }
    }
}

impl<F, L> DmaBufFrame<F, L> {
    /// Checks the parts of a frame before [`Self::new`].
    pub fn check(width: u32, height: u32, planes: &Vec<DmaBufPlane<F>>) -> (checked: Result<
        (),
        FrameRejection,
    >)
        ensures
            match checked {
                Ok(()) => FrameView::<F, L>::rejection(width, height, planes@.len()) is None,
                Err(reason) => FrameView::<F, L>::rejection(width, height, planes@.len()) == Some(
                    reason,
                ),
            },
    {
        if width == 0 || height == 0 {
            Err(FrameRejection::ZeroExtent)
        } else if planes.len() != 1 {
            Err(FrameRejection::PlaneCount)
        } else {
            Ok(())
        }
    }

    /// Creates a frame whose descriptors this side owns outright.
    ///
    /// Attach a producer's buffer lease with [`Self::with_lease`].
    #[must_use]
    pub fn new(
        width: u32,
        height: u32,
        format: DmaBufFormat,
        modifier: u64,
        planes: Vec<DmaBufPlane<F>>,
        rendering_fence: Option<F>,
    ) -> (frame: Self)
        requires
            FrameView::<F, L>::rejection(width, height, planes@.len()) is None,
        ensures
            frame@ == (FrameView::<F, L> {
                layout: BufferLayout { width, height, format, modifier },
                planes: planes@,
                rendering_fence,
                visible: None,
                lease: None,
            }),
            frame@.well_formed(),
            frame@.visible_size() == (width, height),
    {
        DmaBufFrame {
            width,
            height,
            format,
            modifier,
            planes,
            rendering_fence,
            visible: None,
            lease: None,
        }
    }

    /// What an import path reads of the buffer.
    pub fn layout(&self) -> (layout: BufferLayout)
        ensures
            layout == self@.layout,
    {
        BufferLayout {
            width: self.width,
            height: self.height,
            format: self.format,
            modifier: self.modifier,
        }
    }

    /// The offset and the stride of the frame's one plane; `None` unless there
    /// is exactly one.
    pub fn single_plane(&self) -> (plane: Option<(u32, u32)>)
        ensures
            plane == self@.single_plane(),
    {
        if self.planes.len() == 1 {
            Some((self.planes[0].offset, self.planes[0].stride))
        } else {
            None
        }
    }

    /// Whether a producer's lease is attached.
    pub fn is_leased(&self) -> (leased: bool)
        ensures
            leased == (self@.lease is Some),
    {
        self.lease.is_some()
    }

    /// Attaches the producer's lease on the buffer this frame borrows. Only one
    /// producer can own the buffer.
    #[must_use]
    pub fn with_lease(self, lease: L) -> (frame: Self)
        requires
            self@.lease is None,
        ensures
            frame@ == (FrameView::<F, L> { lease: Some(lease), ..self@ }),
            frame@.visible_size() == self@.visible_size(),
            self@.well_formed() ==> frame@.well_formed(),
    {
        let mut frame = self;
        frame.lease = Some(lease);
        frame
    }

    /// Whether [`Self::with_visible_size`] takes this size: a region that is
    /// zero or exceeds the buffer cannot describe any part of the image.
    pub fn accepts_visible_size(&self, width: u32, height: u32) -> (accepts: bool)
        ensures
            accepts == self@.holds_region(width, height),
    {
        width > 0 && height > 0 && width <= self.width && height <= self.height
    }

    /// Narrows the frame to the region that actually holds the image.
    ///
    /// Presenting a padded buffer edge to edge stretches the picture and draws
    /// the padding gutter, which is what happens whenever a producer's coded
    /// size exceeds its visible rect.
    #[must_use]
    pub fn with_visible_size(self, width: u32, height: u32) -> (frame: Self)
        requires
            self@.holds_region(width, height),
        ensures
            frame@ == (FrameView::<F, L> { visible: Some((width, height)), ..self@ }),
            frame@.visible_size() == (width, height),
            self@.well_formed() ==> frame@.well_formed(),
    {
        let mut frame = self;
        frame.visible = Some((width, height));
        frame
    }

    /// The extent that should be presented: the visible region when the buffer
    /// is padded, the whole buffer otherwise.
    #[must_use]
    pub fn visible_size(&self) -> (size: (u32, u32))
        ensures
            size == self@.visible_size(),
            self@.visible matches Some(narrowed) ==> size == narrowed,
            self@.visible is None ==> size == (self@.layout.width, self@.layout.height),
    {
        self.visible.unwrap_or((self.width, self.height))
    }

    /// What to poll to learn whether the frame is ready: its fence, for input,
    /// without blocking. A frame with no fence has nothing to poll.
    pub fn fence_poll(&self) -> (poll: Option<FencePoll<'_, F>>)
        ensures
            match self@.rendering_fence {
                Some(fence) => poll matches Some(poll) && {
                    &&& *poll.fence == fence
                    &&& poll.event == PollEvent::Input
                    &&& poll.timeout == 0
                },
                None => poll is None,
            },
    {
        match &self.rendering_fence {
            Some(fence) => Some(FencePoll { fence, event: PollEvent::Input, timeout: 0 }),
            None => None,
        }
    }

    /// Returns whether the explicit rendering fence has signalled, from what
    /// polling it returned; see [`Self::fence_poll`].
    ///
    /// A frame with no fence is ready as soon as it arrives.
    pub fn is_render_ready(&self, polled: Option<i32>) -> (ready: Result<bool, FencePollFailed>)
        requires
            self@.rendering_fence is Some ==> polled is Some,
        ensures
            ready == self@.render_ready(polled),
    {
        if self.rendering_fence.is_none() {
            return Ok(true);
        }
        let result: i32 = polled.unwrap();
        if result < 0 {
            Err(FencePollFailed)
        } else {
            Ok(result == 1)
        }
    }

    /// Takes the frame's last plane out, to be imported.
    pub fn take_plane(&mut self) -> (plane: Option<DmaBufPlane<F>>)
        ensures
            match plane {
                Some(plane) => {
                    &&& old(self)@.planes.len() > 0
                    &&& plane == old(self)@.planes.last()
                    &&& final(self)@ == (FrameView::<F, L> {
                        planes: old(self)@.planes.drop_last(),
                        ..old(self)@
                    })
                },
                None => old(self)@.planes.len() == 0 && final(self)@ == old(self)@,
            },
    {
        self.planes.pop()
    }
}

impl<F, L: DmaBufLease<F>> DmaBufFrame<F, L> {
    /// Tells the producer the frame has been imported or copied.
    ///
    /// Does nothing for a frame with no lease.
    pub fn presented(&mut self)
        requires
            old(self)@.lease matches Some(lease) ==> lease.accepts_presented(),
        ensures
            final(self)@ == (FrameView::<F, L> { lease: final(self)@.lease, ..old(self)@ }),
            match old(self)@.lease {
                Some(lease) => final(self)@.lease is Some && L::presents(
                    lease,
                    final(self)@.lease->0,
                ),
                None => final(self)@.lease is None,
            },
    {
        if let Some(lease) = self.lease.as_mut() {
            lease.presented();
        }
    }

    /// Returns the buffer to the producer and drops the frame's descriptors.
    ///
    /// A frame with no lease takes no release fence: there is no producer to
    /// hand it to, so accepting it would silently discard it.
    pub fn release(self, release_fence: Option<F>)
        requires
            self@.lease is None ==> release_fence is None,
        ensures
            self@.lease matches Some(lease) ==> L::released_with(lease, release_fence),
    {
        if let Some(lease) = self.lease {
            lease.release(release_fence);
        }
    }
}

} // verus!
