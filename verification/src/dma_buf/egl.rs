//! DMA-BUF import as an EGL image (`EGL_LINUX_DMA_BUF_EXT`).
//!
//! An EGL display and an EGL image are addresses here; address zero is what EGL
//! returns when it has none to give.
//!
//! A copy goes from an [`EglImageRequest`] to an [`EglImage`] to a list of
//! [`EglStep`]s: what to create the image with, then the GL commands that copy
//! it, then its destruction. Each is used up by the next, so that an image is
//! created once and destroyed once.
use vstd::prelude::*;

use crate::dma_buf::frame::{
    BufferLayout, DmaBufFormat, DmaBufFrame, FrameView, DRM_FORMAT_MOD_INVALID,
};
use crate::dma_buf::gles;
use crate::dma_buf::gles::{blit_egl_image, BlitRejection, GlCommand, GlModel, GlesDestination};

verus! {

pub const EGL_NONE: i32 = 0x3038;

pub const EGL_WIDTH: i32 = 0x3057;

pub const EGL_HEIGHT: i32 = 0x3056;

pub const EGL_LINUX_DMA_BUF_EXT: u32 = 0x3270;

pub const EGL_LINUX_DRM_FOURCC_EXT: i32 = 0x3271;

pub const EGL_DMA_BUF_PLANE0_FD_EXT: i32 = 0x3272;

pub const EGL_DMA_BUF_PLANE0_OFFSET_EXT: i32 = 0x3273;

pub const EGL_DMA_BUF_PLANE0_PITCH_EXT: i32 = 0x3274;

pub const EGL_DMA_BUF_PLANE0_MODIFIER_LO_EXT: i32 = 0x3443;

pub const EGL_DMA_BUF_PLANE0_MODIFIER_HI_EXT: i32 = 0x3444;

/// Why a frame was not imported through EGL.
#[derive(Debug, Clone, Copy, PartialEq, Eq, Structural)]
pub enum EglRejection {
    /// No EGL display is current on this thread.
    NoDisplay,
    /// The frame does not have exactly one packed plane.
    PlaneCount,
    /// The frame's width exceeds `EGLint`.
    Width,
    /// The frame's height exceeds `EGLint`.
    Height,
    /// The plane's offset exceeds `EGLint`.
    Offset,
    /// The plane's stride exceeds `EGLint`.
    Stride,
    /// EGL made no image of the buffer.
    ImageCreation,
    /// EGL did not destroy the image.
    ImageDestruction,
}

/// Whether a number fits `EGLint`.
pub open spec fn fits_egl_int(value: u32) -> bool {
    value <= i32::MAX
}

/// The `EGLint` with the same 32 bits as `value`.
pub open spec fn same_bits(value: int) -> int {
    if value < 0x8000_0000 {
        value
    } else {
        value - 0x1_0000_0000
    }
}

/// The lower 32 bits of a modifier, as a number.
pub open spec fn modifier_low(modifier: u64) -> int {
    modifier as int % 0x1_0000_0000
}

/// The upper 32 bits of a modifier, as a number.
pub open spec fn modifier_high(modifier: u64) -> int {
    modifier as int / 0x1_0000_0000
}

/// The first reason for which a buffer has no attribute list. `plane` is the
/// offset and the stride of its only plane, if it has exactly one.
pub open spec fn attribute_rejection(layout: BufferLayout, plane: Option<(u32, u32)>) -> Option<
    EglRejection,
> {
    match plane {
        None => Some(EglRejection::PlaneCount),
        Some((offset, stride)) => if !fits_egl_int(layout.width) {
            Some(EglRejection::Width)
        } else if !fits_egl_int(layout.height) {
            Some(EglRejection::Height)
        } else if !fits_egl_int(offset) {
            Some(EglRejection::Offset)
        } else if !fits_egl_int(stride) {
            Some(EglRejection::Stride)
        } else {
            None
        },
    }
}

/// The attributes of a buffer, each with its value, in order.
pub open spec fn attribute_pairs(
    layout: BufferLayout,
    offset: u32,
    stride: u32,
    fd: i32,
) -> Seq<(i32, int)> {
    let pairs = seq![
        (EGL_WIDTH, layout.width as int),
        (EGL_HEIGHT, layout.height as int),
        (EGL_LINUX_DRM_FOURCC_EXT, same_bits(layout.format.spec_fourcc())),
        (EGL_DMA_BUF_PLANE0_FD_EXT, fd as int),
        (EGL_DMA_BUF_PLANE0_OFFSET_EXT, offset as int),
        (EGL_DMA_BUF_PLANE0_PITCH_EXT, stride as int),
    ];
    if layout.modifier == DRM_FORMAT_MOD_INVALID {
        pairs
    } else {
        pairs + seq![
            (EGL_DMA_BUF_PLANE0_MODIFIER_LO_EXT, same_bits(modifier_low(layout.modifier))),
            (EGL_DMA_BUF_PLANE0_MODIFIER_HI_EXT, same_bits(modifier_high(layout.modifier))),
        ]
    }
}

/// Whether `list` is `pairs` laid out flat, closed by `EGL_NONE`.
pub open spec fn lists_pairs(list: Seq<i32>, pairs: Seq<(i32, int)>) -> bool {
    &&& list.len() == 2 * pairs.len() + 1
    &&& forall|i: int|
        0 <= i < pairs.len() ==> list[2 * i] == (#[trigger] pairs[i]).0 && list[2 * i + 1]
            == pairs[i].1
    &&& list.last() == EGL_NONE
}

/// What a driver finds in an attribute list under `key`: the list is read in
/// pairs from the front until `EGL_NONE` stands where a key would.
pub open spec fn attribute(list: Seq<i32>, key: i32) -> Option<i32>
    decreases list.len(),
{
    if list.len() < 2 || list[0] == EGL_NONE {
        None
    } else if list[0] == key {
        Some(list[1])
    } else {
        attribute(list.skip(2), key)
    }
}

/// A signed number with the bits of an unsigned one.
fn reinterpret(value: u32) -> (signed: i32)
    ensures
        signed == same_bits(value as int),
{
    let signed: i32 = #[verifier::truncate]
    (value as i32);
    assert(signed == if value < 0x8000_0000 {
        value as int
    } else {
        value - 0x1_0000_0000
    }) by (bit_vector)
        requires
            signed == value as i32,
    ;
    signed
}

/// The attributes by which EGL imports a frame's one plane, whose descriptor
/// has the number `fd`.
///
/// The modifier is left out where none was negotiated.
pub fn egl_attributes<F, L>(frame: &DmaBufFrame<F, L>, fd: i32) -> (attributes: Result<
    Vec<i32>,
    EglRejection,
>)
    ensures
        match attributes {
            Ok(list) => {
                &&& attribute_rejection(frame@.layout, frame@.single_plane()) is None
                &&& lists_pairs(
                    list@,
                    attribute_pairs(
                        frame@.layout,
                        frame@.planes[0].offset,
                        frame@.planes[0].stride,
                        fd,
                    ),
                )
            },
            Err(reason) => attribute_rejection(frame@.layout, frame@.single_plane()) == Some(
                reason,
            ),
        },
{
    let layout = frame.layout();
    let (offset, stride) = match frame.single_plane() {
        Some(plane) => plane,
        None => {
            return Err(EglRejection::PlaneCount);
        },
    };
    let fourcc: u32 = layout.format.fourcc();
    let limit: u32 = 0x7fff_ffff;
    if layout.width > limit {
        return Err(EglRejection::Width);
    }
    if layout.height > limit {
        return Err(EglRejection::Height);
    }
    if offset > limit {
        return Err(EglRejection::Offset);
    }
    if stride > limit {
        return Err(EglRejection::Stride);
    }
    let mut attributes: Vec<i32> = vec![
        EGL_WIDTH,
        layout.width as i32,
        EGL_HEIGHT,
        layout.height as i32,
        EGL_LINUX_DRM_FOURCC_EXT,
        reinterpret(fourcc),
        EGL_DMA_BUF_PLANE0_FD_EXT,
        fd,
        EGL_DMA_BUF_PLANE0_OFFSET_EXT,
        offset as i32,
        EGL_DMA_BUF_PLANE0_PITCH_EXT,
        stride as i32,
    ];
    if layout.modifier != DRM_FORMAT_MOD_INVALID {
        let modifier: u64 = layout.modifier;
        let low: u64 = modifier & 0xffff_ffff;
        let high: u64 = modifier >> 32;
        assert(low == modifier % 0x1_0000_0000 && high == modifier / 0x1_0000_0000 && high
            < 0x1_0000_0000) by (bit_vector)
            requires
                low == modifier & 0xffff_ffff,
                high == modifier >> 32,
        ;
        attributes.push(EGL_DMA_BUF_PLANE0_MODIFIER_LO_EXT);
        attributes.push(reinterpret(low as u32));
        attributes.push(EGL_DMA_BUF_PLANE0_MODIFIER_HI_EXT);
        attributes.push(reinterpret(high as u32));
    }
    attributes.push(EGL_NONE);
    Ok(attributes)
}

/// An EGL image to create: the arguments of `eglCreateImageKHR`.
#[derive(Debug)]
pub struct EglImageRequest {
    pub display: usize,
    /// No context: a DMA-BUF belongs to none.
    pub context: usize,
    pub target: u32,
    /// No client buffer: the attributes name the descriptor.
    pub client_buffer: usize,
    pub attributes: Vec<i32>,
}

impl EglImageRequest {
    /// Whether this asks for an image of a frame's one plane, whose descriptor
    /// has the number `fd`, on `display`.
    pub open spec fn asks_for<F, L>(
        &self,
        frame: FrameView<F, L>,
        fd: i32,
        display: usize,
    ) -> bool {
        &&& self.display == display
        &&& self.context == 0
        &&& self.target == EGL_LINUX_DMA_BUF_EXT
        &&& self.client_buffer == 0
        &&& lists_pairs(
            self.attributes@,
            attribute_pairs(frame.layout, frame.planes[0].offset, frame.planes[0].stride, fd),
        )
    }
}

/// A live EGL image and the display it was made on.
#[derive(Debug, PartialEq, Eq, Structural)]
pub struct EglImage {
    pub display: usize,
    pub image: usize,
}

/// Starts the import of a frame on the thread's current display: what
/// `eglCreateImageKHR` is to be asked for.
pub fn request_image<F, L>(frame: &DmaBufFrame<F, L>, fd: i32, display: usize) -> (request: Result<
    EglImageRequest,
    EglRejection,
>)
    ensures
        match request {
            Ok(request) => {
                &&& display != 0
                &&& attribute_rejection(frame@.layout, frame@.single_plane()) is None
                &&& request.asks_for(frame@, fd, display)
            },
            Err(reason) => if display == 0 {
                reason == EglRejection::NoDisplay
            } else {
                attribute_rejection(frame@.layout, frame@.single_plane()) == Some(reason)
            },
        },
{
    if display == 0 {
        return Err(EglRejection::NoDisplay);
    }
    match egl_attributes(frame, fd) {
        Ok(attributes) => Ok(
            EglImageRequest {
                display,
                context: 0,
                target: EGL_LINUX_DMA_BUF_EXT,
                client_buffer: 0,
                attributes,
            },
        ),
        Err(reason) => Err(reason),
    }
}

impl EglImageRequest {
    /// Takes the address that `eglCreateImageKHR` returned.
    pub fn created(self, image: usize) -> (created: Result<EglImage, EglRejection>)
        ensures
            created == if image == 0 {
                Err::<EglImage, EglRejection>(EglRejection::ImageCreation)
            } else {
                Ok(EglImage { display: self.display, image })
            },
    {
        if image == 0 {
            Err(EglRejection::ImageCreation)
        } else {
            Ok(EglImage { display: self.display, image })
        }
    }
}

/// One step of a copy out of a live EGL image. A step that fails ends the copy.
#[derive(Debug, Clone, Copy, PartialEq, Eq, Structural)]
pub enum EglStep {
    /// A GL command.
    Gl(GlCommand),
    /// Calls `eglDestroyImageKHR` with these, and fails unless the image was
    /// destroyed; see [`destroyed`].
    Destroy { display: usize, image: usize },
}

impl EglImage {
    /// The steps that copy a region of the image to the texture named `name`
    /// and then destroy the image on its display.
    pub open spec fn copy_steps(self, size: (u32, u32), name: u32) -> Seq<EglStep> {
        gles::blit_commands(size, name, self.image).map_values(
            |command: GlCommand| EglStep::Gl(command),
        ).push(EglStep::Destroy { display: self.display, image: self.image })
    }

    /// The steps that copy a frame's visible extent out of its image into
    /// `destination` and then destroy the image. The image is used up: there is
    /// no second destruction.
    ///
    /// Where the copy is rejected the image stays with its display.
    pub fn copy<F, L>(self, frame: &DmaBufFrame<F, L>, destination: GlesDestination) -> (steps:
        Result<Vec<EglStep>, BlitRejection>)
        ensures
            match steps {
                Ok(steps) => {
                    &&& gles::blit_rejection(frame@.visible_size(), destination) is None
                    &&& steps@ == self.copy_steps(frame@.visible_size(), destination->name)
                },
                Err(reason) => gles::blit_rejection(frame@.visible_size(), destination) == Some(
                    reason,
                ),
            },
    {
        let commands = match blit_egl_image(frame, destination, self.image) {
            Ok(commands) => commands,
            Err(reason) => {
                return Err(reason);
            },
        };
        let mut steps: Vec<EglStep> = Vec::new();
        let mut index: usize = 0;
        while index < commands.len()
            invariant
                index <= commands@.len(),
                steps@.len() == index,
                forall|i: int| 0 <= i < index ==> steps@[i] == EglStep::Gl(commands@[i]),
            decreases commands@.len() - index,
        {
            steps.push(EglStep::Gl(commands[index]));
            index = index + 1;
        }
        steps.push(EglStep::Destroy { display: self.display, image: self.image });
        assert(steps@ =~= self.copy_steps(frame@.visible_size(), destination->name));
        Ok(steps)
    }
}

/// Judges what `eglDestroyImageKHR` returned.
pub fn destroyed(result: u32) -> (destroyed: Result<(), EglRejection>)
    ensures
        destroyed == if result == 1 {
            Ok::<(), EglRejection>(())
        } else {
            Err(EglRejection::ImageDestruction)
        },
{
    if result == 1 {
        Ok(())
    } else {
        Err(EglRejection::ImageDestruction)
    }
}

/// The EGL and GL state that a copy is held to.
pub struct EglModel {
    /// How many images were created.
    pub created: nat,
    /// The image that is alive.
    pub live: Option<EglImage>,
    /// The images that were destroyed, in order.
    pub destroyed: Seq<EglImage>,
    pub gl: GlModel,
}

impl EglModel {
    /// Before a copy.
    pub open spec fn start() -> EglModel {
        EglModel { created: 0, live: None, destroyed: seq![], gl: GlModel::clean() }
    }

    /// What creating an image does, where EGL returns the address `image`;
    /// `None` where an image is alive already, and where the request is not one
    /// that a DMA-BUF admits: on a display, without context or client buffer.
    pub open spec fn create(self, request: EglImageRequest, image: usize) -> Option<EglModel> {
        if {
            &&& self.live is None
            &&& request.display != 0
            &&& request.context == 0
            &&& request.target == EGL_LINUX_DMA_BUF_EXT
            &&& request.client_buffer == 0
            &&& image != 0
        } {
            Some(
                EglModel {
                    created: self.created + 1,
                    live: Some(EglImage { display: request.display, image }),
                    ..self
                },
            )
        } else {
            None
        }
    }

    /// What one step does; `None` where it breaks the protocol. GL commands run
    /// while the image is alive, attach no other image and blit from no other;
    /// the image that is alive is destroyed on its own display, after a copy of
    /// it was made.
    pub open spec fn step(self, step: EglStep) -> Option<EglModel> {
        match (self.live, step) {
            (Some(live), EglStep::Gl(command)) => if {
                &&& command matches GlCommand::AttachImage(image) ==> image == live.image
                &&& command is Blit ==> self.gl.texture_image == Some(live.image)
            } {
                match self.gl.step(command) {
                    Some(gl) => Some(EglModel { gl, ..self }),
                    None => None,
                }
            } else {
                None
            },
            (Some(live), EglStep::Destroy { display, image }) => if {
                &&& live == EglImage { display, image }
                &&& self.gl.copies.len() > 0
            } {
                Some(EglModel { live: None, destroyed: self.destroyed.push(live), ..self })
            } else {
                None
            },
            (None, _) => None,
        }
    }

    /// What the first `count` steps of a list do, one after the other.
    pub open spec fn run(self, steps: Seq<EglStep>, count: nat) -> Option<EglModel>
        decreases count,
    {
        if count == 0 {
            Some(self)
        } else {
            match self.run(steps, (count - 1) as nat) {
                Some(model) => model.step(steps[count - 1]),
                None => None,
            }
        }
    }
}

/// A copy of a frame creates one image, on the current display. The image is
/// alive through the whole copy and is then destroyed once, on the display it
/// was made on; the copy is the only one, of the visible extent, and leaves
/// nothing else behind.
pub proof fn lemma_image_lives_through_copy<F, L>(
    request: EglImageRequest,
    frame: FrameView<F, L>,
    fd: i32,
    display: usize,
    image: usize,
    name: u32,
)
    requires
        request.asks_for(frame, fd, display),
        display != 0,
        image != 0,
    ensures
        EglModel::start().create(request, image) matches Some(made) && {
            let steps = EglImage { display, image }.copy_steps(frame.visible_size(), name);
            let region = gles::region(frame.visible_size());
            made.run(steps, steps.len()) == Some(
                EglModel {
                    created: 1,
                    live: None,
                    destroyed: seq![EglImage { display, image }],
                    gl: GlModel {
                        copies: seq![
                            gles::GlCopy { image, destination: name, from: region, to: region },
                        ],
                        ..GlModel::clean()
                    },
                },
            )
        },
{
    let size = frame.visible_size();
    let made = EglModel::start().create(request, image)->0;
    let live = EglImage { display, image };
    let commands = gles::blit_commands(size, name, image);
    let steps = live.copy_steps(size, name);
    gles::lemma_blit_leaves_context_clean(size, name, image);
    assert(made.gl.run(commands, 13)->0.texture_image == Some(image)) by {
        reveal_with_fuel(GlModel::run, 14);
    }
    lemma_commands_run_on_live_image(made, live, commands, steps, 20);
    let copied = made.run(steps, 20)->0;
    assert(made.run(steps, 21) == copied.step(steps[20]));
    assert(seq![].push(live) =~= seq![live]);
}

/// While an image is alive, the GL commands of a list do what they do by
/// themselves, where they attach that image alone and blit from it alone.
proof fn lemma_commands_run_on_live_image(
    model: EglModel,
    live: EglImage,
    commands: Seq<GlCommand>,
    steps: Seq<EglStep>,
    count: nat,
)
    requires
        model.live == Some(live),
        count <= commands.len(),
        count <= steps.len(),
        forall|i: int| 0 <= i < count ==> #[trigger] steps[i] == EglStep::Gl(commands[i]),
        forall|i: int|
            0 <= i < count ==> (#[trigger] commands[i] matches GlCommand::AttachImage(image)
                ==> image == live.image),
        forall|i: int|
            0 <= i < count && (#[trigger] commands[i]) is Blit ==> model.gl.run(
                commands,
                i as nat,
            )->0.texture_image == Some(live.image),
        model.gl.run(commands, count) is Some,
    ensures
        model.run(steps, count) == Some(
            EglModel { gl: model.gl.run(commands, count)->0, ..model },
        ),
    decreases count,
{
    if count > 0 {
        lemma_commands_run_on_live_image(model, live, commands, steps, (count - 1) as nat);
        assert(steps[count - 1] == EglStep::Gl(commands[count - 1]));
    }
}

/// Reading a flat list gives, under each key, the value that it was listed
/// with, and nothing under any other key.
proof fn lemma_attribute_of_pairs(list: Seq<i32>, pairs: Seq<(i32, int)>, key: i32)
    requires
        lists_pairs(list, pairs),
        forall|i: int| 0 <= i < pairs.len() ==> (#[trigger] pairs[i]).0 != EGL_NONE,
        forall|i: int, j: int| 0 <= i < j < pairs.len() ==> pairs[i].0 != pairs[j].0,
    ensures
        forall|i: int|
            0 <= i < pairs.len() && (#[trigger] pairs[i]).0 == key ==> attribute(list, key)
                is Some && attribute(list, key)->0 == pairs[i].1,
        (forall|i: int| 0 <= i < pairs.len() ==> (#[trigger] pairs[i]).0 != key) ==> attribute(
            list,
            key,
        ) is None,
    decreases pairs.len(),
{
    if pairs.len() > 0 {
        let first = pairs[0];
        assert(list[0] == first.0 && list[1] == first.1);
        let rest = pairs.skip(1);
        let tail = list.skip(2);
        assert forall|i: int| 0 <= i < rest.len() implies tail[2 * i] == (#[trigger] rest[i]).0
            && tail[2 * i + 1] == rest[i].1 by {
            assert(rest[i] == pairs[i + 1]);
            assert(tail[2 * i] == list[2 * (i + 1)]);
            assert(tail[2 * i + 1] == list[2 * (i + 1) + 1]);
        }
        assert(tail.last() == list.last());
        lemma_attribute_of_pairs(tail, rest, key);
        assert forall|i: int| 0 <= i < pairs.len() && (#[trigger] pairs[i]).0 == key implies {
            &&& attribute(list, key) is Some
            &&& attribute(list, key)->0 == pairs[i].1
        } by {
            if i > 0 {
                assert(rest[i - 1] == pairs[i]);
            }
        }
        if forall|i: int| 0 <= i < pairs.len() ==> (#[trigger] pairs[i]).0 != key {
            assert(first.0 != key);
            assert forall|i: int| 0 <= i < rest.len() implies (#[trigger] rest[i]).0 != key by {
                assert(rest[i] == pairs[i + 1]);
            }
        }
    }
}

/// A driver that reads the list finds the frame in it: its extent, its code,
/// its descriptor and its plane's layout under their keys.
pub proof fn lemma_attributes_describe_frame(
    list: Seq<i32>,
    layout: BufferLayout,
    offset: u32,
    stride: u32,
    fd: i32,
)
    requires
        attribute_rejection(layout, Some((offset, stride))) is None,
        lists_pairs(list, attribute_pairs(layout, offset, stride, fd)),
    ensures
        attribute(list, EGL_WIDTH) == Some(layout.width as i32),
        attribute(list, EGL_HEIGHT) == Some(layout.height as i32),
        attribute(list, EGL_WIDTH)->0 == layout.width,
        attribute(list, EGL_HEIGHT)->0 == layout.height,
        attribute(list, EGL_DMA_BUF_PLANE0_OFFSET_EXT)->0 == offset,
        attribute(list, EGL_DMA_BUF_PLANE0_PITCH_EXT)->0 == stride,
        attribute(list, EGL_LINUX_DRM_FOURCC_EXT) is Some,
        attribute(list, EGL_LINUX_DRM_FOURCC_EXT)->0 == same_bits(layout.format.spec_fourcc()),
        attribute(list, EGL_DMA_BUF_PLANE0_FD_EXT) == Some(fd),
        attribute(list, EGL_DMA_BUF_PLANE0_OFFSET_EXT) == Some(offset as i32),
        attribute(list, EGL_DMA_BUF_PLANE0_PITCH_EXT) == Some(stride as i32),
{
    let pairs = attribute_pairs(layout, offset, stride, fd);
    lemma_attribute_of_pairs(list, pairs, EGL_WIDTH);
    lemma_attribute_of_pairs(list, pairs, EGL_HEIGHT);
    lemma_attribute_of_pairs(list, pairs, EGL_LINUX_DRM_FOURCC_EXT);
    lemma_attribute_of_pairs(list, pairs, EGL_DMA_BUF_PLANE0_FD_EXT);
    lemma_attribute_of_pairs(list, pairs, EGL_DMA_BUF_PLANE0_OFFSET_EXT);
    lemma_attribute_of_pairs(list, pairs, EGL_DMA_BUF_PLANE0_PITCH_EXT);
    assert(pairs[0].0 == EGL_WIDTH);
    assert(pairs[1].0 == EGL_HEIGHT);
    assert(pairs[2].0 == EGL_LINUX_DRM_FOURCC_EXT);
    assert(pairs[3].0 == EGL_DMA_BUF_PLANE0_FD_EXT);
    assert(pairs[4].0 == EGL_DMA_BUF_PLANE0_OFFSET_EXT);
    assert(pairs[5].0 == EGL_DMA_BUF_PLANE0_PITCH_EXT);
}

/// A buffer has an attribute list exactly where it has one plane and its
/// numbers fit `EGLint`. The plane count is told first, then the width, the
/// height, the offset and the stride.
pub proof fn lemma_attributes_need_one_plane_and_egl_ints(
    layout: BufferLayout,
    offset: u32,
    stride: u32,
)
    ensures
        attribute_rejection(layout, None) == Some(EglRejection::PlaneCount),
        ({
            let rejection = attribute_rejection(layout, Some((offset, stride)));
            &&& rejection is None <==> layout.width < 0x8000_0000 && layout.height < 0x8000_0000
                && offset < 0x8000_0000 && stride < 0x8000_0000
            &&& rejection == Some(EglRejection::Width) <==> layout.width >= 0x8000_0000
            &&& rejection == Some(EglRejection::Height) <==> layout.width < 0x8000_0000
                && layout.height >= 0x8000_0000
            &&& rejection == Some(EglRejection::Offset) <==> layout.width < 0x8000_0000
                && layout.height < 0x8000_0000 && offset >= 0x8000_0000
            &&& rejection == Some(EglRejection::Stride) <==> layout.width < 0x8000_0000
                && layout.height < 0x8000_0000 && offset < 0x8000_0000 && stride >= 0x8000_0000
        }),
{
}

/// The list in EGL's own numbers, for every buffer: the extent, the code, the
/// descriptor, the offset and the stride of the plane, then the two halves of
/// the modifier where it is not the invalid one, then the end.
pub proof fn lemma_attributes_in_numbers(
    list: Seq<i32>,
    layout: BufferLayout,
    offset: u32,
    stride: u32,
    fd: i32,
)
    requires
        lists_pairs(list, attribute_pairs(layout, offset, stride, fd)),
    ensures
        list[0] == 0x3057 && list[1] == layout.width,
        list[2] == 0x3056 && list[3] == layout.height,
        list[4] == 0x3271 && list[5] == match layout.format {
            DmaBufFormat::Bgra8 => 0x3432_5241int,
            DmaBufFormat::Bgrx8 => 0x3432_5258int,
            DmaBufFormat::Rgba8 => 0x3432_4241int,
            DmaBufFormat::Rgbx8 => 0x3432_4258int,
        },
        list[6] == 0x3272 && list[7] == fd,
        list[8] == 0x3273 && list[9] == offset,
        list[10] == 0x3274 && list[11] == stride,
        layout.modifier == 0xffff_ffff_ffff_ffff ==> list.len() == 13 && list[12] == 0x3038,
        layout.modifier != 0xffff_ffff_ffff_ffff ==> {
            &&& list.len() == 17
            &&& list[12] == 0x3443 && list[14] == 0x3444
            &&& list[13] as int % 0x1_0000_0000 == layout.modifier as int % 0x1_0000_0000
            &&& list[15] as int % 0x1_0000_0000 == layout.modifier as int / 0x1_0000_0000
            &&& list[16] == 0x3038
        },
{
    let pairs = attribute_pairs(layout, offset, stride, fd);
    assert(pairs[0].0 == EGL_WIDTH);
    assert(pairs[1].0 == EGL_HEIGHT);
    assert(pairs[2].0 == EGL_LINUX_DRM_FOURCC_EXT);
    assert(pairs[3].0 == EGL_DMA_BUF_PLANE0_FD_EXT);
    assert(pairs[4].0 == EGL_DMA_BUF_PLANE0_OFFSET_EXT);
    assert(pairs[5].0 == EGL_DMA_BUF_PLANE0_PITCH_EXT);
    layout.format.lemma_fourcc_in_numbers();
    if layout.modifier != DRM_FORMAT_MOD_INVALID {
        assert(pairs[6].0 == EGL_DMA_BUF_PLANE0_MODIFIER_LO_EXT);
        assert(pairs[7].0 == EGL_DMA_BUF_PLANE0_MODIFIER_HI_EXT);
    }
}

/// A request for an image of a frame is one for a DMA-BUF, in EGL's own number,
/// on that display, without a context or a client buffer, and its attributes
/// are those of the frame's first plane.
pub proof fn lemma_request_in_numbers<F, L>(
    request: EglImageRequest,
    frame: FrameView<F, L>,
    fd: i32,
    display: usize,
)
    requires
        request.asks_for(frame, fd, display),
    ensures
        request.display == display,
        request.target == 0x3270,
        request.context == 0 && request.client_buffer == 0,
        request.attributes@[1] == frame.layout.width,
        request.attributes@[3] == frame.layout.height,
        request.attributes@[7] == fd,
        request.attributes@[9] == frame.planes[0].offset,
        request.attributes@[11] == frame.planes[0].stride,
        request.attributes@.last() == 0x3038,
{
    lemma_attributes_in_numbers(
        request.attributes@,
        frame.layout,
        frame.planes[0].offset,
        frame.planes[0].stride,
        fd,
    );
}

/// Every step but the last is a command of the blit, in the blit's order, and
/// the last destroys the image, by its own address, on its own display.
pub proof fn lemma_copy_is_blit_then_destruction(
    image: EglImage,
    size: (u32, u32),
    name: u32,
    at: int,
)
    requires
        0 <= at < gles::blit_commands(size, name, image.image).len(),
    ensures
        image.copy_steps(size, name)[at] == EglStep::Gl(
            gles::blit_commands(size, name, image.image)[at],
        ),
        image.copy_steps(size, name).len() == gles::blit_commands(size, name, image.image).len()
            + 1,
        image.copy_steps(size, name).last() == (EglStep::Destroy {
            display: image.display,
            image: image.image,
        }),
{
}

/// The modifier is in the list exactly where one was negotiated, and its two
/// halves put together are the modifier again.
pub proof fn lemma_attributes_carry_modifier(
    list: Seq<i32>,
    layout: BufferLayout,
    offset: u32,
    stride: u32,
    fd: i32,
)
    requires
        lists_pairs(list, attribute_pairs(layout, offset, stride, fd)),
    ensures
        layout.modifier == DRM_FORMAT_MOD_INVALID ==> {
            &&& attribute(list, EGL_DMA_BUF_PLANE0_MODIFIER_LO_EXT) is None
            &&& attribute(list, EGL_DMA_BUF_PLANE0_MODIFIER_HI_EXT) is None
        },
        layout.modifier != DRM_FORMAT_MOD_INVALID ==> {
            let low = attribute(list, EGL_DMA_BUF_PLANE0_MODIFIER_LO_EXT);
            let high = attribute(list, EGL_DMA_BUF_PLANE0_MODIFIER_HI_EXT);
            &&& low is Some && high is Some
            &&& layout.modifier == (low->0 as int % 0x1_0000_0000) + 0x1_0000_0000 * (high->0 as int
                % 0x1_0000_0000)
        },
{
    let pairs = attribute_pairs(layout, offset, stride, fd);
    lemma_attribute_of_pairs(list, pairs, EGL_DMA_BUF_PLANE0_MODIFIER_LO_EXT);
    lemma_attribute_of_pairs(list, pairs, EGL_DMA_BUF_PLANE0_MODIFIER_HI_EXT);
    if layout.modifier != DRM_FORMAT_MOD_INVALID {
        assert(pairs[6].0 == EGL_DMA_BUF_PLANE0_MODIFIER_LO_EXT);
        assert(pairs[7].0 == EGL_DMA_BUF_PLANE0_MODIFIER_HI_EXT);
    }
}

} // verus!
