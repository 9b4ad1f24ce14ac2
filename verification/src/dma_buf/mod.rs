//! Linux DMA-BUF import.
//!
//! A DMA-BUF is a kernel handle to buffer memory another process rendered into.
//! Importing one needs the platform's own external-memory path, and which one
//! that is depends on the backend a device runs on: Vulkan's
//! `VK_EXT_external_memory_dma_buf` or EGL's `EGL_LINUX_DMA_BUF_EXT`.
//! [`DmaBufImporter`] picks between them once, and hides the difference behind
//! two operations:
//!
//! - [`DmaBufImporter::copy_to_texture`] for producers whose buffer is only
//!   valid for the duration of a callback: the copy is complete on the GPU
//!   before the buffer is released.
//! - [`DmaBufImporter::copy_into`] for a render loop that already has a
//!   destination texture and can defer the buffer's release until its own
//!   submission completes.
//!
//! Both copy the frame's [visible extent](DmaBufFrame::visible_size) rather
//! than the whole allocation, because a producer may pad its buffer and
//! presenting the padding stretches the picture and draws the gutter.
//!
//! An operation is a list of [`CopyStep`]s, to be performed in order.
pub mod egl;
pub mod frame;
pub mod gles;
pub mod symbols;
pub mod vulkan;

use vstd::prelude::*;

pub use frame::{
    DmaBufFormat, DmaBufFrame, DmaBufLease, DmaBufPlane, FrameView, DRM_FORMAT_MOD_INVALID,
};

use crate::texture::{Label, TextureDimension, TextureFormat, TextureRequest, TextureUsage};

verus! {

/// The backend that a device runs on.
#[derive(Debug, Clone, Copy, PartialEq, Eq, Structural)]
pub enum AdapterBackend {
    Noop,
    Vulkan,
    Metal,
    Dx12,
    Gl,
    BrowserWebGpu,
}

/// A path by which DMA-BUFs are imported.
#[derive(Debug, Clone, Copy, PartialEq, Eq, Structural)]
pub enum ImportPath {
    /// Through Vulkan external memory.
    Vulkan,
    /// Through an EGL image and a GLES blit.
    Gles,
}

/// The import path of a backend.
pub open spec fn path_of(backend: AdapterBackend) -> Option<ImportPath> {
    match backend {
        AdapterBackend::Vulkan => Some(ImportPath::Vulkan),
        AdapterBackend::Gl => Some(ImportPath::Gles),
        _ => None,
    }
}

/// Picks the import path of a backend; no backend but Vulkan and EGL/GLES can
/// import a DMA-BUF.
pub fn create_backend(backend: AdapterBackend) -> (path: Option<ImportPath>)
    ensures
        path == path_of(backend),
{
    match backend {
        AdapterBackend::Vulkan => Some(ImportPath::Vulkan),
        AdapterBackend::Gl => Some(ImportPath::Gles),
        AdapterBackend::Noop
        | AdapterBackend::Metal
        | AdapterBackend::Dx12
        | AdapterBackend::BrowserWebGpu => None,
    }
}

/// Why a frame is not copied.
#[derive(Debug, Clone, Copy, PartialEq, Eq, Structural)]
pub enum CopyRejection {
    /// The frame's rendering fence could not be polled.
    FencePoll,
    /// The frame's rendering fence has not signalled.
    NotReady,
}

/// The submission of a copy did not complete.
#[derive(Debug, Clone, Copy, PartialEq, Eq, Structural)]
pub struct SubmissionFailed;

/// Judges whether the wait of [`CopyStep::AwaitSubmission`] succeeded.
pub fn awaited(success: bool) -> (awaited: Result<(), SubmissionFailed>)
    ensures
        awaited == if success {
            Ok::<(), SubmissionFailed>(())
        } else {
            Err(SubmissionFailed)
        },
{
    if success {
        Ok(())
    } else {
        Err(SubmissionFailed)
    }
}

/// One step of a copy. A step that fails ends the copy.
#[derive(Debug, Clone, Copy, PartialEq, Eq, Structural)]
pub enum CopyStep {
    /// Creates the destination texture.
    CreateDestination(TextureRequest),
    /// Opens a command encoder.
    CreateEncoder(Label),
    /// Records a clear of the destination.
    ClearDestination,
    /// Imports the frame's plane as a Vulkan image.
    ImportImage,
    /// Records a copy of this size from the imported image to the destination.
    RecordCopy { width: u32, height: u32 },
    /// Finishes the encoder and submits what it recorded.
    Submit,
    /// Waits, for as long as it takes, until the submission has completed; see
    /// [`awaited`].
    AwaitSubmission,
    /// Destroys the imported image.
    DropImport,
    /// Imports the frame as an EGL image and blits a region of this size to the
    /// destination, outside the command stream.
    BlitImage { width: u32, height: u32 },
    /// Waits until every GL command so far has completed.
    FinishGl,
    /// Tells the producer that the frame was imported or copied.
    Present,
    /// Returns the buffer to the producer, without a fence.
    Release,
}

/// Whatever a deferred import allocated, alive until the GPU is done with it.
///
/// Drop this only once the submission that reads the imported frame has
/// completed.
#[derive(Debug)]
pub struct DmaBufImportGuard<I> {
    imported: Option<I>,
}

impl<I> DmaBufImportGuard<I> {
    /// The import that the guard keeps alive.
    pub closed spec fn imported(&self) -> Option<I> {
        self.imported
    }
}

/// The result of a deferred copy.
#[derive(Debug)]
pub struct DmaBufImport<E, I> {
    /// The encoder holding the copy, for the caller to record into and submit.
    ///
    /// The EGL/GLES path performs its copy immediately and submits the encoder
    /// it was working with, so this is a fresh encoder that merely follows the
    /// copy; the Vulkan path records the copy into it. Either way the copy is
    /// ordered before anything the caller records next.
    pub encoder: E,
    /// Must outlive the submission of [`Self::encoder`].
    pub guard: DmaBufImportGuard<I>,
}

impl<E, I> DmaBufImport<E, I> {
    /// Pairs the encoder that a deferred copy left open with the import that it
    /// left alive, if any.
    pub fn new(encoder: E, imported: Option<I>) -> (import: Self)
        ensures
            import.encoder == encoder,
            import.guard.imported() == imported,
    {
        DmaBufImport { encoder, guard: DmaBufImportGuard { imported } }
    }
}

/// Imports Linux DMA-BUF frames into textures, along one path.
#[derive(Debug, Clone, Copy, PartialEq, Eq, Structural)]
pub struct DmaBufImporter {
    pub path: ImportPath,
}

/// The texture that a synchronous copy of a frame creates: as large as the
/// frame's visible extent, to be copied to and sampled.
pub open spec fn owned_texture<F, L>(frame: FrameView<F, L>) -> TextureRequest {
    TextureRequest::spec_flat(
        Label::OwnedDmaBuf,
        frame.visible_size().0,
        frame.visible_size().1,
        frame.layout.format.spec_texture_format(),
        TextureUsage { copy_src: false, copy_dst: true, texture_binding: true },
    )
}

/// Vulkan and EGL/GLES devices import, each along its own path, and no others.
pub proof fn lemma_two_backends_import(backend: AdapterBackend)
    ensures
        path_of(backend) == Some(ImportPath::Vulkan) <==> backend == AdapterBackend::Vulkan,
        path_of(backend) == Some(ImportPath::Gles) <==> backend == AdapterBackend::Gl,
{
}

/// The texture that a synchronous copy creates holds what the frame presents:
/// it is as large as that, and its channels are in the buffer's order, which is
/// the order of the image that is copied from. It is one flat image that can be
/// copied to and sampled, and nothing else.
pub proof fn lemma_owned_texture_holds_the_picture<F, L>(
    frame: FrameView<F, L>,
    offset: u32,
    stride: u32,
)
    ensures
        ({
            let texture = owned_texture(frame);
            let format = frame.layout.format;
            &&& frame.visible matches Some(size) ==> texture.width == size.0 && texture.height
                == size.1
            &&& frame.visible is None ==> texture.width == frame.layout.width && texture.height
                == frame.layout.height
            &&& texture.format == TextureFormat::Rgba8Unorm <==> (format == DmaBufFormat::Rgba8
                || format == DmaBufFormat::Rgbx8)
            &&& texture.format == TextureFormat::Bgra8Unorm <==> (format == DmaBufFormat::Bgra8
                || format == DmaBufFormat::Bgrx8)
            &&& texture.format == TextureFormat::Rgba8Unorm <==> vulkan::image_request(
                frame.layout,
                offset,
                stride,
            ).format == vulkan::ImageFormat::R8G8B8A8Unorm
            &&& texture.format == TextureFormat::Bgra8Unorm <==> vulkan::image_request(
                frame.layout,
                offset,
                stride,
            ).format == vulkan::ImageFormat::B8G8R8A8Unorm
            &&& texture.label == Label::OwnedDmaBuf
            &&& texture.usage.copy_dst && texture.usage.texture_binding && !texture.usage.copy_src
            &&& texture.dimension == TextureDimension::D2
            &&& texture.depth_or_array_layers == 1
            &&& texture.mip_level_count == 1 && texture.sample_count == 1
        }),
{
    frame.lemma_presents_what_it_was_narrowed_to(frame.layout.width, frame.layout.height);
    frame.layout.format.lemma_texture_keeps_channel_order();
    vulkan::lemma_image_lies_over_plane(frame.layout, offset, stride);
}

/// Every step of a synchronous copy that has an argument has the frame's: the
/// destination is created as the frame's texture, and what is copied, recorded
/// or blitted, is the extent that the frame presents.
pub proof fn lemma_owned_steps_take_the_picture<F, L>(
    importer: DmaBufImporter,
    frame: FrameView<F, L>,
    at: int,
)
    requires
        0 <= at < importer.owned_steps(frame).len(),
    ensures
        ({
            let step = importer.owned_steps(frame)[at];
            let picture = match frame.visible {
                Some(size) => size,
                None => (frame.layout.width, frame.layout.height),
            };
            &&& step is CreateDestination <==> at == 0
            &&& step matches CopyStep::CreateDestination(texture) ==> {
                &&& (texture.width, texture.height) == picture
                &&& texture.format == TextureFormat::Rgba8Unorm <==> (frame.layout.format
                    == DmaBufFormat::Rgba8 || frame.layout.format == DmaBufFormat::Rgbx8)
                &&& texture.format == TextureFormat::Bgra8Unorm <==> (frame.layout.format
                    == DmaBufFormat::Bgra8 || frame.layout.format == DmaBufFormat::Bgrx8)
                &&& texture.usage.copy_dst && texture.usage.texture_binding
                &&& !texture.usage.copy_src
                &&& texture == owned_texture(frame)
            }
            &&& step matches CopyStep::RecordCopy { width, height } ==> (width, height) == picture
            &&& step matches CopyStep::BlitImage { width, height } ==> (width, height) == picture
            &&& step matches CopyStep::CreateEncoder(label) ==> label == Label::OwnedDmaBufCopy
            &&& step is ImportImage ==> importer.path == ImportPath::Vulkan
            &&& step is BlitImage ==> importer.path == ImportPath::Gles
        }),
{
    lemma_owned_texture_holds_the_picture(frame, 0, 0);
}

/// The order of a synchronous copy, for every frame. On the Vulkan path the
/// frame is presented once its copy is recorded and before that is submitted;
/// on the EGL/GLES path once its copy has completed. It is released last.
pub proof fn lemma_owned_steps_in_order<F, L>(importer: DmaBufImporter, frame: FrameView<F, L>)
    ensures
        ({
            let steps = importer.owned_steps(frame);
            match importer.path {
                ImportPath::Vulkan => {
                    &&& steps.len() == 10
                    &&& steps[0] is CreateDestination && steps[1] is CreateEncoder
                    &&& steps[2] is ClearDestination && steps[3] is ImportImage
                    &&& steps[4] is RecordCopy && steps[5] is Present && steps[6] is Submit
                    &&& steps[7] is AwaitSubmission && steps[8] is DropImport
                    &&& steps[9] is Release
                },
                ImportPath::Gles => {
                    &&& steps.len() == 5
                    &&& steps[0] is CreateDestination && steps[1] is BlitImage
                    &&& steps[2] is FinishGl && steps[3] is Present && steps[4] is Release
                },
            }
        }),
{
}

/// The order of a deferred copy, for every frame: the clear is recorded first,
/// and on the EGL/GLES path it is submitted before the blit, which the new
/// encoder follows.
pub proof fn lemma_deferred_steps_in_order<F, L>(importer: DmaBufImporter, frame: FrameView<F, L>)
    ensures
        ({
            let steps = importer.deferred_steps(frame);
            &&& steps[0] is CreateEncoder && steps[1] is ClearDestination
            &&& match importer.path {
                ImportPath::Vulkan => {
                    &&& steps.len() == 4
                    &&& steps[2] is ImportImage && steps[3] is RecordCopy
                },
                ImportPath::Gles => {
                    &&& steps.len() == 5
                    &&& steps[2] is Submit && steps[3] is BlitImage && steps[4] is CreateEncoder
                },
            }
        }),
{
}

/// Every step of a deferred copy that has an argument has the frame's: what is
/// copied, recorded or blitted, is the extent that the frame presents. The
/// destination is the caller's, and the encoder that follows a blit is labelled
/// as such.
pub proof fn lemma_deferred_steps_take_the_picture<F, L>(
    importer: DmaBufImporter,
    frame: FrameView<F, L>,
    at: int,
)
    requires
        0 <= at < importer.deferred_steps(frame).len(),
    ensures
        ({
            let step = importer.deferred_steps(frame)[at];
            let picture = match frame.visible {
                Some(size) => size,
                None => (frame.layout.width, frame.layout.height),
            };
            &&& !(step is CreateDestination)
            &&& step matches CopyStep::RecordCopy { width, height } ==> (width, height) == picture
            &&& step matches CopyStep::BlitImage { width, height } ==> (width, height) == picture
            &&& step matches CopyStep::CreateEncoder(label) ==> label == if at == 0 {
                Label::DmaBufCopy
            } else {
                Label::DmaBufFollowUp
            }
            &&& step is ImportImage ==> importer.path == ImportPath::Vulkan
            &&& step is BlitImage ==> importer.path == ImportPath::Gles
        }),
{
    frame.lemma_presents_what_it_was_narrowed_to(frame.layout.width, frame.layout.height);
}

impl DmaBufImporter {
    /// The steps of a synchronous copy.
    pub open spec fn owned_steps<F, L>(self, frame: FrameView<F, L>) -> Seq<CopyStep> {
        let (width, height) = frame.visible_size();
        match self.path {
            ImportPath::Vulkan => seq![
                CopyStep::CreateDestination(owned_texture(frame)),
                CopyStep::CreateEncoder(Label::OwnedDmaBufCopy),
                CopyStep::ClearDestination,
                CopyStep::ImportImage,
                CopyStep::RecordCopy { width, height },
                CopyStep::Present,
                CopyStep::Submit,
                CopyStep::AwaitSubmission,
                CopyStep::DropImport,
                CopyStep::Release,
            ],
            ImportPath::Gles => seq![
                CopyStep::CreateDestination(owned_texture(frame)),
                CopyStep::BlitImage { width, height },
                CopyStep::FinishGl,
                CopyStep::Present,
                CopyStep::Release,
            ],
        }
    }

    /// The steps of a deferred copy.
    pub open spec fn deferred_steps<F, L>(self, frame: FrameView<F, L>) -> Seq<CopyStep> {
        let (width, height) = frame.visible_size();
        match self.path {
            ImportPath::Vulkan => seq![
                CopyStep::CreateEncoder(Label::DmaBufCopy),
                CopyStep::ClearDestination,
                CopyStep::ImportImage,
                CopyStep::RecordCopy { width, height },
            ],
            ImportPath::Gles => seq![
                CopyStep::CreateEncoder(Label::DmaBufCopy),
                CopyStep::ClearDestination,
                CopyStep::Submit,
                CopyStep::BlitImage { width, height },
                CopyStep::CreateEncoder(Label::DmaBufFollowUp),
            ],
        }
    }

    /// Creates an importer for a device that runs on `backend`, which is Vulkan
    /// or EGL/GLES.
    #[must_use]
    pub fn new(backend: AdapterBackend) -> (importer: Self)
        requires
            path_of(backend) is Some,
        ensures
            Some(importer.path) == path_of(backend),
    {
        DmaBufImporter { path: create_backend(backend).unwrap() }
    }

    /// The steps that copy `frame` into a newly created texture owned
    /// exclusively by the caller, completing the copy on the GPU before the
    /// frame is released. `polled` is what polling the frame's rendering fence
    /// returned; see [`DmaBufFrame::fence_poll`].
    ///
    /// This is for producers whose buffer becomes invalid the moment their
    /// callback returns. The texture carries the frame's visible extent.
    pub fn copy_to_texture<F, L>(&self, frame: &DmaBufFrame<F, L>, polled: Option<i32>) -> (steps:
        Result<Vec<CopyStep>, CopyRejection>)
        requires
            frame@.rendering_fence is Some ==> polled is Some,
        ensures
            match frame@.render_ready(polled) {
                Ok(true) => steps matches Ok(steps) && steps@ == self.owned_steps(frame@),
                Ok(false) => steps == Err::<Vec<CopyStep>, CopyRejection>(CopyRejection::NotReady),
                Err(_) => steps == Err::<Vec<CopyStep>, CopyRejection>(CopyRejection::FencePoll),
            },
    {
        match frame.is_render_ready(polled) {
            Ok(true) => {},
            Ok(false) => {
                return Err(CopyRejection::NotReady);
            },
            Err(_) => {
                return Err(CopyRejection::FencePoll);
            },
        }
        let (width, height) = frame.visible_size();
        let texture = TextureRequest::flat(
            Label::OwnedDmaBuf,
            width,
            height,
            frame.layout().format.texture_format(),
            TextureUsage { copy_src: false, copy_dst: true, texture_binding: true },
        );
        let steps: Vec<CopyStep> = match self.path {
            ImportPath::Vulkan => vec![
                CopyStep::CreateDestination(texture),
                CopyStep::CreateEncoder(Label::OwnedDmaBufCopy),
                CopyStep::ClearDestination,
                CopyStep::ImportImage,
                CopyStep::RecordCopy { width, height },
                CopyStep::Present,
                CopyStep::Submit,
                CopyStep::AwaitSubmission,
                CopyStep::DropImport,
                CopyStep::Release,
            ],
            ImportPath::Gles => vec![
                CopyStep::CreateDestination(texture),
                CopyStep::BlitImage { width, height },
                CopyStep::FinishGl,
                CopyStep::Present,
                CopyStep::Release,
            ],
        };
        assert(steps@ =~= self.owned_steps(frame@));
        Ok(steps)
    }

    /// The steps that copy `frame`'s visible extent into a destination that the
    /// caller has, deferring the wait.
    ///
    /// The caller owns the rest of the protocol: call
    /// [`DmaBufFrame::presented`] after the last step, record into the encoder
    /// that the steps leave open and submit it, and only after that submission
    /// completes drop the import and call [`DmaBufFrame::release`].
    #[must_use]
    pub fn copy_into<F, L>(&self, frame: &DmaBufFrame<F, L>) -> (steps: Vec<CopyStep>)
        ensures
            steps@ == self.deferred_steps(frame@),
    {
        let (width, height) = frame.visible_size();
        let steps: Vec<CopyStep> = match self.path {
            ImportPath::Vulkan => vec![
                CopyStep::CreateEncoder(Label::DmaBufCopy),
                CopyStep::ClearDestination,
                CopyStep::ImportImage,
                CopyStep::RecordCopy { width, height },
            ],
            ImportPath::Gles => vec![
                CopyStep::CreateEncoder(Label::DmaBufCopy),
                CopyStep::ClearDestination,
                CopyStep::Submit,
                CopyStep::BlitImage { width, height },
                CopyStep::CreateEncoder(Label::DmaBufFollowUp),
            ],
        };
        assert(steps@ =~= self.deferred_steps(frame@));
        steps
    }
}

/// The copy of a well-formed frame stays inside both images: the visible extent
/// is not empty, lies within the image imported over the frame's plane, and is
/// all of the texture that a synchronous copy creates.
pub proof fn lemma_copy_stays_inside<F, L>(frame: FrameView<F, L>, offset: u32, stride: u32)
    requires
        frame.well_formed(),
    ensures
        0 < frame.visible_size().0 <= vulkan::image_request(frame.layout, offset, stride).width,
        0 < frame.visible_size().1 <= vulkan::image_request(frame.layout, offset, stride).height,
        frame.visible_size() == (owned_texture(frame).width, owned_texture(frame).height),
{
    frame.lemma_visible_size_inside();
}

/// Work of the GPU on the destination.
pub enum GpuWork {
    Clear,
    Copy { width: u32, height: u32 },
}

/// Where the imported image is.
pub enum ImportState {
    NotImported,
    Alive,
    Dropped,
}

/// A copy in the model that its steps are held to.
pub struct CopyModel {
    /// The size of the destination, where it exists.
    pub destination: Option<(u32, u32)>,
    /// What the open encoder has recorded.
    pub encoder: Option<Seq<GpuWork>>,
    /// What has reached the GPU, in order.
    pub submitted: Seq<GpuWork>,
    /// Whether all of it has completed.
    pub completed: bool,
    pub import: ImportState,
    pub presented: bool,
    pub released: bool,
}

impl CopyModel {
    /// Before the first step, with a destination of this size if there is one.
    pub open spec fn start(destination: Option<(u32, u32)>) -> CopyModel {
        CopyModel {
            destination,
            encoder: None,
            submitted: seq![],
            completed: true,
            import: ImportState::NotImported,
            presented: false,
            released: false,
        }
    }

    /// Everything that was given to the GPU or recorded for it, in order.
    pub open spec fn work(self) -> Seq<GpuWork> {
        match self.encoder {
            Some(recorded) => self.submitted + recorded,
            None => self.submitted,
        }
    }

    /// Whether a copy of the frame was recorded or made.
    pub open spec fn has_copy(self) -> bool {
        exists|i: int| 0 <= i < self.work().len() && (#[trigger] self.work()[i]) is Copy
    }

    /// Whether a region of this size fits the destination.
    pub open spec fn takes(self, width: u32, height: u32) -> bool {
        self.destination matches Some(size) && width <= size.0 && height <= size.1
    }

    /// What one step does; `None` where it breaks the protocol. The frame is
    /// read only before it is released, and a blit finds nothing recorded that
    /// has yet to reach the GPU. It is presented once, after it was imported or
    /// copied. It is released once, after it was presented, when the GPU has
    /// completed everything and the import is gone; the import goes when the
    /// GPU has completed everything.
    pub open spec fn step(self, step: CopyStep) -> Option<CopyModel> {
        match step {
            CopyStep::CreateDestination(texture) => if self.destination is Some {
                None
            } else {
                Some(CopyModel { destination: Some((texture.width, texture.height)), ..self })
            },
            CopyStep::CreateEncoder(_) => if self.encoder is Some {
                None
            } else {
                Some(CopyModel { encoder: Some(seq![]), ..self })
            },
            CopyStep::ClearDestination => match self.encoder {
                Some(work) => if self.destination is Some {
                    Some(CopyModel { encoder: Some(work.push(GpuWork::Clear)), ..self })
                } else {
                    None
                },
                None => None,
            },
            CopyStep::ImportImage => if self.import is NotImported && !self.released {
                Some(CopyModel { import: ImportState::Alive, ..self })
            } else {
                None
            },
            CopyStep::RecordCopy { width, height } => match self.encoder {
                Some(work) => if self.import is Alive && self.takes(width, height) {
                    Some(
                        CopyModel {
                            encoder: Some(work.push(GpuWork::Copy { width, height })),
                            ..self
                        },
                    )
                } else {
                    None
                },
                None => None,
            },
            CopyStep::Submit => match self.encoder {
                Some(work) => Some(
                    CopyModel {
                        encoder: None,
                        submitted: self.submitted + work,
                        completed: false,
                        ..self
                    },
                ),
                None => None,
            },
            CopyStep::AwaitSubmission => Some(CopyModel { completed: true, ..self }),
            CopyStep::DropImport => if self.import is Alive && self.completed && self.encoder
                is None {
                Some(CopyModel { import: ImportState::Dropped, ..self })
            } else {
                None
            },
            CopyStep::BlitImage { width, height } => if {
                &&& !self.released
                &&& self.encoder is None
                &&& self.takes(width, height)
            } {
                Some(
                    CopyModel {
                        submitted: self.submitted.push(GpuWork::Copy { width, height }),
                        completed: false,
                        ..self
                    },
                )
            } else {
                None
            },
            CopyStep::FinishGl => Some(CopyModel { completed: true, ..self }),
            CopyStep::Present => if !self.presented && !self.released && self.has_copy() {
                Some(CopyModel { presented: true, ..self })
            } else {
                None
            },
            CopyStep::Release => if {
                &&& self.presented
                &&& !self.released
                &&& self.completed
                &&& self.encoder is None
                &&& !(self.import is Alive)
            } {
                Some(CopyModel { released: true, ..self })
            } else {
                None
            },
        }
    }

    /// What the first `count` steps of a list do, one after the other.
    pub open spec fn run(self, steps: Seq<CopyStep>, count: nat) -> Option<CopyModel>
        decreases count,
    {
        if count == 0 {
            Some(self)
        } else {
            match self.run(steps, (count - 1) as nat) {
                Some(model) => model.step(steps[count - 1]),
                None => None,
            }
        }
    }
}

/// A synchronous copy keeps the protocol at every step, whichever path it
/// takes. It ends with the frame presented and released, nothing recorded or
/// imported left over, and everything completed on the GPU; the last thing that
/// the GPU did was to copy the visible extent into a destination of that size.
pub proof fn lemma_owned_copy_completes<F, L>(importer: DmaBufImporter, frame: FrameView<F, L>)
    ensures
        CopyModel::start(None).run(
            importer.owned_steps(frame),
            importer.owned_steps(frame).len(),
        ) matches Some(end) && {
            let (width, height) = frame.visible_size();
            &&& end.destination == Some((width, height))
            &&& end.encoder is None
            &&& end.completed
            &&& !(end.import is Alive)
            &&& end.presented
            &&& end.released
            &&& end.submitted == match importer.path {
                ImportPath::Vulkan => seq![GpuWork::Clear, GpuWork::Copy { width, height }],
                ImportPath::Gles => seq![GpuWork::Copy { width, height }],
            }
        },
{
    let steps = importer.owned_steps(frame);
    let start = CopyModel::start(None);
    let (width, height) = frame.visible_size();
    match importer.path {
        ImportPath::Vulkan => {
            reveal_with_fuel(CopyModel::run, 11);
            let recorded = start.run(steps, 5)->0;
            assert(recorded.work()[1] is Copy);
            let end = start.run(steps, 10)->0;
            assert(end.submitted =~= seq![GpuWork::Clear, GpuWork::Copy { width, height }]);
        },
        ImportPath::Gles => {
            reveal_with_fuel(CopyModel::run, 6);
            let copied = start.run(steps, 3)->0;
            assert(copied.work()[0] is Copy);
            let end = start.run(steps, 5)->0;
            assert(end.submitted =~= seq![GpuWork::Copy { width, height }]);
        },
    }
}

/// The steps of a list before one at which it keeps the protocol keep it too,
/// and the frame is released by no step but the release.
proof fn lemma_prefix_keeps_protocol(
    start: CopyModel,
    steps: Seq<CopyStep>,
    count: nat,
    total: nat,
)
    requires
        count <= total,
        start.run(steps, total) is Some,
    ensures
        start.run(steps, count) is Some,
        !start.released && (forall|i: int| 0 <= i < count ==> steps[i] != CopyStep::Release)
            ==> !start.run(steps, count)->0.released,
        !start.presented && (forall|i: int| 0 <= i < count ==> steps[i] != CopyStep::Present)
            ==> !start.run(steps, count)->0.presented,
    decreases total - count, count,
{
    if count < total {
        lemma_prefix_keeps_protocol(start, steps, count, (total - 1) as nat);
    } else if count > 0 {
        lemma_prefix_keeps_protocol(start, steps, (count - 1) as nat, (count - 1) as nat);
    }
}

/// A synchronous copy that is abandoned before its last step has kept the
/// protocol that far and has not released the frame: whichever step fails, the
/// producer's lease is dropped, not released.
pub proof fn lemma_abandoned_copy_is_not_released<F, L>(
    importer: DmaBufImporter,
    frame: FrameView<F, L>,
    count: nat,
)
    requires
        count < importer.owned_steps(frame).len(),
    ensures
        CopyModel::start(None).run(importer.owned_steps(frame), count) matches Some(abandoned)
            && !abandoned.released,
{
    let steps = importer.owned_steps(frame);
    lemma_owned_copy_completes(importer, frame);
    lemma_prefix_keeps_protocol(CopyModel::start(None), steps, count, steps.len());
}

/// A deferred copy into a destination that holds the visible extent, wherever it
/// is abandoned, has kept the protocol that far and has neither presented nor
/// released the frame.
pub proof fn lemma_abandoned_deferred_copy_leaves_frame<F, L>(
    importer: DmaBufImporter,
    frame: FrameView<F, L>,
    destination: (u32, u32),
    count: nat,
)
    requires
        frame.visible_size().0 <= destination.0,
        frame.visible_size().1 <= destination.1,
        count <= importer.deferred_steps(frame).len(),
    ensures
        CopyModel::start(Some(destination)).run(
            importer.deferred_steps(frame),
            count,
        ) matches Some(abandoned) && !abandoned.presented && !abandoned.released,
{
    let steps = importer.deferred_steps(frame);
    lemma_deferred_copy_precedes_caller(importer, frame, destination);
    lemma_prefix_keeps_protocol(CopyModel::start(Some(destination)), steps, count, steps.len());
}

/// A deferred copy into a destination that holds the visible extent keeps the
/// protocol at every step, and leaves presenting and releasing the frame to the
/// caller. It leaves an open encoder. What has reached the GPU together with
/// what that encoder holds is a clear and then the copy of the visible extent,
/// so both come before anything that the caller records next. An import is left
/// alive exactly on the Vulkan path.
pub proof fn lemma_deferred_copy_precedes_caller<F, L>(
    importer: DmaBufImporter,
    frame: FrameView<F, L>,
    destination: (u32, u32),
)
    requires
        frame.visible_size().0 <= destination.0,
        frame.visible_size().1 <= destination.1,
    ensures
        CopyModel::start(Some(destination)).run(
            importer.deferred_steps(frame),
            importer.deferred_steps(frame).len(),
        ) matches Some(end) && {
            let (width, height) = frame.visible_size();
            &&& end.encoder is Some
            &&& end.work() == seq![GpuWork::Clear, GpuWork::Copy { width, height }]
            &&& end.import is Alive <==> importer.path == ImportPath::Vulkan
            &&& !end.presented
            &&& !end.released
        },
{
    let steps = importer.deferred_steps(frame);
    let start = CopyModel::start(Some(destination));
    let (width, height) = frame.visible_size();
    reveal_with_fuel(CopyModel::run, 6);
    let end = start.run(steps, steps.len())->0;
    match importer.path {
        ImportPath::Vulkan => {
            assert(steps.len() == 4);
        },
        ImportPath::Gles => {
            assert(steps.len() == 5);
        },
    }
    assert(end.work() =~= seq![GpuWork::Clear, GpuWork::Copy { width, height }]);
}

} // verus!
