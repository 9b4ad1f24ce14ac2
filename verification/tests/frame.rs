use std::cell::RefCell;
use std::rc::Rc;

use wgpu_external_frame::dma_buf::frame::{FencePollFailed, FrameRejection, PollEvent};
use wgpu_external_frame::dma_buf::{
    DmaBufFormat, DmaBufFrame, DmaBufLease, DmaBufPlane, DRM_FORMAT_MOD_INVALID,
};
use wgpu_external_frame::texture::TextureFormat;

#[derive(Debug, PartialEq)]
enum Event {
    Presented,
    Released(Option<i32>),
}

#[derive(Debug)]
struct Recorder(Rc<RefCell<Vec<Event>>>);

impl DmaBufLease<i32> for Recorder {
    fn presented(&mut self) {
        self.0.borrow_mut().push(Event::Presented);
    }

    fn release(self, release_fence: Option<i32>) {
        self.0.borrow_mut().push(Event::Released(release_fence));
    }
}

type Frame = DmaBufFrame<i32, Recorder>;

fn plane(fd: i32) -> DmaBufPlane<i32> {
    DmaBufPlane { fd, offset: 64, stride: 2560 }
}

fn frame(rendering_fence: Option<i32>) -> Frame {
    DmaBufFrame::new(640, 480, DmaBufFormat::Bgra8, 7, vec![plane(3)], rendering_fence)
}

const FORMATS: [DmaBufFormat; 4] =
    [DmaBufFormat::Bgra8, DmaBufFormat::Bgrx8, DmaBufFormat::Rgba8, DmaBufFormat::Rgbx8];

#[test]
fn codes_are_spelled_little_endian() {
    assert_eq!(DmaBufFormat::Bgra8.fourcc(), u32::from_le_bytes(*b"AR24"));
    assert_eq!(DmaBufFormat::Bgrx8.fourcc(), u32::from_le_bytes(*b"XR24"));
    assert_eq!(DmaBufFormat::Rgba8.fourcc(), u32::from_le_bytes(*b"AB24"));
    assert_eq!(DmaBufFormat::Rgbx8.fourcc(), u32::from_le_bytes(*b"XB24"));
}

#[test]
fn codes_read_back_as_their_format() {
    for format in FORMATS {
        assert_eq!(DmaBufFormat::find_fourcc(format.fourcc()), Some(format));
        assert_eq!(DmaBufFormat::from_fourcc(format.fourcc()), format);
    }
}

#[test]
fn other_codes_name_no_format() {
    assert_eq!(DmaBufFormat::find_fourcc(u32::from_le_bytes(*b"NV12")), None);
    assert_eq!(DmaBufFormat::find_fourcc(u32::from_le_bytes(*b"RA24")), None);
    assert_eq!(DmaBufFormat::find_fourcc(0), None);
}

#[test]
fn formats_without_alpha_import_as_their_counterpart() {
    assert_eq!(DmaBufFormat::Bgra8.texture_format(), TextureFormat::Bgra8Unorm);
    assert_eq!(DmaBufFormat::Bgrx8.texture_format(), TextureFormat::Bgra8Unorm);
    assert_eq!(DmaBufFormat::Rgba8.texture_format(), TextureFormat::Rgba8Unorm);
    assert_eq!(DmaBufFormat::Rgbx8.texture_format(), TextureFormat::Rgba8Unorm);
    assert!(!DmaBufFormat::Bgra8.force_opaque());
    assert!(DmaBufFormat::Bgrx8.force_opaque());
    assert!(!DmaBufFormat::Rgba8.force_opaque());
    assert!(DmaBufFormat::Rgbx8.force_opaque());
}

#[test]
fn the_missing_modifier_is_all_ones() {
    assert_eq!(DRM_FORMAT_MOD_INVALID, u64::MAX);
}

#[test]
fn a_frame_keeps_its_parts() {
    let frame = frame(Some(9));
    assert_eq!((frame.width, frame.height), (640, 480));
    assert_eq!(frame.format, DmaBufFormat::Bgra8);
    assert_eq!(frame.modifier, 7);
    assert_eq!(frame.planes.len(), 1);
    assert_eq!(frame.planes[0].fd, 3);
    assert_eq!(frame.rendering_fence, Some(9));
    assert!(!frame.is_leased());
    assert_eq!(frame.single_plane(), Some((64, 2560)));
}

#[test]
fn a_frame_needs_an_extent_and_one_plane() {
    assert_eq!(Frame::check(640, 480, &vec![plane(3)]), Ok(()));
    assert_eq!(Frame::check(0, 480, &vec![plane(3)]), Err(FrameRejection::ZeroExtent));
    assert_eq!(Frame::check(640, 0, &vec![plane(3)]), Err(FrameRejection::ZeroExtent));
    assert_eq!(Frame::check(640, 480, &vec![]), Err(FrameRejection::PlaneCount));
    assert_eq!(
        Frame::check(640, 480, &vec![plane(3), plane(4)]),
        Err(FrameRejection::PlaneCount)
    );
    assert_eq!(Frame::check(0, 0, &vec![]), Err(FrameRejection::ZeroExtent));
}

#[test]
fn the_whole_buffer_is_visible_unless_narrowed() {
    assert_eq!(frame(None).visible_size(), (640, 480));
    assert_eq!(frame(None).with_visible_size(636, 478).visible_size(), (636, 478));
    assert_eq!(frame(None).with_visible_size(640, 480).visible_size(), (640, 480));
    let narrowed = frame(None).with_visible_size(1, 1);
    assert_eq!((narrowed.width, narrowed.height), (640, 480));
}

#[test]
fn the_visible_region_is_a_part_of_the_buffer() {
    let frame = frame(None);
    assert!(frame.accepts_visible_size(1, 1));
    assert!(frame.accepts_visible_size(640, 480));
    assert!(!frame.accepts_visible_size(0, 480));
    assert!(!frame.accepts_visible_size(640, 0));
    assert!(!frame.accepts_visible_size(641, 480));
    assert!(!frame.accepts_visible_size(640, 481));
}

#[test]
fn a_frame_without_a_fence_is_ready() {
    assert_eq!(frame(None).is_render_ready(None), Ok(true));
    assert_eq!(frame(None).is_render_ready(Some(0)), Ok(true));
}

#[test]
fn a_fence_is_polled_for_input_without_blocking() {
    assert!(frame(None).fence_poll().is_none());
    let fenced = frame(Some(9));
    let poll = fenced.fence_poll().unwrap();
    assert_eq!((*poll.fence, poll.event, poll.timeout), (9, PollEvent::Input, 0));
}

#[test]
fn a_fence_is_ready_once_one_descriptor_polls() {
    assert_eq!(frame(Some(9)).is_render_ready(Some(1)), Ok(true));
    assert_eq!(frame(Some(9)).is_render_ready(Some(0)), Ok(false));
    assert_eq!(frame(Some(9)).is_render_ready(Some(-1)), Err(FencePollFailed));
}

#[test]
fn a_lease_is_presented_and_released_through_its_frame() {
    let events = Rc::new(RefCell::new(Vec::new()));
    let mut frame = frame(None).with_lease(Recorder(events.clone())).with_visible_size(5, 6);
    assert!(frame.is_leased());
    frame.presented();
    assert_eq!(*events.borrow(), vec![Event::Presented]);
    assert_eq!(frame.visible_size(), (5, 6));
    frame.release(Some(11));
    assert_eq!(*events.borrow(), vec![Event::Presented, Event::Released(Some(11))]);
}

#[test]
fn a_frame_without_a_lease_is_presented_and_released_quietly() {
    let mut frame = frame(None);
    frame.presented();
    assert!(!frame.is_leased());
    frame.release(None);
}

#[test]
fn planes_are_taken_from_the_end() {
    let mut frame = frame(None);
    assert_eq!(frame.take_plane().map(|plane| plane.fd), Some(3));
    assert!(frame.take_plane().is_none());
    assert_eq!(frame.single_plane(), None);
    assert_eq!(frame.layout().width, 640);
}
