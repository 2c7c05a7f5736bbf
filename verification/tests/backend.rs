use vaapi_backend::backend::NegotiationStatus;
use vaapi_backend::backend::VaapiBackend;
use vaapi_backend::error::Error;
use vaapi_backend::error::HardwareError;
use vaapi_backend::error::NegotiationError;
use vaapi_backend::format::ImageFormat;
use vaapi_backend::format::VA_FOURCC_I420;
use vaapi_backend::format::VA_FOURCC_NV12;
use vaapi_backend::format::VA_RT_FORMAT_YUV420;
use vaapi_backend::metadata::HardwareCaps;
use vaapi_backend::metadata::HardwareResources;
use vaapi_backend::metadata::OpenRequest;
use vaapi_backend::metadata::StreamMetadataState;
use vaapi_backend::metadata::StreamParams;
use vaapi_backend::picture::GenericBackendHandle;
use vaapi_backend::picture::Picture;
use vaapi_backend::surface_pool::Surface;
use vaapi_backend::DecodedFormat;
use vaapi_backend::Resolution;

const VA_RT_FORMAT_YUV422: u32 = 2;
const PROFILE: i32 = 13;
const SMALL: Resolution = Resolution { width: 320, height: 240 };
const LARGE: Resolution = Resolution { width: 640, height: 480 };
const FAILURE: HardwareError = HardwareError { status: 2 };

fn image_format(fourcc: u32) -> ImageFormat {
    ImageFormat {
        fourcc,
        byte_order: 1,
        bits_per_pixel: 12,
        depth: 0,
        red_mask: 0,
        green_mask: 0,
        blue_mask: 0,
        alpha_mask: 0,
    }
}

fn params(coded: Resolution) -> StreamParams {
    StreamParams::new(
        PROFILE,
        VA_RT_FORMAT_YUV420,
        3,
        (coded.width, coded.height),
        ((0, 0), (coded.width - 20, coded.height - 40)),
    )
    .unwrap()
}

fn caps(fourccs: &[u32]) -> HardwareCaps {
    HardwareCaps {
        rt_format_attrib: VA_RT_FORMAT_YUV420,
        image_formats: fourccs.iter().map(|fourcc| image_format(*fourcc)).collect(),
    }
}

fn both() -> HardwareCaps {
    caps(&[VA_FOURCC_NV12, VA_FOURCC_I420])
}

fn resources(first_id: u32) -> Result<HardwareResources, HardwareError> {
    Ok(HardwareResources {
        config: first_id + 100,
        context: first_id + 200,
        surfaces: vec![first_id, first_id + 1, first_id + 2],
    })
}

fn started(coded: Resolution) -> VaapiBackend {
    let mut backend = VaapiBackend::new();
    backend.new_sequence(&params(coded), &both(), resources(10)).unwrap();
    backend
}

fn submit(backend: &mut VaapiBackend, timestamp: u64) -> GenericBackendHandle {
    let surface =
        backend.metadata_state.get_parsed_mut().unwrap().surface_pool.get_surface().unwrap();
    backend.process_picture(Picture::new(timestamp, surface)).unwrap()
}

fn context_of(state: &StreamMetadataState) -> Option<u32> {
    state.get_parsed().ok().map(|metadata| metadata.context)
}

#[test]
fn new_backend_knows_nothing_of_a_stream() {
    let backend = VaapiBackend::new();
    assert!(matches!(backend.metadata_state, StreamMetadataState::Unparsed));
    assert!(matches!(backend.negotiation_status, NegotiationStatus::NonNegotiated));
    assert_eq!(backend.coded_resolution(), None);
    assert_eq!(backend.display_resolution(), None);
    assert_eq!(backend.num_resources_total(), 0);
    assert_eq!(backend.num_resources_left(), 0);
    assert_eq!(backend.format(), None);
}

#[test]
fn negotiation_status_starts_non_negotiated_and_has_a_name() {
    let status: NegotiationStatus<StreamParams> = NegotiationStatus::default();
    assert!(matches!(status, NegotiationStatus::NonNegotiated));
    assert_eq!(status.name(), "NonNegotiated");
    assert_eq!(NegotiationStatus::Possible(params(SMALL)).name(), "Possible");
    assert_eq!(NegotiationStatus::<StreamParams>::Negotiated.name(), "Negotiated");
    assert!(matches!(
        NegotiationStatus::Possible(params(SMALL)).clone(),
        NegotiationStatus::Possible(p) if p == params(SMALL)
    ));
}

#[test]
fn operations_before_a_sequence_fail_as_not_yet_parsed() {
    let mut backend = VaapiBackend::new();
    assert_eq!(backend.supported_formats_for_stream(&both()), Err(Error::NotYetParsed));
    let picture = Picture::new(1, Surface::new(1, SMALL));
    assert_eq!(backend.process_picture(picture).err(), Some(Error::NotYetParsed));
    backend.negotiation_status = NegotiationStatus::Possible(params(SMALL));
    assert_eq!(
        backend.try_format(DecodedFormat::NV12, &both(), resources(10)).err(),
        Some(Error::NotYetParsed)
    );
    assert!(matches!(backend.metadata_state, StreamMetadataState::Unparsed));
}

#[test]
fn new_sequence_opens_the_stream_and_makes_negotiation_possible() {
    let mut backend = VaapiBackend::new();
    let superseded = backend.new_sequence(&params(SMALL), &both(), resources(10)).unwrap();
    assert!(matches!(superseded, StreamMetadataState::Unparsed));
    assert!(matches!(
        backend.negotiation_status,
        NegotiationStatus::Possible(p) if p == params(SMALL)
    ));
    assert_eq!(backend.coded_resolution(), Some(SMALL));
    assert_eq!(backend.display_resolution(), Some(Resolution { width: 300, height: 200 }));
    assert_eq!(backend.num_resources_total(), 3);
    assert_eq!(backend.num_resources_left(), 3);
    assert_eq!(backend.format(), Some(DecodedFormat::NV12));
}

#[test]
fn new_sequence_hands_the_superseded_state_back() {
    let mut backend = started(SMALL);
    backend.negotiation_status = NegotiationStatus::Negotiated;
    let mut superseded = backend.new_sequence(&params(LARGE), &both(), resources(50)).unwrap();
    assert_eq!(context_of(&superseded), Some(210));
    let pool = &mut superseded.get_parsed_mut().unwrap().surface_pool;
    assert_eq!(pool.get_surface(), Some(Surface::new(10, SMALL)));
    assert_eq!(context_of(&backend.metadata_state), Some(250));
    assert_eq!(backend.coded_resolution(), Some(LARGE));
    // A new sequence makes a negotiation possible again.
    assert!(matches!(
        backend.negotiation_status,
        NegotiationStatus::Possible(p) if p == params(LARGE)
    ));
}

#[test]
fn failed_new_sequence_leaves_the_backend_as_it_is() {
    let mut backend = started(SMALL);
    backend.negotiation_status = NegotiationStatus::Negotiated;
    let r = backend.new_sequence(&params(LARGE), &both(), Err(FAILURE));
    assert_eq!(r.err(), Some(Error::HardwareError(FAILURE)));
    let r = backend.new_sequence(&params(LARGE), &caps(&[VA_FOURCC_I420]), resources(50));
    assert_eq!(
        r.err(),
        Some(Error::NegotiationFailed(NegotiationError::ImageFormatNotAvailable))
    );
    assert_eq!(context_of(&backend.metadata_state), Some(210));
    assert_eq!(backend.coded_resolution(), Some(SMALL));
    assert_eq!(backend.num_resources_left(), 3);
    assert!(matches!(backend.negotiation_status, NegotiationStatus::Negotiated));
}

#[test]
fn process_picture_binds_the_picture_to_the_stream_as_it_is_now() {
    let mut backend = started(SMALL);
    let handle = submit(&mut backend, 99);
    assert_eq!(backend.num_resources_left(), 2);
    assert_eq!(backend.num_resources_total(), 3);
    assert!(handle.picture().is_none());
    assert_eq!(handle.timestamp(), 99);
    assert_eq!(handle.surface_id(), 10);
    assert_eq!(handle.coded_resolution(), SMALL);
    assert_eq!(handle.display_resolution(), Resolution { width: 300, height: 200 });
    assert_eq!(handle.map_format(), image_format(VA_FOURCC_NV12));
    // A later sequence does not change the handle.
    backend.new_sequence(&params(LARGE), &both(), resources(50)).unwrap();
    assert_eq!(handle.coded_resolution(), SMALL);
    assert_eq!(handle.display_resolution(), Resolution { width: 300, height: 200 });
}

#[test]
fn supported_formats_for_stream_intersects_table_and_hardware() {
    let backend = started(SMALL);
    assert_eq!(
        backend.supported_formats_for_stream(&both()),
        Ok(vec![DecodedFormat::NV12, DecodedFormat::I420])
    );
    assert_eq!(
        backend.supported_formats_for_stream(&caps(&[VA_FOURCC_I420])),
        Ok(vec![DecodedFormat::I420])
    );
    let other_rt_format =
        HardwareCaps { rt_format_attrib: VA_RT_FORMAT_YUV422, image_formats: vec![] };
    assert_eq!(
        backend.supported_formats_for_stream(&other_rt_format),
        Err(Error::NegotiationFailed(NegotiationError::RtFormatNotAdvertised))
    );
}

#[test]
fn try_format_switches_to_a_supported_format() {
    let mut backend = VaapiBackend::new();
    backend.new_sequence(&params(SMALL), &both(), resources(10)).unwrap();
    assert_eq!(backend.format(), Some(DecodedFormat::NV12));
    assert_eq!(
        backend.supported_formats_for_stream(&both()),
        Ok(vec![DecodedFormat::NV12, DecodedFormat::I420])
    );
    assert_eq!(
        backend.prepare_format(DecodedFormat::I420, &both()),
        Ok(OpenRequest {
            profile: PROFILE,
            rt_format: VA_RT_FORMAT_YUV420,
            map_format: image_format(VA_FOURCC_I420),
            coded_resolution: SMALL,
            num_surfaces: 3,
        })
    );
    let superseded = backend.try_format(DecodedFormat::I420, &both(), resources(50)).unwrap();
    assert_eq!(context_of(&superseded), Some(210));
    assert_eq!(backend.format(), Some(DecodedFormat::I420));
    assert_eq!(context_of(&backend.metadata_state), Some(250));
    assert_eq!(backend.coded_resolution(), Some(SMALL));
    assert_eq!(backend.num_resources_left(), 3);
    assert!(matches!(backend.negotiation_status, NegotiationStatus::Possible(_)));
}

#[test]
fn try_format_outside_possible_fails_and_changes_nothing() {
    let mut backend = started(SMALL);
    backend.negotiation_status = NegotiationStatus::Negotiated;
    let not_possible = Error::NegotiationFailed(NegotiationError::NotPossible);
    assert_eq!(backend.prepare_format(DecodedFormat::I420, &both()), Err(not_possible));
    assert_eq!(
        backend.try_format(DecodedFormat::I420, &both(), resources(50)).err(),
        Some(not_possible)
    );
    assert!(matches!(backend.negotiation_status, NegotiationStatus::Negotiated));
    assert_eq!(backend.format(), Some(DecodedFormat::NV12));
    assert_eq!(context_of(&backend.metadata_state), Some(210));
    assert_eq!(backend.num_resources_left(), 3);

    let mut fresh = VaapiBackend::new();
    assert_eq!(
        fresh.try_format(DecodedFormat::NV12, &both(), resources(50)).err(),
        Some(not_possible)
    );
    assert!(matches!(fresh.negotiation_status, NegotiationStatus::NonNegotiated));
    assert!(matches!(fresh.metadata_state, StreamMetadataState::Unparsed));
}

#[test]
fn try_format_of_an_unsupported_format_fails_and_changes_nothing() {
    let mut backend = started(SMALL);
    let only_nv12 = caps(&[VA_FOURCC_NV12]);
    let unsupported = Error::NegotiationFailed(NegotiationError::FormatNotSupported);
    assert_eq!(backend.prepare_format(DecodedFormat::I420, &only_nv12), Err(unsupported));
    assert_eq!(
        backend.try_format(DecodedFormat::I420, &only_nv12, resources(50)).err(),
        Some(unsupported)
    );
    assert_eq!(backend.format(), Some(DecodedFormat::NV12));
    assert_eq!(context_of(&backend.metadata_state), Some(210));
    assert!(matches!(
        backend.negotiation_status,
        NegotiationStatus::Possible(p) if p == params(SMALL)
    ));
}

#[test]
fn try_format_passes_a_hardware_failure_on_and_changes_nothing() {
    let mut backend = started(SMALL);
    assert_eq!(
        backend.try_format(DecodedFormat::I420, &both(), Err(FAILURE)).err(),
        Some(Error::HardwareError(FAILURE))
    );
    assert_eq!(backend.format(), Some(DecodedFormat::NV12));
    assert_eq!(context_of(&backend.metadata_state), Some(210));
    assert_eq!(backend.num_resources_left(), 3);
}

#[test]
fn released_picture_returns_its_surface_to_the_pool() {
    let mut backend = started(SMALL);
    let mut first = submit(&mut backend, 1);
    let second = submit(&mut backend, 2);
    assert_eq!(backend.num_resources_left(), 1);
    first.sync(Ok(())).unwrap();
    assert_eq!(backend.release_picture(first, Err(FAILURE)), None);
    assert_eq!(backend.num_resources_left(), 2);
    assert_eq!(backend.release_picture(second, Ok(())), None);
    assert_eq!(backend.num_resources_left(), 3);
    // The surfaces wait behind the one that never left.
    let pool = &mut backend.metadata_state.get_parsed_mut().unwrap().surface_pool;
    assert_eq!(pool.get_surface(), Some(Surface::new(12, SMALL)));
    assert_eq!(pool.get_surface(), Some(Surface::new(10, SMALL)));
    assert_eq!(pool.get_surface(), Some(Surface::new(11, SMALL)));
}

#[test]
fn picture_released_after_a_resolution_change_is_discarded() {
    let mut backend = started(SMALL);
    let handle = submit(&mut backend, 1);
    backend.new_sequence(&params(LARGE), &both(), resources(50)).unwrap();
    assert_eq!(backend.num_resources_left(), 3);
    assert_eq!(backend.release_picture(handle, Ok(())), Some(Surface::new(10, SMALL)));
    assert_eq!(backend.num_resources_left(), 3);
    assert_eq!(backend.coded_resolution(), Some(LARGE));
}

#[test]
fn pending_picture_whose_wait_fails_is_discarded() {
    let mut backend = started(SMALL);
    let handle = submit(&mut backend, 1);
    assert_eq!(backend.release_picture(handle, Err(FAILURE)), Some(Surface::new(10, SMALL)));
    assert_eq!(backend.num_resources_left(), 2);
}

#[test]
fn picture_released_without_a_stream_is_discarded() {
    let mut backend = started(SMALL);
    let handle = submit(&mut backend, 1);
    backend.metadata_state = StreamMetadataState::Unparsed;
    assert_eq!(backend.release_picture(handle, Ok(())), Some(Surface::new(10, SMALL)));
    assert_eq!(backend.num_resources_left(), 0);
}

#[test]
fn format_of_a_stream_with_an_unknown_image_format_is_none() {
    let mut backend = started(SMALL);
    backend.metadata_state.get_parsed_mut().unwrap().map_format = image_format(0x3231_5659);
    assert_eq!(backend.format(), None);
}

#[test]
fn picture_released_after_a_change_of_format_joins_the_new_pool() {
    let mut backend = started(SMALL);
    let handle = submit(&mut backend, 1);
    backend.try_format(DecodedFormat::I420, &both(), resources(50)).unwrap();
    assert_eq!(backend.num_resources_left(), 3);
    // The coded resolution is the same as before, so that the surface is kept.
    assert_eq!(backend.release_picture(handle, Ok(())), None);
    assert_eq!(backend.num_resources_left(), 4);
    assert_eq!(front_of_pool(&mut backend), Surface::new(50, SMALL));
}

fn front_of_pool(backend: &mut VaapiBackend) -> Surface {
    backend.metadata_state.get_parsed_mut().unwrap().surface_pool.get_surface().unwrap()
}

#[test]
fn negotiation_profile_is_that_of_the_parsed_stream() {
    let mut backend = VaapiBackend::new();
    let not_possible = Err(Error::NegotiationFailed(NegotiationError::NotPossible));
    assert_eq!(backend.negotiation_profile(), not_possible);
    backend.negotiation_status = NegotiationStatus::Possible(params(SMALL));
    assert_eq!(backend.negotiation_profile(), Err(Error::NotYetParsed));
    backend.new_sequence(&params(SMALL), &both(), resources(10)).unwrap();
    assert_eq!(backend.negotiation_profile(), Ok(PROFILE));
    backend.negotiation_status = NegotiationStatus::Negotiated;
    assert_eq!(backend.negotiation_profile(), not_possible);
}

#[test]
fn release_needs_a_wait_only_where_the_surface_returns_to_the_pool() {
    let mut backend = started(SMALL);
    let mut handle = submit(&mut backend, 1);
    assert!(backend.release_needs_sync(&handle));
    assert!(!VaapiBackend::new().release_needs_sync(&handle));
    handle.sync(Ok(())).unwrap();
    assert!(!backend.release_needs_sync(&handle));
    let pending = submit(&mut backend, 2);
    backend.new_sequence(&params(LARGE), &both(), resources(50)).unwrap();
    assert!(!backend.release_needs_sync(&pending));
}
