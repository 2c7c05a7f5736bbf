use vaapi_backend::error::Error;
use vaapi_backend::error::HardwareError;
use vaapi_backend::format::ImageFormat;
use vaapi_backend::format::VA_FOURCC_NV12;
use vaapi_backend::metadata::ParsedStreamMetadata;
use vaapi_backend::picture::GenericBackendHandle;
use vaapi_backend::picture::ImageRequest;
use vaapi_backend::picture::Picture;
use vaapi_backend::picture::VA_SURFACE_READY;
use vaapi_backend::surface_pool::Surface;
use vaapi_backend::surface_pool::SurfacePool;
use vaapi_backend::Resolution;

const CODED: Resolution = Resolution { width: 320, height: 240 };
const DISPLAY: Resolution = Resolution { width: 300, height: 200 };
const FAILURE: HardwareError = HardwareError { status: 18 };

fn nv12() -> ImageFormat {
    ImageFormat {
        fourcc: VA_FOURCC_NV12,
        byte_order: 1,
        bits_per_pixel: 12,
        depth: 0,
        red_mask: 0,
        green_mask: 0,
        blue_mask: 0,
        alpha_mask: 0,
    }
}

fn metadata(ids: &[u32], resolution: Resolution) -> ParsedStreamMetadata {
    ParsedStreamMetadata {
        context: 1,
        config: 2,
        surface_pool: SurfacePool::new(
            ids.iter().map(|id| Surface::new(*id, resolution)).collect(),
            resolution,
        ),
        min_num_surfaces: ids.len(),
        display_resolution: DISPLAY,
        map_format: nv12(),
        rt_format: 1,
        profile: 7,
    }
}

fn pending_handle(metadata: &mut ParsedStreamMetadata, timestamp: u64) -> GenericBackendHandle {
    let surface = metadata.surface_pool.get_surface().unwrap();
    GenericBackendHandle::new(Picture::new(timestamp, surface), metadata)
}

#[test]
fn new_handle_is_pending_and_records_the_metadata() {
    let mut metadata = metadata(&[5, 6], CODED);
    let handle = pending_handle(&mut metadata, 1234);
    assert!(handle.picture().is_none());
    assert_eq!(handle.timestamp(), 1234);
    assert_eq!(handle.surface_id(), 5);
    assert_eq!(handle.coded_resolution(), CODED);
    assert_eq!(handle.display_resolution(), DISPLAY);
    assert_eq!(handle.map_format(), nv12());
}

#[test]
fn sync_moves_a_pending_picture_to_ready() {
    let mut metadata = metadata(&[5], CODED);
    let mut handle = pending_handle(&mut metadata, 1);
    assert_eq!(handle.sync(Ok(())), Ok(()));
    assert_eq!(handle.picture(), Some(&Picture::new(1, Surface::new(5, CODED))));
}

#[test]
fn failed_sync_keeps_the_picture_pending_and_can_be_retried() {
    let mut metadata = metadata(&[5], CODED);
    let mut handle = pending_handle(&mut metadata, 1);
    assert_eq!(handle.sync(Err(FAILURE)), Err(Error::HardwareError(FAILURE)));
    assert!(handle.picture().is_none());
    assert_eq!(handle.timestamp(), 1);
    assert_eq!(handle.surface_id(), 5);
    assert_eq!(handle.sync(Ok(())), Ok(()));
    assert!(handle.picture().is_some());
}

#[test]
fn sync_on_a_ready_picture_changes_nothing() {
    let mut metadata = metadata(&[5], CODED);
    let mut handle = pending_handle(&mut metadata, 1);
    handle.sync(Ok(())).unwrap();
    for _ in 0..3 {
        assert_eq!(handle.sync(Ok(())), Ok(()));
        assert_eq!(handle.sync(Err(FAILURE)), Ok(()));
        assert_eq!(handle.picture(), Some(&Picture::new(1, Surface::new(5, CODED))));
        assert_eq!(handle.timestamp(), 1);
        assert_eq!(handle.surface_id(), 5);
    }
}

#[test]
fn is_va_ready_polls_only_pending_pictures() {
    let mut metadata = metadata(&[5], CODED);
    let mut handle = pending_handle(&mut metadata, 1);
    assert_eq!(handle.is_va_ready(Ok(VA_SURFACE_READY)), Ok(true));
    assert_eq!(handle.is_va_ready(Ok(1)), Ok(false));
    assert_eq!(handle.is_va_ready(Ok(8)), Ok(false));
    assert_eq!(handle.is_va_ready(Err(FAILURE)), Err(Error::HardwareError(FAILURE)));
    // A poll does not move the picture.
    assert!(handle.picture().is_none());
    handle.sync(Ok(())).unwrap();
    assert_eq!(handle.is_va_ready(Ok(1)), Ok(true));
    assert_eq!(handle.is_va_ready(Err(FAILURE)), Ok(true));
}

#[test]
fn is_ready_takes_a_failed_poll_as_ready() {
    let mut metadata = metadata(&[5], CODED);
    let mut handle = pending_handle(&mut metadata, 1);
    assert!(handle.is_ready(Ok(VA_SURFACE_READY)));
    assert!(!handle.is_ready(Ok(1)));
    assert!(handle.is_ready(Err(FAILURE)));
    handle.sync(Ok(())).unwrap();
    assert!(handle.is_ready(Ok(1)));
}

#[test]
fn image_syncs_and_asks_for_the_display_resolution() {
    let mut metadata = metadata(&[5], CODED);
    let mut handle = pending_handle(&mut metadata, 1);
    assert_eq!(handle.image(Err(FAILURE)), Err(Error::HardwareError(FAILURE)));
    assert!(handle.picture().is_none());
    let request = handle.image(Ok(())).unwrap();
    assert_eq!(
        request,
        ImageRequest { surface_id: 5, format: nv12(), width: 300, height: 200 }
    );
    assert!(handle.picture().is_some());
    // Once ready, the hardware is not waited for any more.
    assert_eq!(handle.image(Err(FAILURE)), Ok(request));
}

#[test]
fn handle_keeps_the_resolution_of_its_submission() {
    let mut old = metadata(&[5], CODED);
    let handle = pending_handle(&mut old, 1);
    let _new = metadata(&[9], Resolution { width: 640, height: 480 });
    assert_eq!(handle.coded_resolution(), CODED);
    assert_eq!(handle.display_resolution(), DISPLAY);
}

#[test]
fn release_returns_the_surface_to_a_pool_of_the_same_resolution() {
    let mut metadata = metadata(&[5, 6], CODED);
    let mut handle = pending_handle(&mut metadata, 1);
    handle.sync(Ok(())).unwrap();
    assert_eq!(metadata.surface_pool.num_surfaces_left(), 1);
    assert_eq!(handle.release(&mut metadata.surface_pool, Err(FAILURE)), None);
    assert_eq!(metadata.surface_pool.num_surfaces_left(), 2);
    // It waits behind the surface that was there.
    assert_eq!(metadata.surface_pool.get_surface(), Some(Surface::new(6, CODED)));
    assert_eq!(metadata.surface_pool.get_surface(), Some(Surface::new(5, CODED)));
}

#[test]
fn release_of_a_pending_picture_waits_for_the_hardware() {
    let mut metadata = metadata(&[5, 6], CODED);
    let handle = pending_handle(&mut metadata, 1);
    assert_eq!(handle.release(&mut metadata.surface_pool, Ok(())), None);
    assert_eq!(metadata.surface_pool.num_surfaces_left(), 2);
}

#[test]
fn release_discards_the_surface_if_the_wait_fails() {
    let mut metadata = metadata(&[5, 6], CODED);
    let handle = pending_handle(&mut metadata, 1);
    assert_eq!(
        handle.release(&mut metadata.surface_pool, Err(FAILURE)),
        Some(Surface::new(5, CODED))
    );
    assert_eq!(metadata.surface_pool.num_surfaces_left(), 1);
}

#[test]
fn release_discards_the_surface_after_a_resolution_change() {
    let mut old = metadata(&[5, 6], CODED);
    let mut handle = pending_handle(&mut old, 1);
    handle.sync(Ok(())).unwrap();
    let mut new = metadata(&[9], Resolution { width: 640, height: 480 });
    assert_eq!(handle.release(&mut new.surface_pool, Ok(())), Some(Surface::new(5, CODED)));
    assert_eq!(new.surface_pool.num_surfaces_left(), 1);
    assert_eq!(
        new.surface_pool.get_surface(),
        Some(Surface::new(9, Resolution { width: 640, height: 480 }))
    );
}

#[test]
fn into_surface_needs_a_complete_picture() {
    let mut metadata = metadata(&[5, 6], CODED);
    let handle = pending_handle(&mut metadata, 1);
    assert_eq!(
        handle.into_surface(Err(FAILURE)),
        Err((Error::HardwareError(FAILURE), Surface::new(5, CODED)))
    );
    let handle = pending_handle(&mut metadata, 2);
    assert_eq!(handle.into_surface(Ok(())), Ok(Surface::new(6, CODED)));
}

#[test]
fn discard_gives_the_surface_up() {
    let mut metadata = metadata(&[5], CODED);
    let handle = pending_handle(&mut metadata, 1);
    assert_eq!(handle.discard(), Surface::new(5, CODED));
}

#[test]
fn picture_owns_its_surface() {
    let picture = Picture::new(77, Surface::new(3, CODED));
    assert_eq!(picture.timestamp(), 77);
    assert_eq!(picture.surface(), &Surface::new(3, CODED));
    assert_eq!(picture.take_surface(), Surface::new(3, CODED));
}

#[test]
fn hardware_is_asked_only_while_the_picture_is_pending() {
    let mut metadata = metadata(&[5], CODED);
    let mut handle = pending_handle(&mut metadata, 1);
    assert!(handle.is_pending());
    handle.sync(Err(FAILURE)).unwrap_err();
    assert!(handle.is_pending());
    handle.sync(Ok(())).unwrap();
    assert!(!handle.is_pending());
}

#[test]
fn release_waits_only_for_a_pending_picture_that_returns_to_the_pool() {
    let mut same = metadata(&[5, 6], CODED);
    let other = metadata(&[9], Resolution { width: 640, height: 480 });
    let mut handle = pending_handle(&mut same, 1);
    assert!(handle.release_needs_sync(&same.surface_pool));
    assert!(!handle.release_needs_sync(&other.surface_pool));
    handle.sync(Ok(())).unwrap();
    assert!(!handle.release_needs_sync(&same.surface_pool));
    assert!(!handle.release_needs_sync(&other.surface_pool));
}
