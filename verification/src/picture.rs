//! The lifecycle of a decoded picture, from its submission to the hardware
//! to the return of its surface.

use vstd::prelude::*;

use crate::error::Error;
use crate::error::HardwareError;
use crate::format::ImageFormat;
use crate::metadata::ParsedStreamMetadata;
use crate::surface_pool::Surface;
use crate::surface_pool::SurfacePool;
use crate::Resolution;

verus! {

/// The status of a surface on which no operation is pending.
pub const VA_SURFACE_READY: u32 = 4;

/// A picture that was submitted to the hardware for decoding: the surface
/// that it is decoded into, which it owns, and the timestamp that
/// identifies it.
#[derive(Debug, PartialEq, Eq)]
pub struct Picture {
    pub timestamp: u64,
    pub surface: Surface,
}

impl Picture {
    /// Describes the picture of the given timestamp that is decoded into
    /// `surface`.
    pub fn new(timestamp: u64, surface: Surface) -> (picture: Self)
        ensures
            picture == (Picture { timestamp, surface }),
    {
        Picture { timestamp, surface }
    }

    /// Returns the timestamp of this picture.
    pub fn timestamp(&self) -> (timestamp: u64)
        ensures
            timestamp == self.timestamp,
    {
        self.timestamp
    }

    /// Returns a reference to the underlying surface.
    pub fn surface(&self) -> (surface: &Surface)
        ensures
            *surface == self.surface,
    {
        &self.surface
    }

    /// Reclaims ownership of the surface that this picture was created
    /// from, consuming the picture in the process.
    pub fn take_surface(self) -> (surface: Surface)
        ensures
            surface == self.surface,
    {
        self.surface
    }
}

/// Rendering state of a picture.
#[derive(Copy, Clone, Debug, PartialEq, Eq, Structural)]
pub enum PictureState {
    /// The hardware has confirmed that the decode is complete: the surface
    /// is safe to map and to read.
    Ready,
    /// The decode was submitted and its completion is not confirmed yet.
    Pending,
}

/// What to ask of the hardware in order to read a picture: the surface to
/// map, the image format to map it into and the size of the image.
#[derive(Copy, Clone, Debug, PartialEq, Eq, Structural)]
pub struct ImageRequest {
    pub surface_id: u32,
    pub format: ImageFormat,
    pub width: u32,
    pub height: u32,
}

/// The mathematical content of a `GenericBackendHandle`.
pub struct GenericBackendHandleView {
    pub picture: Picture,
    pub state: PictureState,
    pub coded_resolution: Resolution,
    pub display_resolution: Resolution,
    pub map_format: ImageFormat,
}

impl GenericBackendHandleView {
    /// The same handle once its picture is known to be complete.
    pub open spec fn synced(self) -> GenericBackendHandleView {
        GenericBackendHandleView { state: PictureState::Ready, ..self }
    }

    /// What `sync` makes of the handle, given the outcome of the wait for
    /// the hardware.
    pub open spec fn after_sync(self, wait: Result<(), HardwareError>) -> GenericBackendHandleView {
        if wait is Ok {
            self.synced()
        } else {
            self
        }
    }

    /// What `sync` returns, given the outcome of the wait for the hardware.
    pub open spec fn sync_result(self, wait: Result<(), HardwareError>) -> Result<(), Error> {
        match wait {
            Err(e) if self.state == PictureState::Pending => Err(Error::HardwareError(e)),
            _ => Ok(()),
        }
    }

    /// Whether the surface can be taken from the picture, given the outcome
    /// of the wait for the hardware.
    pub open spec fn surface_reclaimable(self, wait: Result<(), HardwareError>) -> bool {
        self.state == PictureState::Ready || wait is Ok
    }

    /// Whether the surface of the handle goes back to a pool of resolution
    /// `pool_resolution` when the handle is released.
    pub open spec fn returns_to_pool(
        self,
        pool_resolution: Resolution,
        wait: Result<(), HardwareError>,
    ) -> bool {
        pool_resolution == self.coded_resolution && self.surface_reclaimable(wait)
    }

    /// The request that maps the picture.
    pub open spec fn image_request(self) -> ImageRequest {
        ImageRequest {
            surface_id: self.picture.surface.id,
            format: self.map_format,
            width: self.display_resolution.width,
            height: self.display_resolution.height,
        }
    }
}

/// Backend handle of a decoded frame.
///
/// This includes the picture, which can be pending rendering or complete, as
/// well as useful meta-information.
pub struct GenericBackendHandle {
    picture: Picture,
    state: PictureState,
    /// The decoder resolution when this frame was processed. Not all codecs
    /// send resolution data in every frame header.
    coded_resolution: Resolution,
    /// Actual resolution of the visible rectangle in the decoded buffer.
    display_resolution: Resolution,
    /// Image format for this surface, taken from the stream metadata at the
    /// time of submission.
    map_format: ImageFormat,
}

impl View for GenericBackendHandle {
    type V = GenericBackendHandleView;

    closed spec fn view(&self) -> GenericBackendHandleView {
        GenericBackendHandleView {
            picture: self.picture,
            state: self.state,
            coded_resolution: self.coded_resolution,
            display_resolution: self.display_resolution,
            map_format: self.map_format,
        }
    }
}

impl GenericBackendHandle {
    #[verifier::type_invariant]
    spec fn surface_at_coded_resolution(self) -> bool {
        self.picture.surface.coded_resolution == self.coded_resolution
    }

    /// Creates a new pending handle on `picture`, which was just submitted
    /// to the hardware and is decoded into a surface of the pool of
    /// `metadata`.
    ///
    /// The resolutions and the image format of the handle are those of
    /// `metadata` now: what becomes of the stream later does not change
    /// them.
    pub fn new(picture: Picture, metadata: &ParsedStreamMetadata) -> (handle: Self)
        requires
            picture.surface.coded_resolution == metadata.surface_pool.resolution(),
        ensures
            handle@ == (GenericBackendHandleView {
                picture,
                state: PictureState::Pending,
                coded_resolution: metadata.surface_pool.resolution(),
                display_resolution: metadata.display_resolution,
                map_format: metadata.map_format,
            }),
    {
        GenericBackendHandle {
            picture,
            state: PictureState::Pending,
            coded_resolution: metadata.surface_pool.coded_resolution(),
            display_resolution: metadata.display_resolution,
            map_format: metadata.map_format,
        }
    }

    /// Whether the completion of the picture is still to be confirmed by the
    /// hardware. Only then does what the hardware says count for `sync`,
    /// `image`, `is_va_ready` and `is_ready`, and only then need it be asked.
    pub fn is_pending(&self) -> (pending: bool)
        ensures
            pending == (self@.state == PictureState::Pending),
    {
        match self.state {
            PictureState::Ready => false,
            PictureState::Pending => true,
        }
    }

    /// Makes sure that the picture is complete.
    ///
    /// `wait` is the outcome of the blocking wait for the hardware to
    /// complete the picture. It counts only while the picture is pending: a
    /// ready picture stays as it is. A pending picture becomes ready if the
    /// wait succeeded; if it failed the picture stays pending, the error is
    /// returned, and the wait can be tried again.
    pub fn sync(&mut self, wait: Result<(), HardwareError>) -> (res: Result<(), Error>)
        ensures
            res == old(self)@.sync_result(wait),
            final(self)@ == old(self)@.after_sync(wait),
            old(self)@.state == PictureState::Ready ==> res == Ok::<(), Error>(()) && final(self)@
                == old(self)@,
            res is Ok ==> final(self)@.state == PictureState::Ready,
            res is Err ==> final(self)@ == old(self)@,
    {
        proof {
            use_type_invariant(&*self);
        }
        match self.state {
            PictureState::Ready => Ok(()),
            PictureState::Pending => match wait {
                Ok(()) => {
                    self.state = PictureState::Ready;
                    Ok(())
                },
                Err(e) => Err(Error::HardwareError(e)),
            },
        }
    }

    /// Makes sure that the picture is complete, as `sync` does, and returns
    /// the request that maps it: the surface of the picture, in the image
    /// format and at the display resolution of the handle.
    pub fn image(&mut self, wait: Result<(), HardwareError>) -> (res: Result<ImageRequest, Error>)
        ensures
            final(self)@ == old(self)@.after_sync(wait),
            match old(self)@.sync_result(wait) {
                Ok(()) => res == Ok::<ImageRequest, Error>(old(self)@.image_request())
                    && final(self)@.state == PictureState::Ready,
                Err(e) => res == Err::<ImageRequest, Error>(e),
            },
    {
        // Image can only be retrieved in the `Ready` state.
        match self.sync(wait) {
            Ok(()) => {},
            Err(e) => {
                return Err(e);
            },
        }
        Ok(
            ImageRequest {
                surface_id: self.picture.surface.id,
                format: self.map_format,
                width: self.display_resolution.width,
                height: self.display_resolution.height,
            },
        )
    }

    /// Returns the picture of this handle once it is ready.
    pub fn picture(&self) -> (picture: Option<&Picture>)
        ensures
            match picture {
                Some(picture) => self@.state == PictureState::Ready && *picture == self@.picture,
                None => self@.state == PictureState::Pending,
            },
    {
        match self.state {
            PictureState::Ready => Some(&self.picture),
            PictureState::Pending => None,
        }
    }

    /// Returns the timestamp of this handle.
    pub fn timestamp(&self) -> (timestamp: u64)
        ensures
            timestamp == self@.picture.timestamp,
    {
        self.picture.timestamp
    }

    /// Returns the id of the surface backing this handle.
    pub fn surface_id(&self) -> (id: u32)
        ensures
            id == self@.picture.surface.id,
    {
        self.picture.surface.id
    }

    /// Returns the resolution of the visible rectangle of this handle.
    pub fn display_resolution(&self) -> (resolution: Resolution)
        ensures
            resolution == self@.display_resolution,
    {
        self.display_resolution
    }

    /// Returns the coded resolution that was current when this handle was
    /// created.
    pub fn coded_resolution(&self) -> (resolution: Resolution)
        ensures
            resolution == self@.coded_resolution,
            resolution == self@.picture.surface.coded_resolution,
    {
        proof {
            use_type_invariant(self);
        }
        self.coded_resolution
    }

    /// Returns the image format that this handle is mapped into.
    pub fn map_format(&self) -> (format: ImageFormat)
        ensures
            format == self@.map_format,
    {
        self.map_format
    }

    /// Whether the picture is complete, without waiting for it.
    ///
    /// `status` is the status of the surface as the hardware reports it now.
    /// It counts only while the picture is pending.
    pub fn is_va_ready(&self, status: Result<u32, HardwareError>) -> (res: Result<bool, Error>)
        ensures
            res == (match self@.state {
                PictureState::Ready => Ok::<bool, Error>(true),
                PictureState::Pending => match status {
                    Ok(s) => Ok(s == VA_SURFACE_READY),
                    Err(e) => Err(Error::HardwareError(e)),
                },
            }),
    {
        match self.state {
            PictureState::Ready => Ok(true),
            PictureState::Pending => match status {
                Ok(s) => Ok(s == VA_SURFACE_READY),
                Err(e) => Err(Error::HardwareError(e)),
            },
        }
    }

    /// Whether the picture can be taken as complete: `is_va_ready`, and true
    /// where the hardware cannot tell.
    pub fn is_ready(&self, status: Result<u32, HardwareError>) -> (ready: bool)
        ensures
            ready == (self@.state == PictureState::Ready || status is Err || status
                == Ok::<u32, HardwareError>(VA_SURFACE_READY)),
    {
        match self.is_va_ready(status) {
            Ok(ready) => ready,
            Err(_) => true,
        }
    }

    /// Takes the surface out of the handle, for which the picture has to be
    /// complete. `wait` is as for `sync`. Where the wait fails the error is
    /// returned together with the surface, on which the hardware may still
    /// work.
    pub fn into_surface(self, wait: Result<(), HardwareError>) -> (res: Result<
        Surface,
        (Error, Surface),
    >)
        ensures
            res == (match self@.sync_result(wait) {
                Ok(()) => Ok::<Surface, (Error, Surface)>(self@.picture.surface),
                Err(e) => Err((e, self@.picture.surface)),
            }),
            self@.picture.surface.coded_resolution == self@.coded_resolution,
    {
        proof {
            use_type_invariant(&self);
        }
        let mut handle = self;
        match handle.sync(wait) {
            Ok(()) => Ok(handle.picture.take_surface()),
            Err(e) => Err((e, handle.picture.take_surface())),
        }
    }

    /// Whether the hardware has to be waited for before the handle is
    /// released with `pool` as the governing pool: the picture is pending,
    /// and its surface would go back to the pool. In every other case the
    /// outcome of the wait does not count for `release`.
    pub fn release_needs_sync(&self, pool: &SurfacePool) -> (needed: bool)
        ensures
            needed == (self@.state == PictureState::Pending && pool.resolution()
                == self@.coded_resolution),
            !needed ==> forall|first: Result<(), HardwareError>, second: Result<(), HardwareError>|
                self@.returns_to_pool(pool.resolution(), first) == self@.returns_to_pool(
                    pool.resolution(),
                    second,
                ),
    {
        self.is_pending() && pool.coded_resolution() == self.coded_resolution
    }

    /// Ends the life of the handle and settles where its surface goes.
    ///
    /// `pool` is the pool that governs the stream now and `wait` is as for
    /// `sync`. The surface goes back to the pool, behind the surfaces that
    /// wait there, if the coded resolution of the pool is still the one of
    /// the handle and the picture is complete. Otherwise the pool stays as
    /// it is and the surface is returned: it belongs to no pool and is to be
    /// given back to the hardware.
    pub fn release(self, pool: &mut SurfacePool, wait: Result<(), HardwareError>) -> (discarded:
        Option<Surface>)
        ensures
            final(pool).resolution() == old(pool).resolution(),
            self@.returns_to_pool(old(pool).resolution(), wait) ==> {
                &&& discarded is None
                &&& final(pool)@ == old(pool)@.push(self@.picture.surface)
            },
            !self@.returns_to_pool(old(pool).resolution(), wait) ==> {
                &&& discarded == Some(self@.picture.surface)
                &&& *final(pool) == *old(pool)
            },
            final(pool)@.len() == old(pool)@.len() + (if self@.returns_to_pool(
                old(pool).resolution(),
                wait,
            ) {
                1int
            } else {
                0int
            }),
    {
        if pool.coded_resolution() == self.coded_resolution() {
            match self.into_surface(wait) {
                Ok(surface) => {
                    pool.add_surface(surface);
                    None
                },
                Err((_, surface)) => Some(surface),
            }
        } else {
            Some(self.discard())
        }
    }

    /// Ends the life of the handle without a pool to return its surface to.
    /// The surface is returned: it is to be given back to the hardware.
    pub fn discard(self) -> (surface: Surface)
        ensures
            surface == self@.picture.surface,
    {
        self.picture.take_surface()
    }
}

/// Once a picture is ready, `sync` changes nothing and succeeds, whatever
/// the hardware says, and however often it is called: a picture that is
/// ready stays ready. A successful `sync` makes any picture ready.
pub proof fn lemma_sync_idempotent(
    handle: GenericBackendHandleView,
    first: Result<(), HardwareError>,
    second: Result<(), HardwareError>,
)
    ensures
        handle.state == PictureState::Ready ==> {
            &&& handle.sync_result(first) == Ok::<(), Error>(())
            &&& handle.after_sync(first) == handle
            &&& handle.after_sync(first).sync_result(second) == Ok::<(), Error>(())
            &&& handle.after_sync(first).after_sync(second) == handle
        },
        handle.sync_result(first) is Ok ==> {
            &&& handle.after_sync(first).state == PictureState::Ready
            &&& handle.after_sync(first).sync_result(second) == Ok::<(), Error>(())
            &&& handle.after_sync(first).after_sync(second) == handle.after_sync(first)
        },
{
}

} // verus!
