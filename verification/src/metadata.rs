//! The state of the input stream: what is known of its parameters, and the
//! hardware resources that were set up for them.

use vstd::prelude::*;

use crate::error::Error;
use crate::error::HardwareError;
use crate::error::NegotiationError;
use crate::format::default_format_map;
use crate::format::find_image_format;
use crate::format::first_for_rt_format;
use crate::format::first_with_fourcc;
use crate::format::rt_format_advertised;
use crate::format::FormatMap;
use crate::format::ImageFormat;
use crate::format::VA_ATTRIB_NOT_SUPPORTED;
use crate::surface_pool::all_at_resolution;
use crate::surface_pool::Surface;
use crate::surface_pool::SurfacePool;
use crate::Resolution;

verus! {

/// The largest coded width or height that a hardware context can be created
/// for.
pub const MAX_CODED_EXTENT: u32 = 0x7fff_ffff;

/// A trait for providing the basic information needed to set the hardware
/// up for decoding: what a parser of stream headers implements for the
/// headers that it parses.
pub trait StreamInfo {
    /// What is reported of a stream that cannot be described.
    type Error;

    /// Returns the hardware profile of the stream.
    fn va_profile(&self) -> Result<i32, Self::Error>;

    /// Returns the rt-format of the stream.
    fn rt_format(&self) -> Result<u32, Self::Error>;

    /// Returns the minimum number of surfaces required to decode the stream.
    fn min_num_surfaces(&self) -> usize;

    /// Returns the coded size of the surfaces required to decode the stream.
    fn coded_size(&self) -> (u32, u32);

    /// Returns the visible rectangle within the coded size for the stream,
    /// as its top-left and its bottom-right corner.
    fn visible_rect(&self) -> ((u32, u32), (u32, u32));
}

/// The basic information about a stream that is needed to set the hardware
/// up for decoding it, as the parser of the stream's headers gives it.
///
/// The visible rectangle is a rectangle: its bottom-right corner lies
/// neither left of nor above its top-left corner.
#[derive(Copy, Clone, Debug, PartialEq, Eq)]
pub struct StreamParams {
    profile: i32,
    rt_format: u32,
    min_num_surfaces: usize,
    coded_size: (u32, u32),
    visible_rect: ((u32, u32), (u32, u32)),
}

/// The mathematical content of a `StreamParams`.
pub struct StreamParamsView {
    /// The hardware profile of the stream.
    pub profile: i32,
    /// The rt-format of the stream.
    pub rt_format: u32,
    /// The minimum number of surfaces required to decode the stream.
    pub min_num_surfaces: usize,
    /// The coded size of the surfaces required to decode the stream, as
    /// width and height.
    pub coded_size: (u32, u32),
    /// The visible rectangle within the coded size, as its top-left and its
    /// bottom-right corner.
    pub visible_rect: ((u32, u32), (u32, u32)),
}

/// Whether the second corner lies neither left of nor above the first.
pub open spec fn corners_ordered(visible_rect: ((u32, u32), (u32, u32))) -> bool {
    visible_rect.0.0 <= visible_rect.1.0 && visible_rect.0.1 <= visible_rect.1.1
}

impl StreamParamsView {
    /// The coded size as a resolution.
    pub open spec fn coded_resolution(self) -> Resolution {
        Resolution { width: self.coded_size.0, height: self.coded_size.1 }
    }

    /// The extent of the visible rectangle.
    pub open spec fn display_resolution(self) -> Resolution
        recommends
            corners_ordered(self.visible_rect),
    {
        Resolution {
            width: (self.visible_rect.1.0 - self.visible_rect.0.0) as u32,
            height: (self.visible_rect.1.1 - self.visible_rect.0.1) as u32,
        }
    }
}

impl View for StreamParams {
    type V = StreamParamsView;

    closed spec fn view(&self) -> StreamParamsView {
        StreamParamsView {
            profile: self.profile,
            rt_format: self.rt_format,
            min_num_surfaces: self.min_num_surfaces,
            coded_size: self.coded_size,
            visible_rect: self.visible_rect,
        }
    }
}

impl StreamParams {
    #[verifier::type_invariant]
    spec fn visible_rect_ordered(self) -> bool {
        corners_ordered(self.visible_rect)
    }

    /// Describes a stream. Returns `None` if the corners of `visible_rect`
    /// are not those of a rectangle.
    pub fn new(
        profile: i32,
        rt_format: u32,
        min_num_surfaces: usize,
        coded_size: (u32, u32),
        visible_rect: ((u32, u32), (u32, u32)),
    ) -> (r: Option<Self>)
        ensures
            r is Some <==> corners_ordered(visible_rect),
            r is Some ==> r->0@ == (StreamParamsView {
                profile,
                rt_format,
                min_num_surfaces,
                coded_size,
                visible_rect,
            }),
    {
        if visible_rect.0.0 <= visible_rect.1.0 && visible_rect.0.1 <= visible_rect.1.1 {
            Some(StreamParams { profile, rt_format, min_num_surfaces, coded_size, visible_rect })
        } else {
            None
        }
    }

    /// Whether `outcome` is what becomes of answers that `hdr` gives when it
    /// is asked for its stream: either the error with which it fails to tell
    /// the profile, or the error with which it tells the profile and fails
    /// to tell the rt-format, or the parameters made of what it tells of
    /// profile, rt-format, number of surfaces, coded size and visible
    /// rectangle, which are `None` if the corners of the visible rectangle
    /// are not those of a rectangle.
    pub open spec fn told_by<S: StreamInfo>(
        hdr: &S,
        outcome: Result<Option<StreamParams>, S::Error>,
    ) -> bool {
        match outcome {
            Err(e) => {
                ||| call_ensures(S::va_profile, (hdr,), Err::<i32, S::Error>(e))
                ||| exists|profile: i32|
                    {
                        &&& call_ensures(S::va_profile, (hdr,), Ok::<i32, S::Error>(profile))
                        &&& call_ensures(S::rt_format, (hdr,), Err::<u32, S::Error>(e))
                    }
            },
            Ok(params) => exists|
                profile: i32,
                rt_format: u32,
                min_num_surfaces: usize,
                coded_size: (u32, u32),
                visible_rect: ((u32, u32), (u32, u32)),
            |
                {
                    &&& call_ensures(S::va_profile, (hdr,), Ok::<i32, S::Error>(profile))
                    &&& call_ensures(S::rt_format, (hdr,), Ok::<u32, S::Error>(rt_format))
                    &&& call_ensures(S::min_num_surfaces, (hdr,), min_num_surfaces)
                    &&& call_ensures(S::coded_size, (hdr,), coded_size)
                    &&& call_ensures(S::visible_rect, (hdr,), visible_rect)
                    &&& match params {
                        Some(params) => corners_ordered(visible_rect) && params@ == (
                        StreamParamsView {
                            profile,
                            rt_format,
                            min_num_surfaces,
                            coded_size,
                            visible_rect,
                        }),
                        None => !corners_ordered(visible_rect),
                    }
                },
        }
    }

    /// Takes down what `hdr` tells of its stream, profile first, then
    /// rt-format, number of surfaces, coded size and visible rectangle.
    ///
    /// Fails with the error of `hdr` where `hdr` cannot tell the profile or
    /// the rt-format; the rest is then not asked for. Returns `None` if the
    /// corners of the visible rectangle are not those of a rectangle.
    ///
    /// What `hdr` answers is its own affair. The outcome is made of its
    /// answers and of nothing else.
    pub fn from_info<S: StreamInfo>(hdr: &S) -> (r: Result<Option<Self>, S::Error>)
        ensures
            Self::told_by(hdr, r),
            r matches Ok(Some(params)) ==> corners_ordered(params@.visible_rect),
    {
        let profile = match hdr.va_profile() {
            Ok(profile) => profile,
            Err(e) => {
                return Err(e);
            },
        };
        let rt_format = match hdr.rt_format() {
            Ok(rt_format) => rt_format,
            Err(e) => {
                return Err(e);
            },
        };
        let min_num_surfaces = hdr.min_num_surfaces();
        let coded_size = hdr.coded_size();
        let visible_rect = hdr.visible_rect();
        Ok(StreamParams::new(profile, rt_format, min_num_surfaces, coded_size, visible_rect))
    }

    /// Returns the hardware profile of the stream.
    pub fn va_profile(&self) -> (profile: i32)
        ensures
            profile == self@.profile,
    {
        self.profile
    }

    /// Returns the rt-format of the stream.
    pub fn rt_format(&self) -> (rt_format: u32)
        ensures
            rt_format == self@.rt_format,
    {
        self.rt_format
    }

    /// Returns the minimum number of surfaces required to decode the stream.
    pub fn min_num_surfaces(&self) -> (n: usize)
        ensures
            n == self@.min_num_surfaces,
    {
        self.min_num_surfaces
    }

    /// Returns the coded size of the surfaces required to decode the stream.
    pub fn coded_size(&self) -> (size: (u32, u32))
        ensures
            size == self@.coded_size,
    {
        self.coded_size
    }

    /// Returns the visible rectangle within the coded size for the stream.
    pub fn visible_rect(&self) -> (rect: ((u32, u32), (u32, u32)))
        ensures
            rect == self@.visible_rect,
            corners_ordered(rect),
    {
        proof {
            use_type_invariant(self);
        }
        self.visible_rect
    }

    /// Returns the extent of the visible rectangle.
    pub fn display_resolution(&self) -> (resolution: Resolution)
        ensures
            resolution == self@.display_resolution(),
    {
        let visible_rect = self.visible_rect();
        Resolution {
            width: visible_rect.1.0 - visible_rect.0.0,
            height: visible_rect.1.1 - visible_rect.0.1,
        }
    }
}

/// What the hardware reports of itself for a stream.
#[derive(Debug)]
pub struct HardwareCaps {
    /// The value of the rt-format attribute for the stream's profile and
    /// the decode entrypoint: the rt-formats that can be decoded into.
    pub rt_format_attrib: u32,
    /// The image formats that surfaces can be mapped into.
    pub image_formats: Vec<ImageFormat>,
}

/// The resources to ask the hardware for when a stream is opened: a
/// configuration for `profile` and `rt_format`, `num_surfaces` surfaces of
/// `rt_format` at the coded resolution, meant to be mapped into
/// `map_format`, and a decode context for that configuration and those
/// surfaces.
#[derive(Copy, Clone, Debug, PartialEq, Eq, Structural)]
pub struct OpenRequest {
    pub profile: i32,
    pub rt_format: u32,
    pub map_format: ImageFormat,
    pub coded_resolution: Resolution,
    pub num_surfaces: usize,
}

/// The resources that the hardware created for an `OpenRequest`.
///
/// The configuration and the context are named by handles that the caller
/// chooses. They are kept with the stream metadata and are not looked at.
#[derive(Debug)]
pub struct HardwareResources {
    /// The handle of the configuration.
    pub config: u32,
    /// The handle of the decode context.
    pub context: u32,
    /// The identifiers of the surfaces.
    pub surfaces: Vec<u32>,
}

/// What is set up for a stream whose parameters are known.
pub struct ParsedStreamMetadata {
    /// The hardware context to decode with.
    pub context: u32,
    /// The configuration that the context was created for. It lives as long
    /// as the context does.
    pub config: u32,
    /// A pool of surfaces. Surfaces are reused as they are expensive to
    /// allocate.
    pub surface_pool: SurfacePool,
    /// The number of surfaces required to parse the stream.
    pub min_num_surfaces: usize,
    /// The decoder current display resolution.
    pub display_resolution: Resolution,
    /// The image format to map the surfaces into. This is usually the same
    /// as the surface's internal format, but another one can be negotiated
    /// if the hardware can map into it.
    pub map_format: ImageFormat,
    /// The rt-format parsed from the stream.
    pub rt_format: u32,
    /// The profile parsed from the stream.
    pub profile: i32,
}

/// The mathematical content of a `ParsedStreamMetadata`.
pub struct ParsedStreamMetadataView {
    pub context: u32,
    pub config: u32,
    /// The free surfaces of the pool, the one that leaves next first.
    pub surfaces: Seq<Surface>,
    /// The coded resolution of the pool.
    pub coded_resolution: Resolution,
    pub min_num_surfaces: usize,
    pub display_resolution: Resolution,
    pub map_format: ImageFormat,
    pub rt_format: u32,
    pub profile: i32,
}

impl View for ParsedStreamMetadata {
    type V = ParsedStreamMetadataView;

    open spec fn view(&self) -> ParsedStreamMetadataView {
        ParsedStreamMetadataView {
            context: self.context,
            config: self.config,
            surfaces: self.surface_pool@,
            coded_resolution: self.surface_pool.resolution(),
            min_num_surfaces: self.min_num_surfaces,
            display_resolution: self.display_resolution,
            map_format: self.map_format,
            rt_format: self.rt_format,
            profile: self.profile,
        }
    }
}

/// State of the input stream, which can be either unparsed (the stream
/// properties are not known yet) or parsed (they are known and the hardware
/// is ready to decode).
pub enum StreamMetadataState {
    /// The metadata for the current stream has not yet been parsed.
    Unparsed,
    /// The metadata for the current stream has been parsed and a suitable
    /// hardware context has been created to accomodate it.
    Parsed(ParsedStreamMetadata),
}

impl View for StreamMetadataState {
    type V = Option<ParsedStreamMetadataView>;

    open spec fn view(&self) -> Option<ParsedStreamMetadataView> {
        match self {
            StreamMetadataState::Unparsed => None,
            StreamMetadataState::Parsed(metadata) => Some(metadata@),
        }
    }
}

/// The export format for a stream of `rt_format`: the override if there is
/// one, else the preferred entry of the format table.
pub open spec fn chosen_format_map(rt_format: u32, format_map: Option<FormatMap>) -> Option<
    FormatMap,
> {
    match format_map {
        Some(entry) => Some(entry),
        None => first_for_rt_format(crate::format::format_map(), rt_format),
    }
}

/// What opening a stream of parameters `hdr` asks of the hardware, given
/// what the hardware reports of itself and the override of the export
/// format, or why the stream cannot be opened.
pub open spec fn open_request(
    hdr: StreamParamsView,
    rt_format_attrib: u32,
    image_formats: Seq<ImageFormat>,
    format_map: Option<FormatMap>,
) -> Result<OpenRequest, Error> {
    if !rt_format_advertised(rt_format_attrib, hdr.rt_format) {
        Err(Error::NegotiationFailed(NegotiationError::RtFormatNotAdvertised))
    } else {
        match chosen_format_map(hdr.rt_format, format_map) {
            None => Err(Error::NegotiationFailed(NegotiationError::NoFormatForRtFormat)),
            Some(entry) => match first_with_fourcc(image_formats, entry.va_fourcc) {
                None => Err(Error::NegotiationFailed(NegotiationError::ImageFormatNotAvailable)),
                Some(map_format) => if hdr.coded_size.0 > MAX_CODED_EXTENT || hdr.coded_size.1
                    > MAX_CODED_EXTENT {
                    Err(Error::CodedSizeOutOfRange)
                } else {
                    Ok(
                        OpenRequest {
                            profile: hdr.profile,
                            rt_format: hdr.rt_format,
                            map_format,
                            coded_resolution: hdr.coded_resolution(),
                            num_surfaces: hdr.min_num_surfaces,
                        },
                    )
                },
            },
        }
    }
}

/// The surfaces of the given identifiers, allocated at `resolution`.
pub open spec fn surfaces_at(ids: Seq<u32>, resolution: Resolution) -> Seq<Surface> {
    ids.map_values(|id: u32| Surface { id, coded_resolution: resolution })
}

/// The metadata of a stream of parameters `hdr` that was opened with
/// `request` and for which the hardware created the given resources.
pub open spec fn opened(
    hdr: StreamParamsView,
    request: OpenRequest,
    config: u32,
    context: u32,
    surfaces: Seq<u32>,
) -> ParsedStreamMetadataView {
    ParsedStreamMetadataView {
        context,
        config,
        surfaces: surfaces_at(surfaces, request.coded_resolution),
        coded_resolution: request.coded_resolution,
        min_num_surfaces: hdr.min_num_surfaces,
        display_resolution: hdr.display_resolution(),
        map_format: request.map_format,
        rt_format: hdr.rt_format,
        profile: hdr.profile,
    }
}

/// The outcome of opening a stream: the new metadata, or the error.
pub open spec fn open_outcome(
    hdr: StreamParamsView,
    rt_format_attrib: u32,
    image_formats: Seq<ImageFormat>,
    format_map: Option<FormatMap>,
    resources: Result<HardwareResources, HardwareError>,
) -> Result<ParsedStreamMetadataView, Error> {
    match open_request(hdr, rt_format_attrib, image_formats, format_map) {
        Err(e) => Err(e),
        Ok(request) => match resources {
            Err(e) => Err(Error::HardwareError(e)),
            Ok(created) => Ok(
                opened(hdr, request, created.config, created.context, created.surfaces@),
            ),
        },
    }
}

/// Describes the surfaces of the given identifiers as allocated at
/// `resolution`.
fn describe_surfaces(ids: &Vec<u32>, resolution: Resolution) -> (surfaces: Vec<Surface>)
    ensures
        surfaces@ == surfaces_at(ids@, resolution),
        all_at_resolution(surfaces@, resolution),
{
    let mut surfaces: Vec<Surface> = Vec::new();
    let mut i: usize = 0;
    while i < ids.len()
        invariant
            0 <= i <= ids.len(),
            surfaces@ == surfaces_at(ids@.take(i as int), resolution),
        decreases ids.len() - i,
    {
        surfaces.push(Surface::new(ids[i], resolution));
        i = i + 1;
    }
    surfaces
}

impl StreamMetadataState {
    /// Returns a reference to the parsed metadata state or an error if we
    /// haven't reached that state yet.
    pub fn get_parsed(&self) -> (r: Result<&ParsedStreamMetadata, Error>)
        ensures
            match r {
                Ok(metadata) => *self == StreamMetadataState::Parsed(*metadata),
                Err(e) => *self == StreamMetadataState::Unparsed && e == Error::NotYetParsed,
            },
    {
        match self {
            StreamMetadataState::Unparsed => Err(Error::NotYetParsed),
            StreamMetadataState::Parsed(parsed_metadata) => Ok(parsed_metadata),
        }
    }

    /// Returns a mutable reference to the parsed metadata state or an error
    /// if we haven't reached that state yet.
    pub fn get_parsed_mut(&mut self) -> (r: Result<&mut ParsedStreamMetadata, Error>)
        ensures
            match r {
                Ok(metadata) => {
                    &&& *old(self) == StreamMetadataState::Parsed(*metadata)
                    &&& *final(self) == StreamMetadataState::Parsed(*final(metadata))
                },
                Err(e) => {
                    &&& *old(self) == StreamMetadataState::Unparsed
                    &&& *final(self) == *old(self)
                    &&& e == Error::NotYetParsed
                },
            },
    {
        match self {
            StreamMetadataState::Unparsed => Err(Error::NotYetParsed),
            StreamMetadataState::Parsed(parsed_metadata) => Ok(parsed_metadata),
        }
    }

    /// Decides what to ask of the hardware in order to open a stream of
    /// parameters `hdr`.
    ///
    /// The stream's rt-format must be advertised by the hardware. The export
    /// format is `format_map` if it is given, else the preferred one for
    /// the stream's rt-format; the hardware must be able to map into it. The
    /// failures are looked for in this order.
    pub fn prepare(hdr: &StreamParams, caps: &HardwareCaps, format_map: Option<&FormatMap>) -> (r:
        Result<OpenRequest, Error>)
        ensures
            r == open_request(
                hdr@,
                caps.rt_format_attrib,
                caps.image_formats@,
                match format_map {
                    Some(entry) => Some(*entry),
                    None => None,
                },
            ),
    {
        let rt_format = hdr.rt_format();
        let (frame_w, frame_h) = hdr.coded_size();

        if caps.rt_format_attrib == VA_ATTRIB_NOT_SUPPORTED || caps.rt_format_attrib & rt_format
            == 0 {
            return Err(Error::NegotiationFailed(NegotiationError::RtFormatNotAdvertised));
        }
        let format_map = if let Some(format_map) = format_map {
            *format_map
        } else {
            // Pick the first one that fits
            match default_format_map(rt_format) {
                Some(format_map) => format_map,
                None => {
                    return Err(Error::NegotiationFailed(NegotiationError::NoFormatForRtFormat));
                },
            }
        };

        let map_format = match find_image_format(
            caps.image_formats.as_slice(),
            format_map.va_fourcc,
        ) {
            Some(map_format) => map_format,
            None => {
                return Err(Error::NegotiationFailed(NegotiationError::ImageFormatNotAvailable));
            },
        };

        if frame_w > MAX_CODED_EXTENT || frame_h > MAX_CODED_EXTENT {
            return Err(Error::CodedSizeOutOfRange);
        }
        Ok(
            OpenRequest {
                profile: hdr.va_profile(),
                rt_format,
                map_format,
                coded_resolution: Resolution { width: frame_w, height: frame_h },
                num_surfaces: hdr.min_num_surfaces(),
            },
        )
    }

    /// Initializes or reinitializes the codec state.
    ///
    /// `resources` is what the hardware answered to the request that
    /// `prepare` makes for the same arguments. It is not looked at where
    /// `prepare` fails.
    pub fn open(
        hdr: &StreamParams,
        caps: &HardwareCaps,
        format_map: Option<&FormatMap>,
        resources: Result<HardwareResources, HardwareError>,
    ) -> (r: Result<StreamMetadataState, Error>)
        ensures
            match open_outcome(
                hdr@,
                caps.rt_format_attrib,
                caps.image_formats@,
                match format_map {
                    Some(entry) => Some(*entry),
                    None => None,
                },
                resources,
            ) {
                Ok(metadata) => r is Ok && r->Ok_0@ == Some(metadata),
                Err(e) => r == Err::<StreamMetadataState, Error>(e),
            },
    {
        let request = match Self::prepare(hdr, caps, format_map) {
            Ok(request) => request,
            Err(e) => {
                return Err(e);
            },
        };
        let created = match resources {
            Ok(created) => created,
            Err(e) => {
                return Err(Error::HardwareError(e));
            },
        };
        let coded_resolution = request.coded_resolution;

        let display_resolution = hdr.display_resolution();

        let surfaces = describe_surfaces(&created.surfaces, coded_resolution);
        let surface_pool = SurfacePool::new(surfaces, coded_resolution);

        Ok(
            StreamMetadataState::Parsed(
                ParsedStreamMetadata {
                    context: created.context,
                    config: created.config,
                    surface_pool,
                    min_num_surfaces: hdr.min_num_surfaces(),
                    display_resolution,
                    map_format: request.map_format,
                    rt_format: hdr.rt_format(),
                    profile: hdr.va_profile(),
                },
            ),
        )
    }
}

} // verus!
