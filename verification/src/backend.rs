//! The backend: the stream metadata together with the state of the
//! negotiation of the stream's parameters.

use vstd::prelude::*;

use crate::error::Error;
use crate::error::HardwareError;
use crate::error::NegotiationError;
use crate::format::contains_format;
use crate::format::decoded_format_of;
use crate::format::decoded_formats_of;
use crate::format::first_for_decoded_format;
use crate::format::format_map;
use crate::format::format_map_for;
use crate::format::lemma_supported_formats_distinct;
use crate::format::rt_format_advertised;
use crate::format::supported_decoded_formats;
use crate::format::supported_formats_for_rt_format;
use crate::format::FormatMap;
use crate::format::ImageFormat;
use crate::metadata::open_outcome;
use crate::metadata::open_request;
use crate::metadata::HardwareCaps;
use crate::metadata::HardwareResources;
use crate::metadata::OpenRequest;
use crate::metadata::ParsedStreamMetadataView;
use crate::metadata::StreamMetadataState;
use crate::metadata::StreamParams;
use crate::picture::GenericBackendHandle;
use crate::picture::GenericBackendHandleView;
use crate::picture::Picture;
use crate::picture::PictureState;
use crate::surface_pool::Surface;
use crate::DecodedFormat;
use crate::Resolution;

verus! {

/// Keeps track of where the backend is in the negotiation process.
///
/// The generic parameter is the data that the decoder wishes to pass from
/// the `Possible` to the `Negotiated` state - typically, the properties of
/// the stream like its resolution as they have been parsed.
#[derive(Debug)]
pub enum NegotiationStatus<T> {
    /// No property about the stream has been parsed yet.
    NonNegotiated,
    /// Properties of the stream have been parsed and the client may query
    /// and change them.
    Possible(T),
    /// Stream is actively decoding and its properties cannot be changed by
    /// the client.
    Negotiated,
}

impl<T: Clone> Clone for NegotiationStatus<T> {
    fn clone(&self) -> (status: Self)
        ensures
            match *self {
                NegotiationStatus::NonNegotiated => status is NonNegotiated,
                NegotiationStatus::Possible(data) => status is Possible && cloned(
                    data,
                    status->Possible_0,
                ),
                NegotiationStatus::Negotiated => status is Negotiated,
            },
    {
        match self {
            NegotiationStatus::NonNegotiated => NegotiationStatus::NonNegotiated,
            NegotiationStatus::Possible(data) => NegotiationStatus::Possible(data.clone()),
            NegotiationStatus::Negotiated => NegotiationStatus::Negotiated,
        }
    }
}

impl<T> Default for NegotiationStatus<T> {
    fn default() -> (status: Self)
        ensures
            status == NegotiationStatus::<T>::NonNegotiated,
    {
        NegotiationStatus::NonNegotiated
    }
}

impl<T> NegotiationStatus<T> {
    /// The name of the status, without the data that it may hold.
    pub fn name(&self) -> (name: &'static str)
        ensures
            name@ == (match self {
                NegotiationStatus::NonNegotiated => "NonNegotiated"@,
                NegotiationStatus::Possible(_) => "Possible"@,
                NegotiationStatus::Negotiated => "Negotiated"@,
            }),
    {
        match self {
            NegotiationStatus::NonNegotiated => "NonNegotiated",
            NegotiationStatus::Possible(_) => "Possible",
            NegotiationStatus::Negotiated => "Negotiated",
        }
    }
}

/// The formats that a stream with metadata `metadata` can be exported in,
/// given what the hardware reports of itself.
pub open spec fn stream_formats(
    metadata: Option<ParsedStreamMetadataView>,
    rt_format_attrib: u32,
    image_formats: Seq<ImageFormat>,
) -> Result<Seq<DecodedFormat>, Error> {
    match metadata {
        None => Err(Error::NotYetParsed),
        Some(parsed) => if rt_format_advertised(rt_format_attrib, parsed.rt_format) {
            Ok(supported_decoded_formats(parsed.rt_format, image_formats))
        } else {
            Err(Error::NegotiationFailed(NegotiationError::RtFormatNotAdvertised))
        },
    }
}

/// The stream parameters and the entry of the format table with which a
/// stream is opened again in order to change its export format to `format`,
/// or why the format cannot be changed: the negotiation must be possible,
/// the stream metadata parsed, and `format` among the formats that the
/// stream can be exported in.
pub open spec fn format_override(
    status: NegotiationStatus<StreamParams>,
    metadata: Option<ParsedStreamMetadataView>,
    format: DecodedFormat,
    rt_format_attrib: u32,
    image_formats: Seq<ImageFormat>,
) -> Result<(StreamParams, FormatMap), Error> {
    match status {
        NegotiationStatus::Possible(header) => match stream_formats(
            metadata,
            rt_format_attrib,
            image_formats,
        ) {
            Err(e) => Err(e),
            Ok(supported) => if supported.contains(format) {
                Ok((header, first_for_decoded_format(format_map(), format)->0))
            } else {
                Err(Error::NegotiationFailed(NegotiationError::FormatNotSupported))
            },
        },
        _ => Err(Error::NegotiationFailed(NegotiationError::NotPossible)),
    }
}

/// What a change of the export format to `format` asks of the hardware, or
/// why the format cannot be changed.
pub open spec fn format_request(
    status: NegotiationStatus<StreamParams>,
    metadata: Option<ParsedStreamMetadataView>,
    format: DecodedFormat,
    rt_format_attrib: u32,
    image_formats: Seq<ImageFormat>,
) -> Result<OpenRequest, Error> {
    match format_override(status, metadata, format, rt_format_attrib, image_formats) {
        Err(e) => Err(e),
        Ok((header, entry)) => open_request(header@, rt_format_attrib, image_formats, Some(entry)),
    }
}

/// The outcome of a change of the export format to `format`: the new
/// metadata, or the error.
pub open spec fn format_outcome(
    status: NegotiationStatus<StreamParams>,
    metadata: Option<ParsedStreamMetadataView>,
    format: DecodedFormat,
    rt_format_attrib: u32,
    image_formats: Seq<ImageFormat>,
    resources: Result<HardwareResources, HardwareError>,
) -> Result<ParsedStreamMetadataView, Error> {
    match format_override(status, metadata, format, rt_format_attrib, image_formats) {
        Err(e) => Err(e),
        Ok((header, entry)) => open_outcome(
            header@,
            rt_format_attrib,
            image_formats,
            Some(entry),
            resources,
        ),
    }
}

/// The backend of a decoder: what is set up for the current stream, and how
/// far the negotiation of its parameters has come.
pub struct VaapiBackend {
    /// The metadata state. Updated whenever the decoder reads new data from
    /// the stream.
    pub metadata_state: StreamMetadataState,
    /// The negotiation status.
    pub negotiation_status: NegotiationStatus<StreamParams>,
}

impl VaapiBackend {
    /// Creates a backend that knows nothing of a stream yet.
    pub fn new() -> (backend: Self)
        ensures
            backend.metadata_state == StreamMetadataState::Unparsed,
            backend.negotiation_status == NegotiationStatus::<StreamParams>::NonNegotiated,
    {
        VaapiBackend {
            metadata_state: StreamMetadataState::Unparsed,
            negotiation_status: NegotiationStatus::NonNegotiated,
        }
    }

    /// Starts a sequence of parameters `stream_params`: opens the stream
    /// with the preferred export format and makes a negotiation possible.
    ///
    /// `resources` is what the hardware answered to the request that
    /// `StreamMetadataState::prepare` makes for the same parameters and no
    /// override. On success the metadata state that was replaced is
    /// returned: its hardware resources are no longer in use. On failure
    /// the backend stays as it is.
    pub fn new_sequence(
        &mut self,
        stream_params: &StreamParams,
        caps: &HardwareCaps,
        resources: Result<HardwareResources, HardwareError>,
    ) -> (r: Result<StreamMetadataState, Error>)
        ensures
            match open_outcome(
                stream_params@,
                caps.rt_format_attrib,
                caps.image_formats@,
                None,
                resources,
            ) {
                Ok(metadata) => {
                    &&& r == Ok::<StreamMetadataState, Error>(old(self).metadata_state)
                    &&& final(self).metadata_state@ == Some(metadata)
                    &&& final(self).negotiation_status == NegotiationStatus::Possible(
                        *stream_params,
                    )
                },
                Err(e) => r == Err::<StreamMetadataState, Error>(e) && *final(self) == *old(self),
            },
    {
        let mut state = match StreamMetadataState::open(stream_params, caps, None, resources) {
            Ok(state) => state,
            Err(e) => {
                return Err(e);
            },
        };
        std::mem::swap(&mut self.metadata_state, &mut state);
        self.negotiation_status = NegotiationStatus::Possible(*stream_params);

        Ok(state)
    }

    /// Binds a picture that was submitted to the hardware to a handle, which
    /// records the resolutions and the image format of the stream as they
    /// are now. The picture is decoded into a surface of the pool.
    pub fn process_picture(&self, picture: Picture) -> (r: Result<GenericBackendHandle, Error>)
        requires
            self.metadata_state@ is Some ==> picture.surface.coded_resolution
                == self.metadata_state@->0.coded_resolution,
        ensures
            match self.metadata_state@ {
                Some(metadata) => r is Ok && r->Ok_0@ == (GenericBackendHandleView {
                    picture,
                    state: PictureState::Pending,
                    coded_resolution: metadata.coded_resolution,
                    display_resolution: metadata.display_resolution,
                    map_format: metadata.map_format,
                }),
                None => r is Err && r->Err_0 == Error::NotYetParsed,
            },
    {
        let metadata = match self.metadata_state.get_parsed() {
            Ok(metadata) => metadata,
            Err(e) => {
                return Err(e);
            },
        };

        Ok(GenericBackendHandle::new(picture, metadata))
    }

    /// Gets a set of supported formats for the particular stream being
    /// processed. This requires that the stream metadata be parsed. Only
    /// formats that are compatible with the current color space, bit depth,
    /// and chroma format are returned such that no conversion is needed.
    ///
    /// The formats come in order of preference, each of them once.
    pub fn supported_formats_for_stream(&self, caps: &HardwareCaps) -> (r: Result<
        Vec<DecodedFormat>,
        Error,
    >)
        ensures
            match stream_formats(self.metadata_state@, caps.rt_format_attrib, caps.image_formats@) {
                Ok(formats) => r is Ok && r->Ok_0@ == formats && formats.no_duplicates(),
                Err(e) => r == Err::<Vec<DecodedFormat>, Error>(e),
            },
    {
        let metadata = match self.metadata_state.get_parsed() {
            Ok(metadata) => metadata,
            Err(e) => {
                return Err(e);
            },
        };
        let formats = match supported_formats_for_rt_format(
            caps.rt_format_attrib,
            metadata.rt_format,
            caps.image_formats.as_slice(),
        ) {
            Ok(formats) => formats,
            Err(e) => {
                return Err(e);
            },
        };

        proof {
            lemma_supported_formats_distinct(metadata.rt_format, caps.image_formats@);
        }
        Ok(decoded_formats_of(&formats))
    }

    /// The profile for which to ask the hardware what it can do, before the
    /// export format is changed: the profile that the stream was opened
    /// with. Fails if the negotiation is not possible or the stream
    /// metadata is not parsed, in which cases the hardware is not to be
    /// asked.
    pub fn negotiation_profile(&self) -> (r: Result<i32, Error>)
        ensures
            r == (match (self.negotiation_status, self.metadata_state@) {
                (NegotiationStatus::Possible(_), Some(metadata)) => Ok::<i32, Error>(
                    metadata.profile,
                ),
                (NegotiationStatus::Possible(_), None) => Err(Error::NotYetParsed),
                _ => Err(Error::NegotiationFailed(NegotiationError::NotPossible)),
            }),
    {
        match &self.negotiation_status {
            NegotiationStatus::Possible(_) => {},
            _ => {
                return Err(Error::NegotiationFailed(NegotiationError::NotPossible));
            },
        }
        match self.metadata_state.get_parsed() {
            Ok(metadata) => Ok(metadata.profile),
            Err(e) => Err(e),
        }
    }

    /// Finds the stream parameters and the entry of the format table with
    /// which to open the stream again for `format`.
    fn override_for(&self, format: DecodedFormat, caps: &HardwareCaps) -> (r: Result<
        (StreamParams, FormatMap),
        Error,
    >)
        ensures
            r == format_override(
                self.negotiation_status,
                self.metadata_state@,
                format,
                caps.rt_format_attrib,
                caps.image_formats@,
            ),
    {
        let header = match &self.negotiation_status {
            NegotiationStatus::Possible(header) => *header,
            _ => {
                return Err(Error::NegotiationFailed(NegotiationError::NotPossible));
            },
        };

        let supported_formats_for_stream = match self.supported_formats_for_stream(caps) {
            Ok(formats) => formats,
            Err(e) => {
                return Err(e);
            },
        };

        if contains_format(&supported_formats_for_stream, format) {
            Ok((header, format_map_for(format)))
        } else {
            Err(Error::NegotiationFailed(NegotiationError::FormatNotSupported))
        }
    }

    /// Decides what to ask of the hardware in order to change the export
    /// format to `format`.
    ///
    /// The negotiation must be possible, the stream metadata parsed and
    /// `format` among the formats supported for the stream; the stream is
    /// then opened again with `format` forced. The failures are looked for
    /// in this order.
    pub fn prepare_format(&self, format: DecodedFormat, caps: &HardwareCaps) -> (r: Result<
        OpenRequest,
        Error,
    >)
        ensures
            r == format_request(
                self.negotiation_status,
                self.metadata_state@,
                format,
                caps.rt_format_attrib,
                caps.image_formats@,
            ),
    {
        match self.override_for(format, caps) {
            Ok((header, map_format)) => StreamMetadataState::prepare(
                &header,
                caps,
                Some(&map_format),
            ),
            Err(e) => Err(e),
        }
    }

    /// Changes the export format of the stream to `format`.
    ///
    /// `resources` is what the hardware answered to the request that
    /// `prepare_format` makes for the same arguments. It is not looked at
    /// where `prepare_format` fails. On success the metadata state that was
    /// replaced is returned: its hardware resources are no longer in use.
    /// On failure the backend stays as it is.
    pub fn try_format(
        &mut self,
        format: DecodedFormat,
        caps: &HardwareCaps,
        resources: Result<HardwareResources, HardwareError>,
    ) -> (r: Result<StreamMetadataState, Error>)
        ensures
            match format_outcome(
                old(self).negotiation_status,
                old(self).metadata_state@,
                format,
                caps.rt_format_attrib,
                caps.image_formats@,
                resources,
            ) {
                Ok(metadata) => {
                    &&& r == Ok::<StreamMetadataState, Error>(old(self).metadata_state)
                    &&& final(self).metadata_state@ == Some(metadata)
                    &&& final(self).negotiation_status == old(self).negotiation_status
                },
                Err(e) => r == Err::<StreamMetadataState, Error>(e) && *final(self) == *old(self),
            },
            r is Ok ==> {
                &&& old(self).negotiation_status is Possible
                &&& stream_formats(
                    old(self).metadata_state@,
                    caps.rt_format_attrib,
                    caps.image_formats@,
                ) matches Ok(formats) && formats.contains(format)
            },
            r is Err ==> *final(self) == *old(self),
            !(old(self).negotiation_status is Possible) ==> r == Err::<StreamMetadataState, Error>(
                Error::NegotiationFailed(NegotiationError::NotPossible),
            ),
    {
        let (header, map_format) = match self.override_for(format, caps) {
            Ok(found) => found,
            Err(e) => {
                return Err(e);
            },
        };
        let mut state = match StreamMetadataState::open(
            &header,
            caps,
            Some(&map_format),
            resources,
        ) {
            Ok(state) => state,
            Err(e) => {
                return Err(e);
            },
        };
        std::mem::swap(&mut self.metadata_state, &mut state);

        Ok(state)
    }

    /// Whether the hardware has to be waited for before `handle` is released:
    /// its picture is pending, and its surface would go back to the pool of
    /// the current stream metadata.
    pub fn release_needs_sync(&self, handle: &GenericBackendHandle) -> (needed: bool)
        ensures
            needed == (match self.metadata_state@ {
                Some(metadata) => handle@.state == PictureState::Pending
                    && metadata.coded_resolution == handle@.coded_resolution,
                None => false,
            }),
    {
        match self.metadata_state.get_parsed() {
            Ok(metadata) => handle.release_needs_sync(&metadata.surface_pool),
            Err(_) => false,
        }
    }

    /// Ends the life of `handle` and settles where its surface goes, with
    /// the pool of the current stream metadata as the governing pool.
    ///
    /// `wait` is the outcome of the blocking wait for the hardware to
    /// complete the picture, which counts only while the picture is
    /// pending. The surface goes back to the pool if the stream metadata is
    /// parsed, the coded resolution of its pool is the one of the handle,
    /// and the picture is complete. Otherwise the backend stays as it is
    /// and the surface is returned: it is to be given back to the hardware.
    pub fn release_picture(
        &mut self,
        handle: GenericBackendHandle,
        wait: Result<(), HardwareError>,
    ) -> (discarded: Option<Surface>)
        ensures
            final(self).negotiation_status == old(self).negotiation_status,
            match old(self).metadata_state@ {
                Some(metadata) if handle@.returns_to_pool(metadata.coded_resolution, wait) => {
                    &&& discarded is None
                    &&& final(self).metadata_state@ == Some(
                        ParsedStreamMetadataView {
                            surfaces: metadata.surfaces.push(handle@.picture.surface),
                            ..metadata
                        },
                    )
                },
                _ => discarded == Some(handle@.picture.surface) && *final(self) == *old(self),
            },
            old(self).metadata_state@ matches Some(metadata) ==> {
                &&& final(self).metadata_state@ is Some
                &&& final(self).metadata_state@->0.surfaces.len() == metadata.surfaces.len() + (
                if handle@.returns_to_pool(metadata.coded_resolution, wait) {
                    1int
                } else {
                    0int
                })
            },
    {
        match self.metadata_state.get_parsed_mut() {
            Ok(metadata) => handle.release(&mut metadata.surface_pool, wait),
            Err(_) => Some(handle.discard()),
        }
    }

    /// The coded resolution of the stream, once it is parsed.
    pub fn coded_resolution(&self) -> (r: Option<Resolution>)
        ensures
            r == (match self.metadata_state@ {
                Some(metadata) => Some(metadata.coded_resolution),
                None => None,
            }),
    {
        match self.metadata_state.get_parsed() {
            Ok(m) => Some(m.surface_pool.coded_resolution()),
            Err(_) => None,
        }
    }

    /// The display resolution of the stream, once it is parsed.
    pub fn display_resolution(&self) -> (r: Option<Resolution>)
        ensures
            r == (match self.metadata_state@ {
                Some(metadata) => Some(metadata.display_resolution),
                None => None,
            }),
    {
        match self.metadata_state.get_parsed() {
            Ok(m) => Some(m.display_resolution),
            Err(_) => None,
        }
    }

    /// The number of surfaces that the stream requires, or zero while the
    /// stream is not parsed.
    pub fn num_resources_total(&self) -> (n: usize)
        ensures
            n == (match self.metadata_state@ {
                Some(metadata) => metadata.min_num_surfaces,
                None => 0,
            }),
    {
        match self.metadata_state.get_parsed() {
            Ok(m) => m.min_num_surfaces,
            Err(_) => 0,
        }
    }

    /// The number of surfaces that are free, or zero while the stream is not
    /// parsed.
    pub fn num_resources_left(&self) -> (n: usize)
        ensures
            n == (match self.metadata_state@ {
                Some(metadata) => metadata.surfaces.len(),
                None => 0,
            }),
    {
        match self.metadata_state.get_parsed() {
            Ok(m) => m.surface_pool.num_surfaces_left(),
            Err(_) => 0,
        }
    }

    /// The format that the stream is exported in, once the stream is parsed
    /// and if its image format is one that can be exported.
    pub fn format(&self) -> (r: Option<DecodedFormat>)
        ensures
            r == (match self.metadata_state@ {
                Some(metadata) => match decoded_format_of(metadata.map_format.fourcc) {
                    Ok(format) => Some(format),
                    Err(_) => None,
                },
                None => None,
            }),
    {
        let map_format = match self.metadata_state.get_parsed() {
            Ok(m) => &m.map_format,
            Err(_) => {
                return None;
            },
        };
        match DecodedFormat::try_from(map_format) {
            Ok(format) => Some(format),
            Err(_) => None,
        }
    }
}

} // verus!
