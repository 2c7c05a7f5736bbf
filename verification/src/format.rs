//! Export formats: which pixel layouts a stream of a given rt-format can be
//! mapped into, and which of them the hardware supports.

use vstd::prelude::*;

use crate::error::Error;
use crate::error::NegotiationError;
use crate::DecodedFormat;

verus! {

/// The rt-format of surfaces with 8-bit 4:2:0 sampling.
pub const VA_RT_FORMAT_YUV420: u32 = 0x0000_0001;

/// The fourcc of the NV12 pixel layout.
pub const VA_FOURCC_NV12: u32 = 0x3231_564E;

/// The fourcc of the I420 pixel layout.
pub const VA_FOURCC_I420: u32 = 0x3032_3449;

/// The value of a configuration attribute that the hardware does not
/// support.
pub const VA_ATTRIB_NOT_SUPPORTED: u32 = 0x8000_0000;

/// An image format as the hardware enumerates it.
#[derive(Copy, Clone, Debug, PartialEq, Eq, Structural)]
pub struct ImageFormat {
    pub fourcc: u32,
    pub byte_order: u32,
    pub bits_per_pixel: u32,
    pub depth: u32,
    pub red_mask: u32,
    pub green_mask: u32,
    pub blue_mask: u32,
    pub alpha_mask: u32,
}

/// One way to export surfaces of an rt-format: the fourcc to map them into
/// and the decoded format that this gives.
#[derive(Copy, Clone, Debug, PartialEq, Eq, Hash, Structural)]
pub struct FormatMap {
    pub rt_format: u32,
    pub va_fourcc: u32,
    pub decoded_format: DecodedFormat,
}

/// Maps a given rt-format to the compatible decoded formats, in order of
/// preference.
pub open spec fn format_map() -> Seq<FormatMap> {
    seq![
        FormatMap {
            rt_format: VA_RT_FORMAT_YUV420,
            va_fourcc: VA_FOURCC_NV12,
            decoded_format: DecodedFormat::NV12,
        },
        FormatMap {
            rt_format: VA_RT_FORMAT_YUV420,
            va_fourcc: VA_FOURCC_I420,
            decoded_format: DecodedFormat::I420,
        },
    ]
}

/// The first entry of `table` for `rt_format`, if there is one.
pub open spec fn first_for_rt_format(table: Seq<FormatMap>, rt_format: u32) -> Option<FormatMap>
    decreases table.len(),
{
    if table.len() == 0 {
        None
    } else if table[0].rt_format == rt_format {
        Some(table[0])
    } else {
        first_for_rt_format(table.drop_first(), rt_format)
    }
}

/// The first entry of `table` that gives `format`, if there is one.
pub open spec fn first_for_decoded_format(table: Seq<FormatMap>, format: DecodedFormat) -> Option<
    FormatMap,
>
    decreases table.len(),
{
    if table.len() == 0 {
        None
    } else if table[0].decoded_format == format {
        Some(table[0])
    } else {
        first_for_decoded_format(table.drop_first(), format)
    }
}

/// Whether `image_formats` holds a format of the given fourcc.
pub open spec fn has_fourcc(image_formats: Seq<ImageFormat>, fourcc: u32) -> bool {
    exists|i: int| 0 <= i < image_formats.len() && (#[trigger] image_formats[i]).fourcc == fourcc
}

/// The first format of the given fourcc in `image_formats`, if there is one.
pub open spec fn first_with_fourcc(image_formats: Seq<ImageFormat>, fourcc: u32) -> Option<
    ImageFormat,
>
    decreases image_formats.len(),
{
    if image_formats.len() == 0 {
        None
    } else if image_formats[0].fourcc == fourcc {
        Some(image_formats[0])
    } else {
        first_with_fourcc(image_formats.drop_first(), fourcc)
    }
}

/// Whether an rt-format attribute of value `attrib`, as the hardware reports
/// it for a profile and an entrypoint, advertises `rt_format`.
pub open spec fn rt_format_advertised(attrib: u32, rt_format: u32) -> bool {
    attrib != VA_ATTRIB_NOT_SUPPORTED && attrib & rt_format != 0
}

/// Whether `entry` exports surfaces of `rt_format` into a format that is
/// among `image_formats`.
pub open spec fn is_supported_entry(
    entry: FormatMap,
    rt_format: u32,
    image_formats: Seq<ImageFormat>,
) -> bool {
    entry.rt_format == rt_format && has_fourcc(image_formats, entry.va_fourcc)
}

/// The entries of the format table for `rt_format` that the hardware can
/// map into, in the table's order.
pub open spec fn supported_format_maps(rt_format: u32, image_formats: Seq<ImageFormat>) -> Seq<
    FormatMap,
> {
    format_map().filter(|entry: FormatMap| is_supported_entry(entry, rt_format, image_formats))
}

/// The decoded formats of `supported_format_maps`.
pub open spec fn supported_decoded_formats(
    rt_format: u32,
    image_formats: Seq<ImageFormat>,
) -> Seq<DecodedFormat> {
    supported_format_maps(rt_format, image_formats).map_values(
        |entry: FormatMap| entry.decoded_format,
    )
}

/// The supported entries of the format table are those entries of the table
/// that are supported, each of them once, and no two of them give the same
/// decoded format: the supported formats are a set.
pub proof fn lemma_supported_formats_distinct(rt_format: u32, image_formats: Seq<ImageFormat>)
    ensures
        supported_format_maps(rt_format, image_formats).no_duplicates(),
        supported_decoded_formats(rt_format, image_formats).no_duplicates(),
        forall|entry: FormatMap|
            supported_format_maps(rt_format, image_formats).contains(entry) <==> format_map().contains(
                entry,
            ) && is_supported_entry(entry, rt_format, image_formats),
        forall|format: DecodedFormat|
            supported_decoded_formats(rt_format, image_formats).contains(format) <==> exists|
                entry: FormatMap,
            |
                format_map().contains(entry) && is_supported_entry(entry, rt_format, image_formats)
                    && entry.decoded_format == format,
{
    let table = format_map();
    let pred = |entry: FormatMap| is_supported_entry(entry, rt_format, image_formats);
    let supported = supported_format_maps(rt_format, image_formats);
    let decoded = supported_decoded_formats(rt_format, image_formats);
    // The table has two entries, so that the supported entries are one of
    // four sequences.
    reveal_with_fuel(Seq::filter, 3);
    assert forall|entry: FormatMap|
        supported.contains(entry) <==> table.contains(entry) && pred(entry) by {
        if table.contains(entry) && pred(entry) {
            let i = choose|i: int| 0 <= i < table.len() && table[i] == entry;
            assert(supported[0] == entry || supported[supported.len() - 1] == entry);
        }
    }
    assert forall|format: DecodedFormat|
        decoded.contains(format) <==> exists|entry: FormatMap|
            table.contains(entry) && pred(entry) && entry.decoded_format == format by {
        if decoded.contains(format) {
            let i = choose|i: int| 0 <= i < decoded.len() && decoded[i] == format;
            assert(table.contains(supported[i]) && pred(supported[i]));
        }
        if exists|entry: FormatMap|
            table.contains(entry) && pred(entry) && entry.decoded_format == format {
            let entry = choose|entry: FormatMap|
                table.contains(entry) && pred(entry) && entry.decoded_format == format;
            let i = choose|i: int| 0 <= i < supported.len() && supported[i] == entry;
            assert(decoded[i] == format);
        }
    }
}

/// The number of entries of the format table.
pub const FORMAT_MAP_LEN: usize = 2;

/// The format table.
pub fn format_map_entries() -> (table: [FormatMap; FORMAT_MAP_LEN])
    ensures
        table@ == format_map(),
{
    let table = [
        FormatMap {
            rt_format: VA_RT_FORMAT_YUV420,
            va_fourcc: VA_FOURCC_NV12,
            decoded_format: DecodedFormat::NV12,
        },
        FormatMap {
            rt_format: VA_RT_FORMAT_YUV420,
            va_fourcc: VA_FOURCC_I420,
            decoded_format: DecodedFormat::I420,
        },
    ];
    table
}

/// Picks the preferred way to export surfaces of `rt_format`.
pub fn default_format_map(rt_format: u32) -> (r: Option<FormatMap>)
    ensures
        r == first_for_rt_format(format_map(), rt_format),
{
    let table = format_map_entries();
    let mut i: usize = 0;
    assert(format_map().skip(0) =~= format_map());
    while i < FORMAT_MAP_LEN
        invariant
            0 <= i <= FORMAT_MAP_LEN,
            table@ == format_map(),
            first_for_rt_format(format_map(), rt_format) == first_for_rt_format(
                format_map().skip(i as int),
                rt_format,
            ),
        decreases FORMAT_MAP_LEN - i,
    {
        let entry = table[i];
        let ghost rest = format_map().skip(i as int);
        assert(rest.drop_first() =~= format_map().skip(i + 1));
        if entry.rt_format == rt_format {
            return Some(entry);
        }
        i = i + 1;
    }
    None
}

/// Picks the way to export into `format`.
pub fn format_map_for(format: DecodedFormat) -> (r: FormatMap)
    ensures
        first_for_decoded_format(format_map(), format) == Some(r),
        r.decoded_format == format,
{
    let table = format_map_entries();
    proof {
        reveal_with_fuel(first_for_decoded_format, 3);
    }
    match format {
        DecodedFormat::NV12 => table[0],
        DecodedFormat::I420 => table[1],
    }
}

/// Looks `fourcc` up among the image formats of the hardware.
pub fn find_image_format(image_formats: &[ImageFormat], fourcc: u32) -> (r: Option<ImageFormat>)
    ensures
        r == first_with_fourcc(image_formats@, fourcc),
        r is Some <==> has_fourcc(image_formats@, fourcc),
        r is Some ==> r->0.fourcc == fourcc,
{
    let mut i: usize = 0;
    assert(image_formats@.skip(0) =~= image_formats@);
    while i < image_formats.len()
        invariant
            0 <= i <= image_formats.len(),
            first_with_fourcc(image_formats@, fourcc) == first_with_fourcc(
                image_formats@.skip(i as int),
                fourcc,
            ),
            forall|j: int| 0 <= j < i ==> (#[trigger] image_formats@[j]).fourcc != fourcc,
        decreases image_formats.len() - i,
    {
        let format = image_formats[i];
        let ghost rest = image_formats@.skip(i as int);
        assert(rest.drop_first() =~= image_formats@.skip(i + 1));
        if format.fourcc == fourcc {
            return Some(format);
        }
        i = i + 1;
    }
    None
}

impl<'a> TryFrom<&'a ImageFormat> for DecodedFormat {
    type Error = Error;

    fn try_from(value: &'a ImageFormat) -> (r: Result<Self, Self::Error>) {
        if value.fourcc == VA_FOURCC_NV12 {
            Ok(DecodedFormat::NV12)
        } else if value.fourcc == VA_FOURCC_I420 {
            Ok(DecodedFormat::I420)
        } else {
            Err(Error::UnsupportedFormat)
        }
    }
}

impl<'a> vstd::std_specs::convert::TryFromSpecImpl<&'a ImageFormat> for DecodedFormat {
    open spec fn obeys_try_from_spec() -> bool {
        true
    }

    open spec fn try_from_spec(value: &'a ImageFormat) -> Result<Self, Self::Error> {
        decoded_format_of(value.fourcc)
    }
}

/// The decoded format that images of the given fourcc are in.
pub open spec fn decoded_format_of(fourcc: u32) -> Result<DecodedFormat, Error> {
    if fourcc == VA_FOURCC_NV12 {
        Ok(DecodedFormat::NV12)
    } else if fourcc == VA_FOURCC_I420 {
        Ok(DecodedFormat::I420)
    } else {
        Err(Error::UnsupportedFormat)
    }
}

/// Returns the entries of the format table through which surfaces of
/// `rt_format` can be exported.
///
/// `rt_format_attrib` is the value of the rt-format attribute that the
/// hardware reports for the stream's profile and entrypoint, and
/// `image_formats` are the image formats that it enumerates. Fails if the
/// attribute does not advertise `rt_format`.
pub fn supported_formats_for_rt_format(
    rt_format_attrib: u32,
    rt_format: u32,
    image_formats: &[ImageFormat],
) -> (r: Result<Vec<FormatMap>, Error>)
    ensures
        match r {
            Ok(formats) => {
                &&& rt_format_advertised(rt_format_attrib, rt_format)
                &&& formats@ == supported_format_maps(rt_format, image_formats@)
                &&& formats@.no_duplicates()
            },
            Err(e) => !rt_format_advertised(rt_format_attrib, rt_format) && e
                == Error::NegotiationFailed(NegotiationError::RtFormatNotAdvertised),
        },
{
    if rt_format_attrib == VA_ATTRIB_NOT_SUPPORTED || rt_format_attrib & rt_format == 0 {
        return Err(Error::NegotiationFailed(NegotiationError::RtFormatNotAdvertised));
    }
    let table = format_map_entries();
    let ghost pred = |entry: FormatMap| is_supported_entry(entry, rt_format, image_formats@);
    let mut supported_formats: Vec<FormatMap> = Vec::new();
    let mut i: usize = 0;
    assert(format_map().take(0).filter(pred) =~= Seq::<FormatMap>::empty()) by {
        reveal(Seq::filter);
    }
    while i < FORMAT_MAP_LEN
        invariant
            0 <= i <= FORMAT_MAP_LEN,
            table@ == format_map(),
            pred == |entry: FormatMap| is_supported_entry(entry, rt_format, image_formats@),
            supported_formats@ == format_map().take(i as int).filter(pred),
        decreases FORMAT_MAP_LEN - i,
    {
        let entry = table[i];
        // Only retain those that the hardware can actually map into.
        let retained = entry.rt_format == rt_format && find_image_format(
            image_formats,
            entry.va_fourcc,
        ).is_some();
        proof {
            assert(format_map().take(i + 1) =~= format_map().take(i as int).push(entry));
            format_map().take(i as int).lemma_filter_push(entry, pred);
        }
        if retained {
            supported_formats.push(entry);
        }
        i = i + 1;
    }
    proof {
        assert(format_map().take(FORMAT_MAP_LEN as int) =~= format_map());
        lemma_supported_formats_distinct(rt_format, image_formats@);
    }
    Ok(supported_formats)
}

/// The decoded formats of `formats`, in the same order.
pub fn decoded_formats_of(formats: &Vec<FormatMap>) -> (r: Vec<DecodedFormat>)
    ensures
        r@ == formats@.map_values(|entry: FormatMap| entry.decoded_format),
{
    let mut decoded: Vec<DecodedFormat> = Vec::new();
    let mut i: usize = 0;
    while i < formats.len()
        invariant
            0 <= i <= formats.len(),
            decoded@ == formats@.take(i as int).map_values(
                |entry: FormatMap| entry.decoded_format,
            ),
        decreases formats.len() - i,
    {
        decoded.push(formats[i].decoded_format);
        i = i + 1;
    }
    decoded
}

/// Whether `format` is among `formats`.
pub fn contains_format(formats: &Vec<DecodedFormat>, format: DecodedFormat) -> (r: bool)
    ensures
        r == formats@.contains(format),
{
    let mut i: usize = 0;
    while i < formats.len()
        invariant
            0 <= i <= formats.len(),
            forall|j: int| 0 <= j < i ==> formats@[j] != format,
        decreases formats.len() - i,
    {
        if formats[i] == format {
            return true;
        }
        i = i + 1;
    }
    false
}

} // verus!
