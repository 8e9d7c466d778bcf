//! Reading the GPS fields of an image's EXIF data with the `exif` crate.
//!
//! What the crate makes of the bytes is not restated here: it is named, as a
//! function of the bytes alone, by the spec functions without a body below.

use vstd::prelude::*;

verus! {

/// EXIF data parsed from an image.
#[verifier::external_type_specification]
#[verifier::external_body]
pub struct ExExif(exif::Exif);

/// An error of the EXIF reader.
#[verifier::external_type_specification]
#[verifier::external_body]
pub struct ExExifError(exif::Error);

/// The GPS fields that the position is read from.
#[derive(Debug, Clone, Copy, PartialEq, Eq)]
pub enum GpsTag {
    Latitude,
    LatitudeRef,
    Longitude,
    LongitudeRef,
}

/// One field as the library reads it: its rational numbers (numerator,
/// denominator) where the field holds rationals, and the text that the EXIF
/// reader displays for it.
#[derive(Debug, Clone, PartialEq, Eq)]
pub struct ExifField {
    pub rationals: Option<Vec<(u32, u32)>>,
    pub display: String,
}

impl View for ExifField {
    type V = (Option<Seq<(u32, u32)>>, Seq<char>);

    open spec fn view(&self) -> Self::V {
        (
            match self.rationals {
                Some(v) => Some(v@),
                None => None,
            },
            self.display@,
        )
    }
}

/// Whether the EXIF reader finds EXIF data in a file with these bytes.
pub uninterp spec fn exif_container_readable(bytes: Seq<u8>) -> bool;

/// The text (`Display`) of the error that the EXIF reader gives on a file
/// with these bytes, where it finds no EXIF data in it.
pub uninterp spec fn exif_read_error_text(bytes: Seq<u8>) -> Seq<char>;

/// The field that the EXIF reader finds under `tag` in the primary image of a
/// file with these bytes, if the file is readable and has such a field.
pub uninterp spec fn exif_gps_field(bytes: Seq<u8>, tag: GpsTag) -> Option<(Option<Seq<(u32, u32)>>, Seq<char>)>;

/// EXIF data read from an image, together with the bytes it was read from.
/// Only `read_exif` makes one, so `source` is always the bytes that `inner`
/// was parsed from.
pub struct ExifData {
    inner: exif::Exif,
    source: Ghost<Seq<u8>>,
}

impl ExifData {
    /// The bytes of the file that this EXIF data was read from.
    pub closed spec fn source(&self) -> Seq<u8> {
        self.source@
    }
}

/// `exif::Reader::read_from_container` on the bytes of an image file: the
/// result is `Ok` exactly on the files that the reader finds EXIF data in,
/// the data keeps the bytes it was read from, and the text of the error is the
/// one named for the bytes.
#[verifier::external_body]
pub(crate) fn read_exif(bytes: &[u8]) -> (r: Result<ExifData, exif::Error>)
    ensures
        r is Ok <==> exif_container_readable(bytes@),
        r matches Ok(d) ==> d.source() == bytes@,
        r matches Err(e) ==> forall|t: String|
            #[trigger] vstd::string::to_string_from_display_ensures(&e, t) ==> t@ == exif_read_error_text(bytes@),
{
    let mut cursor = std::io::Cursor::new(bytes);
    match exif::Reader::new().read_from_container(&mut cursor) {
        Ok(inner) => Ok(ExifData { inner, source: Ghost(bytes@) }),
        Err(e) => Err(e),
    }
}

/// `exif::Exif::get_field` for a GPS tag in the primary image, the field's
/// value taken as rationals where it is a rational value, and its
/// `display_value` as text: the result is the field named for the bytes the
/// data was read from.
#[verifier::external_body]
pub(crate) fn gps_field(data: &ExifData, tag: GpsTag) -> (r: Option<ExifField>)
    ensures
        match r {
            Some(f) => exif_gps_field(data.source(), tag) == Some(f@),
            None => exif_gps_field(data.source(), tag) is None,
        },
{
    let tag = match tag {
        GpsTag::Latitude => exif::Tag::GPSLatitude,
        GpsTag::LatitudeRef => exif::Tag::GPSLatitudeRef,
        GpsTag::Longitude => exif::Tag::GPSLongitude,
        GpsTag::LongitudeRef => exif::Tag::GPSLongitudeRef,
    };
    let field = data.inner.get_field(tag, exif::In::PRIMARY)?;
    let rationals = match &field.value {
        exif::Value::Rational(v) => Some(v.iter().map(|x| (x.num, x.denom)).collect()),
        _ => None,
    };
    Some(ExifField { rationals, display: field.display_value().to_string() })
}

} // verus!
