//! GPS position from EXIF data and the choice of reverse geocoding service.

use vstd::prelude::*;
use crate::error::AppError;
use crate::handlers::settings::GeoSettings;
use crate::services::exif_reader::{
    exif_container_readable, exif_gps_field, exif_read_error_text, gps_field, read_exif, ExifField, GpsTag,
};
use crate::text::same_text;

verus! {

broadcast use vstd::string::group_string_axioms;

/// The place that reverse geocoding names for a position.
#[derive(Debug, Clone, PartialEq, Eq)]
pub struct GeoAddress {
    pub province: Option<String>,
    pub city: Option<String>,
    pub district: Option<String>,
    pub formatted_address: Option<String>,
}

/// A coordinate as EXIF stores it: degrees, minutes and seconds, each a
/// rational number (numerator, denominator), and whether it lies south of the
/// equator or west of the prime meridian.
#[derive(Debug, Clone, Copy, PartialEq, Eq)]
pub struct DmsCoordinate {
    pub degrees: (u32, u32),
    pub minutes: (u32, u32),
    pub seconds: (u32, u32),
    pub negative: bool,
}

/// The position of an image.
#[derive(Debug, Clone, Copy, PartialEq, Eq)]
pub struct GpsFix {
    pub latitude: DmsCoordinate,
    pub longitude: DmsCoordinate,
}

/// A field's view: its rationals, if any, and its displayed text.
pub type FieldView = (Option<Seq<(u32, u32)>>, Seq<char>);

/// The degrees, minutes and seconds in a field: its first three rationals,
/// where the field holds at least three.
pub open spec fn dms_of(field: Option<FieldView>) -> Option<((u32, u32), (u32, u32), (u32, u32))> {
    match field {
        Some((Some(rs), _)) => if rs.len() >= 3 {
            Some((rs[0], rs[1], rs[2]))
        } else {
            None
        },
        _ => None,
    }
}

/// Whether a reference field is present and displays exactly `letter`.
pub open spec fn ref_is(field: Option<FieldView>, letter: Seq<char>) -> bool {
    match field {
        Some((_, text)) => text == letter,
        None => false,
    }
}

/// Whether a position can be read from these four fields: both coordinates
/// hold degrees, minutes and seconds.
pub open spec fn has_position(lat: Option<FieldView>, lon: Option<FieldView>) -> bool {
    dms_of(lat) is Some && dms_of(lon) is Some
}

/// The coordinate read from a field and its reference field; the coordinate is
/// negative when the reference is `negative_ref`.
pub open spec fn coordinate_of(
    field: Option<FieldView>,
    reference: Option<FieldView>,
    negative_ref: Seq<char>,
) -> DmsCoordinate {
    let d = dms_of(field).unwrap();
    DmsCoordinate { degrees: d.0, minutes: d.1, seconds: d.2, negative: ref_is(reference, negative_ref) }
}

/// The position read from the four GPS fields, where there is one: latitude
/// is negative when its reference is `S`, longitude when its reference is `W`.
pub open spec fn fix_of(
    lat: Option<FieldView>,
    lat_ref: Option<FieldView>,
    lon: Option<FieldView>,
    lon_ref: Option<FieldView>,
) -> GpsFix {
    GpsFix {
        latitude: coordinate_of(lat, lat_ref, "S"@),
        longitude: coordinate_of(lon, lon_ref, "W"@),
    }
}

/// How a position is read from the four GPS fields: there is one exactly when
/// latitude and longitude each hold at least three rationals; its degrees,
/// minutes and seconds are the first three rationals of each; the latitude is
/// negative exactly when its own reference displays `S`, and the longitude is
/// negative exactly when its own reference displays `W`, whatever the other
/// reference holds.
pub proof fn lemma_gps_fix_reads_each_field(
    lat: Option<FieldView>,
    lat_ref: Option<FieldView>,
    lon: Option<FieldView>,
    lon_ref: Option<FieldView>,
)
    ensures
        has_position(lat, lon) <==> (lat is Some && lat.unwrap().0 is Some && lat.unwrap().0.unwrap().len() >= 3
            && lon is Some && lon.unwrap().0 is Some && lon.unwrap().0.unwrap().len() >= 3),
        has_position(lat, lon) ==> {
            let fix = fix_of(lat, lat_ref, lon, lon_ref);
            let a = lat.unwrap().0.unwrap();
            let o = lon.unwrap().0.unwrap();
            &&& fix.latitude.degrees == a[0]
            &&& fix.latitude.minutes == a[1]
            &&& fix.latitude.seconds == a[2]
            &&& fix.longitude.degrees == o[0]
            &&& fix.longitude.minutes == o[1]
            &&& fix.longitude.seconds == o[2]
            &&& (fix.latitude.negative <==> (lat_ref is Some && lat_ref.unwrap().1 == "S"@))
            &&& (fix.longitude.negative <==> (lon_ref is Some && lon_ref.unwrap().1 == "W"@))
        },
{
}

/// The view of an optional field.
pub open spec fn field_view(f: Option<ExifField>) -> Option<FieldView> {
    match f {
        Some(f) => Some(f@),
        None => None,
    }
}

fn dms(field: &Option<ExifField>) -> (r: Option<((u32, u32), (u32, u32), (u32, u32))>)
    ensures
        r == dms_of(field_view(*field)),
{
    match field {
        Some(f) => match &f.rationals {
            Some(rs) => if rs.len() >= 3 {
                Some((rs[0], rs[1], rs[2]))
            } else {
                None
            },
            None => None,
        },
        None => None,
    }
}

fn reference_is(field: &Option<ExifField>, letter: &str) -> (r: bool)
    ensures
        r == ref_is(field_view(*field), letter@),
{
    match field {
        Some(f) => same_text(f.display.as_str(), letter),
        None => false,
    }
}

/// The position of an image from its GPS fields, as the EXIF reader found
/// them: `Ok` exactly when latitude and longitude each hold at least three
/// rationals (degrees, minutes, seconds), with latitude negative when its
/// reference displays `S` and longitude negative when its reference displays
/// `W`; otherwise a bad request, "No GPS data found in image".
pub fn gps_from_fields(
    lat: Option<ExifField>,
    lat_ref: Option<ExifField>,
    lon: Option<ExifField>,
    lon_ref: Option<ExifField>,
) -> (r: Result<GpsFix, AppError>)
    ensures
        r is Ok <==> has_position(field_view(lat), field_view(lon)),
        r matches Ok(fix) ==> fix == fix_of(
            field_view(lat),
            field_view(lat_ref),
            field_view(lon),
            field_view(lon_ref),
        ),
        r matches Err(e) ==> e matches AppError::BadRequest(m) && m@ == "No GPS data found in image"@,
{
    let lat_dms = dms(&lat);
    let lon_dms = dms(&lon);
    match (lat_dms, lon_dms) {
        (Some(a), Some(o)) => {
            let south = reference_is(&lat_ref, "S");
            let west = reference_is(&lon_ref, "W");
            Ok(GpsFix {
                latitude: DmsCoordinate { degrees: a.0, minutes: a.1, seconds: a.2, negative: south },
                longitude: DmsCoordinate { degrees: o.0, minutes: o.1, seconds: o.2, negative: west },
            })
        },
        _ => Err(AppError::BadRequest(String::from_str("No GPS data found in image"))),
    }
}

/// The position of an image from the bytes of its file: an internal error
/// "EXIF read error: " followed by the reader's error text when the EXIF reader finds no
/// EXIF data in the file, else what `gps_from_fields` gives for the GPS fields
/// that the reader finds there.
pub fn extract_gps(image_bytes: &[u8]) -> (r: Result<GpsFix, AppError>)
    ensures
        !exif_container_readable(image_bytes@) ==> (r matches Err(AppError::Internal(m))
            && m@ == "EXIF read error: "@ + exif_read_error_text(image_bytes@)),
        exif_container_readable(image_bytes@) ==> {
            let lat = exif_gps_field(image_bytes@, GpsTag::Latitude);
            let lat_ref = exif_gps_field(image_bytes@, GpsTag::LatitudeRef);
            let lon = exif_gps_field(image_bytes@, GpsTag::Longitude);
            let lon_ref = exif_gps_field(image_bytes@, GpsTag::LongitudeRef);
            &&& r is Ok <==> has_position(lat, lon)
            &&& r matches Ok(fix) ==> fix == fix_of(lat, lat_ref, lon, lon_ref)
            &&& r matches Err(e) ==> e matches AppError::BadRequest(m) && m@ == "No GPS data found in image"@
        },
{
    match read_exif(image_bytes) {
        Err(e) => {
            let t = e.to_string();
            Err(AppError::Internal(String::from_str("EXIF read error: ").concat(t.as_str())))
        },
        Ok(data) => {
            let lat = gps_field(&data, GpsTag::Latitude);
            let lat_ref = gps_field(&data, GpsTag::LatitudeRef);
            let lon = gps_field(&data, GpsTag::Longitude);
            let lon_ref = gps_field(&data, GpsTag::LongitudeRef);
            gps_from_fields(lat, lat_ref, lon, lon_ref)
        },
    }
}

/// The reverse geocoding request that the settings call for.
#[derive(Debug, Clone, PartialEq, Eq)]
pub enum GeoLookup {
    /// No lookup: the position alone is answered, for want of a key.
    CoordinatesOnly,
    Amap { key: String, secret: Option<String> },
    Qqmap { key: String, secret: Option<String> },
    Tianditu { key: String },
    Mapbox { token: String },
    Maptiler { key: String },
}

/// The providers that the settings may name.
pub open spec fn known_provider(p: Seq<char>) -> bool {
    ||| p == "amap"@
    ||| p == "qqmap"@
    ||| p == "tianditu"@
    ||| p == "mapbox"@
    ||| p == "maptiler"@
}

/// The lookup that settings with a known provider call for: that provider's
/// request with its key (and secret, where it takes one), or no lookup where
/// the key is missing.
pub open spec fn lookup_of(s: GeoSettings) -> GeoLookup {
    if s.provider@ == "amap"@ {
        match s.amap_api_key {
            Some(key) => GeoLookup::Amap { key, secret: s.amap_secret },
            None => GeoLookup::CoordinatesOnly,
        }
    } else if s.provider@ == "qqmap"@ {
        match s.qqmap_api_key {
            Some(key) => GeoLookup::Qqmap { key, secret: s.qqmap_secret_key },
            None => GeoLookup::CoordinatesOnly,
        }
    } else if s.provider@ == "tianditu"@ {
        match s.tianditu_server_key {
            Some(key) => GeoLookup::Tianditu { key },
            None => GeoLookup::CoordinatesOnly,
        }
    } else if s.provider@ == "mapbox"@ {
        match s.mapbox_access_token {
            Some(token) => GeoLookup::Mapbox { token },
            None => GeoLookup::CoordinatesOnly,
        }
    } else {
        match s.maptiler_api_key {
            Some(key) => GeoLookup::Maptiler { key },
            None => GeoLookup::CoordinatesOnly,
        }
    }
}

fn cloned_text(s: &Option<String>) -> (r: Option<String>)
    ensures
        r == *s,
{
    match s {
        Some(v) => Some(v.clone()),
        None => None,
    }
}

/// The reverse geocoding request for the settings: for a known provider
/// (`amap`, `qqmap`, `tianditu`, `mapbox`, `maptiler`) its request with its
/// key, or no lookup where its key is missing; for any other provider an
/// internal error "Unknown geo provider: " followed by the provider's name.
pub fn plan_lookup(settings: &GeoSettings) -> (r: Result<GeoLookup, AppError>)
    ensures
        r is Ok <==> known_provider(settings.provider@),
        r matches Ok(l) ==> l == lookup_of(*settings),
        r matches Err(e) ==> e matches AppError::Internal(m)
            && m@ == "Unknown geo provider: "@ + settings.provider@,
{
    let p = settings.provider.as_str();
    if same_text(p, "amap") {
        match &settings.amap_api_key {
            Some(key) => Ok(GeoLookup::Amap { key: key.clone(), secret: cloned_text(&settings.amap_secret) }),
            None => Ok(GeoLookup::CoordinatesOnly),
        }
    } else if same_text(p, "qqmap") {
        match &settings.qqmap_api_key {
            Some(key) => Ok(GeoLookup::Qqmap { key: key.clone(), secret: cloned_text(&settings.qqmap_secret_key) }),
            None => Ok(GeoLookup::CoordinatesOnly),
        }
    } else if same_text(p, "tianditu") {
        match &settings.tianditu_server_key {
            Some(key) => Ok(GeoLookup::Tianditu { key: key.clone() }),
            None => Ok(GeoLookup::CoordinatesOnly),
        }
    } else if same_text(p, "mapbox") {
        match &settings.mapbox_access_token {
            Some(token) => Ok(GeoLookup::Mapbox { token: token.clone() }),
            None => Ok(GeoLookup::CoordinatesOnly),
        }
    } else if same_text(p, "maptiler") {
        match &settings.maptiler_api_key {
            Some(key) => Ok(GeoLookup::Maptiler { key: key.clone() }),
            None => Ok(GeoLookup::CoordinatesOnly),
        }
    } else {
        Err(AppError::Internal(String::from_str("Unknown geo provider: ").concat(p)))
    }
}

/// The lookup for each known provider: `amap`, `qqmap`, `tianditu`, `mapbox`
/// and `maptiler` are known; when the chosen provider's own key (token) is
/// present, the plan is that provider's request carrying that key, and its
/// secret where it takes one; no lookup is planned only when that key is
/// missing.
pub proof fn lemma_lookup_per_provider(s: GeoSettings)
    ensures
        known_provider("amap"@),
        known_provider("qqmap"@),
        known_provider("tianditu"@),
        known_provider("mapbox"@),
        known_provider("maptiler"@),
        s.provider@ == "amap"@ ==> match s.amap_api_key {
            Some(k) => lookup_of(s) == GeoLookup::Amap { key: k, secret: s.amap_secret },
            None => lookup_of(s) == GeoLookup::CoordinatesOnly,
        },
        s.provider@ == "qqmap"@ ==> match s.qqmap_api_key {
            Some(k) => lookup_of(s) == GeoLookup::Qqmap { key: k, secret: s.qqmap_secret_key },
            None => lookup_of(s) == GeoLookup::CoordinatesOnly,
        },
        s.provider@ == "tianditu"@ ==> match s.tianditu_server_key {
            Some(k) => lookup_of(s) == GeoLookup::Tianditu { key: k },
            None => lookup_of(s) == GeoLookup::CoordinatesOnly,
        },
        s.provider@ == "mapbox"@ ==> match s.mapbox_access_token {
            Some(t) => lookup_of(s) == GeoLookup::Mapbox { token: t },
            None => lookup_of(s) == GeoLookup::CoordinatesOnly,
        },
        s.provider@ == "maptiler"@ ==> match s.maptiler_api_key {
            Some(k) => lookup_of(s) == GeoLookup::Maptiler { key: k },
            None => lookup_of(s) == GeoLookup::CoordinatesOnly,
        },
{
    reveal_strlit("amap");
    reveal_strlit("qqmap");
    reveal_strlit("tianditu");
    reveal_strlit("mapbox");
    reveal_strlit("maptiler");
    assert("amap"@[0] == 'a' && "qqmap"@[0] == 'q' && "tianditu"@[0] == 't');
    assert("mapbox"@.len() == 6 && "maptiler"@.len() == 8 && "amap"@.len() == 4);
    assert("amap"@ != "qqmap"@ && "amap"@ != "tianditu"@ && "amap"@ != "mapbox"@ && "amap"@ != "maptiler"@);
    assert("qqmap"@ != "tianditu"@ && "qqmap"@ != "mapbox"@ && "qqmap"@ != "maptiler"@);
    assert("tianditu"@ != "mapbox"@ && "tianditu"@ != "maptiler"@ && "mapbox"@ != "maptiler"@);
}

/// The request that the settings call for rests on the chosen provider and
/// on that provider's own key and secret alone: settings that agree on these
/// call for the same request, whatever the keys of the other providers.
pub proof fn lemma_lookup_uses_only_chosen_provider(a: GeoSettings, b: GeoSettings)
    requires
        a.provider@ == b.provider@,
        a.provider@ == "amap"@ ==> a.amap_api_key == b.amap_api_key && a.amap_secret == b.amap_secret,
        a.provider@ == "qqmap"@ ==> a.qqmap_api_key == b.qqmap_api_key && a.qqmap_secret_key == b.qqmap_secret_key,
        a.provider@ == "tianditu"@ ==> a.tianditu_server_key == b.tianditu_server_key,
        a.provider@ == "mapbox"@ ==> a.mapbox_access_token == b.mapbox_access_token,
        a.provider@ == "maptiler"@ ==> a.maptiler_api_key == b.maptiler_api_key,
        known_provider(a.provider@),
    ensures
        lookup_of(a) == lookup_of(b),
{
}

/// What the GPS analysis of an image needs next: its position and the
/// reverse geocoding request for it.
#[derive(Debug, Clone, PartialEq, Eq)]
pub struct GeoPlan {
    pub fix: GpsFix,
    pub lookup: GeoLookup,
}

/// The GPS analysis of an image up to the geocoding call: first its position
/// (`extract_gps`, whose error comes first), then the geocoding request
/// (`plan_lookup`).
pub fn plan_gps_analysis(image_bytes: &[u8], settings: &GeoSettings) -> (r: Result<GeoPlan, AppError>)
    ensures
        !exif_container_readable(image_bytes@) ==> (r matches Err(AppError::Internal(m))
            && m@ == "EXIF read error: "@ + exif_read_error_text(image_bytes@)),
        exif_container_readable(image_bytes@) ==> {
            let lat = exif_gps_field(image_bytes@, GpsTag::Latitude);
            let lat_ref = exif_gps_field(image_bytes@, GpsTag::LatitudeRef);
            let lon = exif_gps_field(image_bytes@, GpsTag::Longitude);
            let lon_ref = exif_gps_field(image_bytes@, GpsTag::LongitudeRef);
            &&& !has_position(lat, lon) ==> (r matches Err(AppError::BadRequest(m))
                && m@ == "No GPS data found in image"@)
            &&& has_position(lat, lon) && !known_provider(settings.provider@) ==> (
                r matches Err(AppError::Internal(m)) && m@ == "Unknown geo provider: "@ + settings.provider@)
            &&& r is Ok <==> has_position(lat, lon) && known_provider(settings.provider@)
            &&& r matches Ok(plan) ==> plan.fix == fix_of(lat, lat_ref, lon, lon_ref)
                && plan.lookup == lookup_of(*settings)
        },
{
    let fix = match extract_gps(image_bytes) {
        Ok(f) => f,
        Err(e) => return Err(e),
    };
    match plan_lookup(settings) {
        Ok(lookup) => Ok(GeoPlan { fix, lookup }),
        Err(e) => Err(e),
    }
}

} // verus!
