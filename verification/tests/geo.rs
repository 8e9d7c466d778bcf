use exif::experimental::Writer;
use exif::{Field, In, Rational, Tag, Value};
use tokimo_app_image_cortex::error::AppError;
use tokimo_app_image_cortex::handlers::settings::GeoSettings;
use tokimo_app_image_cortex::services::exif_reader::ExifField;
use tokimo_app_image_cortex::services::geo::{
    extract_gps, gps_from_fields, plan_gps_analysis, plan_lookup, DmsCoordinate, GeoLookup,
};

fn rationals(v: &[(u32, u32)]) -> Option<ExifField> {
    Some(ExifField { rationals: Some(v.to_vec()), display: String::new() })
}

fn reference(s: &str) -> Option<ExifField> {
    Some(ExifField { rationals: None, display: s.into() })
}

fn settings(provider: &str) -> GeoSettings {
    GeoSettings {
        provider: provider.into(),
        amap_api_key: Some("ak".into()),
        amap_secret: Some("as".into()),
        qqmap_api_key: None,
        qqmap_secret_key: Some("qs".into()),
        tianditu_server_key: Some("tk".into()),
        mapbox_access_token: None,
        maptiler_api_key: Some("mk".into()),
    }
}

fn tiff_with_gps(lat_ref: &[u8], lon_ref: &[u8], lat: Vec<Rational>, lon: Vec<Rational>) -> Vec<u8> {
    let fields = vec![
        Field { tag: Tag::GPSLatitudeRef, ifd_num: In::PRIMARY, value: Value::Ascii(vec![lat_ref.to_vec()]) },
        Field { tag: Tag::GPSLatitude, ifd_num: In::PRIMARY, value: Value::Rational(lat) },
        Field { tag: Tag::GPSLongitudeRef, ifd_num: In::PRIMARY, value: Value::Ascii(vec![lon_ref.to_vec()]) },
        Field { tag: Tag::GPSLongitude, ifd_num: In::PRIMARY, value: Value::Rational(lon) },
    ];
    let mut writer = Writer::new();
    for f in &fields {
        writer.push_field(f);
    }
    let mut buf = std::io::Cursor::new(Vec::new());
    writer.write(&mut buf, false).unwrap();
    buf.into_inner()
}

fn r(num: u32, denom: u32) -> Rational {
    Rational { num, denom }
}

#[test]
fn fix_from_fields_with_signs() {
    let fix = gps_from_fields(
        rationals(&[(33, 1), (51, 1), (2160, 100)]),
        reference("S"),
        rationals(&[(151, 1), (12, 1), (4000, 100), (9, 9)]),
        reference("E"),
    )
    .unwrap();
    assert_eq!(fix.latitude, DmsCoordinate { degrees: (33, 1), minutes: (51, 1), seconds: (2160, 100), negative: true });
    assert_eq!(fix.longitude, DmsCoordinate { degrees: (151, 1), minutes: (12, 1), seconds: (4000, 100), negative: false });
}

#[test]
fn west_longitude_is_negative_and_missing_reference_is_positive() {
    let fix = gps_from_fields(rationals(&[(1, 1), (2, 1), (3, 1)]), None, rationals(&[(4, 1), (5, 1), (6, 1)]), reference("W"))
        .unwrap();
    assert!(!fix.latitude.negative);
    assert!(fix.longitude.negative);
}

#[test]
fn too_few_rationals_is_no_gps() {
    let r = gps_from_fields(rationals(&[(1, 1), (2, 1)]), reference("N"), rationals(&[(4, 1), (5, 1), (6, 1)]), reference("E"));
    match r {
        Err(AppError::BadRequest(m)) => assert_eq!(m, "No GPS data found in image"),
        other => panic!("unexpected {other:?}"),
    }
    assert!(gps_from_fields(None, None, None, None).is_err());
}

#[test]
fn empty_file_has_no_exif() {
    match extract_gps(&[]) {
        Err(AppError::Internal(m)) => assert!(m.starts_with("EXIF read error: "), "{m}"),
        other => panic!("unexpected {other:?}"),
    }
}

#[test]
fn exif_error_text_follows_prefix() {
    for bytes in [&b""[..], &b"plain text, no image"[..]] {
        let reader_error = match exif::Reader::new().read_from_container(&mut std::io::Cursor::new(bytes)) {
            Err(e) => e,
            Ok(_) => panic!("no EXIF data expected"),
        };
        match extract_gps(bytes) {
            Err(AppError::Internal(m)) => assert_eq!(m, format!("EXIF read error: {reader_error}")),
            other => panic!("unexpected {other:?}"),
        }
    }
}

#[test]
fn gps_read_from_tiff() {
    let bytes = tiff_with_gps(b"S", b"W", vec![r(35, 1), r(40, 1), r(3000, 100)], vec![r(139, 1), r(45, 1), r(1, 2)]);
    let fix = extract_gps(&bytes).unwrap();
    assert_eq!(fix.latitude, DmsCoordinate { degrees: (35, 1), minutes: (40, 1), seconds: (3000, 100), negative: true });
    assert_eq!(fix.longitude, DmsCoordinate { degrees: (139, 1), minutes: (45, 1), seconds: (1, 2), negative: true });
}

#[test]
fn gps_read_from_tiff_north_east() {
    let bytes = tiff_with_gps(b"N", b"E", vec![r(1, 1), r(2, 1), r(3, 1)], vec![r(4, 1), r(5, 1), r(6, 1)]);
    let fix = extract_gps(&bytes).unwrap();
    assert!(!fix.latitude.negative);
    assert!(!fix.longitude.negative);
}

#[test]
fn tiff_without_position_is_no_gps() {
    let bytes = tiff_with_gps(b"N", b"E", vec![r(1, 1)], vec![r(4, 1), r(5, 1), r(6, 1)]);
    match extract_gps(&bytes) {
        Err(AppError::BadRequest(m)) => assert_eq!(m, "No GPS data found in image"),
        other => panic!("unexpected {other:?}"),
    }
}

#[test]
fn lookup_per_provider() {
    assert_eq!(plan_lookup(&settings("amap")).unwrap(), GeoLookup::Amap { key: "ak".into(), secret: Some("as".into()) });
    assert_eq!(plan_lookup(&settings("qqmap")).unwrap(), GeoLookup::CoordinatesOnly);
    assert_eq!(plan_lookup(&settings("tianditu")).unwrap(), GeoLookup::Tianditu { key: "tk".into() });
    assert_eq!(plan_lookup(&settings("mapbox")).unwrap(), GeoLookup::CoordinatesOnly);
    assert_eq!(plan_lookup(&settings("maptiler")).unwrap(), GeoLookup::Maptiler { key: "mk".into() });
}

#[test]
fn unknown_provider_is_internal_error() {
    match plan_lookup(&settings("google")) {
        Err(AppError::Internal(m)) => assert_eq!(m, "Unknown geo provider: google"),
        other => panic!("unexpected {other:?}"),
    }
}

#[test]
fn gps_error_comes_before_provider_error() {
    match plan_gps_analysis(&[], &settings("google")) {
        Err(AppError::Internal(m)) => assert!(m.starts_with("EXIF read error: ")),
        other => panic!("unexpected {other:?}"),
    }
    let bytes = tiff_with_gps(b"N", b"E", vec![r(1, 1), r(2, 1), r(3, 1)], vec![r(4, 1), r(5, 1), r(6, 1)]);
    match plan_gps_analysis(&bytes, &settings("google")) {
        Err(AppError::Internal(m)) => assert_eq!(m, "Unknown geo provider: google"),
        other => panic!("unexpected {other:?}"),
    }
    let plan = plan_gps_analysis(&bytes, &settings("amap")).unwrap();
    assert_eq!(plan.lookup, GeoLookup::Amap { key: "ak".into(), secret: Some("as".into()) });
    assert_eq!(plan.fix.latitude.degrees, (1, 1));
}
