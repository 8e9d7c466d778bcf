use tokimo_app_image_cortex::error::AppError;
use tokimo_app_image_cortex::handlers::settings::{
    AiSettings, AiSettingsOutput, GeoSettings, GeoSettingsOutput, TestGeoResponse, UpdateAiRequest,
    UpdateGeoRequest,
};
use tokimo_app_image_cortex::services::geo::GeoAddress;

fn stored() -> GeoSettings {
    GeoSettings {
        provider: "amap".into(),
        amap_api_key: Some("k1".into()),
        amap_secret: None,
        qqmap_api_key: Some("q1".into()),
        qqmap_secret_key: None,
        tianditu_server_key: None,
        mapbox_access_token: None,
        maptiler_api_key: None,
    }
}

fn empty_request() -> UpdateGeoRequest {
    UpdateGeoRequest {
        provider: None,
        amap_api_key: None,
        amap_secret: None,
        qqmap_api_key: None,
        qqmap_secret_key: None,
        tianditu_server_key: None,
        mapbox_access_token: None,
        maptiler_api_key: None,
    }
}

#[test]
fn geo_update_replaces_given_fields_only() {
    let mut req = empty_request();
    req.provider = Some("mapbox".into());
    req.mapbox_access_token = Some("tok".into());
    let updated = stored().apply_update(req);
    assert_eq!(updated.provider, "mapbox");
    assert_eq!(updated.mapbox_access_token.as_deref(), Some("tok"));
    assert_eq!(updated.amap_api_key.as_deref(), Some("k1"));
    assert_eq!(updated.qqmap_api_key.as_deref(), Some("q1"));
    assert_eq!(updated.amap_secret, None);
}

#[test]
fn empty_geo_update_keeps_settings() {
    assert_eq!(stored().apply_update(empty_request()), stored());
}

#[test]
fn geo_update_twice_is_once() {
    let mut req = empty_request();
    req.amap_secret = Some("s".into());
    let once = stored().apply_update(req.clone());
    let twice = once.clone().apply_update(req);
    assert_eq!(once, twice);
}

#[test]
fn geo_output_copies_every_field() {
    let out: GeoSettingsOutput = stored().into();
    assert_eq!(out.provider, "amap");
    assert_eq!(out.amap_api_key.as_deref(), Some("k1"));
    assert_eq!(out.qqmap_api_key.as_deref(), Some("q1"));
    assert_eq!(out.maptiler_api_key, None);
}

#[test]
fn ai_update_and_output() {
    let cur = AiSettings { ocr_model_name: "ppocr".into(), ocr_aux_model_name: None };
    let same = cur.clone().apply_update(UpdateAiRequest { ocr_model_name: None, ocr_aux_model_name: None });
    assert_eq!(same, cur);
    let next = cur.apply_update(UpdateAiRequest { ocr_model_name: None, ocr_aux_model_name: Some("aux".into()) });
    assert_eq!(next.ocr_model_name, "ppocr");
    let out: AiSettingsOutput = next.into();
    assert_eq!(out.ocr_model_name, "ppocr");
    assert_eq!(out.ocr_aux_model_name.as_deref(), Some("aux"));
}

#[test]
fn test_geo_answer_on_success() {
    let place = GeoAddress {
        province: Some("P".into()),
        city: Some("C".into()),
        district: None,
        formatted_address: Some("A".into()),
    };
    let r = TestGeoResponse::from_outcome(Ok(place));
    assert!(r.success);
    assert_eq!(r.city.as_deref(), Some("C"));
    assert_eq!(r.formatted_address.as_deref(), Some("A"));
    assert_eq!(r.error, None);
}

#[test]
fn test_geo_answer_on_failure() {
    let r = TestGeoResponse::from_outcome(Err(AppError::BadRequest("No GPS data found in image".into())));
    assert!(!r.success);
    assert_eq!(r.province, None);
    assert_eq!(r.error.as_deref(), Some("bad request: No GPS data found in image"));
}
