//! Geocoding and AI settings: partial updates and the answers that carry them.

use vstd::prelude::*;
use crate::error::AppError;
use crate::services::geo::GeoAddress;

verus! {

/// Settings of the reverse geocoding service.
#[derive(Debug, Clone, PartialEq, Eq)]
pub struct GeoSettings {
    pub provider: String,
    pub amap_api_key: Option<String>,
    pub amap_secret: Option<String>,
    pub qqmap_api_key: Option<String>,
    pub qqmap_secret_key: Option<String>,
    pub tianditu_server_key: Option<String>,
    pub mapbox_access_token: Option<String>,
    pub maptiler_api_key: Option<String>,
}

/// Settings of the AI models.
#[derive(Debug, Clone, PartialEq, Eq)]
pub struct AiSettings {
    pub ocr_model_name: String,
    pub ocr_aux_model_name: Option<String>,
}

/// The geocoding settings as they are answered.
#[derive(Debug, Clone, PartialEq, Eq)]
pub struct GeoSettingsOutput {
    pub provider: String,
    pub amap_api_key: Option<String>,
    pub amap_secret: Option<String>,
    pub qqmap_api_key: Option<String>,
    pub qqmap_secret_key: Option<String>,
    pub tianditu_server_key: Option<String>,
    pub mapbox_access_token: Option<String>,
    pub maptiler_api_key: Option<String>,
}

/// A partial update of the geocoding settings: a field that is given
/// replaces the stored one, a field that is absent leaves it as it is.
#[derive(Debug, Clone, PartialEq, Eq)]
pub struct UpdateGeoRequest {
    pub provider: Option<String>,
    pub amap_api_key: Option<String>,
    pub amap_secret: Option<String>,
    pub qqmap_api_key: Option<String>,
    pub qqmap_secret_key: Option<String>,
    pub tianditu_server_key: Option<String>,
    pub mapbox_access_token: Option<String>,
    pub maptiler_api_key: Option<String>,
}

/// The AI settings as they are answered.
#[derive(Debug, Clone, PartialEq, Eq)]
pub struct AiSettingsOutput {
    pub ocr_model_name: String,
    pub ocr_aux_model_name: Option<String>,
}

/// A partial update of the AI settings.
#[derive(Debug, Clone, PartialEq, Eq)]
pub struct UpdateAiRequest {
    pub ocr_model_name: Option<String>,
    pub ocr_aux_model_name: Option<String>,
}

/// The answer to a trial of the geocoding settings.
#[derive(Debug, Clone, PartialEq, Eq)]
pub struct TestGeoResponse {
    pub success: bool,
    pub province: Option<String>,
    pub city: Option<String>,
    pub district: Option<String>,
    pub formatted_address: Option<String>,
    pub error: Option<String>,
}

/// The given value if there is one, else the current one.
pub open spec fn given_or<T>(given: Option<T>, current: T) -> T {
    match given {
        Some(v) => v,
        None => current,
    }
}

/// The given optional value if there is one, else the current one.
pub open spec fn given_or_opt<T>(given: Option<T>, current: Option<T>) -> Option<T> {
    match given {
        Some(v) => Some(v),
        None => current,
    }
}

/// The geocoding settings after `req` is applied to `cur`.
pub open spec fn geo_updated(cur: GeoSettings, req: UpdateGeoRequest) -> GeoSettings {
    GeoSettings {
        provider: given_or(req.provider, cur.provider),
        amap_api_key: given_or_opt(req.amap_api_key, cur.amap_api_key),
        amap_secret: given_or_opt(req.amap_secret, cur.amap_secret),
        qqmap_api_key: given_or_opt(req.qqmap_api_key, cur.qqmap_api_key),
        qqmap_secret_key: given_or_opt(req.qqmap_secret_key, cur.qqmap_secret_key),
        tianditu_server_key: given_or_opt(req.tianditu_server_key, cur.tianditu_server_key),
        mapbox_access_token: given_or_opt(req.mapbox_access_token, cur.mapbox_access_token),
        maptiler_api_key: given_or_opt(req.maptiler_api_key, cur.maptiler_api_key),
    }
}

/// The AI settings after `req` is applied to `cur`.
pub open spec fn ai_updated(cur: AiSettings, req: UpdateAiRequest) -> AiSettings {
    AiSettings {
        ocr_model_name: given_or(req.ocr_model_name, cur.ocr_model_name),
        ocr_aux_model_name: given_or_opt(req.ocr_aux_model_name, cur.ocr_aux_model_name),
    }
}

/// The request that gives every field `second` gives and, for the others,
/// what `first` gives.
pub open spec fn geo_request_then(first: UpdateGeoRequest, second: UpdateGeoRequest) -> UpdateGeoRequest {
    UpdateGeoRequest {
        provider: given_or_opt(second.provider, first.provider),
        amap_api_key: given_or_opt(second.amap_api_key, first.amap_api_key),
        amap_secret: given_or_opt(second.amap_secret, first.amap_secret),
        qqmap_api_key: given_or_opt(second.qqmap_api_key, first.qqmap_api_key),
        qqmap_secret_key: given_or_opt(second.qqmap_secret_key, first.qqmap_secret_key),
        tianditu_server_key: given_or_opt(second.tianditu_server_key, first.tianditu_server_key),
        mapbox_access_token: given_or_opt(second.mapbox_access_token, first.mapbox_access_token),
        maptiler_api_key: given_or_opt(second.maptiler_api_key, first.maptiler_api_key),
    }
}

/// A request that changes nothing.
pub open spec fn empty_geo_request() -> UpdateGeoRequest {
    UpdateGeoRequest {
        provider: None,
        amap_api_key: None,
        amap_secret: None,
        qqmap_api_key: None,
        qqmap_secret_key: None,
        tianditu_server_key: None,
        mapbox_access_token: None,
        maptiler_api_key: None,
    }
}

/// The geocoding settings as they are answered.
pub open spec fn geo_output(s: GeoSettings) -> GeoSettingsOutput {
    GeoSettingsOutput {
        provider: s.provider,
        amap_api_key: s.amap_api_key,
        amap_secret: s.amap_secret,
        qqmap_api_key: s.qqmap_api_key,
        qqmap_secret_key: s.qqmap_secret_key,
        tianditu_server_key: s.tianditu_server_key,
        mapbox_access_token: s.mapbox_access_token,
        maptiler_api_key: s.maptiler_api_key,
    }
}

/// The AI settings as they are answered.
pub open spec fn ai_output(s: AiSettings) -> AiSettingsOutput {
    AiSettingsOutput { ocr_model_name: s.ocr_model_name, ocr_aux_model_name: s.ocr_aux_model_name }
}

fn take_given<T>(given: Option<T>, current: T) -> (r: T)
    ensures
        r == given_or(given, current),
{
    match given {
        Some(v) => v,
        None => current,
    }
}

fn take_given_opt<T>(given: Option<T>, current: Option<T>) -> (r: Option<T>)
    ensures
        r == given_or_opt(given, current),
{
    match given {
        Some(v) => Some(v),
        None => current,
    }
}

impl GeoSettings {
    /// The settings after `req`: each field that `req` gives replaces the
    /// stored one, each field that it leaves out keeps its value.
    pub fn apply_update(self, req: UpdateGeoRequest) -> (r: GeoSettings)
        ensures
            r == geo_updated(self, req),
    {
        GeoSettings {
            provider: take_given(req.provider, self.provider),
            amap_api_key: take_given_opt(req.amap_api_key, self.amap_api_key),
            amap_secret: take_given_opt(req.amap_secret, self.amap_secret),
            qqmap_api_key: take_given_opt(req.qqmap_api_key, self.qqmap_api_key),
            qqmap_secret_key: take_given_opt(req.qqmap_secret_key, self.qqmap_secret_key),
            tianditu_server_key: take_given_opt(req.tianditu_server_key, self.tianditu_server_key),
            mapbox_access_token: take_given_opt(req.mapbox_access_token, self.mapbox_access_token),
            maptiler_api_key: take_given_opt(req.maptiler_api_key, self.maptiler_api_key),
        }
    }
}

impl AiSettings {
    /// The settings after `req`: each field that `req` gives replaces the
    /// stored one, each field that it leaves out keeps its value.
    pub fn apply_update(self, req: UpdateAiRequest) -> (r: AiSettings)
        ensures
            r == ai_updated(self, req),
    {
        AiSettings {
            ocr_model_name: take_given(req.ocr_model_name, self.ocr_model_name),
            ocr_aux_model_name: take_given_opt(req.ocr_aux_model_name, self.ocr_aux_model_name),
        }
    }
}

impl From<GeoSettings> for GeoSettingsOutput {
    fn from(s: GeoSettings) -> (r: GeoSettingsOutput) {
        GeoSettingsOutput {
            provider: s.provider,
            amap_api_key: s.amap_api_key,
            amap_secret: s.amap_secret,
            qqmap_api_key: s.qqmap_api_key,
            qqmap_secret_key: s.qqmap_secret_key,
            tianditu_server_key: s.tianditu_server_key,
            mapbox_access_token: s.mapbox_access_token,
            maptiler_api_key: s.maptiler_api_key,
        }
    }
}

impl vstd::std_specs::convert::FromSpecImpl<GeoSettings> for GeoSettingsOutput {
    open spec fn obeys_from_spec() -> bool {
        true
    }

    open spec fn from_spec(s: GeoSettings) -> GeoSettingsOutput {
        geo_output(s)
    }
}

impl From<AiSettings> for AiSettingsOutput {
    fn from(s: AiSettings) -> (r: AiSettingsOutput) {
        AiSettingsOutput { ocr_model_name: s.ocr_model_name, ocr_aux_model_name: s.ocr_aux_model_name }
    }
}

impl vstd::std_specs::convert::FromSpecImpl<AiSettings> for AiSettingsOutput {
    open spec fn obeys_from_spec() -> bool {
        true
    }

    open spec fn from_spec(s: AiSettings) -> AiSettingsOutput {
        ai_output(s)
    }
}

/// The answer to a trial of the geocoding settings, from its outcome.
pub open spec fn test_geo_answer(outcome: Result<GeoAddress, AppError>, error_text: Option<String>) -> TestGeoResponse {
    match outcome {
        Ok(a) => TestGeoResponse {
            success: true,
            province: a.province,
            city: a.city,
            district: a.district,
            formatted_address: a.formatted_address,
            error: None,
        },
        Err(_) => TestGeoResponse {
            success: false,
            province: None,
            city: None,
            district: None,
            formatted_address: None,
            error: error_text,
        },
    }
}

impl TestGeoResponse {
    /// The answer to a trial of the geocoding settings: on success the place
    /// found, on failure no place and the error's text.
    pub fn from_outcome(outcome: Result<GeoAddress, AppError>) -> (r: TestGeoResponse)
        ensures
            outcome is Ok ==> r == test_geo_answer(outcome, None),
            outcome matches Err(e) ==> exists|t: String|
                r == test_geo_answer(outcome, Some(t)) && #[trigger] crate::error::describes(e, t@),
    {
        match outcome {
            Ok(a) => TestGeoResponse {
                success: true,
                province: a.province,
                city: a.city,
                district: a.district,
                formatted_address: a.formatted_address,
                error: None,
            },
            Err(e) => {
                let t = e.describe();
                TestGeoResponse {
                    success: false,
                    province: None,
                    city: None,
                    district: None,
                    formatted_address: None,
                    error: Some(t),
                }
            },
        }
    }
}

/// An update that gives no field leaves the geocoding settings as they are.
pub proof fn lemma_geo_empty_update_keeps_settings(cur: GeoSettings)
    ensures
        geo_updated(cur, empty_geo_request()) == cur,
{
}

/// Applying the same geocoding update twice is the same as applying it once.
pub proof fn lemma_geo_update_idempotent(cur: GeoSettings, req: UpdateGeoRequest)
    ensures
        geo_updated(geo_updated(cur, req), req) == geo_updated(cur, req),
{
}

/// Two geocoding updates in a row act as one update that takes each field
/// from the second where it gives one, else from the first.
pub proof fn lemma_geo_updates_compose(cur: GeoSettings, first: UpdateGeoRequest, second: UpdateGeoRequest)
    ensures
        geo_updated(geo_updated(cur, first), second) == geo_updated(cur, geo_request_then(first, second)),
{
}

/// The answer to a geocoding update shows each given field as given and each
/// other field as it was stored before.
pub proof fn lemma_geo_update_answer(cur: GeoSettings, req: UpdateGeoRequest)
    ensures
        ({
            let out = geo_output(geo_updated(cur, req));
            &&& req.provider matches Some(p) ==> out.provider == p
            &&& req.provider is None ==> out.provider == cur.provider
            &&& req.amap_api_key is Some ==> out.amap_api_key == req.amap_api_key
            &&& req.amap_api_key is None ==> out.amap_api_key == cur.amap_api_key
            &&& req.amap_secret is Some ==> out.amap_secret == req.amap_secret
            &&& req.amap_secret is None ==> out.amap_secret == cur.amap_secret
            &&& req.qqmap_api_key is Some ==> out.qqmap_api_key == req.qqmap_api_key
            &&& req.qqmap_api_key is None ==> out.qqmap_api_key == cur.qqmap_api_key
            &&& req.qqmap_secret_key is Some ==> out.qqmap_secret_key == req.qqmap_secret_key
            &&& req.qqmap_secret_key is None ==> out.qqmap_secret_key == cur.qqmap_secret_key
            &&& req.tianditu_server_key is Some ==> out.tianditu_server_key == req.tianditu_server_key
            &&& req.tianditu_server_key is None ==> out.tianditu_server_key == cur.tianditu_server_key
            &&& req.mapbox_access_token is Some ==> out.mapbox_access_token == req.mapbox_access_token
            &&& req.mapbox_access_token is None ==> out.mapbox_access_token == cur.mapbox_access_token
            &&& req.maptiler_api_key is Some ==> out.maptiler_api_key == req.maptiler_api_key
            &&& req.maptiler_api_key is None ==> out.maptiler_api_key == cur.maptiler_api_key
        }),
{
}

/// An update that gives no field leaves the AI settings as they are.
pub proof fn lemma_ai_empty_update_keeps_settings(cur: AiSettings)
    ensures
        ai_updated(cur, UpdateAiRequest { ocr_model_name: None, ocr_aux_model_name: None }) == cur,
{
}

/// Applying the same AI settings update twice is the same as applying it once.
pub proof fn lemma_ai_update_idempotent(cur: AiSettings, req: UpdateAiRequest)
    ensures
        ai_updated(ai_updated(cur, req), req) == ai_updated(cur, req),
{
}

/// The answer to an AI settings update shows each given field as given and
/// the other as it was stored before.
pub proof fn lemma_ai_update_answer(cur: AiSettings, req: UpdateAiRequest)
    ensures
        ({
            let out = ai_output(ai_updated(cur, req));
            &&& req.ocr_model_name matches Some(m) ==> out.ocr_model_name == m
            &&& req.ocr_model_name is None ==> out.ocr_model_name == cur.ocr_model_name
            &&& req.ocr_aux_model_name is Some ==> out.ocr_aux_model_name == req.ocr_aux_model_name
            &&& req.ocr_aux_model_name is None ==> out.ocr_aux_model_name == cur.ocr_aux_model_name
        }),
{
}

} // verus!
