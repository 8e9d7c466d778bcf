//! The health and capabilities answers.

use vstd::prelude::*;
use crate::handlers::analyze::{lemma_name_of_type_round_trip, name_of_type, type_of_name, AnalysisType};

verus! {

broadcast use vstd::string::group_string_axioms;

/// The answer to a health check.
#[derive(Debug, Clone, PartialEq, Eq)]
pub struct HealthResponse {
    pub status: String,
    pub ai_worker_ready: bool,
    pub ocr_ready: bool,
    pub face_ready: bool,
    pub clip_ready: bool,
}

/// What the service offers: its version, the analysis types it takes and the
/// image formats it reads.
#[derive(Debug, Clone, PartialEq, Eq)]
pub struct CapabilitiesResponse {
    pub version: String,
    pub analysis_types: Vec<String>,
    pub supported_formats: Vec<String>,
}

impl HealthResponse {
    /// The answer to a health check: status `ok` and the readiness of each
    /// part as given.
    pub fn new(ai_worker_ready: bool, ocr_ready: bool, face_ready: bool, clip_ready: bool) -> (r: HealthResponse)
        ensures
            r.status@ == "ok"@,
            r.ai_worker_ready == ai_worker_ready,
            r.ocr_ready == ocr_ready,
            r.face_ready == face_ready,
            r.clip_ready == clip_ready,
    {
        HealthResponse { status: String::from_str("ok"), ai_worker_ready, ocr_ready, face_ready, clip_ready }
    }
}

/// The analysis types, in the order they are offered.
pub open spec fn offered_analysis_types() -> Seq<Seq<char>> {
    seq!["ocr"@, "face"@, "clip"@, "gps"@, "all"@]
}

/// The image formats read, by file extension, in the order they are offered.
pub open spec fn offered_formats() -> Seq<Seq<char>> {
    seq![
        "jpg"@, "jpeg"@, "png"@, "webp"@, "gif"@, "bmp"@, "tiff"@, "heic"@,
        "heif"@, "avif"@, "raw"@, "cr2"@, "cr3"@, "nef"@, "arw"@, "dng"@,
    ]
}

/// The views of a list of strings.
pub open spec fn texts(v: Seq<String>) -> Seq<Seq<char>> {
    v.map_values(|s: String| s@)
}

fn push_text(v: &mut Vec<String>, s: &str)
    ensures
        texts(final(v)@) == texts(old(v)@).push(s@),
{
    v.push(String::from_str(s));
    assert(texts(final(v)@) =~= texts(old(v)@).push(s@));
}

impl CapabilitiesResponse {
    /// What the service offers, for the given version: the five analysis
    /// types and the sixteen image formats, in their fixed order.
    pub fn new(version: String) -> (r: CapabilitiesResponse)
        ensures
            r.version == version,
            texts(r.analysis_types@) == offered_analysis_types(),
            texts(r.supported_formats@) == offered_formats(),
    {
        let mut types: Vec<String> = Vec::new();
        push_text(&mut types, "ocr");
        push_text(&mut types, "face");
        push_text(&mut types, "clip");
        push_text(&mut types, "gps");
        push_text(&mut types, "all");
        let mut formats: Vec<String> = Vec::new();
        push_text(&mut formats, "jpg");
        push_text(&mut formats, "jpeg");
        push_text(&mut formats, "png");
        push_text(&mut formats, "webp");
        push_text(&mut formats, "gif");
        push_text(&mut formats, "bmp");
        push_text(&mut formats, "tiff");
        push_text(&mut formats, "heic");
        push_text(&mut formats, "heif");
        push_text(&mut formats, "avif");
        push_text(&mut formats, "raw");
        push_text(&mut formats, "cr2");
        push_text(&mut formats, "cr3");
        push_text(&mut formats, "nef");
        push_text(&mut formats, "arw");
        push_text(&mut formats, "dng");
        assert(texts(types@) =~= offered_analysis_types());
        assert(texts(formats@) =~= offered_formats());
        CapabilitiesResponse { version, analysis_types: types, supported_formats: formats }
    }
}

/// Every analysis type that the capabilities offer is one that requests can
/// name: the offered names are those of the five analysis types, and each is
/// read back as the type it names.
pub proof fn lemma_offered_types_are_accepted()
    ensures
        offered_analysis_types() == seq![
            name_of_type(AnalysisType::Ocr),
            name_of_type(AnalysisType::Face),
            name_of_type(AnalysisType::Clip),
            name_of_type(AnalysisType::Gps),
            name_of_type(AnalysisType::All),
        ],
        forall|i: int| 0 <= i < offered_analysis_types().len() ==>
            name_of_type(type_of_name(#[trigger] offered_analysis_types()[i])) == offered_analysis_types()[i],
{
    lemma_name_of_type_round_trip(AnalysisType::Ocr);
    lemma_name_of_type_round_trip(AnalysisType::Face);
    lemma_name_of_type_round_trip(AnalysisType::Clip);
    lemma_name_of_type_round_trip(AnalysisType::Gps);
    lemma_name_of_type_round_trip(AnalysisType::All);
    assert(offered_analysis_types() =~= seq![
        name_of_type(AnalysisType::Ocr),
        name_of_type(AnalysisType::Face),
        name_of_type(AnalysisType::Clip),
        name_of_type(AnalysisType::Gps),
        name_of_type(AnalysisType::All),
    ]);
}

} // verus!
