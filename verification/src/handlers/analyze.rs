//! Which analyses a request asks for, and how their outcomes make the answer.

use vstd::prelude::*;
use crate::error::AppError;
use crate::text::same_text;

verus! {

broadcast use vstd::string::group_string_axioms;

/// The analysis that a request asks for.
#[derive(Debug, Clone, Copy, PartialEq, Eq, Structural)]
pub enum AnalysisType {
    Ocr,
    Face,
    Clip,
    Gps,
    All,
}

/// One of the four analyses.
#[derive(Debug, Clone, Copy, PartialEq, Eq, Structural)]
pub enum Service {
    Ocr,
    Face,
    Clip,
    Gps,
}

/// A request to analyse the image at `path`.
#[derive(Debug, Clone, PartialEq, Eq)]
pub struct AnalyzeRequest {
    pub path: String,
    pub analysis_type: AnalysisType,
}

/// The answer to an analysis request: the image's path and the result of
/// each analysis that was run and succeeded.
#[derive(Debug, Clone, PartialEq)]
pub struct AnalyzeResponse<O, F, C, G> {
    pub path: String,
    pub ocr: Option<O>,
    pub face: Option<F>,
    pub clip: Option<C>,
    pub gps: Option<G>,
}

/// The name of each analysis type, as requests write it.
pub open spec fn name_of_type(t: AnalysisType) -> Seq<char> {
    match t {
        AnalysisType::Ocr => "ocr"@,
        AnalysisType::Face => "face"@,
        AnalysisType::Clip => "clip"@,
        AnalysisType::Gps => "gps"@,
        AnalysisType::All => "all"@,
    }
}

/// The analysis type that a name asks for: `ocr`, `face`, `clip` and `gps`
/// ask for that analysis alone; any other name asks for all of them.
pub open spec fn type_of_name(name: Seq<char>) -> AnalysisType {
    if name == "ocr"@ {
        AnalysisType::Ocr
    } else if name == "face"@ {
        AnalysisType::Face
    } else if name == "clip"@ {
        AnalysisType::Clip
    } else if name == "gps"@ {
        AnalysisType::Gps
    } else {
        AnalysisType::All
    }
}

/// Whether an analysis type runs a service: each single type runs its own
/// service, `All` runs every service.
pub open spec fn includes(t: AnalysisType, s: Service) -> bool {
    match t {
        AnalysisType::Ocr => s == Service::Ocr,
        AnalysisType::Face => s == Service::Face,
        AnalysisType::Clip => s == Service::Clip,
        AnalysisType::Gps => s == Service::Gps,
        AnalysisType::All => true,
    }
}

impl AnalysisType {
    /// The analysis type that a name asks for; names other than `ocr`,
    /// `face`, `clip` and `gps` ask for all analyses.
    pub fn from_name(name: &str) -> (r: AnalysisType)
        ensures
            r == type_of_name(name@),
    {
        if same_text(name, "ocr") {
            AnalysisType::Ocr
        } else if same_text(name, "face") {
            AnalysisType::Face
        } else if same_text(name, "clip") {
            AnalysisType::Clip
        } else if same_text(name, "gps") {
            AnalysisType::Gps
        } else {
            AnalysisType::All
        }
    }

    /// The name of this analysis type.
    pub fn name(&self) -> (r: String)
        ensures
            r@ == name_of_type(*self),
    {
        match self {
            AnalysisType::Ocr => String::from_str("ocr"),
            AnalysisType::Face => String::from_str("face"),
            AnalysisType::Clip => String::from_str("clip"),
            AnalysisType::Gps => String::from_str("gps"),
            AnalysisType::All => String::from_str("all"),
        }
    }

    /// Whether this analysis type runs `service`.
    pub fn runs(&self, service: Service) -> (r: bool)
        ensures
            r == includes(*self, service),
    {
        match self {
            AnalysisType::Ocr => service == Service::Ocr,
            AnalysisType::Face => service == Service::Face,
            AnalysisType::Clip => service == Service::Clip,
            AnalysisType::Gps => service == Service::Gps,
            AnalysisType::All => true,
        }
    }
}

/// The name of each analysis type asks for that type again.
pub proof fn lemma_name_of_type_round_trip(t: AnalysisType)
    ensures
        type_of_name(name_of_type(t)) == t,
{
    reveal_strlit("ocr");
    reveal_strlit("face");
    reveal_strlit("clip");
    reveal_strlit("gps");
    reveal_strlit("all");
    assert("ocr"@[0] == 'o' && "face"@[0] == 'f' && "clip"@[0] == 'c' && "gps"@[0] == 'g'
        && "all"@[0] == 'a');
    assert("ocr"@ != "face"@ && "ocr"@ != "clip"@ && "ocr"@ != "gps"@ && "ocr"@ != "all"@);
    assert("face"@ != "clip"@ && "face"@ != "gps"@ && "face"@ != "all"@);
    assert("clip"@ != "gps"@ && "clip"@ != "all"@ && "gps"@ != "all"@);
}

/// The names `ocr`, `face`, `clip` and `gps` ask for that analysis alone;
/// every other name, `all` included, asks for all analyses.
pub proof fn lemma_names_ask_for_types(name: Seq<char>)
    ensures
        type_of_name("ocr"@) == AnalysisType::Ocr,
        type_of_name("face"@) == AnalysisType::Face,
        type_of_name("clip"@) == AnalysisType::Clip,
        type_of_name("gps"@) == AnalysisType::Gps,
        type_of_name("all"@) == AnalysisType::All,
        name != "ocr"@ && name != "face"@ && name != "clip"@ && name != "gps"@ ==> type_of_name(name)
            == AnalysisType::All,
{
    lemma_name_of_type_round_trip(AnalysisType::Ocr);
    lemma_name_of_type_round_trip(AnalysisType::Face);
    lemma_name_of_type_round_trip(AnalysisType::Clip);
    lemma_name_of_type_round_trip(AnalysisType::Gps);
    lemma_name_of_type_round_trip(AnalysisType::All);
}

/// `All` runs every one of the four analyses, and each single type runs its
/// own analysis and no other.
pub proof fn lemma_services_of_each_type(s: Service)
    ensures
        includes(AnalysisType::All, s),
        includes(AnalysisType::Ocr, s) <==> s == Service::Ocr,
        includes(AnalysisType::Face, s) <==> s == Service::Face,
        includes(AnalysisType::Clip, s) <==> s == Service::Clip,
        includes(AnalysisType::Gps, s) <==> s == Service::Gps,
{
}

/// The value of a service's outcome, if it ran and succeeded.
pub open spec fn value_of<T>(outcome: Option<Result<T, AppError>>) -> Option<T> {
    match outcome {
        Some(Ok(v)) => Some(v),
        _ => None,
    }
}

/// The error of a service's outcome, if it ran and failed.
pub open spec fn error_of<T>(outcome: Option<Result<T, AppError>>) -> Option<AppError> {
    match outcome {
        Some(Err(e)) => Some(e),
        _ => None,
    }
}

/// Whether the outcomes are those of exactly the services that the type runs.
pub open spec fn outcomes_match<O, F, C, G>(
    t: AnalysisType,
    ocr: Option<Result<O, AppError>>,
    face: Option<Result<F, AppError>>,
    clip: Option<Result<C, AppError>>,
    gps: Option<Result<G, AppError>>,
) -> bool {
    &&& ocr is Some <==> includes(t, Service::Ocr)
    &&& face is Some <==> includes(t, Service::Face)
    &&& clip is Some <==> includes(t, Service::Clip)
    &&& gps is Some <==> includes(t, Service::Gps)
}

/// The error that fails a request of type `t`: a single analysis fails the
/// request when it fails; `All` is never failed by an analysis.
pub open spec fn request_error<O, F, C, G>(
    t: AnalysisType,
    ocr: Option<Result<O, AppError>>,
    face: Option<Result<F, AppError>>,
    clip: Option<Result<C, AppError>>,
    gps: Option<Result<G, AppError>>,
) -> Option<AppError> {
    match t {
        AnalysisType::Ocr => error_of(ocr),
        AnalysisType::Face => error_of(face),
        AnalysisType::Clip => error_of(clip),
        AnalysisType::Gps => error_of(gps),
        AnalysisType::All => None,
    }
}

/// The answer to a request of type `t` from the outcomes of its services:
/// the error that fails it, if any, else the path and each value that came.
pub open spec fn assembled<O, F, C, G>(
    path: String,
    t: AnalysisType,
    ocr: Option<Result<O, AppError>>,
    face: Option<Result<F, AppError>>,
    clip: Option<Result<C, AppError>>,
    gps: Option<Result<G, AppError>>,
) -> Result<AnalyzeResponse<O, F, C, G>, AppError> {
    match request_error(t, ocr, face, clip, gps) {
        Some(e) => Err(e),
        None => Ok(AnalyzeResponse {
            path,
            ocr: value_of(ocr),
            face: value_of(face),
            clip: value_of(clip),
            gps: value_of(gps),
        }),
    }
}

fn split_outcome<T>(outcome: Option<Result<T, AppError>>) -> (r: (Option<T>, Option<AppError>))
    ensures
        r.0 == value_of(outcome),
        r.1 == error_of(outcome),
{
    match outcome {
        Some(Ok(v)) => (Some(v), None),
        Some(Err(e)) => (None, Some(e)),
        None => (None, None),
    }
}

impl<O, F, C, G> AnalyzeResponse<O, F, C, G> {
    /// The answer to a request of type `kind` for the image at `path`, from
    /// the outcomes of the services that the type runs. A single analysis
    /// answers its error when it fails; for `All`, a failed analysis is left
    /// out of the answer and the others are still answered.
    pub fn assemble(
        path: String,
        kind: AnalysisType,
        ocr: Option<Result<O, AppError>>,
        face: Option<Result<F, AppError>>,
        clip: Option<Result<C, AppError>>,
        gps: Option<Result<G, AppError>>,
    ) -> (r: Result<AnalyzeResponse<O, F, C, G>, AppError>)
        requires
            outcomes_match(kind, ocr, face, clip, gps),
        ensures
            r == assembled(path, kind, ocr, face, clip, gps),
    {
        let (ocr_value, ocr_error) = split_outcome(ocr);
        let (face_value, face_error) = split_outcome(face);
        let (clip_value, clip_error) = split_outcome(clip);
        let (gps_value, gps_error) = split_outcome(gps);
        let failed = match kind {
            AnalysisType::Ocr => ocr_error,
            AnalysisType::Face => face_error,
            AnalysisType::Clip => clip_error,
            AnalysisType::Gps => gps_error,
            AnalysisType::All => None,
        };
        match failed {
            Some(e) => Err(e),
            None => Ok(AnalyzeResponse {
                path,
                ocr: ocr_value,
                face: face_value,
                clip: clip_value,
                gps: gps_value,
            }),
        }
    }
}

/// A request for all analyses is always answered: an analysis that fails is
/// left out, and every analysis that succeeds is in the answer.
pub proof fn lemma_all_is_always_answered<O, F, C, G>(
    path: String,
    ocr: Option<Result<O, AppError>>,
    face: Option<Result<F, AppError>>,
    clip: Option<Result<C, AppError>>,
    gps: Option<Result<G, AppError>>,
)
    requires
        outcomes_match(AnalysisType::All, ocr, face, clip, gps),
    ensures
        assembled(path, AnalysisType::All, ocr, face, clip, gps) matches Ok(resp) && {
            &&& resp.path == path
            &&& (resp.ocr is Some <==> ocr matches Some(Ok(_)))
            &&& (resp.face is Some <==> face matches Some(Ok(_)))
            &&& (resp.clip is Some <==> clip matches Some(Ok(_)))
            &&& (resp.gps is Some <==> gps matches Some(Ok(_)))
        },
{
}

/// A request for a single analysis is answered with that analysis alone, or
/// with its error when it fails.
pub proof fn lemma_single_analysis_answer<O, F, C, G>(
    path: String,
    t: AnalysisType,
    ocr: Option<Result<O, AppError>>,
    face: Option<Result<F, AppError>>,
    clip: Option<Result<C, AppError>>,
    gps: Option<Result<G, AppError>>,
)
    requires
        t != AnalysisType::All,
        outcomes_match(t, ocr, face, clip, gps),
    ensures
        match assembled(path, t, ocr, face, clip, gps) {
            Ok(resp) => {
                &&& (resp.ocr is Some <==> t == AnalysisType::Ocr)
                &&& (resp.face is Some <==> t == AnalysisType::Face)
                &&& (resp.clip is Some <==> t == AnalysisType::Clip)
                &&& (resp.gps is Some <==> t == AnalysisType::Gps)
            },
            Err(e) => ocr == Some(Err::<O, AppError>(e)) || face == Some(Err::<F, AppError>(e))
                || clip == Some(Err::<C, AppError>(e)) || gps == Some(Err::<G, AppError>(e)),
        },
{
}

} // verus!
