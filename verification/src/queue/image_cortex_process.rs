//! The request that an image analysis job stands for.

use vstd::prelude::*;
use crate::error::AppError;
use crate::handlers::analyze::{type_of_name, AnalysisType, AnalyzeRequest};

verus! {

broadcast use vstd::string::group_string_axioms;

/// The request of a job from its `path` and `analysisType` parameters (each
/// present only where it is a string): a bad request "missing path" without a
/// path; otherwise the analysis type named, all analyses where none is named.
pub fn job_request(path: Option<String>, analysis_type: Option<String>) -> (r: Result<AnalyzeRequest, AppError>)
    ensures
        path is None ==> (r matches Err(AppError::BadRequest(m)) && m@ == "missing path"@),
        path matches Some(p) ==> (r matches Ok(req) && req.path == p && req.analysis_type == match analysis_type {
            Some(t) => type_of_name(t@),
            None => AnalysisType::All,
        }),
{
    let p = match path {
        Some(p) => p,
        None => return Err(AppError::BadRequest(String::from_str("missing path"))),
    };
    let kind = match analysis_type {
        Some(t) => AnalysisType::from_name(t.as_str()),
        None => AnalysisType::All,
    };
    Ok(AnalyzeRequest { path: p, analysis_type: kind })
}

} // verus!
