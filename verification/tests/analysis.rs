use tokimo_app_image_cortex::error::AppError;
use tokimo_app_image_cortex::handlers::analyze::{AnalysisType, AnalyzeResponse, Service};
use tokimo_app_image_cortex::queue::image_cortex_process::job_request;

type Resp = AnalyzeResponse<u8, u16, u32, u64>;

#[test]
fn names_select_types() {
    assert_eq!(AnalysisType::from_name("ocr"), AnalysisType::Ocr);
    assert_eq!(AnalysisType::from_name("face"), AnalysisType::Face);
    assert_eq!(AnalysisType::from_name("clip"), AnalysisType::Clip);
    assert_eq!(AnalysisType::from_name("gps"), AnalysisType::Gps);
    assert_eq!(AnalysisType::from_name("all"), AnalysisType::All);
    assert_eq!(AnalysisType::from_name("OCR"), AnalysisType::All);
    assert_eq!(AnalysisType::from_name(""), AnalysisType::All);
}

#[test]
fn names_round_trip() {
    for t in [AnalysisType::Ocr, AnalysisType::Face, AnalysisType::Clip, AnalysisType::Gps, AnalysisType::All] {
        assert_eq!(AnalysisType::from_name(&t.name()), t);
    }
    assert_eq!(AnalysisType::Gps.name(), "gps");
}

#[test]
fn services_of_types() {
    assert!(AnalysisType::All.runs(Service::Face));
    assert!(AnalysisType::Ocr.runs(Service::Ocr));
    assert!(!AnalysisType::Ocr.runs(Service::Gps));
    assert!(!AnalysisType::Clip.runs(Service::Face));
}

#[test]
fn single_analysis_success() {
    let r: Result<Resp, AppError> =
        AnalyzeResponse::assemble("/p.jpg".into(), AnalysisType::Clip, None, None, Some(Ok(7u32)), None);
    let resp = r.unwrap();
    assert_eq!(resp.path, "/p.jpg");
    assert_eq!(resp.clip, Some(7));
    assert_eq!(resp.ocr, None);
    assert_eq!(resp.face, None);
    assert_eq!(resp.gps, None);
}

#[test]
fn single_analysis_failure_fails_request() {
    let r: Result<Resp, AppError> = AnalyzeResponse::assemble(
        "/p.jpg".into(),
        AnalysisType::Gps,
        None,
        None,
        None,
        Some(Err(AppError::BadRequest("No GPS data found in image".into()))),
    );
    match r {
        Err(AppError::BadRequest(m)) => assert_eq!(m, "No GPS data found in image"),
        other => panic!("unexpected {other:?}"),
    }
}

#[test]
fn all_analyses_tolerate_failures() {
    let r: Result<Resp, AppError> = AnalyzeResponse::assemble(
        "/p.jpg".into(),
        AnalysisType::All,
        Some(Ok(1u8)),
        Some(Err(AppError::Internal("Face detection failed".into()))),
        Some(Ok(3u32)),
        Some(Err(AppError::BadRequest("No GPS data found in image".into()))),
    );
    let resp = r.unwrap();
    assert_eq!(resp.ocr, Some(1));
    assert_eq!(resp.face, None);
    assert_eq!(resp.clip, Some(3));
    assert_eq!(resp.gps, None);
}

#[test]
fn job_without_path_is_bad_request() {
    match job_request(None, Some("ocr".into())) {
        Err(AppError::BadRequest(m)) => assert_eq!(m, "missing path"),
        other => panic!("unexpected {other:?}"),
    }
}

#[test]
fn job_type_defaults_to_all() {
    let req = job_request(Some("/a.png".into()), None).unwrap();
    assert_eq!(req.path, "/a.png");
    assert_eq!(req.analysis_type, AnalysisType::All);
    let req = job_request(Some("/a.png".into()), Some("face".into())).unwrap();
    assert_eq!(req.analysis_type, AnalysisType::Face);
    let req = job_request(Some("/a.png".into()), Some("other".into())).unwrap();
    assert_eq!(req.analysis_type, AnalysisType::All);
}
