use tokimo_app_image_cortex::handlers::health::{CapabilitiesResponse, HealthResponse};

#[test]
fn health_answer() {
    let h = HealthResponse::new(true, true, false, true);
    assert_eq!(h.status, "ok");
    assert!(h.ai_worker_ready && h.ocr_ready && !h.face_ready && h.clip_ready);
}

#[test]
fn capabilities_answer() {
    let c = CapabilitiesResponse::new("1.2.3".into());
    assert_eq!(c.version, "1.2.3");
    assert_eq!(c.analysis_types, vec!["ocr", "face", "clip", "gps", "all"]);
    assert_eq!(
        c.supported_formats,
        vec![
            "jpg", "jpeg", "png", "webp", "gif", "bmp", "tiff", "heic", "heif", "avif", "raw", "cr2",
            "cr3", "nef", "arw", "dng"
        ]
    );
}
