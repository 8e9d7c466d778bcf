use tokimo_app_image_cortex::error::AppError;
use tokimo_app_image_cortex::services::clip::check_embedding_dims;
use tokimo_app_image_cortex::services::image_loader::{
    decode_file_name, file_extension, file_not_found, needs_jpeg_decoding,
};
use tokimo_app_image_cortex::services::ocr::{keeps_item, kept_items};

#[test]
fn clip_dimension_check() {
    assert!(check_embedding_dims(512).is_ok());
    match check_embedding_dims(511) {
        Err(AppError::Internal(m)) => assert_eq!(m, "CLIP returned 511 dims, expected 512"),
        other => panic!("unexpected {other:?}"),
    }
    match check_embedding_dims(0) {
        Err(AppError::Internal(m)) => assert_eq!(m, "CLIP returned 0 dims, expected 512"),
        other => panic!("unexpected {other:?}"),
    }
}

#[test]
fn ocr_keeps_non_blank_items() {
    assert!(keeps_item("Hello"));
    assert!(!keeps_item("  \t"));
    let texts: Vec<String> = vec!["a".into(), " ".into(), "".into(), " b ".into(), "\n".into()];
    assert_eq!(kept_items(&texts), vec![0, 3]);
    assert_eq!(kept_items(&Vec::new()), Vec::<usize>::new());
}

#[test]
fn extensions_follow_path_rules() {
    assert_eq!(file_extension("photo.HEIC").as_deref(), Some("HEIC"));
    assert_eq!(file_extension("archive.tar.gz").as_deref(), Some("gz"));
    assert_eq!(file_extension(".heic"), None);
    assert_eq!(file_extension("noext"), None);
    assert_eq!(file_extension("dot."), Some(String::new()));
    assert_eq!(file_extension("..x").as_deref(), Some("x"));
    for name in ["photo.HEIC", "archive.tar.gz", ".heic", "noext", "dot.", "..x"] {
        let std_ext = std::path::Path::new(name).extension().map(|e| e.to_str().unwrap().to_string());
        assert_eq!(file_extension(name), std_ext, "{name}");
    }
}

#[test]
fn raw_and_heif_files_are_decoded() {
    assert!(needs_jpeg_decoding("/photos/IMG_0001.HEIC"));
    assert!(needs_jpeg_decoding("shot.cr3"));
    assert!(needs_jpeg_decoding("a/b/c.Raf"));
    assert!(!needs_jpeg_decoding("/photos/IMG_0001.jpg"));
    assert!(!needs_jpeg_decoding("/photos/.heic"));
    assert!(!needs_jpeg_decoding("/photos/heic"));
    assert!(!needs_jpeg_decoding(""));
}

#[test]
fn decode_names() {
    assert_eq!(decode_file_name("/a/b/c.dng"), "c.dng");
    assert_eq!(decode_file_name("/"), "image");
    assert_eq!(decode_file_name("x/.."), "image");
}

#[test]
fn missing_file_error() {
    match file_not_found("/nope.jpg") {
        AppError::NotFound(m) => assert_eq!(m, "file not found: /nope.jpg"),
        other => panic!("unexpected {other:?}"),
    }
}
