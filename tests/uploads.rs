use telegramd::files::{is_safe_filename, IngestError, UploadIngestor};
use telegramd::forward::ingest_failure_response;

#[test]
fn named_parts_stored_in_arrival_order() {
    let mut ing = UploadIngestor::new("/srv/up".to_string());
    assert_eq!(ing.accept(Some("b.txt".to_string())).unwrap(), "/srv/up/b.txt");
    assert_eq!(ing.accept(Some("a.png".to_string())).unwrap(), "/srv/up/a.png");
    assert_eq!(ing.accept(Some("c".to_string())).unwrap(), "/srv/up/c");
    let batch = ing.finish().unwrap();
    let names: Vec<&str> = batch.iter().map(|f| f.original_filename.as_str()).collect();
    let paths: Vec<&str> = batch.iter().map(|f| f.path.as_str()).collect();
    assert_eq!(names, vec!["b.txt", "a.png", "c"]);
    assert_eq!(paths, vec!["/srv/up/b.txt", "/srv/up/a.png", "/srv/up/c"]);
}

#[test]
fn empty_body_gives_empty_batch() {
    let ing = UploadIngestor::new("up".to_string());
    assert_eq!(ing.finish().unwrap().len(), 0);
}

#[test]
fn missing_filename_rejects_whole_batch() {
    let mut ing = UploadIngestor::new("up".to_string());
    assert!(ing.accept(Some("ok.txt".to_string())).is_ok());
    assert_eq!(ing.accept(None).err(), Some(IngestError::MissingFilename));
    assert_eq!(ing.accept(Some("later.txt".to_string())).err(), Some(IngestError::MissingFilename));
    assert_eq!(ing.finish().err(), Some(IngestError::MissingFilename));
}

#[test]
fn traversing_filenames_are_refused() {
    for bad in ["../etc/passwd", "a/b", "..", ".", "", "dir\\x"] {
        let mut ing = UploadIngestor::new("up".to_string());
        assert_eq!(ing.accept(Some(bad.to_string())).err(), Some(IngestError::UnsafeFilename));
        assert_eq!(ing.finish().err(), Some(IngestError::UnsafeFilename));
    }
    assert!(is_safe_filename(&"..hidden".to_string()));
    assert!(is_safe_filename(&"report.txt".to_string()));
    assert!(!is_safe_filename(&"x/..".to_string()));
}

#[test]
fn ingest_failures_are_500_with_text() {
    let r = ingest_failure_response(&IngestError::MissingFilename);
    assert_eq!(r.status, 500);
    assert_eq!(r.body, "No filename");
    assert_eq!(ingest_failure_response(&IngestError::UnsafeFilename).body, "Unsafe filename");
    assert_eq!(ingest_failure_response(&IngestError::Io("disk full".to_string())).body, "disk full");
}
