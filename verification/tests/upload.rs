use doc_store::upload::{ContentTypeWrapper, File, FileNameWrapper, UploadFile};

#[test]
fn client_file_name_is_handed_back() {
    let file = File::new(
        Some(FileNameWrapper::new(String::from("report"))),
        ContentTypeWrapper::new(String::from("application/pdf")),
        vec![1u8, 2, 3],
    );
    let upload = UploadFile { file };
    assert_eq!(upload.orig_file_name(), Some(String::from("report")));
    assert_eq!(upload.file.data(), &vec![1u8, 2, 3]);
    assert_eq!(upload.file.content_type().as_str(), "application/pdf");
}

#[test]
fn missing_file_name_is_none() {
    let file = File::new(None, ContentTypeWrapper::new(String::from("text/plain")), Vec::new());
    let upload = UploadFile { file };
    assert_eq!(upload.orig_file_name(), None);
    assert!(upload.file.data().is_empty());
}

#[test]
fn file_name_wrapper_keeps_its_text() {
    let name = FileNameWrapper::new(String::from("notes"));
    assert_eq!(name.as_str(), "notes");
    assert_eq!(name.clone().as_str(), "notes");
}
