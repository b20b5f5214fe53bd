use doc_store::api::{greet, mine_type, MediaType};

#[test]
fn greets_by_name() {
    assert_eq!(greet(Some(String::from("Bob"))), "Hello Bob!");
    assert_eq!(greet(Some(String::new())), "Hello !");
}

#[test]
fn greets_the_world_without_a_name() {
    assert_eq!(greet(None), "Hello World!");
}

#[test]
fn known_extensions_have_their_media_type() {
    assert_eq!(mine_type(Some("pdf")), MediaType::Pdf);
    assert_eq!(mine_type(Some("txt")), MediaType::Plain);
    assert_eq!(mine_type(Some("html")), MediaType::Html);
}

#[test]
fn other_extensions_are_binary() {
    assert_eq!(mine_type(Some("exe")), MediaType::Binary);
    assert_eq!(mine_type(Some("PDF")), MediaType::Binary);
    assert_eq!(mine_type(Some("")), MediaType::Binary);
    assert_eq!(mine_type(Some("htm")), MediaType::Binary);
    assert_eq!(mine_type(None), MediaType::Binary);
}
