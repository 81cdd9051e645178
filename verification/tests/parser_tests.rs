use view_service::errors::ErrorCode;
use view_service::parsers::check_view_id;
use view_service::parsers::parse_identifier;
use view_service::parsers::parse_view_desc;
use view_service::parsers::parse_view_name;
use view_service::parsers::parse_view_thumbnail;

const ID: &str = "1d4e8f0a-2b3c-4d5e-8f9a-0b1c2d3e4f5a";

#[test]
fn name_parser_trims_and_rejects_empty() {
    assert_eq!(parse_view_name("  Notes \n").unwrap(), "Notes");
    assert_eq!(parse_view_name("Notes").unwrap(), "Notes");
    let e = parse_view_name("").unwrap_err();
    assert_eq!(e.code, ErrorCode::ValidationError);
    assert_eq!(e.field, "name");
    assert!(parse_view_name(" \t ").is_err());
}

#[test]
fn name_parser_enforces_the_length_bound() {
    assert!(parse_view_name(&"x".repeat(256)).is_ok());
    assert!(parse_view_name(&"x".repeat(257)).is_err());
}

#[test]
fn desc_and_thumbnail_permit_empty_but_enforce_bounds() {
    assert_eq!(parse_view_desc("").unwrap(), "");
    assert_eq!(parse_view_desc(" hi ").unwrap(), "hi");
    assert!(parse_view_desc(&"x".repeat(1000)).is_ok());
    let e = parse_view_desc(&"x".repeat(1001)).unwrap_err();
    assert_eq!(e.field, "desc");

    assert_eq!(parse_view_thumbnail("").unwrap(), "");
    assert!(parse_view_thumbnail(&"x".repeat(500)).is_ok());
    let e2 = parse_view_thumbnail(&"x".repeat(501)).unwrap_err();
    assert_eq!(e2.field, "thumbnail");
}

#[test]
fn identifier_parser_canonicalizes_accepted_forms() {
    // Already canonical: unchanged.
    assert_eq!(check_view_id(ID).unwrap(), ID);
    // Uppercase and braced renderings are accepted and canonicalized, so a
    // parser that handed its input back unchanged would fail here.
    assert_eq!(check_view_id(&ID.to_uppercase()).unwrap(), ID);
    let braced = format!("{{{ID}}}");
    assert_eq!(check_view_id(&braced).unwrap(), ID);
    let simple: String = ID.chars().filter(|c| *c != '-').collect();
    assert_eq!(check_view_id(&simple).unwrap(), ID);
}

#[test]
fn identifier_parser_rejects_malformed_input_citing_the_field() {
    let e = check_view_id("").unwrap_err();
    assert_eq!(e.code, ErrorCode::ValidationError);
    assert_eq!(e.field, "view_id");
    assert!(check_view_id("1234").is_err());
    assert!(check_view_id("zd4e8f0a-2b3c-4d5e-8f9a-0b1c2d3e4f5a").is_err());

    let e2 = parse_identifier("belong_to_id", "oops").unwrap_err();
    assert_eq!(e2.field, "belong_to_id");
}
