use ormx::name::Name;
use ormx::outcome::{delete_outcome, RowNotFound};

#[test]
fn identifiers_are_accepted() {
    assert_eq!(Name::new("get_by_user_id").unwrap().as_str(), "get_by_user_id");
    assert_eq!(Name::new("InsertUser").unwrap().as_str(), "InsertUser");
    assert_eq!(Name::new("_private").unwrap().as_str(), "_private");
    assert_eq!(Name::new("x1").unwrap().as_str(), "x1");
}

#[test]
fn texts_that_are_no_identifier_are_refused() {
    assert!(Name::new("").is_none());
    assert!(Name::new("1abc").is_none());
    assert!(Name::new("two words").is_none());
    assert!(Name::new("a-b").is_none());
    assert!(Name::new("a::b").is_none());
    assert!(Name::new("get(").is_none());
    assert!(Name::new("\"quoted\"").is_none());
}

#[test]
fn identifier_among_blanks_or_comments_is_refused() {
    assert!(Name::new(" spaced").is_none());
    assert!(Name::new("spaced ").is_none());
    assert!(Name::new("name /* note */").is_none());
    assert!(Name::new("name\n").is_none());
}

#[test]
fn accepted_name_is_the_text_that_was_read() {
    let read = Some("find".to_string());
    assert_eq!(Name::accept("find", read).unwrap().as_str(), "find");
    assert!(Name::accept(" find", Some("find".to_string())).is_none());
    assert!(Name::accept("find", Some("other".to_string())).is_none());
    assert!(Name::accept("find", None).is_none());
    assert_eq!(Name::new("r#type").unwrap().as_str(), "r#type");
}

#[test]
fn keywords_are_refused() {
    assert!(Name::new("fn").is_none());
    assert!(Name::new("struct").is_none());
    assert!(Name::new("_").is_none());
}

#[test]
fn deleting_no_row_is_not_found() {
    assert_eq!(delete_outcome(0), Err(RowNotFound));
}

#[test]
fn deleting_a_row_is_a_success() {
    assert_eq!(delete_outcome(1), Ok(()));
    assert_eq!(delete_outcome(2), Ok(()));
    assert_eq!(delete_outcome(u64::MAX), Ok(()));
}
