use ms_services::cosan::model::{user_word_of_row, user_words_of_rows, CreateWord, GetUser, GetUserWord, GetUserWordRelation, GetWord};

fn row(user_word_id: i64, created_at: &str) -> GetUserWord {
    GetUserWord {
        user_word_id,
        user_id: 2,
        last_name: "Doe".to_string(),
        first_name: "Jane".to_string(),
        email: "j@d.io".to_string(),
        country: "NZ".to_string(),
        word_id: 9,
        word: "kia ora".to_string(),
        created_at: created_at.to_string(),
    }
}

#[test]
fn valid_account_row_becomes_an_account() {
    let r = GetUser::new(3, "Doe".to_string(), "Jane".to_string(), "jane".to_string(), "$2b$12$x".to_string(), "j@d.io".to_string(), "NZ".to_string());
    let u = r.into_user().unwrap();
    assert_eq!(u.user_id.value(), 3);
    assert_eq!(u.login_id.value(), "jane");
    assert_eq!(u.password.value(), "$2b$12$x");
    let bad = GetUser::new(3, "".to_string(), "Jane".to_string(), "jane".to_string(), "h".to_string(), "e".to_string(), "c".to_string());
    assert!(bad.into_user().is_none());
}

#[test]
fn word_rows_follow_their_checks() {
    assert_eq!(GetWord { word_id: 1, word: "hi".to_string() }.into_word().unwrap().word.value(), "hi");
    assert!(GetWord { word_id: -1, word: "hi".to_string() }.into_word().is_none());
    assert!(CreateWord { word_id: 1, word: "hi".to_string() }.into_word().is_none());
    assert_eq!(CreateWord { word_id: 1, word: String::new() }.into_word().unwrap().word_id.value(), 1);
}

#[test]
fn creation_time_is_rendered_in_utc() {
    let uw = row(1, "2024-03-05T10:20:30+02:00").to_user_word().ok().unwrap();
    assert_eq!(uw.created_at.value(), "2024-03-05 08:20:30 UTC");
    assert_eq!(uw.word.value(), "kia ora");
    assert!(row(1, "yesterday").to_user_word().is_err());
}

#[test]
fn single_relation_row_follows_its_check() {
    let found = user_word_of_row(row(4, "2024-01-01T00:00:00Z")).ok().unwrap().unwrap();
    assert_eq!(found.user_word_id.value(), 4);
    assert!(user_word_of_row(row(-4, "2024-01-01T00:00:00Z")).ok().unwrap().is_none());
}

#[test]
fn relation_listing_keeps_order_and_reports_none_when_empty() {
    assert!(user_words_of_rows(vec![]).ok().unwrap().is_none());
    let list = user_words_of_rows(vec![row(1, "2024-01-01T00:00:00Z"), row(2, "2024-01-02T00:00:00Z")]).ok().unwrap().unwrap();
    assert_eq!(list.len(), 2);
    assert_eq!(list[0].user_word_id.value(), 1);
    assert_eq!(list[1].created_at.value(), "2024-01-02 00:00:00 UTC");
    assert!(user_words_of_rows(vec![row(1, "2024-01-01T00:00:00Z"), row(2, "bad")]).is_err());
}

#[test]
fn new_relation_row_becomes_a_relation() {
    let rel = GetUserWordRelation { user_id: 1, word_id: 2, created_at: "2024-01-01T00:00:00Z".to_string() }
        .into_relation()
        .ok()
        .unwrap()
        .unwrap();
    assert_eq!((rel.user_id.value(), rel.word_id.value()), (1, 2));
    assert_eq!(rel.created_at.value(), "2024-01-01 00:00:00 UTC");
    assert!(GetUserWordRelation { user_id: -1, word_id: 2, created_at: String::new() }.into_relation().ok().unwrap().is_none());
}
