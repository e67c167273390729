use ms_services::cosan::model::{CreateWord, GetUser, GetUserWordRelation, UpdateUser};
use ms_services::cosan::request::{
    CreateUserRequest, CreateUserWordRequest, CreateWordRequest, DeleteUserWordRequest, GetUserRequest,
    UpdateUserRequest,
};
use ms_services::outcome::bad_request;
use ms_services::support::model::{CreateProtagonistSupporter, GetProtagonist, GetSupporter};
use ms_services::support::request::{CreateProtagonistRequest, GetSupporterRequest, UpdateSupporterRequest};
use ms_services::validation::RequestError;

fn create(last: &str, first: &str, login: &str, password: &str, email: &str, country: &str) -> CreateUserRequest {
    CreateUserRequest {
        last_name: last.to_string(),
        first_name: first.to_string(),
        login_id: login.to_string(),
        password: password.to_string(),
        email: email.to_string(),
        country: country.to_string(),
    }
}

fn err(r: Result<(), RequestError>) -> RequestError {
    r.err().unwrap()
}

#[test]
fn account_rules_are_checked_in_order() {
    assert!(create("O'Brien", "Anne-Marie", "anne1", "pw1", "a.b@example.org", "IE").validate().is_ok());
    assert!(create("Ünal", "Çağla", "cagla", "pw", "c@x.tr", "TR").validate().is_ok());
    assert_eq!(err(create("Doe!", "J!", "x", "y", "bad", "").validate()), RequestError::InvalidLastName);
    assert_eq!(err(create("Doe", "J!", "x", "y", "bad", "").validate()), RequestError::InvalidFirstName);
    assert_eq!(err(create("Doe", "J", "x_y", "y", "bad", "").validate()), RequestError::InvalidLoginId);
    assert_eq!(err(create("Doe", "J", "xy", "p w", "bad", "").validate()), RequestError::InvalidPassword);
    assert_eq!(err(create("Doe", "J", "xy", "pw", "bad", "").validate()), RequestError::InvalidEmail);
    assert_eq!(err(create("Doe", "J", "xy", "pw", "a@b.c", "").validate()), RequestError::InvalidEmail);
    assert_eq!(err(create("Doe", "J", "xy", "pw", "a@b.co", "").validate()), RequestError::EmptyCountry);
    assert_eq!(err(create("", "J", "xy", "pw", "a@b.co", "NZ").validate()), RequestError::InvalidLastName);
}

#[test]
fn request_errors_carry_their_messages() {
    assert_eq!(RequestError::InvalidEmail.message(), "Invalid email format.");
    assert_eq!(RequestError::EmptyCountry.message(), "Country cannot be empty.");
    assert_eq!(RequestError::InvalidId.message(), "Invalid id format.");
    assert_eq!(RequestError::InvalidWord.message(), "Invalid word format.");
    assert_eq!(RequestError::InvalidLoginId.message(), "Invalid login id format.");
    assert_eq!(RequestError::InvalidPassword.message(), "Invalid password format.");
    assert!(RequestError::InvalidLastName.message().starts_with("Invalid last name:"));
    let answer = bad_request(&RequestError::InvalidEmail);
    assert_eq!(answer.error, "BadRequest");
    assert_eq!(answer.message, "Invalid email format.");
    assert_eq!(answer.status_code(), 400);
}

#[test]
fn negative_ids_are_refused() {
    let req = UpdateUserRequest {
        user_id: -5,
        last_name: "Doe".to_string(),
        first_name: "J".to_string(),
        login_id: "xy".to_string(),
        password: "pw".to_string(),
        email: "a@b.co".to_string(),
        country: "NZ".to_string(),
    };
    assert_eq!(err(req.validate()), RequestError::InvalidId);
    let req = UpdateUserRequest { user_id: 5, ..req };
    assert!(req.validate().is_ok());
    assert!(CreateUserWordRequest { user_id: u64::MAX, word_id: 0 }.validate().is_ok());
    assert!(DeleteUserWordRequest { user_word_id: 7 }.validate().is_ok());
}

#[test]
fn login_request_keeps_itself_when_valid() {
    let ok = GetUserRequest::new("abc".to_string(), "Def1".to_string()).validate().ok().unwrap();
    assert_eq!(ok.login_id, "abc");
    assert_eq!(ok.password, "Def1");
    assert_eq!(GetUserRequest::new("a b".to_string(), "x".to_string()).validate().err(), Some(RequestError::InvalidLoginId));
    assert_eq!(GetSupporterRequest::new("ab".to_string(), "".to_string()).validate().err(), Some(RequestError::InvalidPassword));
}

#[test]
fn words_are_checked() {
    assert!(CreateWordRequest { word: "rock-n'roll 2".to_string() }.validate().is_ok());
    assert_eq!(err(CreateWordRequest { word: "a;b".to_string() }.validate()), RequestError::InvalidWord);
    assert_eq!(err(CreateWordRequest { word: "".to_string() }.validate()), RequestError::InvalidWord);
}

#[test]
fn support_person_rules() {
    let req = CreateProtagonistRequest {
        last_name: "Doe".to_string(),
        first_name: "Jo".to_string(),
        login_id: "any thing".to_string(),
        password: "".to_string(),
        email: "jo@doe.io".to_string(),
        country: "NZ".to_string(),
    };
    assert!(req.validate().is_ok());
    let upd = UpdateSupporterRequest {
        supporter_id: 3,
        last_name: "Doe".to_string(),
        first_name: "Jo".to_string(),
        login_id: "j".to_string(),
        password: "p".to_string(),
        email: "jo@doe".to_string(),
        country: "NZ".to_string(),
    };
    assert_eq!(err(upd.validate()), RequestError::InvalidEmail);
}

fn get_user(id: i64, password: &str) -> GetUser {
    GetUser::new(
        id,
        "Doe".to_string(),
        "J".to_string(),
        "j".to_string(),
        password.to_string(),
        "e".to_string(),
        "c".to_string(),
    )
}

#[test]
fn rows_are_checked() {
    assert!(get_user(0, "p").is_valid());
    assert!(!get_user(-1, "p").is_valid());
    assert!(!get_user(1, "").is_valid());
    assert!(CreateWord { word_id: 1, word: String::new() }.is_valid());
    assert!(!CreateWord { word_id: 1, word: "w".to_string() }.is_valid());
    assert!(GetUserWordRelation { user_id: 1, word_id: 2, created_at: String::new() }.is_valid());
    assert!(GetProtagonist::new(2, "a".to_string(), "b".to_string(), "c".to_string(), "d".to_string()).is_valid());
    assert!(!GetSupporter::new(2, "a".to_string(), "b".to_string(), "c".to_string(), "d".to_string()).is_valid());
    assert!(GetSupporter::new(-2, "a".to_string(), "b".to_string(), "c".to_string(), "d".to_string()).is_valid());
    assert!(!CreateProtagonistSupporter::new(-1, 1, 2).is_valid());
    assert!(CreateProtagonistSupporter::new(0, 1, 2).is_valid());
}

#[test]
fn converting_a_row_hashes_its_password_only() {
    let row = UpdateUser {
        user_id: 4,
        last_name: "Doe".to_string(),
        first_name: "J".to_string(),
        login_id: "j".to_string(),
        password: "plain".to_string(),
        email: "e".to_string(),
        country: "c".to_string(),
    };
    let hashed = row.convert_hash_password().ok().unwrap();
    assert_eq!(hashed.user_id, 4);
    assert_eq!(hashed.login_id, "j");
    assert_ne!(hashed.password, "plain");
    assert_eq!(ms_services::password::verify_password("plain", &hashed.password).ok(), Some(true));
}
