use ms_services::cosan::entity::{
    Country, CreatedAt, Email, FirstName, LastName, LoginId, PasswordHash, User, UserId, UserWord,
    UserWordId, UserWordRelation, Word, WordId, WordString,
};
use ms_services::cosan::interface::{UserRepositoryTrait, UserWordRepositoryTrait, WordRepositoryTrait};
use ms_services::cosan::request::{CreateUserRequest, CreateWordRequest, GetUserWordRequest, UpdateWordRequest};
use ms_services::cosan::service::CosanService;
use ms_services::outcome::{handle_result, ServiceError, StorageError};
use std::cell::RefCell;
use std::rc::Rc;
use std::collections::BTreeMap;

fn user_of(id: i64, last: &str, first: &str, login: &str, hash: &str, email: &str, country: &str) -> User {
    User::new(
        UserId::new(id),
        LastName::new(last),
        FirstName::new(first),
        LoginId::new(login),
        PasswordHash::new(hash),
        Email::new(email),
        Country::new(country),
    )
}

/// Accounts kept in a vector, in order of creation.
#[derive(Default, Clone)]
struct VecUsers {
    rows: Rc<RefCell<Vec<User>>>,
}

impl UserRepositoryTrait for VecUsers {
    fn get_user(&self, user_id: i64) -> Result<Option<User>, StorageError> {
        Ok(self.rows.borrow().iter().find(|u| u.user_id.value() == user_id).cloned())
    }

    fn create_user(&self,
        last_name: &str,
        first_name: &str,
        login_id: &str,
        password: &str,
        email: &str,
        country: &str,
    ) -> Result<Option<User>, StorageError> {
        let id = self.rows.borrow().len() as i64 + 1;
        let u = user_of(id, last_name, first_name, login_id, password, email, country);
        self.rows.borrow_mut().push(u.clone());
        Ok(Some(u))
    }

    fn update_user(&self,
        user_id: i64,
        last_name: &str,
        first_name: &str,
        login_id: &str,
        password: &str,
        email: &str,
        country: &str,
    ) -> Result<Option<User>, StorageError> {
        let mut rows = self.rows.borrow_mut();
        match rows.iter_mut().find(|u| u.user_id.value() == user_id) {
            Some(slot) => {
                *slot = user_of(user_id, last_name, first_name, login_id, password, email, country);
                Ok(Some(slot.clone()))
            }
            None => Ok(None),
        }
    }

    fn delete_user(&self, id: i64) -> Result<Option<()>, StorageError> {
        let mut rows = self.rows.borrow_mut();
        let before = rows.len();
        rows.retain(|u| u.user_id.value() != id);
        Ok(if rows.len() < before { Some(()) } else { None })
    }

    fn get_user_by_login_id(&self, login_id: &str) -> Result<Option<User>, StorageError> {
        Ok(self.rows.borrow().iter().find(|u| u.login_id.value() == login_id).cloned())
    }
}

/// Accounts kept in an ordered map by id.
#[derive(Default)]
struct MapUsers {
    rows: RefCell<BTreeMap<i64, User>>,
}

impl UserRepositoryTrait for MapUsers {
    fn get_user(&self, user_id: i64) -> Result<Option<User>, StorageError> {
        Ok(self.rows.borrow().get(&user_id).cloned())
    }

    fn create_user(&self,
        last_name: &str,
        first_name: &str,
        login_id: &str,
        password: &str,
        email: &str,
        country: &str,
    ) -> Result<Option<User>, StorageError> {
        let id = self.rows.borrow().len() as i64 + 1;
        let u = user_of(id, last_name, first_name, login_id, password, email, country);
        self.rows.borrow_mut().insert(id, u.clone());
        Ok(Some(u))
    }

    fn update_user(&self,
        user_id: i64,
        last_name: &str,
        first_name: &str,
        login_id: &str,
        password: &str,
        email: &str,
        country: &str,
    ) -> Result<Option<User>, StorageError> {
        let mut rows = self.rows.borrow_mut();
        if !rows.contains_key(&user_id) {
            return Ok(None);
        }
        let u = user_of(user_id, last_name, first_name, login_id, password, email, country);
        rows.insert(user_id, u.clone());
        Ok(Some(u))
    }

    fn delete_user(&self, id: i64) -> Result<Option<()>, StorageError> {
        Ok(self.rows.borrow_mut().remove(&id).map(|_| ()))
    }

    fn get_user_by_login_id(&self, login_id: &str) -> Result<Option<User>, StorageError> {
        Ok(self.rows.borrow().values().find(|u| u.login_id.value() == login_id).cloned())
    }
}

#[derive(Default)]
struct MemWords {
    rows: RefCell<BTreeMap<i64, String>>,
}

impl WordRepositoryTrait for MemWords {
    fn get_word(&self, word_id: i64) -> Result<Option<Word>, StorageError> {
        Ok(self.rows.borrow().get(&word_id).map(|w| Word::new(WordId::new(word_id), WordString::new(w))))
    }

    fn create_word(&self, word: &str) -> Result<Option<Word>, StorageError> {
        let id = self.rows.borrow().len() as i64 + 1;
        self.rows.borrow_mut().insert(id, word.to_string());
        Ok(Some(Word::new(WordId::new(id), WordString::new(word))))
    }

    fn update_word(&self, word_id: i64, word: &str) -> Result<Option<Word>, StorageError> {
        let mut rows = self.rows.borrow_mut();
        if !rows.contains_key(&word_id) {
            return Ok(None);
        }
        rows.insert(word_id, word.to_string());
        Ok(Some(Word::new(WordId::new(word_id), WordString::new(word))))
    }

    fn delete_word(&self, id: i64) -> Result<Option<()>, StorageError> {
        Ok(self.rows.borrow_mut().remove(&id).map(|_| ()))
    }
}

/// A relation store whose backing database is unreachable.
struct DownUserWords;

impl UserWordRepositoryTrait for DownUserWords {
    fn get_user_word_by_user_id_and_word_id(&self, _: i64, _: i64) -> Result<Option<UserWord>, StorageError> {
        Err(StorageError { message: "connection refused".to_string() })
    }

    fn get_user_word_by_user_id(&self, _: i64) -> Result<Option<Vec<UserWord>>, StorageError> {
        Err(StorageError { message: "no rows returned by a query that expected to return at least one row".to_string() })
    }

    fn get_user_word_by_word_id(&self, word_id: i64) -> Result<Option<Vec<UserWord>>, StorageError> {
        let uw = UserWord::new(
            UserWordId::new(3),
            UserId::new(1),
            LastName::new("Doe"),
            FirstName::new("Jane"),
            Email::new("jane@example.com"),
            Country::new("NZ"),
            WordId::new(word_id),
            WordString::new("kia ora"),
            CreatedAt::new("2024-01-01 00:00:00 UTC"),
        );
        Ok(Some(vec![uw.clone(), uw]))
    }

    fn create_user_word(&self, user_id: i64, word_id: i64) -> Result<Option<UserWordRelation>, StorageError> {
        Ok(Some(UserWordRelation::new(UserId::new(user_id), WordId::new(word_id), CreatedAt::new("now"))))
    }

    fn delete_user_word(&self, _: i64) -> Result<Option<()>, StorageError> {
        Ok(None)
    }
}

fn account(login: &str, password: &str) -> CreateUserRequest {
    CreateUserRequest {
        last_name: "Doe".to_string(),
        first_name: "Jane".to_string(),
        login_id: login.to_string(),
        password: password.to_string(),
        email: "jane@example.com".to_string(),
        country: "NZ".to_string(),
    }
}

fn observe<U: UserRepositoryTrait>(service: &mut CosanService<U, MemWords, DownUserWords>) -> Vec<String> {
    let mut seen = Vec::new();
    let created = service.create_user(account("jane", "correct")).ok().unwrap();
    seen.push(format!("{} {} {}", created.user_id, created.user_last_name, created.user_email));
    let got = service.get_user(1).ok().unwrap();
    seen.push(format!("{} {} {}", got.user_id, got.user_first_name, got.user_country));
    seen.push(format!("{:?}", service.get_user(9).err()));
    seen.push(format!("{:?}", service.get_user_by_login_id_and_password("jane".to_string(), "correct".to_string()).ok().map(|r| r.user_id)));
    seen.push(format!("{:?}", service.get_user_by_login_id_and_password("jane".to_string(), "wrong".to_string()).err()));
    seen.push(format!("{:?}", service.delete_user(1).ok().map(|r| r.status)));
    seen.push(format!("{:?}", service.delete_user(1).err()));
    seen
}

#[test]
fn substituting_the_account_store_keeps_behaviour() {
    let mut a = CosanService::new(VecUsers::default(), MemWords::default(), DownUserWords);
    let mut b = CosanService::new(MapUsers::default(), MemWords::default(), DownUserWords);
    let seen = observe(&mut a);
    assert_eq!(seen, observe(&mut b));
    assert_eq!(seen[0], "1 Doe jane@example.com");
    assert_eq!(seen[3], "Some(1)");
    assert_eq!(seen[5], "Some(\"success\")");
}

#[test]
fn account_creation_and_login_end_to_end() {
    let mut service = CosanService::new(VecUsers::default(), MemWords::default(), DownUserWords);
    service.create_user(account("alice", "correct-horse")).ok().unwrap();
    service.create_user(account("bob", "correct-horse")).ok().unwrap();
    let alice = service.get_user(1).ok().unwrap();
    assert_eq!(alice.user_id, 1);

    let login = service.get_user_by_login_id_and_password("alice".to_string(), "correct-horse".to_string());
    assert_eq!(login.ok().unwrap().user_id, 1);

    let wrong = service.get_user_by_login_id_and_password("alice".to_string(), "wrong-horse".to_string());
    assert!(matches!(wrong, Err(ServiceError::InvalidPassword)));
    let answer = handle_result(wrong, "User not found").err().unwrap();
    assert_eq!(answer.error, "Unauthorized");
    assert_eq!(answer.status_code(), 401);
}

#[test]
fn stored_hashes_differ_from_plaintext_and_from_each_other() {
    let users = VecUsers::default();
    let mut service = CosanService::new(users.clone(), MemWords::default(), DownUserWords);
    service.create_user(account("alice", "correct-horse")).ok().unwrap();
    service.create_user(account("bob", "correct-horse")).ok().unwrap();
    let rows = users.rows.borrow();
    let h1 = rows[0].password.value();
    let h2 = rows[1].password.value();
    assert_ne!(h1, "correct-horse");
    assert_ne!(h1, h2);
    assert_eq!(ms_services::password::verify_password("correct-horse", h1).ok(), Some(true));
    assert_eq!(ms_services::password::verify_password("correct-horse", h2).ok(), Some(true));
}

#[test]
fn missing_rows_and_failing_store_are_told_apart() {
    let mut service = CosanService::new(VecUsers::default(), MemWords::default(), DownUserWords);
    let missing = handle_result(service.get_user(42), "User not found").err().unwrap();
    assert_eq!(missing.error, "NotFound");
    assert_eq!(missing.message, "User not found");
    assert_eq!(missing.status_code(), 404);

    let down = service.get_user_word_by_user_id_and_word_id(GetUserWordRequest { user_id: 1, word_id: 1 });
    let answer = handle_result(down, "User word not found").err().unwrap();
    assert_eq!(answer.status_code(), 500);
    assert_eq!(answer.message, "Internal Server Error");

    let no_rows = service.get_user_word_by_user_id(GetUserWordRequest { user_id: 1, word_id: 1 });
    let answer = handle_result(no_rows, "User word not found").err().unwrap();
    assert_eq!(answer.status_code(), 500);
    assert_eq!(answer.message, "Internal Server Error");
}

#[test]
fn words_and_relations_are_answered_field_by_field() {
    let mut service = CosanService::new(VecUsers::default(), MemWords::default(), DownUserWords);
    let w = service.create_word(CreateWordRequest { word: "hello".to_string() }).ok().unwrap();
    assert_eq!((w.word_id, w.word.as_str()), (1, "hello"));
    let u = service.update_word(UpdateWordRequest { word_id: 1, word: "hi".to_string() }).ok().unwrap();
    assert_eq!(u.word, "hi");
    assert_eq!(service.get_word(1).ok().unwrap().word, "hi");
    assert!(matches!(service.update_word(UpdateWordRequest { word_id: 5, word: "x".to_string() }), Err(ServiceError::NotFound(_))));
    assert_eq!(service.delete_word(1).ok().unwrap().status, "success");
    match service.get_word(1) {
        Err(ServiceError::NotFound(m)) => assert_eq!(m, "Word not found"),
        _ => panic!("expected absence"),
    }

    let list = service.get_user_word_by_word_id(GetUserWordRequest { user_id: 0, word_id: 8 }).ok().unwrap();
    assert_eq!(list.len(), 2);
    assert_eq!(list[0].word_id, 8);
    assert_eq!(list[1].word, "kia ora");
    assert_eq!(list[1].created_at, "2024-01-01 00:00:00 UTC");

    let rel = service
        .create_user_word(ms_services::cosan::request::CreateUserWordRequest { user_id: 4, word_id: 5 })
        .ok()
        .unwrap();
    assert_eq!((rel.user_id, rel.word_id), (4, 5));
    match service.delete_user_word(3) {
        Err(ServiceError::NotFound(m)) => assert_eq!(m, "User word not deleted"),
        _ => panic!("expected absence"),
    }
}
