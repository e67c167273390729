//! Field rules for incoming requests: names, login ids, passwords, e-mail
//! addresses and ids must match fixed patterns, and a country must be given.

use vstd::prelude::*;

verus! {

/// Letters and digits only.
pub const LOGIN_PATTERN: &'static str = "^[a-zA-Z0-9]+$";
/// Letters, digits, whitespace, apostrophes and hyphens, in any script.
pub const NAME_PATTERN: &'static str = "^[\\p{L}\\p{N}\\s'-]+$";
/// `local@domain.tld`, with a top-level domain of two letters or more.
pub const EMAIL_PATTERN: &'static str = "^[a-zA-Z0-9._%+-]+@[a-zA-Z0-9.-]+\\.[a-zA-Z]{2,}$";

/// Whether `text` has a match of the regular expression `pattern`.
pub uninterp spec fn regex_matches(pattern: Seq<char>, text: Seq<char>) -> bool;

/// Relies on `regex::Regex::new` and `Regex::is_match`: whether `text` has a
/// match of `pattern`. A pattern that does not compile matches nothing.
#[verifier::external_body]
fn pattern_matches(pattern: &str, text: &str) -> (r: bool)
    ensures
        r == regex_matches(pattern@, text@),
{
    match regex::Regex::new(pattern) {
        Ok(re) => re.is_match(text),
        Err(_) => false,
    }
}

pub open spec fn digit_char(d: int) -> char {
    if d == 0 { '0' } else if d == 1 { '1' } else if d == 2 { '2' } else if d == 3 { '3' }
    else if d == 4 { '4' } else if d == 5 { '5' } else if d == 6 { '6' } else if d == 7 { '7' }
    else if d == 8 { '8' } else { '9' }
}

pub open spec fn digits(n: nat) -> Seq<char>
    decreases n,
{
    if n < 10 {
        seq![digit_char(n as int)]
    } else {
        digits(n / 10).push(digit_char((n % 10) as int))
    }
}

/// The decimal form of `n`, with a leading `-` when it is negative.
pub open spec fn decimal(n: int) -> Seq<char> {
    if n < 0 {
        seq!['-'] + digits((-n) as nat)
    } else {
        digits(n as nat)
    }
}

/// The one-character text of the digit `d`.
fn digit_text(d: u128) -> (r: &'static str)
    requires
        d < 10,
    ensures
        r@ == seq![digit_char(d as int)],
{
    if d == 0 {
        proof {
            reveal_strlit("0");
        }
        assert("0"@ =~= seq![digit_char(0)]);
        "0"
    } else if d == 1 {
        proof {
            reveal_strlit("1");
        }
        assert("1"@ =~= seq![digit_char(1)]);
        "1"
    } else if d == 2 {
        proof {
            reveal_strlit("2");
        }
        assert("2"@ =~= seq![digit_char(2)]);
        "2"
    } else if d == 3 {
        proof {
            reveal_strlit("3");
        }
        assert("3"@ =~= seq![digit_char(3)]);
        "3"
    } else if d == 4 {
        proof {
            reveal_strlit("4");
        }
        assert("4"@ =~= seq![digit_char(4)]);
        "4"
    } else if d == 5 {
        proof {
            reveal_strlit("5");
        }
        assert("5"@ =~= seq![digit_char(5)]);
        "5"
    } else if d == 6 {
        proof {
            reveal_strlit("6");
        }
        assert("6"@ =~= seq![digit_char(6)]);
        "6"
    } else if d == 7 {
        proof {
            reveal_strlit("7");
        }
        assert("7"@ =~= seq![digit_char(7)]);
        "7"
    } else if d == 8 {
        proof {
            reveal_strlit("8");
        }
        assert("8"@ =~= seq![digit_char(8)]);
        "8"
    } else {
        proof {
            reveal_strlit("9");
        }
        assert("9"@ =~= seq![digit_char(9)]);
        "9"
    }
}

/// The digits of `n`, most significant first.
fn digits_text(n: u128) -> (r: String)
    ensures
        r@ == digits(n as nat),
    decreases n,
{
    if n < 10 {
        String::from_str(digit_text(n))
    } else {
        let mut s = digits_text(n / 10);
        s.append(digit_text(n % 10));
        assert(s@ =~= digits((n / 10) as nat).push(digit_char((n % 10) as int)));
        s
    }
}

/// The decimal form of `n`, with a leading `-` when it is negative.
pub fn decimal_text(n: i128) -> (r: String)
    ensures
        r@ == decimal(n as int),
{
    if n < 0 {
        let magnitude: u128 = (-(n + 1)) as u128 + 1;
        let mut s = String::from_str("-");
        proof {
            reveal_strlit("-");
        }
        let d = digits_text(magnitude);
        s.append(d.as_str());
        assert(s@ =~= seq!['-'] + digits((-n) as nat));
        s
    } else {
        digits_text(n as u128)
    }
}

pub open spec fn name_ok(s: Seq<char>) -> bool {
    regex_matches(NAME_PATTERN@, s)
}

pub open spec fn login_ok(s: Seq<char>) -> bool {
    regex_matches(LOGIN_PATTERN@, s)
}

pub open spec fn email_ok(s: Seq<char>) -> bool {
    regex_matches(EMAIL_PATTERN@, s)
}

/// An id is accepted when its decimal form is made of letters and digits.
pub open spec fn id_ok(n: int) -> bool {
    regex_matches(LOGIN_PATTERN@, decimal(n))
}

/// Why a request was refused.
#[derive(Debug, PartialEq, Eq, Structural)]
pub enum RequestError {
    InvalidLastName,
    InvalidFirstName,
    InvalidLoginId,
    InvalidPassword,
    InvalidEmail,
    EmptyCountry,
    InvalidId,
    InvalidWord,
}

impl RequestError {
    pub open spec fn message_spec(&self) -> Seq<char> {
        match self {
            RequestError::InvalidLastName => "Invalid last name: Contains invalid characters. Only alphabets, numbers, spaces, hyphens, and apostrophes are allowed."@,
            RequestError::InvalidFirstName => "Invalid first name: Contains invalid characters. Only alphabets, numbers, spaces, hyphens, and apostrophes are allowed."@,
            RequestError::InvalidLoginId => "Invalid login id format."@,
            RequestError::InvalidPassword => "Invalid password format."@,
            RequestError::InvalidEmail => "Invalid email format."@,
            RequestError::EmptyCountry => "Country cannot be empty."@,
            RequestError::InvalidId => "Invalid id format."@,
            RequestError::InvalidWord => "Invalid word format."@,
        }
    }

    /// The text that the answer to the caller carries.
    pub fn message(&self) -> (r: String)
        ensures
            r@ == self.message_spec(),
    {
        match self {
            RequestError::InvalidLastName => "Invalid last name: Contains invalid characters. Only alphabets, numbers, spaces, hyphens, and apostrophes are allowed.".to_string(),
            RequestError::InvalidFirstName => "Invalid first name: Contains invalid characters. Only alphabets, numbers, spaces, hyphens, and apostrophes are allowed.".to_string(),
            RequestError::InvalidLoginId => "Invalid login id format.".to_string(),
            RequestError::InvalidPassword => "Invalid password format.".to_string(),
            RequestError::InvalidEmail => "Invalid email format.".to_string(),
            RequestError::EmptyCountry => "Country cannot be empty.".to_string(),
            RequestError::InvalidId => "Invalid id format.".to_string(),
            RequestError::InvalidWord => "Invalid word format.".to_string(),
        }
    }
}

/// The first rule that a pair of names breaks.
pub open spec fn names_outcome(last_name: Seq<char>, first_name: Seq<char>) -> Result<(), RequestError> {
    if !name_ok(last_name) {
        Err(RequestError::InvalidLastName)
    } else if !name_ok(first_name) {
        Err(RequestError::InvalidFirstName)
    } else {
        Ok(())
    }
}

/// The first rule that a pair of credentials breaks.
pub open spec fn credentials_outcome(login_id: Seq<char>, password: Seq<char>) -> Result<(), RequestError> {
    if !login_ok(login_id) {
        Err(RequestError::InvalidLoginId)
    } else if !login_ok(password) {
        Err(RequestError::InvalidPassword)
    } else {
        Ok(())
    }
}

/// The first rule that an e-mail address and a country break.
pub open spec fn contact_outcome(email: Seq<char>, country: Seq<char>) -> Result<(), RequestError> {
    if !email_ok(email) {
        Err(RequestError::InvalidEmail)
    } else if country.len() == 0 {
        Err(RequestError::EmptyCountry)
    } else {
        Ok(())
    }
}

/// An id's outcome: accepted when its decimal form passes the login pattern.
pub open spec fn id_outcome(n: int) -> Result<(), RequestError> {
    if id_ok(n) { Ok(()) } else { Err(RequestError::InvalidId) }
}

/// A word's outcome: accepted when it passes the name pattern.
pub open spec fn word_outcome(w: Seq<char>) -> Result<(), RequestError> {
    if name_ok(w) { Ok(()) } else { Err(RequestError::InvalidWord) }
}

/// The first of two outcomes that fails, else success.
pub open spec fn first_failure(a: Result<(), RequestError>, b: Result<(), RequestError>) -> Result<(), RequestError> {
    if a is Err { a } else { b }
}

pub fn check_names(last_name: &str, first_name: &str) -> (r: Result<(), RequestError>)
    ensures
        r == names_outcome(last_name@, first_name@),
{
    if !pattern_matches(NAME_PATTERN, last_name) {
        Err(RequestError::InvalidLastName)
    } else if !pattern_matches(NAME_PATTERN, first_name) {
        Err(RequestError::InvalidFirstName)
    } else {
        Ok(())
    }
}

pub fn check_credentials(login_id: &str, password: &str) -> (r: Result<(), RequestError>)
    ensures
        r == credentials_outcome(login_id@, password@),
{
    if !pattern_matches(LOGIN_PATTERN, login_id) {
        Err(RequestError::InvalidLoginId)
    } else if !pattern_matches(LOGIN_PATTERN, password) {
        Err(RequestError::InvalidPassword)
    } else {
        Ok(())
    }
}

pub fn check_contact(email: &str, country: &str) -> (r: Result<(), RequestError>)
    ensures
        r == contact_outcome(email@, country@),
{
    if !pattern_matches(EMAIL_PATTERN, email) {
        Err(RequestError::InvalidEmail)
    } else if country.is_empty() {
        Err(RequestError::EmptyCountry)
    } else {
        Ok(())
    }
}

/// Checks that the decimal form of `id` is made of letters and digits.
pub fn check_id(id: i128) -> (r: Result<(), RequestError>)
    ensures
        r == id_outcome(id as int),
{
    let text = decimal_text(id);
    if pattern_matches(LOGIN_PATTERN, text.as_str()) {
        Ok(())
    } else {
        Err(RequestError::InvalidId)
    }
}

/// Checks that `word` is made of letters, digits, whitespace, apostrophes
/// and hyphens.
pub fn check_word(word: &str) -> (r: Result<(), RequestError>)
    ensures
        r == word_outcome(word@),
{
    if pattern_matches(NAME_PATTERN, word) {
        Ok(())
    } else {
        Err(RequestError::InvalidWord)
    }
}

} // verus!
