//! Accounts: what a client hands over to register or to log in, and what
//! it is told.
use vstd::prelude::*;
use vstd::string::StringExecFns;
use crate::auth::{generate_token_at, token_for, TokenError};
use crate::model::text_of;
use crate::text::{contains, has_part};
use crate::time::Timestamp;

verus! {

/// What a client hands over to register.
#[derive(Debug)]
pub struct RegisterRequest {
    pub email: Option<String>,
    pub password: Option<String>,
    pub username: Option<String>,
}

/// What a client hands over to log in.
#[derive(Debug)]
pub struct LoginRequest {
    pub email: Option<String>,
    pub password: Option<String>,
}

/// What a client is told after it logged in.
#[derive(Debug)]
pub struct LoginResponse {
    pub token: String,
    pub id: i64,
    pub email: String,
    pub username: String,
}

/// The token of a session.
#[derive(Debug)]
pub struct AuthResponse {
    pub token: String,
}

/// An error and the field of the form that it concerns.
#[derive(Debug)]
pub struct ErrorResponse {
    pub error: String,
    pub targe: String,
}

/// Either what was asked for or an error.
#[derive(Debug)]
pub enum AuthApiResponse<T> {
    Success(T),
    Error(ErrorResponse),
}

/// The fields of an account that a client may change.
#[derive(Debug)]
pub struct UpdateUserRequest {
    pub username: Option<String>,
    pub email: Option<String>,
}

/// The least number of characters of a password.
pub const PASSWORD_MIN: usize = 6;

/// The least number of characters of a user name.
pub const USERNAME_MIN: usize = 3;

/// What is wrong with one field of a form.
#[derive(Clone, Copy, Debug, PartialEq, Eq, Structural)]
pub enum FieldFault {
    /// The field is not there.
    Required,
    /// The field is no e-mail address.
    NotAnEmail,
    /// The field has fewer characters than it must.
    TooShort,
}

/// What is wrong with a form, field by field.
#[derive(Clone, Copy, Debug, PartialEq, Eq, Structural)]
pub struct FormFaults {
    pub email: Option<FieldFault>,
    pub password: Option<FieldFault>,
    pub username: Option<FieldFault>,
}

impl FormFaults {
    /// Nothing is wrong.
    pub open spec fn none(self) -> bool {
        self.email is None && self.password is None && self.username is None
    }

    pub fn is_none(&self) -> (none: bool)
        ensures
            none == self.none(),
    {
        self.email.is_none() && self.password.is_none() && self.username.is_none()
    }
}

/// Whether `validator` takes a text for an e-mail address.
pub uninterp spec fn is_email(text: Seq<char>) -> bool;

/// Tests a text with `validator::ValidateEmail::validate_email`.
///
/// The contract gives the result a name: the same text always gets the same
/// answer.
#[verifier::external_body]
pub(crate) fn looks_like_email(text: &str) -> (yes: bool)
    ensures
        yes == is_email(text@),
{
    validator::ValidateEmail::validate_email(&text)
}

/// What is wrong with a field that must be there and have `min` characters
/// or more.
pub open spec fn length_fault(field: Option<Seq<char>>, min: nat) -> Option<FieldFault> {
    match field {
        None => Some(FieldFault::Required),
        Some(text) => if text.len() < min {
            Some(FieldFault::TooShort)
        } else {
            None
        },
    }
}

/// What is wrong with a field that must be there and be an e-mail address,
/// given whether it is one.
pub open spec fn email_fault(field: Option<Seq<char>>, is_email: bool) -> Option<FieldFault> {
    match field {
        None => Some(FieldFault::Required),
        Some(_) => if is_email {
            None
        } else {
            Some(FieldFault::NotAnEmail)
        },
    }
}

/// What is wrong with the e-mail field of a form.
pub open spec fn email_field_fault(field: Option<Seq<char>>) -> Option<FieldFault> {
    match field {
        None => Some(FieldFault::Required),
        Some(text) => email_fault(field, is_email(text)),
    }
}

/// Checks a field that must be there and have `min` characters or more.
pub fn check_length(field: &Option<String>, min: usize) -> (fault: Option<FieldFault>)
    ensures
        fault == length_fault(text_of(*field), min as nat),
{
    match field {
        None => Some(FieldFault::Required),
        Some(text) => if text.as_str().unicode_len() < min {
            Some(FieldFault::TooShort)
        } else {
            None
        },
    }
}

/// Says what is wrong with an e-mail field, given whether it is an e-mail
/// address.
pub fn judge_email(present: bool, is_email: bool) -> (fault: Option<FieldFault>)
    ensures
        fault == if !present {
            Some(FieldFault::Required)
        } else if is_email {
            None
        } else {
            Some(FieldFault::NotAnEmail)
        },
{
    if !present {
        Some(FieldFault::Required)
    } else if is_email {
        None
    } else {
        Some(FieldFault::NotAnEmail)
    }
}

/// Checks a field that must be there and be an e-mail address.
pub fn check_email(field: &Option<String>) -> (fault: Option<FieldFault>)
    ensures
        fault == email_field_fault(text_of(*field)),
{
    match field {
        None => judge_email(false, false),
        Some(text) => judge_email(true, looks_like_email(text.as_str())),
    }
}

impl RegisterRequest {
    /// What is wrong with the form.
    pub open spec fn faults(self) -> FormFaults {
        FormFaults {
            email: email_field_fault(text_of(self.email)),
            password: length_fault(text_of(self.password), PASSWORD_MIN as nat),
            username: length_fault(text_of(self.username), USERNAME_MIN as nat),
        }
    }

    /// Checks the form: every field is there, the e-mail address is one,
    /// the password has 6 characters or more and the user name 3 or more.
    pub fn validate(&self) -> (checked: Result<(), FormFaults>)
        ensures
            checked is Ok <==> self.faults().none(),
            checked matches Err(faults) ==> faults == self.faults(),
    {
        let faults = FormFaults {
            email: check_email(&self.email),
            password: check_length(&self.password, PASSWORD_MIN),
            username: check_length(&self.username, USERNAME_MIN),
        };
        if faults.is_none() {
            Ok(())
        } else {
            Err(faults)
        }
    }
}

impl LoginRequest {
    /// What is wrong with the form.
    pub open spec fn faults(self) -> FormFaults {
        FormFaults {
            email: email_field_fault(text_of(self.email)),
            password: length_fault(text_of(self.password), PASSWORD_MIN as nat),
            username: None,
        }
    }

    /// Checks the form: both fields are there, the e-mail address is one,
    /// and the password has 6 characters or more.
    pub fn validate(&self) -> (checked: Result<(), FormFaults>)
        ensures
            checked is Ok <==> self.faults().none(),
            checked matches Err(faults) ==> faults == self.faults(),
    {
        let faults = FormFaults {
            email: check_email(&self.email),
            password: check_length(&self.password, PASSWORD_MIN),
            username: None,
        };
        if faults.is_none() {
            Ok(())
        } else {
            Err(faults)
        }
    }
}

impl UpdateUserRequest {
    /// The user name and e-mail address of an account after the change:
    /// those of the request where it names them, else those the account
    /// has.
    pub fn apply(self, username: String, email: String) -> (changed: (String, String))
        ensures
            changed.0@ == match self.username {
                Some(name) => name@,
                None => username@,
            },
            changed.1@ == match self.email {
                Some(address) => address@,
                None => email@,
            },
    {
        (
            match self.username {
                Some(name) => name,
                None => username,
            },
            match self.email {
                Some(address) => address,
                None => email,
            },
        )
    }
}

/// An account as the user directory keeps it.
#[derive(Debug)]
pub struct User {
    pub id: i64,
    pub email: String,
    pub username: String,
    pub password: String,
    pub is_active: bool,
    pub is_admin: bool,
    pub is_verified: bool,
    pub is_staff: bool,
    pub last_login: Option<Timestamp>,
    pub email_verified_at: Option<Timestamp>,
    pub created_at: Timestamp,
    pub updated_at: Timestamp,
}

/// An account as it is shown: without the password.
#[derive(Debug)]
pub struct SafeUser {
    pub id: i64,
    pub email: String,
    pub username: String,
    pub is_active: bool,
    pub is_admin: bool,
    pub is_verified: bool,
    pub is_staff: bool,
    pub last_login: Option<Timestamp>,
    pub email_verified_at: Option<Timestamp>,
    pub created_at: Timestamp,
    pub updated_at: Timestamp,
}

impl SafeUser {
    /// The account `user` without its password.
    pub open spec fn shows(self, user: User) -> bool {
        &&& self.id == user.id
        &&& self.email == user.email
        &&& self.username == user.username
        &&& self.is_active == user.is_active
        &&& self.is_admin == user.is_admin
        &&& self.is_verified == user.is_verified
        &&& self.is_staff == user.is_staff
        &&& self.last_login == user.last_login
        &&& self.email_verified_at == user.email_verified_at
        &&& self.created_at == user.created_at
        &&& self.updated_at == user.updated_at
    }

    /// Shows an account.
    pub fn of(user: User) -> (shown: SafeUser)
        ensures
            shown.shows(user),
    {
        SafeUser {
            id: user.id,
            email: user.email,
            username: user.username,
            is_active: user.is_active,
            is_admin: user.is_admin,
            is_verified: user.is_verified,
            is_staff: user.is_staff,
            last_login: user.last_login,
            email_verified_at: user.email_verified_at,
            created_at: user.created_at,
            updated_at: user.updated_at,
        }
    }
}

/// What was asked for, or an error, one of them.
#[derive(Debug)]
pub struct ApiResponse<T> {
    pub data: Option<T>,
    pub error: Option<String>,
}

/// Whether a password fits a hash, as `argon2` judges it; nothing where
/// the hash is no hash.
pub uninterp spec fn password_fits(password: Seq<char>, hash: Seq<char>) -> Option<bool>;

/// Checks a password against a hash with `argon2`: the hash is parsed by
/// `PasswordHash::new` and the password verified by
/// `PasswordVerifier::verify_password` of the default `Argon2`.
///
/// The contract gives the result a name: the same password and hash always
/// get the same answer.
#[verifier::external_body]
pub(crate) fn verify_password(password: &str, hash: &str) -> (fits: Option<bool>)
    ensures
        fits == password_fits(password@, hash@),
{
    match argon2::PasswordHash::new(hash) {
        Ok(parsed) => Some(
            argon2::PasswordVerifier::verify_password(
                &argon2::Argon2::default(),
                password.as_bytes(),
                &parsed,
            ).is_ok(),
        ),
        Err(_) => None,
    }
}

/// Hashes a password with the default `Argon2` under a salt that
/// `SaltString::generate` draws from the operating system.
///
/// Which hash comes out is not claimed: the salt is drawn at random. What
/// is claimed is what the documentation of `argon2` shows of every hash
/// that its `hash_password` hands out: written as a string and parsed
/// again, it is a hash that the password fits. Where the operating system
/// hands out no random bytes, drawing the salt panics.
#[verifier::external_body]
pub(crate) fn hash_password(password: &str) -> (hash: Option<String>)
    ensures
        hash matches Some(h) ==> password_fits(password@, h@) == Some(true),
{
    let salt = password_hash::SaltString::generate(&mut rand::rngs::OsRng);
    let hasher = argon2::Argon2::default();
    argon2::PasswordHasher::hash_password(&hasher, password.as_bytes(), &salt).ok().map(
        |h| h.to_string(),
    )
}

/// What the user directory answered to a search.
#[derive(Debug)]
pub enum Lookup {
    Found,
    NotFound,
    Failed(String),
}

/// What a failed search amounts to: nothing found where the failure says
/// `not found`, a failure otherwise.
pub fn lookup_failure(error: String) -> (lookup: Lookup)
    ensures
        match lookup {
            Lookup::NotFound => has_part(error@, "not found"@),
            Lookup::Failed(reason) => !has_part(error@, "not found"@) && reason == error,
            Lookup::Found => false,
        },
{
    if contains(error.as_str(), "not found") {
        Lookup::NotFound
    } else {
        Lookup::Failed(error)
    }
}

/// What is to be done next for a registration.
#[derive(Debug)]
pub enum RegistrationStep {
    /// The directory is searched for the user name.
    FindUsername,
    /// The directory is searched for the e-mail address.
    FindEmail,
    /// The account is created.
    Create,
    /// The registration ends with this status and error.
    Refuse { status: u16, error: ErrorResponse },
}

/// The view of a registration step: for a refusal its status, words and
/// field.
pub enum RegistrationStepView {
    FindUsername,
    FindEmail,
    Create,
    Refuse { status: u16, error: Seq<char>, targe: Seq<char> },
}

impl View for RegistrationStep {
    type V = RegistrationStepView;

    open spec fn view(&self) -> RegistrationStepView {
        match self {
            RegistrationStep::FindUsername => RegistrationStepView::FindUsername,
            RegistrationStep::FindEmail => RegistrationStepView::FindEmail,
            RegistrationStep::Create => RegistrationStepView::Create,
            RegistrationStep::Refuse { status, error } => RegistrationStepView::Refuse {
                status: *status,
                error: error.error@,
                targe: error.targe@,
            },
        }
    }
}

impl FieldFault {
    /// The fault in words.
    pub open spec fn text(self) -> Seq<char> {
        match self {
            FieldFault::Required => "is required"@,
            FieldFault::NotAnEmail => "must be an e-mail address"@,
            FieldFault::TooShort => "is too short"@,
        }
    }

    pub fn message(&self) -> (text: &'static str)
        ensures
            text@ == self.text(),
    {
        match self {
            FieldFault::Required => "is required",
            FieldFault::NotAnEmail => "must be an e-mail address",
            FieldFault::TooShort => "is too short",
        }
    }
}

/// What is said of one field of a form: nothing where nothing is wrong
/// with it.
pub open spec fn field_words(name: Seq<char>, fault: Option<FieldFault>) -> Seq<char> {
    match fault {
        Some(f) => " "@ + name + " "@ + f.text() + "."@,
        None => Seq::empty(),
    }
}

impl FormFaults {
    /// The faults in words.
    pub open spec fn text(self) -> Seq<char> {
        "Validation error:"@ + field_words("email"@, self.email) + field_words(
            "password"@,
            self.password,
        ) + field_words("username"@, self.username)
    }

    /// The faults in words.
    pub fn message(&self) -> (text: String)
        ensures
            text@ == self.text(),
    {
        let mut text = "Validation error:".to_owned();
        add_field_words(&mut text, "email", self.email);
        add_field_words(&mut text, "password", self.password);
        add_field_words(&mut text, "username", self.username);
        text
    }
}

fn add_field_words(text: &mut String, name: &str, fault: Option<FieldFault>)
    ensures
        final(text)@ == old(text)@ + field_words(name@, fault),
{
    match fault {
        Some(f) => {
            let ghost before = text@;
            text.append(" ");
            text.append(name);
            text.append(" ");
            text.append(f.message());
            text.append(".");
            assert(text@ =~= before + (" "@ + name@ + " "@ + f.text() + "."@));
        },
        None => {
            assert(text@ =~= text@ + Seq::<char>::empty());
        },
    }
}

fn refuse(status: u16, error: &str, targe: &str) -> (step: RegistrationStep)
    ensures
        step@ == (RegistrationStepView::Refuse { status, error: error@, targe: targe@ }),
{
    RegistrationStep::Refuse {
        status,
        error: ErrorResponse { error: error.to_owned(), targe: targe.to_owned() },
    }
}

/// The first step of a registration: a form with a fault is refused with
/// the status 400; for a form without, the directory is searched for the
/// user name.
pub fn begin_registration(request: &RegisterRequest) -> (step: RegistrationStep)
    ensures
        step@ == if request.faults().none() {
            RegistrationStepView::FindUsername
        } else {
            RegistrationStepView::Refuse {
                status: 400,
                error: request.faults().text(),
                targe: "error"@,
            }
        },
{
    match request.validate() {
        Ok(()) => RegistrationStep::FindUsername,
        Err(faults) => refuse(400, faults.message().as_str(), "error"),
    }
}

/// The step after the search for the user name: a name that is taken is
/// refused with the status 409, a failed search with 500; else the
/// directory is searched for the e-mail address.
pub fn after_username(lookup: Lookup) -> (step: RegistrationStep)
    ensures
        step@ == match lookup {
            Lookup::Found => RegistrationStepView::Refuse {
                status: 409,
                error: "Username already taken, Choose another username."@,
                targe: "username_error"@,
            },
            Lookup::Failed(reason) => RegistrationStepView::Refuse {
                status: 500,
                error: reason@,
                targe: "error"@,
            },
            Lookup::NotFound => RegistrationStepView::FindEmail,
        },
{
    match lookup {
        Lookup::Found => refuse(
            409,
            "Username already taken, Choose another username.",
            "username_error",
        ),
        Lookup::Failed(reason) => refuse(500, reason.as_str(), "error"),
        Lookup::NotFound => RegistrationStep::FindEmail,
    }
}

/// The step after the search for the e-mail address: an address that is
/// in use is refused with the status 409, a failed search with 500; else
/// the account is created.
pub fn after_email(lookup: Lookup) -> (step: RegistrationStep)
    ensures
        step@ == match lookup {
            Lookup::Found => RegistrationStepView::Refuse {
                status: 409,
                error: "Email already been used by another user."@,
                targe: "email_error"@,
            },
            Lookup::Failed(reason) => RegistrationStepView::Refuse {
                status: 500,
                error: reason@,
                targe: "error"@,
            },
            Lookup::NotFound => RegistrationStepView::Create,
        },
{
    match lookup {
        Lookup::Found => refuse(409, "Email already been used by another user.", "email_error"),
        Lookup::Failed(reason) => refuse(500, reason.as_str(), "error"),
        Lookup::NotFound => RegistrationStep::Create,
    }
}

/// The end of a registration: the account with the status 201, or the
/// error of creating it with the status 400.
pub fn after_create(created: Result<SafeUser, String>) -> (answer: (u16, AuthApiResponse<SafeUser>))
    ensures
        match created {
            Ok(user) => answer.0 == 201 && answer.1 == AuthApiResponse::Success(user),
            Err(reason) => answer.0 == 400 && answer.1 is Error && answer.1->Error_0.error == reason
                && answer.1->Error_0.targe@ == ""@,
        },
{
    match created {
        Ok(user) => (201, AuthApiResponse::Success(user)),
        Err(reason) => (
            400,
            AuthApiResponse::Error(ErrorResponse { error: reason, targe: "".to_owned() }),
        ),
    }
}

/// The password of a new account, hashed for the directory: a hash that
/// the password of the request fits, so that a login with that password is
/// accepted. There is none for a request without a password, and none
/// where the password could not be hashed.
pub fn hash_new_password(request: &RegisterRequest) -> (hash: Option<String>)
    ensures
        request.password is None ==> hash is None,
        hash matches Some(h) ==> request.password is Some && password_fits(
            request.password.unwrap()@,
            h@,
        ) == Some(true),
{
    match &request.password {
        Some(password) => hash_password(password.as_str()),
        None => None,
    }
}

/// Why a login failed.
#[derive(Clone, Copy, Debug, PartialEq, Eq, Structural)]
pub enum LoginError {
    /// There is no such account, or the password does not fit it.
    InvalidCredentials,
    /// The password of the account is kept in a form that cannot be read.
    UnreadableHash,
    /// No token could be made.
    NoToken(TokenError),
}

impl LoginError {
    /// The error in words.
    pub open spec fn text(self) -> Seq<char> {
        match self {
            LoginError::InvalidCredentials => "Invalid credentials"@,
            LoginError::UnreadableHash => "Invalid password hash"@,
            LoginError::NoToken(TokenError::NoSecret) => "JWT_SECRET must be set in .env"@,
            LoginError::NoToken(TokenError::InvalidExpiry) => "Invalid expiration time"@,
            LoginError::NoToken(TokenError::Unsigned) => "Token could not be signed"@,
        }
    }

    pub fn message(&self) -> (text: &'static str)
        ensures
            text@ == self.text(),
    {
        match self {
            LoginError::InvalidCredentials => "Invalid credentials",
            LoginError::UnreadableHash => "Invalid password hash",
            LoginError::NoToken(TokenError::NoSecret) => "JWT_SECRET must be set in .env",
            LoginError::NoToken(TokenError::InvalidExpiry) => "Invalid expiration time",
            LoginError::NoToken(TokenError::Unsigned) => "Token could not be signed",
        }
    }
}

/// A login response as plain values.
pub struct LoginResponseView {
    pub token: Seq<char>,
    pub id: i64,
    pub email: Seq<char>,
    pub username: Seq<char>,
}

impl View for LoginResponse {
    type V = LoginResponseView;

    open spec fn view(&self) -> LoginResponseView {
        LoginResponseView {
            token: self.token@,
            id: self.id,
            email: self.email@,
            username: self.username@,
        }
    }
}

/// What a login comes to, given whether the password fits the account and
/// the token that was made for it: the token together with the id, e-mail
/// address and user name of the account, for an account that is there and
/// a password that fits.
pub open spec fn login_result(
    user: Option<User>,
    fits: Option<bool>,
    token: Result<Seq<char>, TokenError>,
) -> Result<LoginResponseView, LoginError> {
    match user {
        None => Err(LoginError::InvalidCredentials),
        Some(account) => match fits {
            None => Err(LoginError::UnreadableHash),
            Some(false) => Err(LoginError::InvalidCredentials),
            Some(true) => match token {
                Ok(t) => Ok(
                    LoginResponseView {
                        token: t,
                        id: account.id,
                        email: account.email@,
                        username: account.username@,
                    },
                ),
                Err(e) => Err(LoginError::NoToken(e)),
            },
        },
    }
}

/// The view of the outcome of a login.
pub open spec fn login_view(outcome: Result<LoginResponse, LoginError>) -> Result<
    LoginResponseView,
    LoginError,
> {
    match outcome {
        Ok(r) => Ok(r@),
        Err(e) => Err(e),
    }
}

/// Logs a user in at the time `now`: `user` is the account that the
/// directory holds under the e-mail address of the request, if it holds
/// one.
pub fn login_at(user: Option<&User>, password: &str, secret: Option<&[u8]>, now: Timestamp) -> (outcome:
    Result<LoginResponse, LoginError>)
    ensures
        login_view(outcome) == match user {
            None => Err::<LoginResponseView, LoginError>(LoginError::InvalidCredentials),
            Some(account) => login_result(
                Some(*account),
                password_fits(password@, account.password@),
                token_for(
                    account.id,
                    account.email@,
                    account.is_admin,
                    match secret {
                        Some(s) => Some(s@),
                        None => None,
                    },
                    now,
                ),
            ),
        },
{
    let account = match user {
        Some(account) => account,
        None => {
            return Err(LoginError::InvalidCredentials);
        },
    };
    match verify_password(password, account.password.as_str()) {
        None => Err(LoginError::UnreadableHash),
        Some(false) => Err(LoginError::InvalidCredentials),
        Some(true) => match generate_token_at(
            account.id,
            account.email.as_str(),
            account.is_admin,
            secret,
            now,
        ) {
            Ok(token) => Ok(
                LoginResponse {
                    token,
                    id: account.id,
                    email: account.email.clone(),
                    username: account.username.clone(),
                },
            ),
            Err(e) => Err(LoginError::NoToken(e)),
        },
    }
}

/// The answer to a login: the response with the status 200, or the error
/// with the status 401.
pub fn login_answer(outcome: Result<LoginResponse, LoginError>) -> (answer: (
    u16,
    AuthApiResponse<LoginResponse>,
))
    ensures
        match outcome {
            Ok(response) => answer.0 == 200 && answer.1 == AuthApiResponse::Success(response),
            Err(e) => answer.0 == 401 && answer.1 is Error && answer.1->Error_0.error@ == e.text()
                && answer.1->Error_0.targe@ == "error"@,
        },
{
    match outcome {
        Ok(response) => (200, AuthApiResponse::Success(response)),
        Err(e) => (
            401,
            AuthApiResponse::Error(
                ErrorResponse { error: e.message().to_owned(), targe: "error".to_owned() },
            ),
        ),
    }
}

/// The answer to a login form with a fault: the faults with the status 400.
pub fn login_refusal(faults: FormFaults) -> (answer: (u16, AuthApiResponse<LoginResponse>))
    ensures
        answer.0 == 400,
        answer.1 is Error,
        answer.1->Error_0.error@ == faults.text(),
        answer.1->Error_0.targe@ == "error"@,
{
    (
        400,
        AuthApiResponse::Error(ErrorResponse { error: faults.message(), targe: "error".to_owned() }),
    )
}

} // verus!
