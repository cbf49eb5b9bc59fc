//! Accounts: registering one and logging in to one.
//!
//! Passwords are hashed and checked by the `argon_hash_password` crate.
//! Logging in alternates questions to the store with decisions; the
//! decisions are [`login`], a function from a state and the store's answer
//! to the next state and the next thing to do.

use vstd::prelude::*;
use vstd::string::*;
use crate::db_structs::LoginTable;
use crate::error::Failure;
use crate::statement::{statement, ParamView, Statement, StatementView};
use crate::token::{issue, issued_token};

verus! {

/// Finds the credentials of the account with the email `$1`.
pub const ACCOUNT_QUERY: &'static str =
    "select salt, password as hashedpass, isdoctor from login where email = $1;";

/// Finds the identifier of the patient with the email `$1`.
pub const PATIENT_ID_QUERY: &'static str = "select id from patients where email = $1;";

/// Finds the identifier of the doctor with the email `$1`.
pub const DOCTOR_ID_QUERY: &'static str = "select id from doctors where email = $1;";

/// Stores an account: email, password hash, salt and role flag.
pub const REGISTER_STATEMENT: &'static str =
    "insert into login(email, password, salt, isdoctor) values ($1, $2, $3, $4)";

/// Whether `argon_hash_password::check_password_matches_hash` finds that
/// `password`, hashed under `salt`, gives `hash`; `None` where it fails, as
/// it does for a salt that is no salt string.
pub uninterp spec fn password_matches(password: Seq<char>, hash: Seq<char>, salt: Seq<char>) -> Option<
    bool,
>;

/// Calls `argon_hash_password::check_password_matches_hash`, which parses
/// the salt, hashes the password under it with Argon2 and compares the
/// outcome with `hash`. The result is a function of the three texts, named
/// [`password_matches`]; its error, a boxed trait object, is dropped.
#[verifier::external_body]
fn check_password(password: &str, hash: &str, salt: &str) -> (r: Option<bool>)
    ensures
        r == password_matches(password@, hash@, salt@),
{
    argon_hash_password::check_password_matches_hash(password, hash, salt).ok()
}

/// Calls `argon_hash_password::create_hash_and_salt`, which draws a random
/// salt from the operating system and hashes the password under it with
/// Argon2, and hands out the hash and the salt; its error, a boxed trait
/// object, is dropped. Which salt is drawn is open; whatever it is,
/// checking the same password against the pair that was made succeeds,
/// since the check hashes in the same way.
#[verifier::external_body]
fn hash_password(password: &str) -> (r: Option<(String, String)>)
    ensures
        r matches Some(pair) ==> password_matches(password@, pair.0@, pair.1@) == Some(true),
{
    argon_hash_password::create_hash_and_salt(password).ok()
}

/// The statement that stores an account.
pub open spec fn register_statement(
    email: Seq<char>,
    hash: Seq<char>,
    salt: Seq<char>,
    isdoctor: bool,
) -> StatementView {
    statement(
        REGISTER_STATEMENT,
        seq![
            ParamView::Text(email),
            ParamView::Text(hash),
            ParamView::Text(salt),
            ParamView::Flag(isdoctor),
        ],
    )
}

/// Where a registration stands.
#[derive(Clone, Copy, Debug, PartialEq, Eq, Structural)]
pub enum RegisterState {
    /// Nothing has been asked yet.
    Start,
    /// The password was hashed; the write has been asked for.
    AwaitInsert,
    /// The registration has ended.
    Finished,
}

/// What the store answered.
#[derive(Clone, Copy, Debug, PartialEq, Eq, Structural)]
pub enum RegisterEvent {
    /// Nothing: the registration begins.
    Begin,
    /// Whether the store accepted the write. It rejects an email that has
    /// an account already.
    Stored(bool),
}

/// What to do next.
#[derive(Debug, PartialEq, Eq)]
pub enum RegisterAction {
    /// Run the statement and come back with [`RegisterEvent::Stored`].
    Insert(Statement),
    /// The registration has ended.
    Return(Result<(), Failure>),
}

/// The next thing to do, with the statement as sequences.
pub enum RegisterActionView {
    Insert(StatementView),
    Return(Result<(), Failure>),
}

impl View for RegisterAction {
    type V = RegisterActionView;

    open spec fn view(&self) -> RegisterActionView {
        match self {
            RegisterAction::Insert(s) => RegisterActionView::Insert(s@),
            RegisterAction::Return(r) => RegisterActionView::Return(*r),
        }
    }
}

/// One step of a registration, given the hash and the salt that were made
/// of the password, if any were. Without them the registration ends as
/// [`Failure::Hashing`]; with them the account is written, and a write
/// that the store rejects ends it as [`Failure::Persistence`]. So does an
/// answer that the state did not ask for.
pub open spec fn register_step(
    email: Seq<char>,
    isdoctor: bool,
    hashed: Option<(Seq<char>, Seq<char>)>,
    state: RegisterState,
    event: RegisterEvent,
) -> (RegisterState, RegisterActionView) {
    match (state, event) {
        (RegisterState::Start, RegisterEvent::Begin) => match hashed {
            Some((hash, salt)) => (
                RegisterState::AwaitInsert,
                RegisterActionView::Insert(register_statement(email, hash, salt, isdoctor)),
            ),
            None => (RegisterState::Finished, RegisterActionView::Return(Err(Failure::Hashing))),
        },
        (RegisterState::AwaitInsert, RegisterEvent::Stored(accepted)) => (
            RegisterState::Finished,
            RegisterActionView::Return(
                if accepted {
                    Ok(())
                } else {
                    Err(Failure::Persistence)
                },
            ),
        ),
        _ => (RegisterState::Finished, RegisterActionView::Return(Err(Failure::Persistence))),
    }
}

/// A hash and a salt as their characters.
pub open spec fn hashed_view(hashed: Option<(String, String)>) -> Option<(Seq<char>, Seq<char>)> {
    match hashed {
        Some(pair) => Some((pair.0@, pair.1@)),
        None => None,
    }
}

/// One step of a registration with the hash and the salt in `hashed`.
pub fn register_with(
    email: &str,
    isdoctor: bool,
    hashed: Option<(String, String)>,
    state: RegisterState,
    event: RegisterEvent,
) -> (r: (RegisterState, RegisterAction))
    ensures
        (r.0, r.1@) == register_step(email@, isdoctor, hashed_view(hashed), state, event),
{
    match (state, event) {
        (RegisterState::Start, RegisterEvent::Begin) => match hashed {
            Some(pair) => {
                let s = Statement::new(REGISTER_STATEMENT).with_text(email).with_text(
                    pair.0.as_str(),
                ).with_text(pair.1.as_str()).with_flag(isdoctor);
                assert(s@.params =~= register_statement(email@, pair.0@, pair.1@, isdoctor).params);
                (RegisterState::AwaitInsert, RegisterAction::Insert(s))
            },
            None => (RegisterState::Finished, RegisterAction::Return(Err(Failure::Hashing))),
        },
        (RegisterState::AwaitInsert, RegisterEvent::Stored(accepted)) => {
            if accepted {
                (RegisterState::Finished, RegisterAction::Return(Ok(())))
            } else {
                (RegisterState::Finished, RegisterAction::Return(Err(Failure::Persistence)))
            }
        },
        _ => (RegisterState::Finished, RegisterAction::Return(Err(Failure::Persistence))),
    }
}

/// One step of registering an account for `email` with `password`. The
/// first step draws a fresh salt, hashes the password under it and asks
/// for the write of email, hash, salt and role; the second ends the
/// registration with the store's answer. Which salt is drawn is open; the
/// step is [`register_step`] for some hash and salt that the same password
/// will be found to match, or for none.
pub fn register(email: &str, password: &str, isdoctor: bool, state: RegisterState, event: RegisterEvent) -> (r: (
    RegisterState,
    RegisterAction,
))
    ensures
        exists|hashed: Option<(Seq<char>, Seq<char>)>|
            {
                &&& (r.0, r.1@) == #[trigger] register_step(email@, isdoctor, hashed, state, event)
                &&& hashed matches Some(pair) ==> password_matches(password@, pair.0, pair.1)
                    == Some(true)
            },
{
    let hashed = match (state, event) {
        (RegisterState::Start, RegisterEvent::Begin) => hash_password(password),
        _ => None,
    };
    let ghost made = hashed_view(hashed);
    let r = register_with(email, isdoctor, hashed, state, event);
    r
}

/// Where a login stands.
#[derive(Clone, Copy, Debug, PartialEq, Eq, Structural)]
pub enum LoginState {
    /// Nothing has been asked yet.
    Start,
    /// The account's credentials have been asked for.
    AwaitAccount,
    /// The password matched; the principal's identifier has been asked for
    /// in the table that `isdoctor` selects.
    AwaitPrincipal { isdoctor: bool },
    /// The login has ended.
    Finished,
}

/// What the store answered.
#[derive(Clone, Debug, PartialEq, Eq)]
pub enum LoginEvent {
    /// Nothing: the login begins.
    Begin,
    /// The account's credentials, or `None` where the lookup found no
    /// account or failed.
    Account(Option<LoginTable>),
    /// The principal's identifier, or `None` where the lookup found no row
    /// or failed.
    Principal(Option<i64>),
}

/// What to do next.
#[derive(Debug, PartialEq, Eq)]
pub enum LoginAction {
    /// Run the statement and come back with [`LoginEvent::Account`].
    FindAccount(Statement),
    /// Run the statement and come back with [`LoginEvent::Principal`].
    FindPrincipal(Statement),
    /// The login has ended, with a token or without.
    Return(Result<String, Failure>),
}

/// Stored credentials, with texts as their characters.
pub struct AccountView {
    pub salt: Seq<char>,
    pub hashedpass: Seq<char>,
    pub isdoctor: bool,
}

impl View for LoginTable {
    type V = AccountView;

    open spec fn view(&self) -> AccountView {
        AccountView { salt: self.salt@, hashedpass: self.hashedpass@, isdoctor: self.isdoctor }
    }
}

/// The store's answer, with texts as their characters.
pub enum LoginEventView {
    Begin,
    Account(Option<AccountView>),
    Principal(Option<i64>),
}

impl View for LoginEvent {
    type V = LoginEventView;

    open spec fn view(&self) -> LoginEventView {
        match self {
            LoginEvent::Begin => LoginEventView::Begin,
            LoginEvent::Account(Some(account)) => LoginEventView::Account(Some(account@)),
            LoginEvent::Account(None) => LoginEventView::Account(None),
            LoginEvent::Principal(id) => LoginEventView::Principal(*id),
        }
    }
}

/// The next thing to do, with texts as their characters.
pub enum LoginActionView {
    FindAccount(StatementView),
    FindPrincipal(StatementView),
    Return(Result<Seq<char>, Failure>),
}

impl View for LoginAction {
    type V = LoginActionView;

    open spec fn view(&self) -> LoginActionView {
        match self {
            LoginAction::FindAccount(s) => LoginActionView::FindAccount(s@),
            LoginAction::FindPrincipal(s) => LoginActionView::FindPrincipal(s@),
            LoginAction::Return(Ok(token)) => LoginActionView::Return(Ok(token@)),
            LoginAction::Return(Err(e)) => LoginActionView::Return(Err(*e)),
        }
    }
}

/// The end of a login without a token.
pub open spec fn refused(why: Failure) -> (LoginState, LoginActionView) {
    (LoginState::Finished, LoginActionView::Return(Err(why)))
}

/// The statement that finds the identifier of the principal with an email,
/// among the doctors or among the patients.
pub open spec fn principal_query(email: Seq<char>, isdoctor: bool) -> StatementView {
    statement(
        if isdoctor { DOCTOR_ID_QUERY } else { PATIENT_ID_QUERY },
        seq![ParamView::Text(email)],
    )
}

/// What follows the account lookup, given what the password check said:
/// without an account, and unless the check said that the password
/// matches, the login is refused as [`Failure::Authentication`]; else the
/// principal's identifier is asked for.
pub open spec fn account_step(
    email: Seq<char>,
    account: Option<AccountView>,
    matched: Option<bool>,
) -> (LoginState, LoginActionView) {
    match account {
        Some(account) => if matched == Some(true) {
            (
                LoginState::AwaitPrincipal { isdoctor: account.isdoctor },
                LoginActionView::FindPrincipal(principal_query(email, account.isdoctor)),
            )
        } else {
            refused(Failure::Authentication)
        },
        None => refused(Failure::Authentication),
    }
}

/// What follows the principal lookup, given the token that was signed:
/// without an identifier the login fails as [`Failure::Persistence`],
/// without a token as [`Failure::Signing`]; else the token is returned.
pub open spec fn principal_step(id: Option<i64>, token: Option<Seq<char>>) -> (
    LoginState,
    LoginActionView,
) {
    match id {
        Some(_) => match token {
            Some(token) => (LoginState::Finished, LoginActionView::Return(Ok(token))),
            None => refused(Failure::Signing),
        },
        None => refused(Failure::Persistence),
    }
}

/// One step of a login. An answer that the state did not ask for ends the
/// login as [`Failure::Persistence`].
pub open spec fn login_step(
    secret: Seq<u8>,
    email: Seq<char>,
    password: Seq<char>,
    state: LoginState,
    event: LoginEventView,
) -> (LoginState, LoginActionView) {
    match (state, event) {
        (LoginState::Start, LoginEventView::Begin) => (
            LoginState::AwaitAccount,
            LoginActionView::FindAccount(statement(ACCOUNT_QUERY, seq![ParamView::Text(email)])),
        ),
        (LoginState::AwaitAccount, LoginEventView::Account(account)) => account_step(
            email,
            account,
            match account {
                Some(a) => password_matches(password, a.hashedpass, a.salt),
                None => None,
            },
        ),
        (LoginState::AwaitPrincipal { isdoctor }, LoginEventView::Principal(id)) => principal_step(
            id,
            match id {
                Some(id) => issued_token(secret, id, isdoctor),
                None => None,
            },
        ),
        _ => refused(Failure::Persistence),
    }
}

/// Decides what follows the account lookup. `matched` is what the password
/// check said of the account's hash and salt; it is not looked at where
/// there is no account.
pub fn after_account(email: &str, account: Option<&LoginTable>, matched: Option<bool>) -> (r: (
    LoginState,
    LoginAction,
))
    ensures
        (r.0, r.1@) == account_step(
            email@,
            match account {
                Some(a) => Some(a@),
                None => None,
            },
            matched,
        ),
{
    match account {
        Some(account) => {
            if let Some(true) = matched {
                let text = if account.isdoctor { DOCTOR_ID_QUERY } else { PATIENT_ID_QUERY };
                let query = Statement::new(text).with_text(email);
                (
                    LoginState::AwaitPrincipal { isdoctor: account.isdoctor },
                    LoginAction::FindPrincipal(query),
                )
            } else {
                (LoginState::Finished, LoginAction::Return(Err(Failure::Authentication)))
            }
        },
        None => (LoginState::Finished, LoginAction::Return(Err(Failure::Authentication))),
    }
}

/// Decides what follows the principal lookup. `token` is what signing said
/// for the identifier; it is not looked at where there is no identifier.
pub fn after_principal(id: Option<i64>, token: Result<String, Failure>) -> (r: (
    LoginState,
    LoginAction,
))
    ensures
        (r.0, r.1@) == principal_step(
            id,
            match token {
                Ok(t) => Some(t@),
                Err(_) => None,
            },
        ),
{
    match id {
        Some(_) => match token {
            Ok(token) => (LoginState::Finished, LoginAction::Return(Ok(token))),
            Err(_) => (LoginState::Finished, LoginAction::Return(Err(Failure::Signing))),
        },
        None => (LoginState::Finished, LoginAction::Return(Err(Failure::Persistence))),
    }
}

/// One step of a login for `email` with `password`: takes the state and
/// the store's answer, checks the password or signs the token as the state
/// asks, and gives the next state and what to do next.
pub fn login(secret: &[u8], email: &str, password: &str, state: LoginState, event: LoginEvent) -> (r: (
    LoginState,
    LoginAction,
))
    ensures
        (r.0, r.1@) == login_step(secret@, email@, password@, state, event@),
{
    match (state, event) {
        (LoginState::Start, LoginEvent::Begin) => {
            let query = Statement::new(ACCOUNT_QUERY).with_text(email);
            (LoginState::AwaitAccount, LoginAction::FindAccount(query))
        },
        (LoginState::AwaitAccount, LoginEvent::Account(Some(account))) => {
            let matched = check_password(
                password,
                account.hashedpass.as_str(),
                account.salt.as_str(),
            );
            after_account(email, Some(&account), matched)
        },
        (LoginState::AwaitAccount, LoginEvent::Account(None)) => after_account(email, None, None),
        (LoginState::AwaitPrincipal { isdoctor }, LoginEvent::Principal(Some(id))) => {
            let token = issue(secret, id, isdoctor);
            after_principal(Some(id), token)
        },
        (LoginState::AwaitPrincipal { isdoctor }, LoginEvent::Principal(None)) => after_principal(
            None,
            Err(Failure::Signing),
        ),
        _ => (LoginState::Finished, LoginAction::Return(Err(Failure::Persistence))),
    }
}

/// A registered password logs in. Let `hash` and `salt` be what a
/// registration wrote for `password`, of which [`register`] promises that
/// the password matches them. Then a login with the same password that
/// finds them passes the password check and asks for the principal's
/// identifier in the table of the registered role; and once the store
/// names the identifier, the login returns the token signed for it, if one
/// can be signed.
pub proof fn lemma_registered_password_logs_in(
    secret: Seq<u8>,
    email: Seq<char>,
    password: Seq<char>,
    isdoctor: bool,
    hash: Seq<char>,
    salt: Seq<char>,
    id: i64,
)
    requires
        password_matches(password, hash, salt) == Some(true),
    ensures
        login_step(
            secret,
            email,
            password,
            LoginState::AwaitAccount,
            LoginEventView::Account(Some(AccountView { salt, hashedpass: hash, isdoctor })),
        ) == (
            LoginState::AwaitPrincipal { isdoctor },
            LoginActionView::FindPrincipal(principal_query(email, isdoctor)),
        ),
        issued_token(secret, id, isdoctor) matches Some(token) ==> login_step(
            secret,
            email,
            password,
            LoginState::AwaitPrincipal { isdoctor },
            LoginEventView::Principal(Some(id)),
        ) == (LoginState::Finished, LoginActionView::Return(Ok(token))),
{
}

/// A password that does not match returns no token: the login ends at the
/// password check, as a failed authentication, and a login that has ended
/// returns no token whatever it is told afterwards.
pub proof fn lemma_wrong_password_gets_no_token(
    secret: Seq<u8>,
    email: Seq<char>,
    wrong: Seq<char>,
    account: AccountView,
    later: LoginEventView,
)
    requires
        password_matches(wrong, account.hashedpass, account.salt) != Some(true),
    ensures
        login_step(
            secret,
            email,
            wrong,
            LoginState::AwaitAccount,
            LoginEventView::Account(Some(account)),
        ) == refused(Failure::Authentication),
        login_step(secret, email, wrong, LoginState::Finished, later) == refused(
            Failure::Persistence,
        ),
{
}

/// A login does not tell an unknown email from a wrong password: both end
/// it in the same way.
pub proof fn lemma_refusals_are_alike(
    secret: Seq<u8>,
    email: Seq<char>,
    password: Seq<char>,
    account: AccountView,
)
    requires
        password_matches(password, account.hashedpass, account.salt) != Some(true),
    ensures
        login_step(
            secret,
            email,
            password,
            LoginState::AwaitAccount,
            LoginEventView::Account(Some(account)),
        ) == login_step(
            secret,
            email,
            password,
            LoginState::AwaitAccount,
            LoginEventView::Account(None),
        ),
{
}

} // verus!
