//! Canvas: the SIS import rows, the import URLs, the HR training course, the polling
//! of an import, and the helpers of the paginated proxy.

pub mod csv_defs;
pub mod depaginate;
pub mod training;

use vstd::prelude::*;
use crate::text::{concat_str, spec_decimal, u64_to_decimal};
use crate::canvas::depaginate::pair_views;
use crate::canvas::csv_defs::{ASDStatus, AuthenticationProviderId, LoginId, User, UserId};

verus! {

#[verifier::external_type_specification]
#[verifier::external_body]
pub struct ExUrlParseError(url::ParseError);

/// Names the serialisation of the URL that `url::Url::parse` reads from `input`, or
/// `None` where it refuses it.
pub uninterp spec fn spec_url_parse(input: Seq<char>) -> Option<Seq<char>>;

/// Names the serialisation of the URL that `url::Url::join` gives for `input` against
/// the URL parsed from `base`, or `None` where either step refuses.
pub uninterp spec fn spec_url_join(base: Seq<char>, input: Seq<char>) -> Option<Seq<char>>;

/// Parses an absolute URL with `url::Url::parse` and returns its serialisation
/// (`Url::as_str`). The contract claims that the outcome depends on `input` alone
/// (named by `spec_url_parse`); the URL grammar is not restated.
#[verifier::external_body]
fn url_parse(input: &str) -> (r: Result<String, url::ParseError>)
    ensures
        r is Ok <==> spec_url_parse(input@) is Some,
        r matches Ok(s) ==> s@ == spec_url_parse(input@).unwrap(),
{
    url::Url::parse(input).map(|u| u.as_str().to_owned())
}

/// Resolves `input` against the URL serialised in `base` with `url::Url::parse`
/// followed by `url::Url::join`, and returns the serialisation of the result. The
/// contract claims that the outcome depends on the two strings alone (named by
/// `spec_url_join`).
#[verifier::external_body]
fn url_join(base: &str, input: &str) -> (r: Result<String, url::ParseError>)
    ensures
        r is Ok <==> spec_url_join(base@, input@) is Some,
        r matches Ok(s) ==> s@ == spec_url_join(base@, input@).unwrap(),
{
    url::Url::parse(base).and_then(|b| b.join(input)).map(|u| u.as_str().to_owned())
}

/// Names the serialisation of the URL that `url::Url::parse` reads from `input` once
/// `query_pairs_mut().extend_pairs` has appended `pairs` to its query, or `None` where
/// the parse fails.
pub uninterp spec fn spec_url_with_query(input: Seq<char>, pairs: Seq<(Seq<char>, Seq<char>)>) -> Option<Seq<char>>;

/// The number of characters in the keys and values of `pairs`.
pub open spec fn pairs_text_len(pairs: Seq<(Seq<char>, Seq<char>)>) -> nat
    decreases pairs.len(),
{
    if pairs.len() == 0 {
        0
    } else {
        pairs_text_len(pairs.drop_last()) + pairs.last().0.len() + pairs.last().1.len()
    }
}

/// The longest URL text, with its query, that a proxied request may build: short
/// enough that its serialisation, percent-encoded, stays within the `u32` offsets
/// that `url` keeps.
pub open spec fn url_text_fits(input: Seq<char>, pairs: Seq<(Seq<char>, Seq<char>)>) -> bool {
    input.len() + pairs_text_len(pairs) + 2 * pairs.len() <= 0x1000_0000
}

/// Parses an absolute URL with `url::Url::parse`, appends `pairs` to its query with
/// `Url::query_pairs_mut().extend_pairs` (which cannot fail) and returns the
/// serialisation. The contract claims that the outcome depends on the arguments alone
/// (named by `spec_url_with_query`) and that it fails exactly where the parse does; the
/// query encoding is not restated. `url` panics when a URL with a fragment grows past
/// `u32` offsets, so the text is bounded.
#[verifier::external_body]
pub(crate) fn url_with_query(input: &str, pairs: &Vec<(String, String)>) -> (r: Result<String, url::ParseError>)
    requires
        url_text_fits(input@, pair_views(pairs@)),
    ensures
        r is Ok <==> spec_url_with_query(input@, pair_views(pairs@)) is Some,
        r is Ok <==> spec_url_parse(input@) is Some,
        r matches Ok(s) ==> s@ == spec_url_with_query(input@, pair_views(pairs@)).unwrap(),
{
    let mut u = url::Url::parse(input)?;
    u.query_pairs_mut().extend_pairs(pairs.iter());
    Ok(u.as_str().to_owned())
}

/// Why a Canvas URL could not be built, or an import could not be followed.
#[derive(Debug)]
pub enum CanvasError {
    /// A URL that `url` refuses.
    InvalidUrl(url::ParseError),
    /// The reply to an import is not a JSON object.
    ImportNotAnObject,
    /// The reply to an import has no `id`.
    ImportWithoutId,
    /// The `id` of an import is not an unsigned integer.
    ImportIdNotU64,
}

/// Connection settings for Canvas.
pub struct Settings {
    pub base_url: String,
    pub token: String,
    pub account: String,
    pub username: String,
    pub password: String,
    /// The account's API URL, built from `base_url` and `account` by `rebuild_cache`.
    pub sis_account_url: String,
}

/// The account API URL text before it is parsed.
pub open spec fn spec_account_url_text(base_url: Seq<char>, account: Seq<char>) -> Seq<char> {
    base_url + "/api/v1/accounts/"@ + account + "/"@
}

impl Settings {
    /// The account URL that settings hold before `rebuild_cache`: `https://unset/`
    /// (what `Url::parse("https://unset/")` serialises to).
    pub fn default_url() -> (s: String)
        ensures
            s@ == "https://unset/"@,
    {
        "https://unset/".to_owned()
    }

    /// Settings with the account API URL built from `base_url` and `account`
    /// (`{base_url}/api/v1/accounts/{account}/`), or the error of parsing it.
    pub fn rebuild_cache(self) -> (r: Result<Settings, CanvasError>)
        ensures
            match spec_url_parse(spec_account_url_text(self.base_url@, self.account@)) {
                Some(u) => r matches Ok(s) && s.sis_account_url@ == u
                    && s.base_url == self.base_url && s.token == self.token && s.account == self.account
                    && s.username == self.username && s.password == self.password,
                None => r matches Err(CanvasError::InvalidUrl(_)),
            },
    {
        let text = concat_str(self.base_url.as_str(), "/api/v1/accounts/");
        let text = concat_str(text.as_str(), self.account.as_str());
        let text = concat_str(text.as_str(), "/");
        match url_parse(text.as_str()) {
            Ok(u) => Ok(Settings { sis_account_url: u, ..self }),
            Err(e) => Err(CanvasError::InvalidUrl(e)),
        }
    }

    /// The URL to which SIS imports are posted: `sis_imports` under the account URL.
    pub fn get_sis_import_url(&self) -> (r: Result<String, CanvasError>)
        ensures
            match spec_url_join(self.sis_account_url@, "sis_imports"@) {
                Some(u) => r matches Ok(s) && s@ == u,
                None => r matches Err(CanvasError::InvalidUrl(_)),
            },
    {
        match url_join(self.sis_account_url.as_str(), "sis_imports") {
            Ok(u) => Ok(u),
            Err(e) => Err(CanvasError::InvalidUrl(e)),
        }
    }

    /// The URL at which the import `workflow_id` is checked: `sis_imports/{id}` under
    /// the account URL.
    pub fn get_sis_check_url(&self, workflow_id: u64) -> (r: Result<String, CanvasError>)
        ensures
            match spec_url_join(self.sis_account_url@, "sis_imports/"@ + spec_decimal(workflow_id as nat)) {
                Some(u) => r matches Ok(s) && s@ == u,
                None => r matches Err(CanvasError::InvalidUrl(_)),
            },
    {
        let id = u64_to_decimal(workflow_id);
        let path = concat_str("sis_imports/", id.as_str());
        match url_join(self.sis_account_url.as_str(), path.as_str()) {
            Ok(u) => Ok(u),
            Err(e) => Err(CanvasError::InvalidUrl(e)),
        }
    }
}

impl Default for Settings {
    fn default() -> (s: Settings)
        ensures
            s.base_url@ == "https://yoururl.instructure.com"@,
            s.token@ == "accesstokenhereabcdefghijklmnopqrstuvwxyz"@,
            s.account@ == "12345"@,
            s.username@ == "usernamehere"@,
            s.password@ == "passwordhere"@,
            s.sis_account_url@ == "https://unset/"@,
    {
        Settings {
            base_url: "https://yoururl.instructure.com".to_owned(),
            token: "accesstokenhereabcdefghijklmnopqrstuvwxyz".to_owned(),
            account: "12345".to_owned(),
            username: "usernamehere".to_owned(),
            password: "passwordhere".to_owned(),
            sis_account_url: Settings::default_url(),
        }
    }
}

/// The shape of a JSON field in a reply from Canvas, as far as the logic needs it.
pub enum JsonField<T> {
    /// The reply is not a JSON object.
    NotAnObject,
    /// The object has no such key.
    Missing,
    /// The key holds a value of another type.
    OtherType,
    /// The key holds this value.
    Value(T),
}

/// The ID of a posted SIS import, from the `id` field of Canvas's reply.
pub fn sis_import_id(id: JsonField<u64>) -> (r: Result<u64, CanvasError>)
    ensures
        match id {
            JsonField::NotAnObject => r matches Err(CanvasError::ImportNotAnObject),
            JsonField::Missing => r matches Err(CanvasError::ImportWithoutId),
            JsonField::OtherType => r matches Err(CanvasError::ImportIdNotU64),
            JsonField::Value(n) => r == Ok::<u64, CanvasError>(n),
        },
{
    match id {
        JsonField::NotAnObject => Err(CanvasError::ImportNotAnObject),
        JsonField::Missing => Err(CanvasError::ImportWithoutId),
        JsonField::OtherType => Err(CanvasError::ImportIdNotU64),
        JsonField::Value(n) => Ok(n),
    }
}

/// How many times an import is checked before giving up.
pub const MAX_WORKFLOW_CHECKS: u32 = 180;

/// The longest pause between two checks of an import, in seconds.
pub const MAX_SLEEP_SECS: u64 = 15;

/// What to do after a check of an import.
#[derive(Debug, PartialEq, Eq, Structural)]
pub enum PollStep {
    /// The import finished.
    Done,
    /// The import is still running: wait this many seconds and check again.
    Wait(u64),
}

/// Why following an import failed.
#[derive(Debug)]
pub enum WorkflowError {
    /// The reply is not a JSON object.
    NotAnObject,
    /// The reply has no `workflow_state`.
    NoWorkflowState,
    /// `workflow_state` is not a string.
    StateNotAString,
    /// The import ended in a state other than imported; the state.
    Issue(String),
    /// The import was still running after the last check.
    TimedOut,
}

/// The pause after the one of `secs` seconds: a second longer, up to fifteen.
pub open spec fn spec_next_sleep(secs: u64) -> u64 {
    if secs < MAX_SLEEP_SECS {
        (secs + 1) as u64
    } else {
        MAX_SLEEP_SECS
    }
}

/// The state of following one SIS import: how many checks said it is still running,
/// and how long to wait before the next check.
pub struct WorkflowPoll {
    pub checks: u32,
    pub sleep_secs: u64,
}

impl WorkflowPoll {
    /// A poll may go on: it waited fewer times than the limit, and its pause is between
    /// one and fifteen seconds.
    pub open spec fn wf(&self) -> bool {
        &&& self.checks <= MAX_WORKFLOW_CHECKS
        &&& 1 <= self.sleep_secs <= MAX_SLEEP_SECS
    }

    /// A poll before its first check: one second of pause.
    pub fn new() -> (p: WorkflowPoll)
        ensures
            p.wf(),
            p.checks == 0,
            p.sleep_secs == 1,
    {
        WorkflowPoll { checks: 0, sleep_secs: 1 }
    }

    /// Whether another check is allowed.
    pub fn can_check(&self) -> (r: bool)
        ensures
            r == (self.checks < MAX_WORKFLOW_CHECKS),
    {
        self.checks < MAX_WORKFLOW_CHECKS
    }

    /// The error once no check is left.
    pub fn timed_out(&self) -> (e: WorkflowError)
        ensures
            e is TimedOut,
    {
        WorkflowError::TimedOut
    }

    /// Decides on the `workflow_state` of a check's reply: `imported` and
    /// `imported_with_messages` end the poll; `importing` and `created` mean waiting the
    /// current pause, which then grows by a second up to fifteen; any other state, or a
    /// reply without a string state, fails.
    pub fn on_reply(&mut self, state: JsonField<String>) -> (r: Result<PollStep, WorkflowError>)
        requires
            old(self).wf(),
            old(self).checks < MAX_WORKFLOW_CHECKS,
        ensures
            final(self).wf(),
            match state {
                JsonField::NotAnObject => r matches Err(WorkflowError::NotAnObject) && *final(self) == *old(self),
                JsonField::Missing => r matches Err(WorkflowError::NoWorkflowState) && *final(self) == *old(self),
                JsonField::OtherType => r matches Err(WorkflowError::StateNotAString) && *final(self) == *old(self),
                JsonField::Value(s) =>
                    if s@ == "imported"@ || s@ == "imported_with_messages"@ {
                        r == Ok::<PollStep, WorkflowError>(PollStep::Done) && *final(self) == *old(self)
                    } else if s@ == "importing"@ || s@ == "created"@ {
                        &&& r == Ok::<PollStep, WorkflowError>(PollStep::Wait(old(self).sleep_secs))
                        &&& final(self).checks == old(self).checks + 1
                        &&& final(self).sleep_secs == spec_next_sleep(old(self).sleep_secs)
                    } else {
                        r matches Err(WorkflowError::Issue(t)) && t@ == s@ && *final(self) == *old(self)
                    },
            },
    {
        match state {
            JsonField::NotAnObject => Err(WorkflowError::NotAnObject),
            JsonField::Missing => Err(WorkflowError::NoWorkflowState),
            JsonField::OtherType => Err(WorkflowError::StateNotAString),
            JsonField::Value(s) => {
                let t = s.as_str();
                if crate::text::str_eq(t, "imported") || crate::text::str_eq(t, "imported_with_messages") {
                    Ok(PollStep::Done)
                } else if crate::text::str_eq(t, "importing") || crate::text::str_eq(t, "created") {
                    let wait = self.sleep_secs;
                    self.checks = self.checks + 1;
                    if self.sleep_secs < MAX_SLEEP_SECS {
                        self.sleep_secs = self.sleep_secs + 1;
                    } else {
                        self.sleep_secs = MAX_SLEEP_SECS;
                    }
                    Ok(PollStep::Wait(wait))
                } else {
                    Err(WorkflowError::Issue(s))
                }
            },
        }
    }
}

/// Waiting never shrinks the pause and never takes it past fifteen seconds: along any
/// run of checks that say "still running", the pause grows by one second per check
/// until it reaches fifteen, and stays there.
pub proof fn lemma_poll_sleep_bounded(secs: u64)
    requires
        1 <= secs <= MAX_SLEEP_SECS,
    ensures
        secs <= spec_next_sleep(secs) <= MAX_SLEEP_SECS,
        1 <= spec_next_sleep(secs),
        secs < MAX_SLEEP_SECS ==> spec_next_sleep(secs) == secs + 1,
        secs == MAX_SLEEP_SECS ==> spec_next_sleep(secs) == MAX_SLEEP_SECS,
{
}

/// The pause before the `n`-th check after the first one that said "still running".
pub open spec fn spec_sleep_after(n: nat) -> u64
    decreases n,
{
    if n == 0 {
        1
    } else {
        spec_next_sleep(spec_sleep_after((n - 1) as nat))
    }
}

/// The pauses of a poll are 1, 2, ..., 15, 15, ...: the `n`-th pause is `min(n + 1, 15)`
/// seconds, so the whole poll waits at most 180 times and never longer than fifteen
/// seconds at a time.
pub proof fn lemma_poll_schedule(n: nat)
    ensures
        spec_sleep_after(n) == if n + 1 < MAX_SLEEP_SECS { n + 1 } else { MAX_SLEEP_SECS as nat },
    decreases n,
{
    if n > 0 {
        lemma_poll_schedule((n - 1) as nat);
    }
}

/// The user ID of the single sign-on test user.
pub open spec fn sso_test_user_id() -> Seq<char> {
    "SSO_TEST"@
}

/// The user row that deletes the single sign-on test user: user `SSO_TEST`, login
/// `<deleted>`, status deleted, nothing else set.
pub fn sso_test_user_deletion() -> (u: User)
    ensures
        u.user_id.0@ == sso_test_user_id(),
        u.login_id.0@ == "<deleted>"@,
        u.status == ASDStatus::Deleted,
        u.integration_id is None && u.password is None && u.ssha_password is None,
        u.authentication_provider_id is None && u.first_name is None && u.last_name is None,
        u.full_name is None && u.sortable_name is None && u.short_name is None && u.email is None,
        u.pronouns is None && u.declared_user_type is None && u.canvas_password_notification is None,
        u.home_account is None,
{
    User {
        user_id: UserId("SSO_TEST".to_owned()),
        integration_id: None,
        login_id: LoginId("<deleted>".to_owned()),
        password: None,
        ssha_password: None,
        authentication_provider_id: None,
        first_name: None,
        last_name: None,
        full_name: None,
        sortable_name: None,
        short_name: None,
        email: None,
        pronouns: None,
        declared_user_type: None,
        canvas_password_notification: None,
        home_account: None,
        status: ASDStatus::Deleted,
    }
}

/// The user row that creates the single sign-on test user `SSO_TEST` (named SSO Test)
/// with the given login, authentication provider and e-mail.
pub fn sso_test_user(login_id: String, auth_provider: String, email: Option<String>) -> (u: User)
    ensures
        u.user_id.0@ == sso_test_user_id(),
        u.login_id == LoginId(login_id),
        u.authentication_provider_id == Some(AuthenticationProviderId(auth_provider)),
        u.first_name matches Some(f) && f@ == "SSO"@,
        u.last_name matches Some(l) && l@ == "Test"@,
        u.email == email,
        u.status == ASDStatus::Active,
        u.integration_id is None && u.password is None && u.ssha_password is None,
        u.full_name is None && u.sortable_name is None && u.short_name is None,
        u.pronouns is None && u.declared_user_type is None && u.canvas_password_notification is None,
        u.home_account is None,
{
    User {
        user_id: UserId("SSO_TEST".to_owned()),
        integration_id: None,
        login_id: LoginId(login_id),
        password: None,
        ssha_password: None,
        authentication_provider_id: Some(AuthenticationProviderId(auth_provider)),
        first_name: Some("SSO".to_owned()),
        last_name: Some("Test".to_owned()),
        full_name: None,
        sortable_name: None,
        short_name: None,
        email,
        pronouns: None,
        declared_user_type: None,
        canvas_password_notification: None,
        home_account: None,
        status: ASDStatus::Active,
    }
}

} // verus!
