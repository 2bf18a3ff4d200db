//! The OAuth device-authorization flow.
//!
//! The flow is a small state machine.  One device-code request opens a
//! session; the operator is shown a user code while the tool polls the token
//! endpoint, sleeping the provider-supplied interval before every attempt;
//! the provider's answer either keeps the flow polling, hands over a token,
//! or ends the flow with a terminal failure.  The machine here only decides:
//! the caller performs each returned action (show the code, sleep and poll,
//! persist the token) and feeds the outcome back in as the next event.

use vstd::prelude::*;

use crate::config::{spec_load, ConfigError, ConfigV};
use crate::json::chars_eq;

verus! {

// ---------------------------------------------------------------------------
// Provider responses
// ---------------------------------------------------------------------------

/// What the device-code endpoint answers when it opens a session.
#[derive(Debug)]
pub struct DeviceCodeResponse {
    pub device_code: String,
    pub user_code: String,
    pub verification_uri: String,
    pub interval: u64,
}

/// The view of a [`DeviceCodeResponse`].
#[verifier::ext_equal]
pub struct DeviceCodeResponseV {
    pub device_code: Seq<char>,
    pub user_code: Seq<char>,
    pub verification_uri: Seq<char>,
    pub interval: u64,
}

impl View for DeviceCodeResponse {
    type V = DeviceCodeResponseV;

    open spec fn view(&self) -> DeviceCodeResponseV {
        DeviceCodeResponseV {
            device_code: self.device_code@,
            user_code: self.user_code@,
            verification_uri: self.verification_uri@,
            interval: self.interval,
        }
    }
}

/// What the token endpoint answers to one poll.
#[derive(Debug)]
pub struct TokenResponse {
    pub access_token: Option<String>,
    pub error: Option<String>,
}

/// The view of a [`TokenResponse`].
#[verifier::ext_equal]
pub struct TokenResponseV {
    pub access_token: Option<Seq<char>>,
    pub error: Option<Seq<char>>,
}

impl View for TokenResponse {
    type V = TokenResponseV;

    open spec fn view(&self) -> TokenResponseV {
        TokenResponseV {
            access_token: match self.access_token {
                Some(ref t) => Some(t@),
                None => None,
            },
            error: match self.error {
                Some(ref e) => Some(e@),
                None => None,
            },
        }
    }
}

// ---------------------------------------------------------------------------
// Reading one poll answer
// ---------------------------------------------------------------------------

/// The error code that tells the client to keep polling.
pub open spec fn pending_code() -> Seq<char> {
    seq![
        'a', 'u', 't', 'h', 'o', 'r', 'i', 'z', 'a', 't', 'i', 'o', 'n', '_', 'p', 'e', 'n', 'd',
        'i', 'n', 'g',
    ]
}

/// The error code that tells the client the user refused.
pub open spec fn denied_code() -> Seq<char> {
    seq!['a', 'c', 'c', 'e', 's', 's', '_', 'd', 'e', 'n', 'i', 'e', 'd']
}

/// What one poll answer means for the flow.
#[derive(Debug)]
pub enum PollOutcome {
    /// The provider handed over a token.
    Authorized(String),
    /// The user has not decided yet: poll again.
    Pending,
    /// The user refused authorization.
    Denied,
    /// The provider reported some other error code.
    ProviderError(String),
}

/// The view of a [`PollOutcome`].
#[verifier::ext_equal]
pub enum PollOutcomeV {
    Authorized(Seq<char>),
    Pending,
    Denied,
    ProviderError(Seq<char>),
}

impl View for PollOutcome {
    type V = PollOutcomeV;

    open spec fn view(&self) -> PollOutcomeV {
        match self {
            PollOutcome::Authorized(t) => PollOutcomeV::Authorized(t@),
            PollOutcome::Pending => PollOutcomeV::Pending,
            PollOutcome::Denied => PollOutcomeV::Denied,
            PollOutcome::ProviderError(e) => PollOutcomeV::ProviderError(e@),
        }
    }
}

/// How a poll answer reads: a token wins outright; otherwise the error code
/// decides, and an absent or empty code keeps the flow polling.
pub open spec fn spec_classify(r: TokenResponseV) -> PollOutcomeV {
    match r.access_token {
        Option::Some(t) => PollOutcomeV::Authorized(t),
        Option::None => match r.error {
            Option::Some(e) => if e == pending_code() {
                PollOutcomeV::Pending
            } else if e == denied_code() {
                PollOutcomeV::Denied
            } else if e.len() == 0 {
                PollOutcomeV::Pending
            } else {
                PollOutcomeV::ProviderError(e)
            },
            Option::None => PollOutcomeV::Pending,
        },
    }
}

fn pending_code_chars() -> (r: Vec<char>)
    ensures
        r@ == pending_code(),
{
    let r: Vec<char> = vec![
        'a', 'u', 't', 'h', 'o', 'r', 'i', 'z', 'a', 't', 'i', 'o', 'n', '_', 'p', 'e', 'n', 'd',
        'i', 'n', 'g',
    ];
    proof {
        assert(r@ =~= pending_code());
    }
    r
}

fn denied_code_chars() -> (r: Vec<char>)
    ensures
        r@ == denied_code(),
{
    let r: Vec<char> = vec!['a', 'c', 'c', 'e', 's', 's', '_', 'd', 'e', 'n', 'i', 'e', 'd'];
    proof {
        assert(r@ =~= denied_code());
    }
    r
}

/// Reads one poll answer; the executable form of [`spec_classify`].
pub fn classify_token_response(r: &TokenResponse) -> (out: PollOutcome)
    ensures
        out@ == spec_classify(r@),
{
    match &r.access_token {
        Some(t) => PollOutcome::Authorized(t.clone()),
        None => match &r.error {
            None => PollOutcome::Pending,
            Some(e) => {
                let ec = crate::json::str_to_chars(e.as_str());
                let pend = pending_code_chars();
                let deny = denied_code_chars();
                if chars_eq(&ec, &pend) {
                    PollOutcome::Pending
                } else if chars_eq(&ec, &deny) {
                    PollOutcome::Denied
                } else if ec.len() == 0 {
                    PollOutcome::Pending
                } else {
                    PollOutcome::ProviderError(e.clone())
                }
            },
        },
    }
}

// ---------------------------------------------------------------------------
// The flow's states, events and actions
// ---------------------------------------------------------------------------

/// Why a login attempt ended without a token.
#[derive(Debug)]
pub enum AuthError {
    /// A request never got a usable answer: connection failure, a bad status,
    /// or a body that does not parse.
    Transport,
    /// The verification page could not be opened for the user.
    BrowserOpen,
    /// The provider reported that the user refused authorization.
    Denied,
    /// The provider reported another error code, carried here verbatim.
    Provider(String),
}

/// The view of an [`AuthError`].
#[verifier::ext_equal]
pub enum AuthErrorV {
    Transport,
    BrowserOpen,
    Denied,
    Provider(Seq<char>),
}

impl View for AuthError {
    type V = AuthErrorV;

    open spec fn view(&self) -> AuthErrorV {
        match self {
            AuthError::Transport => AuthErrorV::Transport,
            AuthError::BrowserOpen => AuthErrorV::BrowserOpen,
            AuthError::Denied => AuthErrorV::Denied,
            AuthError::Provider(e) => AuthErrorV::Provider(e@),
        }
    }
}

/// Where the flow stands.
#[derive(Debug)]
pub enum FlowState {
    /// The device-code request is being made.
    Requesting,
    /// A session is open; the operator has not been shown the code yet.
    AwaitingUser(DeviceCodeResponse),
    /// The operator has the code; the token endpoint is being polled.
    Polling(DeviceCodeResponse),
    /// Terminal success, carrying the token.
    Authorized(String),
    /// Terminal failure.
    Failed(AuthError),
}

/// The view of a [`FlowState`].
#[verifier::ext_equal]
pub enum FlowStateV {
    Requesting,
    AwaitingUser(DeviceCodeResponseV),
    Polling(DeviceCodeResponseV),
    Authorized(Seq<char>),
    Failed(AuthErrorV),
}

impl View for FlowState {
    type V = FlowStateV;

    open spec fn view(&self) -> FlowStateV {
        match self {
            FlowState::Requesting => FlowStateV::Requesting,
            FlowState::AwaitingUser(d) => FlowStateV::AwaitingUser(d@),
            FlowState::Polling(d) => FlowStateV::Polling(d@),
            FlowState::Authorized(t) => FlowStateV::Authorized(t@),
            FlowState::Failed(e) => FlowStateV::Failed(e@),
        }
    }
}

/// What the world reported back after the last action.
#[derive(Debug)]
pub enum FlowEvent {
    /// The device-code request answered with a session.
    DeviceCodeReceived(DeviceCodeResponse),
    /// The device-code request failed: no connection, a bad status, or a body
    /// that does not parse.
    DeviceRequestFailed,
    /// The user code was shown and the verification page opened.
    UserNotified,
    /// The verification page could not be opened.
    BrowserOpenFailed,
    /// One poll of the token endpoint answered.
    PollReplied(TokenResponse),
    /// One poll of the token endpoint failed in transport.
    PollFailed,
}

/// The view of a [`FlowEvent`].
#[verifier::ext_equal]
pub enum FlowEventV {
    DeviceCodeReceived(DeviceCodeResponseV),
    DeviceRequestFailed,
    UserNotified,
    BrowserOpenFailed,
    PollReplied(TokenResponseV),
    PollFailed,
}

impl View for FlowEvent {
    type V = FlowEventV;

    open spec fn view(&self) -> FlowEventV {
        match self {
            FlowEvent::DeviceCodeReceived(d) => FlowEventV::DeviceCodeReceived(d@),
            FlowEvent::DeviceRequestFailed => FlowEventV::DeviceRequestFailed,
            FlowEvent::UserNotified => FlowEventV::UserNotified,
            FlowEvent::BrowserOpenFailed => FlowEventV::BrowserOpenFailed,
            FlowEvent::PollReplied(r) => FlowEventV::PollReplied(r@),
            FlowEvent::PollFailed => FlowEventV::PollFailed,
        }
    }
}

/// What the caller must do next.
#[derive(Debug)]
pub enum FlowAction {
    /// Show the user code and open the verification page.
    NotifyUser { user_code: String, verification_uri: String },
    /// Sleep exactly this many seconds, then poll the token endpoint once.
    SleepThenPoll { seconds: u64 },
    /// Persist this token in the credential store.
    SaveToken(String),
    /// Nothing: the flow has reached a terminal state.
    Stop,
}

/// The view of a [`FlowAction`].
#[verifier::ext_equal]
pub enum FlowActionV {
    NotifyUser { user_code: Seq<char>, verification_uri: Seq<char> },
    SleepThenPoll { seconds: u64 },
    SaveToken(Seq<char>),
    Stop,
}

impl View for FlowAction {
    type V = FlowActionV;

    open spec fn view(&self) -> FlowActionV {
        match self {
            FlowAction::NotifyUser { user_code, verification_uri } => FlowActionV::NotifyUser {
                user_code: user_code@,
                verification_uri: verification_uri@,
            },
            FlowAction::SleepThenPoll { seconds } => FlowActionV::SleepThenPoll {
                seconds: *seconds,
            },
            FlowAction::SaveToken(t) => FlowActionV::SaveToken(t@),
            FlowAction::Stop => FlowActionV::Stop,
        }
    }
}

// ---------------------------------------------------------------------------
// The transition relation
// ---------------------------------------------------------------------------

/// Which events can answer which states.
pub open spec fn event_fits(s: FlowStateV, e: FlowEventV) -> bool {
    match s {
        FlowStateV::Requesting => e is DeviceCodeReceived || e is DeviceRequestFailed,
        FlowStateV::AwaitingUser(_) => e is UserNotified || e is BrowserOpenFailed,
        FlowStateV::Polling(_) => e is PollReplied || e is PollFailed,
        FlowStateV::Authorized(_) => false,
        FlowStateV::Failed(_) => false,
    }
}

/// One transition of the flow.
pub open spec fn spec_flow_step(s: FlowStateV, e: FlowEventV) -> (FlowStateV, FlowActionV) {
    match (s, e) {
        (FlowStateV::Requesting, FlowEventV::DeviceCodeReceived(d)) => (
            FlowStateV::AwaitingUser(d),
            FlowActionV::NotifyUser {
                user_code: d.user_code,
                verification_uri: d.verification_uri,
            },
        ),
        (FlowStateV::Requesting, FlowEventV::DeviceRequestFailed) => (
            FlowStateV::Failed(AuthErrorV::Transport),
            FlowActionV::Stop,
        ),
        (FlowStateV::AwaitingUser(d), FlowEventV::UserNotified) => (
            FlowStateV::Polling(d),
            FlowActionV::SleepThenPoll { seconds: d.interval },
        ),
        (FlowStateV::AwaitingUser(_), FlowEventV::BrowserOpenFailed) => (
            FlowStateV::Failed(AuthErrorV::BrowserOpen),
            FlowActionV::Stop,
        ),
        (FlowStateV::Polling(d), FlowEventV::PollReplied(r)) => match spec_classify(r) {
            PollOutcomeV::Authorized(t) => (
                FlowStateV::Authorized(t),
                FlowActionV::SaveToken(t),
            ),
            PollOutcomeV::Pending => (
                FlowStateV::Polling(d),
                FlowActionV::SleepThenPoll { seconds: d.interval },
            ),
            PollOutcomeV::Denied => (FlowStateV::Failed(AuthErrorV::Denied), FlowActionV::Stop),
            PollOutcomeV::ProviderError(m) => (
                FlowStateV::Failed(AuthErrorV::Provider(m)),
                FlowActionV::Stop,
            ),
        },
        (FlowStateV::Polling(_), FlowEventV::PollFailed) => (
            FlowStateV::Failed(AuthErrorV::Transport),
            FlowActionV::Stop,
        ),
        _ => (s, FlowActionV::Stop),
    }
}

/// The state a login attempt starts in.
pub fn initial_state() -> (r: FlowState)
    ensures
        r@ == FlowStateV::Requesting,
{
    FlowState::Requesting
}

/// One transition of the flow; the executable form of [`spec_flow_step`].
pub fn flow_step(state: FlowState, event: FlowEvent) -> (r: (FlowState, FlowAction))
    requires
        event_fits(state@, event@),
    ensures
        (r.0@, r.1@) == spec_flow_step(state@, event@),
{
    match (state, event) {
        (FlowState::Requesting, FlowEvent::DeviceCodeReceived(d)) => {
            let user_code = d.user_code.clone();
            let verification_uri = d.verification_uri.clone();
            (FlowState::AwaitingUser(d), FlowAction::NotifyUser { user_code, verification_uri })
        },
        (FlowState::Requesting, FlowEvent::DeviceRequestFailed) => (
            FlowState::Failed(AuthError::Transport),
            FlowAction::Stop,
        ),
        (FlowState::AwaitingUser(d), FlowEvent::UserNotified) => {
            let seconds = d.interval;
            (FlowState::Polling(d), FlowAction::SleepThenPoll { seconds })
        },
        (FlowState::AwaitingUser(_), FlowEvent::BrowserOpenFailed) => (
            FlowState::Failed(AuthError::BrowserOpen),
            FlowAction::Stop,
        ),
        (FlowState::Polling(d), FlowEvent::PollReplied(r)) => match classify_token_response(&r) {
            PollOutcome::Authorized(t) => {
                let saved = t.clone();
                (FlowState::Authorized(t), FlowAction::SaveToken(saved))
            },
            PollOutcome::Pending => {
                let seconds = d.interval;
                (FlowState::Polling(d), FlowAction::SleepThenPoll { seconds })
            },
            PollOutcome::Denied => (FlowState::Failed(AuthError::Denied), FlowAction::Stop),
            PollOutcome::ProviderError(m) => (
                FlowState::Failed(AuthError::Provider(m)),
                FlowAction::Stop,
            ),
        },
        (FlowState::Polling(_), FlowEvent::PollFailed) => (
            FlowState::Failed(AuthError::Transport),
            FlowAction::Stop,
        ),
        (s, _) => (s, FlowAction::Stop),
    }
}

// ---------------------------------------------------------------------------
// The token accessor
// ---------------------------------------------------------------------------

/// What a token request finds in the store.
#[derive(Debug)]
pub enum TokenLookup {
    /// A token is on file.
    Token(String),
    /// Nothing usable is on file: the login flow must run.
    LoginRequired,
    /// The store's file exists but cannot be read as a record.
    StoreCorrupt,
}

/// The view of a [`TokenLookup`].
#[verifier::ext_equal]
pub enum TokenLookupV {
    Token(Seq<char>),
    LoginRequired,
    StoreCorrupt,
}

impl View for TokenLookup {
    type V = TokenLookupV;

    open spec fn view(&self) -> TokenLookupV {
        match self {
            TokenLookup::Token(t) => TokenLookupV::Token(t@),
            TokenLookup::LoginRequired => TokenLookupV::LoginRequired,
            TokenLookup::StoreCorrupt => TokenLookupV::StoreCorrupt,
        }
    }
}

/// What the accessor decides for given store contents: a stored non-empty
/// token is returned as it is; an absent file or an empty token calls for a
/// login; unreadable store text is surfaced on its own.
pub open spec fn spec_get_github_token(contents: Option<Seq<char>>) -> TokenLookupV {
    match spec_load(contents) {
        Result::Ok(c) => if c.github_token.len() == 0 {
            TokenLookupV::LoginRequired
        } else {
            TokenLookupV::Token(c.github_token)
        },
        Result::Err(ConfigError::Missing) => TokenLookupV::LoginRequired,
        Result::Err(ConfigError::Corrupt) => TokenLookupV::StoreCorrupt,
    }
}

/// Decides whether the store already holds a usable token, from the
/// credential file's contents (`None` when no file exists).  The caller runs
/// the login flow when the answer asks for it, saves the obtained token, and
/// asks again.
pub fn get_github_token(contents: Option<&str>) -> (r: TokenLookup)
    ensures
        r@ == spec_get_github_token(crate::config::contents_view(contents)),
{
    match crate::config::load_token(contents) {
        Ok(t) => {
            if t.as_str().is_empty() {
                TokenLookup::LoginRequired
            } else {
                TokenLookup::Token(t)
            }
        },
        Err(ConfigError::Missing) => TokenLookup::LoginRequired,
        Err(ConfigError::Corrupt) => TokenLookup::StoreCorrupt,
    }
}

} // verus!

verus! {

// ---------------------------------------------------------------------------
// Laws of the flow
// ---------------------------------------------------------------------------

/// Every sleep the flow orders — before the first poll and before every
/// later one — lasts exactly the interval the provider supplied with the
/// session; and a poll is only ever ordered as part of such a sleep.
pub proof fn lemma_sleep_is_provider_interval(s: FlowStateV, e: FlowEventV)
    requires
        event_fits(s, e),
    ensures
        match spec_flow_step(s, e).1 {
            FlowActionV::SleepThenPoll { seconds } => match s {
                FlowStateV::AwaitingUser(d) => seconds == d.interval,
                FlowStateV::Polling(d) => seconds == d.interval,
                _ => false,
            },
            _ => true,
        },
{
}

/// A pending answer never ends the flow and never changes the session: the
/// flow stays in the same polling state and sleeps the same interval again.
pub proof fn lemma_pending_keeps_polling(d: DeviceCodeResponseV, r: TokenResponseV)
    requires
        spec_classify(r) is Pending,
    ensures
        spec_flow_step(FlowStateV::Polling(d), FlowEventV::PollReplied(r)) == (
            FlowStateV::Polling(d),
            FlowActionV::SleepThenPoll { seconds: d.interval },
        ),
{
}

/// An answer that carries a token ends the flow in `Authorized` with exactly
/// that token, and orders exactly that token saved.
pub proof fn lemma_token_authorizes(d: DeviceCodeResponseV, r: TokenResponseV, t: Seq<char>)
    requires
        r.access_token == Some(t),
    ensures
        spec_flow_step(FlowStateV::Polling(d), FlowEventV::PollReplied(r)) == (
            FlowStateV::Authorized(t),
            FlowActionV::SaveToken(t),
        ),
{
}

/// After the ordered save is carried out, a load returns exactly the token
/// the provider handed over.
pub proof fn lemma_authorized_token_is_stored(
    d: DeviceCodeResponseV,
    r: TokenResponseV,
    t: Seq<char>,
    prior: Option<Seq<char>>,
    username: Seq<char>,
)
    requires
        r.access_token == Some(t),
    ensures
        spec_flow_step(FlowStateV::Polling(d), FlowEventV::PollReplied(r)).1
            == FlowActionV::SaveToken(t),
        ({
            let saved = crate::config::spec_encode_config(
                ConfigV {
                    github_token: t,
                    github_username: username,
                    openai_api_key: crate::config::merge_base(prior).openai_api_key,
                },
            );
            spec_load(Some(saved)) matches Ok(c) && c.github_token == t
        }),
{
    crate::config::lemma_save_load_round_trip(prior, t, username);
}

/// A token is saved exactly when the flow reaches `Authorized`, and only
/// with the token of that answer; in particular a denied or failed flow
/// never writes to the store.
pub proof fn lemma_token_saved_iff_authorized(s: FlowStateV, e: FlowEventV)
    requires
        event_fits(s, e),
    ensures
        match spec_flow_step(s, e).1 {
            FlowActionV::SaveToken(t) => spec_flow_step(s, e).0 == FlowStateV::Authorized(t) && (e
                matches FlowEventV::PollReplied(r) && r.access_token == Some(t)),
            _ => !(spec_flow_step(s, e).0 is Authorized),
        },
{
}

/// A refused authorization ends the flow in the denied failure, with nothing
/// ordered saved.
pub proof fn lemma_denied_terminates(d: DeviceCodeResponseV, r: TokenResponseV)
    requires
        r.access_token is None,
        r.error == Some(denied_code()),
    ensures
        spec_flow_step(FlowStateV::Polling(d), FlowEventV::PollReplied(r)) == (
            FlowStateV::Failed(AuthErrorV::Denied),
            FlowActionV::Stop,
        ),
{
    assert(denied_code().len() == 13);
    assert(pending_code().len() == 21);
}

/// A device-code request that fails ends the flow at once: no poll is ever
/// ordered and nothing is ever saved.
pub proof fn lemma_device_failure_aborts()
    ensures
        spec_flow_step(FlowStateV::Requesting, FlowEventV::DeviceRequestFailed) == (
            FlowStateV::Failed(AuthErrorV::Transport),
            FlowActionV::Stop,
        ),
{
}

} // verus!

verus! {

// ---------------------------------------------------------------------------
// Reading the provider's response bodies
// ---------------------------------------------------------------------------

/// The name of the session member that the poll request echoes back.
pub open spec fn key_device_code() -> Seq<char> {
    seq!['d', 'e', 'v', 'i', 'c', 'e', '_', 'c', 'o', 'd', 'e']
}

/// The name of the member holding the code the operator types in.
pub open spec fn key_user_code() -> Seq<char> {
    seq!['u', 's', 'e', 'r', '_', 'c', 'o', 'd', 'e']
}

/// The name of the member holding the page the operator opens.
pub open spec fn key_verification_uri() -> Seq<char> {
    seq!['v', 'e', 'r', 'i', 'f', 'i', 'c', 'a', 't', 'i', 'o', 'n', '_', 'u', 'r', 'i']
}

/// The name of the polling-interval member.
pub open spec fn key_interval() -> Seq<char> {
    seq!['i', 'n', 't', 'e', 'r', 'v', 'a', 'l']
}

/// The name of the token member of a poll answer.
pub open spec fn key_access_token() -> Seq<char> {
    seq!['a', 'c', 'c', 'e', 's', 's', '_', 't', 'o', 'k', 'e', 'n']
}

/// The name of the error-code member of a poll answer.
pub open spec fn key_error() -> Seq<char> {
    seq!['e', 'r', 'r', 'o', 'r']
}

/// What a device-code response body means: all four members are required,
/// the three strings as strings and the interval as a decimal integer.
pub open spec fn spec_parse_device_response(s: Seq<char>) -> Option<DeviceCodeResponseV> {
    match crate::json::scan_json(s) {
        Option::None => None,
        Option::Some(fs) => match (
            crate::json::string_member(fs, key_device_code()),
            crate::json::string_member(fs, key_user_code()),
            crate::json::string_member(fs, key_verification_uri()),
            crate::json::u64_member(fs, key_interval()),
        ) {
            (Some(Some(d)), Some(Some(u)), Some(Some(v)), Some(Some(n))) => Some(
                DeviceCodeResponseV {
                    device_code: d,
                    user_code: u,
                    verification_uri: v,
                    interval: n,
                },
            ),
            _ => None,
        },
    }
}

/// What a poll answer body means: both members optional strings.
pub open spec fn spec_parse_token_response(s: Seq<char>) -> Option<TokenResponseV> {
    match crate::json::scan_json(s) {
        Option::None => None,
        Option::Some(fs) => match (
            crate::json::string_member(fs, key_access_token()),
            crate::json::string_member(fs, key_error()),
        ) {
            (Some(t), Some(e)) => Some(TokenResponseV { access_token: t, error: e }),
            _ => None,
        },
    }
}

/// Reads a device-code response body; the executable form of
/// [`spec_parse_device_response`].
pub fn parse_device_response(body: &str) -> (r: Option<DeviceCodeResponse>)
    ensures
        match r {
            Some(d) => spec_parse_device_response(body@) == Some(d@),
            None => spec_parse_device_response(body@) is None,
        },
{
    let cs = crate::json::str_to_chars(body);
    match crate::json::scan_object(&cs) {
        None => None,
        Some(fields) => {
            let kd: Vec<char> = vec!['d', 'e', 'v', 'i', 'c', 'e', '_', 'c', 'o', 'd', 'e'];
            let ku: Vec<char> = vec!['u', 's', 'e', 'r', '_', 'c', 'o', 'd', 'e'];
            let kv: Vec<char> = vec![
                'v', 'e', 'r', 'i', 'f', 'i', 'c', 'a', 't', 'i', 'o', 'n', '_', 'u', 'r', 'i',
            ];
            let ki: Vec<char> = vec!['i', 'n', 't', 'e', 'r', 'v', 'a', 'l'];
            proof {
                assert(kd@ =~= key_device_code());
                assert(ku@ =~= key_user_code());
                assert(kv@ =~= key_verification_uri());
                assert(ki@ =~= key_interval());
            }
            let device_code = match crate::json::get_string_member(&fields, &kd) {
                Ok(Some(s)) => s,
                _ => {
                    return None;
                },
            };
            let user_code = match crate::json::get_string_member(&fields, &ku) {
                Ok(Some(s)) => s,
                _ => {
                    return None;
                },
            };
            let verification_uri = match crate::json::get_string_member(&fields, &kv) {
                Ok(Some(s)) => s,
                _ => {
                    return None;
                },
            };
            let interval = match crate::json::get_u64_member(&fields, &ki) {
                Ok(Some(n)) => n,
                _ => {
                    return None;
                },
            };
            Some(DeviceCodeResponse { device_code, user_code, verification_uri, interval })
        },
    }
}

/// Reads a poll answer body; the executable form of
/// [`spec_parse_token_response`].
pub fn parse_token_response(body: &str) -> (r: Option<TokenResponse>)
    ensures
        match r {
            Some(t) => spec_parse_token_response(body@) == Some(t@),
            None => spec_parse_token_response(body@) is None,
        },
{
    let cs = crate::json::str_to_chars(body);
    match crate::json::scan_object(&cs) {
        None => None,
        Some(fields) => {
            let ka: Vec<char> = vec!['a', 'c', 'c', 'e', 's', 's', '_', 't', 'o', 'k', 'e', 'n'];
            let ke: Vec<char> = vec!['e', 'r', 'r', 'o', 'r'];
            proof {
                assert(ka@ =~= key_access_token());
                assert(ke@ =~= key_error());
            }
            let access_token = match crate::json::get_string_member(&fields, &ka) {
                Ok(o) => o,
                Err(()) => {
                    return None;
                },
            };
            let error = match crate::json::get_string_member(&fields, &ke) {
                Ok(o) => o,
                Err(()) => {
                    return None;
                },
            };
            Some(TokenResponse { access_token, error })
        },
    }
}

} // verus!
