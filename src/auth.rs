use crate::credential::{stamped, valid_at, CredentialView, TokenResponse};
use crate::error::KindleError;
use crate::mail::is_success;
use crate::text::{decimal, push_decimal};
use vstd::prelude::*;

verus! {

/// The identity provider settings of one run, borrowed from the configuration.
pub struct AzureService<'a> {
    pub client_id: &'a str,
    pub client_secret: &'a str,
    pub tenant_id: &'a str,
    pub callback_url: &'a str,
}

/// A form body as (name, value) pairs, in the order they are sent.
pub open spec fn form_view(v: Seq<(String, String)>) -> Seq<(Seq<char>, Seq<char>)> {
    v.map_values(|p: (String, String)| (p.0@, p.1@))
}

pub open spec fn authorize_url_of(tenant: Seq<char>, client: Seq<char>, callback: Seq<char>) -> Seq<char> {
    "https://login.microsoftonline.com/"@ + tenant + "/oauth2/v2.0/authorize?client_id="@ + client
        + "&response_type=code&redirect_uri="@ + callback
        + "&response_mode=query&scope=offline_access%20Mail.Send"@
}

pub open spec fn token_url_of(tenant: Seq<char>) -> Seq<char> {
    "https://login.microsoftonline.com/"@ + tenant + "/oauth2/v2.0/token"@
}

pub open spec fn exchange_form_of(
    client: Seq<char>,
    secret: Seq<char>,
    code: Seq<char>,
    redirect: Seq<char>,
) -> Seq<(Seq<char>, Seq<char>)> {
    seq![
        ("client_id"@, client),
        ("scope"@, "Mail.Send"@),
        ("code"@, code),
        ("redirect_uri"@, redirect),
        ("grant_type"@, "authorization_code"@),
        ("client_secret"@, secret),
    ]
}

pub open spec fn refresh_form_of(client: Seq<char>, secret: Seq<char>, refresh: Seq<char>) -> Seq<
    (Seq<char>, Seq<char>),
> {
    seq![
        ("client_id"@, client),
        ("scope"@, "https://graph.microsoft.com/.default"@),
        ("refresh_token"@, refresh),
        ("grant_type"@, "refresh_token"@),
        ("client_secret"@, secret),
    ]
}

fn pair(name: &str, value: &str) -> (r: (String, String))
    ensures
        r.0@ == name@,
        r.1@ == value@,
{
    (String::from_str(name), String::from_str(value))
}

/// Whether the token endpoint's answer carries a credential to parse: any 2xx.
pub fn token_reply_accepted(status: u16) -> (r: bool)
    ensures
        r == is_success(status),
{
    200 <= status && status < 300
}

/// The cause reported for a token endpoint answer that was not accepted: the
/// status, then the response body as it came.
pub fn token_failure_text(status: u16, body: &str) -> (r: String)
    ensures
        r@ == decimal(status as nat) + " "@ + body@,
{
    let mut t = String::new();
    push_decimal(&mut t, status as u64);
    t.append(" ");
    t.append(body);
    t
}

impl<'a> AzureService<'a> {
    pub fn new(
        client_id: &'a str,
        client_secret: &'a str,
        tenant_id: &'a str,
        callback_url: &'a str,
    ) -> (r: Self)
        ensures
            r.client_id == client_id,
            r.client_secret == client_secret,
            r.tenant_id == tenant_id,
            r.callback_url == callback_url,
    {
        AzureService { client_id, client_secret, tenant_id, callback_url }
    }

    /// The address the user opens to grant access: it names the client, the
    /// tenant, the redirect and the scopes (offline access and mail sending).
    pub fn authorization_url(&self) -> (r: String)
        ensures
            r@ == authorize_url_of(self.tenant_id@, self.client_id@, self.callback_url@),
    {
        let mut u = String::from_str("https://login.microsoftonline.com/");
        u.append(self.tenant_id);
        u.append("/oauth2/v2.0/authorize?client_id=");
        u.append(self.client_id);
        u.append("&response_type=code&redirect_uri=");
        u.append(self.callback_url);
        u.append("&response_mode=query&scope=offline_access%20Mail.Send");
        u
    }

    /// The token endpoint of the tenant, for both grants.
    pub fn token_url(&self) -> (r: String)
        ensures
            r@ == token_url_of(self.tenant_id@),
    {
        let mut u = String::from_str("https://login.microsoftonline.com/");
        u.append(self.tenant_id);
        u.append("/oauth2/v2.0/token");
        u
    }

    /// The form that exchanges an authorization code for a credential.
    pub fn exchange_form(&self, code: &str, redirect_uri: &str) -> (r: Vec<(String, String)>)
        ensures
            form_view(r@) == exchange_form_of(
                self.client_id@,
                self.client_secret@,
                code@,
                redirect_uri@,
            ),
    {
        let mut v: Vec<(String, String)> = Vec::new();
        v.push(pair("client_id", self.client_id));
        v.push(pair("scope", "Mail.Send"));
        v.push(pair("code", code));
        v.push(pair("redirect_uri", redirect_uri));
        v.push(pair("grant_type", "authorization_code"));
        v.push(pair("client_secret", self.client_secret));
        assert(form_view(v@) =~= exchange_form_of(
            self.client_id@,
            self.client_secret@,
            code@,
            redirect_uri@,
        ));
        v
    }

    /// The form that trades a refresh token for a new credential.
    pub fn refresh_form(&self, refresh_token: &str) -> (r: Vec<(String, String)>)
        ensures
            form_view(r@) == refresh_form_of(self.client_id@, self.client_secret@, refresh_token@),
    {
        let mut v: Vec<(String, String)> = Vec::new();
        v.push(pair("client_id", self.client_id));
        v.push(pair("scope", "https://graph.microsoft.com/.default"));
        v.push(pair("refresh_token", refresh_token));
        v.push(pair("grant_type", "refresh_token"));
        v.push(pair("client_secret", self.client_secret));
        assert(form_view(v@) =~= refresh_form_of(
            self.client_id@,
            self.client_secret@,
            refresh_token@,
        ));
        v
    }
}

/// Where a run of the authentication stands. No stage is entered twice.
#[derive(Debug, Clone, Copy, PartialEq, Eq, Structural)]
pub enum AuthStage {
    Start,
    Refreshing,
    AwaitingCode,
    Exchanging,
    Persisting,
    Finished,
    Failed,
}

/// What the caller reports after performing the last action.
pub enum AuthEvent {
    /// The stored credential, or nothing where none could be read.
    CacheLoaded(Option<TokenResponse>),
    /// The token endpoint answered with a parsed credential.
    TokenIssued(TokenResponse),
    /// The token endpoint call failed, with the cause.
    TokenRequestFailed(String),
    /// The redirect listener captured an authorization code.
    CodeReceived(String),
    /// The wait for the authorization code failed.
    CodeNotReceived,
    /// The credential handed out by `Persist` was written.
    Persisted,
    /// Writing the credential failed, with the cause.
    PersistFailed(String),
}

pub enum AuthEventView {
    CacheLoaded(Option<CredentialView>),
    TokenIssued(CredentialView),
    TokenRequestFailed(Seq<char>),
    CodeReceived(Seq<char>),
    CodeNotReceived,
    Persisted,
    PersistFailed(Seq<char>),
}

impl View for AuthEvent {
    type V = AuthEventView;

    open spec fn view(&self) -> AuthEventView {
        match self {
            AuthEvent::CacheLoaded(None) => AuthEventView::CacheLoaded(None),
            AuthEvent::CacheLoaded(Some(c)) => AuthEventView::CacheLoaded(Some(c@)),
            AuthEvent::TokenIssued(c) => AuthEventView::TokenIssued(c@),
            AuthEvent::TokenRequestFailed(m) => AuthEventView::TokenRequestFailed(m@),
            AuthEvent::CodeReceived(c) => AuthEventView::CodeReceived(c@),
            AuthEvent::CodeNotReceived => AuthEventView::CodeNotReceived,
            AuthEvent::Persisted => AuthEventView::Persisted,
            AuthEvent::PersistFailed(m) => AuthEventView::PersistFailed(m@),
        }
    }
}

/// What the caller is to do next.
pub enum AuthAction {
    /// Read the stored credential.
    LoadCache,
    /// Call the token endpoint with the refresh grant for this refresh token.
    Refresh(String),
    /// Start the redirect listener, show `authorization_url`, wait for a code.
    AwaitCode,
    /// Call the token endpoint with the code grant for this code.
    Exchange(String),
    /// Write `pending_credential` to the credential store, replacing it.
    Persist,
    /// Authentication is done: this is the access token.
    Done(String),
    /// Authentication failed.
    Fail(KindleError),
}

pub enum AuthActionView {
    LoadCache,
    Refresh(Seq<char>),
    AwaitCode,
    Exchange(Seq<char>),
    Persist,
    Done(Seq<char>),
    Fail(Seq<char>),
}

impl View for AuthAction {
    type V = AuthActionView;

    open spec fn view(&self) -> AuthActionView {
        match self {
            AuthAction::LoadCache => AuthActionView::LoadCache,
            AuthAction::Refresh(t) => AuthActionView::Refresh(t@),
            AuthAction::AwaitCode => AuthActionView::AwaitCode,
            AuthAction::Exchange(c) => AuthActionView::Exchange(c@),
            AuthAction::Persist => AuthActionView::Persist,
            AuthAction::Done(t) => AuthActionView::Done(t@),
            AuthAction::Fail(e) => AuthActionView::Fail(e.message@),
        }
    }
}

/// The credential resolution of one run: the stored credential if still
/// valid, else a refreshed one, else one from the interactive code flow.
pub struct AuthFlow {
    pub stage: AuthStage,
    pub pending: Option<TokenResponse>,
}

pub struct AuthFlowView {
    pub stage: AuthStage,
    pub pending: Option<CredentialView>,
}

impl View for AuthFlow {
    type V = AuthFlowView;

    open spec fn view(&self) -> AuthFlowView {
        AuthFlowView {
            stage: self.stage,
            pending: match self.pending {
                Some(c) => Some(c@),
                None => None,
            },
        }
    }
}

pub open spec fn at_stage(stage: AuthStage) -> AuthFlowView {
    AuthFlowView { stage, pending: None }
}

pub open spec fn failing(message: Seq<char>) -> (AuthFlowView, AuthActionView) {
    (at_stage(AuthStage::Failed), AuthActionView::Fail(message))
}

pub open spec fn interactive() -> (AuthFlowView, AuthActionView) {
    (at_stage(AuthStage::AwaitingCode), AuthActionView::AwaitCode)
}

pub open spec fn persisting(c: CredentialView, now: i64) -> (AuthFlowView, AuthActionView) {
    (
        AuthFlowView { stage: AuthStage::Persisting, pending: Some(stamped(c, now)) },
        AuthActionView::Persist,
    )
}

pub open spec fn out_of_order() -> (AuthFlowView, AuthActionView) {
    failing("authentication step out of order"@)
}

/// One step of the resolution: from where the run stands and what was
/// reported at time `now`, the next stage and what to do.
pub open spec fn auth_next(s: AuthFlowView, e: AuthEventView, now: i64) -> (
    AuthFlowView,
    AuthActionView,
) {
    match s.stage {
        AuthStage::Start => match e {
            AuthEventView::CacheLoaded(Some(c)) => {
                if valid_at(c, now) {
                    (at_stage(AuthStage::Finished), AuthActionView::Done(c.access_token))
                } else if c.refresh_token is Some {
                    (
                        at_stage(AuthStage::Refreshing),
                        AuthActionView::Refresh(c.refresh_token->Some_0),
                    )
                } else {
                    interactive()
                }
            },
            AuthEventView::CacheLoaded(None) => interactive(),
            _ => out_of_order(),
        },
        AuthStage::Refreshing => match e {
            AuthEventView::TokenIssued(c) => persisting(c, now),
            AuthEventView::TokenRequestFailed(_) => interactive(),
            _ => out_of_order(),
        },
        AuthStage::AwaitingCode => match e {
            AuthEventView::CodeReceived(code) => (
                at_stage(AuthStage::Exchanging),
                AuthActionView::Exchange(code),
            ),
            AuthEventView::CodeNotReceived => failing("Failed to receive auth code"@),
            _ => out_of_order(),
        },
        AuthStage::Exchanging => match e {
            AuthEventView::TokenIssued(c) => persisting(c, now),
            AuthEventView::TokenRequestFailed(m) => failing(
                "Error exchanging code for token: "@ + m,
            ),
            _ => out_of_order(),
        },
        AuthStage::Persisting => match e {
            AuthEventView::Persisted => match s.pending {
                Some(c) => (at_stage(AuthStage::Finished), AuthActionView::Done(c.access_token)),
                None => out_of_order(),
            },
            AuthEventView::PersistFailed(m) => failing("Error writing token to file: "@ + m),
            _ => out_of_order(),
        },
        _ => out_of_order(),
    }
}

/// Whether an action reaches the network (the token endpoint or the listener).
pub open spec fn touches_network(a: AuthActionView) -> bool {
    a is Refresh || a is AwaitCode || a is Exchange
}

impl AuthFlow {
    /// A fresh run, together with its first action: read the stored credential.
    pub fn new() -> (r: (AuthFlow, AuthAction))
        ensures
            r.0@ == at_stage(AuthStage::Start),
            r.1@ == AuthActionView::LoadCache,
    {
        (AuthFlow { stage: AuthStage::Start, pending: None }, AuthAction::LoadCache)
    }

    /// The credential that a `Persist` action asks to write.
    pub fn pending_credential(&self) -> (r: Option<&TokenResponse>)
        ensures
            r is Some <==> self.pending is Some,
            r is Some ==> *r->Some_0 == self.pending->Some_0,
    {
        match &self.pending {
            Some(c) => Some(c),
            None => None,
        }
    }

    /// Advances the run by what was reported, at time `now`.
    pub fn advance_at(&mut self, event: AuthEvent, now: i64) -> (r: AuthAction)
        ensures
            (final(self)@, r@) == auth_next(old(self)@, event@, now),
    {
        let stage = self.stage;
        match stage {
            AuthStage::Start => match event {
                AuthEvent::CacheLoaded(Some(c)) => {
                    if c.is_token_valid_at(now) {
                        self.finish(c.access_token)
                    } else {
                        match c.refresh_token {
                            Some(t) => {
                                self.stage = AuthStage::Refreshing;
                                self.pending = None;
                                AuthAction::Refresh(t)
                            },
                            None => self.go_interactive(),
                        }
                    }
                },
                AuthEvent::CacheLoaded(None) => self.go_interactive(),
                _ => self.out_of_order(),
            },
            AuthStage::Refreshing => match event {
                AuthEvent::TokenIssued(c) => self.persist(c, now),
                AuthEvent::TokenRequestFailed(_) => self.go_interactive(),
                _ => self.out_of_order(),
            },
            AuthStage::AwaitingCode => match event {
                AuthEvent::CodeReceived(code) => {
                    self.stage = AuthStage::Exchanging;
                    self.pending = None;
                    AuthAction::Exchange(code)
                },
                AuthEvent::CodeNotReceived => self.fail(
                    KindleError::plain("Failed to receive auth code"),
                ),
                _ => self.out_of_order(),
            },
            AuthStage::Exchanging => match event {
                AuthEvent::TokenIssued(c) => self.persist(c, now),
                AuthEvent::TokenRequestFailed(m) => self.fail(
                    KindleError::with_detail("Error exchanging code for token: ", &m),
                ),
                _ => self.out_of_order(),
            },
            AuthStage::Persisting => match event {
                AuthEvent::Persisted => match self.pending.take() {
                    Some(c) => self.finish(c.access_token),
                    None => self.out_of_order(),
                },
                AuthEvent::PersistFailed(m) => self.fail(
                    KindleError::with_detail("Error writing token to file: ", &m),
                ),
                _ => self.out_of_order(),
            },
            _ => self.out_of_order(),
        }
    }

    /// Advances the run by what was reported, at the current time.
    pub fn advance(&mut self, event: AuthEvent) -> (r: AuthAction)
        ensures
            exists|now: i64| (final(self)@, r@) == auth_next(old(self)@, event@, now),
    {
        let now = crate::credential::now_epoch();
        self.advance_at(event, now)
    }

    fn finish(&mut self, token: String) -> (r: AuthAction)
        ensures
            final(self)@ == at_stage(AuthStage::Finished),
            r@ == AuthActionView::Done(token@),
    {
        self.stage = AuthStage::Finished;
        self.pending = None;
        AuthAction::Done(token)
    }

    fn go_interactive(&mut self) -> (r: AuthAction)
        ensures
            (final(self)@, r@) == interactive(),
    {
        self.stage = AuthStage::AwaitingCode;
        self.pending = None;
        AuthAction::AwaitCode
    }

    fn persist(&mut self, c: TokenResponse, now: i64) -> (r: AuthAction)
        ensures
            (final(self)@, r@) == persisting(c@, now),
    {
        let mut c = c;
        c.stamp(now);
        self.stage = AuthStage::Persisting;
        self.pending = Some(c);
        AuthAction::Persist
    }

    fn fail(&mut self, e: KindleError) -> (r: AuthAction)
        ensures
            (final(self)@, r@) == failing(e.message@),
    {
        self.stage = AuthStage::Failed;
        self.pending = None;
        AuthAction::Fail(e)
    }

    fn out_of_order(&mut self) -> (r: AuthAction)
        ensures
            (final(self)@, r@) == out_of_order(),
    {
        self.fail(KindleError::plain("authentication step out of order"))
    }
}

/// A stored credential whose expiry lies after `now` is used as it is: the run
/// finishes with its access token and no action reaches the network.
pub proof fn lemma_valid_cache_stays_offline(c: CredentialView, now: i64)
    requires
        valid_at(c, now),
    ensures
        ({
            let (s, a) = auth_next(at_stage(AuthStage::Start), AuthEventView::CacheLoaded(Some(c)), now);
            &&& s.stage == AuthStage::Finished
            &&& a == AuthActionView::Done(c.access_token)
            &&& !touches_network(a)
        }),
{
}

/// An expired stored credential with a refresh token is refreshed; a
/// successful refresh at time `t` stores the new credential with its expiry
/// recomputed as `t` plus its new lifetime, and the run ends with the new
/// access token, which differs from the old one wherever the provider issued
/// a different one.
pub proof fn lemma_refresh_restamps(
    c: CredentialView,
    now: i64,
    issued: CredentialView,
    t: i64,
    t2: i64,
)
    requires
        !valid_at(c, now),
        c.refresh_token is Some,
    ensures
        ({
            let (s1, a1) = auth_next(at_stage(AuthStage::Start), AuthEventView::CacheLoaded(Some(c)), now);
            let (s2, a2) = auth_next(s1, AuthEventView::TokenIssued(issued), t);
            let (s3, a3) = auth_next(s2, AuthEventView::Persisted, t2);
            &&& a1 == AuthActionView::Refresh(c.refresh_token->Some_0)
            &&& a2 == AuthActionView::Persist
            &&& s2.pending == Some(stamped(issued, t))
            &&& s2.pending->Some_0.expires_at == Some(
                crate::credential::expiry_after(t, issued.expires_in),
            )
            &&& (t + issued.expires_in <= i64::MAX ==> s2.pending->Some_0.expires_at == Some(
                (t + issued.expires_in) as i64,
            ))
            &&& a3 == AuthActionView::Done(issued.access_token)
            &&& (issued.access_token != c.access_token ==> a3 != AuthActionView::Done(c.access_token))
        }),
{
}

/// The interactive flow starts if and only if the stored credential (if any)
/// is not valid and no refresh succeeds: none is attempted, or the one
/// attempted fails. `refreshed` is what the refresh call would give.
pub proof fn lemma_interactive_iff_nothing_else(
    cache: Option<CredentialView>,
    now: i64,
    refreshed: Option<CredentialView>,
    t: i64,
    cause: Seq<char>,
)
    ensures
        ({
            let (s1, a1) = auth_next(at_stage(AuthStage::Start), AuthEventView::CacheLoaded(cache), now);
            let reply = match refreshed {
                Some(r) => AuthEventView::TokenIssued(r),
                None => AuthEventView::TokenRequestFailed(cause),
            };
            let (s2, a2) = auth_next(s1, reply, t);
            let invoked = a1 == AuthActionView::AwaitCode || (a1 is Refresh && a2
                == AuthActionView::AwaitCode);
            let cache_valid = cache is Some && valid_at(cache->Some_0, now);
            let refresh_ok = cache is Some && cache->Some_0.refresh_token is Some && refreshed is Some;
            invoked <==> (!cache_valid && !refresh_ok)
        }),
{
}

/// The one-shot handoff between the redirect listener and the waiting run:
/// the first authorization code offered is passed on, nothing after it.
pub struct CodeSlot {
    pub delivered: bool,
}

impl CodeSlot {
    pub fn new() -> (r: CodeSlot)
        ensures
            !r.delivered,
    {
        CodeSlot { delivered: false }
    }

    /// Offers the code parameter of one redirect request. Returns the code to
    /// hand to the waiter, the first time one arrives, and nothing otherwise.
    pub fn offer(&mut self, code: Option<String>) -> (r: Option<String>)
        ensures
            r == (if !old(self).delivered { code } else { None }),
            final(self).delivered == (old(self).delivered || code is Some),
    {
        if self.delivered {
            None
        } else {
            match code {
                Some(c) => {
                    self.delivered = true;
                    Some(c)
                },
                None => None,
            }
        }
    }
}

} // verus!
