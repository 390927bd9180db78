use vstd::prelude::*;

verus! {

/// A credential issued by the identity provider, with the moment it expires
/// once it has been stamped at acquisition time.
#[derive(Debug)]
pub struct TokenResponse {
    pub access_token: String,
    pub refresh_token: Option<String>,
    pub id_token: Option<String>,
    pub expires_in: u32,
    pub token_type: String,
    pub expires_at: Option<i64>,
}

/// The mathematical content of a credential.
pub struct CredentialView {
    pub access_token: Seq<char>,
    pub refresh_token: Option<Seq<char>>,
    pub id_token: Option<Seq<char>>,
    pub expires_in: u32,
    pub token_type: Seq<char>,
    pub expires_at: Option<i64>,
}

pub open spec fn opt_view(o: Option<String>) -> Option<Seq<char>> {
    match o {
        Some(s) => Some(s@),
        None => None,
    }
}

impl View for TokenResponse {
    type V = CredentialView;

    open spec fn view(&self) -> CredentialView {
        CredentialView {
            access_token: self.access_token@,
            refresh_token: opt_view(self.refresh_token),
            id_token: opt_view(self.id_token),
            expires_in: self.expires_in,
            token_type: self.token_type@,
            expires_at: self.expires_at,
        }
    }
}

/// A credential is usable at `now` when it carries an expiry that lies after `now`.
pub open spec fn valid_at(c: CredentialView, now: i64) -> bool {
    match c.expires_at {
        Some(t) => now < t,
        None => false,
    }
}

/// `now + expires_in`, held at the largest timestamp where it would not fit.
pub open spec fn expiry_after(now: i64, expires_in: u32) -> i64 {
    if now + expires_in > i64::MAX {
        i64::MAX
    } else {
        (now + expires_in) as i64
    }
}

/// The credential as stored after acquisition at `now`: everything kept, the
/// expiry computed once from the lifetime that came with it.
pub open spec fn stamped(c: CredentialView, now: i64) -> CredentialView {
    CredentialView { expires_at: Some(expiry_after(now, c.expires_in)), ..c }
}

/// Relies on chrono's `From<SystemTime> for DateTime<Utc>` and
/// `DateTime::timestamp`: the system clock in whole seconds since the Unix
/// epoch, negative for a clock set before it. The value depends on the clock,
/// so nothing is promised of it.
#[verifier::external_body]
pub(crate) fn now_epoch() -> (r: i64) {
    chrono::DateTime::<chrono::Utc>::from(std::time::SystemTime::now()).timestamp()
}

impl TokenResponse {
    /// Whether the credential is still usable at the given time.
    pub fn is_token_valid_at(&self, now: i64) -> (r: bool)
        ensures
            r == valid_at(self@, now),
    {
        match self.expires_at {
            Some(t) => now < t,
            None => false,
        }
    }

    /// Whether the credential is still usable now, by the system clock.
    pub fn is_token_valid(&self) -> (r: bool)
        ensures
            r ==> self.expires_at.is_some(),
            exists|now: i64| r == valid_at(self@, now),
    {
        let now = now_epoch();
        self.is_token_valid_at(now)
    }

    /// Records the expiry of a credential acquired at `now`.
    pub fn stamp(&mut self, now: i64)
        ensures
            final(self)@ == stamped(old(self)@, now),
    {
        let at: i64 = if now > i64::MAX - self.expires_in as i64 {
            i64::MAX
        } else {
            now + self.expires_in as i64
        };
        self.expires_at = Some(at);
    }
}

} // verus!
