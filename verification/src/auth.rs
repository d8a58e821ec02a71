//! Auth-token lifecycle: credential strategies, refresh, and header rendering.

use vstd::prelude::*;

verus! {

/// Tag naming the strategy that created a token. Used only to annotate
/// errors, never to gate behavior.
#[derive(Clone, Copy, Debug, PartialEq, Eq, Structural)]
pub enum AuthMethod {
    Interactive,
    ServiceAccount,
}

/// Errors of the token lifecycle.
#[derive(Clone, Copy, Debug, PartialEq, Eq, Structural)]
pub enum AuthError {
    /// Interactive login was cancelled or the exchange failed.
    LoginFailed,
    /// The service rejected the supplied client id / client secret pair.
    InvalidCredentials,
    /// The backing credential has been revoked; re-derivation failed.
    RefreshFailed,
    /// No token exists and none can be silently created.
    MissingToken,
}

/// The transport-level authorization value rendered from credential material.
pub open spec fn spec_auth_header(credential: Seq<char>) -> Seq<char> {
    "Bearer "@ + credential
}

/// How a token re-derives its credential material: the inputs of the
/// strategy that created it, kept so that refresh can use the same strategy.
#[derive(Clone, Debug)]
pub enum AuthStrategy {
    /// Interactive login left behind long-lived material (e.g. a refresh
    /// token from the device flow) from which new credentials are derived.
    Interactive { refresh_material: String },
    /// A non-interactive, long-lived credential pair.
    ServiceAccount { client_id: String, client_secret: String },
}

impl AuthStrategy {
    /// The diagnostic tag of the strategy.
    pub open spec fn spec_method(&self) -> AuthMethod {
        match self {
            AuthStrategy::Interactive { .. } => AuthMethod::Interactive,
            AuthStrategy::ServiceAccount { .. } => AuthMethod::ServiceAccount,
        }
    }

    /// An equal copy, handed to the credential exchange on refresh.
    pub fn duplicate(&self) -> (r: AuthStrategy)
        ensures
            r == *self,
    {
        match self {
            AuthStrategy::Interactive { refresh_material } => AuthStrategy::Interactive {
                refresh_material: refresh_material.clone(),
            },
            AuthStrategy::ServiceAccount { client_id, client_secret } => {
                AuthStrategy::ServiceAccount {
                    client_id: client_id.clone(),
                    client_secret: client_secret.clone(),
                }
            },
        }
    }
}

/// How long a freshly derived credential stays valid, in seconds.
pub const TOKEN_LIFETIME_SECS: u64 = 900;

/// One live credential: opaque material, expiry metadata, and the strategy
/// that created it (which refresh reuses and never re-tags).
#[derive(Debug)]
pub struct AuthToken {
    pub credential: String,
    pub expires_at: u64,
    pub strategy: AuthStrategy,
}

impl AuthToken {
    /// The rendered authorization value of the current credential material.
    pub open spec fn spec_header(&self) -> Seq<char> {
        spec_auth_header(self.credential@)
    }

    pub open spec fn spec_method(&self) -> AuthMethod {
        self.strategy.spec_method()
    }

    pub open spec fn spec_strategy(&self) -> AuthStrategy {
        self.strategy
    }

    /// A credential is fresh while the clock has not passed its expiry.
    pub open spec fn spec_is_fresh(&self, now: u64) -> bool {
        now <= self.expires_at
    }

    /// Materialize a token from credential material just derived by the
    /// given strategy.
    pub fn from_exchange(credential: String, now: u64, strategy: AuthStrategy) -> (token: Self)
        ensures
            token.credential == credential,
            token.spec_strategy() == strategy,
            token.spec_method() == strategy.spec_method(),
            token.spec_is_fresh(now),
    {
        let expires_at = if now <= u64::MAX - TOKEN_LIFETIME_SECS {
            now + TOKEN_LIFETIME_SECS
        } else {
            u64::MAX
        };
        AuthToken { credential, expires_at, strategy }
    }

    /// The tag without side effects; used only to annotate errors.
    pub fn method(&self) -> (m: AuthMethod)
        ensures
            m == self.spec_method(),
    {
        match &self.strategy {
            AuthStrategy::Interactive { .. } => AuthMethod::Interactive,
            AuthStrategy::ServiceAccount { .. } => AuthMethod::ServiceAccount,
        }
    }

    /// Render the current credential as a transport-level authorization
    /// value. Reflects the state after the most recent refresh.
    pub fn to_auth_header(&self) -> (header: String)
        ensures
            header@ == self.spec_header(),
    {
        let mut header = String::new();
        header.append("Bearer ");
        header.append(self.credential.as_str());
        proof {
            assert(header@ =~= spec_auth_header(self.credential@));
        }
        header
    }

    /// Idempotently ensure the token is valid for immediate use. A fresh
    /// credential makes this a no-op; an expired one is re-derived by the
    /// caller-supplied exchange, with the same strategy that created the
    /// token. Any exchange failure surfaces as `RefreshFailed`.
    pub fn refresh<E>(&mut self, now: u64, exchange: E) -> (r: Result<(), AuthError>)
        where E: FnOnce(AuthStrategy) -> Result<String, AuthError>,
        requires
            forall|s: AuthStrategy| exchange.requires((s,)),
        ensures
            old(self).spec_is_fresh(now) ==> r == Ok::<(), AuthError>(()) && *final(self)
                == *old(self),
            final(self).spec_strategy() == old(self).spec_strategy(),
            final(self).spec_method() == old(self).spec_method(),
            r matches Err(e) ==> e == AuthError::RefreshFailed && *final(self) == *old(self),
            r is Ok ==> final(self).spec_is_fresh(now),
            !old(self).spec_is_fresh(now) && r is Ok ==> exchange.ensures(
                (old(self).spec_strategy(),),
                Ok(final(self).credential),
            ),
            r is Err ==> exists|e0: AuthError|
                #[trigger] exchange.ensures((old(self).spec_strategy(),), Err(e0)),
    {
        if now <= self.expires_at {
            return Ok(());
        }
        let handed = self.strategy.duplicate();
        let ghost handed_snapshot = handed;
        match exchange(handed) {
            Ok(credential) => {
                let expires_at = if now <= u64::MAX - TOKEN_LIFETIME_SECS {
                    now + TOKEN_LIFETIME_SECS
                } else {
                    u64::MAX
                };
                self.credential = credential;
                self.expires_at = expires_at;
                Ok(())
            },
            Err(e) => {
                proof {
                    assert(exchange.ensures((handed_snapshot,), Err(e)));
                }
                Err(AuthError::RefreshFailed)
            },
        }
    }
}

} // verus!
