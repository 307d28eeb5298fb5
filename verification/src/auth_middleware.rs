//! The guard in front of every protected handler: it reads the session token
//! of a request, checks it, and either hands the verified identity on or turns
//! the request away.

use crate::common::err::{AppError, AppErrorView};
use crate::common::primitives::{jwt_payload, unix_time};
use crate::common::util::{token_claims, token_decode_at};
use crate::model::user::{UserToken, UserTokenView};
use vstd::prelude::*;

verus! {

/// What the HTTP layer found under the token header of a request.
#[derive(Debug, Clone, PartialEq, Eq)]
pub enum TokenHeader {
    /// The request has no such header.
    Missing,
    /// The header is there, but its value is no text.
    Unreadable,
    /// The value of the header.
    Value(String),
}

/// Mathematical model of a [`TokenHeader`].
pub enum TokenHeaderView {
    Missing,
    Unreadable,
    Value(Seq<char>),
}

impl View for TokenHeader {
    type V = TokenHeaderView;

    open spec fn view(&self) -> TokenHeaderView {
        match *self {
            TokenHeader::Missing => TokenHeaderView::Missing,
            TokenHeader::Unreadable => TokenHeaderView::Unreadable,
            TokenHeader::Value(text) => TokenHeaderView::Value(text@),
        }
    }
}

/// Why the guard turned a request away.
#[derive(Debug, Clone, Copy, PartialEq, Eq, Structural)]
pub enum Rejection {
    /// The request carries no token.
    MissingCredential,
    /// The token is malformed, signed otherwise, incomplete or expired; the
    /// guard does not say which.
    InvalidOrExpiredCredential,
}

/// Where a request stands at the guard. A request arrives `Unauthenticated`
/// and leaves the guard in one of the two other states, for good.
#[derive(Debug, Clone, PartialEq, Eq)]
pub enum AuthState {
    Unauthenticated,
    /// The identity that the token of the request proved.
    Authenticated(UserToken),
    Rejected(Rejection),
}

/// Mathematical model of a [`AuthState`].
pub enum AuthStateView {
    Unauthenticated,
    Authenticated(UserTokenView),
    Rejected(Rejection),
}

impl View for AuthState {
    type V = AuthStateView;

    open spec fn view(&self) -> AuthStateView {
        match *self {
            AuthState::Unauthenticated => AuthStateView::Unauthenticated,
            AuthState::Authenticated(identity) => AuthStateView::Authenticated(identity@),
            AuthState::Rejected(why) => AuthStateView::Rejected(why),
        }
    }
}

/// The state in which a request with the given header leaves the guard at
/// second `now`.
pub open spec fn auth_outcome(header: TokenHeaderView, secret: Seq<u8>, now: int) -> AuthStateView {
    match header {
        TokenHeaderView::Missing => AuthStateView::Rejected(Rejection::MissingCredential),
        TokenHeaderView::Unreadable => AuthStateView::Rejected(
            Rejection::InvalidOrExpiredCredential,
        ),
        TokenHeaderView::Value(token) => match token_claims(token, secret, now) {
            Some(identity) => AuthStateView::Authenticated(identity),
            None => AuthStateView::Rejected(Rejection::InvalidOrExpiredCredential),
        },
    }
}

/// The error that reports a rejection to the client.
pub open spec fn rejection_error(why: Rejection) -> AppErrorView {
    match why {
        Rejection::MissingCredential => AppErrorView::BusinessError(401, "TOKEN不存在"@),
        Rejection::InvalidOrExpiredCredential => AppErrorView::BusinessError(
            401,
            "TOKEN已失效，请重新登录"@,
        ),
    }
}

impl Rejection {
    /// The error that reports this rejection to the client.
    pub fn into_error(self) -> (e: AppError)
        ensures
            e@ == rejection_error(self),
    {
        match self {
            Rejection::MissingCredential => AppError::BusinessError(401, "TOKEN不存在"),
            Rejection::InvalidOrExpiredCredential => AppError::BusinessError(
                401,
                "TOKEN已失效，请重新登录",
            ),
        }
    }
}

/// The authentication guard. It knows nothing of routes: which of them it
/// guards is for the router to say.
#[derive(Debug, Clone, Copy)]
pub struct Auth;

impl Auth {
    /// Puts the guard in front of `service`.
    pub fn new_transform<S>(&self, service: S) -> (guarded: AuthMiddleware<S>)
        ensures
            guarded.service == service,
    {
        AuthMiddleware { service }
    }

    /// Moves a request through the guard as of second `now`.
    pub fn check_at(&self, header: &TokenHeader, secret: &[u8], now: i64) -> (state: AuthState)
        ensures
            state@ == auth_outcome(header@, secret@, now as int),
    {
        match header {
            TokenHeader::Missing => AuthState::Rejected(Rejection::MissingCredential),
            TokenHeader::Unreadable => AuthState::Rejected(Rejection::InvalidOrExpiredCredential),
            TokenHeader::Value(token) => match token_decode_at(token.as_str(), secret, now) {
                Some(identity) => AuthState::Authenticated(identity),
                None => AuthState::Rejected(Rejection::InvalidOrExpiredCredential),
            },
        }
    }

    /// Moves a request through the guard as of the machine's clock. The state
    /// that comes back is the outcome at a second the clock can tell: never
    /// `Unauthenticated`, and `Authenticated` only with claims that the token
    /// proves under `secret`.
    pub fn check(&self, header: &TokenHeader, secret: &[u8]) -> (state: AuthState)
        ensures
            exists|now: int|
                i64::MIN <= now <= i64::MAX && state@ == #[trigger] auth_outcome(
                    header@,
                    secret@,
                    now,
                ),
    {
        let now = unix_time();
        self.check_at(header, secret, now)
    }
}

/// A service behind the guard.
#[derive(Debug, Clone, PartialEq, Eq)]
pub struct AuthMiddleware<S> {
    pub service: S,
}

impl<S> AuthMiddleware<S> {
    /// Lets a request through to the service, as of second `now`: the service
    /// and the identity the request proved, or the reason it was turned away.
    pub fn call_at(&self, header: &TokenHeader, secret: &[u8], now: i64) -> (out: Result<
        (&S, UserToken),
        Rejection,
    >)
        ensures
            match auth_outcome(header@, secret@, now as int) {
                AuthStateView::Authenticated(identity) => out matches Ok(pass) && *pass.0
                    == self.service && pass.1@ == identity,
                AuthStateView::Rejected(why) => out == Err::<(&S, UserToken), Rejection>(why),
                AuthStateView::Unauthenticated => false,
            },
    {
        match Auth.check_at(header, secret, now) {
            AuthState::Authenticated(identity) => Ok((&self.service, identity)),
            AuthState::Rejected(why) => Err(why),
            AuthState::Unauthenticated => Err(Rejection::MissingCredential),
        }
    }
}

impl<S> AuthMiddleware<S> {
    /// Lets a request through to the service, as of the machine's clock. A
    /// request that gets through carries an identity that its token proves
    /// under `secret`; one without a token is turned away as such.
    pub fn call(&self, header: &TokenHeader, secret: &[u8]) -> (out: Result<
        (&S, UserToken),
        Rejection,
    >)
        ensures
            exists|now: int|
                i64::MIN <= now <= i64::MAX && match #[trigger] auth_outcome(
                    header@,
                    secret@,
                    now,
                ) {
                    AuthStateView::Authenticated(identity) => out matches Ok(pass) && *pass.0
                        == self.service && pass.1@ == identity,
                    AuthStateView::Rejected(why) => out == Err::<(&S, UserToken), Rejection>(why),
                    AuthStateView::Unauthenticated => false,
                },
    {
        let now = unix_time();
        self.call_at(header, secret, now)
    }
}

impl UserToken {
    /// Reads the identity of a request off its token header, as of second
    /// `now`, or reports why there is none.
    pub fn from_request_at(header: &TokenHeader, secret: &[u8], now: i64) -> (out: Result<
        UserToken,
        AppError,
    >)
        ensures
            match auth_outcome(header@, secret@, now as int) {
                AuthStateView::Authenticated(identity) => out matches Ok(token) && token@
                    == identity,
                AuthStateView::Rejected(why) => out matches Err(e) && e@ == rejection_error(why),
                AuthStateView::Unauthenticated => false,
            },
    {
        match Auth.check_at(header, secret, now) {
            AuthState::Authenticated(identity) => Ok(identity),
            AuthState::Rejected(why) => Err(why.into_error()),
            AuthState::Unauthenticated => Err(Rejection::MissingCredential.into_error()),
        }
    }

    /// Reads the identity of a request off its token header, as of the
    /// machine's clock: the result is the outcome at the second the clock
    /// tells. Where the clock does not decide, the result is owed. A missing
    /// header is reported as such. An unreadable header, and a token that
    /// proves nothing at the earliest second, are reported as invalid or
    /// expired, which is also the only error a token can meet. A token that
    /// still proves its claims at the latest second the clock can tell yields
    /// those claims.
    pub fn from_request(header: &TokenHeader, secret: &[u8]) -> (out: Result<UserToken, AppError>)
        ensures
            exists|now: int|
                i64::MIN <= now <= i64::MAX && match #[trigger] auth_outcome(
                    header@,
                    secret@,
                    now,
                ) {
                    AuthStateView::Authenticated(identity) => out matches Ok(token) && token@
                        == identity,
                    AuthStateView::Rejected(why) => out matches Err(e) && e@ == rejection_error(
                        why,
                    ),
                    AuthStateView::Unauthenticated => false,
                },
            header@ is Missing ==> (out matches Err(e) && e@ == rejection_error(
                Rejection::MissingCredential,
            )),
            header@ is Unreadable ==> (out matches Err(e) && e@ == rejection_error(
                Rejection::InvalidOrExpiredCredential,
            )),
            header@ matches TokenHeaderView::Value(text) ==> {
                &&& out matches Err(e) ==> e@ == rejection_error(
                    Rejection::InvalidOrExpiredCredential,
                )
                &&& jwt_payload(text, secret@) is None ==> out is Err
                &&& token_claims(text, secret@, i64::MIN as int) is None ==> out is Err
                &&& token_claims(text, secret@, i64::MAX as int) matches Some(claims) ==> (
                out matches Ok(token) && token@ == claims)
            },
            out matches Ok(token) ==> (header@ matches TokenHeaderView::Value(text) && exists|
                now: int,
            | #[trigger] token_claims(text, secret@, now) == Some(token@)),
    {
        let now = unix_time();
        Self::from_request_at(header, secret, now)
    }
}

/// The guard never leaves a request where it found it, and it lets a request in
/// only on claims that its token proves at that second.
pub proof fn lemma_guard_decides(header: TokenHeaderView, secret: Seq<u8>, now: int)
    ensures
        !(auth_outcome(header, secret, now) is Unauthenticated),
        auth_outcome(header, secret, now) matches AuthStateView::Authenticated(identity) ==> (
        header matches TokenHeaderView::Value(token) && token_claims(token, secret, now) == Some(
            identity,
        ) && now < identity.exp),
{
}

} // verus!
