//! How a request is served, as a state machine. The handlers decide; the
//! shell around this library acts. A handler starts an exchange by returning
//! its first state and the first action it wants carried out. The shell
//! carries the action out, reports what came of it as an event, and the state
//! answers with the next action, until the action is a reply or a failure.
//!
//! Two rules are built into the states. A captcha has to be answered before
//! an email code is issued, and an email code has to be right before a user is
//! stored or a forgotten password replaced. And a one-time code is good for one
//! use: as soon as the cache is found to hold the code that a form gave, the
//! entry is removed, before anything else happens. A code that was used up
//! reads as one that expired or never was.

use crate::common::api::{ApiResult, ApiResultView};
use crate::common::constant::{
    CAPTCHA_HEADER_NAME, CONTENT_TYPE_HEADER_NAME, CONTENT_TYPE_JSON, CONTENT_TYPE_PNG,
    TOKEN_HEADER_NAME,
};
use crate::common::err::{AppError, AppErrorView};
use crate::common::primitives::unix_time;
use crate::common::util::{
    claims_for, spec_session_ttl, token_proves, Mail, MailView, OneTimeCode,
};
use crate::model::user::{
    CaptchaUser, CaptchaUserView, FindUserPwd, FindUserPwdView, LoginUser, LoginUserView,
    RegisterUser, RegisterUserView, User, UserView, VerifyStatus,
};
use crate::route::topic_route;
use crate::route::user_route;
use crate::service::user_service;
use vstd::prelude::*;

verus! {

/// The body of a reply.
#[derive(Debug, Clone, PartialEq, Eq)]
pub enum Body {
    /// A structured body.
    Json(ApiResult<VerifyStatus>),
    /// A captcha image.
    Png(Vec<u8>),
}

/// Mathematical model of a [`Body`].
pub enum BodyView {
    Json(ApiResultView<VerifyStatus>),
    Png(Seq<u8>),
}

impl View for Body {
    type V = BodyView;

    open spec fn view(&self) -> BodyView {
        match *self {
            Body::Json(result) => BodyView::Json(result@),
            Body::Png(image) => BodyView::Png(image@),
        }
    }
}

/// What goes back to the client when an exchange ends well: the status, the
/// session token and the captcha id where the reply carries one, each in the
/// header named for it, and the body.
#[derive(Debug, Clone, PartialEq, Eq)]
pub struct Reply {
    pub status: u16,
    pub token: Option<String>,
    pub captcha_key: Option<String>,
    pub body: Body,
}

/// Mathematical model of a [`Reply`].
pub struct ReplyView {
    pub status: u16,
    pub token: Option<Seq<char>>,
    pub captcha_key: Option<Seq<char>>,
    pub body: BodyView,
}

impl View for Reply {
    type V = ReplyView;

    open spec fn view(&self) -> ReplyView {
        ReplyView {
            status: self.status,
            token: match self.token {
                Some(token) => Some(token@),
                None => None,
            },
            captcha_key: match self.captcha_key {
                Some(key) => Some(key@),
                None => None,
            },
            body: self.body@,
        }
    }
}

/// What a state asks the shell to do next. `Reply` and `Fail` end the
/// exchange; every other action is answered by an [`Event`].
#[derive(Debug, Clone, PartialEq, Eq)]
pub enum Action {
    /// Read the cache entry under `key`.
    CacheGet { key: String },
    /// Write a cache entry, over any that is there, to expire after
    /// `ttl_seconds`.
    CachePut { key: String, value: String, ttl_seconds: i32 },
    /// Remove the cache entry under `key`.
    CacheDelete { key: String },
    /// Render a fresh captcha.
    RenderCaptcha,
    /// Hand a mail to the transport, without waiting for its delivery.
    SendEmail(Mail),
    /// Count the users with this email address.
    CountByEmail { email: String },
    /// Count the users with this name.
    CountByUsername { username: String },
    /// Look the user with this email address up.
    FindUserByEmail { email: String },
    /// Store a new user; `user_password` is a hash.
    InsertUser { uk_username: String, uk_email: String, user_password: String },
    /// Replace the password hash of the user with this id.
    UpdateUserPwd { pwd: String, id: u64 },
    /// Store a new topic of the user with this id.
    InsertTopic { user_id: u64, title: String, content: String, tags: String },
    /// Answer the client.
    Reply(Reply),
    /// Give up with an error.
    Fail(AppError),
}

/// Mathematical model of an [`Action`].
pub enum ActionView {
    CacheGet { key: Seq<char> },
    CachePut { key: Seq<char>, value: Seq<char>, ttl_seconds: i32 },
    CacheDelete { key: Seq<char> },
    RenderCaptcha,
    SendEmail(MailView),
    CountByEmail { email: Seq<char> },
    CountByUsername { username: Seq<char> },
    FindUserByEmail { email: Seq<char> },
    InsertUser { uk_username: Seq<char>, uk_email: Seq<char>, user_password: Seq<char> },
    UpdateUserPwd { pwd: Seq<char>, id: u64 },
    InsertTopic { user_id: u64, title: Seq<char>, content: Seq<char>, tags: Seq<char> },
    Reply(ReplyView),
    Fail(AppErrorView),
}

impl View for Action {
    type V = ActionView;

    open spec fn view(&self) -> ActionView {
        match *self {
            Action::CacheGet { key } => ActionView::CacheGet { key: key@ },
            Action::CachePut { key, value, ttl_seconds } => ActionView::CachePut {
                key: key@,
                value: value@,
                ttl_seconds,
            },
            Action::CacheDelete { key } => ActionView::CacheDelete { key: key@ },
            Action::RenderCaptcha => ActionView::RenderCaptcha,
            Action::SendEmail(mail) => ActionView::SendEmail(mail@),
            Action::CountByEmail { email } => ActionView::CountByEmail { email: email@ },
            Action::CountByUsername { username } => ActionView::CountByUsername {
                username: username@,
            },
            Action::FindUserByEmail { email } => ActionView::FindUserByEmail { email: email@ },
            Action::InsertUser { uk_username, uk_email, user_password } => ActionView::InsertUser {
                uk_username: uk_username@,
                uk_email: uk_email@,
                user_password: user_password@,
            },
            Action::UpdateUserPwd { pwd, id } => ActionView::UpdateUserPwd { pwd: pwd@, id },
            Action::InsertTopic { user_id, title, content, tags } => ActionView::InsertTopic {
                user_id,
                title: title@,
                content: content@,
                tags: tags@,
            },
            Action::Reply(reply) => ActionView::Reply(reply@),
            Action::Fail(e) => ActionView::Fail(e@),
        }
    }
}

/// What came of an action.
#[derive(Debug, Clone, PartialEq, Eq)]
pub enum Event {
    /// The cache answered a read: the value, or `None` where the key is not
    /// there, be it expired, used up or never written.
    Cached(Option<String>),
    /// The cache took a write.
    Stored,
    /// The cache took a removal.
    Deleted,
    /// A captcha was rendered: its answer and its image.
    Rendered { answer: String, image: Vec<u8> },
    /// The mail is on its way.
    Sent,
    /// The store counted this many rows.
    Counted(i64),
    /// The store looked a user up: the row, or `None` where there is none.
    Found(Option<User>),
    /// The store took the new row and gave it this id.
    Inserted(u64),
    /// The store turned the new row down: such a user is there already.
    Duplicate,
    /// The store changed this many rows.
    Updated(u64),
    /// The cache or the store could not do its part.
    Failed(AppError),
}

/// Mathematical model of an [`Event`].
pub enum EventView {
    Cached(Option<Seq<char>>),
    Stored,
    Deleted,
    Rendered { answer: Seq<char>, image: Seq<u8> },
    Sent,
    Counted(i64),
    Found(Option<UserView>),
    Inserted(u64),
    Duplicate,
    Updated(u64),
    Failed(AppErrorView),
}

impl View for Event {
    type V = EventView;

    open spec fn view(&self) -> EventView {
        match *self {
            Event::Cached(found) => EventView::Cached(
                match found {
                    Some(value) => Some(value@),
                    None => None,
                },
            ),
            Event::Stored => EventView::Stored,
            Event::Deleted => EventView::Deleted,
            Event::Rendered { answer, image } => EventView::Rendered {
                answer: answer@,
                image: image@,
            },
            Event::Sent => EventView::Sent,
            Event::Counted(rows) => EventView::Counted(rows),
            Event::Found(found) => EventView::Found(
                match found {
                    Some(user) => Some(user@),
                    None => None,
                },
            ),
            Event::Inserted(id) => EventView::Inserted(id),
            Event::Duplicate => EventView::Duplicate,
            Event::Updated(rows) => EventView::Updated(rows),
            Event::Failed(e) => EventView::Failed(e@),
        }
    }
}

/// Where an exchange stands: what it is waiting for, and what it has to
/// remember until then.
#[derive(Debug, Clone, PartialEq, Eq)]
pub enum Flow {
    /// Waiting for the number of users with an email address.
    EmailCount,
    /// Waiting for the number of users with a name.
    UsernameCount,
    /// Waiting for a captcha to be rendered.
    CaptchaRender,
    /// Waiting for a captcha answer to be cached under `key`.
    CaptchaStore { key: String, image: Vec<u8> },
    /// Waiting for the cached answer to the captcha of `form`. `reset` tells
    /// an email code asked for to reset a password from one asked for to
    /// register.
    CodeChallenge { form: CaptchaUser, reset: bool },
    /// The captcha was answered; waiting for its entry to be removed.
    CodeConsume { email: String, reset: bool },
    /// Waiting for the email code to be cached.
    CodeStore { email: String, code: String, reset: bool },
    /// Waiting for the mail with the code to be sent off.
    CodeSend { reset: bool },
    /// Waiting for the cached email code of a registration.
    RegisterChallenge { form: RegisterUser },
    /// The email code was right; waiting for its entry to be removed.
    RegisterConsume { form: RegisterUser },
    /// Waiting for the new user to be stored.
    RegisterInsert,
    /// Waiting for the cached answer to the captcha of a login.
    LoginChallenge { form: LoginUser },
    /// The captcha was answered; waiting for its entry to be removed.
    LoginConsume { form: LoginUser },
    /// Waiting for the user who logs in to be looked up.
    LoginLookup { form: LoginUser },
    /// Waiting for the user whose password is to be reset to be looked up.
    ResetLookup { form: FindUserPwd },
    /// Waiting for the cached email code of a password reset.
    ResetChallenge { code: String, email: String, password: String, user_id: u64 },
    /// The email code was right; waiting for its entry to be removed.
    ResetConsume { password: String, user_id: u64 },
    /// Waiting for a new password hash to be stored.
    PwdUpdate,
    /// Waiting for a new topic to be stored.
    TopicInsert,
    /// The exchange is over.
    Finished,
}

/// Mathematical model of a [`Flow`].
pub enum FlowView {
    EmailCount,
    UsernameCount,
    CaptchaRender,
    CaptchaStore { key: Seq<char>, image: Seq<u8> },
    CodeChallenge { form: CaptchaUserView, reset: bool },
    CodeConsume { email: Seq<char>, reset: bool },
    CodeStore { email: Seq<char>, code: Seq<char>, reset: bool },
    CodeSend { reset: bool },
    RegisterChallenge { form: RegisterUserView },
    RegisterConsume { form: RegisterUserView },
    RegisterInsert,
    LoginChallenge { form: LoginUserView },
    LoginConsume { form: LoginUserView },
    LoginLookup { form: LoginUserView },
    ResetLookup { form: FindUserPwdView },
    ResetChallenge { code: Seq<char>, email: Seq<char>, password: Seq<char>, user_id: u64 },
    ResetConsume { password: Seq<char>, user_id: u64 },
    PwdUpdate,
    TopicInsert,
    Finished,
}

impl View for Flow {
    type V = FlowView;

    open spec fn view(&self) -> FlowView {
        match *self {
            Flow::EmailCount => FlowView::EmailCount,
            Flow::UsernameCount => FlowView::UsernameCount,
            Flow::CaptchaRender => FlowView::CaptchaRender,
            Flow::CaptchaStore { key, image } => FlowView::CaptchaStore {
                key: key@,
                image: image@,
            },
            Flow::CodeChallenge { form, reset } => FlowView::CodeChallenge { form: form@, reset },
            Flow::CodeConsume { email, reset } => FlowView::CodeConsume { email: email@, reset },
            Flow::CodeStore { email, code, reset } => FlowView::CodeStore {
                email: email@,
                code: code@,
                reset,
            },
            Flow::CodeSend { reset } => FlowView::CodeSend { reset },
            Flow::RegisterChallenge { form } => FlowView::RegisterChallenge { form: form@ },
            Flow::RegisterConsume { form } => FlowView::RegisterConsume { form: form@ },
            Flow::RegisterInsert => FlowView::RegisterInsert,
            Flow::LoginChallenge { form } => FlowView::LoginChallenge { form: form@ },
            Flow::LoginConsume { form } => FlowView::LoginConsume { form: form@ },
            Flow::LoginLookup { form } => FlowView::LoginLookup { form: form@ },
            Flow::ResetLookup { form } => FlowView::ResetLookup { form: form@ },
            Flow::ResetChallenge { code, email, password, user_id } => FlowView::ResetChallenge {
                code: code@,
                email: email@,
                password: password@,
                user_id,
            },
            Flow::ResetConsume { password, user_id } => FlowView::ResetConsume {
                password: password@,
                user_id,
            },
            Flow::PwdUpdate => FlowView::PwdUpdate,
            Flow::TopicInsert => FlowView::TopicInsert,
            Flow::Finished => FlowView::Finished,
        }
    }
}

/// The exchange ends with a reply.
pub open spec fn replies(next: FlowView, action: ActionView, reply: ReplyView) -> bool {
    next == FlowView::Finished && action == ActionView::Reply(reply)
}

/// The exchange ends with an error.
pub open spec fn fails(next: FlowView, action: ActionView, error: AppErrorView) -> bool {
    next == FlowView::Finished && action == ActionView::Fail(error)
}

/// The error that answers an event the state was not waiting for.
pub open spec fn out_of_turn() -> AppErrorView {
    AppErrorView::BusinessError(500, "unexpected event"@)
}

/// A structured body with a code and a message.
pub open spec fn envelope(code: u16, msg: Seq<char>, data: Option<VerifyStatus>) -> ApiResultView<
    VerifyStatus,
> {
    ApiResultView { code: Some(code), msg: Some(msg), data }
}

/// The reply that carries a structured body and nothing else.
pub open spec fn json_reply(result: ApiResultView<VerifyStatus>) -> ReplyView {
    ReplyView { status: 200, token: None, captcha_key: None, body: BodyView::Json(result) }
}

/// The media type of a body.
pub open spec fn content_type(body: BodyView) -> Seq<char> {
    match body {
        BodyView::Json(_) => CONTENT_TYPE_JSON@,
        BodyView::Png(_) => CONTENT_TYPE_PNG@,
    }
}

/// The headers of a reply, each with its name: the media type of the body,
/// then the session token and the captcha id where the reply carries them.
pub open spec fn reply_headers(reply: ReplyView) -> Seq<(Seq<char>, Seq<char>)> {
    seq![(CONTENT_TYPE_HEADER_NAME@, content_type(reply.body))] + match reply.token {
        Some(token) => seq![(TOKEN_HEADER_NAME@, token)],
        None => seq![],
    } + match reply.captcha_key {
        Some(key) => seq![(CAPTCHA_HEADER_NAME@, key)],
        None => seq![],
    }
}

impl Reply {
    /// The headers of the reply, each with its name.
    pub fn headers(&self) -> (headers: Vec<(String, String)>)
        ensures
            headers@.len() == reply_headers(self@).len(),
            forall|i: int|
                0 <= i < headers@.len() ==> (#[trigger] headers@[i]).0@ == reply_headers(self@)[i].0
                    && headers@[i].1@ == reply_headers(self@)[i].1,
    {
        let mut headers: Vec<(String, String)> = Vec::new();
        let media = match &self.body {
            Body::Json(_) => CONTENT_TYPE_JSON,
            Body::Png(_) => CONTENT_TYPE_PNG,
        };
        headers.push((String::from_str(CONTENT_TYPE_HEADER_NAME), String::from_str(media)));
        match &self.token {
            Some(token) => {
                headers.push((String::from_str(TOKEN_HEADER_NAME), token.clone()));
            },
            None => {},
        }
        match &self.captcha_key {
            Some(key) => {
                headers.push((String::from_str(CAPTCHA_HEADER_NAME), key.clone()));
            },
            None => {},
        }
        headers
    }

    /// The reply that carries a structured body and nothing else.
    pub fn json(result: ApiResult<VerifyStatus>) -> (reply: Reply)
        ensures
            reply@ == json_reply(result@),
    {
        Reply { status: 200, token: None, captcha_key: None, body: Body::Json(result) }
    }
}

/// The action that writes a one-time code into the cache.
pub fn cache_put(code: OneTimeCode) -> (action: Action)
    ensures
        action@ == (ActionView::CachePut {
            key: code@.key,
            value: code@.value,
            ttl_seconds: code@.ttl_seconds,
        }),
{
    let OneTimeCode { key, value, ttl_seconds } = code;
    Action::CachePut { key, value, ttl_seconds }
}

/// Ends an exchange with a reply.
pub fn finish(reply: Reply) -> (out: (Flow, Action))
    ensures
        replies(out.0@, out.1@, reply@),
{
    (Flow::Finished, Action::Reply(reply))
}

/// Ends an exchange with an error.
pub fn abort(error: AppError) -> (out: (Flow, Action))
    ensures
        fails(out.0@, out.1@, error@),
{
    (Flow::Finished, Action::Fail(error))
}

/// Ends an exchange on an event that its state was not waiting for.
pub fn reject_event() -> (out: (Flow, Action))
    ensures
        fails(out.0@, out.1@, out_of_turn()),
{
    abort(AppError::BusinessError(500, "unexpected event"))
}


/// What the store said when asked to count, as an event reports it: the
/// number, or `None` where it failed.
pub open spec fn counted(event: EventView) -> Option<Option<i64>> {
    match event {
        EventView::Counted(rows) => Some(Some(rows)),
        EventView::Failed(_) => Some(None),
        _ => None,
    }
}

/// One step of an exchange: in state `state`, on `event`, at second `now` and
/// with the signing secret `secret`, the exchange may go on in state `next`
/// with `action`.
///
/// A step is determined by state, event, second and secret, but for two
/// things drawn at random: the salt of a password hash and the value of a
/// one-time code. A failure of cache or store ends every exchange with that
/// failure, with two exceptions: the failure of a count is reported in the
/// body of the reply, and a mail that could not be sent off is no error of the
/// request, whose code is cached by then. An event that the state is not
/// waiting for ends the exchange with an error, and so does any event once the
/// exchange is over.
pub open spec fn transition(
    state: FlowView,
    event: EventView,
    secret: Seq<u8>,
    now: i64,
    next: FlowView,
    action: ActionView,
) -> bool {
    match state {
        FlowView::EmailCount => match counted(event) {
            Some(count) => replies(next, action, json_reply(user_service::email_check(count))),
            None => fails(next, action, out_of_turn()),
        },
        FlowView::UsernameCount => match counted(event) {
            Some(count) => replies(next, action, json_reply(user_service::username_check(count))),
            None => fails(next, action, out_of_turn()),
        },
        FlowView::CaptchaRender => match event {
            EventView::Rendered { answer, image } => user_route::captcha_after_rendered(
                answer,
                image,
                next,
                action,
            ),
            EventView::Failed(e) => fails(next, action, e),
            _ => fails(next, action, out_of_turn()),
        },
        FlowView::CaptchaStore { key, image } => match event {
            EventView::Stored => replies(next, action, user_route::captcha_reply(key, image)),
            EventView::Failed(e) => fails(next, action, e),
            _ => fails(next, action, out_of_turn()),
        },
        FlowView::CodeChallenge { form, reset } => match event {
            EventView::Cached(found) => (next, action) == user_route::code_after_cached(
                form,
                reset,
                found,
            ),
            EventView::Failed(e) => fails(next, action, e),
            _ => fails(next, action, out_of_turn()),
        },
        FlowView::CodeConsume { email, reset } => match event {
            EventView::Deleted => user_route::code_after_deleted(email, reset, next, action),
            EventView::Failed(e) => fails(next, action, e),
            _ => fails(next, action, out_of_turn()),
        },
        FlowView::CodeStore { email, code, reset } => match event {
            EventView::Stored => next == (FlowView::CodeSend { reset }) && action
                == ActionView::SendEmail(user_route::code_mail(email, code)),
            EventView::Failed(e) => fails(next, action, e),
            _ => fails(next, action, out_of_turn()),
        },
        FlowView::CodeSend { reset } => match event {
            EventView::Sent => replies(next, action, user_route::code_sent(reset)),
            EventView::Failed(_) => replies(next, action, user_route::code_sent(reset)),
            _ => fails(next, action, out_of_turn()),
        },
        FlowView::RegisterChallenge { form } => match event {
            EventView::Cached(found) => (next, action) == user_service::register_after_cached(
                form,
                found,
            ),
            EventView::Failed(e) => fails(next, action, e),
            _ => fails(next, action, out_of_turn()),
        },
        FlowView::RegisterConsume { form } => match event {
            EventView::Deleted => user_service::register_after_deleted(form, next, action),
            EventView::Failed(e) => fails(next, action, e),
            _ => fails(next, action, out_of_turn()),
        },
        FlowView::RegisterInsert => match event {
            EventView::Inserted(_) => replies(next, action, user_service::registered()),
            EventView::Duplicate => fails(next, action, user_service::already_registered()),
            EventView::Failed(e) => fails(next, action, e),
            _ => fails(next, action, out_of_turn()),
        },
        FlowView::LoginChallenge { form } => match event {
            EventView::Cached(found) => (next, action) == user_route::login_after_cached(
                form,
                found,
            ),
            EventView::Failed(e) => fails(next, action, e),
            _ => fails(next, action, out_of_turn()),
        },
        FlowView::LoginConsume { form } => match event {
            EventView::Deleted => next == (FlowView::LoginLookup { form }) && action == (
            ActionView::FindUserByEmail { email: form.email }),
            EventView::Failed(e) => fails(next, action, e),
            _ => fails(next, action, out_of_turn()),
        },
        FlowView::LoginLookup { form } => match event {
            EventView::Found(found) => next == FlowView::Finished && action
                == user_route::login_after_found(form, found, secret, now),
            EventView::Failed(e) => fails(next, action, e),
            _ => fails(next, action, out_of_turn()),
        },
        FlowView::ResetLookup { form } => match event {
            EventView::Found(found) => (next, action) == user_route::reset_after_found(
                form,
                found,
            ),
            EventView::Failed(e) => fails(next, action, e),
            _ => fails(next, action, out_of_turn()),
        },
        FlowView::ResetChallenge { code, email, password, user_id } => match event {
            EventView::Cached(found) => (next, action) == user_route::reset_after_cached(
                code,
                email,
                password,
                user_id,
                found,
            ),
            EventView::Failed(e) => fails(next, action, e),
            _ => fails(next, action, out_of_turn()),
        },
        FlowView::ResetConsume { password, user_id } => match event {
            EventView::Deleted => user_route::pwd_change(password, user_id, next, action),
            EventView::Failed(e) => fails(next, action, e),
            _ => fails(next, action, out_of_turn()),
        },
        FlowView::PwdUpdate => match event {
            EventView::Updated(rows) => next == FlowView::Finished && action
                == user_route::pwd_after_updated(rows),
            EventView::Failed(e) => fails(next, action, e),
            _ => fails(next, action, out_of_turn()),
        },
        FlowView::TopicInsert => match event {
            EventView::Inserted(id) => next == FlowView::Finished && action
                == topic_route::topic_after_inserted(id),
            EventView::Failed(e) => fails(next, action, e),
            _ => fails(next, action, out_of_turn()),
        },
        FlowView::Finished => fails(next, action, out_of_turn()),
    }
}

/// A session token in a reply is what it should be: it is handed out only at
/// the end of a login, to the user who was looked up, and it proves that
/// user's id, name and address, under `secret`, from the second `now` until the
/// session expires.
pub open spec fn token_is_sound(
    state: FlowView,
    event: EventView,
    secret: Seq<u8>,
    now: i64,
    action: ActionView,
) -> bool {
    action matches ActionView::Reply(reply) ==> (reply.token matches Some(token) ==> (
    state matches FlowView::LoginLookup { form } && event matches EventView::Found(Some(user))
        && claims_for(
        user.pk_id,
        user.uk_username,
        user.uk_email,
        spec_session_ttl(form.forever),
        now,
    ) matches Some(claims) && token_proves(token, secret, claims)))
}

impl Flow {
    /// Whether the exchange is over.
    pub fn is_finished(&self) -> (over: bool)
        ensures
            over == (self@ is Finished),
    {
        match self {
            Flow::Finished => true,
            _ => false,
        }
    }

    /// Takes one step, as of second `now`: a step that [`transition`] allows.
    /// A session token that the step hands out proves the identity of the
    /// user who logged in, until the session expires.
    pub fn step_at(self, event: Event, secret: &[u8], now: i64) -> (out: (Flow, Action))
        ensures
            transition(self@, event@, secret@, now, out.0@, out.1@),
            token_is_sound(self@, event@, secret@, now, out.1@),
    {
        let ghost state = self@;
        let ghost happened = event@;
        let out = match self {
            Flow::EmailCount => match event {
                Event::Counted(rows) => finish(
                    Reply::json(user_service::check_email_exists(Ok(rows))),
                ),
                Event::Failed(e) => finish(Reply::json(user_service::check_email_exists(Err(e)))),
                _ => reject_event(),
            },
            Flow::UsernameCount => match event {
                Event::Counted(rows) => finish(
                    Reply::json(user_service::check_username_exists(Ok(rows))),
                ),
                Event::Failed(e) => finish(
                    Reply::json(user_service::check_username_exists(Err(e))),
                ),
                _ => reject_event(),
            },
            Flow::CaptchaRender => match event {
                Event::Rendered { answer, image } => user_route::captcha_on_rendered(answer, image),
                Event::Failed(e) => abort(e),
                _ => reject_event(),
            },
            Flow::CaptchaStore { key, image } => match event {
                Event::Stored => user_route::captcha_on_stored(key, image),
                Event::Failed(e) => abort(e),
                _ => reject_event(),
            },
            Flow::CodeChallenge { form, reset } => match event {
                Event::Cached(found) => user_route::code_on_cached(form, reset, found),
                Event::Failed(e) => abort(e),
                _ => reject_event(),
            },
            Flow::CodeConsume { email, reset } => match event {
                Event::Deleted => user_route::code_on_deleted(email, reset),
                Event::Failed(e) => abort(e),
                _ => reject_event(),
            },
            Flow::CodeStore { email, code, reset } => match event {
                Event::Stored => user_route::code_on_stored(email, code, reset),
                Event::Failed(e) => abort(e),
                _ => reject_event(),
            },
            Flow::CodeSend { reset } => match event {
                Event::Sent => user_route::code_on_sent(reset),
                Event::Failed(_) => user_route::code_on_sent(reset),
                _ => reject_event(),
            },
            Flow::RegisterChallenge { form } => match event {
                Event::Cached(found) => user_service::register_on_cached(form, found),
                Event::Failed(e) => abort(e),
                _ => reject_event(),
            },
            Flow::RegisterConsume { form } => match event {
                Event::Deleted => user_service::register_on_deleted(form),
                Event::Failed(e) => abort(e),
                _ => reject_event(),
            },
            Flow::RegisterInsert => match event {
                Event::Inserted(_) => user_service::register_on_inserted(),
                Event::Duplicate => user_service::register_on_duplicate(),
                Event::Failed(e) => abort(e),
                _ => reject_event(),
            },
            Flow::LoginChallenge { form } => match event {
                Event::Cached(found) => user_route::login_on_cached(form, found),
                Event::Failed(e) => abort(e),
                _ => reject_event(),
            },
            Flow::LoginConsume { form } => match event {
                Event::Deleted => user_route::login_on_deleted(form),
                Event::Failed(e) => abort(e),
                _ => reject_event(),
            },
            Flow::LoginLookup { form } => match event {
                Event::Found(found) => user_route::login_on_found(form, found, secret, now),
                Event::Failed(e) => abort(e),
                _ => reject_event(),
            },
            Flow::ResetLookup { form } => match event {
                Event::Found(found) => user_route::reset_on_found(form, found),
                Event::Failed(e) => abort(e),
                _ => reject_event(),
            },
            Flow::ResetChallenge { code, email, password, user_id } => match event {
                Event::Cached(found) => user_route::reset_on_cached(
                    code,
                    email,
                    password,
                    user_id,
                    found,
                ),
                Event::Failed(e) => abort(e),
                _ => reject_event(),
            },
            Flow::ResetConsume { password, user_id } => match event {
                Event::Deleted => user_route::reset_on_deleted(password, user_id),
                Event::Failed(e) => abort(e),
                _ => reject_event(),
            },
            Flow::PwdUpdate => match event {
                Event::Updated(rows) => user_route::pwd_on_updated(rows),
                Event::Failed(e) => abort(e),
                _ => reject_event(),
            },
            Flow::TopicInsert => match event {
                Event::Inserted(id) => topic_route::topic_on_inserted(id),
                Event::Failed(e) => abort(e),
                _ => reject_event(),
            },
            Flow::Finished => reject_event(),
        };
        proof {
            lemma_login_needs_captcha(state, happened, secret@, now, out.0@, out.1@);
        }
        out
    }

    /// Takes one step, as of the machine's clock: a step that [`transition`]
    /// allows at some second, with a session token that is sound as of that
    /// second.
    pub fn step(self, event: Event, secret: &[u8]) -> (out: (Flow, Action))
        ensures
            exists|now: i64| #[trigger]
                transition(self@, event@, secret@, now, out.0@, out.1@) && token_is_sound(
                    self@,
                    event@,
                    secret@,
                    now,
                    out.1@,
                ),
    {
        let now = unix_time();
        self.step_at(event, secret, now)
    }
}


/// The number of steps an exchange can take at most before it is over.
pub open spec fn steps_left(state: FlowView) -> nat {
    match state {
        FlowView::Finished => 0,
        FlowView::EmailCount => 1,
        FlowView::UsernameCount => 1,
        FlowView::CaptchaStore { .. } => 1,
        FlowView::CodeSend { .. } => 1,
        FlowView::RegisterInsert => 1,
        FlowView::LoginLookup { .. } => 1,
        FlowView::PwdUpdate => 1,
        FlowView::TopicInsert => 1,
        FlowView::CaptchaRender => 2,
        FlowView::CodeStore { .. } => 2,
        FlowView::RegisterConsume { .. } => 2,
        FlowView::LoginConsume { .. } => 2,
        FlowView::ResetConsume { .. } => 2,
        FlowView::CodeConsume { .. } => 3,
        FlowView::RegisterChallenge { .. } => 3,
        FlowView::LoginChallenge { .. } => 3,
        FlowView::ResetChallenge { .. } => 3,
        FlowView::CodeChallenge { .. } => 4,
        FlowView::ResetLookup { .. } => 5,
    }
}

/// Every exchange comes to an end: each step brings it closer, and none takes
/// more than five.
pub proof fn lemma_every_exchange_ends(
    state: FlowView,
    event: EventView,
    secret: Seq<u8>,
    now: i64,
    next: FlowView,
    action: ActionView,
)
    requires
        transition(state, event, secret, now, next, action),
        !(state is Finished),
    ensures
        steps_left(next) < steps_left(state) <= 5,
{
}

/// An exchange is over exactly when its action is a reply or a failure, and
/// once over it stays over.
pub proof fn lemma_ends_once(
    state: FlowView,
    event: EventView,
    secret: Seq<u8>,
    now: i64,
    next: FlowView,
    action: ActionView,
)
    requires
        transition(state, event, secret, now, next, action),
    ensures
        next is Finished <==> action is Reply || action is Fail,
        state is Finished ==> next is Finished,
{
}

/// A failure of cache or store is passed on as it is, wherever the exchange
/// stands, unless the exchange is a count, is over, or has only the mail left
/// to send.
pub proof fn lemma_failure_is_passed_on(
    state: FlowView,
    error: AppErrorView,
    secret: Seq<u8>,
    now: i64,
    next: FlowView,
    action: ActionView,
)
    requires
        transition(state, EventView::Failed(error), secret, now, next, action),
        !(state is EmailCount),
        !(state is UsernameCount),
        !(state is CodeSend),
        !(state is Finished),
    ensures
        fails(next, action, error),
{
}

/// No email code without a captcha: a code is cached, and a mail sent, only
/// on the way that starts where the cache held the very answer that the form
/// gave to its captcha; and the mail is sent only once the cache has taken the
/// code.
pub proof fn lemma_code_needs_captcha(
    state: FlowView,
    event: EventView,
    secret: Seq<u8>,
    now: i64,
    next: FlowView,
    action: ActionView,
)
    requires
        transition(state, event, secret, now, next, action),
    ensures
        action is SendEmail ==> state is CodeStore && event is Stored,
        next is CodeSend ==> state is CodeStore,
        next is CodeStore ==> state is CodeConsume,
        (action matches ActionView::CachePut { ttl_seconds, .. } && ttl_seconds
            == crate::common::constant::EMAIL_CODE_TTL_SECONDS) ==> state is CodeConsume,
        next is CodeConsume ==> (state matches FlowView::CodeChallenge { form, .. } && event
            == EventView::Cached(Some(form.captcha_value))),
{
}

/// No change without an email code: a user is stored, and a forgotten
/// password replaced, only on the way that starts where the cache held the
/// very code that the form gave.
pub proof fn lemma_change_needs_email_code(
    state: FlowView,
    event: EventView,
    secret: Seq<u8>,
    now: i64,
    next: FlowView,
    action: ActionView,
)
    requires
        transition(state, event, secret, now, next, action),
    ensures
        action is InsertUser ==> state is RegisterConsume,
        next is RegisterInsert ==> state is RegisterConsume,
        next is RegisterConsume ==> (state matches FlowView::RegisterChallenge { form } && event
            == EventView::Cached(Some(form.email_verify_code))),
        action is UpdateUserPwd ==> state is ResetConsume,
        next is PwdUpdate ==> state is ResetConsume,
        next is ResetConsume ==> (state matches FlowView::ResetChallenge { code, .. } && event
            == EventView::Cached(Some(code))),
{
}

/// A code is used once: whenever the cache held the code that a form gave,
/// the next action removes that entry, and nothing else happens before the
/// cache has taken the removal.
pub proof fn lemma_code_is_used_up(
    state: FlowView,
    found: Seq<char>,
    secret: Seq<u8>,
    now: i64,
    next: FlowView,
    action: ActionView,
)
    requires
        transition(state, EventView::Cached(Some(found)), secret, now, next, action),
    ensures
        state matches FlowView::CodeChallenge { form, .. } ==> (form.captcha_value == found
            ==> action == (ActionView::CacheDelete { key: form.captcha_key })),
        state matches FlowView::LoginChallenge { form } ==> (form.captcha_value == found
            ==> action == (ActionView::CacheDelete { key: form.captcha_key })),
        state matches FlowView::RegisterChallenge { form } ==> (form.email_verify_code == found
            ==> action == (ActionView::CacheDelete { key: form.uk_email })),
        state matches FlowView::ResetChallenge { code, email, .. } ==> (code == found ==> action
            == (ActionView::CacheDelete { key: email })),
{
}

/// Whatever is written into the cache is written to live: a captcha answer for
/// five minutes, an email code for fifty.
pub proof fn lemma_codes_are_cached_to_live(
    state: FlowView,
    event: EventView,
    secret: Seq<u8>,
    now: i64,
    next: FlowView,
    action: ActionView,
)
    requires
        transition(state, event, secret, now, next, action),
    ensures
        action matches ActionView::CachePut { ttl_seconds, .. } ==> (if state is CaptchaRender {
            ttl_seconds == crate::common::constant::CAPTCHA_TTL_SECONDS
        } else {
            ttl_seconds == crate::common::constant::EMAIL_CODE_TTL_SECONDS
        }),
        action matches ActionView::CachePut { ttl_seconds, .. } ==> ttl_seconds > 0,
{
}

/// A login with a wrong password is answered exactly as a login with an
/// address that nobody has.
pub proof fn lemma_login_refusals_alike(
    form: LoginUserView,
    user: UserView,
    secret: Seq<u8>,
    now: i64,
)
    requires
        !crate::common::util::password_accepted(form.password, user.user_password),
    ensures
        user_route::login_after_found(form, Some(user), secret, now)
            == user_route::login_after_found(form, None, secret, now),
        user_route::login_after_found(form, None, secret, now) == ActionView::Reply(
            user_route::login_refused(),
        ),
{
}

/// A login reaches the store only after its captcha was answered.
pub proof fn lemma_login_needs_captcha(
    state: FlowView,
    event: EventView,
    secret: Seq<u8>,
    now: i64,
    next: FlowView,
    action: ActionView,
)
    requires
        transition(state, event, secret, now, next, action),
    ensures
        next is LoginLookup ==> state is LoginConsume,
        next is LoginConsume ==> (state matches FlowView::LoginChallenge { form } && event
            == EventView::Cached(Some(form.captcha_value))),
        (action matches ActionView::Reply(reply) && reply.token is Some) ==> state is LoginLookup,
{
}

} // verus!
