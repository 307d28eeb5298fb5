use crate::common::api::ApiResult;
use crate::common::constant::{CAPTCHA_TTL_SECONDS, EMAIL_CODE_TTL_SECONDS, EMAIL_SUBJECT};
use crate::common::email::is_email;
use crate::common::err::{AppError, AppErrorView};
use crate::common::util::{
    captcha_code, claims_for, code_matches, encode_pwd, gen_pic_captcha, hashed,
    is_captcha_answer, is_png,
    issue_email_code, issued, mail_body, password_accepted, session_ttl, spec_session_ttl,
    text_of, token_issue_at, token_proves, validate_email as check_email, verification_mail,
    verify_captcha as check_code, verify_pwd, MailView,
};
use crate::flow::{
    abort, cache_put, envelope, fails, finish, json_reply, replies, Action, ActionView, Body,
    BodyView, Flow, FlowView, Reply, ReplyView,
};
use crate::model::user::{
    CaptchaUser, CaptchaUserView, FindUserPwd, FindUserPwdView, LoginUser, LoginUserView,
    RegisterUser, User, UserToken, UserView, VerifyStatus,
};
use crate::service::user_service;
use vstd::prelude::*;

verus! {

/// The error of an address that is no email address.
pub open spec fn bad_email() -> AppErrorView {
    AppErrorView::BusinessError(400, "邮箱格式不正确"@)
}

/// The error of a captcha answer that is wrong or no longer there.
pub open spec fn bad_captcha() -> AppErrorView {
    AppErrorView::BusinessError(401, "验证码错误或已过期"@)
}

/// The error of an email code that is wrong or no longer there, when a
/// password is to be reset.
pub open spec fn bad_email_code() -> AppErrorView {
    AppErrorView::BusinessError(401, "邮箱验证码校验错误"@)
}

/// The error of a password reset for an address that nobody has.
pub open spec fn no_such_user() -> AppErrorView {
    AppErrorView::BusinessError(400, "用户不存在"@)
}

/// The error of a password that the store did not take.
pub open spec fn pwd_not_changed() -> AppErrorView {
    AppErrorView::BusinessError(500, "修改密码失败"@)
}

/// How "is this email address free?" starts: with a count, unless the address
/// is malformed.
pub open spec fn validate_email_start(email: Seq<char>) -> (FlowView, ActionView) {
    if is_email(email) {
        (FlowView::EmailCount, ActionView::CountByEmail { email })
    } else {
        (FlowView::Finished, ActionView::Fail(bad_email()))
    }
}

/// Starts "is this email address free?".
pub fn validate_email(email: String) -> (out: (Flow, Action))
    ensures
        (out.0@, out.1@) == validate_email_start(email@),
{
    match check_email(email.as_str()) {
        Ok(()) => (Flow::EmailCount, Action::CountByEmail { email }),
        Err(e) => abort(e),
    }
}

/// Starts "is this name free?".
pub fn validate_username(username: String) -> (out: (Flow, Action))
    ensures
        out.0@ == FlowView::UsernameCount,
        out.1@ == (ActionView::CountByUsername { username: username@ }),
{
    (Flow::UsernameCount, Action::CountByUsername { username })
}

/// Starts the issue of a captcha.
pub fn get_captcha() -> (out: (Flow, Action))
    ensures
        out.0@ == FlowView::CaptchaRender,
        out.1@ == ActionView::RenderCaptcha,
{
    (Flow::CaptchaRender, Action::RenderCaptcha)
}

/// Where the issue of a captcha goes once it is rendered: its answer is to be
/// cached for five minutes under an id of forty-five characters, unless the
/// rendering is unusable: an answer that is not four letters or digits, or
/// bytes that do not begin as a PNG image does.
pub open spec fn captcha_after_rendered(
    answer: Seq<char>,
    image: Seq<u8>,
    next: FlowView,
    action: ActionView,
) -> bool {
    if is_captcha_answer(answer) && is_png(image) {
        &&& next matches FlowView::CaptchaStore { key, image: kept }
        &&& kept == image
        &&& key.len() == 45
        &&& action == (ActionView::CachePut {
            key,
            value: answer,
            ttl_seconds: CAPTCHA_TTL_SECONDS,
        })
    } else {
        fails(next, action, AppErrorView::BusinessError(500, "验证码生成失败"@))
    }
}

/// Gives a rendered captcha its id and asks for the answer to be cached.
pub fn captcha_on_rendered(answer: String, image: Vec<u8>) -> (out: (Flow, Action))
    ensures
        captcha_after_rendered(answer@, image@, out.0@, out.1@),
{
    match gen_pic_captcha(answer, image) {
        Ok((key, answer, image)) => {
            let id = key.clone();
            (Flow::CaptchaStore { key, image }, cache_put(captcha_code(id, answer)))
        },
        Err(e) => abort(e),
    }
}

/// The reply that carries a captcha: the image, with its id in the header.
pub open spec fn captcha_reply(key: Seq<char>, image: Seq<u8>) -> ReplyView {
    ReplyView { status: 200, token: None, captcha_key: Some(key), body: BodyView::Png(image) }
}

/// Ends the issue of a captcha whose answer is cached.
pub fn captcha_on_stored(key: String, image: Vec<u8>) -> (out: (Flow, Action))
    ensures
        replies(out.0@, out.1@, captcha_reply(key@, image@)),
{
    finish(Reply { status: 200, token: None, captcha_key: Some(key), body: Body::Png(image) })
}

/// How a request for an email code starts: with a look at the cached answer to
/// its captcha, unless the address is malformed.
pub open spec fn verify_captcha_start(form: CaptchaUserView) -> (FlowView, ActionView) {
    if is_email(form.email) {
        (
            FlowView::CodeChallenge { form, reset: false },
            ActionView::CacheGet { key: form.captcha_key },
        )
    } else {
        (FlowView::Finished, ActionView::Fail(bad_email()))
    }
}

/// Starts a request for an email code.
pub fn verify_captcha(captcha_user: CaptchaUser) -> (out: (Flow, Action))
    ensures
        (out.0@, out.1@) == verify_captcha_start(captcha_user@),
{
    match check_email(captcha_user.email.as_str()) {
        Ok(()) => {
            let key = captcha_user.captcha_key.clone();
            (Flow::CodeChallenge { form: captcha_user, reset: false }, Action::CacheGet { key })
        },
        Err(e) => abort(e),
    }
}

/// Where a request for an email code goes once the cache has answered: on to
/// removing the captcha where its answer is the one in the form, and to an end
/// otherwise.
pub open spec fn code_after_cached(form: CaptchaUserView, reset: bool, cached: Option<Seq<char>>)
    -> (FlowView, ActionView) {
    if code_matches(form.captcha_value, cached) {
        (
            FlowView::CodeConsume { email: form.email, reset },
            ActionView::CacheDelete { key: form.captcha_key },
        )
    } else {
        (FlowView::Finished, ActionView::Fail(bad_captcha()))
    }
}

/// Compares the captcha answer of a request for an email code with the cached
/// one.
pub fn code_on_cached(form: CaptchaUser, reset: bool, cached: Option<String>) -> (out: (
    Flow,
    Action,
))
    ensures
        (out.0@, out.1@) == code_after_cached(form@, reset, text_of(cached)),
{
    match check_code(&form.captcha_value, &cached) {
        Ok(()) => (
            Flow::CodeConsume { email: form.email, reset },
            Action::CacheDelete { key: form.captcha_key },
        ),
        Err(e) => abort(e),
    }
}

/// Where a request for an email code goes once its captcha is used up: a code
/// of twenty-two characters is to be cached under the address for fifty
/// minutes.
pub open spec fn code_after_deleted(
    email: Seq<char>,
    reset: bool,
    next: FlowView,
    action: ActionView,
) -> bool {
    if is_email(email) {
        &&& next matches FlowView::CodeStore { email: to, code, reset: kept }
        &&& to == email
        &&& kept == reset
        &&& code.len() == 22
        &&& action == (ActionView::CachePut {
            key: email,
            value: code,
            ttl_seconds: EMAIL_CODE_TTL_SECONDS,
        })
    } else {
        fails(next, action, bad_email())
    }
}

/// Draws an email code and asks for it to be cached.
pub fn code_on_deleted(email: String, reset: bool) -> (out: (Flow, Action))
    ensures
        code_after_deleted(email@, reset, out.0@, out.1@),
{
    match issue_email_code(email.as_str()) {
        Ok(fresh) => {
            let code = fresh.value.clone();
            (Flow::CodeStore { email, code, reset }, cache_put(fresh))
        },
        Err(e) => abort(e),
    }
}

/// The mail that carries `code` to `email`.
pub open spec fn code_mail(email: Seq<char>, code: Seq<char>) -> MailView {
    MailView { to: email, subject: EMAIL_SUBJECT@, html: mail_body(code) }
}

/// Asks for the mail with a cached email code to be sent.
pub fn code_on_stored(email: String, code: String, reset: bool) -> (out: (Flow, Action))
    ensures
        out.0@ == (FlowView::CodeSend { reset }),
        out.1@ == ActionView::SendEmail(code_mail(email@, code@)),
{
    (
        Flow::CodeSend { reset },
        Action::SendEmail(verification_mail(email.as_str(), code.as_str())),
    )
}

/// The reply to a request for an email code that went through.
pub open spec fn code_sent(reset: bool) -> ReplyView {
    if reset {
        json_reply(envelope(200, "验证码已发送至邮箱"@, None))
    } else {
        json_reply(
            envelope(
                200,
                "验证码校验成功，已发送验证码到您邮箱，请查收"@,
                Some(VerifyStatus::of(true)),
            ),
        )
    }
}

/// Ends a request for an email code whose mail is on its way.
pub fn code_on_sent(reset: bool) -> (out: (Flow, Action))
    ensures
        replies(out.0@, out.1@, code_sent(reset)),
{
    if reset {
        finish(Reply::json(ApiResult::ok().msg("验证码已发送至邮箱")))
    } else {
        finish(
            Reply::json(
                ApiResult::ok().msg("验证码校验成功，已发送验证码到您邮箱，请查收").data(
                    VerifyStatus::success(),
                ),
            ),
        )
    }
}

/// Starts a registration.
pub fn verify_email(register_user: RegisterUser) -> (out: (Flow, Action))
    ensures
        out.0@ == (FlowView::RegisterChallenge { form: register_user@ }),
        out.1@ == (ActionView::CacheGet { key: register_user@.uk_email }),
{
    user_service::register_user(register_user)
}

/// Starts a login: with a look at the cached answer to its captcha.
pub fn login(login_user: LoginUser) -> (out: (Flow, Action))
    ensures
        out.0@ == (FlowView::LoginChallenge { form: login_user@ }),
        out.1@ == (ActionView::CacheGet { key: login_user@.captcha_key }),
{
    let key = login_user.captcha_key.clone();
    (Flow::LoginChallenge { form: login_user }, Action::CacheGet { key })
}

/// Where a login goes once the cache has answered: on to removing the captcha
/// where its answer is the one in the form, and to an end otherwise.
pub open spec fn login_after_cached(form: LoginUserView, cached: Option<Seq<char>>) -> (
    FlowView,
    ActionView,
) {
    if code_matches(form.captcha_value, cached) {
        (FlowView::LoginConsume { form }, ActionView::CacheDelete { key: form.captcha_key })
    } else {
        (FlowView::Finished, ActionView::Fail(bad_captcha()))
    }
}

/// Compares the captcha answer of a login with the cached one.
pub fn login_on_cached(form: LoginUser, cached: Option<String>) -> (out: (Flow, Action))
    ensures
        (out.0@, out.1@) == login_after_cached(form@, text_of(cached)),
{
    match check_code(&form.captcha_value, &cached) {
        Ok(()) => {
            let key = form.captcha_key.clone();
            (Flow::LoginConsume { form }, Action::CacheDelete { key })
        },
        Err(e) => abort(e),
    }
}

/// Asks for the user of a login to be looked up.
pub fn login_on_deleted(form: LoginUser) -> (out: (Flow, Action))
    ensures
        out.0@ == (FlowView::LoginLookup { form: form@ }),
        out.1@ == (ActionView::FindUserByEmail { email: form@.email }),
{
    let email = form.email.clone();
    (Flow::LoginLookup { form }, Action::FindUserByEmail { email })
}

/// The reply to a login that was turned down. It is the same whether nobody
/// has the address or the password is wrong.
pub open spec fn login_refused() -> ReplyView {
    json_reply(envelope(500, "登录失败，用户名或密码错误"@, Some(VerifyStatus::of(false))))
}

/// The reply to a login that went through: it carries the session token.
pub open spec fn login_granted(token: Seq<char>) -> ReplyView {
    ReplyView {
        status: 200,
        token: Some(token),
        captcha_key: None,
        body: BodyView::Json(envelope(200, "登录成功"@, Some(VerifyStatus::of(true)))),
    }
}

/// How a login ends once the user has been looked up, at second `now`. It is
/// refused where nobody has the address and where the stored hash does not
/// accept the password; otherwise the reply carries a token for the user,
/// issued at `now` for the lifetime of the session and signed under `secret`.
pub open spec fn login_after_found(
    form: LoginUserView,
    found: Option<UserView>,
    secret: Seq<u8>,
    now: i64,
) -> ActionView {
    match found {
        None => ActionView::Reply(login_refused()),
        Some(user) => if !password_accepted(form.password, user.user_password) {
            ActionView::Reply(login_refused())
        } else {
            match issued(
                user.pk_id,
                user.uk_username,
                user.uk_email,
                spec_session_ttl(form.forever),
                secret,
                now,
            ) {
                Ok(token) => ActionView::Reply(login_granted(token)),
                Err(e) => ActionView::Fail(e),
            }
        },
    }
}

/// The reply to a login that was turned down.
pub fn refuse_login() -> (out: (Flow, Action))
    ensures
        replies(out.0@, out.1@, login_refused()),
{
    finish(
        Reply::json(
            ApiResult::error().msg("登录失败，用户名或密码错误").data(VerifyStatus::fail()),
        ),
    )
}

/// Ends a login whose user has been looked up, at second `now`. A token that
/// the reply carries proves the claims of the session until they expire.
pub fn login_on_found(form: LoginUser, found: Option<User>, secret: &[u8], now: i64) -> (out: (
    Flow,
    Action,
))
    ensures
        out.0@ == FlowView::Finished,
        out.1@ == login_after_found(
            form@,
            match found {
                Some(user) => Some(user@),
                None => None,
            },
            secret@,
            now,
        ),
        out.1@ matches ActionView::Reply(reply) ==> (reply.token matches Some(token) ==> (
        found matches Some(user) && claims_for(
            user.pk_id,
            user.uk_username@,
            user.uk_email@,
            spec_session_ttl(form.forever),
            now,
        ) matches Some(claims) && token_proves(token, secret@, claims))),
{
    let user = match found {
        Some(user) => user,
        None => {
            return refuse_login();
        },
    };
    if !verify_pwd(form.password.as_str(), user.user_password.as_str()) {
        return refuse_login();
    }
    match token_issue_at(
        user.pk_id,
        user.uk_username,
        user.uk_email,
        session_ttl(form.forever),
        secret,
        now,
    ) {
        Ok(token) => finish(
            Reply {
                status: 200,
                token: Some(token),
                captcha_key: None,
                body: Body::Json(ApiResult::ok().msg("登录成功").data(VerifyStatus::success())),
            },
        ),
        Err(e) => abort(e),
    }
}

/// Starts a password reset: with a look for the user.
pub fn find_user_pwd(form: FindUserPwd) -> (out: (Flow, Action))
    ensures
        out.0@ == (FlowView::ResetLookup { form: form@ }),
        out.1@ == (ActionView::FindUserByEmail { email: form@.email }),
{
    let email = form.email.clone();
    (Flow::ResetLookup { form }, Action::FindUserByEmail { email })
}

/// Where a password reset goes once the user has been looked up. Without an
/// email code in the form it becomes a request for one, which starts with the
/// captcha; with one, the code is to be compared with the cached one.
pub open spec fn reset_after_found(form: FindUserPwdView, found: Option<UserView>) -> (
    FlowView,
    ActionView,
) {
    match found {
        None => (FlowView::Finished, ActionView::Fail(no_such_user())),
        Some(user) => match form.email_verify_code {
            None => if is_email(form.email) {
                (
                    FlowView::CodeChallenge {
                        form: CaptchaUserView {
                            captcha_key: form.captcha_key,
                            captcha_value: form.captcha_value,
                            email: form.email,
                        },
                        reset: true,
                    },
                    ActionView::CacheGet { key: form.captcha_key },
                )
            } else {
                (FlowView::Finished, ActionView::Fail(bad_email()))
            },
            Some(code) => (
                FlowView::ResetChallenge {
                    code,
                    email: form.email,
                    password: form.password,
                    user_id: user.pk_id,
                },
                ActionView::CacheGet { key: form.email },
            ),
        },
    }
}

/// Decides how a password reset goes on once the user has been looked up.
pub fn reset_on_found(form: FindUserPwd, found: Option<User>) -> (out: (Flow, Action))
    ensures
        (out.0@, out.1@) == reset_after_found(
            form@,
            match found {
                Some(user) => Some(user@),
                None => None,
            },
        ),
{
    let user = match found {
        Some(user) => user,
        None => {
            return abort(AppError::BusinessError(400, "用户不存在"));
        },
    };
    let FindUserPwd { captcha_key, captcha_value, email, email_verify_code, password } = form;
    match email_verify_code {
        None => match check_email(email.as_str()) {
            Ok(()) => {
                let key = captcha_key.clone();
                (
                    Flow::CodeChallenge {
                        form: CaptchaUser { captcha_key, captcha_value, email },
                        reset: true,
                    },
                    Action::CacheGet { key },
                )
            },
            Err(e) => abort(e),
        },
        Some(code) => {
            let key = email.clone();
            (
                Flow::ResetChallenge { code, email, password, user_id: user.pk_id },
                Action::CacheGet { key },
            )
        },
    }
}

/// Where a password reset goes once the cache has answered: on to removing
/// the code where it is the one in the form, and to an end otherwise.
pub open spec fn reset_after_cached(
    code: Seq<char>,
    email: Seq<char>,
    password: Seq<char>,
    user_id: u64,
    cached: Option<Seq<char>>,
) -> (FlowView, ActionView) {
    if code_matches(code, cached) {
        (FlowView::ResetConsume { password, user_id }, ActionView::CacheDelete { key: email })
    } else {
        (FlowView::Finished, ActionView::Fail(bad_email_code()))
    }
}

/// Compares the email code of a password reset with the cached one.
pub fn reset_on_cached(
    code: String,
    email: String,
    password: String,
    user_id: u64,
    cached: Option<String>,
) -> (out: (Flow, Action))
    ensures
        (out.0@, out.1@) == reset_after_cached(code@, email@, password@, user_id, text_of(cached)),
{
    if crate::common::util::validate_captcha(&code, &cached) {
        (Flow::ResetConsume { password, user_id }, Action::CacheDelete { key: email })
    } else {
        abort(AppError::BusinessError(401, "邮箱验证码校验错误"))
    }
}

/// Where a change of password goes, given what hashing the new password
/// yielded: the hash is to be stored for the user, and a failure to hash ends
/// the exchange.
pub open spec fn pwd_after_hashed(user_id: u64, hashed: Result<Seq<char>, AppErrorView>) -> (
    FlowView,
    ActionView,
) {
    match hashed {
        Ok(hash) => (FlowView::PwdUpdate, ActionView::UpdateUserPwd { pwd: hash, id: user_id }),
        Err(error) => (FlowView::Finished, ActionView::Fail(error)),
    }
}

/// Where a change of password goes: the new password is hashed under a salt of
/// twenty-two characters, drawn afresh, and that hash, which the password
/// reproduces, is to be stored for the user. Only where there is no hash under
/// that salt does the exchange end, with `PwdHashError`.
pub open spec fn pwd_change(password: Seq<char>, user_id: u64, next: FlowView, action: ActionView)
    -> bool {
    exists|salt: Seq<char>|
        salt.len() == 22 && (next, action) == pwd_after_hashed(
            user_id,
            #[trigger] hashed(password, salt),
        ) && (hashed(password, salt) matches Ok(hash) ==> password_accepted(password, hash))
}

/// Hashes a new password and asks for it to be stored.
pub fn reset_on_deleted(password: String, user_id: u64) -> (out: (Flow, Action))
    ensures
        pwd_change(password@, user_id, out.0@, out.1@),
{
    let hash = encode_pwd(password.as_str());
    proof {
        let salt = choose|salt: Seq<char>|
            salt.len() == 22 && match #[trigger] hashed(password@, salt) {
                Ok(hash_view) => hash matches Ok(found) && found@ == hash_view,
                Err(error) => hash matches Err(e) && e@ == error,
            };
        assert(salt.len() == 22);
    }
    match hash {
        Ok(pwd) => (Flow::PwdUpdate, Action::UpdateUserPwd { pwd, id: user_id }),
        Err(e) => abort(e),
    }
}

/// Starts a change of password by the user whom the guard let in.
pub fn change_user_pwd(user_token: &UserToken, pwd: String) -> (out: (Flow, Action))
    ensures
        pwd_change(pwd@, user_token.pk_id, out.0@, out.1@),
{
    reset_on_deleted(pwd, user_token.pk_id)
}

/// How a change of password ends: well where the store changed exactly one
/// row.
pub open spec fn pwd_after_updated(rows: u64) -> ActionView {
    if rows == 1 {
        ActionView::Reply(json_reply(envelope(200, "修改密码成功"@, None)))
    } else {
        ActionView::Fail(pwd_not_changed())
    }
}

/// Ends a change of password.
pub fn pwd_on_updated(rows: u64) -> (out: (Flow, Action))
    ensures
        out.0@ == FlowView::Finished,
        out.1@ == pwd_after_updated(rows),
{
    if rows == 1 {
        finish(Reply::json(ApiResult::ok().msg("修改密码成功")))
    } else {
        abort(AppError::BusinessError(500, "修改密码失败"))
    }
}

} // verus!
