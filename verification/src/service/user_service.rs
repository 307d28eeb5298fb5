use crate::common::api::{ApiResult, ApiResultView};
use crate::common::err::{AppError, AppErrorView};
use crate::common::util::{
    code_matches, encode_pwd, hashed, password_accepted, validate_captcha,
};
use crate::flow::{
    abort, envelope, fails, finish, json_reply, replies, Action, ActionView, Flow, FlowView, Reply,
};
use crate::model::user::{RegisterUser, RegisterUserView, VerifyStatus};
use vstd::prelude::*;

verus! {

/// What the store said when asked to count: the number, or `None` where it
/// failed.
pub open spec fn count_of(count: Result<i64, AppError>) -> Option<i64> {
    match count {
        Ok(rows) => Some(rows),
        Err(_) => None,
    }
}

/// The answer to "is this email address free?", given the number of users who
/// have it.
pub open spec fn email_check(count: Option<i64>) -> ApiResultView<VerifyStatus> {
    match count {
        Some(rows) => if rows == 0 {
            envelope(200, "邮箱验证成功"@, Some(VerifyStatus::of(true)))
        } else {
            envelope(500, "邮箱已注册，请登录"@, Some(VerifyStatus::of(false)))
        },
        None => envelope(500, "邮箱验证，服务器出错"@, Some(VerifyStatus::of(false))),
    }
}

/// The answer to "is this name free?", given the number of users who have it.
pub open spec fn username_check(count: Option<i64>) -> ApiResultView<VerifyStatus> {
    match count {
        Some(rows) => if rows == 0 {
            envelope(200, "用户名认证成功"@, Some(VerifyStatus::of(true)))
        } else {
            envelope(500, "用户名已存在，请登录"@, Some(VerifyStatus::of(false)))
        },
        None => envelope(500, "用户名验证，服务器错误"@, Some(VerifyStatus::of(false))),
    }
}

/// Tells whether an email address is free, from the number of users who have
/// it. A store that failed is reported in the body, not as an error.
pub fn check_email_exists(count: Result<i64, AppError>) -> (result: ApiResult<VerifyStatus>)
    ensures
        result@ == email_check(count_of(count)),
{
    match count {
        Ok(rows) => {
            if rows == 0 {
                ApiResult::ok().data(VerifyStatus::success()).msg("邮箱验证成功")
            } else {
                ApiResult::error().data(VerifyStatus::fail()).msg("邮箱已注册，请登录")
            }
        },
        Err(_) => ApiResult::error().data(VerifyStatus::fail()).msg("邮箱验证，服务器出错"),
    }
}

/// Tells whether a name is free, from the number of users who have it. A
/// store that failed is reported in the body, not as an error.
pub fn check_username_exists(count: Result<i64, AppError>) -> (result: ApiResult<VerifyStatus>)
    ensures
        result@ == username_check(count_of(count)),
{
    match count {
        Ok(rows) => {
            if rows == 0 {
                ApiResult::ok().data(VerifyStatus::success()).msg("用户名认证成功")
            } else {
                ApiResult::error().data(VerifyStatus::fail()).msg("用户名已存在，请登录")
            }
        },
        Err(_) => ApiResult::error().data(VerifyStatus::fail()).msg("用户名验证，服务器错误"),
    }
}

/// Starts a registration: the email code of the form has to be compared with
/// the one cached under the address.
pub fn register_user(form: RegisterUser) -> (out: (Flow, Action))
    ensures
        out.0@ == (FlowView::RegisterChallenge { form: form@ }),
        out.1@ == (ActionView::CacheGet { key: form@.uk_email }),
{
    let key = form.uk_email.clone();
    (Flow::RegisterChallenge { form }, Action::CacheGet { key })
}

/// Where a registration goes once the cache has answered: on to removing the
/// code where it is the one in the form, and to an end otherwise.
pub open spec fn register_after_cached(form: RegisterUserView, cached: Option<Seq<char>>) -> (
    FlowView,
    ActionView,
) {
    if code_matches(form.email_verify_code, cached) {
        (FlowView::RegisterConsume { form }, ActionView::CacheDelete { key: form.uk_email })
    } else {
        (
            FlowView::Finished,
            ActionView::Reply(
                json_reply(envelope(200, "邮箱验证码校验失败"@, Some(VerifyStatus::of(false)))),
            ),
        )
    }
}

/// Compares the email code of a registration with the cached one.
pub fn register_on_cached(form: RegisterUser, cached: Option<String>) -> (out: (Flow, Action))
    ensures
        (out.0@, out.1@) == register_after_cached(form@, crate::common::util::text_of(cached)),
{
    if validate_captcha(&form.email_verify_code, &cached) {
        let key = form.uk_email.clone();
        (Flow::RegisterConsume { form }, Action::CacheDelete { key })
    } else {
        finish(Reply::json(ApiResult::ok().msg("邮箱验证码校验失败").data(VerifyStatus::fail())))
    }
}

/// Where a registration goes once its email code is used up, given what
/// hashing the password yielded: the user is to be stored under the hash, and
/// a failure to hash ends the registration.
pub open spec fn register_after_hashed(
    form: RegisterUserView,
    hashed: Result<Seq<char>, AppErrorView>,
) -> (FlowView, ActionView) {
    match hashed {
        Ok(hash) => (
            FlowView::RegisterInsert,
            ActionView::InsertUser {
                uk_username: form.uk_username,
                uk_email: form.uk_email,
                user_password: hash,
            },
        ),
        Err(error) => (FlowView::Finished, ActionView::Fail(error)),
    }
}

/// Where a registration goes once its email code is used up: the password is
/// hashed under a salt of twenty-two characters, drawn afresh, and the user is
/// to be stored under that hash, which the password reproduces. Only where
/// there is no hash under that salt does the registration end, with
/// `PwdHashError`.
pub open spec fn register_after_deleted(
    form: RegisterUserView,
    next: FlowView,
    action: ActionView,
) -> bool {
    exists|salt: Seq<char>|
        salt.len() == 22 && (next, action) == register_after_hashed(
            form,
            #[trigger] hashed(form.user_password, salt),
        ) && (hashed(form.user_password, salt) matches Ok(hash) ==> password_accepted(
            form.user_password,
            hash,
        ))
}

/// Hashes the password of a registration and asks for the user to be stored.
pub fn register_on_deleted(form: RegisterUser) -> (out: (Flow, Action))
    ensures
        register_after_deleted(form@, out.0@, out.1@),
{
    let ghost before = form@;
    let hash = encode_pwd(form.user_password.as_str());
    proof {
        let salt = choose|salt: Seq<char>|
            salt.len() == 22 && match #[trigger] hashed(before.user_password, salt) {
                Ok(hash_view) => hash matches Ok(found) && found@ == hash_view,
                Err(error) => hash matches Err(e) && e@ == error,
            };
        assert(salt.len() == 22);
    }
    match hash {
        Ok(hash) => (
            Flow::RegisterInsert,
            Action::InsertUser {
                uk_username: form.uk_username,
                uk_email: form.uk_email,
                user_password: hash,
            },
        ),
        Err(e) => abort(e),
    }
}

/// The reply to a registration that went through.
pub open spec fn registered() -> crate::flow::ReplyView {
    json_reply(envelope(200, "邮箱验证码校验正确，注册成功"@, Some(VerifyStatus::of(true))))
}

/// The error of a registration whose user is there already.
pub open spec fn already_registered() -> AppErrorView {
    AppErrorView::BusinessError(400, "邮箱已注册，请登录"@)
}

/// Ends a registration whose user was stored.
pub fn register_on_inserted() -> (out: (Flow, Action))
    ensures
        replies(out.0@, out.1@, registered()),
{
    finish(
        Reply::json(ApiResult::ok().msg("邮箱验证码校验正确，注册成功").data(VerifyStatus::success())),
    )
}

/// Ends a registration whose user the store turned down as a duplicate.
pub fn register_on_duplicate() -> (out: (Flow, Action))
    ensures
        fails(out.0@, out.1@, already_registered()),
{
    abort(AppError::BusinessError(400, "邮箱已注册，请登录"))
}

} // verus!
