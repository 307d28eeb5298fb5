//! Passwords, session tokens and one-time codes.

use crate::common::constant::{
    ARGON2_MEMORY_COST, ARGON2_PARALLELISM, ARGON2_TIME_COST, ARGON2_VERSION, CAPTCHA_LENGTH,
    CAPTCHA_TTL_SECONDS, EMAIL_CODE_TTL_SECONDS, EMAIL_SUBJECT, LONG_SESSION_TTL_SECONDS,
    PHC_PREFIX, SESSION_TTL_SECONDS,
};
use crate::common::email::{is_email, is_valid_email};
use crate::common::err::{AppError, AppErrorView};
use crate::common::primitives::{
    argon2_check, argon2_hash, argon2_phc, argon2_verify, jwt_compact, jwt_decode, jwt_encode,
    jwt_payload, random_salt, random_urn, unix_time,
};
use crate::model::user::{RawClaims, RawClaimsView, UserToken, UserTokenView};
use vstd::prelude::*;

verus! {

/// Whether `text` begins with `prefix`.
pub fn starts_with(text: &str, prefix: &str) -> (yes: bool)
    ensures
        yes == prefix@.is_prefix_of(text@),
{
    let n = prefix.unicode_len();
    if text.unicode_len() < n {
        return false;
    }
    let mut i: usize = 0;
    while i < n
        invariant
            n == prefix@.len(),
            n <= text@.len(),
            i <= n,
            forall|k: int| 0 <= k < i ==> text@[k] == prefix@[k],
        decreases n - i,
    {
        if text.get_char(i) != prefix.get_char(i) {
            assert(text@.subrange(0, n as int)[i as int] == text@[i as int]);
            return false;
        }
        i = i + 1;
    }
    assert(prefix@ =~= text@.subrange(0, n as int));
    true
}

/// Whether a stored hash begins as the hashes of this library do: with
/// Argon2id, its version, and the costs this library fixes.
pub open spec fn is_own_hash(stored: Seq<char>) -> bool {
    PHC_PREFIX@.is_prefix_of(stored)
}

/// The hash of `password` under `salt`, with the costs this library fixes, or
/// `None` where the primitive rejects the input or hands back a string that
/// does not name those costs.
pub open spec fn salted_hash(password: Seq<char>, salt: Seq<char>) -> Option<Seq<char>> {
    match argon2_phc(
        password,
        salt,
        ARGON2_TIME_COST,
        ARGON2_MEMORY_COST,
        ARGON2_PARALLELISM,
        ARGON2_VERSION,
    ) {
        Some(hash) => if is_own_hash(hash) {
            Some(hash)
        } else {
            None
        },
        None => None,
    }
}

/// Whether `stored` is a hash of this library's that `password` reproduces:
/// it names the costs this library fixes, it is well formed, and hashing
/// `password` under its salt gives its digest.
pub open spec fn password_accepted(password: Seq<char>, stored: Seq<char>) -> bool {
    is_own_hash(stored) && argon2_check(
        password,
        stored,
        ARGON2_TIME_COST,
        ARGON2_MEMORY_COST,
        ARGON2_PARALLELISM,
        ARGON2_VERSION,
    ) == Some(true)
}

/// Hashes `pwd` under the given salt. Fails with `PwdHashError` exactly where
/// there is no hash of `pwd` under the salt; a hash that comes back is that
/// hash, and is accepted for `pwd` by [`verify_pwd`].
pub fn encode_pwd_with_salt(pwd: &str, salt: &str) -> (out: Result<String, AppError>)
    ensures
        out is Ok <==> salted_hash(pwd@, salt@) is Some,
        out matches Ok(hash) ==> salted_hash(pwd@, salt@) == Some(hash@) && password_accepted(
            pwd@,
            hash@,
        ),
        out matches Err(e) ==> e@ == AppErrorView::PwdHashError,
{
    match argon2_hash(
        pwd,
        salt,
        ARGON2_TIME_COST,
        ARGON2_MEMORY_COST,
        ARGON2_PARALLELISM,
        ARGON2_VERSION,
    ) {
        Ok(hash) => {
            if starts_with(hash.as_str(), PHC_PREFIX) {
                Ok(hash)
            } else {
                Err(AppError::PwdHashError)
            }
        },
        Err(_) => Err(AppError::PwdHashError),
    }
}

/// What hashing `password` under `salt` yields: the hash, or `PwdHashError`
/// where there is none.
pub open spec fn hashed(password: Seq<char>, salt: Seq<char>) -> Result<Seq<char>, AppErrorView> {
    match salted_hash(password, salt) {
        Some(hash) => Ok(hash),
        None => Err(AppErrorView::PwdHashError),
    }
}

/// Hashes `pwd` under a salt drawn afresh. The salt has twenty-two characters,
/// and the result is what hashing `pwd` under it yields: the hash, or
/// `PwdHashError` where there is none. A hash that comes back is accepted for
/// `pwd` by [`verify_pwd`].
pub fn encode_pwd(pwd: &str) -> (out: Result<String, AppError>)
    ensures
        exists|salt: Seq<char>|
            salt.len() == 22 && match #[trigger] hashed(pwd@, salt) {
                Ok(hash) => out matches Ok(found) && found@ == hash,
                Err(error) => out matches Err(e) && e@ == error,
            },
        out matches Ok(hash) ==> password_accepted(pwd@, hash@),
        out matches Err(e) ==> e@ == AppErrorView::PwdHashError,
{
    let salt = random_salt();
    let out = encode_pwd_with_salt(pwd, salt.as_str());
    assert(salt@.len() == 22 && match hashed(pwd@, salt@) {
        Ok(hash) => out matches Ok(found) && found@ == hash,
        Err(error) => out matches Err(e) && e@ == error,
    });
    out
}

/// Whether `db_pwd` is a hash of this library's that `input_pwd` reproduces.
/// A stored hash that does not parse, or that names other costs than this
/// library writes, is not an error: the answer is `false`.
pub fn verify_pwd(input_pwd: &str, db_pwd: &str) -> (accepted: bool)
    ensures
        accepted == password_accepted(input_pwd@, db_pwd@),
{
    if !starts_with(db_pwd, PHC_PREFIX) {
        return false;
    }
    match argon2_verify(
        input_pwd,
        db_pwd,
        ARGON2_TIME_COST,
        ARGON2_MEMORY_COST,
        ARGON2_PARALLELISM,
        ARGON2_VERSION,
    ) {
        Ok(accepted) => accepted,
        Err(_) => false,
    }
}

/// The lifetime of a session in seconds: a year where the user asked to be
/// remembered, a week otherwise.
pub open spec fn spec_session_ttl(forever: bool) -> u64 {
    if forever {
        LONG_SESSION_TTL_SECONDS
    } else {
        SESSION_TTL_SECONDS
    }
}

#[verifier::when_used_as_spec(spec_session_ttl)]
pub fn session_ttl(forever: bool) -> (ttl: u64)
    ensures
        ttl == spec_session_ttl(forever),
{
    if forever {
        LONG_SESSION_TTL_SECONDS
    } else {
        SESSION_TTL_SECONDS
    }
}

/// The second at which a token issued at `now` for `ttl` seconds expires:
/// `now + ttl`, where `now` is no negative time and the sum fits the claim.
pub open spec fn spec_expiry_epoch(now: i64, ttl: u64) -> Option<usize> {
    if 0 <= now && now + ttl <= usize::MAX {
        Some((now + ttl) as usize)
    } else {
        None
    }
}

#[verifier::when_used_as_spec(spec_expiry_epoch)]
pub fn expiry_epoch(now: i64, ttl: u64) -> (exp: Option<usize>)
    ensures
        exp == spec_expiry_epoch(now, ttl),
{
    if now < 0 {
        return None;
    }
    let start: u64 = now as u64;
    match start.checked_add(ttl) {
        Some(end) => {
            if end <= usize::MAX as u64 {
                Some(end as usize)
            } else {
                None
            }
        },
        None => None,
    }
}

/// The claims that a checked payload yields at second `now`: all four fields
/// must be there, and the expiry must lie in the future.
pub open spec fn claims_at(raw: RawClaimsView, now: int) -> Option<UserTokenView> {
    if raw.pk_id is Some && raw.uk_username is Some && raw.email is Some && raw.exp is Some
        && raw.exp->0 <= usize::MAX && now < raw.exp->0 {
        Some(
            UserTokenView {
                pk_id: raw.pk_id->0,
                uk_username: raw.uk_username->0,
                email: raw.email->0,
                exp: raw.exp->0 as usize,
            },
        )
    } else {
        None
    }
}

/// The claims that `token` proves under `secret` at second `now`, or `None`
/// where it proves none: malformed, signed otherwise, incomplete or expired.
pub open spec fn token_claims(token: Seq<char>, secret: Seq<u8>, now: int) -> Option<
    UserTokenView,
> {
    match jwt_payload(token, secret) {
        Some(raw) => claims_at(raw, now),
        None => None,
    }
}

/// `token` proves `claims` under `secret` at every second before their
/// expiry, and proves nothing from then on.
pub open spec fn token_proves(token: Seq<char>, secret: Seq<u8>, claims: UserTokenView) -> bool {
    forall|now: int| #[trigger]
        token_claims(token, secret, now) == if now < claims.exp {
            Some(claims)
        } else {
            None
        }
}

/// The view of an optional token.
pub open spec fn view_of(token: Option<UserToken>) -> Option<UserTokenView> {
    match token {
        Some(t) => Some(t@),
        None => None,
    }
}

/// Turns a payload whose signature has been checked into claims, at second
/// `now`.
pub fn accept_claims(raw: RawClaims, now: i64) -> (out: Option<UserToken>)
    ensures
        view_of(out) == claims_at(raw@, now as int),
{
    let RawClaims { pk_id, uk_username, email, exp } = raw;
    match (pk_id, uk_username, email, exp) {
        (Some(pk_id), Some(uk_username), Some(email), Some(exp)) => {
            if exp > usize::MAX as u64 {
                None
            } else if now >= 0 && now as u64 >= exp {
                None
            } else {
                Some(UserToken { pk_id, uk_username, email, exp: exp as usize })
            }
        },
        _ => None,
    }
}

/// Decodes `token` as of second `now`: the claims it proves under `secret`,
/// or `None`. Nothing tells the caller why a token was turned down.
pub fn token_decode_at(token: &str, secret: &[u8], now: i64) -> (out: Option<UserToken>)
    ensures
        view_of(out) == token_claims(token@, secret@, now as int),
{
    match jwt_decode(token, secret) {
        Ok(raw) => accept_claims(raw, now),
        Err(_) => None,
    }
}

/// Decodes `token` as of the machine's clock: the result is what the token
/// proves under `secret` at the second the clock tells. Where the clock does
/// not decide, the result is owed. A token that proves nothing at the earliest
/// second, because it is malformed, signed otherwise or incomplete, yields
/// `None`; a token that still proves its claims at the latest second the clock
/// can tell yields those claims.
pub fn token_decode(token: &str, secret: &[u8]) -> (out: Option<UserToken>)
    ensures
        exists|now: int|
            i64::MIN <= now <= i64::MAX && view_of(out) == #[trigger] token_claims(
                token@,
                secret@,
                now,
            ),
        jwt_payload(token@, secret@) is None ==> out is None,
        token_claims(token@, secret@, i64::MIN as int) is None ==> out is None,
        token_claims(token@, secret@, i64::MAX as int) matches Some(claims) ==> view_of(out)
            == Some(claims),
{
    let now = unix_time();
    token_decode_at(token, secret, now)
}

/// Signs the claims under `secret`. Fails exactly where the signing primitive
/// does, with `JWTError`, which shows the client nothing. A token that comes
/// back proves these claims, under the same secret, at every second before
/// their expiry, and no claims from then on.
pub fn token_encode(user_token: &UserToken, secret: &[u8]) -> (out: Result<String, AppError>)
    ensures
        out is Ok <==> jwt_compact(user_token@, secret@) is Some,
        out matches Ok(token) ==> jwt_compact(user_token@, secret@) == Some(token@)
            && token_proves(token@, secret@, user_token@),
        out matches Err(e) ==> e@ == AppErrorView::JWTError,
{
    match jwt_encode(user_token, secret) {
        Ok(token) => Ok(token),
        Err(_) => Err(AppError::JWTError),
    }
}


/// The claims of a session opened at second `now` for `ttl` seconds, or `None`
/// where its expiry cannot be told.
pub open spec fn claims_for(
    pk_id: u64,
    uk_username: Seq<char>,
    email: Seq<char>,
    ttl: u64,
    now: i64,
) -> Option<UserTokenView> {
    match spec_expiry_epoch(now, ttl) {
        Some(exp) => Some(UserTokenView { pk_id, uk_username, email, exp }),
        None => None,
    }
}

/// What issuing a token at second `now` for `ttl` seconds yields: the token
/// that carries the claims with the expiry `now + ttl`, and `JWTError` where
/// that expiry cannot be told or signing fails.
pub open spec fn issued(
    pk_id: u64,
    uk_username: Seq<char>,
    email: Seq<char>,
    ttl: u64,
    secret: Seq<u8>,
    now: i64,
) -> Result<Seq<char>, AppErrorView> {
    match claims_for(pk_id, uk_username, email, ttl, now) {
        None => Err(AppErrorView::JWTError),
        Some(claims) => match jwt_compact(claims, secret) {
            Some(token) => Ok(token),
            None => Err(AppErrorView::JWTError),
        },
    }
}

/// Issues a token for an identity at second `now`, to expire `ttl` seconds
/// later. A token that comes back proves the identity until then.
pub fn token_issue_at(
    pk_id: u64,
    uk_username: String,
    email: String,
    ttl: u64,
    secret: &[u8],
    now: i64,
) -> (out: Result<String, AppError>)
    ensures
        match out {
            Ok(token) => issued(pk_id, uk_username@, email@, ttl, secret@, now) == Ok::<
                Seq<char>,
                AppErrorView,
            >(token@),
            Err(e) => issued(pk_id, uk_username@, email@, ttl, secret@, now) == Err::<
                Seq<char>,
                AppErrorView,
            >(e@),
        },
        out matches Ok(token) ==> token_proves(
            token@,
            secret@,
            claims_for(pk_id, uk_username@, email@, ttl, now)->0,
        ),
{
    match expiry_epoch(now, ttl) {
        Some(exp) => token_encode(&UserToken::new(pk_id, uk_username, email, exp), secret),
        None => Err(AppError::JWTError),
    }
}

/// Issues a token for an identity by the machine's clock, to expire `ttl`
/// seconds later: what [`token_issue_at`] yields at some second.
pub fn token_issue(pk_id: u64, uk_username: String, email: String, ttl: u64, secret: &[u8]) -> (out:
    Result<String, AppError>)
    ensures
        exists|now: i64|
            match out {
                Ok(token) => #[trigger] issued(pk_id, uk_username@, email@, ttl, secret@, now)
                    == Ok::<Seq<char>, AppErrorView>(token@) && token_proves(
                    token@,
                    secret@,
                    claims_for(pk_id, uk_username@, email@, ttl, now)->0,
                ),
                Err(e) => issued(pk_id, uk_username@, email@, ttl, secret@, now) == Err::<
                    Seq<char>,
                    AppErrorView,
                >(e@),
            },
{
    let now = unix_time();
    token_issue_at(pk_id, uk_username, email, ttl, secret, now)
}

/// A one-time code on its way into the cache: the key it is stored under, its
/// value, and the seconds it stays there.
#[derive(Debug, Clone, PartialEq, Eq)]
pub struct OneTimeCode {
    pub key: String,
    pub value: String,
    pub ttl_seconds: i32,
}

/// Mathematical model of a [`OneTimeCode`].
pub struct OneTimeCodeView {
    pub key: Seq<char>,
    pub value: Seq<char>,
    pub ttl_seconds: i32,
}

impl View for OneTimeCode {
    type V = OneTimeCodeView;

    open spec fn view(&self) -> OneTimeCodeView {
        OneTimeCodeView { key: self.key@, value: self.value@, ttl_seconds: self.ttl_seconds }
    }
}

/// A mail ready to be handed to the transport.
#[derive(Debug, Clone, PartialEq, Eq)]
pub struct Mail {
    pub to: String,
    pub subject: String,
    pub html: String,
}

/// Mathematical model of a [`Mail`].
pub struct MailView {
    pub to: Seq<char>,
    pub subject: Seq<char>,
    pub html: Seq<char>,
}

impl View for Mail {
    type V = MailView;

    open spec fn view(&self) -> MailView {
        MailView { to: self.to@, subject: self.subject@, html: self.html@ }
    }
}

/// The view of an optional string.
pub open spec fn text_of(text: Option<String>) -> Option<Seq<char>> {
    match text {
        Some(t) => Some(t@),
        None => None,
    }
}

/// Checks the syntax of an email address; anything else is a validation
/// error.
pub fn validate_email(email: &str) -> (out: Result<(), AppError>)
    ensures
        out is Ok <==> is_email(email@),
        out matches Err(e) ==> e@ == AppErrorView::BusinessError(400, "邮箱格式不正确"@),
{
    if is_valid_email(email) {
        Ok(())
    } else {
        Err(AppError::BusinessError(400, "邮箱格式不正确"))
    }
}

/// Whether the value found in the cache is the one supplied: it must be there
/// and equal character by character. An absent entry, whether expired, used up
/// or never issued, is no match.
pub open spec fn code_matches(supplied: Seq<char>, cached: Option<Seq<char>>) -> bool {
    cached == Some(supplied)
}

/// Compares a supplied code with what the cache returned for its key.
pub fn validate_captcha(value: &String, cached: &Option<String>) -> (ok: bool)
    ensures
        ok == code_matches(value@, text_of(*cached)),
{
    match cached {
        Some(found) => *found == *value,
        None => false,
    }
}

/// As [`validate_captcha`], with a mismatch reported as a failed challenge.
/// The error does not tell a wrong value from an absent one.
pub fn verify_captcha(value: &String, cached: &Option<String>) -> (out: Result<(), AppError>)
    ensures
        out is Ok <==> code_matches(value@, text_of(*cached)),
        out matches Err(e) ==> e@ == AppErrorView::BusinessError(401, "验证码错误或已过期"@),
{
    if validate_captcha(value, cached) {
        Ok(())
    } else {
        Err(AppError::BusinessError(401, "验证码错误或已过期"))
    }
}

/// An ASCII letter or digit.
pub open spec fn is_alphanumeric(c: char) -> bool {
    ||| 'a' <= c <= 'z'
    ||| 'A' <= c <= 'Z'
    ||| '0' <= c <= '9'
}

/// The answer to a captcha: four ASCII letters or digits.
pub open spec fn is_captcha_answer(s: Seq<char>) -> bool {
    &&& s.len() == CAPTCHA_LENGTH
    &&& forall|i: int| 0 <= i < s.len() ==> is_alphanumeric(#[trigger] s[i])
}

/// Whether `answer` is four ASCII letters or digits.
pub fn check_captcha_answer(answer: &str) -> (ok: bool)
    ensures
        ok == is_captcha_answer(answer@),
{
    if !answer.is_ascii() {
        return false;
    }
    if answer.unicode_len() != CAPTCHA_LENGTH {
        return false;
    }
    let mut i: usize = 0;
    while i < CAPTCHA_LENGTH
        invariant
            answer.is_ascii(),
            answer@.len() == CAPTCHA_LENGTH,
            i <= CAPTCHA_LENGTH,
            forall|k: int| 0 <= k < i ==> is_alphanumeric(#[trigger] answer@[k]),
        decreases CAPTCHA_LENGTH - i,
    {
        let b = answer.get_ascii(i);
        if !((b >= 97 && b <= 122) || (b >= 65 && b <= 90) || (b >= 48 && b <= 57)) {
            assert(!is_alphanumeric(answer@[i as int]));
            return false;
        }
        i = i + 1;
    }
    true
}

/// The eight bytes that every PNG image begins with.
pub open spec fn png_signature() -> Seq<u8> {
    seq![137u8, 80u8, 78u8, 71u8, 13u8, 10u8, 26u8, 10u8]
}

/// Whether the bytes begin as a PNG image does.
pub open spec fn is_png(image: Seq<u8>) -> bool {
    png_signature().is_prefix_of(image)
}

/// Whether the bytes begin as a PNG image does.
pub fn check_png(image: &Vec<u8>) -> (ok: bool)
    ensures
        ok == is_png(image@),
{
    if image.len() < 8 {
        return false;
    }
    let ok = image[0] == 137 && image[1] == 80 && image[2] == 78 && image[3] == 71 && image[4]
        == 13 && image[5] == 10 && image[6] == 26 && image[7] == 10;
    proof {
        let head = image@.subrange(0, 8);
        if ok {
            assert(png_signature() =~= head);
        } else {
            assert(head[0] == image@[0] && head[1] == image@[1] && head[2] == image@[2] && head[3]
                == image@[3] && head[4] == image@[4] && head[5] == image@[5] && head[6]
                == image@[6] && head[7] == image@[7]);
        }
    }
    ok
}

/// Turns a rendered captcha into a challenge: the id under which its answer
/// is to be cached, the answer, and the image. A rendering whose answer is not
/// four letters or digits, or whose image does not begin as a PNG image does,
/// is turned down.
pub fn gen_pic_captcha(answer: String, image: Vec<u8>) -> (out: Result<
    (String, String, Vec<u8>),
    AppError,
>)
    ensures
        out is Ok <==> is_captcha_answer(answer@) && is_png(image@),
        out matches Ok(challenge) ==> challenge.0@.len() == 45 && challenge.1@ == answer@
            && challenge.2@ == image@ && challenge.2@.len() >= 8,
        out matches Err(e) ==> e@ == AppErrorView::BusinessError(500, "验证码生成失败"@),
{
    if !check_captcha_answer(answer.as_str()) || !check_png(&image) {
        return Err(AppError::BusinessError(500, "验证码生成失败"));
    }
    let key = random_urn();
    Ok((key, answer, image))
}

/// The entry that caches a captcha answer under its id, for five minutes.
pub fn captcha_code(key: String, answer: String) -> (code: OneTimeCode)
    ensures
        code@ == (OneTimeCodeView { key: key@, value: answer@, ttl_seconds: CAPTCHA_TTL_SECONDS }),
{
    OneTimeCode { key, value: answer, ttl_seconds: CAPTCHA_TTL_SECONDS }
}

/// Draws a fresh verification code for `email`: twenty-two characters, to be
/// cached under the address for fifty minutes. An address that is no valid
/// email address gets none.
pub fn issue_email_code(email: &str) -> (out: Result<OneTimeCode, AppError>)
    ensures
        out is Ok <==> is_email(email@),
        out matches Ok(code) ==> code.key@ == email@ && code.value@.len() == 22
            && code.ttl_seconds == EMAIL_CODE_TTL_SECONDS,
        out matches Err(e) ==> e@ == AppErrorView::BusinessError(400, "邮箱格式不正确"@),
{
    match validate_email(email) {
        Ok(()) => Ok(
            OneTimeCode {
                key: String::from_str(email),
                value: random_salt(),
                ttl_seconds: EMAIL_CODE_TTL_SECONDS,
            },
        ),
        Err(e) => Err(e),
    }
}

/// The body of the mail that carries `code`.
pub open spec fn mail_body(code: Seq<char>) -> Seq<char> {
    "<h3>"@ + code + "</h3>"@
}

/// The mail that carries a verification code to its receiver.
pub fn verification_mail(email_receiver: &str, verify_code: &str) -> (mail: Mail)
    ensures
        mail@ == (MailView {
            to: email_receiver@,
            subject: EMAIL_SUBJECT@,
            html: mail_body(verify_code@),
        }),
{
    let mut html = String::from_str("<h3>");
    html.append(verify_code);
    html.append("</h3>");
    Mail { to: String::from_str(email_receiver), subject: String::from_str(EMAIL_SUBJECT), html }
}

} // verus!
