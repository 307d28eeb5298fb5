use vstd::prelude::*;

verus! {

/// Request header that carries the session token.
pub const TOKEN_HEADER_NAME: &'static str = "token";

/// Response header that carries the id of a freshly issued captcha.
pub const CAPTCHA_HEADER_NAME: &'static str = "captcha-key";

/// Header naming the media type of a response body.
pub const CONTENT_TYPE_HEADER_NAME: &'static str = "content-type";

/// Media type of a rendered captcha.
pub const CONTENT_TYPE_PNG: &'static str = "image/png";

/// Media type of every structured response body.
pub const CONTENT_TYPE_JSON: &'static str = "application/json";

/// Name of the claim that holds the id of the user.
pub const CLAIM_PK_ID: &'static str = "pk_id";

/// Name of the claim that holds the name of the user.
pub const CLAIM_USERNAME: &'static str = "uk_username";

/// Name of the claim that holds the email address of the user.
pub const CLAIM_EMAIL: &'static str = "email";

/// Name of the claim that holds the second at which the token expires.
pub const CLAIM_EXP: &'static str = "exp";

/// Number of characters in a captcha answer.
pub const CAPTCHA_LENGTH: usize = 4;

/// Seconds a captcha answer stays in the cache: five minutes.
pub const CAPTCHA_TTL_SECONDS: i32 = 60 * 5;

/// Seconds an email verification code stays in the cache: fifty minutes.
pub const EMAIL_CODE_TTL_SECONDS: i32 = 60 * 50;

/// Lifetime in seconds of an ordinary session: seven days.
pub const SESSION_TTL_SECONDS: u64 = 60 * 60 * 24 * 7;

/// Lifetime in seconds of a "remember me" session: one year.
pub const LONG_SESSION_TTL_SECONDS: u64 = 60 * 60 * 24 * 365;


/// Number of passes Argon2 makes over its memory.
pub const ARGON2_TIME_COST: u32 = 3;

/// Memory Argon2 fills, in kibibytes.
pub const ARGON2_MEMORY_COST: u32 = 1024;

/// Number of lanes Argon2 computes.
pub const ARGON2_PARALLELISM: u32 = 1;

/// Version of the Argon2 algorithm.
pub const ARGON2_VERSION: u32 = 0x13;

/// How every hash that this library writes begins: the algorithm, its version
/// and the three costs above, as the PHC string format spells them. A stored
/// hash that begins otherwise is none of this library's.
pub const PHC_PREFIX: &'static str = "$argon2id$v=19$m=1024,t=3,p=1$";

/// Subject line of the mail that carries a verification code.
pub const EMAIL_SUBJECT: &'static str = "whatsoo论坛邮箱验证码";

} // verus!
