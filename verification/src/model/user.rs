use vstd::prelude::*;

verus! {

/// A row of the user table, as far as the credential logic reads it. The three
/// times are seconds since the Unix epoch.
#[derive(Debug, Clone, PartialEq, Eq)]
pub struct User {
    pub pk_id: u64,
    pub uk_username: String,
    pub uk_email: String,
    pub user_password: String,
    pub avatar: Option<String>,
    pub blog_url: Option<String>,
    pub introduce: Option<String>,
    pub github_uid: Option<String>,
    pub create_time: i64,
    pub update_time: i64,
    pub last_login_time: i64,
}

/// Mathematical model of a [`User`]: what the credential logic reads of it.
pub struct UserView {
    pub pk_id: u64,
    pub uk_username: Seq<char>,
    pub uk_email: Seq<char>,
    pub user_password: Seq<char>,
}

impl View for User {
    type V = UserView;

    open spec fn view(&self) -> UserView {
        UserView {
            pk_id: self.pk_id,
            uk_username: self.uk_username@,
            uk_email: self.uk_email@,
            user_password: self.user_password@,
        }
    }
}

/// The registration form.
#[derive(Debug, Clone, PartialEq, Eq)]
pub struct RegisterUser {
    pub uk_username: String,
    pub uk_email: String,
    pub email_verify_code: String,
    pub user_password: String,
}

/// Mathematical model of a [`RegisterUser`].
pub struct RegisterUserView {
    pub uk_username: Seq<char>,
    pub uk_email: Seq<char>,
    pub email_verify_code: Seq<char>,
    pub user_password: Seq<char>,
}

impl View for RegisterUser {
    type V = RegisterUserView;

    open spec fn view(&self) -> RegisterUserView {
        RegisterUserView {
            uk_username: self.uk_username@,
            uk_email: self.uk_email@,
            email_verify_code: self.email_verify_code@,
            user_password: self.user_password@,
        }
    }
}

/// A captcha answer handed in to have an email code sent.
#[derive(Debug, Clone, PartialEq, Eq)]
pub struct CaptchaUser {
    pub captcha_key: String,
    pub captcha_value: String,
    pub email: String,
}

/// Mathematical model of a [`CaptchaUser`].
pub struct CaptchaUserView {
    pub captcha_key: Seq<char>,
    pub captcha_value: Seq<char>,
    pub email: Seq<char>,
}

impl View for CaptchaUser {
    type V = CaptchaUserView;

    open spec fn view(&self) -> CaptchaUserView {
        CaptchaUserView {
            captcha_key: self.captcha_key@,
            captcha_value: self.captcha_value@,
            email: self.email@,
        }
    }
}

/// The login form.
#[derive(Debug, Clone, PartialEq, Eq)]
pub struct LoginUser {
    pub captcha_key: String,
    pub captcha_value: String,
    pub email: String,
    pub forever: bool,
    pub password: String,
}

/// Mathematical model of a [`LoginUser`].
pub struct LoginUserView {
    pub captcha_key: Seq<char>,
    pub captcha_value: Seq<char>,
    pub email: Seq<char>,
    pub forever: bool,
    pub password: Seq<char>,
}

impl View for LoginUser {
    type V = LoginUserView;

    open spec fn view(&self) -> LoginUserView {
        LoginUserView {
            captcha_key: self.captcha_key@,
            captcha_value: self.captcha_value@,
            email: self.email@,
            forever: self.forever,
            password: self.password@,
        }
    }
}

/// The password reset form. Without an email code it asks for one to be sent;
/// with one it asks for the new password to be stored.
#[derive(Debug, Clone, PartialEq, Eq)]
pub struct FindUserPwd {
    pub captcha_key: String,
    pub captcha_value: String,
    pub email: String,
    pub email_verify_code: Option<String>,
    pub password: String,
}

/// Mathematical model of a [`FindUserPwd`].
pub struct FindUserPwdView {
    pub captcha_key: Seq<char>,
    pub captcha_value: Seq<char>,
    pub email: Seq<char>,
    pub email_verify_code: Option<Seq<char>>,
    pub password: Seq<char>,
}

impl View for FindUserPwd {
    type V = FindUserPwdView;

    open spec fn view(&self) -> FindUserPwdView {
        FindUserPwdView {
            captcha_key: self.captcha_key@,
            captcha_value: self.captcha_value@,
            email: self.email@,
            email_verify_code: match self.email_verify_code {
                Some(code) => Some(code@),
                None => None,
            },
            password: self.password@,
        }
    }
}

/// The claims of a session token: who the bearer is, and the second of the
/// Unix epoch at which the token stops being valid.
#[derive(Debug, Clone, PartialEq, Eq)]
pub struct UserToken {
    pub pk_id: u64,
    pub uk_username: String,
    pub email: String,
    pub exp: usize,
}

/// Mathematical model of a [`UserToken`].
pub struct UserTokenView {
    pub pk_id: u64,
    pub uk_username: Seq<char>,
    pub email: Seq<char>,
    pub exp: usize,
}

impl View for UserToken {
    type V = UserTokenView;

    open spec fn view(&self) -> UserTokenView {
        UserTokenView {
            pk_id: self.pk_id,
            uk_username: self.uk_username@,
            email: self.email@,
            exp: self.exp,
        }
    }
}

impl UserToken {
    pub fn new(pk_id: u64, uk_username: String, email: String, exp: usize) -> (token: Self)
        ensures
            token@ == (UserTokenView {
                pk_id,
                uk_username: uk_username@,
                email: email@,
                exp,
            }),
    {
        UserToken { pk_id, uk_username, email, exp }
    }
}

impl Default for UserToken {
    fn default() -> (token: Self)
        ensures
            token@ == (UserTokenView {
                pk_id: 0,
                uk_username: Seq::<char>::empty(),
                email: Seq::<char>::empty(),
                exp: 0,
            }),
    {
        UserToken { pk_id: 0, uk_username: String::new(), email: String::new(), exp: 0 }
    }
}

/// Outcome flag sent back to the client after a check.
#[derive(Debug, Clone, Copy, PartialEq, Eq, Structural)]
pub struct VerifyStatus {
    is_success: bool,
}

impl VerifyStatus {
    /// Whether the check this status reports on passed.
    pub closed spec fn passed(&self) -> bool {
        self.is_success
    }

    /// The status that reports the given outcome.
    pub closed spec fn of(passed: bool) -> Self {
        VerifyStatus { is_success: passed }
    }

    pub fn success() -> (status: Self)
        ensures
            status == Self::of(true),
            status.passed(),
    {
        Self { is_success: true }
    }

    pub fn fail() -> (status: Self)
        ensures
            status == Self::of(false),
            !status.passed(),
    {
        Self { is_success: false }
    }

    pub fn is_success(&self) -> (flag: bool)
        ensures
            flag == self.passed(),
    {
        self.is_success
    }

    /// A status is determined by the outcome it reports.
    pub proof fn lemma_determined_by_outcome(a: Self)
        ensures
            a == Self::of(a.passed()),
            Self::of(true).passed(),
            !Self::of(false).passed(),
    {
    }
}


/// The payload of a session token whose signature has been checked, field by
/// field as it was found. A field is `None` where the payload lacks it or holds
/// a value of another type.
#[derive(Debug, Clone, PartialEq, Eq)]
pub struct RawClaims {
    pub pk_id: Option<u64>,
    pub uk_username: Option<String>,
    pub email: Option<String>,
    pub exp: Option<u64>,
}

/// Mathematical model of a [`RawClaims`].
pub struct RawClaimsView {
    pub pk_id: Option<u64>,
    pub uk_username: Option<Seq<char>>,
    pub email: Option<Seq<char>>,
    pub exp: Option<u64>,
}

impl View for RawClaims {
    type V = RawClaimsView;

    open spec fn view(&self) -> RawClaimsView {
        RawClaimsView {
            pk_id: self.pk_id,
            uk_username: match self.uk_username {
                Some(name) => Some(name@),
                None => None,
            },
            email: match self.email {
                Some(email) => Some(email@),
                None => None,
            },
            exp: self.exp,
        }
    }
}

impl UserTokenView {
    /// The payload that carries exactly these claims.
    pub open spec fn payload(self) -> RawClaimsView {
        RawClaimsView {
            pk_id: Some(self.pk_id),
            uk_username: Some(self.uk_username),
            email: Some(self.email),
            exp: Some(self.exp as u64),
        }
    }
}

} // verus!
