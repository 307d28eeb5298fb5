use whatsoo::common::api::ApiResult;
use whatsoo::common::cache::CodeCache;
use whatsoo::common::err::{AppError, ErrorClass};
use whatsoo::common::util::{encode_pwd, token_decode_at, verify_pwd, Mail};
use whatsoo::flow::{abort, finish, reject_event, Action, Body, Event, Flow, Reply};
use whatsoo::model::topic::TopicFront;
use whatsoo::model::user::{
    CaptchaUser, FindUserPwd, LoginUser, RegisterUser, User, UserToken, VerifyStatus,
};
use whatsoo::repository::topic_repository::{insert_one_topic, topic_inserted, topic_top_updated};
use whatsoo::route::topic_route::create_topic;
use whatsoo::route::user_route::{
    change_user_pwd, find_user_pwd, get_captcha, login, validate_email, validate_username,
    verify_captcha, verify_email,
};
use whatsoo::service::user_service::{check_email_exists, check_username_exists, register_user};

const SECRET: &[u8] = b"an injected secret";
const NOW: i64 = 1_700_000_000;

/// Everything outside the library, in memory.
struct World {
    cache: CodeCache,
    users: Vec<User>,
    mails: Vec<Mail>,
    topics: Vec<(u64, String)>,
    trace: Vec<String>,
    now: u64,
    cache_down: bool,
    store_down: bool,
}

impl World {
    fn new() -> World {
        World {
            cache: CodeCache::new(),
            users: Vec::new(),
            mails: Vec::new(),
            topics: Vec::new(),
            trace: Vec::new(),
            now: NOW as u64,
            cache_down: false,
            store_down: false,
        }
    }

    fn perform(&mut self, action: &Action) -> Event {
        match action {
            Action::CacheGet { .. } | Action::CachePut { .. } | Action::CacheDelete { .. } => {
                if self.cache_down {
                    return Event::Failed(AppError::RedisGetError);
                }
                self.cache.perform(action, self.now).unwrap()
            }
            Action::RenderCaptcha => {
                Event::Rendered {
                    answer: "aB3d".to_string(),
                    image: vec![0x89, 0x50, 0x4e, 0x47, 0x0d, 0x0a, 0x1a, 0x0a, 0, 0, 0, 13],
                }
            }
            Action::SendEmail(mail) => {
                self.mails.push(mail.clone());
                Event::Sent
            }
            _ if self.store_down => Event::Failed(AppError::DatabaseError),
            Action::CountByEmail { email } => {
                Event::Counted(self.users.iter().filter(|u| u.uk_email == *email).count() as i64)
            }
            Action::CountByUsername { username } => Event::Counted(
                self.users.iter().filter(|u| u.uk_username == *username).count() as i64,
            ),
            Action::FindUserByEmail { email } => {
                Event::Found(self.users.iter().find(|u| u.uk_email == *email).cloned())
            }
            Action::InsertUser { uk_username, uk_email, user_password } => {
                if self.users.iter().any(|u| u.uk_email == *uk_email || u.uk_username == *uk_username) {
                    return Event::Duplicate;
                }
                let id = self.users.len() as u64 + 1;
                self.users.push(user(id, uk_username, uk_email, user_password));
                Event::Inserted(id)
            }
            Action::UpdateUserPwd { pwd, id } => {
                let mut rows = 0;
                for u in self.users.iter_mut().filter(|u| u.pk_id == *id) {
                    u.user_password = pwd.clone();
                    rows += 1;
                }
                Event::Updated(rows)
            }
            Action::InsertTopic { user_id, title, .. } => {
                self.topics.push((*user_id, title.clone()));
                Event::Inserted(self.topics.len() as u64)
            }
            Action::Reply(_) | Action::Fail(_) => unreachable!(),
        }
    }

    /// Runs an exchange to its end and hands back the action that ended it.
    fn run(&mut self, start: (Flow, Action)) -> Action {
        let (mut flow, mut action) = start;
        loop {
            self.trace.push(name(&action).to_string());
            if matches!(action, Action::Reply(_) | Action::Fail(_)) {
                assert!(flow.is_finished());
                return action;
            }
            assert!(!flow.is_finished());
            let event = self.perform(&action);
            let next = flow.step_at(event, SECRET, self.now as i64);
            flow = next.0;
            action = next.1;
        }
    }

    fn cached(&self, key: &str) -> Option<String> {
        self.cache.get(key, self.now)
    }
}

fn name(action: &Action) -> &'static str {
    match action {
        Action::CacheGet { .. } => "get",
        Action::CachePut { .. } => "put",
        Action::CacheDelete { .. } => "delete",
        Action::RenderCaptcha => "render",
        Action::SendEmail(_) => "send",
        Action::CountByEmail { .. } => "count-email",
        Action::CountByUsername { .. } => "count-username",
        Action::FindUserByEmail { .. } => "find",
        Action::InsertUser { .. } => "insert",
        Action::UpdateUserPwd { .. } => "update",
        Action::InsertTopic { .. } => "insert-topic",
        Action::Reply(_) => "reply",
        Action::Fail(_) => "fail",
    }
}

fn user(id: u64, name: &str, email: &str, hash: &str) -> User {
    User {
        pk_id: id,
        uk_username: name.to_string(),
        uk_email: email.to_string(),
        user_password: hash.to_string(),
        avatar: None,
        blog_url: None,
        introduce: None,
        github_uid: None,
        create_time: 0,
        update_time: 0,
        last_login_time: 0,
    }
}

fn json(code: u16, msg: &str, data: Option<VerifyStatus>) -> Action {
    let mut result = ApiResult::new().code(code).msg(msg);
    if let Some(data) = data {
        result = result.data(data);
    }
    Action::Reply(Reply { status: 200, token: None, captcha_key: None, body: Body::Json(result) })
}

fn bad_captcha() -> Action {
    Action::Fail(AppError::BusinessError(401, "验证码错误或已过期"))
}

/// Issues a captcha and hands back its id; its answer is "aB3d".
fn issue_captcha(world: &mut World) -> String {
    match world.run(get_captcha()) {
        Action::Reply(Reply { captcha_key: Some(key), .. }) => key,
        other => panic!("{:?}", other),
    }
}

fn captcha_form(key: &str, value: &str, email: &str) -> CaptchaUser {
    CaptchaUser {
        captcha_key: key.to_string(),
        captcha_value: value.to_string(),
        email: email.to_string(),
    }
}

fn login_form(key: &str, value: &str, email: &str, password: &str, forever: bool) -> LoginUser {
    LoginUser {
        captcha_key: key.to_string(),
        captcha_value: value.to_string(),
        email: email.to_string(),
        forever,
        password: password.to_string(),
    }
}

fn register_form(name: &str, email: &str, code: &str, password: &str) -> RegisterUser {
    RegisterUser {
        uk_username: name.to_string(),
        uk_email: email.to_string(),
        email_verify_code: code.to_string(),
        user_password: password.to_string(),
    }
}

fn reset_form(key: &str, value: &str, email: &str, code: Option<&str>, password: &str) -> FindUserPwd {
    FindUserPwd {
        captcha_key: key.to_string(),
        captcha_value: value.to_string(),
        email: email.to_string(),
        email_verify_code: code.map(str::to_string),
        password: password.to_string(),
    }
}

/// A world in which ann is registered with the password "hunter42".
fn world_with_ann() -> World {
    let mut world = World::new();
    let hash = encode_pwd("hunter42").unwrap();
    world.users.push(user(1, "ann", "ann@example.com", &hash));
    world
}

#[test]
fn captcha_issue_returns_an_id_and_an_image() {
    let mut world = World::new();
    let reply = world.run(get_captcha());
    let (key, image) = match reply {
        Action::Reply(Reply { status: 200, token: None, captcha_key: Some(key), body: Body::Png(image) }) => {
            (key, image)
        }
        other => panic!("{:?}", other),
    };
    assert!(!image.is_empty());
    assert_eq!(key.chars().count(), 45);
    assert_eq!(world.cached(&key), Some("aB3d".to_string()));
    assert_eq!(world.trace, ["render", "put", "reply"]);
    world.now += 299;
    assert_eq!(world.cached(&key), Some("aB3d".to_string()));
    world.now += 1;
    assert_eq!(world.cached(&key), None);
}

#[test]
fn captcha_verifies_exactly_once() {
    let mut world = World::new();
    let key = issue_captcha(&mut world);
    let first = world.run(verify_captcha(captcha_form(&key, "aB3d", "ann@example.com")));
    assert_eq!(
        first,
        json(200, "验证码校验成功，已发送验证码到您邮箱，请查收", Some(VerifyStatus::success()))
    );
    assert_eq!(world.cached(&key), None);
    let second = world.run(verify_captcha(captcha_form(&key, "aB3d", "ann@example.com")));
    assert_eq!(second, bad_captcha());
    assert_eq!(world.mails.len(), 1);
}

#[test]
fn captcha_with_a_wrong_answer_stays_and_issues_nothing() {
    let mut world = World::new();
    let key = issue_captcha(&mut world);
    world.trace.clear();
    let wrong = world.run(verify_captcha(captcha_form(&key, "ab3d", "ann@example.com")));
    assert_eq!(wrong, bad_captcha());
    assert_eq!(world.trace, ["get", "fail"]);
    assert!(world.mails.is_empty());
    assert_eq!(world.cached("ann@example.com"), None);
    assert_eq!(world.cached(&key), Some("aB3d".to_string()));
    let unknown = world.run(verify_captcha(captcha_form("urn:uuid:none", "aB3d", "ann@example.com")));
    assert_eq!(unknown, wrong);
}

#[test]
fn an_expired_captcha_reads_as_a_wrong_one() {
    let mut world = World::new();
    let key = issue_captcha(&mut world);
    world.now += 300;
    let late = world.run(verify_captcha(captcha_form(&key, "aB3d", "ann@example.com")));
    assert_eq!(late, bad_captcha());
    assert!(world.mails.is_empty());
}

#[test]
fn a_malformed_address_stops_the_request_for_a_code() {
    let mut world = World::new();
    let key = issue_captcha(&mut world);
    world.trace.clear();
    let out = world.run(verify_captcha(captcha_form(&key, "aB3d", "ann.example.com")));
    assert_eq!(out, Action::Fail(AppError::BusinessError(400, "邮箱格式不正确")));
    assert_eq!(world.trace, ["fail"]);
    assert_eq!(world.cached(&key), Some("aB3d".to_string()));
}

#[test]
fn the_email_code_is_cached_before_the_mail_is_sent() {
    let mut world = World::new();
    let key = issue_captcha(&mut world);
    world.trace.clear();
    world.run(verify_captcha(captcha_form(&key, "aB3d", "ann@example.com")));
    assert_eq!(world.trace, ["get", "delete", "put", "send", "reply"]);
    let code = world.cached("ann@example.com").unwrap();
    assert_eq!(code.chars().count(), 22);
    assert_eq!(world.mails.len(), 1);
    assert_eq!(world.mails[0].to, "ann@example.com");
    assert_eq!(world.mails[0].subject, "whatsoo论坛邮箱验证码");
    assert_eq!(world.mails[0].html, format!("<h3>{}</h3>", code));
    world.now += 2999;
    assert_eq!(world.cached("ann@example.com"), Some(code));
    world.now += 1;
    assert_eq!(world.cached("ann@example.com"), None);
}

#[test]
fn registration_end_to_end() {
    let mut world = World::new();
    let key = issue_captcha(&mut world);
    world.run(verify_captcha(captcha_form(&key, "aB3d", "ann@example.com")));
    let code = world.cached("ann@example.com").unwrap();
    assert_eq!(world.mails.len(), 1);
    world.trace.clear();
    let done = world.run(verify_email(register_form("ann", "ann@example.com", &code, "hunter42")));
    assert_eq!(done, json(200, "邮箱验证码校验正确，注册成功", Some(VerifyStatus::success())));
    assert_eq!(world.trace, ["get", "delete", "insert", "reply"]);
    assert_eq!(world.users.len(), 1);
    assert_eq!(world.users[0].uk_username, "ann");
    assert_eq!(world.users[0].uk_email, "ann@example.com");
    assert_ne!(world.users[0].user_password, "hunter42");
    assert!(verify_pwd("hunter42", &world.users[0].user_password));
    assert_eq!(world.cached("ann@example.com"), None);
    let replay = world.run(register_user(register_form("ann2", "ann@example.com", &code, "x")));
    assert_eq!(replay, json(200, "邮箱验证码校验失败", Some(VerifyStatus::fail())));
    assert_eq!(world.users.len(), 1);
}

#[test]
fn a_duplicate_email_is_a_validation_error() {
    let mut world = world_with_ann();
    let key = issue_captcha(&mut world);
    world.run(verify_captcha(captcha_form(&key, "aB3d", "ann@example.com")));
    let code = world.cached("ann@example.com").unwrap();
    let out = world.run(verify_email(register_form("other", "ann@example.com", &code, "pw")));
    let error = match out {
        Action::Fail(error) => error,
        other => panic!("{:?}", other),
    };
    assert_eq!(error, AppError::BusinessError(400, "邮箱已注册，请登录"));
    assert_eq!(error.class(), ErrorClass::ValidationError);
    assert_eq!(error.status(), 400);
    assert_eq!(world.users.len(), 1);
}

#[test]
fn registration_with_a_wrong_or_missing_code_stores_nothing() {
    let mut world = World::new();
    let out = world.run(verify_email(register_form("ann", "ann@example.com", "guess", "pw")));
    assert_eq!(out, json(200, "邮箱验证码校验失败", Some(VerifyStatus::fail())));
    world.cache.put("ann@example.com", "right", 3000, world.now);
    world.trace.clear();
    let out = world.run(verify_email(register_form("ann", "ann@example.com", "wrong", "pw")));
    assert_eq!(out, json(200, "邮箱验证码校验失败", Some(VerifyStatus::fail())));
    assert_eq!(world.trace, ["get", "reply"]);
    assert!(world.users.is_empty());
    assert_eq!(world.cached("ann@example.com"), Some("right".to_string()));
}

#[test]
fn login_carries_a_session_token() {
    let mut world = world_with_ann();
    let key = issue_captcha(&mut world);
    world.trace.clear();
    let out = world.run(login(login_form(&key, "aB3d", "ann@example.com", "hunter42", false)));
    assert_eq!(world.trace, ["get", "delete", "find", "reply"]);
    let reply = match out {
        Action::Reply(reply) => reply,
        other => panic!("{:?}", other),
    };
    assert_eq!(reply.status, 200);
    assert_eq!(reply.captcha_key, None);
    assert_eq!(
        reply.body,
        Body::Json(ApiResult::ok().msg("登录成功").data(VerifyStatus::success()))
    );
    let token = reply.token.unwrap();
    let claims = UserToken::new(
        1,
        "ann".to_string(),
        "ann@example.com".to_string(),
        (NOW + 604_800) as usize,
    );
    assert_eq!(token_decode_at(&token, SECRET, NOW), Some(claims.clone()));
    assert_eq!(token_decode_at(&token, SECRET, NOW + 604_799), Some(claims));
    assert_eq!(token_decode_at(&token, SECRET, NOW + 604_800), None);
}

#[test]
fn login_to_be_remembered_lasts_a_year() {
    let mut world = world_with_ann();
    let key = issue_captcha(&mut world);
    let out = world.run(login(login_form(&key, "aB3d", "ann@example.com", "hunter42", true)));
    let token = match out {
        Action::Reply(Reply { token: Some(token), .. }) => token,
        other => panic!("{:?}", other),
    };
    let claims = token_decode_at(&token, SECRET, NOW).unwrap();
    assert_eq!(claims.exp, (NOW + 31_536_000) as usize);
}

#[test]
fn wrong_password_and_unknown_email_are_answered_alike() {
    let mut world = world_with_ann();
    let key = issue_captcha(&mut world);
    let wrong = world.run(login(login_form(&key, "aB3d", "ann@example.com", "hunter43", false)));
    let key = issue_captcha(&mut world);
    let unknown = world.run(login(login_form(&key, "aB3d", "bob@example.com", "hunter42", false)));
    assert_eq!(wrong, json(500, "登录失败，用户名或密码错误", Some(VerifyStatus::fail())));
    assert_eq!(wrong, unknown);
}

#[test]
fn login_without_a_valid_captcha_never_reaches_the_store() {
    let mut world = world_with_ann();
    let key = issue_captcha(&mut world);
    world.trace.clear();
    let out = world.run(login(login_form(&key, "nope", "ann@example.com", "hunter42", false)));
    assert_eq!(out, bad_captcha());
    assert_eq!(world.trace, ["get", "fail"]);
    let out = world.run(login(login_form(&key, "aB3d", "ann@example.com", "hunter42", false)));
    assert!(matches!(out, Action::Reply(Reply { token: Some(_), .. })));
    let again = world.run(login(login_form(&key, "aB3d", "ann@example.com", "hunter42", false)));
    assert_eq!(again, bad_captcha());
}

#[test]
fn login_fails_where_the_expiry_cannot_be_computed() {
    let hash = encode_pwd("hunter42").unwrap();
    let form = login_form("k", "v", "ann@example.com", "hunter42", false);
    let found = Event::Found(Some(user(1, "ann", "ann@example.com", &hash)));
    let out = Flow::LoginLookup { form }.step_at(found, SECRET, -1);
    assert_eq!(out, (Flow::Finished, Action::Fail(AppError::JWTError)));
}

#[test]
fn login_by_the_clock() {
    let hash = encode_pwd("hunter42").unwrap();
    let form = login_form("k", "v", "ann@example.com", "hunter42", false);
    let found = Event::Found(Some(user(1, "ann", "ann@example.com", &hash)));
    let (flow, action) = Flow::LoginLookup { form }.step(found, SECRET);
    assert!(flow.is_finished());
    let token = match action {
        Action::Reply(Reply { token: Some(token), .. }) => token,
        other => panic!("{:?}", other),
    };
    let claims = whatsoo::common::util::token_decode(&token, SECRET).unwrap();
    assert_eq!(claims.pk_id, 1);
    assert_eq!(claims.uk_username, "ann");
}

#[test]
fn password_reset_end_to_end() {
    let mut world = world_with_ann();
    let key = issue_captcha(&mut world);
    world.trace.clear();
    let asked = world.run(find_user_pwd(reset_form(&key, "aB3d", "ann@example.com", None, "")));
    assert_eq!(asked, json(200, "验证码已发送至邮箱", None));
    assert_eq!(world.trace, ["find", "get", "delete", "put", "send", "reply"]);
    let code = world.cached("ann@example.com").unwrap();
    assert_eq!(world.mails[0].html, format!("<h3>{}</h3>", code));
    world.trace.clear();
    let done = world.run(find_user_pwd(reset_form("", "", "ann@example.com", Some(&code), "new pass")));
    assert_eq!(done, json(200, "修改密码成功", None));
    assert_eq!(world.trace, ["find", "get", "delete", "update", "reply"]);
    assert!(verify_pwd("new pass", &world.users[0].user_password));
    assert!(!verify_pwd("hunter42", &world.users[0].user_password));
    let replay = world.run(find_user_pwd(reset_form("", "", "ann@example.com", Some(&code), "again")));
    assert_eq!(replay, Action::Fail(AppError::BusinessError(401, "邮箱验证码校验错误")));
    assert!(verify_pwd("new pass", &world.users[0].user_password));
}

#[test]
fn password_reset_is_turned_down() {
    let mut world = world_with_ann();
    let key = issue_captcha(&mut world);
    let unknown = world.run(find_user_pwd(reset_form(&key, "aB3d", "bob@example.com", None, "")));
    assert_eq!(unknown, Action::Fail(AppError::BusinessError(400, "用户不存在")));
    let wrong_captcha = world.run(find_user_pwd(reset_form(&key, "zzzz", "ann@example.com", None, "")));
    assert_eq!(wrong_captcha, bad_captcha());
    assert!(world.mails.is_empty());
    world.trace.clear();
    let wrong_code =
        world.run(find_user_pwd(reset_form("", "", "ann@example.com", Some("guess"), "new pass")));
    assert_eq!(wrong_code, Action::Fail(AppError::BusinessError(401, "邮箱验证码校验错误")));
    assert_eq!(world.trace, ["find", "get", "fail"]);
    assert!(verify_pwd("hunter42", &world.users[0].user_password));
}

#[test]
fn a_signed_in_user_changes_the_password() {
    let mut world = world_with_ann();
    let ann = UserToken::new(1, "ann".to_string(), "ann@example.com".to_string(), 0);
    let done = world.run(change_user_pwd(&ann, "another".to_string()));
    assert_eq!(done, json(200, "修改密码成功", None));
    assert_eq!(world.trace, ["update", "reply"]);
    assert!(verify_pwd("another", &world.users[0].user_password));
    let ghost = UserToken::new(9, "ghost".to_string(), "ghost@example.com".to_string(), 0);
    let none = world.run(change_user_pwd(&ghost, "another".to_string()));
    assert_eq!(none, Action::Fail(AppError::BusinessError(500, "修改密码失败")));
}

#[test]
fn the_store_must_change_exactly_one_row() {
    assert_eq!(
        Flow::PwdUpdate.step_at(Event::Updated(0), SECRET, NOW).1,
        Action::Fail(AppError::BusinessError(500, "修改密码失败"))
    );
    assert_eq!(Flow::PwdUpdate.step_at(Event::Updated(1), SECRET, NOW).1, json(200, "修改密码成功", None));
    assert_eq!(
        Flow::PwdUpdate.step_at(Event::Updated(2), SECRET, NOW).1,
        Action::Fail(AppError::BusinessError(500, "修改密码失败"))
    );
}

#[test]
fn is_this_email_address_free() {
    let mut world = world_with_ann();
    let free = world.run(validate_email("bob@example.com".to_string()));
    assert_eq!(free, json(200, "邮箱验证成功", Some(VerifyStatus::success())));
    let taken = world.run(validate_email("ann@example.com".to_string()));
    assert_eq!(taken, json(500, "邮箱已注册，请登录", Some(VerifyStatus::fail())));
    world.trace.clear();
    let malformed = world.run(validate_email("ann".to_string()));
    assert_eq!(malformed, Action::Fail(AppError::BusinessError(400, "邮箱格式不正确")));
    assert_eq!(world.trace, ["fail"]);
    world.store_down = true;
    let down = world.run(validate_email("bob@example.com".to_string()));
    assert_eq!(down, json(500, "邮箱验证，服务器出错", Some(VerifyStatus::fail())));
}

#[test]
fn is_this_name_free() {
    let mut world = world_with_ann();
    let free = world.run(validate_username("bob".to_string()));
    assert_eq!(free, json(200, "用户名认证成功", Some(VerifyStatus::success())));
    let taken = world.run(validate_username("ann".to_string()));
    assert_eq!(taken, json(500, "用户名已存在，请登录", Some(VerifyStatus::fail())));
    world.store_down = true;
    let down = world.run(validate_username("bob".to_string()));
    assert_eq!(down, json(500, "用户名验证，服务器错误", Some(VerifyStatus::fail())));
}

#[test]
fn counts_decide_whether_a_user_exists() {
    assert_eq!(
        check_email_exists(Ok(0)),
        ApiResult::ok().data(VerifyStatus::success()).msg("邮箱验证成功")
    );
    assert_eq!(
        check_email_exists(Ok(3)),
        ApiResult::error().data(VerifyStatus::fail()).msg("邮箱已注册，请登录")
    );
    assert_eq!(
        check_email_exists(Ok(-1)),
        ApiResult::error().data(VerifyStatus::fail()).msg("邮箱已注册，请登录")
    );
    assert_eq!(
        check_email_exists(Err(AppError::DatabaseError)),
        ApiResult::error().data(VerifyStatus::fail()).msg("邮箱验证，服务器出错")
    );
    assert_eq!(
        check_username_exists(Ok(0)),
        ApiResult::ok().data(VerifyStatus::success()).msg("用户名认证成功")
    );
    assert_eq!(
        check_username_exists(Ok(1)),
        ApiResult::error().data(VerifyStatus::fail()).msg("用户名已存在，请登录")
    );
    assert_eq!(
        check_username_exists(Err(AppError::DatabaseError)),
        ApiResult::error().data(VerifyStatus::fail()).msg("用户名验证，服务器错误")
    );
}

#[test]
fn a_cache_that_is_down_is_a_server_fault() {
    let mut world = world_with_ann();
    world.cache_down = true;
    let forms: Vec<(Flow, Action)> = vec![
        get_captcha(),
        verify_captcha(captcha_form("k", "v", "ann@example.com")),
        verify_email(register_form("ann", "ann@example.com", "c", "p")),
        login(login_form("k", "v", "ann@example.com", "hunter42", false)),
        find_user_pwd(reset_form("k", "v", "ann@example.com", Some("c"), "p")),
    ];
    for start in forms {
        let out = world.run(start);
        assert_eq!(out, Action::Fail(AppError::RedisGetError));
    }
    assert_eq!(AppError::RedisGetError.class(), ErrorClass::CacheUnavailable);
    assert_eq!(AppError::RedisGetError.status(), 500);
    assert!(world.mails.is_empty());
}

#[test]
fn a_mail_that_cannot_be_sent_is_no_error_of_the_request() {
    let sent = Flow::CodeSend { reset: false }.step_at(Event::Sent, SECRET, NOW);
    let failed =
        Flow::CodeSend { reset: false }.step_at(Event::Failed(AppError::IoError), SECRET, NOW);
    assert_eq!(
        sent.1,
        json(200, "验证码校验成功，已发送验证码到您邮箱，请查收", Some(VerifyStatus::success()))
    );
    assert_eq!(failed, sent);
    let failed = Flow::CodeSend { reset: true }.step_at(Event::Failed(AppError::IoError), SECRET, NOW);
    assert_eq!(failed, (Flow::Finished, json(200, "验证码已发送至邮箱", None)));
}

#[test]
fn a_rendering_that_is_no_png_ends_the_issue_of_a_captcha() {
    let rendered = Event::Rendered { answer: "aB3d".to_string(), image: b"not a png".to_vec() };
    assert_eq!(
        Flow::CaptchaRender.step_at(rendered, SECRET, NOW),
        (Flow::Finished, Action::Fail(AppError::BusinessError(500, "验证码生成失败")))
    );
}

#[test]
fn a_store_that_is_down_is_a_server_fault() {
    let mut world = world_with_ann();
    let key = issue_captcha(&mut world);
    world.store_down = true;
    let out = world.run(login(login_form(&key, "aB3d", "ann@example.com", "hunter42", false)));
    assert_eq!(out, Action::Fail(AppError::DatabaseError));
    let out = world.run(find_user_pwd(reset_form("k", "v", "ann@example.com", None, "")));
    assert_eq!(out, Action::Fail(AppError::DatabaseError));
    let ann = UserToken::new(1, "ann".to_string(), "ann@example.com".to_string(), 0);
    let out = world.run(change_user_pwd(&ann, "another".to_string()));
    assert_eq!(out, Action::Fail(AppError::DatabaseError));
}

#[test]
fn an_event_out_of_turn_ends_the_exchange() {
    let unexpected = Action::Fail(AppError::BusinessError(500, "unexpected event"));
    let waiting: Vec<Flow> = vec![
        Flow::EmailCount,
        Flow::UsernameCount,
        Flow::CaptchaRender,
        Flow::CaptchaStore { key: "k".to_string(), image: vec![137, 80, 78, 71, 13, 10, 26, 10] },
        Flow::CodeChallenge { form: captcha_form("k", "v", "a@b.c"), reset: false },
        Flow::CodeConsume { email: "a@b.c".to_string(), reset: false },
        Flow::CodeStore { email: "a@b.c".to_string(), code: "c".to_string(), reset: true },
        Flow::CodeSend { reset: true },
        Flow::RegisterChallenge { form: register_form("a", "a@b.c", "c", "p") },
        Flow::RegisterConsume { form: register_form("a", "a@b.c", "c", "p") },
        Flow::RegisterInsert,
        Flow::LoginChallenge { form: login_form("k", "v", "a@b.c", "p", false) },
        Flow::LoginConsume { form: login_form("k", "v", "a@b.c", "p", false) },
        Flow::LoginLookup { form: login_form("k", "v", "a@b.c", "p", false) },
        Flow::ResetLookup { form: reset_form("k", "v", "a@b.c", None, "p") },
        Flow::ResetChallenge {
            code: "c".to_string(),
            email: "a@b.c".to_string(),
            password: "p".to_string(),
            user_id: 1,
        },
        Flow::ResetConsume { password: "p".to_string(), user_id: 1 },
        Flow::TopicInsert,
        Flow::Finished,
    ];
    for flow in waiting {
        let out = flow.clone().step_at(Event::Updated(1), SECRET, NOW);
        assert_eq!(out, (Flow::Finished, unexpected.clone()), "{:?}", flow);
    }
    for event in [Event::Stored, Event::Deleted, Event::Sent, Event::Failed(AppError::IoError)] {
        assert_eq!(Flow::Finished.step_at(event, SECRET, NOW), (Flow::Finished, unexpected.clone()));
    }
    assert_eq!(reject_event(), (Flow::Finished, unexpected));
}

#[test]
fn a_reply_names_its_headers() {
    let pair = |name: &str, value: &str| (name.to_string(), value.to_string());
    let plain = Reply::json(ApiResult::ok());
    assert_eq!(plain.headers(), [pair("content-type", "application/json")]);
    let granted = Reply { token: Some("a.b.c".to_string()), ..plain.clone() };
    assert_eq!(
        granted.headers(),
        [pair("content-type", "application/json"), pair("token", "a.b.c")]
    );
    let captcha = Reply {
        status: 200,
        token: None,
        captcha_key: Some("urn:uuid:x".to_string()),
        body: Body::Png(vec![1, 2, 3]),
    };
    assert_eq!(
        captcha.headers(),
        [pair("content-type", "image/png"), pair("captcha-key", "urn:uuid:x")]
    );
    let both = Reply { token: Some("t".to_string()), ..captcha };
    assert_eq!(
        both.headers(),
        [pair("content-type", "image/png"), pair("token", "t"), pair("captcha-key", "urn:uuid:x")]
    );
}

#[test]
fn exchanges_end_with_a_reply_or_a_failure() {
    let reply = Reply::json(ApiResult::ok());
    assert_eq!(reply.status, 200);
    assert_eq!(reply.token, None);
    assert_eq!(finish(reply.clone()), (Flow::Finished, Action::Reply(reply)));
    assert_eq!(abort(AppError::IoError), (Flow::Finished, Action::Fail(AppError::IoError)));
}

#[test]
fn hashing_steps_store_a_hash_and_never_the_password() {
    let form = register_form("ann", "ann@example.com", "c", "hunter42");
    match (Flow::RegisterConsume { form }).step_at(Event::Deleted, SECRET, NOW) {
        (Flow::RegisterInsert, Action::InsertUser { uk_username, uk_email, user_password }) => {
            assert_eq!(uk_username, "ann");
            assert_eq!(uk_email, "ann@example.com");
            assert!(user_password.starts_with("$argon2id$v=19$m=1024,t=3,p=1$"));
            assert!(verify_pwd("hunter42", &user_password));
        }
        other => panic!("{:?}", other),
    }
    match (Flow::ResetConsume { password: "new".to_string(), user_id: 4 }).step_at(Event::Deleted, SECRET, NOW) {
        (Flow::PwdUpdate, Action::UpdateUserPwd { pwd, id }) => {
            assert_eq!(id, 4);
            assert!(verify_pwd("new", &pwd));
        }
        other => panic!("{:?}", other),
    }
}

#[test]
fn a_topic_belongs_to_the_user_who_signed_in() {
    let mut world = World::new();
    let ann = UserToken::new(7, "ann".to_string(), "ann@example.com".to_string(), 0);
    let topic = TopicFront {
        user_id: Some(99),
        title: "hello".to_string(),
        content: "world".to_string(),
        tags: "a,b".to_string(),
    };
    let start = create_topic(topic.clone(), &ann);
    assert_eq!(
        start,
        (
            Flow::TopicInsert,
            Action::InsertTopic {
                user_id: 7,
                title: "hello".to_string(),
                content: "world".to_string(),
                tags: "a,b".to_string(),
            }
        )
    );
    let done = world.run(start);
    assert_eq!(done, json(200, "创建主题成功", Some(VerifyStatus::success())));
    assert_eq!(world.topics, [(7, "hello".to_string())]);
    assert_eq!(
        Flow::TopicInsert.step_at(Event::Inserted(0), SECRET, NOW).1,
        Action::Fail(AppError::BusinessError(500, "创建主题失败"))
    );
    assert_eq!(
        insert_one_topic(TopicFront { user_id: None, ..topic }),
        Err(AppError::BusinessError(500, "用户不能为空"))
    );
    assert!(topic_inserted(1));
    assert!(!topic_inserted(0));
    assert!(topic_top_updated(2));
    assert!(!topic_top_updated(0));
}
