use whatsoo::common::constant::{
    CAPTCHA_HEADER_NAME, CAPTCHA_LENGTH, CAPTCHA_TTL_SECONDS, EMAIL_CODE_TTL_SECONDS,
    EMAIL_SUBJECT, TOKEN_HEADER_NAME,
};
use whatsoo::common::err::AppError;
use whatsoo::common::util::{
    captcha_code, check_captcha_answer, check_png, gen_pic_captcha, issue_email_code,
    starts_with, validate_captcha, verification_mail, verify_captcha, Mail, OneTimeCode,
};

#[test]
fn a_code_matches_only_itself() {
    let cached = Some("aB3d".to_string());
    assert!(validate_captcha(&"aB3d".to_string(), &cached));
    assert!(!validate_captcha(&"ab3d".to_string(), &cached));
    assert!(!validate_captcha(&"aB3".to_string(), &cached));
    assert!(!validate_captcha(&"aB3d ".to_string(), &cached));
    assert!(!validate_captcha(&"".to_string(), &cached));
}

#[test]
fn an_absent_code_matches_nothing() {
    assert!(!validate_captcha(&"aB3d".to_string(), &None));
    assert!(!validate_captcha(&"".to_string(), &None));
    assert!(validate_captcha(&"".to_string(), &Some(String::new())));
}

#[test]
fn a_failed_challenge_does_not_say_why() {
    let wrong = verify_captcha(&"nope".to_string(), &Some("aB3d".to_string()));
    let absent = verify_captcha(&"aB3d".to_string(), &None);
    assert_eq!(wrong, Err(AppError::BusinessError(401, "验证码错误或已过期")));
    assert_eq!(wrong, absent);
    assert_eq!(verify_captcha(&"aB3d".to_string(), &Some("aB3d".to_string())), Ok(()));
}

#[test]
fn captcha_answers_are_four_letters_or_digits() {
    for answer in ["aB3d", "0000", "ZZZZ", "a1B2"] {
        assert!(check_captcha_answer(answer), "{:?}", answer);
    }
    for answer in ["", "abc", "abcde", "ab d", "ab-d", "ab_d", "abcé", "用户名字", "ab\nd"] {
        assert!(!check_captcha_answer(answer), "{:?}", answer);
    }
    assert_eq!(CAPTCHA_LENGTH, 4);
}

#[test]
fn a_rendered_captcha_gets_a_fresh_id() {
    let image = vec![0x89, b'P', b'N', b'G', 0x0d, 0x0a, 0x1a, 0x0a, 1, 2, 3];
    let (key, answer, kept) = gen_pic_captcha("aB3d".to_string(), image.clone()).unwrap();
    assert_eq!(answer, "aB3d");
    assert_eq!(kept, image);
    assert_eq!(key.chars().count(), 45);
    assert!(key.starts_with("urn:uuid:"));
    let (other, _, _) = gen_pic_captcha("aB3d".to_string(), image).unwrap();
    assert_ne!(key, other);
}

#[test]
fn an_unusable_rendering_is_turned_down() {
    let error = AppError::BusinessError(500, "验证码生成失败");
    let png = vec![137, 80, 78, 71, 13, 10, 26, 10];
    assert!(gen_pic_captcha("aB3d".to_string(), png.clone()).is_ok());
    assert_eq!(gen_pic_captcha("aB3d".to_string(), Vec::new()), Err(error));
    assert_eq!(gen_pic_captcha("aB3d".to_string(), vec![1]), Err(error));
    assert_eq!(gen_pic_captcha("aB3d".to_string(), png[..7].to_vec()), Err(error));
    assert_eq!(gen_pic_captcha("aB3d".to_string(), b"GIF89a-not-a-png".to_vec()), Err(error));
    assert_eq!(gen_pic_captcha("aB3".to_string(), png.clone()), Err(error));
    assert_eq!(gen_pic_captcha("aB3de".to_string(), png.clone()), Err(error));
    assert_eq!(gen_pic_captcha("aB 3".to_string(), png), Err(error));
}

#[test]
fn a_png_image_begins_with_its_signature() {
    assert!(check_png(&vec![137, 80, 78, 71, 13, 10, 26, 10]));
    assert!(check_png(&vec![137, 80, 78, 71, 13, 10, 26, 10, 0, 0, 0, 13]));
    assert!(!check_png(&Vec::new()));
    assert!(!check_png(&vec![137, 80, 78, 71, 13, 10, 26]));
    for at in 0..8 {
        let mut bytes = vec![137, 80, 78, 71, 13, 10, 26, 10, 9];
        bytes[at] ^= 1;
        assert!(!check_png(&bytes), "{}", at);
    }
}

#[test]
fn a_text_begins_with_its_prefixes_only() {
    assert!(starts_with("", ""));
    assert!(starts_with("abc", ""));
    assert!(starts_with("abc", "a"));
    assert!(starts_with("abc", "abc"));
    assert!(!starts_with("abc", "abcd"));
    assert!(!starts_with("abc", "b"));
    assert!(!starts_with("", "a"));
    assert!(starts_with("用户名字", "用户"));
    assert!(!starts_with("用户名字", "用名"));
    assert!(!starts_with("é", "e"));
}

#[test]
fn a_captcha_is_cached_for_five_minutes() {
    let code = captcha_code("urn:uuid:x".to_string(), "aB3d".to_string());
    assert_eq!(
        code,
        OneTimeCode { key: "urn:uuid:x".to_string(), value: "aB3d".to_string(), ttl_seconds: 300 }
    );
    assert_eq!(CAPTCHA_TTL_SECONDS, 300);
}

#[test]
fn an_email_code_is_cached_for_fifty_minutes() {
    let code = issue_email_code("ann@example.com").unwrap();
    assert_eq!(code.key, "ann@example.com");
    assert_eq!(code.ttl_seconds, 3000);
    assert_eq!(EMAIL_CODE_TTL_SECONDS, 3000);
    assert_eq!(code.value.chars().count(), 22);
    assert!(code.value.is_ascii());
    let again = issue_email_code("ann@example.com").unwrap();
    assert_ne!(code.value, again.value);
}

#[test]
fn no_email_code_for_a_malformed_address() {
    assert_eq!(issue_email_code("ann"), Err(AppError::BusinessError(400, "邮箱格式不正确")));
    assert_eq!(issue_email_code(""), Err(AppError::BusinessError(400, "邮箱格式不正确")));
}

#[test]
fn the_mail_carries_the_code_in_a_heading() {
    let mail = verification_mail("ann@example.com", "c29tZXNhbHRzb21lc2FsdA");
    assert_eq!(
        mail,
        Mail {
            to: "ann@example.com".to_string(),
            subject: "whatsoo论坛邮箱验证码".to_string(),
            html: "<h3>c29tZXNhbHRzb21lc2FsdA</h3>".to_string(),
        }
    );
    assert_eq!(verification_mail("", "").html, "<h3></h3>");
    assert_eq!(EMAIL_SUBJECT, "whatsoo论坛邮箱验证码");
}

#[test]
fn header_names_are_fixed() {
    assert_eq!(TOKEN_HEADER_NAME, "token");
    assert_eq!(CAPTCHA_HEADER_NAME, "captcha-key");
}
