use otp_auth::config::{Jwt, Smtp, SmtpEncryption, DEFAULT_SMTP_PORT};
use otp_auth::content::{ContentModel, ContentModelResponse};
use otp_auth::model::UserModel;
use otp_auth::text::{parse_u16, same_text};

fn smtp(port: &str, encryption: &str) -> Smtp {
    Smtp {
        server: "localhost".to_string(),
        username: String::new(),
        password: String::new(),
        port: port.to_string(),
        encryption: encryption.to_string(),
        from: "noreply@example.com".to_string(),
    }
}

#[test]
fn test_smtp_port_number() {
    assert_eq!(smtp("1025", "").port_number(), 1025);
    assert_eq!(smtp("587", "").port_number(), 587);
    assert_eq!(smtp("+25", "").port_number(), 25);
    assert_eq!(smtp("0", "").port_number(), 0);
    assert_eq!(smtp("65535", "").port_number(), 65535);
    assert_eq!(smtp("0000000000000000000465", "").port_number(), 465);
    for unreadable in ["", "+", "65536", "99999999999999999999", "-1", " 25", "25 ", "2 5", "0x19", "smtp", "٢٥", "+-1", "++1"] {
        assert_eq!(smtp(unreadable, "").port_number(), DEFAULT_SMTP_PORT, "{unreadable:?}");
        assert_eq!(parse_u16(unreadable), unreadable.parse::<u16>().ok());
    }
    for n in [0u32, 9, 10, 99, 100, 1024, 65534, 65535, 65536, 70000, 655350] {
        assert_eq!(parse_u16(&n.to_string()), n.to_string().parse::<u16>().ok());
    }
}

#[test]
fn test_smtp_encryption_mode() {
    assert_eq!(smtp("", "starttls").encryption_mode(), SmtpEncryption::StartTls);
    assert_eq!(smtp("", "STARTTLS").encryption_mode(), SmtpEncryption::StartTls);
    assert_eq!(smtp("", "StartTls").encryption_mode(), SmtpEncryption::StartTls);
    assert_eq!(smtp("", "tls").encryption_mode(), SmtpEncryption::Tls);
    assert_eq!(smtp("", "TLS").encryption_mode(), SmtpEncryption::Tls);
    assert_eq!(smtp("", "").encryption_mode(), SmtpEncryption::Plain);
    assert_eq!(smtp("", "none").encryption_mode(), SmtpEncryption::Plain);
    assert_eq!(smtp("", "ssl").encryption_mode(), SmtpEncryption::Plain);
    assert_eq!(smtp("", " tls").encryption_mode(), SmtpEncryption::Plain);
}

#[test]
fn test_same_text() {
    assert!(same_text("", ""));
    assert!(same_text("abc", "abc"));
    assert!(!same_text("abc", "abd"));
    assert!(!same_text("abc", "ab"));
    assert!(!same_text("abc", "ABC"));
}

#[test]
fn test_content_shown_with_its_creator() {
    let mut content = ContentModel {
        id: "c-1".to_string(),
        content_type: "page".to_string(),
        title: "Title".to_string(),
        summary: Some("Summary".to_string()),
        details: None,
        content_image: None,
        record_state: 1,
        protected: 0,
        created_at: Some(5),
        updated_at: Some(6),
        deleted_at: None,
        created_by: "u-1".to_string(),
    };
    let user = UserModel {
        id: "u-1".to_string(),
        name: "Name".to_string(),
        mobile: "966512345678".to_string(),
        mobile_token: None,
        mobile_token_expire_at: None,
        email: None,
        gender: None,
        role_id: 2,
        active: 0,
        protected: 0,
        created_at: None,
        updated_at: None,
    };
    let shown = ContentModelResponse::filter_db(&mut content, &user);
    assert_eq!((shown.id.as_str(), shown.content_type.as_str(), shown.title.as_str()), ("c-1", "page", "Title"));
    assert_eq!((shown.summary.as_deref(), shown.details.as_deref(), shown.contentImage.as_deref()), (Some("Summary"), None, None));
    assert_eq!((shown.recordState, shown.protected), (true, false));
    assert_eq!((shown.createdAt, shown.updatedAt, shown.deletedAt), (Some(5), Some(6), None));
    assert_eq!((shown.createdBy.id.as_str(), shown.createdBy.name.as_str()), ("u-1", "Name"));
    assert_eq!((shown.createdBy.roleId, shown.createdBy.active), (2, false));
    assert_eq!(content.title, "Title");
}

#[test]
fn test_signing_secret_must_be_there() {
    assert!(Jwt { secret: "s".to_string() }.is_configured());
    assert!(!Jwt { secret: String::new() }.is_configured());
}
