use otp_auth::config::{Config, Database, Jwt, Sms, Smtp, Transactions};
use otp_auth::model::UserModel;
use otp_auth::otp::{
    fixed_code, generate_otp, otp_of_number, OTP_MAX, OTP_MIN, OTP_SPENT_SECONDS_BACK,
    OTP_TTL_SECONDS,
};
use otp_auth::text::u32_to_decimal;

const FIXED_OTP: &str = "12345";

// Helper function to create a configuration with the specified environment
fn create_config(env: &str) -> Config {
    Config {
        env: env.to_string(),
        host: String::new(),
        domain: String::new(),
        port: 0,
        database: Database {
            url: String::new(),
            connections: 0,
            transactions: Transactions { url: String::new(), connections: 0 },
        },
        jwt: Jwt { secret: String::new() },
        cors: String::new(),
        sms: Sms { enable: false, account: String::new(), from: String::new(), token: String::new() },
        smtp: Smtp {
            server: String::new(),
            username: String::new(),
            password: String::new(),
            port: "1025".to_string(),
            encryption: String::new(),
            from: String::new(),
        },
    }
}

fn user() -> UserModel {
    UserModel {
        id: "u-1".to_string(),
        name: "Name".to_string(),
        mobile: "966512345678".to_string(),
        mobile_token: None,
        mobile_token_expire_at: None,
        email: None,
        gender: None,
        role_id: 3,
        active: 1,
        protected: 0,
        created_at: Some(1),
        updated_at: Some(2),
    }
}

#[test]
fn test_generate_otp_non_production() {
    // Create a non-production configuration
    let config = create_config("local");

    // Generate OTP
    let otp = generate_otp(&config);

    // Ensure the OTP is the fixed OTP
    assert_eq!(otp, FIXED_OTP);
}

#[test]
fn test_generate_otp_production() {
    // Create a production configuration
    let config = create_config("production");

    // Generate OTP
    let otp = generate_otp(&config);

    // Ensure the OTP is a 6-digit number
    let otp_num: u32 = otp.parse().expect("OTP should be a number");
    assert!(otp_num >= 100000 && otp_num <= 999999);
}

#[test]
fn test_generate_otp_production_many_draws() {
    let config = create_config("PRODUCTION");
    let mut distinct = std::collections::HashSet::new();
    for _ in 0..200 {
        let otp = generate_otp(&config);
        assert_eq!(otp.len(), 6);
        let n: u32 = otp.parse().unwrap();
        assert!(OTP_MIN <= n && n <= OTP_MAX);
        distinct.insert(n);
    }
    assert!(distinct.len() > 1);
}

#[test]
fn test_production_mode_ignores_ascii_case_only() {
    assert!(create_config("production").is_production());
    assert!(create_config("Production").is_production());
    assert!(create_config("PRODUCTION").is_production());
    assert!(!create_config("prod").is_production());
    assert!(!create_config("production ").is_production());
    assert!(!create_config("local").is_production());
    assert!(!create_config("").is_production());
}

#[test]
fn test_fixed_code_and_code_of_number() {
    assert_eq!(fixed_code(), "12345");
    assert_eq!(otp_of_number(100000), "100000");
    assert_eq!(otp_of_number(999999), "999999");
    assert_eq!(otp_of_number(482913), "482913");
}

#[test]
fn test_decimal_numerals() {
    assert_eq!(u32_to_decimal(0), "0");
    assert_eq!(u32_to_decimal(7), "7");
    assert_eq!(u32_to_decimal(10), "10");
    assert_eq!(u32_to_decimal(1205), "1205");
    assert_eq!(u32_to_decimal(u32::MAX), "4294967295");
}

#[test]
fn test_store_then_consume_once() {
    let mut user = user();
    user.store_otp("123456".to_string(), OTP_TTL_SECONDS, 1_000);
    assert_eq!(user.mobile_token.as_deref(), Some("123456"));
    assert_eq!(user.mobile_token_expire_at, Some(1_060));

    let before = user.clone();
    let stored = user.clone();
    assert!(user.consume_otp("123456", 1_030));
    // the code is gone, the expiry lies an hour before the attempt, nothing else changed
    assert_eq!(user.mobile_token, None);
    assert_eq!(user.mobile_token_expire_at, Some(1_030 - 3_600));
    assert_eq!(OTP_SPENT_SECONDS_BACK, 3_600);
    assert_eq!(
        (user.id, user.name, user.mobile, user.email, user.gender),
        (before.id, before.name, before.mobile, before.email, before.gender)
    );
    assert_eq!(
        (user.role_id, user.active, user.protected, user.created_at, user.updated_at),
        (before.role_id, before.active, before.protected, before.created_at, before.updated_at)
    );
    let mut user = stored;
    user.consume_otp("123456", 1_030);
    // single use: the same code is refused the second time
    assert!(!user.consume_otp("123456", 1_031));
}

#[test]
fn test_consume_at_and_past_expiry() {
    let mut at_expiry = user();
    at_expiry.store_otp("123456".to_string(), 60, 1_000);
    assert!(at_expiry.consume_otp("123456", 1_060));

    let mut past = user();
    past.store_otp("123456".to_string(), 60, 1_000);
    assert!(!past.consume_otp("123456", 1_061));
    assert_eq!(past.mobile_token, None);
    assert_eq!(past.mobile_token_expire_at, Some(1_061 - 3_600));
}

#[test]
fn test_wrong_code_spends_the_stored_code() {
    let mut user = user();
    user.store_otp("123456".to_string(), 60, 1_000);
    assert!(!user.consume_otp("654321", 1_001));
    assert!(!user.consume_otp("123456", 1_002));
}

#[test]
fn test_consume_without_code_or_without_expiry() {
    let mut none = user();
    assert!(!none.consume_otp("", 0));
    assert_eq!(none.mobile_token_expire_at, Some(-3_600));
    let mut earliest = user();
    assert!(!earliest.consume_otp("", i64::MIN + 3_600));
    assert_eq!(earliest.mobile_token_expire_at, Some(i64::MIN));
    let mut no_expiry = user();
    no_expiry.mobile_token = Some("123456".to_string());
    assert!(!no_expiry.consume_otp("123456", 0));
}

#[test]
fn test_store_replaces_the_earlier_code() {
    let mut user = user();
    user.store_otp("111111".to_string(), 60, 1_000);
    user.store_otp("222222".to_string(), 60, 1_010);
    assert_eq!(user.mobile_token_expire_at, Some(1_070));
    assert!(!user.clone().consume_otp("111111", 1_020));
    assert!(user.consume_otp("222222", 1_020));
}
