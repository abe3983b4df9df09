use simple_accounts::configuration::{AdminConfiguration, Configuration};
use simple_accounts::protocol::Status;
use simple_accounts::randoms::{alphanumeric_string, numeric_string, uuid_v4_string};
use simple_accounts::text::{decimal_string, str_equals};

fn is_alphanumeric(s: &str) -> bool {
    s.chars().all(|c| c.is_ascii_alphanumeric())
}

fn assert_uuid_v4_shape(s: &str) {
    assert_eq!(s.len(), 36);
    for (i, c) in s.chars().enumerate() {
        if i == 8 || i == 13 || i == 18 || i == 23 {
            assert_eq!(c, '-');
        } else {
            assert!(c.is_ascii_digit() || ('a'..='f').contains(&c), "{}", s);
        }
    }
    assert_eq!(s.chars().nth(14), Some('4'));
    assert!(matches!(s.chars().nth(19), Some('8' | '9' | 'a' | 'b')));
}

#[test]
fn decimal_string_of_edges() {
    assert_eq!(decimal_string(0), "0");
    assert_eq!(decimal_string(9), "9");
    assert_eq!(decimal_string(10), "10");
    assert_eq!(decimal_string(8080), "8080");
    assert_eq!(decimal_string(65535), "65535");
}

#[test]
fn str_equals_compares_characters() {
    assert!(str_equals("totp", "totp"));
    assert!(!str_equals("totp", "tot"));
    assert!(!str_equals("totp", "pgp"));
    assert!(str_equals("", ""));
    assert!(!str_equals("é", "e"));
}

#[test]
fn alphanumeric_string_has_length_and_alphabet() {
    for length in [0usize, 1, 16, 64, 200] {
        let s = alphanumeric_string(length);
        assert_eq!(s.chars().count(), length);
        assert!(is_alphanumeric(&s));
    }
    let n = numeric_string(20);
    assert_eq!(n.chars().count(), 20);
    assert!(is_alphanumeric(&n));
}

#[test]
fn uuid_strings_have_version_four_shape() {
    let a = uuid_v4_string();
    let b = uuid_v4_string();
    assert_uuid_v4_shape(&a);
    assert_uuid_v4_shape(&b);
    assert_ne!(a, b);
}

#[test]
fn default_configuration() {
    let config = Configuration::new();
    assert_eq!(config.ip, "0.0.0.0");
    assert_eq!(config.port, 8080);
    assert_uuid_v4_shape(&config.admin.key);
    let other = Configuration::new();
    assert_ne!(config.admin.key, other.admin.key);
}

#[test]
fn configuration_display_text() {
    let config = Configuration {
        ip: String::from("127.0.0.1"),
        port: 443,
        admin: AdminConfiguration { key: String::from("secret-key") },
    };
    assert_eq!(config.admin.to_string(), "\n\t- key: secret-key\n");
    assert_eq!(
        config.to_string(),
        "\n- ip: 127.0.0.1\n- port: 443\n- admin: \n\t- key: secret-key\n\n"
    );
}

#[test]
fn admin_check_accepts_only_the_key() {
    let admin = AdminConfiguration { key: String::from("k3y") };
    assert_eq!(admin.check(&String::from("k3y")), Ok(()));
    assert_eq!(admin.check(&String::from("K3Y")), Err(()));
    assert_eq!(admin.check(&String::from("")), Err(()));
    assert_eq!(admin.check(&String::from("k3y ")), Err(()));
    let fresh = AdminConfiguration::new();
    assert_uuid_v4_shape(&fresh.key);
    assert_eq!(fresh.check(&fresh.key.clone()), Ok(()));
}

#[test]
fn status_codes() {
    assert_eq!(Status::Success.code(), 200);
    assert_eq!(Status::BadRequest.code(), 400);
    assert_eq!(Status::Unauthorized.code(), 401);
    assert_eq!(Status::NotAcceptable.code(), 406);
    assert_eq!(Status::InternalServerError.code(), 500);
}
