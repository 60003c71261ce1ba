use filesha::accounts::{check_credentials, prepare_registration, unknown_login};
use filesha::errors::ApiError;
use filesha::models::UserCreate;
use filesha::passwords::{
    hash_password, parse_u32, split_fields, verify_password, PasswordError, PasswordHash,
    ITERATIONS,
};

const KNOWN: &str = "c2FsdA==$1$hn9wzxreAs/zdSWZo6U9xK80x6ZpgVrl1RNVThyM8lLALUcKKFoFAbrZmb/pQ8CPBQI119aLHaVeY/c7YKV/zg==";

#[test]
fn text_form_of_a_hash() {
    let h = PasswordHash::new(vec![1, 2, 3], 5, vec![0xff]);
    assert_eq!(h.to_string(), "/w==$5$AQID");
}

#[test]
fn text_form_round_trip() {
    let h = PasswordHash::from("/w==$5$AQID").unwrap();
    assert_eq!(h.to_string(), "/w==$5$AQID");
    let empty = PasswordHash::from("$+7$").unwrap();
    assert_eq!(empty.to_string(), "$7$");
    let extra = PasswordHash::from("/w==$5$AQID$ignored").unwrap();
    assert_eq!(extra.to_string(), "/w==$5$AQID");
}

#[test]
fn text_form_errors() {
    let cases = [
        ("!!!$5$AQID", "The salt contains invalid characters"),
        ("/w==", "The hash does not contain the iteration count"),
        ("", "The hash does not contain the iteration count"),
        ("/w==$x$AQID", "The iteration count was not a valid u32"),
        ("/w==$4294967296$AQID", "The iteration count was not a valid u32"),
        ("/w==$-1$AQID", "The iteration count was not a valid u32"),
        ("/w==$5", "The hash does not contain the hashed password"),
        ("/w==$5$!!", "The hashed password contains invalid characters"),
    ];
    for (text, message) in cases {
        match PasswordHash::from(text) {
            Err(e) => assert_eq!(e.details(), message, "{}", text),
            Ok(_) => panic!("{} parsed", text),
        }
    }
}

#[test]
fn known_pbkdf2_vector_verifies() {
    let h = PasswordHash::from(KNOWN).unwrap();
    assert!(verify_password("password", &h).is_ok());
    let wrong = verify_password("Password", &h).unwrap_err();
    assert_eq!(wrong.details(), "Password is incorrect");
}

#[test]
fn zero_iterations_never_verify() {
    let h = PasswordHash::new(vec![1], 0, vec![2]);
    assert!(verify_password("x", &h).is_err());
}

#[test]
fn fresh_hash_verifies_its_password() {
    let h = hash_password("correct horse").unwrap();
    assert!(verify_password("correct horse", &h).is_ok());
    assert!(verify_password("wrong horse", &h).is_err());
    let text = h.to_string();
    let parts: Vec<&str> = text.split('$').collect();
    assert_eq!(parts.len(), 3);
    assert_eq!(parts[1], ITERATIONS.to_string());
    assert_eq!(parts[0].len(), 24);
    assert_eq!(parts[2].len(), 88);
    let again = hash_password("correct horse").unwrap();
    assert_ne!(again.to_string(), text);
}

#[test]
fn credentials_check() {
    assert!(check_credentials("password", KNOWN).is_ok());
    assert!(matches!(
        check_credentials("nope", KNOWN),
        Err(ApiError::Custom(400, ref body)) if body.message == "User not found or incorrect password"
    ));
    assert!(matches!(check_credentials("password", "!!"), Err(ApiError::InternalServerError)));
    assert!(matches!(unknown_login(), ApiError::Custom(400, _)));
}

#[test]
fn registration_hashes_the_password() {
    let u = UserCreate {
        email: "a@b".to_string(),
        display_name: "A".to_string(),
        password: "secret".to_string(),
    };
    let prepared = prepare_registration(u).unwrap();
    assert_eq!(prepared.email, "a@b");
    assert_eq!(prepared.display_name, "A");
    assert_ne!(prepared.password, "secret");
    assert!(check_credentials("secret", &prepared.password).is_ok());
    assert!(check_credentials("Secret", &prepared.password).is_err());
}

#[test]
fn u32_reading() {
    assert_eq!(parse_u32("0"), Some(0));
    assert_eq!(parse_u32("100000"), Some(100000));
    assert_eq!(parse_u32("+12"), Some(12));
    assert_eq!(parse_u32("007"), Some(7));
    assert_eq!(parse_u32("4294967295"), Some(u32::MAX));
    assert_eq!(parse_u32("4294967296"), None);
    assert_eq!(parse_u32("99999999999999999999"), None);
    assert_eq!(parse_u32(""), None);
    assert_eq!(parse_u32("+"), None);
    assert_eq!(parse_u32("-1"), None);
    assert_eq!(parse_u32("1 "), None);
    assert_eq!(parse_u32("١"), None);
}

#[test]
fn splitting_on_separator() {
    assert_eq!(split_fields("a$b$c", '$'), vec!["a", "b", "c"]);
    assert_eq!(split_fields("", '$'), vec![""]);
    assert_eq!(split_fields("$", '$'), vec!["", ""]);
    assert_eq!(split_fields("ä$ö", '$'), vec!["ä", "ö"]);
}

#[test]
fn password_error_details() {
    let e = PasswordError::new("boom");
    assert_eq!(e.details(), "boom");
    assert!(matches!(e.to_api_error(), ApiError::InternalServerError));
}
