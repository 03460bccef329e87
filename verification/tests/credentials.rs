#![allow(dead_code, unused_imports)]

use auth_rs::configuration::{Config, Services};
use auth_rs::protocol::{Document, ErrorKind, Failure, Field, Kind, Pending, Reply, Request, Step};
use auth_rs::repository::audit::{Action, Audit, AuditRepository, ResourceId, ResourceType};
use auth_rs::repository::permission::{Permission, PermissionRepository};
use auth_rs::repository::role::{Role, RoleRepository};
use auth_rs::repository::user::{CreateUser, User, UserRepository};
use auth_rs::services::audit::{Audited, AuditService};
use auth_rs::services::permission::PermissionService;
use auth_rs::services::role::RoleService;
use auth_rs::services::user::UserService;
use auth_rs::password::{constant_time_eq, salt_accepted};
use auth_rs::web::extractors::{bearer_token, verify_bearer};
use argon2::password_hash::SaltString;


#[test]
fn equal_texts_compare_equal() {
    assert!(constant_time_eq("", ""));
    assert!(constant_time_eq("a", "a"));
    assert!(constant_time_eq("$argon2id$v=19$m=19456,t=2,p=1$salt$hash", "$argon2id$v=19$m=19456,t=2,p=1$salt$hash"));
    assert!(constant_time_eq("pässwörd-ß", "pässwörd-ß"));
}

#[test]
fn different_texts_compare_unequal() {
    assert!(!constant_time_eq("a", "b"));
    assert!(!constant_time_eq("a", ""));
    assert!(!constant_time_eq("", "a"));
    assert!(!constant_time_eq("abc", "abd"));
    assert!(!constant_time_eq("abc", "xbc"));
    assert!(!constant_time_eq("abc", "abcd"));
    assert!(!constant_time_eq("abcd", "abc"));
    assert!(!constant_time_eq("é", "e"));
    assert!(!constant_time_eq("\u{0}", "\u{1}"));
    assert!(!constant_time_eq("\u{80}", "\u{81}"));
}

#[test]
fn the_token_is_what_follows_the_scheme() {
    assert_eq!(bearer_token("Bearer abc"), Some(String::from("abc")));
    assert_eq!(bearer_token("Bearer a.b.c"), Some(String::from("a.b.c")));
    assert_eq!(bearer_token("Bearer "), Some(String::new()));
    assert_eq!(bearer_token("Bearer  two"), Some(String::from(" two")));
    assert_eq!(bearer_token("Bearer Bearer x"), Some(String::from("Bearer x")));
    assert_eq!(bearer_token("Bearer tökén"), Some(String::from("tökén")));
}

#[test]
fn a_header_without_the_scheme_has_no_token() {
    assert_eq!(bearer_token(""), None);
    assert_eq!(bearer_token("Bearer"), None);
    assert_eq!(bearer_token("bearer abc"), None);
    assert_eq!(bearer_token("BEARER abc"), None);
    assert_eq!(bearer_token(" Bearer abc"), None);
    assert_eq!(bearer_token("Basic abc"), None);
    assert_eq!(bearer_token("Bearer\tabc"), None);
    assert_eq!(bearer_token("Béarer abc"), None);
    assert_eq!(bearer_token("abc"), None);
}

#[test]
fn verification_is_asked_for_a_bearer_token_alone() {
    assert_eq!(verify_bearer(None), None);
    assert_eq!(verify_bearer(Some("Token abc")), None);
    assert_eq!(
        verify_bearer(Some("Bearer abc")),
        Some(Request::VerifyToken { token: String::from("abc") })
    );
}

#[test]
fn a_salt_is_of_four_to_sixty_four_salt_characters() {
    assert!(salt_accepted("abcd"));
    assert!(salt_accepted("c29tZXNhbHR2YWx1ZQ"));
    assert!(salt_accepted("azAZ09/+.-"));
    assert!(salt_accepted(&"a".repeat(64)));
    assert!(!salt_accepted(""));
    assert!(!salt_accepted("abc"));
    assert!(!salt_accepted(&"a".repeat(65)));
    assert!(!salt_accepted("abc d"));
    assert!(!salt_accepted("abc=d"));
    assert!(!salt_accepted("abc_d"));
    assert!(!salt_accepted("abc*d"));
    assert!(!salt_accepted("abcé"));
    assert!(!salt_accepted("ab\u{0}cd"));
    assert!(!salt_accepted("abc,"));
    assert!(!salt_accepted("abc:"));
    assert!(!salt_accepted("abc@"));
    assert!(!salt_accepted("abc["));
    assert!(!salt_accepted("abc`"));
    assert!(!salt_accepted("abc{"));
}

#[test]
fn the_hasher_takes_exactly_the_salts_that_are_well_formed() {
    let long = "a".repeat(64);
    let longer = "a".repeat(65);
    let texts = [
        "", "a", "abc", "abcd", "abcde", "c29tZXNhbHR2YWx1ZQ", "azAZ09/+.-", "abc d", "abc=",
        "abc_", "abcé", "ab\u{0}cd", "....", "////", "++++", "----", "0000", "ABCD", "a b c d",
        long.as_str(), longer.as_str(),
    ];
    for text in texts {
        assert_eq!(salt_accepted(text), SaltString::from_b64(text).is_ok(), "{:?}", text);
    }
}
