use authentify::directory::{Authentify, Error};
use authentify::AccountId;

fn alice() -> AccountId {
    AccountId::new([0x01; 32])
}

fn bob() -> AccountId {
    AccountId::new([0x02; 32])
}

fn charlie() -> AccountId {
    AccountId::new([0x03; 32])
}

#[test]
fn new_works() {
    let authentify = Authentify::new(alice());
    assert_eq!(authentify.get_total_users(), 0);
    assert_eq!(authentify.get_admin(), alice());
}

#[test]
fn register_works() {
    let mut authentify = Authentify::new(alice());
    let result = authentify.register(alice(), String::from("alice"));
    assert!(result.is_ok());
    assert_eq!(authentify.get_total_users(), 1);
    assert!(authentify.username_exists(String::from("alice")));
    let user = authentify.get_user(String::from("alice")).unwrap();
    assert_eq!(user, alice());
}

#[test]
fn register_multiple_users_works() {
    let mut authentify = Authentify::new(alice());
    let result1 = authentify.register(alice(), String::from("alice"));
    assert!(result1.is_ok());
    let result2 = authentify.register(bob(), String::from("bob"));
    assert!(result2.is_ok());
    let result3 = authentify.register(charlie(), String::from("charlie"));
    assert!(result3.is_ok());
    assert_eq!(authentify.get_total_users(), 3);
    assert!(authentify.username_exists(String::from("alice")));
    assert!(authentify.username_exists(String::from("bob")));
    assert!(authentify.username_exists(String::from("charlie")));
    assert_eq!(authentify.get_user(String::from("alice")).unwrap(), alice());
    assert_eq!(authentify.get_user(String::from("bob")).unwrap(), bob());
    assert_eq!(authentify.get_user(String::from("charlie")).unwrap(), charlie());
}

#[test]
fn duplicate_username_fails() {
    let mut authentify = Authentify::new(alice());
    let result1 = authentify.register(alice(), String::from("alice"));
    assert!(result1.is_ok());
    assert_eq!(authentify.get_total_users(), 1);
    let result2 = authentify.register(alice(), String::from("alice"));
    assert_eq!(result2, Err(Error::UsernameExists));
    assert_eq!(authentify.get_total_users(), 1);
    let result3 = authentify.register(bob(), String::from("alice"));
    assert_eq!(result3, Err(Error::UsernameExists));
    assert_eq!(authentify.get_total_users(), 1);
}

#[test]
fn get_user_works() {
    let mut authentify = Authentify::new(alice());
    let _ = authentify.register(alice(), String::from("alice"));
    let result = authentify.get_user(String::from("alice"));
    assert!(result.is_ok());
    assert_eq!(result.unwrap(), alice());
}

#[test]
fn get_user_not_found() {
    let authentify = Authentify::new(alice());
    let result = authentify.get_user(String::from("nonexistent"));
    assert_eq!(result, Err(Error::UsernameNotFound));
}

#[test]
fn username_exists_works() {
    let mut authentify = Authentify::new(alice());
    assert!(!authentify.username_exists(String::from("alice")));
    assert!(!authentify.username_exists(String::from("bob")));
    let _ = authentify.register(alice(), String::from("alice"));
    assert!(authentify.username_exists(String::from("alice")));
    assert!(!authentify.username_exists(String::from("bob")));
}

#[test]
fn empty_username_registration() {
    let mut authentify = Authentify::new(alice());
    let result = authentify.register(alice(), String::from(""));
    assert!(result.is_ok());
    assert_eq!(authentify.get_total_users(), 1);
    assert!(authentify.username_exists(String::from("")));
}

#[test]
fn long_username_registration() {
    let mut authentify = Authentify::new(alice());
    let long_username = "a".repeat(1000);
    let result = authentify.register(alice(), long_username.clone());
    assert!(result.is_ok());
    assert_eq!(authentify.get_total_users(), 1);
    assert!(authentify.username_exists(long_username.clone()));
    assert_eq!(authentify.get_user(long_username).unwrap(), alice());
}

#[test]
fn special_characters_username() {
    let mut authentify = Authentify::new(alice());
    let special_username = String::from("alice@example.com_123-456");
    let result = authentify.register(alice(), special_username.clone());
    assert!(result.is_ok());
    assert_eq!(authentify.get_total_users(), 1);
    assert!(authentify.username_exists(special_username.clone()));
    assert_eq!(authentify.get_user(special_username).unwrap(), alice());
}

#[test]
fn unicode_username() {
    let mut authentify = Authentify::new(alice());
    let unicode_username = String::from("アリス🚀💻");
    let result = authentify.register(alice(), unicode_username.clone());
    assert!(result.is_ok());
    assert_eq!(authentify.get_total_users(), 1);
    assert!(authentify.username_exists(unicode_username.clone()));
    assert_eq!(authentify.get_user(unicode_username).unwrap(), alice());
}

#[test]
fn case_sensitive_usernames() {
    let mut authentify = Authentify::new(alice());
    let result1 = authentify.register(alice(), String::from("Alice"));
    assert!(result1.is_ok());
    let result2 = authentify.register(alice(), String::from("alice"));
    assert!(result2.is_ok());
    assert_eq!(authentify.get_total_users(), 2);
    assert!(authentify.username_exists(String::from("Alice")));
    assert!(authentify.username_exists(String::from("alice")));
    assert!(!authentify.username_exists(String::from("ALICE")));
}

#[test]
fn admin_verification() {
    let authentify = Authentify::new(alice());
    assert_eq!(authentify.get_admin(), alice());
    let authentify2 = Authentify::new(bob());
    assert_eq!(authentify2.get_admin(), bob());
}

#[test]
fn total_users_counter() {
    let mut authentify = Authentify::new(alice());
    assert_eq!(authentify.get_total_users(), 0);
    let _ = authentify.register(alice(), String::from("alice"));
    assert_eq!(authentify.get_total_users(), 1);
    let _ = authentify.register(bob(), String::from("bob"));
    assert_eq!(authentify.get_total_users(), 2);
    let _ = authentify.register(charlie(), String::from("charlie"));
    assert_eq!(authentify.get_total_users(), 3);
    let result = authentify.register(alice(), String::from("alice"));
    assert_eq!(result, Err(Error::UsernameExists));
    assert_eq!(authentify.get_total_users(), 3);
}

#[test]
fn directory_get_user_after_failed_register_keeps_first_owner() {
    let mut authentify = Authentify::new(alice());
    let _ = authentify.register(alice(), String::from("shared"));
    let _ = authentify.register(bob(), String::from("shared"));
    assert_eq!(authentify.get_user(String::from("shared")), Ok(alice()));
}
