use winter_mcp::secrets::{validate_name, SecretError, SecretManager};

#[test]
fn secret_manager_crud() {
    let mut manager = SecretManager::new();
    manager.set("API_KEY", "secret123").unwrap();
    assert_eq!(manager.get("API_KEY"), Some("secret123"));
    assert!(manager.has("API_KEY"));
    assert!(!manager.has("OTHER"));
    let names = manager.list_names();
    assert_eq!(names, vec!["API_KEY".to_string()]);
    manager.delete("API_KEY").unwrap();
    assert!(!manager.has("API_KEY"));
    assert_eq!(manager.get("API_KEY"), None);
}

#[test]
fn secret_manager_get_subset() {
    let mut manager = SecretManager::new();
    manager.set("KEY1", "value1").unwrap();
    manager.set("KEY2", "value2").unwrap();
    manager.set("KEY3", "value3").unwrap();
    let subset = manager.get_subset(&[
        "KEY1".to_string(),
        "KEY3".to_string(),
        "MISSING".to_string(),
        "KEY1".to_string(),
    ]);
    assert_eq!(
        subset,
        vec![
            ("WINTER_SECRET_KEY1".to_string(), "value1".to_string()),
            ("WINTER_SECRET_KEY3".to_string(), "value3".to_string()),
        ]
    );
}

#[test]
fn secret_manager_validates_names() {
    let mut manager = SecretManager::new();
    assert!(manager.set("", "v").is_err());
    assert!(manager.set("has-dash", "v").is_err());
    assert!(manager.set("has space", "v").is_err());
    assert!(manager.set(&"A".repeat(65), "v").is_err());
    assert!(manager.set(&"A".repeat(64), "v").is_ok());
    assert!(manager.set("valid_NAME_123", "v").is_ok());
    assert!(!manager.has("has-dash"));
}

#[test]
fn secret_errors_and_overwrite() {
    let mut manager = SecretManager::new();
    match manager.delete("NOPE") {
        Err(e) => assert_eq!(e.message(), "secret not found: NOPE"),
        Ok(()) => panic!("expected not found"),
    }
    match validate_name("é") {
        Err(SecretError::InvalidName(why)) => {
            assert_eq!(why, "name must be alphanumeric with underscores only")
        }
        _ => panic!("expected invalid name"),
    }
    match validate_name("") {
        Err(e) => assert_eq!(e.message(), "invalid secret name: name cannot be empty"),
        Ok(()) => panic!("expected invalid name"),
    }
    manager.set("K", "one").unwrap();
    manager.set("K", "two").unwrap();
    assert_eq!(manager.get("K"), Some("two"));
    assert_eq!(manager.list_names().len(), 1);
}
