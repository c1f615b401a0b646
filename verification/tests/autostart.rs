use glue::autostart::{auto_start, AutoStartError};
use glue::configuration::Configuration;
use glue::error::ParseError;
use std::cell::RefCell;

fn spawn(name: String, _arguments: Vec<String>) -> Result<(), String> {
    if name == "echo" || name == "ls" {
        Ok(())
    } else {
        Err("No such file or directory (os error 2)".to_string())
    }
}

#[test]
fn test_auto_start_empty_config() {
    let config = Configuration { autostart: vec![], ..Default::default() };
    let result = auto_start(&config, &spawn);
    assert!(result.is_ok());
}

#[test]
fn test_auto_start_single_program() {
    let config = Configuration { autostart: vec!["echo Hello".to_string()], ..Default::default() };
    let result = auto_start(&config, &spawn);
    assert!(result.is_ok());
}

#[test]
fn test_auto_start_multiple_programs() {
    let config = Configuration {
        autostart: vec!["echo Hello".to_string(), "ls -l".to_string()],
        ..Default::default()
    };
    let result = auto_start(&config, &spawn);
    assert!(result.is_ok());
}

#[test]
fn test_auto_start_invalid_program() {
    let config =
        Configuration { autostart: vec!["nonexistent_program".to_string()], ..Default::default() };
    let result = auto_start(&config, &spawn);
    assert!(result.is_err());
}

#[test]
fn test_auto_start_mixed_valid_invalid() {
    let config = Configuration {
        autostart: vec!["echo Hello".to_string(), "nonexistent_program".to_string()],
        ..Default::default()
    };
    let result = auto_start(&config, &spawn);
    assert!(result.is_err());
}

#[test]
fn autostart_hands_over_name_and_arguments() {
    let seen = RefCell::new(Vec::new());
    let record = |name: String, arguments: Vec<String>| {
        seen.borrow_mut().push((name, arguments));
        Ok(())
    };
    let config = Configuration {
        autostart: vec!["echo Hello  World".to_string(), "ls".to_string()],
        ..Default::default()
    };
    assert_eq!(auto_start(&config, &record), Ok(()));
    assert_eq!(
        *seen.borrow(),
        vec![
            ("echo".to_string(), vec!["Hello".to_string(), "World".to_string()]),
            ("ls".to_string(), vec![]),
        ]
    );
}

#[test]
fn autostart_stops_at_the_first_failure() {
    let seen = RefCell::new(Vec::new());
    let record = |name: String, _arguments: Vec<String>| {
        seen.borrow_mut().push(name.clone());
        spawn(name, Vec::new())
    };
    let config = Configuration {
        autostart: vec!["echo a".to_string(), "nope".to_string(), "ls".to_string()],
        ..Default::default()
    };
    assert_eq!(
        auto_start(&config, &record),
        Err(AutoStartError::Spawn("No such file or directory (os error 2)".to_string()))
    );
    assert_eq!(*seen.borrow(), vec!["echo".to_string(), "nope".to_string()]);
    let config = Configuration { autostart: vec!["".to_string()], ..Default::default() };
    assert_eq!(
        auto_start(&config, &record),
        Err(AutoStartError::Parse(ParseError::Command("".to_string())))
    );
}
