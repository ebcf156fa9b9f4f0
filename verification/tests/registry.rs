use cargo_service::controller::ServiceError;
use cargo_service::registry::Registry;
use cargo_service::service::Service;
use cargo_service::store::{load_services, Stored};

fn entry(path: &str, pid: Option<u32>) -> Service {
    Service { binary_path: path.to_string(), pid }
}

#[test]
fn from_str_takes_argument_as_path_without_pid() {
    assert_eq!(Service::from_str("/usr/bin/true"), Ok(entry("/usr/bin/true", None)));
    assert_eq!(Service::from_str(""), Ok(entry("", None)));
    assert_eq!(Service::from_str("relative/path with space"), Ok(entry("relative/path with space", None)));
}

#[test]
fn new_registry_is_empty() {
    let registry = Registry::new();
    assert_eq!(registry.records.len(), 0);
    assert!(registry.records.is_empty());
}

#[test]
fn position_finds_first_match() {
    let registry = Registry {
        records: vec![entry("/a", Some(1)), entry("/b", Some(2)), entry("/a", Some(3))],
    };
    assert_eq!(registry.position(&"/a".to_string()), Some(0));
    assert_eq!(registry.position(&"/b".to_string()), Some(1));
    assert_eq!(registry.position(&"/c".to_string()), None);
    assert_eq!(Registry::new().position(&"/a".to_string()), None);
}

#[test]
fn contains_tells_known_paths() {
    let registry = Registry { records: vec![entry("/a", Some(1)), entry("/b", None)] };
    assert!(registry.contains(&"/a".to_string()));
    assert!(registry.contains(&"/b".to_string()));
    assert!(!registry.contains(&"/".to_string()));
    assert!(!registry.contains(&"".to_string()));
    assert_eq!(registry.records.len(), 2);
}

#[test]
fn missing_file_is_empty_registry() {
    assert_eq!(load_services(Stored::Missing), Ok(Registry::new()));
}

#[test]
fn unreadable_file_is_storage_failure() {
    assert_eq!(load_services(Stored::Unreadable), Err(ServiceError::StorageFailure));
}

#[test]
fn readable_file_is_taken_in_order() {
    let records = vec![entry("/b", Some(2)), entry("/a", None), entry("/c", Some(u32::MAX))];
    assert_eq!(
        load_services(Stored::Records(records.clone())),
        Ok(Registry { records })
    );
    assert_eq!(load_services(Stored::Records(vec![])), Ok(Registry::new()));
}
