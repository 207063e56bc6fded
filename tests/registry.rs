use tem::gitprocessor::GitProcessor;
use tem::loader::{load_processors, ProcessorKind, Registry, RegistryError};
use tem::processor::Processor;

#[test]
fn registry_holds_git() {
    let reg = load_processors();
    assert_eq!(reg.type_names(), vec!["git".to_string()]);
    assert!(reg.contains(&"git".to_string()));
    assert!(!reg.contains(&"svn".to_string()));
    let p = reg.lookup(&"git".to_string()).unwrap();
    assert_eq!(p.types(), "git");
    assert!(reg.lookup(&"svn".to_string()).is_none());
}

#[test]
fn duplicate_name_is_refused() {
    let mut reg = Registry::new();
    assert_eq!(reg.register(ProcessorKind::Git(GitProcessor)), Ok(()));
    assert_eq!(
        reg.register(ProcessorKind::Git(GitProcessor)),
        Err(RegistryError::Duplicate("git".to_string()))
    );
    assert_eq!(reg.type_names(), vec!["git".to_string()]);
}

#[test]
fn help_by_name() {
    let reg = load_processors();
    assert_eq!(reg.help_for(&"git".to_string()), Some(GitProcessor.help()));
    assert_eq!(reg.help_for(&"svn".to_string()), None);
}
