use tem::config::{ConfigError, ConfigStore};
use tem::dispatch::{execute_processor, find_section, DispatchError};
use tem::gitprocessor::GitProcessor;
use tem::loader::load_processors;
use tem::parsers::ProcessorArgs;
use tem::processor::{ProcessError, Processor};
use tem::value::ConfigValue;

fn text(s: &str) -> ConfigValue {
    ConfigValue::Str(s.to_string())
}

fn table(entries: Vec<(&str, ConfigValue)>) -> ConfigValue {
    ConfigValue::Table(entries.into_iter().map(|(k, v)| (k.to_string(), v)).collect())
}

fn store(sections: Vec<(&str, ConfigValue)>) -> ConfigStore {
    ConfigStore { sections: sections.into_iter().map(|(k, v)| (k.to_string(), v)).collect() }
}

fn request(template: &str) -> ProcessorArgs {
    ProcessorArgs { template: template.to_string(), project: None }
}

fn entry() -> ConfigValue {
    table(vec![("source", text("git@host:org/my-repo.git"))])
}

#[test]
fn matching_template_goes_to_its_processor() {
    let configs = store(vec![("git", table(vec![("X", entry())]))]);
    let r = execute_processor(&load_processors(), &configs, request("X"));
    assert_eq!(r, Ok(GitProcessor.process(request("X"), &entry()).unwrap()));
}

#[test]
fn missing_template_is_not_found() {
    let configs = store(vec![("git", table(vec![("X", entry())]))]);
    let r = execute_processor(&load_processors(), &configs, request("missing"));
    assert_eq!(r, Err(DispatchError::NotFound("missing".to_string())));
}

#[test]
fn unregistered_section_is_skipped() {
    let configs = store(vec![("svn", table(vec![("X", entry())]))]);
    let r = execute_processor(&load_processors(), &configs, request("X"));
    assert_eq!(r, Err(DispatchError::NotFound("X".to_string())));
}

#[test]
fn section_that_is_no_table_is_skipped() {
    let configs = store(vec![("git", text("X")), ("other", table(vec![("X", entry())]))]);
    assert_eq!(find_section(&load_processors(), &configs, &"X".to_string()), None);
}

#[test]
fn first_matching_section_wins() {
    let configs = store(vec![
        ("svn", table(vec![("X", entry())])),
        ("git", table(vec![("Y", entry())])),
        ("git", table(vec![("X", entry())])),
        ("git", table(vec![("X", table(vec![]))])),
    ]);
    assert_eq!(find_section(&load_processors(), &configs, &"X".to_string()), Some(2));
    assert!(execute_processor(&load_processors(), &configs, request("X")).is_ok());
}

#[test]
fn refused_entry_is_passed_on() {
    let configs = store(vec![("git", table(vec![("X", table(vec![("branch", text("dev"))]))]))]);
    let r = execute_processor(&load_processors(), &configs, request("X"));
    assert_eq!(r, Err(DispatchError::Invalid(ProcessError::MissingSource)));
}

#[test]
fn empty_configuration_is_refused() {
    assert!(matches!(ConfigStore::from_sections(vec![]), Err(ConfigError::Empty)));
    let c = ConfigStore::from_sections(vec![("git".to_string(), table(vec![]))]).unwrap();
    assert_eq!(c.sections.len(), 1);
}
