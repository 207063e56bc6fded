use tem::gitprocessor::{repo_dir_name, target_directory, GitProcessor};
use tem::parsers::ProcessorArgs;
use tem::processor::{ProcessError, ProcessPlan, Processor};
use tem::value::ConfigValue;

fn text(s: &str) -> ConfigValue {
    ConfigValue::Str(s.to_string())
}

fn table(entries: Vec<(&str, ConfigValue)>) -> ConfigValue {
    ConfigValue::Table(entries.into_iter().map(|(k, v)| (k.to_string(), v)).collect())
}

fn request(template: &str, project: Option<&str>) -> ProcessorArgs {
    ProcessorArgs { template: template.to_string(), project: project.map(|p| p.to_string()) }
}

fn strings(v: &[&str]) -> Vec<String> {
    v.iter().map(|s| s.to_string()).collect()
}

fn plan_of(config: &ConfigValue, project: Option<&str>) -> Result<ProcessPlan, ProcessError> {
    GitProcessor.process(request("X", project), config)
}

#[test]
fn dir_name_strips_git_suffix() {
    assert_eq!(repo_dir_name("git@host:org/my-repo.git"), "my-repo");
}

#[test]
fn dir_name_without_suffix() {
    assert_eq!(repo_dir_name("https://host/org/my-repo"), "my-repo");
}

#[test]
fn dir_name_without_slash() {
    assert_eq!(repo_dir_name("my-repo.git"), "my-repo");
    assert_eq!(repo_dir_name("git@github.com:axbg/react-vite-starter"), "react-vite-starter");
}

#[test]
fn dir_name_strips_only_a_final_suffix() {
    assert_eq!(repo_dir_name("host/org/repo.gitx"), "repo.gitx");
    assert_eq!(repo_dir_name("host/org/repo.git.git"), "repo.git");
    assert_eq!(repo_dir_name("host/org/.git"), "");
    assert_eq!(repo_dir_name("host/org/"), "");
    assert_eq!(repo_dir_name(""), "");
}

#[test]
fn dir_name_of_non_ascii_source() {
    assert_eq!(repo_dir_name("host/équipe/dépôt.git"), "dépôt");
}

#[test]
fn project_overrides_destination() {
    let args = request("X", Some("custom"));
    assert_eq!(target_directory(&args, "git@host:org/my-repo.git"), "custom");
    let args = request("X", None);
    assert_eq!(target_directory(&args, "git@host:org/my-repo.git"), "my-repo");
}

#[test]
fn plan_clones_into_derived_directory() {
    let config = table(vec![("source", text("git@host:org/my-repo.git"))]);
    let plan = plan_of(&config, None).unwrap();
    assert_eq!(plan.command.program, "git");
    assert_eq!(plan.command.args, strings(&["clone", "git@host:org/my-repo.git", "my-repo"]));
    let cleanup = plan.cleanup.unwrap();
    assert_eq!(cleanup.program, "rm");
    assert_eq!(cleanup.args, strings(&["-r", "my-repo/.git"]));
}

#[test]
fn plan_passes_branch_before_source() {
    let config = table(vec![("source", text("git@host:org/my-repo.git")), ("branch", text("dev"))]);
    let plan = plan_of(&config, Some("custom")).unwrap();
    assert_eq!(
        plan.command.args,
        strings(&["clone", "-b", "dev", "git@host:org/my-repo.git", "custom"])
    );
    assert_eq!(plan.cleanup.unwrap().args, strings(&["-r", "custom/.git"]));
}

#[test]
fn plan_reads_positional_entry() {
    let config = ConfigValue::Array(vec![text("https://host/org/starter"), text("dev")]);
    let plan = plan_of(&config, None).unwrap();
    assert_eq!(plan.command.args, strings(&["clone", "-b", "dev", "https://host/org/starter", "starter"]));
    let config = ConfigValue::Array(vec![text("https://host/org/starter")]);
    let plan = plan_of(&config, None).unwrap();
    assert_eq!(plan.command.args, strings(&["clone", "https://host/org/starter", "starter"]));
}

#[test]
fn missing_source_is_refused() {
    let config = table(vec![("branch", text("dev"))]);
    assert_eq!(plan_of(&config, None), Err(ProcessError::MissingSource));
    assert_eq!(plan_of(&ConfigValue::Array(vec![]), None), Err(ProcessError::MissingSource));
    assert_eq!(plan_of(&text("git@host:org/a.git"), None), Err(ProcessError::MissingSource));
}

#[test]
fn source_must_be_text() {
    let config = table(vec![("source", ConfigValue::Other)]);
    assert_eq!(plan_of(&config, None), Err(ProcessError::SourceNotText));
}

#[test]
fn branch_must_be_text() {
    let config = table(vec![("source", text("h/o/r.git")), ("branch", ConfigValue::Array(vec![]))]);
    assert_eq!(plan_of(&config, None), Err(ProcessError::BranchNotText));
}

#[test]
fn git_processor_names_itself() {
    assert_eq!(GitProcessor.types(), "git");
    assert!(GitProcessor.help().contains("git processor usage"));
}
