use hmd::descriptor::{HmdConfigYml, HmdYml};
use hmd::error::HmdError;
use hmd::resolve::{first_provided, get_init_project, get_project, get_ssh_address};
use indexmap::IndexMap;

fn descriptor(project: &str, address: &str) -> Result<HmdYml, HmdError> {
    let mut stages = IndexMap::new();
    stages.insert("build".to_string(), "make".to_string());
    Ok(HmdYml { ssh_address: address.to_string(), project: project.to_string(), artifacts: vec![], stages })
}

fn absent() -> Result<HmdYml, HmdError> {
    Err(HmdError::DescriptorNotFound("missing".to_string()))
}

#[test]
fn project_from_descriptor() {
    assert_eq!(get_project(None, &descriptor("foo", "h")), Ok("foo".to_string()));
}

#[test]
fn project_override_wins() {
    assert_eq!(get_project(Some("bar".to_string()), &descriptor("foo", "h")), Ok("bar".to_string()));
}

#[test]
fn project_missing_without_override_or_descriptor() {
    assert_eq!(get_project(None, &absent()), Err(HmdError::MissingProject));
}

#[test]
fn init_falls_back_to_working_directory() {
    assert_eq!(get_init_project(None, &absent(), Ok("cwd".to_string())), Ok("cwd".to_string()));
    assert_eq!(
        get_init_project(None, &descriptor("foo", "h"), Ok("cwd".to_string())),
        Ok("foo".to_string())
    );
    assert_eq!(
        get_init_project(None, &absent(), Err(HmdError::Other("no dir".to_string()))),
        Err(HmdError::MissingProject)
    );
}

#[test]
fn address_precedence() {
    let global = Ok(HmdConfigYml::new("global".to_string()));
    assert_eq!(get_ssh_address(Some("opt".to_string()), &descriptor("p", "local"), &global), Ok("opt".to_string()));
    assert_eq!(get_ssh_address(None, &descriptor("p", "local"), &global), Ok("local".to_string()));
    assert_eq!(get_ssh_address(None, &absent(), &global), Ok("global".to_string()));
    assert_eq!(
        get_ssh_address(None, &absent(), &Err(HmdError::Other("none".to_string()))),
        Err(HmdError::MissingAddress)
    );
}

#[test]
fn first_provided_takes_first_given() {
    assert_eq!(first_provided(vec![None, Some("a".to_string()), Some("b".to_string())]), Some("a".to_string()));
    assert_eq!(first_provided(vec![None, None]), None);
    assert_eq!(first_provided(vec![]), None);
}
