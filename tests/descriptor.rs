use hmd::descriptor::{descriptor_for_init, validate, HmdConfigYml, HmdYml, HMD_CONFIG_YML, HMD_YML};
use hmd::error::{
    empty_project_error, no_stages_error, not_found_context, other_err, parse_error_context, HmdError, Malformed,
};
use indexmap::IndexMap;

fn yml(project: &str, stages: &[(&str, &str)]) -> HmdYml {
    let mut m = IndexMap::new();
    for (k, v) in stages {
        m.insert(k.to_string(), v.to_string());
    }
    HmdYml { ssh_address: "me@host".to_string(), project: project.to_string(), artifacts: vec![], stages: m }
}

#[test]
fn default_descriptor_has_four_stages() {
    let d = HmdYml::default();
    assert_eq!(d.project, "");
    assert_eq!(d.ssh_address, "");
    assert!(d.artifacts.is_empty());
    let stages: Vec<(String, String)> = d.stages.iter().map(|(k, v)| (k.clone(), v.clone())).collect();
    assert_eq!(
        stages,
        vec![
            ("lint".to_string(), "cargo clippy".to_string()),
            ("test".to_string(), "cargo test".to_string()),
            ("build".to_string(), "cargo build --release".to_string()),
            ("run".to_string(), "cargo run --release".to_string()),
        ]
    );
}

#[test]
fn validate_accepts_complete_descriptor() {
    let r = validate(yml("demo", &[("build", "make")]));
    assert_eq!(r.unwrap().project, "demo");
}

#[test]
fn validate_rejects_empty_project() {
    let r = validate(yml("", &[("build", "make")]));
    assert_eq!(r.err(), Some(HmdError::DescriptorMalformed(Malformed::EmptyProject)));
}

#[test]
fn validate_rejects_no_stages() {
    let r = validate(yml("demo", &[]));
    assert_eq!(r.err(), Some(HmdError::DescriptorMalformed(Malformed::NoStages)));
}

#[test]
fn init_descriptor_keeps_stages() {
    let d = descriptor_for_init(Ok(yml("old", &[("build", "make")])), "new", "other@host");
    assert_eq!(d.project, "new");
    assert_eq!(d.ssh_address, "other@host");
    assert_eq!(d.stages.len(), 1);
    let fresh = descriptor_for_init(Err(HmdError::MissingProject), "new", "h");
    assert_eq!(fresh.stages.len(), 4);
    assert_eq!(fresh.project, "new");
}

#[test]
fn config_holds_address() {
    assert_eq!(HmdConfigYml::new("me@host".to_string()).ssh_address, "me@host");
    assert_eq!(HMD_YML, "hmd.yml");
    assert_eq!(HMD_CONFIG_YML, "~/.hmd/config.yml");
}

#[test]
fn error_messages() {
    assert_eq!(HmdError::MissingProject.message(), "Project not provided");
    assert_eq!(HmdError::MissingAddress.message(), "SSH address not provided");
    assert_eq!(
        not_found_context(true, "os error 2".to_string()).message(),
        "No hmd.yml file. Try `hmd init`: os error 2"
    );
    assert_eq!(not_found_context(false, "denied".to_string()), HmdError::Other("denied".to_string()));
    assert_eq!(
        parse_error_context(empty_project_error()).message(),
        "Can't read hmd.yml file. Invalid format. Try `hmd init` to overwrite: Field `project` in hmd.yml can't be empty"
    );
    assert_eq!(
        parse_error_context(no_stages_error()).message(),
        "Can't read hmd.yml file. Invalid format. Try `hmd init` to overwrite: No stages in hmd.yml"
    );
    assert_eq!(
        parse_error_context(Malformed::Syntax("bad".to_string())).message(),
        "Can't read hmd.yml file. Invalid format. Try `hmd init` to overwrite: bad"
    );
    assert_eq!(HmdError::CommandFailed("exit status: 1".to_string()).message(), "Process terminated with exit status: 1");
    assert_eq!(other_err("boom"), HmdError::Other("boom".to_string()));
    let e = HmdError::DescriptorNotFound("x".to_string());
    assert_eq!(e.duplicate(), e);
}
