//! The two descriptors: the project's own (`hmd.yml`: host, project, artifacts
//! and stages) and the operator's global one (a default host address).
use vstd::prelude::*;
use indexmap::IndexMap;
use crate::error::{HmdError, Malformed, parse_error_context, empty_project_error, no_stages_error};
use crate::stage_map::{entries_of, empty_stage_map, insert_stage, stage_count};

verus! {

/// File name of the project descriptor, in the project's directory.
pub const HMD_YML: &'static str = "hmd.yml";

/// Path of the global descriptor.
pub const HMD_CONFIG_YML: &'static str = "~/.hmd/config.yml";

/// A project descriptor. `stages` maps each stage name to its shell command,
/// in execution order.
pub struct HmdYml {
    pub ssh_address: String,
    pub project: String,
    pub artifacts: Vec<String>,
    pub stages: IndexMap<String, String>,
}

/// The global descriptor.
pub struct HmdConfigYml {
    pub ssh_address: String,
}

impl HmdConfigYml {
    pub fn new(ssh_address: String) -> (r: HmdConfigYml)
        ensures
            r.ssh_address == ssh_address,
    {
        HmdConfigYml { ssh_address }
    }
}

/// The stages that a new project starts with.
pub open spec fn default_stages() -> Seq<(Seq<char>, Seq<char>)> {
    seq![
        ("lint"@, "cargo clippy"@),
        ("test"@, "cargo test"@),
        ("build"@, "cargo build --release"@),
        ("run"@, "cargo run --release"@),
    ]
}

impl Default for HmdYml {
    /// A descriptor with no host, no project, no artifacts and the default
    /// stages.
    fn default() -> (r: HmdYml)
        ensures
            r.ssh_address@.len() == 0,
            r.project@.len() == 0,
            r.artifacts@.len() == 0,
            entries_of(r.stages) == default_stages(),
    {
        let mut stages = empty_stage_map();
        proof {
            reveal_strlit("lint");
            reveal_strlit("test");
            reveal_strlit("build");
            reveal_strlit("run");
        }
        let ghost e0 = entries_of(stages);
        insert_stage(&mut stages, String::from_str("lint"), String::from_str("cargo clippy"));
        let ghost e1 = entries_of(stages);
        assert(e1 == e0.push(("lint"@, "cargo clippy"@)));
        insert_stage(&mut stages, String::from_str("test"), String::from_str("cargo test"));
        let ghost e2 = entries_of(stages);
        assert("lint"@[0] != "test"@[0]);
        assert(e1[0].0 != "test"@);
        assert(e2 == e1.push(("test"@, "cargo test"@)));
        insert_stage(&mut stages, String::from_str("build"), String::from_str("cargo build --release"));
        let ghost e3 = entries_of(stages);
        assert("lint"@[0] != "build"@[0] && "test"@[0] != "build"@[0]);
        assert(e2[0].0 != "build"@ && e2[1].0 != "build"@);
        assert(e3 == e2.push(("build"@, "cargo build --release"@)));
        insert_stage(&mut stages, String::from_str("run"), String::from_str("cargo run --release"));
        let ghost e4 = entries_of(stages);
        assert("lint"@[0] != "run"@[0] && "test"@[0] != "run"@[0] && "build"@[0] != "run"@[0]);
        assert(e3[0].0 != "run"@ && e3[1].0 != "run"@ && e3[2].0 != "run"@);
        assert(e4 == e3.push(("run"@, "cargo run --release"@)));
        assert(e4 =~= default_stages());
        HmdYml {
            project: String::new(),
            ssh_address: String::new(),
            artifacts: Vec::new(),
            stages,
        }
    }
}

/// Accepts a parsed project descriptor only if it names a project and at
/// least one stage.
pub fn validate(hmd_yml: HmdYml) -> (r: Result<HmdYml, HmdError>)
    ensures
        hmd_yml.project@.len() == 0 ==> r == Err::<HmdYml, HmdError>(
            HmdError::DescriptorMalformed(Malformed::EmptyProject),
        ),
        hmd_yml.project@.len() > 0 && entries_of(hmd_yml.stages).len() == 0 ==> r == Err::<HmdYml, HmdError>(
            HmdError::DescriptorMalformed(Malformed::NoStages),
        ),
        hmd_yml.project@.len() > 0 && entries_of(hmd_yml.stages).len() > 0 ==> r == Ok::<HmdYml, HmdError>(hmd_yml),
{
    if hmd_yml.project.as_str().is_empty() {
        return Err(parse_error_context(empty_project_error()));
    }
    if stage_count(&hmd_yml.stages) == 0 {
        return Err(parse_error_context(no_stages_error()));
    }
    Ok(hmd_yml)
}

/// A project descriptor as read, once checked: one that names no project or
/// no stage is refused with the reason.
pub open spec fn checked(read: Result<HmdYml, HmdError>) -> Result<HmdYml, HmdError> {
    match read {
        Err(e) => Err(e),
        Ok(y) => if y.project@.len() == 0 {
            Err(HmdError::DescriptorMalformed(Malformed::EmptyProject))
        } else if entries_of(y.stages).len() == 0 {
            Err(HmdError::DescriptorMalformed(Malformed::NoStages))
        } else {
            Ok(y)
        },
    }
}

/// Checks a project descriptor as read; a read error is passed on.
pub fn check(read: Result<HmdYml, HmdError>) -> (r: Result<HmdYml, HmdError>)
    ensures
        r == checked(read),
{
    match read {
        Ok(y) => validate(y),
        Err(e) => Err(e),
    }
}

/// The project descriptor that `init` writes: the given project and host over
/// the current descriptor, or over the default one where there is none.
pub fn descriptor_for_init(current: Result<HmdYml, HmdError>, project: &str, ssh_address: &str) -> (r: HmdYml)
    ensures
        r.project@ == project@,
        r.ssh_address@ == ssh_address@,
        current is Ok ==> r.artifacts == current->Ok_0.artifacts && r.stages == current->Ok_0.stages,
        current is Err ==> r.artifacts@.len() == 0 && entries_of(r.stages) == default_stages(),
{
    let base = match current {
        Ok(yml) => yml,
        Err(_) => HmdYml::default(),
    };
    HmdYml {
        project: String::from_str(project),
        ssh_address: String::from_str(ssh_address),
        artifacts: base.artifacts,
        stages: base.stages,
    }
}

} // verus!
