//! Which project and which host an action works on: the first value given by
//! an ordered list of providers (an explicit option, the project descriptor,
//! the global descriptor or the working directory).
use vstd::prelude::*;
use crate::descriptor::{HmdYml, HmdConfigYml};
use crate::error::HmdError;

verus! {

/// The first value that a provider gives, in order.
pub open spec fn first_given(candidates: Seq<Option<Seq<char>>>) -> Option<Seq<char>>
    decreases candidates.len(),
{
    if candidates.len() == 0 {
        None
    } else if candidates[0] is Some {
        candidates[0]
    } else {
        first_given(candidates.drop_first())
    }
}

pub open spec fn string_view(o: Option<String>) -> Option<Seq<char>> {
    match o {
        Some(s) => Some(s@),
        None => None,
    }
}

/// The project that a loaded project descriptor names.
pub open spec fn descriptor_project(local: Result<HmdYml, HmdError>) -> Option<Seq<char>> {
    match local {
        Ok(yml) => Some(yml.project@),
        Err(_) => None,
    }
}

/// The host that a loaded project descriptor names.
pub open spec fn descriptor_address(local: Result<HmdYml, HmdError>) -> Option<Seq<char>> {
    match local {
        Ok(yml) => Some(yml.ssh_address@),
        Err(_) => None,
    }
}

/// The host that a loaded global descriptor names.
pub open spec fn config_address(global: Result<HmdConfigYml, HmdError>) -> Option<Seq<char>> {
    match global {
        Ok(cfg) => Some(cfg.ssh_address@),
        Err(_) => None,
    }
}

pub open spec fn given_dir(dir: Result<String, HmdError>) -> Option<Seq<char>> {
    match dir {
        Ok(d) => Some(d@),
        Err(_) => None,
    }
}

/// `Ok` with the value found, or `err` where no provider gives one.
pub open spec fn found_or(found: Option<Seq<char>>, r: Result<String, HmdError>, err: HmdError) -> bool {
    match found {
        Some(v) => r matches Ok(s) && s@ == v,
        None => r == Err::<String, HmdError>(err),
    }
}

/// Takes the first value given, in order.
pub fn first_provided(candidates: Vec<Option<String>>) -> (r: Option<String>)
    ensures
        string_view(r) == first_given(candidates@.map_values(|c: Option<String>| string_view(c))),
{
    let ghost all = candidates@.map_values(|c: Option<String>| string_view(c));
    let mut i: usize = 0;
    let n = candidates.len();
    assert(all.subrange(0, n as int) =~= all);
    while i < n
        invariant
            n == candidates@.len(),
            all == candidates@.map_values(|c: Option<String>| string_view(c)),
            i <= n,
            first_given(all) == first_given(all.subrange(i as int, n as int)),
        decreases n - i,
    {
        let ghost rest = all.subrange(i as int, n as int);
        assert(rest[0] == string_view(candidates@[i as int]));
        if candidates[i].is_some() {
            return candidates[i].clone();
        }
        assert(rest.drop_first() =~= all.subrange(i + 1, n as int));
        i = i + 1;
    }
    assert(all.subrange(n as int, n as int).len() == 0);
    None
}

fn project_of(local: &Result<HmdYml, HmdError>) -> (r: Option<String>)
    ensures
        string_view(r) == descriptor_project(*local),
{
    match local {
        Ok(yml) => Some(yml.project.clone()),
        Err(_) => None,
    }
}

fn address_of(local: &Result<HmdYml, HmdError>) -> (r: Option<String>)
    ensures
        string_view(r) == descriptor_address(*local),
{
    match local {
        Ok(yml) => Some(yml.ssh_address.clone()),
        Err(_) => None,
    }
}

/// The project of an action: the explicit option, else the one that the
/// project descriptor names.
pub fn get_project(project: Option<String>, local: &Result<HmdYml, HmdError>) -> (r: Result<String, HmdError>)
    ensures
        found_or(first_given(seq![string_view(project), descriptor_project(*local)]), r, HmdError::MissingProject),
{
    let ghost p = string_view(project);
    let candidates = vec![project, project_of(local)];
    let found = first_provided(candidates);
    proof {
        let s = candidates@.map_values(|c: Option<String>| string_view(c));
        assert(s =~= seq![p, descriptor_project(*local)]);
    }
    match found {
        Some(v) => Ok(v),
        None => Err(HmdError::MissingProject),
    }
}

/// The project of `init`: the explicit option, else the one that the project
/// descriptor names, else the name of the working directory.
pub fn get_init_project(
    project: Option<String>,
    local: &Result<HmdYml, HmdError>,
    current_dir: Result<String, HmdError>,
) -> (r: Result<String, HmdError>)
    ensures
        found_or(
            first_given(seq![string_view(project), descriptor_project(*local), given_dir(current_dir)]),
            r,
            HmdError::MissingProject,
        ),
{
    let ghost p = string_view(project);
    let ghost d = given_dir(current_dir);
    let dir = match current_dir {
        Ok(d) => Some(d),
        Err(_) => None,
    };
    let candidates = vec![project, project_of(local), dir];
    let found = first_provided(candidates);
    proof {
        let s = candidates@.map_values(|c: Option<String>| string_view(c));
        assert(s =~= seq![p, descriptor_project(*local), d]);
    }
    match found {
        Some(v) => Ok(v),
        None => Err(HmdError::MissingProject),
    }
}

/// The host of an action: the explicit option, else the one that the project
/// descriptor names, else the one that the global descriptor names.
pub fn get_ssh_address(
    ssh_address: Option<String>,
    local: &Result<HmdYml, HmdError>,
    global: &Result<HmdConfigYml, HmdError>,
) -> (r: Result<String, HmdError>)
    ensures
        found_or(
            first_given(seq![string_view(ssh_address), descriptor_address(*local), config_address(*global)]),
            r,
            HmdError::MissingAddress,
        ),
{
    let ghost a = string_view(ssh_address);
    let from_config = match global {
        Ok(cfg) => Some(cfg.ssh_address.clone()),
        Err(_) => None,
    };
    let candidates = vec![ssh_address, address_of(local), from_config];
    let found = first_provided(candidates);
    proof {
        let s = candidates@.map_values(|c: Option<String>| string_view(c));
        assert(s =~= seq![a, descriptor_address(*local), config_address(*global)]);
    }
    match found {
        Some(v) => Ok(v),
        None => Err(HmdError::MissingAddress),
    }
}

} // verus!
