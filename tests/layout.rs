use hmd::layout::{Env, HMD_ROOT};

#[test]
fn layout_of_demo_under_default_root() {
    let env = Env::under_root("~/.hmd", "demo", "me@host");
    assert_eq!(env.project_dir, "~/.hmd/demo");
    assert_eq!(env.git_dir, "~/.hmd/demo/git");
    assert_eq!(env.work_tree, "~/.hmd/demo/work-tree");
    assert_eq!(env.pipeline_pid(), "~/.hmd/demo/work-tree/pipeline.pid");
    assert_eq!(env.out_log(), "~/.hmd/demo/work-tree/out.log");
    assert_eq!(env.status_log(), "~/.hmd/demo/work-tree/status.log");
    assert_eq!(env.project, "demo");
    assert_eq!(env.ssh_address, "me@host");
}

#[test]
fn layout_is_stable_across_calls() {
    let a = Env::new("demo", "me@host");
    let b = Env::new("demo", "me@host");
    assert_eq!(HMD_ROOT, "~/.hmd");
    assert_eq!(a.git_dir, b.git_dir);
    assert_eq!(a.work_tree, b.work_tree);
    assert_eq!(a.pipeline_pid(), b.pipeline_pid());
    assert_eq!(a.git_dir, "~/.hmd/demo/git");
}

#[test]
fn projects_under_one_root_do_not_collide() {
    let a = Env::new("one", "h");
    let b = Env::new("two", "h");
    assert_ne!(a.project_dir, b.project_dir);
    assert_ne!(a.pipeline_pid(), b.pipeline_pid());
}

#[test]
fn layout_under_other_root() {
    let env = Env::under_root("/srv/deploy", "api", "h");
    assert_eq!(env.git_dir, "/srv/deploy/api/git");
    assert_eq!(env.work_tree, "/srv/deploy/api/work-tree");
}
