use siu::progress::{Checkpoint, ProgressStore};
use siu::projects::{
    Action, ProjectConfiguration, RunTool, SetupError, StepConfiguration, YamlConfiguration,
};

fn note(text: &str) -> RunTool {
    RunTool::Note { note: text.to_string() }
}

fn project(name: &str, tools_per_step: &[usize]) -> ProjectConfiguration {
    let steps = tools_per_step
        .iter()
        .enumerate()
        .map(|(i, n)| StepConfiguration {
            description: format!("step {}", i),
            run: (0..*n).map(|t| note(&format!("tool {}", t))).collect(),
        })
        .collect();
    ProjectConfiguration {
        options: YamlConfiguration {
            name: name.to_string(),
            description: "test project".to_string(),
            steps,
        },
        path: Some(format!("/projects/{}.yaml", name)),
        url: None,
    }
}

fn ck(step: usize, tool: usize, tool_step: usize) -> Checkpoint {
    Checkpoint { step, tool, tool_step }
}

fn stored(store: &mut ProgressStore, cfg: &ProjectConfiguration) -> Checkpoint {
    let p = store.get_project(&cfg.options.name).expect("project is stored");
    store.get_project_progress(&p).checkpoint()
}

#[test]
fn fresh_project_progress_is_zero() {
    let mut store = ProgressStore::new();
    let p = store.get_or_create_project("dev", "/projects/dev.yaml");
    let progress = store.get_project_progress(&p);
    assert_eq!(progress.checkpoint(), ck(0, 0, 0));
    assert_eq!(progress.project_id, p.id);
}

#[test]
fn get_or_create_is_idempotent() {
    let mut store = ProgressStore::new();
    let a = store.get_or_create_project("dev", "/a.yaml");
    let b = store.get_or_create_project("dev", "/b.yaml");
    let c = store.get_or_create_project("other", "/c.yaml");
    assert_eq!(a.id, b.id);
    assert_eq!(b.path, "/a.yaml");
    assert_ne!(a.id, c.id);
    assert!(store.get_project("missing").is_none());
}

#[test]
fn update_overwrites_progress() {
    let mut store = ProgressStore::new();
    let p = store.get_or_create_project("dev", "/a.yaml");
    let r = store.update_project_progress(&p, 2, 1, 5);
    assert_eq!(r.checkpoint(), ck(2, 1, 5));
    assert_eq!(store.get_project_progress(&p).checkpoint(), ck(2, 1, 5));
}

#[test]
fn pause_then_resume_same_tool_with_next_sub_step() {
    let cfg = project("p", &[2, 1]);
    let mut store = ProgressStore::new();
    let (proj, first) = cfg.setup(&mut store);
    assert_eq!(first.unwrap(), Action::Install(ck(0, 0, 0)));
    let a = cfg.record_install(&mut store, &proj, ck(0, 0, 0), Ok(false)).unwrap();
    assert_eq!(a, Action::Install(ck(0, 1, 0)));
    let b = cfg.record_install(&mut store, &proj, ck(0, 1, 0), Ok(true)).unwrap();
    assert_eq!(b, Action::Paused(ck(0, 1, 1)));
    assert_eq!(stored(&mut store, &cfg), ck(0, 1, 1));
    let (_, again) = cfg.setup(&mut store);
    assert_eq!(again.unwrap(), Action::Install(ck(0, 1, 1)));
}

#[test]
fn completed_step_moves_to_next_step() {
    let cfg = project("p", &[2, 1, 1]);
    let mut store = ProgressStore::new();
    let (proj, first) = cfg.setup(&mut store);
    assert_eq!(first.unwrap(), Action::Install(ck(0, 0, 0)));
    cfg.record_install(&mut store, &proj, ck(0, 0, 0), Ok(false)).unwrap();
    let next = cfg.record_install(&mut store, &proj, ck(0, 1, 0), Ok(false)).unwrap();
    assert_eq!(next, Action::Install(ck(1, 0, 0)));
    assert_eq!(stored(&mut store, &cfg), ck(1, 0, 0));
}

#[test]
fn completing_last_step_resets_progress() {
    let cfg = project("p", &[1, 2]);
    let mut store = ProgressStore::new();
    let proj = store.get_or_create_project("p", "/projects/p.yaml");
    store.update_project_progress(&proj, 1, 1, 4);
    let (_, a) = cfg.setup(&mut store);
    assert_eq!(a.unwrap(), Action::Install(ck(1, 1, 4)));
    let done = cfg.record_install(&mut store, &proj, ck(1, 1, 4), Ok(false)).unwrap();
    assert_eq!(done, Action::Finished);
    assert_eq!(stored(&mut store, &cfg), ck(0, 0, 0));
}

#[test]
fn reset_yields_zero_from_any_state() {
    let cfg = project("p", &[3, 3]);
    let mut store = ProgressStore::new();
    let proj = store.get_or_create_project("p", "/projects/p.yaml");
    store.update_project_progress(&proj, 1, 2, 7);
    assert!(cfg.reset(&mut store).is_ok());
    assert_eq!(stored(&mut store, &cfg), ck(0, 0, 0));
    assert!(cfg.reset(&mut store).is_ok());
    assert_eq!(stored(&mut store, &cfg), ck(0, 0, 0));
}

#[test]
fn reset_of_unknown_project_is_not_found() {
    let cfg = project("ghost", &[1]);
    let mut store = ProgressStore::new();
    store.get_or_create_project("other", "/o.yaml");
    match cfg.reset(&mut store) {
        Err(SetupError::ProjectNotFound { name }) => assert_eq!(name, "ghost"),
        other => panic!("unexpected {:?}", other),
    }
    assert!(store.get_project("ghost").is_none());
}

#[test]
fn rerun_after_completion_starts_from_beginning() {
    let cfg = project("p", &[1]);
    let mut store = ProgressStore::new();
    let (proj, a) = cfg.setup(&mut store);
    assert_eq!(a.unwrap(), Action::Install(ck(0, 0, 0)));
    let done = cfg.record_install(&mut store, &proj, ck(0, 0, 0), Ok(false)).unwrap();
    assert_eq!(done, Action::Finished);
    let (_, again) = cfg.setup(&mut store);
    assert_eq!(again.unwrap(), Action::Install(ck(0, 0, 0)));
}

#[test]
fn stored_position_past_the_end_finishes_and_resets() {
    let cfg = project("p", &[1, 1]);
    let mut store = ProgressStore::new();
    let proj = store.get_or_create_project("p", "/projects/p.yaml");
    store.update_project_progress(&proj, 2, 0, 0);
    let (_, a) = cfg.setup(&mut store);
    assert_eq!(a.unwrap(), Action::Finished);
    assert_eq!(stored(&mut store, &cfg), ck(0, 0, 0));
}

#[test]
fn rerun_after_interrupted_step_transition_resumes_at_next_step() {
    let cfg = project("p", &[2, 1]);
    let mut store = ProgressStore::new();
    let proj = store.get_or_create_project("p", "/projects/p.yaml");
    store.update_project_progress(&proj, 1, 0, 0);
    let (_, a) = cfg.setup(&mut store);
    assert_eq!(a.unwrap(), Action::Install(ck(1, 0, 0)));
}

#[test]
fn scenario_pause_with_sub_step_then_finish() {
    // Steps [[A, B], [C]].
    let cfg = project("scenario", &[2, 1]);
    let mut store = ProgressStore::new();
    let (proj, a) = cfg.setup(&mut store);
    assert_eq!(a.unwrap(), Action::Install(ck(0, 0, 0)));
    // A completes; B is invoked at sub-step 0 and pauses.
    let b = cfg.record_install(&mut store, &proj, ck(0, 0, 0), Ok(false)).unwrap();
    assert_eq!(b, Action::Install(ck(0, 1, 0)));
    assert_eq!(
        cfg.record_install(&mut store, &proj, ck(0, 1, 0), Ok(true)).unwrap(),
        Action::Paused(ck(0, 1, 1))
    );
    // Two more runs in which B pauses again bring it to sub-step 2, then 3.
    let (_, b1) = cfg.setup(&mut store);
    assert_eq!(b1.unwrap(), Action::Install(ck(0, 1, 1)));
    cfg.record_install(&mut store, &proj, ck(0, 1, 1), Ok(true)).unwrap();
    let (_, b2) = cfg.setup(&mut store);
    assert_eq!(b2.unwrap(), Action::Install(ck(0, 1, 2)));
    assert_eq!(
        cfg.record_install(&mut store, &proj, ck(0, 1, 2), Ok(true)).unwrap(),
        Action::Paused(ck(0, 1, 3))
    );
    assert_eq!(stored(&mut store, &cfg), ck(0, 1, 3));
    // The next run invokes B with sub-step 3; B completes; C runs.
    let (_, b3) = cfg.setup(&mut store);
    assert_eq!(b3.unwrap(), Action::Install(ck(0, 1, 3)));
    let c = cfg.record_install(&mut store, &proj, ck(0, 1, 3), Ok(false)).unwrap();
    assert_eq!(c, Action::Install(ck(1, 0, 0)));
    assert_eq!(stored(&mut store, &cfg), ck(1, 0, 0));
    let done = cfg.record_install(&mut store, &proj, ck(1, 0, 0), Ok(false)).unwrap();
    assert_eq!(done, Action::Finished);
    assert_eq!(stored(&mut store, &cfg), ck(0, 0, 0));
}

#[test]
fn scenario_tool_error_keeps_last_checkpoint() {
    let cfg = project("scenario", &[2, 1]);
    let mut store = ProgressStore::new();
    let (proj, _) = cfg.setup(&mut store);
    cfg.record_install(&mut store, &proj, ck(0, 0, 0), Ok(false)).unwrap();
    let failed = cfg.record_install(&mut store, &proj, ck(0, 1, 0), Err("brew failed".to_string()));
    match failed {
        Err(SetupError::ToolInstall { step, tool, message }) => {
            assert_eq!((step, tool), (0, 1));
            assert_eq!(message, "brew failed");
        }
        other => panic!("unexpected {:?}", other),
    }
    assert_eq!(stored(&mut store, &cfg), ck(0, 1, 0));
    let (_, retry) = cfg.setup(&mut store);
    assert_eq!(retry.unwrap(), Action::Install(ck(0, 1, 0)));
}

#[test]
fn empty_steps_are_passed_over() {
    let cfg = project("p", &[0, 0, 1]);
    let mut store = ProgressStore::new();
    let (_, a) = cfg.setup(&mut store);
    assert_eq!(a.unwrap(), Action::Install(ck(2, 0, 0)));
    assert_eq!(stored(&mut store, &cfg), ck(2, 0, 0));
}

#[test]
fn all_steps_empty_finishes_at_once() {
    let cfg = project("p", &[0, 0]);
    let mut store = ProgressStore::new();
    let (_, a) = cfg.setup(&mut store);
    assert_eq!(a.unwrap(), Action::Finished);
    assert_eq!(stored(&mut store, &cfg), ck(0, 0, 0));
}

#[test]
fn tool_index_beyond_step_is_configuration_mismatch() {
    let cfg = project("p", &[2, 1]);
    let mut store = ProgressStore::new();
    let proj = store.get_or_create_project("p", "/projects/p.yaml");
    store.update_project_progress(&proj, 0, 5, 1);
    let (_, a) = cfg.setup(&mut store);
    match a {
        Err(SetupError::ConfigurationMismatch { step, tool }) => assert_eq!((step, tool), (0, 5)),
        other => panic!("unexpected {:?}", other),
    }
    assert_eq!(stored(&mut store, &cfg), ck(0, 5, 1));
}

#[test]
fn project_origin_prefers_path_then_url() {
    let mut cfg = project("p", &[1]);
    cfg.path = None;
    cfg.url = Some("https://example.com/p.yaml".to_string());
    let mut store = ProgressStore::new();
    let (proj, progress) = cfg.get_project_progress(&mut store);
    assert_eq!(proj.path, "https://example.com/p.yaml");
    assert_eq!(progress.checkpoint(), ck(0, 0, 0));
}
