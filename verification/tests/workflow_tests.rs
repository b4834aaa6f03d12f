use aiagents::aiagentloop::AIAgentLoop;
use aiagents::runtimetools::buildresult::Buildresult;
use aiagents::utils::stringutils::raw_fence_to_string;
use aiagents::workflows::build_workflow::BuildWorkflow;
use aiagents::workflows::buildsystem::Buildsystem;
use aiagents::workflows::runbuild::RunBuildResult;
use aiagents::workflows::setupbuild::SetupBuildWorkflow;
use aiagents::workflows::workflow::{build_steps, run_cmd, ProcessEnv, WorkflowResult};
use std::cell::RefCell;

fn strings(v: &[&str]) -> Vec<String> {
    v.iter().map(|s| s.to_string()).collect()
}

fn env() -> ProcessEnv {
    ProcessEnv { current_dir: Some("/p".to_string()), rustflags: None }
}

#[test]
fn build_result_report() {
    let b = Buildresult::new(2, "/p".to_string(), "/p".to_string(), strings(&["e1", "e2", "e3"]));
    assert!(b.has_error());
    assert!(!b.is_dummy());
    assert_eq!(b.to_string(), "result: 2  => has_error\nin:  /p\nout: /p\ne1\ne2\ne3\n");
    let l = b.limit_lines(2);
    assert_eq!(l.output, strings(&["e1", "e2"]));
    assert_eq!(b.limit_lines(10).output.len(), 3);
    let ok = Buildresult::new_no_build();
    assert!(!ok.has_error());
    assert!(ok.is_dummy());
    assert_eq!(ok.to_string(), "result: 0  => valid \nin:  \nout: \n\n");
    assert!(Buildresult::new_need_build().has_error());
}

#[test]
fn run_cmd_collects_output() {
    let spawn = |c: &Vec<String>, d: &Option<String>, f: &Option<String>| {
        assert_eq!(c, &strings(&["make"]));
        assert_eq!(d.as_deref(), Some("/w"));
        assert_eq!(f.as_deref(), Some("--remap-path-prefix src=/p/src -Dwarnings"));
        (1, strings(&["out"]), strings(&["err"]))
    };
    let b = run_cmd("/w", &strings(&["make"]), &env(), &spawn);
    assert_eq!(b.result, 1);
    assert_eq!(b.projectpath, "/w");
    assert_eq!(b.output, strings(&["out", "err"]));
    let none = run_cmd("/w", &vec![], &env(), &spawn);
    assert_eq!(none.result, 0);
    assert!(none.output.is_empty());
}

#[test]
fn build_steps_stop_at_first_failure() {
    let calls = RefCell::new(Vec::new());
    let spawn = |c: &Vec<String>, _: &Option<String>, _: &Option<String>| {
        calls.borrow_mut().push(c[1].clone());
        if c[1] == "clippy" {
            (101, vec![], strings(&["lint error"]))
        } else {
            (0, vec![], vec![])
        }
    };
    let bc = Buildsystem::Cargo.build_cmd("/p", "/t", None);
    let r = build_steps("/p", &bc, &env(), &spawn);
    assert_eq!(r.result, 101);
    assert_eq!(r.output, strings(&["lint error"]));
    assert_eq!(*calls.borrow(), strings(&["build", "clippy"]));
}

#[test]
fn build_workflow_reports_no_build_needed() {
    let spawn = |_: &Vec<String>, _: &Option<String>, _: &Option<String>| (1, vec![], vec![]);
    let w = BuildWorkflow::new(Buildsystem::Cargo, "/p", "/t", None);
    let r = w.execute(&env(), &spawn);
    assert_eq!(r.result, 0);
}

#[test]
fn setup_build_runs_the_setup_command() {
    let seen = RefCell::new(Vec::new());
    let run = |c: &Vec<String>, d: &str| {
        seen.borrow_mut().push((c.clone(), d.to_string()));
        false
    };
    let w = SetupBuildWorkflow::new(Buildsystem::Meson, "/p", "b");
    assert_eq!(w.execute(Some("/cwd"), &run), RunBuildResult::Succeeded);
    assert_eq!(*seen.borrow(), vec![(strings(&["meson", "setup", "/cwd/b"]), "/p".to_string())]);
    let cargo = SetupBuildWorkflow::new(Buildsystem::Cargo, "/p", "b");
    cargo.execute(None, &run);
    assert_eq!(seen.borrow().len(), 1);
}

#[test]
fn agent_loop_stops_after_two_successes_in_a_row() {
    let outcomes = RefCell::new(vec![false, true, true, true].into_iter());
    let execute = || {
        if outcomes.borrow_mut().next().unwrap() {
            WorkflowResult::Succeeded
        } else {
            WorkflowResult::Error("x".to_string())
        }
    };
    let agent = AIAgentLoop::new(10, "/p".to_string(), None, false);
    let r = agent.run(&execute);
    assert_eq!(r.len(), 3);
}

#[test]
fn agent_loop_first_success_ends_it() {
    let count = RefCell::new(0);
    let execute = || {
        *count.borrow_mut() += 1;
        WorkflowResult::Succeeded
    };
    let agent = AIAgentLoop::new(10, "/p".to_string(), None, false);
    assert_eq!(agent.run(&execute).len(), 1);
    let never = || WorkflowResult::Error("x".to_string());
    assert_eq!(AIAgentLoop::new(4, "/p".to_string(), None, false).run(&never).len(), 4);
    assert_eq!(AIAgentLoop::new(0, "/p".to_string(), None, false).run(&never).len(), 0);
}

#[test]
fn raw_fence_twice_is_once() {
    let input = "{\"a\":RAW_TEXT_BEGIN>>\nx\nRAW_TEXT_END}";
    let once = raw_fence_to_string(input);
    assert_eq!(raw_fence_to_string(&once), once);
}
