use aiagents::agenttools::all_tools::{select_tool, ToolOutput};
use aiagents::agenttools::done::Done;
use aiagents::aimessage::FileEntry;
use aiagents::cli::commandline::{help, parse_args};
use aiagents::config::{AITaskProvider, Config, ConfigError};
use aiagents::json::{JsonNumber, JsonValue};
use aiagents::runtimetools::llmcall::{keep_selected_file, read_reply, tool_code_parses_to_object, response_content, LlmCall, LlmCallResult, ReplyAction};
use aiagents::tasks::Tasks;
use aiagents::vc::git::{parse_commits, Git, GitError, GitOutput};
use aiagents::workflows::buildsystem::Buildsystem;
use aiagents::workflows::release_doc::ReleaseDocWorkflow;
use aiagents::workflows::select_workflow::{SelectedWorkflow, WorkflowSelector};
use std::cell::RefCell;

fn strings(v: &[&str]) -> Vec<String> {
    v.iter().map(|s| s.to_string()).collect()
}

fn from_serde(v: &serde_json::Value) -> JsonValue {
    match v {
        serde_json::Value::Null => JsonValue::Null,
        serde_json::Value::Bool(b) => JsonValue::Bool(*b),
        serde_json::Value::Number(n) => {
            if let Some(u) = n.as_u64() {
                JsonValue::Number(JsonNumber::PosInt(u))
            } else if let Some(i) = n.as_i64() {
                JsonValue::Number(JsonNumber::NegInt(i))
            } else {
                JsonValue::Number(JsonNumber::Float(n.to_string()))
            }
        },
        serde_json::Value::String(s) => JsonValue::Str(s.clone()),
        serde_json::Value::Array(a) => JsonValue::Array(a.iter().map(from_serde).collect()),
        serde_json::Value::Object(m) => JsonValue::Object(m.iter().map(|(k, x)| (k.clone(), from_serde(x))).collect()),
    }
}

fn reply(content: &str) -> JsonValue {
    let mut msg = serde_json::Map::new();
    msg.insert("content".to_string(), serde_json::Value::String(content.to_string()));
    msg.insert("role".to_string(), serde_json::Value::String("assistant".to_string()));
    let mut choice = serde_json::Map::new();
    choice.insert("message".to_string(), serde_json::Value::Object(msg));
    let mut top = serde_json::Map::new();
    top.insert("choices".to_string(), serde_json::Value::Array(vec![serde_json::Value::Object(choice)]));
    from_serde(&serde_json::Value::Object(top))
}

fn llm_call(max_workflow_fail: usize, max_tool_call_fail: usize) -> LlmCall {
    LlmCall::new(
        "/proj".to_string(),
        Tasks::FixCode,
        "Fix the build.".to_string(),
        vec![],
        10,
        vec![],
        vec![],
        max_workflow_fail,
        max_tool_call_fail,
        false,
    )
}

fn exec(v: &JsonValue) -> ToolOutput {
    match select_tool(v, |p: &str| Some(p.to_string()), |p: &str| p.to_string()) {
        aiagents::agenttools::all_tools::ToolCall::Done(d) => ToolOutput::Done(d.execute()),
        aiagents::agenttools::all_tools::ToolCall::Failed(f) => ToolOutput::Failed(f.execute()),
        aiagents::agenttools::all_tools::ToolCall::Valid(x) => ToolOutput::Valid(x.execute()),
        _ => ToolOutput::Done(Done::default().execute()),
    }
}

#[test]
fn default_config_is_valid() {
    let c = Config::default();
    assert!(c.validate().is_ok());
    assert_eq!(c.provider, "qwen25");
    assert_eq!(c.providerlist.len(), 5);
    assert_eq!(c.get_provider("default").unwrap().name, "qwen25");
    assert_eq!(c.get_selected_provider().unwrap().name, "qwen25");
    assert_eq!(c.get_provider(&c.providerlist[2].name.clone()).unwrap().name, c.providerlist[2].name);
    assert!(c.get_provider("nope").is_none());
    assert_eq!(c.queue_length_max, 14);
    assert_eq!(c.queue_length_save, 1);
}

#[test]
fn invalid_configs_are_refused() {
    let mut c = Config::default();
    c.queue_length_save = 20;
    match c.validate() {
        Err(ConfigError::Invalid(m)) => assert_eq!(m, "queue_length_save cannot be greater than queue_length_max"),
        other => panic!("unexpected {:?}", other),
    }
    let mut c = Config::default();
    c.taskproviderlist.push(AITaskProvider { task: "build".to_string(), provider: "ghost".to_string(), finite_temperature: true });
    match c.validate() {
        Err(ConfigError::Invalid(m)) => assert_eq!(m, "task 'build' references unknown provider 'ghost'"),
        other => panic!("unexpected {:?}", other),
    }
    let mut c = Config::default();
    c.taskproviderlist.push(AITaskProvider { task: "build".to_string(), provider: "qwen25".to_string(), finite_temperature: false });
    match c.validate() {
        Err(ConfigError::Invalid(m)) => assert_eq!(m, "task 'build' has a non-finite temperature"),
        other => panic!("unexpected {:?}", other),
    }
    let mut c = Config::default();
    c.provider = "missing".to_string();
    match c.validate() {
        Err(ConfigError::Invalid(m)) => assert_eq!(m, "selected provider 'missing' does not exist"),
        other => panic!("unexpected {:?}", other),
    }
}

fn canon(p: &str) -> Option<String> {
    if p.starts_with("bad") {
        None
    } else {
        Some(format!("/abs/{}", p))
    }
}

fn strict(p: &str) -> String {
    format!("/abs/{}", p)
}

fn is_file(p: &str) -> bool {
    p.ends_with(".md")
}

fn entry(p: &str) -> FileEntry {
    FileEntry { path: p.to_string(), text: format!("contents of {}", p) }
}

#[test]
fn command_line_is_read() {
    let args = strings(&["-l", "rust", "-t", "fix_code", "-t", "sub.md", "-f", "src", "-f", "tests", "-b", "out", "-d"]);
    let a = parse_args(&args, &canon, &strict, &is_file, &entry).unwrap();
    assert_eq!(a.language, "rust");
    assert_eq!(a.task, "fix_code");
    assert_eq!(a.subtask, strings(&["/abs/sub.md"]));
    assert_eq!(a.pathfilter, strings(&["/abs/src", "/abs/tests"]));
    assert_eq!(a.builddir, Some("/abs/out".to_string()));
    assert!(a.debug);
    assert!(!a.is_workspace());
}

#[test]
fn task_data_after_colon() {
    let args = strings(&["--lang", "rust", "--task", "release_doc:notes.txt", "--pathfilter", "."]);
    let a = parse_args(&args, &canon, &strict, &is_file, &entry).unwrap();
    assert_eq!(a.task, "release_doc");
    let d = a.taskdata.unwrap();
    assert_eq!(d.path, "notes.txt");
}

#[test]
fn command_line_errors() {
    let missing = parse_args(&strings(&["-l"]), &canon, &strict, &is_file, &entry);
    assert_eq!(missing.unwrap_err(), "Missing value for --lang");
    let unknown = parse_args(&strings(&["-x"]), &canon, &strict, &is_file, &entry);
    assert_eq!(unknown.unwrap_err(), "Unknown argument: -x");
    let no_filter = parse_args(&strings(&["-l", "rust", "-t", "build"]), &canon, &strict, &is_file, &entry);
    assert_eq!(no_filter.unwrap_err(), "Missing required argument --pathfilter (must be provided at least once)");
    let no_task = parse_args(&strings(&["-f", "src"]), &canon, &strict, &is_file, &entry);
    assert_eq!(no_task.unwrap_err(), "Missing required argument --task");
    let bad_path = parse_args(&strings(&["-l", "rust", "-t", "build", "-f", "bad"]), &canon, &strict, &is_file, &entry);
    assert_eq!(bad_path.unwrap_err(), "Invalid path for --pathfilter");
    let bad_task = parse_args(&strings(&["-l", "rust", "-t", "dance", "-f", "src"]), &canon, &strict, &is_file, &entry);
    let m = bad_task.unwrap_err();
    assert!(m.starts_with("Invalid task 'dance'. Must be one of [analyze, build, fix_code"));
    assert!(m.ends_with("] or a valid file path."));
}

#[test]
fn help_needs_nothing_else() {
    let a = parse_args(&strings(&["-h"]), &canon, &strict, &is_file, &entry).unwrap();
    assert!(a.help);
    assert!(a.task.is_empty());
    let text = help(&strings(&["rust", "c"]));
    assert!(text.contains("fix_code"));
    assert!(text.contains("rust"));
}

#[test]
fn build_systems() {
    assert_eq!(Buildsystem::from_name("CARGO"), Buildsystem::Cargo);
    assert_eq!(Buildsystem::from_lower("meson.build"), Buildsystem::Meson);
    assert_eq!(Buildsystem::from_lower("CARGO"), Buildsystem::Unknown);
    assert_eq!(Buildsystem::from_name("cmake"), Buildsystem::Cmake);
    assert_eq!(Buildsystem::from_name("GNU Make"), Buildsystem::Make);
    assert_eq!(Buildsystem::from_name("gradle"), Buildsystem::Unknown);
    for b in Buildsystem::iter() {
        assert_eq!(Buildsystem::from_name(b.as_str()), b);
    }
    assert_eq!(Buildsystem::len(), 7);
    assert_eq!(Buildsystem::Cargo.get_default_builddir(), "target");
    assert!(Buildsystem::Unknown.is_none());
    let found = Buildsystem::from_dir("/p", |f: &str| f == "/p/CMakeLists.txt" || f == "/p/Makefile");
    assert_eq!(found, Buildsystem::Cmake);
    assert_eq!(Buildsystem::from_dir("/p", |_: &str| false), Buildsystem::Unknown);
}

#[test]
fn build_commands() {
    let c = Buildsystem::Cargo.build_cmd("/p", "tgt", Some("/cwd"));
    assert_eq!(c.build, strings(&["cargo", "build", "--target-dir", "/cwd/tgt"]));
    assert!(c.setup.is_empty());
    let m = Buildsystem::Cmake.build_cmd("/p", "/abs/b", None);
    assert_eq!(m.setup, strings(&["cmake", "-S", "/p", "-B", "/abs/b", "-G", "Ninja"]));
    assert_eq!(m.test, strings(&["cmake", "--build", "/abs/b", "--target", "test"]));
}

#[test]
fn workflow_of_each_task() {
    let s = WorkflowSelector::new();
    assert_eq!(s.select(Tasks::Build), SelectedWorkflow::Build);
    assert_eq!(s.select(Tasks::ReleaseDoc), SelectedWorkflow::ReleaseDoc);
    assert_eq!(s.select(Tasks::SetupBuild), SelectedWorkflow::SetupBuild);
}

#[test]
fn git_log_is_parsed() {
    let out = "abc\u{1f}Ann\u{1f}ann@x\u{1f}2024-01-01T00:00:00+00:00\u{1f}Fix\u{1f}Body line\n\n\u{1e}\n\
               def\u{1f}Bob\u{1f}bob@x\u{1f}2024-01-02T00:00:00+00:00\u{1f}Add\u{1f}\u{1e}\n";
    let commits = parse_commits(out).unwrap();
    assert_eq!(commits.len(), 2);
    assert_eq!(commits[0].hash, "abc");
    assert_eq!(commits[0].body, "Body line");
    assert_eq!(commits[1].author_name, "Bob");
    assert_eq!(commits[1].body, "");
    match parse_commits("only\u{1f}three\u{1f}fields\u{1e}") {
        Err(GitError::InvalidOutput(m)) => assert_eq!(m, "only\u{1f}three\u{1f}fields"),
        other => panic!("unexpected {:?}", other),
    }
    assert!(parse_commits("  \n").unwrap().is_empty());
}

fn ok(stdout: &str) -> Result<GitOutput, String> {
    Ok(GitOutput { success: true, code: Some(0), stdout: stdout.as_bytes().to_vec(), stderr: vec![] })
}

#[test]
fn git_queries_through_a_runner() {
    let git = Git::new("/repo");
    assert_eq!(git.dir(), "/repo");
    let seen = RefCell::new(Vec::new());
    let run = |args: &Vec<String>, dir: &str| {
        seen.borrow_mut().push((args.clone(), dir.to_string()));
        match args[0].as_str() {
            "rev-parse" => ok("true\n"),
            "branch" => ok("\n"),
            "tag" => ok("v1\n\n v2 \n"),
            "describe" => ok("v2\n"),
            _ => Ok(GitOutput { success: false, code: Some(128), stdout: vec![], stderr: b"fatal: bad\n".to_vec() }),
        }
    };
    assert_eq!(git.is_repository(&run).unwrap(), true);
    assert_eq!(git.current_branch(&run).unwrap(), None);
    assert_eq!(git.tags(&run).unwrap(), strings(&["v1", "v2"]));
    assert_eq!(git.latest_tag(&run).unwrap(), Some("v2".to_string()));
    let e = git.diff(&run, "v1", "HEAD").unwrap_err();
    assert_eq!(e.to_string(), "git diff --no-ext-diff --binary v1 HEAD failed with status Some(128): fatal: bad");
    assert!(seen.borrow().iter().all(|(_, d)| d == "/repo"));
    let io = |_: &Vec<String>, _: &str| Err("no git".to_string());
    assert_eq!(git.repository_root(&io).unwrap_err().to_string(), "failed to execute git: no git");
}

#[test]
fn release_range_from_task_arguments() {
    let w = ReleaseDocWorkflow::new(llm_call(1, 1), "/p", &strings(&["-f", "v1", "--last", "v2"]));
    assert_eq!(w.release_range(), Ok((Some("v1".to_string()), "v2".to_string())));
    let d = ReleaseDocWorkflow::new(llm_call(1, 1), "/p", &vec![]);
    assert_eq!(d.release_range(), Ok((None, "HEAD".to_string())));
    let e = ReleaseDocWorkflow::new(llm_call(1, 1), "/p", &strings(&["-f"]));
    assert_eq!(e.release_range(), Err("Missing value for -f".to_string()));
    let u = ReleaseDocWorkflow::new(llm_call(1, 1), "/p", &strings(&["-x"]));
    assert_eq!(u.release_range(), Err("Unknown release_doc argument: -x".to_string()));
}

#[test]
fn replies_are_read() {
    assert_eq!(response_content(&reply("  hello \n")), Some("hello".to_string()));
    assert_eq!(response_content(&reply("   ")), None);
    assert_eq!(response_content(&JsonValue::Null), None);
    match read_reply(&reply("```json\n{\"action\":\"done\"}\n```")) {
        ReplyAction::Act(t) => assert!(t.contains("action")),
        ReplyAction::Finish => panic!("expected a tool call"),
    }
    assert!(matches!(read_reply(&reply("all good")), ReplyAction::Finish));
}

#[test]
fn analyze_ends_when_the_model_is_done() {
    let mut call = llm_call(3, 3);
    let sent = RefCell::new(Vec::new());
    let send = |text: &str, max: u32| {
        sent.borrow_mut().push((text.to_string(), max));
        Ok(reply("```json\n{\"action\":\"done\"}\n```"))
    };
    let r = call.analyze("it does not build", &send, &exec);
    assert!(r.is_done());
    assert_eq!(sent.borrow().len(), 1);
    assert_eq!(sent.borrow()[0].1, 30000);
    assert!(sent.borrow()[0].0.contains("=== PROBLEM ===\\nit does not build"));
    // a valid `done` ends the task: the conversation and its faults are dropped
    assert!(call.messages.messages.is_empty());
    assert_eq!(call.messages.faults, None);
}

#[test]
fn analyze_retries_invalid_tool_calls() {
    let mut call = llm_call(3, 2);
    let count = RefCell::new(0);
    let send = |_: &str, _: u32| {
        *count.borrow_mut() += 1;
        Ok(reply("{\"action\": \"failed\"}"))
    };
    let r = call.analyze("x", &send, &exec);
    assert!(matches!(r, LlmCallResult::RetryFailed));
    assert_eq!(*count.borrow(), 2);
}

#[test]
fn analyze_reports_request_errors() {
    let mut call = llm_call(3, 2);
    let send = |_: &str, _: u32| Err("connection refused".to_string());
    match call.analyze("x", &send, &exec) {
        LlmCallResult::RequestError(m) => assert_eq!(m, "connection refused"),
        other => panic!("unexpected {:?}", other),
    }
}

#[test]
fn bad_json_is_answered_with_a_failure() {
    let mut call = llm_call(3, 2);
    let no_tool = |_: &JsonValue| -> ToolOutput { panic!("no tool runs on a malformed call") };
    let out = call.handle_text_action("{\"action\": ", &no_tool);
    assert!(!out.is_valid());
    let last = call.messages.messages.last().unwrap();
    assert!(last.data.starts_with("Error occurred: JSON parse error, this should contain a valid JSON block: "));
    assert!(last.data.ends_with("\n>>>>CODE:\n{\"action\":\n<<<<"));
}

#[test]
fn plain_text_step() {
    let call = llm_call(3, 2);
    let send = |_: &str, max: u32| {
        assert_eq!(max, 30000);
        Ok(reply(" summary "))
    };
    assert_eq!(call.run_text_step("Summarize", "ctx", &send).unwrap(), "summary");
}

#[test]
fn config_file_location() {
    assert_eq!(Config::default_path(Some("/xdg"), "/home/u"), "/xdg/aifix/config.json");
    assert_eq!(Config::default_path(Some("/xdg/"), "/home/u"), "/xdg/aifix/config.json");
    assert_eq!(Config::default_path(Some(""), "/home/u"), "/home/u/.config/aifix/config.json");
    assert_eq!(Config::default_path(None, "/home/u"), "/home/u/.config/aifix/config.json");
}

#[test]
fn each_tool_call_takes_one_id() {
    let mut call = llm_call(3, 2);
    let before = call.messages.message_id.val;
    let _ = call.handle_text_action("{\"action\": \"valid\"}", &exec);
    assert_eq!(call.messages.message_id.val, before + 1);
    let _ = call.handle_text_action("not json", &exec);
    assert_eq!(call.messages.message_id.val, before + 2);
    let last = call.messages.messages.last().unwrap();
    assert_eq!(last.msgtype, aiagents::aimessage::AIMessageType::Tool);
    assert_eq!(last.message_id.val, before + 2);
}

#[test]
fn run_stops_after_two_valid_rounds() {
    let mut call = llm_call(5, 2);
    let count = RefCell::new(0);
    let send = |_: &str, _: u32| {
        *count.borrow_mut() += 1;
        Ok(reply("{\"action\": \"valid\"}"))
    };
    let r = call.run("problem", &send, &exec);
    assert!(r.is_valid());
    assert_eq!(*count.borrow(), 2);
}

#[test]
fn run_until_done_repeats_valid_rounds() {
    let mut call = llm_call(3, 2);
    let count = RefCell::new(0);
    let send = |_: &str, _: u32| {
        *count.borrow_mut() += 1;
        Ok(reply("{\"action\": \"valid\"}"))
    };
    let r = call.run_until_done("problem", &send, &exec);
    assert!(matches!(r, LlmCallResult::RetryFailed));
    assert_eq!(*count.borrow(), 3);
}

#[test]
fn selected_files_are_filtered() {
    let names = vec!["main.rs".to_string(), "lib.rs".to_string()];
    let suffixes = vec!["rs".to_string()];
    assert!(keep_selected_file("/p/src/main.rs", "/p", Some("main.rs"), Some("rs"), &names, &suffixes));
    assert!(!keep_selected_file("/p/target/main.rs", "/p", Some("main.rs"), Some("rs"), &names, &suffixes));
    assert!(!keep_selected_file("/p/build/lib.rs", "/p", Some("lib.rs"), Some("rs"), &names, &suffixes));
    assert!(!keep_selected_file("/p/src/other.rs", "/p", Some("other.rs"), Some("rs"), &names, &suffixes));
    assert!(!keep_selected_file("/p/src/main.rs", "/p", Some("main.rs"), None, &names, &suffixes));
}

#[test]
fn first_task_is_not_a_path() {
    let only_dirs = |p: &str| -> Option<String> {
        assert_ne!(p, "fix_code", "the task name is not made canonical");
        Some(format!("/abs/{}", p))
    };
    let a = parse_args(&strings(&["-l", "rust", "-t", "fix_code", "-f", "dir"]), &only_dirs, &strict, &is_file, &entry).unwrap();
    assert_eq!(a.task, "fix_code");
    assert_eq!(a.pathfilter, strings(&["/abs/dir"]));
}

#[test]
fn tool_code_shapes() {
    assert!(tool_code_parses_to_object("{\"action\": \"done\"}"));
    assert!(tool_code_parses_to_object("```json\n{\"action\": \"done\"}\n```"));
    assert!(tool_code_parses_to_object("null"));
    assert!(tool_code_parses_to_object("not json"));
    assert!(!tool_code_parses_to_object("[1, 2]"));
    assert!(!tool_code_parses_to_object("\"action\""));
}

#[test]
fn tool_call_is_parsed_and_marked() {
    let mut call = llm_call(3, 2);
    let seen = RefCell::new(None);
    let record = |v: &JsonValue| -> ToolOutput {
        *seen.borrow_mut() = Some(v.to_json_text());
        exec(v)
    };
    let _ = call.handle_text_action("{\"action\": \"valid\", \"n\": -3}", &record);
    assert_eq!(seen.borrow().clone().unwrap(), "{\"action\":\"valid\",\"n\":-3,\"role\":\"assistant\"}");
}
