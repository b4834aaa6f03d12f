use aiagents::json::{object_from, str_member, JsonNumber, JsonValue};
use aiagents::utils::doprocess::{copy_strings, rustflags, DoProcess};
use aiagents::utils::jsonutils::get_json_field;
use aiagents::utils::paths::{is_absolute_path, join_path};
use aiagents::utils::simplerandom::SimpleRng;
use aiagents::utils::stringutils::{iter_fenced_blocks, raw_fence_to_string, strip_code_fences};

#[test]
fn join_path_like_path_join() {
    assert_eq!(join_path("/a/b", "c.rs"), "/a/b/c.rs");
    assert_eq!(join_path("/a/b/", "c.rs"), "/a/b/c.rs");
    assert_eq!(join_path("", "c.rs"), "c.rs");
    assert!(is_absolute_path("/x"));
    assert!(!is_absolute_path("x/y"));
    assert!(!is_absolute_path(""));
}

#[test]
fn rng_zero_seed_is_replaced() {
    assert_eq!(SimpleRng::new(0).state, 0x12345678);
    assert_eq!(SimpleRng::new(7).state, 7);
}

#[test]
fn rng_steps_like_the_lcg() {
    let mut r = SimpleRng::new(1);
    let a = r.next_u32();
    assert_eq!(a, 1u32.wrapping_mul(1664525).wrapping_add(1013904223));
    assert_eq!(a, 1015568748);
    let b = r.next_u32();
    assert_eq!(b, a.wrapping_mul(1664525).wrapping_add(1013904223));
    assert_eq!(r.state, b);
}

#[test]
fn rng_seed_from_time_pid_and_address() {
    let nanos: u64 = 0x0123_4567_89ab_cdef;
    let pid: u64 = 4242;
    let addr: u64 = 0x7fff_0000_1000;
    let c = nanos ^ (pid << 17) ^ (addr << 31);
    let seed = (c ^ (c >> 32)) as u32;
    assert_eq!(SimpleRng::new_monotonic(nanos, pid, addr).state, seed);
    assert_eq!(SimpleRng::new_monotonic(0, 0, 0).state, 0x12345678);
}

#[test]
fn json_field_found_missing_and_not_text() {
    let payload = object_from(vec![
        ("n".to_string(), JsonValue::Number(JsonNumber::PosInt(3))),
        str_member("path", "src/a.rs".to_string()),
    ]);
    assert_eq!(get_json_field(&payload, "path"), Ok("src/a.rs".to_string()));
    assert_eq!(
        get_json_field(&payload, "n"),
        Err("got field n, but it is empty:\n{\"n\":3,\"path\":\"src/a.rs\"}".to_string())
    );
    assert_eq!(
        get_json_field(&payload, "x"),
        Err("field x not found:\n{\"n\":3,\"path\":\"src/a.rs\"}".to_string())
    );
}

#[test]
fn fenced_blocks_in_order() {
    let input = "intro\n```rust\nfn a() {}\n```\nmid\n```\nplain\n```\n```json\n{}";
    let blocks = iter_fenced_blocks(input);
    assert_eq!(blocks.len(), 2);
    assert_eq!(blocks[0].lang, Some("rust"));
    assert_eq!(blocks[0].content, "fn a() {}\n");
    assert_eq!(blocks[1].lang, None);
    assert_eq!(blocks[1].content, "plain\n");
}

#[test]
fn strip_prefers_json_block() {
    let input = "```text\nfirst\n```\n```json\n  {\"a\":1}  \n```\n";
    assert_eq!(strip_code_fences(input), "{\"a\":1}");
    assert_eq!(strip_code_fences("```\n  first  \n```"), "first");
    assert_eq!(strip_code_fences("  no fences  \n"), "no fences");
}

#[test]
fn raw_text_becomes_json_string() {
    let input = "{\"path\":\"a.rs\",\"content\":RAW_TEXT_BEGIN>>\nline \"1\"\n</RAW_TEXT_END>\n}";
    assert_eq!(raw_fence_to_string(input), "{\"path\":\"a.rs\",\"content\":\"line \\\"1\\\"\\n\"}");
}

#[test]
fn raw_text_gets_a_comma_before_more_members() {
    let input = "{\"content\":RAW_TEXT_BEGIN>>\nx\nRAW_TEXT_END\n\"path\":\"a\"}";
    assert_eq!(raw_fence_to_string(input), "{\"content\":\"x\\n\",\"path\":\"a\"}");
}

#[test]
fn raw_text_without_end_is_kept() {
    let input = "{\"content\":RAW_TEXT_BEGIN>>\nnever closed";
    assert_eq!(raw_fence_to_string(input), input);
    assert_eq!(raw_fence_to_string("plain"), "plain");
}

#[test]
fn rustflags_merge() {
    assert_eq!(rustflags(None, Some("-C x")), None);
    assert_eq!(
        rustflags(Some("/p"), None),
        Some("--remap-path-prefix src=/p/src -Dwarnings".to_string())
    );
    assert_eq!(
        rustflags(Some("/p"), Some("-C x")),
        Some("-C x --remap-path-prefix src=/p/src -Dwarnings".to_string())
    );
}

#[test]
fn process_output_is_collected() {
    let p = DoProcess::from_str_slice(&["cargo", "build"], "/work");
    assert_eq!(p.cmd, vec!["cargo".to_string(), "build".to_string()]);
    assert_eq!(p.cwd, Some("/work".to_string()));
    let spawn = |cmd: &Vec<String>, cwd: &Option<String>, flags: &Option<String>| {
        assert_eq!(cmd.len(), 2);
        assert_eq!(cwd.as_deref(), Some("/work"));
        assert_eq!(flags.as_deref(), Some("--remap-path-prefix src=/p/src -Dwarnings"));
        (3, vec!["out".to_string()], vec!["err".to_string()])
    };
    let mut lines = vec!["before".to_string()];
    let (code, all) = p.run_to_lines_combined(&mut lines, Some("/p"), None, &spawn);
    assert_eq!(code, 3);
    assert_eq!(all, vec!["before".to_string(), "out".to_string(), "err".to_string()]);
    assert_eq!(lines, all);
}

#[test]
fn empty_command_is_not_run() {
    let p = DoProcess::from_string_vec(&vec![], "/w");
    let spawn = |_: &Vec<String>, _: &Option<String>| -> (i32, Vec<String>, Vec<String>) { panic!("not run") };
    let mut o = vec![];
    let mut e = vec![];
    let r = p.run_to_lines_separated(&mut o, &mut e, &spawn);
    assert_eq!(r.0, 0);
    assert!(r.1.is_empty() && r.2.is_empty());
}

#[test]
fn separated_output_is_trimmed() {
    let p = DoProcess::from_string_vec(&copy_strings(&vec!["git".to_string(), "log".to_string()]), "/w");
    let spawn = |_: &Vec<String>, _: &Option<String>| (0, vec!["a  \n".to_string()], vec!["b\r\n".to_string()]);
    let mut o = vec![];
    let mut e = vec![];
    let r = p.run_to_lines_separated(&mut o, &mut e, &spawn);
    assert_eq!(r.1, vec!["a".to_string()]);
    assert_eq!(r.2, vec!["b".to_string()]);
}
