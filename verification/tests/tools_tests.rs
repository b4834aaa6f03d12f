use aiagents::agenttools::pathguard::PathRules;
use aiagents::agenttools::add_note::AddNote;
use aiagents::agenttools::aitooltype::{tool_from_name, AIToolType};
use aiagents::agenttools::all_tools::{is_selectable, select_tool, ToolCall, ToolOutput};
use aiagents::agenttools::list_dir::{ListDir, ListDirErrorType};
use aiagents::agenttools::load_file::{LoadFile, LoadFileErrorType};
use aiagents::agenttools::load_file_part::{select_lines, LoadFilePart, LoadFilePartErrorType};
use aiagents::agenttools::reply::{id_object, id_string, tool_reply};
use aiagents::agenttools::save_file::{SaveFile, SaveFileErrorType};
use aiagents::agenttools::save_file_replace_part::{SaveFilePart, SaveFilePartErrorType};
use aiagents::aimessage::AIMessageId;
use aiagents::json::{object_from, str_member, JsonNumber, JsonValue};

fn payload(members: Vec<(&str, JsonValue)>) -> JsonValue {
    object_from(members.into_iter().map(|(k, v)| (k.to_string(), v)).collect())
}

fn s(v: &str) -> JsonValue {
    JsonValue::Str(v.to_string())
}

fn n(v: u64) -> JsonValue {
    JsonValue::Number(JsonNumber::PosInt(v))
}

fn resolve(p: &str) -> Option<String> {
    if p.contains("..") {
        None
    } else {
        Some(format!("/proj/{}", p))
    }
}

fn resolve_strict(p: &str) -> String {
    format!("/proj/{}", p)
}

#[test]
fn action_names_select_tools() {
    assert_eq!(tool_from_name("load_file_part"), Some(AIToolType::LoadFilePart));
    assert_eq!(tool_from_name("save_file_part"), Some(AIToolType::SaveFilePart));
    assert_eq!(tool_from_name("scan_dir"), None);
    assert_eq!(tool_from_name("Done"), None);
    assert_eq!(AIToolType::SaveFilePart.debug_name(), "SaveFilePart");
}

#[test]
fn payload_without_action_fails() {
    let c = select_tool(&payload(vec![("x", n(1))]), resolve, resolve_strict);
    match c {
        ToolCall::Failed(f) => assert_eq!(f.data, "No action found in payload"),
        other => panic!("unexpected {:?}", other),
    }
}

#[test]
fn unknown_action_fails_with_payload() {
    let p = payload(vec![("action", s("dance"))]);
    match select_tool(&p, resolve, resolve_strict) {
        ToolCall::Failed(f) => assert_eq!(f.data, "key not found: {\"action\":\"dance\"}"),
        other => panic!("unexpected {:?}", other),
    }
}

#[test]
fn load_file_is_resolved_strictly() {
    let p = payload(vec![("action", s("load_file")), ("file", s("src/a.rs"))]);
    match select_tool(&p, resolve, resolve_strict) {
        ToolCall::LoadFile(l) => assert_eq!(l.path, "/proj/src/a.rs"),
        other => panic!("unexpected {:?}", other),
    }
}

#[test]
fn load_file_part_decodes_one_based_start() {
    let p = payload(vec![("action", s("load_file_part")), ("count", n(2)), ("file", s("a.rs")), ("start", n(3))]);
    match select_tool(&p, resolve, resolve_strict) {
        ToolCall::LoadFilePart(l) => {
            assert_eq!(l.path, "/proj/a.rs");
            assert_eq!(l.start, 2);
            assert_eq!(l.count, 2);
        },
        other => panic!("unexpected {:?}", other),
    }
}

#[test]
fn load_file_part_reports_missing_count() {
    let p = payload(vec![("file", s("a.rs")), ("pos", n(1))]);
    let e = LoadFilePart::from_json(&p, resolve).unwrap_err();
    assert_eq!(e.err_type, LoadFilePartErrorType::DecodeError);
    assert_eq!(e.err_info, "invalid count: null");
    let bad = payload(vec![("count", n(1)), ("file", s("../x")), ("start", n(1))]);
    let e2 = LoadFilePart::from_json(&bad, resolve).unwrap_err();
    assert_eq!(e2.err_info, "invalid file path: ../x");
}

#[test]
fn select_lines_pads_past_the_end() {
    assert_eq!(select_lines("a\nb\nc\n", 1, 2), "b\nc");
    assert_eq!(select_lines("a\nb", 1, 3), "b\n\n\n\n");
    assert_eq!(select_lines("a", 0, 0), "");
}

#[test]
fn load_file_part_execute() {
    let l = LoadFilePart { path: "/p/a".to_string(), start: 0, count: 1 };
    assert_eq!(l.execute(false, true, |_| None).unwrap_err().err_type, LoadFilePartErrorType::Forbidden);
    assert_eq!(l.execute(true, false, |_| None).unwrap_err().err_type, LoadFilePartErrorType::NotFound);
    assert_eq!(l.execute(true, true, |_| None).unwrap_err().err_type, LoadFilePartErrorType::ReadFailed);
    assert_eq!(l.execute(true, true, |_| Some("x\ny".to_string())).unwrap().data, "x");
}

#[test]
fn load_file_and_list_dir_execute() {
    let lf = LoadFile { path: "/p/a".to_string() };
    assert_eq!(lf.execute(false, true, |_| None).unwrap_err().err_type, LoadFileErrorType::Forbidden);
    assert_eq!(lf.execute(true, true, |_| None).unwrap_err().err_type, LoadFileErrorType::ReadFailed);
    assert_eq!(lf.execute(true, true, |_| Some("text".to_string())).unwrap().data, "text");
    let ld = ListDir { path: "/p".to_string() };
    assert_eq!(ld.execute(true, false, |_| None).unwrap_err().err_type, ListDirErrorType::NotFound);
    let ok = ld.execute(true, true, |_| Some(vec!["a".to_string(), "b/".to_string()])).unwrap();
    assert_eq!(ok.data, "a\nb/");
}

#[test]
fn save_file_checks_and_writes() {
    let p = payload(vec![("action", s("save_file")), ("content", s("new")), ("file", s("a.rs")), ("note", s("n"))]);
    let sf = SaveFile::from_json(&p, resolve).unwrap();
    assert_eq!(sf.path, "/proj/a.rs");
    assert_eq!(sf.content, "new");
    let forbidden = SaveFile::from_json(&p, resolve).unwrap().execute(false, |_, _| -> Result<(), String> { panic!("no write when refused") });
    assert_eq!(forbidden.unwrap_err().err_type, SaveFileErrorType::Forbidden);
    let failed = SaveFile::from_json(&p, resolve).unwrap().execute(true, |_, _| Err("disk full".to_string()));
    let e = failed.unwrap_err();
    assert_eq!(e.err_type, SaveFileErrorType::WriteFailed);
    assert_eq!(e.err_info, "/proj/a.rs: disk full");
    let written = std::cell::RefCell::new(String::new());
    let ok = sf.execute(true, |w, t| {
        assert_eq!(w, "/proj/a.rs");
        *written.borrow_mut() = t.to_string();
        Ok(())
    });
    assert_eq!(ok.unwrap().path, "/proj/a.rs");
    assert_eq!(*written.borrow(), "new");
    let empty = SaveFile { path: "x".to_string(), content: String::new(), note: String::new() };
    assert_eq!(empty.execute(true, |_, _| -> Result<(), String> { panic!("no write of empty content") }).unwrap_err().err_type, SaveFileErrorType::EmptyContent);
}

fn part(original: &str, content: &str, index: usize) -> SaveFilePart {
    SaveFilePart {
        path: "/p/f".to_string(),
        occurrence_index: index,
        content: content.to_string(),
        original: original.to_string(),
        note: String::new(),
    }
}

#[test]
fn replace_chooses_the_occurrence() {
    let file = "x = 1;\ny = 2;\nx = 1;\n";
    assert_eq!(part("x = 1;", "x = 3;", 1).replace_in(file), Ok("x = 1;\ny = 2;\nx = 3;\n".to_string()));
    assert_eq!(part("x = 1;", "x = 3;", 0).replace_in(file), Ok("x = 3;\ny = 2;\nx = 1;\n".to_string()));
}

#[test]
fn replace_normalizes_line_ends() {
    assert_eq!(part("a\r\nb", "c", 0).replace_in("a\nb\r\n"), Ok("c\n".to_string()));
}

#[test]
fn replace_with_itself_changes_nothing() {
    let file = "fn a() {}\nfn b() {}\n";
    assert_eq!(part("fn b() {}", "fn b() {}", 0).replace_in(file), Ok(file.to_string()));
}

#[test]
fn replace_mismatch_messages() {
    assert_eq!(
        part("zzz", "c", 0).replace_in("abc"),
        Err("Original mismatch: The provided 'original' block was not found anywhere in the file.\n- Your requested block:\n\"\"\"\nzzz\n\"\"\"".to_string())
    );
    assert_eq!(
        part("a", "c", 2).replace_in("aa"),
        Err("Original mismatch: Index out of bounds.\n- You requested index: 2 (0-based)\n- Total identical matches found in file: 2\n- Reduce the index or make your 'original' block larger/more unique.".to_string())
    );
}

#[test]
fn save_file_part_execute() {
    let r = part("b", "B", 0).execute(true, true, |q| { assert_eq!(q, "/p/f"); Some("abc".to_string()) }, |w, t| w == "/p/f" && t == "aBc");
    assert_eq!(r.unwrap().content, "aBc");
    let e = part("b", "B", 0).execute(true, true, |_| Some("abc".to_string()), |_, _| false).unwrap_err();
    assert_eq!(e.err_type, SaveFilePartErrorType::WriteFailed);
    assert_eq!(e.err_info, "/p/f: ");
    let m = part("q", "B", 0).execute(true, true, |_| Some("abc".to_string()), |_, _| -> bool { panic!("no write on a mismatch") }).unwrap_err();
    assert_eq!(m.err_type, SaveFilePartErrorType::OriginalMismatch);
    assert_eq!(part("b", "B", 0).execute(false, true, |_| -> Option<String> { panic!("no read when refused") }, |_, _| -> bool { panic!("no write when refused") }).unwrap_err().err_type, SaveFilePartErrorType::Forbidden);
    assert_eq!(part("b", "B", 0).execute(true, false, |_| None, |_, _| true).unwrap_err().err_type, SaveFilePartErrorType::NotFound);
    assert_eq!(part("b", "B", 0).execute(true, true, |_| None, |_, _| true).unwrap_err().err_type, SaveFilePartErrorType::ReadFailed);
}

#[test]
fn save_file_part_decode_errors() {
    let p = payload(vec![("file", s("f")), ("original", s("o"))]);
    let e = SaveFilePart::from_json(&p, resolve).unwrap_err();
    assert_eq!(e.err_type, SaveFilePartErrorType::DecodeError);
    assert_eq!(e.err_info, "invalid occurrence index: null");
    assert_eq!(e.to_string(), "DecodeError: invalid occurrence index: null");
    let ok = payload(vec![("content", s("c")), ("file", s("f")), ("note", s("")), ("occurrence", n(1)), ("original", s("o"))]);
    let d = SaveFilePart::from_json(&ok, resolve).unwrap();
    assert_eq!(d.path, "/proj/f");
    assert_eq!(d.occurrence_index, 1);
}

#[test]
fn add_note_keeps_json_text() {
    let note = AddNote::from_json(&payload(vec![("note", s("hi"))]));
    assert_eq!(note.data, "\"hi\"");
    let none = AddNote::from_json(&payload(vec![]));
    assert_eq!(none.data, "no note found");
    let out = ToolOutput::AddNote(note.execute());
    assert!(out.is_valid());
    assert_eq!(out.to_base(), AIToolType::AddNote);
    assert_eq!(out.to_string(AIMessageId { val: 4 }), "call_4: \"hi\"");
    assert_eq!(
        out.to_json(AIMessageId { val: 4 }).to_json_text(),
        "{\"content\":\"\\\"hi\\\"\",\"role\":\"tool\",\"tool_call_id\":\"call_4\"}"
    );
}

#[test]
fn reply_ids() {
    let id = AIMessageId { val: 12 };
    assert_eq!(id_object(id).to_json_text(), "{\"val\":12}");
    assert_eq!(id_string(id).to_json_text(), "\"call_12\"");
    assert_eq!(
        tool_reply(id_string(id), "x".to_string()).to_json_text(),
        "{\"content\":\"x\",\"role\":\"tool\",\"tool_call_id\":\"call_12\"}"
    );
    let _ = str_member("k", String::new());
}

#[test]
fn selectable_payloads() {
    assert!(is_selectable(&payload(vec![("action", s("load_file")), ("file", s("a"))])));
    assert!(!is_selectable(&payload(vec![("action", s("load_file"))])));
    assert!(!is_selectable(&payload(vec![("action", s("list_dir")), ("path", n(1))])));
    assert!(is_selectable(&payload(vec![("action", s("list_dir")), ("path", s("."))])));
    assert!(!is_selectable(&payload(vec![("action", s("load_file_part")), ("start", n(2147483648))])));
    assert!(is_selectable(&payload(vec![("action", s("load_file_part")), ("start", n(1))])));
    assert!(is_selectable(&payload(vec![("x", n(1))])));
}

#[test]
fn only_the_first_directory_is_writable() {
    let c = |xs: &[&str]| xs.iter().map(|x| x.to_string()).collect::<Vec<String>>();
    let rules = PathRules { roots: vec![c(&["/", "repo"]), c(&["/", "docs"])] };
    assert!(rules.contains(&c(&["/", "repo", "src", "a.rs"])));
    assert!(rules.can_write(&c(&["/", "repo", "src", "a.rs"])));
    assert!(rules.contains(&c(&["/", "docs", "x.md"])));
    assert!(!rules.can_write(&c(&["/", "docs", "x.md"])));
    assert!(!rules.contains(&c(&["/", "repo", ".git", "config"])));
    assert!(!rules.can_write(&c(&["/", "repo", ".git", "config"])));
    assert!(!rules.contains(&c(&["/", "etc", "passwd"])));
    assert!(!rules.contains(&c(&["/", "repository"])));
}
