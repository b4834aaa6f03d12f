use aiagents::agenttools::ast::{Ast, AstErrorType};
use aiagents::agenttools::list_dir::{ListDir, ListDirErrorType};
use aiagents::agenttools::load_file::{LoadFile, LoadFileErrorType};
use aiagents::agenttools::save_file::{SaveFile, SaveFileErrorType};
use aiagents::agenttools::scan_dir::{ScanDir, ScanDirErrorType};
use aiagents::aimessage::AIMessageId;
use aiagents::json::{object_from, JsonNumber, JsonValue};
use aiagents::runtimetools::releasedoc::{ReleaseDocContext, ReleaseFile};
use aiagents::vc::git::{Git, GitCommit, GitOutput};

fn commit(hash: &str) -> GitCommit {
    GitCommit {
        hash: hash.to_string(),
        author_name: "Ann".to_string(),
        author_email: "ann@x".to_string(),
        authored_at: "2024".to_string(),
        subject: "Fix".to_string(),
        body: "b".to_string(),
    }
}

#[test]
fn release_context_texts() {
    let c = ReleaseDocContext {
        from: Some("v1".to_string()),
        to: "HEAD".to_string(),
        commits: vec![commit("abc")],
        diff: None,
        files: vec![
            ReleaseFile { path: "a.txt".to_string(), content: b"hello".to_vec() },
            ReleaseFile { path: "b.bin".to_string(), content: vec![0xff, 0xfe] },
        ],
    };
    assert_eq!(
        c.to_llm_summary_context(),
        "=== RELEASE RANGE ===\nfrom: v1\nto: HEAD\n\n=== COMMITS ===\nhash: abc\ndate: 2024\nsubject: Fix\nbody:\nb\n---\n\n=== DIFF ===\n<no previous tag; no range diff available>\n\n=== AVAILABLE FILES AT TARGET REF ===\na.txt\nb.bin\n"
    );
    let full = c.to_llm_context();
    assert!(full.contains("author: Ann <ann@x>"));
    assert!(full.contains("\n--- FILE: a.txt ---\nhello\n--- END FILE ---\n"));
    assert!(full.contains("\n--- FILE: b.bin ---\n<binary file omitted>\n--- END FILE ---\n"));
}

#[test]
fn lossy_decoding_replaces_bad_bytes() {
    let git = Git::new("/r");
    let run = |_: &Vec<String>, _: &str| -> Result<GitOutput, String> {
        Ok(GitOutput { success: true, code: Some(0), stdout: vec![b'v', 0xff, b'1', b'\n'], stderr: vec![] })
    };
    assert_eq!(git.tags(&run).unwrap(), vec!["v\u{FFFD}1".to_string()]);
    let fail = |_: &Vec<String>, _: &str| -> Result<GitOutput, String> {
        Ok(GitOutput { success: false, code: None, stdout: vec![], stderr: vec![0xff, b'!'] })
    };
    assert_eq!(git.tags(&fail).unwrap_err().to_string(), "git tag --list --sort=version:refname failed with status None: \u{FFFD}!");
}

#[test]
fn release_context_between_tags() {
    let git = Git::new("/r");
    let run = |args: &Vec<String>, _: &str| -> Result<GitOutput, String> {
        let out: Vec<u8> = match args[0].as_str() {
            "log" => b"h1\x1fAnn\x1fa@x\x1f2024\x1fSubj\x1fBody\x1e".to_vec(),
            "diff" => b"diff text".to_vec(),
            "ls-tree" => b"f.txt\n".to_vec(),
            "show" => vec![b'x', 0xff],
            _ => Vec::new(),
        };
        Ok(GitOutput { success: true, code: Some(0), stdout: out, stderr: vec![] })
    };
    let c = ReleaseDocContext::between(&git, &run, "v1", "v2").unwrap();
    assert_eq!(c.from, Some("v1".to_string()));
    assert_eq!(c.to, "v2");
    assert_eq!(c.commits.len(), 1);
    assert_eq!(c.commits[0].subject, "Subj");
    assert_eq!(c.diff, Some("diff text".to_string()));
    assert_eq!(c.files.len(), 1);
    assert_eq!(c.files[0].path, "f.txt");
    assert_eq!(c.files[0].content, vec![b'x', 0xff]);
    assert!(c.to_llm_context().contains("<binary file omitted>"));
}

#[test]
fn remaining_error_kinds() {
    let lf = LoadFile { path: "/p/a".to_string() };
    let e = lf.execute(true, false, |_| None).unwrap_err();
    assert_eq!(e.err_type, LoadFileErrorType::NotFound);
    assert_eq!(e.to_string(), "NotFound: /p/a");
    let ld = ListDir { path: "/p".to_string() };
    assert_eq!(ld.execute(false, true, |_| None).unwrap_err().err_type, ListDirErrorType::Forbidden);
    assert_eq!(ld.execute(true, true, |_| None).unwrap_err().err_type, ListDirErrorType::ReadFailed);
    let ast = Ast { path: "/p/a.rs".to_string() };
    assert_eq!(ast.execute(false, true, |_| None).unwrap_err().err_type, AstErrorType::Forbidden);
    assert_eq!(ast.execute(true, false, |_| None).unwrap_err().err_type, AstErrorType::NotFound);
    assert_eq!(ast.execute(true, true, |_| None).unwrap_err().err_type, AstErrorType::ExeFailed);
    assert_eq!(ast.execute(true, true, |_| Some("outline".to_string())).unwrap().data, "outline");
    let sd = ScanDir { path: "/p".to_string() };
    assert_eq!(sd.execute(false, true, |_| None).unwrap_err().err_type, ScanDirErrorType::Forbidden);
    assert_eq!(sd.execute(true, false, |_| None).unwrap_err().err_type, ScanDirErrorType::NotFound);
    assert_eq!(sd.execute(true, true, |_| None).unwrap_err().err_type, ScanDirErrorType::ReadFailed);
    let no_file = object_from(vec![("content".to_string(), JsonValue::Str("c".to_string()))]);
    let e = SaveFile::from_json(&no_file, |p: &str| Some(p.to_string())).unwrap_err();
    assert_eq!(e.err_type, SaveFileErrorType::DecodeError);
    let bad_num = object_from(vec![("file".to_string(), JsonValue::Number(JsonNumber::PosInt(1)))]);
    assert_eq!(SaveFile::from_json(&bad_num, |p: &str| Some(p.to_string())).unwrap_err().err_info, "invalid file: 1");
    let unresolved = object_from(vec![
        ("content".to_string(), JsonValue::Str("c".to_string())),
        ("file".to_string(), JsonValue::Str("../x".to_string())),
    ]);
    assert_eq!(
        SaveFile::from_json(&unresolved, |_: &str| None).unwrap_err().err_type,
        SaveFileErrorType::NotFound
    );
}

#[test]
fn error_replies_name_the_tool() {
    let e = LoadFile { path: "/p/a".to_string() }.execute(false, true, |_| None).unwrap_err();
    let reply = e.to_json(AIMessageId { val: 3 }).to_json_text();
    assert!(reply.starts_with("{\"content\":\""));
    assert!(reply.ends_with("\",\"role\":\"tool\",\"tool_call_id\":\"call_3\"}"));
    assert!(reply.contains("/p/a"));
}

#[test]
fn scan_and_list_agree() {
    let sd = ScanDir { path: "/p".to_string() };
    let ld = ListDir { path: "/p".to_string() };
    let entries = || Some(vec!["a".to_string(), "b/".to_string()]);
    let s = sd.execute(true, true, |q| { assert_eq!(q, "/p"); entries() }).unwrap();
    let l = ld.execute(true, true, |q| { assert_eq!(q, "/p"); entries() }).unwrap();
    assert_eq!(s.data, l.data);
    let se = sd.execute(true, false, |_| entries()).unwrap_err();
    let le = ld.execute(true, false, |_| entries()).unwrap_err();
    assert_eq!(format!("{:?}", se.err_type), format!("{:?}", le.err_type));
    assert_eq!(se.err_info, le.err_info);
}
