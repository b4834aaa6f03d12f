use aiagents::tasks::Tasks;
use aiagents::text::{
    append_lines, chars_eq, contains_chars, crlf_to_lf_exec, decimal_chars, find_chars, from_chars,
    join_chars, lines_chars, signed_decimal_chars, slice_range, split_chars, starts_with_chars, strings_from,
    to_chars, trim_chars, trim_end_chars,
};

fn s(v: &[char]) -> String {
    from_chars(v)
}

#[test]
fn chars_round_trip() {
    let t = "grüße\r\n";
    assert_eq!(s(&to_chars(t)), t);
    assert!(chars_eq(&to_chars("ab"), &to_chars("ab")));
    assert!(!chars_eq(&to_chars("ab"), &to_chars("abc")));
}

#[test]
fn find_and_contains() {
    let h = to_chars("abcabc");
    assert_eq!(find_chars(&h, &to_chars("bc"), 0), Some(1));
    assert_eq!(find_chars(&h, &to_chars("bc"), 2), Some(4));
    assert_eq!(find_chars(&h, &to_chars("x"), 0), None);
    assert_eq!(find_chars(&h, &to_chars(""), 3), Some(3));
    assert!(contains_chars(&h, &to_chars("ca")));
    assert!(!contains_chars(&h, &to_chars("cb")));
    assert!(starts_with_chars(&h, &to_chars("abc")));
    assert!(!starts_with_chars(&h, &to_chars("bc")));
}

#[test]
fn trimming_like_std() {
    let t = " \t hello world \n\u{A0}";
    assert_eq!(s(&trim_chars(&to_chars(t))), t.trim());
    assert_eq!(s(&trim_end_chars(&to_chars(t))), t.trim_end());
    assert_eq!(s(&trim_chars(&to_chars("   "))), "");
}

#[test]
fn crlf_becomes_lf() {
    assert_eq!(s(&crlf_to_lf_exec(&to_chars("a\r\nb\rc\r\n"))), "a\nb\rc\n");
}

#[test]
fn decimals() {
    assert_eq!(s(&decimal_chars(0)), "0");
    assert_eq!(s(&decimal_chars(1234567890)), "1234567890");
    assert_eq!(s(&decimal_chars(u64::MAX)), u64::MAX.to_string());
    assert_eq!(s(&signed_decimal_chars(-17)), "-17");
    assert_eq!(s(&signed_decimal_chars(i64::MIN)), i64::MIN.to_string());
}

#[test]
fn lines_like_str_lines() {
    let t = "one\r\ntwo\n\nthree";
    let got: Vec<String> = lines_chars(&to_chars(t)).iter().map(|l| s(l)).collect();
    let want: Vec<String> = t.lines().map(|l| l.to_string()).collect();
    assert_eq!(got, want);
    assert!(lines_chars(&to_chars("")).is_empty());
    assert_eq!(lines_chars(&to_chars("x\n")).len(), 1);
}

#[test]
fn split_like_std() {
    let t = "a:b::c";
    let got: Vec<String> = split_chars(&to_chars(t), ':', None).iter().map(|l| s(l)).collect();
    let want: Vec<String> = t.split(':').map(|x| x.to_string()).collect();
    assert_eq!(got, want);
    let got2: Vec<String> = split_chars(&to_chars(t), ':', Some(2)).iter().map(|l| s(l)).collect();
    let want2: Vec<String> = t.splitn(2, ':').map(|x| x.to_string()).collect();
    assert_eq!(got2, want2);
    assert_eq!(split_chars(&to_chars(""), ':', None).len(), 1);
}

#[test]
fn join_and_slice() {
    let parts = vec![to_chars("a"), to_chars("bc"), to_chars("")];
    assert_eq!(s(&join_chars(&parts, &to_chars(", "))), "a, bc, ");
    assert_eq!(s(&slice_range(&to_chars("hello"), 1, 3)), "el");
}

#[test]
fn lines_are_appended_with_newlines() {
    let mut v = to_chars(">");
    append_lines(&mut v, &strings_from(&["x", "y"]));
    assert_eq!(s(&v), ">x\ny\n");
}

#[test]
fn paths_are_shown_in_debug_format() {
    let r = aiagents::agenttools::save_file::SaveFileResult { path: "a\"b\n".to_string() };
    let shown = r.to_string(aiagents::aimessage::AIMessageId { val: 2 });
    assert_eq!(shown, format!("SaveFile call_2: {:?}", "a\"b\n"));
    let q = aiagents::agenttools::save_file::SaveFileResult { path: "/p/it's.rs".to_string() };
    assert_eq!(
        q.to_string(aiagents::aimessage::AIMessageId { val: 3 }),
        format!("SaveFile call_3: {:?}", std::path::PathBuf::from("/p/it's.rs"))
    );
}

#[test]
fn task_names_round_trip() {
    assert_eq!(Tasks::len(), 13);
    let names = Tasks::to_vec_str();
    assert_eq!(names.len(), Tasks::len());
    for (t, n) in Tasks::all().into_iter().zip(names.iter()) {
        assert_eq!(t.as_str(), *n);
        assert_eq!(Tasks::parse(n), Some(t));
    }
    assert_eq!(Tasks::parse("fix_code"), Some(Tasks::FixCode));
    assert_eq!(Tasks::parse("Fix_Code"), None);
    assert_eq!(Tasks::parse(""), None);
}
