use aiagents::agenttools::aitooltype::AIToolType;
use aiagents::aimessage::{id_line_string, AIMessage, AIMessageId, AIMessageList, AIMessageListData, AIMessageType, FileEntry};
use aiagents::tasks::Tasks;

fn id(v: usize) -> AIMessageId {
    AIMessageId { val: v }
}

fn empty_list(depth: usize) -> AIMessageList {
    AIMessageList::new(AIMessageListData {
        messages: vec![],
        message_id: id(0),
        depth,
        task_id: Tasks::FixCode,
        task_description: "Fix it.".to_string(),
        subtask: vec!["step one".to_string()],
        structureinfo: String::new(),
        context: String::new(),
        filelist: vec![],
        files: vec![],
        focus: String::new(),
        faults: None,
    })
}

#[test]
fn message_id_text() {
    assert_eq!(id(42).to_string(), "call_42");
    assert_eq!(id_line_string(id(3), "ok"), "call_3: ok");
}

#[test]
fn role_names() {
    assert_eq!(AIMessageType::Model.to_str(), "assistant");
    assert_eq!(AIMessageType::Tool.to_str(), "tool");
    assert!(AIMessage::new(id(1), AIMessageType::User, AIToolType::Valid, "x".to_string()).is_user());
}

#[test]
fn message_json_by_role() {
    let tool = AIMessage::new(id(5), AIMessageType::Tool, AIToolType::LoadFile, "text".to_string());
    assert_eq!(tool.to_json().to_json_text(), "{\"content\":\"text\",\"role\":\"user\",\"tool_call_id\":\"call_5\"}");
    let model = AIMessage::new(id(6), AIMessageType::Model, AIToolType::Done, "done".to_string());
    assert_eq!(
        model.to_json().to_json_text(),
        "{\"assistant_call_id\":\"call_6\",\"content\":\"done\",\"role\":\"assistant\"}"
    );
    let sys = AIMessage::new(id(1), AIMessageType::System, AIToolType::Valid, "s".to_string());
    assert_eq!(sys.to_json().to_json_text(), "{\"content\":\"s\",\"role\":\"system\"}");
    let build = AIMessage::new(id(1), AIMessageType::Build, AIToolType::Valid, "b".to_string());
    assert_eq!(build.to_json().to_json_text(), "{\"content\":\"b\",\"role\":\"user\"}");
}

#[test]
fn message_short_string() {
    let m = AIMessage::new(id(2), AIMessageType::Model, AIToolType::SaveFilePart, "x".to_string());
    assert_eq!(m.to_short_string(), "id: call_2, role: assistant, tooltype: SaveFilePart, content: x");
}

#[test]
fn inc_messageid_counts_up() {
    let mut l = empty_list(10);
    assert_eq!(l.inc_messageid().val, 1);
    assert_eq!(l.inc_messageid().val, 2);
    assert_eq!(l.message_id.val, 2);
}

#[test]
fn append_adds_one_message() {
    let mut l = empty_list(10);
    l.append(id(1), AIMessageType::User, AIToolType::Valid, "hello");
    assert_eq!(l.messages.len(), 1);
    assert_eq!(l.messages[0].data, "hello");
    assert_eq!(l.messages[0].message_id.val, 1);
}

#[test]
fn reloading_a_file_replaces_the_old_answer() {
    let mut l = empty_list(10);
    l.append(id(1), AIMessageType::Model, AIToolType::LoadFile, "src/a.rs");
    l.append(id(2), AIMessageType::Tool, AIToolType::LoadFile, "old content");
    l.append(id(3), AIMessageType::Model, AIToolType::LoadFile, "src/b.rs");
    l.append(id(4), AIMessageType::Tool, AIToolType::LoadFile, "b content");
    l.append(id(5), AIMessageType::Model, AIToolType::LoadFile, "src/a.rs");
    assert_eq!(l.messages.len(), 5);
    assert_eq!(l.messages[1].data, "REF: call_5");
    assert_eq!(l.messages[3].data, "b content");
    assert_eq!(l.messages[4].data, "src/a.rs");
}

#[test]
fn other_tools_are_not_deduplicated() {
    let mut l = empty_list(10);
    l.append(id(1), AIMessageType::Model, AIToolType::SaveFile, "src/a.rs");
    l.append(id(2), AIMessageType::Tool, AIToolType::SaveFile, "saved");
    l.append(id(3), AIMessageType::Model, AIToolType::SaveFile, "src/a.rs");
    assert_eq!(l.messages[1].data, "saved");
}

#[test]
fn cut_keeps_the_last_messages() {
    let mut l = empty_list(2);
    for i in 0..5 {
        l.append(id(i), AIMessageType::Build, AIToolType::Valid, &format!("m{}", i));
    }
    l.cut_to_depth();
    assert_eq!(l.messages.len(), 2);
    assert_eq!(l.messages[0].data, "m3");
    assert_eq!(l.messages[1].data, "m4");
    l.cut_to_depth();
    assert_eq!(l.messages.len(), 2);
}

#[test]
fn remove_type_keeps_others_in_order() {
    let mut l = empty_list(10);
    l.append(id(1), AIMessageType::Build, AIToolType::Valid, "b1");
    l.append(id(2), AIMessageType::User, AIToolType::Valid, "u");
    l.append(id(3), AIMessageType::Build, AIToolType::Valid, "b2");
    l.append(id(4), AIMessageType::Model, AIToolType::Done, "m");
    l.remove_type(AIMessageType::Build);
    let left: Vec<&str> = l.messages.iter().map(|m| m.data.as_str()).collect();
    assert_eq!(left, vec!["u", "m"]);
}

#[test]
fn clear_drops_messages_and_faults() {
    let mut l = empty_list(10);
    l.faults = Some("error".to_string());
    l.append(id(1), AIMessageType::User, AIToolType::Valid, "u");
    l.clear();
    assert!(l.messages.is_empty());
    assert!(l.faults.is_none());
    assert_eq!(l.task_description, "Fix it.");
}

#[test]
fn request_puts_context_before_first_user_message() {
    let mut l = empty_list(10);
    l.files = vec![FileEntry { path: "a.rs".to_string(), text: "FILE a.rs".to_string() }];
    l.note = "remember".to_string();
    l.append(id(1), AIMessageType::User, AIToolType::Valid, "go");
    let text = l.to_json().to_json_text();
    assert_eq!(
        text,
        "[{\"content\":\"Fix it.\\nstep one\\n=== FILES ===\\nFILE a.rs\\n=== NOTE ===\\nremember\\ngo\",\"role\":\"user\"}]"
    );
}

#[test]
fn request_sends_context_alone_without_user_message() {
    let mut l = empty_list(10);
    l.context = "ctx".to_string();
    l.faults = Some("E1".to_string());
    l.append(id(1), AIMessageType::Model, AIToolType::Done, "m");
    let text = l.to_json().to_json_text();
    assert_eq!(
        text,
        "[{\"content\":\"Fix it.\\nstep one\\n=== CONTEXT ===\\nctx\\nE1\\n\",\"role\":\"user\"},{\"assistant_call_id\":\"call_1\",\"content\":\"m\",\"role\":\"assistant\"}]"
    );
}

#[test]
fn short_string_of_list() {
    let mut l = empty_list(10);
    l.focus = "f".to_string();
    l.append(id(1), AIMessageType::Build, AIToolType::Valid, "b");
    assert_eq!(
        l.to_short_string(),
        "step one\n=== FOCUS ===\nf\n==2= id: call_1, role: build, tooltype: Valid, content: b\n"
    );
    let mut u = empty_list(10);
    u.append(id(1), AIMessageType::User, AIToolType::Valid, "u");
    assert_eq!(u.to_short_string(), "==1= id: call_1, role: user, tooltype: Valid, content: step one\nu\n");
}
