//! Messages exchanged with the model.

use vstd::prelude::*;
use crate::agenttools::aitooltype::{tool_debug_name, AIToolType};
use crate::json::{array_from, array_text, item_texts, json_text, member_text, member_texts, object_from, object_text, str_member, JsonValue};
use crate::json_text::json_quote;
use crate::tasks::Tasks;
use crate::text::{append_chars, append_lines, append_str, chars_eq, decimal, decimal_chars, from_chars, join, join_chars, lemma_lines_text_push, lines_text, strings_text, to_chars};

verus! {

/// The role of a message.
#[derive(Debug, Clone, Copy, PartialEq, Eq, Structural)]
pub enum AIMessageType {
    System,
    User,
    Build,
    Tool,
    Model,
}

/// The number of a message; shown to the model as `call_<number>`.
#[derive(Debug, Clone, Copy, PartialEq, Eq, Structural)]
pub struct AIMessageId {
    pub val: usize,
}

/// One message of the conversation.
#[derive(Debug, Clone)]
pub struct AIMessage {
    pub message_id: AIMessageId,
    pub msgtype: AIMessageType,
    pub tooltype: AIToolType,
    pub data: String,
}

/// Information attached to a message that refers to a file.
#[derive(Debug, Clone)]
pub struct AIFileinfo {
    pub message_id: String,
}

/// The role name sent to the model for a message type.
pub open spec fn role_name(t: AIMessageType) -> Seq<char> {
    match t {
        AIMessageType::System => "system"@,
        AIMessageType::User => "user"@,
        AIMessageType::Build => "build"@,
        AIMessageType::Tool => "tool"@,
        AIMessageType::Model => "assistant"@,
    }
}

/// The text of a message id (its `Display` output).
pub open spec fn id_text(id: AIMessageId) -> Seq<char> {
    "call_"@ + decimal(id.val as nat)
}

impl AIMessageType {
    /// The role name of the message type.
    pub fn to_str(&self) -> (r: &'static str)
        ensures
            r@ == role_name(*self),
    {
        match self {
            AIMessageType::System => "system",
            AIMessageType::User => "user",
            AIMessageType::Build => "build",
            AIMessageType::Tool => "tool",
            AIMessageType::Model => "assistant",
        }
    }
}

impl AIMessageId {
    /// The characters of `call_<number>`.
    pub fn text_chars(&self) -> (r: Vec<char>)
        ensures
            r@ == id_text(*self),
    {
        let mut r = to_chars("call_");
        let d = decimal_chars(self.val as u64);
        append_chars(&mut r, d.as_slice());
        r
    }

    /// The text `call_<number>` (as `Display`).
    pub fn to_string(&self) -> (r: String)
        ensures
            r@ == id_text(*self),
    {
        let v = self.text_chars();
        from_chars(v.as_slice())
    }
}

/// The short description of a message with the given parts.
pub open spec fn short_line(id: AIMessageId, t: AIMessageType, tt: AIToolType, data: Seq<char>) -> Seq<char> {
    "id: "@ + id_text(id) + ", role: "@ + role_name(t) + ", tooltype: "@ + tool_debug_name(tt)
        + ", content: "@ + data
}

/// The short description of a message used in debug output.
pub open spec fn message_short_text(m: AIMessage) -> Seq<char> {
    short_line(m.message_id, m.msgtype, m.tooltype, m.data@)
}

/// The JSON text sent to the model for a message with the given parts.
pub open spec fn message_json(id: AIMessageId, t: AIMessageType, data: Seq<char>) -> Seq<char> {
    let content = member_text("content"@, json_quote(data));
    let call_id = json_quote(id_text(id));
    match t {
        AIMessageType::Tool => object_text(
            seq![content, member_text("role"@, json_quote("user"@)), member_text("tool_call_id"@, call_id)],
        ),
        AIMessageType::Model => object_text(
            seq![member_text("assistant_call_id"@, call_id), content, member_text("role"@, json_quote("assistant"@))],
        ),
        AIMessageType::System => object_text(seq![content, member_text("role"@, json_quote("system"@))]),
        _ => object_text(seq![content, member_text("role"@, json_quote("user"@))]),
    }
}

/// The JSON text sent to the model for a message.
pub open spec fn message_json_text(m: AIMessage) -> Seq<char> {
    message_json(m.message_id, m.msgtype, m.data@)
}

impl AIMessage {
    /// Creates a message.
    pub fn new(
        message_id: AIMessageId,
        msgtype: AIMessageType,
        tooltype: AIToolType,
        data: String,
    ) -> (r: Self)
        ensures
            r == (AIMessage { message_id, msgtype, tooltype, data }),
    {
        Self { message_id, msgtype, tooltype, data }
    }

    /// Whether the message comes from the user.
    pub fn is_user(&self) -> (b: bool)
        ensures
            b == (self.msgtype == AIMessageType::User),
    {
        AIMessageType::User == self.msgtype
    }

    /// The message as the model receives it: tool results are sent with the
    /// role `user` and their call id, model messages with the role
    /// `assistant` and their call id, build messages with the role `user`.
    pub fn to_json(&self) -> (r: JsonValue)
        ensures
            json_text(r) == message_json_text(*self),
    {
        let content = str_member("content", self.data.clone());
        let mut members: Vec<(String, JsonValue)> = Vec::new();
        match self.msgtype {
            AIMessageType::Tool => {
                members.push(content);
                members.push(str_member("role", "user".to_string()));
                members.push(str_member("tool_call_id", self.message_id.to_string()));
            },
            AIMessageType::Model => {
                members.push(str_member("assistant_call_id", self.message_id.to_string()));
                members.push(content);
                members.push(str_member("role", "assistant".to_string()));
            },
            AIMessageType::System => {
                members.push(content);
                members.push(str_member("role", "system".to_string()));
            },
            _ => {
                members.push(content);
                members.push(str_member("role", "user".to_string()));
            },
        }
        let r = object_from(members);
        proof {
            reveal_strlit("user");
            reveal_strlit("assistant");
            reveal_strlit("system");
            reveal_strlit("content");
            reveal_strlit("role");
            reveal_strlit("tool_call_id");
            reveal_strlit("assistant_call_id");
            let ms = member_texts(members@);
            let expected = message_json_text(*self);
            match self.msgtype {
                AIMessageType::Tool => {
                    assert(ms =~= seq![
                        member_text("content"@, json_quote(self.data@)),
                        member_text("role"@, json_quote("user"@)),
                        member_text("tool_call_id"@, json_quote(id_text(self.message_id))),
                    ]);
                },
                AIMessageType::Model => {
                    assert(ms =~= seq![
                        member_text("assistant_call_id"@, json_quote(id_text(self.message_id))),
                        member_text("content"@, json_quote(self.data@)),
                        member_text("role"@, json_quote("assistant"@)),
                    ]);
                },
                AIMessageType::System => {
                    assert(ms =~= seq![
                        member_text("content"@, json_quote(self.data@)),
                        member_text("role"@, json_quote("system"@)),
                    ]);
                },
                _ => {
                    assert(ms =~= seq![
                        member_text("content"@, json_quote(self.data@)),
                        member_text("role"@, json_quote("user"@)),
                    ]);
                },
            }
        }
        r
    }

    /// `id: …, role: …, tooltype: …, content: …`.
    pub fn to_short_string(&self) -> (r: String)
        ensures
            r@ == message_short_text(*self),
    {
        let mut v = to_chars("id: ");
        let id = self.message_id.text_chars();
        append_chars(&mut v, id.as_slice());
        append_str(&mut v, ", role: ");
        append_str(&mut v, self.msgtype.to_str());
        append_str(&mut v, ", tooltype: ");
        append_str(&mut v, self.tooltype.debug_name());
        append_str(&mut v, ", content: ");
        append_str(&mut v, self.data.as_str());
        from_chars(v.as_slice())
    }
}

} // verus!

verus! {

/// `call_<number>: ` followed by `data`: how most tool results are shown.
pub open spec fn id_line(id: AIMessageId, data: Seq<char>) -> Seq<char> {
    id_text(id) + ": "@ + data
}

/// Builds `call_<number>: <data>`.
pub fn id_line_string(id: AIMessageId, data: &str) -> (r: String)
    ensures
        r@ == id_line(id, data@),
{
    let mut v = id.text_chars();
    append_str(&mut v, ": ");
    append_str(&mut v, data);
    from_chars(v.as_slice())
}

} // verus!

verus! {

/// A file the conversation refers to: its path and the text with which it
/// is shown to the model.
#[derive(Debug, Clone)]
pub struct FileEntry {
    pub path: String,
    pub text: String,
}

/// The conversation with the model together with the context that heads it:
/// the task, its subtasks, the structure of the sources, the context of the
/// current step, the files the model may ask for (`filelist`, relative
/// paths) and those it is shown, a note, the focus and the faults to fix.
#[derive(Debug, Clone)]
pub struct AIMessageList {
    pub messages: Vec<AIMessage>,
    pub message_id: AIMessageId,
    pub depth: usize,
    pub task_id: Tasks,
    pub task_description: String,
    pub subtask: Vec<String>,
    pub structureinfo: String,
    pub context: String,
    pub filelist: Vec<String>,
    pub files: Vec<FileEntry>,
    pub note: String,
    pub focus: String,
    pub faults: Option<String>,
}

/// What a message list is made from (everything but the note).
#[derive(Debug, Clone)]
pub struct AIMessageListData {
    pub messages: Vec<AIMessage>,
    pub message_id: AIMessageId,
    pub depth: usize,
    pub task_id: Tasks,
    pub task_description: String,
    pub subtask: Vec<String>,
    pub structureinfo: String,
    pub context: String,
    pub filelist: Vec<String>,
    pub files: Vec<FileEntry>,
    pub focus: String,
    pub faults: Option<String>,
}


/// The texts with which the files are shown.
pub open spec fn file_texts(files: Seq<FileEntry>) -> Seq<Seq<char>> {
    Seq::new(files.len(), |i: int| files[i].text@)
}

/// A titled part of the context: the title line, then the body and a newline.
pub open spec fn section(title: Seq<char>, body: Seq<char>) -> Seq<char> {
    title + seq!['\n'] + body + seq!['\n']
}

/// The section, or nothing when its body is empty.
pub open spec fn optional_section(title: Seq<char>, body: Seq<char>) -> Seq<char> {
    if body.len() == 0 {
        Seq::empty()
    } else {
        section(title, body)
    }
}

/// The part of the context that lists the files, or nothing without files.
pub open spec fn files_part(files: Seq<FileEntry>) -> Seq<char> {
    if files.len() == 0 {
        Seq::empty()
    } else {
        section("=== FILES ==="@, join(file_texts(files), seq!['\n']))
    }
}

/// The faults followed by a newline, or nothing without faults.
pub open spec fn faults_part(faults: Option<String>) -> Seq<char> {
    match faults {
        Some(f) => f@ + seq!['\n'],
        None => Seq::empty(),
    }
}

/// The end of the context common to the request and the short description:
/// files, faults, note and focus.
pub open spec fn context_tail(l: AIMessageList) -> Seq<char> {
    files_part(l.files@) + faults_part(l.faults) + optional_section("=== NOTE ==="@, l.note@)
        + optional_section("=== FOCUS ==="@, l.focus@)
}

/// The context that heads a request: the task description, the subtasks,
/// the structure information, the context of the step and the common end.
pub open spec fn request_context(l: AIMessageList) -> Seq<char> {
    l.task_description@ + seq!['\n'] + lines_text(strings_text(l.subtask@)) + optional_section(
        "=== INFO/AST ==="@,
        l.structureinfo@,
    ) + optional_section("=== CONTEXT ==="@, l.context@) + context_tail(l)
}

/// The context that heads the short description: the subtasks and the
/// common end.
pub open spec fn short_context(l: AIMessageList) -> Seq<char> {
    lines_text(strings_text(l.subtask@)) + context_tail(l)
}

/// Whether the conversation opens with a user message, into which the
/// context is then folded.
pub open spec fn opens_with_user(l: AIMessageList) -> bool {
    l.messages@.len() > 0 && l.messages@[0].msgtype == AIMessageType::User
}

/// The JSON texts of the messages of a request, in order.
pub open spec fn request_items(l: AIMessageList) -> Seq<Seq<char>> {
    let msgs = l.messages@;
    if opens_with_user(l) {
        Seq::new(
            msgs.len(),
            |i: int|
                if i == 0 {
                    message_json(msgs[0].message_id, msgs[0].msgtype, request_context(l) + msgs[0].data@)
                } else {
                    message_json_text(msgs[i])
                },
        )
    } else {
        seq![
            object_text(
                seq![
                    member_text("content"@, json_quote(request_context(l))),
                    member_text("role"@, json_quote("user"@)),
                ],
            ),
        ] + Seq::new(msgs.len(), |i: int| message_json_text(msgs[i]))
    }
}

/// The short description of the list: without the task description and
/// the structure information.
pub open spec fn list_short_text(l: AIMessageList) -> Seq<char> {
    let msgs = l.messages@;
    if opens_with_user(l) {
        lines_text(
            Seq::new(
                msgs.len(),
                |i: int|
                    if i == 0 {
                        "==1= "@ + short_line(
                            msgs[0].message_id,
                            msgs[0].msgtype,
                            msgs[0].tooltype,
                            short_context(l) + msgs[0].data@,
                        )
                    } else {
                        "==1= "@ + message_short_text(msgs[i])
                    },
            ),
        )
    } else {
        short_context(l) + lines_text(Seq::new(msgs.len(), |i: int| "==2= "@ + message_short_text(msgs[i])))
    }
}


/// Appends `title`, a newline, `body` and a newline when `body` is not empty.
fn append_optional_section(v: &mut Vec<char>, title: &str, body: &str)
    ensures
        final(v)@ == old(v)@ + optional_section(title@, body@),
{
    let ghost v0 = v@;
    let b = to_chars(body);
    if b.len() > 0 {
        append_str(v, title);
        v.push('\n');
        append_chars(v, b.as_slice());
        v.push('\n');
        assert(v@ =~= v0 + section(title@, body@));
    } else {
        assert(v@ =~= v0 + optional_section(title@, body@));
    }
}

/// What a message holds, with its text as characters.
pub struct MessageView {
    pub message_id: AIMessageId,
    pub msgtype: AIMessageType,
    pub tooltype: AIToolType,
    pub data: Seq<char>,
}

impl View for AIMessage {
    type V = MessageView;

    open spec fn view(&self) -> MessageView {
        MessageView {
            message_id: self.message_id,
            msgtype: self.msgtype,
            tooltype: self.tooltype,
            data: self.data@,
        }
    }
}

/// What the messages hold.
pub open spec fn messages_view(v: Seq<AIMessage>) -> Seq<MessageView> {
    Seq::new(v.len(), |i: int| v[i]@)
}

/// Whether `m` is the model's request for a tool of type `tt`.
pub open spec fn is_request(m: MessageView, tt: AIToolType) -> bool {
    m.msgtype == AIMessageType::Model && m.tooltype == tt
}

/// Whether, after the first `n` messages, a request of type `tt` for `name`
/// is still waiting for the message that answered it: a request for `name`
/// sets this, a later request keeps it, any other message ends it.
pub open spec fn request_pending(msgs: Seq<MessageView>, tt: AIToolType, name: Seq<char>, n: int) -> bool
    decreases n,
{
    if n <= 0 {
        false
    } else if is_request(msgs[n - 1], tt) {
        request_pending(msgs, tt, name, n - 1) || msgs[n - 1].data == name
    } else {
        false
    }
}

/// The text that replaces an answer that a later call made again.
pub open spec fn ref_text(id: AIMessageId) -> Seq<char> {
    "REF: "@ + id_text(id)
}

/// The messages after the pass that replaces each answer to an earlier
/// request for `name` by a reference to the call `id`.
pub open spec fn replace_answers(
    msgs: Seq<MessageView>,
    tt: AIToolType,
    name: Seq<char>,
    id: AIMessageId,
) -> Seq<MessageView> {
    Seq::new(
        msgs.len(),
        |i: int|
            if !is_request(msgs[i], tt) && request_pending(msgs, tt, name, i) {
                MessageView { data: ref_text(id), ..msgs[i] }
            } else {
                msgs[i]
            },
    )
}

/// Whether messages of tool type `tt` are files whose earlier copies are
/// replaced by references when they are loaded again.
pub open spec fn dedups_answers(tt: AIToolType) -> bool {
    tt == AIToolType::LoadFile || tt == AIToolType::Ast
}

/// The messages after appending one with the given parts (see `append`).
pub open spec fn appended(
    msgs: Seq<MessageView>,
    id: AIMessageId,
    t: AIMessageType,
    tt: AIToolType,
    data: Seq<char>,
) -> Seq<MessageView> {
    let pushed = msgs.push(MessageView { message_id: id, msgtype: t, tooltype: tt, data });
    if dedups_answers(tt) {
        replace_answers(pushed, tt, data, id)
    } else {
        pushed
    }
}

/// The messages that are not of type `t`, in their order.
pub open spec fn without_type(msgs: Seq<AIMessage>, t: AIMessageType) -> Seq<AIMessage> {
    msgs.filter(|m: AIMessage| m.msgtype != t)
}

/// The last `depth` of the messages (all of them when there are fewer).
pub open spec fn kept_messages(msgs: Seq<AIMessage>, depth: nat) -> Seq<AIMessage> {
    if msgs.len() > depth {
        msgs.subrange(msgs.len() - depth, msgs.len() as int)
    } else {
        msgs
    }
}

impl AIMessageList {
    /// A list made from `data`, with an empty note.
    pub fn new(data: AIMessageListData) -> (r: Self)
        ensures
            r.messages == data.messages,
            r.message_id == data.message_id,
            r.depth == data.depth,
            r.task_id == data.task_id,
            r.task_description == data.task_description,
            r.subtask == data.subtask,
            r.structureinfo == data.structureinfo,
            r.context == data.context,
            r.filelist == data.filelist,
            r.files == data.files,
            r.note@ == Seq::<char>::empty(),
            r.focus == data.focus,
            r.faults == data.faults,
    {
        Self {
            messages: data.messages,
            message_id: data.message_id,
            depth: data.depth,
            task_id: data.task_id,
            task_description: data.task_description,
            subtask: data.subtask,
            structureinfo: data.structureinfo,
            context: data.context,
            filelist: data.filelist,
            files: data.files,
            note: String::new(),
            focus: data.focus,
            faults: data.faults,
        }
    }

    /// Advances the message id by one and returns the new id.
    pub fn inc_messageid(&mut self) -> (r: AIMessageId)
        requires
            old(self).message_id.val < usize::MAX,
        ensures
            r.val == old(self).message_id.val + 1,
            *final(self) == (AIMessageList { message_id: r, ..*old(self) }),
    {
        self.message_id.val = self.message_id.val + 1;
        self.message_id
    }

    /// Appends a message. When it loads a file (or its structure), the
    /// answers to earlier requests for the same file are replaced by a
    /// reference to this call.
    pub fn append(&mut self, message_id: AIMessageId, msgtype: AIMessageType, tooltype: AIToolType, data: &str)
        ensures
            messages_view(final(self).messages@) == appended(
                messages_view(old(self).messages@),
                message_id,
                msgtype,
                tooltype,
                data@,
            ),
            *final(self) == (AIMessageList { messages: final(self).messages, ..*old(self) }),
    {
        let ghost pushed = messages_view(self.messages@).push(
            MessageView { message_id, msgtype, tooltype, data: data@ },
        );
        self.messages.push(AIMessage::new(message_id, msgtype, tooltype, data.to_string()));
        assert(messages_view(self.messages@) =~= pushed);
        if AIToolType::LoadFile == tooltype || AIToolType::Ast == tooltype {
            let name = to_chars(data);
            let mut reference = to_chars("REF: ");
            let id = message_id.text_chars();
            append_chars(&mut reference, id.as_slice());
            let ghost expected = replace_answers(pushed, tooltype, data@, message_id);
            let ghost before = *self;
            let n = self.messages.len();
            let mut found = false;
            let mut i: usize = 0;
            while i < n
                invariant
                    n == pushed.len(),
                    i <= n,
                    name@ == data@,
                    reference@ == ref_text(message_id),
                    expected == replace_answers(pushed, tooltype, data@, message_id),
                    found == request_pending(pushed, tooltype, data@, i as int),
                    self.messages@.len() == n,
                    forall|j: int| 0 <= j < i ==> #[trigger] self.messages@[j]@ == expected[j],
                    forall|j: int| i <= j < n ==> #[trigger] self.messages@[j]@ == pushed[j],
                    *self == (AIMessageList { messages: self.messages, ..before }),
                decreases n - i,
            {
                let m = &self.messages[i];
                assert(m@ == pushed[i as int]);
                if AIMessageType::Model == m.msgtype && tooltype == m.tooltype {
                    let d = to_chars(m.data.as_str());
                    if chars_eq(d.as_slice(), name.as_slice()) {
                        found = true;
                    }
                } else {
                    if found {
                        let replaced = AIMessage::new(m.message_id, m.msgtype, m.tooltype, from_chars(reference.as_slice()));
                        self.messages.set(i, replaced);
                        found = false;
                    }
                }
                i = i + 1;
            }
            assert(messages_view(self.messages@) =~= expected);
        }
    }

    /// Appends the common end of the context: files, faults, note, focus.
    fn append_context_tail(&self, v: &mut Vec<char>)
        ensures
            final(v)@ == old(v)@ + context_tail(*self),
    {
        let ghost v0 = v@;
        if self.files.len() > 0 {
            let mut texts: Vec<Vec<char>> = Vec::new();
            for i in 0..self.files.len()
                invariant
                    texts@.len() == i,
                    forall|j: int| 0 <= j < i ==> #[trigger] texts@[j]@ == self.files@[j].text@,
            {
                texts.push(to_chars(self.files[i].text.as_str()));
            }
            let joined = join_chars(&texts, &['\n']);
            assert(texts@.map_values(|p: Vec<char>| p@) =~= file_texts(self.files@));
            assert(seq!['\n'] =~= ['\n']@);
            append_str(v, "=== FILES ===");
            v.push('\n');
            append_chars(v, joined.as_slice());
            v.push('\n');
        }
        assert(v@ =~= v0 + files_part(self.files@));
        let ghost v1 = v@;
        match &self.faults {
            Some(f) => {
                append_str(v, f.as_str());
                v.push('\n');
            },
            None => {},
        }
        assert(v@ =~= v1 + faults_part(self.faults));
        append_optional_section(v, "=== NOTE ===", self.note.as_str());
        append_optional_section(v, "=== FOCUS ===", self.focus.as_str());
        assert(v@ =~= v0 + context_tail(*self));
    }

    /// The context that heads a request.
    fn request_context_chars(&self) -> (r: Vec<char>)
        ensures
            r@ == request_context(*self),
    {
        let mut v = to_chars(self.task_description.as_str());
        v.push('\n');
        append_lines(&mut v, &self.subtask);
        append_optional_section(&mut v, "=== INFO/AST ===", self.structureinfo.as_str());
        append_optional_section(&mut v, "=== CONTEXT ===", self.context.as_str());
        self.append_context_tail(&mut v);
        assert(v@ =~= request_context(*self));
        v
    }

    /// The request for the model: the context followed by the messages. When
    /// the conversation opens with a user message, the context is put in
    /// front of that message's text; otherwise it is sent first, as a user
    /// message of its own.
    pub fn to_json(&self) -> (r: JsonValue)
        ensures
            json_text(r) == array_text(request_items(*self)),
    {
        let context = self.request_context_chars();
        let n = self.messages.len();
        let ghost expected = request_items(*self);
        let mut items: Vec<JsonValue> = Vec::new();
        let start: usize;
        if n > 0 && self.messages[0].is_user() {
            let first = &self.messages[0];
            let mut data = context;
            append_str(&mut data, first.data.as_str());
            let m = AIMessage::new(first.message_id, first.msgtype, first.tooltype, from_chars(data.as_slice()));
            items.push(m.to_json());
            start = 1;
        } else {
            let mut members: Vec<(String, JsonValue)> = Vec::new();
            members.push(str_member("content", from_chars(context.as_slice())));
            members.push(str_member("role", "user".to_string()));
            let head = object_from(members);
            proof {
                reveal_strlit("content");
                reveal_strlit("role");
                reveal_strlit("user");
                assert(member_texts(members@) =~= seq![
                    member_text("content"@, json_quote(request_context(*self))),
                    member_text("role"@, json_quote("user"@)),
                ]);
            }
            items.push(head);
            start = 0;
        }
        let offset: usize = 1 - start;
        assert(expected.len() == n + offset);
        assert(json_text(items@[0]) == expected[0]);
        let mut i: usize = start;
        while i < n
            invariant
                n == self.messages@.len(),
                start <= i <= n,
                start <= 1,
                offset == 1 - start,
                start == 1 ==> opens_with_user(*self),
                start == 0 ==> !opens_with_user(*self),
                expected == request_items(*self),
                expected.len() == n + offset,
                items@.len() == i + offset,
                forall|j: int| 0 <= j < items@.len() ==> #[trigger] json_text(items@[j]) == expected[j],
            decreases n - i,
        {
            let item = self.messages[i].to_json();
            items.push(item);
            i = i + 1;
        }
        let ghost texts = item_texts(items@);
        assert(texts =~= expected);
        array_from(items)
    }

    /// A description of the list for debug output, without the task
    /// description and the structure information.
    pub fn to_short_string(&self) -> (r: String)
        ensures
            r@ == list_short_text(*self),
    {
        let mut context = Vec::new();
        append_lines(&mut context, &self.subtask);
        self.append_context_tail(&mut context);
        assert(context@ =~= short_context(*self));
        let n = self.messages.len();
        let ghost msgs = self.messages@;
        let ghost parts: Seq<Seq<char>> = if opens_with_user(*self) {
            Seq::new(
                n as nat,
                |j: int|
                    if j == 0 {
                        "==1= "@ + short_line(
                            msgs[0].message_id,
                            msgs[0].msgtype,
                            msgs[0].tooltype,
                            short_context(*self) + msgs[0].data@,
                        )
                    } else {
                        "==1= "@ + message_short_text(msgs[j])
                    },
            )
        } else {
            Seq::new(n as nat, |j: int| "==2= "@ + message_short_text(msgs[j]))
        };
        let mut out: Vec<char>;
        let ghost base: Seq<char>;
        let start: usize;
        if n > 0 && self.messages[0].is_user() {
            let first = &self.messages[0];
            let mut data = context;
            append_str(&mut data, first.data.as_str());
            let m = AIMessage::new(first.message_id, first.msgtype, first.tooltype, from_chars(data.as_slice()));
            out = to_chars("==1= ");
            let line = m.to_short_string();
            append_str(&mut out, line.as_str());
            out.push('\n');
            proof {
                base = Seq::empty();
                assert(parts.take(1) =~= Seq::<Seq<char>>::empty().push(parts[0]));
                lemma_lines_text_push(Seq::<Seq<char>>::empty(), parts[0]);
            }
            start = 1;
        } else {
            out = context;
            proof {
                base = short_context(*self);
                assert(parts.take(0) =~= Seq::<Seq<char>>::empty());
            }
            start = 0;
        }
        let mut i: usize = start;
        while i < n
            invariant
                n == msgs.len(),
                msgs == self.messages@,
                start <= i <= n,
                start <= 1,
                parts.len() == n,
                start == 1 ==> opens_with_user(*self) && parts == Seq::new(
                    n as nat,
                    |j: int|
                        if j == 0 {
                            "==1= "@ + short_line(
                                msgs[0].message_id,
                                msgs[0].msgtype,
                                msgs[0].tooltype,
                                short_context(*self) + msgs[0].data@,
                            )
                        } else {
                            "==1= "@ + message_short_text(msgs[j])
                        },
                ),
                start == 0 ==> !opens_with_user(*self) && parts == Seq::new(
                    n as nat,
                    |j: int| "==2= "@ + message_short_text(msgs[j]),
                ),
                out@ == base + lines_text(parts.take(i as int)),
            decreases n - i,
        {
            if start == 1 {
                append_str(&mut out, "==1= ");
            } else {
                append_str(&mut out, "==2= ");
            }
            let line = self.messages[i].to_short_string();
            append_str(&mut out, line.as_str());
            out.push('\n');
            proof {
                assert(parts.take(i + 1) =~= parts.take(i as int).push(parts[i as int]));
                lemma_lines_text_push(parts.take(i as int), parts[i as int]);
            }
            i = i + 1;
        }
        assert(parts.take(n as int) =~= parts);
        from_chars(out.as_slice())
    }

    /// Drops the faults and all messages.
    pub fn clear(&mut self)
        ensures
            final(self).messages@ == Seq::<AIMessage>::empty(),
            final(self).faults is None,
            *final(self) == (AIMessageList {
                messages: final(self).messages,
                faults: None,
                ..*old(self)
            }),
    {
        self.faults = None;
        self.messages.clear();
    }

    /// Keeps only the last `depth` messages.
    pub fn cut_to_depth(&mut self)
        ensures
            final(self).messages@ == kept_messages(old(self).messages@, old(self).depth as nat),
            *final(self) == (AIMessageList { messages: final(self).messages, ..*old(self) }),
    {
        if self.messages.len() > self.depth {
            let start = self.messages.len() - self.depth;
            let kept = self.messages.split_off(start);
            self.messages = kept;
        }
    }

    /// Removes every message of type `t`, keeping the others in order.
    pub fn remove_type(&mut self, t: AIMessageType)
        ensures
            final(self).messages@ == without_type(old(self).messages@, t),
            *final(self) == (AIMessageList { messages: final(self).messages, ..*old(self) }),
    {
        let mut old_messages: Vec<AIMessage> = Vec::new();
        std::mem::swap(&mut old_messages, &mut self.messages);
        let ghost all = old_messages@;
        let ghost keep = |m: AIMessage| m.msgtype != t;
        let mut kept: Vec<AIMessage> = Vec::new();
        for m in it: old_messages
            invariant
                it.seq() == all,
                keep == (|m: AIMessage| m.msgtype != t),
                kept@ == all.take(it.index() as int).filter(keep),
        {
            let ghost k = it.index() as int;
            let ghost before = kept@;
            if m.msgtype != t {
                kept.push(m);
            }
            proof {
                assert(all.take(k + 1).drop_last() =~= all.take(k));
                assert(all.take(k + 1).last() == m);
                assert(all.take(k + 1).filter(keep) == if keep(m) {
                    before.push(m)
                } else {
                    before
                }) by {
                    reveal(Seq::filter);
                }
            }
        }
        proof {
            assert(all.take(all.len() as int) =~= all);
        }
        self.messages = kept;
    }
}

} // verus!

verus! {

/// Appending adds exactly one message, with the given id, type and tool
/// type, after the others; no message changes its id, type or tool type,
/// and only answers to an earlier request for the same file may have their
/// text replaced (by a reference to the new call).
pub proof fn law_append_adds_one(
    msgs: Seq<MessageView>,
    id: AIMessageId,
    t: AIMessageType,
    tt: AIToolType,
    data: Seq<char>,
)
    ensures
        appended(msgs, id, t, tt, data).len() == msgs.len() + 1,
        appended(msgs, id, t, tt, data).last().message_id == id,
        appended(msgs, id, t, tt, data).last().msgtype == t,
        appended(msgs, id, t, tt, data).last().tooltype == tt,
        forall|i: int|
            0 <= i < msgs.len() ==> {
                let m = #[trigger] appended(msgs, id, t, tt, data)[i];
                &&& m.message_id == msgs[i].message_id
                &&& m.msgtype == msgs[i].msgtype
                &&& m.tooltype == msgs[i].tooltype
                &&& (m.data == msgs[i].data || (dedups_answers(tt) && !is_request(msgs[i], tt) && m.data
                    == ref_text(id)))
            },
        !dedups_answers(tt) ==> appended(msgs, id, t, tt, data) == msgs.push(
            MessageView { message_id: id, msgtype: t, tooltype: tt, data },
        ),
{
    let pushed = msgs.push(MessageView { message_id: id, msgtype: t, tooltype: tt, data });
    assert forall|i: int| 0 <= i < msgs.len() implies pushed[i] == msgs[i] by {}
}

/// After cutting, at most `depth` messages are left, and cutting again
/// changes nothing.
pub proof fn law_cut_is_bounded(msgs: Seq<AIMessage>, depth: nat)
    ensures
        kept_messages(msgs, depth).len() <= depth,
        kept_messages(kept_messages(msgs, depth), depth) == kept_messages(msgs, depth),
{
}

/// After removing a type, no message of that type is left, the others keep
/// their order, and removing it again changes nothing.
pub proof fn law_remove_type(msgs: Seq<AIMessage>, t: AIMessageType)
    ensures
        forall|i: int|
            0 <= i < without_type(msgs, t).len() ==> (#[trigger] without_type(msgs, t)[i]).msgtype != t,
        without_type(without_type(msgs, t), t) == without_type(msgs, t),
{
    let f = without_type(msgs, t);
    assert forall|i: int| 0 <= i < f.len() implies (#[trigger] f[i]).msgtype != t by {
        broadcast use vstd::seq_lib::group_filter_ensures;

    }
    lemma_filter_keeps_all(f, |m: AIMessage| m.msgtype != t);
}

/// Filtering a sequence whose items all pass changes nothing.
proof fn lemma_filter_keeps_all(s: Seq<AIMessage>, pred: spec_fn(AIMessage) -> bool)
    requires
        forall|i: int| 0 <= i < s.len() ==> pred(#[trigger] s[i]),
    ensures
        s.filter(pred) == s,
    decreases s.len(),
{
    reveal(Seq::filter);
    if s.len() > 0 {
        assert forall|i: int| 0 <= i < s.drop_last().len() implies pred(#[trigger] s.drop_last()[i]) by {
            assert(s.drop_last()[i] == s[i]);
        }
        lemma_filter_keeps_all(s.drop_last(), pred);
        assert(s.drop_last().push(s.last()) =~= s);
    }
}

} // verus!

verus! {

/// The request and the short description end alike, and say everything
/// the conversation holds for the model: the request's context is the task
/// description and a line feed, the subtasks one per line, the structure
/// information and the step's context (each under its title, when not
/// empty), then the files under `=== FILES ===` (one text per line, when
/// there are any), the faults, the note under `=== NOTE ===` and the focus
/// under `=== FOCUS ===` (each when set); the short description's context
/// is the subtasks followed by the same end.
pub proof fn law_context_says_everything(l: AIMessageList)
    ensures
        request_context(l) == l.task_description@ + "\n"@ + lines_text(strings_text(l.subtask@)) + (if l.structureinfo@.len() == 0 {
            Seq::<char>::empty()
        } else {
            "=== INFO/AST ===\n"@ + l.structureinfo@ + "\n"@
        }) + (if l.context@.len() == 0 {
            Seq::<char>::empty()
        } else {
            "=== CONTEXT ===\n"@ + l.context@ + "\n"@
        }) + (if l.files@.len() == 0 {
            Seq::<char>::empty()
        } else {
            "=== FILES ===\n"@ + join(Seq::new(l.files@.len(), |i: int| l.files@[i].text@), "\n"@) + "\n"@
        }) + (match l.faults {
            Some(f) => f@ + "\n"@,
            None => Seq::<char>::empty(),
        }) + (if l.note@.len() == 0 {
            Seq::<char>::empty()
        } else {
            "=== NOTE ===\n"@ + l.note@ + "\n"@
        }) + (if l.focus@.len() == 0 {
            Seq::<char>::empty()
        } else {
            "=== FOCUS ===\n"@ + l.focus@ + "\n"@
        }),
        short_context(l) == lines_text(strings_text(l.subtask@)) + (if l.files@.len() == 0 {
            Seq::<char>::empty()
        } else {
            "=== FILES ===\n"@ + join(Seq::new(l.files@.len(), |i: int| l.files@[i].text@), "\n"@) + "\n"@
        }) + (match l.faults {
            Some(f) => f@ + "\n"@,
            None => Seq::<char>::empty(),
        }) + (if l.note@.len() == 0 {
            Seq::<char>::empty()
        } else {
            "=== NOTE ===\n"@ + l.note@ + "\n"@
        }) + (if l.focus@.len() == 0 {
            Seq::<char>::empty()
        } else {
            "=== FOCUS ===\n"@ + l.focus@ + "\n"@
        }),
        l.focus@.len() > 0 ==> request_context(l).skip(request_context(l).len() - (l.focus@.len() + 15))
            == "=== FOCUS ===\n"@ + l.focus@ + "\n"@,
{
    reveal_strlit("\n");
    reveal_strlit("=== INFO/AST ===\n");
    reveal_strlit("=== INFO/AST ===");
    reveal_strlit("=== CONTEXT ===\n");
    reveal_strlit("=== CONTEXT ===");
    reveal_strlit("=== FILES ===\n");
    reveal_strlit("=== FILES ===");
    reveal_strlit("=== NOTE ===\n");
    reveal_strlit("=== NOTE ===");
    reveal_strlit("=== FOCUS ===\n");
    reveal_strlit("=== FOCUS ===");
    assert("\n"@ =~= seq!['\n']);
    assert("=== INFO/AST ===\n"@ =~= "=== INFO/AST ==="@ + seq!['\n']);
    assert("=== CONTEXT ===\n"@ =~= "=== CONTEXT ==="@ + seq!['\n']);
    assert("=== FILES ===\n"@ =~= "=== FILES ==="@ + seq!['\n']);
    assert("=== NOTE ===\n"@ =~= "=== NOTE ==="@ + seq!['\n']);
    assert("=== FOCUS ===\n"@ =~= "=== FOCUS ==="@ + seq!['\n']);
    assert(Seq::new(l.files@.len(), |i: int| l.files@[i].text@) =~= file_texts(l.files@));
    let info = if l.structureinfo@.len() == 0 {
        Seq::<char>::empty()
    } else {
        "=== INFO/AST ===\n"@ + l.structureinfo@ + "\n"@
    };
    assert(optional_section("=== INFO/AST ==="@, l.structureinfo@) =~= info);
    let ctx = if l.context@.len() == 0 {
        Seq::<char>::empty()
    } else {
        "=== CONTEXT ===\n"@ + l.context@ + "\n"@
    };
    assert(optional_section("=== CONTEXT ==="@, l.context@) =~= ctx);
    let files = if l.files@.len() == 0 {
        Seq::<char>::empty()
    } else {
        "=== FILES ===\n"@ + join(Seq::new(l.files@.len(), |i: int| l.files@[i].text@), "\n"@) + "\n"@
    };
    assert(files_part(l.files@) =~= files);
    let faults = match l.faults {
        Some(f) => f@ + "\n"@,
        None => Seq::<char>::empty(),
    };
    assert(faults_part(l.faults) =~= faults);
    let note = if l.note@.len() == 0 {
        Seq::<char>::empty()
    } else {
        "=== NOTE ===\n"@ + l.note@ + "\n"@
    };
    assert(optional_section("=== NOTE ==="@, l.note@) =~= note);
    let focus = if l.focus@.len() == 0 {
        Seq::<char>::empty()
    } else {
        "=== FOCUS ===\n"@ + l.focus@ + "\n"@
    };
    assert(optional_section("=== FOCUS ==="@, l.focus@) =~= focus);
    let sub = lines_text(strings_text(l.subtask@));
    assert(context_tail(l) =~= files + faults + note + focus);
    assert(request_context(l) =~= l.task_description@ + "\n"@ + sub + info + ctx + files + faults + note + focus);
    assert(short_context(l) =~= sub + files + faults + note + focus);
    if l.focus@.len() > 0 {
        let rc = request_context(l);
        let pre = l.task_description@ + "\n"@ + sub + info + ctx + files + faults + note;
        assert(rc =~= pre + focus);
        assert(focus.len() == l.focus@.len() + 15);
        assert(rc.skip(rc.len() - (l.focus@.len() + 15)) =~= focus);
    }
}

} // verus!
