//! The calls of the model: the request built from the conversation, the
//! reading of the reply, the carrying out of the tool call it holds and the
//! loops that repeat this. Sending a request, parsing JSON and carrying out
//! a tool are done by the caller's functions; everything decided in between
//! is here.

use vstd::prelude::*;
use crate::agenttools::aitooltype::AIToolType;
use crate::agenttools::all_tools::{output_base, output_json, output_msg, output_valid, ToolOutput};
use crate::agenttools::failed::Failed;
use crate::aimessage::{
    appended, kept_messages, messages_view, request_items, AIMessageId, AIMessageList, AIMessageListData,
    AIMessageType, FileEntry, MessageView,
};
use crate::json::array_text;
use crate::json::{json_as_str, json_get, json_index, json_parsed, json_text, parse_json, JsonValue};
use crate::tasks::Tasks;
use crate::text::{append_chars, append_str, chars_eq, contains_chars, contains_seq, from_chars, to_chars, trim, trim_chars};

verus! {

/// The outcome of a call of the model.
#[derive(Debug)]
pub enum LlmCallResult {
    Succeeded,
    Done,
    RetryFailed,
    ToolResult(ToolOutput),
    RequestError(String),
    ToolError(ToolOutput),
}

/// Whether an outcome lets the work go on: success, done or a tool result.
pub open spec fn llm_valid(r: LlmCallResult) -> bool {
    r is Succeeded || r is Done || r is ToolResult
}

impl LlmCallResult {
    /// Whether the outcome lets the work go on.
    pub fn is_valid(&self) -> (b: bool)
        ensures
            b == llm_valid(*self),
    {
        matches!(self, LlmCallResult::Succeeded | LlmCallResult::Done | LlmCallResult::ToolResult(_))
    }

    /// Whether the request could not be made.
    pub fn is_request_error(&self) -> (b: bool)
        ensures
            b == (*self is RequestError),
    {
        matches!(self, LlmCallResult::RequestError(_))
    }

    /// Whether the model declared the task done.
    pub fn is_done(&self) -> (b: bool)
        ensures
            b == (*self is Done),
    {
        matches!(self, LlmCallResult::Done)
    }
}

/// The first choice of a reply: `choices[0]`.
pub open spec fn first_choice(response: JsonValue) -> Option<JsonValue> {
    match json_get(response, "choices"@) {
        Some(c) => json_index(c, 0),
        None => None,
    }
}

/// The text of the message of a choice: `message.content` when it is a
/// string.
pub open spec fn choice_text(choice: JsonValue) -> Option<Seq<char>> {
    match json_get(choice, "message"@) {
        Some(m) => match json_get(m, "content"@) {
            Some(c) => json_as_str(c),
            None => None,
        },
        None => None,
    }
}

/// The answer of a plain text step: the trimmed text of the first choice,
/// unless it is missing or empty.
pub open spec fn reply_content(response: JsonValue) -> Option<Seq<char>> {
    match first_choice(response) {
        Some(ch) => match choice_text(ch) {
            Some(t) => if trim(t).len() > 0 {
                Some(trim(t))
            } else {
                None
            },
            None => None,
        },
        None => None,
    }
}

/// What a reply asks for.
#[derive(Debug)]
pub enum ReplyAction {
    /// Nothing more: the reply has no choice, or no tool call.
    Finish,
    /// A tool call, in the given (trimmed) text.
    Act(String),
}

/// What a reply asks for: a tool call when the trimmed text of its first
/// choice (empty when missing) mentions `action`.
pub open spec fn reply_action(response: JsonValue) -> Option<Seq<char>> {
    match first_choice(response) {
        Some(ch) => {
            let t = trim(
                match choice_text(ch) {
                    Some(x) => x,
                    None => Seq::empty(),
                },
            );
            if contains_seq(t, "action"@) {
                Some(t)
            } else {
                None
            }
        },
        None => None,
    }
}

/// The text of the first choice of a reply, if it has one.
fn choice_chars(response: &JsonValue) -> (r: Option<Option<Vec<char>>>)
    ensures
        match first_choice(*response) {
            Some(ch) => r matches Some(t) && match choice_text(ch) {
                Some(x) => t matches Some(v) && v@ == x,
                None => t is None,
            },
            None => r is None,
        },
{
    let choices = match response.get("choices") {
        Some(c) => c,
        None => {
            return None;
        },
    };
    let choice = match choices.get_index(0) {
        Some(c) => c,
        None => {
            return None;
        },
    };
    let text = match choice.get("message") {
        Some(m) => match m.get("content") {
            Some(c) => match c.as_str() {
                Some(s) => Some(to_chars(s)),
                None => None,
            },
            None => None,
        },
        None => None,
    };
    Some(text)
}

/// The answer of a plain text step (see `reply_content`).
pub fn response_content(response: &JsonValue) -> (r: Option<String>)
    ensures
        match reply_content(*response) {
            Some(t) => r matches Some(s) && s@ == t,
            None => r is None,
        },
{
    match choice_chars(response) {
        Some(Some(t)) => {
            let tr = trim_chars(t.as_slice());
            if tr.len() > 0 {
                Some(from_chars(tr.as_slice()))
            } else {
                None
            }
        },
        _ => None,
    }
}

/// What the reply asks for (see `reply_action`).
pub fn read_reply(response: &JsonValue) -> (r: ReplyAction)
    ensures
        match reply_action(*response) {
            Some(t) => r matches ReplyAction::Act(s) && s@ == t,
            None => r is Finish,
        },
{
    match choice_chars(response) {
        None => ReplyAction::Finish,
        Some(t) => {
            let text = match t {
                Some(v) => v,
                None => Vec::new(),
            };
            let tr = trim_chars(text.as_slice());
            let key = to_chars("action");
            if contains_chars(tr.as_slice(), key.as_slice()) {
                ReplyAction::Act(from_chars(tr.as_slice()))
            } else {
                ReplyAction::Finish
            }
        },
    }
}

/// How a tool outcome ends a call: done, or the outcome when it is valid;
/// an invalid outcome asks for another try.
pub open spec fn action_outcome(o: ToolOutput) -> Option<LlmCallResult> {
    if output_valid(o) {
        if o is Done {
            Some(LlmCallResult::Done)
        } else {
            Some(LlmCallResult::ToolResult(o))
        }
    } else {
        None
    }
}

/// How a tool outcome ends a call (see `action_outcome`).
pub fn action_result(o: ToolOutput) -> (r: Option<LlmCallResult>)
    ensures
        r == action_outcome(o),
{
    if o.is_valid() {
        if o.is_done() {
            Some(LlmCallResult::Done)
        } else {
            Some(LlmCallResult::ToolResult(o))
        }
    } else {
        None
    }
}

} // verus!

verus! {

/// One task's conversation with the model and what the calls need to know:
/// the project directory, the files loaded on request (which are dropped
/// again once a change is saved) and how often to try.
pub struct LlmCall {
    pub messages: AIMessageList,
    pub transient_source_files: Vec<String>,
    pub projdir: String,
    pub max_workflow_fail: usize,
    pub max_tool_call_fail: usize,
    pub dump: bool,
}

/// Whether `p` is one of `paths`.
pub open spec fn in_paths(paths: Seq<String>, p: Seq<char>) -> bool {
    exists|k: int| 0 <= k < paths.len() && paths[k]@ == p
}

/// The message that reports a reply that is not valid JSON.
pub open spec fn parse_error_message(err: Seq<char>, code: Seq<char>) -> Seq<char> {
    "Error occurred: JSON parse error, this should contain a valid JSON block: "@ + err + "\n>>>>CODE:\n"@
        + code + "\n<<<<"@
}

/// The text of a tool call in a reply: raw regions turned into strings,
/// then the code fences removed.
pub open spec fn action_code(content: Seq<char>) -> Seq<char> {
    crate::utils::stringutils::stripped(crate::utils::stringutils::raw_fence(content))
}

/// The call `l` with the message id advanced by one.
pub open spec fn numbered(l: LlmCall) -> LlmCall {
    LlmCall {
        messages: AIMessageList {
            message_id: AIMessageId { val: (l.messages.message_id.val + 1) as usize },
            ..l.messages
        },
        ..l
    }
}

/// `new` is `old` with the conversation changed as given and the rest kept.
pub open spec fn only_messages_changed(old: LlmCall, new: LlmCall) -> bool {
    &&& new.projdir == old.projdir
    &&& new.max_workflow_fail == old.max_workflow_fail
    &&& new.max_tool_call_fail == old.max_tool_call_fail
    &&& new.dump == old.dump
}

/// What the conversation holds after the tool call `code` (message `id`)
/// gave `o`: the call is recorded as a model message; a valid save or done
/// clears the conversation and the faults and drops the files loaded on
/// request; any other outcome is recorded as a tool message (an invalid one
/// as an error with its JSON reply).
pub open spec fn recorded(before: LlmCall, after: LlmCall, id: AIMessageId, code: Seq<char>, o: ToolOutput) -> bool {
    let base = output_base(o);
    let m1 = appended(messages_view(before.messages.messages@), id, AIMessageType::Model, base, code);
    &&& only_messages_changed(before, after)
    &&& if output_valid(o) && (base == AIToolType::SaveFile || base == AIToolType::SaveFilePart || base
        == AIToolType::Done) {
        &&& after.messages.messages@.len() == 0
        &&& after.messages.faults is None
        &&& after.messages.files@ == before.messages.files@.filter(
            |f: FileEntry| !in_paths(before.transient_source_files@, f.path@),
        )
        &&& after.transient_source_files@.len() == 0
        &&& after.messages == AIMessageList {
            messages: after.messages.messages,
            faults: None,
            files: after.messages.files,
            ..before.messages
        }
    } else {
        &&& messages_view(after.messages.messages@) == appended(
            m1,
            id,
            AIMessageType::Tool,
            base,
            if output_valid(o) {
                output_msg(o, id)
            } else {
                "Error occurred: "@ + output_json(o, id)
            },
        )
        &&& after.messages == AIMessageList { messages: after.messages.messages, ..before.messages }
        &&& after.transient_source_files == before.transient_source_files
    }
}

/// What handling the reply text `content` may do, as parsing its code
/// decides (see `json_parsed`).
pub open spec fn handled<X: Fn(&JsonValue) -> ToolOutput>(
    exec: X,
    old: LlmCall,
    new: LlmCall,
    content: Seq<char>,
    r: ToolOutput,
) -> bool {
    let before = numbered(old);
    let id = before.messages.message_id;
    let code = action_code(content);
    match json_parsed(code) {
        Err(e) => {
            &&& r matches ToolOutput::Failed(Ok(f)) && f.data@ == parse_error_message(e, code)
            &&& messages_view(new.messages.messages@) == appended(
                messages_view(before.messages.messages@),
                id,
                AIMessageType::Tool,
                AIToolType::Failed,
                parse_error_message(e, code),
            )
            &&& new.messages == AIMessageList { messages: new.messages.messages, ..before.messages }
            &&& new.transient_source_files == before.transient_source_files
            &&& only_messages_changed(before, new)
        },
        Ok(v) => exists|w: JsonValue|
            #![trigger call_ensures(exec, (&w,), r)]
            {
                &&& role_set(v, w)
                &&& call_ensures(exec, (&w,), r)
                &&& recorded(before, new, id, code, r)
            },
    }
}

/// `w` is the tool call of the reply text `content`: its code parsed, with
/// the role set.
pub open spec fn tool_call_of(content: Seq<char>, w: JsonValue) -> bool {
    json_parsed(action_code(content)) matches Ok(v) && role_set(v, w)
}

/// `w` is the tool call of some reply text: the only values a tool may be
/// run on.
pub open spec fn parsed_action(w: JsonValue) -> bool {
    exists|t: Seq<char>| tool_call_of(t, w)
}

/// The code of the reply text `content`, when it parses, gives an object or
/// `null` (other values cannot be marked as the assistant's).
pub open spec fn tool_code_shape(content: Seq<char>) -> bool {
    json_parsed(action_code(content)) matches Ok(v) ==> v is Object || v is Null
}

/// What a reply asks for, when it asks for a tool call, can be handled:
/// its code does not parse to a value other than an object or `null`.
pub open spec fn reply_usable(reply: JsonValue) -> bool {
    reply_action(reply) matches Some(t) ==> tool_code_shape(t)
}

/// `w` is `v` with the member `role` set to the string `assistant`.
pub open spec fn role_set(v: JsonValue, w: JsonValue) -> bool {
    exists|val: JsonValue|
        #![trigger crate::json::member_set(v, "role"@, val, w)]
        val matches JsonValue::Str(s) && s@ == "assistant"@ && crate::json::member_set(v, "role"@, val, w)
}

impl LlmCall {
    /// A call for a task: the conversation starts empty with message id 1,
    /// keeps at most `queue_length_max` messages, and knows the files the
    /// model may ask for (`filelist`) and those it is shown (`files`).
    pub fn new(
        projdir: String,
        task_id: Tasks,
        task_description: String,
        subtask: Vec<String>,
        queue_length_max: usize,
        filelist: Vec<String>,
        files: Vec<FileEntry>,
        max_workflow_fail: usize,
        max_tool_call_fail: usize,
        dump: bool,
    ) -> (r: Self)
        ensures
            r.messages.messages@.len() == 0,
            r.messages.message_id.val == 1,
            r.messages.depth == queue_length_max,
            r.messages.task_id == task_id,
            r.messages.task_description == task_description,
            r.messages.subtask == subtask,
            r.messages.structureinfo@.len() == 0,
            r.messages.context@.len() == 0,
            r.messages.filelist == filelist,
            r.messages.files == files,
            r.messages.note@.len() == 0,
            r.messages.focus@.len() == 0,
            r.messages.faults is None,
            r.transient_source_files@.len() == 0,
            r.projdir == projdir,
            r.max_workflow_fail == max_workflow_fail,
            r.max_tool_call_fail == max_tool_call_fail,
            r.dump == dump,
    {
        let data = AIMessageListData {
            messages: Vec::new(),
            message_id: AIMessageId { val: 1 },
            depth: queue_length_max,
            task_id,
            task_description,
            subtask,
            structureinfo: String::new(),
            context: String::new(),
            filelist,
            files,
            focus: String::new(),
            faults: None,
        };
        LlmCall {
            messages: AIMessageList::new(data),
            transient_source_files: Vec::new(),
            projdir,
            max_workflow_fail,
            max_tool_call_fail,
            dump,
        }
    }

    /// How often a workflow may try.
    pub fn max_workflow_attempts(&self) -> (r: usize)
        ensures
            r == self.max_workflow_fail,
    {
        self.max_workflow_fail
    }

    /// Sets the context of the next steps.
    pub fn set_context(&mut self, context: String)
        ensures
            final(self).messages == (AIMessageList { context, ..old(self).messages }),
            final(self).transient_source_files == old(self).transient_source_files,
            only_messages_changed(*old(self), *final(self)),
    {
        self.messages.context = context;
    }

    /// Sets the task description.
    pub fn set_task_description(&mut self, task_description: String)
        ensures
            final(self).messages == (AIMessageList { task_description, ..old(self).messages }),
            final(self).transient_source_files == old(self).transient_source_files,
            only_messages_changed(*old(self), *final(self)),
    {
        self.messages.task_description = task_description;
    }

    /// Clears the context of the steps.
    pub fn clear_context(&mut self)
        ensures
            final(self).messages.context@.len() == 0,
            final(self).messages == (AIMessageList { context: final(self).messages.context, ..old(self).messages }),
            final(self).transient_source_files == old(self).transient_source_files,
            only_messages_changed(*old(self), *final(self)),
    {
        self.messages.context = String::new();
    }

    /// Drops the files that were loaded on request.
    fn drop_transient_files(&mut self)
        ensures
            final(self).messages.files@ == old(self).messages.files@.filter(
                |f: FileEntry| !in_paths(old(self).transient_source_files@, f.path@),
            ),
            final(self).transient_source_files@.len() == 0,
            final(self).messages == (AIMessageList { files: final(self).messages.files, ..old(self).messages }),
            only_messages_changed(*old(self), *final(self)),
    {
        let mut old_files: Vec<FileEntry> = Vec::new();
        std::mem::swap(&mut old_files, &mut self.messages.files);
        let ghost all = old_files@;
        let ghost transient = self.transient_source_files@;
        let ghost keep = |f: FileEntry| !in_paths(transient, f.path@);
        let mut kept: Vec<FileEntry> = Vec::new();
        for f in it: old_files
            invariant
                it.seq() == all,
                transient == self.transient_source_files@,
                keep == (|f: FileEntry| !in_paths(transient, f.path@)),
                kept@ == all.take(it.index() as int).filter(keep),
        {
            let ghost k = it.index() as int;
            let ghost before = kept@;
            let mut found = false;
            let n = self.transient_source_files.len();
            let mut j: usize = 0;
            while j < n
                invariant
                    n == transient.len(),
                    transient == self.transient_source_files@,
                    j <= n,
                    found == exists|q: int| 0 <= q < j && transient[q]@ == f.path@,
                decreases n - j,
            {
                if self.transient_source_files[j] == f.path {
                    found = true;
                }
                j = j + 1;
            }
            if !found {
                kept.push(f);
            }
            proof {
                assert(all.take(k + 1).drop_last() =~= all.take(k));
                assert(all.take(k + 1).last() == f);
                assert(all.take(k + 1).filter(keep) == if keep(f) {
                    before.push(f)
                } else {
                    before
                }) by {
                    reveal(Seq::filter);
                }
            }
        }
        assert(all.take(all.len() as int) =~= all);
        self.messages.files = kept;
        self.transient_source_files = Vec::new();
    }

    /// Records the outcome `o` of the tool call `code` (message `id`).
    fn record_outcome(&mut self, id: AIMessageId, o: &ToolOutput, code: &str)
        ensures
            recorded(*old(self), *final(self), id, code@, *o),
    {
        let base = o.to_base();
        self.messages.append(id, AIMessageType::Model, base, code);
        let valid = o.is_valid();
        if valid && (base.is_save() || base.is_done()) {
            let ghost after_model = *self;
            self.messages.clear();
            self.drop_transient_files();
        } else if valid {
            let line = o.to_string(id);
            self.messages.append(id, AIMessageType::Tool, base, line.as_str());
        } else {
            let reply = o.to_json(id);
            let text = reply.to_json_text();
            let mut v = to_chars("Error occurred: ");
            append_str(&mut v, text.as_str());
            let msg = from_chars(v.as_slice());
            self.messages.append(id, AIMessageType::Tool, base, msg.as_str());
        }
    }

    /// Carries out the tool call in a reply text: the code is taken from the
    /// text, parsed, marked as the assistant's, carried out by `exec` and
    /// recorded (see `recorded`); code that is not valid JSON is answered
    /// with a failure and runs no tool: `exec` may only be called on the
    /// tool call of this text (see `tool_call_of`). Code that parses to a
    /// value other than an object or `null` cannot be marked as the
    /// assistant's (see `tool_code_parses_to_object`).
    pub fn handle_text_action<X: Fn(&JsonValue) -> ToolOutput>(
        &mut self,
        content: &str,
        exec: &X,
    ) -> (r: ToolOutput)
        requires
            old(self).messages.message_id.val < usize::MAX,
            tool_code_shape(content@),
            forall|v: &JsonValue|
                #![trigger call_requires(*exec, (v,))]
                tool_call_of(content@, *v) ==> call_requires(*exec, (v,)),
        ensures
            handled(*exec, *old(self), *final(self), content@, r),
    {
        let ghost old_self = *self;
        let id = self.messages.inc_messageid();
        let ghost before = *self;
        assert(before == numbered(old_self));
        let raw = crate::utils::stringutils::raw_fence_to_string(content);
        let code = crate::utils::stringutils::strip_code_fences(raw.as_str());
        let cs = code.as_str();
        let parsed = parse_json(cs);
        assert(cs@ == action_code(content@));
        match parsed {
            Err(e) => {
                let mut v = to_chars("Error occurred: JSON parse error, this should contain a valid JSON block: ");
                append_str(&mut v, e.as_str());
                append_str(&mut v, "\n>>>>CODE:\n");
                append_str(&mut v, cs);
                append_str(&mut v, "\n<<<<");
                let msg = from_chars(v.as_slice());
                assert(msg@ =~= parse_error_message(e@, action_code(content@)));
                assert(json_parsed(action_code(content@)) == Err::<JsonValue, Seq<char>>(e@));
                self.messages.append(id, AIMessageType::Tool, AIToolType::Failed, msg.as_str());
                let r = ToolOutput::Failed(Failed::from_string(msg).execute());
                assert(handled(*exec, old_self, *self, content@, r));
                r
            },
            Ok(v) => {
                let mut json = v;
                let ghost v0 = json;
                let role = JsonValue::Str("assistant".to_string());
                let ghost rv = role;
                json.set_member("role", role);
                proof {
                    reveal_strlit("role");
                    reveal_strlit("assistant");
                    assert(crate::json::member_set(v0, "role"@, rv, json));
                    assert(role_set(v0, json));
                    assert(tool_call_of(content@, json));
                }
                let result = exec(&json);
                self.record_outcome(id, &result, cs);
                assert(call_ensures(*exec, (&json,), result));
                assert(handled(*exec, old_self, *self, content@, result));
                result
            },
        }
    }
}

} // verus!

verus! {

/// The context of a plain text step: the prompt, the structure information
/// and the files when the sources are kept, and the step's context.
pub open spec fn step_context(l: AIMessageList, prompt: Seq<char>, context: Seq<char>, keep: bool) -> Seq<char> {
    prompt + seq!['\n'] + crate::aimessage::optional_section(
        "=== INFO/AST ==="@,
        if keep {
            l.structureinfo@
        } else {
            Seq::empty()
        },
    ) + crate::aimessage::optional_section("=== CONTEXT ==="@, context) + if keep {
        crate::aimessage::files_part(l.files@)
    } else {
        Seq::empty()
    }
}

/// The request of a plain text step: one user message with the step's
/// context.
pub open spec fn step_request(l: AIMessageList, prompt: Seq<char>, context: Seq<char>, keep: bool) -> Seq<char> {
    crate::json::array_text(
        seq![
            crate::json::object_text(
                seq![
                    crate::json::member_text("content"@, crate::json_text::json_quote(step_context(l, prompt, context, keep))),
                    crate::json::member_text("role"@, crate::json_text::json_quote("user"@)),
                ],
            ),
        ],
    )
}

/// What a plain text step may answer, given the reply `resp` to its request.
pub open spec fn step_answer(resp: Result<JsonValue, String>, r: Result<String, LlmCallResult>) -> bool {
    match resp {
        Err(m) => r matches Err(LlmCallResult::RequestError(x)) && x@ == m@,
        Ok(j) => match reply_content(j) {
            Some(t) => r matches Ok(x) && x@ == t,
            None => r matches Err(LlmCallResult::RetryFailed),
        },
    }
}

/// A copy of the files.
fn copy_files(files: &Vec<FileEntry>) -> (r: Vec<FileEntry>)
    ensures
        r@ == files@,
{
    let mut r: Vec<FileEntry> = Vec::new();
    for i in 0..files.len()
        invariant
            r@ == files@.take(i as int),
    {
        let f = FileEntry { path: files[i].path.clone(), text: files[i].text.clone() };
        r.push(f);
        assert(files@.take(i + 1) =~= files@.take(i as int).push(files@[i as int]));
    }
    assert(files@.take(files@.len() as int) =~= files@);
    r
}

impl LlmCall {
    /// Asks the model for a plain text answer (at most 30000 tokens) to
    /// `prompt` with `context`, without the sources.
    pub fn run_text_step<S: Fn(&str, u32) -> Result<JsonValue, String>>(&self, prompt: &str, context: &str, send: &S) -> (r: Result<String, LlmCallResult>)
        requires
            forall|s: &str, n: u32| call_requires(*send, (s, n)),
        ensures
            exists|s: &str, resp: Result<JsonValue, String>|
                #![trigger call_ensures(*send, (s, 30000u32), resp)]
                s@ == step_request(self.messages, prompt@, context@, false) && call_ensures(*send, (s, 30000u32), resp)
                    && step_answer(resp, r),
    {
        self.run_text_step_limited(prompt, context, 30000, send)
    }

    /// Asks the model for a plain text answer of at most `max_tokens` tokens
    /// to `prompt` with `context`, showing it the sources.
    pub fn run_context_step_limited<S: Fn(&str, u32) -> Result<JsonValue, String>>(
        &self,
        prompt: &str,
        context: &str,
        max_tokens: u32,
        send: &S,
    ) -> (r: Result<String, LlmCallResult>)
        requires
            forall|s: &str, n: u32| call_requires(*send, (s, n)),
        ensures
            exists|s: &str, resp: Result<JsonValue, String>|
                #![trigger call_ensures(*send, (s, max_tokens), resp)]
                s@ == step_request(self.messages, prompt@, context@, true) && call_ensures(*send, (s, max_tokens), resp)
                    && step_answer(resp, r),
    {
        self.run_text_step_with_context(prompt, context, max_tokens, true, send)
    }

    /// Asks the model for a plain text answer of at most `max_tokens` tokens
    /// to `prompt` with `context`, without the sources.
    pub fn run_text_step_limited<S: Fn(&str, u32) -> Result<JsonValue, String>>(
        &self,
        prompt: &str,
        context: &str,
        max_tokens: u32,
        send: &S,
    ) -> (r: Result<String, LlmCallResult>)
        requires
            forall|s: &str, n: u32| call_requires(*send, (s, n)),
        ensures
            exists|s: &str, resp: Result<JsonValue, String>|
                #![trigger call_ensures(*send, (s, max_tokens), resp)]
                s@ == step_request(self.messages, prompt@, context@, false) && call_ensures(*send, (s, max_tokens), resp)
                    && step_answer(resp, r),
    {
        self.run_text_step_with_context(prompt, context, max_tokens, false, send)
    }

    /// Asks the model for a plain text answer: the request holds no
    /// messages, only the step's context (see `step_context`); the answer is
    /// the trimmed text of the first choice, a retry when that is missing or
    /// empty, and a request error when `send` fails.
    fn run_text_step_with_context<S: Fn(&str, u32) -> Result<JsonValue, String>>(
        &self,
        prompt: &str,
        context: &str,
        max_tokens: u32,
        keep_source_context: bool,
        send: &S,
    ) -> (r: Result<String, LlmCallResult>)
        requires
            forall|s: &str, n: u32| call_requires(*send, (s, n)),
        ensures
            exists|s: &str, resp: Result<JsonValue, String>|
                #![trigger call_ensures(*send, (s, max_tokens), resp)]
                s@ == step_request(self.messages, prompt@, context@, keep_source_context) && call_ensures(
                    *send,
                    (s, max_tokens),
                    resp,
                ) && step_answer(resp, r),
    {
        let keep = keep_source_context;
        let step = AIMessageList {
            messages: Vec::new(),
            message_id: self.messages.message_id,
            depth: self.messages.depth,
            task_id: self.messages.task_id,
            task_description: prompt.to_string(),
            subtask: Vec::new(),
            structureinfo: if keep {
                self.messages.structureinfo.clone()
            } else {
                String::new()
            },
            context: context.to_string(),
            filelist: if keep {
                crate::utils::doprocess::copy_strings(&self.messages.filelist)
            } else {
                Vec::new()
            },
            files: if keep {
                copy_files(&self.messages.files)
            } else {
                Vec::new()
            },
            note: String::new(),
            focus: String::new(),
            faults: None,
        };
        let json = step.to_json();
        proof {
            reveal_strlit("=== NOTE ===");
            reveal_strlit("=== FOCUS ===");
            assert(crate::text::strings_text(step.subtask@) =~= Seq::<Seq<char>>::empty());
            assert(crate::aimessage::request_context(step) =~= step_context(self.messages, prompt@, context@, keep));
            assert(crate::aimessage::request_items(step) =~= seq![
                crate::json::object_text(
                    seq![
                        crate::json::member_text(
                            "content"@,
                            crate::json_text::json_quote(step_context(self.messages, prompt@, context@, keep)),
                        ),
                        crate::json::member_text("role"@, crate::json_text::json_quote("user"@)),
                    ],
                ),
            ]);
        }
        let text = json.to_json_text();
        let ts = text.as_str();
        let resp = send(ts, max_tokens);
        let ghost rv = resp;
        let r = match resp {
            Err(m) => Err(LlmCallResult::RequestError(m)),
            Ok(j) => match response_content(&j) {
                Some(c) => Ok(c),
                None => Err(LlmCallResult::RetryFailed),
            },
        };
        assert(call_ensures(*send, (ts, max_tokens), rv));
        r
    }
}

} // verus!

verus! {

/// The kinds of outcome a call of `analyze` has: done, a request error, a
/// valid tool result that is not done, or a retry after too many invalid
/// tool calls.
pub open spec fn analyze_shape(r: LlmCallResult) -> bool {
    ||| r is Done
    ||| r is RequestError
    ||| r is RetryFailed
    ||| (r matches LlmCallResult::ToolResult(o) && output_valid(o) && !(o is Done))
}

/// The number of valid outcomes in a row that end at position `k`.
pub open spec fn valid_run(t: Seq<bool>, k: int) -> nat
    decreases k + 1,
{
    if k < 0 || k >= t.len() {
        0
    } else if t[k] {
        valid_run(t, k - 1) + 1
    } else {
        0
    }
}

/// The validity of successive outcomes `t` follows the confirmation rule of
/// `run`: it stops after two valid outcomes in a row, or after `max`
/// outcomes (at least one).
pub open spec fn confirmation_rule(t: Seq<bool>, max: nat) -> bool {
    let m = if max < 1 {
        1
    } else {
        max
    };
    &&& 1 <= t.len() <= m
    &&& forall|k: int| 0 <= k < t.len() - 1 ==> valid_run(t, k) < 2
    &&& (t.len() == m || valid_run(t, t.len() - 1) >= 2)
}

/// The requirements on the functions that a call of the model uses.
pub open spec fn call_functions_ready<S: Fn(&str, u32) -> Result<JsonValue, String>, X: Fn(&JsonValue) -> ToolOutput>(
    send: S,
    exec: X,
) -> bool {
    &&& forall|s: &str, n: u32| call_requires(send, (s, n))
    &&& forall|s: &str, n: u32, reply: JsonValue|
        #![trigger call_ensures(send, (s, n), Ok::<JsonValue, String>(reply))]
        call_ensures(send, (s, n), Ok::<JsonValue, String>(reply)) ==> reply_usable(reply)
    &&& forall|v: &JsonValue| #![trigger call_requires(exec, (v,))] parsed_action(*v) ==> call_requires(exec, (v,))
}


/// `after` is `before` made ready for rounds on `request`: the conversation
/// cut to its depth and the problem set as its faults.
pub open spec fn prepared(before: LlmCall, after: LlmCall, request: Seq<char>) -> bool {
    &&& after.messages.messages@ == kept_messages(before.messages.messages@, before.messages.depth as nat)
    &&& after.messages.faults matches Some(f) && f@ == "=== PROBLEM ===\n"@ + request
    &&& after.messages == AIMessageList {
        messages: after.messages.messages,
        faults: after.messages.faults,
        ..before.messages
    }
    &&& after == LlmCall { messages: after.messages, ..before }
}

/// One round of `analyze` from `before` to `after`: the text of the
/// conversation (see `AIMessageList::to_json`) is sent for at most 30000
/// tokens; a failed request ends the call with its error, a reply without a
/// tool call ends it as done, and a tool call is carried out (see
/// `handle_text_action`) and ends the call when its outcome does (see
/// `action_outcome`). `r` is `None` when another round follows.
pub open spec fn analyze_round<S: Fn(&str, u32) -> Result<JsonValue, String>, X: Fn(&JsonValue) -> ToolOutput>(
    send: S,
    exec: X,
    before: LlmCall,
    after: LlmCall,
    r: Option<LlmCallResult>,
) -> bool {
    exists|s: &str, resp: Result<JsonValue, String>|
        #![trigger call_ensures(send, (s, 30000u32), resp)]
        {
            &&& s@ == array_text(request_items(before.messages))
            &&& call_ensures(send, (s, 30000u32), resp)
            &&& match resp {
                Err(m) => r == Some(LlmCallResult::RequestError(m)) && after == before,
                Ok(reply) => match reply_action(reply) {
                    None => r == Some(LlmCallResult::Done) && after == before,
                    Some(t) => exists|o: ToolOutput|
                        #![trigger handled(exec, before, after, t, o)]
                        handled(exec, before, after, t, o) && r == action_outcome(o),
                },
            }
        }
}

/// The rounds of `analyze` on `request` from `start`: the conversations
/// `states` (the first the prepared one) and the outcomes `outs` of the
/// rounds between them; every round but the last lets the next follow; the
/// call ends with the outcome of the last round, or asks for a retry after
/// `max_tool_call_fail` rounds that all let another follow.
pub open spec fn analyze_trace<S: Fn(&str, u32) -> Result<JsonValue, String>, X: Fn(&JsonValue) -> ToolOutput>(
    send: S,
    exec: X,
    start: LlmCall,
    request: Seq<char>,
    states: Seq<LlmCall>,
    outs: Seq<Option<LlmCallResult>>,
    r: LlmCallResult,
) -> bool {
    let k = outs.len();
    &&& states.len() == k + 1
    &&& k <= start.max_tool_call_fail
    &&& prepared(start, states[0], request)
    &&& forall|j: int| #![trigger outs[j]] 0 <= j < k ==> analyze_round(send, exec, states[j], states[j + 1], outs[j])
    &&& forall|j: int| #![trigger outs[j]] 0 <= j < k - 1 ==> outs[j] is None
    &&& if k > 0 && outs[k - 1] is Some {
        r == outs[k - 1]->0
    } else {
        k == start.max_tool_call_fail && r is RetryFailed
    }
}


/// `after` and `r` are what a call of `analyze` on `request` may leave and
/// return from `before` (see `analyze_trace`).
pub open spec fn analyzed<S: Fn(&str, u32) -> Result<JsonValue, String>, X: Fn(&JsonValue) -> ToolOutput>(
    send: S,
    exec: X,
    before: LlmCall,
    request: Seq<char>,
    after: LlmCall,
    r: LlmCallResult,
) -> bool {
    exists|states: Seq<LlmCall>, outs: Seq<Option<LlmCallResult>>|
        #![trigger analyze_trace(send, exec, before, request, states, outs, r)]
        analyze_trace(send, exec, before, request, states, outs, r) && after == states.last()
}

/// Successive calls of `analyze` on `request`: from each conversation of
/// `st` to the next, with the outcomes `rs`.
pub open spec fn analyzed_rounds<S: Fn(&str, u32) -> Result<JsonValue, String>, X: Fn(&JsonValue) -> ToolOutput>(
    send: S,
    exec: X,
    request: Seq<char>,
    st: Seq<LlmCall>,
    rs: Seq<LlmCallResult>,
) -> bool {
    &&& st.len() == rs.len() + 1
    &&& forall|j: int| #![trigger rs[j]] 0 <= j < rs.len() ==> analyzed(send, exec, st[j], request, st[j + 1], rs[j])
}


/// `after` and `r` are what a call of `run` on `request` may leave and
/// return from `before`: successive calls of `analyze` that follow the
/// confirmation rule, the outcome being that of the last one.
pub open spec fn ran<S: Fn(&str, u32) -> Result<JsonValue, String>, X: Fn(&JsonValue) -> ToolOutput>(
    send: S,
    exec: X,
    before: LlmCall,
    request: Seq<char>,
    after: LlmCall,
    r: LlmCallResult,
) -> bool {
    exists|st: Seq<LlmCall>, rs: Seq<LlmCallResult>|
        #![trigger analyzed_rounds(send, exec, request, st, rs)]
        {
            &&& analyzed_rounds(send, exec, request, st, rs)
            &&& st[0] == before
            &&& st.last() == after
            &&& confirmation_rule(validities(rs), before.max_workflow_fail as nat)
            &&& r == rs.last()
        }
}

/// Whether each outcome lets the work go on.
pub open spec fn validities(rs: Seq<LlmCallResult>) -> Seq<bool> {
    Seq::new(rs.len(), |i: int| llm_valid(rs[i]))
}

/// Whether an outcome is a tool result of a loading tool.
pub open spec fn loaded_only(r: LlmCallResult) -> bool {
    r matches LlmCallResult::ToolResult(o) && (output_base(o) == AIToolType::LoadFile || output_base(o)
        == AIToolType::LoadFilePart)
}

impl LlmCall {
    /// One round with the model on the problem `request`: the conversation
    /// is cut to its depth, the problem set as its faults, and the request
    /// sent; a reply without a tool call ends the round as done; a tool call
    /// is carried out (see `handle_text_action`) and a valid outcome ends the
    /// round, as done for the done tool; an invalid one is sent back, up to
    /// `max_tool_call_fail` times, after which the round asks for a retry.
    pub fn analyze<S: Fn(&str, u32) -> Result<JsonValue, String>, X: Fn(&JsonValue) -> ToolOutput>(
        &mut self,
        request: &str,
        send: &S,
        exec: &X,
    ) -> (r: LlmCallResult)
        requires
            call_functions_ready(*send, *exec),
            old(self).messages.message_id.val + old(self).max_tool_call_fail < usize::MAX,
        ensures
            only_messages_changed(*old(self), *final(self)),
            final(self).messages.message_id.val <= old(self).messages.message_id.val + old(self).max_tool_call_fail,
            analyze_shape(r),
            r matches LlmCallResult::RequestError(m) ==> exists|s: &str|
                #![trigger call_ensures(*send, (s, 30000u32), Err::<JsonValue, String>(m))]
                call_ensures(*send, (s, 30000u32), Err::<JsonValue, String>(m)),
            analyzed(*send, *exec, *old(self), request@, *final(self), r),
    {
        let ghost start = *self;
        self.messages.cut_to_depth();
        let mut p = to_chars("=== PROBLEM ===\n");
        append_str(&mut p, request);
        self.messages.faults = Some(from_chars(p.as_slice()));
        assert(prepared(start, *self, request@));
        let ghost mut states: Seq<LlmCall> = seq![*self];
        let ghost mut outs: Seq<Option<LlmCallResult>> = Seq::empty();
        let n = self.max_tool_call_fail;
        let mut i: usize = 0;
        while i < n
            invariant
                call_functions_ready(*send, *exec),
                start == *old(self),
                n == start.max_tool_call_fail,
                i <= n,
                only_messages_changed(start, *self),
                self.messages.message_id.val == start.messages.message_id.val + i,
                start.messages.message_id.val + n < usize::MAX,
                states.len() == i + 1,
                outs.len() == i,
                prepared(start, states[0], request@),
                states.last() == *self,
                forall|j: int| #![trigger outs[j]] 0 <= j < i ==> analyze_round(*send, *exec, states[j], states[j + 1], outs[j]),
                forall|j: int| #![trigger outs[j]] 0 <= j < i ==> outs[j] is None,
            decreases n - i,
        {
            let ghost before = *self;
            let json = self.messages.to_json();
            let text = json.to_json_text();
            let ts = text.as_str();
            let resp = send(ts, 30000);
            let ghost rv = resp;
            assert(ts@ == array_text(request_items(before.messages)));
            match resp {
                Err(m) => {
                    let ghost mv = m;
                    assert(call_ensures(*send, (ts, 30000u32), Err::<JsonValue, String>(mv)));
                    let r = LlmCallResult::RequestError(m);
                    assert(r matches LlmCallResult::RequestError(x) && x == mv);
                    proof {
                        assert(analyze_round(*send, *exec, before, *self, Some(r)));
                        let s2 = states.push(*self);
                        let o2 = outs.push(Some(r));
                        assert(o2[i as int] == Some(r));
                        assert forall|j: int| #![trigger o2[j]] 0 <= j < i + 1 implies analyze_round(*send, *exec, s2[j], s2[j + 1], o2[j]) by {
                            if j < i {
                                assert(o2[j] == outs[j]);
                                assert(s2[j] == states[j]);
                                assert(s2[j + 1] == states[j + 1]);
                            }
                        }
                        assert forall|j: int| #![trigger o2[j]] 0 <= j < o2.len() - 1 implies o2[j] is None by {
                            assert(o2[j] == outs[j]);
                        }
                        assert(analyze_trace(*send, *exec, start, request@, s2, o2, r));
                    }
                    return r;
                },
                Ok(reply) => match read_reply(&reply) {
                    ReplyAction::Finish => {
                        let r = LlmCallResult::Done;
                        proof {
                            assert(analyze_round(*send, *exec, before, *self, Some(r)));
                            let s2 = states.push(*self);
                            let o2 = outs.push(Some(r));
                            assert(o2[i as int] == Some(r));
                            assert forall|j: int| #![trigger o2[j]] 0 <= j < i + 1 implies analyze_round(*send, *exec, s2[j], s2[j + 1], o2[j]) by {
                                if j < i {
                                    assert(o2[j] == outs[j]);
                                    assert(s2[j] == states[j]);
                                    assert(s2[j + 1] == states[j + 1]);
                                }
                            }
                            assert forall|j: int| #![trigger o2[j]] 0 <= j < o2.len() - 1 implies o2[j] is None by {
                                assert(o2[j] == outs[j]);
                            }
                            assert(analyze_trace(*send, *exec, start, request@, s2, o2, r));
                        }
                        return r;
                    },
                    ReplyAction::Act(content) => {
                        assert(call_ensures(*send, (ts, 30000u32), Ok::<JsonValue, String>(reply)));
                        assert(reply_usable(reply));
                        let o = self.handle_text_action(content.as_str(), exec);
                        let ghost ov = o;
                        let res = action_result(o);
                        proof {
                            assert(analyze_round(*send, *exec, before, *self, res));
                            let s2 = states.push(*self);
                            let o2 = outs.push(res);
                            assert(o2[i as int] == res);
                            assert forall|j: int| #![trigger o2[j]] 0 <= j < i + 1 implies analyze_round(*send, *exec, s2[j], s2[j + 1], o2[j]) by {
                                if j < i {
                                    assert(o2[j] == outs[j]);
                                    assert(s2[j] == states[j]);
                                    assert(s2[j + 1] == states[j + 1]);
                                }
                            }
                            states = s2;
                            outs = o2;
                        }
                        match res {
                            Some(x) => {
                                proof {
                                    assert forall|j: int| #![trigger outs[j]] 0 <= j < outs.len() - 1 implies outs[j] is None by {
                                    }
                                    assert(analyze_trace(*send, *exec, start, request@, states, outs, x));
                                }
                                return x;
                            },
                            None => {},
                        }
                    },
                },
            }
            i = i + 1;
        }
        let r = LlmCallResult::RetryFailed;
        proof {
            assert(analyze_trace(*send, *exec, start, request@, states, outs, r));
        }
        r
    }

    /// Repeats rounds on `request` until the model is done or a round fails,
    /// at most `max_workflow_fail` times; then asks for a retry.
    pub fn run_until_done<S: Fn(&str, u32) -> Result<JsonValue, String>, X: Fn(&JsonValue) -> ToolOutput>(
        &mut self,
        request: &str,
        send: &S,
        exec: &X,
    ) -> (r: LlmCallResult)
        requires
            call_functions_ready(*send, *exec),
            old(self).messages.message_id.val + old(self).max_workflow_fail * old(self).max_tool_call_fail < usize::MAX,
        ensures
            only_messages_changed(*old(self), *final(self)),
            final(self).messages.message_id.val <= old(self).messages.message_id.val + old(self).max_workflow_fail
                * old(self).max_tool_call_fail,
            r is Done || r is RetryFailed || !llm_valid(r),
            exists|st: Seq<LlmCall>, rs: Seq<LlmCallResult>|
                #![trigger analyzed_rounds(*send, *exec, request@, st, rs)]
                {
                    &&& analyzed_rounds(*send, *exec, request@, st, rs)
                    &&& st[0] == *old(self)
                    &&& st.last() == *final(self)
                    &&& rs.len() <= old(self).max_workflow_fail
                    &&& forall|j: int| #![trigger rs[j]] 0 <= j < rs.len() - 1 ==> llm_valid(rs[j]) && !(rs[j] is Done)
                    &&& if rs.len() > 0 && (rs.last() is Done || !llm_valid(rs.last())) {
                        r == rs.last()
                    } else {
                        rs.len() == old(self).max_workflow_fail && r is RetryFailed
                    }
                },
    {
        let ghost start = *self;
        let ghost mut st: Seq<LlmCall> = seq![*self];
        let ghost mut rs: Seq<LlmCallResult> = Seq::empty();
        let n = self.max_workflow_fail;
        let mut i: usize = 0;
        while i < n
            invariant
                call_functions_ready(*send, *exec),
                start == *old(self),
                n == start.max_workflow_fail,
                i <= n,
                only_messages_changed(start, *self),
                self.messages.message_id.val <= start.messages.message_id.val + i * start.max_tool_call_fail,
                start.messages.message_id.val + n * start.max_tool_call_fail < usize::MAX,
                analyzed_rounds(*send, *exec, request@, st, rs),
                rs.len() == i,
                st[0] == start,
                st.last() == *self,
                forall|j: int| #![trigger rs[j]] 0 <= j < rs.len() ==> llm_valid(rs[j]) && !(rs[j] is Done),
            decreases n - i,
        {
            proof {
                lemma_budget(i as nat, n as nat, start.max_tool_call_fail as nat);
            }
            let ghost before = *self;
            let result = self.analyze(request, send, exec);
            proof {
                let st0 = st;
                let rs0 = rs;
                st = st.push(*self);
                rs = rs.push(result);
                assert forall|j: int| #![trigger rs[j]] 0 <= j < rs.len() implies analyzed(*send, *exec, st[j], request@, st[j + 1], rs[j]) by {
                    if j < rs0.len() {
                        assert(rs[j] == rs0[j]);
                        assert(st[j] == st0[j]);
                        assert(st[j + 1] == st0[j + 1]);
                    }
                }
                assert forall|j: int| #![trigger rs[j]] 0 <= j < rs.len() - 1 implies llm_valid(rs[j]) && !(rs[j] is Done) by {
                    assert(rs[j] == rs0[j]);
                }
            }
            if result.is_done() || !result.is_valid() {
                proof {
                    assert(analyzed_rounds(*send, *exec, request@, st, rs));
                    assert(rs.last() == result);
                }
                return result;
            }
            i = i + 1;
        }
        proof {
            assert(analyzed_rounds(*send, *exec, request@, st, rs));
        }
        LlmCallResult::RetryFailed
    }

    /// Repeats rounds on `request` while the model only loads files, at most
    /// `max_workflow_fail` times; then asks for a retry.
    pub fn run_fix_step<S: Fn(&str, u32) -> Result<JsonValue, String>, X: Fn(&JsonValue) -> ToolOutput>(
        &mut self,
        request: &str,
        send: &S,
        exec: &X,
    ) -> (r: LlmCallResult)
        requires
            call_functions_ready(*send, *exec),
            old(self).messages.message_id.val + old(self).max_workflow_fail * old(self).max_tool_call_fail < usize::MAX,
        ensures
            only_messages_changed(*old(self), *final(self)),
            final(self).messages.message_id.val <= old(self).messages.message_id.val + old(self).max_workflow_fail
                * old(self).max_tool_call_fail,
            !loaded_only(r),
            exists|st: Seq<LlmCall>, rs: Seq<LlmCallResult>|
                #![trigger analyzed_rounds(*send, *exec, request@, st, rs)]
                {
                    &&& analyzed_rounds(*send, *exec, request@, st, rs)
                    &&& st[0] == *old(self)
                    &&& st.last() == *final(self)
                    &&& rs.len() <= old(self).max_workflow_fail
                    &&& forall|j: int| #![trigger rs[j]] 0 <= j < rs.len() - 1 ==> loaded_only(rs[j])
                    &&& if rs.len() > 0 && !loaded_only(rs.last()) {
                        r == rs.last()
                    } else {
                        rs.len() == old(self).max_workflow_fail && r is RetryFailed
                    }
                },
    {
        let ghost start = *self;
        let ghost mut st: Seq<LlmCall> = seq![*self];
        let ghost mut rs: Seq<LlmCallResult> = Seq::empty();
        let n = self.max_workflow_fail;
        let mut i: usize = 0;
        while i < n
            invariant
                call_functions_ready(*send, *exec),
                start == *old(self),
                n == start.max_workflow_fail,
                i <= n,
                only_messages_changed(start, *self),
                self.messages.message_id.val <= start.messages.message_id.val + i * start.max_tool_call_fail,
                start.messages.message_id.val + n * start.max_tool_call_fail < usize::MAX,
                analyzed_rounds(*send, *exec, request@, st, rs),
                rs.len() == i,
                st[0] == start,
                st.last() == *self,
                forall|j: int| #![trigger rs[j]] 0 <= j < rs.len() ==> loaded_only(rs[j]),
            decreases n - i,
        {
            proof {
                lemma_budget(i as nat, n as nat, start.max_tool_call_fail as nat);
            }
            let result = self.analyze(request, send, exec);
            proof {
                let st0 = st;
                let rs0 = rs;
                st = st.push(*self);
                rs = rs.push(result);
                assert forall|j: int| #![trigger rs[j]] 0 <= j < rs.len() implies analyzed(*send, *exec, st[j], request@, st[j + 1], rs[j]) by {
                    if j < rs0.len() {
                        assert(rs[j] == rs0[j]);
                        assert(st[j] == st0[j]);
                        assert(st[j + 1] == st0[j + 1]);
                    }
                }
                assert forall|j: int| #![trigger rs[j]] 0 <= j < rs.len() - 1 implies loaded_only(rs[j]) by {
                    assert(rs[j] == rs0[j]);
                }
            }
            let loads = match &result {
                LlmCallResult::ToolResult(o) => o.to_base().is_load(),
                _ => false,
            };
            if !loads {
                proof {
                    assert(analyzed_rounds(*send, *exec, request@, st, rs));
                    assert(rs.last() == result);
                }
                return result;
            }
            i = i + 1;
        }
        proof {
            assert(analyzed_rounds(*send, *exec, request@, st, rs));
        }
        LlmCallResult::RetryFailed
    }

    /// Repeats rounds on `request` until two valid outcomes come in a row,
    /// at most `max_workflow_fail` rounds (at least one); the outcome is
    /// that of the last round.
    pub fn run<S: Fn(&str, u32) -> Result<JsonValue, String>, X: Fn(&JsonValue) -> ToolOutput>(
        &mut self,
        request: &str,
        send: &S,
        exec: &X,
    ) -> (r: LlmCallResult)
        requires
            call_functions_ready(*send, *exec),
            old(self).messages.message_id.val + (old(self).max_workflow_fail + 1) * old(self).max_tool_call_fail
                < usize::MAX,
        ensures
            only_messages_changed(*old(self), *final(self)),
            final(self).messages.message_id.val <= old(self).messages.message_id.val + (old(self).max_workflow_fail
                + 1) * old(self).max_tool_call_fail,
            analyze_shape(r),
            ran(*send, *exec, *old(self), request@, *final(self), r),
    {
        let ghost start = *self;
        let max_attempts = self.max_workflow_fail;
        let ghost per = start.max_tool_call_fail as nat;
        proof {
            lemma_budget(0, (max_attempts + 1) as nat, per);
        }
        let mut ok_count: usize = 0;
        let mut res = self.analyze(request, send, exec);
        let ghost mut t: Seq<bool> = seq![llm_valid(res)];
        let ghost mut st: Seq<LlmCall> = seq![start, *self];
        let ghost mut rs: Seq<LlmCallResult> = seq![res];
        proof {
            assert(st[0] == start && st[1] == *self && rs[0] == res);
            assert(analyzed_rounds(*send, *exec, request@, st, rs));
            assert(t =~= validities(rs));
        }
        let mut attempt: usize = 1;
        while attempt < max_attempts
            invariant
                call_functions_ready(*send, *exec),
                start == *old(self),
                per == start.max_tool_call_fail as nat,
                max_attempts == start.max_workflow_fail,
                1 <= attempt,
                max_attempts >= 1 ==> attempt <= max_attempts,
                max_attempts == 0 ==> attempt == 1,
                t.len() == attempt,
                only_messages_changed(start, *self),
                self.messages.message_id.val <= start.messages.message_id.val + attempt * start.max_tool_call_fail,
                start.messages.message_id.val + (max_attempts + 1) * start.max_tool_call_fail < usize::MAX,
                analyze_shape(res),
                t.last() == llm_valid(res),
                analyzed_rounds(*send, *exec, request@, st, rs),
                rs.len() == attempt,
                st[0] == start,
                st.last() == *self,
                rs.last() == res,
                t == validities(rs),
                ok_count == valid_run(t, t.len() - 2),
                forall|k: int| 0 <= k < t.len() - 1 ==> valid_run(t, k) < 2,
            ensures
                attempt >= max_attempts || valid_run(t, t.len() - 1) >= 2,
                max_attempts >= 1 ==> attempt <= max_attempts,
                max_attempts == 0 ==> attempt == 1,
                t.len() == attempt,
            decreases max_attempts - attempt,
        {
            let next = if !res.is_valid() {
                0
            } else {
                ok_count + 1
            };
            assert(next == valid_run(t, t.len() - 1));
            if next >= 2 {
                break;
            }
            ok_count = next;
            proof {
                lemma_budget(attempt as nat, (max_attempts + 1) as nat, per);
            }
            res = self.analyze(request, send, exec);
            proof {
                let st0 = st;
                let rs0 = rs;
                st = st.push(*self);
                rs = rs.push(res);
                assert forall|j: int| #![trigger rs[j]] 0 <= j < rs.len() implies analyzed(*send, *exec, st[j], request@, st[j + 1], rs[j]) by {
                    if j < rs0.len() {
                        assert(rs[j] == rs0[j]);
                        assert(st[j] == st0[j]);
                        assert(st[j + 1] == st0[j + 1]);
                    }
                }
                let t0 = t;
                t = t.push(llm_valid(res));
                assert(t =~= validities(rs));
                assert forall|k: int| 0 <= k < t.len() - 1 implies valid_run(t, k) == valid_run(t0, k) by {
                    lemma_valid_run_push(t0, llm_valid(res), k);
                }
                lemma_valid_run_push(t0, llm_valid(res), t0.len() - 1);
            }
            attempt = attempt + 1;
        }
        proof {
            let m: nat = if max_attempts < 1 {
                1
            } else {
                max_attempts as nat
            };
            assert(t.len() <= m);
            assert(confirmation_rule(t, max_attempts as nat));
            assert(analyzed_rounds(*send, *exec, request@, st, rs));
            let a = attempt as nat;
            let mx = max_attempts as nat;
            assert(a * per <= (mx + 1) * per) by (nonlinear_arith)
                requires
                    a <= mx + 1,
            ;
        }
        res
    }
}

/// Pushing an outcome keeps the runs that end before it.
proof fn lemma_valid_run_push(t: Seq<bool>, b: bool, k: int)
    requires
        k < t.len(),
    ensures
        valid_run(t.push(b), k) == valid_run(t, k),
    decreases k + 1,
{
    if k >= 0 {
        lemma_valid_run_push(t, b, k - 1);
    }
}

/// Every tool call that is handled takes exactly one message id, and
/// changes nothing of the call but its conversation.
pub proof fn law_one_id_per_tool_call<X: Fn(&JsonValue) -> ToolOutput>(
    exec: X,
    old: LlmCall,
    new: LlmCall,
    content: Seq<char>,
    r: ToolOutput,
)
    requires
        old.messages.message_id.val < usize::MAX,
        handled(exec, old, new, content, r),
    ensures
        new.messages.message_id.val == old.messages.message_id.val + 1,
        only_messages_changed(old, new),
{
}

/// A round of `analyze` takes at most one message id.
pub proof fn law_round_takes_at_most_one_id<S: Fn(&str, u32) -> Result<JsonValue, String>, X: Fn(&JsonValue) -> ToolOutput>(
    send: S,
    exec: X,
    before: LlmCall,
    after: LlmCall,
    r: Option<LlmCallResult>,
)
    requires
        before.messages.message_id.val < usize::MAX,
        analyze_round(send, exec, before, after, r),
    ensures
        after.messages.message_id.val <= before.messages.message_id.val + 1,
        only_messages_changed(before, after),
{
    let (s, resp) = choose|s: &str, resp: Result<JsonValue, String>|
        {
            &&& s@ == array_text(request_items(before.messages))
            &&& call_ensures(send, (s, 30000u32), resp)
            &&& match resp {
                Err(m) => r == Some(LlmCallResult::RequestError(m)) && after == before,
                Ok(reply) => match reply_action(reply) {
                    None => r == Some(LlmCallResult::Done) && after == before,
                    Some(t) => exists|o: ToolOutput|
                        #![trigger handled(exec, before, after, t, o)]
                        handled(exec, before, after, t, o) && r == action_outcome(o),
                },
            }
        };
    match resp {
        Err(_) => {},
        Ok(reply) => match reply_action(reply) {
            None => {},
            Some(t) => {
                let o = choose|o: ToolOutput| handled(exec, before, after, t, o) && r == action_outcome(o);
                law_one_id_per_tool_call(exec, before, after, t, o);
            },
        },
    }
}

/// A malformed tool call is recoverable: the model is told, in a tool
/// message at the end of the conversation, what did not and the round
/// goes on (the outcome does not end the call).
pub proof fn law_malformed_call_is_answered<X: Fn(&JsonValue) -> ToolOutput>(
    exec: X,
    old: LlmCall,
    new: LlmCall,
    content: Seq<char>,
    e: Seq<char>,
    r: ToolOutput,
)
    requires
        json_parsed(action_code(content)) == Err::<JsonValue, Seq<char>>(e),
        handled(exec, old, new, content, r),
    ensures
        action_outcome(r) is None,
        messages_view(new.messages.messages@).len() == old.messages.messages@.len() + 1,
        messages_view(new.messages.messages@).last().msgtype == AIMessageType::Tool,
        messages_view(new.messages.messages@).last().data == parse_error_message(e, action_code(content)),
{
    let before = numbered(old);
    let id = before.messages.message_id;
    let data = parse_error_message(e, action_code(content));
    let msgs = messages_view(before.messages.messages@);
    assert(!crate::aimessage::dedups_answers(AIToolType::Failed));
    assert(appended(msgs, id, AIMessageType::Tool, AIToolType::Failed, data) == msgs.push(
        MessageView { message_id: id, msgtype: AIMessageType::Tool, tooltype: AIToolType::Failed, data },
    ));
}

/// Rounds made so far stay within the id budget.
pub proof fn lemma_budget(i: nat, n: nat, per: nat)
    requires
        i < n,
    ensures
        i * per + per <= n * per,
        (i + 1) * per == i * per + per,
{
    assert((i + 1) * per == i * per + per) by (nonlinear_arith);
    assert(i * per + per <= n * per) by (nonlinear_arith)
        requires
            i < n,
    ;
}

} // verus!

verus! {

/// The paths a selection names: its trimmed, non-empty lines, at most
/// `max_files` of them.
pub open spec fn requested_paths(selection: Seq<char>, max_files: nat) -> Seq<Seq<char>> {
    let ls = crate::text::lines(selection);
    let kept = Seq::new(ls.len(), |i: int| trim(ls[i])).filter(|l: Seq<char>| l.len() > 0);
    if kept.len() <= max_files {
        kept
    } else {
        kept.take(max_files as int)
    }
}

/// `load`, called on `path`, gave the entry `e`.
pub open spec fn loaded_from<L: Fn(&str) -> Result<FileEntry, String>>(load: L, path: Seq<char>, e: FileEntry) -> bool {
    exists|s: &str| s@ == path && call_ensures(load, (s,), Ok::<FileEntry, String>(e))
}

/// `load`, called on some path, failed with `e`.
pub open spec fn load_failed<L: Fn(&str) -> Result<FileEntry, String>>(load: L, e: String) -> bool {
    exists|s: &str| call_ensures(load, (s,), Err::<FileEntry, String>(e))
}

/// Whether `path` is the path of one of `files`.
pub open spec fn file_loaded(files: Seq<FileEntry>, path: Seq<char>) -> bool {
    exists|k: int| 0 <= k < files.len() && files[k].path@ == path
}

/// `p` is what `resolve` made of one of the paths a selection requests.
pub open spec fn resolved_request<R: Fn(&str) -> Option<String>>(resolve: R, selection: Seq<char>, max_files: nat, p: Seq<char>) -> bool {
    exists|k: int, s: &str, out: String|
        #![trigger call_ensures(resolve, (s,), Some(out)), requested_paths(selection, max_files)[k]]
        {
            &&& 0 <= k < requested_paths(selection, max_files).len()
            &&& s@ == requested_paths(selection, max_files)[k]
            &&& call_ensures(resolve, (s,), Some(out))
            &&& out@ == p
        }
}

/// `p` is what `normalize` made of the project and one of the files the
/// model may ask for.
pub open spec fn listed_in<N: Fn(&str, &str) -> String>(normalize: N, l: LlmCall, p: Seq<char>) -> bool {
    exists|j: int, a: &str, b: &str, out: String|
        #![trigger call_ensures(normalize, (a, b), out), l.messages.filelist@[j]]
        {
            &&& 0 <= j < l.messages.filelist@.len()
            &&& a@ == l.projdir@
            &&& b@ == l.messages.filelist@[j]@
            &&& call_ensures(normalize, (a, b), out)
            &&& out@ == p
        }
}

/// A file that loading a selection may load from the call `l`: requested
/// and resolved, listed, and not shown yet.
pub open spec fn selectable_file<R: Fn(&str) -> Option<String>, N: Fn(&str, &str) -> String>(
    resolve: R,
    normalize: N,
    l: LlmCall,
    selection: Seq<char>,
    max_files: nat,
    p: Seq<char>,
) -> bool {
    &&& resolved_request(resolve, selection, max_files, p)
    &&& listed_in(normalize, l, p)
    &&& !file_loaded(l.messages.files@, p)
}

/// What came of one requested path while a selection was loaded.
pub enum SelectStep {
    /// The path is unknown, is not among the files the model may ask for,
    /// or its file is shown already.
    Skipped,
    /// The file at the path was loaded as the entry.
    Loaded(Seq<char>, FileEntry),
    /// Loading the file at the path failed with the error.
    Failed(Seq<char>, String),
}

/// `resolve`, called on `req`, found no file.
pub open spec fn resolved_none<R: Fn(&str) -> Option<String>>(resolve: R, req: Seq<char>) -> bool {
    exists|s: &str| s@ == req && call_ensures(resolve, (s,), None::<String>)
}

/// `resolve`, called on `req`, gave the path `p`.
pub open spec fn resolved_path<R: Fn(&str) -> Option<String>>(resolve: R, req: Seq<char>, p: Seq<char>) -> bool {
    exists|s: &str, out: String| s@ == req && call_ensures(resolve, (s,), Some(out)) && out@ == p
}

/// `normalize`, called on `a` and `b`, gave `out`.
pub open spec fn norm_gave<N: Fn(&str, &str) -> String>(normalize: N, a: Seq<char>, b: Seq<char>, out: String) -> bool {
    exists|x: &str, y: &str| x@ == a && y@ == b && call_ensures(normalize, (x, y), out)
}

/// Joined to `projdir` by `normalize`, one of `filelist` gave `p`.
pub open spec fn listed_as<N: Fn(&str, &str) -> String>(
    normalize: N,
    projdir: Seq<char>,
    filelist: Seq<String>,
    p: Seq<char>,
) -> bool {
    exists|j: int, out: String|
        0 <= j < filelist.len() && #[trigger] norm_gave(normalize, projdir, filelist[j]@, out) && out@ == p
}

/// Joined to `projdir` by `normalize`, each of `filelist` gave something
/// other than `p`.
pub open spec fn unlisted<N: Fn(&str, &str) -> String>(
    normalize: N,
    projdir: Seq<char>,
    filelist: Seq<String>,
    p: Seq<char>,
) -> bool {
    exists|outs: Seq<String>|
        outs.len() == filelist.len() && forall|j: int|
            0 <= j < outs.len() ==> #[trigger] norm_gave(normalize, projdir, filelist[j]@, outs[j]) && outs[j]@ != p
}

/// `load`, called on `p`, failed with `e`.
pub open spec fn load_gave_err<L: Fn(&str) -> Result<FileEntry, String>>(load: L, p: Seq<char>, e: String) -> bool {
    exists|s: &str| s@ == p && call_ensures(load, (s,), Err::<FileEntry, String>(e))
}

/// `o` is what may come of the requested path `req` when `files` are shown.
pub open spec fn select_step<
    R: Fn(&str) -> Option<String>,
    N: Fn(&str, &str) -> String,
    L: Fn(&str) -> Result<FileEntry, String>,
>(
    resolve: R,
    normalize: N,
    load: L,
    projdir: Seq<char>,
    filelist: Seq<String>,
    files: Seq<FileEntry>,
    req: Seq<char>,
    o: SelectStep,
) -> bool {
    match o {
        SelectStep::Skipped => resolved_none(resolve, req) || exists|p: Seq<char>|
            #[trigger] resolved_path(resolve, req, p) && (unlisted(normalize, projdir, filelist, p) || (listed_as(
                normalize,
                projdir,
                filelist,
                p,
            ) && file_loaded(files, p))),
        SelectStep::Loaded(p, e) => {
            &&& resolved_path(resolve, req, p)
            &&& listed_as(normalize, projdir, filelist, p)
            &&& !file_loaded(files, p)
            &&& loaded_from(load, p, e)
        },
        SelectStep::Failed(p, e) => {
            &&& resolved_path(resolve, req, p)
            &&& listed_as(normalize, projdir, filelist, p)
            &&& !file_loaded(files, p)
            &&& load_gave_err(load, p, e)
        },
    }
}

/// The files shown after `steps`, starting from `files`.
pub open spec fn files_after(files: Seq<FileEntry>, steps: Seq<SelectStep>) -> Seq<FileEntry>
    decreases steps.len(),
{
    if steps.len() == 0 {
        files
    } else {
        let f = files_after(files, steps.drop_last());
        match steps.last() {
            SelectStep::Loaded(_, e) => f.push(e),
            _ => f,
        }
    }
}

/// The paths loaded in `steps`, in order.
pub open spec fn paths_loaded(steps: Seq<SelectStep>) -> Seq<Seq<char>>
    decreases steps.len(),
{
    if steps.len() == 0 {
        Seq::empty()
    } else {
        let f = paths_loaded(steps.drop_last());
        match steps.last() {
            SelectStep::Loaded(p, _) => f.push(p),
            _ => f,
        }
    }
}

/// `steps` are what came of the first requests of `reqs`, one after the
/// other, starting from the call `l`; only the last may be a failure.
pub open spec fn select_run<
    R: Fn(&str) -> Option<String>,
    N: Fn(&str, &str) -> String,
    L: Fn(&str) -> Result<FileEntry, String>,
>(resolve: R, normalize: N, load: L, l: LlmCall, reqs: Seq<Seq<char>>, steps: Seq<SelectStep>) -> bool {
    &&& steps.len() <= reqs.len()
    &&& forall|i: int|
        0 <= i < steps.len() ==> select_step(
            resolve,
            normalize,
            load,
            l.projdir@,
            l.messages.filelist@,
            files_after(l.messages.files@, steps.take(i)),
            reqs[i],
            #[trigger] steps[i],
        )
    &&& forall|i: int| 0 <= i < steps.len() - 1 ==> !(#[trigger] steps[i] is Failed)
}

/// Loading `selection` (at most `max_files` paths) turned the call `before`
/// into `after` with the result `r`, through `steps`: the files and the
/// paths loaded on request are those of `steps`; on success every request
/// was handled and the count is that of the files loaded; on failure the
/// last step is the failed load and its error is returned.
pub open spec fn select_outcome<
    R: Fn(&str) -> Option<String>,
    N: Fn(&str, &str) -> String,
    L: Fn(&str) -> Result<FileEntry, String>,
>(
    resolve: R,
    normalize: N,
    load: L,
    before: LlmCall,
    after: LlmCall,
    selection: Seq<char>,
    max_files: nat,
    r: Result<usize, String>,
    steps: Seq<SelectStep>,
) -> bool {
    let n = before.transient_source_files@.len();
    &&& select_run(resolve, normalize, load, before, requested_paths(selection, max_files), steps)
    &&& after.messages.files@ == files_after(before.messages.files@, steps)
    &&& after.transient_source_files@.len() == n + paths_loaded(steps).len()
    &&& after.transient_source_files@.take(n as int) == before.transient_source_files@
    &&& forall|j: int|
        0 <= j < paths_loaded(steps).len() ==> after.transient_source_files@[n + j]@ == #[trigger] paths_loaded(
            steps,
        )[j]
    &&& match r {
        Ok(k) => {
            &&& steps.len() == requested_paths(selection, max_files).len()
            &&& forall|i: int| 0 <= i < steps.len() ==> !(#[trigger] steps[i] is Failed)
            &&& k == paths_loaded(steps).len()
        },
        Err(e) => steps.len() > 0 && (steps.last() matches SelectStep::Failed(_, e2) && e2 == e),
    }
}

/// Adding one more step to a run without failures keeps it a run, and
/// extends the files and paths by what the step loaded.
pub proof fn lemma_select_push<
    R: Fn(&str) -> Option<String>,
    N: Fn(&str, &str) -> String,
    L: Fn(&str) -> Result<FileEntry, String>,
>(resolve: R, normalize: N, load: L, l: LlmCall, reqs: Seq<Seq<char>>, steps: Seq<SelectStep>, o: SelectStep)
    requires
        select_run(resolve, normalize, load, l, reqs, steps),
        forall|i: int| 0 <= i < steps.len() ==> !(#[trigger] steps[i] is Failed),
        steps.len() < reqs.len(),
        select_step(
            resolve,
            normalize,
            load,
            l.projdir@,
            l.messages.filelist@,
            files_after(l.messages.files@, steps),
            reqs[steps.len() as int],
            o,
        ),
    ensures
        select_run(resolve, normalize, load, l, reqs, steps.push(o)),
        files_after(l.messages.files@, steps.push(o)) == match o {
            SelectStep::Loaded(_, e) => files_after(l.messages.files@, steps).push(e),
            _ => files_after(l.messages.files@, steps),
        },
        paths_loaded(steps.push(o)) == match o {
            SelectStep::Loaded(p, _) => paths_loaded(steps).push(p),
            _ => paths_loaded(steps),
        },
        !(o is Failed) ==> forall|i: int| 0 <= i < steps.len() + 1 ==> !(#[trigger] steps.push(o)[i] is Failed),
{
    let s2 = steps.push(o);
    assert(s2.drop_last() =~= steps);
    assert(s2.take(steps.len() as int) =~= steps);
    assert forall|i: int| 0 <= i < s2.len() implies select_step(
        resolve,
        normalize,
        load,
        l.projdir@,
        l.messages.filelist@,
        files_after(l.messages.files@, s2.take(i)),
        reqs[i],
        #[trigger] s2[i],
    ) by {
        if i < steps.len() {
            assert(s2.take(i) =~= steps.take(i));
            assert(s2[i] == steps[i]);
        }
    }
    assert forall|i: int| 0 <= i < s2.len() - 1 implies !(#[trigger] s2[i] is Failed) by {
        assert(s2[i] == steps[i]);
    }
    if !(o is Failed) {
        assert forall|i: int| 0 <= i < steps.len() + 1 implies !(#[trigger] s2[i] is Failed) by {
            if i < steps.len() {
                assert(s2[i] == steps[i]);
            }
        }
    }
}


impl LlmCall {
    /// Loads the files a selection names, at most `max_files`: each is
    /// resolved against the project by `resolve` (unknown ones are skipped),
    /// must be in the list of files the model may ask for (compared after
    /// `normalize` joins it to the project), and is skipped when already
    /// shown; the others are loaded by `load`, shown, and remembered as
    /// loaded on request. Gives the number loaded, or the first load error.
    pub fn load_selected_source_files<
        R: Fn(&str) -> Option<String>,
        N: Fn(&str, &str) -> String,
        L: Fn(&str) -> Result<FileEntry, String>,
    >(&mut self, selection: &str, max_files: usize, resolve: &R, normalize: &N, load: &L) -> (r: Result<usize, String>)
        requires
            forall|s: &str| call_requires(*resolve, (s,)),
            forall|a: &str, b: &str| call_requires(*normalize, (a, b)),
            forall|s: &str| call_requires(*load, (s,)),
        ensures
            only_messages_changed(*old(self), *final(self)),
            final(self).messages == (AIMessageList { files: final(self).messages.files, ..old(self).messages }),
            match r {
                Ok(k) => {
                    &&& k <= requested_paths(selection@, max_files as nat).len()
                    &&& final(self).messages.files@.len() == old(self).messages.files@.len() + k
                    &&& final(self).messages.files@.take(old(self).messages.files@.len() as int)
                        == old(self).messages.files@
                    &&& final(self).transient_source_files@.len() == old(self).transient_source_files@.len() + k
                    &&& final(self).transient_source_files@.take(old(self).transient_source_files@.len() as int)
                        == old(self).transient_source_files@
                    &&& forall|j: int|
                        old(self).messages.files@.len() <= j < final(self).messages.files@.len() ==> loaded_from(
                            *load,
                            final(self).transient_source_files@[old(self).transient_source_files@.len() + j
                                - old(self).messages.files@.len()]@,
                            #[trigger] final(self).messages.files@[j],
                        )
                    &&& forall|j: int|
                        old(self).transient_source_files@.len() <= j < final(self).transient_source_files@.len()
                            ==> selectable_file(
                            *resolve,
                            *normalize,
                            *old(self),
                            selection@,
                            max_files as nat,
                            #[trigger] final(self).transient_source_files@[j]@,
                        )
                },
                Err(e) => load_failed(*load, e),
            },
            exists|steps: Seq<SelectStep>|
                #[trigger] select_outcome(
                    *resolve,
                    *normalize,
                    *load,
                    *old(self),
                    *final(self),
                    selection@,
                    max_files as nat,
                    r,
                    steps,
                ),
    {
        let c = to_chars(selection);
        let ls = crate::text::lines_chars(c.as_slice());
        let mut requested: Vec<String> = Vec::new();
        let ghost ls_view = crate::text::lines(selection@);
        let ghost trimmed = Seq::new(ls_view.len(), |i: int| trim(ls_view[i]));
        let ghost keep = |l: Seq<char>| l.len() > 0;
        assert(ls@.len() == ls_view.len());
        let mut i: usize = 0;
        while i < ls.len()
            invariant
                ls@.len() == ls_view.len(),
                forall|j: int| 0 <= j < ls@.len() ==> #[trigger] ls@[j]@ == ls_view[j],
                trimmed == Seq::new(ls_view.len(), |i: int| trim(ls_view[i])),
                keep == (|l: Seq<char>| l.len() > 0),
                i <= ls@.len(),
                crate::text::strings_text(requested@) == trimmed.take(i as int).filter(keep),
            decreases ls@.len() - i,
        {
            let t = trim_chars(ls[i].as_slice());
            let ghost before = crate::text::strings_text(requested@);
            if t.len() > 0 {
                requested.push(from_chars(t.as_slice()));
            }
            proof {
                assert(trimmed.take(i + 1).drop_last() =~= trimmed.take(i as int));
                assert(trimmed.take(i + 1).last() == trimmed[i as int]);
                assert(trimmed.take(i + 1).filter(keep) == if keep(trimmed[i as int]) {
                    before.push(trimmed[i as int])
                } else {
                    before
                }) by {
                    reveal(Seq::filter);
                }
                assert(crate::text::strings_text(requested@) =~= trimmed.take(i + 1).filter(keep));
            }
            i = i + 1;
        }
        assert(trimmed.take(ls@.len() as int) =~= trimmed);
        let count = if requested.len() <= max_files {
            requested.len()
        } else {
            max_files
        };
        assert(count == requested_paths(selection@, max_files as nat).len());
        assert forall|kk: int| 0 <= kk < count implies #[trigger] requested@[kk]@ == requested_paths(
            selection@,
            max_files as nat,
        )[kk] by {
            assert(crate::text::strings_text(requested@)[kk] == requested@[kk]@);
        }
        let ghost start = *self;
        let ghost reqs = requested_paths(selection@, max_files as nat);
        let ghost mut steps: Seq<SelectStep> = Seq::empty();
        assert(steps.take(0) =~= steps);
        let mut loaded: usize = 0;
        let mut k: usize = 0;
        while k < count
            invariant
                reqs == requested_paths(selection@, max_files as nat),
                steps.len() == k,
                select_run(*resolve, *normalize, *load, start, reqs, steps),
                forall|i: int| 0 <= i < steps.len() ==> !(#[trigger] steps[i] is Failed),
                self.messages.files@ == files_after(start.messages.files@, steps),
                loaded == paths_loaded(steps).len(),
                forall|j: int|
                    0 <= j < paths_loaded(steps).len() ==> self.transient_source_files@[start.transient_source_files@.len()
                        + j]@ == #[trigger] paths_loaded(steps)[j],
                forall|s: &str| call_requires(*resolve, (s,)),
                forall|a: &str, b: &str| call_requires(*normalize, (a, b)),
                forall|s: &str| call_requires(*load, (s,)),
                count <= requested@.len(),
                count == requested_paths(selection@, max_files as nat).len(),
                start == *old(self),
                k <= count,
                loaded <= k,
                only_messages_changed(start, *self),
                self.messages == (AIMessageList { files: self.messages.files, ..start.messages }),
                self.messages.files@.len() == start.messages.files@.len() + loaded,
                self.messages.files@.take(start.messages.files@.len() as int) == start.messages.files@,
                self.transient_source_files@.len() == start.transient_source_files@.len() + loaded,
                self.transient_source_files@.take(start.transient_source_files@.len() as int)
                    == start.transient_source_files@,
                forall|j: int|
                    start.messages.files@.len() <= j < self.messages.files@.len() ==> loaded_from(
                        *load,
                        self.transient_source_files@[start.transient_source_files@.len() + j
                            - start.messages.files@.len()]@,
                        #[trigger] self.messages.files@[j],
                    ),
                forall|kk: int| 0 <= kk < count ==> #[trigger] requested@[kk]@ == requested_paths(
                    selection@,
                    max_files as nat,
                )[kk],
                forall|j: int|
                    start.transient_source_files@.len() <= j < self.transient_source_files@.len() ==> selectable_file(
                        *resolve,
                        *normalize,
                        start,
                        selection@,
                        max_files as nat,
                        #[trigger] self.transient_source_files@[j]@,
                    ),
            decreases count - k,
        {
            let req = requested[k].as_str();
            let ghost kv = k as int;
            k = k + 1;
            let res = resolve(req);
            let ghost rv = res;
            let path = match res {
                Some(p) => p,
                None => {
                    proof {
                        assert(call_ensures(*resolve, (req,), None::<String>));
                        assert(req@ == reqs[kv]);
                        assert(resolved_none(*resolve, reqs[kv]));
                        lemma_select_push(*resolve, *normalize, *load, start, reqs, steps, SelectStep::Skipped);
                        steps = steps.push(SelectStep::Skipped);
                    }
                    continue;
                },
            };
            assert(call_ensures(*resolve, (req,), Some(path)));
            assert(req@ == reqs[kv]);
            assert(resolved_path(*resolve, reqs[kv], path@));
            assert(resolved_request(*resolve, selection@, max_files as nat, path@));
            let pc = to_chars(path.as_str());
            let mut listed = false;
            let mut j: usize = 0;
            let ghost mut outs: Seq<String> = Seq::empty();
            while j < self.messages.filelist.len()
                invariant
                    j <= self.messages.filelist@.len(),
                    forall|a: &str, b: &str| call_requires(*normalize, (a, b)),
                    pc@ == path@,
                    listed ==> listed_in(*normalize, *self, path@),
                    listed ==> listed_as(*normalize, self.projdir@, self.messages.filelist@, path@),
                    outs.len() == j,
                    forall|jj: int|
                        0 <= jj < j ==> #[trigger] norm_gave(
                            *normalize,
                            self.projdir@,
                            self.messages.filelist@[jj]@,
                            outs[jj],
                        ),
                    !listed ==> forall|jj: int| 0 <= jj < j ==> (#[trigger] outs[jj])@ != path@,
                decreases self.messages.filelist@.len() - j,
            {
                let a = self.projdir.as_str();
                let b = self.messages.filelist[j].as_str();
                let joined = normalize(a, b);
                let jc = to_chars(joined.as_str());
                let ghost prev = outs;
                proof {
                    assert(call_ensures(*normalize, (a, b), joined));
                    assert(self.messages.filelist@[j as int]@ == b@);
                    assert(norm_gave(*normalize, self.projdir@, self.messages.filelist@[j as int]@, joined));
                    outs = outs.push(joined);
                    assert forall|jj: int|
                        0 <= jj < j + 1 implies #[trigger] norm_gave(
                        *normalize,
                        self.projdir@,
                        self.messages.filelist@[jj]@,
                        outs[jj],
                    ) by {
                        if jj < j {
                            assert(outs[jj] == prev[jj]);
                        }
                    }
                }
                if crate::text::chars_eq(jc.as_slice(), pc.as_slice()) {
                    listed = true;
                } else {
                    proof {
                        assert forall|jj: int| 0 <= jj < j + 1 && !listed implies (#[trigger] outs[jj])@ != path@ by {
                            if jj < j {
                                assert(outs[jj] == prev[jj]);
                            }
                        }
                    }
                }
                j = j + 1;
            }
            if !listed {
                proof {
                    assert(outs.len() == start.messages.filelist@.len());
                    assert(forall|jj: int|
                        0 <= jj < outs.len() ==> #[trigger] norm_gave(
                            *normalize,
                            start.projdir@,
                            start.messages.filelist@[jj]@,
                            outs[jj],
                        ) && outs[jj]@ != path@);
                    assert(unlisted(*normalize, start.projdir@, start.messages.filelist@, path@));
                    lemma_select_push(*resolve, *normalize, *load, start, reqs, steps, SelectStep::Skipped);
                    steps = steps.push(SelectStep::Skipped);
                }
                continue;
            }
            let mut present = false;
            let mut q: usize = 0;
            while q < self.messages.files.len()
                invariant
                    q <= self.messages.files@.len(),
                    pc@ == path@,
                    present == exists|q2: int| 0 <= q2 < q && #[trigger] self.messages.files@[q2].path@ == path@,
                decreases self.messages.files@.len() - q,
            {
                let fp = to_chars(self.messages.files[q].path.as_str());
                if crate::text::chars_eq(fp.as_slice(), pc.as_slice()) {
                    present = true;
                }
                q = q + 1;
            }
            if present {
                proof {
                    assert(file_loaded(self.messages.files@, path@));
                    assert(listed_as(*normalize, start.projdir@, start.messages.filelist@, path@));
                    lemma_select_push(*resolve, *normalize, *load, start, reqs, steps, SelectStep::Skipped);
                    steps = steps.push(SelectStep::Skipped);
                }
                continue;
            }
            proof {
                assert(!file_loaded(self.messages.files@, path@));
                assert(!file_loaded(start.messages.files@, path@)) by {
                    if file_loaded(start.messages.files@, path@) {
                        let w = choose|w: int| 0 <= w < start.messages.files@.len() && start.messages.files@[w].path@ == path@;
                        assert(self.messages.files@.take(start.messages.files@.len() as int)[w] == self.messages.files@[w]);
                    }
                }
                assert(listed_in(*normalize, start, path@));
                assert(selectable_file(*resolve, *normalize, start, selection@, max_files as nat, path@));
            }
            let ps = path.as_str();
            let loaded_entry = load(ps);
            match loaded_entry {
                Err(e) => {
                    let ghost ev = e;
                    assert(call_ensures(*load, (ps,), Err::<FileEntry, String>(ev)));
                    assert(load_failed(*load, ev));
                    proof {
                        assert(load_gave_err(*load, path@, ev));
                        assert(listed_as(*normalize, start.projdir@, start.messages.filelist@, path@));
                        lemma_select_push(*resolve, *normalize, *load, start, reqs, steps, SelectStep::Failed(path@, ev));
                        steps = steps.push(SelectStep::Failed(path@, ev));
                        assert(select_outcome(
                            *resolve,
                            *normalize,
                            *load,
                            start,
                            *self,
                            selection@,
                            max_files as nat,
                            Err::<usize, String>(ev),
                            steps,
                        ));
                    }
                    return Err(e);
                },
                Ok(entry) => {
                    let ghost ent = entry;
                    assert(call_ensures(*load, (ps,), Ok::<FileEntry, String>(ent)));
                    let ghost old_steps = steps;
                    proof {
                        assert(loaded_from(*load, path@, ent));
                        assert(listed_as(*normalize, start.projdir@, start.messages.filelist@, path@));
                        lemma_select_push(*resolve, *normalize, *load, start, reqs, steps, SelectStep::Loaded(path@, ent));
                        steps = steps.push(SelectStep::Loaded(path@, ent));
                    }
                    let ghost old_files = self.messages.files@;
                    let ghost old_transient = self.transient_source_files@;
                    let ghost pv = path@;
                    self.messages.files.push(entry);
                    self.transient_source_files.push(path);
                    proof {
                        assert forall|jj: int|
                            start.transient_source_files@.len() <= jj < self.transient_source_files@.len() implies selectable_file(
                                *resolve,
                                *normalize,
                                start,
                                selection@,
                                max_files as nat,
                                #[trigger] self.transient_source_files@[jj]@,
                            ) by {
                            if jj < old_transient.len() {
                                assert(self.transient_source_files@[jj] == old_transient[jj]);
                            }
                        }
                    }
                    proof {
                        let base = start.messages.files@.len();
                        assert(self.messages.files@.take(base as int) =~= old_files.take(base as int));
                        assert(self.transient_source_files@.take(start.transient_source_files@.len() as int)
                            =~= old_transient.take(start.transient_source_files@.len() as int));
                        assert(loaded_from(*load, ps@, ent));
                        assert forall|jj: int|
                            base <= jj < self.messages.files@.len() implies loaded_from(
                                *load,
                                self.transient_source_files@[start.transient_source_files@.len() + jj - base]@,
                                #[trigger] self.messages.files@[jj],
                            ) by {
                            if jj < old_files.len() {
                                assert(self.messages.files@[jj] == old_files[jj]);
                                assert(self.transient_source_files@[start.transient_source_files@.len() + jj - base]
                                    == old_transient[start.transient_source_files@.len() + jj - base]);
                            } else {
                                assert(self.messages.files@[jj] == ent);
                                assert(ps@ == self.transient_source_files@[start.transient_source_files@.len() + jj
                                    - base]@);
                            }
                        }
                    }
                    proof {
                        let n0 = start.transient_source_files@.len();
                        assert forall|jj: int|
                            0 <= jj < paths_loaded(steps).len() implies self.transient_source_files@[n0 + jj]@
                            == #[trigger] paths_loaded(steps)[jj] by {
                            if jj < paths_loaded(old_steps).len() {
                                assert(self.transient_source_files@[n0 + jj] == old_transient[n0 + jj]);
                                assert(paths_loaded(steps)[jj] == paths_loaded(old_steps)[jj]);
                            }
                        }
                    }
                    loaded = loaded + 1;
                },
            }
        }
        proof {
            assert(select_outcome(
                *resolve,
                *normalize,
                *load,
                start,
                *self,
                selection@,
                max_files as nat,
                Ok::<usize, String>(loaded),
                steps,
            ));
        }
        Ok(loaded)
    }
}

} // verus!

verus! {

/// A path written with `/` only (each `\` replaced).
pub open spec fn forward_slashes(p: Seq<char>) -> Seq<char> {
    Seq::new(p.len(), |i: int| if p[i] == '\\' { '/' } else { p[i] })
}

/// The source roots whose path relative to the project (with `/`) the
/// diagnostic mentions; all of them when it mentions none.
pub open spec fn matching_roots(roots: Seq<Seq<char>>, relative: Seq<Seq<char>>, diagnostic: Seq<char>) -> Seq<Seq<char>> {
    let hits = Seq::new(roots.len(), |i: int| i).filter(
        |i: int| contains_seq(diagnostic, forward_slashes(relative[i])),
    );
    if hits.len() == 0 {
        roots
    } else {
        Seq::new(hits.len(), |k: int| roots[hits[k]])
    }
}

/// The source roots a diagnostic is about (see `matching_roots`); `roots`
/// and `relative` are the roots and their paths relative to the project.
pub fn select_roots(roots: &Vec<String>, relative: &Vec<String>, diagnostic: &str) -> (r: Vec<String>)
    requires
        relative@.len() == roots@.len(),
    ensures
        crate::text::strings_text(r@) == matching_roots(
            crate::text::strings_text(roots@),
            crate::text::strings_text(relative@),
            diagnostic@,
        ),
{
    let d = to_chars(diagnostic);
    let ghost rs = crate::text::strings_text(roots@);
    let ghost rel = crate::text::strings_text(relative@);
    let ghost pred = |i: int| contains_seq(diagnostic@, forward_slashes(rel[i]));
    let ghost idx = Seq::new(roots@.len(), |i: int| i);
    let mut hits: Vec<usize> = Vec::new();
    let mut i: usize = 0;
    while i < roots.len()
        invariant
            i <= roots@.len(),
            relative@.len() == roots@.len(),
            d@ == diagnostic@,
            rel == crate::text::strings_text(relative@),
            pred == (|i: int| contains_seq(diagnostic@, forward_slashes(rel[i]))),
            idx == Seq::new(roots@.len(), |i: int| i),
            Seq::new(hits@.len(), |k: int| hits@[k] as int) == idx.take(i as int).filter(pred),
            forall|k: int| 0 <= k < hits@.len() ==> hits@[k] < i,
        decreases roots@.len() - i,
    {
        let rc = to_chars(relative[i].as_str());
        let mut fw: Vec<char> = Vec::new();
        let mut j: usize = 0;
        while j < rc.len()
            invariant
                j <= rc@.len(),
                fw@ == Seq::new(j as nat, |t: int| if rc@[t] == '\\' { '/' } else { rc@[t] }),
            decreases rc@.len() - j,
        {
            if rc[j] == '\\' {
                fw.push('/');
            } else {
                fw.push(rc[j]);
            }
            j = j + 1;
            assert(fw@ =~= Seq::new(j as nat, |t: int| if rc@[t] == '\\' { '/' } else { rc@[t] }));
        }
        assert(fw@ =~= forward_slashes(rel[i as int]));
        let ghost before = Seq::new(hits@.len(), |k: int| hits@[k] as int);
        let hit = contains_chars(d.as_slice(), fw.as_slice());
        if hit {
            hits.push(i);
        }
        proof {
            assert(idx.take(i + 1).drop_last() =~= idx.take(i as int));
            assert(idx.take(i + 1).last() == i as int);
            assert(idx.take(i + 1).filter(pred) == if pred(i as int) {
                before.push(i as int)
            } else {
                before
            }) by {
                reveal(Seq::filter);
            }
            assert(Seq::new(hits@.len(), |k: int| hits@[k] as int) =~= idx.take(i + 1).filter(pred));
        }
        i = i + 1;
    }
    assert(idx.take(roots@.len() as int) =~= idx);
    let ghost hv = Seq::new(hits@.len(), |k: int| hits@[k] as int);
    if hits.len() == 0 {
        return crate::utils::doprocess::copy_strings(roots);
    }
    let mut r: Vec<String> = Vec::new();
    for k in 0..hits.len()
        invariant
            forall|q: int| 0 <= q < hits@.len() ==> hits@[q] < roots@.len(),
            r@.len() == k,
            forall|q: int| 0 <= q < k ==> #[trigger] r@[q]@ == roots@[hits@[q] as int]@,
    {
        r.push(roots[hits[k]].clone());
    }
    assert(crate::text::strings_text(r@) =~= Seq::new(hv.len(), |k: int| rs[hv[k]]));
    r
}

/// `outline` gave `text` for the root `root`.
pub open spec fn outline_of<A: Fn(&str) -> String>(outline: A, root: Seq<char>, text: Seq<char>) -> bool {
    exists|s: &str, o: String| s@ == root && o@ == text && call_ensures(outline, (s,), o)
}

/// `outlines` are what `outline` gave for the roots `sel`, in order.
pub open spec fn outlined<A: Fn(&str) -> String>(outline: A, sel: Seq<Seq<char>>, outlines: Seq<Seq<char>>) -> bool {
    &&& outlines.len() == sel.len()
    &&& forall|i: int| 0 <= i < sel.len() ==> outline_of(outline, sel[i], #[trigger] outlines[i])
}

impl LlmCall {
    /// Sets the structure information to the outlines of the source roots
    /// the diagnostic is about (see `select_roots`), one per line; `outline`
    /// gives the outline of a root.
    pub fn update_structure_info<A: Fn(&str) -> String>(
        &mut self,
        diagnostic: &str,
        roots: &Vec<String>,
        relative: &Vec<String>,
        outline: &A,
    )
        requires
            relative@.len() == roots@.len(),
            forall|s: &str| call_requires(*outline, (s,)),
        ensures
            only_messages_changed(*old(self), *final(self)),
            final(self).transient_source_files == old(self).transient_source_files,
            final(self).messages == (AIMessageList {
                structureinfo: final(self).messages.structureinfo,
                ..old(self).messages
            }),
            exists|outlines: Seq<Seq<char>>|
                #[trigger] outlined(
                    *outline,
                    matching_roots(crate::text::strings_text(roots@), crate::text::strings_text(relative@), diagnostic@),
                    outlines,
                ) && final(self).messages.structureinfo@ == crate::text::join(outlines, seq!['\n']),
    {
        let selected = select_roots(roots, relative, diagnostic);
        let ghost sel = crate::text::strings_text(selected@);
        let mut parts: Vec<Vec<char>> = Vec::new();
        for i in 0..selected.len()
            invariant
                forall|s: &str| call_requires(*outline, (s,)),
                sel == crate::text::strings_text(selected@),
                parts@.len() == i,
                forall|q: int| 0 <= q < i ==> outline_of(*outline, sel[q], #[trigger] parts@[q]@),
        {
            let s = selected[i].as_str();
            let o = outline(s);
            let oc = to_chars(o.as_str());
            let ghost ov = o;
            let ghost old_parts = parts@;
            parts.push(oc);
            proof {
                assert(s@ == sel[i as int]);
                assert(ov@ == parts@[i as int]@);
                assert(outline_of(*outline, sel[i as int], parts@[i as int]@));
                assert forall|q: int| 0 <= q < i + 1 implies outline_of(*outline, sel[q], #[trigger] parts@[q]@) by {
                    if q < i {
                        assert(parts@[q] == old_parts[q]);
                    }
                }
            }
        }
        let nl = vec!['\n'];
        let joined = crate::text::join_chars(&parts, nl.as_slice());
        let ghost outlines = parts@.map_values(|p: Vec<char>| p@);
        assert(nl@ =~= seq!['\n']);
        self.messages.structureinfo = from_chars(joined.as_slice());
        proof {
            assert forall|i: int| 0 <= i < sel.len() implies outline_of(*outline, sel[i], #[trigger] outlines[i]) by {
                assert(outlines[i] == parts@[i]@);
            }
            assert(outlined(*outline, sel, outlines));
        }
    }
}

} // verus!

verus! {

/// Whether the path `p` lies in `base` (is it, or below it).
pub open spec fn within(p: Seq<char>, base: Seq<char>) -> bool {
    p == base || crate::text::starts_with(p, base + "/"@)
}

/// The path `p` relative to `base`, or `p` itself when it does not lie in
/// `base`.
pub open spec fn relative_to(p: Seq<char>, base: Seq<char>) -> Seq<char> {
    if p == base {
        Seq::empty()
    } else if crate::text::starts_with(p, base + "/"@) {
        p.skip(base.len() + 1int)
    } else {
        p
    }
}

/// The files the model may ask for: the scanned ones outside the `build`
/// and `target` directories of the project, relative to the project.
pub open spec fn file_list_of(projdir: Seq<char>, scanned: Seq<Seq<char>>) -> Seq<Seq<char>> {
    let kept = scanned.filter(
        |p: Seq<char>|
            !within(p, crate::utils::paths::path_join(projdir, "build"@)) && !within(
                p,
                crate::utils::paths::path_join(projdir, "target"@),
            ),
    );
    Seq::new(kept.len(), |i: int| relative_to(kept[i], projdir))
}

/// Whether `p` lies in `base`.
fn within_exec(p: &[char], base: &[char]) -> (b: bool)
    ensures
        b == within(p@, base@),
{
    let mut b2: Vec<char> = Vec::new();
    append_chars(&mut b2, base);
    b2.push('/');
    assert(b2@ =~= base@ + "/"@) by {
        reveal_strlit("/");
    }
    crate::text::chars_eq(p, base) || crate::text::starts_with_chars(p, b2.as_slice())
}

impl LlmCall {
    /// The files the model may ask for (see `file_list_of`), from the files
    /// the scan of the project found.
    pub fn create_file_list(projdir: &str, scanned: &Vec<String>) -> (r: Vec<String>)
        ensures
            crate::text::strings_text(r@) == file_list_of(projdir@, crate::text::strings_text(scanned@)),
    {
        let pc = to_chars(projdir);
        let bp = crate::utils::paths::join_path(projdir, "build");
        let tp = crate::utils::paths::join_path(projdir, "target");
        let bc = to_chars(bp.as_str());
        let tc = to_chars(tp.as_str());
        let ghost sc = crate::text::strings_text(scanned@);
        let ghost keep = |p: Seq<char>|
            !within(p, crate::utils::paths::path_join(projdir@, "build"@)) && !within(
                p,
                crate::utils::paths::path_join(projdir@, "target"@),
            );
        let ghost mut kept: Seq<Seq<char>> = Seq::empty();
        let mut r: Vec<String> = Vec::new();
        let mut i: usize = 0;
        while i < scanned.len()
            invariant
                i <= scanned@.len(),
                sc == crate::text::strings_text(scanned@),
                pc@ == projdir@,
                bc@ == crate::utils::paths::path_join(projdir@, "build"@),
                tc@ == crate::utils::paths::path_join(projdir@, "target"@),
                keep == (|p: Seq<char>|
                    !within(p, crate::utils::paths::path_join(projdir@, "build"@)) && !within(
                        p,
                        crate::utils::paths::path_join(projdir@, "target"@),
                    )),
                kept == sc.take(i as int).filter(keep),
                crate::text::strings_text(r@) == Seq::new(kept.len(), |k: int| relative_to(kept[k], projdir@)),
            decreases scanned@.len() - i,
        {
            let p = to_chars(scanned[i].as_str());
            let ghost before = kept;
            let ghost before_r = crate::text::strings_text(r@);
            if !within_exec(p.as_slice(), bc.as_slice()) && !within_exec(p.as_slice(), tc.as_slice()) {
                let rel: Vec<char> = if crate::text::chars_eq(p.as_slice(), pc.as_slice()) {
                    Vec::new()
                } else {
                    let mut b2: Vec<char> = Vec::new();
                    append_chars(&mut b2, pc.as_slice());
                    b2.push('/');
                    assert(b2@ =~= projdir@ + "/"@) by {
                        reveal_strlit("/");
                    }
                    if crate::text::starts_with_chars(p.as_slice(), b2.as_slice()) {
                        let start = b2.len();
                        crate::text::slice_range(p.as_slice(), start, p.len())
                    } else {
                        let mut c: Vec<char> = Vec::new();
                        append_chars(&mut c, p.as_slice());
                        c
                    }
                };
                assert(rel@ =~= relative_to(p@, projdir@));
                let ghost old_r = r@;
                r.push(from_chars(rel.as_slice()));
                proof {
                    kept = kept.push(p@);
                    assert(crate::text::strings_text(r@) =~= crate::text::strings_text(old_r).push(rel@));
                }
            }
            proof {
                assert(sc.take(i + 1).drop_last() =~= sc.take(i as int));
                assert(sc.take(i + 1).last() == sc[i as int]);
                assert(p@ == sc[i as int]);
                assert(sc.take(i + 1).filter(keep) == if keep(sc[i as int]) {
                    before.push(sc[i as int])
                } else {
                    before
                }) by {
                    reveal(Seq::filter);
                }
                assert(crate::text::strings_text(r@) =~= Seq::new(kept.len(), |k: int| relative_to(kept[k], projdir@)));
            }
            i = i + 1;
        }
        assert(sc.take(scanned@.len() as int) =~= sc);
        r
    }
}

} // verus!

verus! {

/// Whether `s` is one of `list`.
pub open spec fn listed_text(list: Seq<String>, s: Seq<char>) -> bool {
    exists|k: int| 0 <= k < list.len() && list[k]@ == s
}

/// Whether a selected file is shown to the model: it has a file name and a
/// suffix, lies neither in `<projdir>/build/` nor in `<projdir>/target/`
/// (its path does not contain them), and its name is among `names` and its
/// suffix among `suffixes`.
pub open spec fn kept_for_context(
    path: Seq<char>,
    projdir: Seq<char>,
    name: Option<Seq<char>>,
    suffix: Option<Seq<char>>,
    names: Seq<String>,
    suffixes: Seq<String>,
) -> bool {
    &&& name is Some
    &&& suffix is Some
    &&& !contains_seq(path, projdir + "/build/"@)
    &&& !contains_seq(path, projdir + "/target/"@)
    &&& listed_text(names, name->0)
    &&& listed_text(suffixes, suffix->0)
}

/// Whether `s` is one of `list`.
fn in_list(list: &Vec<String>, s: &str) -> (b: bool)
    ensures
        b == listed_text(list@, s@),
{
    let sc = to_chars(s);
    let mut k: usize = 0;
    while k < list.len()
        invariant
            k <= list@.len(),
            sc@ == s@,
            forall|j: int| 0 <= j < k ==> list@[j]@ != s@,
        decreases list@.len() - k,
    {
        let c = to_chars(list[k].as_str());
        if chars_eq(c.as_slice(), sc.as_slice()) {
            return true;
        }
        k = k + 1;
    }
    false
}

/// Decides whether a selected file (its path, normalized project directory,
/// file name and suffix) is shown to the model, see `kept_for_context`;
/// `names` and `suffixes` are the configured file-name and suffix filters.
pub fn keep_selected_file(
    path: &str,
    projdir: &str,
    name: Option<&str>,
    suffix: Option<&str>,
    names: &Vec<String>,
    suffixes: &Vec<String>,
) -> (b: bool)
    ensures
        b == kept_for_context(
            path@,
            projdir@,
            match name {
                Some(n) => Some(n@),
                None => None,
            },
            match suffix {
                Some(x) => Some(x@),
                None => None,
            },
            names@,
            suffixes@,
        ),
{
    let (n, x) = match (name, suffix) {
        (Some(n), Some(x)) => (n, x),
        _ => return false,
    };
    let pc = to_chars(path);
    let mut build = to_chars(projdir);
    append_str(&mut build, "/build/");
    let mut target = to_chars(projdir);
    append_str(&mut target, "/target/");
    proof {
        reveal_strlit("/build/");
        reveal_strlit("/target/");
    }
    !contains_chars(pc.as_slice(), build.as_slice()) && !contains_chars(pc.as_slice(), target.as_slice())
        && in_list(names, n) && in_list(suffixes, x)
}

} // verus!

verus! {

/// Whether the code of the reply text `content`, when it parses, gives an
/// object or `null`: what `handle_text_action` needs (see
/// `tool_code_shape`).
pub fn tool_code_parses_to_object(content: &str) -> (b: bool)
    ensures
        b == tool_code_shape(content@),
{
    let raw = crate::utils::stringutils::raw_fence_to_string(content);
    let code = crate::utils::stringutils::strip_code_fences(raw.as_str());
    assert(code@ == action_code(content@));
    match parse_json(code.as_str()) {
        Ok(v) => match v {
            JsonValue::Object(_) => true,
            JsonValue::Null => true,
            _ => false,
        },
        Err(_) => true,
    }
}

} // verus!
