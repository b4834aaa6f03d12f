//! The tool that replaces one occurrence of a block of text in a file.

use vstd::prelude::*;
use crate::agenttools::aitooltype::{ResultToJson, ResultToString, Validatable};
use crate::agenttools::reply::{id_string, id_string_text, tool_reply, tool_reply_text};
use crate::aimessage::{id_line, id_line_string, AIMessageId};
use crate::agenttools::load_file_part::{field_text, str_of};
use crate::json::json_as_str;
use crate::json::{json_as_u64, json_get, json_text, JsonValue};
use crate::text::{append_chars, append_str, crlf_to_lf, crlf_to_lf_exec, decimal, decimal_chars, find_chars, find_from, from_chars, lemma_find_from, matches_at, slice_range, to_chars};

verus! {

/// A request to replace occurrence `occurrence_index` (0-based) of `original`
/// in `path` by `content`.
#[derive(Debug)]
pub struct SaveFilePart {
    pub path: String,
    pub occurrence_index: usize,
    pub content: String,
    pub original: String,
    pub note: String,
}

/// Why the tool failed.
#[derive(Copy, Clone, Debug, PartialEq, Eq, Structural)]
pub enum SaveFilePartErrorType {
    DecodeError,
    Forbidden,
    NotFound,
    ReadFailed,
    WriteFailed,
    OriginalMismatch,
}

/// A failure with its detail.
#[derive(Clone, Debug)]
pub struct SaveFilePartError {
    pub err_type: SaveFilePartErrorType,
    pub err_info: String,
}

/// The replacement that was written: the whole new file content.
#[derive(Debug, Clone)]
pub struct SaveFilePartResult {
    pub occurrence_index: usize,
    pub content: String,
    pub original: String,
    pub note: String,
}

/// `r` is an error of kind `t` with detail `info`.
pub open spec fn part_err_is<T>(r: Result<T, SaveFilePartError>, t: SaveFilePartErrorType, info: Seq<char>) -> bool {
    r matches Err(e) && e.err_type == t && e.err_info@ == info
}

/// The start positions of the non-overlapping occurrences of `pat` in `s`
/// from position `start` on, scanning from the left.
pub open spec fn occurrences(s: Seq<char>, pat: Seq<char>, start: int) -> Seq<int>
    decreases s.len() + 1 - start,
{
    if pat.len() == 0 || start < 0 {
        Seq::empty()
    } else {
        match find_from(s, pat, start) {
            None => Seq::empty(),
            Some(p) => {
                if start <= p && p + pat.len() <= s.len() {
                    seq![p] + occurrences(s, pat, p + pat.len())
                } else {
                    Seq::empty()
                }
            },
        }
    }
}

/// The detail of an error: the path, `: ` and the message.
pub open spec fn detail(path: Seq<char>, info: Seq<char>) -> Seq<char> {
    path + ": "@ + info
}

/// The message when the block does not occur in the file.
pub open spec fn not_found_msg(original: Seq<char>) -> Seq<char> {
    "Original mismatch: The provided 'original' block was not found anywhere in the file.\n- Your requested block:\n\"\"\"\n"@
        + original + "\n\"\"\""@
}

/// The message when the requested occurrence does not exist.
pub open spec fn out_of_bounds_msg(index: nat, found: nat) -> Seq<char> {
    "Original mismatch: Index out of bounds.\n- You requested index: "@ + decimal(index)
        + " (0-based)\n- Total identical matches found in file: "@ + decimal(found)
        + "\n- Reduce the index or make your 'original' block larger/more unique."@
}

/// The outcome of replacing occurrence `index` of `original` by `content` in
/// `file` (line ends normalized to `\n` in all three): the new file text, or
/// the mismatch message.
pub open spec fn replace_outcome(file: Seq<char>, original: Seq<char>, content: Seq<char>, index: nat)
    -> Result<Seq<char>, Seq<char>> {
    let f = crlf_to_lf(file);
    let o = crlf_to_lf(original);
    let c = crlf_to_lf(content);
    let occ = occurrences(f, o, 0);
    if occ.len() == 0 {
        Err(not_found_msg(o))
    } else if index >= occ.len() {
        Err(out_of_bounds_msg(index, occ.len()))
    } else {
        let p = occ[index as int];
        Ok(f.take(p) + c + f.skip(p + o.len()))
    }
}

proof fn lemma_occurrences(s: Seq<char>, pat: Seq<char>, start: int)
    requires
        pat.len() > 0,
        0 <= start,
    ensures
        forall|k: int| 0 <= k < occurrences(s, pat, start).len() ==> {
            &&& start <= #[trigger] occurrences(s, pat, start)[k]
            &&& matches_at(s, pat, occurrences(s, pat, start)[k])
        },
    decreases s.len() + 1 - start,
{
    lemma_find_from(s, pat, start);
    match find_from(s, pat, start) {
        None => {},
        Some(p) => {
            lemma_occurrences(s, pat, p + pat.len());
            let occ = occurrences(s, pat, start);
            let rest = occurrences(s, pat, p + pat.len());
            assert forall|k: int| 0 <= k < occ.len() implies start <= #[trigger] occ[k] && matches_at(
                s,
                pat,
                occ[k],
            ) by {
                if k > 0 {
                    assert(occ[k] == rest[k - 1]);
                }
            }
        },
    }
}

/// All occurrence positions of `pat` in `s` (as the scan in the tool does).
fn find_occurrences(s: &[char], pat: &[char]) -> (r: Vec<usize>)
    requires
        pat@.len() > 0,
    ensures
        r@.map_values(|p: usize| p as int) == occurrences(s@, pat@, 0),
{
    let n = s.len();
    let m = pat.len();
    let mut r: Vec<usize> = Vec::new();
    let mut pos: usize = 0;
    loop
        invariant
            n == s@.len(),
            m == pat@.len(),
            m > 0,
            pos <= n,
            occurrences(s@, pat@, 0) == r@.map_values(|p: usize| p as int) + occurrences(s@, pat@, pos as int),
        ensures
            occurrences(s@, pat@, 0) == r@.map_values(|p: usize| p as int),
        decreases n + 1 - pos,
    {
        let ghost pre = r@;
        match find_chars(s, pat, pos) {
            None => {
                assert(occurrences(s@, pat@, pos as int) =~= Seq::<int>::empty());
                assert(r@.map_values(|p: usize| p as int) + Seq::<int>::empty() =~= r@.map_values(|p: usize| p as int));
                break;
            },
            Some(p) => {
                proof {
                    lemma_find_from(s@, pat@, pos as int);
                }
                r.push(p);
                assert(r@.map_values(|q: usize| q as int) =~= pre.map_values(|q: usize| q as int).push(p as int));
                assert(seq![p as int] + occurrences(s@, pat@, p + m) == occurrences(s@, pat@, pos as int));
                assert(pre.map_values(|q: usize| q as int).push(p as int) + occurrences(s@, pat@, p + m)
                    =~= pre.map_values(|q: usize| q as int) + (seq![p as int] + occurrences(s@, pat@, p + m)));
                pos = p + m;
            },
        }
    }
    r
}

/// `t` is what replacing the occurrence of `part` in the text that `read`
/// gave for its path yields.
pub open spec fn replaced_from<R: FnOnce(&str) -> Option<String>>(read: R, part: SaveFilePart, t: Seq<char>) -> bool {
    exists|q: &str, f: String|
        q@ == part.path@ && call_ensures(read, (q,), Some(f)) && replace_outcome(
            f@,
            part.original@,
            part.content@,
            part.occurrence_index as nat,
        ) == Ok::<Seq<char>, Seq<char>>(t)
}

impl SaveFilePart {
    /// The new file text, or the mismatch message, for the file text `file`.
    pub fn replace_in(&self, file: &str) -> (r: Result<String, String>)
        requires
            self.original@.len() > 0,
        ensures
            match r {
                Ok(t) => replace_outcome(file@, self.original@, self.content@, self.occurrence_index as nat) == Ok::<Seq<char>, Seq<char>>(t@),
                Err(m) => replace_outcome(file@, self.original@, self.content@, self.occurrence_index as nat) == Err::<Seq<char>, Seq<char>>(m@),
            },
    {
        let fc = to_chars(file);
        let f = crlf_to_lf_exec(fc.as_slice());
        let oc = to_chars(self.original.as_str());
        let o = crlf_to_lf_exec(oc.as_slice());
        let cc = to_chars(self.content.as_str());
        let c = crlf_to_lf_exec(cc.as_slice());
        proof {
            lemma_crlf_nonempty(oc@);
        }
        let occ = find_occurrences(f.as_slice(), o.as_slice());
        proof {
            lemma_occurrences(f@, o@, 0);
        }
        let ghost occ_s = occurrences(f@, o@, 0);
        assert(occ@.len() == occ_s.len());
        if occ.len() == 0 {
            let mut m = to_chars("Original mismatch: The provided 'original' block was not found anywhere in the file.\n- Your requested block:\n\"\"\"\n");
            append_chars(&mut m, o.as_slice());
            append_str(&mut m, "\n\"\"\"");
            return Err(from_chars(m.as_slice()));
        }
        if self.occurrence_index >= occ.len() {
            let mut m = to_chars("Original mismatch: Index out of bounds.\n- You requested index: ");
            let d1 = decimal_chars(self.occurrence_index as u64);
            append_chars(&mut m, d1.as_slice());
            append_str(&mut m, " (0-based)\n- Total identical matches found in file: ");
            let d2 = decimal_chars(occ.len() as u64);
            append_chars(&mut m, d2.as_slice());
            append_str(&mut m, "\n- Reduce the index or make your 'original' block larger/more unique.");
            return Err(from_chars(m.as_slice()));
        }
        let p = occ[self.occurrence_index];
        assert(occ_s[self.occurrence_index as int] == p as int);
        assert(matches_at(f@, o@, p as int));
        assert(p + o@.len() <= f@.len());
        let mut u = slice_range(f.as_slice(), 0, p);
        append_chars(&mut u, c.as_slice());
        let flen = f.len();
        let olen = o.len();
        let tail = slice_range(f.as_slice(), p + olen, flen);
        append_chars(&mut u, tail.as_slice());
        assert(f@.take(p as int) =~= f@.subrange(0, p as int));
        assert(f@.skip(p + o@.len()) =~= f@.subrange(p + o@.len(), f@.len() as int));
        Ok(from_chars(u.as_slice()))
    }

    /// Replaces the occurrence in the file: refused when the path is not
    /// allowed, an error when it does not exist, when `read` fails, when the
    /// occurrence is missing or when `write` fails. `read` gets the path and
    /// may be called only when the path is allowed and exists; `write` gets
    /// the path and the new text, and may be called only with the text that
    /// replacing the occurrence in what `read` gave yields.
    pub fn execute<R: FnOnce(&str) -> Option<String>, W: FnOnce(&str, &str) -> bool>(
        self,
        allowed: bool,
        exists: bool,
        read: R,
        write: W,
    ) -> (r: Result<SaveFilePartResult, SaveFilePartError>)
        requires
            forall|q: &str| allowed && exists && q@ == self.path@ ==> call_requires(read, (q,)),
            forall|p: &str, t: &str|
                allowed && exists && p@ == self.path@ && replaced_from(read, self, t@) ==> call_requires(write, (p, t)),
            self.original@.len() > 0,
        ensures
            !allowed ==> part_err_is(r, SaveFilePartErrorType::Forbidden, detail(self.path@, Seq::empty())),
            allowed && !exists ==> part_err_is(r, SaveFilePartErrorType::NotFound, detail(self.path@, Seq::empty())),
            allowed && exists ==> exists|q: &str, out: Option<String>| q@ == self.path@ && call_ensures(read, (q,), out) && match out {
                None => part_err_is(r, SaveFilePartErrorType::ReadFailed, detail(self.path@, Seq::empty())),
                Some(file) => match replace_outcome(file@, self.original@, self.content@, self.occurrence_index as nat) {
                    Err(msg) => part_err_is(r, SaveFilePartErrorType::OriginalMismatch, detail(self.path@, msg)),
                    Ok(updated) => exists|p: &str, t: &str, ok: bool| p@ == self.path@ && t@ == updated && call_ensures(write, (p, t), ok) && if ok {
                        r matches Ok(x) && x.content@ == updated && x.occurrence_index == self.occurrence_index
                            && x.original == self.original && x.note == self.note
                    } else {
                        part_err_is(r, SaveFilePartErrorType::WriteFailed, detail(self.path@, Seq::empty()))
                    },
                },
            },
    {
        proof {
            reveal_strlit("");
        }
        if !allowed {
            return Err(SaveFilePartError::new(SaveFilePartErrorType::Forbidden, self.path.as_str(), ""));
        }
        if !exists {
            return Err(SaveFilePartError::new(SaveFilePartErrorType::NotFound, self.path.as_str(), ""));
        }
        let out = read(self.path.as_str());
        let file = match out {
            Some(f) => f,
            None => return Err(SaveFilePartError::new(SaveFilePartErrorType::ReadFailed, self.path.as_str(), "")),
        };
        match self.replace_in(file.as_str()) {
            Err(msg) => Err(SaveFilePartError::new(SaveFilePartErrorType::OriginalMismatch, self.path.as_str(), msg.as_str())),
            Ok(updated) => {
                proof {
                    assert(replaced_from(read, self, updated@));
                }
                let ok = write(self.path.as_str(), updated.as_str());
                if ok {
                    Ok(SaveFilePartResult {
                        occurrence_index: self.occurrence_index,
                        content: updated,
                        original: self.original,
                        note: self.note,
                    })
                } else {
                    Err(SaveFilePartError::new(SaveFilePartErrorType::WriteFailed, self.path.as_str(), ""))
                }
            },
        }
    }
}


/// The member that holds the occurrence (`index`, else `occurrence`).
pub open spec fn index_field(payload: JsonValue) -> Option<JsonValue> {
    match json_get(payload, "index"@) {
        Some(v) => Some(v),
        None => json_get(payload, "occurrence"@),
    }
}

/// A member read with `as_u64`.
pub open spec fn u64_of(v: Option<JsonValue>) -> Option<u64> {
    match v {
        Some(x) => json_as_u64(x),
        None => None,
    }
}

/// Decoding the members after the path: the occurrence, `original`,
/// `content` and `note`, or the message for the first that is missing.
pub open spec fn decode_rest(payload: JsonValue) -> Result<(u64, Seq<char>, Seq<char>, Seq<char>), Seq<char>> {
    match u64_of(index_field(payload)) {
        None => Err("invalid occurrence index: "@ + field_text(index_field(payload))),
        Some(idx) => match str_of(json_get(payload, "original"@)) {
            None => Err("invalid original: "@ + field_text(json_get(payload, "original"@))),
            Some(original) => match str_of(json_get(payload, "content"@)) {
                None => Err("invalid content: "@ + field_text(json_get(payload, "content"@))),
                Some(content) => match str_of(json_get(payload, "note"@)) {
                    None => Err("invalid note: "@ + field_text(json_get(payload, "note"@))),
                    Some(note) => Ok((idx, original, content, note)),
                },
            },
        },
    }
}

fn part_decode_err(prefix: &str, v: Option<&JsonValue>) -> (r: SaveFilePartError)
    ensures
        r.err_type == SaveFilePartErrorType::DecodeError,
        r.err_info@ == prefix@ + field_text(match v {
            Some(x) => Some(*x),
            None => None,
        }),
{
    let mut t = to_chars(prefix);
    match v {
        Some(x) => append_str(&mut t, x.to_json_text().as_str()),
        None => append_str(&mut t, "null"),
    }
    SaveFilePartError { err_type: SaveFilePartErrorType::DecodeError, err_info: from_chars(t.as_slice()) }
}

fn str_member<'b>(payload: &'b JsonValue, name: &str, prefix: &str) -> (r: Result<&'b str, SaveFilePartError>)
    ensures
        match r {
            Ok(s) => str_of(json_get(*payload, name@)) == Some(s@),
            Err(e) => str_of(json_get(*payload, name@)) is None && e.err_type == SaveFilePartErrorType::DecodeError
                && e.err_info@ == prefix@ + field_text(json_get(*payload, name@)),
        },
{
    match payload.get(name) {
        Some(v) => match v.as_str() {
            Some(s) => Ok(s),
            None => Err(part_decode_err(prefix, Some(v))),
        },
        None => Err(part_decode_err(prefix, None)),
    }
}

/// What decoding `payload` with `resolve` gives: `r` is an outcome that
/// `from_json` may return.
pub open spec fn save_file_part_decoded<F: FnOnce(&str) -> Option<String>>(payload: JsonValue, resolve: F, r: Result<SaveFilePart, SaveFilePartError>) -> bool {
    match str_of(json_get(payload, "file"@)) {
        None => part_err_is(r, SaveFilePartErrorType::DecodeError, "invalid file: "@ + field_text(json_get(payload, "file"@))),
        Some(file) => exists|file_str: &str, res: Option<String>|
            file_str@ == file && call_ensures(resolve, (file_str,), res) && match res {
                None => part_err_is(r, SaveFilePartErrorType::DecodeError, "invalid file path: "@ + file),
                Some(p) => match decode_rest(payload) {
                    Err(info) => part_err_is(r, SaveFilePartErrorType::DecodeError, info),
                    Ok((idx, original, content, note)) => r matches Ok(sfp) && sfp.path == p
                        && sfp.occurrence_index == idx as usize && sfp.original@ == original
                        && sfp.content@ == content && sfp.note@ == note,
                },
            },
    }
}

impl SaveFilePart {
    /// Decodes a request: `file` (resolved with `resolve`), the occurrence
    /// (`index` or `occurrence`), `original`, `content` and `note`. The first
    /// missing or mistyped member, or a file that does not resolve, gives a
    /// decode error that names it.
    pub fn from_json<F: FnOnce(&str) -> Option<String>>(payload: &JsonValue, resolve: F) -> (r:
        Result<SaveFilePart, SaveFilePartError>)
        requires
            forall|s: &str| call_requires(resolve, (s,)),
        ensures
            save_file_part_decoded(*payload, resolve, r),
    {
        let file = match str_member(payload, "file", "invalid file: ") {
            Ok(f) => f,
            Err(e) => return Err(e),
        };
        let res = resolve(file);
        let path = match res {
            None => {
                let mut t = to_chars("invalid file path: ");
                append_str(&mut t, file);
                return Err(SaveFilePartError {
                    err_type: SaveFilePartErrorType::DecodeError,
                    err_info: from_chars(t.as_slice()),
                });
            },
            Some(p) => p,
        };
        let ixf = match payload.get("index") {
            Some(v) => Some(v),
            None => payload.get("occurrence"),
        };
        let occurrence_index = match ixf {
            Some(v) => match v.as_u64() {
                Some(i) => i as usize,
                None => return Err(part_decode_err("invalid occurrence index: ", ixf)),
            },
            None => return Err(part_decode_err("invalid occurrence index: ", ixf)),
        };
        let original = match str_member(payload, "original", "invalid original: ") {
            Ok(v) => v,
            Err(e) => return Err(e),
        };
        let content = match str_member(payload, "content", "invalid content: ") {
            Ok(v) => v,
            Err(e) => return Err(e),
        };
        let note = match str_member(payload, "note", "invalid note: ") {
            Ok(v) => v,
            Err(e) => return Err(e),
        };
        Ok(SaveFilePart {
            path,
            occurrence_index,
            original: original.to_string(),
            content: content.to_string(),
            note: note.to_string(),
        })
    }
}

proof fn lemma_crlf_nonempty(s: Seq<char>)
    requires
        s.len() > 0,
    ensures
        crlf_to_lf(s).len() > 0,
{
}

/// The `Debug` name of an error kind.
pub open spec fn part_err_name(t: SaveFilePartErrorType) -> Seq<char> {
    match t {
        SaveFilePartErrorType::DecodeError => "DecodeError"@,
        SaveFilePartErrorType::Forbidden => "Forbidden"@,
        SaveFilePartErrorType::NotFound => "NotFound"@,
        SaveFilePartErrorType::ReadFailed => "ReadFailed"@,
        SaveFilePartErrorType::WriteFailed => "WriteFailed"@,
        SaveFilePartErrorType::OriginalMismatch => "OriginalMismatch"@,
    }
}

impl SaveFilePartError {
    /// An error whose detail is `<path>: <info>`.
    pub fn new(err_type: SaveFilePartErrorType, path: &str, info: &str) -> (r: Self)
        ensures
            r.err_type == err_type,
            r.err_info@ == detail(path@, info@),
    {
        let mut t = to_chars(path);
        append_str(&mut t, ": ");
        append_str(&mut t, info);
        Self { err_type, err_info: from_chars(t.as_slice()) }
    }

    /// `<kind>: <detail>` (its `Display` output).
    pub fn to_string(&self) -> (r: String)
        ensures
            r@ == part_err_name(self.err_type) + ": "@ + self.err_info@,
    {
        let mut t = to_chars(match self.err_type {
            SaveFilePartErrorType::DecodeError => "DecodeError",
            SaveFilePartErrorType::Forbidden => "Forbidden",
            SaveFilePartErrorType::NotFound => "NotFound",
            SaveFilePartErrorType::ReadFailed => "ReadFailed",
            SaveFilePartErrorType::WriteFailed => "WriteFailed",
            SaveFilePartErrorType::OriginalMismatch => "OriginalMismatch",
        });
        append_str(&mut t, ": ");
        append_str(&mut t, self.err_info.as_str());
        from_chars(t.as_slice())
    }
}

impl SaveFilePartResult {
    /// `call_<n>: <new file text>`.
    pub fn to_string(&self, message_id: AIMessageId) -> (r: String)
        ensures
            r@ == id_line(message_id, self.content@),
    {
        id_line_string(message_id, self.content.as_str())
    }
}

impl ResultToString for Result<SaveFilePartResult, SaveFilePartError> {
    fn to_msg_string(&self, msg_id: AIMessageId) -> (r: String)
        ensures
            r@ == match self {
                Ok(ok) => id_line(msg_id, ok.content@),
                Err(e) => part_err_name(e.err_type) + ": "@ + e.err_info@,
            },
    {
        match self {
            Ok(ok) => ok.to_string(msg_id),
            Err(err) => err.to_string(),
        }
    }
}

impl Validatable for Result<SaveFilePartResult, SaveFilePartError> {
    fn is_valid(&self) -> (b: bool)
        ensures
            b == self is Ok,
    {
        self.is_ok()
    }
}

} // verus!

verus! {

/// The text of the reply to a failed call of kind `t` with detail `info`.
pub open spec fn replace_error_message(t: SaveFilePartErrorType, info: Seq<char>) -> Seq<char> {
    match t {
        SaveFilePartErrorType::DecodeError => "[save_file] ERROR: decode error: "@ + info,
        SaveFilePartErrorType::Forbidden => "[save_file] ERROR: not allowed to read: "@ + info,
        SaveFilePartErrorType::NotFound => "[save_file] ERROR: file not found: "@ + info,
        SaveFilePartErrorType::ReadFailed => "[save_file] ERROR: read (before write) failed: "@ + info,
        SaveFilePartErrorType::WriteFailed => "[save_file] ERROR: write failed: "@ + info,
        SaveFilePartErrorType::OriginalMismatch => "[save_file] ERROR: original mismatch: "@ + info,
    }
}

/// The text of the reply that returns `r` to the call `id`.
pub open spec fn replace_reply(r: Result<SaveFilePartResult, SaveFilePartError>, id: AIMessageId) -> Seq<char> {
    match r {
        Ok(ok) => tool_reply_text(id_string_text(id), ok.content@),
        Err(e) => tool_reply_text(id_string_text(id), replace_error_message(e.err_type, e.err_info@)),
    }
}

impl SaveFilePartResult {
    /// The reply that returns the output to the call `message_id`.
    pub fn to_json(&self, message_id: AIMessageId) -> (r: JsonValue)
        ensures
            json_text(r) == tool_reply_text(id_string_text(message_id), self.content@),
    {
        tool_reply(id_string(message_id), self.content.clone())
    }
}

impl SaveFilePartError {
    /// The reply that reports the failure to the call `message_id`.
    pub fn to_json(&self, message_id: AIMessageId) -> (r: JsonValue)
        ensures
            json_text(r) == tool_reply_text(id_string_text(message_id), replace_error_message(self.err_type, self.err_info@)),
    {
        let prefix: &str = match self.err_type {
            SaveFilePartErrorType::DecodeError => "[save_file] ERROR: decode error: ",
            SaveFilePartErrorType::Forbidden => "[save_file] ERROR: not allowed to read: ",
            SaveFilePartErrorType::NotFound => "[save_file] ERROR: file not found: ",
            SaveFilePartErrorType::ReadFailed => "[save_file] ERROR: read (before write) failed: ",
            SaveFilePartErrorType::WriteFailed => "[save_file] ERROR: write failed: ",
            SaveFilePartErrorType::OriginalMismatch => "[save_file] ERROR: original mismatch: ",
        };
        let mut msg = to_chars(prefix);
        append_str(&mut msg, self.err_info.as_str());
        tool_reply(id_string(message_id), from_chars(msg.as_slice()))
    }
}

impl ResultToJson for Result<SaveFilePartResult, SaveFilePartError> {
    fn to_json(&self, msg_id: AIMessageId) -> (r: JsonValue)
        ensures
            json_text(r) == replace_reply(*self, msg_id),
    {
        match self {
            Ok(ok) => ok.to_json(msg_id),
            Err(err) => err.to_json(msg_id),
        }
    }
}

} // verus!

verus! {

/// Replacing an occurrence of a block by the block itself gives back the
/// file (with its line ends normalized).
pub proof fn law_replace_with_itself(file: Seq<char>, original: Seq<char>, index: nat)
    requires
        crlf_to_lf(original).len() > 0,
    ensures
        replace_outcome(file, original, original, index) matches Ok(t) ==> t == crlf_to_lf(file),
{
    let f = crlf_to_lf(file);
    let o = crlf_to_lf(original);
    let occ = occurrences(f, o, 0);
    if occ.len() > 0 && index < occ.len() {
        lemma_occurrences(f, o, 0);
        let p = occ[index as int];
        assert(matches_at(f, o, p));
        assert(f.subrange(p, p + o.len()) == o);
        assert(f.take(p) + o + f.skip(p + o.len()) =~= f);
    }
}

/// A successful replacement holds the new block where the chosen occurrence
/// of the old one stood, and keeps the text before and after it.
pub proof fn law_replace_places_content(file: Seq<char>, original: Seq<char>, content: Seq<char>, index: nat)
    requires
        crlf_to_lf(original).len() > 0,
    ensures
        replace_outcome(file, original, content, index) matches Ok(t) ==> exists|p: int|
            {
                &&& 0 <= p
                &&& p + crlf_to_lf(original).len() <= crlf_to_lf(file).len()
                &&& matches_at(crlf_to_lf(file), crlf_to_lf(original), p)
                &&& t == crlf_to_lf(file).take(p) + crlf_to_lf(content) + crlf_to_lf(file).skip(
                    p + crlf_to_lf(original).len(),
                )
            },
{
    let f = crlf_to_lf(file);
    let o = crlf_to_lf(original);
    let occ = occurrences(f, o, 0);
    if occ.len() > 0 && index < occ.len() {
        lemma_occurrences(f, o, 0);
        let p = occ[index as int];
        assert(matches_at(f, o, p));
    }
}

} // verus!
