//! Extraction of fenced code blocks from model output.

use vstd::prelude::*;
use vstd::string::*;
use crate::json_text::{json_quote, json_string, lemma_nl_count_add, lemma_quote_no_nl, nl_count};
use crate::text::{
    append_chars, chars_eq, find_chars, find_from, from_chars, is_white_exec, lead_ws,
    lemma_find_from, matches_at, slice_range, to_chars, trail_ws, trim, trim_chars,
};

verus! {

/// A fenced code block: the language tag after the opening fence (if any,
/// trimmed) and the text between the end of the opening line and the closing fence.
#[derive(Debug)]
pub struct FencedCodeBlock<'a> {
    pub lang: Option<&'a str>,
    pub content: &'a str,
}

impl<'a> View for FencedCodeBlock<'a> {
    type V = (Option<Seq<char>>, Seq<char>);

    open spec fn view(&self) -> (Option<Seq<char>>, Seq<char>) {
        (
            match self.lang {
                Some(l) => Some(l@),
                None => None,
            },
            self.content@,
        )
    }
}

/// The fence marker.
pub open spec fn fence() -> Seq<char> {
    seq!['`', '`', '`']
}

/// The block whose opening fence starts at `st`, whose opening line ends at
/// `le` and whose closing fence starts at `e`.
pub open spec fn block_at(s: Seq<char>, st: int, le: int, e: int) -> (Option<Seq<char>>, Seq<char>) {
    let lang = trim(s.subrange(st + 3, le));
    (if lang.len() == 0 { None } else { Some(lang) }, s.subrange(le + 1, e))
}

/// The fenced blocks of `s` found by scanning from position `i`: an opening
/// fence, the end of its line, and the next fence after that line's start; the
/// scan resumes after the closing fence and stops at the first missing part.
pub open spec fn fenced_from(s: Seq<char>, i: int) -> Seq<(Option<Seq<char>>, Seq<char>)>
    decreases s.len() + 1 - i,
{
    if i < 0 || i > s.len() {
        Seq::empty()
    } else {
        match find_from(s, fence(), i) {
            None => Seq::empty(),
            Some(st) => match find_from(s, seq!['\n'], st + 3) {
                None => Seq::empty(),
                Some(le) => match find_from(s, fence(), le) {
                    None => Seq::empty(),
                    Some(e) => {
                        if i < e + 3 && le < e && e + 3 <= s.len() {
                            seq![block_at(s, st, le, e)] + fenced_from(s, e + 3)
                        } else {
                            Seq::empty()
                        }
                    },
                },
            },
        }
    }
}

/// All fenced blocks of `s`, in order.
pub open spec fn fenced_blocks(s: Seq<char>) -> Seq<(Option<Seq<char>>, Seq<char>)> {
    fenced_from(s, 0)
}

fn fence_exec() -> (v: Vec<char>)
    ensures
        v@ == fence(),
{
    let v = vec!['`', '`', '`'];
    assert(v@ =~= fence());
    v
}

/// Returns the fenced code blocks of `input` in order of appearance.
pub fn iter_fenced_blocks<'a>(input: &'a str) -> (blocks: Vec<FencedCodeBlock<'a>>)
    ensures
        blocks@.map_values(|b: FencedCodeBlock<'a>| b@) == fenced_blocks(input@),
{
    let s = to_chars(input);
    let n = s.len();
    let fv = fence_exec();
    let nl = vec!['\n'];
    let mut blocks: Vec<FencedCodeBlock<'a>> = Vec::new();
    let mut i: usize = 0;
    loop
        invariant
            s@ == input@,
            n == s@.len(),
            fv@ == fence(),
            nl@ == seq!['\n'],
            i <= n,
            fenced_blocks(input@) == blocks@.map_values(|b: FencedCodeBlock<'a>| b@)
                + fenced_from(input@, i as int),
        ensures
            fenced_blocks(input@) == blocks@.map_values(|b: FencedCodeBlock<'a>| b@),
        decreases n + 1 - i,
    {
        let ghost pre = blocks@;
        let st = match find_chars(s.as_slice(), fv.as_slice(), i) {
            Some(v) => v,
            None => {
                assert(fenced_from(input@, i as int) =~= Seq::empty());
                break;
            },
        };
        proof {
            lemma_find_from(s@, fence(), i as int);
        }
        let le = match find_chars(s.as_slice(), nl.as_slice(), st + 3) {
            Some(v) => v,
            None => {
                assert(fenced_from(input@, i as int) =~= Seq::empty());
                break;
            },
        };
        proof {
            lemma_find_from(s@, seq!['\n'], st + 3);
        }
        let e = match find_chars(s.as_slice(), fv.as_slice(), le) {
            Some(v) => v,
            None => {
                assert(fenced_from(input@, i as int) =~= Seq::empty());
                break;
            },
        };
        proof {
            lemma_find_from(s@, fence(), le as int);
            if e == le {
                assert(s@.subrange(le as int, le + 3)[0] == s@[le as int]);
                assert(s@[le as int] == '\n') by {
                    assert(s@.subrange(le as int, le + 1)[0] == s@[le as int]);
                }
            }
        }
        let lang_raw = input.substring_char(st + 3, le);
        let lr = to_chars(lang_raw);
        let a = lead_count(lr.as_slice());
        let b = trail_count_after(lr.as_slice(), a);
        let lang = if a + b == lr.len() {
            None
        } else {
            Some(input.substring_char(st + 3 + a, le - b))
        };
        proof {
            let raw = s@.subrange(st + 3, le as int);
            let t = raw.skip(a as int);
            assert(t.take(t.len() - b) =~= s@.subrange(st + 3 + a, le - b));
        }
        let content = input.substring_char(le + 1, e);
        blocks.push(FencedCodeBlock { lang, content });
        assert(blocks@.map_values(|b: FencedCodeBlock<'a>| b@) =~= pre.map_values(
            |b: FencedCodeBlock<'a>| b@,
        ).push(block_at(input@, st as int, le as int, e as int)));
        i = e + 3;
    }
    blocks
}

/// Number of leading white-space characters, as `lead_ws`.
fn lead_count(s: &[char]) -> (k: usize)
    ensures
        k == lead_ws(s@),
        k <= s@.len(),
{
    let n = s.len();
    let mut i: usize = 0;
    assert(s@.skip(0) == s@);
    while i < n && is_white_exec(s[i])
        invariant
            n == s@.len(),
            i <= n,
            lead_ws(s@) == i + lead_ws(s@.skip(i as int)),
        decreases n - i,
    {
        assert(s@.skip(i as int).skip(1) == s@.skip(i + 1));
        i = i + 1;
    }
    proof {
        if i < n {
        } else {
            assert(s@.skip(n as int).len() == 0);
        }
    }
    i
}

/// Number of trailing white-space characters of `s[a..]`, as `trail_ws`.
fn trail_count_after(s: &[char], a: usize) -> (k: usize)
    requires
        a <= s@.len(),
    ensures
        k == trail_ws(s@.skip(a as int)),
        a + k <= s@.len(),
{
    let n = s.len();
    let mut j: usize = n;
    let ghost t = s@.skip(a as int);
    assert(t.take(t.len() as int) == t);
    while j > a && is_white_exec(s[j - 1])
        invariant
            n == s@.len(),
            a <= j <= n,
            t == s@.skip(a as int),
            trail_ws(t) == (n - j) + trail_ws(t.take(j - a)),
        decreases j,
    {
        assert(t.take(j - a).drop_last() == t.take(j - 1 - a));
        assert(t.take(j - a).last() == s@[j - 1]);
        j = j - 1;
    }
    (n - j) as usize
}

/// The text a tool call is taken from: the first block tagged `json`, else
/// the first fenced block, else the whole input; trimmed in each case.
pub open spec fn stripped(s: Seq<char>) -> Seq<char> {
    let blocks = fenced_blocks(s);
    if exists|k: int| first_json(blocks, k) {
        let k = choose|k: int| first_json(blocks, k);
        trim(blocks[k].1)
    } else if blocks.len() > 0 {
        trim(blocks[0].1)
    } else {
        trim(s)
    }
}

/// `blocks[k]` is the first block tagged `json`.
pub open spec fn first_json(blocks: Seq<(Option<Seq<char>>, Seq<char>)>, k: int) -> bool {
    &&& 0 <= k < blocks.len()
    &&& blocks[k].0 == Some(json_tag())
    &&& forall|j: int| 0 <= j < k ==> blocks[j].0 != Some(json_tag())
}

/// The language tag `json`.
pub open spec fn json_tag() -> Seq<char> {
    seq!['j', 's', 'o', 'n']
}

/// Removes the code fences around a model answer, preferring a `json` block.
pub fn strip_code_fences(input: &str) -> (r: String)
    ensures
        r@ == stripped(input@),
{
    let blocks = iter_fenced_blocks(input);
    let ghost bs = fenced_blocks(input@);
    assert(blocks@.len() == bs.len());
    let tag = vec!['j', 's', 'o', 'n'];
    assert(tag@ =~= json_tag());
    let nb = blocks.len();
    let mut k: usize = 0;
    while k < nb
        invariant
            nb == blocks@.len(),
            bs == blocks@.map_values(|b: FencedCodeBlock| b@),
            bs == fenced_blocks(input@),
            tag@ == json_tag(),
            k <= nb,
            forall|j: int| 0 <= j < k ==> bs[j].0 != Some(json_tag()),
        decreases nb - k,
    {
        let is_json = match blocks[k].lang {
            Some(l) => {
                let lc = to_chars(l);
                chars_eq(lc.as_slice(), tag.as_slice())
            },
            None => false,
        };
        assert(bs[k as int] == blocks@[k as int]@);
        if is_json {
            let c = to_chars(blocks[k].content);
            let t = trim_chars(c.as_slice());
            proof {
                assert(first_json(bs, k as int));
                assert(exists|kk: int| first_json(bs, kk));
                let kk = choose|kk: int| first_json(bs, kk);
                assert(kk == k) by {
                    if kk < k {
                    } else if kk > k {
                        assert(bs[k as int].0 == Some(json_tag()));
                    }
                }
            }
            return from_chars(t.as_slice());
        }
        k = k + 1;
    }
    assert(!exists|kk: int| first_json(bs, kk));
    if nb > 0 {
        assert(bs[0] == blocks@[0]@);
        let c = to_chars(blocks[0].content);
        let t = trim_chars(c.as_slice());
        from_chars(t.as_slice())
    } else {
        let c = to_chars(input);
        let t = trim_chars(c.as_slice());
        from_chars(t.as_slice())
    }
}

} // verus!

verus! {

/// The marker that opens a raw text region.
pub open spec fn raw_begin() -> Seq<char> {
    seq!['R', 'A', 'W', '_', 'T', 'E', 'X', 'T', '_', 'B', 'E', 'G', 'I', 'N', '>', '>', '\n']
}

/// The word that closes a raw text region.
pub open spec fn raw_end() -> Seq<char> {
    seq!['R', 'A', 'W', '_', 'T', 'E', 'X', 'T', '_', 'E', 'N', 'D']
}

/// Characters allowed just before the closing word.
pub open spec fn is_end_prefix(c: char) -> bool {
    c == '<' || c == '/' || c == ' '
}

/// Characters skipped just after the closing word.
pub open spec fn is_end_suffix(c: char) -> bool {
    c == '>' || c == '\n' || c == '\r' || c == ' '
}

/// Moves `p` back over `<`, `/` and ` ` while it stays above `lo`.
pub open spec fn back_skip(s: Seq<char>, lo: int, p: int) -> int
    decreases p - lo,
{
    if p > lo && 0 < p <= s.len() && is_end_prefix(s[p - 1]) {
        back_skip(s, lo, p - 1)
    } else {
        p
    }
}

/// Moves `p` forward over `>`, line ends and ` `.
pub open spec fn fwd_skip(s: Seq<char>, p: int) -> int
    decreases s.len() - p,
{
    if 0 <= p < s.len() && is_end_suffix(s[p]) {
        fwd_skip(s, p + 1)
    } else {
        p
    }
}

/// One rewriting step: the first raw region (from the opening marker to the
/// closing word and what surrounds it) becomes a JSON string literal,
/// followed by `,` unless the rest already starts with `,` or `}`.
pub open spec fn raw_step(cur: Seq<char>) -> Option<Seq<char>> {
    match find_from(cur, raw_begin(), 0) {
        None => None,
        Some(sp) => {
            let cs = sp + 17;
            match find_from(cur, raw_end(), cs) {
                None => None,
                Some(ce) => {
                    let ae = back_skip(cur, cs, ce);
                    let conv = json_quote(cur.subrange(cs, ae));
                    let tp = fwd_skip(cur, ce + 12);
                    let tail = cur.skip(tp);
                    let sep = if tail.len() > 0 && (tail[0] == ',' || tail[0] == '}') {
                        Seq::<char>::empty()
                    } else {
                        seq![',']
                    };
                    Some(cur.take(sp) + conv + sep + tail)
                },
            }
        },
    }
}

/// Repeats `raw_step` until no complete raw region is left. Every step
/// removes at least the line feed of the opening marker and adds none (see
/// `lemma_raw_step_decreases`), so the guard below always holds.
pub open spec fn raw_fence(cur: Seq<char>) -> Seq<char>
    decreases nl_count(cur),
{
    match raw_step(cur) {
        None => cur,
        Some(next) => {
            if nl_count(next) < nl_count(cur) {
                raw_fence(next)
            } else {
                cur
            }
        },
    }
}

proof fn lemma_back_skip(s: Seq<char>, lo: int, p: int)
    requires
        0 <= lo <= p <= s.len(),
    ensures
        lo <= back_skip(s, lo, p) <= p,
    decreases p - lo,
{
    if p > lo && 0 < p <= s.len() && is_end_prefix(s[p - 1]) {
        lemma_back_skip(s, lo, p - 1);
    }
}

proof fn lemma_fwd_skip(s: Seq<char>, p: int)
    requires
        0 <= p <= s.len(),
    ensures
        p <= fwd_skip(s, p) <= s.len(),
    decreases s.len() - p,
{
    if 0 <= p < s.len() && is_end_suffix(s[p]) {
        lemma_fwd_skip(s, p + 1);
    }
}

proof fn lemma_nl_at(s: Seq<char>, k: int)
    requires
        0 <= k < s.len(),
        s[k] == '\n',
    ensures
        nl_count(s) >= 1,
{
    assert(s =~= s.take(k + 1) + s.skip(k + 1));
    lemma_nl_count_add(s.take(k + 1), s.skip(k + 1));
    assert(s.take(k + 1).drop_last() =~= s.take(k));
}

/// A rewriting step strictly lowers the number of line feeds.
pub proof fn lemma_raw_step_decreases(cur: Seq<char>)
    ensures
        raw_step(cur) matches Some(next) ==> nl_count(next) < nl_count(cur),
{
    lemma_find_from(cur, raw_begin(), 0);
    if let Some(sp) = find_from(cur, raw_begin(), 0) {
        let cs = sp + 17;
        lemma_find_from(cur, raw_end(), cs);
        if let Some(ce) = find_from(cur, raw_end(), cs) {
            let ae = back_skip(cur, cs, ce);
            lemma_back_skip(cur, cs, ce);
            let conv = json_quote(cur.subrange(cs, ae));
            lemma_fwd_skip(cur, ce + 12);
            let tp = fwd_skip(cur, ce + 12);
            let tail = cur.skip(tp);
            let sep = if tail.len() > 0 && (tail[0] == ',' || tail[0] == '}') {
                Seq::<char>::empty()
            } else {
                seq![',']
            };
            let a = cur.take(sp);
            let mid = cur.subrange(sp, tp);
            assert(cur =~= a + mid + tail);
            lemma_nl_count_add(a + mid, tail);
            lemma_nl_count_add(a, mid);
            assert(mid[16] == '\n') by {
                assert(cur.subrange(sp, sp + 17)[16] == raw_begin()[16]);
            }
            lemma_nl_at(mid, 16);
            lemma_quote_no_nl(cur.subrange(cs, ae));
            lemma_nl_count_add(a + conv + sep, tail);
            lemma_nl_count_add(a + conv, sep);
            lemma_nl_count_add(a, conv);
            assert(nl_count(sep) == 0) by {
                assert(nl_count(Seq::<char>::empty()) == 0);
                if sep.len() > 0 {
                    assert(sep.drop_last() =~= Seq::<char>::empty());
                }
            }
        }
    }
}

/// After the rewriting no complete raw region is left, so rewriting again
/// changes nothing; a text without an opening marker is left as it is.
pub proof fn law_raw_fence_complete(s: Seq<char>)
    ensures
        raw_step(raw_fence(s)) is None,
        raw_fence(raw_fence(s)) == raw_fence(s),
        find_from(s, raw_begin(), 0) is None ==> raw_fence(s) == s,
    decreases nl_count(s),
{
    lemma_raw_step_decreases(s);
    match raw_step(s) {
        None => {},
        Some(next) => {
            law_raw_fence_complete(next);
        },
    }
}

/// The first occurrence of `pat` from `start` on is at `k` when `pat`
/// occurs at `k` and nowhere in between.
proof fn lemma_find_first(s: Seq<char>, pat: Seq<char>, start: int, k: int)
    requires
        0 <= start <= k,
        matches_at(s, pat, k),
        forall|q: int| start <= q < k ==> !matches_at(s, pat, q),
    ensures
        find_from(s, pat, start) == Some(k),
{
    lemma_find_from(s, pat, start);
    if let Some(p) = find_from(s, pat, start) {
        if p < k {
            assert(!matches_at(s, pat, p));
        } else if p > k {
            assert(!matches_at(s, pat, k));
        }
    } else {
        assert(!matches_at(s, pat, k));
    }
}

/// Where `pat` fits in the part `m` of `p + m + q`, it occurs there exactly
/// when it occurs in `m`.
proof fn lemma_matches_in_middle(p: Seq<char>, m: Seq<char>, q: Seq<char>, pat: Seq<char>, j: int)
    requires
        0 <= j,
        j + pat.len() <= m.len(),
    ensures
        matches_at(p + m + q, pat, p.len() + j) == matches_at(m, pat, j),
{
    assert((p + m + q).subrange(p.len() + j, p.len() + j + pat.len()) =~= m.subrange(j, j + pat.len()));
}

/// Moving back from `p` passes exactly the `k` characters before it when
/// they are all `<`, `/` or spaces and the one before them is not (or `lo`
/// is reached).
proof fn lemma_back_skip_over(x: Seq<char>, lo: int, p: int, k: int)
    requires
        0 <= lo <= p - k,
        0 <= k,
        p <= x.len(),
        forall|q: int| p - k <= q < p ==> is_end_prefix(x[q]),
        p - k == lo || !is_end_prefix(x[p - k - 1]),
    ensures
        back_skip(x, lo, p) == p - k,
    decreases k,
{
    if k > 0 {
        assert(is_end_prefix(x[p - 1]));
        lemma_back_skip_over(x, lo, p - 1, k - 1);
    }
}

/// Moving forward from `p` passes exactly the `k` characters after it when
/// they are all `>`, line ends or spaces and the one after them is not (or
/// the end is reached).
proof fn lemma_fwd_skip_over(x: Seq<char>, p: int, k: int)
    requires
        0 <= p,
        0 <= k,
        p + k <= x.len(),
        forall|q: int| p <= q < p + k ==> is_end_suffix(x[q]),
        p + k == x.len() || !is_end_suffix(x[p + k]),
    ensures
        fwd_skip(x, p) == p + k,
    decreases k,
{
    if k > 0 {
        lemma_fwd_skip_over(x, p + 1, k - 1);
    }
}

/// A raw region becomes a JSON string: in a text made of `a`, the opening
/// marker `RAW_TEXT_BEGIN>>` and a line feed, the raw text `raw`, some `<`,
/// `/` and spaces `pre`, the closing word `RAW_TEXT_END`, some `>`, line
/// ends and spaces `suf` and the rest `tail` (where `a` holds no opening
/// marker, `raw` and `pre` no closing word, `raw` does not end in `<`, `/`
/// or a space, and `tail` does not start with `>`, a line end or a space),
/// the first rewriting step replaces the region by `raw` as a JSON string
/// literal, dropping `pre` and `suf`. A `,` is put after it only when
/// `tail` starts with neither `,` nor `}`, so a member or element that
/// follows keeps exactly one separator; the whole rewriting then goes on
/// from that text.
#[verifier::spinoff_prover]
#[verifier::rlimit(50)]
pub proof fn law_raw_region_becomes_json_string(
    a: Seq<char>,
    raw: Seq<char>,
    pre: Seq<char>,
    suf: Seq<char>,
    tail: Seq<char>,
)
    requires
        forall|i: int| 0 <= i < a.len() ==> !matches_at(a + "RAW_TEXT_BEGIN>>\n"@, "RAW_TEXT_BEGIN>>\n"@, i),
        forall|i: int|
            0 <= i < raw.len() + pre.len() ==> !matches_at(raw + pre + "RAW_TEXT_END"@, "RAW_TEXT_END"@, i),
        raw.len() == 0 || (raw.last() != '<' && raw.last() != '/' && raw.last() != ' '),
        forall|i: int| 0 <= i < pre.len() ==> pre[i] == '<' || pre[i] == '/' || pre[i] == ' ',
        forall|i: int| 0 <= i < suf.len() ==> suf[i] == '>' || suf[i] == '\n' || suf[i] == '\r' || suf[i] == ' ',
        tail.len() == 0 || (tail[0] != '>' && tail[0] != '\n' && tail[0] != '\r' && tail[0] != ' '),
    ensures
        tail.len() > 0 && (tail[0] == ',' || tail[0] == '}') ==> raw_step(
            a + "RAW_TEXT_BEGIN>>\n"@ + raw + pre + "RAW_TEXT_END"@ + suf + tail,
        ) == Some(a + json_quote(raw) + tail),
        !(tail.len() > 0 && (tail[0] == ',' || tail[0] == '}')) ==> raw_step(
            a + "RAW_TEXT_BEGIN>>\n"@ + raw + pre + "RAW_TEXT_END"@ + suf + tail,
        ) == Some(a + json_quote(raw) + seq![','] + tail),
        raw_step(a + "RAW_TEXT_BEGIN>>\n"@ + raw + pre + "RAW_TEXT_END"@ + suf + tail) matches Some(next)
            && raw_fence(a + "RAW_TEXT_BEGIN>>\n"@ + raw + pre + "RAW_TEXT_END"@ + suf + tail) == raw_fence(next),
{
    reveal_strlit("RAW_TEXT_BEGIN>>\n");
    reveal_strlit("RAW_TEXT_END");
    let bm = "RAW_TEXT_BEGIN>>\n"@;
    let em = "RAW_TEXT_END"@;
    assert(bm =~= raw_begin());
    assert(em =~= raw_end());
    let x = a + bm + raw + pre + em + suf + tail;
    lemma_first_match_after(a, bm, raw + pre + em + suf + tail);
    assert(x =~= a + bm + (raw + pre + em + suf + tail));
    lemma_match_after_middle(a + bm, raw + pre, em, suf + tail);
    assert(x =~= (a + bm) + (raw + pre) + em + (suf + tail));
    lemma_raw_skips(a + bm, raw, pre, em, suf, tail);
    assert(x =~= (a + bm) + raw + pre + em + suf + tail);
    lemma_raw_step_decreases(x);
}

/// `pat` is found first right after `a` in `a + pat + r` when `a + pat`
/// holds no earlier occurrence.
proof fn lemma_first_match_after(a: Seq<char>, pat: Seq<char>, r: Seq<char>)
    requires
        forall|i: int| 0 <= i < a.len() ==> !matches_at(a + pat, pat, i),
    ensures
        find_from(a + pat + r, pat, 0) == Some(a.len() as int),
{
    let x = a + pat + r;
    assert forall|i: int| 0 <= i < a.len() implies !matches_at(x, pat, i) by {
        assert(!matches_at(a + pat, pat, i));
        assert(x.subrange(i, i + pat.len()) =~= (a + pat).subrange(i, i + pat.len()));
    }
    assert(x.subrange(a.len() as int, a.len() as int + pat.len() as int) =~= pat);
    lemma_find_first(x, pat, 0, a.len() as int);
}

/// From the end of `p`, `pat` is found first right after `m` in
/// `p + m + pat + r` when `m + pat` holds no earlier occurrence.
proof fn lemma_match_after_middle(p: Seq<char>, m: Seq<char>, pat: Seq<char>, r: Seq<char>)
    requires
        forall|i: int| 0 <= i < m.len() ==> !matches_at(m + pat, pat, i),
    ensures
        find_from(p + m + pat + r, pat, p.len() as int) == Some(p.len() as int + m.len() as int),
{
    let mp = m + pat;
    let x = p + mp + r;
    assert(p + m + pat + r =~= x);
    let cs: int = p.len() as int;
    assert forall|q: int| cs <= q < cs + m.len() implies !matches_at(x, pat, q) by {
        if q - cs + pat.len() <= mp.len() {
            lemma_matches_in_middle(p, mp, r, pat, q - cs);
        }
    }
    lemma_matches_in_middle(p, mp, r, pat, m.len() as int);
    assert(mp.subrange(m.len() as int, m.len() as int + pat.len() as int) =~= pat);
    lemma_find_first(x, pat, cs, cs + m.len());
}

/// Around the closing word `em` of `x = p + raw + pre + em + suf + tail`,
/// going back from it passes `pre` (down to the end of `p`) and going
/// forward from its end passes `suf`.
proof fn lemma_raw_skips(p: Seq<char>, raw: Seq<char>, pre: Seq<char>, em: Seq<char>, suf: Seq<char>, tail: Seq<char>)
    requires
        em.len() == 12,
        raw.len() == 0 || (raw.last() != '<' && raw.last() != '/' && raw.last() != ' '),
        forall|i: int| 0 <= i < pre.len() ==> pre[i] == '<' || pre[i] == '/' || pre[i] == ' ',
        forall|i: int| 0 <= i < suf.len() ==> suf[i] == '>' || suf[i] == '\n' || suf[i] == '\r' || suf[i] == ' ',
        tail.len() == 0 || (tail[0] != '>' && tail[0] != '\n' && tail[0] != '\r' && tail[0] != ' '),
    ensures
        ({
            let x = p + raw + pre + em + suf + tail;
            let cs = p.len() as int;
            &&& back_skip(x, cs, cs + raw.len() + pre.len()) == cs + raw.len()
            &&& fwd_skip(x, cs + raw.len() + pre.len() + 12) == cs + raw.len() + pre.len() + 12 + suf.len()
            &&& x.subrange(cs, cs + raw.len()) == raw
            &&& x.take(cs) == p
            &&& x.skip(cs + raw.len() + pre.len() + 12 + suf.len()) == tail
        }),
{
    let x = p + raw + pre + em + suf + tail;
    let cs: int = p.len() as int;
    let ae: int = cs + raw.len();
    let ce: int = ae + pre.len();
    let te: int = ce + 12 + suf.len();
    assert forall|q: int| ae <= q < ce implies is_end_prefix(x[q]) by {
        assert(x[q] == pre[q - ae]);
    }
    if raw.len() > 0 {
        assert(x[ae - 1] == raw.last());
    }
    lemma_back_skip_over(x, cs, ce, pre.len() as int);
    assert forall|q: int| ce + 12 <= q < te implies is_end_suffix(x[q]) by {
        assert(x[q] == suf[q - ce - 12]);
    }
    if tail.len() > 0 {
        assert(x[te] == tail[0]);
    }
    lemma_fwd_skip_over(x, ce + 12, suf.len() as int);
    assert(x.subrange(cs, ae) =~= raw);
    assert(x.take(cs) =~= p);
    assert(x.skip(te) =~= tail);
}

fn raw_begin_exec() -> (v: Vec<char>)
    ensures
        v@ == raw_begin(),
{
    let v = vec!['R', 'A', 'W', '_', 'T', 'E', 'X', 'T', '_', 'B', 'E', 'G', 'I', 'N', '>', '>', '\n'];
    assert(v@ =~= raw_begin());
    v
}

fn raw_end_exec() -> (v: Vec<char>)
    ensures
        v@ == raw_end(),
{
    let v = vec!['R', 'A', 'W', '_', 'T', 'E', 'X', 'T', '_', 'E', 'N', 'D'];
    assert(v@ =~= raw_end());
    v
}

/// Performs one rewriting step, or returns `None` when no complete raw region is left.
fn raw_step_exec(cur: &[char], begin: &[char], end: &[char]) -> (r: Option<Vec<char>>)
    requires
        begin@ == raw_begin(),
        end@ == raw_end(),
    ensures
        match r {
            Some(v) => raw_step(cur@) == Some(v@),
            None => raw_step(cur@) is None,
        },
{
    let n = cur.len();
    let sp = match find_chars(cur, begin, 0) {
        Some(v) => v,
        None => return None,
    };
    proof {
        lemma_find_from(cur@, raw_begin(), 0);
    }
    let cs = sp + 17;
    let ce = match find_chars(cur, end, cs) {
        Some(v) => v,
        None => return None,
    };
    proof {
        lemma_find_from(cur@, raw_end(), cs as int);
    }
    let mut ae = ce;
    while ae > cs && (cur[ae - 1] == '<' || cur[ae - 1] == '/' || cur[ae - 1] == ' ')
        invariant
            n == cur@.len(),
            cs <= ae <= ce,
            ce + 12 <= n,
            back_skip(cur@, cs as int, ce as int) == back_skip(cur@, cs as int, ae as int),
        decreases ae,
    {
        ae = ae - 1;
    }
    let raw = from_chars(slice_range(cur, cs, ae).as_slice());
    let conv_s = json_string(raw.as_str());
    let conv = to_chars(conv_s.as_str());
    let mut tp = ce + 12;
    while tp < n && (cur[tp] == '>' || cur[tp] == '\n' || cur[tp] == '\r' || cur[tp] == ' ')
        invariant
            n == cur@.len(),
            ce + 12 <= tp <= n,
            fwd_skip(cur@, ce + 12) == fwd_skip(cur@, tp as int),
        decreases n - tp,
    {
        tp = tp + 1;
    }
    let mut next = slice_range(cur, 0, sp);
    append_chars(&mut next, conv.as_slice());
    let sep_needed = !(tp < n && (cur[tp] == ',' || cur[tp] == '}'));
    if sep_needed {
        next.push(',');
    }
    let tail = slice_range(cur, tp, n);
    append_chars(&mut next, tail.as_slice());
    proof {
        let tl = cur@.skip(tp as int);
        assert(tl =~= cur@.subrange(tp as int, n as int));
        if tl.len() > 0 {
            assert(tl[0] == cur@[tp as int]);
        }
        assert(cur@.take(sp as int) =~= cur@.subrange(0, sp as int));
        let sep = if tl.len() > 0 && (tl[0] == ',' || tl[0] == '}') {
            Seq::<char>::empty()
        } else {
            seq![',']
        };
        assert(next@ =~= cur@.take(sp as int) + conv@ + sep + tl);
    }
    Some(next)
}

/// Turns raw text regions (`RAW_TEXT_BEGIN>>` newline ... `RAW_TEXT_END`) into
/// JSON string literals, so that a model may write file contents unescaped.
pub fn raw_fence_to_string(encoded: &str) -> (r: String)
    ensures
        r@ == raw_fence(encoded@),
{
    let begin = raw_begin_exec();
    let end = raw_end_exec();
    let mut cur = to_chars(encoded);
    loop
        invariant
            begin@ == raw_begin(),
            end@ == raw_end(),
            raw_fence(cur@) == raw_fence(encoded@),
        ensures
            cur@ == raw_fence(encoded@),
        decreases nl_count(cur@),
    {
        proof {
            lemma_raw_step_decreases(cur@);
        }
        match raw_step_exec(cur.as_slice(), begin.as_slice(), end.as_slice()) {
            None => {
                break;
            },
            Some(next) => {
                cur = next;
            },
        }
    }
    from_chars(cur.as_slice())
}

} // verus!
