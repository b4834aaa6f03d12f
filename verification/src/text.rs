//! Character-level text utilities with specifications over `Seq<char>`.

use vstd::prelude::*;

verus! {

/// Copies the characters of `s` into a vector.
pub fn to_chars(s: &str) -> (v: Vec<char>)
    ensures
        v@ == s@,
{
    let mut v: Vec<char> = Vec::new();
    for c in it: s.chars()
        invariant
            v@ == it.seq().take(it.index() as int),
            it.seq() == s@,
    {
        v.push(c);
    }
    v
}

/// Appends one character to a string (`String::push`).
#[verifier::external_body]
pub(crate) fn push_char(s: &mut String, c: char)
    ensures
        final(s)@ == old(s)@.push(c),
{
    s.push(c);
}

/// Builds a string from a slice of characters.
pub fn from_chars(v: &[char]) -> (s: String)
    ensures
        s@ == v@,
{
    let mut s = String::new();
    let n = v.len();
    for i in 0..n
        invariant
            n == v@.len(),
            s@ == v@.take(i as int),
    {
        push_char(&mut s, v[i]);
        assert(v@.take(i + 1) == v@.take(i as int).push(v@[i as int]));
    }
    assert(v@.take(n as int) == v@);
    s
}

} // verus!

verus! {

/// `pat` occurs in `s` starting at position `i`.
pub open spec fn matches_at(s: Seq<char>, pat: Seq<char>, i: int) -> bool {
    0 <= i && i + pat.len() <= s.len() && s.subrange(i, i + pat.len()) == pat
}

/// The first position `>= start` at which `pat` occurs in `s` (as `str::find`
/// on the suffix starting at `start`, counted in characters).
pub open spec fn find_from(s: Seq<char>, pat: Seq<char>, start: int) -> Option<int>
    decreases s.len() + 1 - start,
{
    if start < 0 || start + pat.len() > s.len() {
        None
    } else if matches_at(s, pat, start) {
        Some(start)
    } else {
        find_from(s, pat, start + 1)
    }
}

/// `find_from` returns the first occurrence at or after `start`, or `None` when there is none.
pub proof fn lemma_find_from(s: Seq<char>, pat: Seq<char>, start: int)
    requires
        0 <= start,
    ensures
        find_from(s, pat, start) matches Some(p) ==> {
            &&& start <= p
            &&& matches_at(s, pat, p)
            &&& forall|q: int| start <= q < p ==> !matches_at(s, pat, q)
        },
        find_from(s, pat, start) is None ==> forall|q: int| start <= q ==> !matches_at(s, pat, q),
    decreases s.len() + 1 - start,
{
    if start + pat.len() > s.len() {
    } else if matches_at(s, pat, start) {
    } else {
        lemma_find_from(s, pat, start + 1);
    }
}

/// Whether `pat` occurs in `s` at position `i`.
pub fn matches_at_exec(s: &[char], pat: &[char], i: usize) -> (b: bool)
    ensures
        b == matches_at(s@, pat@, i as int),
{
    let n = s.len();
    let m = pat.len();
    if m > n || i > n - m {
        return false;
    }
    let mut k: usize = 0;
    while k < m
        invariant
            m == pat@.len(),
            n == s@.len(),
            i + m <= n,
            k <= m,
            forall|j: int| 0 <= j < k ==> s@[i + j] == pat@[j],
        decreases m - k,
    {
        if s[i + k] != pat[k] {
            assert(s@.subrange(i as int, i + m)[k as int] != pat@[k as int]);
            return false;
        }
        k = k + 1;
    }
    assert(s@.subrange(i as int, i + m) =~= pat@);
    true
}

/// The first position `>= start` at which `pat` occurs in `s`.
pub fn find_chars(s: &[char], pat: &[char], start: usize) -> (r: Option<usize>)
    ensures
        match r {
            Some(p) => find_from(s@, pat@, start as int) == Some(p as int),
            None => find_from(s@, pat@, start as int) is None,
        },
{
    let n = s.len();
    let m = pat.len();
    if m > n {
        return None;
    }
    let mut i = start;
    while i <= n - m
        invariant
            n == s@.len(),
            m == pat@.len(),
            m <= n,
            start <= i,
            find_from(s@, pat@, start as int) == find_from(s@, pat@, i as int),
        decreases n - i,
    {
        if matches_at_exec(s, pat, i) {
            return Some(i);
        }
        if i == n - m {
            assert(find_from(s@, pat@, i + 1) is None);
            return None;
        }
        i = i + 1;
    }
    None
}

/// Whether `pat` occurs anywhere in `s`.
pub open spec fn contains_seq(s: Seq<char>, pat: Seq<char>) -> bool {
    exists|i: int| matches_at(s, pat, i)
}

/// Whether `pat` occurs anywhere in `s` (as `str::contains`).
pub fn contains_chars(s: &[char], pat: &[char]) -> (b: bool)
    ensures
        b == contains_seq(s@, pat@),
{
    let r = find_chars(s, pat, 0);
    proof {
        lemma_find_from(s@, pat@, 0);
    }
    match r {
        Some(p) => {
            assert(matches_at(s@, pat@, p as int));
            true
        },
        None => {
            assert forall|i: int| !matches_at(s@, pat@, i) by {
                if i >= 0 {
                }
            }
            false
        },
    }
}

/// Whether `s` starts with `pat`.
pub open spec fn starts_with(s: Seq<char>, pat: Seq<char>) -> bool {
    pat.len() <= s.len() && s.take(pat.len() as int) == pat
}

/// Whether `s` starts with `pat` (as `str::starts_with`).
pub fn starts_with_chars(s: &[char], pat: &[char]) -> (b: bool)
    ensures
        b == starts_with(s@, pat@),
{
    let b = matches_at_exec(s, pat, 0);
    proof {
        if pat@.len() <= s@.len() {
            assert(s@.subrange(0, pat@.len() as int) == s@.take(pat@.len() as int));
        }
    }
    b
}

/// `s` with every `"\r\n"` replaced by `"\n"`, scanning from the left (as
/// `str::replace("\r\n", "\n")`).
pub open spec fn crlf_to_lf(s: Seq<char>) -> Seq<char>
    decreases s.len(),
{
    if s.len() == 0 {
        s
    } else if s.len() >= 2 && s[0] == '\r' && s[1] == '\n' {
        seq!['\n'] + crlf_to_lf(s.skip(2))
    } else {
        seq![s[0]] + crlf_to_lf(s.skip(1))
    }
}

/// Replaces every `"\r\n"` by `"\n"`.
pub fn crlf_to_lf_exec(s: &[char]) -> (r: Vec<char>)
    ensures
        r@ == crlf_to_lf(s@),
{
    let n = s.len();
    let mut r: Vec<char> = Vec::new();
    let mut i: usize = 0;
    assert(s@.skip(0) == s@);
    while i < n
        invariant
            n == s@.len(),
            i <= n,
            crlf_to_lf(s@) == r@ + crlf_to_lf(s@.skip(i as int)),
        decreases n - i,
    {
        let ghost rest = s@.skip(i as int);
        if i + 1 < n && s[i] == '\r' && s[i + 1] == '\n' {
            r.push('\n');
            assert(rest.skip(2) == s@.skip(i + 2));
            i = i + 2;
        } else {
            r.push(s[i]);
            assert(rest.skip(1) == s@.skip(i + 1));
            i = i + 1;
        }
    }
    assert(s@.skip(n as int) =~= Seq::<char>::empty());
    r
}

/// The characters that `char::is_whitespace` accepts (Unicode `White_Space`).
pub open spec fn is_white(c: char) -> bool {
    ||| c == '\t' || c == '\n' || c == '\u{0B}' || c == '\u{0C}' || c == '\r' || c == ' '
    ||| c == '\u{85}' || c == '\u{A0}' || c == '\u{1680}'
    ||| ('\u{2000}' <= c && c <= '\u{200A}')
    ||| c == '\u{2028}' || c == '\u{2029}' || c == '\u{202F}' || c == '\u{205F}' || c == '\u{3000}'
}

/// Whether `c` is Unicode white space.
pub fn is_white_exec(c: char) -> (b: bool)
    ensures
        b == is_white(c),
{
    c == '\t' || c == '\n' || c == '\u{0B}' || c == '\u{0C}' || c == '\r' || c == ' '
        || c == '\u{85}' || c == '\u{A0}' || c == '\u{1680}' || ('\u{2000}' <= c && c
        <= '\u{200A}') || c == '\u{2028}' || c == '\u{2029}' || c == '\u{202F}' || c
        == '\u{205F}' || c == '\u{3000}'
}

/// Number of leading white-space characters of `s`.
pub open spec fn lead_ws(s: Seq<char>) -> int
    decreases s.len(),
{
    if s.len() > 0 && is_white(s[0]) {
        1 + lead_ws(s.skip(1))
    } else {
        0
    }
}

/// Number of trailing white-space characters of `s`.
pub open spec fn trail_ws(s: Seq<char>) -> int
    decreases s.len(),
{
    if s.len() > 0 && is_white(s.last()) {
        1 + trail_ws(s.drop_last())
    } else {
        0
    }
}

/// `s` without leading and trailing white space (as `str::trim`).
pub open spec fn trim(s: Seq<char>) -> Seq<char> {
    let t = s.skip(lead_ws(s));
    t.take(t.len() - trail_ws(t))
}

/// `s` without trailing white space (as `str::trim_end`).
pub open spec fn trim_end(s: Seq<char>) -> Seq<char> {
    s.take(s.len() - trail_ws(s))
}

proof fn lemma_lead_ws_bound(s: Seq<char>)
    ensures
        0 <= lead_ws(s) <= s.len(),
    decreases s.len(),
{
    if s.len() > 0 && is_white(s[0]) {
        lemma_lead_ws_bound(s.skip(1));
    }
}

proof fn lemma_trail_ws_bound(s: Seq<char>)
    ensures
        0 <= trail_ws(s) <= s.len(),
    decreases s.len(),
{
    if s.len() > 0 && is_white(s.last()) {
        lemma_trail_ws_bound(s.drop_last());
    }
}

/// Counts leading white space.
fn lead_ws_exec(s: &[char]) -> (k: usize)
    ensures
        k == lead_ws(s@),
{
    let n = s.len();
    let mut i: usize = 0;
    assert(s@.skip(0) == s@);
    while i < n && is_white_exec(s[i])
        invariant
            n == s@.len(),
            i <= n,
            lead_ws(s@) == i + lead_ws(s@.skip(i as int)),
        decreases n - i,
    {
        assert(s@.skip(i as int).skip(1) == s@.skip(i + 1));
        i = i + 1;
    }
    i
}

/// Counts trailing white space.
fn trail_ws_exec(s: &[char]) -> (k: usize)
    ensures
        k == trail_ws(s@),
{
    let n = s.len();
    let mut j: usize = n;
    assert(s@.take(n as int) == s@);
    while j > 0 && is_white_exec(s[j - 1])
        invariant
            n == s@.len(),
            j <= n,
            trail_ws(s@) == (n - j) + trail_ws(s@.take(j as int)),
        decreases j,
    {
        assert(s@.take(j as int).drop_last() == s@.take(j - 1));
        j = j - 1;
    }
    (n - j) as usize
}

/// Removes leading and trailing white space.
pub fn trim_chars(s: &[char]) -> (r: Vec<char>)
    ensures
        r@ == trim(s@),
{
    let a = lead_ws_exec(s);
    proof {
        lemma_lead_ws_bound(s@);
    }
    let t = slice_range(s, a, s.len());
    assert(t@ == s@.skip(a as int));
    let b = trail_ws_exec(t.as_slice());
    proof {
        lemma_trail_ws_bound(t@);
    }
    slice_range(t.as_slice(), 0, t.len() - b)
}

/// Removes trailing white space.
pub fn trim_end_chars(s: &[char]) -> (r: Vec<char>)
    ensures
        r@ == trim_end(s@),
{
    let b = trail_ws_exec(s);
    proof {
        lemma_trail_ws_bound(s@);
    }
    slice_range(s, 0, s.len() - b)
}

/// Copies `s[from..to]`.
pub fn slice_range(s: &[char], from: usize, to: usize) -> (r: Vec<char>)
    requires
        from <= to <= s@.len(),
    ensures
        r@ == s@.subrange(from as int, to as int),
{
    let mut r: Vec<char> = Vec::new();
    let mut i = from;
    while i < to
        invariant
            from <= i <= to,
            to <= s@.len(),
            r@ == s@.subrange(from as int, i as int),
        decreases to - i,
    {
        r.push(s[i]);
        assert(s@.subrange(from as int, i + 1) == s@.subrange(from as int, i as int).push(s@[i as int]));
        i = i + 1;
    }
    r
}

/// Appends all of `t` to `r`.
pub fn append_chars(r: &mut Vec<char>, t: &[char])
    ensures
        final(r)@ == old(r)@ + t@,
{
    let n = t.len();
    let ghost r0 = r@;
    for i in 0..n
        invariant
            n == t@.len(),
            r@ == r0 + t@.take(i as int),
    {
        r.push(t[i]);
        assert(t@.take(i + 1) == t@.take(i as int).push(t@[i as int]));
    }
    assert(t@.take(n as int) == t@);
}

/// Appends the characters of a string slice to `r`.
pub fn append_str(r: &mut Vec<char>, t: &str)
    ensures
        final(r)@ == old(r)@ + t@,
{
    let v = to_chars(t);
    append_chars(r, v.as_slice());
}

/// The decimal representation of `n`.
pub open spec fn decimal(n: nat) -> Seq<char>
    decreases n,
{
    if n < 10 {
        seq![digit_char(n)]
    } else {
        decimal(n / 10) + seq![digit_char(n % 10)]
    }
}

/// The ASCII digit for `d < 10`.
pub open spec fn digit_char(d: nat) -> char {
    if d == 0 { '0' }
    else if d == 1 { '1' }
    else if d == 2 { '2' }
    else if d == 3 { '3' }
    else if d == 4 { '4' }
    else if d == 5 { '5' }
    else if d == 6 { '6' }
    else if d == 7 { '7' }
    else if d == 8 { '8' }
    else { '9' }
}

fn digit_char_exec(d: u64) -> (c: char)
    requires
        d < 10,
    ensures
        c == digit_char(d as nat),
{
    if d == 0 { '0' }
    else if d == 1 { '1' }
    else if d == 2 { '2' }
    else if d == 3 { '3' }
    else if d == 4 { '4' }
    else if d == 5 { '5' }
    else if d == 6 { '6' }
    else if d == 7 { '7' }
    else if d == 8 { '8' }
    else { '9' }
}

/// The decimal digits of `n`.
pub fn decimal_chars(n: u64) -> (r: Vec<char>)
    ensures
        r@ == decimal(n as nat),
    decreases n,
{
    if n < 10 {
        let mut r = Vec::new();
        r.push(digit_char_exec(n));
        r
    } else {
        let mut r = decimal_chars(n / 10);
        r.push(digit_char_exec(n % 10));
        r
    }
}

/// `-` followed by the digits of `n` when `n` is negative.
pub open spec fn signed_decimal(n: int) -> Seq<char> {
    if n < 0 {
        seq!['-'] + decimal((-n) as nat)
    } else {
        decimal(n as nat)
    }
}

/// The decimal representation of a signed number (as `i64::to_string`).
pub fn signed_decimal_chars(n: i64) -> (r: Vec<char>)
    ensures
        r@ == signed_decimal(n as int),
{
    if n < 0 {
        let m: u64 = if n == i64::MIN {
            9223372036854775808u64
        } else {
            (-n) as u64
        };
        let mut r = Vec::new();
        r.push('-');
        let d = decimal_chars(m);
        append_chars(&mut r, d.as_slice());
        r
    } else {
        decimal_chars(n as u64)
    }
}

} // verus!

verus! {

/// `s` without one trailing `c`, if it ends with `c`.
pub open spec fn strip_last(s: Seq<char>, c: char) -> Seq<char> {
    if s.len() > 0 && s.last() == c {
        s.drop_last()
    } else {
        s
    }
}

/// The lines of `s` as `str::lines` yields them: split after each `'\n'`, drop
/// the `'\n'` and then one `'\r'` before it; a final line ending adds no empty line.
pub open spec fn lines(s: Seq<char>) -> Seq<Seq<char>>
    decreases s.len(),
{
    if s.len() == 0 {
        Seq::empty()
    } else {
        match find_from(s, seq!['\n'], 0) {
            None => seq![s],
            Some(k) => {
                if 0 <= k < s.len() {
                    seq![strip_last(s.take(k), '\r')] + lines(s.skip(k + 1))
                } else {
                    seq![s]
                }
            },
        }
    }
}

/// Splits `s` into lines (as `str::lines`).
pub fn lines_chars(s: &[char]) -> (r: Vec<Vec<char>>)
    ensures
        r@.map_values(|l: Vec<char>| l@) == lines(s@),
{
    let n = s.len();
    let mut r: Vec<Vec<char>> = Vec::new();
    let mut i: usize = 0;
    let nl = vec!['\n'];
    assert(s@.skip(0) == s@);
    while i < n
        invariant
            n == s@.len(),
            i <= n,
            nl@ == seq!['\n'],
            lines(s@) == r@.map_values(|l: Vec<char>| l@) + lines(s@.skip(i as int)),
        decreases n - i,
    {
        let ghost rest = s@.skip(i as int);
        let f = find_chars(s, nl.as_slice(), i);
        proof {
            lemma_find_from(s@, seq!['\n'], i as int);
            lemma_find_shift(s@, seq!['\n'], i as int);
        }
        match f {
            None => {
                let line = slice_range(s, i, n);
                r.push(line);
                assert(s@.subrange(i as int, n as int) == rest);
                assert(lines(s@.skip(n as int)) =~= Seq::<Seq<char>>::empty());
                assert(r@.map_values(|l: Vec<char>| l@) =~= old_map_push(r@.drop_last(), rest));
                i = n;
            },
            Some(k) => {
                let mut line = slice_range(s, i, k);
                if k > i && line[k - i - 1] == '\r' {
                    line.pop();
                }
                assert(line@ == strip_last(rest.take(k - i), '\r'));
                r.push(line);
                assert(rest.skip(k - i + 1) == s@.skip(k + 1));
                i = k + 1;
            },
        }
        assert(r@.map_values(|l: Vec<char>| l@) =~= old_map_push(
            r@.drop_last(),
            r@.last()@,
        ));
    }
    assert(s@.skip(n as int) =~= Seq::<char>::empty());
    r
}

spec fn old_map_push(v: Seq<Vec<char>>, l: Seq<char>) -> Seq<Seq<char>> {
    v.map_values(|x: Vec<char>| x@).push(l)
}

/// Searching a suffix of `s` gives the positions of searching `s`, shifted.
pub proof fn lemma_find_shift(s: Seq<char>, pat: Seq<char>, i: int)
    requires
        0 <= i <= s.len(),
    ensures
        find_from(s.skip(i), pat, 0) == match find_from(s, pat, i) {
            Some(p) => Some(p - i),
            None => None::<int>,
        },
{
    lemma_find_shift_from(s, pat, i, i);
}

proof fn lemma_find_shift_from(s: Seq<char>, pat: Seq<char>, i: int, j: int)
    requires
        0 <= i <= j,
        i <= s.len(),
    ensures
        find_from(s.skip(i), pat, j - i) == match find_from(s, pat, j) {
            Some(p) => Some(p - i),
            None => None::<int>,
        },
    decreases s.len() + 1 - j,
{
    let t = s.skip(i);
    if j + pat.len() > s.len() {
    } else {
        assert(matches_at(t, pat, j - i) == matches_at(s, pat, j)) by {
            assert(t.subrange(j - i, j - i + pat.len()) =~= s.subrange(j, j + pat.len()));
        }
        if !matches_at(s, pat, j) {
            lemma_find_shift_from(s, pat, i, j + 1);
        }
    }
}

/// `parts` joined with `sep` between consecutive parts (as `[String]::join`).
pub open spec fn join(parts: Seq<Seq<char>>, sep: Seq<char>) -> Seq<char>
    decreases parts.len(),
{
    if parts.len() == 0 {
        Seq::empty()
    } else if parts.len() == 1 {
        parts[0]
    } else {
        join(parts.drop_last(), sep) + sep + parts.last()
    }
}

} // verus!

verus! {

/// Whether two character sequences are equal.
pub fn chars_eq(a: &[char], b: &[char]) -> (r: bool)
    ensures
        r == (a@ == b@),
{
    if a.len() != b.len() {
        return false;
    }
    let r = matches_at_exec(a, b, 0);
    proof {
        if r {
            assert(a@.subrange(0, b@.len() as int) =~= a@);
        } else {
            if a@ == b@ {
                assert(a@.subrange(0, b@.len() as int) =~= a@);
            }
        }
    }
    r
}

} // verus!

verus! {

/// Joins `parts` with `sep` (as `[String]::join`).
pub fn join_chars(parts: &Vec<Vec<char>>, sep: &[char]) -> (r: Vec<char>)
    ensures
        r@ == join(parts@.map_values(|p: Vec<char>| p@), sep@),
{
    let ghost ps = parts@.map_values(|p: Vec<char>| p@);
    let n = parts.len();
    let mut r: Vec<char> = Vec::new();
    let mut j: usize = 0;
    while j < n
        invariant
            n == parts@.len(),
            ps == parts@.map_values(|p: Vec<char>| p@),
            j <= n,
            r@ == join(ps.take(j as int), sep@),
        decreases n - j,
    {
        if j > 0 {
            append_chars(&mut r, sep);
        }
        append_chars(&mut r, parts[j].as_slice());
        proof {
            let tk = ps.take(j + 1);
            assert(tk.drop_last() =~= ps.take(j as int));
            assert(tk.last() == parts@[j as int]@);
            if j == 0 {
                assert(ps.take(0) =~= Seq::<Seq<char>>::empty());
            }
        }
        j = j + 1;
    }
    assert(ps.take(n as int) =~= ps);
    r
}

} // verus!

verus! {

/// What `Debug` writes for a string: the string in double quotes, with
/// `"`, `\` and the characters that are not printable escaped (a single
/// quote is left as it is).
pub uninterp spec fn debug_text(s: Seq<char>) -> Seq<char>;

/// Formats `s` with `Debug` (`format!("{:?}", s)`).
///
/// Trusted: the result is `debug_text(s)`, a function of `s` alone; nothing
/// more is claimed about its characters.
#[verifier::external_body]
pub(crate) fn debug_quote(s: &str) -> (r: String)
    ensures
        r@ == debug_text(s@),
{
    format!("{:?}", s)
}

} // verus!

verus! {

/// Each of `parts` followed by a newline, one after the other.
pub open spec fn lines_text(parts: Seq<Seq<char>>) -> Seq<char>
    decreases parts.len(),
{
    if parts.len() == 0 {
        Seq::empty()
    } else {
        lines_text(parts.drop_last()) + parts.last() + seq!['\n']
    }
}

/// The characters of each string.
pub open spec fn strings_text(v: Seq<String>) -> Seq<Seq<char>> {
    Seq::new(v.len(), |i: int| v[i]@)
}

/// Appending one more line extends `lines_text` by that line.
pub proof fn lemma_lines_text_push(parts: Seq<Seq<char>>, p: Seq<char>)
    ensures
        lines_text(parts.push(p)) == lines_text(parts) + p + seq!['\n'],
{
    assert(parts.push(p).drop_last() =~= parts);
}

/// Appends each string followed by a newline.
pub fn append_lines(v: &mut Vec<char>, parts: &Vec<String>)
    ensures
        final(v)@ == old(v)@ + lines_text(strings_text(parts@)),
{
    let ghost v0 = v@;
    let n = parts.len();
    for i in 0..n
        invariant
            n == parts@.len(),
            v@ == v0 + lines_text(strings_text(parts@).take(i as int)),
    {
        append_str(v, parts[i].as_str());
        v.push('\n');
        proof {
            let st = strings_text(parts@);
            assert(st.take(i + 1) =~= st.take(i as int).push(parts@[i as int]@));
            lemma_lines_text_push(st.take(i as int), parts@[i as int]@);
        }
    }
    assert(strings_text(parts@).take(n as int) =~= strings_text(parts@));
}

} // verus!

verus! {

/// The pieces of `s` between the occurrences of `c` (as `str::split` with a
/// character): one more piece than there are occurrences.
pub open spec fn split_char(s: Seq<char>, c: char) -> Seq<Seq<char>>
    decreases s.len(),
{
    if s.len() == 0 {
        seq![Seq::empty()]
    } else {
        let p = split_char(s.drop_last(), c);
        if s.last() == c {
            p.push(Seq::empty())
        } else {
            p.update(p.len() - 1, p.last().push(s.last()))
        }
    }
}

/// The pieces of `s` split at the first `n - 1` occurrences of `c` (as
/// `str::splitn`): at most `n` pieces, the last holding the rest.
pub open spec fn splitn_char(s: Seq<char>, c: char, n: nat) -> Seq<Seq<char>>
    decreases s.len(),
{
    if s.len() == 0 {
        seq![Seq::empty()]
    } else {
        let p = splitn_char(s.drop_last(), c, n);
        if s.last() == c && p.len() < n {
            p.push(Seq::empty())
        } else {
            p.update(p.len() - 1, p.last().push(s.last()))
        }
    }
}

/// There is always at least one piece.
pub proof fn lemma_split_len(s: Seq<char>, c: char, n: nat)
    ensures
        split_char(s, c).len() >= 1,
        splitn_char(s, c, n).len() >= 1,
        n >= 1 ==> splitn_char(s, c, n).len() <= n,
    decreases s.len(),
{
    if s.len() > 0 {
        lemma_split_len(s.drop_last(), c, n);
    }
}

/// A text without `c` is one piece.
pub proof fn lemma_split_free(s: Seq<char>, c: char)
    requires
        !s.contains(c),
    ensures
        split_char(s, c) == seq![s],
    decreases s.len(),
{
    if s.len() > 0 {
        assert(!s.drop_last().contains(c)) by {
            if s.drop_last().contains(c) {
                let k = choose|k: int| 0 <= k < s.drop_last().len() && s.drop_last()[k] == c;
                assert(s[k] == c);
            }
        }
        lemma_split_free(s.drop_last(), c);
        assert(s[s.len() - 1] != c);
        assert(s.drop_last().push(s.last()) =~= s);
        assert(seq![s.drop_last()].update(0, s.drop_last().push(s.last())) =~= seq![s]);
    } else {
        assert(s =~= Seq::<char>::empty());
    }
}

/// Splitting at `c` a text with `c` between two parts gives the pieces of
/// each part, one after the other.
pub proof fn lemma_split_concat(a: Seq<char>, b: Seq<char>, c: char)
    ensures
        split_char(a + seq![c] + b, c) == split_char(a, c) + split_char(b, c),
    decreases b.len(),
{
    let s = a + seq![c] + b;
    if b.len() == 0 {
        assert(s =~= a + seq![c]);
        assert((a + seq![c]).drop_last() =~= a);
        assert(split_char(b, c) =~= seq![Seq::<char>::empty()]);
        assert(split_char(a, c).push(Seq::<char>::empty()) =~= split_char(a, c) + split_char(b, c));
    } else {
        let b0 = b.drop_last();
        lemma_split_concat(a, b0, c);
        lemma_split_len(b0, c, 1);
        assert(s.drop_last() =~= a + seq![c] + b0);
        assert(s.last() == b.last());
        let pa = split_char(a, c);
        let pb = split_char(b0, c);
        if b.last() == c {
            assert(split_char(b, c) == pb.push(Seq::<char>::empty()));
            assert((pa + pb).push(Seq::<char>::empty()) =~= pa + pb.push(Seq::<char>::empty()));
        } else {
            assert(split_char(b, c) == pb.update(pb.len() - 1, pb.last().push(b.last())));
            assert((pa + pb).update((pa + pb).len() - 1, (pa + pb).last().push(b.last())) =~= pa + pb.update(
                pb.len() - 1,
                pb.last().push(b.last()),
            ));
        }
    }
}

/// With no more pieces than `n`, `splitn_char` splits like `split_char`.
pub proof fn lemma_splitn_is_split(s: Seq<char>, c: char, n: nat)
    requires
        split_char(s, c).len() <= n,
    ensures
        splitn_char(s, c, n) == split_char(s, c),
    decreases s.len(),
{
    if s.len() > 0 {
        lemma_split_len(s.drop_last(), c, n);
        lemma_splitn_is_split(s.drop_last(), c, n);
    }
}

/// Splits `s` at the first `limit - 1` occurrences of `c`, or at all of
/// them when `limit` is `None`.
pub fn split_chars(s: &[char], c: char, limit: Option<usize>) -> (r: Vec<Vec<char>>)
    requires
        limit matches Some(n) ==> n >= 1,
    ensures
        r@.len() >= 1,
        Seq::new(r@.len(), |i: int| r@[i]@) == match limit {
            Some(n) => splitn_char(s@, c, n as nat),
            None => split_char(s@, c),
        },
{
    let ghost spec_of = |t: Seq<char>|
        match limit {
            Some(n) => splitn_char(t, c, n as nat),
            None => split_char(t, c),
        };
    let mut pieces: Vec<Vec<char>> = Vec::new();
    let mut cur: Vec<char> = Vec::new();
    let len = s.len();
    assert(s@.take(0) =~= Seq::<char>::empty());
    assert(Seq::new(0, |j: int| pieces@[j]@).push(cur@) =~= seq![Seq::<char>::empty()]);
    for i in 0..len
        invariant
            len == s@.len(),
            limit matches Some(n) ==> n >= 1,
            spec_of == (|t: Seq<char>|
                match limit {
                    Some(n) => splitn_char(t, c, n as nat),
                    None => split_char(t, c),
                }),
            Seq::new(pieces@.len(), |j: int| pieces@[j]@).push(cur@) == spec_of(s@.take(i as int)),
    {
        let ghost before = Seq::new(pieces@.len(), |j: int| pieces@[j]@).push(cur@);
        let x = s[i];
        let room = match limit {
            Some(n) => pieces.len() < n - 1,
            None => true,
        };
        proof {
            assert(s@.take(i + 1).drop_last() =~= s@.take(i as int));
            assert(s@.take(i + 1).last() == x);
            lemma_split_len(s@.take(i as int), c, match limit { Some(n) => n as nat, None => 0 });
        }
        if x == c && room {
            let done = cur;
            pieces.push(done);
            cur = Vec::new();
            assert(Seq::new(pieces@.len(), |j: int| pieces@[j]@).push(cur@) =~= before.push(Seq::empty()));
        } else {
            cur.push(x);
            assert(Seq::new(pieces@.len(), |j: int| pieces@[j]@).push(cur@) =~= before.update(
                before.len() - 1,
                before.last().push(x),
            ));
        }
    }
    let ghost before = Seq::new(pieces@.len(), |j: int| pieces@[j]@).push(cur@);
    pieces.push(cur);
    assert(s@.take(len as int) =~= s@);
    assert(Seq::new(pieces@.len(), |j: int| pieces@[j]@) =~= before);
    pieces
}

} // verus!

verus! {

/// The characters of an optional string.
pub open spec fn opt_text(o: Option<String>) -> Option<Seq<char>> {
    match o {
        Some(s) => Some(s@),
        None => None,
    }
}

/// The parts, one after the other.
pub open spec fn concat(parts: Seq<Seq<char>>) -> Seq<char>
    decreases parts.len(),
{
    if parts.len() == 0 {
        Seq::empty()
    } else {
        concat(parts.drop_last()) + parts.last()
    }
}

/// Appending one more part extends `concat` by that part.
pub proof fn lemma_concat_push(parts: Seq<Seq<char>>, p: Seq<char>)
    ensures
        concat(parts.push(p)) == concat(parts) + p,
{
    assert(parts.push(p).drop_last() =~= parts);
}

} // verus!

verus! {

/// The given words as strings.
pub fn strings_from(parts: &[&str]) -> (r: Vec<String>)
    ensures
        strings_text(r@) == Seq::new(parts@.len(), |i: int| parts@[i]@),
{
    let mut r: Vec<String> = Vec::new();
    for i in 0..parts.len()
        invariant
            r@.len() == i,
            forall|j: int| 0 <= j < i ==> #[trigger] r@[j]@ == parts@[j]@,
    {
        r.push(parts[i].to_string());
    }
    assert(strings_text(r@) =~= Seq::new(parts@.len(), |i: int| parts@[i]@));
    r
}

} // verus!
