//! Character-level text operations with their meaning stated over `Seq<char>`.
//!
//! Each spec function below says what the corresponding `str` operation of
//! Rust's standard library produces; the executable functions compute it on
//! character slices and are proved to agree.

use vstd::prelude::*;

verus! {

/// Appends one character to a `String` (`String::push`).
#[verifier::external_body]
pub(crate) fn push_char(s: &mut String, c: char)
    ensures
        final(s)@ == old(s)@.push(c),
{
    s.push(c);
}

/// The characters of a string slice, in order.
pub fn chars_of(s: &str) -> (res: Vec<char>)
    ensures
        res@ == s@,
{
    let mut res: Vec<char> = Vec::new();
    for c in it: s.chars()
        invariant
            res@ == it.seq().take(it.index() as int),
    {
        res.push(c);
    }
    res
}

/// A `String` holding exactly the given characters.
pub fn string_of(cs: &[char]) -> (res: String)
    ensures
        res@ == cs@,
{
    let mut res = String::new();
    let mut i: usize = 0;
    while i < cs.len()
        invariant
            i <= cs.len(),
            res@ == cs@.take(i as int),
        decreases cs.len() - i,
    {
        push_char(&mut res, cs[i]);
        assert(cs@.take(i + 1) == cs@.take(i as int).push(cs@[i as int]));
        i += 1;
    }
    assert(cs@.take(cs.len() as int) == cs@);
    res
}

/// `s` with `t` appended.
pub fn concat_str(s: String, t: &str) -> (res: String)
    ensures
        res@ == s@ + t@,
{
    let mut s = s;
    s.append(t);
    s
}

/// The copy of `s[from..to]`.
pub fn slice_vec(s: &[char], from: usize, to: usize) -> (res: Vec<char>)
    requires
        from <= to <= s.len(),
    ensures
        res@ == s@.subrange(from as int, to as int),
{
    let mut res: Vec<char> = Vec::new();
    let mut i = from;
    while i < to
        invariant
            from <= i <= to <= s.len(),
            res@ == s@.subrange(from as int, i as int),
        decreases to - i,
    {
        res.push(s[i]);
        assert(s@.subrange(from as int, i + 1) == s@.subrange(from as int, i as int).push(
            s@[i as int],
        ));
        i += 1;
    }
    res
}

/// Unicode `White_Space`, the set that `char::is_whitespace` accepts.
pub open spec fn is_ws(c: char) -> bool {
    let n = c as u32;
    ||| 0x09 <= n <= 0x0D
    ||| n == 0x20
    ||| n == 0x85
    ||| n == 0xA0
    ||| n == 0x1680
    ||| 0x2000 <= n <= 0x200A
    ||| n == 0x2028
    ||| n == 0x2029
    ||| n == 0x202F
    ||| n == 0x205F
    ||| n == 0x3000
}

/// `char::is_whitespace`.
pub fn is_whitespace(c: char) -> (res: bool)
    ensures
        res == is_ws(c),
{
    let n = c as u32;
    (0x09 <= n && n <= 0x0D) || n == 0x20 || n == 0x85 || n == 0xA0 || n == 0x1680 || (0x2000
        <= n && n <= 0x200A) || n == 0x2028 || n == 0x2029 || n == 0x202F || n == 0x205F || n
        == 0x3000
}

/// `str::trim_start`: leading whitespace removed.
pub open spec fn trim_start(s: Seq<char>) -> Seq<char>
    decreases s.len(),
{
    if s.len() > 0 && is_ws(s[0]) {
        trim_start(s.drop_first())
    } else {
        s
    }
}

/// `str::trim_end`: trailing whitespace removed.
pub open spec fn trim_end(s: Seq<char>) -> Seq<char>
    decreases s.len(),
{
    if s.len() > 0 && is_ws(s.last()) {
        trim_end(s.drop_last())
    } else {
        s
    }
}

/// `str::trim`: leading and trailing whitespace removed.
pub open spec fn trim(s: Seq<char>) -> Seq<char> {
    trim_end(trim_start(s))
}

proof fn lemma_trim_start_at(s: Seq<char>, a: int)
    requires
        0 <= a <= s.len(),
        forall|k: int| 0 <= k < a ==> is_ws(#[trigger] s[k]),
        a == s.len() || !is_ws(s[a]),
    ensures
        trim_start(s) == s.subrange(a, s.len() as int),
    decreases a,
{
    if a == 0 {
        assert(s.subrange(0, s.len() as int) == s);
    } else {
        let t = s.drop_first();
        assert forall|k: int| 0 <= k < a - 1 implies is_ws(#[trigger] t[k]) by {
            assert(t[k] == s[k + 1]);
        }
        if a - 1 < t.len() {
            assert(t[a - 1] == s[a]);
        }
        lemma_trim_start_at(t, a - 1);
        assert(t.subrange(a - 1, t.len() as int) == s.subrange(a, s.len() as int));
    }
}

proof fn lemma_trim_end_at(s: Seq<char>, b: int)
    requires
        0 <= b <= s.len(),
        forall|k: int| b <= k < s.len() ==> is_ws(#[trigger] s[k]),
        b == 0 || !is_ws(s[b - 1]),
    ensures
        trim_end(s) == s.subrange(0, b),
    decreases s.len() - b,
{
    if b == s.len() {
        assert(s.subrange(0, b) == s);
    } else {
        let t = s.drop_last();
        assert forall|k: int| b <= k < t.len() implies is_ws(#[trigger] t[k]) by {
            assert(t[k] == s[k]);
        }
        if b > 0 {
            assert(t[b - 1] == s[b - 1]);
        }
        lemma_trim_end_at(t, b);
        assert(t.subrange(0, b) == s.subrange(0, b));
    }
}

/// The bounds `(a, b)` with `s[a..b]` equal to `str::trim` of `s`.
pub fn trim_bounds(s: &[char]) -> (res: (usize, usize))
    ensures
        res.0 <= res.1 <= s.len(),
        s@.subrange(res.0 as int, res.1 as int) == trim(s@),
{
    let mut a: usize = 0;
    while a < s.len() && is_whitespace(s[a])
        invariant
            a <= s.len(),
            forall|k: int| 0 <= k < a ==> is_ws(#[trigger] s@[k]),
        decreases s.len() - a,
    {
        a += 1;
    }
    proof {
        lemma_trim_start_at(s@, a as int);
    }
    let mut b: usize = s.len();
    while b > a && is_whitespace(s[b - 1])
        invariant
            a <= b <= s.len(),
            forall|k: int| b <= k < s.len() ==> is_ws(#[trigger] s@[k]),
        decreases b,
    {
        b -= 1;
    }
    proof {
        let t = s@.subrange(a as int, s.len() as int);
        let bb = b - a;
        assert forall|k: int| bb <= k < t.len() implies is_ws(#[trigger] t[k]) by {
            assert(t[k] == s@[k + a]);
        }
        if bb > 0 {
            assert(t[bb - 1] == s@[b - 1]);
        }
        lemma_trim_end_at(t, bb);
        assert(t.subrange(0, bb) == s@.subrange(a as int, b as int));
    }
    (a, b)
}

/// `str::trim`, copied out.
pub fn trim_vec(s: &[char]) -> (res: Vec<char>)
    ensures
        res@ == trim(s@),
{
    let (a, b) = trim_bounds(s);
    slice_vec(s, a, b)
}

/// `s` begins with `p`.
pub open spec fn starts_with(s: Seq<char>, p: Seq<char>) -> bool {
    p.len() <= s.len() && s.take(p.len() as int) == p
}

/// `s` ends with `p`.
pub open spec fn ends_with(s: Seq<char>, p: Seq<char>) -> bool {
    p.len() <= s.len() && s.skip(s.len() - p.len()) == p
}

/// `p` occurs in `s` at index `i`.
pub open spec fn occurs_at(s: Seq<char>, p: Seq<char>, i: int) -> bool {
    0 <= i && i + p.len() <= s.len() && s.subrange(i, i + p.len()) == p
}

/// The first index at or after `i` where `p` occurs in `s`.
pub open spec fn find_from(s: Seq<char>, p: Seq<char>, i: int) -> Option<int>
    decreases s.len() + 1 - i,
{
    if i < 0 || i + p.len() > s.len() {
        None
    } else if occurs_at(s, p, i) {
        Some(i)
    } else {
        find_from(s, p, i + 1)
    }
}

/// The first index where `p` occurs in `s` (`str::find`).
pub open spec fn find(s: Seq<char>, p: Seq<char>) -> Option<int> {
    find_from(s, p, 0)
}

/// `str::split_once`: the text before and after the first occurrence of `p`.
pub open spec fn split_once(s: Seq<char>, p: Seq<char>) -> Option<(Seq<char>, Seq<char>)> {
    match find(s, p) {
        Some(i) => Some((s.take(i), s.skip(i + p.len()))),
        None => None,
    }
}

/// Whether `p` occurs in `s` at index `i` (executable).
pub fn occurs_at_exec(s: &[char], p: &[char], i: usize) -> (res: bool)
    ensures
        res == occurs_at(s@, p@, i as int),
{
    if i > s.len() || p.len() > s.len() - i {
        return false;
    }
    let mut k: usize = 0;
    while k < p.len()
        invariant
            i + p.len() <= s.len(),
            k <= p.len(),
            forall|j: int| 0 <= j < k ==> s@[i + j] == p@[j],
        decreases p.len() - k,
    {
        if s[i + k] != p[k] {
            assert(s@.subrange(i as int, i + p.len())[k as int] != p@[k as int]);
            return false;
        }
        k += 1;
    }
    assert(s@.subrange(i as int, i + p.len()) == p@);
    true
}

/// `str::find` on character slices.
pub fn find_exec(s: &[char], p: &[char]) -> (res: Option<usize>)
    ensures
        res matches Some(k) ==> find(s@, p@) == Some(k as int) && k + p.len() <= s.len(),
        res is None ==> find(s@, p@) is None,
{
    if p.len() > s.len() {
        return None;
    }
    let last = s.len() - p.len();
    let mut i: usize = 0;
    loop
        invariant
            i <= last,
            last + p.len() == s.len(),
            find(s@, p@) == find_from(s@, p@, i as int),
        decreases last - i,
    {
        if occurs_at_exec(s, p, i) {
            return Some(i);
        }
        if i == last {
            assert(find_from(s@, p@, i + 1) is None);
            return None;
        }
        i += 1;
    }
}

/// `str::split_once` on character slices.
pub fn split_once_exec(s: &[char], p: &[char]) -> (res: Option<(Vec<char>, Vec<char>)>)
    ensures
        res matches Some(r) ==> split_once(s@, p@) == Some((r.0@, r.1@)),
        res is None ==> split_once(s@, p@) is None,
{
    match find_exec(s, p) {
        Some(i) => {
            let before = slice_vec(s, 0, i);
            let after = slice_vec(s, i + p.len(), s.len());
            Some((before, after))
        },
        None => None,
    }
}

/// Whether `s` begins with `p` (executable).
pub fn starts_with_exec(s: &[char], p: &[char]) -> (res: bool)
    ensures
        res == starts_with(s@, p@),
{
    let r = occurs_at_exec(s, p, 0);
    proof {
        if p@.len() <= s@.len() {
            assert(s@.subrange(0, p@.len() as int) == s@.take(p@.len() as int));
        }
    }
    r
}

/// Whether `s` ends with `p` (executable).
pub fn ends_with_exec(s: &[char], p: &[char]) -> (res: bool)
    ensures
        res == ends_with(s@, p@),
{
    if p.len() > s.len() {
        return false;
    }
    let r = occurs_at_exec(s, p, s.len() - p.len());
    proof {
        assert(s@.subrange(s.len() - p.len(), s.len() as int) == s@.skip(s.len() - p.len()));
    }
    r
}

/// A line without the one carriage return that precedes its newline.
pub open spec fn strip_cr(line: Seq<char>) -> Seq<char> {
    if line.len() > 0 && line.last() == '\r' {
        line.drop_last()
    } else {
        line
    }
}

/// The lines of `s` when `cur` holds the start of the current line:
/// characters accumulate into the current line; a newline ends it, dropping
/// one carriage return just before the newline; a final line without a
/// newline is kept as it is, and an empty one is not a line.
pub open spec fn lines_from(s: Seq<char>, cur: Seq<char>) -> Seq<Seq<char>>
    decreases s.len(),
{
    if s.len() == 0 {
        if cur.len() == 0 {
            seq![]
        } else {
            seq![cur]
        }
    } else if s[0] == '\n' {
        seq![strip_cr(cur)] + lines_from(s.drop_first(), seq![])
    } else {
        lines_from(s.drop_first(), cur.push(s[0]))
    }
}

/// `str::lines`.
pub open spec fn lines(s: Seq<char>) -> Seq<Seq<char>> {
    lines_from(s, seq![])
}

pub proof fn lemma_chars_deep_view(v: Vec<char>)
    ensures
        v.deep_view() == v@,
{
    assert(v.deep_view() =~= v@);
}

pub proof fn lemma_push_deep_view(out: Vec<Vec<char>>, v: Vec<char>, after: Vec<Vec<char>>)
    requires
        after@ == out@.push(v),
    ensures
        after.deep_view() == out.deep_view().push(v@),
{
    lemma_chars_deep_view(v);
    assert(after.deep_view() =~= out.deep_view().push(v@));
}

/// `str::lines` on character slices.
pub fn lines_exec(s: &[char]) -> (res: Vec<Vec<char>>)
    ensures
        res.deep_view() == lines(s@),
{
    let mut out: Vec<Vec<char>> = Vec::new();
    let mut cur: Vec<char> = Vec::new();
    let mut i: usize = 0;
    assert(out.deep_view() =~= Seq::<Seq<char>>::empty());
    assert(s@.skip(0) == s@);
    assert(cur@ =~= Seq::<char>::empty());
    while i < s.len()
        invariant
            i <= s.len(),
            out.deep_view() + lines_from(s@.skip(i as int), cur@) == lines(s@),
        decreases s.len() - i,
    {
        let ghost rest = s@.skip(i as int);
        assert(rest.drop_first() == s@.skip(i + 1));
        if s[i] == '\n' {
            let ghost old_out = out.deep_view();
            let ghost old_cur = cur@;
            if cur.len() > 0 && cur[cur.len() - 1] == '\r' {
                cur.pop();
            }
            assert(cur@ == strip_cr(old_cur));
            let ghost before = out;
            let ghost pushed = cur;
            out.push(cur);
            proof {
                lemma_push_deep_view(before, pushed, out);
            }
            cur = Vec::new();
            assert(cur@ =~= Seq::<char>::empty());
            assert(old_out + (seq![strip_cr(old_cur)] + lines_from(rest.drop_first(), seq![]))
                == old_out.push(strip_cr(old_cur)) + lines_from(rest.drop_first(), seq![]));
        } else {
            cur.push(s[i]);
        }
        i += 1;
    }
    if cur.len() > 0 {
        let ghost before = out;
        let ghost pushed = cur;
        out.push(cur);
        proof {
            lemma_push_deep_view(before, pushed, out);
        }
    } else {
        assert(out.deep_view() + lines_from(s@.skip(i as int), cur@) == out.deep_view());
    }
    out
}

/// The pieces of `s` between occurrences of `sep` when `cur` holds the start
/// of the current piece (`str::split` with a character pattern): there is
/// always at least one piece, and adjacent separators give empty pieces.
pub open spec fn split_from(s: Seq<char>, sep: char, cur: Seq<char>) -> Seq<Seq<char>>
    decreases s.len(),
{
    if s.len() == 0 {
        seq![cur]
    } else if s[0] == sep {
        seq![cur] + split_from(s.drop_first(), sep, seq![])
    } else {
        split_from(s.drop_first(), sep, cur.push(s[0]))
    }
}

/// `str::split` with a character pattern.
pub open spec fn split(s: Seq<char>, sep: char) -> Seq<Seq<char>> {
    split_from(s, sep, seq![])
}

/// `str::split` with a character pattern, on character slices.
pub fn split_exec(s: &[char], sep: char) -> (res: Vec<Vec<char>>)
    ensures
        res.deep_view() == split(s@, sep),
{
    let mut out: Vec<Vec<char>> = Vec::new();
    let mut cur: Vec<char> = Vec::new();
    let mut i: usize = 0;
    assert(out.deep_view() =~= Seq::<Seq<char>>::empty());
    assert(s@.skip(0) == s@);
    assert(cur@ =~= Seq::<char>::empty());
    while i < s.len()
        invariant
            i <= s.len(),
            out.deep_view() + split_from(s@.skip(i as int), sep, cur@) == split(s@, sep),
        decreases s.len() - i,
    {
        let ghost rest = s@.skip(i as int);
        assert(rest.drop_first() == s@.skip(i + 1));
        if s[i] == sep {
            let ghost old_out = out.deep_view();
            let ghost old_cur = cur@;
            let ghost before = out;
            let ghost pushed = cur;
            out.push(cur);
            proof {
                lemma_push_deep_view(before, pushed, out);
            }
            cur = Vec::new();
            assert(cur@ =~= Seq::<char>::empty());
            assert(old_out + (seq![old_cur] + split_from(rest.drop_first(), sep, seq![]))
                == old_out.push(old_cur) + split_from(rest.drop_first(), sep, seq![]));
        } else {
            cur.push(s[i]);
        }
        i += 1;
    }
    let ghost before = out;
    let ghost pushed = cur;
    out.push(cur);
    proof {
        lemma_push_deep_view(before, pushed, out);
    }
    out
}

/// The pieces of `parts` joined with `sep` between neighbours (`[T]::join`).
pub open spec fn join(parts: Seq<Seq<char>>, sep: Seq<char>) -> Seq<char>
    decreases parts.len(),
{
    if parts.len() == 0 {
        seq![]
    } else if parts.len() == 1 {
        parts[0]
    } else {
        join(parts.drop_last(), sep) + sep + parts.last()
    }
}

/// `[T]::join` for character sequences.
pub fn join_exec(parts: &Vec<Vec<char>>, sep: &[char]) -> (res: Vec<char>)
    ensures
        res@ == join(parts.deep_view(), sep@),
{
    let mut res: Vec<char> = Vec::new();
    let mut i: usize = 0;
    while i < parts.len()
        invariant
            i <= parts.len(),
            res@ == join(parts.deep_view().take(i as int), sep@),
        decreases parts.len() - i,
    {
        proof {
            lemma_chars_deep_view(parts@[i as int]);
            assert(parts.deep_view().take(i + 1).drop_last() == parts.deep_view().take(i as int));
        }
        if i > 0 {
            let mut k: usize = 0;
            let ghost base = res@;
            while k < sep.len()
                invariant
                    k <= sep.len(),
                    res@ == base + sep@.take(k as int),
                decreases sep.len() - k,
            {
                res.push(sep[k]);
                assert(sep@.take(k + 1) == sep@.take(k as int).push(sep@[k as int]));
                k += 1;
            }
            assert(sep@.take(sep.len() as int) == sep@);
        }
        let part = &parts[i];
        let mut k: usize = 0;
        let ghost base = res@;
        while k < part.len()
            invariant
                k <= part.len(),
                res@ == base + part@.take(k as int),
            decreases part.len() - k,
        {
            res.push(part[k]);
            assert(part@.take(k + 1) == part@.take(k as int).push(part@[k as int]));
            k += 1;
        }
        assert(part@.take(part.len() as int) == part@);
        proof {
            if i == 0 {
                assert(res@ =~= join(parts.deep_view().take(1), sep@));
            }
        }
        i += 1;
    }
    assert(parts.deep_view().take(parts.len() as int) == parts.deep_view());
    res
}

/// `s` with every `"\r\n"` replaced by `"\n"`, scanning from the left.
pub open spec fn crlf_to_lf(s: Seq<char>) -> Seq<char>
    decreases s.len(),
{
    if s.len() == 0 {
        s
    } else if s.len() >= 2 && s[0] == '\r' && s[1] == '\n' {
        seq!['\n'] + crlf_to_lf(s.skip(2))
    } else {
        seq![s[0]] + crlf_to_lf(s.drop_first())
    }
}

/// `s` with every `"\n"` written as `"\r\n"`, as a Windows editor saves it.
pub open spec fn lf_to_crlf(s: Seq<char>) -> Seq<char>
    decreases s.len(),
{
    if s.len() == 0 {
        s
    } else if s[0] == '\n' {
        seq!['\r', '\n'] + lf_to_crlf(s.drop_first())
    } else {
        seq![s[0]] + lf_to_crlf(s.drop_first())
    }
}

/// `s` holds no carriage return.
pub open spec fn has_no_cr(s: Seq<char>) -> bool {
    forall|i: int| 0 <= i < s.len() ==> s[i] != '\r'
}

/// A text without carriage returns is left as it is by `crlf_to_lf`.
pub proof fn lemma_crlf_to_lf_without_cr(s: Seq<char>)
    requires
        has_no_cr(s),
    ensures
        crlf_to_lf(s) == s,
    decreases s.len(),
{
    if s.len() > 0 {
        assert(has_no_cr(s.drop_first()));
        lemma_crlf_to_lf_without_cr(s.drop_first());
        assert(seq![s[0]] + s.drop_first() =~= s);
    }
}

/// Writing the line ends of a text without carriage returns as `"\r\n"`
/// and normalizing them back gives the text again.
pub proof fn lemma_crlf_round_trip(s: Seq<char>)
    requires
        has_no_cr(s),
    ensures
        crlf_to_lf(lf_to_crlf(s)) == s,
    decreases s.len(),
{
    if s.len() > 0 {
        let rest = s.drop_first();
        assert(has_no_cr(rest));
        lemma_crlf_round_trip(rest);
        let x = lf_to_crlf(s);
        if s[0] == '\n' {
            assert(x.skip(2) =~= lf_to_crlf(rest));
        } else {
            assert(x.drop_first() =~= lf_to_crlf(rest));
        }
        assert(seq![s[0]] + rest =~= s);
    }
}

/// `str::replace("\r\n", "\n")` on character slices.
pub fn crlf_to_lf_exec(s: &[char]) -> (res: Vec<char>)
    ensures
        res@ == crlf_to_lf(s@),
{
    let mut res: Vec<char> = Vec::new();
    let mut i: usize = 0;
    assert(s@.skip(0) == s@);
    while i < s.len()
        invariant
            i <= s.len(),
            res@ + crlf_to_lf(s@.skip(i as int)) == crlf_to_lf(s@),
        decreases s.len() - i,
    {
        let ghost rest = s@.skip(i as int);
        if i + 1 < s.len() && s[i] == '\r' && s[i + 1] == '\n' {
            assert(rest.skip(2) == s@.skip(i + 2));
            res.push('\n');
            assert(res@.drop_last() + (seq!['\n'] + crlf_to_lf(rest.skip(2))) == res@
                + crlf_to_lf(rest.skip(2)));
            i += 2;
        } else {
            assert(rest.drop_first() == s@.skip(i + 1));
            let c = s[i];
            res.push(c);
            assert(res@.drop_last() + (seq![c] + crlf_to_lf(rest.drop_first())) == res@
                + crlf_to_lf(rest.drop_first()));
            i += 1;
        }
    }
    assert(res@ + crlf_to_lf(s@.skip(i as int)) == res@);
    res
}

/// `c` is an ASCII decimal digit.
pub open spec fn is_digit(c: char) -> bool {
    '0' <= c <= '9'
}

/// The value of one ASCII decimal digit.
pub open spec fn digit_value(c: char) -> int {
    (c as int) - ('0' as int)
}

/// Every character of `s` is an ASCII decimal digit.
pub open spec fn all_digits(s: Seq<char>) -> bool {
    forall|i: int| 0 <= i < s.len() ==> is_digit(#[trigger] s[i])
}

/// The number that a string of decimal digits denotes.
pub open spec fn digits_value(s: Seq<char>) -> int
    decreases s.len(),
{
    if s.len() == 0 {
        0
    } else {
        digits_value(s.drop_last()) * 10 + digit_value(s.last())
    }
}

/// What `from_str` of an unsigned integer type whose largest value is `max`
/// accepts: an optional `+`, then at least one digit, denoting at most `max`.
pub open spec fn parse_unsigned(s: Seq<char>, max: int) -> Option<int> {
    let body = if s.len() > 0 && s[0] == '+' {
        s.drop_first()
    } else {
        s
    };
    if body.len() > 0 && all_digits(body) && digits_value(body) <= max {
        Some(digits_value(body))
    } else {
        None
    }
}

/// What `from_str` of a signed integer type accepts: an optional sign, then
/// at least one digit, denoting a value within `[min, max]`.
pub open spec fn parse_signed(s: Seq<char>, min: int, max: int) -> Option<int> {
    let negative = s.len() > 0 && s[0] == '-';
    let body = if s.len() > 0 && (s[0] == '+' || s[0] == '-') {
        s.drop_first()
    } else {
        s
    };
    let value = if negative {
        -digits_value(body)
    } else {
        digits_value(body)
    };
    if body.len() > 0 && all_digits(body) && min <= value <= max {
        Some(value)
    } else {
        None
    }
}

proof fn lemma_digits_value_nonneg(s: Seq<char>)
    requires
        all_digits(s),
    ensures
        digits_value(s) >= 0,
    decreases s.len(),
{
    if s.len() > 0 {
        assert(all_digits(s.drop_last())) by {
            assert forall|i: int| 0 <= i < s.drop_last().len() implies is_digit(
                #[trigger] s.drop_last()[i],
            ) by {
                assert(s.drop_last()[i] == s[i]);
            }
        }
        lemma_digits_value_nonneg(s.drop_last());
        assert(is_digit(s[s.len() - 1]));
    }
}

proof fn lemma_digits_value_prefix(s: Seq<char>, k: int)
    requires
        all_digits(s),
        0 <= k <= s.len(),
    ensures
        digits_value(s.take(k)) <= digits_value(s),
    decreases s.len() - k,
{
    if k < s.len() {
        let t = s.drop_last();
        assert(all_digits(t)) by {
            assert forall|i: int| 0 <= i < t.len() implies is_digit(#[trigger] t[i]) by {
                assert(t[i] == s[i]);
            }
        }
        lemma_digits_value_prefix(t, k);
        assert(t.take(k) == s.take(k));
        lemma_digits_value_nonneg(t);
        assert(is_digit(s[s.len() - 1]));
    } else {
        assert(s.take(k) == s);
    }
}

/// The value of the digits `s[from..]` when it is at most `max`.
fn digits_value_exec(s: &[char], from: usize, max: u64) -> (res: Option<u64>)
    requires
        from <= s.len(),
    ensures
        ({
            let body = s@.skip(from as int);
            match res {
                Some(v) => all_digits(body) && v == digits_value(body) && v <= max,
                None => !all_digits(body) || digits_value(body) > max,
            }
        }),
{
    let ghost body = s@.skip(from as int);
    let mut value: u64 = 0;
    let mut i = from;
    while i < s.len()
        invariant
            from <= i <= s.len(),
            body == s@.skip(from as int),
            all_digits(body.take(i - from)),
            value == digits_value(body.take(i - from)),
            value <= max,
        decreases s.len() - i,
    {
        let c = s[i];
        let ghost prefix = body.take(i - from);
        let ghost next = body.take(i + 1 - from);
        assert(next.drop_last() == prefix);
        assert(next.last() == c);
        if c < '0' || c > '9' {
            assert(!is_digit(body[i - from]));
            return None;
        }
        assert(all_digits(next)) by {
            assert forall|j: int| 0 <= j < next.len() implies is_digit(#[trigger] next[j]) by {
                if j < prefix.len() {
                    assert(next[j] == prefix[j]);
                }
            }
        }
        let d = (c as u32 - '0' as u32) as u64;
        if d > max || value > (max - d) / 10 {
            assert(digits_value(next) == value * 10 + d);
            assert(digits_value(next) > max) by (nonlinear_arith)
                requires
                    digits_value(next) == value * 10 + d,
                    d > max || value > (max - d) / 10,
                    value >= 0,
                    d >= 0,
            {
            }
            proof {
                if all_digits(body) {
                    lemma_digits_value_prefix(body, i + 1 - from);
                }
            }
            return None;
        }
        value = value * 10 + d;
        i += 1;
    }
    assert(body.take(i - from) == body);
    Some(value)
}

/// `from_str` of an unsigned integer type whose largest value is `max`.
pub fn parse_unsigned_exec(s: &[char], max: u64) -> (res: Option<u64>)
    ensures
        match res {
            Some(v) => parse_unsigned(s@, max as int) == Some(v as int),
            None => parse_unsigned(s@, max as int) is None,
        },
{
    let from: usize = if s.len() > 0 && s[0] == '+' {
        1
    } else {
        0
    };
    proof {
        if from == 1 {
            assert(s@.skip(1) == s@.drop_first());
        } else {
            assert(s@.skip(0) == s@);
        }
    }
    if from == s.len() {
        return None;
    }
    digits_value_exec(s, from, max)
}

/// `u32::from_str`.
pub fn parse_u32(s: &[char]) -> (res: Option<u32>)
    ensures
        match res {
            Some(v) => parse_unsigned(s@, u32::MAX as int) == Some(v as int),
            None => parse_unsigned(s@, u32::MAX as int) is None,
        },
{
    match parse_unsigned_exec(s, u32::MAX as u64) {
        Some(v) => Some(v as u32),
        None => None,
    }
}

/// `u16::from_str`.
pub fn parse_u16(s: &[char]) -> (res: Option<u16>)
    ensures
        match res {
            Some(v) => parse_unsigned(s@, u16::MAX as int) == Some(v as int),
            None => parse_unsigned(s@, u16::MAX as int) is None,
        },
{
    match parse_unsigned_exec(s, u16::MAX as u64) {
        Some(v) => Some(v as u16),
        None => None,
    }
}

/// `usize::from_str`.
pub fn parse_usize(s: &[char]) -> (res: Option<usize>)
    ensures
        match res {
            Some(v) => parse_unsigned(s@, usize::MAX as int) == Some(v as int),
            None => parse_unsigned(s@, usize::MAX as int) is None,
        },
{
    match parse_unsigned_exec(s, usize::MAX as u64) {
        Some(v) => Some(v as usize),
        None => None,
    }
}

/// `i64::from_str`.
pub fn parse_i64(s: &[char]) -> (res: Option<i64>)
    ensures
        match res {
            Some(v) => parse_signed(s@, i64::MIN as int, i64::MAX as int) == Some(v as int),
            None => parse_signed(s@, i64::MIN as int, i64::MAX as int) is None,
        },
{
    let negative = s.len() > 0 && s[0] == '-';
    let from: usize = if s.len() > 0 && (s[0] == '+' || s[0] == '-') {
        1
    } else {
        0
    };
    proof {
        if from == 1 {
            assert(s@.skip(1) == s@.drop_first());
        } else {
            assert(s@.skip(0) == s@);
        }
    }
    if from == s.len() {
        return None;
    }
    if negative {
        match digits_value_exec(s, from, 0x8000_0000_0000_0000u64) {
            Some(v) => {
                if v == 0x8000_0000_0000_0000u64 {
                    Some(i64::MIN)
                } else {
                    Some(-(v as i64))
                }
            },
            None => None,
        }
    } else {
        match digits_value_exec(s, from, i64::MAX as u64) {
            Some(v) => Some(v as i64),
            None => None,
        }
    }
}

/// The decimal digits of `n`, most significant first, without leading zeros
/// (`"0"` for zero).
pub open spec fn decimal(n: nat) -> Seq<char>
    decreases n,
{
    if n < 10 {
        seq![digit_char(n)]
    } else {
        decimal(n / 10).push(digit_char(n % 10))
    }
}

/// The ASCII digit for a value below ten.
pub open spec fn digit_char(d: nat) -> char {
    ((d + 48) as u8) as char
}

/// The decimal text of `n` (`u64::to_string`).
pub fn decimal_exec(n: u64) -> (res: Vec<char>)
    ensures
        res@ == decimal(n as nat),
    decreases n,
{
    if n < 10 {
        let c = ((n as u8) + 48) as char;
        let mut v: Vec<char> = Vec::new();
        v.push(c);
        assert(v@ =~= seq![digit_char(n as nat)]);
        v
    } else {
        let mut v = decimal_exec(n / 10);
        let c = (((n % 10) as u8) + 48) as char;
        v.push(c);
        v
    }
}

/// `n` in decimal, padded on the left with zeros to at least `width` digits
/// (`format!("{n:0width$}")`).
pub open spec fn zero_padded(n: nat, width: nat) -> Seq<char> {
    let digits = decimal(n);
    if digits.len() >= width {
        digits
    } else {
        Seq::new((width - digits.len()) as nat, |_i: int| '0') + digits
    }
}

/// `format!("{n:0width$}")` for a non-negative `n`.
pub fn zero_padded_exec(n: u64, width: usize) -> (res: Vec<char>)
    ensures
        res@ == zero_padded(n as nat, width as nat),
{
    let digits = decimal_exec(n);
    if digits.len() >= width {
        return digits;
    }
    let pad = width - digits.len();
    let mut res: Vec<char> = Vec::new();
    let mut i: usize = 0;
    while i < pad
        invariant
            i <= pad,
            res@ == Seq::new(i as nat, |_i: int| '0'),
        decreases pad - i,
    {
        res.push('0');
        assert(res@ =~= Seq::new((i + 1) as nat, |_i: int| '0'));
        i += 1;
    }
    let mut k: usize = 0;
    let ghost base = res@;
    while k < digits.len()
        invariant
            k <= digits.len(),
            res@ == base + digits@.take(k as int),
        decreases digits.len() - k,
    {
        res.push(digits[k]);
        assert(digits@.take(k + 1) == digits@.take(k as int).push(digits@[k as int]));
        k += 1;
    }
    assert(digits@.take(digits.len() as int) == digits@);
    res
}

/// ASCII letters lowered, every other character kept (`char::to_ascii_lowercase`).
pub open spec fn ascii_lower(c: char) -> char {
    if 'A' <= c <= 'Z' {
        ((c as int + 32) as u8) as char
    } else {
        c
    }
}

/// `str::to_ascii_lowercase`.
pub open spec fn to_ascii_lowercase(s: Seq<char>) -> Seq<char> {
    s.map_values(|c: char| ascii_lower(c))
}

/// `char::to_ascii_lowercase`.
pub fn ascii_lower_exec(c: char) -> (res: char)
    ensures
        res == ascii_lower(c),
{
    if 'A' <= c && c <= 'Z' {
        ((c as u8) + 32) as char
    } else {
        c
    }
}

/// `str::to_ascii_lowercase` on character slices.
pub fn to_ascii_lowercase_exec(s: &[char]) -> (res: Vec<char>)
    ensures
        res@ == to_ascii_lowercase(s@),
{
    let mut res: Vec<char> = Vec::new();
    let mut i: usize = 0;
    while i < s.len()
        invariant
            i <= s.len(),
            res@ == to_ascii_lowercase(s@.take(i as int)),
        decreases s.len() - i,
    {
        res.push(ascii_lower_exec(s[i]));
        assert(to_ascii_lowercase(s@.take(i + 1)) =~= to_ascii_lowercase(s@.take(i as int)).push(
            ascii_lower(s@[i as int]),
        ));
        i += 1;
    }
    assert(s@.take(s.len() as int) == s@);
    res
}

/// Whether two character slices hold the same characters.
pub fn chars_eq(a: &[char], b: &[char]) -> (res: bool)
    ensures
        res == (a@ == b@),
{
    if a.len() != b.len() {
        return false;
    }
    let mut i: usize = 0;
    while i < a.len()
        invariant
            i <= a.len() == b.len(),
            forall|k: int| 0 <= k < i ==> a@[k] == b@[k],
        decreases a.len() - i,
    {
        if a[i] != b[i] {
            return false;
        }
        i += 1;
    }
    assert(a@ =~= b@);
    true
}

/// Whether `s` holds exactly the characters of the literal `lit`.
pub fn is_literal(s: &[char], lit: &str) -> (res: bool)
    ensures
        res == (s@ == lit@),
{
    let l = chars_of(lit);
    chars_eq(s, l.as_slice())
}

/// Why `from_str` of an unsigned integer type refused its text
/// (`std::num::IntErrorKind`).
#[derive(Debug, Clone, Copy, PartialEq, Eq)]
pub enum IntErrorKind {
    Empty,
    InvalidDigit,
    PosOverflow,
}

/// The error that scanning the digits `body[i..]` meets first, where the
/// digits before `i` denote `acc`: a non-digit, or a prefix denoting more
/// than `max`.
pub open spec fn scan_error(body: Seq<char>, max: int, i: int, acc: int) -> Option<IntErrorKind>
    decreases body.len() - i,
{
    if i < 0 || i >= body.len() {
        None
    } else if !is_digit(body[i]) {
        Some(IntErrorKind::InvalidDigit)
    } else if acc * 10 + digit_value(body[i]) > max {
        Some(IntErrorKind::PosOverflow)
    } else {
        scan_error(body, max, i + 1, acc * 10 + digit_value(body[i]))
    }
}

/// Why `from_str` of an unsigned integer type whose largest value is `max`
/// refuses `s`, if it does: an empty text, a lone `+`, or the first
/// problem met scanning the digits left to right.
pub open spec fn unsigned_error(s: Seq<char>, max: int) -> Option<IntErrorKind> {
    if s.len() == 0 {
        Some(IntErrorKind::Empty)
    } else {
        let body = if s[0] == '+' {
            s.drop_first()
        } else {
            s
        };
        if body.len() == 0 {
            Some(IntErrorKind::InvalidDigit)
        } else {
            scan_error(body, max, 0, 0)
        }
    }
}

/// The text of a parse error (`ParseIntError`'s `Display`).
pub open spec fn int_error_text(kind: IntErrorKind) -> Seq<char> {
    match kind {
        IntErrorKind::Empty => "cannot parse integer from empty string"@,
        IntErrorKind::InvalidDigit => "invalid digit found in string"@,
        IntErrorKind::PosOverflow => "number too large to fit in target type"@,
    }
}

/// The text of a parse error.
pub fn int_error_message(kind: IntErrorKind) -> (res: &'static str)
    ensures
        res@ == int_error_text(kind),
{
    match kind {
        IntErrorKind::Empty => "cannot parse integer from empty string",
        IntErrorKind::InvalidDigit => "invalid digit found in string",
        IntErrorKind::PosOverflow => "number too large to fit in target type",
    }
}

/// `from_str` of an unsigned integer type whose largest value is `max`,
/// with the reason of a refusal.
pub fn parse_unsigned_detailed(s: &[char], max: u64) -> (res: Result<u64, IntErrorKind>)
    ensures
        match res {
            Ok(v) => parse_unsigned(s@, max as int) == Some(v as int) && unsigned_error(
                s@,
                max as int,
            ) is None,
            Err(k) => parse_unsigned(s@, max as int) is None && unsigned_error(s@, max as int)
                == Some(k),
        },
{
    match parse_unsigned_exec(s, max) {
        Some(v) => {
            proof {
                lemma_unsigned_ok(s@, max as int);
            }
            Ok(v)
        },
        None => {
            let k = unsigned_error_exec(s, max);
            Err(k)
        },
    }
}

proof fn lemma_scan_none_when_valid(body: Seq<char>, max: int, i: int, acc: int)
    requires
        0 <= i <= body.len(),
        all_digits(body),
        acc == digits_value(body.take(i)),
        digits_value(body) <= max,
        max >= 0,
    ensures
        scan_error(body, max, i, acc) is None,
    decreases body.len() - i,
{
    if i < body.len() {
        let next = body.take(i + 1);
        assert(next.drop_last() =~= body.take(i));
        assert(next.last() == body[i]);
        assert(all_digits(body.take(i + 1))) by {
            assert forall|j: int| 0 <= j < next.len() implies is_digit(#[trigger] next[j]) by {
                assert(next[j] == body[j]);
            }
        }
        lemma_digits_value_prefix(body, i + 1);
        assert(is_digit(body[i]));
        lemma_scan_none_when_valid(body, max, i + 1, acc * 10 + digit_value(body[i]));
    }
}

proof fn lemma_unsigned_ok(s: Seq<char>, max: int)
    requires
        parse_unsigned(s, max) is Some,
        max >= 0,
    ensures
        unsigned_error(s, max) is None,
{
    let body = if s.len() > 0 && s[0] == '+' {
        s.drop_first()
    } else {
        s
    };
    assert(body.take(0) =~= Seq::<char>::empty());
    lemma_scan_none_when_valid(body, max, 0, 0);
}

fn unsigned_error_exec(s: &[char], max: u64) -> (res: IntErrorKind)
    requires
        parse_unsigned(s@, max as int) is None,
    ensures
        unsigned_error(s@, max as int) == Some(res),
{
    if s.len() == 0 {
        return IntErrorKind::Empty;
    }
    let from: usize = if s[0] == '+' {
        1
    } else {
        0
    };
    let ghost body = if s@[0] == '+' {
        s@.drop_first()
    } else {
        s@
    };
    assert(body =~= s@.skip(from as int));
    if from == s.len() {
        return IntErrorKind::InvalidDigit;
    }
    let mut acc: u64 = 0;
    let mut i = from;
    assert(body.take(0) =~= Seq::<char>::empty());
    assert(unsigned_error(s@, max as int) == scan_error(body, max as int, 0, 0));
    while i < s.len()
        invariant
            unsigned_error(s@, max as int) == scan_error(body, max as int, 0, 0),
            from <= i <= s.len(),
            from < s.len(),
            body == s@.skip(from as int),
            parse_unsigned(s@, max as int) is None,
            body.len() > 0,
            all_digits(body.take(i - from)),
            acc == digits_value(body.take(i - from)),
            acc <= max,
            scan_error(body, max as int, 0, 0) == scan_error(body, max as int, i - from, acc as int),
        decreases s.len() - i,
    {
        let c = s[i];
        assert(body[i - from] == c);
        if c < '0' || c > '9' {
            assert(scan_error(body, max as int, i - from, acc as int) == Some(IntErrorKind::InvalidDigit));
            return IntErrorKind::InvalidDigit;
        }
        let d = (c as u32 - '0' as u32) as u64;
        if d > max || acc > (max - d) / 10 {
            assert(acc * 10 + d > max) by (nonlinear_arith)
                requires
                    d > max || acc > (max - d) / 10,
                    acc >= 0,
                    d >= 0,
                    d <= 9,
            {
            }
            return IntErrorKind::PosOverflow;
        }
        assert(acc * 10 + d <= max) by (nonlinear_arith)
            requires
                acc <= (max - d) / 10,
                d <= max,
                acc >= 0,
        {
        }
        let ghost next = body.take(i + 1 - from);
        assert(next.drop_last() =~= body.take(i - from));
        assert(next.last() == c);
        assert(all_digits(next)) by {
            assert forall|j: int| 0 <= j < next.len() implies is_digit(#[trigger] next[j]) by {
                if j < i - from {
                    assert(next[j] == body.take(i - from)[j]);
                }
            }
        }
        acc = acc * 10 + d;
        i += 1;
    }
    assert(body.take(i - from) =~= body);
    assert(false);
    IntErrorKind::InvalidDigit
}

/// The words of `s` when `cur` holds the start of the current word:
/// maximal runs of non-whitespace (`str::split_whitespace`).
pub open spec fn words_from(s: Seq<char>, cur: Seq<char>) -> Seq<Seq<char>>
    decreases s.len(),
{
    if s.len() == 0 {
        if cur.len() == 0 {
            seq![]
        } else {
            seq![cur]
        }
    } else if is_ws(s[0]) {
        (if cur.len() == 0 {
            seq![]
        } else {
            seq![cur]
        }) + words_from(s.drop_first(), seq![])
    } else {
        words_from(s.drop_first(), cur.push(s[0]))
    }
}

/// `str::split_whitespace`.
pub open spec fn words(s: Seq<char>) -> Seq<Seq<char>> {
    words_from(s, seq![])
}

/// `str::split_whitespace` on character slices.
pub fn words_exec(s: &[char]) -> (res: Vec<Vec<char>>)
    ensures
        res.deep_view() == words(s@),
{
    let mut out: Vec<Vec<char>> = Vec::new();
    let mut cur: Vec<char> = Vec::new();
    let mut i: usize = 0;
    assert(s@.skip(0) =~= s@);
    assert(out.deep_view() =~= Seq::<Seq<char>>::empty());
    assert(cur@ =~= Seq::<char>::empty());
    while i < s.len()
        invariant
            i <= s.len(),
            out.deep_view() + words_from(s@.skip(i as int), cur@) == words(s@),
        decreases s.len() - i,
    {
        let c = s[i];
        assert(s@.skip(i as int)[0] == c);
        assert(s@.skip(i as int).drop_first() =~= s@.skip(i + 1));
        if is_whitespace(c) {
            if cur.len() > 0 {
                let ghost before = out;
                let word = cur;
                out.push(word);
                proof {
                    lemma_push_deep_view(before, word, out);
                    assert(before.deep_view() + (seq![word@] + words_from(
                        s@.skip(i + 1),
                        seq![],
                    )) =~= out.deep_view() + words_from(s@.skip(i + 1), seq![]));
                }
                cur = Vec::new();
            } else {
                assert(out.deep_view() + (Seq::<Seq<char>>::empty() + words_from(
                    s@.skip(i + 1),
                    seq![],
                )) =~= out.deep_view() + words_from(s@.skip(i + 1), seq![]));
                cur = Vec::new();
            }
            assert(cur@ =~= Seq::<char>::empty());
        } else {
            cur.push(c);
        }
        i += 1;
    }
    if cur.len() > 0 {
        let ghost before = out;
        let word = cur;
        out.push(word);
        proof {
            lemma_push_deep_view(before, word, out);
            assert(before.deep_view() + seq![word@] =~= out.deep_view());
        }
    } else {
        assert(out.deep_view() + Seq::<Seq<char>>::empty() =~= out.deep_view());
    }
    out
}

} // verus!
