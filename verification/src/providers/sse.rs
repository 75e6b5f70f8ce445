//! Server-sent-event framing of provider streams: bytes arrive in arbitrary
//! pieces, are decoded and buffered, and complete events or lines are cut
//! off the buffer and reduced to their `data: ` payloads.
use vstd::prelude::*;
use crate::text::{split_once_spec, split_once_char, strip_prefix_spec, strip_suffix_spec, strip_prefix_str, strip_suffix_str, str_eq};

verus! {

/// The text that `String::from_utf8_lossy` makes of `bytes`.
pub uninterp spec fn utf8_lossy_text(bytes: Seq<u8>) -> Seq<char>;

/// Whether `c` has the Unicode `White_Space` property, as
/// `char::is_whitespace` documents it: the 25 code points U+0009..U+000D,
/// U+0020, U+0085, U+00A0, U+1680, U+2000..U+200A, U+2028, U+2029, U+202F,
/// U+205F and U+3000.
pub open spec fn unicode_white_space(c: char) -> bool {
    let n = c as u32;
    ||| 0x09 <= n <= 0x0d
    ||| n == 0x20
    ||| n == 0x85
    ||| n == 0xa0
    ||| n == 0x1680
    ||| 0x2000 <= n <= 0x200a
    ||| n == 0x2028
    ||| n == 0x2029
    ||| n == 0x202f
    ||| n == 0x205f
    ||| n == 0x3000
}

/// Calls `String::from_utf8_lossy` and takes the owned text: invalid UTF-8
/// becomes replacement characters. The result is a function of the bytes.
#[verifier::external_body]
pub fn decode_utf8_lossy(bytes: &[u8]) -> (r: String)
    ensures
        r@ == utf8_lossy_text(bytes@),
{
    String::from_utf8_lossy(bytes).into_owned()
}

/// Whether `c` is white space, as `char::is_whitespace` decides it.
fn char_is_whitespace(c: char) -> (r: bool)
    ensures
        r == unicode_white_space(c),
{
    let n = c as u32;
    (0x09 <= n && n <= 0x0d) || n == 0x20 || n == 0x85 || n == 0xa0 || n == 0x1680 || (0x2000 <= n && n <= 0x200a)
        || n == 0x2028 || n == 0x2029 || n == 0x202f || n == 0x205f || n == 0x3000
}

/// The index of the first occurrence of `p` in `s`.
pub open spec fn find_first(s: Seq<char>, p: Seq<char>) -> Option<int>
    decreases s.len(),
{
    if p.is_prefix_of(s) {
        Some(0)
    } else if s.len() == 0 {
        None
    } else {
        match find_first(s.drop_first(), p) {
            Some(i) => Some(i + 1),
            None => None,
        }
    }
}

/// Calls `str::split_once` with a string pattern: the text before and after
/// the first occurrence of `p`.
#[verifier::external_body]
pub fn split_once_str<'a>(s: &'a str, p: &str) -> (r: Option<(&'a str, &'a str)>)
    ensures
        match r {
            Some((a, b)) => find_first(s@, p@) == Some(a@.len() as int) && s@ == a@ + p@ + b@,
            None => find_first(s@, p@) is None,
        },
{
    s.split_once(p)
}

/// The blank line that ends an event.
pub open spec fn event_separator() -> Seq<char> {
    seq!['\n', '\n']
}

/// The prefix of a payload line.
pub open spec fn data_prefix() -> Seq<char> {
    seq!['d', 'a', 't', 'a', ':', ' ']
}

/// The payload that marks the end of an OpenAI stream.
pub open spec fn done_marker() -> Seq<char> {
    seq!['[', 'D', 'O', 'N', 'E', ']']
}

/// The complete events at the front of `buf` (each ended by a blank line),
/// and what is left after them.
pub open spec fn sse_events(buf: Seq<char>) -> (Seq<Seq<char>>, Seq<char>)
    decreases buf.len(),
{
    match find_first(buf, event_separator()) {
        Some(i) => if 0 <= i && i + 2 <= buf.len() {
            let (evs, rest) = sse_events(buf.skip(i + 2));
            (seq![buf.take(i)] + evs, rest)
        } else {
            (seq![], buf)
        },
        None => (seq![], buf),
    }
}

/// `a` without one trailing carriage return.
pub open spec fn strip_cr(a: Seq<char>) -> Seq<char> {
    if a.len() > 0 && a.last() == '\r' {
        a.drop_last()
    } else {
        a
    }
}

/// The lines of `s` as `str::lines` gives them: split at each `\n`, a `\r`
/// before it dropped, and no empty last line after a final `\n`.
pub open spec fn lines_spec(s: Seq<char>) -> Seq<Seq<char>>
    decreases s.len(),
{
    if s.len() == 0 {
        seq![]
    } else {
        match split_once_spec(s, '\n') {
            Some((a, b)) => if b.len() < s.len() {
                seq![strip_cr(a)] + lines_spec(b)
            } else {
                seq![]
            },
            None => seq![s],
        }
    }
}

/// The payloads of the `data: ` lines among `lines`, in order.
pub open spec fn data_lines(lines: Seq<Seq<char>>) -> Seq<Seq<char>>
    decreases lines.len(),
{
    if lines.len() == 0 {
        seq![]
    } else {
        let rest = data_lines(lines.drop_last());
        match strip_prefix_spec(lines.last(), data_prefix()) {
            Some(d) => rest.push(d),
            None => rest,
        }
    }
}

/// The payloads of a sequence of events, event after event.
pub open spec fn events_payloads(evs: Seq<Seq<char>>) -> Seq<Seq<char>>
    decreases evs.len(),
{
    if evs.len() == 0 {
        seq![]
    } else {
        events_payloads(evs.drop_last()) + data_lines(lines_spec(evs.last()))
    }
}

/// `s` without leading white space.
pub open spec fn trim_start_spec(s: Seq<char>) -> Seq<char>
    decreases s.len(),
{
    if s.len() > 0 && unicode_white_space(s[0]) {
        trim_start_spec(s.drop_first())
    } else {
        s
    }
}

/// `s` without trailing white space.
pub open spec fn trim_end_spec(s: Seq<char>) -> Seq<char>
    decreases s.len(),
{
    if s.len() > 0 && unicode_white_space(s.last()) {
        trim_end_spec(s.drop_last())
    } else {
        s
    }
}

/// `s` without leading or trailing white space, as `str::trim` gives it.
pub open spec fn trim_spec(s: Seq<char>) -> Seq<char> {
    trim_end_spec(trim_start_spec(s))
}

/// The complete lines at the front of `buf` (each ended by `\n`, which is
/// dropped), and what is left after them.
pub open spec fn stream_lines(buf: Seq<char>) -> (Seq<Seq<char>>, Seq<char>)
    decreases buf.len(),
{
    match split_once_spec(buf, '\n') {
        Some((a, b)) => if b.len() < buf.len() {
            let (ls, rest) = stream_lines(b);
            (seq![a] + ls, rest)
        } else {
            (seq![], buf)
        },
        None => (seq![], buf),
    }
}

/// The payload an OpenAI stream line carries, if any: the line is trimmed,
/// must start with `data: `, and the rest must be neither blank nor the
/// `[DONE]` marker.
pub open spec fn openai_payload(line: Seq<char>) -> Option<Seq<char>> {
    let t = trim_spec(line);
    match strip_prefix_spec(t, data_prefix()) {
        Some(d) => if trim_spec(d) == done_marker() || trim_spec(d).len() == 0 {
            None
        } else {
            Some(d)
        },
        None => None,
    }
}

/// The payloads of a sequence of OpenAI stream lines, in order.
pub open spec fn openai_payloads(lines: Seq<Seq<char>>) -> Seq<Seq<char>>
    decreases lines.len(),
{
    if lines.len() == 0 {
        seq![]
    } else {
        let rest = openai_payloads(lines.drop_last());
        match openai_payload(lines.last()) {
            Some(d) => rest.push(d),
            None => rest,
        }
    }
}

proof fn lemma_split_once_parts(s: Seq<char>, c: char)
    ensures
        split_once_spec(s, c) matches Some((a, b)) ==> s == a + seq![c] + b,
    decreases s.len(),
{
    if s.len() > 0 && s[0] != c {
        lemma_split_once_parts(s.drop_first(), c);
        if let Some((a, b)) = split_once_spec(s.drop_first(), c) {
            assert(s =~= seq![s[0]] + (a + seq![c] + b));
            assert(seq![s[0]] + (a + seq![c] + b) =~= (seq![s[0]] + a) + seq![c] + b);
        }
    } else if s.len() > 0 {
        assert(s =~= seq![] + seq![c] + s.drop_first());
    }
}

/// `s` without leading or trailing white space.
pub fn trim_str(s: &str) -> (r: &str)
    ensures
        r@ == trim_spec(s@),
{
    let n = s.unicode_len();
    let mut start: usize = 0;
    assert(s@.skip(0) =~= s@);
    while start < n && char_is_whitespace(s.get_char(start))
        invariant
            n == s@.len(),
            start <= n,
            trim_start_spec(s@) == trim_start_spec(s@.skip(start as int)),
        decreases n - start,
    {
        assert(s@.skip(start as int).drop_first() =~= s@.skip(start + 1));
        start = start + 1;
    }
    assert(trim_start_spec(s@) == s@.skip(start as int)) by {
        if start == n {
            assert(s@.skip(start as int).len() == 0);
        } else {
            assert(s@.skip(start as int)[0] == s@[start as int]);
        }
    }
    let mut end: usize = n;
    while end > start && char_is_whitespace(s.get_char(end - 1))
        invariant
            n == s@.len(),
            start <= end <= n,
            trim_end_spec(s@.subrange(start as int, n as int)) == trim_end_spec(s@.subrange(start as int, end as int)),
        decreases end,
    {
        assert(s@.subrange(start as int, end as int).drop_last() =~= s@.subrange(start as int, end - 1));
        end = end - 1;
    }
    assert(trim_end_spec(s@.subrange(start as int, end as int)) == s@.subrange(start as int, end as int)) by {
        if end > start {
            assert(s@.subrange(start as int, end as int).last() == s@[end - 1]);
        }
    }
    assert(s@.skip(start as int) =~= s@.subrange(start as int, n as int));
    s.substring_char(start, end)
}

proof fn lemma_strip_cr(a: Seq<char>)
    ensures
        match strip_suffix_spec(a, seq!['\r']) {
            Some(x) => x == strip_cr(a),
            None => a == strip_cr(a),
        },
{
    if a.len() > 0 && a.last() == '\r' {
        assert(seq!['\r'] =~= a.subrange(a.len() - 1, a.len() as int));
        assert(a.take(a.len() - 1) =~= a.drop_last());
    } else if seq!['\r'].is_suffix_of(a) {
        assert(a.subrange(a.len() - 1, a.len() as int)[0] == a.last());
    }
}

/// `a` without one trailing carriage return.
fn strip_cr_str(a: &str) -> (r: String)
    ensures
        r@ == strip_cr(a@),
{
    proof {
        reveal_strlit("\r");
        assert("\r"@ =~= seq!['\r']);
        lemma_strip_cr(a@);
    }
    match strip_suffix_str(a, "\r") {
        Some(x) => String::from_str(x),
        None => String::from_str(a),
    }
}

/// The lines of `s`, as `str::lines` gives them.
pub fn split_lines(s: &str) -> (r: Vec<String>)
    ensures
        r.deep_view() == lines_spec(s@),
{
    let mut out: Vec<String> = Vec::new();
    let mut cur = String::from_str(s);
    let mut done = false;
    while !done
        invariant
            done ==> lines_spec(s@) == out.deep_view(),
            !done ==> lines_spec(s@) == out.deep_view() + lines_spec(cur@),
        decreases (if done { 0 } else { cur@.len() + 1 }),
    {
        if cur.as_str().is_empty() {
            assert(out.deep_view() + lines_spec(cur@) =~= out.deep_view());
            done = true;
        } else {
            let ghost c0 = cur@;
            let ghost o0 = out.deep_view();
            match split_once_char(cur.as_str(), '\n') {
                Some((a, b)) => {
                    proof {
                        lemma_split_once_parts(c0, '\n');
                    }
                    let line = strip_cr_str(a);
                    let next = String::from_str(b);
                    out.push(line);
                    proof {
                        assert(lines_spec(c0) == seq![strip_cr(a@)] + lines_spec(b@));
                        assert(out.deep_view() =~= o0.push(strip_cr(a@)));
                        assert(o0 + lines_spec(c0) =~= out.deep_view() + lines_spec(b@));
                    }
                    cur = next;
                },
                None => {
                    let whole = cur.clone();
                    out.push(whole);
                    proof {
                        assert(lines_spec(c0) == seq![c0]);
                        assert(out.deep_view() =~= o0 + seq![c0]);
                    }
                    done = true;
                },
            }
        }
    }
    out
}

/// Appends the payloads of the `data: ` lines of `lines` to `out`.
fn push_data_lines(out: &mut Vec<String>, lines: Vec<String>)
    ensures
        final(out).deep_view() == old(out).deep_view() + data_lines(lines.deep_view()),
{
    proof {
        reveal_strlit("data: ");
    }
    let ghost lv = lines.deep_view();
    let ghost base = out.deep_view();
    let mut i: usize = 0;
    while i < lines.len()
        invariant
            lv == lines.deep_view(),
            i <= lines.len(),
            out.deep_view() == base + data_lines(lv.take(i as int)),
            "data: "@ == data_prefix(),
        decreases lines.len() - i,
    {
        proof {
            assert(lv.take(i + 1).drop_last() =~= lv.take(i as int));
            assert(lv.take(i + 1).last() == lv[i as int]);
        }
        let ghost o0 = out.deep_view();
        match strip_prefix_str(lines[i].as_str(), "data: ") {
            Some(d) => {
                out.push(String::from_str(d));
                assert(out.deep_view() =~= o0.push(d@));
                assert(base + data_lines(lv.take(i + 1)) =~= (base + data_lines(lv.take(i as int))).push(d@));
            },
            None => {},
        }
        i = i + 1;
    }
    proof {
        assert(lv.take(lv.len() as int) =~= lv);
    }
}

/// Buffers an Anthropic event stream and cuts complete events off it.
pub struct AnthropicSseDecoder {
    pub buffer: String,
}

impl AnthropicSseDecoder {
    /// A decoder with an empty buffer.
    pub fn new() -> (r: Self)
        ensures
            r.buffer@.len() == 0,
    {
        AnthropicSseDecoder { buffer: String::new() }
    }

    /// Appends `text` to the buffer, removes the complete events from its
    /// front, and returns the payloads of their `data: ` lines in order.
    pub fn push_text(&mut self, text: &str) -> (r: Vec<String>)
        ensures
            final(self).buffer@ == sse_events(old(self).buffer@ + text@).1,
            r.deep_view() == events_payloads(sse_events(old(self).buffer@ + text@).0),
    {
        proof {
            reveal_strlit("\n\n");
        }
        self.buffer.append(text);
        let ghost all = self.buffer@;
        let ghost mut done_evs: Seq<Seq<char>> = seq![];
        let mut out: Vec<String> = Vec::new();
        let mut more = true;
        while more
            invariant
                sse_events(all).0 == done_evs + sse_events(self.buffer@).0,
                sse_events(all).1 == sse_events(self.buffer@).1,
                out.deep_view() == events_payloads(done_evs),
                !more ==> sse_events(self.buffer@).0.len() == 0 && sse_events(self.buffer@).1 == self.buffer@,
                "\n\n"@ == event_separator(),
            decreases (if more { self.buffer@.len() + 1 } else { 0 }),
        {
            let cur = self.buffer.clone();
            match split_once_str(cur.as_str(), "\n\n") {
                Some((ev, rest)) => {
                    let ghost c = cur@;
                    proof {
                        let i = ev@.len() as int;
                        assert(c.take(i) =~= ev@);
                        assert(c.skip(i + 2) =~= rest@);
                        assert(sse_events(c).0 == seq![ev@] + sse_events(rest@).0);
                    }
                    let lines = split_lines(ev);
                    push_data_lines(&mut out, lines);
                    proof {
                        let d1 = done_evs.push(ev@);
                        assert(d1.drop_last() =~= done_evs);
                        assert(done_evs + (seq![ev@] + sse_events(rest@).0) =~= d1 + sse_events(rest@).0);
                        done_evs = d1;
                    }
                    self.buffer = String::from_str(rest);
                },
                None => {
                    more = false;
                },
            }
        }
        assert(done_evs + seq![] =~= done_evs);
        out
    }
}

/// Buffers an OpenAI event stream and cuts complete lines off it.
pub struct OpenAiSseDecoder {
    pub buffer: String,
}

/// The payload a line carries, if any.
fn line_payload(line: &str) -> (r: Option<String>)
    ensures
        r.deep_view() == openai_payload(line@),
{
    proof {
        reveal_strlit("data: ");
        reveal_strlit("[DONE]");
        assert("data: "@ =~= data_prefix());
        assert("[DONE]"@ =~= done_marker());
    }
    let t = trim_str(line);
    match strip_prefix_str(t, "data: ") {
        Some(d) => {
            let dt = trim_str(d);
            if str_eq(dt, "[DONE]") || dt.is_empty() {
                None
            } else {
                Some(String::from_str(d))
            }
        },
        None => None,
    }
}

/// Appends the payloads of `lines` to `out`.
fn push_openai_payloads(out: &mut Vec<String>, lines: &Vec<String>)
    ensures
        final(out).deep_view() == old(out).deep_view() + openai_payloads(lines.deep_view()),
{
    let ghost lv = lines.deep_view();
    let ghost base = out.deep_view();
    let mut i: usize = 0;
    while i < lines.len()
        invariant
            lv == lines.deep_view(),
            i <= lines.len(),
            out.deep_view() == base + openai_payloads(lv.take(i as int)),
        decreases lines.len() - i,
    {
        proof {
            assert(lv.take(i + 1).drop_last() =~= lv.take(i as int));
            assert(lv.take(i + 1).last() == lv[i as int]);
        }
        let ghost o0 = out.deep_view();
        match line_payload(lines[i].as_str()) {
            Some(d) => {
                let ghost dv = d@;
                out.push(d);
                assert(out.deep_view() =~= o0.push(dv));
                assert(base + openai_payloads(lv.take(i + 1)) =~= (base + openai_payloads(lv.take(i as int))).push(dv));
            },
            None => {},
        }
        i = i + 1;
    }
    proof {
        assert(lv.take(lv.len() as int) =~= lv);
    }
}

impl OpenAiSseDecoder {
    /// A decoder with an empty buffer.
    pub fn new() -> (r: Self)
        ensures
            r.buffer@.len() == 0,
    {
        OpenAiSseDecoder { buffer: String::new() }
    }

    /// Appends `text` to the buffer, removes the complete lines from its
    /// front, and returns the payloads they carry in order.
    pub fn push_text(&mut self, text: &str) -> (r: Vec<String>)
        ensures
            final(self).buffer@ == stream_lines(old(self).buffer@ + text@).1,
            r.deep_view() == openai_payloads(stream_lines(old(self).buffer@ + text@).0),
    {
        self.buffer.append(text);
        let ghost all = self.buffer@;
        let mut lines: Vec<String> = Vec::new();
        let mut more = true;
        while more
            invariant
                stream_lines(all).0 == lines.deep_view() + stream_lines(self.buffer@).0,
                stream_lines(all).1 == stream_lines(self.buffer@).1,
                !more ==> stream_lines(self.buffer@).0.len() == 0 && stream_lines(self.buffer@).1 == self.buffer@,
            decreases (if more { self.buffer@.len() + 1 } else { 0 }),
        {
            let cur = self.buffer.clone();
            match split_once_char(cur.as_str(), '\n') {
                Some((a, b)) => {
                    let ghost c = cur@;
                    let ghost l0 = lines.deep_view();
                    proof {
                        lemma_split_once_parts(c, '\n');
                        assert(stream_lines(c).0 == seq![a@] + stream_lines(b@).0);
                    }
                    lines.push(String::from_str(a));
                    proof {
                        assert(lines.deep_view() =~= l0.push(a@));
                        assert(l0 + (seq![a@] + stream_lines(b@).0) =~= lines.deep_view() + stream_lines(b@).0);
                    }
                    self.buffer = String::from_str(b);
                },
                None => {
                    more = false;
                },
            }
        }
        assert(lines.deep_view() + seq![] =~= lines.deep_view());
        let mut out: Vec<String> = Vec::new();
        push_openai_payloads(&mut out, &lines);
        assert(seq![] + openai_payloads(lines.deep_view()) =~= openai_payloads(lines.deep_view()));
        out
    }

    /// The payloads left in the buffer when the stream ends: those of each
    /// of its lines.
    pub fn finish(&self) -> (r: Vec<String>)
        ensures
            r.deep_view() == openai_payloads(lines_spec(self.buffer@)),
    {
        let lines = split_lines(self.buffer.as_str());
        let mut out: Vec<String> = Vec::new();
        push_openai_payloads(&mut out, &lines);
        assert(seq![] + openai_payloads(lines.deep_view()) =~= openai_payloads(lines.deep_view()));
        out
    }
}

proof fn lemma_find_first_found(s: Seq<char>, p: Seq<char>)
    ensures
        find_first(s, p) matches Some(i) ==> 0 <= i && i + p.len() <= s.len() && s.subrange(i, i + p.len()) == p,
    decreases s.len(),
{
    if !p.is_prefix_of(s) && s.len() > 0 {
        lemma_find_first_found(s.drop_first(), p);
        if let Some(j) = find_first(s.drop_first(), p) {
            assert(s.subrange(j + 1, j + 1 + p.len()) =~= s.drop_first().subrange(j, j + p.len()));
        }
    }
}

proof fn lemma_find_first_extend(x: Seq<char>, y: Seq<char>, p: Seq<char>)
    requires
        find_first(x, p) is Some,
    ensures
        find_first(x + y, p) == find_first(x, p),
    decreases x.len(),
{
    lemma_find_first_found(x, p);
    if p.is_prefix_of(x) {
        assert(p =~= (x + y).subrange(0, p.len() as int));
    } else {
        assert(x.len() > 0);
        let i = find_first(x, p)->0;
        assert(p.len() < x.len());
        if p.is_prefix_of(x + y) {
            assert(p =~= x.subrange(0, p.len() as int)) by {
                assert forall|k: int| 0 <= k < p.len() implies p[k] == x[k] by {
                    assert(p[k] == (x + y).subrange(0, p.len() as int)[k]);
                }
            }
        }
        assert((x + y).drop_first() =~= x.drop_first() + y);
        lemma_find_first_extend(x.drop_first(), y, p);
    }
}

proof fn lemma_split_once_extend(x: Seq<char>, y: Seq<char>, c: char)
    requires
        split_once_spec(x, c) is Some,
    ensures
        split_once_spec(x + y, c) matches Some((a, b)) && split_once_spec(x, c) matches Some((a2, b2))
            && a == a2 && b == b2 + y,
    decreases x.len(),
{
    assert((x + y)[0] == x[0]);
    if x[0] == c {
        assert((x + y).drop_first() =~= x.drop_first() + y);
    } else {
        assert((x + y).drop_first() =~= x.drop_first() + y);
        lemma_split_once_extend(x.drop_first(), y, c);
    }
}

proof fn lemma_sse_events_append(x: Seq<char>, y: Seq<char>)
    ensures
        sse_events(x + y) == (sse_events(x).0 + sse_events(sse_events(x).1 + y).0, sse_events(sse_events(x).1 + y).1),
    decreases x.len(),
{
    lemma_find_first_found(x, event_separator());
    match find_first(x, event_separator()) {
        Some(i) => {
            lemma_find_first_extend(x, y, event_separator());
            let xs = x.skip(i + 2);
            assert((x + y).take(i) =~= x.take(i));
            assert((x + y).skip(i + 2) =~= xs + y);
            lemma_sse_events_append(xs, y);
            assert(seq![x.take(i)] + (sse_events(xs).0 + sse_events(sse_events(xs).1 + y).0)
                =~= (seq![x.take(i)] + sse_events(xs).0) + sse_events(sse_events(xs).1 + y).0);
        },
        None => {
            assert(seq![] + sse_events(x + y).0 =~= sse_events(x + y).0);
        },
    }
}

proof fn lemma_stream_lines_append(x: Seq<char>, y: Seq<char>)
    ensures
        stream_lines(x + y) == (stream_lines(x).0 + stream_lines(stream_lines(x).1 + y).0, stream_lines(stream_lines(x).1 + y).1),
    decreases x.len(),
{
    lemma_split_once_parts(x, '\n');
    match split_once_spec(x, '\n') {
        Some((a, b)) => {
            lemma_split_once_extend(x, y, '\n');
            lemma_split_once_parts(x + y, '\n');
            lemma_stream_lines_append(b, y);
            assert(seq![a] + (stream_lines(b).0 + stream_lines(stream_lines(b).1 + y).0)
                =~= (seq![a] + stream_lines(b).0) + stream_lines(stream_lines(b).1 + y).0);
        },
        None => {
            assert(seq![] + stream_lines(x + y).0 =~= stream_lines(x + y).0);
        },
    }
}

proof fn lemma_events_payloads_concat(a: Seq<Seq<char>>, b: Seq<Seq<char>>)
    ensures
        events_payloads(a + b) == events_payloads(a) + events_payloads(b),
    decreases b.len(),
{
    if b.len() == 0 {
        assert(a + b =~= a);
        assert(events_payloads(a) + seq![] =~= events_payloads(a));
    } else {
        assert((a + b).drop_last() =~= a + b.drop_last());
        assert((a + b).last() == b.last());
        lemma_events_payloads_concat(a, b.drop_last());
        assert(events_payloads(a) + events_payloads(b.drop_last()) + data_lines(lines_spec(b.last()))
            =~= events_payloads(a) + (events_payloads(b.drop_last()) + data_lines(lines_spec(b.last()))));
    }
}

proof fn lemma_openai_payloads_concat(a: Seq<Seq<char>>, b: Seq<Seq<char>>)
    ensures
        openai_payloads(a + b) == openai_payloads(a) + openai_payloads(b),
    decreases b.len(),
{
    if b.len() == 0 {
        assert(a + b =~= a);
        assert(openai_payloads(a) + seq![] =~= openai_payloads(a));
    } else {
        assert((a + b).drop_last() =~= a + b.drop_last());
        assert((a + b).last() == b.last());
        lemma_openai_payloads_concat(a, b.drop_last());
        match openai_payload(b.last()) {
            Some(d) => {
                assert((openai_payloads(a) + openai_payloads(b.drop_last())).push(d)
                    =~= openai_payloads(a) + openai_payloads(b.drop_last()).push(d));
            },
            None => {},
        }
    }
}

/// Feeding an Anthropic stream to the decoder in two pieces yields the same
/// payloads, in the same order, and leaves the same buffer, as feeding it in
/// one piece: where the transport cuts the text does not matter.
pub proof fn law_anthropic_framing_split(buf: Seq<char>, t1: Seq<char>, t2: Seq<char>)
    ensures
        ({
            let (e1, r1) = sse_events(buf + t1);
            let (e2, r2) = sse_events(r1 + t2);
            let (e, r) = sse_events(buf + (t1 + t2));
            &&& events_payloads(e1) + events_payloads(e2) == events_payloads(e)
            &&& r2 == r
        }),
{
    assert(buf + (t1 + t2) =~= (buf + t1) + t2);
    lemma_sse_events_append(buf + t1, t2);
    let (e1, r1) = sse_events(buf + t1);
    lemma_events_payloads_concat(e1, sse_events(r1 + t2).0);
}

/// Feeding an OpenAI stream to the decoder in two pieces yields the same
/// payloads, in the same order, and leaves the same buffer, as feeding it in
/// one piece.
pub proof fn law_openai_framing_split(buf: Seq<char>, t1: Seq<char>, t2: Seq<char>)
    ensures
        ({
            let (l1, r1) = stream_lines(buf + t1);
            let (l2, r2) = stream_lines(r1 + t2);
            let (l, r) = stream_lines(buf + (t1 + t2));
            &&& openai_payloads(l1) + openai_payloads(l2) == openai_payloads(l)
            &&& r2 == r
        }),
{
    assert(buf + (t1 + t2) =~= (buf + t1) + t2);
    lemma_stream_lines_append(buf + t1, t2);
    let (l1, r1) = stream_lines(buf + t1);
    lemma_openai_payloads_concat(l1, stream_lines(r1 + t2).0);
}

/// The pieces of a stream joined in order.
pub open spec fn join_pieces(pieces: Seq<Seq<char>>) -> Seq<char>
    decreases pieces.len(),
{
    if pieces.len() == 0 {
        seq![]
    } else {
        join_pieces(pieces.drop_last()) + pieces.last()
    }
}

/// The payloads an OpenAI decoder with buffer `buf` returns when fed
/// `pieces` in order, and the buffer it is left with.
pub open spec fn openai_feed(buf: Seq<char>, pieces: Seq<Seq<char>>) -> (Seq<Seq<char>>, Seq<char>)
    decreases pieces.len(),
{
    if pieces.len() == 0 {
        (seq![], buf)
    } else {
        let (p, b) = openai_feed(buf, pieces.drop_last());
        let (l, r) = stream_lines(b + pieces.last());
        (p + openai_payloads(l), r)
    }
}

/// The payloads an Anthropic decoder with buffer `buf` returns when fed
/// `pieces` in order, and the buffer it is left with.
pub open spec fn anthropic_feed(buf: Seq<char>, pieces: Seq<Seq<char>>) -> (Seq<Seq<char>>, Seq<char>)
    decreases pieces.len(),
{
    if pieces.len() == 0 {
        (seq![], buf)
    } else {
        let (p, b) = anthropic_feed(buf, pieces.drop_last());
        let (e, r) = sse_events(b + pieces.last());
        (p + events_payloads(e), r)
    }
}

/// Everything a whole OpenAI stream delivered in `pieces` yields: the
/// payloads returned while it is fed, then those `finish` returns.
pub open spec fn openai_stream_payloads(pieces: Seq<Seq<char>>) -> Seq<Seq<char>> {
    let (p, b) = openai_feed(seq![], pieces);
    p + openai_payloads(lines_spec(b))
}

/// Feeding an OpenAI decoder whose buffer holds no complete line (a fresh
/// one, or one left by earlier feeding) any number of pieces yields the
/// payloads, and leaves the buffer, of feeding it their concatenation at
/// once.
pub proof fn law_openai_feed_pieces(buf: Seq<char>, pieces: Seq<Seq<char>>)
    requires
        stream_lines(buf) == (Seq::<Seq<char>>::empty(), buf),
    ensures
        openai_feed(buf, pieces) == (
            openai_payloads(stream_lines(buf + join_pieces(pieces)).0),
            stream_lines(buf + join_pieces(pieces)).1,
        ),
    decreases pieces.len(),
{
    if pieces.len() == 0 {
        assert(buf + join_pieces(pieces) =~= buf);
    } else {
        let init = pieces.drop_last();
        law_openai_feed_pieces(buf, init);
        law_openai_framing_split(buf, join_pieces(init), pieces.last());
        assert(join_pieces(pieces) == join_pieces(init) + pieces.last());
    }
}

/// Feeding an Anthropic decoder whose buffer holds no complete event (a
/// fresh one, or one left by earlier feeding) any number of pieces yields
/// the payloads, and leaves the buffer, of feeding it their concatenation
/// at once.
pub proof fn law_anthropic_feed_pieces(buf: Seq<char>, pieces: Seq<Seq<char>>)
    requires
        sse_events(buf) == (Seq::<Seq<char>>::empty(), buf),
    ensures
        anthropic_feed(buf, pieces) == (
            events_payloads(sse_events(buf + join_pieces(pieces)).0),
            sse_events(buf + join_pieces(pieces)).1,
        ),
    decreases pieces.len(),
{
    if pieces.len() == 0 {
        assert(buf + join_pieces(pieces) =~= buf);
    } else {
        let init = pieces.drop_last();
        law_anthropic_feed_pieces(buf, init);
        law_anthropic_framing_split(buf, join_pieces(init), pieces.last());
        assert(join_pieces(pieces) == join_pieces(init) + pieces.last());
    }
}

/// What a whole OpenAI stream yields depends only on its text, not on how
/// the transport cut it into pieces.
pub proof fn law_openai_stream_split_invariant(p1: Seq<Seq<char>>, p2: Seq<Seq<char>>)
    requires
        join_pieces(p1) == join_pieces(p2),
    ensures
        openai_stream_payloads(p1) == openai_stream_payloads(p2),
{
    assert(split_once_spec(Seq::<char>::empty(), '\n') is None);
    assert(stream_lines(Seq::<char>::empty()) == (Seq::<Seq<char>>::empty(), Seq::<char>::empty()));
    law_openai_feed_pieces(seq![], p1);
    law_openai_feed_pieces(seq![], p2);
    assert(Seq::<char>::empty() + join_pieces(p1) =~= join_pieces(p1));
    assert(Seq::<char>::empty() + join_pieces(p2) =~= join_pieces(p2));
}

} // verus!
