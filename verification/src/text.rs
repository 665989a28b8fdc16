//! Scanning of response text: key=value trace documents and trimming.

use vstd::prelude::*;
use vstd::std_specs::iter::IteratorSpec;

verus! {

/// The index of the first line feed of `s` at or after `from`, or the length
/// of `s` where there is none.
pub open spec fn line_end(s: Seq<char>, from: int) -> int
    decreases s.len() - from,
{
    if from >= s.len() {
        s.len() as int
    } else if s[from] == '\n' {
        from
    } else {
        line_end(s, from + 1)
    }
}

/// The line of `s` that starts at `from`: the text up to the next line feed,
/// without the carriage return of a CR LF terminator. A carriage return that
/// ends the document is kept.
pub open spec fn line_at(s: Seq<char>, from: int) -> Seq<char> {
    let end = line_end(s, from);
    if end < s.len() && from < end && s[end - 1] == '\r' {
        s.subrange(from, end - 1)
    } else {
        s.subrange(from, end)
    }
}

/// Whether `line` has the key `ip`: it starts with `ip=`.
pub open spec fn is_ip_line(line: Seq<char>) -> bool {
    line.len() >= 3 && line[0] == 'i' && line[1] == 'p' && line[2] == '='
}

/// The value of the first line with key `ip` among the lines of `s` that
/// start at or after `from`.
pub open spec fn trace_ip_from(s: Seq<char>, from: int) -> Option<Seq<char>>
    decreases s.len() - from,
{
    if from < 0 || from >= s.len() {
        None
    } else if is_ip_line(line_at(s, from)) {
        Some(line_at(s, from).skip(3))
    } else if from <= line_end(s, from) < s.len() {
        trace_ip_from(s, line_end(s, from) + 1)
    } else {
        None
    }
}

/// The value of the first line of the trace document `s` whose key is
/// exactly `ip`, if it has such a line.
pub open spec fn trace_ip(s: Seq<char>) -> Option<Seq<char>> {
    trace_ip_from(s, 0)
}

/// `line_end` lies between `from` and the end, on a line feed or at the end,
/// and no line feed stands before it.
pub proof fn lemma_line_end(s: Seq<char>, from: int)
    requires
        0 <= from <= s.len(),
    ensures
        from <= line_end(s, from) <= s.len(),
        line_end(s, from) < s.len() ==> s[line_end(s, from)] == '\n',
        forall|i: int| from <= i < line_end(s, from) ==> s[i] != '\n',
    decreases s.len() - from,
{
    if from < s.len() && s[from] != '\n' {
        lemma_line_end(s, from + 1);
    }
}

/// A position at or after `from` that stands on a line feed or at the end,
/// with no line feed between `from` and it, is the end of the line.
pub proof fn lemma_line_end_is(s: Seq<char>, from: int, end: int)
    requires
        0 <= from <= end <= s.len(),
        forall|i: int| from <= i < end ==> s[i] != '\n',
        end < s.len() ==> s[end] == '\n',
    ensures
        line_end(s, from) == end,
    decreases end - from,
{
    if from < end {
        lemma_line_end_is(s, from + 1, end);
    }
}

/// The line with key `ip` and value `x`.
pub open spec fn ip_line(x: Seq<char>) -> Seq<char> {
    seq!['i', 'p', '='] + x
}

/// A trace document gives the value of its `ip` line, whatever other lines
/// stand before and after it, in whatever order.
///
/// The document is `pre`, the line `ip=x` and `rest`, where `pre` is whole
/// lines none of which has the key `ip`, and `rest` is empty or begins with
/// the line feed that ends the line. The value holds no line feed, and where
/// a line feed follows it, it does not end in a carriage return (which
/// would belong to the terminator). The scan may begin at any line start
/// `from` of `pre`.
pub proof fn lemma_trace_ip_line(pre: Seq<char>, x: Seq<char>, rest: Seq<char>, from: int)
    requires
        0 <= from <= pre.len(),
        pre.len() == 0 || pre.last() == '\n',
        trace_ip_from(pre, from) is None,
        forall|i: int| 0 <= i < x.len() ==> x[i] != '\n',
        rest.len() == 0 || rest[0] == '\n',
        rest.len() > 0 && x.len() > 0 ==> x.last() != '\r',
    ensures
        trace_ip_from(pre + ip_line(x) + rest, from) == Some(x),
    decreases pre.len() - from,
{
    let doc = pre + ip_line(x) + rest;
    let line = ip_line(x);
    if from == pre.len() {
        let end = from + line.len();
        assert forall|i: int| from <= i < end implies doc[i] != '\n' by {
            assert(doc[i] == line[i - from]);
            if i - from >= 3 {
                assert(line[i - from] == x[i - from - 3]);
            }
        }
        if end < doc.len() {
            assert(doc[end] == rest[0]);
        }
        lemma_line_end_is(doc, from, end);
        assert(doc[end - 1] == line[line.len() - 1]);
        assert(doc.subrange(from, end) =~= line);
        assert(line_at(doc, from) == line);
        assert(line.skip(3) =~= x);
    } else {
        lemma_line_end(pre, from);
        let end = line_end(pre, from);
        assert(end < pre.len()) by {
            if end == pre.len() {
                assert(pre[pre.len() - 1] != '\n');
            }
        }
        assert forall|i: int| from <= i < end implies doc[i] != '\n' by {
            assert(doc[i] == pre[i]);
        }
        assert(doc[end] == pre[end]);
        lemma_line_end_is(doc, from, end);
        if from < end {
            assert(doc[end - 1] == pre[end - 1]);
            assert(doc.subrange(from, end - 1) =~= pre.subrange(from, end - 1));
        }
        assert(doc.subrange(from, end) =~= pre.subrange(from, end));
        assert(line_at(doc, from) == line_at(pre, from));
        lemma_trace_ip_line(pre, x, rest, end + 1);
    }
}

/// The characters of `s`, for access by index.
pub fn chars_of(s: &str) -> (v: Vec<char>)
    ensures
        v@ == s@,
{
    broadcast use vstd::string::group_string_axioms;

    let mut v: Vec<char> = Vec::new();
    let mut it = s.chars();
    loop
        invariant_except_break
            v@ + it.remaining() =~= s@,
            it.decrease() is Some,
        ensures
            v@ == s@,
        decreases it.decrease()->0,
    {
        match it.next() {
            Some(c) => {
                v.push(c);
            },
            None => {
                break ;
            },
        }
    }
    v
}

/// Finds the end of the line that starts at `from`.
fn find_line_end(chars: &Vec<char>, from: usize) -> (end: usize)
    requires
        from <= chars@.len(),
    ensures
        end == line_end(chars@, from as int),
        from <= end <= chars@.len(),
{
    let mut end: usize = from;
    while end < chars.len() && chars[end] != '\n'
        invariant
            from <= end <= chars@.len(),
            line_end(chars@, from as int) == line_end(chars@, end as int),
        decreases chars@.len() - end,
    {
        end = end + 1;
    }
    end
}

/// Extracts the address from a key=value trace document: the value of the
/// first line whose key is exactly `ip`.
pub fn find_trace_ip(body: &str) -> (r: Option<String>)
    ensures
        match r {
            Some(ip) => trace_ip(body@) == Some(ip@),
            None => trace_ip(body@) is None,
        },
{
    let chars: Vec<char> = chars_of(body);
    let n: usize = chars.len();
    let mut from: usize = 0;
    while from < n
        invariant
            chars@ == body@,
            n == body@.len(),
            from <= n,
            trace_ip(body@) == trace_ip_from(body@, from as int),
        decreases n - from,
    {
        let end: usize = find_line_end(&chars, from);
        let stop: usize = if end < n && from < end && chars[end - 1] == '\r' {
            end - 1
        } else {
            end
        };
        assert(line_at(body@, from as int) == body@.subrange(from as int, stop as int));
        if stop - from >= 3 && chars[from] == 'i' && chars[from + 1] == 'p' && chars[from + 2]
            == '=' {
            let ip = body.substring_char(from + 3, stop).to_owned();
            assert(ip@ == line_at(body@, from as int).skip(3));
            return Some(ip);
        }
        if end < n {
            from = end + 1;
        } else {
            from = n;
        }
    }
    None
}

/// Which characters a trim removes from both ends of a text.
#[derive(Clone, Copy, Debug, PartialEq, Eq, Structural)]
pub enum Trim {
    /// The double quote character.
    Quotes,
    /// The characters with the Unicode property White_Space.
    Whitespace,
}

/// Whether `c` has the Unicode property White_Space.
pub open spec fn is_whitespace(c: char) -> bool {
    let u = c as u32;
    0x09 <= u <= 0x0D || u == 0x20 || u == 0x85 || u == 0xA0 || u == 0x1680 || 0x2000 <= u
        <= 0x200A || u == 0x2028 || u == 0x2029 || u == 0x202F || u == 0x205F || u == 0x3000
}

impl Trim {
    /// Whether this trim removes `c`.
    pub open spec fn spec_removes(self, c: char) -> bool {
        match self {
            Trim::Quotes => c == '"',
            Trim::Whitespace => is_whitespace(c),
        }
    }

    /// Whether this trim removes `c`.
    #[verifier::when_used_as_spec(spec_removes)]
    pub fn removes(self, c: char) -> (b: bool)
        ensures
            b == self.spec_removes(c),
    {
        match self {
            Trim::Quotes => c == '"',
            Trim::Whitespace => {
                let u: u32 = c as u32;
                (0x09 <= u && u <= 0x0D) || u == 0x20 || u == 0x85 || u == 0xA0 || u == 0x1680 || (
                0x2000 <= u && u <= 0x200A) || u == 0x2028 || u == 0x2029 || u == 0x202F || u
                    == 0x205F || u == 0x3000
            },
        }
    }
}

/// `s` without its longest prefix of characters that `kind` removes.
pub open spec fn skip_leading(s: Seq<char>, kind: Trim) -> Seq<char>
    decreases s.len(),
{
    if s.len() > 0 && kind.spec_removes(s[0]) {
        skip_leading(s.skip(1), kind)
    } else {
        s
    }
}

/// `s` without its longest suffix of characters that `kind` removes.
pub open spec fn drop_trailing(s: Seq<char>, kind: Trim) -> Seq<char>
    decreases s.len(),
{
    if s.len() > 0 && kind.spec_removes(s.last()) {
        drop_trailing(s.drop_last(), kind)
    } else {
        s
    }
}

/// `s` with the characters that `kind` removes taken off both ends.
pub open spec fn trimmed(s: Seq<char>, kind: Trim) -> Seq<char> {
    drop_trailing(skip_leading(s, kind), kind)
}

/// Takes the characters that `kind` removes off both ends of `s`.
pub fn trim(s: &str, kind: Trim) -> (r: String)
    ensures
        r@ == trimmed(s@, kind),
{
    let chars: Vec<char> = chars_of(s);
    let n: usize = chars.len();
    let mut lo: usize = 0;
    assert(s@.subrange(0, n as int) == s@);
    while lo < n && kind.removes(chars[lo])
        invariant
            chars@ == s@,
            n == s@.len(),
            lo <= n,
            skip_leading(s@, kind) == skip_leading(s@.subrange(lo as int, n as int), kind),
        decreases n - lo,
    {
        assert(s@.subrange(lo as int, n as int).skip(1) == s@.subrange(lo + 1, n as int));
        lo = lo + 1;
    }
    let mut hi: usize = n;
    while lo < hi && kind.removes(chars[hi - 1])
        invariant
            chars@ == s@,
            n == s@.len(),
            lo <= hi <= n,
            trimmed(s@, kind) == drop_trailing(s@.subrange(lo as int, hi as int), kind),
        decreases hi - lo,
    {
        assert(s@.subrange(lo as int, hi as int).drop_last() == s@.subrange(lo as int, hi - 1));
        hi = hi - 1;
    }
    s.substring_char(lo, hi).to_owned()
}

} // verus!
