//! String decisions of the instrumentation boundary: which request paths are
//! logged at all, and how the client address is derived from a forwarding
//! header.

use vstd::prelude::*;
use vstd::string::StrSliceExecFns;

verus! {

/// Whether `s` begins with `p`.
pub open spec fn starts_with_spec(s: Seq<char>, p: Seq<char>) -> bool {
    s.len() >= p.len() && s.subrange(0, p.len() as int) == p
}

/// Prefix test, character by character.
pub fn str_starts_with(s: &str, prefix: &str) -> (b: bool)
    ensures
        b == starts_with_spec(s@, prefix@),
{
    let n = s.unicode_len();
    let m = prefix.unicode_len();
    if n < m {
        return false;
    }
    let mut i: usize = 0;
    while i < m
        invariant
            i <= m,
            m <= n,
            n == s@.len(),
            m == prefix@.len(),
            forall|j: int| 0 <= j < i ==> s@[j] == prefix@[j],
        decreases m - i,
    {
        if s.get_char(i) != prefix.get_char(i) {
            assert(s@.subrange(0, prefix@.len() as int)[i as int] != prefix@[i as int]);
            return false;
        }
        i += 1;
    }
    proof {
        assert(s@.subrange(0, prefix@.len() as int) =~= prefix@);
    }
    true
}

/// The paths whose requests are never recorded: the log and stats readers
/// and the two live streams themselves, kept out to avoid feedback loops.
pub open spec fn is_recorded_path(path: Seq<char>) -> bool {
    &&& !starts_with_spec(path, "/api/v1/access-log"@)
    &&& !starts_with_spec(path, "/api/v1/stats"@)
    &&& !starts_with_spec(path, "/events"@)
    &&& !starts_with_spec(path, "/ws/"@)
}

/// Whether a completed request on this path is recorded and published.
pub fn should_record(path: &str) -> (b: bool)
    ensures
        b == is_recorded_path(path@),
{
    if str_starts_with(path, "/api/v1/access-log") {
        return false;
    }
    if str_starts_with(path, "/api/v1/stats") {
        return false;
    }
    if str_starts_with(path, "/events") {
        return false;
    }
    if str_starts_with(path, "/ws/") {
        return false;
    }
    true
}

/// An ASCII whitespace character, as trimmed from header values.
pub open spec fn is_ascii_space(c: char) -> bool {
    c == ' ' || c == '\t' || c == '\r' || c == '\n'
}

/// The characters of `s` before its first comma; all of `s` when it has
/// none.
pub open spec fn first_segment(s: Seq<char>) -> Seq<char>
    decreases s.len(),
{
    if s.len() == 0 {
        s
    } else if s.first() == ',' {
        Seq::empty()
    } else {
        seq![s.first()] + first_segment(s.drop_first())
    }
}

/// A prefix free of commas, ended by a comma or the end of the text, is the
/// first segment.
proof fn lemma_first_segment_take(s: Seq<char>, idx: int)
    requires
        0 <= idx <= s.len(),
        forall|j: int| 0 <= j < idx ==> s[j] != ',',
        idx == s.len() || s[idx] == ',',
    ensures
        first_segment(s) == s.take(idx),
    decreases idx,
{
    if s.len() == 0 {
        assert(first_segment(s) =~= s.take(idx));
    } else if idx == 0 {
        assert(s[0] == ',');
        assert(first_segment(s) =~= s.take(0));
    } else {
        assert(s[0] != ',');
        let rest = s.drop_first();
        assert(forall|j: int| 0 <= j < idx - 1 ==> rest[j] == s[j + 1]);
        lemma_first_segment_take(rest, idx - 1);
        assert(first_segment(s) == seq![s.first()] + rest.take(idx - 1));
        assert(s.take(idx) =~= seq![s.first()] + rest.take(idx - 1));
    }
}

/// `s` with leading and trailing ASCII whitespace removed.
pub open spec fn trim_spaces(s: Seq<char>) -> Seq<char>
    decreases s.len(),
{
    if s.len() > 0 && is_ascii_space(s.first()) {
        trim_spaces(s.drop_first())
    } else if s.len() > 0 && is_ascii_space(s.last()) {
        trim_spaces(s.drop_last())
    } else {
        s
    }
}

fn is_space_char(c: char) -> (b: bool)
    ensures
        b == is_ascii_space(c),
{
    c == ' ' || c == '\t' || c == '\r' || c == '\n'
}

/// Strip leading and trailing ASCII whitespace.
pub fn trim_ascii(s: &str) -> (r: String)
    ensures
        r@ == trim_spaces(s@),
{
    let n = s.unicode_len();
    proof {
        assert(s@.subrange(0, n as int) =~= s@);
    }
    let mut start: usize = 0;
    while start < n && is_space_char(s.get_char(start))
        invariant
            start <= n,
            n == s@.len(),
            trim_spaces(s@) == trim_spaces(s@.subrange(start as int, n as int)),
        decreases n - start,
    {
        proof {
            let cur = s@.subrange(start as int, n as int);
            assert(cur.first() == s@[start as int]);
            assert(cur.drop_first() =~= s@.subrange(start as int + 1, n as int));
        }
        start += 1;
    }
    let mut end: usize = n;
    while end > start && is_space_char(s.get_char(end - 1))
        invariant
            start <= end <= n,
            n == s@.len(),
            start == n || !is_ascii_space(s@[start as int]),
            trim_spaces(s@) == trim_spaces(s@.subrange(start as int, end as int)),
        decreases end,
    {
        proof {
            let cur = s@.subrange(start as int, end as int);
            assert(cur.first() == s@[start as int]);
            assert(cur.last() == s@[end - 1]);
            assert(cur.drop_last() =~= s@.subrange(start as int, end as int - 1));
        }
        end -= 1;
    }
    let piece = s.substring_char(start, end);
    proof {
        let cur = s@.subrange(start as int, end as int);
        if cur.len() > 0 {
            assert(cur.first() == s@[start as int]);
            assert(cur.last() == s@[end - 1]);
        }
        assert(trim_spaces(cur) == cur);
    }
    piece.to_owned()
}

/// The client address one forwarding header value yields: the text before
/// its first comma, trimmed of ASCII whitespace.
pub open spec fn forwarded_client(header: Seq<char>) -> Seq<char> {
    trim_spaces(first_segment(header))
}

/// Derive the client address: the forwarding header's first entry when the
/// header is present, else the transport-level address as given.
pub fn client_ip(forwarded: Option<&str>, transport: String) -> (r: String)
    ensures
        (match forwarded {
            Some(h) => r@ == forwarded_client(h@),
            None => r == transport,
        }),
{
    match forwarded {
        Some(h) => {
            let n = h.unicode_len();
            let mut idx: usize = 0;
            while idx < n && h.get_char(idx) != ','
                invariant
                    idx <= n,
                    n == h@.len(),
                    forall|j: int| 0 <= j < idx ==> h@[j] != ',',
                decreases n - idx,
            {
                idx += 1;
            }
            proof {
                lemma_first_segment_take(h@, idx as int);
            }
            let seg = h.substring_char(0, idx);
            proof {
                assert(seg@ =~= h@.take(idx as int));
            }
            trim_ascii(seg)
        },
        None => transport,
    }
}

} // verus!
