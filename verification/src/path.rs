//! The segments of a request path.

use crate::text::chars_of;
use vstd::prelude::*;

verus! {

/// How many characters of `s` stand before its first slash: all, if it has none.
pub open spec fn before_slash(s: Seq<char>) -> nat
    decreases s.len(),
{
    if s.len() == 0 || s[0] == '/' {
        0
    } else {
        1 + before_slash(s.skip(1))
    }
}

/// The parts of `s` that slashes end. The last part may go without its slash, so a slash at the
/// end of `s` starts no further part.
pub open spec fn split(s: Seq<char>) -> Seq<Seq<char>>
    decreases s.len(),
{
    let n = before_slash(s) as int;
    if s.len() == 0 {
        seq![]
    } else if n >= s.len() {
        seq![s]
    } else {
        seq![s.take(n)] + split(s.skip(n + 1))
    }
}

/// The segments of `path`, which may begin with a slash.
pub open spec fn segments(path: Seq<char>) -> Seq<Seq<char>> {
    if path.len() > 0 && path[0] == '/' {
        split(path.skip(1))
    } else {
        split(path)
    }
}

/// Text without a slash goes on to the first slash behind it.
proof fn lemma_before_slash(head: Seq<char>, rest: Seq<char>)
    requires
        forall|i: int| 0 <= i < head.len() ==> head[i] != '/',
    ensures
        before_slash(head + rest) == head.len() + before_slash(rest),
    decreases head.len(),
{
    if head.len() == 0 {
        assert(head + rest == rest);
    } else {
        lemma_before_slash(head.skip(1), rest);
        assert((head + rest).skip(1) == head.skip(1) + rest);
    }
}

/// Text without a slash is a part of its own, ended by a slash or by the end.
proof fn lemma_split(head: Seq<char>, rest: Seq<char>)
    requires
        forall|i: int| 0 <= i < head.len() ==> head[i] != '/',
    ensures
        split(head + seq!['/'] + rest) == seq![head] + split(rest),
        head.len() > 0 ==> split(head) == seq![head],
{
    let tail = seq!['/'] + rest;
    lemma_before_slash(head, tail);
    lemma_before_slash(head, seq![]);
    let all = head + seq!['/'] + rest;
    assert(all == head + tail);
    assert(all.take(head.len() as int) == head);
    assert(all.skip(head.len() as int + 1) == rest);
    assert(head + Seq::<char>::empty() == head);
}

/// Takes a request path apart.
pub fn path_segments(path: &str) -> (parts: Vec<Vec<char>>)
    ensures
        parts@.map_values(|part: Vec<char>| part@) == segments(path@),
{
    let chars = chars_of(path);
    let start: usize = if chars.len() > 0 && chars[0] == '/' {
        1
    } else {
        0
    };
    let ghost whole = chars@.skip(start as int);
    assert(start == 0 ==> whole == chars@);
    let mut parts: Vec<Vec<char>> = Vec::new();
    let mut part: Vec<char> = Vec::new();
    let mut i: usize = start;
    assert(part@ + chars@.skip(i as int) == whole);
    assert(parts@.map_values(|part: Vec<char>| part@) + split(whole) == split(whole));
    while i < chars.len()
        invariant
            start <= i <= chars.len(),
            forall|j: int| 0 <= j < part.len() ==> part[j] != '/',
            parts@.map_values(|part: Vec<char>| part@) + split(part@ + chars@.skip(i as int))
                == split(whole),
        decreases chars.len() - i,
    {
        let c: char = chars[i];
        let ghost rest = chars@.skip(i as int + 1);
        let ghost done = parts@.map_values(|part: Vec<char>| part@);
        if c == '/' {
            proof {
                assert(part@ + chars@.skip(i as int) == part@ + seq!['/'] + rest);
                lemma_split(part@, rest);
            }
            let ghost ended = part@;
            parts.push(part);
            part = Vec::new();
            assert(part@ + rest == rest);
            assert(parts@.map_values(|part: Vec<char>| part@) == done.push(ended));
            assert(done + (seq![ended] + split(rest)) == done.push(ended) + split(rest));
        } else {
            assert(part@ + chars@.skip(i as int) == part@.push(c) + rest);
            part.push(c);
        }
        i = i + 1;
    }
    proof {
        assert(part@ + chars@.skip(i as int) == part@);
        lemma_split(part@, seq![]);
    }
    if part.len() > 0 {
        let ghost done = parts@.map_values(|part: Vec<char>| part@);
        let ghost last = part@;
        parts.push(part);
        assert(parts@.map_values(|part: Vec<char>| part@) == done.push(last));
        assert(done.push(last) == done + seq![last]);
    } else {
        assert(split(part@) == Seq::<Seq<char>>::empty());
    }
    parts
}

/// The path that has `parts` for its segments.
pub open spec fn path_of(parts: Seq<Seq<char>>) -> Seq<char>
    decreases parts.len(),
{
    if parts.len() == 0 {
        seq![]
    } else {
        seq!['/'] + parts[0] + path_of(parts.skip(1))
    }
}

/// A path can be made of `parts`: none holds a slash, and the last is not empty.
pub open spec fn are_parts(parts: Seq<Seq<char>>) -> bool {
    &&& forall|i: int, j: int|
        0 <= i < parts.len() && 0 <= j < parts[i].len() ==> #[trigger] parts[i][j] != '/'
    &&& parts.len() > 0 ==> parts.last().len() > 0
}

proof fn lemma_split_path(parts: Seq<Seq<char>>)
    requires
        are_parts(parts),
        parts.len() > 0,
    ensures
        split(path_of(parts).skip(1)) == parts,
        split((path_of(parts) + seq!['/']).skip(1)) == parts,
    decreases parts.len(),
{
    let head = parts[0];
    let others = parts.skip(1);
    let rest = path_of(others);
    assert(forall|j: int| 0 <= j < head.len() ==> head[j] == #[trigger] parts[0][j]);
    assert(path_of(parts).skip(1) == head + rest);
    assert((path_of(parts) + seq!['/']).skip(1) == head + rest + seq!['/']);
    assert(seq![head] + others == parts);
    if others.len() == 0 {
        lemma_split(head, seq![]);
        assert(head + rest == head);
        assert(head + rest + seq!['/'] == head + seq!['/'] + Seq::<char>::empty());
        assert(split(Seq::<char>::empty()) == others);
        assert(seq![head] == parts);
    } else {
        assert forall|i: int, j: int|
            0 <= i < others.len() && 0 <= j < others[i].len() implies #[trigger] others[i][j]
            != '/' by {
            assert(others[i][j] == parts[i + 1][j]);
        }
        assert(others.last() == parts.last());
        lemma_split_path(others);
        assert(rest == seq!['/'] + rest.skip(1));
        assert(head + rest == head + seq!['/'] + rest.skip(1));
        lemma_split(head, rest.skip(1));
        let slashed = rest + seq!['/'];
        assert(head + rest + seq!['/'] == head + seq!['/'] + slashed.skip(1));
        lemma_split(head, slashed.skip(1));
    }
}

/// A path has the segments that it was made of, with or without a slash at its end.
pub proof fn law_path_is_taken_apart(parts: Seq<Seq<char>>)
    requires
        are_parts(parts),
    ensures
        segments(path_of(parts)) == parts,
        segments(path_of(parts) + seq!['/']) == parts,
{
    if parts.len() > 0 {
        lemma_split_path(parts);
    } else {
        assert(split(seq!['/'].skip(1)) == parts);
        assert(path_of(parts) + seq!['/'] == seq!['/']);
        assert(segments(path_of(parts)) == parts);
    }
}

/// `parts` one after the other, each with a slash behind it.
pub open spec fn slashed(parts: Seq<Seq<char>>) -> Seq<char>
    decreases parts.len(),
{
    if parts.len() == 0 {
        seq![]
    } else {
        parts[0] + seq!['/'] + slashed(parts.skip(1))
    }
}

proof fn lemma_before_slash_is_first(s: Seq<char>)
    ensures
        before_slash(s) <= s.len(),
        forall|i: int| 0 <= i < before_slash(s) ==> #[trigger] s[i] != '/',
        before_slash(s) < s.len() ==> s[before_slash(s) as int] == '/',
    decreases s.len(),
{
    if s.len() > 0 && s[0] != '/' {
        lemma_before_slash_is_first(s.skip(1));
        assert forall|i: int| 0 <= i < before_slash(s) implies #[trigger] s[i] != '/' by {
            if i > 0 {
                assert(s[i] == s.skip(1)[i - 1]);
            }
        }
    }
}

proof fn lemma_split_is_slashed(s: Seq<char>)
    ensures
        slashed(split(s)) == if s.len() == 0 || s.last() == '/' {
            s
        } else {
            s.push('/')
        },
        forall|i: int, j: int|
            0 <= i < split(s).len() && 0 <= j < split(s)[i].len() ==> #[trigger] split(s)[i][j]
                != '/',
    decreases s.len(),
{
    lemma_before_slash_is_first(s);
    let n = before_slash(s) as int;
    reveal_with_fuel(slashed, 2);
    if s.len() == 0 {
    } else if n >= s.len() {
        assert(split(s).skip(1) == Seq::<Seq<char>>::empty());
        assert(slashed(split(s)) == s.push('/'));
    } else {
        let rest = s.skip(n + 1);
        lemma_split_is_slashed(rest);
        assert(split(s)[0] == s.take(n));
        assert(split(s).skip(1) == split(rest));
        assert(s.take(n) + seq!['/'] + rest == s);
        if rest.len() > 0 {
            assert(rest.last() == s.last());
            assert(s.take(n) + seq!['/'] + rest.push('/') == s.push('/'));
        } else {
            assert(s.take(n) + seq!['/'] == s);
        }
        assert forall|i: int, j: int|
            0 <= i < split(s).len() && 0 <= j < split(s)[i].len() implies #[trigger] split(s)[i][j]
            != '/' by {
            if i > 0 {
                assert(split(s)[i] == split(rest)[i - 1]);
                assert(split(rest)[i - 1][j] != '/');
            }
        }
    }
}

/// A path is taken apart at its slashes and nowhere else, and nothing of it is lost: no segment
/// holds a slash, and the segments, each with a slash behind it, make up the path, but for a
/// slash at its beginning and for the one that may be missing at its end.
pub proof fn law_segments_make_up_the_path(path: Seq<char>)
    ensures
        ({
            let inner = if path.len() > 0 && path[0] == '/' {
                path.skip(1)
            } else {
                path
            };
            slashed(segments(path)) == if inner.len() == 0 || inner.last() == '/' {
                inner
            } else {
                inner.push('/')
            }
        }),
        forall|i: int, j: int|
            0 <= i < segments(path).len() && 0 <= j < segments(path)[i].len()
                ==> #[trigger] segments(path)[i][j] != '/',
{
    let inner = if path.len() > 0 && path[0] == '/' {
        path.skip(1)
    } else {
        path
    };
    lemma_split_is_slashed(inner);
}

/// A path is taken apart into its segments.
pub proof fn law_paths_are_taken_apart(path: &str, parts: Vec<Vec<char>>)
    requires
        call_ensures(path_segments, (path,), parts),
    ensures
        parts.len() == segments(path@).len(),
        forall|i: int| 0 <= i < parts.len() ==> #[trigger] parts[i]@ == segments(path@)[i],
{
    let views = parts@.map_values(|part: Vec<char>| part@);
    assert forall|i: int| 0 <= i < parts.len() implies #[trigger] parts[i]@ == segments(
        path@,
    )[i] by {
        assert(views[i] == parts[i]@);
    }
}

} // verus!
