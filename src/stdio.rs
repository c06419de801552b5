//! Line framing of the standard-I/O transports: each message is written as
//! one line, and what is read is cut back into whole lines.
use vstd::prelude::*;
use crate::json::owned;
use crate::sse::{first_from, find_char_from, lemma_first_from_bounds};

verus! {

/// `s` holds no line break.
pub open spec fn single_line(s: Seq<char>) -> bool {
    forall|i: int| 0 <= i < s.len() ==> s[i] != '\n'
}

/// The text of `lines`, each followed by a line break.
pub open spec fn joined(lines: Seq<Seq<char>>) -> Seq<char>
    decreases lines.len(),
{
    if lines.len() == 0 {
        Seq::empty()
    } else {
        lines[0] + seq!['\n'] + joined(lines.drop_first())
    }
}

pub proof fn lemma_joined_push(lines: Seq<Seq<char>>, x: Seq<char>)
    ensures
        joined(lines.push(x)) == joined(lines) + x + seq!['\n'],
    decreases lines.len(),
{
    if lines.len() == 0 {
        assert(lines.push(x).drop_first() =~= Seq::<Seq<char>>::empty());
        assert(joined(Seq::<Seq<char>>::empty()) == Seq::<char>::empty());
        assert(lines.push(x)[0] == x);
        assert(joined(lines) == Seq::<char>::empty());
        assert(joined(lines.push(x)) =~= x + seq!['\n']);
    } else {
        assert(lines.push(x).drop_first() =~= lines.drop_first().push(x));
        lemma_joined_push(lines.drop_first(), x);
        assert(joined(lines.push(x)) =~= joined(lines) + x + seq!['\n']);
    }
}

/// No break occurs in `s` between `from` and the position `first_from` finds.
pub proof fn lemma_first_from_none_before(s: Seq<char>, c: char, from: int)
    requires
        0 <= from,
    ensures
        match first_from(s, c, from) {
            Some(i) => forall|k: int| from <= k < i ==> s[k] != c,
            None => forall|k: int| from <= k < s.len() ==> s[k] != c,
        },
    decreases s.len() - from,
{
    if from < s.len() && s[from] != c {
        lemma_first_from_none_before(s, c, from + 1);
    }
}

/// Reading what a peer wrote, frame after frame, gives back exactly its
/// frames, in the order they were sent, and nothing left over: the frames
/// of single lines are recovered whole and in order.
pub proof fn lemma_frames_read_in_order(frames: Seq<Seq<char>>, lines: Seq<Seq<char>>, rest: Seq<char>)
    requires
        forall|i: int| 0 <= i < frames.len() ==> single_line(#[trigger] frames[i]),
        forall|i: int| 0 <= i < lines.len() ==> single_line(#[trigger] lines[i]),
        single_line(rest),
        joined(lines) + rest == joined(frames),
    ensures
        lines == frames,
        rest.len() == 0,
    decreases frames.len(),
{
    if frames.len() == 0 {
        if lines.len() > 0 {
            assert((joined(lines) + rest).len() > 0);
        }
        assert(lines =~= frames);
    } else {
        let f = frames[0];
        assert(single_line(f));
        let jf = joined(frames);
        assert(jf[f.len() as int] == '\n');
        if lines.len() == 0 {
            assert(joined(lines) =~= Seq::<char>::empty());
            assert(rest =~= jf);
            assert(rest[f.len() as int] == '\n');
        } else {
            let l = lines[0];
            assert(single_line(l));
            let jl = joined(lines) + rest;
            assert(jl[l.len() as int] == '\n');
            assert(jl == jf);
            if l.len() < f.len() {
                assert(jf[l.len() as int] == f[l.len() as int]);
                assert(f[l.len() as int] != '\n');
                assert(false);
            } else if f.len() < l.len() {
                assert(jl[f.len() as int] == l[f.len() as int]);
                assert(l[f.len() as int] != '\n');
                assert(false);
            }
            assert(l.len() == f.len());
            assert forall|k: int| 0 <= k < l.len() implies l[k] == f[k] by {
                assert(jl[k] == l[k]);
                assert(jf[k] == f[k]);
            }
            assert(l =~= f);
            let n = f.len() + 1;
            assert(jl.subrange(n as int, jl.len() as int) =~= joined(lines.drop_first()) + rest);
            assert(jf.subrange(n as int, jf.len() as int) =~= joined(frames.drop_first()));
            lemma_frames_read_in_order(frames.drop_first(), lines.drop_first(), rest);
            assert(lines.len() == frames.len());
            assert forall|i: int| 0 <= i < lines.len() implies lines[i] == frames[i] by {
                if i > 0 {
                    assert(lines[i] == lines.drop_first()[i - 1]);
                    assert(frames[i] == frames.drop_first()[i - 1]);
                }
            }
            assert(lines =~= frames);
        }
    }
}

/// A message as one line.
pub fn frame_line(json: &str) -> (r: String)
    ensures
        r@ == json@ + seq!['\n'],
{
    proof {
        reveal_strlit("\n");
    }
    owned(json).concat("\n")
}

pub open spec fn lines_model(v: Seq<String>) -> Seq<Seq<char>> {
    Seq::new(v.len(), |i: int| v[i]@)
}

/// Cuts `pending` followed by `chunk` into the complete lines it holds
/// (without their line breaks) and what is left after the last break.
pub fn split_lines(pending: &str, chunk: &str) -> (r: (Vec<String>, String))
    ensures
        joined(lines_model(r.0@)) + r.1@ == pending@ + chunk@,
        forall|i: int| 0 <= i < r.0@.len() ==> single_line(#[trigger] r.0@[i]@),
        single_line(r.1@),
{
    let total = owned(pending).concat(chunk);
    let t = total.as_str();
    let n = t.unicode_len();
    let mut lines: Vec<String> = Vec::new();
    let mut start: usize = 0;
    loop
        invariant
            n == t@.len(),
            t@ == pending@ + chunk@,
            start <= n,
            joined(lines_model(lines@)) + t@.subrange(start as int, n as int) == t@,
            forall|i: int| 0 <= i < lines@.len() ==> single_line(#[trigger] lines@[i]@),
        decreases n - start,
    {
        proof {
            lemma_first_from_bounds(t@, '\n', start as int);
            lemma_first_from_none_before(t@, '\n', start as int);
        }
        match find_char_from(t, '\n', start) {
            Some(i) => {
                let line = owned(t.substring_char(start, i));
                let ghost before = lines@;
                proof {
                    lemma_joined_push(lines_model(before), line@);
                    assert(lines_model(before.push(line)) =~= lines_model(before).push(line@));
                    assert(t@.subrange(start as int, n as int) =~= line@ + seq!['\n'] + t@.subrange(i + 1, n as int));
                }
                lines.push(line);
                start = i + 1;
            },
            None => {
                let rest = owned(t.substring_char(start, n));
                return (lines, rest);
            },
        }
    }
}

} // verus!
