//! The track listing: the mount layer hands back one block of text, one
//! entry per line, and the enumerator splits it into the ordered track list.
use vstd::prelude::*;

verus! {

/// Index of the first newline in `s`, or `s.len()` if there is none.
pub open spec fn first_nl(s: Seq<char>) -> nat
    decreases s.len(),
{
    if s.len() == 0 {
        0
    } else if s[0] == '\n' {
        0
    } else {
        1 + first_nl(s.skip(1))
    }
}

pub proof fn lemma_first_nl_bounds(s: Seq<char>)
    ensures
        first_nl(s) <= s.len(),
        forall|k: int| 0 <= k < first_nl(s) ==> s[k] != '\n',
        first_nl(s) < s.len() ==> s[first_nl(s) as int] == '\n',
    decreases s.len(),
{
    if s.len() != 0 && s[0] != '\n' {
        lemma_first_nl_bounds(s.skip(1));
        assert(forall|k: int| 1 <= k < first_nl(s) ==> s[k] == s.skip(1)[k - 1]);
    }
}

/// Where the first newline of `s` is known, `first_nl` returns it.
pub proof fn lemma_first_nl_at(s: Seq<char>, j: int)
    requires
        0 <= j <= s.len(),
        forall|k: int| 0 <= k < j ==> s[k] != '\n',
        j == s.len() || s[j] == '\n',
    ensures
        first_nl(s) == j,
    decreases j,
{
    if j == 0 {
        if s.len() != 0 && s[0] != '\n' {
            lemma_first_nl_bounds(s.skip(1));
        }
    } else {
        assert(s[0] != '\n');
        let t = s.skip(1);
        assert(forall|k: int| 0 <= k < j - 1 ==> t[k] == s[k + 1]);
        if j < s.len() {
            assert(t[j - 1] == s[j]);
        }
        lemma_first_nl_at(t, j - 1);
    }
}

/// The listing text seen as lines: the segments between newlines, in order,
/// with a trailing empty segment (from a final newline) dropped.
pub open spec fn spec_lines(s: Seq<char>) -> Seq<Seq<char>>
    decreases s.len(),
{
    if s.len() == 0 {
        Seq::empty()
    } else {
        let f = first_nl(s);
        let i = if f < s.len() {
            f as int
        } else {
            s.len() as int
        };
        if i == s.len() {
            seq![s]
        } else {
            seq![s.subrange(0, i)] + spec_lines(s.skip(i + 1))
        }
    }
}

/// A non-empty listing holds at least one entry.
pub proof fn lemma_lines_nonempty(s: Seq<char>)
    ensures
        s.len() > 0 ==> spec_lines(s).len() > 0,
{
}

/// Splits the raw listing into one track entry per line.
pub fn parse_track_list(raw: &str) -> (r: Vec<String>)
    ensures
        r.deep_view() == spec_lines(raw@),
        raw@.len() > 0 ==> r@.len() > 0,
{
    let n = raw.unicode_len();
    let mut r: Vec<String> = Vec::new();
    let mut start: usize = 0;
    let mut i: usize = 0;
    proof {
        assert(r.deep_view() =~~= Seq::<Seq<char>>::empty());
        assert(raw@.skip(0) =~= raw@);
        assert(Seq::<Seq<char>>::empty() + spec_lines(raw@) =~~= spec_lines(raw@));
    }
    while i < n
        invariant
            start <= i <= n,
            n == raw@.len(),
            forall|k: int| start <= k < i ==> raw@[k] != '\n',
            spec_lines(raw@) == r.deep_view() + spec_lines(raw@.skip(start as int)),
        decreases n - i,
    {
        let c = raw.get_char(i);
        if c == '\n' {
            let line = raw.substring_char(start, i);
            let ghost prev = r.deep_view();
            r.push(String::from_str(line));
            proof {
                let t = raw@.skip(start as int);
                assert(forall|k: int| 0 <= k < t.len() ==> t[k] == raw@[k + start]);
                lemma_first_nl_at(t, i - start);
                assert(t.subrange(0, i - start) =~= raw@.subrange(start as int, i as int));
                assert(t.skip(i - start + 1) =~= raw@.skip(i + 1));
                assert(spec_lines(t) == seq![line@] + spec_lines(raw@.skip(i + 1)));
                assert(r.deep_view() =~~= prev.push(line@));
                assert(prev + (seq![line@] + spec_lines(raw@.skip(i + 1))) =~~= r.deep_view()
                    + spec_lines(raw@.skip(i + 1)));
            }
            start = i + 1;
        }
        i = i + 1;
    }
    if start < n {
        let line = raw.substring_char(start, n);
        let ghost prev = r.deep_view();
        r.push(String::from_str(line));
        proof {
            let t = raw@.skip(start as int);
            assert(forall|k: int| 0 <= k < t.len() ==> t[k] == raw@[k + start]);
            lemma_first_nl_at(t, n - start);
            assert(t =~= raw@.subrange(start as int, n as int));
            assert(spec_lines(t) == seq![t]);
            assert(r.deep_view() =~~= prev.push(line@));
            assert(prev + seq![t] =~~= r.deep_view());
        }
    } else {
        proof {
            assert(raw@.skip(start as int) =~= Seq::<char>::empty());
            assert(spec_lines(raw@.skip(start as int)) =~= Seq::<Seq<char>>::empty());
            assert(r.deep_view() + Seq::<Seq<char>>::empty() =~~= r.deep_view());
        }
    }
    proof {
        if raw@.len() > 0 {
            lemma_lines_nonempty(raw@);
        }
    }
    r
}

} // verus!
