use vstd::prelude::*;

verus! {

/// The character sequences held by a sequence of strings.
pub open spec fn views(v: Seq<String>) -> Seq<Seq<char>> {
    v.map_values(|x: String| x@)
}

/// The pieces of `s` between occurrences of `sep`, as `str::split` yields
/// them: always at least one piece, empty pieces kept.
pub open spec fn split(s: Seq<char>, sep: char) -> Seq<Seq<char>>
    decreases s.len(),
{
    if s.len() == 0 {
        seq![Seq::empty()]
    } else {
        let r = split(s.drop_last(), sep);
        if s.last() == sep {
            r.push(Seq::empty())
        } else {
            r.update(r.len() - 1, r.last().push(s.last()))
        }
    }
}

pub proof fn lemma_split_nonempty(s: Seq<char>, sep: char)
    ensures
        split(s, sep).len() >= 1,
    decreases s.len(),
{
    if s.len() > 0 {
        lemma_split_nonempty(s.drop_last(), sep);
    }
}

/// Whitespace that separates the words of a command line.
pub open spec fn is_space(c: char) -> bool {
    c == ' ' || c == '\t' || c == '\n' || c == '\r'
}

/// The maximal runs of non-whitespace characters of `s`, in order.
pub open spec fn words(s: Seq<char>) -> Seq<Seq<char>>
    decreases s.len(),
{
    if s.len() == 0 {
        Seq::empty()
    } else {
        let r = words(s.drop_last());
        if is_space(s.last()) {
            r
        } else if s.len() >= 2 && !is_space(s[s.len() - 2]) && r.len() > 0 {
            r.update(r.len() - 1, r.last().push(s.last()))
        } else {
            r.push(seq![s.last()])
        }
    }
}

/// Splits `s` at every occurrence of `sep`.
pub fn split_on(s: &str, sep: char) -> (r: Vec<String>)
    ensures
        views(r@) == split(s@, sep),
{
    let n = s.unicode_len();
    let mut out: Vec<String> = Vec::new();
    let mut start: usize = 0;
    let mut i: usize = 0;
    proof {
        assert(s@.subrange(0, 0) =~= Seq::<char>::empty());
        assert(views(out@).push(s@.subrange(0, 0)) =~= split(s@.subrange(0, 0), sep));
    }
    while i < n
        invariant
            n == s@.len(),
            start <= i <= n,
            views(out@).push(s@.subrange(start as int, i as int)) == split(
                s@.subrange(0, i as int),
                sep,
            ),
        decreases n - i,
    {
        let c = s.get_char(i);
        let ghost prev = s@.subrange(0, i as int);
        let ghost old_out = views(out@);
        assert(s@.subrange(0, i + 1).drop_last() =~= prev);
        if c == sep {
            let piece = s.substring_char(start, i).to_owned();
            out.push(piece);
            assert(views(out@) =~= old_out.push(piece@));
            assert(s@.subrange(i + 1, i + 1) =~= Seq::<char>::empty());
            assert(split(s@.subrange(0, i + 1), sep) == split(prev, sep).push(Seq::empty()));
            assert(views(out@).push(s@.subrange(i + 1, i + 1)) =~= split(
                s@.subrange(0, i + 1),
                sep,
            ));
            start = i + 1;
        } else {
            assert(s@.subrange(start as int, i + 1) =~= s@.subrange(start as int, i as int).push(
                c,
            ));
            assert(views(out@).push(s@.subrange(start as int, i + 1)) =~= split(
                s@.subrange(0, i + 1),
                sep,
            ));
        }
        i = i + 1;
    }
    let last = s.substring_char(start, n).to_owned();
    let ghost before = views(out@);
    out.push(last);
    proof {
        assert(views(out@) =~= before.push(last@));
        assert(s@.subrange(0, n as int) =~= s@);
    }
    out
}

/// Splits `s` into its whitespace-separated words.
pub fn split_words(s: &str) -> (r: Vec<String>)
    ensures
        views(r@) == words(s@),
{
    let n = s.unicode_len();
    let mut out: Vec<String> = Vec::new();
    let mut start: usize = 0;
    let mut in_word: bool = false;
    let mut i: usize = 0;
    proof {
        assert(s@.subrange(0, 0) =~= Seq::<char>::empty());
    }
    while i < n
        invariant
            n == s@.len(),
            start <= i <= n,
            in_word == (i > 0 && !is_space(s@[i - 1])),
            in_word ==> start < i && views(out@).push(s@.subrange(start as int, i as int)) == words(
                s@.subrange(0, i as int),
            ),
            !in_word ==> views(out@) == words(s@.subrange(0, i as int)),
        decreases n - i,
    {
        let c = s.get_char(i);
        let ghost prev = s@.subrange(0, i as int);
        let ghost cur = s@.subrange(0, i + 1);
        assert(cur.drop_last() =~= prev);
        assert(cur.last() == c);
        if c == ' ' || c == '\t' || c == '\n' || c == '\r' {
            if in_word {
                let piece = s.substring_char(start, i).to_owned();
                let ghost old_out = views(out@);
                out.push(piece);
                assert(views(out@) =~= old_out.push(piece@));
            }
            in_word = false;
        } else {
            if !in_word {
                start = i;
                assert(s@.subrange(start as int, i + 1) =~= seq![c]);
                in_word = true;
            } else {
                assert(cur[cur.len() - 2] == s@[i - 1]);
                assert(s@.subrange(start as int, i + 1) =~= s@.subrange(
                    start as int,
                    i as int,
                ).push(c));
                assert(views(out@).push(s@.subrange(start as int, i + 1)) =~= words(
                    prev,
                ).update(words(prev).len() - 1, words(prev).last().push(c)));
            }
        }
        i = i + 1;
    }
    proof {
        assert(s@.subrange(0, n as int) =~= s@);
    }
    if in_word {
        let piece = s.substring_char(start, n).to_owned();
        let ghost old_out = views(out@);
        out.push(piece);
        assert(views(out@) =~= old_out.push(piece@));
    }
    out
}

} // verus!
