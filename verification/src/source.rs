use vstd::prelude::*;
use crate::lexer::push_char;

verus! {

// ---------------------------------------------------------------------------
// Preparing a source file: `//` comments and blank lines go before parsing.

/// The characters with the Unicode `White_Space` property.
pub open spec fn is_white_space(c: char) -> bool {
    ('\t' <= c && c <= '\r') || c == ' ' || c == '\u{85}' || c == '\u{a0}' || c == '\u{1680}'
        || ('\u{2000}' <= c && c <= '\u{200a}') || c == '\u{2028}' || c == '\u{2029}'
        || c == '\u{202f}' || c == '\u{205f}' || c == '\u{3000}'
}

/// The lines of `s`: the pieces between `\n` characters (the last one may be empty).
pub open spec fn split_lines(s: Seq<char>) -> Seq<Seq<char>>
    decreases s.len(),
{
    if s.len() == 0 {
        seq![seq![]]
    } else {
        let prev = split_lines(s.drop_last());
        if s.last() == '\n' {
            prev.push(seq![])
        } else {
            prev.update(prev.len() - 1, prev.last().push(s.last()))
        }
    }
}

/// The position of the first `//` in `l` at or after `i`; the length of `l` where there is none.
pub open spec fn comment_start(l: Seq<char>, i: int) -> int
    decreases l.len() - i,
{
    if i < 0 || i + 1 >= l.len() {
        l.len() as int
    } else if l[i] == '/' && l[i + 1] == '/' {
        i
    } else {
        comment_start(l, i + 1)
    }
}

/// `l` without trailing white space.
pub open spec fn trim_end(l: Seq<char>) -> Seq<char>
    decreases l.len(),
{
    if l.len() > 0 && is_white_space(l.last()) {
        trim_end(l.drop_last())
    } else {
        l
    }
}

/// A line without its comment and trailing white space.
pub open spec fn clean_line(l: Seq<char>) -> Seq<char> {
    trim_end(l.take(comment_start(l, 0)))
}

/// `acc` with line `l` added on a line of its own, unless `l` is empty.
pub open spec fn add_line(acc: Seq<char>, l: Seq<char>) -> Seq<char> {
    if l.len() == 0 {
        acc
    } else if acc.len() == 0 {
        l
    } else {
        acc + seq!['\n'] + l
    }
}

/// The first `k` lines cleaned, the empty ones dropped, joined by `\n`.
pub open spec fn join_clean(ls: Seq<Seq<char>>, k: int) -> Seq<char>
    decreases k,
{
    if k <= 0 {
        seq![]
    } else {
        add_line(join_clean(ls, k - 1), clean_line(ls[k - 1]))
    }
}

/// The source text as the parser gets it: every line cut at its first `//`,
/// trailing white space removed, empty lines dropped, the rest joined by `\n`.
pub open spec fn strip_comments_spec(s: Seq<char>) -> Seq<char> {
    join_clean(split_lines(s), split_lines(s).len() as int)
}

proof fn lemma_split_lines_nonempty(s: Seq<char>)
    ensures
        split_lines(s).len() >= 1,
    decreases s.len(),
{
    if s.len() > 0 {
        lemma_split_lines_nonempty(s.drop_last());
    }
}

proof fn lemma_join_prefix(a: Seq<Seq<char>>, b: Seq<Seq<char>>, k: int)
    requires
        0 <= k <= a.len(),
        k <= b.len(),
        forall|j: int| 0 <= j < k ==> a[j] == b[j],
    ensures
        join_clean(a, k) == join_clean(b, k),
    decreases k,
{
    if k > 0 {
        lemma_join_prefix(a, b, k - 1);
    }
}

fn is_white_space_char(c: char) -> (b: bool)
    ensures
        b == is_white_space(c),
{
    ('\t' <= c && c <= '\r') || c == ' ' || c == '\u{85}' || c == '\u{a0}' || c == '\u{1680}'
        || ('\u{2000}' <= c && c <= '\u{200a}') || c == '\u{2028}' || c == '\u{2029}'
        || c == '\u{202f}' || c == '\u{205f}' || c == '\u{3000}'
}

/// Adds the cleaned `line` to `out` on a line of its own, unless it is empty.
fn push_clean_line(out: &mut String, line: &Vec<char>)
    ensures
        final(out)@ == add_line(old(out)@, clean_line(line@)),
{
    let ghost l = line@;
    let n = line.len();
    let mut cut: usize = 0;
    while n - cut > 1 && !(line[cut] == '/' && line[cut + 1] == '/')
        invariant
            n == l.len(),
            l == line@,
            cut <= n,
            comment_start(l, 0) == comment_start(l, cut as int),
        decreases n - cut,
    {
        cut = cut + 1;
    }
    if n - cut <= 1 {
        cut = n;
    }
    assert(comment_start(l, 0) == cut);
    let mut end = cut;
    assert(l.take(cut as int).take(end as int) =~= l.take(cut as int));
    while end > 0 && is_white_space_char(line[end - 1])
        invariant
            end <= cut <= n,
            l == line@,
            n == l.len(),
            trim_end(l.take(cut as int)) == trim_end(l.take(end as int)),
        decreases end,
    {
        assert(l.take(end as int).drop_last() =~= l.take(end - 1));
        end = end - 1;
    }
    assert(trim_end(l.take(end as int)) == l.take(end as int));
    if end > 0 {
        if out.unicode_len() > 0 {
            push_char(out, '\n');
        }
        let ghost before = out@;
        let mut i: usize = 0;
        while i < end
            invariant
                i <= end <= n,
                l == line@,
                n == l.len(),
                out@ == before + l.subrange(0, i as int),
            decreases end - i,
        {
            push_char(out, line[i]);
            i = i + 1;
            assert(out@ =~= before + l.subrange(0, i as int));
        }
        assert(l.subrange(0, end as int) =~= l.take(end as int));
        assert(out@ =~= add_line(old(out)@, clean_line(l)));
    }
}

/// The source text as the parser gets it: every line cut at its first `//`,
/// trailing white space removed, empty lines dropped, the rest joined by `\n`.
pub fn strip_comments(text: &str) -> (cleaned: String)
    ensures
        cleaned@ == strip_comments_spec(text@),
{
    let ghost s = text@;
    let n = text.unicode_len();
    let mut out = String::new();
    let mut line: Vec<char> = Vec::new();
    let mut i: usize = 0;
    proof {
        assert(s.take(0) =~= Seq::<char>::empty());
    }
    while i < n
        invariant
            n == s.len(),
            s == text@,
            i <= n,
            split_lines(s.take(i as int)).len() >= 1,
            line@ == split_lines(s.take(i as int)).last(),
            out@ == join_clean(split_lines(s.take(i as int)), split_lines(s.take(i as int)).len() - 1),
        decreases n - i,
    {
        let c = text.get_char(i);
        let ghost prev = split_lines(s.take(i as int));
        assert(s.take(i + 1).drop_last() =~= s.take(i as int));
        assert(s.take(i + 1).last() == c);
        let ghost next = split_lines(s.take(i + 1));
        if c == '\n' {
            push_clean_line(&mut out, &line);
            line = Vec::new();
            proof {
                assert(next == prev.push(seq![]));
                lemma_join_prefix(prev, next, prev.len() as int);
                assert(line@ =~= next.last());
            }
        } else {
            line.push(c);
            proof {
                assert(next == prev.update(prev.len() - 1, prev.last().push(c)));
                lemma_join_prefix(prev, next, prev.len() - 1);
            }
        }
        i = i + 1;
    }
    assert(s.take(n as int) =~= s);
    push_clean_line(&mut out, &line);
    out
}

} // verus!
