//! Joining script files: the lines of one text after the lines of another.

use vstd::prelude::*;
use crate::scripts::{lemma_next_newline, lines_from, next_newline, split_lines, strip_cr, text_lines};
use crate::text::push_str;

verus! {

/// Every line of a sequence of lines, each ended by `\n`.
pub open spec fn terminated(lines: Seq<Seq<char>>) -> Seq<char>
    decreases lines.len(),
{
    if lines.len() == 0 {
        Seq::empty()
    } else {
        terminated(lines.drop_last()) + lines.last() + "\n"@
    }
}

/// The text of two files read line by line, one after the other, every line
/// ended by `\n`.
pub open spec fn catenated(first: Seq<char>, second: Seq<char>) -> Seq<char> {
    terminated(text_lines(first)) + terminated(text_lines(second))
}

fn push_lines(out: &mut String, text: &str)
    ensures
        final(out)@ == old(out)@ + terminated(text_lines(text@)),
{
    let lines = split_lines(text);
    let ghost start = out@;
    let mut i: usize = 0;
    while i < lines.len()
        invariant
            i <= lines@.len(),
            lines.deep_view() == text_lines(text@),
            out@ == start + terminated(lines.deep_view().subrange(0, i as int)),
        decreases lines.len() - i,
    {
        let ghost pre = lines.deep_view().subrange(0, i + 1);
        assert(pre.drop_last() =~= lines.deep_view().subrange(0, i as int));
        assert(pre.last() == lines[i as int]@);
        push_str(out, lines[i].as_str());
        push_str(out, "\n");
        i = i + 1;
    }
    assert(lines.deep_view().subrange(0, lines@.len() as int) =~= lines.deep_view());
}

/// Joins the contents of two script files line by line.
pub fn cat_contents(first: &str, second: &str) -> (s: String)
    ensures
        s@ == catenated(first@, second@),
{
    let mut result = String::new();
    push_lines(&mut result, first);
    push_lines(&mut result, second);
    result
}


/// Whether a text is a file of whole lines: no carriage returns, and empty
/// or ended by a line break.
pub open spec fn whole_lines(t: Seq<char>) -> bool {
    &&& forall|k: int| 0 <= k < t.len() ==> #[trigger] t[k] != '\r'
    &&& (t.len() == 0 || t.last() == '\n')
}

proof fn lemma_terminated_concat(p: Seq<Seq<char>>, q: Seq<Seq<char>>)
    ensures
        terminated(p + q) == terminated(p) + terminated(q),
    decreases q.len(),
{
    if q.len() == 0 {
        assert(p + q =~= p);
        assert(terminated(p) + terminated(q) =~= terminated(p));
    } else {
        lemma_terminated_concat(p, q.drop_last());
        assert((p + q).drop_last() =~= p + q.drop_last());
        assert((p + q).last() == q.last());
        assert(terminated(p) + terminated(q.drop_last()) + q.last() + "\n"@ =~= terminated(p) + (terminated(
            q.drop_last(),
        ) + q.last() + "\n"@));
    }
}

proof fn lemma_next_newline_before_end(t: Seq<char>, k: int)
    requires
        0 <= k < t.len(),
        t.last() == '\n',
    ensures
        next_newline(t, k) < t.len(),
        forall|m: int| k <= m < next_newline(t, k) ==> t[m] != '\n',
    decreases t.len() - k,
{
    if t[k] != '\n' {
        assert(k + 1 < t.len());
        lemma_next_newline_before_end(t, k + 1);
    }
}

proof fn lemma_lines_reassemble(t: Seq<char>, start: int)
    requires
        whole_lines(t),
        0 <= start <= t.len(),
    ensures
        terminated(lines_from(t, start)) == t.subrange(start, t.len() as int),
    decreases t.len() - start,
{
    reveal_strlit("\n");
    if start < t.len() {
        lemma_next_newline_before_end(t, start);
        lemma_next_newline(t, start);
        let j = next_newline(t, start);
        let line = t.subrange(start, j);
        if line.len() > 0 {
            assert(line.last() == t[j - 1]);
        }
        assert(strip_cr(line) == line);
        lemma_lines_reassemble(t, j + 1);
        let rest = lines_from(t, j + 1);
        assert(lines_from(t, start) == seq![line] + rest);
        lemma_terminated_concat(seq![line], rest);
        assert(seq![line].drop_last() =~= Seq::<Seq<char>>::empty());
        assert(seq![line].last() == line);
        assert(terminated(Seq::<Seq<char>>::empty()) == Seq::<char>::empty());
        assert(terminated(seq![line]) == terminated(seq![line].drop_last()) + line + "\n"@);
        assert(terminated(seq![line]) =~= line + "\n"@);
        assert(t[j] == '\n');
        assert(t.subrange(start, t.len() as int) =~= line + "\n"@ + t.subrange(j + 1, t.len() as int));
    } else {
        assert(t.subrange(start, t.len() as int) =~= Seq::<char>::empty());
    }
}

/// Joining two script files keeps them in order, line by line: the result
/// is the lines of the first text, each ended by a line break, then those of
/// the second; two files of whole lines are joined as they are, the first
/// followed by the second.
pub proof fn law_cat_keeps_order(first: Seq<char>, second: Seq<char>)
    ensures
        catenated(first, second) == terminated(text_lines(first)) + terminated(text_lines(second)),
        whole_lines(first) ==> terminated(text_lines(first)) == first,
        whole_lines(first) && whole_lines(second) ==> catenated(first, second) == first + second,
{
    if whole_lines(first) {
        lemma_lines_reassemble(first, 0);
        assert(first.subrange(0, first.len() as int) =~= first);
    }
    if whole_lines(second) {
        lemma_lines_reassemble(second, 0);
        assert(second.subrange(0, second.len() as int) =~= second);
    }
}

} // verus!
