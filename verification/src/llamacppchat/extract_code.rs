//! Code blocks for the script host in a model's reply.

use vstd::prelude::*;
use vstd::string::StrSliceExecFns;
use crate::text::{chars_of, contains, matches_at, occurs_at, to_owned_string};

verus! {

/// The opening fence of a script block.
pub open spec fn code_open() -> Seq<char> {
    "```Rhai_host\n"@
}

/// The fence that closes a script block.
pub open spec fn code_fence() -> Seq<char> {
    "```"@
}

/// The first position at or after `p` where a fence starts, if any.
pub open spec fn fence_from(s: Seq<char>, p: int) -> Option<int>
    decreases s.len() - p,
{
    if p < 0 || p + 3 > s.len() {
        None
    } else if occurs_at(s, code_fence(), p) {
        Some(p)
    } else {
        fence_from(s, p + 1)
    }
}

/// The block that starts at `start`, right after an opening fence: the text
/// up to the first fence when it stays on one line, or when its one line
/// break comes just before the fence (the block then ends before it).
pub open spec fn block_at(s: Seq<char>, start: int) -> Option<Seq<char>> {
    match fence_from(s, start) {
        Some(p) => {
            let q = s.subrange(start, p);
            if !q.contains('\n') {
                Some(q)
            } else if q.last() == '\n' && !q.drop_last().contains('\n') {
                Some(q.drop_last())
            } else {
                None
            }
        },
        None => None,
    }
}

/// The block of the first opening fence at or after `k` that opens one.
pub open spec fn code_block_from(s: Seq<char>, k: int) -> Option<Seq<char>>
    decreases s.len() - k,
{
    if k < 0 || k >= s.len() {
        None
    } else if occurs_at(s, code_open(), k) && block_at(s, k + 13) is Some {
        block_at(s, k + 13)
    } else {
        code_block_from(s, k + 1)
    }
}

/// The first script block of a text.
pub open spec fn code_block(s: Seq<char>) -> Option<Seq<char>> {
    code_block_from(s, 0)
}

proof fn lemma_fence_from_skip(s: Seq<char>, a: int, b: int)
    requires
        0 <= a <= b,
        forall|t: int| a <= t < b ==> !occurs_at(s, code_fence(), t),
    ensures
        fence_from(s, a) == fence_from(s, b),
    decreases b - a,
{
    if a < b && a + 3 <= s.len() {
        lemma_fence_from_skip(s, a + 1, b);
    } else if a < b {
        assert(fence_from(s, a) is None);
        assert(b + 3 > s.len());
    }
}

proof fn lemma_fence_from_found(s: Seq<char>, a: int)
    requires
        0 <= a,
    ensures
        fence_from(s, a) matches Some(p) ==> a <= p && occurs_at(s, code_fence(), p) && forall|t: int|
            a <= t < p ==> !occurs_at(s, code_fence(), t),
    decreases s.len() - a,
{
    if a + 3 <= s.len() && !occurs_at(s, code_fence(), a) {
        lemma_fence_from_found(s, a + 1);
    }
}

/// Finds the block that starts at `start`, as positions of its first and
/// one-past-last characters.
fn block_bounds(v: &Vec<char>, fence: &Vec<char>, start: usize) -> (r: Option<(usize, usize)>)
    requires
        start <= v@.len(),
        fence@ == code_fence(),
    ensures
        match r {
            Some((a, b)) => a == start && a <= b <= v@.len() && block_at(v@, start as int) == Some(
                v@.subrange(a as int, b as int),
            ),
            None => block_at(v@, start as int) is None,
        },
{
    let mut p = start;
    while p < v.len()
        invariant
            fence@ == code_fence(),
            start <= p <= v@.len(),
            forall|t: int| start <= t < p ==> !#[trigger] occurs_at(v@, code_fence(), t),
            forall|t: int| start <= t < p ==> #[trigger] v@[t] != '\n',
        decreases v.len() - p,
    {
        if matches_at(v, fence, p) {
            proof {
                lemma_fence_from_skip(v@, start as int, p as int);
                reveal_strlit("```");
                assert(fence_from(v@, p as int) == Some(p as int));
                let q = v@.subrange(start as int, p as int);
                assert(!q.contains('\n')) by {
                    if q.contains('\n') {
                        let k = choose|k: int| 0 <= k < q.len() && q[k] == '\n';
                        assert(v@[start + k] == '\n');
                    }
                }
            }
            return Some((start, p));
        }
        if v[p] == '\n' {
            if p + 1 <= v.len() && matches_at(v, fence, p + 1) {
                proof {
                    lemma_fence_from_skip(v@, start as int, p as int);
                    assert(!occurs_at(v@, code_fence(), p as int));
                    lemma_fence_from_skip(v@, p as int, p + 1);
                    reveal_strlit("```");
                    assert(fence_from(v@, p + 1) == Some(p + 1));
                    let q = v@.subrange(start as int, p + 1);
                    assert(q.last() == '\n');
                    assert(q[q.len() - 1] == '\n');
                    assert(q.contains('\n'));
                    assert(q.drop_last() =~= v@.subrange(start as int, p as int));
                    assert(!q.drop_last().contains('\n')) by {
                        if q.drop_last().contains('\n') {
                            let k = choose|k: int| 0 <= k < q.drop_last().len() && q.drop_last()[k] == '\n';
                            assert(v@[start + k] == '\n');
                        }
                    }
                }
                return Some((start, p));
            }
            proof {
                lemma_fence_from_skip(v@, start as int, p as int);
                assert(!occurs_at(v@, code_fence(), p as int)) by {
                    reveal_strlit("```");
                    if occurs_at(v@, code_fence(), p as int) {
                        assert(v@.subrange(p as int, p + 3)[0] == v@[p as int]);
                    }
                }
                lemma_fence_from_skip(v@, p as int, p + 1);
                lemma_fence_from_found(v@, p + 1);
                match fence_from(v@, start as int) {
                    Some(f) => {
                        let q = v@.subrange(start as int, f);
                        assert(f > p + 1);
                        assert(q[p - start] == '\n');
                        assert(q.contains('\n'));
                        assert(q.drop_last()[p - start] == '\n');
                        assert(q.drop_last().contains('\n'));
                    },
                    None => {},
                }
            }
            return None;
        }
        proof {
            reveal_strlit("```");
        }
        p = p + 1;
    }
    proof {
        lemma_fence_from_skip(v@, start as int, p as int);
    }
    None
}

/// Finds the script block of a text, as positions of its first and
/// one-past-last characters.
fn code_bounds(v: &Vec<char>) -> (r: Option<(usize, usize)>)
    ensures
        match r {
            Some((a, b)) => a <= b <= v@.len() && code_block(v@) == Some(v@.subrange(a as int, b as int)),
            None => code_block(v@) is None,
        },
{
    let open = chars_of("```Rhai_host\n");
    let fence = chars_of("```");
    proof {
        reveal_strlit("```Rhai_host\n");
        reveal_strlit("```");
    }
    let mut k: usize = 0;
    while k < v.len()
        invariant
            open@ == code_open(),
            fence@ == code_fence(),
            open@.len() == 13,
            k <= v@.len(),
            code_block(v@) == code_block_from(v@, k as int),
        decreases v.len() - k,
    {
        if matches_at(v, &open, k) {
            assert(k + 13 <= v@.len());
            match block_bounds(v, &fence, k + 13) {
                Some(r) => {
                    assert(code_block_from(v@, k as int) == block_at(v@, k + 13));
                    return Some(r);
                },
                None => {},
            }
        }
        k = k + 1;
    }
    None
}

/// Whether a text holds a script block.
pub fn check_for_code(s: &str) -> (b: bool)
    ensures
        b == code_block(s@) is Some,
{
    let v = chars_of(s);
    match code_bounds(&v) {
        Some(_) => true,
        None => false,
    }
}

/// The script block of a text, if it holds one.
pub fn extract_code(s: &str) -> (r: Option<&str>)
    ensures
        match r {
            Some(code) => code_block(s@) == Some(code@),
            None => code_block(s@) is None,
        },
{
    let v = chars_of(s);
    match code_bounds(&v) {
        Some((a, b)) => Some(s.substring_char(a, b)),
        None => None,
    }
}

/// What the host makes of a local model's finished reply: the reply, and
/// the script call it asks for (`eval` and the code) unless the code is empty.
pub open spec fn generation_outcome(reply: Seq<char>) -> (Seq<char>, Seq<char>, Seq<char>) {
    let code = code_block(reply).unwrap();
    if code.len() > 0 {
        (reply, "eval"@, code)
    } else {
        (reply, Seq::empty(), Seq::empty())
    }
}

/// Reads the outcome of a finished reply that holds a script block.
pub fn generation_reply(reply: &str) -> (r: (String, String, String))
    requires
        code_block(reply@) is Some,
    ensures
        (r.0@, r.1@, r.2@) == generation_outcome(reply@),
{
    let code = extract_code(reply).unwrap();
    if code.unicode_len() > 0 {
        (to_owned_string(reply), to_owned_string("eval"), to_owned_string(code))
    } else {
        (to_owned_string(reply), String::new(), String::new())
    }
}

/// Whether the opening fence, a block and a closing fence (right after the
/// block, or after one line break) stand together at position `i`.
pub open spec fn block_stands_at(s: Seq<char>, code: Seq<char>, i: int) -> bool {
    occurs_at(s, code_open() + code + code_fence(), i) || occurs_at(s, code_open() + code + "\n"@ + code_fence(), i)
}

/// A script block is the rest of the opening fence's line: it holds no line
/// break and no fence, and the opening fence, the block and a closing fence
/// (right after it, or after one line break) stand together in the text.
pub proof fn law_code_block_is_one_line(s: Seq<char>)
    ensures
        code_block(s) matches Some(code) ==> !code.contains('\n') && !contains(code, code_fence()),
        code_block(s) matches Some(code) ==> exists|i: int| block_stands_at(s, code, i),
{
    lemma_code_block_from(s, 0);
}

proof fn lemma_code_block_from(s: Seq<char>, k: int)
    requires
        0 <= k,
    ensures
        code_block_from(s, k) matches Some(code) ==> !code.contains('\n') && !contains(code, code_fence()),
        code_block_from(s, k) matches Some(code) ==> exists|i: int| block_stands_at(s, code, i),
    decreases s.len() - k,
{
    if k < s.len() {
        if occurs_at(s, code_open(), k) && block_at(s, k + 13) is Some {
            reveal_strlit("```Rhai_host\n");
            reveal_strlit("```");
            reveal_strlit("\n");
            let start = k + 13;
            lemma_fence_from_found(s, start);
            let p = fence_from(s, start)->0;
            let q = s.subrange(start, p);
            let code = block_at(s, k + 13)->0;
            if contains(code, code_fence()) {
                let t = choose|t: int| occurs_at(code, code_fence(), t);
                assert(code.subrange(t, t + 3) =~= s.subrange(start + t, start + t + 3));
                assert(occurs_at(s, code_fence(), start + t));
                assert(false);
            }
            assert(s.subrange(k, start) == code_open());
            assert(s.subrange(p, p + 3) == code_fence());
            assert(s.subrange(k, p + 3) =~= s.subrange(k, start) + q + s.subrange(p, p + 3));
            if !q.contains('\n') {
                let whole = code_open() + code + code_fence();
                assert(code == q);
                assert(whole.len() == p + 3 - k);
                assert(s.subrange(k, k + whole.len()) =~= whole);
                assert(occurs_at(s, whole, k));
            } else {
                let whole = code_open() + code + "\n"@ + code_fence();
                assert(code == q.drop_last());
                assert(q =~= code + "\n"@);
                assert(whole.len() == p + 3 - k);
                assert(s.subrange(k, k + whole.len()) =~= whole);
                assert(occurs_at(s, whole, k));
            }
            assert(block_stands_at(s, code, k));
            assert(code_block_from(s, k) == Some(code));
        } else {
            lemma_code_block_from(s, k + 1);
            assert(code_block_from(s, k) == code_block_from(s, k + 1));
        }
    }
}


/// Whether an opening fence at `k` opens a script block.
pub open spec fn opens_block_at(s: Seq<char>, k: int) -> bool {
    occurs_at(s, code_open(), k) && block_at(s, k + 13) is Some
}

/// The script block of a text is the block of the first opening fence that
/// opens one: a text holds a block exactly when some opening fence opens
/// one, and the block found is that of an opening fence before which no
/// opening fence opens a block.
pub proof fn law_code_block_is_first(s: Seq<char>)
    ensures
        code_block(s) is Some <==> exists|k: int| 0 <= k && #[trigger] opens_block_at(s, k),
        code_block(s) matches Some(code) ==> exists|i: int|
            0 <= i && #[trigger] opens_block_at(s, i) && block_at(s, i + 13) == Some(code) && forall|k: int|
                0 <= k < i ==> !#[trigger] opens_block_at(s, k),
{
    lemma_code_block_first_from(s, 0);
}

proof fn lemma_code_block_first_from(s: Seq<char>, k: int)
    requires
        0 <= k,
    ensures
        code_block_from(s, k) is Some <==> exists|i: int| k <= i && #[trigger] opens_block_at(s, i),
        code_block_from(s, k) matches Some(code) ==> exists|i: int|
            k <= i && #[trigger] opens_block_at(s, i) && block_at(s, i + 13) == Some(code) && forall|j: int|
                k <= j < i ==> !#[trigger] opens_block_at(s, j),
    decreases s.len() - k,
{
    reveal_strlit("```Rhai_host\n");
    if k >= s.len() {
        assert forall|i: int| k <= i implies !#[trigger] opens_block_at(s, i) by {
            assert(!occurs_at(s, code_open(), i));
        }
    } else if opens_block_at(s, k) {
        let code = block_at(s, k + 13)->0;
        assert(code_block_from(s, k) == Some(code));
        assert(opens_block_at(s, k) && block_at(s, k + 13) == Some(code) && forall|j: int|
            k <= j < k ==> !#[trigger] opens_block_at(s, j));
    } else {
        lemma_code_block_first_from(s, k + 1);
        assert(code_block_from(s, k) == code_block_from(s, k + 1));
        if exists|i: int| k <= i && #[trigger] opens_block_at(s, i) {
            let i = choose|i: int| k <= i && #[trigger] opens_block_at(s, i);
            assert(i != k);
            assert(k + 1 <= i && opens_block_at(s, i));
        }
        if code_block_from(s, k) is Some {
            let code = code_block_from(s, k)->0;
            let i = choose|i: int|
                k + 1 <= i && #[trigger] opens_block_at(s, i) && block_at(s, i + 13) == Some(code) && forall|j: int|
                    k + 1 <= j < i ==> !#[trigger] opens_block_at(s, j);
            assert forall|j: int| k <= j < i implies !#[trigger] opens_block_at(s, j) by {}
        }
    }
}

} // verus!
