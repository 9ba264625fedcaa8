//! Script-host paths and the reports of script errors.

use vstd::prelude::*;
use vstd::string::StrSliceExecFns;
use crate::text::{
    chars_of, decimal, find_from, first_occurrence_from, occurs_at, parse_unsigned, parsed_unsigned, push_char,
    push_str, string_from_chars, to_owned_string, usize_to_decimal, is_digit,
};

verus! {

/// The helper script appended to every stage script.
pub const UTILS_SCRIPT: &'static str = "scripts/utils.rhai";

/// The directory used when a script path has no parent.
pub const DEFAULT_SCRIPT_DIR: &'static str = "scripts";

/// The parent directory of a path, as text, if it has one.
pub uninterp spec fn path_parent(path: Seq<char>) -> Option<Seq<char>>;

/// The parent of a path.
///
/// Trusted: `std::path::Path::parent`, read back with `to_str`; the result is
/// named `path_parent` of the path, and the documented fact that an empty path
/// has no parent is stated.  Nothing else is claimed.
#[verifier::external_body]
fn parent_of(path: &str) -> (r: Option<String>)
    ensures
        r.deep_view() == path_parent(path@),
        path@.len() == 0 ==> r is None,
{
    std::path::Path::new(path).parent().map(|p| p.to_string_lossy().into_owned())
}

/// The directory a script's stages are looked up in: the script's parent
/// directory, or `scripts` when it has none.
pub open spec fn script_directory(file_path: Seq<char>) -> Seq<char> {
    match path_parent(file_path) {
        Some(d) => d,
        None => "scripts"@,
    }
}

/// The directory of a script file.
pub fn get_directory(file_path: &str) -> (d: String)
    ensures
        d@ == script_directory(file_path@),
{
    match parent_of(file_path) {
        Some(d) => d,
        None => to_owned_string(DEFAULT_SCRIPT_DIR),
    }
}

/// The script of a stage: `<dir>/<stage>.rhai`.
pub open spec fn stage_path(dir: Seq<char>, stage: Seq<char>) -> Seq<char> {
    dir + "/"@ + stage + ".rhai"@
}

/// The path of a stage's script.
pub fn stage_script_path(dir: &str, stage: &str) -> (p: String)
    ensures
        p@ == stage_path(dir@, stage@),
{
    let mut p = to_owned_string(dir);
    push_str(&mut p, "/");
    push_str(&mut p, stage);
    push_str(&mut p, ".rhai");
    p
}

/// The file a session's script state is saved in:
/// `data/sessions/<user>/states-<id>.json`.
pub open spec fn states_path(username: Seq<char>, session_id: nat) -> Seq<char> {
    "data/sessions/"@ + username + "/states-"@ + decimal(session_id) + ".json"@
}

/// The path of a session's saved script state.
pub fn states_file_path(username: &str, session_id: usize) -> (p: String)
    ensures
        p@ == states_path(username@, session_id as nat),
{
    let mut p = to_owned_string("data/sessions/");
    push_str(&mut p, username);
    push_str(&mut p, "/states-");
    let n = usize_to_decimal(session_id);
    push_str(&mut p, n.as_str());
    push_str(&mut p, ".json");
    p
}

/// The result of joining a path onto a base path.
pub uninterp spec fn path_joined(base: Seq<char>, path: Seq<char>) -> Seq<char>;

/// Joins a path onto a base path.
///
/// Trusted: `std::path::Path::join`, read back as text; the result is named
/// `path_joined` of the two paths.  Nothing else is claimed.
#[verifier::external_body]
fn join_path(base: &str, path: &str) -> (r: String)
    ensures
        r@ == path_joined(base@, path@),
{
    std::path::Path::new(base).join(path).to_string_lossy().into_owned()
}

/// The directory a user's script state is kept in: `data/sessions` joined
/// with the user name.
pub fn user_state_dir(username: &str) -> (p: String)
    ensures
        p@ == path_joined("data/sessions"@, username@),
{
    join_path("data/sessions", username)
}

/// Whether a path is relative.
pub uninterp spec fn path_is_relative(path: Seq<char>) -> bool;

/// Whether a path is relative.
///
/// Trusted: `std::path::Path::is_relative`; named `path_is_relative`.
#[verifier::external_body]
fn is_relative(path: &str) -> (b: bool)
    ensures
        b == path_is_relative(path@),
{
    std::path::Path::new(path).is_relative()
}

/// Whether a path lies under a base path, component by component.
pub uninterp spec fn path_within(path: Seq<char>, base: Seq<char>) -> bool;

/// Whether a path starts with a base path.
///
/// Trusted: `std::path::Path::starts_with`; named `path_within`.
#[verifier::external_body]
fn starts_with_path(path: &str, base: &str) -> (b: bool)
    ensures
        b == path_within(path@, base@),
{
    std::path::Path::new(path).starts_with(base)
}

/// The path a script asks for, placed in the sandbox: a relative path is
/// taken relative to the sandbox root.
pub open spec fn sandbox_candidate_of(root: Seq<char>, str_path: Seq<char>) -> Seq<char> {
    if path_is_relative(str_path) {
        path_joined(root, str_path)
    } else {
        str_path
    }
}

/// Places a path a script asks for in the sandbox.
pub fn sandbox_candidate(root: &str, str_path: &str) -> (p: String)
    ensures
        p@ == sandbox_candidate_of(root@, str_path@),
{
    if is_relative(str_path) {
        join_path(root, str_path)
    } else {
        to_owned_string(str_path)
    }
}

/// The answer to a script's path request, given where the candidate path
/// really leads (`canonical`, or the error resolving it): the candidate
/// itself when it leads into the sandbox root, `Path out of bounds` when it
/// leads elsewhere, and the resolution error when it leads nowhere.
pub open spec fn sandbox_answer(root: Seq<char>, candidate: Seq<char>, canonical: Result<Seq<char>, Seq<char>>) -> Result<
    Seq<char>,
    Seq<char>,
> {
    match canonical {
        Ok(p) => if path_within(p, root) {
            Ok(candidate)
        } else {
            Err("Path out of bounds"@)
        },
        Err(e) => Err(e),
    }
}

/// Decides a script's path request.
pub fn sandbox_check(root: &str, candidate: String, canonical: Result<String, String>) -> (r: Result<String, String>)
    ensures
        match r {
            Ok(p) => sandbox_answer(root@, candidate@, text_result(canonical)) == Ok::<Seq<char>, Seq<char>>(p@),
            Err(e) => sandbox_answer(root@, candidate@, text_result(canonical)) == Err::<Seq<char>, Seq<char>>(e@),
        },
{
    match canonical {
        Ok(p) => if starts_with_path(p.as_str(), root) {
            Ok(candidate)
        } else {
            Err(to_owned_string("Path out of bounds"))
        },
        Err(e) => Err(e),
    }
}

/// Whether a character is a decimal digit as the `regex` class `\d` has
/// it: a Unicode decimal number (`Nd`), the ASCII digits among them.
pub uninterp spec fn regex_digit(c: char) -> bool;

/// Whether a character matches the `regex` class `\d`.
///
/// Trusted: `regex::Regex::is_match` of the pattern `^\d$` on the
/// one-character text; the answer is named `regex_digit` of the character,
/// and the documented fact that the ASCII digits `0`..`9` match is stated.
/// Nothing else is claimed.
#[verifier::external_body]
fn is_regex_digit(c: char) -> (b: bool)
    ensures
        b == regex_digit(c),
        is_digit(c) ==> b,
{
    let mut buf = [0u8; 4];
    regex::Regex::new(r"^\d$").unwrap().is_match(c.encode_utf8(&mut buf))
}

/// The end of the run of `\d` digits that starts at `a`.
pub open spec fn digit_run_end(s: Seq<char>, a: int) -> int
    decreases s.len() - a,
{
    if a < 0 || a >= s.len() || !regex_digit(s[a]) {
        a
    } else {
        digit_run_end(s, a + 1)
    }
}

/// Whether `(line <digits>, position <digits>)` starts at `i`.
pub open spec fn line_pos_at(s: Seq<char>, i: int) -> bool {
    let a = i + 6;
    let b = digit_run_end(s, a);
    let c = b + 11;
    let d = digit_run_end(s, c);
    &&& occurs_at(s, "(line "@, i)
    &&& a < b
    &&& occurs_at(s, ", position "@, b)
    &&& c < d && d < s.len()
    &&& s[d] == ')'
}

/// The first position at or after `i` where the pattern starts.
pub open spec fn first_line_pos(s: Seq<char>, i: int) -> Option<int>
    decreases s.len() - i,
{
    if i < 0 || i >= s.len() {
        None
    } else if line_pos_at(s, i) {
        Some(i)
    } else {
        first_line_pos(s, i + 1)
    }
}

/// The line and position an error text names: from the first
/// `(line N, position M)` in it, `N` and `M` being runs of `\d` digits,
/// both read as 16-bit numbers; `None` when either does not read as one
/// (a digit outside ASCII, or a value above 65535).
pub open spec fn line_and_position(s: Seq<char>) -> Option<(nat, nat)> {
    match first_line_pos(s, 0) {
        Some(i) => {
            let b = digit_run_end(s, i + 6);
            let d = digit_run_end(s, b + 11);
            match (parsed_unsigned(s.subrange(i + 6, b), 65535), parsed_unsigned(s.subrange(b + 11, d), 65535)) {
                (Some(l), Some(p)) => Some((l, p)),
                _ => None,
            }
        },
        None => None,
    }
}

/// The view of a result of texts.
pub open spec fn text_result(r: Result<String, String>) -> Result<Seq<char>, Seq<char>> {
    match r {
        Ok(p) => Ok(p@),
        Err(e) => Err(e@),
    }
}

proof fn lemma_digit_run_end(s: Seq<char>, a: int)
    requires
        0 <= a <= s.len(),
    ensures
        a <= digit_run_end(s, a) <= s.len(),
        forall|k: int| a <= k < digit_run_end(s, a) ==> regex_digit(#[trigger] s[k]),
    decreases s.len() - a,
{
    if a < s.len() && regex_digit(s[a]) {
        lemma_digit_run_end(s, a + 1);
    }
}

proof fn lemma_first_line_pos(s: Seq<char>, j: int, i: int)
    requires
        first_line_pos(s, j) == Some(i),
    ensures
        line_pos_at(s, i),
        j <= i < s.len(),
    decreases s.len() - j,
{
    if 0 <= j < s.len() && !line_pos_at(s, j) {
        lemma_first_line_pos(s, j + 1, i);
    }
}

fn digit_end(v: &Vec<char>, a: usize) -> (e: usize)
    requires
        a <= v@.len(),
    ensures
        e == digit_run_end(v@, a as int),
        a <= e <= v@.len(),
{
    let mut e = a;
    proof {
        lemma_digit_run_end(v@, a as int);
    }
    while e < v.len() && is_regex_digit(v[e])
        invariant
            a <= e <= v@.len(),
            digit_run_end(v@, a as int) == digit_run_end(v@, e as int),
        decreases v.len() - e,
    {
        e = e + 1;
    }
    e
}

fn line_pos_match(v: &Vec<char>, open: &Vec<char>, mid: &Vec<char>, i: usize) -> (b: bool)
    requires
        open@ == "(line "@,
        mid@ == ", position "@,
        open@.len() == 6,
        mid@.len() == 11,
        i < v@.len(),
    ensures
        b == line_pos_at(v@, i as int),
{
    if !crate::text::matches_at(v, open, i) {
        return false;
    }
    assert(i + 6 <= v@.len());
    assert(v@.len() == v.len());
    let a = i + 6;
    let b = digit_end(v, a);
    if b == a {
        return false;
    }
    if !crate::text::matches_at(v, mid, b) {
        return false;
    }
    assert(b + 11 <= v@.len());
    assert(v@.len() == v.len());
    let c = b + 11;
    let d = digit_end(v, c);
    d > c && d < v.len() && v[d] == ')'
}

/// Reads the line and position out of a script error's text.
pub fn extract_line_and_position(s: &str) -> (r: Option<(u16, u16)>)
    ensures
        match r {
            Some((l, p)) => line_and_position(s@) == Some((l as nat, p as nat)),
            None => line_and_position(s@) is None,
        },
{
    let v = chars_of(s);
    let open = chars_of("(line ");
    let mid = chars_of(", position ");
    proof {
        reveal_strlit("(line ");
        reveal_strlit(", position ");
    }
    let mut i: usize = 0;
    let mut found: Option<usize> = None;
    while i < v.len() && found.is_none()
        invariant
            v@ == s@,
            open@ == "(line "@,
            mid@ == ", position "@,
            open@.len() == 6,
            mid@.len() == 11,
            i <= v@.len(),
            found matches Some(j) ==> first_line_pos(v@, 0) == Some(j as int) && j < v@.len(),
            found is None ==> first_line_pos(v@, 0) == first_line_pos(v@, i as int),
        decreases v.len() - i, (if found is None { 1int } else { 0int }),
    {
        if line_pos_match(&v, &open, &mid, i) {
            found = Some(i);
        } else {
            i = i + 1;
        }
    }
    let i = match found {
        Some(i) => i,
        None => return None,
    };
    assert(first_line_pos(v@, 0) == Some(i as int));
    proof {
        lemma_first_line_pos(v@, 0, i as int);
    }
    assert(occurs_at(v@, "(line "@, i as int));
    let b = digit_end(&v, i + 6);
    assert(occurs_at(v@, ", position "@, b as int));
    let d = digit_end(&v, b + 11);
    let line_text = string_from_chars(&v, i + 6, b);
    let pos_text = string_from_chars(&v, b + 11, d);
    let line = parse_unsigned(line_text.as_str(), 65535);
    let pos = parse_unsigned(pos_text.as_str(), 65535);
    match (line, pos) {
        (Some(l), Some(p)) => Some((l as u16, p as u16)),
        _ => None,
    }
}

/// The first position at or after `k` that holds `\n`, or the length.
pub open spec fn next_newline(s: Seq<char>, k: int) -> int
    decreases s.len() - k,
{
    if k < 0 || k >= s.len() || s[k] == '\n' {
        k
    } else {
        next_newline(s, k + 1)
    }
}

/// The next newline lies between `k` and the end, and is a newline.
pub proof fn lemma_next_newline(s: Seq<char>, k: int)
    requires
        0 <= k <= s.len(),
    ensures
        k <= next_newline(s, k) <= s.len(),
        next_newline(s, k) < s.len() ==> s[next_newline(s, k)] == '\n',
    decreases s.len() - k,
{
    if k < s.len() && s[k] != '\n' {
        lemma_next_newline(s, k + 1);
    }
}

/// A line without the `\r` that ended it.
pub open spec fn strip_cr(piece: Seq<char>) -> Seq<char> {
    if piece.len() > 0 && piece.last() == '\r' {
        piece.drop_last()
    } else {
        piece
    }
}

/// The lines of a text from `start`, as `str::lines` splits it: at each
/// `\n`, dropping a `\r` just before it; a final line needs no `\n`.
pub open spec fn lines_from(s: Seq<char>, start: int) -> Seq<Seq<char>>
    decreases s.len() - start,
{
    if start < 0 || start >= s.len() {
        Seq::empty()
    } else {
        let j = next_newline(s, start);
        proof {
            lemma_next_newline(s, start);
        }
        if j < s.len() {
            seq![strip_cr(s.subrange(start, j))] + lines_from(s, j + 1)
        } else {
            seq![s.subrange(start, s.len() as int)]
        }
    }
}

/// The lines of a text.
pub open spec fn text_lines(s: Seq<char>) -> Seq<Seq<char>> {
    lines_from(s, 0)
}

/// Splits a text into lines.
pub fn split_lines(s: &str) -> (lines: Vec<String>)
    ensures
        lines.deep_view() == text_lines(s@),
{
    let v = chars_of(s);
    let mut lines: Vec<String> = Vec::new();
    let mut start: usize = 0;
    assert(lines.deep_view() + lines_from(s@, 0) =~= lines_from(s@, 0));
    while start < v.len()
        invariant
            v@ == s@,
            start <= v@.len(),
            text_lines(s@) == lines.deep_view() + lines_from(s@, start as int),
        decreases v.len() - start,
    {
        let mut j = start;
        proof {
            lemma_next_newline(v@, start as int);
        }
        while j < v.len() && v[j] != '\n'
            invariant
                start <= j <= v@.len(),
                next_newline(v@, start as int) == next_newline(v@, j as int),
            decreases v.len() - j,
        {
            j = j + 1;
        }
        let ghost before = lines.deep_view();
        let ghost rest = lines_from(s@, start as int);
        if j < v.len() {
            let end = if j > start && v[j - 1] == '\r' { j - 1 } else { j };
            let line = string_from_chars(&v, start, end);
            proof {
                let piece = s@.subrange(start as int, j as int);
                if j > start && v@[j - 1] == '\r' {
                    assert(piece.drop_last() =~= v@.subrange(start as int, end as int));
                } else {
                    assert(piece =~= v@.subrange(start as int, end as int));
                }
                assert(rest == seq![strip_cr(piece)] + lines_from(s@, j + 1));
            }
            lines.push(line);
            proof {
                assert(lines.deep_view() =~= before.push(line@));
                assert(before + rest =~= lines.deep_view() + lines_from(s@, j + 1));
            }
            start = j + 1;
        } else {
            let line = string_from_chars(&v, start, j);
            lines.push(line);
            proof {
                assert(lines.deep_view() =~= before.push(line@));
                assert(rest == seq![s@.subrange(start as int, s@.len() as int)]);
                assert(lines_from(s@, j as int) =~= Seq::<Seq<char>>::empty());
                assert(before + rest =~= lines.deep_view() + lines_from(s@, j as int));
            }
            start = j;
        }
    }
    assert(lines_from(s@, start as int) =~= Seq::<Seq<char>>::empty());
    assert(lines.deep_view() + Seq::<Seq<char>>::empty() =~= lines.deep_view());
    lines
}

/// `n` spaces.
pub open spec fn spaces(n: nat) -> Seq<char> {
    Seq::new(n, |i: int| ' ')
}

/// A marker right-aligned in a field of `width` characters.
pub open spec fn padded(marker: Seq<char>, width: nat) -> Seq<char> {
    if width > marker.len() {
        spaces((width - marker.len()) as nat) + marker
    } else {
        marker
    }
}

/// The marker of the `i`-th line of an error message: `^ ` for the first,
/// `| ` for the rest.
pub open spec fn marker_of(i: int) -> Seq<char> {
    if i > 0 {
        "| "@
    } else {
        "^ "@
    }
}

/// The lines of an error message, each behind its marker aligned at `width`.
pub open spec fn marker_lines(errs: Seq<Seq<char>>, width: nat) -> Seq<char>
    decreases errs.len(),
{
    if errs.len() == 0 {
        Seq::empty()
    } else {
        marker_lines(errs.drop_last(), width) + padded(marker_of(errs.len() - 1), width) + errs.last() + "\n"@
    }
}

/// The report of a script error at a line and position: the numbered source
/// line, then the error message with a marker under the position, then an
/// empty line.
pub open spec fn error_report(input: Seq<char>, line: nat, position: nat, err_msg: Seq<char>) -> Seq<char> {
    let line_no = decimal(line) + ": "@;
    line_no + text_lines(input)[line - 1] + "\n"@ + marker_lines(text_lines(err_msg), line_no.len() + position + 1)
        + "\n"@
}

fn push_padded(out: &mut String, marker: &str, width: usize)
    requires
        marker@.len() == 2,
    ensures
        final(out)@ == old(out)@ + padded(marker@, width as nat),
{
    let ghost start = out@;
    if width > 2 {
        let mut k: usize = 0;
        while k < width - 2
            invariant
                width > 2,
                k <= width - 2,
                out@ == start + spaces(k as nat),
            decreases width - 2 - k,
        {
            push_char(out, ' ');
            k = k + 1;
            assert(out@ =~= start + spaces(k as nat));
        }
    }
    push_str(out, marker);
    proof {
        if width <= 2 {
            assert(padded(marker@, width as nat) == marker@);
        }
    }
}

/// Reports a script error at a line and position of the script's text.
pub fn esprint_error(input: &str, line: usize, position: usize, err_msg: &str) -> (report: String)
    requires
        1 <= line <= text_lines(input@).len(),
        position <= 65535,
    ensures
        report@ == error_report(input@, line as nat, position as nat, err_msg@),
{
    proof {
        reveal_strlit("| ");
        reveal_strlit("^ ");
        reveal_strlit(": ");
    }
    let lines = split_lines(input);
    let mut line_no = usize_to_decimal(line);
    push_str(&mut line_no, ": ");
    let width_base = line_no.as_str().unicode_len();
    proof {
        lemma_decimal_len(line as nat);
    }
    let width = width_base + position + 1;
    let mut output = line_no.clone();
    assert(lines.deep_view()[line - 1] == lines[line - 1]@);
    push_str(&mut output, lines[line - 1].as_str());
    push_str(&mut output, "\n");
    let errs = split_lines(err_msg);
    let ghost head = output@;
    let mut i: usize = 0;
    while i < errs.len()
        invariant
            i <= errs@.len(),
            output@ == head + marker_lines(errs.deep_view().subrange(0, i as int), width as nat),
        decreases errs.len() - i,
    {
        let ghost pre = errs.deep_view().subrange(0, i + 1);
        assert(pre.drop_last() =~= errs.deep_view().subrange(0, i as int));
        assert(pre.last() == errs[i as int]@);
        proof {
            reveal_strlit("| ");
            reveal_strlit("^ ");
        }
        if i > 0 {
            push_padded(&mut output, "| ", width);
        } else {
            push_padded(&mut output, "^ ", width);
        }
        push_str(&mut output, errs[i].as_str());
        push_str(&mut output, "\n");
        i = i + 1;
    }
    assert(errs.deep_view().subrange(0, errs@.len() as int) =~= errs.deep_view());
    push_str(&mut output, "\n");
    output
}

/// A decimal rendering of a machine word has at most 20 digits.
pub proof fn lemma_decimal_len(n: nat)
    requires
        n <= usize::MAX,
    ensures
        decimal(n).len() <= 20,
{
    reveal_with_fuel(pow10, 21);
    assert(pow10(20) == 100000000000000000000nat);
    lemma_decimal_digits(n, 20);
}

proof fn lemma_decimal_digits(n: nat, k: nat)
    requires
        k >= 1,
        n < pow10(k),
    ensures
        decimal(n).len() <= k,
    decreases n,
{
    if n >= 10 {
        assert(k >= 2) by {
            if k == 1 {
                assert(pow10(1) == 10 * pow10(0));
            }
        }
        assert(pow10(k) == 10 * pow10((k - 1) as nat));
        assert(n / 10 < pow10((k - 1) as nat)) by (nonlinear_arith)
            requires
                n < 10 * pow10((k - 1) as nat),
        ;
        lemma_decimal_digits(n / 10, (k - 1) as nat);
    }
}

/// Ten to the power `k`.
pub open spec fn pow10(k: nat) -> nat
    decreases k,
{
    if k == 0 {
        1
    } else {
        10 * pow10((k - 1) as nat)
    }
}


/// Whether `(line <a>, position <b>)` starts at `i`, with `a` and `b`
/// non-empty runs of `\d` digits.
pub open spec fn names_position_at(s: Seq<char>, i: int, a: Seq<char>, b: Seq<char>) -> bool {
    &&& a.len() > 0 && b.len() > 0
    &&& forall|k: int| 0 <= k < a.len() ==> regex_digit(#[trigger] a[k])
    &&& forall|k: int| 0 <= k < b.len() ==> regex_digit(#[trigger] b[k])
    &&& occurs_at(s, "(line "@ + a + ", position "@ + b + ")"@, i)
}

proof fn lemma_first_line_pos_none_before(s: Seq<char>, j: int, i: int)
    requires
        0 <= j,
        first_line_pos(s, j) == Some(i),
    ensures
        forall|k: int| j <= k < i ==> !#[trigger] line_pos_at(s, k),
    decreases s.len() - j,
{
    if j < s.len() && !line_pos_at(s, j) {
        lemma_first_line_pos_none_before(s, j + 1, i);
    }
}

/// The line and position read from an error text are those of its first
/// `(line N, position M)`: the text holds `(line <a>, position <b>)` with
/// digit runs `a` and `b` that read as the line and the position, and no
/// such pattern starts earlier.
pub proof fn law_line_and_position_first(s: Seq<char>)
    ensures
        line_and_position(s) matches Some((l, p)) ==> exists|i: int, a: Seq<char>, b: Seq<char>|
            #[trigger] names_position_at(s, i, a, b) && parsed_unsigned(a, 65535) == Some(l) && parsed_unsigned(
                b,
                65535,
            ) == Some(p) && forall|k: int| 0 <= k < i ==> !#[trigger] line_pos_at(s, k),
{
    if let Some((l, p)) = line_and_position(s) {
        reveal_strlit("(line ");
        reveal_strlit(", position ");
        reveal_strlit(")");
        let i = first_line_pos(s, 0)->0;
        lemma_first_line_pos(s, 0, i);
        lemma_first_line_pos_none_before(s, 0, i);
        let bb = digit_run_end(s, i + 6);
        lemma_digit_run_end(s, i + 6);
        let d = digit_run_end(s, bb + 11);
        lemma_digit_run_end(s, bb + 11);
        let a = s.subrange(i + 6, bb);
        let b = s.subrange(bb + 11, d);
        assert forall|k: int| 0 <= k < a.len() implies regex_digit(#[trigger] a[k]) by {
            assert(a[k] == s[i + 6 + k]);
        }
        assert forall|k: int| 0 <= k < b.len() implies regex_digit(#[trigger] b[k]) by {
            assert(b[k] == s[bb + 11 + k]);
        }
        let whole = "(line "@ + a + ", position "@ + b + ")"@;
        assert(s.subrange(i, i + 6) == "(line "@);
        assert(s.subrange(bb, bb + 11) == ", position "@);
        assert(s.subrange(i, d + 1) =~= s.subrange(i, i + 6) + a + s.subrange(bb, bb + 11) + b + seq![s[d]]);
        assert(seq![s[d]] =~= ")"@);
        assert(whole.len() == d + 1 - i);
        assert(s.subrange(i, i + whole.len()) =~= whole);
        assert(names_position_at(s, i, a, b));
    }
}


proof fn lemma_no_newline_to_end(t: Seq<char>, k: int)
    requires
        0 <= k <= t.len(),
        forall|m: int| 0 <= m < t.len() ==> #[trigger] t[m] != '\n',
    ensures
        next_newline(t, k) == t.len(),
    decreases t.len() - k,
{
    if k < t.len() {
        lemma_no_newline_to_end(t, k + 1);
    }
}

/// A one-line error is reported under the line it points at: the report
/// echoes the numbered line of the script, then puts `^ ` and the message
/// so that the message starts under the reported position, then ends with
/// an empty line.
pub proof fn law_error_report_marks_position(input: Seq<char>, line: nat, position: nat, err_msg: Seq<char>)
    requires
        1 <= line <= text_lines(input).len(),
        err_msg.len() > 0,
        forall|m: int| 0 <= m < err_msg.len() ==> #[trigger] err_msg[m] != '\n',
    ensures
        error_report(input, line, position, err_msg) == decimal(line) + ": "@ + text_lines(input)[line - 1] + "\n"@
            + spaces((decimal(line).len() + position + 1) as nat) + "^ "@ + err_msg + "\n"@ + "\n"@,
{
    reveal_strlit(": ");
    reveal_strlit("^ ");
    lemma_no_newline_to_end(err_msg, 0);
    assert(text_lines(err_msg) == seq![err_msg.subrange(0, err_msg.len() as int)]);
    assert(err_msg.subrange(0, err_msg.len() as int) =~= err_msg);
    let errs = text_lines(err_msg);
    let width = (decimal(line) + ": "@).len() + position + 1;
    assert(errs.drop_last() =~= Seq::<Seq<char>>::empty());
    assert(marker_lines(errs.drop_last(), width as nat) == Seq::<char>::empty());
    assert(marker_of(0) == "^ "@);
    assert(padded("^ "@, width as nat) == spaces((decimal(line).len() + position + 1) as nat) + "^ "@);
    assert(marker_lines(errs, width as nat) =~= spaces((decimal(line).len() + position + 1) as nat) + "^ "@
        + err_msg + "\n"@);
    assert(error_report(input, line, position, err_msg) =~= decimal(line) + ": "@ + text_lines(input)[line - 1]
        + "\n"@ + spaces((decimal(line).len() + position + 1) as nat) + "^ "@ + err_msg + "\n"@ + "\n"@);
}


/// A script is given the path it asked for (placed in the sandbox) exactly
/// when that path really leads into the sandbox root; a path leading
/// elsewhere is refused as out of bounds, and a path leading nowhere with
/// the error of resolving it.
pub proof fn law_sandbox_answer(root: Seq<char>, candidate: Seq<char>, canonical: Result<Seq<char>, Seq<char>>)
    ensures
        sandbox_answer(root, candidate, canonical) is Ok <==> (canonical matches Ok(p) && path_within(p, root)),
        sandbox_answer(root, candidate, canonical) matches Ok(p) ==> p == candidate,
        canonical matches Ok(p) && !path_within(p, root) ==> sandbox_answer(root, candidate, canonical) == Err::<
            Seq<char>,
            Seq<char>,
        >("Path out of bounds"@),
        canonical matches Err(e) ==> sandbox_answer(root, candidate, canonical) == Err::<Seq<char>, Seq<char>>(e),
{
}

} // verus!
