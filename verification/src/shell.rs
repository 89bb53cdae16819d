//! Repair commands an operator can paste into a shell: a path quoted as one
//! word so that a name chosen by someone else cannot extend it.

use vstd::prelude::*;
use crate::display::{is_placeholder_char, needs_placeholder};
use crate::text::{collect_chars, owned, push_char, push_str};

verus! {

/// What one character of a path becomes inside a single-quoted word: a quote
/// leaves the word, is spelled escaped, and re-enters it.
pub open spec fn quote_piece(c: char) -> Seq<char> {
    if c == '\'' {
        seq!['\'', '\\', '\'', '\'']
    } else {
        seq![c]
    }
}

pub open spec fn quote_body(s: Seq<char>) -> Seq<char>
    decreases s.len(),
{
    if s.len() == 0 {
        seq![]
    } else {
        quote_body(s.drop_last()) + quote_piece(s.last())
    }
}

/// `s` as one POSIX shell word, or nothing when it holds a character that does
/// not stand for itself on a terminal.
pub open spec fn quoted_word(s: Seq<char>) -> Option<Seq<char>> {
    if exists|i: int| 0 <= i < s.len() && is_placeholder_char(#[trigger] s[i]) {
        None
    } else {
        Some(seq!['\''] + quote_body(s) + seq!['\''])
    }
}

/// The value a POSIX shell gives the word `w`, for words made only of
/// single-quoted runs and backslash-escaped characters; `None` for anything
/// else, including an unquoted character a shell could split or expand and
/// an unterminated quote.
pub open spec fn shell_word_value(w: Seq<char>) -> Option<Seq<char>>
    decreases w.len(), 1int,
{
    if w.len() == 0 {
        Some(Seq::empty())
    } else if w[0] == '\'' {
        quoted_run_value(w.drop_first())
    } else if w[0] == '\\' && w.len() >= 2 {
        match shell_word_value(w.skip(2)) {
            Some(rest) => Some(seq![w[1]] + rest),
            None => None,
        }
    } else {
        None
    }
}

/// The value of the rest of a word read from inside a single-quoted run:
/// everything up to the closing quote stands for itself.
pub open spec fn quoted_run_value(w: Seq<char>) -> Option<Seq<char>>
    decreases w.len(), 0int,
{
    if w.len() == 0 {
        None
    } else if w[0] == '\'' {
        shell_word_value(w.drop_first())
    } else {
        match quoted_run_value(w.drop_first()) {
            Some(rest) => Some(seq![w[0]] + rest),
            None => None,
        }
    }
}

/// `s` put before the value `v`, when there is one.
pub open spec fn prepend(s: Seq<char>, v: Option<Seq<char>>) -> Option<Seq<char>> {
    match v {
        Some(rest) => Some(s + rest),
        None => None,
    }
}

proof fn lemma_piece_read_inside(c: char, u: Seq<char>)
    ensures
        quoted_run_value(quote_piece(c) + u) == prepend(seq![c], quoted_run_value(u)),
{
    let w = quote_piece(c) + u;
    if c == '\'' {
        let out = w.drop_first();
        assert(out =~= seq!['\\', '\'', '\''] + u);
        assert(w[0] == '\'');
        assert(quoted_run_value(w) == shell_word_value(out));
        assert(out[0] == '\\' && out[1] == '\'' && out.len() >= 2);
        let back = out.skip(2);
        assert(back =~= seq!['\''] + u);
        assert(shell_word_value(out) == prepend(seq!['\''], shell_word_value(back)));
        assert(back[0] == '\'');
        assert(back.drop_first() =~= u);
        assert(shell_word_value(back) == quoted_run_value(u));
    } else {
        assert(w[0] == c);
        assert(w.drop_first() =~= u);
        assert(quoted_run_value(w) == prepend(seq![c], quoted_run_value(u)));
    }
}

proof fn lemma_body_read_inside(s: Seq<char>, u: Seq<char>)
    ensures
        quoted_run_value(quote_body(s) + u) == prepend(s, quoted_run_value(u)),
    decreases s.len(),
{
    if s.len() == 0 {
        assert(quote_body(s) + u =~= u);
        assert(s + Seq::<char>::empty() =~= s);
        match quoted_run_value(u) {
            Some(rest) => {
                assert(s + rest =~= rest);
            },
            None => {},
        }
    } else {
        let prev = s.drop_last();
        let c = s.last();
        assert(quote_body(s) + u =~= quote_body(prev) + (quote_piece(c) + u));
        lemma_body_read_inside(prev, quote_piece(c) + u);
        lemma_piece_read_inside(c, u);
        match quoted_run_value(u) {
            Some(rest) => {
                assert(prev + (seq![c] + rest) =~= s + rest);
            },
            None => {},
        }
    }
}

/// A quoted path is one shell word whose value is the path itself: a shell
/// reading the word gives back exactly `s`, so no name can extend the
/// command it stands in.
pub proof fn lemma_quoted_word_reads_back(s: Seq<char>)
    requires
        quoted_word(s) is Some,
    ensures
        shell_word_value(quoted_word(s)->0) == Some(s),
{
    let w = quoted_word(s)->0;
    assert(w =~= seq!['\''] + quote_body(s) + seq!['\'']);
    assert(w[0] == '\'');
    assert(w.drop_first() =~= quote_body(s) + seq!['\'']);
    assert(shell_word_value(w) == quoted_run_value(w.drop_first()));
    lemma_body_read_inside(s, seq!['\'']);
    let close = seq!['\''];
    assert(close[0] == '\'');
    assert(close.drop_first() =~= Seq::<char>::empty());
    assert(quoted_run_value(close) == shell_word_value(close.drop_first()));
    assert(shell_word_value(Seq::<char>::empty()) == Some(Seq::<char>::empty()));
    assert(s + Seq::<char>::empty() =~= s);
}

/// Quote a path as a single POSIX shell word.
///
/// Returns `None` when the path holds a character that does not stand for
/// itself on a terminal: a newline could forge a second line and a
/// bidirectional override could make the command appear to name another path.
pub fn quote_posix_argument(path: &str) -> (r: Option<String>)
    ensures
        match quoted_word(path@) {
            Some(w) => r matches Some(q) && q@ == w,
            None => r is None,
        },
{
    let chars = collect_chars(path);
    let mut i: usize = 0;
    while i < chars.len()
        invariant
            i <= chars.len(),
            chars@ == path@,
            forall|j: int| 0 <= j < i ==> !is_placeholder_char(#[trigger] chars@[j]),
        decreases chars.len() - i,
    {
        if needs_placeholder(chars[i]) {
            return None;
        }
        i = i + 1;
    }
    let mut quoted = owned("'");
    proof {
        reveal_strlit("'");
        assert(chars@.take(0) =~= seq![]);
        assert(quoted@ =~= seq!['\''] + quote_body(chars@.take(0)));
    }
    let mut k: usize = 0;
    while k < chars.len()
        invariant
            k <= chars.len(),
            quoted@ == seq!['\''] + quote_body(chars@.take(k as int)),
        decreases chars.len() - k,
    {
        let ch = chars[k];
        proof {
            assert(chars@.take(k + 1).drop_last() =~= chars@.take(k as int));
        }
        if ch == '\'' {
            push_char(&mut quoted, '\'');
            push_char(&mut quoted, '\\');
            push_char(&mut quoted, '\'');
            push_char(&mut quoted, '\'');
        } else {
            push_char(&mut quoted, ch);
        }
        proof {
            assert(quoted@ =~= seq!['\''] + quote_body(chars@.take(k + 1)));
        }
        k = k + 1;
    }
    push_char(&mut quoted, '\'');
    proof {
        assert(chars@.take(chars@.len() as int) =~= chars@);
        assert(quoted@ =~= seq!['\''] + quote_body(path@) + seq!['\'']);
    }
    Some(quoted)
}

/// Calls `std::path::absolute` and returns the result as text. The result
/// depends on the working directory, so it is not named; the standard library
/// documents that an empty path is refused and that a Unix absolute path
/// begins with `/`. A result that is not UTF-8 is reported as `None`.
#[verifier::external_body]
fn absolute_command_path(path: &str) -> (r: Option<String>)
    ensures
        path@.len() == 0 ==> r is None,
        r matches Some(a) ==> a@.len() > 0 && a@[0] == '/',
{
    match std::path::absolute(path) {
        Ok(absolute) => absolute.to_str().map(str::to_owned),
        Err(_) => None,
    }
}

/// The repair command that names `absolute` after `--`, or nothing when the
/// path cannot be quoted safely.
pub open spec fn repair_line(command: Seq<char>, absolute: Seq<char>) -> Option<Seq<char>> {
    match quoted_word(absolute) {
        Some(w) => Some(command + seq![' ', '-', '-', ' '] + w),
        None => None,
    }
}

/// `line` is the repair command `command` forms for some absolute path.
pub open spec fn names_absolute_repair(command: Seq<char>, line: Seq<char>) -> bool {
    exists|abs: Seq<char>|
        abs.len() > 0 && abs[0] == '/' && #[trigger] repair_line(command, abs) == Some(line)
}

/// The repair command for a path already made absolute: `command`, `--` and
/// the path quoted as one word, or `None` when it cannot be quoted safely.
pub fn repair_command_for_absolute(command: &str, absolute: &str) -> (r: Option<String>)
    ensures
        match repair_line(command@, absolute@) {
            Some(line) => r matches Some(s) && s@ == line,
            None => r is None,
        },
{
    let argument = quote_posix_argument(absolute)?;
    let mut line = owned(command);
    push_str(&mut line, " -- ");
    push_str(&mut line, argument.as_str());
    proof {
        reveal_strlit(" -- ");
        assert(line@ =~= command@ + seq![' ', '-', '-', ' '] + argument@);
    }
    Some(line)
}

/// A repair command naming `path` as an absolute, quoted word after `--`.
///
/// Returns `None` when the path cannot be made absolute or quoted safely.
/// The absolute form depends on the working directory, so what is stated is
/// that any line returned is the repair `repair_command_for_absolute` forms
/// for an absolute path, and that an empty path gives none.
pub fn format_repair_command(command: &str, path: &str) -> (r: Option<String>)
    ensures
        path@.len() == 0 ==> r is None,
        r matches Some(line) ==> names_absolute_repair(command@, line@),
{
    let absolute = absolute_command_path(path)?;
    let r = repair_command_for_absolute(command, absolute.as_str());
    proof {
        if r is Some {
            assert(repair_line(command@, absolute@) == Some(r->0@));
        }
    }
    r
}

/// The repair appended to an explanation, or a note that none can be shown.
pub fn append_repair_command(explanation: &str, command: &str, path: &str) -> (r: String)
    ensures
        r@.take(explanation@.len() as int) == explanation@,
{
    let mut out = owned(explanation);
    match format_repair_command(command, path) {
        Some(repair) => {
            push_str(&mut out, "; run: ");
            push_str(&mut out, repair.as_str());
        },
        None => {
            push_str(
                &mut out,
                "; no repair command is shown because the path holds bytes that are not valid UTF-8 or contains characters that cannot be displayed safely",
            );
        },
    }
    proof {
        assert(out@.take(explanation@.len() as int) =~= explanation@);
    }
    out
}

} // verus!
