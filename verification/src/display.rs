//! Display-only sanitisation for human-facing strings in logs and errors.
//!
//! These helpers are meant only for what an operator reads. They must not be
//! used for verification, comparison or as part of signed data.

use vstd::prelude::*;
use crate::text::{
    char_utf8_len, collect_chars, len_utf8, lemma_utf8_len_concat, push_char, string_from_chars,
    utf8_len,
};

verus! {

pub const DEFAULT_MAX_LEN: usize = 200;

pub const MIN_MAX_LEN: usize = 8;

pub const TRUNCATION_MARK: char = '\u{2026}';

/// A character in the Cc block, which `char::is_control` reports.
pub open spec fn is_control_char(c: char) -> bool {
    (c as u32) <= 0x1f || (0x7f <= (c as u32) && (c as u32) <= 0x9f)
}

/// Characters that reorder the text around them, render as nothing, or break
/// the line they sit on.
pub open spec fn is_reordering_or_hidden(c: char) -> bool {
    let v = c as u32;
    ||| v == 0x00AD
    ||| v == 0x061C
    ||| v == 0x180E
    ||| 0x200B <= v <= 0x200F
    ||| 0x2028 <= v <= 0x2029
    ||| 0x202A <= v <= 0x202E
    ||| 0x2060 <= v <= 0x2064
    ||| 0x2066 <= v <= 0x206F
    ||| v == 0xFEFF
    ||| 0xFFF9 <= v <= 0xFFFB
    ||| 0x1D173 <= v <= 0x1D17A
    ||| 0xE0000 <= v <= 0xE007F
}

/// A character that does not stand for itself once it reaches a terminal.
pub open spec fn is_placeholder_char(c: char) -> bool {
    is_control_char(c) || is_reordering_or_hidden(c)
}

/// What one character is shown as.
pub open spec fn escape_char(c: char) -> Seq<char> {
    if c == '\n' {
        seq!['\\', 'n']
    } else if c == '\r' {
        seq!['\\', 'r']
    } else if c == '\t' {
        seq!['\\', 't']
    } else if is_placeholder_char(c) {
        seq!['?']
    } else {
        seq![c]
    }
}

/// What a whole text is shown as: every character escaped in turn.
pub open spec fn escape_text(s: Seq<char>) -> Seq<char>
    decreases s.len(),
{
    if s.len() == 0 {
        seq![]
    } else {
        escape_text(s.drop_last()) + escape_char(s.last())
    }
}

/// Bytes the escaped form of the first `j` characters of `s` takes.
pub open spec fn escaped_prefix_len(s: Seq<char>, j: int) -> nat {
    utf8_len(escape_text(s.take(j)))
}

/// The longest prefix, of at most `j` characters, whose escaped form leaves
/// room for the truncation mark within `m` bytes.
pub open spec fn last_mark_fit(s: Seq<char>, m: nat, j: nat) -> nat
    decreases j,
{
    if escaped_prefix_len(s, j as int) + char_utf8_len(TRUNCATION_MARK) <= m {
        j
    } else if j == 0 {
        0
    } else {
        last_mark_fit(s, m, (j - 1) as nat)
    }
}

/// The sanitised form of `s` within `m` bytes: all of it escaped when that
/// fits, otherwise the longest escaped prefix that leaves room for the mark,
/// followed by the mark.
pub open spec fn sanitized(s: Seq<char>, m: nat) -> Seq<char> {
    if utf8_len(escape_text(s)) <= m {
        escape_text(s)
    } else {
        escape_text(s.take(last_mark_fit(s, m, s.len()) as int)).push(TRUNCATION_MARK)
    }
}

/// The bound actually applied for a requested `max_len`.
pub open spec fn effective_max_len(max_len: usize) -> nat {
    if max_len < MIN_MAX_LEN {
        MIN_MAX_LEN as nat
    } else {
        max_len as nat
    }
}

/// Sanitise `value` for display with the default length bound.
pub fn sanitize_display_field(value: &str) -> (r: String)
    ensures
        r@ == sanitized(value@, DEFAULT_MAX_LEN as nat),
{
    sanitize_display_field_with_limit(value, DEFAULT_MAX_LEN)
}

/// Escape control characters and truncate on a character boundary.
///
/// `max_len` (raised to at least 8) bounds the escaped output in bytes, the
/// truncation mark included; the mark is appended only when characters were
/// dropped.
pub fn sanitize_display_field_with_limit(value: &str, max_len: usize) -> (r: String)
    ensures
        r@ == sanitized(value@, effective_max_len(max_len)),
{
    let bound = if max_len < MIN_MAX_LEN { MIN_MAX_LEN } else { max_len };
    let ghost m = bound as nat;
    let chars = collect_chars(value);
    let ghost s = chars@;
    let mut out: Vec<char> = Vec::new();
    let mut out_len: usize = 0;
    let mut mark_fits_at: usize = 0;
    let mut i: usize = 0;
    proof {
        assert(s.take(0) =~= seq![]);
    }
    while i < chars.len()
        invariant
            s == chars@,
            s == value@,
            m == bound as nat,
            m == effective_max_len(max_len),
            bound >= MIN_MAX_LEN,
            i <= chars.len(),
            out@ == escape_text(s.take(i as int)),
            out_len == utf8_len(out@),
            out_len <= bound,
            mark_fits_at <= i,
            mark_fits_at == last_mark_fit(s, m, i as nat),
        decreases chars.len() - i,
    {
        let ch = chars[i];
        proof {
            assert(s.take(i + 1).drop_last() =~= s.take(i as int));
            lemma_utf8_len_concat(escape_text(s.take(i as int)), escape_char(ch));
        }
        let add = escaped_len(ch);
        proof {
            assert(escape_text(s.take(i + 1)) == escape_text(s.take(i as int)) + escape_char(ch));
        }
        if add > bound - out_len {
            proof {
                lemma_escaped_len_grows(s, i + 1, s.len() as int);
                assert(s.take(s.len() as int) =~= s);
            }
            let mut kept: Vec<char> = Vec::new();
            let mut k: usize = 0;
            proof {
                lemma_mark_prefix(s, m, i as nat);
            }
            let ghost target = escape_text(s.take(mark_fits_at as int));
            while k < mark_fits_at
                invariant
                    k <= mark_fits_at <= i <= chars.len(),
                    s == chars@,
                    kept@ =~= escape_text(s.take(k as int)),
                    target == escape_text(s.take(mark_fits_at as int)),
                decreases mark_fits_at - k,
            {
                proof {
                    assert(s.take(k + 1).drop_last() =~= s.take(k as int));
                }
                push_escaped_chars(&mut kept, chars[k]);
                k = k + 1;
            }
            kept.push(TRUNCATION_MARK);
            proof {
                assert(kept@ =~= escape_text(s.take(last_mark_fit(s, m, s.len()) as int)).push(
                    TRUNCATION_MARK,
                ));
            }
            return string_from_chars(&kept);
        }
        push_escaped_chars(&mut out, ch);
        out_len = out_len + add;
        if len_utf8(TRUNCATION_MARK) <= bound - out_len {
            mark_fits_at = i + 1;
        }
        i = i + 1;
    }
    proof {
        assert(s.take(s.len() as int) =~= s);
    }
    string_from_chars(&out)
}

/// The sanitised text never takes more bytes than the bound it was given
/// (the truncation mark included), and it ends in the mark exactly when the
/// escaped text did not fit whole.
pub proof fn lemma_sanitized_within_bound(s: Seq<char>, m: nat)
    requires
        m >= MIN_MAX_LEN,
    ensures
        utf8_len(sanitized(s, m)) <= m,
        utf8_len(escape_text(s)) <= m ==> sanitized(s, m) == escape_text(s),
        utf8_len(escape_text(s)) > m ==> sanitized(s, m).last() == TRUNCATION_MARK,
{
    if utf8_len(escape_text(s)) > m {
        let j = last_mark_fit(s, m, s.len());
        lemma_last_mark_fit_fits(s, m, s.len());
        lemma_utf8_len_concat(escape_text(s.take(j as int)), seq![TRUNCATION_MARK]);
        assert(escape_text(s.take(j as int)).push(TRUNCATION_MARK) =~= escape_text(s.take(j as int))
            + seq![TRUNCATION_MARK]);
        reveal_with_fuel(utf8_len, 2);
    }
}

proof fn lemma_last_mark_fit_fits(s: Seq<char>, m: nat, j: nat)
    requires
        m >= MIN_MAX_LEN,
    ensures
        last_mark_fit(s, m, j) <= j,
        escaped_prefix_len(s, last_mark_fit(s, m, j) as int) + char_utf8_len(TRUNCATION_MARK) <= m,
    decreases j,
{
    if j == 0 {
        assert(s.take(0) =~= seq![]);
    } else {
        lemma_last_mark_fit_fits(s, m, (j - 1) as nat);
    }
}

/// Escaped prefixes only grow: once a prefix does not fit, no longer one does.
proof fn lemma_escaped_len_grows(s: Seq<char>, i: int, j: int)
    requires
        0 <= i <= j <= s.len(),
    ensures
        escaped_prefix_len(s, i) <= escaped_prefix_len(s, j),
    decreases j - i,
{
    if i < j {
        lemma_escaped_len_grows(s, i, j - 1);
        assert(s.take(j).drop_last() =~= s.take(j - 1));
        lemma_utf8_len_concat(escape_text(s.take(j - 1)), escape_char(s[j - 1]));
    }
}

/// The mark position found for a prefix is still the one for the whole text
/// once the rest can no longer contribute a later fit.
proof fn lemma_mark_prefix(s: Seq<char>, m: nat, i: nat)
    requires
        i < s.len(),
        escaped_prefix_len(s, (i + 1) as int) > m,
        utf8_len(escape_text(s)) > m,
    ensures
        last_mark_fit(s, m, s.len()) == last_mark_fit(s, m, i),
{
    lemma_mark_prefix_from(s, m, i, s.len());
}

proof fn lemma_mark_prefix_from(s: Seq<char>, m: nat, i: nat, j: nat)
    requires
        i < j <= s.len(),
        escaped_prefix_len(s, (i + 1) as int) > m,
    ensures
        last_mark_fit(s, m, j) == last_mark_fit(s, m, i),
    decreases j - i,
{
    lemma_escaped_len_grows(s, (i + 1) as int, j as int);
    if j > i + 1 {
        lemma_mark_prefix_from(s, m, i, (j - 1) as nat);
    }
}

/// Append the escaped form of `c`.
fn push_escaped_chars(out: &mut Vec<char>, c: char)
    ensures
        final(out)@ == old(out)@ + escape_char(c),
{
    if c == '\n' {
        out.push('\\');
        out.push('n');
    } else if c == '\r' {
        out.push('\\');
        out.push('r');
    } else if c == '\t' {
        out.push('\\');
        out.push('t');
    } else if needs_placeholder(c) {
        out.push('?');
    } else {
        out.push(c);
    }
    proof {
        assert(final(out)@ =~= old(out)@ + escape_char(c));
    }
}

/// Escape control characters without truncating.
pub fn push_display_escaped(out: &mut String, value: &str)
    ensures
        final(out)@ == old(out)@ + escape_text(value@),
{
    let ghost start = out@;
    let chars = collect_chars(value);
    let mut i: usize = 0;
    proof {
        assert(chars@.take(0) =~= seq![]);
        assert(start + seq![] =~= start);
    }
    while i < chars.len()
        invariant
            i <= chars.len(),
            chars@ == value@,
            out@ == start + escape_text(chars@.take(i as int)),
        decreases chars.len() - i,
    {
        proof {
            assert(chars@.take(i + 1).drop_last() =~= chars@.take(i as int));
        }
        push_escaped(out, chars[i]);
        proof {
            assert(out@ =~= start + escape_text(chars@.take(i + 1)));
        }
        i = i + 1;
    }
    proof {
        assert(chars@.take(chars@.len() as int) =~= chars@);
    }
}

/// A path rendered inside prose, with control characters spelled out.
pub fn format_path_for_message(display: &str) -> (r: String)
    ensures
        r@ == escape_text(display@),
{
    let mut out = String::new();
    push_display_escaped(&mut out, display);
    proof {
        assert(out@ =~= escape_text(display@));
    }
    out
}

/// Bytes the escaped form of `ch` takes.
pub fn escaped_len(ch: char) -> (n: usize)
    ensures
        n == utf8_len(escape_char(ch)),
{
    proof {
        reveal_with_fuel(utf8_len, 3);
    }
    if ch == '\n' || ch == '\r' || ch == '\t' {
        2
    } else if needs_placeholder(ch) {
        1
    } else {
        len_utf8(ch)
    }
}

fn push_escaped(out: &mut String, ch: char)
    ensures
        final(out)@ == old(out)@ + escape_char(ch),
{
    if ch == '\n' {
        push_char(out, '\\');
        push_char(out, 'n');
    } else if ch == '\r' {
        push_char(out, '\\');
        push_char(out, 'r');
    } else if ch == '\t' {
        push_char(out, '\\');
        push_char(out, 't');
    } else if needs_placeholder(ch) {
        push_char(out, '?');
    } else {
        push_char(out, ch);
    }
    proof {
        assert(final(out)@ =~= old(out)@ + escape_char(ch));
    }
}

/// Whether a character must be replaced by a placeholder before display.
pub fn needs_placeholder(ch: char) -> (r: bool)
    ensures
        r == is_placeholder_char(ch),
{
    let v = ch as u32;
    v <= 0x1f || (0x7f <= v && v <= 0x9f) || reorders_or_hides_text(ch)
}

fn reorders_or_hides_text(ch: char) -> (r: bool)
    ensures
        r == is_reordering_or_hidden(ch),
{
    let v = ch as u32;
    v == 0x00AD || v == 0x061C || v == 0x180E || (0x200B <= v && v <= 0x200F) || (0x2028 <= v
        && v <= 0x2029) || (0x202A <= v && v <= 0x202E) || (0x2060 <= v && v <= 0x2064) || (0x2066
        <= v && v <= 0x206F) || v == 0xFEFF || (0xFFF9 <= v && v <= 0xFFFB) || (0x1D173 <= v && v
        <= 0x1D17A) || (0xE0000 <= v && v <= 0xE007F)
}

} // verus!
