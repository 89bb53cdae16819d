//! Whether a file lives on storage the local machine alone controls, judged
//! from the filesystem its mount names: a network or cluster filesystem is
//! remote, a device-backed one is local, and a deviceless one is local only
//! when it is known to be.
//!
//! Reading `/proc/self/mountinfo`, `/proc/filesystems` and the file's mount id
//! or filesystem magic is the caller's part.

use vstd::prelude::*;
use crate::model::text_eq;
use crate::text::{collect_chars, first_word, owned, push_char, token_prefix};
use crate::timing::{
    all_digits, digits_value, is_unicode_whitespace, is_whitespace, lemma_digits_value_grows,
    trim_start,
};

verus! {

/// Where the storage behind a file lives.
#[derive(Debug, Clone, Copy, PartialEq, Eq, Structural)]
pub enum StorageLocality {
    Local,
    Remote,
    Unknown,
}

/// The fields `str::split(sep)` cuts `s` into; `n` separators give `n + 1`
/// fields.
pub open spec fn char_fields(s: Seq<char>, sep: char) -> Seq<Seq<char>>
    decreases s.len(),
{
    if s.len() == 0 {
        seq![Seq::empty()]
    } else {
        let f = char_fields(s.drop_last(), sep);
        if s.last() == sep {
            f.push(Seq::empty())
        } else {
            f.update(f.len() - 1, f.last().push(s.last()))
        }
    }
}

proof fn lemma_char_fields_nonempty(s: Seq<char>, sep: char)
    ensures
        char_fields(s, sep).len() >= 1,
    decreases s.len(),
{
    if s.len() > 0 {
        lemma_char_fields_nonempty(s.drop_last(), sep);
    }
}

/// The fields `str::split(' ')` cuts `s` into.
pub open spec fn space_fields(s: Seq<char>) -> Seq<Seq<char>> {
    char_fields(s, ' ')
}

proof fn lemma_space_fields_nonempty(s: Seq<char>)
    ensures
        space_fields(s).len() >= 1,
{
    lemma_char_fields_nonempty(s, ' ');
}

/// A line with the carriage return of a `\r\n` ending removed.
pub open spec fn strip_cr(l: Seq<char>) -> Seq<char> {
    if l.len() > 0 && l.last() == '\r' {
        l.drop_last()
    } else {
        l
    }
}

/// The lines `str::lines` yields for a text: the text split at each `\n`,
/// a `\r` just before a `\n` dropped with it, and an empty text after the
/// last `\n` not counted as a line.
pub open spec fn text_lines(s: Seq<char>) -> Seq<Seq<char>> {
    let f = char_fields(s, '\n');
    let n = f.len() - 1;
    let ended = Seq::new(n as nat, |i: int| strip_cr(f[i]));
    if f[n].len() == 0 {
        ended
    } else {
        ended.push(f[n])
    }
}

/// Split a text into lines as `str::lines` does.
fn split_lines(s: &str) -> (r: Vec<String>)
    ensures
        r@.map_values(|l: String| l@) == text_lines(s@),
{
    let fields = split_fields(s, '\n');
    let ghost f = char_fields(s@, '\n');
    proof {
        lemma_char_fields_nonempty(s@, '\n');
    }
    let n = fields.len() - 1;
    let mut lines: Vec<String> = Vec::new();
    let mut i: usize = 0;
    while i < n
        invariant
            fields@.map_values(|l: String| l@) == f,
            n == f.len() - 1,
            i <= n,
            lines@.map_values(|l: String| l@) == Seq::new(i as nat, |k: int| strip_cr(f[k])),
        decreases n - i,
    {
        let line = fields[i].as_str();
        let chars = collect_chars(line);
        proof {
            assert(line@ == f[i as int]);
        }
        let mut out = String::new();
        let keep = if chars.len() > 0 && chars[chars.len() - 1] == '\r' {
            chars.len() - 1
        } else {
            chars.len()
        };
        let mut k: usize = 0;
        while k < keep
            invariant
                k <= keep <= chars@.len(),
                out@ == chars@.take(k as int),
            decreases keep - k,
        {
            push_char(&mut out, chars[k]);
            proof {
                assert(out@ =~= chars@.take(k + 1));
            }
            k = k + 1;
        }
        proof {
            assert(out@ =~= strip_cr(f[i as int]));
        }
        let ghost prev = lines@;
        let ghost shown = out@;
        lines.push(out);
        proof {
            let target = Seq::new((i + 1) as nat, |k: int| strip_cr(f[k]));
            let got = lines@.map_values(|l: String| l@);
            assert(prev.map_values(|l: String| l@).len() == i);
            assert(prev.len() == i);
            assert(lines@.len() == i + 1);
            assert(got.len() == target.len());
            assert forall|k: int| 0 <= k < got.len() implies got[k] == target[k] by {
                if k < i {
                    assert(lines@[k] == prev[k]);
                    assert(prev.map_values(|l: String| l@)[k] == strip_cr(f[k]));
                } else {
                    assert(lines@[k]@ == shown);
                }
            }
            assert(got =~= target);
        }
        i = i + 1;
    }
    let last = fields[n].as_str();
    proof {
        assert(last@ == f[n as int]);
        crate::text::lemma_utf8_empty_iff(last@);
    }
    if !last.is_empty() {
        let ghost prev = lines@;
        lines.push(owned(last));
        proof {
            assert(lines@.map_values(|l: String| l@) =~= prev.map_values(|l: String| l@).push(
                f[n as int],
            ));
        }
    }
    proof {
        assert(lines@.map_values(|l: String| l@) =~= text_lines(s@));
    }
    lines
}

fn split_spaces(s: &str) -> (r: Vec<String>)
    ensures
        r@.map_values(|f: String| f@) == space_fields(s@),
{
    split_fields(s, ' ')
}

/// The fields `str::split(sep)` cuts `s` into, as owned strings.
fn split_fields(s: &str, sep: char) -> (r: Vec<String>)
    ensures
        r@.map_values(|f: String| f@) == char_fields(s@, sep),
{
    let chars = collect_chars(s);
    let mut done: Vec<String> = Vec::new();
    let mut current = String::new();
    let mut i: usize = 0;
    proof {
        assert(chars@.take(0) =~= Seq::<char>::empty());
        assert(done@.map_values(|f: String| f@).push(current@) =~= char_fields(chars@.take(0), sep));
    }
    while i < chars.len()
        invariant
            i <= chars@.len(),
            chars@ == s@,
            done@.map_values(|f: String| f@).push(current@) == char_fields(chars@.take(i as int), sep),
        decreases chars.len() - i,
    {
        let c = chars[i];
        let ghost before = done@.map_values(|f: String| f@).push(current@);
        proof {
            assert(chars@.take(i + 1).drop_last() =~= chars@.take(i as int));
            assert(chars@.take(i + 1).last() == c);
            lemma_char_fields_nonempty(chars@.take(i as int), sep);
        }
        if c == sep {
            let field = current;
            current = String::new();
            let ghost prev = done@;
            done.push(field);
            proof {
                assert(done@.map_values(|f: String| f@) =~= prev.map_values(|f: String| f@).push(field@));
                assert(done@.map_values(|f: String| f@).push(current@) =~= before.push(Seq::empty()));
            }
        } else {
            let ghost old_current = current@;
            push_char(&mut current, c);
            proof {
                assert(done@.map_values(|f: String| f@).push(current@) =~= before.update(
                    before.len() - 1,
                    before.last().push(c),
                ));
            }
        }
        i = i + 1;
    }
    proof {
        assert(chars@.take(chars@.len() as int) =~= chars@);
    }
    let ghost prev = done@;
    done.push(current);
    proof {
        assert(done@.map_values(|f: String| f@) =~= prev.map_values(|f: String| f@).push(
            done@.last()@,
        ));
    }
    done
}

/// The number `u64::from_str` reads from `t`: an optional `+` and at least
/// one digit, within the range of `u64`.
pub open spec fn parse_u64(t: Seq<char>) -> Option<nat> {
    let digits = if t.len() > 0 && t[0] == '+' {
        t.drop_first()
    } else {
        t
    };
    if digits.len() > 0 && all_digits(digits) && digits_value(digits) <= u64::MAX {
        Some(digits_value(digits))
    } else {
        None
    }
}

/// Read a `u64` as `u64::from_str` does.
pub fn parse_u64_text(t: &str) -> (r: Option<u64>)
    ensures
        match parse_u64(t@) {
            Some(v) => r == Some(v as u64),
            None => r is None,
        },
{
    let chars = collect_chars(t);
    let first: usize = if chars.len() > 0 && chars[0] == '+' {
        1
    } else {
        0
    };
    let ghost digits = chars@.subrange(first as int, chars@.len() as int);
    proof {
        if first == 1 {
            assert(chars@.drop_first() =~= digits);
        } else {
            assert(chars@ =~= digits);
        }
    }
    if first == chars.len() {
        return None;
    }
    let mut value: u64 = 0;
    let mut i: usize = first;
    proof {
        assert(chars@.subrange(first as int, first as int) =~= Seq::<char>::empty());
    }
    while i < chars.len()
        invariant
            first <= i <= chars@.len(),
            chars@ == t@,
            digits == chars@.subrange(first as int, chars@.len() as int),
            digits == (if t@.len() > 0 && t@[0] == '+' {
                t@.drop_first()
            } else {
                t@
            }),
            value == digits_value(chars@.subrange(first as int, i as int)),
            all_digits(chars@.subrange(first as int, i as int)),
        decreases chars.len() - i,
    {
        let c = chars[i];
        proof {
            assert(chars@.subrange(first as int, i + 1).drop_last() =~= chars@.subrange(
                first as int,
                i as int,
            ));
        }
        if !('0' <= c && c <= '9') {
            proof {
                assert(digits[i - first] == c);
            }
            return None;
        }
        let digit = (c as u32 - 0x30) as u64;
        assert(digit <= 9);
        if value > (u64::MAX - digit) / 10 {
            proof {
                let k = i - first + 1;
                assert(digits.take(k) =~= chars@.subrange(first as int, i + 1));
                assert(digits.take(k).drop_last() =~= chars@.subrange(first as int, i as int));
                assert(digits_value(digits.take(k)) == value * 10 + digit);
                assert(value * 10 + digit > u64::MAX) by (nonlinear_arith)
                    requires
                        value > (u64::MAX - digit) / 10,
                        digit <= 9,
                ;
                lemma_digits_value_grows(digits, k, digits.len() as int);
                assert(digits.take(digits.len() as int) =~= digits);
            }
            return None;
        }
        value = value * 10 + digit;
        proof {
            assert(all_digits(chars@.subrange(first as int, i + 1)));
        }
        i = i + 1;
    }
    proof {
        assert(chars@.subrange(first as int, i as int) =~= digits);
    }
    Some(value)
}

/// The field after the first `-` field, as mountinfo separates the optional
/// fields from the filesystem type.
pub open spec fn after_dash(rest: Seq<Seq<char>>) -> Option<Seq<char>>
    decreases rest.len(),
{
    if rest.len() == 0 {
        None
    } else if rest[0] == seq!['-'] {
        if rest.len() >= 2 {
            Some(rest[1])
        } else {
            None
        }
    } else {
        after_dash(rest.drop_first())
    }
}

/// The mount id and filesystem type one mountinfo line names.
pub open spec fn mountinfo_entry(line: Seq<char>) -> Option<(nat, Seq<char>)> {
    let fields = space_fields(line);
    match parse_u64(fields[0]) {
        None => None,
        Some(id) => match after_dash(fields.drop_first()) {
            None => None,
            Some(filesystem) => Some((id, filesystem)),
        },
    }
}

fn is_dash(field: &String) -> (r: bool)
    ensures
        r == (field@ == seq!['-']),
{
    let chars = collect_chars(field.as_str());
    let r = chars.len() == 1 && chars[0] == '-';
    proof {
        if chars@.len() == 1 && chars@[0] == '-' {
            assert(chars@ =~= seq!['-']);
        }
    }
    r
}

/// Read the mount id and filesystem type from one mountinfo line.
pub fn parse_mountinfo_line(line: &str) -> (r: Option<(u64, String)>)
    ensures
        match mountinfo_entry(line@) {
            Some((id, filesystem)) => r matches Some((i, f)) && i == id && f@ == filesystem,
            None => r is None,
        },
{
    let fields = split_spaces(line);
    let ghost views = fields@.map_values(|f: String| f@);
    proof {
        lemma_space_fields_nonempty(line@);
        assert(views[0] == fields@[0]@);
    }
    let id = match parse_u64_text(fields[0].as_str()) {
        Some(id) => id,
        None => {
            return None;
        },
    };
    let mut k: usize = 1;
    proof {
        assert(views.drop_first() =~= views.subrange(1, views.len() as int));
    }
    while k < fields.len()
        invariant
            1 <= k <= fields@.len(),
            views == fields@.map_values(|f: String| f@),
            views == space_fields(line@),
            parse_u64(views[0]) == Some(id as nat),
            after_dash(views.drop_first()) == after_dash(views.subrange(k as int, views.len() as int)),
        decreases fields.len() - k,
    {
        let ghost rest = views.subrange(k as int, views.len() as int);
        proof {
            assert(rest[0] == fields@[k as int]@);
            assert(rest.drop_first() =~= views.subrange(k + 1, views.len() as int));
        }
        if is_dash(&fields[k]) {
            if k + 1 < fields.len() {
                proof {
                    assert(rest[1] == fields@[k + 1]@);
                }
                return Some((id, owned(fields[k + 1].as_str())));
            }
            return None;
        }
        k = k + 1;
    }
    None
}

/// The filesystem type of the mount `mount_id`, read line by line; an
/// unreadable line before it ends the search.
pub open spec fn mount_filesystem(lines: Seq<Seq<char>>, mount_id: nat) -> Option<Seq<char>>
    decreases lines.len(),
{
    if lines.len() == 0 {
        None
    } else {
        match mountinfo_entry(lines[0]) {
            None => None,
            Some((id, filesystem)) => if id == mount_id {
                Some(filesystem)
            } else {
                mount_filesystem(lines.drop_first(), mount_id)
            },
        }
    }
}

/// Find the filesystem type of one mount in the text of mountinfo.
pub fn find_mount_filesystem(mountinfo: &str, mount_id: u64) -> (r: Option<String>)
    ensures
        match mount_filesystem(text_lines(mountinfo@), mount_id as nat) {
            Some(f) => r matches Some(x) && x@ == f,
            None => r is None,
        },
{
    let lines = split_lines(mountinfo);
    let ghost views = lines@.map_values(|l: String| l@);
    let mut i: usize = 0;
    proof {
        assert(views.subrange(0, views.len() as int) =~= views);
    }
    while i < lines.len()
        invariant
            i <= lines@.len(),
            views == lines@.map_values(|l: String| l@),
            views == text_lines(mountinfo@),
            mount_filesystem(views, mount_id as nat) == mount_filesystem(
                views.subrange(i as int, views.len() as int),
                mount_id as nat,
            ),
        decreases lines.len() - i,
    {
        let ghost rest = views.subrange(i as int, views.len() as int);
        proof {
            assert(rest[0] == lines@[i as int]@);
            assert(rest.drop_first() =~= views.subrange(i + 1, views.len() as int));
        }
        match parse_mountinfo_line(lines[i].as_str()) {
            None => {
                return None;
            },
            Some((id, filesystem)) => {
                if id == mount_id {
                    return Some(filesystem);
                }
            },
        }
        i = i + 1;
    }
    None
}

/// The name a filesystem type is registered under: every userspace
/// filesystem (`fuse.<name>`) counts as `fuse`.
pub open spec fn registered_name(filesystem: Seq<char>) -> Seq<char> {
    if filesystem.len() >= 5 && filesystem.take(5) == "fuse."@ {
        "fuse"@
    } else {
        filesystem
    }
}

pub fn registered_filesystem_name(filesystem: &str) -> (r: String)
    ensures
        r@ == registered_name(filesystem@),
{
    let chars = collect_chars(filesystem);
    proof {
        reveal_strlit("fuse.");
        reveal_strlit("fuse");
    }
    if chars.len() >= 5 && chars[0] == 'f' && chars[1] == 'u' && chars[2] == 's' && chars[3] == 'e'
        && chars[4] == '.' {
        proof {
            assert(chars@.take(5) =~= "fuse."@);
        }
        return owned("fuse");
    }
    proof {
        if chars@.len() >= 5 && chars@.take(5) == "fuse."@ {
            assert(chars@.take(5)[0] == 'f');
            assert(chars@.take(5)[1] == 'u');
            assert(chars@.take(5)[2] == 's');
            assert(chars@.take(5)[3] == 'e');
            assert(chars@.take(5)[4] == '.');
        }
    }
    owned(filesystem)
}

/// The second whitespace-separated word of `s`.
pub open spec fn second_word(s: Seq<char>) -> Option<Seq<char>> {
    let t = trim_start(s);
    first_word(t.skip(token_prefix(t).len() as int))
}

/// One `/proc/filesystems` line registers `registered` as deviceless.
pub open spec fn registers_deviceless(line: Seq<char>, registered: Seq<char>) -> bool {
    first_word(line) == Some("nodev"@) && second_word(line) == Some(registered)
}

/// The word that starts at `from` after skipping whitespace, and the index
/// just past it.
fn word_at(chars: &Vec<char>, from: usize) -> (r: (Option<String>, usize))
    requires
        from <= chars@.len(),
    ensures
        r.1 <= chars@.len(),
        ({
            let t = trim_start(chars@.subrange(from as int, chars@.len() as int));
            &&& match first_word(chars@.subrange(from as int, chars@.len() as int)) {
                Some(w) => r.0 matches Some(x) && x@ == w,
                None => r.0 is None,
            }
            &&& chars@.subrange(r.1 as int, chars@.len() as int) == t.skip(
                token_prefix(t).len() as int,
            )
        }),
{
    let mut start: usize = from;
    let ghost whole = chars@.subrange(from as int, chars@.len() as int);
    proof {
        assert(chars@.subrange(start as int, chars@.len() as int) =~= whole);
    }
    while start < chars.len() && is_whitespace(chars[start])
        invariant
            from <= start <= chars@.len(),
            whole == chars@.subrange(from as int, chars@.len() as int),
            trim_start(whole) == trim_start(chars@.subrange(start as int, chars@.len() as int)),
        decreases chars.len() - start,
    {
        proof {
            assert(chars@.subrange(start as int, chars@.len() as int).drop_first()
                =~= chars@.subrange(start + 1, chars@.len() as int));
        }
        start = start + 1;
    }
    let ghost t = chars@.subrange(start as int, chars@.len() as int);
    proof {
        if start < chars.len() {
            assert(t.len() > 0 && !is_unicode_whitespace(t[0]));
        }
        assert(trim_start(t) == t);
    }
    let mut word = String::new();
    let mut end: usize = start;
    proof {
        assert(word@ + token_prefix(chars@.subrange(end as int, chars@.len() as int))
            =~= token_prefix(t));
    }
    while end < chars.len() && !is_whitespace(chars[end])
        invariant
            start <= end <= chars@.len(),
            t == chars@.subrange(start as int, chars@.len() as int),
            word@.len() == end - start,
            word@ + token_prefix(chars@.subrange(end as int, chars@.len() as int)) == token_prefix(t),
        decreases chars.len() - end,
    {
        let ghost rest = chars@.subrange(end as int, chars@.len() as int);
        proof {
            assert(rest.drop_first() =~= chars@.subrange(end + 1, chars@.len() as int));
        }
        push_char(&mut word, chars[end]);
        end = end + 1;
        proof {
            assert(word@ + token_prefix(chars@.subrange(end as int, chars@.len() as int))
                =~= token_prefix(t));
        }
    }
    proof {
        let rest = chars@.subrange(end as int, chars@.len() as int);
        assert(token_prefix(rest) =~= Seq::<char>::empty());
        assert(word@ =~= token_prefix(t));
        assert(t.skip(token_prefix(t).len() as int) =~= rest);
    }
    if start == chars.len() {
        return (None, end);
    }
    (Some(word), end)
}

/// The first two whitespace-separated words of `s`.
pub fn first_two_words(s: &str) -> (r: (Option<String>, Option<String>))
    ensures
        match first_word(s@) {
            Some(w) => r.0 matches Some(x) && x@ == w,
            None => r.0 is None,
        },
        first_word(s@) is Some ==> match second_word(s@) {
            Some(w) => r.1 matches Some(x) && x@ == w,
            None => r.1 is None,
        },
{
    let chars = collect_chars(s);
    proof {
        assert(chars@.subrange(0, chars@.len() as int) =~= s@);
    }
    let (first, end) = word_at(&chars, 0);
    let (second, _) = word_at(&chars, end);
    (first, second)
}

/// Whether the kernel lists `filesystem` as deviceless (`nodev`).
pub fn is_deviceless_filesystem(filesystems: &str, filesystem: &str) -> (r: bool)
    ensures
        r == exists|i: int|
            0 <= i < text_lines(filesystems@).len() && registers_deviceless(
                #[trigger] text_lines(filesystems@)[i],
                registered_name(filesystem@),
            ),
{
    let registered = registered_filesystem_name(filesystem);
    let lines = split_lines(filesystems);
    let ghost views = lines@.map_values(|l: String| l@);
    let mut i: usize = 0;
    while i < lines.len()
        invariant
            i <= lines@.len(),
            views == lines@.map_values(|l: String| l@),
            views == text_lines(filesystems@),
            registered@ == registered_name(filesystem@),
            forall|k: int| 0 <= k < i ==> !registers_deviceless(#[trigger] views[k], registered@),
        decreases lines.len() - i,
    {
        let (first, second) = first_two_words(lines[i].as_str());
        proof {
            assert(views[i as int] == lines@[i as int]@);
            reveal_strlit("nodev");
        }
        let hit = match (first, second) {
            (Some(a), Some(b)) => text_eq(a.as_str(), "nodev") && text_eq(
                b.as_str(),
                registered.as_str(),
            ),
            _ => false,
        };
        if hit {
            return true;
        }
        i = i + 1;
    }
    false
}

/// The filesystem types that live on another machine.
pub open spec fn remote_filesystem(name: Seq<char>) -> bool {
    ||| name == "nfs"@
    ||| name == "nfs4"@
    ||| name == "cifs"@
    ||| name == "smbfs"@
    ||| name == "smb3"@
    ||| name == "ceph"@
    ||| name == "glusterfs"@
    ||| name == "9p"@
    ||| name == "afs"@
    ||| name == "lustre"@
    ||| name == "fuse"@
}

/// The filesystem types several machines share.
pub open spec fn shared_cluster_filesystem(name: Seq<char>) -> bool {
    ||| name == "ocfs2"@
    ||| name == "gfs"@
    ||| name == "gfs2"@
    ||| name == "gpfs"@
    ||| name == "vmfs"@
    ||| name == "cvfs"@
}

/// The deviceless filesystem types known to stay on this machine.
pub open spec fn deviceless_local_filesystem(name: Seq<char>) -> bool {
    ||| name == "tmpfs"@
    ||| name == "overlay"@
    ||| name == "ramfs"@
    ||| name == "zfs"@
    ||| name == "ecryptfs"@
}

/// Where a filesystem type keeps its data.
pub open spec fn filesystem_locality(filesystem: Seq<char>, deviceless: bool) -> StorageLocality {
    let name = registered_name(filesystem);
    if remote_filesystem(name) || shared_cluster_filesystem(name) {
        StorageLocality::Remote
    } else if !deviceless {
        StorageLocality::Local
    } else if deviceless_local_filesystem(name) {
        StorageLocality::Local
    } else {
        StorageLocality::Unknown
    }
}

fn is_remote_filesystem(name: &str) -> (r: bool)
    ensures
        r == remote_filesystem(name@),
{
    text_eq(name, "nfs") || text_eq(name, "nfs4") || text_eq(name, "cifs") || text_eq(name, "smbfs")
        || text_eq(name, "smb3") || text_eq(name, "ceph") || text_eq(name, "glusterfs") || text_eq(
        name,
        "9p",
    ) || text_eq(name, "afs") || text_eq(name, "lustre") || text_eq(name, "fuse")
}

fn is_shared_cluster_filesystem(name: &str) -> (r: bool)
    ensures
        r == shared_cluster_filesystem(name@),
{
    text_eq(name, "ocfs2") || text_eq(name, "gfs") || text_eq(name, "gfs2") || text_eq(name, "gpfs")
        || text_eq(name, "vmfs") || text_eq(name, "cvfs")
}

fn is_deviceless_local_filesystem(name: &str) -> (r: bool)
    ensures
        r == deviceless_local_filesystem(name@),
{
    text_eq(name, "tmpfs") || text_eq(name, "overlay") || text_eq(name, "ramfs") || text_eq(
        name,
        "zfs",
    ) || text_eq(name, "ecryptfs")
}

/// Classify a filesystem type; `deviceless` says whether the kernel lists it
/// as needing no device.
pub fn classify_filesystem(filesystem: &str, deviceless: bool) -> (r: StorageLocality)
    ensures
        r == filesystem_locality(filesystem@, deviceless),
{
    let registered = registered_filesystem_name(filesystem);
    if is_remote_filesystem(registered.as_str()) || is_shared_cluster_filesystem(
        registered.as_str(),
    ) {
        return StorageLocality::Remote;
    }
    if !deviceless {
        return StorageLocality::Local;
    }
    if is_deviceless_local_filesystem(registered.as_str()) {
        return StorageLocality::Local;
    }
    StorageLocality::Unknown
}

/// The filesystem type a `statfs` magic number names, among those the
/// classification knows.
pub open spec fn magic_name(magic: u32) -> Option<Seq<char>> {
    if magic == 0xEF53 {
        Some("ext4"@)
    } else if magic == 0x5846_5342 {
        Some("xfs"@)
    } else if magic == 0x9123_683E {
        Some("btrfs"@)
    } else if magic == 0xF2F5_2010 {
        Some("f2fs"@)
    } else if magic == 0x0102_1994 {
        Some("tmpfs"@)
    } else if magic == 0x794C_7630 {
        Some("overlay"@)
    } else if magic == 0x8584_58F6 {
        Some("ramfs"@)
    } else if magic == 0xF15F {
        Some("ecryptfs"@)
    } else if magic == 0x6969 {
        Some("nfs"@)
    } else if magic == 0xFF53_4D42 {
        Some("cifs"@)
    } else if magic == 0xFE53_4D42 {
        Some("smb3"@)
    } else if magic == 0x00C3_6400 {
        Some("ceph"@)
    } else if magic == 0x0102_1997 {
        Some("9p"@)
    } else if magic == 0x0BD0_0BD0 {
        Some("lustre"@)
    } else if magic == 0x7461_636F {
        Some("ocfs2"@)
    } else if magic == 0x0116_1970 {
        Some("gfs2"@)
    } else {
        None
    }
}

pub fn filesystem_name_from_magic(magic: u32) -> (r: Option<&'static str>)
    ensures
        match magic_name(magic) {
            Some(n) => r matches Some(s) && s@ == n,
            None => r is None,
        },
{
    if magic == 0xEF53 {
        Some("ext4")
    } else if magic == 0x5846_5342 {
        Some("xfs")
    } else if magic == 0x9123_683E {
        Some("btrfs")
    } else if magic == 0xF2F5_2010 {
        Some("f2fs")
    } else if magic == 0x0102_1994 {
        Some("tmpfs")
    } else if magic == 0x794C_7630 {
        Some("overlay")
    } else if magic == 0x8584_58F6 {
        Some("ramfs")
    } else if magic == 0xF15F {
        Some("ecryptfs")
    } else if magic == 0x6969 {
        Some("nfs")
    } else if magic == 0xFF53_4D42 {
        Some("cifs")
    } else if magic == 0xFE53_4D42 {
        Some("smb3")
    } else if magic == 0x00C3_6400 {
        Some("ceph")
    } else if magic == 0x0102_1997 {
        Some("9p")
    } else if magic == 0x0BD0_0BD0 {
        Some("lustre")
    } else if magic == 0x7461_636F {
        Some("ocfs2")
    } else if magic == 0x0116_1970 {
        Some("gfs2")
    } else {
        None
    }
}

/// Classify the mount `mount_id`: `mountinfo` is the text of the mount table
/// (`None` when it could not be read) and `filesystems` that of the kernel's
/// filesystem list.
pub fn classify_mount(mount_id: u64, mountinfo: Option<&str>, filesystems: &str) -> (r:
    StorageLocality)
    ensures
        match mountinfo {
            None => r == StorageLocality::Unknown,
            Some(text) => match mount_filesystem(text_lines(text@), mount_id as nat) {
                None => r == StorageLocality::Unknown,
                Some(f) => r == filesystem_locality(
                    f,
                    exists|i: int|
                        0 <= i < text_lines(filesystems@).len() && registers_deviceless(
                            #[trigger] text_lines(filesystems@)[i],
                            registered_name(f),
                        ),
                ),
            },
        },
{
    let text = match mountinfo {
        Some(t) => t,
        None => {
            return StorageLocality::Unknown;
        },
    };
    match find_mount_filesystem(text, mount_id) {
        None => StorageLocality::Unknown,
        Some(filesystem) => {
            let deviceless = is_deviceless_filesystem(filesystems, filesystem.as_str());
            classify_filesystem(filesystem.as_str(), deviceless)
        },
    }
}

/// Classify a file by its filesystem's `statfs` magic number (`None` when
/// `statfs` failed), for a kernel that does not report mount ids.
pub fn classify_filesystem_magic(magic: Option<u32>, filesystems: &str) -> (r: StorageLocality)
    ensures
        match magic {
            None => r == StorageLocality::Unknown,
            Some(m) => match magic_name(m) {
                None => r == StorageLocality::Unknown,
                Some(f) => r == filesystem_locality(
                    f,
                    exists|i: int|
                        0 <= i < text_lines(filesystems@).len() && registers_deviceless(
                            #[trigger] text_lines(filesystems@)[i],
                            registered_name(f),
                        ),
                ),
            },
        },
{
    let m = match magic {
        Some(m) => m,
        None => {
            return StorageLocality::Unknown;
        },
    };
    match filesystem_name_from_magic(m) {
        None => StorageLocality::Unknown,
        Some(filesystem) => {
            let deviceless = is_deviceless_filesystem(filesystems, filesystem);
            classify_filesystem(filesystem, deviceless)
        },
    }
}

/// A remote or cluster filesystem is never local, whatever the kernel says
/// about its devices.
pub proof fn lemma_network_storage_is_never_local(filesystem: Seq<char>, deviceless: bool)
    requires
        remote_filesystem(registered_name(filesystem)) || shared_cluster_filesystem(
            registered_name(filesystem),
        ),
    ensures
        filesystem_locality(filesystem, deviceless) == StorageLocality::Remote,
{
}

/// Every network filesystem, and every filesystem several hosts mount
/// together, is remote storage whether or not it carries a device; so is any
/// mount a userspace daemon serves (`fuse.*`).
pub proof fn lemma_network_filesystems_are_remote(deviceless: bool, daemon: Seq<char>)
    ensures
        filesystem_locality("nfs"@, deviceless) == StorageLocality::Remote,
        filesystem_locality("nfs4"@, deviceless) == StorageLocality::Remote,
        filesystem_locality("cifs"@, deviceless) == StorageLocality::Remote,
        filesystem_locality("smbfs"@, deviceless) == StorageLocality::Remote,
        filesystem_locality("smb3"@, deviceless) == StorageLocality::Remote,
        filesystem_locality("ceph"@, deviceless) == StorageLocality::Remote,
        filesystem_locality("glusterfs"@, deviceless) == StorageLocality::Remote,
        filesystem_locality("9p"@, deviceless) == StorageLocality::Remote,
        filesystem_locality("afs"@, deviceless) == StorageLocality::Remote,
        filesystem_locality("lustre"@, deviceless) == StorageLocality::Remote,
        filesystem_locality("fuse"@, deviceless) == StorageLocality::Remote,
        filesystem_locality("fuse."@ + daemon, deviceless) == StorageLocality::Remote,
        filesystem_locality("ocfs2"@, deviceless) == StorageLocality::Remote,
        filesystem_locality("gfs"@, deviceless) == StorageLocality::Remote,
        filesystem_locality("gfs2"@, deviceless) == StorageLocality::Remote,
        filesystem_locality("gpfs"@, deviceless) == StorageLocality::Remote,
        filesystem_locality("vmfs"@, deviceless) == StorageLocality::Remote,
        filesystem_locality("cvfs"@, deviceless) == StorageLocality::Remote,
{
    reveal_strlit("nfs");
    reveal_strlit("nfs4");
    reveal_strlit("cifs");
    reveal_strlit("smbfs");
    reveal_strlit("smb3");
    reveal_strlit("ceph");
    reveal_strlit("glusterfs");
    reveal_strlit("9p");
    reveal_strlit("afs");
    reveal_strlit("lustre");
    reveal_strlit("fuse");
    reveal_strlit("fuse.");
    reveal_strlit("ocfs2");
    reveal_strlit("gfs");
    reveal_strlit("gfs2");
    reveal_strlit("gpfs");
    reveal_strlit("vmfs");
    reveal_strlit("cvfs");
    assert(("fuse."@ + daemon).take(5) =~= "fuse."@);
    assert("smbfs"@.take(5)[0] != "fuse."@[0]);
    assert("glusterfs"@.take(5)[0] != "fuse."@[0]);
    assert("lustre"@.take(5)[0] != "fuse."@[0]);
    assert("ocfs2"@.take(5)[0] != "fuse."@[0]);
}

} // verus!
