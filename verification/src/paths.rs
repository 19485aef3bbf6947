//! Paths as texts: joining them, and the name at their end.
//!
//! Paths follow the rules of the system they belong to, so each function is told
//! whether that is Windows. No path is tidied up: dots, and separators that stand
//! twice, stay as they are.

use crate::text;
use vstd::prelude::*;

verus! {

// ---------------------------------------------------------------------------
// Model
// ---------------------------------------------------------------------------

/// Whether a character separates the names of a path.
pub open spec fn separator(c: char, windows: bool) -> bool {
    c == '/' || (windows && c == '\\')
}

/// Whether a path begins with a drive letter and a colon.
pub open spec fn has_drive(path: Seq<char>) -> bool {
    path.len() >= 2 && path[1] == ':' && ('a' <= path[0] <= 'z' || 'A' <= path[0] <= 'Z')
}

/// How many characters stand in front of the first separator.
pub open spec fn name_length(s: Seq<char>) -> nat
    decreases s.len(),
{
    if s.len() == 0 || separator(s[0], true) {
        0
    } else {
        1 + name_length(s.drop_first())
    }
}

/// How many characters of a Windows path say where its root is: a drive, or a
/// server and a share.
pub open spec fn prefix_length(path: Seq<char>) -> nat {
    if has_drive(path) {
        2
    } else if path.len() >= 2 && separator(path[0], true) && separator(path[1], true) {
        let server = name_length(path.skip(2));
        if 2 + server < path.len() {
            let share = name_length(path.skip((3 + server) as int));
            if server > 0 && share > 0 {
                3 + server + share
            } else {
                0
            }
        } else {
            0
        }
    } else {
        0
    }
}

/// Whether the separator is left out behind `base`: there is one already, or
/// nothing to separate from, or `base` is a bare drive, which names the current
/// directory of that drive.
pub open spec fn needs_no_separator(base: Seq<char>, windows: bool) -> bool {
    ||| base.len() == 0
    ||| separator(base.last(), windows)
    ||| windows && base.len() == 2 && has_drive(base)
}

/// `path`, seen from the directory `base`: an absolute path stays what it is, and
/// on Windows one that has a root but no drive is on the drive of `base`.
pub open spec fn joined(base: Seq<char>, path: Seq<char>, windows: bool) -> Seq<char> {
    if windows && prefix_length(path) > 0 {
        path
    } else if path.len() > 0 && separator(path[0], windows) {
        if windows {
            base.take(prefix_length(base) as int) + path
        } else {
            path
        }
    } else if needs_no_separator(base, windows) {
        base + path
    } else if windows {
        base + "\\"@ + path
    } else {
        base + "/"@ + path
    }
}

/// The text behind the last separator.
pub open spec fn last_name(path: Seq<char>, windows: bool) -> Seq<char>
    decreases path.len(),
{
    if path.len() == 0 || separator(path.last(), windows) {
        Seq::empty()
    } else {
        last_name(path.drop_last(), windows).push(path.last())
    }
}

/// The name of the file that a resolved path leads to, without its directory;
/// a root has none.
pub open spec fn file_name_of(path: Seq<char>, windows: bool) -> Option<Seq<char>> {
    if last_name(path, windows).len() == 0 {
        None
    } else {
        Some(last_name(path, windows))
    }
}

// ---------------------------------------------------------------------------
// Executable counterparts
// ---------------------------------------------------------------------------

fn is_separator(c: char, windows: bool) -> (r: bool)
    ensures
        r == separator(c, windows),
{
    c == '/' || (windows && c == '\\')
}

fn begins_with_drive(path: &Vec<char>) -> (r: bool)
    ensures
        r == has_drive(path@),
{
    path.len() >= 2 && path[1] == ':' && (('a' <= path[0] && path[0] <= 'z') || ('A' <= path[0]
        && path[0] <= 'Z'))
}

/// Where the name that begins at `from` ends.
fn name_end(path: &Vec<char>, from: usize) -> (r: usize)
    requires
        from <= path.len(),
    ensures
        r == from + name_length(path@.skip(from as int)),
        r <= path.len(),
{
    let mut i: usize = from;
    while i < path.len() && !is_separator(path[i], true)
        invariant
            from <= i <= path.len(),
            from + name_length(path@.skip(from as int)) == i + name_length(path@.skip(i as int)),
        decreases path.len() - i,
    {
        assert(path@.skip(i as int).drop_first() =~= path@.skip(i + 1));
        i = i + 1;
    }
    i
}

fn prefix_end(path: &Vec<char>) -> (r: usize)
    ensures
        r == prefix_length(path@),
        r <= path.len(),
{
    if begins_with_drive(path) {
        return 2;
    }
    if path.len() >= 2 && is_separator(path[0], true) && is_separator(path[1], true) {
        let server: usize = name_end(path, 2);
        if server < path.len() && server > 2 {
            let share: usize = name_end(path, server + 1);
            if share > server + 1 {
                return share;
            }
        }
    }
    0
}

/// `path`, seen from the directory `base`.
pub fn join(base: &str, path: &str, windows: bool) -> (r: String)
    ensures
        r@ == joined(base@, path@, windows),
{
    let mut from = text::chars_of(base);
    let to = text::chars_of(path);
    if windows && prefix_end(&to) > 0 {
        return path.to_owned();
    }
    if to.len() > 0 && is_separator(to[0], windows) {
        if windows {
            let n: usize = prefix_end(&from);
            from.truncate(n);
            assert(from@ =~= base@.take(n as int));
            return text::text_of(&from).concat(path);
        }
        return path.to_owned();
    }
    let n: usize = from.len();
    if n == 0 || is_separator(from[n - 1], windows) || (windows && n == 2 && begins_with_drive(
        &from,
    )) {
        base.to_owned().concat(path)
    } else if windows {
        base.to_owned().concat("\\").concat(path)
    } else {
        base.to_owned().concat("/").concat(path)
    }
}

/// The name of the file that a resolved path leads to, without its directory.
pub fn file_name(path: &str, windows: bool) -> (r: Option<String>)
    ensures
        text::opt_text(r) == file_name_of(path@, windows),
{
    let v = text::chars_of(path);
    let mut i: usize = v.len();
    assert(path@.take(i as int) =~= path@);
    assert(path@.skip(i as int) =~= Seq::<char>::empty());
    assert(last_name(path@, windows) =~= last_name(path@.take(i as int), windows) + path@.skip(
        i as int,
    ));
    while i > 0 && !is_separator(v[i - 1], windows)
        invariant
            i <= v.len(),
            v@ == path@,
            last_name(path@, windows) == last_name(path@.take(i as int), windows) + path@.skip(
                i as int,
            ),
        decreases i,
    {
        assert(path@.take(i as int).drop_last() =~= path@.take(i - 1));
        assert(path@.skip(i - 1) =~= seq![path@[i - 1]] + path@.skip(i as int));
        assert(last_name(path@, windows) =~= last_name(path@.take(i - 1), windows) + path@.skip(
            i - 1,
        ));
        i = i - 1;
    }
    assert(last_name(path@, windows) =~= path@.skip(i as int));
    if i == v.len() {
        None
    } else {
        Some(text::without_first(path, i))
    }
}

// ---------------------------------------------------------------------------
// Laws
// ---------------------------------------------------------------------------

/// The last name is the end of its path, up to a separator.
pub proof fn lemma_last_name_is_the_end(path: Seq<char>, windows: bool)
    ensures
        last_name(path, windows).len() <= path.len(),
        last_name(path, windows) == path.skip(path.len() - last_name(path, windows).len()),
        forall|i: int|
            0 <= i < last_name(path, windows).len() ==> !separator(
                #[trigger] last_name(path, windows)[i],
                windows,
            ),
        last_name(path, windows).len() == 0 ==> path.len() == 0 || separator(
            path.last(),
            windows,
        ),
    decreases path.len(),
{
    let name = last_name(path, windows);
    if path.len() > 0 && !separator(path.last(), windows) {
        lemma_last_name_is_the_end(path.drop_last(), windows);
        let shorter = last_name(path.drop_last(), windows);
        assert forall|i: int| 0 <= i < name.len() implies !separator(
            #[trigger] name[i],
            windows,
        ) by {
            if i < shorter.len() {
                assert(name[i] == shorter[i]);
            }
        }
        assert(name =~= path.skip(path.len() - name.len()));
    } else {
        assert(name =~= path.skip(path.len() as int));
    }
}

/// A plain name, one that holds neither a separator nor a colon, lies inside
/// whatever directory it is joined to.
pub proof fn law_a_plain_name_stays_inside(base: Seq<char>, name: Seq<char>, windows: bool)
    requires
        name.len() > 0,
        forall|i: int|
            0 <= i < name.len() ==> !separator(#[trigger] name[i], windows) && name[i] != ':',
    ensures
        joined(base, name, windows) == (if needs_no_separator(base, windows) {
            base + name
        } else if windows {
            base + "\\"@ + name
        } else {
            base + "/"@ + name
        }),
        base.is_prefix_of(joined(base, name, windows)),
{
    assert(!separator(name[0], windows));
    if name.len() >= 2 {
        assert(name[1] != ':');
    }
}

proof fn lemma_last_name(front: Seq<char>, name: Seq<char>, windows: bool)
    requires
        front.len() > 0,
        separator(front.last(), windows),
        forall|i: int| 0 <= i < name.len() ==> !separator(#[trigger] name[i], windows),
    ensures
        last_name(front + name, windows) == name,
    decreases name.len(),
{
    let path = front + name;
    if name.len() == 0 {
        assert(path =~= front);
        assert(name =~= Seq::<char>::empty());
    } else {
        let shorter = name.drop_last();
        assert forall|i: int| 0 <= i < shorter.len() implies !separator(
            #[trigger] shorter[i],
            windows,
        ) by {
            assert(shorter[i] == name[i]);
        }
        lemma_last_name(front, shorter, windows);
        assert(path.drop_last() =~= front + shorter);
        assert(path.last() == name[name.len() - 1]);
        assert(shorter.push(name.last()) =~= name);
    }
}

/// A plain name that is joined to a directory is the name of the file that the
/// path then leads to.
pub proof fn law_the_joined_name_is_the_file_name(base: Seq<char>, name: Seq<char>, windows: bool)
    requires
        name.len() > 0,
        forall|i: int|
            0 <= i < name.len() ==> !separator(#[trigger] name[i], windows) && name[i] != ':',
        base.len() > 0,
        !(windows && base.len() == 2 && has_drive(base)),
    ensures
        file_name_of(joined(base, name, windows), windows) == Some(name),
{
    law_a_plain_name_stays_inside(base, name, windows);
    reveal_strlit("/");
    reveal_strlit("\\");
    let path = joined(base, name, windows);
    let n = path.len() - name.len();
    assert(separator(path[n - 1], windows));
    assert(path =~= path.take(n as int) + name);
    assert(path.take(n as int).last() == path[n - 1]);
    lemma_last_name(path.take(n as int), name, windows);
}

/// An absolute path stays what it is, whatever directory it is seen from; a relative
/// one is behind that directory and one separator.
pub proof fn law_absolute_paths_stay(base: Seq<char>, path: Seq<char>)
    ensures
        path.len() > 0 && path[0] == '/' ==> joined(base, path, false) == path,
        path.len() > 0 && path[0] != '/' && base.len() > 0 && base.last() != '/' ==> joined(
            base,
            path,
            false,
        ) == base + "/"@ + path,
        path.len() > 0 && path[0] != '/' && (base.len() == 0 || base.last() == '/') ==> joined(
            base,
            path,
            false,
        ) == base + path,
        has_drive(path) ==> joined(base, path, true) == path,
{
}

proof fn lemma_name_length(name: Seq<char>, rest: Seq<char>)
    requires
        forall|i: int| 0 <= i < name.len() ==> !separator(#[trigger] name[i], true),
        rest.len() == 0 || separator(rest[0], true),
    ensures
        name_length(name + rest) == name.len(),
    decreases name.len(),
{
    let all = name + rest;
    if name.len() == 0 {
        assert(all =~= rest);
    } else {
        assert(all[0] == name[0]);
        let shorter = name.drop_first();
        assert forall|i: int| 0 <= i < shorter.len() implies !separator(
            #[trigger] shorter[i],
            true,
        ) by {
            assert(shorter[i] == name[i + 1]);
        }
        lemma_name_length(shorter, rest);
        assert(all.drop_first() =~= shorter + rest);
    }
}

/// On Windows a path with a root but without a drive is on the drive of the
/// directory it is seen from, or on the share of it; a path that names a share of
/// its own stays what it is.
pub proof fn law_rooted_paths_keep_the_drive(
    letter: char,
    rest: Seq<char>,
    server: Seq<char>,
    share: Seq<char>,
    path: Seq<char>,
)
    requires
        'a' <= letter <= 'z' || 'A' <= letter <= 'Z',
        path.len() > 0 && path[0] == '\\',
        path.len() == 1 || !separator(path[1], true),
        server.len() > 0 && share.len() > 0,
        forall|i: int| 0 <= i < server.len() ==> !separator(#[trigger] server[i], true),
        forall|i: int| 0 <= i < share.len() ==> !separator(#[trigger] share[i], true),
        rest.len() == 0 || separator(rest[0], true),
        path.len() == 1 || path[1] != ':',
    ensures
        joined(seq![letter, ':'] + rest, path, true) == seq![letter, ':'] + path,
        ({
            let host = seq!['\\', '\\'] + server + seq!['\\'] + share;
            &&& joined(host + rest, path, true) == host + path
            &&& joined(path, host + rest, true) == host + rest
        }),
{
    let drive = seq![letter, ':'];
    assert((drive + rest).take(2) =~= drive);
    assert(has_drive(drive + rest));
    assert(!has_drive(path));
    let host = seq!['\\', '\\'] + server + seq!['\\'] + share;
    let unc = host + rest;
    assert(unc[0] == '\\' && unc[1] == '\\');
    let tail = seq!['\\'] + share + rest;
    assert(unc.skip(2) =~= server + tail);
    assert(tail[0] == '\\');
    lemma_name_length(server, tail);
    assert(unc.skip((3 + server.len()) as int) =~= share + rest);
    lemma_name_length(share, rest);
    assert(prefix_length(unc) == 3 + server.len() + share.len());
    assert(unc.take(prefix_length(unc) as int) =~= host);
}

} // verus!
