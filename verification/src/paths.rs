//! File names: joining, and the names of the shadow files beside a state file.

use crate::text::{cat, cat3, chars_of, text_eq};
use vstd::prelude::*;
use vstd::string::*;

verus! {

broadcast use vstd::string::group_string_axioms;

/// A path without the separators and `.` components at its end.
pub open spec fn path_core(s: Seq<char>) -> Seq<char>
    decreases s.len(),
{
    if s.len() > 1 && s.last() == '/' {
        path_core(s.drop_last())
    } else if s.len() > 1 && s.last() == '.' && s[s.len() - 2] == '/' {
        path_core(s.drop_last())
    } else {
        s
    }
}

/// Where the last component of a path starts: behind its last separator.
pub open spec fn last_start(s: Seq<char>) -> int
    decreases s.len(),
{
    if s.len() == 0 || s.last() == '/' {
        s.len() as int
    } else {
        last_start(s.drop_last())
    }
}

pub proof fn lemma_last_start(s: Seq<char>)
    ensures
        0 <= last_start(s) <= s.len(),
        last_start(s) > 0 ==> s[last_start(s) - 1] == '/',
    decreases s.len(),
{
    if s.len() == 0 || s.last() == '/' {
    } else {
        lemma_last_start(s.drop_last());
    }
}

pub proof fn lemma_path_core(s: Seq<char>)
    ensures
        exists|k: int| 0 <= k <= s.len() && path_core(s) == #[trigger] s.take(k),
    decreases s.len(),
{
    if s.len() > 1 && (s.last() == '/' || (s.last() == '.' && s[s.len() - 2] == '/')) {
        lemma_path_core(s.drop_last());
        let k = choose|k: int|
            0 <= k <= s.drop_last().len() && path_core(s.drop_last()) == #[trigger] s.drop_last().take(k);
        assert(s.drop_last().take(k) =~= s.take(k));
    } else {
        assert(s.take(s.len() as int) =~= s);
    }
}

/// The last component of a path, where it names something: not the root, `.` or `..`.
pub open spec fn file_name(s: Seq<char>) -> Option<Seq<char>> {
    let core = path_core(s);
    let name = core.skip(last_start(core));
    if name.len() == 0 || name == "."@ || name == ".."@ {
        None
    } else {
        Some(name)
    }
}

/// The index of the last `.` in a name, or none.
pub open spec fn last_dot(s: Seq<char>) -> Option<int>
    decreases s.len(),
{
    if s.len() == 0 {
        None
    } else if s.last() == '.' {
        Some(s.len() - 1)
    } else {
        last_dot(s.drop_last())
    }
}

pub proof fn lemma_last_dot(s: Seq<char>)
    ensures
        last_dot(s) matches Some(i) ==> 0 <= i < s.len(),
    decreases s.len(),
{
    if s.len() == 0 || s.last() == '.' {
    } else {
        lemma_last_dot(s.drop_last());
    }
}

/// A file name parted at its last dot, unless that dot starts the name.
pub open spec fn stem_and_extension(name: Seq<char>) -> (Seq<char>, Option<Seq<char>>) {
    match last_dot(name) {
        Some(i) => if i == 0 {
            (name, None)
        } else {
            (name.take(i), Some(name.skip(i + 1)))
        },
        None => (name, None),
    }
}

/// The extension of a path: what stands behind the last dot of its last component,
/// unless that dot starts it.
pub open spec fn path_extension(s: Seq<char>) -> Option<Seq<char>> {
    match file_name(s) {
        Some(name) => stem_and_extension(name).1,
        None => None,
    }
}

/// Whether a path starts at the root.
pub open spec fn is_absolute(s: Seq<char>) -> bool {
    s.len() > 0 && s[0] == '/'
}

/// `dir` with the relative `name` below it.
pub open spec fn joined(dir: Seq<char>, name: Seq<char>) -> Seq<char> {
    if dir.len() == 0 || dir.last() == '/' {
        dir + name
    } else {
        dir + "/"@ + name
    }
}

/// The directory part of a path that names something.
pub open spec fn parent_of(s: Seq<char>) -> Seq<char> {
    let core = path_core(s);
    path_core(core.take(last_start(core)))
}

/// The path with its last component replaced, where it has one, or with the name put
/// below it.
pub open spec fn with_file_name(s: Seq<char>, name: Seq<char>) -> Seq<char> {
    if file_name(s) is Some {
        joined(parent_of(s), name)
    } else {
        joined(s, name)
    }
}

/// The shadow that keeps the last good copy of a state file: `x.toml` is shadowed by
/// `x.lkg.toml`.
pub open spec fn lkg_shadow(s: Seq<char>) -> Seq<char> {
    let name = match file_name(s) {
        Some(n) => match stem_and_extension(n) {
            (stem, Some(ext)) => stem + ".lkg."@ + ext,
            (stem, None) => stem + ".lkg"@,
        },
        None => "state"@ + ".lkg"@,
    };
    with_file_name(s, name)
}

/// The file through which a state file is replaced: `x.toml` is written as
/// `x.toml.tmp` first.
pub open spec fn tmp_shadow(s: Seq<char>) -> Seq<char> {
    match file_name(s) {
        Some(n) => if stem_and_extension(n).1 is Some {
            path_core(s) + ".tmp"@
        } else {
            with_file_name(s, n + ".tmp"@)
        },
        None => with_file_name(s, "state"@ + ".tmp"@),
    }
}

/// Joins a directory and a relative name.
pub fn join_path(dir: &str, name: &str) -> (r: String)
    ensures
        r@ == joined(dir@, name@),
{
    let n: usize = dir.unicode_len();
    if n == 0 || dir.get_char(n - 1) == '/' {
        cat(dir, name)
    } else {
        cat3(dir, "/", name)
    }
}

fn core_of(s: &str) -> (r: &str)
    ensures
        r@ == path_core(s@),
{
    let cs = chars_of(s);
    let mut n: usize = cs.len();
    proof {
        assert(s@.take(n as int) =~= s@);
    }
    while n > 1 && (cs[n - 1] == '/' || (cs[n - 1] == '.' && cs[n - 2] == '/'))
        invariant
            n <= cs@.len(),
            cs@ == s@,
            path_core(s@) == path_core(s@.take(n as int)),
        decreases n,
    {
        proof {
            assert(s@.take(n as int).drop_last() =~= s@.take(n as int - 1));
        }
        n -= 1;
    }
    proof {
        assert(s@.take(n as int) =~= s@.subrange(0, n as int));
    }
    s.substring_char(0, n)
}

fn last_start_of(s: &str) -> (r: usize)
    ensures
        r == last_start(s@),
        r <= s@.len(),
{
    let cs = chars_of(s);
    let mut n: usize = cs.len();
    proof {
        assert(s@.take(n as int) =~= s@);
    }
    while n > 0 && cs[n - 1] != '/'
        invariant
            n <= cs@.len(),
            cs@ == s@,
            last_start(s@) == last_start(s@.take(n as int)),
        decreases n,
    {
        proof {
            assert(s@.take(n as int).drop_last() =~= s@.take(n as int - 1));
        }
        n -= 1;
    }
    n
}

/// The last component of a path.
pub fn file_name_of<'a>(s: &'a str) -> (r: Option<&'a str>)
    ensures
        crate::text::opt_slice(r) == file_name(s@),
{
    let core = core_of(s);
    let from: usize = last_start_of(core);
    let len: usize = core.unicode_len();
    let name = core.substring_char(from, len);
    proof {
        assert(name@ =~= core@.skip(from as int));
    }
    if name.is_empty() || text_eq(name, ".") || text_eq(name, "..") {
        None
    } else {
        Some(name)
    }
}

fn last_dot_of(s: &str) -> (r: Option<usize>)
    ensures
        match r {
            Some(i) => last_dot(s@) == Some(i as int) && i < s@.len(),
            None => last_dot(s@) is None,
        },
{
    let cs = chars_of(s);
    let mut n: usize = cs.len();
    proof {
        assert(s@.take(n as int) =~= s@);
    }
    while n > 0
        invariant
            n <= cs@.len(),
            cs@ == s@,
            last_dot(s@) == last_dot(s@.take(n as int)),
        decreases n,
    {
        if cs[n - 1] == '.' {
            return Some(n - 1);
        }
        proof {
            assert(s@.take(n as int).drop_last() =~= s@.take(n as int - 1));
        }
        n -= 1;
    }
    None
}

/// The extension of a path.
pub fn extension_of_path<'a>(s: &'a str) -> (r: Option<&'a str>)
    ensures
        crate::text::opt_slice(r) == path_extension(s@),
{
    match file_name_of(s) {
        Some(name) => {
            let len: usize = name.unicode_len();
            match last_dot_of(name) {
                Some(i) if i > 0 => {
                    let ext = name.substring_char(i + 1, len);
                    proof {
                        assert(ext@ =~= name@.skip(i as int + 1));
                    }
                    Some(ext)
                },
                _ => None,
            }
        },
        None => None,
    }
}

/// Decides [`is_absolute`].
pub fn starts_at_root(s: &str) -> (r: bool)
    ensures
        r == is_absolute(s@),
{
    s.unicode_len() > 0 && s.get_char(0) == '/'
}

/// The path of a value below a directory: the value itself where it starts at the root.
pub open spec fn path_below(dir: Seq<char>, value: Seq<char>) -> Seq<char> {
    if is_absolute(value) {
        value
    } else {
        joined(dir, value)
    }
}

/// The path of a value below a directory.
pub fn path_in(dir: &str, value: &str) -> (r: String)
    ensures
        r@ == path_below(dir@, value@),
{
    if starts_at_root(value) {
        value.to_owned()
    } else {
        join_path(dir, value)
    }
}

/// The directory part of a path that names something, as [`parent_of`] says.
pub fn parent_path(s: &str) -> (r: &str)
    ensures
        r@ == parent_of(s@),
{
    let core = core_of(s);
    let from: usize = last_start_of(core);
    let dir = core.substring_char(0, from);
    proof {
        assert(dir@ =~= core@.take(from as int));
    }
    core_of(dir)
}

fn replace_file_name(s: &str, name: &str) -> (r: String)
    ensures
        r@ == with_file_name(s@, name@),
{
    match file_name_of(s) {
        Some(_) => join_path(parent_path(s), name),
        None => join_path(s, name),
    }
}

/// The path of the last-known-good shadow of a state file.
pub fn lkg_shadow_path(path: &str) -> (r: String)
    ensures
        r@ == lkg_shadow(path@),
{
    match file_name_of(path) {
        Some(n) => {
            let len: usize = n.unicode_len();
            let name = match last_dot_of(n) {
                Some(i) if i > 0 => {
                    let stem = n.substring_char(0, i);
                    let ext = n.substring_char(i + 1, len);
                    proof {
                        assert(stem@ =~= n@.take(i as int));
                        assert(ext@ =~= n@.skip(i as int + 1));
                    }
                    cat3(stem, ".lkg.", ext)
                },
                _ => cat(n, ".lkg"),
            };
            replace_file_name(path, name.as_str())
        },
        None => {
            let name = cat("state", ".lkg");
            replace_file_name(path, name.as_str())
        },
    }
}

/// The path through which a state file is replaced.
pub fn tmp_shadow_path(path: &str) -> (r: String)
    ensures
        r@ == tmp_shadow(path@),
{
    match file_name_of(path) {
        Some(n) => match last_dot_of(n) {
            Some(i) if i > 0 => cat(core_of(path), ".tmp"),
            _ => {
                let name = cat(n, ".tmp");
                replace_file_name(path, name.as_str())
            },
        },
        None => {
            let name = cat("state", ".tmp");
            replace_file_name(path, name.as_str())
        },
    }
}

/// The shadows of a state file `stem.ext` in a directory are `stem.lkg.ext` and
/// `stem.ext.tmp` in the same directory, and neither is the file itself.
pub proof fn shadows_are_other_files(dir: Seq<char>, stem: Seq<char>, ext: Seq<char>)
    requires
        dir.len() > 0,
        path_core(dir) == dir,
        stem.len() > 0,
        forall|i: int| 0 <= i < stem.len() ==> stem[i] != '/',
        ext.len() > 0,
        forall|i: int| 0 <= i < ext.len() ==> ext[i] != '/' && ext[i] != '.',
    ensures
        ({
            let path = joined(dir, stem + "."@ + ext);
            &&& lkg_shadow(path) == joined(dir, stem + ".lkg."@ + ext)
            &&& tmp_shadow(path) == path + ".tmp"@
            &&& lkg_shadow(path) != path
            &&& tmp_shadow(path) != path
        }),
{
    reveal_strlit(".");
    reveal_strlit("..");
    reveal_strlit("/");
    reveal_strlit(".lkg.");
    reveal_strlit(".tmp");
    let name = stem + "."@ + ext;
    let path = joined(dir, name);
    assert(path.last() == ext.last());
    assert(path_core(path) == path);
    lemma_behind_separator(path, path.len() - name.len());
    assert(last_start(path) == path.len() - name.len());
    assert(path.skip(last_start(path)) =~= name);
    assert(name.len() >= 3);
    assert(file_name(path) == Some(name));
    lemma_last_dot_of_name(name, stem.len() as int);
    assert(name.take(stem.len() as int) =~= stem);
    assert(name.skip(stem.len() as int + 1) =~= ext);
    let upto = path.take(last_start(path));
    if dir.last() == '/' {
        if dir.len() > 1 {
            lemma_path_core(dir.drop_last());
        }
        assert(dir.len() == 1);
        assert(upto =~= dir);
    } else {
        assert(upto =~= dir.push('/'));
        assert(upto.drop_last() =~= dir);
        assert(path_core(upto) == path_core(dir));
    }
    assert(lkg_shadow(path).len() == path.len() + 4);
}

proof fn lemma_behind_separator(s: Seq<char>, k: int)
    requires
        0 <= k <= s.len(),
        k > 0 ==> s[k - 1] == '/',
        forall|i: int| k <= i < s.len() ==> s[i] != '/',
    ensures
        last_start(s) == k,
    decreases s.len(),
{
    if s.len() == k {
    } else {
        lemma_behind_separator(s.drop_last(), k);
    }
}

proof fn lemma_last_dot_of_name(s: Seq<char>, k: int)
    requires
        0 <= k < s.len(),
        s[k] == '.',
        forall|i: int| k < i < s.len() ==> s[i] != '.',
    ensures
        last_dot(s) == Some(k),
    decreases s.len(),
{
    if s.len() - 1 > k {
        lemma_last_dot_of_name(s.drop_last(), k);
    }
}

/// A name is put below a directory with one separator between.
pub proof fn names_are_put_below(dir: Seq<char>, name: Seq<char>)
    ensures
        joined(seq![], name) == name,
        dir.len() > 0 && dir.last() != '/' ==> joined(dir, name) == dir.push('/') + name,
        joined(dir.push('/'), name) == dir.push('/') + name,
        is_absolute(name) <==> name.len() > 0 && name[0] == '/',
        is_absolute(name) ==> path_below(dir, name) == name,
        !is_absolute(name) ==> path_below(dir, name) == joined(dir, name),
{
    reveal_strlit("/");
    assert("/"@ =~= seq!['/']);
    assert(Seq::<char>::empty() + name =~= name);
    assert(dir + "/"@ + name =~= dir.push('/') + name);
}

/// The file name of a path is what stands behind its last separator, and its parent is
/// what stands before; separators at the end do not count.
pub proof fn file_names_stand_last(dir: Seq<char>, name: Seq<char>)
    requires
        dir.len() > 0,
        path_core(dir) == dir,
        dir.last() != '/',
        name.len() > 0,
        forall|i: int| 0 <= i < name.len() ==> name[i] != '/',
        name != "."@,
        name != ".."@,
    ensures
        file_name(dir.push('/') + name) == Some(name),
        parent_of(dir.push('/') + name) == dir,
        file_name((dir.push('/') + name).push('/')) == Some(name),
{
    reveal_strlit(".");
    assert("."@ =~= seq!['.']);
    let s = dir.push('/') + name;
    assert(s.last() == name[name.len() - 1]);
    assert(s.last() != '/');
    if s.last() == '.' && s[s.len() - 2] == '/' {
        if name.len() == 1 {
            assert(name =~= "."@);
        } else {
            assert(s[s.len() - 2] == name[name.len() - 2]);
        }
    }
    assert(path_core(s) == s);
    let k = dir.len() as int + 1;
    assert forall|i: int| k <= i < s.len() implies s[i] != '/' by {
        assert(s[i] == name[i - k]);
    }
    lemma_behind_separator(s, k);
    assert(s.skip(k) =~= name);
    assert(s.take(k) =~= dir.push('/'));
    assert(dir.push('/').drop_last() =~= dir);
    assert(path_core(dir.push('/')) == dir);
    assert(s.push('/').drop_last() =~= s);
    assert(path_core(s.push('/')) == s);
}

/// An extension is what stands behind the last dot of a file's name; a name that starts
/// with its only dot has none, nor has one without a dot.
pub proof fn extensions_stand_behind_the_dot(stem: Seq<char>, ext: Seq<char>)
    requires
        forall|i: int| 0 <= i < ext.len() ==> ext[i] != '.',
    ensures
        stem.len() > 0 ==> stem_and_extension(stem.push('.') + ext) == (stem, Some(ext)),
        stem_and_extension(seq!['.'] + ext) == (seq!['.'] + ext, None::<Seq<char>>),
        stem_and_extension(ext) == (ext, None::<Seq<char>>),
{
    let s = stem.push('.') + ext;
    assert(s[stem.len() as int] == '.');
    assert forall|i: int| stem.len() < i < s.len() implies s[i] != '.' by {
        assert(s[i] == ext[i - stem.len() - 1]);
    }
    lemma_last_dot_of_name(s, stem.len() as int);
    assert(s.take(stem.len() as int) =~= stem);
    assert(s.skip(stem.len() as int + 1) =~= ext);
    let t = seq!['.'] + ext;
    assert forall|i: int| 0 < i < t.len() implies t[i] != '.' by {
        assert(t[i] == ext[i - 1]);
    }
    lemma_last_dot_of_name(t, 0);
    lemma_no_dot(ext);
}

proof fn lemma_no_dot(s: Seq<char>)
    requires
        forall|i: int| 0 <= i < s.len() ==> s[i] != '.',
    ensures
        last_dot(s) is None,
    decreases s.len(),
{
    if s.len() > 0 {
        assert(s.last() == s[s.len() - 1]);
        assert forall|i: int| 0 <= i < s.drop_last().len() implies s.drop_last()[i] != '.' by {
            assert(s.drop_last()[i] == s[i]);
        }
        lemma_no_dot(s.drop_last());
    }
}

} // verus!
