use vstd::prelude::*;
use vstd::string::*;
use crate::args::lit;

verus! {

/// The line that heads the list of leftover configuration files.
pub const PACNEW_HEADER: &'static str = "Pacman backup configuration files found:";

/// The last component of a path: what follows its final `/`.
pub open spec fn file_name(path: Seq<char>) -> Seq<char>
    decreases path.len(),
{
    if path.len() == 0 {
        path
    } else if path.last() == '/' {
        seq![]
    } else {
        file_name(path.drop_last()).push(path.last())
    }
}

/// Whether `name` has the extension `ext`: it ends with a dot and `ext`,
/// and the dot is not its first character.
pub open spec fn has_extension(name: Seq<char>, ext: Seq<char>) -> bool {
    &&& name.len() > ext.len() + 1
    &&& name[name.len() - ext.len() - 1] == '.'
    &&& name.subrange(name.len() - ext.len(), name.len() as int) == ext
}

/// Whether a path names a configuration file that the low-level tool left
/// beside the one in use: one with the extension `pacnew` or `pacsave`.
pub open spec fn is_backup_config(path: Seq<char>) -> bool {
    has_extension(file_name(path), "pacnew"@) || has_extension(file_name(path), "pacsave"@)
}

/// The paths of `paths` that name leftover configuration files, in order.
pub open spec fn backups(paths: Seq<Seq<char>>) -> Seq<Seq<char>>
    decreases paths.len(),
{
    if paths.len() == 0 {
        seq![]
    } else if is_backup_config(paths.last()) {
        backups(paths.drop_last()).push(paths.last())
    } else {
        backups(paths.drop_last())
    }
}

/// The lines of the report: nothing where no leftover file was found, else
/// the header followed by each leftover file's path.
pub open spec fn report(paths: Seq<Seq<char>>) -> Seq<Seq<char>> {
    if backups(paths).len() == 0 {
        seq![]
    } else {
        seq![PACNEW_HEADER@] + backups(paths)
    }
}

/// The index just past the last `/` of `s`, or zero.
fn name_start(s: &str) -> (r: usize)
    ensures
        r <= s@.len(),
        file_name(s@) == s@.subrange(r as int, s@.len() as int),
{
    let n = s.unicode_len();
    let mut k: usize = n;
    assert(s@.subrange(n as int, n as int) =~= seq![]);
    assert(s@.subrange(0, n as int) =~= s@);
    assert(file_name(s@) + s@.subrange(n as int, n as int) =~= file_name(s@));
    while k > 0 && s.get_char(k - 1) != '/'
        invariant
            k <= n == s@.len(),
            file_name(s@) == file_name(s@.subrange(0, k as int)) + s@.subrange(k as int, n as int),
        decreases k,
    {
        let ghost pre = s@.subrange(0, k as int);
        assert(pre.drop_last() =~= s@.subrange(0, k - 1));
        assert(s@.subrange(k - 1, n as int) =~= seq![pre.last()] + s@.subrange(k as int, n as int));
        assert(file_name(pre) == file_name(pre.drop_last()).push(pre.last()));
        assert(file_name(pre.drop_last()).push(pre.last()) + s@.subrange(k as int, n as int)
            =~= file_name(pre.drop_last()) + s@.subrange(k - 1, n as int));
        k = k - 1;
    }
    if k > 0 {
        assert(s@.subrange(0, k as int).last() == '/');
    } else {
        assert(s@.subrange(0, 0) =~= seq![]);
    }
    assert(file_name(s@.subrange(0, k as int)) =~= seq![]);
    assert(seq![] + s@.subrange(k as int, n as int) =~= s@.subrange(k as int, n as int));
    k
}

/// Whether the part of `s` from `start` on has the extension `ext`.
fn ends_with_extension(s: &str, start: usize, ext: &str) -> (r: bool)
    requires
        start <= s@.len(),
    ensures
        r == has_extension(s@.subrange(start as int, s@.len() as int), ext@),
{
    let n = s.unicode_len();
    let m = ext.unicode_len();
    let ghost name = s@.subrange(start as int, n as int);
    if m >= n - start || n - start - m <= 1 {
        return false;
    }
    if s.get_char(n - m - 1) != '.' {
        return false;
    }
    let mut k: usize = 0;
    while k < m
        invariant
            n == s@.len(),
            m == ext@.len(),
            start + m + 1 < n,
            name == s@.subrange(start as int, n as int),
            0 <= k <= m,
            forall|j: int| 0 <= j < k ==> s@[n - m + j] == ext@[j],
        decreases m - k,
    {
        if s.get_char(n - m + k) != ext.get_char(k) {
            assert(name.subrange(name.len() - m, name.len() as int)[k as int] != ext@[k as int]);
            return false;
        }
        k = k + 1;
    }
    assert(name.subrange(name.len() - m, name.len() as int) =~= ext@);
    true
}

/// Whether `path` names a leftover configuration file.
pub fn is_pacnew(path: &str) -> (r: bool)
    ensures
        r == is_backup_config(path@),
{
    let start = name_start(path);
    ends_with_extension(path, start, "pacnew") || ends_with_extension(path, start, "pacsave")
}

/// The report on the files of a directory tree: nothing where none is a
/// leftover configuration file, else the header line and the path of each
/// leftover file, in the order given.
pub fn pacnew_report(paths: &Vec<String>) -> (r: Vec<String>)
    ensures
        r.deep_view() == report(paths.deep_view()),
{
    let mut found: Vec<String> = Vec::new();
    let mut i: usize = 0;
    while i < paths.len()
        invariant
            0 <= i <= paths.len(),
            found.deep_view() == backups(paths.deep_view().subrange(0, i as int)),
        decreases paths.len() - i,
    {
        let ghost pre = paths.deep_view().subrange(0, i + 1);
        assert(pre.drop_last() =~= paths.deep_view().subrange(0, i as int));
        assert(pre.last() == paths[i as int]@);
        if is_pacnew(paths[i].as_str()) {
            let ghost before = found.deep_view();
            found.push(paths[i].clone());
            assert(found.deep_view() =~= before.push(paths[i as int]@));
        }
        i = i + 1;
    }
    assert(paths.deep_view().subrange(0, paths.len() as int) =~= paths.deep_view());
    if found.len() == 0 {
        assert(found.deep_view().len() == 0);
        let r: Vec<String> = Vec::new();
        assert(r.deep_view() =~= report(paths.deep_view()));
        return r;
    }
    let ghost fv = found.deep_view();
    let mut r = vec![lit(PACNEW_HEADER)];
    r.append(&mut found);
    assert(r.deep_view() =~= seq![PACNEW_HEADER@] + fv);
    r
}

} // verus!
