//! Which files are documented, under what module name, and where each page
//! goes. Paths are text with `/` between components.
use vstd::prelude::*;

use crate::text::push_char;

verus! {

/// Whether `p` names a file with the source extension `glu`: it ends in
/// `.glu`, and the file name is more than that suffix (a file named `.glu`
/// has no extension).
pub open spec fn documentable(p: Seq<char>) -> bool {
    &&& p.len() > 4
    &&& p[p.len() - 4] == '.'
    &&& p[p.len() - 3] == 'g'
    &&& p[p.len() - 2] == 'l'
    &&& p[p.len() - 1] == 'u'
    &&& p[p.len() - 5] != '/'
}

/// `p` without its source extension, where it has one.
pub open spec fn stem_of(p: Seq<char>) -> Seq<char> {
    if documentable(p) {
        p.subrange(0, p.len() - 4)
    } else {
        p
    }
}

/// The separator of module paths in place of a separator of file paths.
pub open spec fn module_char(c: char) -> char {
    if c == '/' || c == '\\' {
        '.'
    } else {
        c
    }
}

/// The module name of the source file `p`: its path without the source
/// extension, with `.` between components.
pub open spec fn module_name_of(p: Seq<char>) -> Seq<char> {
    stem_of(p).map_values(|c: char| module_char(c))
}

/// `rel` under the directory `root`.
pub open spec fn join(root: Seq<char>, rel: Seq<char>) -> Seq<char> {
    if root.len() == 0 {
        rel
    } else if root.last() == '/' {
        root + rel
    } else {
        root.push('/') + rel
    }
}

/// Where the page of the source file `rel` goes under `root`: the same
/// relative path, with the extension `html` in place of `glu`.
pub open spec fn output_of(root: Seq<char>, rel: Seq<char>) -> Seq<char> {
    join(root, stem_of(rel) + seq!['.', 'h', 't', 'm', 'l'])
}

/// Whether the entry at `path` is documented: a file with the source
/// extension.
pub fn is_documentable(path: &str, is_file: bool) -> (r: bool)
    ensures
        r == (is_file && documentable(path@)),
{
    if !is_file {
        return false;
    }
    let n = path.unicode_len();
    n > 4 && path.get_char(n - 4) == '.' && path.get_char(n - 3) == 'g' && path.get_char(n - 2) == 'l'
        && path.get_char(n - 1) == 'u' && path.get_char(n - 5) != '/'
}

/// Appends the first `len` characters of `s` to `out`.
fn push_prefix(out: &mut String, s: &str, len: usize, as_module: bool)
    requires
        len <= s@.len(),
    ensures
        as_module ==> final(out)@ == old(out)@ + s@.subrange(0, len as int).map_values(|c: char| module_char(c)),
        !as_module ==> final(out)@ == old(out)@ + s@.subrange(0, len as int),
{
    let ghost start = out@;
    let mut i: usize = 0;
    while i < len
        invariant
            len <= s@.len(),
            i <= len,
            as_module ==> out@ == start + s@.subrange(0, i as int).map_values(|c: char| module_char(c)),
            !as_module ==> out@ == start + s@.subrange(0, i as int),
        decreases len - i,
    {
        let c = s.get_char(i);
        let d = if as_module && (c == '/' || c == '\\') {
            '.'
        } else {
            c
        };
        push_char(out, d);
        proof {
            let next = s@.subrange(0, i + 1);
            assert(next =~= s@.subrange(0, i as int).push(c));
            assert(next.map_values(|c: char| module_char(c)) =~= s@.subrange(0, i as int).map_values(
                |c: char| module_char(c),
            ).push(module_char(c)));
        }
        i = i + 1;
    }
    proof {
        if as_module {
            assert(out@ =~= start + s@.subrange(0, len as int).map_values(|c: char| module_char(c)));
        } else {
            assert(out@ =~= start + s@.subrange(0, len as int));
        }
    }
}

/// The length of `path` without its source extension.
fn stem_len(path: &str) -> (r: usize)
    ensures
        r <= path@.len(),
        stem_of(path@) == path@.subrange(0, r as int),
{
    let n = path.unicode_len();
    if is_documentable(path, true) {
        n - 4
    } else {
        proof {
            assert(path@.subrange(0, n as int) =~= path@);
        }
        n
    }
}

/// The module name of the source file `path`: the path without its source
/// extension, with each `/` or `\` turned into `.` (`a/b.glu` is `a.b`).
pub fn module_name(path: &str) -> (r: String)
    ensures
        r@ == module_name_of(path@),
{
    let mut out = String::new();
    let len = stem_len(path);
    push_prefix(&mut out, path, len, true);
    proof {
        assert(out@ =~= module_name_of(path@));
    }
    out
}

/// Where the page of the source file `rel` goes under the output directory
/// `root`: `root/rel` with the extension `html` in place of `glu`.
pub fn output_path(root: &str, rel: &str) -> (r: String)
    requires
        documentable(rel@),
    ensures
        r@ == output_of(root@, rel@),
{
    let mut out = String::new();
    let rn = root.unicode_len();
    push_prefix(&mut out, root, rn, false);
    proof {
        assert(root@.subrange(0, rn as int) =~= root@);
    }
    if rn > 0 && root.get_char(rn - 1) != '/' {
        push_char(&mut out, '/');
    }
    let len = stem_len(rel);
    push_prefix(&mut out, rel, len, false);
    out.append(".html");
    proof {
        reveal_strlit(".html");
        assert(".html"@ =~= seq!['.', 'h', 't', 'm', 'l']);
        assert(out@ =~= output_of(root@, rel@));
    }
    out
}

/// The page to make for one entry of the input tree.
#[derive(Clone, Debug, PartialEq, Eq)]
pub struct Target {
    /// The module name of the source file.
    pub module_name: String,
    /// The path of the page.
    pub output: String,
}

/// The page to make for the entry at `rel` (relative to the input
/// directory) under the output directory `root`: none where the entry is not
/// a file with the source extension.
pub fn plan_entry(root: &str, rel: &str, is_file: bool) -> (r: Option<Target>)
    ensures
        r is Some <==> is_file && documentable(rel@),
        r matches Some(t) ==> t.module_name@ == module_name_of(rel@) && t.output@ == output_of(root@, rel@),
{
    if is_documentable(rel, is_file) {
        Some(Target { module_name: module_name(rel), output: output_path(root, rel) })
    } else {
        None
    }
}

} // verus!
