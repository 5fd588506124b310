//! Paths of parts in a package: file names, extensions and the leading slash.

use vstd::prelude::*;

use crate::text::str_eq;

verus! {

/// The position of the last `c` in `s`, or -1 where `s` has none.
pub open spec fn last_index_of(s: Seq<char>, c: char) -> int
    decreases s.len(),
{
    if s.len() == 0 {
        -1
    } else if s.last() == c {
        s.len() - 1
    } else {
        last_index_of(s.drop_last(), c)
    }
}

/// The last position of `c` lies in `s`, holds `c`, and no later position holds it.
pub proof fn lemma_last_index_of(s: Seq<char>, c: char)
    ensures
        -1 <= last_index_of(s, c) < s.len(),
        last_index_of(s, c) >= 0 ==> s[last_index_of(s, c)] == c,
        forall|j: int| last_index_of(s, c) < j < s.len() ==> s[j] != c,
    decreases s.len(),
{
    if s.len() > 0 && s.last() != c {
        lemma_last_index_of(s.drop_last(), c);
        assert forall|j: int| last_index_of(s, c) < j < s.len() implies s[j] != c by {
            if j < s.len() - 1 {
                assert(s[j] == s.drop_last()[j]);
            }
        }
    }
}

/// The file name of a path: what follows its last `/`.
pub open spec fn file_name(path: Seq<char>) -> Seq<char> {
    path.subrange(last_index_of(path, '/') + 1, path.len() as int)
}

/// The extension of a file name, as std's `Path::extension` gives it: what follows the
/// last `.`, where that `.` is not the first character and the name is not `..`.
pub open spec fn extension_of(name: Seq<char>) -> Option<Seq<char>> {
    let k = last_index_of(name, '.');
    if k <= 0 || name == ".."@ {
        None
    } else {
        Some(name.subrange(k + 1, name.len() as int))
    }
}

/// The position of the last `c` in `s`, if there is one.
pub fn find_last_char(s: &str, c: char) -> (r: Option<usize>)
    ensures
        match r {
            Some(i) => i == last_index_of(s@, c),
            None => last_index_of(s@, c) == -1,
        },
{
    let n = s.unicode_len();
    let mut i: usize = n;
    proof {
        assert(s@.take(n as int) =~= s@);
    }
    while i > 0
        invariant
            i <= n,
            n == s@.len(),
            last_index_of(s@, c) == last_index_of(s@.take(i as int), c),
        decreases i,
    {
        let ch = s.get_char(i - 1);
        proof {
            assert(s@.take(i as int).drop_last() =~= s@.take(i - 1));
        }
        if ch == c {
            return Some(i - 1);
        }
        i = i - 1;
    }
    proof {
        assert(s@.take(0) =~= Seq::<char>::empty());
    }
    None
}

/// The file name of a path: what follows its last `/`.
pub fn path_file_name(path: &str) -> (r: &str)
    ensures
        r@ == file_name(path@),
{
    proof {
        assert(s_take_all(path@));
        lemma_last_index_of(path@, '/');
    }
    let n = path.unicode_len();
    match find_last_char(path, '/') {
        Some(i) => path.substring_char(i + 1, n),
        None => path.substring_char(0, n),
    }
}

spec fn s_take_all(s: Seq<char>) -> bool {
    s.take(s.len() as int) =~= s
}

/// The extension of a file name, if it has one.
pub fn name_extension(name: &str) -> (r: Option<&str>)
    ensures
        match r {
            Some(e) => extension_of(name@) == Some(e@),
            None => extension_of(name@) is None,
        },
{
    proof {
        assert(s_take_all(name@));
        lemma_last_index_of(name@, '.');
    }
    let n = name.unicode_len();
    match find_last_char(name, '.') {
        Some(k) => {
            if k == 0 || str_eq(name, "..") {
                None
            } else {
                Some(name.substring_char(k + 1, n))
            }
        },
        None => None,
    }
}

/// The path without its leading `/`, where it has one.
pub open spec fn strip_leading_slash(path: Seq<char>) -> Seq<char> {
    if path.len() > 0 && path[0] == '/' {
        path.drop_first()
    } else {
        path
    }
}

/// The path without its leading `/`, where it has one.
pub fn try_strip_leading_slash(path: &str) -> (r: &str)
    ensures
        r@ == strip_leading_slash(path@),
{
    let n = path.unicode_len();
    if n > 0 && path.get_char(0) == '/' {
        path.substring_char(1, n)
    } else {
        proof {
            assert(path@.subrange(0, n as int) =~= path@);
        }
        path.substring_char(0, n)
    }
}

/// The part path under which a relationship part found at archive name `name` is
/// kept: `name` with a leading `/`, where the file name of `name` has extension
/// `rels_ext` and `name` is not the root relationship part.
pub open spec fn relationship_part_path(
    name: Seq<char>,
    rels_ext: Seq<char>,
    root_rels_filename: Seq<char>,
) -> Option<Seq<char>> {
    if extension_of(file_name(name)) == Some(rels_ext) && name != root_rels_filename {
        Some(seq!['/'] + name)
    } else {
        None
    }
}

/// The part path of a relationship part other than the root one, found in the archive
/// under `name`; `None` where `name` is not such a part.
pub fn relationship_file_path(name: &str, rels_ext: &str, root_rels_filename: &str) -> (r: Option<String>)
    ensures
        match r {
            Some(p) => relationship_part_path(name@, rels_ext@, root_rels_filename@) == Some(p@),
            None => relationship_part_path(name@, rels_ext@, root_rels_filename@) is None,
        },
{
    let file = path_file_name(name);
    match name_extension(file) {
        Some(ext) => {
            if str_eq(ext, rels_ext) && !str_eq(name, root_rels_filename) {
                let mut p = String::from_str("/");
                p.append(name);
                proof {
                    reveal_strlit("/");
                    assert(p@ =~= seq!['/'] + name@);
                }
                Some(p)
            } else {
                None
            }
        },
        None => None,
    }
}

/// The part paths of the relationship parts among the archive file names `names`, in
/// order.
pub open spec fn relationship_parts(names: Seq<String>, rels_ext: Seq<char>, root_rels_filename: Seq<char>) -> Seq<
    Seq<char>,
>
    decreases names.len(),
{
    if names.len() == 0 {
        Seq::empty()
    } else {
        let prev = relationship_parts(names.drop_last(), rels_ext, root_rels_filename);
        match relationship_part_path(names.last()@, rels_ext, root_rels_filename) {
            Some(p) => prev.push(p),
            None => prev,
        }
    }
}

/// The part paths of the relationship parts other than the root one among the names of
/// the files of an archive, in order.
pub fn discover_relationship_files(names: &Vec<String>, rels_ext: &str, root_rels_filename: &str) -> (r: Vec<String>)
    ensures
        r@.map_values(|p: String| p@) == relationship_parts(names@, rels_ext@, root_rels_filename@),
{
    let mut out: Vec<String> = Vec::new();
    let n = names.len();
    proof {
        assert(names@.take(0) =~= Seq::<String>::empty());
        assert(out@.map_values(|p: String| p@) =~= Seq::<Seq<char>>::empty());
    }
    for i in 0..n
        invariant
            n == names@.len(),
            out@.map_values(|p: String| p@) == relationship_parts(names@.take(i as int), rels_ext@, root_rels_filename@),
    {
        proof {
            assert(names@.take(i + 1).drop_last() =~= names@.take(i as int));
            assert(names@.take(i + 1).last() == names@[i as int]);
        }
        let ghost before = out@;
        match relationship_file_path(names[i].as_str(), rels_ext, root_rels_filename) {
            Some(p) => {
                out.push(p);
                proof {
                    assert(out@.map_values(|q: String| q@) =~= before.map_values(|q: String| q@).push(out@.last()@));
                }
            },
            None => {},
        }
    }
    proof {
        assert(names@.take(n as int) =~= names@);
    }
    out
}

} // verus!
