//! Unix path text: final component, extension, stem and joining, with the
//! meaning that `std::path::Path` documents for them.
use vstd::prelude::*;
use crate::text::{last_index_of, lemma_last_index_of, opt_view, find_last, substring, text_concat, text_concat3};

verus! {

/// The final component of the path `p` (`Path::file_name`): trailing `/`
/// and trailing `.` components are skipped; there is none when the path is
/// empty, is a root, or ends in `..`.
pub open spec fn file_name_of(p: Seq<char>) -> Option<Seq<char>>
    decreases p.len(),
{
    if p.len() == 0 {
        None
    } else if p.last() == '/' {
        file_name_of(p.drop_last())
    } else {
        let i = last_index_of(p, '/');
        let comp = p.subrange(i + 1, p.len() as int);
        if comp == seq!['.'] {
            if i < 0 {
                None
            } else {
                proof {
                    lemma_last_index_of(p, '/');
                }
                file_name_of(p.subrange(0, i))
            }
        } else if comp == seq!['.', '.'] {
            None
        } else {
            proof {
                lemma_last_index_of(p, '/');
            }
            Some(comp)
        }
    }
}

/// The extension of a file name (`Path::extension` on a single component):
/// the text after the last `.`, none when there is no `.` or the only `.`
/// starts the name.
pub open spec fn name_extension(name: Seq<char>) -> Option<Seq<char>> {
    let i = last_index_of(name, '.');
    if i <= 0 {
        None
    } else {
        Some(name.subrange(i + 1, name.len() as int))
    }
}

/// The stem of a file name (`Path::file_stem` on a single component): the
/// text before the last `.`, or the whole name when it has no extension.
pub open spec fn name_stem(name: Seq<char>) -> Seq<char> {
    let i = last_index_of(name, '.');
    if i <= 0 {
        name
    } else {
        name.subrange(0, i)
    }
}

/// The extension of the path `p` (`Path::extension`).
pub open spec fn path_extension(p: Seq<char>) -> Option<Seq<char>> {
    match file_name_of(p) {
        Some(n) => name_extension(n),
        None => None,
    }
}

/// `name` appended to `base` (`Path::join` on Unix): an absolute `name`
/// replaces `base`; otherwise a `/` separates them unless `base` is empty or
/// already ends in `/`.
pub open spec fn joined(base: Seq<char>, name: Seq<char>) -> Seq<char> {
    if name.len() > 0 && name[0] == '/' {
        name
    } else if base.len() > 0 && base.last() != '/' {
        base + seq!['/'] + name
    } else {
        base + name
    }
}

/// The final component of `p` once its extension is replaced by the
/// non-empty `ext` (`p.with_extension(ext).file_name()`).
pub open spec fn renamed_file_name(p: Seq<char>, ext: Seq<char>) -> Option<Seq<char>> {
    match file_name_of(p) {
        Some(n) => Some(name_stem(n) + seq!['.'] + ext),
        None => None,
    }
}

fn is_single_dot(s: &str) -> (r: bool)
    ensures
        r == (s@ == seq!['.']),
{
    if s.unicode_len() == 1 {
        let c = s.get_char(0);
        proof {
            if c == '.' {
                assert(s@ =~= seq!['.']);
            }
        }
        c == '.'
    } else {
        false
    }
}

fn is_double_dot(s: &str) -> (r: bool)
    ensures
        r == (s@ == seq!['.', '.']),
{
    if s.unicode_len() == 2 {
        let c0 = s.get_char(0);
        let c1 = s.get_char(1);
        proof {
            if c0 == '.' && c1 == '.' {
                assert(s@ =~= seq!['.', '.']);
            }
        }
        c0 == '.' && c1 == '.'
    } else {
        false
    }
}

/// The final component of the path `p`, as `Path::file_name` gives it.
pub fn file_name(p: &str) -> (r: Option<String>)
    ensures
        opt_view(r) == file_name_of(p@),
{
    let n = p.unicode_len();
    let mut end: usize = n;
    proof {
        assert(p@.subrange(0, n as int) =~= p@);
    }
    loop
        invariant
            n == p@.len(),
            end <= n,
            file_name_of(p@) == file_name_of(p@.subrange(0, end as int)),
        decreases end,
    {
        let ghost q = p@.subrange(0, end as int);
        if end == 0 {
            return None;
        }
        if p.get_char(end - 1) == '/' {
            proof {
                assert(q.drop_last() =~= p@.subrange(0, end - 1));
            }
            end = end - 1;
        } else {
            let prefix = substring(p, 0, end);
            let idx = find_last(prefix.as_str(), '/');
            proof {
                lemma_last_index_of(q, '/');
            }
            let start: usize = match idx {
                Some(i) => i + 1,
                None => 0,
            };
            let comp = substring(prefix.as_str(), start, end);
            proof {
                assert(comp@ =~= q.subrange(last_index_of(q, '/') + 1, q.len() as int));
            }
            if is_single_dot(comp.as_str()) {
                match idx {
                    None => {
                        return None;
                    },
                    Some(i) => {
                        proof {
                            assert(q.subrange(0, i as int) =~= p@.subrange(0, i as int));
                        }
                        end = i;
                    },
                }
            } else if is_double_dot(comp.as_str()) {
                return None;
            } else {
                return Some(comp);
            }
        }
    }
}

/// The extension of a single file name, as `Path::extension` gives it.
pub fn name_ext(name: &str) -> (r: Option<String>)
    ensures
        opt_view(r) == name_extension(name@),
{
    let n = name.unicode_len();
    match find_last(name, '.') {
        None => None,
        Some(i) => {
            if i == 0 {
                None
            } else {
                proof {
                    lemma_last_index_of(name@, '.');
                }
                Some(substring(name, i + 1, n))
            }
        },
    }
}

/// The stem of a single file name, as `Path::file_stem` gives it.
pub fn name_stem_of(name: &str) -> (r: String)
    ensures
        r@ == name_stem(name@),
{
    match find_last(name, '.') {
        None => String::from_str(name),
        Some(i) => {
            if i == 0 {
                String::from_str(name)
            } else {
                proof {
                    lemma_last_index_of(name@, '.');
                }
                substring(name, 0, i)
            }
        },
    }
}

/// The extension of the path `p`, as `Path::extension` gives it.
pub fn extension(p: &str) -> (r: Option<String>)
    ensures
        opt_view(r) == path_extension(p@),
{
    match file_name(p) {
        Some(n) => name_ext(n.as_str()),
        None => None,
    }
}

/// `name` appended to `base`, as `Path::join` gives it.
pub fn join(base: &str, name: &str) -> (r: String)
    ensures
        r@ == joined(base@, name@),
{
    let nl = name.unicode_len();
    if nl > 0 && name.get_char(0) == '/' {
        return String::from_str(name);
    }
    let bl = base.unicode_len();
    if bl > 0 && base.get_char(bl - 1) != '/' {
        proof {
            reveal_strlit("/");
            assert("/"@ =~= seq!['/']);
        }
        text_concat3(base, "/", name)
    } else {
        text_concat(base, name)
    }
}

/// The final component of `p` once its extension is replaced by `ext`, as
/// `p.with_extension(ext).file_name()` gives it.
pub fn renamed(p: &str, ext: &str) -> (r: Option<String>)
    requires
        ext@.len() > 0,
    ensures
        opt_view(r) == renamed_file_name(p@, ext@),
{
    match file_name(p) {
        Some(n) => {
            let stem = name_stem_of(n.as_str());
            proof {
                reveal_strlit(".");
                assert("."@ =~= seq!['.']);
            }
            Some(text_concat3(stem.as_str(), ".", ext))
        },
        None => None,
    }
}

/// `s` holds no occurrence of `c`.
pub open spec fn lacks(s: Seq<char>, c: char) -> bool {
    forall|i: int| 0 <= i < s.len() ==> #[trigger] s[i] != c
}

/// `name` can stand as one path component: it is not empty, holds no `/`,
/// and is neither `.` nor `..`.
pub open spec fn is_plain_component(name: Seq<char>) -> bool {
    &&& name.len() > 0
    &&& lacks(name, '/')
    &&& name != seq!['.']
    &&& name != seq!['.', '.']
}

/// The last occurrence of `c` in `a + b`, when `b` holds none, is the last
/// one in `a`.
pub proof fn lemma_last_index_concat(a: Seq<char>, b: Seq<char>, c: char)
    requires
        lacks(b, c),
    ensures
        last_index_of(a + b, c) == last_index_of(a, c),
    decreases b.len(),
{
    if b.len() == 0 {
        assert(a + b =~= a);
    } else {
        assert((a + b).drop_last() =~= a + b.drop_last());
        assert((a + b).last() == b.last());
        lemma_last_index_concat(a, b.drop_last(), c);
    }
}

/// Joining a plain component to a directory yields a path whose final
/// component is that component.
pub proof fn lemma_join_file_name(base: Seq<char>, name: Seq<char>)
    requires
        is_plain_component(name),
    ensures
        file_name_of(joined(base, name)) == Some(name),
{
    let prefix = if base.len() > 0 && base.last() != '/' { base + seq!['/'] } else { base };
    assert(joined(base, name) =~= prefix + name);
    let p = prefix + name;
    assert(p.last() == name.last());
    lemma_last_index_concat(prefix, name, '/');
    if prefix.len() > 0 {
        assert(prefix.last() == '/');
        assert(last_index_of(prefix, '/') == prefix.len() - 1);
    }
    assert(p.subrange(last_index_of(p, '/') + 1, p.len() as int) =~= name);
}

/// The extension of a path is text after its final `.` within one
/// component: it holds neither `.` nor `/`.
pub proof fn lemma_extension_plain(p: Seq<char>)
    ensures
        path_extension(p) matches Some(e) ==> lacks(e, '.') && lacks(e, '/'),
    decreases p.len(),
{
    if p.len() > 0 {
        if p.last() == '/' {
            lemma_extension_plain(p.drop_last());
        } else {
            let i = last_index_of(p, '/');
            lemma_last_index_of(p, '/');
            let comp = p.subrange(i + 1, p.len() as int);
            if comp == seq!['.'] {
                if i >= 0 {
                    lemma_extension_plain(p.subrange(0, i));
                }
            } else if comp != seq!['.', '.'] {
                assert(lacks(comp, '/'));
                let j = last_index_of(comp, '.');
                lemma_last_index_of(comp, '.');
                if j > 0 {
                    let e = comp.subrange(j + 1, comp.len() as int);
                    assert(lacks(e, '.')) by {
                        assert forall|k: int| 0 <= k < e.len() implies #[trigger] e[k] != '.' by {
                            assert(e[k] == comp[j + 1 + k]);
                        }
                    }
                    assert(lacks(e, '/')) by {
                        assert forall|k: int| 0 <= k < e.len() implies #[trigger] e[k] != '/' by {
                            assert(e[k] == comp[j + 1 + k]);
                        }
                    }
                }
            }
        }
    }
}

} // verus!
