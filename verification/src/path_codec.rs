//! Paths as plain strings: splitting a path into its components, joining
//! components back into a path, and reading the final name and the extension
//! off a path.
//!
//! A path is a string whose components are separated by `/`; a leading `/`
//! marks the root and is reported as a component of its own, mirroring how
//! the platform's path type lists components. Runs of separators carry no
//! empty components, and a trailing separator adds none.

use vstd::prelude::*;
use vstd::string::*;

verus! {

/// The component names of `p`: the maximal runs of non-separator characters,
/// in order. The root marker is not among them.
pub open spec fn spec_names(p: Seq<char>) -> Seq<Seq<char>>
    decreases p.len(),
{
    if p.len() == 0 {
        Seq::empty()
    } else {
        let rest = spec_names(p.drop_last());
        let c = p.last();
        if c == '/' {
            rest
        } else if p.len() == 1 || p[p.len() - 2] == '/' || rest.len() == 0 {
            rest.push(seq![c])
        } else {
            rest.update(rest.len() - 1, rest.last().push(c))
        }
    }
}

/// The component list of `p`: a `"/"` component first when `p` is absolute,
/// then the names.
pub open spec fn spec_split_path(p: Seq<char>) -> Seq<Seq<char>> {
    if p.len() > 0 && p[0] == '/' {
        seq![seq!['/']] + spec_names(p)
    } else {
        spec_names(p)
    }
}

/// Appending one component to a path buffer: a separator is inserted when the
/// buffer is non-empty and does not already end in one.
pub open spec fn spec_push_component(buf: Seq<char>, name: Seq<char>) -> Seq<char> {
    if buf.len() == 0 {
        name
    } else if buf.last() == '/' {
        buf + name
    } else {
        buf + seq!['/'] + name
    }
}

/// The path built by pushing each component in turn onto an empty buffer.
pub open spec fn spec_join(cs: Seq<Seq<char>>) -> Seq<char>
    decreases cs.len(),
{
    if cs.len() == 0 {
        Seq::empty()
    } else {
        spec_push_component(spec_join(cs.drop_last()), cs.last())
    }
}

/// The views of a sequence of strings.
pub open spec fn string_views(v: Seq<String>) -> Seq<Seq<char>> {
    v.map_values(|s: String| s@)
}

/// The names of `path`, in order, as owned strings.
fn split_names(path: &str) -> (r: Vec<String>)
    ensures
        string_views(r@) == spec_names(path@),
{
    let n = path.unicode_len();
    let mut comps: Vec<String> = Vec::new();
    let mut start: usize = 0;
    let mut i: usize = 0;
    while i < n
        invariant
            start <= i <= n,
            n == path@.len(),
            forall|k: int| start <= k < i ==> path@[k] != '/',
            start > 0 ==> path@[start - 1] == '/',
            start == i ==> string_views(comps@) == spec_names(path@.take(i as int)),
            start < i ==> string_views(comps@).push(
                path@.subrange(start as int, i as int),
            ) == spec_names(path@.take(i as int)),
        decreases n - i,
    {
        let ghost pre = path@.take(i as int);
        let ghost cur = path@.take(i + 1 as int);
        proof {
            assert(cur.drop_last() =~= pre);
            assert(cur.last() == path@[i as int]);
        }
        let c = path.get_char(i);
        if c == '/' {
            if start < i {
                let name = path.substring_char(start, i).to_owned();
                proof {
                    assert(string_views(comps@.push(name)) =~= string_views(comps@).push(
                        name@,
                    ));
                }
                comps.push(name);
            }
            start = i + 1;
        } else {
            proof {
                if start < i {
                    assert(path@.subrange(start as int, i as int).push(path@[i as int])
                        =~= path@.subrange(start as int, i + 1 as int));
                    assert(spec_names(cur) == spec_names(pre).update(
                        spec_names(pre).len() - 1,
                        spec_names(pre).last().push(cur.last()),
                    ));
                    assert(string_views(comps@).push(
                        path@.subrange(start as int, i + 1 as int),
                    ) =~= spec_names(cur));
                } else {
                    assert(path@.subrange(start as int, i + 1 as int) =~= seq![
                        path@[i as int],
                    ]);
                    assert(string_views(comps@).push(seq![path@[i as int]]) =~= spec_names(
                        cur,
                    ));
                }
            }
        }
        i = i + 1;
    }
    if start < n {
        let name = path.substring_char(start, n).to_owned();
        proof {
            assert(string_views(comps@.push(name)) =~= string_views(comps@).push(name@));
            assert(path@.take(n as int) =~= path@);
        }
        comps.push(name);
    } else {
        proof {
            assert(path@.take(n as int) =~= path@);
        }
    }
    comps
}

/// Splits a path string into its ordered component list; a `"/"` component
/// stands first when the path is absolute.
pub fn convert_path_to_pathvec(path: &str) -> (r: Vec<String>)
    ensures
        string_views(r@) == spec_split_path(path@),
{
    let n = path.unicode_len();
    let mut comps: Vec<String> = Vec::new();
    if n > 0 && path.get_char(0) == '/' {
        let root = String::from_str("/");
        proof {
            reveal_strlit("/");
            assert(root@ =~= seq!['/']);
        }
        comps.push(root);
    }
    let mut names = split_names(path);
    proof {
        assert(string_views(comps@ + names@) =~= string_views(comps@) + string_views(
            names@,
        ));
        if comps@.len() == 1 {
            assert(string_views(comps@) =~= seq![seq!['/']]);
        } else {
            assert(string_views(comps@) =~= Seq::<Seq<char>>::empty());
            assert(Seq::<Seq<char>>::empty() + spec_names(path@) =~= spec_names(path@));
        }
    }
    comps.append(&mut names);
    comps
}

/// Joining a component list back into a path string.
pub trait VecStringMethods: View<V = Seq<String>> {
    /// Renders the component list as one path string, inserting separators as
    /// the platform's path type would when pushing each component in turn.
    fn to_pathbuf(&self) -> (r: String)
        ensures
            r@ == spec_join(string_views(self@)),
    ;
}

impl VecStringMethods for Vec<String> {
    fn to_pathbuf(&self) -> (r: String)
        ensures
            r@ == spec_join(string_views(self@)),
    {
        let ghost all = string_views(self@);
        let mut buf = String::new();
        let mut j: usize = 0;
        while j < self.len()
            invariant
                j <= self@.len(),
                all == string_views(self@),
                buf@ == spec_join(all.take(j as int)),
            decreases self@.len() - j,
        {
            proof {
                assert(all.take(j + 1 as int).drop_last() =~= all.take(j as int));
                assert(all.take(j + 1 as int).last() == self@[j as int]@);
                reveal_strlit("/");
            }
            let name: &String = &self[j];
            let blen = buf.as_str().unicode_len();
            if blen == 0 {
                buf.append(name.as_str());
            } else if buf.as_str().get_char(blen - 1) == '/' {
                buf.append(name.as_str());
            } else {
                buf.append("/");
                buf.append(name.as_str());
                proof {
                    assert(buf@ =~= spec_push_component(spec_join(all.take(j as int)), name@));
                }
            }
            j = j + 1;
        }
        proof {
            assert(all.take(self@.len() as int) =~= all);
        }
        buf
    }
}

/// Joins a component list back into one path string.
pub fn convert_pathvec_to_path(pathvec: Vec<String>) -> (r: String)
    ensures
        r@ == spec_join(string_views(pathvec@)),
{
    pathvec.to_pathbuf()
}

/// A path whose components are plain names: no empty components (no adjacent
/// separators) and no trailing separator, except for the root path itself.
pub open spec fn plain_path(p: Seq<char>) -> bool {
    &&& forall|i: int| 0 < i < p.len() ==> !((#[trigger] p[i]) == '/' && p[i - 1] == '/')
    &&& p.len() > 1 ==> p.last() != '/'
}

proof fn lemma_join_push(cs: Seq<Seq<char>>, n: Seq<char>)
    ensures
        spec_join(cs.push(n)) == spec_push_component(spec_join(cs), n),
{
    assert(cs.push(n).drop_last() =~= cs);
}

proof fn lemma_join_update_last(cs: Seq<Seq<char>>, c: char)
    requires
        cs.len() >= 1,
    ensures
        spec_join(cs.update(cs.len() - 1, cs.last().push(c))) == spec_join(cs).push(c),
{
    let y = cs.update(cs.len() - 1, cs.last().push(c));
    assert(y.drop_last() =~= cs.drop_last());
    assert(y.last() == cs.last().push(c));
    let b = spec_join(cs.drop_last());
    let n = cs.last();
    if b.len() == 0 {
        assert(spec_push_component(b, n.push(c)) =~= spec_push_component(b, n).push(c));
    } else if b.last() == '/' {
        assert(spec_push_component(b, n.push(c)) =~= spec_push_component(b, n).push(c));
    } else {
        assert(spec_push_component(b, n.push(c)) =~= spec_push_component(b, n).push(c));
    }
}

/// How splitting then joining treats a path without empty components: a
/// trailing separator (except on the root path) is dropped, and everything
/// else is restored verbatim.
proof fn lemma_split_then_join(p: Seq<char>)
    requires
        forall|i: int| 0 < i < p.len() ==> !((#[trigger] p[i]) == '/' && p[i - 1] == '/'),
    ensures
        spec_join(spec_split_path(p)) == if p.len() > 1 && p.last() == '/' {
            p.drop_last()
        } else {
            p
        },
    decreases p.len(),
{
    if p.len() == 0 {
        return ;
    }
    let q = p.drop_last();
    let c = p.last();
    lemma_split_then_join(q);
    if c == '/' {
        if q.len() == 0 {
            // p is the root path
            assert(spec_names(p) =~= Seq::<Seq<char>>::empty());
            assert(spec_split_path(p) =~= seq![seq!['/']]);
            assert(seq![seq!['/']].drop_last() =~= Seq::<Seq<char>>::empty());
            assert(spec_join(spec_split_path(p)) =~= p);
        } else {
            // no adjacent separators, so q cannot end in one
            assert(q.last() == p[p.len() - 2]);
            assert(q.last() != '/');
            assert(spec_names(p) == spec_names(q));
            assert(q[0] == p[0]);
            assert(spec_split_path(p) =~= spec_split_path(q));
            assert(spec_join(spec_split_path(p)) == q);
        }
    } else {
        if q.len() == 0 {
            // a single ordinary character
            assert(spec_names(p) =~= seq![seq![c]]);
            assert(spec_split_path(p) =~= seq![seq![c]]);
            assert(seq![seq![c]].drop_last() =~= Seq::<Seq<char>>::empty());
            assert(spec_join(spec_split_path(p)) =~= seq![c]);
            assert(p =~= seq![c]);
        } else if q.last() == '/' {
            // the char opens a fresh name after a separator
            assert(spec_names(p) == spec_names(q).push(seq![c]));
            assert(q[0] == p[0]);
            assert(spec_split_path(p) =~= spec_split_path(q).push(seq![c]));
            lemma_join_push(spec_split_path(q), seq![c]);
            if q.len() == 1 {
                // q is the root path
                assert(spec_join(spec_split_path(q)) == q);
                assert(spec_push_component(q, seq![c]) =~= p);
            } else {
                let r = q.drop_last();
                assert(spec_join(spec_split_path(q)) == r);
                assert(r.last() == q[q.len() - 2]);
                assert(r.last() != '/');
                assert(r.len() >= 1);
                assert(spec_push_component(r, seq![c]) =~= r + seq!['/'] + seq![c]);
                assert(r + seq!['/'] + seq![c] =~= p);
            }
        } else {
            // the char extends the final name
            lemma_names_nonempty(q);
            let ns = spec_names(q);
            assert(spec_names(p) == ns.update(ns.len() - 1, ns.last().push(c)));
            assert(spec_join(spec_split_path(q)) == q);
            if p[0] == '/' {
                let s = spec_split_path(q);
                assert(s.len() == ns.len() + 1);
                assert(s.last() == ns.last());
                assert(spec_split_path(p) =~= s.update(s.len() - 1, s.last().push(c)));
                lemma_join_update_last(s, c);
                assert(q.push(c) =~= p);
            } else {
                assert(spec_split_path(p) =~= ns.update(ns.len() - 1, ns.last().push(c)));
                lemma_join_update_last(ns, c);
                assert(q.push(c) =~= p);
            }
        }
    }
}

proof fn lemma_names_nonempty(p: Seq<char>)
    requires
        p.len() > 0,
        p.last() != '/',
    ensures
        spec_names(p).len() >= 1,
{
}

/// Round-trip law: splitting a path made of plain components into its
/// component list and joining that list back yields the original path.
pub proof fn lemma_path_roundtrip(p: Seq<char>)
    requires
        plain_path(p),
    ensures
        spec_join(spec_split_path(p)) == p,
{
    lemma_split_then_join(p);
}

/// The final name of the path: its last component, unless the path has no
/// components (the root or the empty path) or ends in the parent marker
/// `".."`.
pub open spec fn spec_get_name(p: Seq<char>) -> Option<Seq<char>> {
    let ns = spec_names(p);
    if ns.len() == 0 {
        None
    } else if ns.last() == seq!['.', '.'] {
        None
    } else {
        Some(ns.last())
    }
}

/// The final name of the path, if it has one.
pub fn get_name(path: &str) -> (r: Option<String>)
    ensures
        match r {
            Some(s) => spec_get_name(path@) == Some(s@),
            None => spec_get_name(path@) is None,
        },
{
    let mut names = split_names(path);
    if names.len() == 0 {
        return None;
    }
    let last = names.pop().unwrap();
    proof {
        assert(last@ == string_views(names@ + seq![last]).last());
    }
    let dotdot = String::from_str("..");
    proof {
        reveal_strlit("..");
        assert(dotdot@ =~= seq!['.', '.']);
    }
    if last == dotdot {
        None
    } else {
        Some(last)
    }
}

/// The extension of a name: the characters after its last `'.'`, provided
/// that `'.'` is not the name's first character; `None` otherwise.
pub open spec fn spec_ext_of_name(n: Seq<char>) -> Option<Seq<char>>
    decreases n.len(),
{
    if n.len() <= 1 {
        None
    } else if n.last() == '.' {
        Some(Seq::empty())
    } else {
        match spec_ext_of_name(n.drop_last()) {
            None => None,
            Some(e) => Some(e.push(n.last())),
        }
    }
}

/// The extension of the path's final name.
pub open spec fn spec_extension(p: Seq<char>) -> Option<Seq<char>> {
    match spec_get_name(p) {
        None => None,
        Some(n) => spec_ext_of_name(n),
    }
}

proof fn lemma_ext_at(nm: Seq<char>, j: int)
    requires
        1 <= j < nm.len(),
        nm[j] == '.',
        forall|k: int| j < k < nm.len() ==> nm[k] != '.',
    ensures
        spec_ext_of_name(nm) == Some(nm.subrange(j + 1, nm.len() as int)),
    decreases nm.len(),
{
    if j == nm.len() - 1 {
        assert(nm.subrange(j + 1, nm.len() as int) =~= Seq::<char>::empty());
    } else {
        lemma_ext_at(nm.drop_last(), j);
        assert(nm.drop_last().subrange(j + 1, nm.len() - 1).push(nm.last()) =~= nm.subrange(
            j + 1,
            nm.len() as int,
        ));
    }
}

proof fn lemma_ext_missing(nm: Seq<char>)
    requires
        forall|k: int| 1 <= k < nm.len() ==> nm[k] != '.',
    ensures
        spec_ext_of_name(nm) is None,
    decreases nm.len(),
{
    if nm.len() > 1 {
        lemma_ext_missing(nm.drop_last());
    }
}

/// The extension of the path's final name, if both exist.
pub fn get_extension(path: &str) -> (r: Option<String>)
    ensures
        match r {
            Some(s) => spec_extension(path@) == Some(s@),
            None => spec_extension(path@) is None,
        },
{
    let name = match get_name(path) {
        Some(n) => n,
        None => {
            return None;
        },
    };
    let s = name.as_str();
    let n = s.unicode_len();
    let mut i = n;
    while i > 0
        invariant
            i <= n,
            n == name@.len(),
            s@ == name@,
            spec_get_name(path@) == Some(name@),
            forall|k: int| i <= k < n ==> name@[k] != '.',
        decreases i,
    {
        if s.get_char(i - 1) == '.' {
            if i - 1 == 0 {
                proof {
                    lemma_ext_missing(name@);
                }
                return None;
            }
            let e = s.substring_char(i, n).to_owned();
            proof {
                lemma_ext_at(name@, i - 1);
            }
            return Some(e);
        }
        i = i - 1;
    }
    proof {
        lemma_ext_missing(name@);
    }
    None
}

} // verus!
