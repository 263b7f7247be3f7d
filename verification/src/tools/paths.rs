//! Paths inside a workspace: a path's parts between its `/` separators, and the
//! resolution of `.` and `..` parts.
use crate::text::{views, trim_end};
use vstd::prelude::*;
use vstd::string::StrSliceExecFns;

verus! {

/// One character of a path read into its finished parts and the part being read.
pub open spec fn split_step(acc: (Seq<Seq<char>>, Seq<char>), c: char) -> (Seq<Seq<char>>, Seq<char>) {
    if c == '/' {
        (acc.0.push(acc.1), Seq::empty())
    } else {
        (acc.0, acc.1.push(c))
    }
}

/// The first `n` characters of `s` read into finished parts and the part being read.
pub open spec fn split_prefix(s: Seq<char>, n: nat) -> (Seq<Seq<char>>, Seq<char>)
    decreases n,
{
    if n == 0 {
        (Seq::empty(), Seq::empty())
    } else {
        split_step(split_prefix(s, (n - 1) as nat), s[n - 1])
    }
}

/// The parts of a path between its `/` separators, empty ones included: `a//b/` has
/// the parts `a`, ``, `b`, ``.
pub open spec fn path_parts(s: Seq<char>) -> Seq<Seq<char>> {
    split_prefix(s, s.len()).0.push(split_prefix(s, s.len()).1)
}

/// The directories reached by walking `parts` from a starting point: empty parts and
/// `.` stay, `..` goes up one level, any other part goes down into it. Going up from
/// the starting point stays there when `clamp` holds (as at the root), and otherwise
/// leaves: the walk then has no result.
pub open spec fn climb(parts: Seq<Seq<char>>, clamp: bool) -> Option<Seq<Seq<char>>>
    decreases parts.len(),
{
    if parts.len() == 0 {
        Some(Seq::empty())
    } else {
        match climb(parts.drop_last(), clamp) {
            None => None,
            Some(st) => {
                let p = parts.last();
                if p.len() == 0 || p == "."@ {
                    Some(st)
                } else if p == ".."@ {
                    if st.len() > 0 {
                        Some(st.drop_last())
                    } else if clamp {
                        Some(st)
                    } else {
                        None
                    }
                } else {
                    Some(st.push(p))
                }
            }
        }
    }
}

/// One step of a walk that has reached the directories `st`: `..` goes up exactly one
/// level (at the start it stays when clamped and leaves otherwise), an empty part or
/// `.` stays, any other part goes down into it, and a walk that has left stays gone.
pub proof fn law_climb_step(parts: Seq<Seq<char>>, clamp: bool, p: Seq<char>)
    ensures
        climb(parts, clamp) is Some && climb(parts, clamp)->0.len() > 0 ==> climb(parts.push(".."@), clamp)
            == Some(climb(parts, clamp)->0.drop_last()),
        climb(parts, clamp) is Some && climb(parts, clamp)->0.len() == 0 ==> climb(parts.push(".."@), clamp) == (if clamp {
            Some(Seq::<Seq<char>>::empty())
        } else {
            None
        }),
        climb(parts, clamp) is Some && p.len() > 0 && p != "."@ && p != ".."@ ==> climb(parts.push(p), clamp)
            == Some(climb(parts, clamp)->0.push(p)),
        (p.len() == 0 || p == "."@) ==> climb(parts.push(p), clamp) == climb(parts, clamp),
        climb(parts, clamp) is None ==> climb(parts.push(p), clamp) is None,
{
    assert(parts.push(p).drop_last() =~= parts);
    assert(parts.push(".."@).drop_last() =~= parts);
    reveal_strlit(".");
    reveal_strlit("..");
}

/// A walk never goes deeper than the number of parts it is given: each part adds at
/// most one directory.
pub proof fn law_climb_depth(parts: Seq<Seq<char>>, clamp: bool)
    ensures
        climb(parts, clamp) is Some ==> climb(parts, clamp)->0.len() <= parts.len(),
    decreases parts.len(),
{
    if parts.len() > 0 {
        law_climb_depth(parts.drop_last(), clamp);
    }
}

/// Whether a path starts at the root.
pub open spec fn is_absolute(path: Seq<char>) -> bool {
    path.len() > 0 && path[0] == '/'
}

/// The parts below `workspace` that `path` names, or `None` when it leaves the
/// workspace. A relative path is walked from the workspace and must never go above
/// it; an absolute path is walked from the root and must lie under the workspace
/// walked from the root the same way.
pub open spec fn parts_within(workspace: Seq<char>, path: Seq<char>) -> Option<Seq<Seq<char>>> {
    if is_absolute(path) {
        match (climb(path_parts(path), true), climb(path_parts(workspace), true)) {
            (Some(pc), Some(wc)) => if wc.len() <= pc.len() && pc.take(wc.len() as int) == wc {
                Some(pc.skip(wc.len() as int))
            } else {
                None
            },
            _ => None,
        }
    } else {
        climb(path_parts(path), false)
    }
}

/// Splits a path into its parts between `/` separators.
pub fn split_path(s: &str) -> (r: Vec<String>)
    ensures
        views(r@) == path_parts(s@),
{
    let n = s.unicode_len();
    let mut done: Vec<String> = Vec::new();
    let mut start: usize = 0;
    let mut i: usize = 0;
    while i < n
        invariant
            n == s@.len(),
            start <= i <= n,
            views(done@) == split_prefix(s@, i as nat).0,
            s@.subrange(start as int, i as int) == split_prefix(s@, i as nat).1,
        decreases n - i,
    {
        let c = s.get_char(i);
        if c == '/' {
            let part = s.substring_char(start, i).to_owned();
            done.push(part);
            start = i + 1;
            assert(views(done@) =~= split_prefix(s@, (i + 1) as nat).0);
            assert(s@.subrange(start as int, (i + 1) as int) =~= Seq::<char>::empty());
        } else {
            assert(s@.subrange(start as int, (i + 1) as int) =~= s@.subrange(start as int, i as int).push(c));
        }
        i = i + 1;
    }
    let last = s.substring_char(start, n).to_owned();
    done.push(last);
    assert(views(done@) =~= path_parts(s@));
    done
}

/// Once a walk has left, it has no result, whatever follows.
proof fn lemma_climb_left(parts: Seq<Seq<char>>, n: int, clamp: bool)
    requires
        0 <= n <= parts.len(),
        climb(parts.take(n), clamp) is None,
    ensures
        climb(parts, clamp) is None,
    decreases parts.len() - n,
{
    if n < parts.len() {
        assert(parts.take(n + 1).drop_last() =~= parts.take(n));
        lemma_climb_left(parts, n + 1, clamp);
    } else {
        assert(parts.take(n) =~= parts);
    }
}

/// Walks `parts` as `climb` does.
pub fn climb_parts(parts: &Vec<String>, clamp: bool) -> (r: Option<Vec<String>>)
    ensures
        match r {
            Some(st) => climb(views(parts@), clamp) == Some(views(st@)),
            None => climb(views(parts@), clamp) is None,
        },
{
    let ghost ps = views(parts@);
    let mut st: Vec<String> = Vec::new();
    let mut i: usize = 0;
    assert(ps.take(0) =~= Seq::<Seq<char>>::empty());
    while i < parts.len()
        invariant
            i <= parts.len(),
            ps == views(parts@),
            climb(ps.take(i as int), clamp) == Some(views(st@)),
        decreases parts.len() - i,
    {
        assert(ps.take(i + 1).drop_last() =~= ps.take(i as int));
        assert(ps.take(i + 1).last() == parts@[i as int]@);
        let p = parts[i].as_str();
        let dot = ".".to_owned();
        let dots = "..".to_owned();
        proof {
            reveal_strlit(".");
            reveal_strlit("..");
        }
        let owned = p.to_owned();
        if p.unicode_len() == 0 || owned == dot {
        } else if owned == dots {
            if st.len() > 0 {
                st.pop();
                assert(views(st@) =~= climb(ps.take(i as int), clamp).unwrap().drop_last());
            } else if !clamp {
                proof {
                    lemma_climb_left(ps, i + 1, clamp);
                }
                return None;
            }
        } else {
            st.push(owned);
            assert(views(st@) =~= climb(ps.take(i as int), clamp).unwrap().push(parts@[i as int]@));
        }
        i = i + 1;
    }
    assert(ps.take(parts.len() as int) =~= ps);
    Some(st)
}

/// The parts below `workspace` that `path` names, as `parts_within` gives them.
pub fn resolve_within(workspace: &str, path: &str) -> (r: Option<Vec<String>>)
    ensures
        match r {
            Some(rel) => parts_within(workspace@, path@) == Some(views(rel@)),
            None => parts_within(workspace@, path@) is None,
        },
{
    let absolute = path.unicode_len() > 0 && path.get_char(0) == '/';
    let path_parts_v = split_path(path);
    if !absolute {
        return climb_parts(&path_parts_v, false);
    }
    let pc = match climb_parts(&path_parts_v, true) {
        Some(v) => v,
        None => return None,
    };
    let wc = match climb_parts(&split_path(workspace), true) {
        Some(v) => v,
        None => return None,
    };
    if wc.len() > pc.len() {
        return None;
    }
    let mut i: usize = 0;
    while i < wc.len()
        invariant
            i <= wc.len() <= pc.len(),
            is_absolute(path@),
            climb(path_parts(path@), true) == Some(views(pc@)),
            climb(path_parts(workspace@), true) == Some(views(wc@)),
            forall|k: int| 0 <= k < i ==> pc@[k]@ == wc@[k]@,
        decreases wc.len() - i,
    {
        if pc[i] != wc[i] {
            proof {
                assert(is_absolute(path@));
                assert(views(pc@).take(wc.len() as int)[i as int] != views(wc@)[i as int]);
                assert(views(pc@).take(wc.len() as int) != views(wc@));
            }
            return None;
        }
        i = i + 1;
    }
    assert(views(pc@).take(wc.len() as int) =~= views(wc@));
    assert(is_absolute(path@));
    let mut rel: Vec<String> = Vec::new();
    let mut j: usize = wc.len();
    while j < pc.len()
        invariant
            wc.len() <= j <= pc.len(),
            views(rel@) == views(pc@).subrange(wc.len() as int, j as int),
        decreases pc.len() - j,
    {
        let ghost before = rel@;
        rel.push(pc[j].clone());
        assert(rel@ == before.push(rel@.last()));
        assert(views(rel@) =~= views(before).push(pc@[j as int]@));
        assert(views(rel@) =~= views(pc@).subrange(wc.len() as int, j + 1));
        j = j + 1;
    }
    assert(views(pc@).subrange(wc.len() as int, pc.len() as int) =~= views(pc@).skip(wc.len() as int));
    Some(rel)
}

} // verus!
