//! Relative paths inside a sandbox: splitting into components, detecting a
//! path that climbs above the sandbox root, and joining onto the root.
use vstd::prelude::*;
use vstd::string::*;

verus! {

/// The separator between path components.
pub open spec fn is_sep(c: char) -> bool {
    c == '/'
}

/// The components of `p`, split at every separator: `"a//b"` has the three
/// components `"a"`, `""` and `"b"`, and the empty path has one empty component.
pub open spec fn components(p: Seq<char>) -> Seq<Seq<char>>
    decreases p.len(),
{
    if p.len() == 0 {
        seq![Seq::<char>::empty()]
    } else {
        let init = components(p.drop_last());
        if is_sep(p.last()) {
            init.push(Seq::<char>::empty())
        } else {
            init.update(init.len() - 1, init.last().push(p.last()))
        }
    }
}

/// How far one component moves below (`+1`) or above (`-1`) the directory
/// that it is read in: `..` climbs, `.` and an empty component stay.
pub open spec fn step(c: Seq<char>) -> int {
    if c == seq!['.', '.'] {
        -1
    } else if c.len() == 0 || c == seq!['.'] {
        0
    } else {
        1
    }
}

/// The depth below the starting directory after walking all of `cs`.
pub open spec fn depth(cs: Seq<Seq<char>>) -> int
    decreases cs.len(),
{
    if cs.len() == 0 {
        0
    } else {
        depth(cs.drop_last()) + step(cs.last())
    }
}

/// The smallest depth reached at any point of the walk over `cs`, the start included.
pub open spec fn min_depth(cs: Seq<Seq<char>>) -> int
    decreases cs.len(),
{
    if cs.len() == 0 {
        0
    } else {
        let m = min_depth(cs.drop_last());
        let d = depth(cs);
        if d < m { d } else { m }
    }
}

/// A path escapes the sandbox when it is absolute, or when some prefix of its
/// components climbs above the directory it starts from.
pub open spec fn escapes(p: Seq<char>) -> bool {
    (p.len() > 0 && is_sep(p[0])) || min_depth(components(p)) < 0
}

/// `rel` joined onto `root`: the root itself for an empty `rel`, otherwise the
/// two with one separator between them.
pub open spec fn joined(root: Seq<char>, rel: Seq<char>) -> Seq<char> {
    if rel.len() == 0 {
        root
    } else if root.len() > 0 && is_sep(root.last()) {
        root + rel
    } else {
        root + seq!['/'] + rel
    }
}

/// The working directory for a sandbox whose root reads `root`, with an
/// optional override.
pub open spec fn resolved_dir(root: Seq<char>, rel: Option<Seq<char>>) -> Seq<char> {
    match rel {
        None => root,
        Some(r) => joined(root, r),
    }
}

/// The characters of an optional path.
pub open spec fn opt_view(o: Option<&str>) -> Option<Seq<char>> {
    match o {
        None => None,
        Some(s) => Some(s@),
    }
}

/// The empty path stays at the directory it starts from.
pub proof fn lemma_empty_stays()
    ensures
        !escapes(Seq::<char>::empty()),
        forall|root: Seq<char>| #[trigger] joined(root, Seq::<char>::empty()) == root,
{
    let e = Seq::<char>::empty();
    let cs = components(e);
    assert(cs =~= seq![e]);
    assert(cs.drop_last() =~= Seq::<Seq<char>>::empty());
    assert(cs.last() == e);
    assert(step(e) == 0);
    assert(depth(cs.drop_last()) == 0);
    assert(min_depth(cs.drop_last()) == 0);
    assert(depth(cs) == 0);
    assert(min_depth(cs) == 0);
}

proof fn lemma_components_nonempty(p: Seq<char>)
    ensures
        components(p).len() >= 1,
    decreases p.len(),
{
    if p.len() > 0 {
        lemma_components_nonempty(p.drop_last());
    }
}

proof fn lemma_components_push(q: Seq<char>, c: char)
    ensures
        components(q.push(c)).len() >= components(q).len(),
        components(q.push(c)).take(components(q).len() - 1) =~= components(q).drop_last(),
{
    lemma_components_nonempty(q);
    assert(q.push(c).drop_last() =~= q);
}

proof fn lemma_components_prefix(p: Seq<char>, j: int, k: int)
    requires
        0 <= j <= k <= p.len(),
    ensures
        components(p.take(j)).len() <= components(p.take(k)).len(),
        components(p.take(k)).take(components(p.take(j)).len() - 1) =~= components(
            p.take(j),
        ).drop_last(),
    decreases k - j,
{
    lemma_components_nonempty(p.take(j));
    if j < k {
        lemma_components_prefix(p, j, k - 1);
        assert(p.take(k) =~= p.take(k - 1).push(p[k - 1]));
        lemma_components_push(p.take(k - 1), p[k - 1]);
        lemma_components_nonempty(p.take(k - 1));
    }
}

proof fn lemma_min_depth_prefix(cs: Seq<Seq<char>>, m: int)
    requires
        0 <= m <= cs.len(),
    ensures
        min_depth(cs) <= min_depth(cs.take(m)),
    decreases cs.len(),
{
    if m < cs.len() {
        lemma_min_depth_prefix(cs.drop_last(), m);
        assert(cs.drop_last().take(m) =~= cs.take(m));
    } else {
        assert(cs.take(m) =~= cs);
    }
}

/// The step of one component held as characters.
fn component_step(c: &Vec<char>) -> (s: i64)
    ensures
        s == step(c@),
{
    if c.len() == 2 && c[0] == '.' && c[1] == '.' {
        assert(c@ =~= seq!['.', '.']);
        -1
    } else if c.len() == 0 {
        0
    } else if c.len() == 1 && c[0] == '.' {
        assert(c@ =~= seq!['.']);
        0
    } else {
        assert(c@ != seq!['.', '.'] && c@ != seq!['.']) by {
            if c@ == seq!['.', '.'] {
                assert(c@[0] == '.' && c@[1] == '.');
            }
            if c@ == seq!['.'] {
                assert(c@[0] == '.');
            }
        }
        1
    }
}

/// Whether `p` is absolute or climbs above the directory it starts from.
pub fn path_escapes(p: &str) -> (r: bool)
    ensures
        r == escapes(p@),
{
    let n = p.unicode_len();
    if n > 0 && p.get_char(0) == '/' {
        return true;
    }
    let mut cur: Vec<char> = Vec::new();
    let mut d: usize = 0;
    let mut i: usize = 0;
    proof {
        assert(p@.take(0) =~= Seq::<char>::empty());
        let cs0 = components(p@.take(0));
        assert(cs0.drop_last() =~= Seq::<Seq<char>>::empty());
    }
    while i < n
        invariant
            n == p@.len(),
            i <= n,
            d <= i,
            components(p@.take(i as int)).len() >= 1,
            components(p@.take(i as int)).last() == cur@,
            depth(components(p@.take(i as int)).drop_last()) == d,
            min_depth(components(p@.take(i as int)).drop_last()) == 0,
        decreases n - i,
    {
        let c = p.get_char(i);
        let ghost before = components(p@.take(i as int));
        let ghost after = components(p@.take(i + 1));
        proof {
            assert(p@.take(i + 1) =~= p@.take(i as int).push(c));
            assert(p@.take(i + 1).drop_last() =~= p@.take(i as int));
            lemma_components_nonempty(p@.take(i as int));
        }
        if c == '/' {
            let s: i64 = component_step(&cur);
            proof {
                assert(after == before.push(Seq::<char>::empty()));
                assert(after.drop_last() =~= before);
            }
            if s < 0 && d == 0 {
                proof {
                    assert(min_depth(before) < 0);
                    lemma_components_prefix(p@, i + 1, n as int);
                    assert(p@.take(n as int) =~= p@);
                    lemma_min_depth_prefix(components(p@), after.len() - 1);
                }
                return true;
            }
            if s < 0 {
                d = d - 1;
            } else if s > 0 {
                d = d + 1;
            }
            cur = Vec::new();
            proof {
                assert(after.last() =~= cur@);
            }
        } else {
            cur.push(c);
            proof {
                assert(after.drop_last() =~= before.drop_last());
            }
        }
        i = i + 1;
    }
    proof {
        assert(p@.take(n as int) =~= p@);
    }
    let s: i64 = component_step(&cur);
    s < 0 && d == 0
}

/// `rel` joined onto `root`.
pub fn join_onto(root: &str, rel: &str) -> (r: String)
    ensures
        r@ == joined(root@, rel@),
{
    let mut r = root.to_owned();
    let rel_len = rel.unicode_len();
    if rel_len == 0 {
        return r;
    }
    let root_len = root.unicode_len();
    if root_len == 0 || root.get_char(root_len - 1) != '/' {
        r.append("/");
        proof {
            reveal_strlit("/");
        }
    }
    r.append(rel);
    r
}

/// The working directory inside a sandbox whose root reads `root`: the root
/// itself without an override, the override joined onto it otherwise, and
/// `None` where the override would leave the sandbox.
pub fn resolve_working_dir(root: &str, rel: Option<&str>) -> (r: Option<String>)
    ensures
        r is None <==> (rel is Some && escapes(rel->0@)),
        r is Some ==> r->0@ == resolved_dir(root@, opt_view(rel)),
{
    match rel {
        None => Some(root.to_owned()),
        Some(d) => {
            if path_escapes(d) {
                None
            } else {
                Some(join_onto(root, d))
            }
        },
    }
}

} // verus!
