//! Filesystem paths, held as their bytes, read component by component the way
//! the platform's path library reads a Unix path.

use vstd::prelude::*;

verus! {

/// The byte of the path separator `/`.
pub const SLASH: u8 = 47;

/// The byte of `.`.
pub const DOT: u8 = 46;

/// One component of a Unix path.
pub enum Component {
    /// The leading `/` of an absolute path.
    RootDir,
    /// A leading `.` of a relative path.
    CurDir,
    /// A `..`.
    ParentDir,
    /// Any other non-empty segment other than `.`.
    Normal(Seq<u8>),
}

/// The number of bytes before the first separator (or the whole length when there is none).
pub open spec fn segment_len(b: Seq<u8>) -> nat
    decreases b.len(),
{
    if b.len() == 0 || b[0] == SLASH {
        0
    } else {
        1 + segment_len(b.drop_first())
    }
}

/// What a single separator-free segment contributes: nothing for an empty
/// segment or `.`, `ParentDir` for `..`, a normal component otherwise.
pub open spec fn classify(seg: Seq<u8>) -> Seq<Component> {
    if seg.len() == 0 || seg == seq![DOT] {
        seq![]
    } else if seg == seq![DOT, DOT] {
        seq![Component::ParentDir]
    } else {
        seq![Component::Normal(seg)]
    }
}

/// The components contributed by the `/`-separated segments of `b`.
pub open spec fn segment_parts(b: Seq<u8>) -> Seq<Component>
    decreases b.len(),
{
    let n = segment_len(b) as int;
    if n < b.len() {
        classify(b.take(n)) + segment_parts(b.skip(n + 1))
    } else {
        classify(b)
    }
}

/// The leading component: `RootDir` for an absolute path, `CurDir` for a path
/// that is `.` or starts with `./`, nothing otherwise.
pub open spec fn leading_parts(b: Seq<u8>) -> Seq<Component> {
    if b.len() > 0 && b[0] == SLASH {
        seq![Component::RootDir]
    } else if b.len() > 0 && b[0] == DOT && (b.len() == 1 || b[1] == SLASH) {
        seq![Component::CurDir]
    } else {
        seq![]
    }
}

/// The components of the path whose bytes are `b`.
pub open spec fn path_components(b: Seq<u8>) -> Seq<Component> {
    leading_parts(b) + segment_parts(b)
}

/// Whether some component of the path is `..`.
pub open spec fn has_parent_dir(b: Seq<u8>) -> bool {
    path_components(b).contains(Component::ParentDir)
}

/// Whether the components of `base` are the first components of `p`
/// (so `/a/bc` does not start with `/a/b`, but `/a//b/` starts with `/a/b`).
pub open spec fn path_starts_with(p: Seq<u8>, base: Seq<u8>) -> bool {
    let pc = path_components(p);
    let bc = path_components(base);
    bc.len() <= pc.len() && pc.take(bc.len() as int) == bc
}

/// A component, located in the bytes of its path.
pub enum PartSpan {
    RootDir,
    CurDir,
    ParentDir,
    /// The bytes `start..end` of the path.
    Normal { start: usize, end: usize },
}

/// The component that a located component stands for in the path `b`.
pub open spec fn span_component(p: PartSpan, b: Seq<u8>) -> Component {
    match p {
        PartSpan::RootDir => Component::RootDir,
        PartSpan::CurDir => Component::CurDir,
        PartSpan::ParentDir => Component::ParentDir,
        PartSpan::Normal { start, end } => Component::Normal(b.subrange(start as int, end as int)),
    }
}

/// Whether a located component lies inside a path of `len` bytes.
pub open spec fn span_in_bounds(p: PartSpan, len: nat) -> bool {
    match p {
        PartSpan::Normal { start, end } => start <= end <= len,
        _ => true,
    }
}

/// The components that a list of located components stands for in the path `b`.
pub open spec fn spans_components(v: Seq<PartSpan>, b: Seq<u8>) -> Seq<Component> {
    v.map_values(|p: PartSpan| span_component(p, b))
}

proof fn lemma_segment_len(b: Seq<u8>, j: int)
    requires
        0 <= j <= b.len(),
        forall|k: int| 0 <= k < j ==> b[k] != SLASH,
        j == b.len() || b[j] == SLASH,
    ensures
        segment_len(b) == j,
    decreases j,
{
    if j > 0 {
        let t = b.drop_first();
        assert forall|k: int| 0 <= k < j - 1 implies t[k] != SLASH by {
            assert(t[k] == b[k + 1]);
        }
        if j < b.len() {
            assert(t[j - 1] == b[j]);
        }
        lemma_segment_len(t, j - 1);
    }
}

/// Locates the components of the path whose bytes are `b`.
pub fn locate_components(b: &[u8]) -> (v: Vec<PartSpan>)
    ensures
        spans_components(v@, b@) == path_components(b@),
        forall|i: int| 0 <= i < v@.len() ==> span_in_bounds(#[trigger] v@[i], b@.len()),
{
    let len = b.len();
    let mut v: Vec<PartSpan> = Vec::new();
    if len > 0 && b[0] == SLASH {
        v.push(PartSpan::RootDir);
    } else if len > 0 && b[0] == DOT && (len == 1 || b[1] == SLASH) {
        v.push(PartSpan::CurDir);
    }
    assert(spans_components(v@, b@) =~= leading_parts(b@));
    assert(b@.skip(0) =~= b@);
    let mut pos: usize = 0;
    loop
        invariant
            len == b@.len(),
            pos <= len,
            path_components(b@) == spans_components(v@, b@) + segment_parts(b@.skip(pos as int)),
            forall|i: int| 0 <= i < v@.len() ==> span_in_bounds(#[trigger] v@[i], b@.len()),
        decreases len - pos,
    {
        let mut j: usize = pos;
        while j < len && b[j] != SLASH
            invariant
                len == b@.len(),
                pos <= j <= len,
                forall|k: int| pos <= k < j ==> b@[k] != SLASH,
            decreases len - j,
        {
            j = j + 1;
        }
        let ghost rest = b@.skip(pos as int);
        let ghost seg = b@.subrange(pos as int, j as int);
        proof {
            assert forall|k: int| 0 <= k < j - pos implies rest[k] != SLASH by {
                assert(rest[k] == b@[pos + k]);
            }
            if j < len {
                assert(rest[j - pos] == b@[j as int]);
            }
            lemma_segment_len(rest, j - pos);
            assert(rest.take(j - pos) =~= seg);
        }
        let ghost before = spans_components(v@, b@);
        let n = j - pos;
        if n == 0 || (n == 1 && b[pos] == DOT) {
            proof {
                assert(seg.len() == 0 || seg =~= seq![DOT]);
            }
        } else if n == 2 && b[pos] == DOT && b[pos + 1] == DOT {
            assert(seg =~= seq![DOT, DOT]);
            v.push(PartSpan::ParentDir);
            assert(spans_components(v@, b@) =~= before + classify(seg));
        } else {
            proof {
                if seg == seq![DOT] {
                    assert(seg[0] == DOT);
                }
                if seg == seq![DOT, DOT] {
                    assert(seg[0] == DOT && seg[1] == DOT);
                }
            }
            v.push(PartSpan::Normal { start: pos, end: j });
            assert(spans_components(v@, b@) =~= before + classify(seg));
        }
        assert(spans_components(v@, b@) == before + classify(seg));
        if j == len {
            assert(rest =~= seg);
            assert(path_components(b@) == spans_components(v@, b@)) by {
                assert(before + classify(seg) == spans_components(v@, b@));
            }
            return v;
        }
        assert(rest.skip(j - pos + 1) =~= b@.skip(j + 1));
        pos = j + 1;
    }
}

/// Whether the two located components stand for the same component.
fn same_component(x: &PartSpan, a: &[u8], y: &PartSpan, b: &[u8]) -> (r: bool)
    requires
        span_in_bounds(*x, a@.len()),
        span_in_bounds(*y, b@.len()),
    ensures
        r == (span_component(*x, a@) == span_component(*y, b@)),
{
    match (x, y) {
        (PartSpan::RootDir, PartSpan::RootDir) => true,
        (PartSpan::CurDir, PartSpan::CurDir) => true,
        (PartSpan::ParentDir, PartSpan::ParentDir) => true,
        (PartSpan::Normal { start: s1, end: e1 }, PartSpan::Normal { start: s2, end: e2 }) => {
            let (s1, e1, s2, e2) = (*s1, *e1, *s2, *e2);
            let ghost u = a@.subrange(s1 as int, e1 as int);
            let ghost w = b@.subrange(s2 as int, e2 as int);
            assert(span_component(*x, a@) == Component::Normal(u));
            assert(span_component(*y, b@) == Component::Normal(w));
            if e1 - s1 != e2 - s2 {
                assert(u.len() != w.len());
                return false;
            }
            let n = e1 - s1;
            let mut i: usize = 0;
            while i < n
                invariant
                    n == e1 - s1 == e2 - s2,
                    s1 <= e1 <= a@.len(),
                    s2 <= e2 <= b@.len(),
                    u == a@.subrange(s1 as int, e1 as int),
                    w == b@.subrange(s2 as int, e2 as int),
                    span_component(*x, a@) == Component::Normal(u),
                    span_component(*y, b@) == Component::Normal(w),
                    i <= n,
                    forall|k: int| 0 <= k < i ==> u[k] == w[k],
                decreases n - i,
            {
                assert(u[i as int] == a@[s1 + i]);
                assert(w[i as int] == b@[s2 + i]);
                if a[s1 + i] != b[s2 + i] {
                    assert(u[i as int] != w[i as int]);
                    assert(u != w);
                    return false;
                }
                i = i + 1;
            }
            assert(u =~= w);
            true
        },
        _ => false,
    }
}

/// Whether some component of the path whose bytes are `b` is `..`.
pub fn has_parent_dir_component(b: &[u8]) -> (r: bool)
    ensures
        r == has_parent_dir(b@),
{
    let v = locate_components(b);
    let ghost c = path_components(b@);
    let mut i: usize = 0;
    while i < v.len()
        invariant
            spans_components(v@, b@) == c,
            c == path_components(b@),
            i <= v@.len(),
            forall|k: int| 0 <= k < i ==> c[k] != Component::ParentDir,
        decreases v@.len() - i,
    {
        assert(c[i as int] == span_component(v@[i as int], b@));
        if let PartSpan::ParentDir = v[i] {
            assert(c.contains(Component::ParentDir)) by {
                assert(c[i as int] == Component::ParentDir);
            }
            return true;
        }
        i = i + 1;
    }
    assert(!c.contains(Component::ParentDir)) by {
        if c.contains(Component::ParentDir) {
            let k = choose|k: int| 0 <= k < c.len() && c[k] == Component::ParentDir;
            assert(c.len() == v@.len());
        }
    }
    false
}

/// Whether the path `p` starts with the path `base`, component by component.
pub fn starts_with_path(p: &[u8], base: &[u8]) -> (r: bool)
    ensures
        r == path_starts_with(p@, base@),
{
    let pv = locate_components(p);
    let bv = locate_components(base);
    let ghost pc = path_components(p@);
    let ghost bc = path_components(base@);
    if bv.len() > pv.len() {
        return false;
    }
    let mut i: usize = 0;
    while i < bv.len()
        invariant
            spans_components(pv@, p@) == pc,
            spans_components(bv@, base@) == bc,
            pc == path_components(p@),
            bc == path_components(base@),
            forall|k: int| 0 <= k < pv@.len() ==> span_in_bounds(#[trigger] pv@[k], p@.len()),
            forall|k: int| 0 <= k < bv@.len() ==> span_in_bounds(#[trigger] bv@[k], base@.len()),
            bv@.len() <= pv@.len(),
            i <= bv@.len(),
            forall|k: int| 0 <= k < i ==> pc[k] == bc[k],
        decreases bv@.len() - i,
    {
        assert(pc[i as int] == span_component(pv@[i as int], p@));
        assert(bc[i as int] == span_component(bv@[i as int], base@));
        if !same_component(&pv[i], p, &bv[i], base) {
            assert(pc.take(bc.len() as int)[i as int] != bc[i as int]);
            return false;
        }
        i = i + 1;
    }
    assert(pc.take(bc.len() as int) =~= bc);
    true
}

/// The index of the last `.` in `s`, or -1 when there is none.
pub open spec fn last_dot(s: Seq<u8>) -> int
    decreases s.len(),
{
    if s.len() == 0 {
        -1
    } else if s.last() == DOT {
        s.len() - 1
    } else {
        last_dot(s.drop_last())
    }
}

/// The last component of the path when it is a normal one.
pub open spec fn file_name(b: Seq<u8>) -> Option<Seq<u8>> {
    let c = path_components(b);
    if c.len() > 0 {
        match c.last() {
            Component::Normal(n) => Some(n),
            _ => None,
        }
    } else {
        None
    }
}

/// The extension of the path: what follows the last `.` of the file name,
/// unless there is no `.` in it, or its only `.` is its first byte.
pub open spec fn extension(b: Seq<u8>) -> Option<Seq<u8>> {
    match file_name(b) {
        Some(n) => {
            let k = last_dot(n);
            if k > 0 {
                Some(n.skip(k + 1))
            } else {
                None
            }
        },
        None => None,
    }
}

proof fn lemma_last_dot(s: Seq<u8>, k: int)
    requires
        -1 <= k < s.len(),
        k >= 0 ==> s[k] == DOT,
        forall|i: int| k < i < s.len() ==> s[i] != DOT,
    ensures
        last_dot(s) == k,
    decreases s.len(),
{
    if s.len() > 0 && k < s.len() - 1 {
        let t = s.drop_last();
        assert(s.last() == s[s.len() - 1]);
        assert forall|i: int| k < i < t.len() implies t[i] != DOT by {
            assert(t[i] == s[i]);
        }
        lemma_last_dot(t, k);
    }
}

/// The bytes `start..end` of `b` that are the extension of the path `b`, if it has one.
pub fn extension_span(b: &[u8]) -> (r: Option<(usize, usize)>)
    ensures
        match r {
            Some((s, e)) => s <= e <= b@.len() && extension(b@) == Some(b@.subrange(s as int, e as int)),
            None => extension(b@) is None,
        },
{
    let v = locate_components(b);
    let ghost c = path_components(b@);
    if v.len() == 0 {
        return None;
    }
    let last = v.len() - 1;
    assert(c.last() == span_component(v@[last as int], b@));
    match v[last] {
        PartSpan::Normal { start, end } => {
            let ghost name = b@.subrange(start as int, end as int);
            let mut k: usize = end;
            while k > start && b[k - 1] != DOT
                invariant
                    start <= k <= end <= b@.len(),
                    name == b@.subrange(start as int, end as int),
                    forall|i: int| k - start <= i < name.len() ==> name[i] != DOT,
                decreases k,
            {
                assert(name[k - 1 - start] == b@[k - 1]);
                k = k - 1;
            }
            if k == start {
                proof {
                    lemma_last_dot(name, -1);
                }
                return None;
            }
            proof {
                assert(name[k - 1 - start] == b@[k - 1]);
                lemma_last_dot(name, k - 1 - start);
            }
            if k - 1 == start {
                return None;
            }
            assert(name.skip(k - start) =~= b@.subrange(k as int, end as int));
            Some((k, end))
        },
        _ => None,
    }
}

} // verus!
