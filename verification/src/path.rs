//! Virtual path mapping: a table of (virtual prefix, real prefix) pairs and
//! the prefix arithmetic behind it.
//!
//! A path is held as its list of components, root included (so `/a/b` is
//! `["/", "a", "b"]` and `samples:` is `["samples:"]`); the I/O layer splits
//! and joins real paths at the boundary. All prefix tests compare whole
//! components, never characters of a longer component.

use vstd::prelude::*;

verus! {

/// `p` is a component-wise prefix of `q`.
pub open spec fn spec_is_prefix(p: Seq<Seq<char>>, q: Seq<Seq<char>>) -> bool {
    p.len() <= q.len() && forall|i: int| 0 <= i < p.len() ==> p[i] == q[i]
}

/// `path` with `prefix` components dropped and `new_prefix` put in front.
pub open spec fn spec_remap(
    path: Seq<Seq<char>>,
    prefix_len: int,
    new_prefix: Seq<Seq<char>>,
) -> Seq<Seq<char>> {
    new_prefix + path.skip(prefix_len)
}

/// The component that roots an absolute path.
pub open spec fn spec_root() -> Seq<char> {
    "/"@
}

/// The result of resolving `.` and `..` in `components`, left to right:
/// `.` disappears, `..` removes the preceding component, and `None` means
/// `..` tried to climb past the start (or past the root) of the path.
pub open spec fn spec_normalize(components: Seq<Seq<char>>) -> Option<Seq<Seq<char>>>
    decreases components.len(),
{
    if components.len() == 0 {
        Some(Seq::empty())
    } else {
        match spec_normalize(components.drop_last()) {
            None => None,
            Some(stack) => {
                let c = components.last();
                if c == ".."@ {
                    if stack.len() == 0 || (stack.len() == 1 && stack[0] == spec_root()) {
                        None
                    } else {
                        Some(stack.drop_last())
                    }
                } else if c == "."@ {
                    Some(stack)
                } else {
                    Some(stack.push(c))
                }
            },
        }
    }
}

/// Whether `prefix` is a component-wise prefix of `path`.
pub fn is_prefix_of(prefix: &Vec<String>, path: &Vec<String>) -> (r: bool)
    ensures
        r == spec_is_prefix(prefix.deep_view(), path.deep_view()),
{
    if prefix.len() > path.len() {
        return false;
    }
    let n = prefix.len();
    let mut k: usize = 0;
    while k < n
        invariant
            k <= n,
            n == prefix@.len() <= path@.len(),
            forall|i: int| 0 <= i < k ==> prefix.deep_view()[i] == path.deep_view()[i],
        decreases n - k,
    {
        if !(prefix[k] == path[k]) {
            proof {
                assert(prefix.deep_view()[k as int] == prefix@[k as int]@);
                assert(path.deep_view()[k as int] == path@[k as int]@);
            }
            return false;
        }
        k += 1;
    }
    true
}

/// A component-for-component copy of a path.
pub fn clone_components(v: &Vec<String>) -> (r: Vec<String>)
    ensures
        r@ == v@,
        r.deep_view() == v.deep_view(),
{
    let mut r: Vec<String> = Vec::new();
    let mut k: usize = 0;
    while k < v.len()
        invariant
            k <= v@.len(),
            r@ =~= v@.subrange(0, k as int),
        decreases v@.len() - k,
    {
        r.push(v[k].clone());
        k += 1;
    }
    proof {
        assert(r@ =~= v@);
        assert(r.deep_view() =~= v.deep_view());
    }
    r
}

/// If `path` starts with `prefix`, replace that prefix by `new_prefix`;
/// otherwise `None`.
pub fn remap_prefix(path: &Vec<String>, prefix: &Vec<String>, new_prefix: &Vec<String>) -> (r:
    Option<Vec<String>>)
    ensures
        match r {
            Some(q) => spec_is_prefix(prefix.deep_view(), path.deep_view()) && q.deep_view()
                == spec_remap(path.deep_view(), prefix.deep_view().len() as int, new_prefix.deep_view()),
            None => !spec_is_prefix(prefix.deep_view(), path.deep_view()),
        },
{
    if !is_prefix_of(prefix, path) {
        None
    } else {
        let mut new_path = clone_components(new_prefix);
        let mut k: usize = prefix.len();
        while k < path.len()
            invariant
                prefix@.len() <= k <= path@.len(),
                new_path.deep_view() =~= new_prefix.deep_view() + path.deep_view().subrange(
                    prefix@.len() as int,
                    k as int,
                ),
            decreases path@.len() - k,
        {
            let ghost before = new_path.deep_view();
            new_path.push(path[k].clone());
            proof {
                assert(new_path.deep_view() =~= before.push(path.deep_view()[k as int]));
                assert(new_path.deep_view() =~= new_prefix.deep_view()
                    + path.deep_view().subrange(prefix@.len() as int, k + 1));
            }
            k += 1;
        }
        proof {
            assert(new_path.deep_view() =~= spec_remap(
                path.deep_view(),
                prefix.deep_view().len() as int,
                new_prefix.deep_view(),
            ));
        }
        Some(new_path)
    }
}

/// Drop `prefix` from the front of `path`; a path that does not start with
/// `prefix` comes back unchanged.
pub fn remove_prefix(path: &Vec<String>, prefix: &Vec<String>) -> (r: Vec<String>)
    ensures
        if spec_is_prefix(prefix.deep_view(), path.deep_view()) {
            r.deep_view() == path.deep_view().skip(prefix.deep_view().len() as int)
        } else {
            r.deep_view() == path.deep_view()
        },
{
    if !is_prefix_of(prefix, path) {
        clone_components(path)
    } else {
        let mut new_path: Vec<String> = Vec::new();
        let mut k: usize = prefix.len();
        while k < path.len()
            invariant
                prefix@.len() <= k <= path@.len(),
                new_path.deep_view() =~= path.deep_view().subrange(prefix@.len() as int, k as int),
            decreases path@.len() - k,
        {
            let ghost before = new_path.deep_view();
            new_path.push(path[k].clone());
            proof {
                assert(new_path.deep_view() =~= before.push(path.deep_view()[k as int]));
                assert(new_path.deep_view() =~= path.deep_view().subrange(
                    prefix@.len() as int,
                    k + 1,
                ));
            }
            k += 1;
        }
        proof {
            assert(new_path.deep_view() =~= path.deep_view().skip(prefix.deep_view().len() as int));
        }
        new_path
    }
}

/// Once normalization has failed on a prefix, it fails on the whole path.
proof fn lemma_normalize_none_extends(s: Seq<Seq<char>>, j: int)
    requires
        0 <= j <= s.len(),
        spec_normalize(s.take(j)) is None,
    ensures
        spec_normalize(s) is None,
    decreases s.len() - j,
{
    if j < s.len() {
        assert(s.take(j + 1).drop_last() =~= s.take(j));
        lemma_normalize_none_extends(s, j + 1);
    } else {
        assert(s.take(j) =~= s);
    }
}

/// Resolve `.` and `..` components; `None` where `..` would climb past the
/// start of the path or past its root.
pub fn normalize_path(path: &Vec<String>) -> (r: Option<Vec<String>>)
    ensures
        match r {
            Some(q) => spec_normalize(path.deep_view()) == Some(q.deep_view()),
            None => spec_normalize(path.deep_view()) is None,
        },
{
    let parent = String::from_str("..");
    let cur = String::from_str(".");
    let root = String::from_str("/");
    let mut test_path: Vec<String> = Vec::new();
    let n = path.len();
    let mut k: usize = 0;
    while k < n
        invariant
            k <= n,
            n == path@.len(),
            parent@ == ".."@,
            cur@ == "."@,
            root@ == spec_root(),
            spec_normalize(path.deep_view().take(k as int)) == Some(test_path.deep_view()),
        decreases n - k,
    {
        let ghost prefix = path.deep_view().take(k as int);
        proof {
            assert(path.deep_view().take(k + 1).drop_last() =~= prefix);
            assert(path.deep_view().take(k + 1).last() == path.deep_view()[k as int]);
        }
        let component = &path[k];
        if *component == parent {
            let blocked = test_path.len() == 0 || (test_path.len() == 1 && test_path[0] == root);
            if blocked {
                proof {
                    lemma_normalize_none_extends(path.deep_view(), k + 1);
                }
                return None;
            }
            test_path.pop();
            proof {
                assert(test_path.deep_view() =~= spec_normalize(
                    path.deep_view().take(k + 1),
                ).unwrap());
            }
        } else if *component == cur {
        } else {
            test_path.push(component.clone());
            proof {
                assert(test_path.deep_view() =~= spec_normalize(
                    path.deep_view().take(k + 1),
                ).unwrap());
            }
        }
        k += 1;
    }
    proof {
        assert(path.deep_view().take(n as int) =~= path.deep_view());
    }
    Some(test_path)
}

/// Whether `path`, once normalized, stays inside the normalized `base`.
pub fn is_path_within_base(path: &Vec<String>, base: &Vec<String>) -> (r: bool)
    ensures
        r == spec_is_path_within_base(path.deep_view(), base.deep_view()),
{
    let norm_path = normalize_path(path);
    let norm_base = normalize_path(base);
    match (norm_path, norm_base) {
        (Some(np), Some(nb)) => is_prefix_of(&nb, &np),
        _ => false,
    }
}

/// Both paths normalize and the base is a component-wise prefix.
pub open spec fn spec_is_path_within_base(path: Seq<Seq<char>>, base: Seq<Seq<char>>) -> bool {
    match (spec_normalize(path), spec_normalize(base)) {
        (Some(np), Some(nb)) => spec_is_prefix(nb, np),
        _ => false,
    }
}

/// `q` is what the table turns `path` into: the first entry whose virtual
/// prefix matches decides.
pub open spec fn spec_translated(
    table: Seq<(Vec<String>, Vec<String>)>,
    path: Seq<Seq<char>>,
    q: Seq<Seq<char>>,
) -> bool {
    exists|i: int|
        {
            &&& 0 <= i < table.len()
            &&& spec_is_prefix((#[trigger] table[i]).0.deep_view(), path)
            &&& q == spec_remap(path, table[i].0.deep_view().len() as int, table[i].1.deep_view())
            &&& forall|j: int|
                0 <= j < i ==> !spec_is_prefix((#[trigger] table[j]).0.deep_view(), path)
        }
}

/// The table of virtual path prefixes and the real prefixes they stand for.
#[derive(Debug, Clone, PartialEq, Default)]
pub struct VirtualPaths {
    pub paths: Vec<(Vec<String>, Vec<String>)>,
}

impl VirtualPaths {
    /// Virtual prefixes are unique, so a translation is unambiguous.
    pub open spec fn wf(&self) -> bool {
        forall|i: int, j: int|
            0 <= i < j < self.paths@.len() ==> (#[trigger] self.paths@[i]).0.deep_view() != (
            #[trigger] self.paths@[j]).0.deep_view()
    }

    /// Map `virtual_path` to `real_path`, replacing any mapping the virtual
    /// prefix already had.
    pub fn insert(&mut self, virtual_path: Vec<String>, real_path: Vec<String>)
        requires
            old(self).wf(),
        ensures
            final(self).wf(),
            exists|i: int|
                0 <= i < final(self).paths@.len() && (#[trigger] final(self).paths@[i]).0.deep_view()
                    == virtual_path.deep_view() && final(self).paths@[i].1.deep_view()
                    == real_path.deep_view(),
            forall|i: int|
                0 <= i < final(self).paths@.len() && (#[trigger] final(self).paths@[i]).0.deep_view()
                    != virtual_path.deep_view() ==> exists|j: int|
                    0 <= j < old(self).paths@.len() && final(self).paths@[i] == old(self).paths@[j],
            forall|j: int|
                0 <= j < old(self).paths@.len() && (#[trigger] old(self).paths@[j]).0.deep_view()
                    != virtual_path.deep_view() ==> exists|i: int|
                    0 <= i < final(self).paths@.len() && old(self).paths@[j] == final(self).paths@[i],
    {
        let n = self.paths.len();
        let mut k: usize = 0;
        while k < n
            invariant
                k <= n,
                n == self.paths@.len(),
                *self == *old(self),
                old(self).wf(),
                forall|i: int|
                    0 <= i < k ==> (#[trigger] self.paths@[i]).0.deep_view()
                        != virtual_path.deep_view(),
            decreases n - k,
        {
            if components_equal(&self.paths[k].0, &virtual_path) {
                self.paths.set(k, (virtual_path, real_path));
                proof {
                    let cur = self.paths@;
                    let prior = old(self).paths@;
                    assert(cur[k as int].0.deep_view() == virtual_path.deep_view());
                    assert(prior[k as int].0.deep_view() == virtual_path.deep_view());
                    assert forall|i: int, j: int|
                        0 <= i < j < cur.len() implies (#[trigger] cur[i]).0.deep_view() != (
                    #[trigger] cur[j]).0.deep_view() by {
                        if i == k {
                            assert(cur[j] == prior[j]);
                            assert(prior[k as int].0.deep_view() != prior[j].0.deep_view());
                            assert(cur[i].0.deep_view() == virtual_path.deep_view());
                        } else if j == k {
                            assert(cur[i] == prior[i]);
                            assert(prior[i].0.deep_view() != prior[k as int].0.deep_view());
                            assert(cur[j].0.deep_view() == virtual_path.deep_view());
                        } else {
                            assert(cur[i] == prior[i]);
                            assert(cur[j] == prior[j]);
                            assert(prior[i].0.deep_view() != prior[j].0.deep_view());
                        }
                    }
                    assert forall|i: int|
                        0 <= i < cur.len() && (#[trigger] cur[i]).0.deep_view()
                            != virtual_path.deep_view() implies exists|j: int|
                        0 <= j < prior.len() && cur[i] == prior[j] by {
                        assert(cur[i] == prior[i]);
                    }
                    assert forall|j: int|
                        0 <= j < prior.len() && (#[trigger] prior[j]).0.deep_view()
                            != virtual_path.deep_view() implies exists|i: int|
                        0 <= i < cur.len() && prior[j] == cur[i] by {
                        assert(j != k);
                        assert(prior[j] == cur[j]);
                    }
                }
                return ;
            }
            k += 1;
        }
        self.paths.push((virtual_path, real_path));
        proof {
            let cur = self.paths@;
            let prior = old(self).paths@;
            assert(cur[n as int].0.deep_view() == virtual_path.deep_view());
            assert forall|i: int|
                0 <= i < cur.len() && (#[trigger] cur[i]).0.deep_view() != virtual_path.deep_view()
                    implies exists|j: int| 0 <= j < prior.len() && cur[i] == prior[j] by {
                assert(i != n);
                assert(cur[i] == prior[i]);
            }
            assert forall|j: int|
                0 <= j < prior.len() && (#[trigger] prior[j]).0.deep_view()
                    != virtual_path.deep_view() implies exists|i: int|
                0 <= i < cur.len() && prior[j] == cur[i] by {
                assert(prior[j] == cur[j]);
            }
        }
    }

    /// Translate a virtual path to the real one: the first table entry
    /// whose virtual prefix matches decides; `None` where none matches.
    pub fn translate(&self, path: &Vec<String>) -> (r: Option<Vec<String>>)
        ensures
            match r {
                Some(q) => spec_translated(self.paths@, path.deep_view(), q.deep_view()),
                None => forall|i: int|
                    0 <= i < self.paths@.len() ==> !spec_is_prefix(
                        (#[trigger] self.paths@[i]).0.deep_view(),
                        path.deep_view(),
                    ),
            },
    {
        let n = self.paths.len();
        let mut k: usize = 0;
        while k < n
            invariant
                k <= n,
                n == self.paths@.len(),
                forall|j: int|
                    0 <= j < k ==> !spec_is_prefix(
                        (#[trigger] self.paths@[j]).0.deep_view(),
                        path.deep_view(),
                    ),
            decreases n - k,
        {
            let entry = &self.paths[k];
            match remap_prefix(path, &entry.0, &entry.1) {
                Some(p) => {
                    return Some(p);
                },
                None => {},
            }
            k += 1;
        }
        None
    }

    /// Translate a real path back to its virtual form: the first table
    /// entry whose real prefix matches decides.
    pub fn translate_back(&self, path: &Vec<String>) -> (r: Option<Vec<String>>)
        ensures
            match r {
                Some(q) => exists|i: int|
                    {
                        &&& 0 <= i < self.paths@.len()
                        &&& spec_is_prefix(
                            (#[trigger] self.paths@[i]).1.deep_view(),
                            path.deep_view(),
                        )
                        &&& q.deep_view() == spec_remap(
                            path.deep_view(),
                            self.paths@[i].1.deep_view().len() as int,
                            self.paths@[i].0.deep_view(),
                        )
                        &&& forall|j: int|
                            0 <= j < i ==> !spec_is_prefix(
                                (#[trigger] self.paths@[j]).1.deep_view(),
                                path.deep_view(),
                            )
                    },
                None => forall|i: int|
                    0 <= i < self.paths@.len() ==> !spec_is_prefix(
                        (#[trigger] self.paths@[i]).1.deep_view(),
                        path.deep_view(),
                    ),
            },
    {
        let n = self.paths.len();
        let mut k: usize = 0;
        while k < n
            invariant
                k <= n,
                n == self.paths@.len(),
                forall|j: int|
                    0 <= j < k ==> !spec_is_prefix(
                        (#[trigger] self.paths@[j]).1.deep_view(),
                        path.deep_view(),
                    ),
            decreases n - k,
        {
            let entry = &self.paths[k];
            match remap_prefix(path, &entry.1, &entry.0) {
                Some(p) => {
                    return Some(p);
                },
                None => {},
            }
            k += 1;
        }
        None
    }
}

/// Whether two component lists spell the same path.
pub fn components_equal(a: &Vec<String>, b: &Vec<String>) -> (r: bool)
    ensures
        r == (a.deep_view() == b.deep_view()),
{
    if a.len() != b.len() {
        proof {
            assert(a.deep_view().len() != b.deep_view().len());
        }
        return false;
    }
    let n = a.len();
    let mut k: usize = 0;
    while k < n
        invariant
            k <= n,
            n == a@.len() == b@.len(),
            forall|i: int| 0 <= i < k ==> a.deep_view()[i] == b.deep_view()[i],
        decreases n - k,
    {
        if !(a[k] == b[k]) {
            proof {
                assert(a.deep_view()[k as int] == a@[k as int]@);
                assert(b.deep_view()[k as int] == b@[k as int]@);
            }
            return false;
        }
        k += 1;
    }
    proof {
        assert(a.deep_view() =~= b.deep_view());
    }
    true
}

} // verus!
