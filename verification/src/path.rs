//! Absolute filesystem paths as sequences of components.

use vstd::prelude::*;
use vstd::string::StringExecFns;

verus! {

/// An absolute, symlink-free filesystem path, stored as its components in
/// order from the root; the empty sequence stands for the root itself.
///
/// Values are built from the output of path canonicalization, so each
/// component is a plain name: nonempty, free of separators, and neither of
/// the two relative markers. Under that reading, two values denote the same
/// filesystem entry exactly when their component sequences are equal.
#[derive(Debug)]
pub struct AbsPath {
    components: Vec<String>,
}

impl View for AbsPath {
    type V = Seq<Seq<char>>;

    closed spec fn view(&self) -> Seq<Seq<char>> {
        self.components@.map_values(|c: String| c@)
    }
}

/// What a path is mathematically: its components, each a sequence of
/// characters, in order from the root.
pub type PathView = Seq<Seq<char>>;

/// The conventional textual form of an absolute path: a separator before
/// each component, and a lone separator for the root.
pub open spec fn rendered_path(p: PathView) -> Seq<char>
    decreases p.len(),
{
    if p.len() == 0 {
        "/"@
    } else if p.len() == 1 {
        "/"@ + p[0]
    } else {
        rendered_path(p.drop_last()) + "/"@ + p.last()
    }
}

/// `pre` names an ancestor of `p`, or `p` itself: every component of `pre`
/// stands unchanged at the head of `p`.
pub open spec fn is_prefix_of(pre: Seq<Seq<char>>, p: Seq<Seq<char>>) -> bool {
    pre.len() <= p.len() && forall|i: int| 0 <= i < pre.len() ==> pre[i] == p[i]
}

impl Clone for AbsPath {
    /// A copy that denotes the same entry.
    fn clone(&self) -> (r: AbsPath)
        ensures
            r@ == self@,
    {
        let mut components: Vec<String> = Vec::new();
        let mut i: usize = 0;
        while i < self.components.len()
            invariant
                i <= self.components@.len(),
                components@.len() == i,
                forall|j: int| 0 <= j < i ==> components@[j] == self.components@[j],
            decreases self.components@.len() - i,
        {
            components.push(self.components[i].clone());
            i += 1;
        }
        let r = AbsPath { components };
        proof {
            assert(r@ =~= self@);
        }
        r
    }
}

impl AbsPath {
    /// Wraps a list of components as a path.
    pub fn new(components: Vec<String>) -> (r: AbsPath)
        ensures
            r@ == components@.map_values(|c: String| c@),
    {
        AbsPath { components }
    }

    /// The components, for callers that must hand the path to the
    /// operating system.
    pub fn components(&self) -> (r: &Vec<String>)
        ensures
            r@.map_values(|c: String| c@) == self@,
    {
        &self.components
    }

    /// How many components the path has; zero only for the root.
    pub fn depth(&self) -> (r: usize)
        ensures
            r == self@.len(),
    {
        self.components.len()
    }

    /// The path of the containing directory, or `None` for the root.
    pub fn parent(&self) -> (r: Option<AbsPath>)
        ensures
            match r {
                Some(p) => self@.len() > 0 && p@ == self@.drop_last(),
                None => self@.len() == 0,
            },
    {
        if self.components.len() == 0 {
            None
        } else {
            let n = self.components.len() - 1;
            let mut head: Vec<String> = Vec::new();
            let mut i: usize = 0;
            while i < n
                invariant
                    i <= n,
                    n == self.components@.len() - 1,
                    head@.len() == i,
                    forall|j: int| 0 <= j < i ==> head@[j] == self.components@[j],
                decreases n - i,
            {
                head.push(self.components[i].clone());
                i += 1;
            }
            let p = AbsPath { components: head };
            proof {
                assert(p@ =~= self@.drop_last());
            }
            Some(p)
        }
    }

    /// The final component, or `None` for the root.
    pub fn file_name(&self) -> (r: Option<&String>)
        ensures
            match r {
                Some(n) => self@.len() > 0 && n@ == self@.last(),
                None => self@.len() == 0,
            },
    {
        if self.components.len() == 0 {
            None
        } else {
            Some(&self.components[self.components.len() - 1])
        }
    }

    /// The path of the entry called `name` inside this directory.
    pub fn join(&self, name: String) -> (r: AbsPath)
        ensures
            r@ == self@.push(name@),
    {
        let mut components: Vec<String> = Vec::new();
        let mut i: usize = 0;
        while i < self.components.len()
            invariant
                i <= self.components@.len(),
                components@.len() == i,
                forall|j: int| 0 <= j < i ==> components@[j] == self.components@[j],
            decreases self.components@.len() - i,
        {
            components.push(self.components[i].clone());
            i += 1;
        }
        components.push(name);
        let r = AbsPath { components };
        proof {
            assert(r@ =~= self@.push(name@));
        }
        r
    }

    /// Whether the two paths denote the same entry.
    pub fn is_same_entry(&self, other: &AbsPath) -> (r: bool)
        ensures
            r == (self@ == other@),
    {
        if self.components.len() != other.components.len() {
            proof {
                assert(self@.len() != other@.len());
            }
            return false;
        }
        let mut i: usize = 0;
        while i < self.components.len()
            invariant
                i <= self.components@.len(),
                self.components@.len() == other.components@.len(),
                forall|j: int| 0 <= j < i ==> self@[j] == other@[j],
            decreases self.components@.len() - i,
        {
            if !(self.components[i] == other.components[i]) {
                proof {
                    assert(self@[i as int] != other@[i as int]);
                }
                return false;
            }
            i += 1;
        }
        proof {
            assert(self@ =~= other@);
        }
        true
    }

    /// The textual form of the path, for messages shown to the user.
    pub fn render(&self) -> (r: String)
        ensures
            r@ == rendered_path(self@),
    {
        if self.components.len() == 0 {
            return "/".to_owned();
        }
        let mut s = String::new();
        let mut i: usize = 0;
        while i < self.components.len()
            invariant
                i <= self.components@.len(),
                0 < self.components@.len(),
                i == 0 ==> s@ == Seq::<char>::empty(),
                0 < i ==> s@ == rendered_path(self@.subrange(0, i as int)),
            decreases self.components@.len() - i,
        {
            s.append("/");
            s.append(self.components[i].as_str());
            proof {
                let pre = self@.subrange(0, i as int);
                let cur = self@.subrange(0, i as int + 1);
                assert(cur.drop_last() =~= pre);
                assert(cur.last() == self@[i as int]);
                if i == 0 {
                    assert(s@ == "/"@ + self@[0]);
                    assert(cur[0] == self@[0]);
                }
            }
            i += 1;
        }
        proof {
            assert(self@.subrange(0, self@.len() as int) =~= self@);
        }
        s
    }

    /// Whether `prefix` names an ancestor of this path, or this path itself.
    pub fn starts_with(&self, prefix: &AbsPath) -> (r: bool)
        ensures
            r == is_prefix_of(prefix@, self@),
    {
        if prefix.components.len() > self.components.len() {
            return false;
        }
        let mut i: usize = 0;
        while i < prefix.components.len()
            invariant
                i <= prefix.components@.len(),
                prefix.components@.len() <= self.components@.len(),
                forall|j: int| 0 <= j < i ==> prefix@[j] == self@[j],
            decreases prefix.components@.len() - i,
        {
            if !(prefix.components[i] == self.components[i]) {
                proof {
                    assert(prefix@[i as int] != self@[i as int]);
                }
                return false;
            }
            i += 1;
        }
        true
    }
}

} // verus!
