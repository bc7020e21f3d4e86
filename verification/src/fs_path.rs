use vstd::prelude::*;

use crate::text::str_concat;

verus! {

/// An absolute filesystem path, modelled as the sequence of its components
/// below the root. The filesystem root is the empty sequence.
#[derive(Debug, PartialEq, Eq, PartialOrd, Ord)]
pub struct FsPath {
    components: Vec<String>,
}

/// The textual form of a path: one `/` before each component, so the root
/// is the empty string and `["a", "b"]` is `/a/b`.
pub open spec fn spec_path_text(p: Seq<Seq<char>>) -> Seq<char>
    decreases p.len(),
{
    if p.len() == 0 {
        Seq::empty()
    } else {
        spec_path_text(p.drop_last()) + seq!['/'] + p.last()
    }
}

impl View for FsPath {
    type V = Seq<Seq<char>>;

    closed spec fn view(&self) -> Seq<Seq<char>> {
        self.components.deep_view()
    }
}

impl Clone for FsPath {
    fn clone(&self) -> (r: Self)
        ensures
            r@ == self@,
    {
        let mut components: Vec<String> = Vec::new();
        let mut i: usize = 0;
        while i < self.components.len()
            invariant
                i <= self.components.len(),
                components@.len() == i,
                forall|j: int| 0 <= j < i ==> components@[j]@ == self.components@[j]@,
            decreases self.components.len() - i,
        {
            components.push(self.components[i].clone());
            i += 1;
        }
        proof {
            assert(components.deep_view() =~= self@);
        }
        FsPath { components }
    }
}

impl FsPath {
    /// The filesystem root.
    pub fn new() -> (p: FsPath)
        ensures
            p@ =~= Seq::<Seq<char>>::empty(),
    {
        FsPath { components: Vec::new() }
    }

    /// A path made of the given components, uppermost first.
    pub fn from_components(components: Vec<String>) -> (p: FsPath)
        ensures
            p@ == components.deep_view(),
    {
        FsPath { components }
    }

    /// The components of the path, uppermost first.
    pub fn components(&self) -> (r: &Vec<String>)
        ensures
            r.deep_view() == self@,
    {
        &self.components
    }

    /// Appends one component at the bottom of the path.
    pub fn push(&mut self, name: String)
        ensures
            final(self)@ == old(self)@.push(name@),
    {
        self.components.push(name);
        proof {
            assert(self@ =~= old(self)@.push(self.components@.last()@));
        }
    }

    /// Removes the lowest component; at the root this changes nothing.
    pub fn pop(&mut self)
        ensures
            old(self)@.len() == 0 ==> final(self)@ == old(self)@,
            old(self)@.len() > 0 ==> final(self)@ == old(self)@.drop_last(),
    {
        if self.components.len() > 0 {
            self.components.pop();
            proof {
                assert(self@ =~= old(self)@.drop_last());
            }
        }
    }

    /// True exactly when the path is the filesystem root.
    pub fn is_root(&self) -> (r: bool)
        ensures
            r == (self@.len() == 0),
    {
        self.components.len() == 0
    }

    /// The lowest component of the path, if any.
    pub fn last(&self) -> (r: Option<&String>)
        ensures
            self@.len() == 0 ==> r is None,
            self@.len() > 0 ==> (r matches Some(s) && s@ == self@.last()),
    {
        if self.components.len() == 0 {
            None
        } else {
            Some(&self.components[self.components.len() - 1])
        }
    }

    /// True exactly when the two paths have the same components.
    pub fn matches(&self, other: &FsPath) -> (r: bool)
        ensures
            r == (self@ == other@),
    {
        proof {
            assert(self@.len() == self.components@.len());
            assert(other@.len() == other.components@.len());
        }
        if self.components.len() != other.components.len() {
            return false;
        }
        let mut i: usize = 0;
        while i < self.components.len()
            invariant
                i <= self.components.len(),
                self.components.len() == other.components.len(),
                self@.len() == self.components@.len(),
                other@.len() == other.components@.len(),
                forall|j: int| 0 <= j < i ==> self@[j] == other@[j],
            decreases self.components.len() - i,
        {
            if !(self.components[i] == other.components[i]) {
                proof {
                    assert(self@[i as int] == self.components@[i as int]@);
                    assert(other@[i as int] == other.components@[i as int]@);
                }
                return false;
            }
            proof {
                assert(self@[i as int] == self.components@[i as int]@);
                assert(other@[i as int] == other.components@[i as int]@);
            }
            i += 1;
        }
        proof {
            assert(self@ =~= other@);
        }
        true
    }

    /// The textual form of the path, as `spec_path_text` describes it.
    pub fn to_text(&self) -> (r: String)
        ensures
            r@ == spec_path_text(self@),
    {
        let mut s = String::new();
        let mut i: usize = 0;
        while i < self.components.len()
            invariant
                i <= self.components.len(),
                s@ == spec_path_text(self@.subrange(0, i as int)),
            decreases self.components.len() - i,
        {
            let with_sep = str_concat(s.as_str(), "/");
            s = str_concat(with_sep.as_str(), self.components[i].as_str());
            proof {
                reveal_strlit("/");
                let taken = self@.subrange(0, i + 1 as int);
                assert(taken.drop_last() =~= self@.subrange(0, i as int));
                assert(s@ =~= spec_path_text(taken));
            }
            i += 1;
        }
        proof {
            assert(self@.subrange(0, self.components.len() as int) =~= self@);
        }
        s
    }

    /// The textual form of the path with `name` appended below it.
    pub fn join(&self, name: &str) -> (r: String)
        ensures
            r@ == spec_path_text(self@) + seq!['/'] + name@,
    {
        let base = self.to_text();
        let with_sep = str_concat(base.as_str(), "/");
        let r = str_concat(with_sep.as_str(), name);
        proof {
            reveal_strlit("/");
            assert(r@ =~= spec_path_text(self@) + seq!['/'] + name@);
        }
        r
    }
}

} // verus!
