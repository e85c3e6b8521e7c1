//! An absolute filesystem path, modelled as the sequence of its components
//! from the root. The filesystem root is the empty sequence.

use vstd::prelude::*;

verus! {

/// An absolute path. The view of a path is the sequence of the views of its
/// components; the root has the empty view.
#[derive(Debug)]
pub struct AbsPath {
    components: Vec<String>,
}

impl View for AbsPath {
    type V = Seq<Seq<char>>;

    closed spec fn view(&self) -> Seq<Seq<char>> {
        self.components.deep_view()
    }
}

impl AbsPath {
    /// The root path.
    pub fn root() -> (r: AbsPath)
        ensures
            r@ == Seq::<Seq<char>>::empty(),
    {
        let r = AbsPath { components: Vec::new() };
        assert(r@ =~= Seq::<Seq<char>>::empty());
        r
    }

    /// A path made of the given components, ordered from the root outward.
    pub fn from_components(components: Vec<String>) -> (r: AbsPath)
        ensures
            r@ == components.deep_view(),
    {
        AbsPath { components }
    }

    /// The components of the path, ordered from the root outward.
    pub fn components(&self) -> (r: &Vec<String>)
        ensures
            r.deep_view() == self@,
    {
        &self.components
    }

    /// How many components the path has; zero exactly at the root.
    pub fn depth(&self) -> (r: usize)
        ensures
            r == self@.len(),
    {
        self.components.len()
    }

    /// An owned copy of the path with the same view.
    pub fn duplicate(&self) -> (r: AbsPath)
        ensures
            r@ == self@,
    {
        let components = self.components.clone();
        proof {
            assert(components@ =~= self.components@);
            assert(components.deep_view() =~= self.components.deep_view());
        }
        AbsPath { components }
    }

    /// The final component of the path, if the path is not the root.
    pub fn last_component(&self) -> (r: Option<String>)
        ensures
            match r {
                Some(name) => self@.len() > 0 && name@ == self@.last(),
                None => self@.len() == 0,
            },
    {
        if self.components.len() == 0 {
            None
        } else {
            Some(self.components[self.components.len() - 1].clone())
        }
    }

    /// The parent of the path: the same path without its final component.
    /// The root has no parent.
    pub fn parent(&self) -> (r: Option<AbsPath>)
        ensures
            match r {
                Some(p) => self@.len() > 0 && p@ == self@.drop_last(),
                None => self@.len() == 0,
            },
    {
        if self.components.len() == 0 {
            None
        } else {
            let mut components = self.components.clone();
            proof {
                assert(components@ =~= self.components@);
            }
            components.pop();
            let p = AbsPath { components };
            proof {
                assert(p@ =~= self@.drop_last());
            }
            Some(p)
        }
    }

    /// Whether two paths are the same path.
    pub fn same_path(&self, other: &AbsPath) -> (r: bool)
        ensures
            r == (self@ == other@),
    {
        if self.components.len() != other.components.len() {
            proof {
                assert(self@.len() != other@.len());
            }
            return false;
        }
        let n: usize = self.components.len();
        for i in 0..n
            invariant
                n == self.components.len() == other.components.len(),
                forall|j: int| 0 <= j < i ==> self@[j] == other@[j],
        {
            if !string_eq(&self.components[i], &other.components[i]) {
                proof {
                    assert(self@[i as int] != other@[i as int]);
                }
                return false;
            }
        }
        proof {
            assert(self@ =~= other@);
        }
        true
    }
}

/// Whether two strings hold the same characters.
pub fn string_eq(a: &String, b: &String) -> (r: bool)
    ensures
        r == (a@ == b@),
{
    *a == *b
}

} // verus!
