//! A filesystem location modelled as the ordered sequence of its path
//! components.
//!
//! The supervisor never touches the disk itself; it only composes and
//! compares locations.  Modelling a path as its components keeps that logic
//! independent of any platform path syntax: the host converts to and from
//! real OS paths at the boundary.

use vstd::prelude::*;

verus! {

/// A filesystem location, kept as the ordered list of its components.
#[derive(Debug)]
pub struct FsPath {
    pub parts: Vec<String>,
}

impl View for FsPath {
    type V = Seq<Seq<char>>;

    open spec fn view(&self) -> Seq<Seq<char>> {
        Seq::new(self.parts@.len(), |i: int| self.parts@[i]@)
    }
}

/// The components that remain after walking `levels` parent levels up.
/// Walking above the topmost component stops there, as popping an empty
/// path does.
pub open spec fn spec_ascend(p: Seq<Seq<char>>, levels: int) -> Seq<Seq<char>> {
    p.take(
        if p.len() >= levels {
            p.len() - levels
        } else {
            0
        },
    )
}

impl FsPath {
    /// The empty location, the anchor from which components are appended.
    pub fn empty() -> (r: FsPath)
        ensures
            r@ == Seq::<Seq<char>>::empty(),
    {
        let r = FsPath { parts: Vec::new() };
        proof {
            assert(r@ =~= Seq::<Seq<char>>::empty());
        }
        r
    }

    /// The number of components.
    pub fn depth(&self) -> (n: usize)
        ensures
            n == self@.len(),
    {
        self.parts.len()
    }

    /// An independent copy of this location.
    pub fn duplicate(&self) -> (r: FsPath)
        ensures
            r@ == self@,
    {
        let mut parts: Vec<String> = Vec::new();
        let mut i: usize = 0;
        while i < self.parts.len()
            invariant
                i <= self.parts.len(),
                parts@.len() == i as int,
                forall|j: int| 0 <= j < i ==> parts@[j] == self.parts@[j],
            decreases self.parts.len() - i,
        {
            parts.push(self.parts[i].clone());
            i = i + 1;
        }
        let r = FsPath { parts };
        proof {
            assert(r@ =~= self@);
        }
        r
    }

    /// This location extended by one more component.
    pub fn child(&self, name: &str) -> (r: FsPath)
        ensures
            r@ == self@.push(name@),
    {
        let mut r = self.duplicate();
        r.parts.push(name.to_owned());
        proof {
            assert(r@ =~= self@.push(name@));
        }
        r
    }

    /// The location `levels` parent directories above this one.
    pub fn ascend(self, levels: usize) -> (r: FsPath)
        ensures
            r@ == spec_ascend(self@, levels as int),
    {
        let ghost orig: Seq<Seq<char>> = self@;
        let mut r = self;
        let mut i: usize = 0;
        while i < levels
            invariant
                i <= levels,
                r@ == spec_ascend(orig, i as int),
            decreases levels - i,
        {
            let ghost before: Seq<Seq<char>> = r@;
            if r.parts.len() > 0 {
                r.parts.pop();
                proof {
                    assert(r@ =~= before.drop_last());
                    assert(before.drop_last() =~= spec_ascend(orig, i + 1));
                }
            } else {
                proof {
                    assert(r@ =~= spec_ascend(orig, i + 1));
                }
            }
            i = i + 1;
        }
        r
    }

    /// The parent directory of this location, or `fallback` where the
    /// location is too shallow to have one.
    pub fn parent_or(&self, fallback: &FsPath) -> (r: FsPath)
        ensures
            r@ == (if self@.len() >= 2 {
                self@.drop_last()
            } else {
                fallback@
            }),
    {
        if self.parts.len() >= 2 {
            let mut r = self.duplicate();
            r.parts.pop();
            proof {
                assert(r@ =~= self@.drop_last());
            }
            r
        } else {
            fallback.duplicate()
        }
    }
}

impl PartialEq for FsPath {
    fn eq(&self, other: &FsPath) -> (r: bool) {
        if self.parts.len() != other.parts.len() {
            proof {
                assert(self@.len() != other@.len());
            }
            return false;
        }
        let mut i: usize = 0;
        while i < self.parts.len()
            invariant
                i <= self.parts.len(),
                self.parts@.len() == other.parts@.len(),
                forall|j: int| 0 <= j < i ==> self@[j] == other@[j],
            decreases self.parts.len() - i,
        {
            if self.parts[i] != other.parts[i] {
                proof {
                    assert(self@[i as int] != other@[i as int]);
                }
                return false;
            }
            i = i + 1;
        }
        proof {
            assert(self@ =~= other@);
        }
        true
    }
}

impl vstd::std_specs::cmp::PartialEqSpecImpl for FsPath {
    open spec fn obeys_eq_spec() -> bool {
        true
    }

    open spec fn eq_spec(&self, other: &FsPath) -> bool {
        self@ == other@
    }
}

} // verus!
