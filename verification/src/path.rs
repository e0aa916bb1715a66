//! Paths into the configuration tree, used to attribute errors.

use vstd::prelude::*;

verus! {

/// The dotted rendering of a sequence of path segments: the segments in
/// order, separated by `'.'`.
pub open spec fn dotted_spec(segments: Seq<Seq<char>>) -> Seq<char>
    decreases segments.len(),
{
    if segments.len() == 0 {
        Seq::empty()
    } else if segments.len() == 1 {
        segments[0]
    } else {
        dotted_spec(segments.drop_last()) + seq!['.'] + segments.last()
    }
}

/// An immutable, appendable path into the configuration tree. A path is an
/// ordered sequence of segments; new paths are derived by appending a
/// segment, never by mutating one in place. Paths serve error attribution
/// only and carry no failure modes of their own.
#[derive(Debug)]
pub struct ConfigPath {
    segments: Vec<String>,
}

impl View for ConfigPath {
    type V = Seq<Seq<char>>;

    closed spec fn view(&self) -> Seq<Seq<char>> {
        self.segments.deep_view()
    }
}

impl DeepView for ConfigPath {
    type V = Seq<Seq<char>>;

    open spec fn deep_view(&self) -> Seq<Seq<char>> {
        self.view()
    }
}

impl Clone for ConfigPath {
    fn clone(&self) -> (r: Self)
        ensures
            r@ == self@,
    {
        let mut segments: Vec<String> = Vec::new();
        let mut i: usize = 0;
        while i < self.segments.len()
            invariant
                i <= self.segments.len(),
                segments@.len() == i,
                forall|j: int| 0 <= j < i ==> segments@[j]@ == self.segments@[j]@,
            decreases self.segments.len() - i,
        {
            segments.push(self.segments[i].clone());
            i = i + 1;
        }
        let r = ConfigPath { segments };
        proof {
            assert(r@ =~= self@);
        }
        r
    }
}

impl ConfigPath {
    /// The empty path, the root of the configuration tree.
    pub fn new() -> (r: Self)
        ensures
            r@ == Seq::<Seq<char>>::empty(),
    {
        let r = ConfigPath { segments: Vec::new() };
        proof {
            assert(r@ =~= Seq::<Seq<char>>::empty());
        }
        r
    }

    /// Returns a new path with `segment` appended; `self` is left as it is.
    pub fn join(&self, segment: &str) -> (r: Self)
        ensures
            r@ == self@.push(segment@),
    {
        let mut r = self.clone();
        r.segments.push(segment.to_owned());
        proof {
            assert(r@ =~= self@.push(segment@));
        }
        r
    }

    /// The number of segments.
    pub fn len(&self) -> (n: usize)
        ensures
            n == self@.len(),
    {
        self.segments.len()
    }

    /// Whether two paths hold the same segments; equal paths render to the
    /// same dotted string.
    pub fn equals(&self, other: &ConfigPath) -> (r: bool)
        ensures
            r == (self@ == other@),
    {
        if self.segments.len() != other.segments.len() {
            proof {
                assert(self@.len() != other@.len());
            }
            return false;
        }
        let mut i: usize = 0;
        while i < self.segments.len()
            invariant
                i <= self.segments.len(),
                self@.len() == self.segments@.len(),
                self@.len() == other@.len(),
                forall|j: int| 0 <= j < i ==> self@[j] == other@[j],
            decreases self.segments.len() - i,
        {
            if !(self.segments[i] == other.segments[i]) {
                proof {
                    assert(self@[i as int] != other@[i as int]);
                }
                return false;
            }
            i = i + 1;
        }
        proof {
            assert(self@ =~= other@);
        }
        true
    }

    /// The stable, human-readable dotted rendering of the path.
    pub fn dotted(&self) -> (r: String)
        ensures
            r@ == dotted_spec(self@),
    {
        let mut out = String::new();
        let mut i: usize = 0;
        proof {
            reveal_strlit(".");
            assert(out@ =~= dotted_spec(self@.subrange(0, 0)));
        }
        while i < self.segments.len()
            invariant
                i <= self.segments.len(),
                "."@ =~= seq!['.'],
                out@ == dotted_spec(self@.subrange(0, i as int)),
            decreases self.segments.len() - i,
        {
            if i > 0 {
                out.append(".");
            }
            out.append(self.segments[i].as_str());
            proof {
                let pre = self@.subrange(0, i as int);
                let post = self@.subrange(0, i as int + 1);
                assert(post.drop_last() =~= pre);
                assert(post.last() == self@[i as int]);
                assert(out@ =~= dotted_spec(post));
            }
            i = i + 1;
        }
        proof {
            assert(self@.subrange(0, self@.len() as int) =~= self@);
        }
        out
    }
}

} // verus!
