//! A slice-like container that is either a borrowed view into memory owned
//! elsewhere or an exclusively owned heap allocation, with lazy copy-on-write
//! promotion: reading never allocates, and the first mutable access of a
//! borrowed container clones its content exactly once.

use std::borrow::Cow;
use vstd::prelude::*;

verus! {

/// `dst` could have been produced by cloning `src` element by element:
/// same length, and each element of `dst` is a clone of (or equal to)
/// the element of `src` at the same position.
pub open spec fn cloned_seq<T: Clone>(src: Seq<T>, dst: Seq<T>) -> bool {
    &&& dst.len() == src.len()
    &&& forall|i: int| 0 <= i < src.len() ==> cloned::<T>(src[i], #[trigger] dst[i])
}

/// The content of a tagged owned-or-borrowed value, whichever case holds.
pub open spec fn cow_content<'a, T: Clone>(cow: Cow<'a, [T]>) -> Seq<T> {
    match cow {
        Cow::Borrowed(s) => s@,
        Cow::Owned(v) => v@,
    }
}

/// Internal representation: exactly one of the two states holds at any time.
#[derive(Debug)]
enum Repr<'a, T> {
    /// A non-owning view into memory owned elsewhere; never freed here.
    Borrowed(&'a [T]),
    /// An exclusively owned allocation, freed exactly once when dropped.
    Owned(Vec<T>),
}

/// A maybe-owned contiguous sequence: either a borrowed view or an owned
/// dynamic array, read through a single interface.
#[derive(Debug)]
pub struct Calf<'a, T: Clone> {
    repr: Repr<'a, T>,
}

impl<'a, T: Clone> View for Calf<'a, T> {
    type V = Seq<T>;

    /// The content of the container, whichever state it is in.
    closed spec fn view(&self) -> Seq<T> {
        match self.repr {
            Repr::Borrowed(s) => s@,
            Repr::Owned(v) => v@,
        }
    }
}

impl<'a, T: Clone> Calf<'a, T> {
    /// Whether the container owns its allocation.
    pub closed spec fn spec_is_owned(&self) -> bool {
        self.repr is Owned
    }

    /// The container that owning construction yields from `vec`.
    pub closed spec fn spec_owned(vec: Vec<T>) -> Calf<'a, T> {
        Calf { repr: Repr::Owned(vec) }
    }

    /// The container that borrowing construction yields from `slice`.
    pub closed spec fn spec_borrowed(slice: &'a [T]) -> Calf<'a, T> {
        Calf { repr: Repr::Borrowed(slice) }
    }

    /// The dynamic array inside an owning container.
    pub closed spec fn spec_owned_vec(self) -> Vec<T>
        recommends
            self.spec_is_owned(),
    {
        self.repr->Owned_0
    }

    /// Takes ownership of an existing dynamic array, moving its allocation
    /// into the container without copying; the result is always owning.
    pub fn owned(vec: Vec<T>) -> (c: Self)
        ensures
            c == Self::spec_owned(vec),
            c@ == vec@,
            c.spec_is_owned(),
    {
        Calf { repr: Repr::Owned(vec) }
    }

    /// References external memory directly, without allocating; the result
    /// is non-owning and valid for as long as the borrow is.
    pub fn borrowed(slice: &'a [T]) -> (c: Self)
        ensures
            c == Self::spec_borrowed(slice),
            c@ == slice@,
            !c.spec_is_owned(),
    {
        Calf { repr: Repr::Borrowed(slice) }
    }

    /// Whether the container currently owns its allocation.
    #[verifier::when_used_as_spec(spec_is_owned)]
    pub fn is_owned(&self) -> (r: bool)
        ensures
            r == self.spec_is_owned(),
    {
        match &self.repr {
            Repr::Owned(_) => true,
            Repr::Borrowed(_) => false,
        }
    }

    /// The container that construction from a tagged owned-or-borrowed
    /// value yields: the case that held is preserved, nothing is copied.
    pub closed spec fn spec_from_cow(cow: Cow<'a, [T]>) -> Calf<'a, T> {
        match cow {
            Cow::Borrowed(s) => Self::spec_borrowed(s),
            Cow::Owned(v) => Self::spec_owned(v),
        }
    }

    /// The tagged owned-or-borrowed value that consuming the container
    /// yields: the current state is preserved, nothing is copied.
    pub closed spec fn spec_into_cow(self) -> Cow<'a, [T]> {
        match self.repr {
            Repr::Borrowed(s) => Cow::Borrowed(s),
            Repr::Owned(v) => Cow::Owned(v),
        }
    }

    /// Accepts a value already tagged as owned or borrowed and dispatches
    /// to the matching constructor, preserving which case held; no copy
    /// is made either way.
    pub fn from_cow(cow: Cow<'a, [T]>) -> (c: Self)
        ensures
            c == Self::spec_from_cow(cow),
            c@ == cow_content(cow),
            c.spec_is_owned() <==> (cow matches Cow::Owned(_)),
    {
        match cow {
            Cow::Owned(v) => Self::owned(v),
            Cow::Borrowed(s) => Self::borrowed(s),
        }
    }

    /// Consumes the container into a tagged owned-or-borrowed value: an
    /// owning container hands its allocation out directly, a borrowed one
    /// re-materializes a view over the same external memory; no copy is
    /// made either way.
    pub fn into_cow(self) -> (cow: Cow<'a, [T]>)
        ensures
            cow == self.spec_into_cow(),
            cow_content(cow) == self@,
            (cow matches Cow::Owned(_)) <==> self.spec_is_owned(),
    {
        match self.repr {
            Repr::Owned(v) => Cow::Owned(v),
            Repr::Borrowed(s) => Cow::Borrowed(s),
        }
    }

    /// Read-only access to the live elements; never allocates.
    pub fn as_slice(&self) -> (s: &[T])
        ensures
            s@ == self@,
    {
        match &self.repr {
            Repr::Borrowed(s) => s,
            Repr::Owned(v) => v.as_slice(),
        }
    }

    /// Consumes the container into a dynamic array. An owning container
    /// moves its allocation out directly; a borrowed one clones every
    /// element into a fresh allocation.
    pub fn into_owned(self) -> (v: Vec<T>)
        ensures
            cloned_seq(self@, v@),
            self.spec_is_owned() ==> v == self.spec_owned_vec(),
    {
        match self.repr {
            Repr::Owned(v) => v,
            Repr::Borrowed(s) => clone_slice(s),
        }
    }

    /// The copy-on-write trigger: detaches the content into a mutation
    /// guard, cloning it only when the container did not already own it.
    /// Until the guard is released back into it, the container is left in
    /// an empty, non-owning placeholder state.
    pub fn to_mut(&mut self) -> (g: ToMut<T>)
        ensures
            cloned_seq(old(self)@, g.vec@),
            old(self).spec_is_owned() ==> g.vec == old(self).spec_owned_vec(),
            !final(self).spec_is_owned(),
            final(self)@ == Seq::<T>::empty(),
    {
        let mut taken = Calf { repr: Repr::Borrowed(&[]) };
        core::mem::swap(self, &mut taken);
        ToMut { vec: taken.into_owned() }
    }
}

/// A scoped mutable-access guard: holds the content detached from a
/// container as an owned dynamic array, open to arbitrary mutation, until
/// it is released back into the container.
#[derive(Debug)]
pub struct ToMut<T: Clone> {
    /// The detached (or freshly cloned) content; mutate it freely.
    pub vec: Vec<T>,
}

impl<T: Clone> View for ToMut<T> {
    type V = Seq<T>;

    /// The content the guard currently holds.
    open spec fn view(&self) -> Seq<T> {
        self.vec@
    }
}

impl<T: Clone> ToMut<T> {
    /// Releases the guard: moves its content back into the container,
    /// which becomes owning, holding whatever the content was mutated to.
    /// The caller is obliged to call this on every path out of the scope
    /// that requested mutable access.
    pub fn release<'a>(self, calf: &mut Calf<'a, T>)
        ensures
            *final(calf) == Calf::spec_owned(self.vec),
            final(calf)@ == self.vec@,
            final(calf).spec_is_owned(),
    {
        *calf = Calf { repr: Repr::Owned(self.vec) };
    }
}

/// Borrowing construction is faithful: a container borrowed from a view
/// reads back exactly that view and reports itself as non-owning.
pub proof fn lemma_borrowed_view<'a, T: Clone>(slice: &'a [T])
    ensures
        Calf::spec_borrowed(slice)@ == slice@,
        !Calf::spec_borrowed(slice).spec_is_owned(),
{
}

/// Owning round trip: a container built from a dynamic array reads back
/// exactly that array's content, reports itself as owning, and consuming
/// it yields the very array it was built from, with no element cloned.
pub proof fn lemma_owned_round_trip<'a, T: Clone>(vec: Vec<T>)
    ensures
        Calf::<'a, T>::spec_owned(vec)@ == vec@,
        Calf::<'a, T>::spec_owned(vec).spec_is_owned(),
        Calf::<'a, T>::spec_owned(vec).spec_owned_vec() == vec,
{
}

/// Promotion preserves content: a mutation guard detached from a container
/// over some content, released with no mutation, leaves the container
/// owning, with each element a clone of the original content's.
pub proof fn lemma_promote_unchanged<'a, T: Clone>(
    before: Seq<T>,
    g: ToMut<T>,
    after: Calf<'a, T>,
)
    requires
        cloned_seq(before, g@),
        after == Calf::spec_owned(g.vec),
    ensures
        after.spec_is_owned(),
        cloned_seq(before, after@),
{
}

/// For element types whose clone always returns a value equal to its
/// input, element-wise cloning reproduces the sequence exactly.
pub proof fn lemma_cloned_seq_identity<T: Clone>(src: Seq<T>, dst: Seq<T>)
    requires
        cloned_seq(src, dst),
        forall|a: T, b: T| #[trigger] cloned::<T>(a, b) ==> a == b,
    ensures
        src == dst,
{
    assert(src =~= dst);
}

/// Tagged round trip: building a container from a tagged owned-or-borrowed
/// value and consuming it back reproduces the value exactly: the case
/// that held is preserved and no element is copied in either direction.
pub proof fn lemma_cow_round_trip<'a, T: Clone>(cow: Cow<'a, [T]>)
    ensures
        Calf::spec_from_cow(cow).spec_into_cow() == cow,
{
}

/// Clones every element of a slice into a fresh dynamic array.
fn clone_slice<T: Clone>(s: &[T]) -> (v: Vec<T>)
    ensures
        cloned_seq(s@, v@),
{
    let mut v: Vec<T> = Vec::new();
    let mut i: usize = 0;
    while i < s.len()
        invariant
            i <= s.len(),
            v@.len() == i,
            forall|j: int| 0 <= j < i ==> cloned::<T>(s@[j], #[trigger] v@[j]),
        decreases s.len() - i,
    {
        v.push(s[i].clone());
        i += 1;
    }
    v
}

} // verus!
