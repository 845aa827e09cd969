//! The recursive conversion capability: a trait with a source shape, a
//! destination shape and one operation, implemented for primitive scalar
//! types and for the standard generic containers.

use vstd::prelude::*;

verus! {

/// The conversion capability. `mirrors` is the mathematical statement of the
/// conversion; `mirror` performs it and is proved to agree with `mirrors`.
pub trait Doppleganger {
    type Source;
    type Dest;

    spec fn mirrors(source: Self::Source, dest: Self::Dest) -> bool;

    fn mirror(source: Self::Source) -> (dest: Self::Dest)
        ensures
            Self::mirrors(source, dest),
    ;
}

/// Marker for scalar types whose conversion is the identity.
pub trait Primitive: Sized {}

impl<T: Primitive> Doppleganger for T {
    type Source = T;

    type Dest = T;

    open spec fn mirrors(source: T, dest: T) -> bool {
        dest == source
    }

    fn mirror(source: T) -> (dest: T) {
        source
    }
}

impl Primitive for String {}

impl<'a> Primitive for &'a str {}

impl Primitive for bool {}

impl Primitive for u8 {}

impl Primitive for u16 {}

impl Primitive for u32 {}

impl Primitive for u64 {}

impl Primitive for usize {}

impl Primitive for i8 {}

impl Primitive for i16 {}

impl Primitive for i32 {}

impl Primitive for i64 {}

impl Primitive for isize {}

impl<T: Doppleganger> Doppleganger for Vec<T> {
    type Source = Vec<T::Source>;

    type Dest = Vec<T::Dest>;

    open spec fn mirrors(source: Vec<T::Source>, dest: Vec<T::Dest>) -> bool {
        &&& dest@.len() == source@.len()
        &&& forall|i: int| 0 <= i < source@.len() ==> T::mirrors(#[trigger] source@[i], dest@[i])
    }

    fn mirror(source: Vec<T::Source>) -> (dest: Vec<T::Dest>) {
        let ghost orig = source@;
        let mut src = source;
        let mut dest: Vec<T::Dest> = Vec::new();
        while src.len() > 0
            invariant
                dest@.len() + src@.len() == orig.len(),
                forall|i: int| 0 <= i < dest@.len() ==> T::mirrors(#[trigger] orig[i], dest@[i]),
                forall|i: int| 0 <= i < src@.len() ==> #[trigger] src@[i] == orig[dest@.len() + i],
            decreases src@.len(),
        {
            let x = src.remove(0);
            dest.push(T::mirror(x));
        }
        dest
    }
}

impl<T: Doppleganger> Doppleganger for Option<T> {
    type Source = Option<T::Source>;

    type Dest = Option<T::Dest>;

    open spec fn mirrors(source: Option<T::Source>, dest: Option<T::Dest>) -> bool {
        match source {
            Some(s) => dest matches Some(d) && T::mirrors(s, d),
            None => dest matches None,
        }
    }

    fn mirror(source: Option<T::Source>) -> (dest: Option<T::Dest>) {
        match source {
            Some(s) => Some(T::mirror(s)),
            None => None,
        }
    }
}

impl<T: Doppleganger, E: Doppleganger> Doppleganger for Result<T, E> {
    type Source = Result<T::Source, E::Source>;

    type Dest = Result<T::Dest, E::Dest>;

    open spec fn mirrors(source: Result<T::Source, E::Source>, dest: Result<T::Dest, E::Dest>) -> bool {
        match source {
            Ok(s) => dest matches Ok(d) && T::mirrors(s, d),
            Err(s) => dest matches Err(d) && E::mirrors(s, d),
        }
    }

    fn mirror(source: Result<T::Source, E::Source>) -> (dest: Result<T::Dest, E::Dest>) {
        match source {
            Ok(s) => Ok(T::mirror(s)),
            Err(s) => Err(E::mirror(s)),
        }
    }
}

/// Container-recursion law: converting a sequence converts it end to end,
/// preserving order and length; element `i` of the destination is the
/// conversion of element `i` of the source.
pub proof fn lemma_sequence_mirror_elementwise<T: Doppleganger>(
    source: Vec<T::Source>,
    dest: Vec<T::Dest>,
)
    requires
        <Vec<T> as Doppleganger>::mirrors(source, dest),
    ensures
        dest@.len() == source@.len(),
        forall|i: int| 0 <= i < source@.len() ==> T::mirrors(#[trigger] source@[i], dest@[i]),
{
}

/// Primitive conversions are round-trip-preserving: converting a primitive
/// value and converting the result back restores the value.
pub proof fn lemma_primitive_round_trip<T: Primitive>(a: T, b: T, c: T)
    requires
        <T as Doppleganger>::mirrors(a, b),
        <T as Doppleganger>::mirrors(b, c),
    ensures
        c == a,
{
}

/// An ordered key-value mapping container: entries are kept in declaration
/// order. Well-formedness asks the keys to be pairwise distinct; the
/// conversion maps entries in place and leaves key distinctness on the
/// destination side to the consumer, as the conversion of the keys need not
/// be injective.
#[derive(Debug)]
pub struct KeyMap<K, V> {
    pub entries: Vec<(K, V)>,
}

impl<K, V> KeyMap<K, V> {
    /// Pairwise distinct keys.
    pub open spec fn wf(self) -> bool {
        forall|i: int, j: int| 0 <= i < j < self.entries@.len() ==> (#[trigger] self.entries@[i]).0
            != (#[trigger] self.entries@[j]).0
    }

    pub fn new() -> (r: KeyMap<K, V>)
        ensures
            r.entries@ == Seq::<(K, V)>::empty(),
            r.wf(),
    {
        KeyMap { entries: Vec::new() }
    }

    pub fn len(&self) -> (r: usize)
        ensures
            r == self.entries@.len(),
    {
        self.entries.len()
    }
}

impl<K: Doppleganger, V: Doppleganger> Doppleganger for KeyMap<K, V> {
    type Source = KeyMap<K::Source, V::Source>;

    type Dest = KeyMap<K::Dest, V::Dest>;

    open spec fn mirrors(
        source: KeyMap<K::Source, V::Source>,
        dest: KeyMap<K::Dest, V::Dest>,
    ) -> bool {
        &&& dest.entries@.len() == source.entries@.len()
        &&& forall|i: int| 0 <= i < source.entries@.len() ==> {
            &&& K::mirrors((#[trigger] source.entries@[i]).0, dest.entries@[i].0)
            &&& V::mirrors(source.entries@[i].1, dest.entries@[i].1)
        }
    }

    fn mirror(source: KeyMap<K::Source, V::Source>) -> (dest: KeyMap<K::Dest, V::Dest>) {
        let ghost orig = source.entries@;
        let mut src = source.entries;
        let mut entries: Vec<(K::Dest, V::Dest)> = Vec::new();
        while src.len() > 0
            invariant
                entries@.len() + src@.len() == orig.len(),
                forall|i: int| 0 <= i < entries@.len() ==> {
                    &&& K::mirrors((#[trigger] orig[i]).0, entries@[i].0)
                    &&& V::mirrors(orig[i].1, entries@[i].1)
                },
                forall|i: int| 0 <= i < src@.len() ==> #[trigger] src@[i] == orig[
                    entries@.len() + i
                ],
            decreases src@.len(),
        {
            let (k, v) = src.remove(0);
            entries.push((K::mirror(k), V::mirror(v)));
        }
        KeyMap { entries }
    }
}

} // verus!
