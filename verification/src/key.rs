//! Identifiers under which the container files what it holds, and the
//! table that hands them out.

use std::any::TypeId;
use vstd::prelude::*;

verus! {

/// Identifies one concrete type among all the types a container may hold.
///
/// Two keys are equal exactly when their raw numbers are equal, so whoever
/// hands out keys decides which types are told apart. `TypeKeys` hands out
/// one number per type, one per instantiation of a generic type.
#[derive(Clone, Copy, Debug, PartialEq, Eq, Structural, Hash, PartialOrd, Ord)]
pub struct TypeKey {
    pub raw: u64,
}

impl TypeKey {
    /// The key with the given raw number.
    pub fn new(raw: u64) -> (key: TypeKey)
        ensures
            key.raw == raw,
    {
        TypeKey { raw }
    }

    /// The raw number of this key.
    pub fn raw(&self) -> (raw: u64)
        ensures
            raw == self.raw,
    {
        self.raw
    }
}

/// The identifier that the language gives to a type, `std::any::TypeId`.
/// Nothing is known of what is inside one.
#[verifier::external_type_specification]
#[verifier::external_body]
pub struct ExTypeId(TypeId);

/// Compares two type identifiers with `==` of `std::any::TypeId`, which
/// tells whether they are the same identifier.
#[verifier::external_body]
fn same_type(left: &TypeId, right: &TypeId) -> (same: bool)
    ensures
        same == (*left == *right),
{
    left == right
}

/// The keys handed out so far where `known` lists the types that have one:
/// a type's key is its place in the list.
pub open spec fn key_in(known: Seq<TypeId>, type_id: TypeId) -> TypeKey {
    TypeKey { raw: known.index_of(type_id) as u64 }
}

/// The list of types with a key after `type_id` was asked for: a type that
/// is new to the list is added at its end.
pub open spec fn with_type(known: Seq<TypeId>, type_id: TypeId) -> Seq<TypeId> {
    if known.contains(type_id) {
        known
    } else {
        known.push(type_id)
    }
}

/// Hands out type keys: each type gets the next free number the first time
/// it is asked for, and the same number ever after. No type is listed
/// twice. A request looks through the list from its start.
pub struct TypeKeys {
    known: Vec<TypeId>,
}

impl TypeKeys {
    /// The types that have a key, in the order in which they got it.
    pub closed spec fn view(&self) -> Seq<TypeId> {
        self.known@
    }

    #[verifier::type_invariant]
    spec fn no_type_twice(&self) -> bool {
        self.known@.no_duplicates()
    }

    /// A table in which no type has a key yet.
    pub fn new() -> (keys: Self)
        ensures
            keys@ == Seq::<TypeId>::empty(),
    {
        TypeKeys { known: Vec::new() }
    }

    /// How many types have a key.
    pub fn len(&self) -> (count: usize)
        ensures
            count == self@.len(),
            self@.no_duplicates(),
    {
        proof {
            use_type_invariant(self);
        }
        self.known.len()
    }

    /// The key of `type_id`, if the type has one.
    pub fn lookup(&self, type_id: &TypeId) -> (found: Option<TypeKey>)
        ensures
            self@.no_duplicates(),
            found == (if self@.contains(*type_id) {
                Some(key_in(self@, *type_id))
            } else {
                None
            }),
            found matches Some(key) ==> key.raw < self@.len() && self@[key.raw as int] == *type_id,
    {
        proof {
            use_type_invariant(self);
        }
        let mut place: usize = 0;
        while place < self.known.len()
            invariant
                place <= self.known@.len(),
                self.known@.no_duplicates(),
                forall|earlier: int| 0 <= earlier < place ==> self.known@[earlier] != *type_id,
            decreases self.known@.len() - place,
        {
            if same_type(&self.known[place], type_id) {
                proof {
                    assert(self.known@[place as int] == *type_id);
                    assert(self.known@.contains(*type_id));
                    assert(self.known@.index_of(*type_id) == place);
                }
                return Some(TypeKey { raw: place as u64 });
            }
            place += 1;
        }
        None
    }

    /// The key of `type_id`. A type that has none yet gets the next free
    /// number; no key that was handed out before changes.
    pub fn key_of(&mut self, type_id: TypeId) -> (key: TypeKey)
        ensures
            final(self)@ == with_type(old(self)@, type_id),
            final(self)@.no_duplicates(),
            key == key_in(final(self)@, type_id),
            key.raw < final(self)@.len(),
            final(self)@[key.raw as int] == type_id,
    {
        proof {
            use_type_invariant(&*self);
        }
        match self.lookup(&type_id) {
            Some(key) => key,
            None => {
                let mut known: Vec<TypeId> = Vec::new();
                core::mem::swap(&mut self.known, &mut known);
                let place: usize = known.len();
                known.push(type_id);
                proof {
                    let known = known@;
                    assert(known[place as int] == type_id);
                    assert(known.contains(type_id));
                    assert forall|i: int, j: int|
                        0 <= i < known.len() && 0 <= j < known.len() && i != j implies known[i]
                        != known[j] by {
                        if i < place && j < place {
                            assert(old(self).known@[i] != old(self).known@[j]);
                        } else if i < place {
                            assert(old(self).known@.contains(old(self).known@[i]));
                        } else {
                            assert(old(self).known@.contains(old(self).known@[j]));
                        }
                    }
                    assert(known.index_of(type_id) == place);
                }
                self.known = known;
                TypeKey { raw: place as u64 }
            },
        }
    }
}

} // verus!
