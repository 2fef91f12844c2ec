use vstd::prelude::*;

use crate::pointer::schema_path_prefix;

verus! {

/// A value that is either an inline item or a textual pointer to a
/// definition elsewhere in the same document.
#[derive(Debug, Clone, PartialEq)]
pub enum ReferenceOr<T> {
    Reference { reference: String },
    Item(T),
}

impl<T> ReferenceOr<T> {
    /// Wraps a raw pointer string.
    pub fn ref_(r: &str) -> (res: Self)
        ensures
            res matches ReferenceOr::Reference { reference } && reference@ == r@,
    {
        ReferenceOr::Reference { reference: r.to_owned() }
    }

    /// Builds the canonical schema pointer for a schema name.
    pub fn schema_ref(r: &str) -> (res: Self)
        ensures
            res matches ReferenceOr::Reference { reference } && reference@ == schema_path_prefix()
                + r@,
    {
        proof {
            reveal_strlit("#/components/schemas/");
        }
        let mut out = "#/components/schemas/".to_owned();
        out.append(r);
        proof {
            assert(out@ =~= schema_path_prefix() + r@);
        }
        ReferenceOr::Reference { reference: out }
    }

    /// Wraps an inline item.
    pub fn item(item: T) -> (r: Self)
        ensures
            r == ReferenceOr::Item(item),
    {
        ReferenceOr::Item(item)
    }

    /// Returns the contained item, if this holds one; a pointer yields nothing.
    pub fn into_item(self) -> (r: Option<T>)
        ensures
            r == (match self {
                ReferenceOr::Reference { .. } => None::<T>,
                ReferenceOr::Item(i) => Some(i),
            }),
    {
        match self {
            ReferenceOr::Reference { .. } => None,
            ReferenceOr::Item(i) => Some(i),
        }
    }

    /// Returns a borrow of the contained item, if this holds one.
    pub fn as_item(&self) -> (r: Option<&T>)
        ensures
            match self {
                ReferenceOr::Reference { .. } => r is None,
                ReferenceOr::Item(i) => r matches Some(p) && *p == i,
            },
    {
        match self {
            ReferenceOr::Reference { .. } => None,
            ReferenceOr::Item(i) => Some(i),
        }
    }

    /// Returns the raw pointer text, if this holds a pointer.
    pub fn as_ref_str(&self) -> (r: Option<&str>)
        ensures
            match self {
                ReferenceOr::Reference { reference } => r matches Some(s) && s@ == reference@,
                ReferenceOr::Item(_) => r is None,
            },
    {
        match self {
            ReferenceOr::Reference { reference } => Some(reference.as_str()),
            ReferenceOr::Item(_) => None,
        }
    }

    /// Moves the item behind a heap indirection, keeping the variant.
    pub fn boxed(self) -> (r: ReferenceOr<Box<T>>)
        ensures
            match self {
                ReferenceOr::Reference { reference } => r == (ReferenceOr::<Box<T>>::Reference {
                    reference,
                }),
                ReferenceOr::Item(i) => r matches ReferenceOr::Item(b) && *b == i,
            },
    {
        match self {
            ReferenceOr::Reference { reference } => ReferenceOr::Reference { reference },
            ReferenceOr::Item(i) => ReferenceOr::Item(Box::new(i)),
        }
    }

    /// Wraps an inline item directly behind a heap indirection.
    pub fn boxed_item(item: T) -> (r: ReferenceOr<Box<T>>)
        ensures
            r matches ReferenceOr::Item(b) && *b == item,
    {
        ReferenceOr::Item(Box::new(item))
    }

    /// Returns a mutable borrow of the contained item, if this holds one.
    pub fn as_mut(&mut self) -> (r: Option<&mut T>)
        ensures
            match *old(self) {
                ReferenceOr::Reference { .. } => r is None && *final(self) == *old(self),
                ReferenceOr::Item(i) => r matches Some(p) && mut_ref_current(p) == i
                    && *final(self) == ReferenceOr::Item(mut_ref_future(p)),
            },
    {
        match self {
            ReferenceOr::Reference { .. } => None,
            ReferenceOr::Item(i) => Some(i),
        }
    }
}

impl<T: 'static> ReferenceOr<T> {
    /// Borrowing projection: keeps the variant, borrowing the item.
    pub fn as_ref(&self) -> (r: ReferenceOr<&T>)
        ensures
            match self {
                ReferenceOr::Reference { reference } => (r matches ReferenceOr::Reference {
                    reference: r2,
                } && r2 == reference),
                ReferenceOr::Item(i) => r matches ReferenceOr::Item(p) && *p == i,
            },
    {
        match self {
            ReferenceOr::Reference { reference } => ReferenceOr::Reference {
                reference: reference.clone(),
            },
            ReferenceOr::Item(i) => ReferenceOr::Item(i),
        }
    }
}

} // verus!

verus! {

impl<T: Default> Default for ReferenceOr<T> {
    /// The default is an inline item holding the default of its type.
    fn default() -> (r: Self)
        ensures
            r matches ReferenceOr::Item(t) && T::default.ensures((), t),
    {
        ReferenceOr::Item(T::default())
    }
}

} // verus!
