use vstd::prelude::*;

verus! {

/// The kind of a table entry, as the storage engine reports it with each key.
#[derive(Clone, Copy, Debug, PartialEq, Eq, Structural)]
pub enum EntryType {
    Put,
    Delete,
    SingleDelete,
    Merge,
    Other,
}

/// The engine's integer code for each kind of entry.
pub open spec fn code_of(t: EntryType) -> i32 {
    match t {
        EntryType::Put => 0,
        EntryType::Delete => 1,
        EntryType::SingleDelete => 2,
        EntryType::Merge => 3,
        EntryType::Other => 4,
    }
}

/// The kind that an integer code stands for, if it stands for one.
pub open spec fn kind_of_code(code: i32) -> Option<EntryType> {
    if code == 0 {
        Some(EntryType::Put)
    } else if code == 1 {
        Some(EntryType::Delete)
    } else if code == 2 {
        Some(EntryType::SingleDelete)
    } else if code == 3 {
        Some(EntryType::Merge)
    } else if code == 4 {
        Some(EntryType::Other)
    } else {
        None
    }
}

impl EntryType {
    /// The engine's integer code for this kind.
    pub fn code(self) -> (r: i32)
        ensures
            r == code_of(self),
    {
        match self {
            EntryType::Put => 0,
            EntryType::Delete => 1,
            EntryType::SingleDelete => 2,
            EntryType::Merge => 3,
            EntryType::Other => 4,
        }
    }

    /// Reads an integer code back into a kind; `None` for a code that no
    /// kind has.
    pub fn from_code(code: i32) -> (r: Option<EntryType>)
        ensures
            r == kind_of_code(code),
            r matches Some(t) ==> code_of(t) == code,
            r is None ==> forall|t: EntryType| code_of(t) != code,
    {
        if code == 0 {
            Some(EntryType::Put)
        } else if code == 1 {
            Some(EntryType::Delete)
        } else if code == 2 {
            Some(EntryType::SingleDelete)
        } else if code == 3 {
            Some(EntryType::Merge)
        } else if code == 4 {
            Some(EntryType::Other)
        } else {
            None
        }
    }
}

/// Every kind survives the trip through its code.
pub proof fn lemma_code_round_trip(t: EntryType)
    ensures
        kind_of_code(code_of(t)) == Some(t),
{
}

} // verus!
