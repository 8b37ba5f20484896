use vstd::prelude::*;

use crate::error::StoreError;

verus! {

/// What a directory entry is, as far as the store cares.
#[derive(Debug, Clone, Copy, PartialEq, Eq, Structural)]
pub enum EntryKind {
    Dir,
    File,
    Other,
}

/// What an enumeration yields for one directory entry, when it looks for
/// entries of kind `wanted`: nothing for an entry of another kind, its name
/// when that name is text, and an error otherwise.
pub open spec fn entry_outcome(kind: EntryKind, wanted: EntryKind, name: Option<String>) -> Option<
    Result<Seq<char>, StoreError>,
> {
    if kind != wanted {
        None
    } else {
        match name {
            Some(n) => Some(Ok(n@)),
            None => Some(Err(StoreError::InvalidName)),
        }
    }
}

/// Decides what one directory entry contributes to an enumeration of entries
/// of kind `wanted`; `name` is `None` where the name is not valid UTF-8.
pub fn select_entry(kind: EntryKind, wanted: EntryKind, name: Option<String>) -> (r:
    Option<Result<String, StoreError>>)
    ensures
        r matches Some(Ok(s)) ==> entry_outcome(kind, wanted, name) == Some(
            Ok::<Seq<char>, StoreError>(s@),
        ),
        r matches Some(Err(e)) ==> entry_outcome(kind, wanted, name) == Some(
            Err::<Seq<char>, StoreError>(e),
        ),
        r is None ==> entry_outcome(kind, wanted, name) is None,
{
    if kind != wanted {
        None
    } else {
        match name {
            Some(n) => Some(Ok(n)),
            None => Some(Err(StoreError::InvalidName)),
        }
    }
}

/// One step of draining an enumeration into a column: a name is appended in
/// the order it came, and the first error ends the fold with that error.
pub fn fold_name<E>(names: Vec<String>, item: Result<String, E>) -> (r: Result<Vec<String>, E>)
    ensures
        item matches Ok(s) ==> r matches Ok(v) && v@ == names@.push(s),
        item matches Err(e) ==> r == Err::<Vec<String>, E>(e),
{
    match item {
        Ok(s) => {
            let mut names = names;
            names.push(s);
            Ok(names)
        },
        Err(e) => Err(e),
    }
}

} // verus!
