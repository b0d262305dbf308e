//! Choosing the view of a resolved entry: the listing of a directory, or the
//! single item that a file is.

use crate::entry::{
    listing_of, resolution_view, views, ChildProbe, EntryView, FileSystemEntry, ResolveError,
};
use either::Either;
use vstd::prelude::*;

verus! {

/// `either::Either`, with its two variants as they are declared.
#[verifier::external_type_specification]
#[verifier::reject_recursive_types(L)]
#[verifier::reject_recursive_types(R)]
pub struct ExEither<L, R>(Either<L, R>);

/// What a request shows: on the left the children of a directory, in
/// enumeration order, on the right a single file.
pub type ListingResult = Either<Vec<FileSystemEntry>, FileSystemEntry>;

/// The mathematical value of a [`ListingResult`].
pub type ListingView = Either<Seq<EntryView>, EntryView>;

/// The view of a listing result.
pub open spec fn result_view(result: ListingResult) -> ListingView {
    match result {
        Either::Left(entries) => Either::Left(views(entries@)),
        Either::Right(entry) => Either::Right(entry@),
    }
}

/// The view selected for a resolution and the enumeration made for it.
///
/// A failed resolution selects nothing, whatever the reason. A file is its own
/// view. A directory is viewed through its listing, and selects nothing where
/// it could not be enumerated.
pub open spec fn selected(
    resolution: Result<EntryView, ResolveError>,
    enumeration: Option<Vec<Option<ChildProbe>>>,
) -> Option<ListingView> {
    match resolution {
        Err(_) => None,
        Ok(entry) => if !entry.is_dir {
            Some(Either::Right(entry))
        } else {
            match listing_of(entry, enumeration) {
                Some(children) => Some(Either::Left(children)),
                None => None,
            }
        },
    }
}

/// Selects the view of a resolution.
///
/// `enumeration` is what enumerating the entry gave; it is read for a
/// directory only.
pub fn list_files(
    resolution: Result<FileSystemEntry, ResolveError>,
    enumeration: &Option<Vec<Option<ChildProbe>>>,
) -> (r: Option<ListingResult>)
    ensures
        match r {
            Some(result) => selected(resolution_view(resolution), *enumeration) == Some(
                result_view(result),
            ),
            None => selected(resolution_view(resolution), *enumeration) is None,
        },
{
    let fs_entry = match resolution {
        Ok(entry) => entry,
        Err(_) => {
            return None;
        },
    };
    if !fs_entry.is_dir {
        return Some(Either::Right(fs_entry));
    }
    match fs_entry.list_files(enumeration) {
        Some(entries) => Some(Either::Left(entries)),
        None => None,
    }
}

} // verus!
