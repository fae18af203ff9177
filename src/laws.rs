use vstd::prelude::*;

use crate::passport::{full_name, Error, PassportModel};

verus! {

/// Anyone but the owner sees the surname, exactly, and nothing of the given name.
pub proof fn non_owner_sees_surname_only(p: PassportModel, caller: Seq<u8>)
    requires
        caller != p.owner,
    ensures
        p.display_name(caller) == p.surname,
{
}

/// The owner sees the surname, one space, and the given name.
pub proof fn owner_sees_full_name(p: PassportModel)
    ensures
        p.display_name(p.owner) == full_name(p.surname, p.name),
        p.display_name(p.owner) == p.surname + seq![' '] + p.name,
{
}

/// A deactivation request by anyone but the owner is refused and changes
/// nothing: in particular the active flag keeps its value.
pub proof fn non_owner_cannot_deactivate(p: PassportModel, caller: Seq<u8>)
    requires
        caller != p.owner,
    ensures
        p.deactivate_result(caller) == Err::<(), Error>(Error::CallerIsNotAnOwner),
        p.after_deactivate(caller) == p,
        p.after_deactivate(caller).active == p.active,
{
}

/// A deactivation request by the owner succeeds and leaves the record inactive,
/// with every other field as it was.
pub proof fn owner_deactivates(p: PassportModel)
    ensures
        p.deactivate_result(p.owner) == Ok::<(), Error>(()),
        !p.after_deactivate(p.owner).active,
        p.after_deactivate(p.owner) == (PassportModel { active: false, ..p }),
{
}

/// Deactivation is one-way: once inactive, no request by any caller makes the
/// record active again.
pub proof fn inactive_stays_inactive(p: PassportModel, caller: Seq<u8>)
    requires
        !p.active,
    ensures
        !p.after_deactivate(caller).active,
{
}

/// Metadata goes to the owner verbatim and to no one else.
pub proof fn metadata_only_to_owner(p: PassportModel, caller: Seq<u8>)
    ensures
        caller == p.owner ==> p.metadata_result(caller) == Ok::<Seq<char>, Error>(p.metadata),
        caller != p.owner ==> p.metadata_result(caller) == Err::<Seq<char>, Error>(
            Error::CallerIsNotAnOwner,
        ),
{
}

/// Deactivating twice as the owner succeeds both times and ends in the same
/// inactive record as deactivating once.
pub proof fn owner_deactivate_twice(p: PassportModel)
    ensures
        p.deactivate_result(p.owner) == Ok::<(), Error>(()),
        p.after_deactivate(p.owner).deactivate_result(p.owner) == Ok::<(), Error>(()),
        p.after_deactivate(p.owner).after_deactivate(p.owner) == p.after_deactivate(p.owner),
        !p.after_deactivate(p.owner).after_deactivate(p.owner).active,
{
}

} // verus!
