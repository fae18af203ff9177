use vstd::prelude::*;

mod account;
mod laws;
mod passport;

pub use account::AccountId;
pub use passport::{full_name, metadata_view, Error, PassportModel, UserMetadata, UserPassport};
pub use laws::{
    inactive_stays_inactive, metadata_only_to_owner, non_owner_cannot_deactivate,
    non_owner_sees_surname_only, owner_deactivate_twice, owner_deactivates, owner_sees_full_name,
};
