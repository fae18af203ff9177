use vstd::prelude::*;
use vstd::string::StringExecFns;

use crate::account::AccountId;

verus! {

/// The one way a privileged operation can be refused.
#[derive(Clone, Copy, Debug, PartialEq, Eq, Structural)]
pub enum Error {
    /// The caller's identity is not the recorded owner's.
    CallerIsNotAnOwner,
}

/// Private data that an owner may keep, encoded, in the metadata field.
#[derive(Clone, Copy, Debug, PartialEq, Eq, Structural)]
pub struct UserMetadata {
    /// Taxpayer identification number.
    pub inn: u64,
}

impl UserMetadata {
    pub fn new(inn: u64) -> (r: UserMetadata)
        ensures
            r.inn == inn,
    {
        UserMetadata { inn }
    }
}

/// The mathematical content of a passport record.
pub ghost struct PassportModel {
    pub surname: Seq<char>,
    pub name: Seq<char>,
    pub birthday: u64,
    pub metadata: Seq<char>,
    pub active: bool,
    pub owner: Seq<u8>,
}

/// The name joined as `"<surname> <name>"`.
pub open spec fn full_name(surname: Seq<char>, name: Seq<char>) -> Seq<char> {
    surname + seq![' '] + name
}

impl PassportModel {
    /// The single access rule: a caller is privileged exactly when its identity
    /// equals the recorded owner's.
    pub open spec fn is_owner(self, caller: Seq<u8>) -> bool {
        caller == self.owner
    }

    /// The name as shown to `caller`: the full name to the owner, the surname
    /// alone to anyone else.
    pub open spec fn display_name(self, caller: Seq<u8>) -> Seq<char> {
        if self.is_owner(caller) {
            full_name(self.surname, self.name)
        } else {
            self.surname
        }
    }

    /// The record after `caller` asks to deactivate it.
    pub open spec fn after_deactivate(self, caller: Seq<u8>) -> PassportModel {
        if self.is_owner(caller) {
            PassportModel { active: false, ..self }
        } else {
            self
        }
    }

    /// What a deactivation request by `caller` answers.
    pub open spec fn deactivate_result(self, caller: Seq<u8>) -> Result<(), Error> {
        if self.is_owner(caller) {
            Ok(())
        } else {
            Err(Error::CallerIsNotAnOwner)
        }
    }

    /// What a metadata request by `caller` answers.
    pub open spec fn metadata_result(self, caller: Seq<u8>) -> Result<Seq<char>, Error> {
        if self.is_owner(caller) {
            Ok(self.metadata)
        } else {
            Err(Error::CallerIsNotAnOwner)
        }
    }
}

/// A single person's identity record, guarded by its owner's identity.
pub struct UserPassport {
    surname: String,
    name: String,
    birthday: u64,
    metadata: String,
    active: bool,
    owner: AccountId,
}

impl View for UserPassport {
    type V = PassportModel;

    closed spec fn view(&self) -> PassportModel {
        PassportModel {
            surname: self.surname@,
            name: self.name@,
            birthday: self.birthday,
            metadata: self.metadata@,
            active: self.active,
            owner: self.owner@,
        }
    }
}

/// A metadata answer with the string seen as its characters.
pub open spec fn metadata_view(r: Result<String, Error>) -> Result<Seq<char>, Error> {
    match r {
        Ok(s) => Ok(s@),
        Err(e) => Err(e),
    }
}

impl UserPassport {
    /// Creates an active record owned by `caller`, the identity that creates it.
    pub fn new(caller: AccountId, surname: String, name: String, birthday: u64, metadata: String)
        -> (r: UserPassport)
        ensures
            r@ == (PassportModel {
                surname: surname@,
                name: name@,
                birthday,
                metadata: metadata@,
                active: true,
                owner: caller@,
            }),
    {
        UserPassport { surname, name, birthday, metadata, active: true, owner: caller }
    }

    /// The name as `caller` may see it: `"<surname> <name>"` for the owner, the
    /// surname alone for anyone else.
    pub fn get_user_name(&self, caller: &AccountId) -> (r: String)
        ensures
            r@ == self@.display_name(caller@),
    {
        if *caller == self.owner {
            let sep = " ";
            proof {
                reveal_strlit(" ");
                assert(sep@ =~= seq![' ']);
            }
            let joined = self.surname.clone().concat(sep);
            joined.concat(self.name.as_str())
        } else {
            self.surname.clone()
        }
    }

    /// Whether the record is still active. Anyone may ask.
    pub fn is_active(&self) -> (r: bool)
        ensures
            r == self@.active,
    {
        self.active
    }

    /// Deactivates the record if `caller` is its owner; anyone else is refused
    /// and the record stays as it was.
    pub fn deactivate(&mut self, caller: &AccountId) -> (r: Result<(), Error>)
        ensures
            final(self)@ == old(self)@.after_deactivate(caller@),
            r == old(self)@.deactivate_result(caller@),
    {
        if *caller == self.owner {
            self.active = false;
            Ok(())
        } else {
            Err(Error::CallerIsNotAnOwner)
        }
    }

    /// The stored metadata, verbatim, if `caller` is the owner.
    pub fn get_metadata(&self, caller: &AccountId) -> (r: Result<String, Error>)
        ensures
            metadata_view(r) == self@.metadata_result(caller@),
    {
        if *caller == self.owner {
            Ok(self.metadata.clone())
        } else {
            Err(Error::CallerIsNotAnOwner)
        }
    }
}

} // verus!
