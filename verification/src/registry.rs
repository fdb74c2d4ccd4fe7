//! The store of vault records, keyed by owner identity.
//!
//! Exactly one vault exists per owner: creation is a compare-and-insert
//! that refuses a second record for the same owner rather than overwriting
//! the first.

use vstd::prelude::*;

use crate::state::{AccountId, VaultAccount, VaultError};

verus! {

/// All vault records, one per owner.
pub struct VaultRegistry {
    pub vaults: Vec<VaultAccount>,
}

impl VaultRegistry {
    /// The registry's one invariant: no two records share an owner.
    pub open spec fn wf(&self) -> bool {
        forall|i: int, j: int|
            0 <= i < j < self.vaults@.len() ==> self.vaults@[i].owner != self.vaults@[j].owner
    }

    /// Whether a record for `owner` exists.
    pub open spec fn contains_owner(&self, owner: AccountId) -> bool {
        exists|i: int| 0 <= i < self.vaults@.len() && self.vaults@[i].owner == owner
    }

    /// An empty registry.
    pub fn new() -> (r: Self)
        ensures
            r.wf(),
            r.vaults@.len() == 0,
    {
        VaultRegistry { vaults: Vec::new() }
    }

    /// The position of `owner`'s record, if one exists.
    pub fn find_vault(&self, owner: &AccountId) -> (r: Option<usize>)
        ensures
            match r {
                Some(i) => i < self.vaults@.len() && self.vaults@[i as int].owner == *owner,
                None => !self.contains_owner(*owner),
            },
    {
        let mut i: usize = 0;
        while i < self.vaults.len()
            invariant
                0 <= i <= self.vaults@.len(),
                forall|j: int| 0 <= j < i ==> self.vaults@[j].owner != *owner,
            decreases self.vaults@.len() - i,
        {
            if crate::state::account_id_eq(&self.vaults[i].owner, owner) {
                return Some(i);
            }
            i += 1;
        }
        None
    }

    /// A borrow of `owner`'s record, if one exists.
    pub fn get_vault(&self, owner: &AccountId) -> (r: Option<&VaultAccount>)
        ensures
            match r {
                Some(v) => self.contains_owner(*owner) && v.owner == *owner,
                None => !self.contains_owner(*owner),
            },
    {
        match self.find_vault(owner) {
            Some(i) => Some(&self.vaults[i]),
            None => None,
        }
    }

    /// Creates a vault for `owner`: compare-and-insert, never an upsert. A
    /// second creation for the same owner is refused as `AlreadyExists` and
    /// changes nothing.
    pub fn create_vault(&mut self, owner: AccountId, now: i64, bump: u8) -> (r: Result<
        (),
        VaultError,
    >)
        requires
            old(self).wf(),
        ensures
            final(self).wf(),
            old(self).contains_owner(owner) ==> r == Err::<(), VaultError>(
                VaultError::AlreadyExists,
            ) && *final(self) == *old(self),
            !old(self).contains_owner(owner) ==> r is Ok && final(self).vaults@ == old(
                self,
            ).vaults@.push(crate::ops::initialize_vault_record(owner, now, bump)),
            final(self).contains_owner(owner),
    {
        match self.find_vault(&owner) {
            Some(_) => Err(VaultError::AlreadyExists),
            None => {
                let v = crate::ops::initialize_vault(owner, now, bump);
                self.vaults.push(v);
                proof {
                    let n = self.vaults@.len() - 1;
                    assert(self.vaults@[n].owner == owner);
                }
                Ok(())
            },
        }
    }
}

} // verus!
