use vstd::prelude::*;

use crate::balances::AccountId;
use crate::error::Error;

verus! {

/// Whether two accounts are the same.
pub fn same_account(a: &AccountId, b: &AccountId) -> (r: bool)
    ensures
        r == (a@ == b@),
{
    let mut i: usize = 0;
    while i < 32
        invariant
            i <= 32,
            forall|j: int| 0 <= j < i ==> a@[j] == b@[j],
        decreases 32 - i,
    {
        if a[i] != b[i] {
            return false;
        }
        i = i + 1;
    }
    proof {
        assert(a@ =~= b@);
    }
    true
}

/// The administrator check: only the configured account may perform privileged operations.
pub struct AccessControl {
    sudo: AccountId,
}

impl AccessControl {
    /// The administrator's account.
    pub closed spec fn sudo_view(&self) -> Seq<u8> {
        self.sudo@
    }

    pub fn from_account(sudo: AccountId) -> (r: Self)
        ensures
            r.sudo_view() == sudo@,
    {
        AccessControl { sudo }
    }

    /// Succeeds exactly when `who` is the administrator; fails with `BadOrigin` otherwise.
    pub fn ensure_root(&self, who: AccountId) -> (r: Result<(), Error>)
        ensures
            r is Ok <==> who@ == self.sudo_view(),
            r is Err ==> r == Err::<(), Error>(Error::BadOrigin),
    {
        if same_account(&self.sudo, &who) {
            Ok(())
        } else {
            Err(Error::BadOrigin)
        }
    }
}

} // verus!
