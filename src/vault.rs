//! A single-party lamport vault: a user deposits into and withdraws from an
//! account derived from the user's own identity, keeping a minimum reserve in
//! it, and closes it to take back what is left.
use vstd::prelude::*;
use crate::custody::{Role, canonical, canonical_unique, derivable, derive_address, derives, verify_address};

verus! {

/// Why a vault operation was refused. A refusal changes no balance.
#[derive(Clone, Copy, Debug, PartialEq, Eq, Structural)]
pub enum Errors {
    /// The paying account lacks the lamports.
    InsufficientLamports,
    /// The withdrawal would leave the vault under its minimum reserve.
    BelowReserve,
    /// The receiving balance would exceed `u64::MAX`.
    Overflow,
    /// A stored derivation proof does not reproduce the expected address.
    InvalidDerivation,
}

/// The vault's durable record: the derivation proofs of the state record and
/// of the vault account.
#[derive(Clone, Copy, Debug)]
pub struct VaultState {
    pub state_bump: u8,
    pub vault_bump: u8,
}

/// A user's vault: its state record's address and the lamports that record
/// holds as its storage reserve, the vault account's address, and the
/// lamports the vault holds.
#[derive(Clone, Copy, Debug)]
pub struct Vault {
    pub user: [u8; 32],
    pub state_address: [u8; 32],
    pub state: VaultState,
    pub state_lamports: u64,
    pub address: [u8; 32],
    pub lamports: u64,
}

/// The state record is derived from the user, and the vault account from
/// the state record's address.
pub open spec fn vault_valid(program: Seq<u8>, v: Vault) -> bool {
    &&& derives(Role::VaultState, v.user@, v.state.state_bump, program, v.state_address@)
    &&& derives(Role::Vault, v.state_address@, v.state.vault_bump, program, v.address@)
}

/// The user's vault can be opened: the state record has an address, and the
/// vault account has one under the state record's canonical address.
pub open spec fn vault_derivable(program: Seq<u8>, user: Seq<u8>) -> bool {
    &&& derivable(Role::VaultState, user, program)
    &&& forall|s: Seq<u8>, b: u8| #[trigger] canonical(Role::VaultState, user, b, program, s) ==> derivable(Role::Vault, s, program)
}

/// Why moving `amount` lamports from a balance `from` to a balance `to` is
/// refused; `None` where it succeeds.
pub open spec fn lamport_error(from: u64, to: u64, amount: u64) -> Option<Errors> {
    if from < amount {
        Some(Errors::InsufficientLamports)
    } else if to + amount > u64::MAX {
        Some(Errors::Overflow)
    } else {
        None
    }
}

/// Moves `amount` lamports from `from` to `to`, or changes nothing.
pub fn transfer_lamports(from: &mut u64, to: &mut u64, amount: u64) -> (r: Result<(), Errors>)
    ensures
        match lamport_error(*old(from), *old(to), amount) {
            Some(e) => r == Err::<(), Errors>(e) && *final(from) == *old(from) && *final(to) == *old(to),
            None => r is Ok && *final(from) == *old(from) - amount && *final(to) == *old(to) + amount,
        },
{
    if *from < amount {
        return Err(Errors::InsufficientLamports);
    }
    if *to > u64::MAX - amount {
        return Err(Errors::Overflow);
    }
    *from = *from - amount;
    *to = *to + amount;
    Ok(())
}

impl Vault {
    /// Opens the vault of `user`: derives the state record and the vault
    /// account, pays `state_reserve` into the state record and funds the vault
    /// with the minimum reserve `reserve`, both from `user_lamports`. The result
    /// is `InvalidDerivation` exactly where an account has no address.
    pub fn initialize(program: &[u8; 32], user: &[u8; 32], user_lamports: &mut u64, reserve: u64, state_reserve: u64) -> (r: Result<Vault, Errors>)
        ensures
            !vault_derivable(program@, user@) ==> r == Err::<Vault, Errors>(Errors::InvalidDerivation),
            vault_derivable(program@, user@) ==> if *old(user_lamports) < reserve + state_reserve {
                r == Err::<Vault, Errors>(Errors::InsufficientLamports)
            } else {
                r is Ok
            },
            r is Err ==> *final(user_lamports) == *old(user_lamports),
            r matches Ok(v) ==> vault_valid(program@, v) && v.user == *user && v.lamports == reserve
                && v.state_lamports == state_reserve
                && *final(user_lamports) == *old(user_lamports) - reserve - state_reserve,
    {
        let (state_address, state_bump) = match derive_address(Role::VaultState, user, program) {
            Some(x) => x,
            None => return Err(Errors::InvalidDerivation),
        };
        let (address, vault_bump) = match derive_address(Role::Vault, &state_address, program) {
            Some(x) => x,
            None => return Err(Errors::InvalidDerivation),
        };
        proof {
            assert forall|s: Seq<u8>, b: u8| #[trigger] canonical(Role::VaultState, user@, b, program@, s)
                implies derivable(Role::Vault, s, program@) by {
                canonical_unique(Role::VaultState, user@, program@, b, s, state_bump, state_address@);
            }
        }
        if *user_lamports < state_reserve || *user_lamports - state_reserve < reserve {
            return Err(Errors::InsufficientLamports);
        }
        *user_lamports = *user_lamports - state_reserve - reserve;
        Ok(Vault {
            user: *user,
            state_address,
            state: VaultState { state_bump, vault_bump },
            state_lamports: state_reserve,
            address,
            lamports: reserve,
        })
    }

    /// Whether the stored proofs reproduce the vault's addresses.
    pub fn is_valid(&self, program: &[u8; 32]) -> (r: bool)
        ensures
            r == vault_valid(program@, *self),
    {
        verify_address(Role::VaultState, &self.user, self.state.state_bump, program, &self.state_address)
            && verify_address(Role::Vault, &self.state_address, self.state.vault_bump, program, &self.address)
    }

    /// The user pays `amount` lamports into the vault.
    pub fn deposit(&mut self, program: &[u8; 32], user_lamports: &mut u64, amount: u64) -> (r: Result<(), Errors>)
        ensures
            !vault_valid(program@, *old(self)) ==> r == Err::<(), Errors>(Errors::InvalidDerivation),
            vault_valid(program@, *old(self)) ==> match lamport_error(*old(user_lamports), old(self).lamports, amount) {
                Some(e) => r == Err::<(), Errors>(e),
                None => r is Ok,
            },
            r is Err ==> *final(self) == *old(self) && *final(user_lamports) == *old(user_lamports),
            r is Ok ==> *final(self) == (Vault { lamports: (old(self).lamports + amount) as u64, ..*old(self) })
                && *final(user_lamports) == *old(user_lamports) - amount,
    {
        if !self.is_valid(program) {
            return Err(Errors::InvalidDerivation);
        }
        transfer_lamports(user_lamports, &mut self.lamports, amount)
    }

    /// The user takes `amount` lamports out of the vault, which must keep at
    /// least `reserve` lamports afterwards.
    pub fn withdraw(&mut self, program: &[u8; 32], user_lamports: &mut u64, amount: u64, reserve: u64) -> (r: Result<(), Errors>)
        ensures
            !vault_valid(program@, *old(self)) ==> r == Err::<(), Errors>(Errors::InvalidDerivation),
            vault_valid(program@, *old(self)) ==> match lamport_error(old(self).lamports, *old(user_lamports), amount) {
                Some(e) => r == Err::<(), Errors>(e),
                None => if old(self).lamports - amount < reserve {
                    r == Err::<(), Errors>(Errors::BelowReserve)
                } else {
                    r is Ok
                },
            },
            r is Err ==> *final(self) == *old(self) && *final(user_lamports) == *old(user_lamports),
            r is Ok ==> *final(self) == (Vault { lamports: (old(self).lamports - amount) as u64, ..*old(self) })
                && *final(user_lamports) == *old(user_lamports) + amount
                && final(self).lamports >= reserve,
    {
        if !self.is_valid(program) {
            return Err(Errors::InvalidDerivation);
        }
        if self.lamports < amount {
            return Err(Errors::InsufficientLamports);
        }
        if *user_lamports > u64::MAX - amount {
            return Err(Errors::Overflow);
        }
        if self.lamports - amount < reserve {
            return Err(Errors::BelowReserve);
        }
        transfer_lamports(&mut self.lamports, user_lamports, amount)
    }

    /// Closes the vault and its state record: what the vault holds and the
    /// state record's reserve go back to the user. Returns what was handed back.
    pub fn close(self, program: &[u8; 32], user_lamports: &mut u64) -> (r: Result<u64, Errors>)
        ensures
            !vault_valid(program@, self) ==> r == Err::<u64, Errors>(Errors::InvalidDerivation),
            vault_valid(program@, self) ==> if *old(user_lamports) + self.lamports + self.state_lamports > u64::MAX {
                r == Err::<u64, Errors>(Errors::Overflow)
            } else {
                r == Ok::<u64, Errors>((self.lamports + self.state_lamports) as u64)
            },
            r is Err ==> *final(user_lamports) == *old(user_lamports),
            r is Ok ==> *final(user_lamports) == *old(user_lamports) + self.lamports + self.state_lamports,
    {
        if !self.is_valid(program) {
            return Err(Errors::InvalidDerivation);
        }
        let start = *user_lamports;
        if self.lamports > u64::MAX - start {
            return Err(Errors::Overflow);
        }
        let with_vault = start + self.lamports;
        if self.state_lamports > u64::MAX - with_vault {
            return Err(Errors::Overflow);
        }
        *user_lamports = with_vault + self.state_lamports;
        Ok(*user_lamports - start)
    }
}

} // verus!
