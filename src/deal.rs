//! Deal records and the custody accounts of one escrow deal.
use vstd::prelude::*;
use crate::custody::{Role, derives, verify_address};
use crate::token::TokenAccount;

verus! {

/// The durable record of one deal, stored at the address derived from the
/// maker's identity in the `Deal` role.
#[derive(Clone, Copy, Debug)]
pub struct DealDetails {
    /// Derivation proof of the deal record's own address.
    pub deal_proof: u8,
    /// Derivation proof of the shared controller's address.
    pub controller_proof: u8,
    pub maker: [u8; 32],
    pub taker: [u8; 32],
    /// Set once both holdings have met their obligations; never reset.
    pub fulfilled: bool,
}

/// One party's obligation within a deal, stored at the address derived from
/// that party's identity in the `Obligation` role.
#[derive(Clone, Copy, Debug)]
pub struct UserEscrowDetails {
    /// The quantity that the party must deposit.
    pub owed_amount: u64,
    /// The asset type that the party deposits.
    pub asset_type: [u8; 32],
    /// Derivation proof of the party's custody holding account.
    pub holding_proof: u8,
    /// Derivation proof of this record's own address.
    pub record_proof: u8,
}

/// Everything the escrow keeps for one deal: the deal record, the two
/// obligation records (A for the maker, B for the taker) with their addresses,
/// the shared controller with the lamports it holds, the two custody holding
/// accounts, and the storage reserve of the three records. The maker paid the
/// reserves and gets them back on closing, with whatever the controller holds.
#[derive(Clone, Copy, Debug)]
pub struct Deal {
    pub address: [u8; 32],
    pub details: DealDetails,
    pub controller: [u8; 32],
    pub controller_lamports: u64,
    pub maker_details_address: [u8; 32],
    pub maker_details: UserEscrowDetails,
    pub taker_details_address: [u8; 32],
    pub taker_details: UserEscrowDetails,
    pub holding_a: TokenAccount,
    pub holding_b: TokenAccount,
    pub reserve: u64,
}

/// The deal record's own address is reproduced by its stored proof.
pub open spec fn record_valid(program: Seq<u8>, d: Deal) -> bool {
    derives(Role::Deal, d.details.maker@, d.details.deal_proof, program, d.address@)
}

/// Every address of the deal is reproduced by its stored proof from the
/// identity of the party it belongs to.
pub open spec fn custody_valid(program: Seq<u8>, d: Deal) -> bool {
    &&& record_valid(program, d)
    &&& derives(Role::Controller, d.details.maker@, d.details.controller_proof, program, d.controller@)
    &&& derives(Role::Obligation, d.details.maker@, d.maker_details.record_proof, program, d.maker_details_address@)
    &&& derives(Role::Obligation, d.details.taker@, d.taker_details.record_proof, program, d.taker_details_address@)
    &&& derives(Role::Holding, d.details.maker@, d.maker_details.holding_proof, program, d.holding_a.address@)
    &&& derives(Role::Holding, d.details.taker@, d.taker_details.holding_proof, program, d.holding_b.address@)
}

/// The shape every deal keeps: the parties differ, each holding carries the
/// asset type of its obligation and is under the controller's authority.
pub open spec fn deal_wf(d: Deal) -> bool {
    &&& d.details.maker@ != d.details.taker@
    &&& d.holding_a.mint == d.maker_details.asset_type
    &&& d.holding_b.mint == d.taker_details.asset_type
    &&& d.holding_a.owner == d.controller
    &&& d.holding_b.owner == d.controller
}

/// The lamports that closing the deal hands back to the maker: the records'
/// reserve, the controller's balance and both holdings' reserves.
pub open spec fn refund(d: Deal) -> int {
    d.reserve + d.controller_lamports + d.holding_a.lamports + d.holding_b.lamports
}

/// Both holdings meet their obligations.
pub open spec fn obligations_met(d: Deal) -> bool {
    d.holding_a.amount >= d.maker_details.owed_amount && d.holding_b.amount >= d.taker_details.owed_amount
}

impl Deal {
    /// Whether the deal record's address is reproduced by its stored proof.
    pub fn record_valid(&self, program: &[u8; 32]) -> (r: bool)
        ensures
            r == record_valid(program@, *self),
    {
        verify_address(Role::Deal, &self.details.maker, self.details.deal_proof, program, &self.address)
    }

    /// Whether every address of the deal is reproduced by its stored proof.
    pub fn custody_valid(&self, program: &[u8; 32]) -> (r: bool)
        ensures
            r == custody_valid(program@, *self),
    {
        let maker = &self.details.maker;
        let taker = &self.details.taker;
        self.record_valid(program)
            && verify_address(Role::Controller, maker, self.details.controller_proof, program, &self.controller)
            && verify_address(Role::Obligation, maker, self.maker_details.record_proof, program, &self.maker_details_address)
            && verify_address(Role::Obligation, taker, self.taker_details.record_proof, program, &self.taker_details_address)
            && verify_address(Role::Holding, maker, self.maker_details.holding_proof, program, &self.holding_a.address)
            && verify_address(Role::Holding, taker, self.taker_details.holding_proof, program, &self.holding_b.address)
    }
}

} // verus!
