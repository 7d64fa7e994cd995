//! The deal lifecycle: `create`, `deposit`, `withdraw`, `close` and `check`.
//! Each operation either succeeds or leaves every record and account as it was.
use vstd::prelude::*;
use crate::custody::{Role, canonical, derivable, derive_address, same_address};
use crate::deal::{Deal, DealDetails, UserEscrowDetails, custody_valid, deal_wf, obligations_met, record_valid, refund};
use crate::error::ErrorCode;
use crate::token::{TokenAccount, transfer_checked, transfer_error, with_amount};

verus! {

/// Why the taker's deposit into `d` from `source` is refused, checked in this
/// order; `None` where it succeeds.
pub open spec fn deposit_error(program: Seq<u8>, d: Deal, signer: Seq<u8>, source: TokenAccount) -> Option<ErrorCode> {
    if !custody_valid(program, d) {
        Some(ErrorCode::InvalidDerivation)
    } else if signer != d.details.taker@ {
        Some(ErrorCode::InvalidUser)
    } else if d.details.fulfilled {
        Some(ErrorCode::AlreadyFulfilled)
    } else {
        transfer_error(source, d.holding_b, d.taker_details.asset_type@, d.taker_details.owed_amount, signer)
    }
}

/// The deal after the taker's owed amount has arrived in holding B: the deal
/// is fulfilled exactly when both holdings now meet their obligations.
pub open spec fn deposited(d: Deal) -> Deal {
    let held = with_amount(d.holding_b, d.holding_b.amount + d.taker_details.owed_amount);
    let after = Deal { holding_b: held, ..d };
    Deal { details: DealDetails { fulfilled: obligations_met(after), ..d.details }, ..after }
}

/// The holding whose funds `signer` takes on withdrawal: the maker takes what
/// the taker deposited, and any other party what the maker deposited.
pub open spec fn released(d: Deal, signer: Seq<u8>) -> TokenAccount {
    if signer == d.details.maker@ { d.holding_b } else { d.holding_a }
}

/// Why a withdrawal by `signer` into `dest` is refused, checked in this order;
/// `None` where it succeeds.
pub open spec fn withdraw_error(program: Seq<u8>, d: Deal, signer: Seq<u8>, dest: TokenAccount) -> Option<ErrorCode> {
    let from = released(d, signer);
    if !d.details.fulfilled {
        Some(ErrorCode::IncompleteDeal)
    } else if signer != d.details.maker@ && signer != d.details.taker@ {
        Some(ErrorCode::InvalidUser)
    } else if !custody_valid(program, d) {
        Some(ErrorCode::InvalidDerivation)
    } else if dest.owner@ != signer {
        Some(ErrorCode::OwnerMismatch)
    } else {
        transfer_error(from, dest, from.mint@, from.amount, d.controller@)
    }
}

/// The deal after `signer` has taken the whole of its released holding.
pub open spec fn withdrawn(d: Deal, signer: Seq<u8>) -> Deal {
    if signer == d.details.maker@ {
        Deal { holding_b: with_amount(d.holding_b, 0), ..d }
    } else {
        Deal { holding_a: with_amount(d.holding_a, 0), ..d }
    }
}

/// Why closing the deal stored in `slot` at the request of `signer`, whose
/// balance is `maker_lamports`, is refused, checked in this order; `None`
/// where it succeeds.
pub open spec fn close_error(program: Seq<u8>, slot: Option<Deal>, signer: Seq<u8>, maker_lamports: u64) -> Option<ErrorCode> {
    match slot {
        None => Some(ErrorCode::DealNotFound),
        Some(d) => if signer != d.details.maker@ {
            Some(ErrorCode::InvalidUser)
        } else if !custody_valid(program, d) {
            Some(ErrorCode::InvalidDerivation)
        } else if d.holding_a.amount > 0 || d.holding_b.amount > 0 {
            Some(ErrorCode::AccountContainsFund)
        } else if maker_lamports + refund(d) > u64::MAX {
            Some(ErrorCode::Overflow)
        } else {
            None
        },
    }
}

/// The taker pays its owed amount from `source` into holding B; afterwards the
/// deal is fulfilled when both holdings meet their obligations. Refused for
/// anyone but the taker and once the deal is fulfilled.
pub fn deposit(program: &[u8; 32], deal: &mut Deal, signer: &[u8; 32], source: &mut TokenAccount) -> (r: Result<(), ErrorCode>)
    ensures
        match deposit_error(program@, *old(deal), signer@, *old(source)) {
            Some(e) => r == Err::<(), ErrorCode>(e) && *final(deal) == *old(deal) && *final(source) == *old(source),
            None => r is Ok && *final(deal) == deposited(*old(deal))
                && *final(source) == with_amount(*old(source), old(source).amount - old(deal).taker_details.owed_amount),
        },
{
    if !deal.custody_valid(program) {
        return Err(ErrorCode::InvalidDerivation);
    }
    if !same_address(signer, &deal.details.taker) {
        return Err(ErrorCode::InvalidUser);
    }
    if deal.details.fulfilled {
        return Err(ErrorCode::AlreadyFulfilled);
    }
    let amount = deal.taker_details.owed_amount;
    let asset = deal.taker_details.asset_type;
    transfer_checked(source, &mut deal.holding_b, &asset, amount, signer)?;
    if deal.maker_details.owed_amount <= deal.holding_a.amount && deal.taker_details.owed_amount <= deal.holding_b.amount {
        deal.details.fulfilled = true;
    }
    Ok(())
}

/// A party of a fulfilled deal takes the whole of the other party's holding
/// into `dest`, on the controller's authority: the maker receives what the
/// taker deposited and the taker what the maker deposited.
pub fn withdraw(program: &[u8; 32], deal: &mut Deal, signer: &[u8; 32], dest: &mut TokenAccount) -> (r: Result<(), ErrorCode>)
    ensures
        match withdraw_error(program@, *old(deal), signer@, *old(dest)) {
            Some(e) => r == Err::<(), ErrorCode>(e) && *final(deal) == *old(deal) && *final(dest) == *old(dest),
            None => r is Ok && *final(deal) == withdrawn(*old(deal), signer@)
                && *final(dest) == with_amount(*old(dest), old(dest).amount + released(*old(deal), signer@).amount),
        },
{
    if !deal.details.fulfilled {
        return Err(ErrorCode::IncompleteDeal);
    }
    let is_maker = same_address(signer, &deal.details.maker);
    if !is_maker && !same_address(signer, &deal.details.taker) {
        return Err(ErrorCode::InvalidUser);
    }
    if !deal.custody_valid(program) {
        return Err(ErrorCode::InvalidDerivation);
    }
    if !same_address(&dest.owner, signer) {
        return Err(ErrorCode::OwnerMismatch);
    }
    let controller = deal.controller;
    if is_maker {
        let mint = deal.holding_b.mint;
        let amount = deal.holding_b.amount;
        transfer_checked(&mut deal.holding_b, dest, &mint, amount, &controller)
    } else {
        let mint = deal.holding_a.mint;
        let amount = deal.holding_a.amount;
        transfer_checked(&mut deal.holding_a, dest, &mint, amount, &controller)
    }
}

/// The maker closes a deal whose holdings are both empty: the deal record,
/// both obligation records and both holding accounts are destroyed, and the
/// records' reserve, the holdings' reserves and whatever the controller holds
/// go to the maker's balance `maker_lamports`. Returns what was handed back.
pub fn close(program: &[u8; 32], slot: &mut Option<Deal>, signer: &[u8; 32], maker_lamports: &mut u64) -> (r: Result<u64, ErrorCode>)
    ensures
        match close_error(program@, *old(slot), signer@, *old(maker_lamports)) {
            Some(e) => r == Err::<u64, ErrorCode>(e) && *final(slot) == *old(slot) && *final(maker_lamports) == *old(maker_lamports),
            None => r == Ok::<u64, ErrorCode>(refund(old(slot).unwrap()) as u64) && *final(slot) is None
                && *final(maker_lamports) == *old(maker_lamports) + refund(old(slot).unwrap()),
        },
{
    let d = match slot {
        None => return Err(ErrorCode::DealNotFound),
        Some(d) => *d,
    };
    if !same_address(signer, &d.details.maker) {
        return Err(ErrorCode::InvalidUser);
    }
    if !d.custody_valid(program) {
        return Err(ErrorCode::InvalidDerivation);
    }
    if d.holding_a.amount > 0 || d.holding_b.amount > 0 {
        return Err(ErrorCode::AccountContainsFund);
    }
    let start = *maker_lamports;
    if d.reserve > u64::MAX - start {
        return Err(ErrorCode::Overflow);
    }
    let with_records = start + d.reserve;
    if d.controller_lamports > u64::MAX - with_records {
        return Err(ErrorCode::Overflow);
    }
    let with_controller = with_records + d.controller_lamports;
    if d.holding_a.lamports > u64::MAX - with_controller {
        return Err(ErrorCode::Overflow);
    }
    let with_holding_a = with_controller + d.holding_a.lamports;
    if d.holding_b.lamports > u64::MAX - with_holding_a {
        return Err(ErrorCode::Overflow);
    }
    let total = with_holding_a + d.holding_b.lamports;
    *slot = None;
    *maker_lamports = total;
    Ok(total - start)
}

/// Whether the deal is fulfilled, once its record's address is verified.
/// Anyone may ask; nothing changes.
pub fn check(program: &[u8; 32], deal: &Deal) -> (r: Result<bool, ErrorCode>)
    ensures
        r == if record_valid(program@, *deal) {
            Ok::<bool, ErrorCode>(deal.details.fulfilled)
        } else {
            Err(ErrorCode::InvalidDerivation)
        },
{
    if deal.record_valid(program) {
        Ok(deal.details.fulfilled)
    } else {
        Err(ErrorCode::InvalidDerivation)
    }
}

/// The terms of a deal as the maker proposes them: the maker pays
/// `maker_amount` of `maker_asset`, the taker `taker_amount` of `taker_asset`,
/// `reserve` is what the maker pays for the three records' storage and
/// `holding_reserve` what it pays for each holding account's.
#[derive(Clone, Copy, Debug)]
pub struct Terms {
    pub maker: [u8; 32],
    pub taker: [u8; 32],
    pub maker_amount: u64,
    pub taker_amount: u64,
    pub maker_asset: [u8; 32],
    pub taker_asset: [u8; 32],
    pub reserve: u64,
    pub holding_reserve: u64,
}

/// The derived addresses of a new deal's accounts, each with its proof.
#[derive(Clone, Copy, Debug)]
pub struct Derivations {
    pub deal: [u8; 32],
    pub deal_proof: u8,
    pub controller: [u8; 32],
    pub controller_proof: u8,
    pub maker_details: [u8; 32],
    pub maker_details_proof: u8,
    pub taker_details: [u8; 32],
    pub taker_details_proof: u8,
    pub holding_a: [u8; 32],
    pub holding_a_proof: u8,
    pub holding_b: [u8; 32],
    pub holding_b_proof: u8,
}

/// The derived addresses and proofs that a deal keeps.
pub open spec fn derivations_of(d: Deal) -> Derivations {
    Derivations {
        deal: d.address,
        deal_proof: d.details.deal_proof,
        controller: d.controller,
        controller_proof: d.details.controller_proof,
        maker_details: d.maker_details_address,
        maker_details_proof: d.maker_details.record_proof,
        taker_details: d.taker_details_address,
        taker_details_proof: d.taker_details.record_proof,
        holding_a: d.holding_a.address,
        holding_a_proof: d.maker_details.holding_proof,
        holding_b: d.holding_b.address,
        holding_b_proof: d.taker_details.holding_proof,
    }
}

/// A new deal on terms `t` at the addresses `v`, not fulfilled, with both
/// holdings empty and under the controller's authority.
pub open spec fn fresh_deal(t: Terms, v: Derivations) -> Deal {
    Deal {
        address: v.deal,
        details: DealDetails {
            deal_proof: v.deal_proof,
            controller_proof: v.controller_proof,
            maker: t.maker,
            taker: t.taker,
            fulfilled: false,
        },
        controller: v.controller,
        controller_lamports: 0,
        maker_details_address: v.maker_details,
        maker_details: UserEscrowDetails {
            owed_amount: t.maker_amount,
            asset_type: t.maker_asset,
            holding_proof: v.holding_a_proof,
            record_proof: v.maker_details_proof,
        },
        taker_details_address: v.taker_details,
        taker_details: UserEscrowDetails {
            owed_amount: t.taker_amount,
            asset_type: t.taker_asset,
            holding_proof: v.holding_b_proof,
            record_proof: v.taker_details_proof,
        },
        holding_a: TokenAccount { address: v.holding_a, mint: t.maker_asset, owner: v.controller, amount: 0, lamports: t.holding_reserve },
        holding_b: TokenAccount { address: v.holding_b, mint: t.taker_asset, owner: v.controller, amount: 0, lamports: t.holding_reserve },
        reserve: t.reserve,
    }
}

/// The new deal after the maker's amount has arrived in holding A.
pub open spec fn created(t: Terms, v: Derivations) -> Deal {
    let d = fresh_deal(t, v);
    Deal { holding_a: with_amount(d.holding_a, t.maker_amount as int), ..d }
}

/// Why the maker's payment from `source` into an empty holding of
/// `t.maker_asset` is refused; `None` where it succeeds.
pub open spec fn funding_error(t: Terms, source: TokenAccount) -> Option<ErrorCode> {
    if source.mint@ != t.maker_asset@ {
        Some(ErrorCode::TypeMismatch)
    } else if source.owner@ != t.maker@ {
        Some(ErrorCode::OwnerMismatch)
    } else if source.amount < t.maker_amount {
        Some(ErrorCode::InsufficientBalance)
    } else {
        None
    }
}

/// Why opening a deal on terms `t` at the addresses `v` in `slot` is refused,
/// checked in this order; `None` where it succeeds.
pub open spec fn open_error(program: Seq<u8>, slot: Option<Deal>, t: Terms, v: Derivations, source: TokenAccount) -> Option<ErrorCode> {
    if slot is Some {
        Some(ErrorCode::DealExists)
    } else if t.maker@ == t.taker@ {
        Some(ErrorCode::InvalidUser)
    } else if !custody_valid(program, fresh_deal(t, v)) {
        Some(ErrorCode::InvalidDerivation)
    } else {
        funding_error(t, source)
    }
}

/// Opens a deal on terms `t` in the maker's empty `slot`, at the derived
/// addresses `v`, and moves the maker's amount from `source` into holding A.
pub fn open_deal(program: &[u8; 32], slot: &mut Option<Deal>, t: &Terms, v: &Derivations, source: &mut TokenAccount) -> (r: Result<(), ErrorCode>)
    ensures
        match open_error(program@, *old(slot), *t, *v, *old(source)) {
            Some(e) => r == Err::<(), ErrorCode>(e) && *final(slot) == *old(slot) && *final(source) == *old(source),
            None => r is Ok && *final(slot) == Some(created(*t, *v)) && deal_wf(created(*t, *v))
                && *final(source) == with_amount(*old(source), old(source).amount - t.maker_amount),
        },
{
    if slot.is_some() {
        return Err(ErrorCode::DealExists);
    }
    if same_address(&t.maker, &t.taker) {
        return Err(ErrorCode::InvalidUser);
    }
    let mut d = Deal {
        address: v.deal,
        details: DealDetails {
            deal_proof: v.deal_proof,
            controller_proof: v.controller_proof,
            maker: t.maker,
            taker: t.taker,
            fulfilled: false,
        },
        controller: v.controller,
        controller_lamports: 0,
        maker_details_address: v.maker_details,
        maker_details: UserEscrowDetails {
            owed_amount: t.maker_amount,
            asset_type: t.maker_asset,
            holding_proof: v.holding_a_proof,
            record_proof: v.maker_details_proof,
        },
        taker_details_address: v.taker_details,
        taker_details: UserEscrowDetails {
            owed_amount: t.taker_amount,
            asset_type: t.taker_asset,
            holding_proof: v.holding_b_proof,
            record_proof: v.taker_details_proof,
        },
        holding_a: TokenAccount::new(v.holding_a, t.maker_asset, v.controller, t.holding_reserve),
        holding_b: TokenAccount::new(v.holding_b, t.taker_asset, v.controller, t.holding_reserve),
        reserve: t.reserve,
    };
    if !d.custody_valid(program) {
        return Err(ErrorCode::InvalidDerivation);
    }
    transfer_checked(source, &mut d.holding_a, &t.maker_asset, t.maker_amount, &t.maker)?;
    *slot = Some(d);
    Ok(())
}

/// Every account of a deal on terms `t` has an address: each of the six
/// (role, identity) pairs has some proof from 1 to 255.
pub open spec fn all_derivable(program: Seq<u8>, t: Terms) -> bool {
    &&& derivable(Role::Deal, t.maker@, program)
    &&& derivable(Role::Controller, t.maker@, program)
    &&& derivable(Role::Obligation, t.maker@, program)
    &&& derivable(Role::Obligation, t.taker@, program)
    &&& derivable(Role::Holding, t.maker@, program)
    &&& derivable(Role::Holding, t.taker@, program)
}

/// Every proof that the deal stores is the canonical one for its address.
pub open spec fn canonical_custody(program: Seq<u8>, d: Deal) -> bool {
    &&& canonical(Role::Deal, d.details.maker@, d.details.deal_proof, program, d.address@)
    &&& canonical(Role::Controller, d.details.maker@, d.details.controller_proof, program, d.controller@)
    &&& canonical(Role::Obligation, d.details.maker@, d.maker_details.record_proof, program, d.maker_details_address@)
    &&& canonical(Role::Obligation, d.details.taker@, d.taker_details.record_proof, program, d.taker_details_address@)
    &&& canonical(Role::Holding, d.details.maker@, d.maker_details.holding_proof, program, d.holding_a.address@)
    &&& canonical(Role::Holding, d.details.taker@, d.taker_details.holding_proof, program, d.holding_b.address@)
}

/// The maker creates a deal on terms `t` in its empty `slot`: the addresses of
/// the deal's accounts are derived from the two identities, and the maker's
/// amount moves from `source` into holding A. The deal starts unfulfilled.
/// The result is `InvalidDerivation` exactly where some account has no address.
pub fn create(program: &[u8; 32], slot: &mut Option<Deal>, t: &Terms, source: &mut TokenAccount) -> (r: Result<(), ErrorCode>)
    ensures
        old(slot).is_some() ==> r == Err::<(), ErrorCode>(ErrorCode::DealExists),
        old(slot).is_none() && t.maker@ == t.taker@ ==> r == Err::<(), ErrorCode>(ErrorCode::InvalidUser),
        old(slot).is_none() && t.maker@ != t.taker@ && !all_derivable(program@, *t) ==>
            r == Err::<(), ErrorCode>(ErrorCode::InvalidDerivation),
        old(slot).is_none() && t.maker@ != t.taker@ && all_derivable(program@, *t) ==>
            match funding_error(*t, *old(source)) {
                Some(e) => r == Err::<(), ErrorCode>(e),
                None => r is Ok,
            },
        r is Err ==> *final(slot) == *old(slot) && *final(source) == *old(source),
        r is Ok ==> *final(source) == with_amount(*old(source), old(source).amount - t.maker_amount),
        r is Ok ==> (*final(slot) matches Some(d)
            && d == created(*t, derivations_of(d))
            && custody_valid(program@, d)
            && canonical_custody(program@, d)
            && deal_wf(d)
            && d.holding_a.amount == t.maker_amount
            && !d.details.fulfilled),
{
    if slot.is_some() {
        return Err(ErrorCode::DealExists);
    }
    if same_address(&t.maker, &t.taker) {
        return Err(ErrorCode::InvalidUser);
    }
    let (deal, deal_proof) = match derive_address(Role::Deal, &t.maker, program) {
        Some(x) => x,
        None => return Err(ErrorCode::InvalidDerivation),
    };
    let (controller, controller_proof) = match derive_address(Role::Controller, &t.maker, program) {
        Some(x) => x,
        None => return Err(ErrorCode::InvalidDerivation),
    };
    let (maker_details, maker_details_proof) = match derive_address(Role::Obligation, &t.maker, program) {
        Some(x) => x,
        None => return Err(ErrorCode::InvalidDerivation),
    };
    let (taker_details, taker_details_proof) = match derive_address(Role::Obligation, &t.taker, program) {
        Some(x) => x,
        None => return Err(ErrorCode::InvalidDerivation),
    };
    let (holding_a, holding_a_proof) = match derive_address(Role::Holding, &t.maker, program) {
        Some(x) => x,
        None => return Err(ErrorCode::InvalidDerivation),
    };
    let (holding_b, holding_b_proof) = match derive_address(Role::Holding, &t.taker, program) {
        Some(x) => x,
        None => return Err(ErrorCode::InvalidDerivation),
    };
    let v = Derivations {
        deal, deal_proof, controller, controller_proof, maker_details, maker_details_proof,
        taker_details, taker_details_proof, holding_a, holding_a_proof, holding_b, holding_b_proof,
    };
    open_deal(program, slot, t, &v, source)
}

/// Only a deposit sets `fulfilled`, and only where both holdings then meet
/// their obligations: a new deal starts unfulfilled, a withdrawal leaves the
/// flag as it was, and a deposit sets it exactly when both obligations are met.
pub proof fn only_deposit_fulfills(d: Deal, signer: Seq<u8>, t: Terms, v: Derivations)
    ensures
        !created(t, v).details.fulfilled,
        withdrawn(d, signer).details.fulfilled == d.details.fulfilled,
        deposited(d).details.fulfilled <==> obligations_met(deposited(d)),
{
}

/// Deposits and withdrawals keep a deal well formed.
pub proof fn operations_keep_shape(d: Deal, signer: Seq<u8>)
    requires
        deal_wf(d),
    ensures
        deal_wf(deposited(d)),
        deal_wf(withdrawn(d, signer)),
{
}

/// Withdrawing twice has the effect of withdrawing once: the second
/// withdrawal finds the released holding empty.
pub proof fn withdraw_idempotent(d: Deal, signer: Seq<u8>)
    ensures
        withdrawn(withdrawn(d, signer), signer) == withdrawn(d, signer),
        released(withdrawn(d, signer), signer).amount == 0,
{
}

/// A withdrawal from a deal that is not fulfilled is always refused with
/// `IncompleteDeal`, and so moves no funds.
pub proof fn withdraw_needs_fulfilled(program: Seq<u8>, d: Deal, signer: Seq<u8>, dest: TokenAccount)
    requires
        !d.details.fulfilled,
    ensures
        withdraw_error(program, d, signer, dest) == Some(ErrorCode::IncompleteDeal),
{
}

/// On a fulfilled deal, a withdrawal by anyone who is neither the maker nor
/// the taker is always refused with `InvalidUser`.
pub proof fn withdraw_needs_party(program: Seq<u8>, d: Deal, signer: Seq<u8>, dest: TokenAccount)
    requires
        d.details.fulfilled,
        signer != d.details.maker@,
        signer != d.details.taker@,
    ensures
        withdraw_error(program, d, signer, dest) == Some(ErrorCode::InvalidUser),
{
}

/// Closing never succeeds while either holding still has funds; for the
/// maker, on a deal whose stored proofs are valid, the refusal is
/// `AccountContainsFund`.
pub proof fn close_needs_empty_holdings(program: Seq<u8>, d: Deal, signer: Seq<u8>, maker_lamports: u64)
    requires
        d.holding_a.amount > 0 || d.holding_b.amount > 0,
    ensures
        close_error(program, Some(d), signer, maker_lamports) is Some,
        signer == d.details.maker@ && custody_valid(program, d) ==>
            close_error(program, Some(d), signer, maker_lamports) == Some(ErrorCode::AccountContainsFund),
{
}

} // verus!
