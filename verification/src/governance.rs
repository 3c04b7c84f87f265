//! Governance by several administrators, and the listing of assets by
//! proposal.
//!
//! The set of administrators is never emptied: the last administrator
//! cannot be removed, only replaced. A proposal starts as pending and
//! changes its status once.

use crate::errors::ProtocolError;
use crate::lending::Contract;
use crate::state::{distinct, ProtocolState};
use crate::types::{Address, AssetProposal, ProposalStatus};
use vstd::prelude::*;
use vstd::utf8::encode_utf8;

verus! {

/// Some entry of `list` is the identity `who`.
pub open spec fn listed_in(list: Seq<Address>, who: Seq<char>) -> bool {
    exists|i: int| 0 <= i < list.len() && #[trigger] list[i]@ == who
}

/// The place of `who` in `list`, where it is listed.
pub open spec fn place_in(list: Seq<Address>, who: Seq<char>) -> int {
    choose|i: int| 0 <= i < list.len() && #[trigger] list[i]@ == who
}

/// `list` without `who`.
pub open spec fn without(list: Seq<Address>, who: Seq<char>) -> Seq<Address> {
    if listed_in(list, who) {
        list.remove(place_in(list, who))
    } else {
        list
    }
}

/// `list` with `who` at the end, unless it is listed already.
pub open spec fn joined(list: Seq<Address>, who: Address) -> Seq<Address> {
    if listed_in(list, who@) {
        list
    } else {
        list.push(who)
    }
}

/// The number of bytes that the text takes, as the machine counts them.
pub open spec fn byte_len(s: Seq<char>) -> usize {
    encode_utf8(s).len() as usize
}

/// The place of `who` in `list`, if it is listed.
pub fn find_admin(list: &Vec<Address>, who: &Address) -> (r: Option<usize>)
    requires
        distinct(list@),
    ensures
        r is Some <==> listed_in(list@, who@),
        r is Some ==> r->0 == place_in(list@, who@) && r->0 < list@.len(),
{
    let mut i: usize = 0;
    while i < list.len()
        invariant
            distinct(list@),
            0 <= i <= list@.len(),
            forall|j: int| 0 <= j < i ==> list@[j]@ != who@,
        decreases list@.len() - i,
    {
        if list[i].same(who) {
            assert(list@[i as int]@ == who@);
            return Some(i);
        }
        i += 1;
    }
    None
}

/// Taking an entry out of a list without repetitions leaves a list without
/// repetitions, in which the entry is no longer listed.
pub proof fn lemma_without(list: Seq<Address>, who: Seq<char>)
    requires
        distinct(list),
        listed_in(list, who),
    ensures
        distinct(without(list, who)),
        !listed_in(without(list, who), who),
        without(list, who).len() == list.len() - 1,
        forall|other: Seq<char>|
            other != who ==> (listed_in(without(list, who), other) <==> listed_in(list, other)),
{
    let p = place_in(list, who);
    let rest = list.remove(p);
    assert(list[p]@ == who);
    assert forall|i: int, j: int| 0 <= i < j < rest.len() implies rest[i]@ != rest[j]@ by {
        let i0 = if i < p { i } else { i + 1 };
        let j0 = if j < p { j } else { j + 1 };
        assert(rest[i] == list[i0]);
        assert(rest[j] == list[j0]);
    }
    if listed_in(rest, who) {
        let k = place_in(rest, who);
        let k0 = if k < p { k } else { k + 1 };
        assert(rest[k] == list[k0]);
        assert(list[k0]@ == who);
        assert(false);
    }
    assert forall|other: Seq<char>| other != who implies (listed_in(rest, other) <==> listed_in(
        list,
        other,
    )) by {
        if listed_in(list, other) {
            let k = place_in(list, other);
            assert(list[k]@ == other);
            let k1 = if k < p { k } else { k - 1 };
            assert(rest[k1] == list[k]);
            assert(rest[k1]@ == other);
        }
        if listed_in(rest, other) {
            let k = place_in(rest, other);
            let k0 = if k < p { k } else { k + 1 };
            assert(rest[k] == list[k0]);
            assert(list[k0]@ == other);
        }
    }
}

/// Adding an identity that is not listed keeps a list free of repetitions.
pub proof fn lemma_joined(list: Seq<Address>, who: Address)
    requires
        distinct(list),
    ensures
        distinct(joined(list, who)),
        listed_in(joined(list, who), who@),
        joined(list, who).len() >= 1,
{
    if listed_in(list, who@) {
        let p = place_in(list, who@);
        assert(list[p]@ == who@);
    } else {
        let next = list.push(who);
        assert(next[list.len() as int]@ == who@);
        assert forall|i: int, j: int| 0 <= i < j < next.len() implies next[i]@ != next[j]@ by {
            if j == list.len() {
                assert(next[i] == list[i]);
                if list[i]@ == who@ {
                    assert(listed_in(list, who@));
                }
            }
        }
    }
}

/// The administrators of the ledger.
pub fn get_admin_set(st: &ProtocolState) -> (r: Vec<Address>)
    ensures
        r@ == st.admins(),
{
    match &st.admin_set {
        Some(set) => {
            let r = set.clone();
            assert(r@ =~= set@);
            r
        },
        None => {
            let mut r: Vec<Address> = Vec::new();
            match &st.admin {
                Some(a) => {
                    r.push(a.clone());
                },
                None => {},
            }
            assert(r@ =~= st.admins());
            r
        },
    }
}

/// Writes the set of administrators.
pub fn save_admin_set(st: &mut ProtocolState, set: &Vec<Address>)
    requires
        old(st).wf(),
        distinct(set@),
    ensures
        final(st).wf(),
        final(st).admins() == set@,
        final(st).admin_set is Some,
        (ProtocolState { admin_set: old(st).admin_set, ..*final(st) }) == *old(st),
{
    let copy = set.clone();
    assert(copy@ =~= set@);
    st.admin_set = Some(copy);
}

/// Whether `addr` is an administrator.
pub fn is_admin(st: &ProtocolState, addr: &Address) -> (r: bool)
    requires
        st.wf(),
    ensures
        r == st.is_admin(addr@),
        r == listed_in(st.admins(), addr@),
{
    let admins = get_admin_set(st);
    proof {
        lemma_admins_distinct(*st);
    }
    find_admin(&admins, addr).is_some()
}

/// The administrators of a well-formed ledger are listed once each.
pub proof fn lemma_admins_distinct(st: ProtocolState)
    requires
        st.wf(),
    ensures
        distinct(st.admins()),
{
}

/// Why a new administrator is not added, if so.
pub open spec fn add_admin_refusal(st: ProtocolState, admin: Seq<char>, new_admin: Seq<char>)
    -> Option<ProtocolError> {
    if !listed_in(st.admins(), admin) {
        Some(ProtocolError::Unauthorized)
    } else if listed_in(st.admins(), new_admin) {
        Some(ProtocolError::AlreadyExists)
    } else {
        None
    }
}

/// Makes `new_admin` an administrator.
pub fn add_admin(st: &mut ProtocolState, admin: Address, new_admin: Address) -> (r: Result<
    (),
    ProtocolError,
>)
    requires
        old(st).wf(),
    ensures
        final(st).wf(),
        r == (match add_admin_refusal(*old(st), admin@, new_admin@) {
            Some(e) => Err::<(), ProtocolError>(e),
            None => Ok(()),
        }),
        r is Err ==> *final(st) == *old(st),
        r is Ok ==> final(st).admins() == old(st).admins().push(new_admin) && (ProtocolState {
            admin_set: old(st).admin_set,
            ..*final(st)
        }) == *old(st),
        old(st).admins().len() >= 1 ==> final(st).admins().len() >= 1,
{
    let mut admins = get_admin_set(st);
    proof {
        lemma_admins_distinct(*st);
    }
    if find_admin(&admins, &admin).is_none() {
        return Err(ProtocolError::Unauthorized);
    }
    if find_admin(&admins, &new_admin).is_some() {
        return Err(ProtocolError::AlreadyExists);
    }
    proof {
        lemma_joined(admins@, new_admin);
    }
    admins.push(new_admin);
    save_admin_set(st, &admins);
    Ok(())
}

/// Why an administrator is not removed, if so.
pub open spec fn remove_admin_refusal(st: ProtocolState, admin: Seq<char>, target: Seq<char>)
    -> Option<ProtocolError> {
    if !listed_in(st.admins(), admin) {
        Some(ProtocolError::Unauthorized)
    } else if !listed_in(st.admins(), target) {
        Some(ProtocolError::NotFound)
    } else if st.admins().len() == 1 {
        Some(ProtocolError::InvalidOperation)
    } else {
        None
    }
}

/// Takes `target` out of the administrators. The last administrator
/// stays.
pub fn remove_admin(st: &mut ProtocolState, admin: Address, target: Address) -> (r: Result<
    (),
    ProtocolError,
>)
    requires
        old(st).wf(),
    ensures
        final(st).wf(),
        r == (match remove_admin_refusal(*old(st), admin@, target@) {
            Some(e) => Err::<(), ProtocolError>(e),
            None => Ok(()),
        }),
        r is Err ==> *final(st) == *old(st),
        r is Ok ==> final(st).admins() == without(old(st).admins(), target@)
            && (ProtocolState { admin_set: old(st).admin_set, ..*final(st) }) == *old(st),
        old(st).admins().len() >= 1 ==> final(st).admins().len() >= 1,
{
    let mut admins = get_admin_set(st);
    proof {
        lemma_admins_distinct(*st);
    }
    if find_admin(&admins, &admin).is_none() {
        return Err(ProtocolError::Unauthorized);
    }
    let place = match find_admin(&admins, &target) {
        Some(i) => i,
        None => { return Err(ProtocolError::NotFound); },
    };
    if admins.len() == 1 {
        return Err(ProtocolError::InvalidOperation);
    }
    proof {
        lemma_without(admins@, target@);
    }
    let _gone = admins.remove(place);
    save_admin_set(st, &admins);
    Ok(())
}

/// Puts `new_admin` in the place of `admin` among the administrators.
pub fn transfer_admin(st: &mut ProtocolState, admin: Address, new_admin: Address) -> (r: Result<
    (),
    ProtocolError,
>)
    requires
        old(st).wf(),
    ensures
        final(st).wf(),
        r == (if listed_in(old(st).admins(), admin@) {
            Ok::<(), ProtocolError>(())
        } else {
            Err::<(), ProtocolError>(ProtocolError::Unauthorized)
        }),
        r is Err ==> *final(st) == *old(st),
        r is Ok ==> final(st).admins() == joined(without(old(st).admins(), admin@), new_admin)
            && (ProtocolState { admin_set: old(st).admin_set, ..*final(st) }) == *old(st),
        r is Ok ==> final(st).admins().len() >= 1,
        old(st).admins().len() >= 1 ==> final(st).admins().len() >= 1,
{
    let mut admins = get_admin_set(st);
    proof {
        lemma_admins_distinct(*st);
    }
    let place = match find_admin(&admins, &admin) {
        Some(i) => i,
        None => { return Err(ProtocolError::Unauthorized); },
    };
    proof {
        lemma_without(admins@, admin@);
    }
    let _gone = admins.remove(place);
    proof {
        lemma_joined(admins@, new_admin);
    }
    if find_admin(&admins, &new_admin).is_none() {
        admins.push(new_admin);
    }
    save_admin_set(st, &admins);
    Ok(())
}

/// The administrators, in the order in which they joined.
pub fn get_admins(st: &ProtocolState) -> (r: Vec<Address>)
    ensures
        r@ == st.admins(),
{
    get_admin_set(st)
}

/// Whether `addr` is an administrator.
pub fn is_address_admin(st: &ProtocolState, addr: Address) -> (r: bool)
    requires
        st.wf(),
    ensures
        r == listed_in(st.admins(), addr@),
{
    is_admin(st, &addr)
}

/// Why an asset is not proposed, if so.
pub open spec fn proposal_refusal(
    st: ProtocolState,
    symbol: Seq<char>,
    name: Seq<char>,
    collateral_factor: u32,
    borrow_factor: u32,
) -> Option<ProtocolError> {
    if byte_len(symbol) > 10 || byte_len(name) > 50 {
        Some(ProtocolError::InvalidInput)
    } else if collateral_factor > 10000 || borrow_factor > 10000 {
        Some(ProtocolError::InvalidInput)
    } else if st.proposal_counter == u32::MAX {
        Some(ProtocolError::Unknown)
    } else {
        None
    }
}

/// Files a proposal to list an asset. Anyone may propose.
pub fn propose_asset(
    st: &mut ProtocolState,
    proposer: Address,
    symbol: String,
    name: String,
    oracle_address: Address,
    collateral_factor: u32,
    borrow_factor: u32,
) -> (r: Result<u32, ProtocolError>)
    requires
        old(st).wf(),
    ensures
        final(st).wf(),
        r == (match proposal_refusal(*old(st), symbol@, name@, collateral_factor, borrow_factor) {
            Some(e) => Err::<u32, ProtocolError>(e),
            None => Ok((old(st).proposal_counter + 1) as u32),
        }),
        r is Err ==> *final(st) == *old(st),
        r is Ok ==> {
            &&& final(st).proposal_counter == old(st).proposal_counter + 1
            &&& final(st).asset_proposals@ == old(st).asset_proposals@.insert(
                r->Ok_0,
                AssetProposal {
                    id: r->Ok_0,
                    proposer,
                    symbol,
                    name,
                    oracle_address,
                    collateral_factor,
                    borrow_factor,
                    status: ProposalStatus::Pending,
                    created_at: old(st).timestamp,
                },
            )
            &&& (ProtocolState {
                proposal_counter: old(st).proposal_counter,
                asset_proposals: old(st).asset_proposals,
                ..*final(st)
            }) == *old(st)
        },
{
    if symbol.as_str().len() > 10 || name.as_str().len() > 50 {
        return Err(ProtocolError::InvalidInput);
    }
    if collateral_factor > 10000 || borrow_factor > 10000 {
        return Err(ProtocolError::InvalidInput);
    }
    if st.proposal_counter == u32::MAX {
        return Err(ProtocolError::Unknown);
    }
    let proposal_id = st.proposal_counter + 1;
    st.proposal_counter = proposal_id;
    let proposal = AssetProposal {
        id: proposal_id,
        proposer,
        symbol,
        name,
        oracle_address,
        collateral_factor,
        borrow_factor,
        status: ProposalStatus::Pending,
        created_at: st.timestamp,
    };
    st.asset_proposals.insert(proposal_id, proposal);
    Ok(proposal_id)
}

/// Why a pending proposal cannot be decided by `admin`, if so.
pub open spec fn decision_refusal(st: ProtocolState, admin: Seq<char>, proposal_id: u32) -> Option<
    ProtocolError,
> {
    if !listed_in(st.admins(), admin) {
        Some(ProtocolError::Unauthorized)
    } else if !st.asset_proposals@.contains_key(proposal_id) {
        Some(ProtocolError::NotFound)
    } else if st.asset_proposals@[proposal_id].status != ProposalStatus::Pending {
        Some(ProtocolError::InvalidOperation)
    } else {
        None
    }
}

/// Why a proposal is not approved, if so: it cannot be decided, or the asset
/// cannot be listed.
pub open spec fn approval_refusal(st: ProtocolState, admin: Seq<char>, proposal_id: u32) -> Option<
    ProtocolError,
> {
    if decision_refusal(st, admin, proposal_id) is Some {
        decision_refusal(st, admin, proposal_id)
    } else {
        Contract::listing_refusal(st, admin, st.asset_proposals@[proposal_id].symbol@, 7)
    }
}

/// Approves a pending proposal: the asset is listed with seven decimals and
/// the proposed collateral factor as its minimum ratio, and the proposal is
/// marked approved.
pub fn approve_proposal(st: &mut ProtocolState, admin: Address, proposal_id: u32) -> (r: Result<
    (),
    ProtocolError,
>)
    requires
        old(st).wf(),
    ensures
        final(st).wf(),
        r == (match approval_refusal(*old(st), admin@, proposal_id) {
            Some(e) => Err::<(), ProtocolError>(e),
            None => Ok(()),
        }),
        r is Err ==> *final(st) == *old(st),
        r is Ok ==> {
            &&& final(st).asset_proposals@ == old(st).asset_proposals@.insert(
                proposal_id,
                AssetProposal {
                    status: ProposalStatus::Approved,
                    ..old(st).asset_proposals@[proposal_id]
                },
            )
            &&& Contract::listed(
                *old(st),
                ProtocolState { asset_proposals: old(st).asset_proposals, ..*final(st) },
                old(st).asset_proposals@[proposal_id].symbol,
                7,
                old(st).asset_proposals@[proposal_id].oracle_address.strkey,
                old(st).asset_proposals@[proposal_id].collateral_factor as i128,
            )
        },
{
    if !is_admin(st, &admin) {
        return Err(ProtocolError::Unauthorized);
    }
    let mut proposal = match st.asset_proposals.get(&proposal_id) {
        Some(p) => p.clone(),
        None => { return Err(ProtocolError::NotFound); },
    };
    if proposal.status != ProposalStatus::Pending {
        return Err(ProtocolError::InvalidOperation);
    }
    Contract::add_asset(
        st,
        admin.to_string(),
        proposal.symbol.clone(),
        7,
        proposal.oracle_address.to_string(),
        proposal.collateral_factor as i128,
    )?;
    proposal.status = ProposalStatus::Approved;
    st.asset_proposals.insert(proposal_id, proposal);
    Ok(())
}

/// Rejects a pending proposal.
pub fn reject_proposal(st: &mut ProtocolState, admin: Address, proposal_id: u32) -> (r: Result<
    (),
    ProtocolError,
>)
    requires
        old(st).wf(),
    ensures
        final(st).wf(),
        r == (match decision_refusal(*old(st), admin@, proposal_id) {
            Some(e) => Err::<(), ProtocolError>(e),
            None => Ok(()),
        }),
        r is Err ==> *final(st) == *old(st),
        r is Ok ==> final(st).asset_proposals@ == old(st).asset_proposals@.insert(
            proposal_id,
            AssetProposal {
                status: ProposalStatus::Rejected,
                ..old(st).asset_proposals@[proposal_id]
            },
        ) && (ProtocolState { asset_proposals: old(st).asset_proposals, ..*final(st) }) == *old(st),
{
    if !is_admin(st, &admin) {
        return Err(ProtocolError::Unauthorized);
    }
    let mut proposal = match st.asset_proposals.get(&proposal_id) {
        Some(p) => p.clone(),
        None => { return Err(ProtocolError::NotFound); },
    };
    if proposal.status != ProposalStatus::Pending {
        return Err(ProtocolError::InvalidOperation);
    }
    proposal.status = ProposalStatus::Rejected;
    st.asset_proposals.insert(proposal_id, proposal);
    Ok(())
}

/// Why a proposal is not cancelled, if so.
pub open spec fn cancel_refusal(st: ProtocolState, proposer: Seq<char>, proposal_id: u32) -> Option<
    ProtocolError,
> {
    if !st.asset_proposals@.contains_key(proposal_id) {
        Some(ProtocolError::NotFound)
    } else if st.asset_proposals@[proposal_id].proposer@ != proposer {
        Some(ProtocolError::Unauthorized)
    } else if st.asset_proposals@[proposal_id].status != ProposalStatus::Pending {
        Some(ProtocolError::InvalidOperation)
    } else {
        None
    }
}

/// Cancels a pending proposal. Only its proposer may do so.
pub fn cancel_proposal(st: &mut ProtocolState, proposer: Address, proposal_id: u32) -> (r: Result<
    (),
    ProtocolError,
>)
    requires
        old(st).wf(),
    ensures
        final(st).wf(),
        r == (match cancel_refusal(*old(st), proposer@, proposal_id) {
            Some(e) => Err::<(), ProtocolError>(e),
            None => Ok(()),
        }),
        r is Err ==> *final(st) == *old(st),
        r is Ok ==> final(st).asset_proposals@ == old(st).asset_proposals@.insert(
            proposal_id,
            AssetProposal {
                status: ProposalStatus::Cancelled,
                ..old(st).asset_proposals@[proposal_id]
            },
        ) && (ProtocolState { asset_proposals: old(st).asset_proposals, ..*final(st) }) == *old(st),
{
    let mut proposal = match st.asset_proposals.get(&proposal_id) {
        Some(p) => p.clone(),
        None => { return Err(ProtocolError::NotFound); },
    };
    if !proposal.proposer.same(&proposer) {
        return Err(ProtocolError::Unauthorized);
    }
    if proposal.status != ProposalStatus::Pending {
        return Err(ProtocolError::InvalidOperation);
    }
    proposal.status = ProposalStatus::Cancelled;
    st.asset_proposals.insert(proposal_id, proposal);
    Ok(())
}

/// The proposal filed under `proposal_id`, if there is one.
pub fn get_proposal_by_id(st: &ProtocolState, proposal_id: u32) -> (r: Option<AssetProposal>)
    requires
        st.wf(),
    ensures
        r == (if st.asset_proposals@.contains_key(proposal_id) {
            Some(st.asset_proposals@[proposal_id])
        } else {
            None
        }),
{
    match st.asset_proposals.get(&proposal_id) {
        Some(p) => Some(p.clone()),
        None => None,
    }
}

/// The proposals filed under the numbers 1 to `n`, in that order.
pub open spec fn proposals_upto(filed: Map<u32, AssetProposal>, n: nat) -> Seq<AssetProposal>
    decreases n,
{
    if n == 0 {
        Seq::empty()
    } else if filed.contains_key(n as u32) {
        proposals_upto(filed, (n - 1) as nat).push(filed[n as u32])
    } else {
        proposals_upto(filed, (n - 1) as nat)
    }
}

/// The first `n` entries of `list` that have the status `status`.
pub open spec fn with_status(list: Seq<AssetProposal>, status: ProposalStatus, n: nat) -> Seq<
    AssetProposal,
>
    decreases n,
{
    if n == 0 {
        Seq::empty()
    } else if list[n - 1].status == status {
        with_status(list, status, (n - 1) as nat).push(list[n - 1])
    } else {
        with_status(list, status, (n - 1) as nat)
    }
}

/// Every proposal filed under a number that was handed out, in the order of
/// the numbers.
pub fn get_all_proposals(st: &ProtocolState) -> (r: Vec<AssetProposal>)
    requires
        st.wf(),
    ensures
        r@ == proposals_upto(st.asset_proposals@, st.proposal_counter as nat),
{
    let mut proposals: Vec<AssetProposal> = Vec::new();
    let mut i: u32 = 0;
    while i < st.proposal_counter
        invariant
            st.wf(),
            0 <= i <= st.proposal_counter,
            proposals@ == proposals_upto(st.asset_proposals@, i as nat),
        decreases st.proposal_counter - i,
    {
        i += 1;
        match st.asset_proposals.get(&i) {
            Some(p) => {
                proposals.push(p.clone());
            },
            None => {},
        }
    }
    proposals
}

/// The proposals with the status `status`, in the order of their numbers.
pub fn get_proposals_by_status(st: &ProtocolState, status: ProposalStatus) -> (r: Vec<
    AssetProposal,
>)
    requires
        st.wf(),
    ensures
        r@ == with_status(
            proposals_upto(st.asset_proposals@, st.proposal_counter as nat),
            status,
            proposals_upto(st.asset_proposals@, st.proposal_counter as nat).len(),
        ),
{
    let all = get_all_proposals(st);
    let mut filtered: Vec<AssetProposal> = Vec::new();
    let mut i: usize = 0;
    while i < all.len()
        invariant
            0 <= i <= all@.len(),
            filtered@ == with_status(all@, status, i as nat),
        decreases all@.len() - i,
    {
        if all[i].status == status {
            filtered.push(all[i].clone());
        }
        i += 1;
    }
    filtered
}

} // verus!
