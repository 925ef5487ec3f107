//! The vault as a state machine: requests, the step that each one causes, and
//! what holds of every run.

use crate::errors::VaultError;
use crate::events::{DepositEvent, Event, ToggleLockEvent, WithdrawEvent};
use crate::pubkey::Pubkey;
use crate::state::VaultState;
use vstd::prelude::*;

verus! {

/// A request to an existing vault, with what the host knows of its sender.
pub enum Request {
    /// `payer`, who holds `funds`, deposits `amount`.
    Deposit { payer: Pubkey, funds: nat, amount: nat },
    /// `caller`, who holds `funds`, withdraws `amount`.
    Withdraw { caller: Pubkey, funds: nat, amount: nat },
    /// `caller` flips the lock.
    ToggleLock { caller: Pubkey },
}

/// Whether the vault in state `s` carries out the request.
pub open spec fn accepted(s: VaultState, r: Request) -> bool {
    match r {
        Request::Deposit { payer, funds, amount } => s.deposit_error(funds, amount) is None,
        Request::Withdraw { caller, funds, amount } => s.withdraw_error(caller, funds, amount)
            is None,
        Request::ToggleLock { caller } => s.authorizes(caller),
    }
}

/// The state after the request: changed as the request asks where it is
/// accepted, and as before where it is not.
pub open spec fn step(s: VaultState, r: Request) -> VaultState {
    if !accepted(s, r) {
        s
    } else {
        match r {
            Request::Deposit { payer, funds, amount } => s.credited(amount),
            Request::Withdraw { caller, funds, amount } => s.debited(amount),
            Request::ToggleLock { caller } => s.toggled(),
        }
    }
}

/// What the request adds to the event log: one record where it is accepted,
/// nothing where it is not.
pub open spec fn emitted(s: VaultState, r: Request) -> Seq<Event> {
    if !accepted(s, r) {
        Seq::empty()
    } else {
        match r {
            Request::Deposit { payer, funds, amount } => seq![
                Event::Deposit(DepositEvent { amount: amount as u64, user: payer, vault: s.address }),
            ],
            Request::Withdraw { caller, funds, amount } => seq![
                Event::Withdraw(
                    WithdrawEvent { amount: amount as u64, vault_authority: caller, vault: s.address },
                ),
            ],
            Request::ToggleLock { caller } => seq![
                Event::ToggleLock(
                    ToggleLockEvent {
                        vault: s.address,
                        vault_authority: s.authority,
                        locked: !s.locked,
                    },
                ),
            ],
        }
    }
}

/// The state after the requests `rs`, one after the other, from state `s`.
pub open spec fn run(s: VaultState, rs: Seq<Request>) -> VaultState
    decreases rs.len(),
{
    if rs.len() == 0 {
        s
    } else {
        step(run(s, rs.drop_last()), rs.last())
    }
}

/// The event log that the requests `rs` leave, one after the other, from
/// state `s`.
pub open spec fn run_log(s: VaultState, rs: Seq<Request>) -> Seq<Event>
    decreases rs.len(),
{
    if rs.len() == 0 {
        Seq::empty()
    } else {
        run_log(s, rs.drop_last()) + emitted(run(s, rs.drop_last()), rs.last())
    }
}

/// Whatever is asked of a vault whose balance is not negative, in whatever
/// order, its balance is never negative.
pub proof fn balance_never_negative(s: VaultState, rs: Seq<Request>)
    requires
        s.balance >= 0,
    ensures
        run(s, rs).balance >= 0,
    decreases rs.len(),
{
    if rs.len() > 0 {
        balance_never_negative(s, rs.drop_last());
    }
}

/// A vault is created empty, and whatever is asked of it from then on, in
/// whatever order, its balance is never negative.
pub proof fn balance_never_negative_since_creation(
    address: Pubkey,
    authority: Pubkey,
    locked: bool,
    rs: Seq<Request>,
)
    ensures
        VaultState::created(address, authority, locked).balance == 0,
        run(VaultState::created(address, authority, locked), rs).balance >= 0,
{
    balance_never_negative(VaultState::created(address, authority, locked), rs);
}

/// Whatever is asked of a well-formed vault, in whatever order, it stays
/// well-formed: its balance fits in a `u64`.
pub proof fn run_keeps_well_formed(s: VaultState, rs: Seq<Request>)
    requires
        s.wf(),
    ensures
        run(s, rs).wf(),
    decreases rs.len(),
{
    if rs.len() > 0 {
        run_keeps_well_formed(s, rs.drop_last());
    }
}

/// Where the vault has room for the amount, a deposit is carried out if and
/// only if the vault is not locked and the payer holds at least the amount.
/// A deposit that is not carried out changes nothing and leaves no record.
pub proof fn deposit_accepted_iff(s: VaultState, payer: Pubkey, funds: nat, amount: nat)
    requires
        s.balance + amount <= u64::MAX,
    ensures
        accepted(s, Request::Deposit { payer, funds, amount }) <==> !s.locked && funds >= amount,
        accepted(s, Request::Deposit { payer, funds, amount }) ==> step(
            s,
            Request::Deposit { payer, funds, amount },
        ) == s.credited(amount),
        !accepted(s, Request::Deposit { payer, funds, amount }) ==> step(
            s,
            Request::Deposit { payer, funds, amount },
        ) == s && emitted(s, Request::Deposit { payer, funds, amount }).len() == 0,
{
}

/// Where the caller has room for the amount, a withdrawal is carried out if
/// and only if the caller is the vault's authority, the vault is not locked,
/// and it holds at least the amount. A withdrawal that is not carried out
/// changes nothing and leaves no record.
pub proof fn withdraw_accepted_iff(s: VaultState, caller: Pubkey, funds: nat, amount: nat)
    requires
        funds + amount <= u64::MAX,
    ensures
        accepted(s, Request::Withdraw { caller, funds, amount }) <==> caller == s.authority
            && !s.locked && s.balance >= amount,
        accepted(s, Request::Withdraw { caller, funds, amount }) ==> step(
            s,
            Request::Withdraw { caller, funds, amount },
        ) == s.debited(amount),
        !accepted(s, Request::Withdraw { caller, funds, amount }) ==> step(
            s,
            Request::Withdraw { caller, funds, amount },
        ) == s && emitted(s, Request::Withdraw { caller, funds, amount }).len() == 0,
{
}

/// A caller other than the authority is refused a withdrawal as if the vault
/// were locked, whether it is locked or not.
pub proof fn withdraw_by_stranger_is_refused_as_locked(
    s: VaultState,
    caller: Pubkey,
    funds: nat,
    amount: nat,
)
    requires
        caller != s.authority,
    ensures
        s.withdraw_error(caller, funds, amount) == Some(VaultError::VaultLocked),
{
}

/// The lock is flipped if and only if the caller is the vault's authority.
/// Flipping it changes the lock and nothing else; a refused attempt changes
/// nothing and leaves no record. In neither case is the balance touched.
pub proof fn toggle_lock_accepted_iff(s: VaultState, caller: Pubkey)
    ensures
        accepted(s, Request::ToggleLock { caller }) <==> caller == s.authority,
        accepted(s, Request::ToggleLock { caller }) ==> step(s, Request::ToggleLock { caller })
            == (VaultState { locked: !s.locked, ..s }),
        !accepted(s, Request::ToggleLock { caller }) ==> step(s, Request::ToggleLock { caller })
            == s && emitted(s, Request::ToggleLock { caller }).len() == 0,
        step(s, Request::ToggleLock { caller }).balance == s.balance,
{
}

/// Whatever is asked of a vault, in whatever order, its authority and its
/// address stay what they were.
pub proof fn authority_never_changes(s: VaultState, rs: Seq<Request>)
    ensures
        run(s, rs).authority == s.authority,
        run(s, rs).address == s.address,
    decreases rs.len(),
{
    if rs.len() > 0 {
        authority_never_changes(s, rs.drop_last());
    }
}

/// A request is carried out whole or not at all: it leaves exactly one record
/// where it is accepted, and where it is not, it leaves none and the state is
/// as before. So the balance never changes without a record.
pub proof fn every_change_is_recorded(s: VaultState, r: Request)
    ensures
        accepted(s, r) ==> emitted(s, r).len() == 1,
        !accepted(s, r) ==> emitted(s, r).len() == 0 && step(s, r) == s,
        step(s, r).balance != s.balance ==> emitted(s, r).len() == 1,
{
}

/// The event log of a run holds one record for each request that was
/// accepted, so it is never longer than the run.
pub proof fn log_never_longer_than_run(s: VaultState, rs: Seq<Request>)
    ensures
        run_log(s, rs).len() <= rs.len(),
    decreases rs.len(),
{
    if rs.len() > 0 {
        log_never_longer_than_run(s, rs.drop_last());
        every_change_is_recorded(run(s, rs.drop_last()), rs.last());
    }
}

} // verus!
