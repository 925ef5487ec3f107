//! The request to the system program that moves funds between two accounts.

use crate::pubkey::Pubkey;
use anchor_lang::solana_program::instruction::Instruction;
use vstd::prelude::*;

verus! {

/// `anchor_lang::solana_program::instruction::Instruction`: an instruction for
/// a program of the host. The library hands it on to the host and never looks
/// inside, so nothing is claimed of what it holds.
#[verifier::external_type_specification]
#[verifier::external_body]
pub struct ExInstruction(Instruction);

/// The instruction that
/// `anchor_lang::solana_program::system_instruction::transfer` builds for a
/// transfer of `lamports` from the account `from` to the account `to`, each
/// given by its 32 bytes.
pub uninterp spec fn system_transfer(from: Seq<u8>, to: Seq<u8>, lamports: u64) -> Instruction;

/// Calls `anchor_lang::solana_program::system_instruction::transfer`.
///
/// The contract claims one thing of it: that the instruction is a function of
/// the two addresses and the amount alone. The outside function builds it
/// from these three values and a constant program id, reads nothing else, and
/// cannot fail.
#[verifier::external_body]
pub(crate) fn transfer(from: &Pubkey, to: &Pubkey, lamports: u64) -> (ix: Instruction)
    ensures
        ix == system_transfer(from@, to@, lamports),
{
    anchor_lang::solana_program::system_instruction::transfer(
        &anchor_lang::solana_program::pubkey::Pubkey::new_from_array(from.bytes),
        &anchor_lang::solana_program::pubkey::Pubkey::new_from_array(to.bytes),
        lamports,
    )
}

} // verus!
