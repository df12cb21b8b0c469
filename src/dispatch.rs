use vstd::prelude::*;

use spl_transfer_hook_interface::instruction::TransferHookInstruction;

use crate::descriptor::le_value;
use crate::error::HookError;
use crate::policy::{hook_outcome, same_keys, transfer_hook, TransferHook};

verus! {

/// The operations of the transfer-hook instruction family, as far as this
/// hook tells them apart.
#[derive(Clone, Copy, Debug, PartialEq, Eq, Structural)]
pub enum HookInstruction {
    /// A transfer of `amount` is under way and the hook must run.
    Execute { amount: u64 },
    /// A request to write a descriptor through the interface.
    InitializeExtraAccountMetaList,
    /// A request to rewrite a descriptor through the interface.
    UpdateExtraAccountMetaList,
}

/// What the transfer-hook interface decodes `data` to, or `None` where it
/// rejects the bytes.
pub uninterp spec fn decoded_instruction(data: Seq<u8>) -> Option<HookInstruction>;

/// Relies on TransferHookInstruction::unpack: an 8-byte discriminator picks
/// the operation, and an execute request carries its amount as the next 8
/// bytes, little-endian.
#[verifier::external_body]
fn unpack_instruction(data: &Vec<u8>) -> (r: Option<HookInstruction>)
    ensures
        r == decoded_instruction(data@),
        data@.len() < 8 ==> r is None,
        r matches Some(HookInstruction::Execute { amount }) ==> data@.len() >= 16 && amount
            == le_value(data@.subrange(8, 16)),
{
    match TransferHookInstruction::unpack(data.as_slice()) {
        Ok(TransferHookInstruction::Execute { amount }) => Some(HookInstruction::Execute { amount }),
        Ok(TransferHookInstruction::InitializeExtraAccountMetaList { .. }) => Some(
            HookInstruction::InitializeExtraAccountMetaList,
        ),
        Ok(TransferHookInstruction::UpdateExtraAccountMetaList { .. }) => Some(
            HookInstruction::UpdateExtraAccountMetaList,
        ),
        Err(_) => None,
    }
}

/// What routing a decoded instruction does to the hook's accounts, or the
/// error it ends in. `None` stands for bytes that did not decode.
pub open spec fn route_outcome(
    ctx: TransferHook,
    instruction: Option<HookInstruction>,
) -> Result<(), HookError> {
    match instruction {
        None => Err(HookError::MalformedInstruction),
        Some(HookInstruction::Execute { amount }) => match hook_outcome(
            ctx.counter_account@,
            ctx.destination_token@,
            amount,
        ) {
            Ok(_) => Ok(()),
            Err(e) => Err(e),
        },
        Some(_) => Err(HookError::UnsupportedInstruction),
    }
}

/// Sends a decoded instruction to the hook: an execute request runs it
/// with its amount, every other operation is refused, and so are bytes that
/// did not decode. Only a hook that lets the transfer through changes the
/// policy record.
pub fn route_instruction(ctx: &mut TransferHook, instruction: Option<HookInstruction>) -> (r:
    Result<(), HookError>)
    ensures
        same_keys(*final(ctx), *old(ctx)),
        r == route_outcome(*old(ctx), instruction),
        match instruction {
            Some(HookInstruction::Execute { amount }) => match hook_outcome(
                old(ctx).counter_account@,
                old(ctx).destination_token@,
                amount,
            ) {
                Ok(state) => final(ctx).counter_account@ == state,
                Err(_) => final(ctx).counter_account@ == old(ctx).counter_account@,
            },
            _ => final(ctx).counter_account@ == old(ctx).counter_account@,
        },
{
    match instruction {
        None => Err(HookError::MalformedInstruction),
        Some(HookInstruction::Execute { amount }) => transfer_hook(ctx, amount),
        Some(_) => Err(HookError::UnsupportedInstruction),
    }
}

/// Decodes raw instruction bytes with the transfer-hook interface's own
/// scheme and routes the result, as [`route_instruction`] does.
pub fn fallback(ctx: &mut TransferHook, data: &Vec<u8>) -> (r: Result<(), HookError>)
    ensures
        same_keys(*final(ctx), *old(ctx)),
        r == route_outcome(*old(ctx), decoded_instruction(data@)),
        data@.len() < 8 ==> r == Err::<(), HookError>(HookError::MalformedInstruction)
            && final(ctx).counter_account@ == old(ctx).counter_account@,
        match decoded_instruction(data@) {
            Some(HookInstruction::Execute { amount }) => match hook_outcome(
                old(ctx).counter_account@,
                old(ctx).destination_token@,
                amount,
            ) {
                Ok(state) => final(ctx).counter_account@ == state,
                Err(_) => final(ctx).counter_account@ == old(ctx).counter_account@,
            },
            _ => final(ctx).counter_account@ == old(ctx).counter_account@,
        },
{
    let instruction = unpack_instruction(data);
    route_instruction(ctx, instruction)
}

} // verus!
