use spl_transfer_hook_interface::instruction::TransferHookInstruction;
use transfer_hook::{
    add_to_white_list, counter_seeds, fallback, initialize_extra_account_meta_list, resolve_seed,
    resolve_seeds, route_instruction, transfer_hook, CounterAccount, HookError, HookInstruction,
    InitializeExtraAccountMetaList, Seed, TransferHook, MAX_WHITE_LIST_LEN,
};

fn key(b: u8) -> [u8; 32] {
    [b; 32]
}

fn hook_ctx(owner: [u8; 32], authority: [u8; 32], list: Vec<[u8; 32]>) -> TransferHook {
    TransferHook {
        source_token: key(1),
        mint: key(2),
        destination_token: key(3),
        owner,
        extra_account_meta_list: key(5),
        counter_account: CounterAccount { count: 0, authority, white_list: list },
    }
}

fn init_ctx(payer: [u8; 32]) -> InitializeExtraAccountMetaList {
    InitializeExtraAccountMetaList {
        payer,
        mint: key(2),
        extra_account_meta_list: Vec::new(),
        counter_account: None,
    }
}

fn execute_bytes(amount: u64) -> Vec<u8> {
    TransferHookInstruction::Execute { amount }.pack()
}

#[test]
fn allowed_transfer_counts_once() {
    for amount in [0u64, 1, 10, 50] {
        let mut ctx = hook_ctx(key(4), key(4), vec![key(3)]);
        ctx.counter_account.count = 7;
        assert_eq!(transfer_hook(&mut ctx, amount), Ok(()));
        assert_eq!(ctx.counter_account.count, 8);
        assert_eq!(ctx.counter_account.white_list, vec![key(3)]);
        assert_eq!(ctx.counter_account.authority, key(4));
    }
}

#[test]
fn amount_over_limit_refused() {
    let mut ctx = hook_ctx(key(4), key(4), vec![key(3)]);
    assert_eq!(transfer_hook(&mut ctx, 51), Err(HookError::AmountExceedsLimit));
    assert_eq!(ctx.counter_account.count, 0);
    assert_eq!(transfer_hook(&mut ctx, u64::MAX), Err(HookError::AmountExceedsLimit));
    assert_eq!(ctx.counter_account.count, 0);
}

#[test]
fn destination_not_allowed_refused() {
    let mut empty = hook_ctx(key(4), key(4), Vec::new());
    assert_eq!(transfer_hook(&mut empty, 10), Err(HookError::DestinationNotAllowed));
    assert_eq!(empty.counter_account.count, 0);
    assert!(empty.counter_account.white_list.is_empty());

    let mut other = hook_ctx(key(4), key(4), vec![key(9), key(8)]);
    assert_eq!(transfer_hook(&mut other, 10), Err(HookError::DestinationNotAllowed));
    assert_eq!(other.counter_account.count, 0);
    assert_eq!(other.counter_account.white_list, vec![key(9), key(8)]);
}

#[test]
fn counter_wraps_at_top() {
    let mut ctx = hook_ctx(key(4), key(4), vec![key(3)]);
    ctx.counter_account.count = u64::MAX;
    assert_eq!(transfer_hook(&mut ctx, 1), Ok(()));
    assert_eq!(ctx.counter_account.count, 0);
}

#[test]
fn add_by_stranger_refused() {
    let mut ctx = hook_ctx(key(6), key(4), vec![key(9)]);
    assert_eq!(add_to_white_list(&mut ctx, key(3)), Err(HookError::Unauthorized));
    assert_eq!(ctx.counter_account.white_list, vec![key(9)]);
}

#[test]
fn add_by_authority_appends() {
    let mut ctx = hook_ctx(key(4), key(4), vec![key(9), key(8)]);
    assert_eq!(add_to_white_list(&mut ctx, key(3)), Ok(()));
    assert_eq!(ctx.counter_account.white_list, vec![key(9), key(8), key(3)]);
    assert_eq!(add_to_white_list(&mut ctx, key(9)), Ok(()));
    assert_eq!(ctx.counter_account.white_list, vec![key(9), key(8), key(3), key(9)]);
    assert_eq!(ctx.counter_account.count, 0);
}

#[test]
fn add_to_full_list_refused() {
    let full: Vec<[u8; 32]> = (0..MAX_WHITE_LIST_LEN as u8).map(key).collect();
    let mut ctx = hook_ctx(key(4), key(4), full.clone());
    assert_eq!(add_to_white_list(&mut ctx, key(200)), Err(HookError::CapacityExceeded));
    assert_eq!(ctx.counter_account.white_list, full);
}

#[test]
fn initialize_writes_descriptor_and_policy_record() {
    let mut ctx = init_ctx(key(7));
    assert_eq!(initialize_extra_account_meta_list(&mut ctx), Ok(()));
    assert_eq!(ctx.extra_account_meta_list.len(), 16 + 35);
    assert_eq!(&ctx.extra_account_meta_list[..8], &execute_bytes(0)[..8]);
    // one entry in the list
    assert_eq!(&ctx.extra_account_meta_list[12..16], &[1u8, 0, 0, 0]);
    // the entry is a seed-derived address: "counter", then bytes 32..64 of account 0
    let entry = &ctx.extra_account_meta_list[16..];
    assert_eq!(entry[0], 1);
    assert_eq!(&entry[1..10], &[1u8, 7, b'c', b'o', b'u', b'n', b't', b'e', b'r']);
    assert_eq!(&entry[10..14], &[4u8, 0, 32, 32]);
    assert_eq!(entry[33], 0);
    assert_eq!(entry[34], 1);
    let record = ctx.counter_account.as_ref().unwrap();
    assert_eq!(record.count, 0);
    assert_eq!(record.authority, key(7));
    assert!(record.white_list.is_empty());
}

#[test]
fn reinitialize_refused() {
    let mut ctx = init_ctx(key(7));
    assert_eq!(initialize_extra_account_meta_list(&mut ctx), Ok(()));
    let bytes = ctx.extra_account_meta_list.clone();
    assert_eq!(
        initialize_extra_account_meta_list(&mut ctx),
        Err(HookError::AlreadyInitialized)
    );
    assert_eq!(ctx.extra_account_meta_list, bytes);
    assert_eq!(ctx.counter_account.as_ref().unwrap().count, 0);
}

#[test]
fn initialize_keeps_existing_policy_record() {
    let mut ctx = init_ctx(key(7));
    ctx.counter_account =
        Some(CounterAccount { count: 3, authority: key(7), white_list: vec![key(3)] });
    assert_eq!(initialize_extra_account_meta_list(&mut ctx), Ok(()));
    let record = ctx.counter_account.as_ref().unwrap();
    assert_eq!(record.count, 3);
    assert_eq!(record.white_list, vec![key(3)]);
}

#[test]
fn seed_resolution_reads_owner() {
    let mut source: Vec<u8> = (0..165u32).map(|i| i as u8).collect();
    source[32..64].copy_from_slice(&key(4));
    let accounts = vec![source, vec![9u8; 10]];
    let seed = Seed::AccountData { account_index: 0, data_index: 32, length: 32 };
    let first = resolve_seed(&seed, &accounts).unwrap();
    let second = resolve_seed(&seed, &accounts).unwrap();
    assert_eq!(first, key(4).to_vec());
    assert_eq!(first, second);
    let literal = Seed::Literal { bytes: b"counter".to_vec() };
    assert_eq!(resolve_seed(&literal, &accounts).unwrap(), b"counter".to_vec());
}

#[test]
fn seed_resolution_out_of_range() {
    let accounts = vec![vec![0u8; 63]];
    let seed = Seed::AccountData { account_index: 0, data_index: 32, length: 32 };
    assert_eq!(resolve_seed(&seed, &accounts), Err(HookError::OutOfRange));
    let missing = Seed::AccountData { account_index: 1, data_index: 0, length: 1 };
    assert_eq!(resolve_seed(&missing, &accounts), Err(HookError::OutOfRange));
    let exact = vec![vec![5u8; 64]];
    assert_eq!(resolve_seed(&seed, &exact), Ok(vec![5u8; 32]));
}

#[test]
fn descriptor_seeds_locate_policy_account() {
    let mut source = vec![0u8; 165];
    source[32..64].copy_from_slice(&key(4));
    let accounts = vec![source, vec![], vec![], vec![]];
    let seeds = resolve_seeds(&counter_seeds(), &accounts).unwrap();
    assert_eq!(seeds, vec![b"counter".to_vec(), key(4).to_vec()]);
    assert_eq!(resolve_seeds(&counter_seeds(), &vec![vec![0u8; 40]]), Err(HookError::OutOfRange));
}

#[test]
fn route_decoded_instructions() {
    let mut ctx = hook_ctx(key(4), key(4), vec![key(3)]);
    assert_eq!(route_instruction(&mut ctx, None), Err(HookError::MalformedInstruction));
    assert_eq!(
        route_instruction(&mut ctx, Some(HookInstruction::UpdateExtraAccountMetaList)),
        Err(HookError::UnsupportedInstruction)
    );
    assert_eq!(ctx.counter_account.count, 0);
    assert_eq!(route_instruction(&mut ctx, Some(HookInstruction::Execute { amount: 5 })), Ok(()));
    assert_eq!(ctx.counter_account.count, 1);
}

#[test]
fn fallback_runs_execute() {
    let mut ctx = hook_ctx(key(4), key(4), vec![key(3)]);
    assert_eq!(fallback(&mut ctx, &execute_bytes(10)), Ok(()));
    assert_eq!(ctx.counter_account.count, 1);
    assert_eq!(fallback(&mut ctx, &execute_bytes(51)), Err(HookError::AmountExceedsLimit));
    assert_eq!(ctx.counter_account.count, 1);
}

#[test]
fn fallback_refuses_other_bytes() {
    let mut ctx = hook_ctx(key(4), key(4), vec![key(3)]);
    assert_eq!(fallback(&mut ctx, &vec![1u8, 2, 3]), Err(HookError::MalformedInstruction));
    assert_eq!(fallback(&mut ctx, &vec![0u8; 16]), Err(HookError::MalformedInstruction));
    let short = execute_bytes(10)[..12].to_vec();
    assert_eq!(fallback(&mut ctx, &short), Err(HookError::MalformedInstruction));
    let init = TransferHookInstruction::InitializeExtraAccountMetaList {
        extra_account_metas: Vec::new(),
    }
    .pack();
    assert_eq!(fallback(&mut ctx, &init), Err(HookError::UnsupportedInstruction));
    assert_eq!(ctx.counter_account.count, 0);
}

#[test]
fn policy_lifecycle() {
    let payer = key(7);
    let destination = key(3);
    let mut init = init_ctx(payer);
    assert_eq!(initialize_extra_account_meta_list(&mut init), Ok(()));
    let record = init.counter_account.take().unwrap();
    assert_eq!(record.count, 0);
    assert!(record.white_list.is_empty());

    let mut ctx = TransferHook {
        source_token: key(1),
        mint: key(2),
        destination_token: destination,
        owner: payer,
        extra_account_meta_list: key(5),
        counter_account: record,
    };
    assert_eq!(add_to_white_list(&mut ctx, destination), Ok(()));
    assert_eq!(ctx.counter_account.white_list, vec![destination]);
    assert_eq!(transfer_hook(&mut ctx, 10), Ok(()));
    assert_eq!(ctx.counter_account.count, 1);
    assert_eq!(transfer_hook(&mut ctx, 100), Err(HookError::AmountExceedsLimit));
    assert_eq!(ctx.counter_account.count, 1);
}
