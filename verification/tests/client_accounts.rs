use serum_staking::address::{AccountMeta, Address};
use serum_staking::client::{
    basket_assets, common_pool_accounts, create_pending_withdrawal_instruction, deposit_accounts,
    end_stake_withdrawal_accounts, stake_accounts, stake_pool_accounts,
    start_stake_withdrawal_accounts, update_entity_accounts, withdraw_accounts,
    withdraws_from_mega, PoolAccounts, RegistrarAccounts,
};

const TOKEN_PROGRAM: [u8; 32] = [
    6, 221, 246, 225, 215, 101, 161, 147, 217, 203, 225, 70, 206, 235, 121, 172, 28, 180, 133,
    237, 95, 91, 55, 145, 58, 140, 245, 133, 126, 255, 0, 169,
];
const CLOCK: [u8; 32] = [
    6, 167, 213, 23, 24, 199, 116, 201, 40, 86, 99, 152, 105, 29, 94, 182, 139, 94, 184, 163, 155,
    75, 109, 92, 115, 85, 91, 33, 0, 0, 0, 0,
];
const RENT: [u8; 32] = [
    6, 167, 213, 23, 25, 44, 92, 81, 33, 140, 201, 76, 61, 74, 241, 127, 88, 218, 238, 8, 155,
    161, 253, 68, 227, 219, 217, 138, 0, 0, 0, 0,
];

fn addr(n: u8) -> Address {
    Address { bytes: [n; 32] }
}

fn view(metas: &[AccountMeta]) -> Vec<([u8; 32], bool, bool)> {
    metas.iter().map(|m| (m.pubkey.bytes, m.is_signer, m.is_writable)).collect()
}

fn w(bytes: [u8; 32], signer: bool) -> ([u8; 32], bool, bool) {
    (bytes, signer, true)
}

fn ro(bytes: [u8; 32], signer: bool) -> ([u8; 32], bool, bool) {
    (bytes, signer, false)
}

fn registrar() -> RegistrarAccounts {
    RegistrarAccounts { vault: addr(10), mega_vault: addr(11), pool: addr(12), mega_pool: addr(13) }
}

fn pool() -> PoolAccounts {
    PoolAccounts { pool_token_mint: addr(20), vault_signer: addr(21), asset_vaults: vec![addr(22)] }
}

fn mega_pool() -> PoolAccounts {
    PoolAccounts {
        pool_token_mint: addr(30),
        vault_signer: addr(31),
        asset_vaults: vec![addr(32), addr(33)],
    }
}

#[test]
fn ids_are_the_well_known_programs() {
    let v = start_stake_withdrawal_accounts(addr(1), addr(2), addr(3), addr(4), addr(5), addr(6), vec![]);
    assert_eq!(v[6].pubkey.bytes, spl_token::ID.to_bytes());
    assert_eq!(v[7].pubkey.bytes, solana_program::sysvar::clock::ID.to_bytes());
    assert_eq!(v[8].pubkey.bytes, solana_program::sysvar::rent::ID.to_bytes());
    assert_eq!(TOKEN_PROGRAM, spl_token::ID.to_bytes());
}

#[test]
fn update_entity_lists_entity_leader_registrar() {
    let v = update_entity_accounts(addr(1), addr(2), addr(3));
    assert_eq!(view(&v), vec![w([1; 32], false), ro([2; 32], true), ro([3; 32], false)]);
}

#[test]
fn deposit_puts_pool_accounts_last() {
    let pool_accs = vec![AccountMeta::new(addr(50), false), AccountMeta::new_readonly(addr(51), false)];
    let v = deposit_accounts(addr(1), addr(2), addr(3), addr(4), addr(5), addr(6), addr(7), pool_accs);
    assert_eq!(
        view(&v),
        vec![
            w([1; 32], false),
            w([2; 32], true),
            ro(TOKEN_PROGRAM, false),
            w([3; 32], false),
            ro([4; 32], true),
            w([5; 32], false),
            ro([6; 32], false),
            ro(CLOCK, false),
            w([7; 32], false),
            w([50; 32], false),
            ro([51; 32], false),
        ]
    );
}

#[test]
fn withdraw_names_the_beneficiary_twice() {
    let v = withdraw_accounts(addr(1), addr(2), addr(3), addr(4), addr(5), addr(6), addr(7), vec![]);
    assert_eq!(
        view(&v),
        vec![
            w([1; 32], false),
            ro([2; 32], true),
            ro(TOKEN_PROGRAM, false),
            w([3; 32], false),
            w([4; 32], false),
            ro([2; 32], true),
            w([5; 32], false),
            ro([6; 32], false),
            ro(CLOCK, false),
            w([7; 32], false),
        ]
    );
}

#[test]
fn withdraw_from_mega_vault_only() {
    assert!(withdraws_from_mega(&addr(11), &registrar()));
    assert!(!withdraws_from_mega(&addr(10), &registrar()));
}

#[test]
fn basket_assets_follow_the_mega_flag() {
    let r = registrar();
    let one: Vec<[u8; 32]> = basket_assets(&r, false).iter().map(|a| a.bytes).collect();
    let two: Vec<[u8; 32]> = basket_assets(&r, true).iter().map(|a| a.bytes).collect();
    assert_eq!(one, vec![[10; 32]]);
    assert_eq!(two, vec![[10; 32], [11; 32]]);
}

#[test]
fn stake_lists_member_beneficiary_entity_registrar_clock_token() {
    let v = stake_accounts(addr(1), addr(2), addr(3), addr(4), vec![AccountMeta::new(addr(9), false)]);
    assert_eq!(
        view(&v),
        vec![
            w([1; 32], false),
            ro([2; 32], true),
            w([3; 32], false),
            ro([4; 32], false),
            ro(CLOCK, false),
            ro(TOKEN_PROGRAM, false),
            w([9; 32], false),
        ]
    );
}

#[test]
fn start_stake_withdrawal_lists_rent_last() {
    let v = start_stake_withdrawal_accounts(addr(1), addr(2), addr(3), addr(4), addr(5), addr(6), vec![]);
    assert_eq!(
        view(&v),
        vec![
            w([1; 32], false),
            w([2; 32], false),
            ro([3; 32], true),
            w([4; 32], false),
            ro([5; 32], false),
            w([6; 32], false),
            ro(TOKEN_PROGRAM, false),
            ro(CLOCK, false),
            ro(RENT, false),
        ]
    );
}

#[test]
fn end_stake_withdrawal_lists_six_accounts() {
    let v = end_stake_withdrawal_accounts(addr(1), addr(2), addr(3), addr(4), addr(5));
    assert_eq!(
        view(&v),
        vec![
            w([1; 32], false),
            w([2; 32], false),
            ro([3; 32], true),
            w([4; 32], false),
            ro([5; 32], false),
            ro(CLOCK, false),
        ]
    );
}

#[test]
fn common_pool_accounts_lists_both_pools() {
    let (v, mint) = common_pool_accounts(addr(1), addr(2), addr(3), &registrar(), &pool(), &mega_pool(), false);
    assert_eq!(
        view(&v),
        vec![
            ro([1; 32], false),
            ro([2; 32], false),
            w([3; 32], false),
            w([12; 32], false),
            w([20; 32], false),
            w([22; 32], false),
            ro([21; 32], false),
            w([13; 32], false),
            w([30; 32], false),
            w([32; 32], false),
            w([33; 32], false),
            ro([31; 32], false),
        ]
    );
    assert_eq!(mint.bytes, [20; 32]);
    let (_, mega_mint) = common_pool_accounts(addr(1), addr(2), addr(3), &registrar(), &pool(), &mega_pool(), true);
    assert_eq!(mega_mint.bytes, [30; 32]);
}

#[test]
fn stake_pool_accounts_extend_the_common_accounts() {
    let common = vec![AccountMeta::new_readonly(addr(1), false)];
    let v = stake_pool_accounts(common, addr(2), &vec![addr(3), addr(4)], addr(5));
    assert_eq!(
        view(&v),
        vec![ro([1; 32], false), w([2; 32], false), w([3; 32], false), w([4; 32], false), ro([5; 32], false)]
    );
    let bare = stake_pool_accounts(vec![], addr(2), &vec![], addr(5));
    assert_eq!(view(&bare), vec![w([2; 32], false), ro([5; 32], false)]);
}

#[test]
fn pending_withdrawal_instruction_is_a_system_create_account() {
    let ix = create_pending_withdrawal_instruction(&addr(1), &addr(2), 1000, 96, &addr(3));
    assert_eq!(ix.program_id.bytes, [0; 32]);
    assert_eq!(view(&ix.accounts), vec![w([1; 32], true), w([2; 32], true)]);
    let expected = solana_program::system_instruction::create_account(
        &solana_program::pubkey::Pubkey::new_from_array([1; 32]),
        &solana_program::pubkey::Pubkey::new_from_array([2; 32]),
        1000,
        96,
        &solana_program::pubkey::Pubkey::new_from_array([3; 32]),
    );
    assert_eq!(ix.data, expected.data);
    assert_eq!(ix.data.len(), 52);
    assert_eq!(&ix.data[0..4], &[0, 0, 0, 0]);
    assert_eq!(&ix.data[4..12], &1000u64.to_le_bytes());
    assert_eq!(&ix.data[12..20], &96u64.to_le_bytes());
    assert_eq!(&ix.data[20..52], &[3; 32]);
}
