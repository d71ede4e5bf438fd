//! What the registry client computes before it talks to the cluster: the
//! accounts of each registry instruction, the vault that takes a deposit, the
//! vault authority, and the checks on the stake pools' asset lists.
use crate::address::{AccountMeta, Address, MetaView, append_metas, metas, readonly, writable};
use crate::programs::{
    Instruction, clock_sysvar_id, clock_sysvar_key, create_program_address, program_address,
    rent_sysvar_id, rent_sysvar_key, seeds_in_limits, seeds_view, system_create_account, token_program_id,
    token_program_key,
};
use vstd::prelude::*;

verus! {

/// The addresses of a registrar that the client's instructions name.
#[derive(Clone, Copy, Debug)]
pub struct RegistrarAccounts {
    /// The stake intent vault.
    pub vault: Address,
    /// The stake intent vault for the mega token.
    pub mega_vault: Address,
    /// The staking pool.
    pub pool: Address,
    /// The mega staking pool.
    pub mega_pool: Address,
}

/// The addresses of a staking pool's state that the client's instructions name.
#[derive(Clone, Debug)]
pub struct PoolAccounts {
    pub pool_token_mint: Address,
    pub vault_signer: Address,
    /// The vault of each of the pool's assets, in the pool's order.
    pub asset_vaults: Vec<Address>,
}

/// An error of the registry client.
#[derive(Debug)]
pub enum ClientError {
    Any(String),
}

/// Whether `r` is the client error with the message `msg`.
pub open spec fn is_any_error<T>(r: Result<T, ClientError>, msg: Seq<char>) -> bool {
    r matches Err(ClientError::Any(m)) && m@ == msg
}

/// A client error answer carries exactly its message.
pub proof fn any_error_carries_its_message<T>(r: Result<T, ClientError>, msg: Seq<char>)
    ensures
        is_any_error(r, msg) ==> r is Err,
        (r matches Err(ClientError::Any(m)) && m@ == msg) ==> is_any_error(r, msg),
        is_any_error(r, msg) ==> (r matches Err(ClientError::Any(m)) && m@ == msg),
{
}

fn any_error(msg: &str) -> (e: ClientError)
    ensures
        e matches ClientError::Any(m) && m@ == msg@,
{
    ClientError::Any(msg.to_owned())
}

/// The accounts of the update-entity instruction.
pub fn update_entity_accounts(entity: Address, leader: Address, registrar: Address) -> (r: Vec<
    AccountMeta,
>)
    ensures
        metas(r@) == seq![
            writable(entity@, false),
            readonly(leader@, true),
            readonly(registrar@, false),
        ],
{
    let mut v: Vec<AccountMeta> = Vec::new();
    v.push(AccountMeta::new(entity, false));
    v.push(AccountMeta::new_readonly(leader, true));
    v.push(AccountMeta::new_readonly(registrar, false));
    proof {
        assert(metas(v@) =~= seq![
            writable(entity@, false),
            readonly(leader@, true),
            readonly(registrar@, false),
        ]);
    }
    v
}

/// The accounts of the deposit instruction, with the pool accounts last.
pub fn deposit_accounts(
    depositor: Address,
    depositor_authority: Address,
    member: Address,
    beneficiary: Address,
    entity: Address,
    registrar: Address,
    vault: Address,
    pool_accounts: Vec<AccountMeta>,
) -> (r: Vec<AccountMeta>)
    ensures
        metas(r@) == seq![
            writable(depositor@, false),
            writable(depositor_authority@, true),
            readonly(token_program_key(), false),
            writable(member@, false),
            readonly(beneficiary@, true),
            writable(entity@, false),
            readonly(registrar@, false),
            readonly(clock_sysvar_key(), false),
            writable(vault@, false),
        ] + metas(pool_accounts@),
{
    let mut v: Vec<AccountMeta> = Vec::new();
    v.push(AccountMeta::new(depositor, false));
    v.push(AccountMeta::new(depositor_authority, true));
    v.push(AccountMeta::new_readonly(token_program_id(), false));
    v.push(AccountMeta::new(member, false));
    v.push(AccountMeta::new_readonly(beneficiary, true));
    v.push(AccountMeta::new(entity, false));
    v.push(AccountMeta::new_readonly(registrar, false));
    v.push(AccountMeta::new_readonly(clock_sysvar_id(), false));
    v.push(AccountMeta::new(vault, false));
    proof {
        assert(metas(v@) =~= seq![
            writable(depositor@, false),
            writable(depositor_authority@, true),
            readonly(token_program_key(), false),
            writable(member@, false),
            readonly(beneficiary@, true),
            writable(entity@, false),
            readonly(registrar@, false),
            readonly(clock_sysvar_key(), false),
            writable(vault@, false),
        ]);
    }
    append_metas(&mut v, pool_accounts);
    v
}

/// The accounts of the withdraw instruction, with the pool accounts last.
/// `vault_owner` is the owner of the registrar's stake intent vault.
pub fn withdraw_accounts(
    depositor: Address,
    beneficiary: Address,
    vault_owner: Address,
    member: Address,
    entity: Address,
    registrar: Address,
    vault: Address,
    pool_accounts: Vec<AccountMeta>,
) -> (r: Vec<AccountMeta>)
    ensures
        metas(r@) == seq![
            writable(depositor@, false),
            readonly(beneficiary@, true),
            readonly(token_program_key(), false),
            writable(vault_owner@, false),
            writable(member@, false),
            readonly(beneficiary@, true),
            writable(entity@, false),
            readonly(registrar@, false),
            readonly(clock_sysvar_key(), false),
            writable(vault@, false),
        ] + metas(pool_accounts@),
{
    let mut v: Vec<AccountMeta> = Vec::new();
    v.push(AccountMeta::new(depositor, false));
    v.push(AccountMeta::new_readonly(beneficiary, true));
    v.push(AccountMeta::new_readonly(token_program_id(), false));
    v.push(AccountMeta::new(vault_owner, false));
    v.push(AccountMeta::new(member, false));
    v.push(AccountMeta::new_readonly(beneficiary, true));
    v.push(AccountMeta::new(entity, false));
    v.push(AccountMeta::new_readonly(registrar, false));
    v.push(AccountMeta::new_readonly(clock_sysvar_id(), false));
    v.push(AccountMeta::new(vault, false));
    proof {
        assert(metas(v@) =~= seq![
            writable(depositor@, false),
            readonly(beneficiary@, true),
            readonly(token_program_key(), false),
            writable(vault_owner@, false),
            writable(member@, false),
            readonly(beneficiary@, true),
            writable(entity@, false),
            readonly(registrar@, false),
            readonly(clock_sysvar_key(), false),
            writable(vault@, false),
        ]);
    }
    append_metas(&mut v, pool_accounts);
    v
}

/// Whether a withdrawal from `vault` goes through the mega pool: it does when
/// `vault` is the registrar's mega stake intent vault.
pub fn withdraws_from_mega(vault: &Address, registrar: &RegistrarAccounts) -> (r: bool)
    ensures
        r == (vault@ == registrar.mega_vault@),
{
    vault.same(&registrar.mega_vault)
}

/// The registrar vaults that a stake (or a stake withdrawal) moves funds
/// between: the stake intent vault, and the mega vault too for the mega pool.
pub fn basket_assets(registrar: &RegistrarAccounts, mega: bool) -> (r: Vec<Address>)
    ensures
        r@ == if mega {
            seq![registrar.vault, registrar.mega_vault]
        } else {
            seq![registrar.vault]
        },
{
    let mut v: Vec<Address> = Vec::new();
    v.push(registrar.vault);
    if mega {
        v.push(registrar.mega_vault);
    }
    v
}

/// The accounts of the stake instruction, with the pool accounts last.
pub fn stake_accounts(
    member: Address,
    beneficiary: Address,
    entity: Address,
    registrar: Address,
    pool_accounts: Vec<AccountMeta>,
) -> (r: Vec<AccountMeta>)
    ensures
        metas(r@) == seq![
            writable(member@, false),
            readonly(beneficiary@, true),
            writable(entity@, false),
            readonly(registrar@, false),
            readonly(clock_sysvar_key(), false),
            readonly(token_program_key(), false),
        ] + metas(pool_accounts@),
{
    let mut v: Vec<AccountMeta> = Vec::new();
    v.push(AccountMeta::new(member, false));
    v.push(AccountMeta::new_readonly(beneficiary, true));
    v.push(AccountMeta::new(entity, false));
    v.push(AccountMeta::new_readonly(registrar, false));
    v.push(AccountMeta::new_readonly(clock_sysvar_id(), false));
    v.push(AccountMeta::new_readonly(token_program_id(), false));
    proof {
        assert(metas(v@) =~= seq![
            writable(member@, false),
            readonly(beneficiary@, true),
            writable(entity@, false),
            readonly(registrar@, false),
            readonly(clock_sysvar_key(), false),
            readonly(token_program_key(), false),
        ]);
    }
    append_metas(&mut v, pool_accounts);
    v
}

/// The accounts of the start-stake-withdrawal instruction, with the pool
/// accounts last.
pub fn start_stake_withdrawal_accounts(
    pending_withdrawal: Address,
    member: Address,
    beneficiary: Address,
    entity: Address,
    registrar: Address,
    vault_authority: Address,
    pool_accounts: Vec<AccountMeta>,
) -> (r: Vec<AccountMeta>)
    ensures
        metas(r@) == seq![
            writable(pending_withdrawal@, false),
            writable(member@, false),
            readonly(beneficiary@, true),
            writable(entity@, false),
            readonly(registrar@, false),
            writable(vault_authority@, false),
            readonly(token_program_key(), false),
            readonly(clock_sysvar_key(), false),
            readonly(rent_sysvar_key(), false),
        ] + metas(pool_accounts@),
{
    let mut v: Vec<AccountMeta> = Vec::new();
    v.push(AccountMeta::new(pending_withdrawal, false));
    v.push(AccountMeta::new(member, false));
    v.push(AccountMeta::new_readonly(beneficiary, true));
    v.push(AccountMeta::new(entity, false));
    v.push(AccountMeta::new_readonly(registrar, false));
    v.push(AccountMeta::new(vault_authority, false));
    v.push(AccountMeta::new_readonly(token_program_id(), false));
    v.push(AccountMeta::new_readonly(clock_sysvar_id(), false));
    v.push(AccountMeta::new_readonly(rent_sysvar_id(), false));
    proof {
        assert(metas(v@) =~= seq![
            writable(pending_withdrawal@, false),
            writable(member@, false),
            readonly(beneficiary@, true),
            writable(entity@, false),
            readonly(registrar@, false),
            writable(vault_authority@, false),
            readonly(token_program_key(), false),
            readonly(clock_sysvar_key(), false),
            readonly(rent_sysvar_key(), false),
        ]);
    }
    append_metas(&mut v, pool_accounts);
    v
}

/// The instruction that creates the pending-withdrawal account: `payer` funds
/// `size` bytes with `lamports`, owned by the registry `program`.
pub fn create_pending_withdrawal_instruction(
    payer: &Address,
    pending_withdrawal: &Address,
    lamports: u64,
    size: u64,
    program: &Address,
) -> (r: Instruction)
    ensures
        r.program_id@ == crate::programs::system_program_key(),
        metas(r.accounts@) == seq![writable(payer@, true), writable(pending_withdrawal@, true)],
        r.data@ == crate::programs::create_account_data(lamports, size, program@),
{
    system_create_account(payer, pending_withdrawal, lamports, size, program)
}

/// The accounts of the end-stake-withdrawal instruction.
pub fn end_stake_withdrawal_accounts(
    pending_withdrawal: Address,
    member: Address,
    beneficiary: Address,
    entity: Address,
    registrar: Address,
) -> (r: Vec<AccountMeta>)
    ensures
        metas(r@) == seq![
            writable(pending_withdrawal@, false),
            writable(member@, false),
            readonly(beneficiary@, true),
            writable(entity@, false),
            readonly(registrar@, false),
            readonly(clock_sysvar_key(), false),
        ],
{
    let mut v: Vec<AccountMeta> = Vec::new();
    v.push(AccountMeta::new(pending_withdrawal, false));
    v.push(AccountMeta::new(member, false));
    v.push(AccountMeta::new_readonly(beneficiary, true));
    v.push(AccountMeta::new(entity, false));
    v.push(AccountMeta::new_readonly(registrar, false));
    v.push(AccountMeta::new_readonly(clock_sysvar_id(), false));
    proof {
        assert(metas(v@) =~= seq![
            writable(pending_withdrawal@, false),
            writable(member@, false),
            readonly(beneficiary@, true),
            writable(entity@, false),
            readonly(registrar@, false),
            readonly(clock_sysvar_key(), false),
        ]);
    }
    v
}

/// The pool accounts that the deposit, withdraw and stake instructions share:
/// the pool program, the shared-memory program and the return buffer, then
/// the staking pool (one asset), then the mega staking pool (two assets).
pub open spec fn common_pool_metas(
    pool_program_id: Seq<u8>,
    shared_memory_program: Seq<u8>,
    retbuf: Seq<u8>,
    registrar: RegistrarAccounts,
    pool: PoolAccounts,
    mega_pool: PoolAccounts,
) -> Seq<MetaView> {
    seq![
        readonly(pool_program_id, false),
        readonly(shared_memory_program, false),
        writable(retbuf, false),
        writable(registrar.pool@, false),
        writable(pool.pool_token_mint@, false),
        writable(pool.asset_vaults@[0]@, false),
        readonly(pool.vault_signer@, false),
        writable(registrar.mega_pool@, false),
        writable(mega_pool.pool_token_mint@, false),
        writable(mega_pool.asset_vaults@[0]@, false),
        writable(mega_pool.asset_vaults@[1]@, false),
        readonly(mega_pool.vault_signer@, false),
    ]
}

/// In the shared pool accounts nobody signs; the pool program, the
/// shared-memory program and both pools' vault signers are read-only and every
/// other account is writable; the staking pool's accounts (pool, mint, its one
/// asset vault, vault signer) come before the mega pool's (pool, mint, its two
/// asset vaults, vault signer), after the two programs and the return buffer.
pub proof fn common_pool_accounts_layout(
    pool_program_id: Seq<u8>,
    shared_memory_program: Seq<u8>,
    retbuf: Seq<u8>,
    registrar: RegistrarAccounts,
    pool: PoolAccounts,
    mega_pool: PoolAccounts,
)
    ensures
        ({
            let m = common_pool_metas(
                pool_program_id,
                shared_memory_program,
                retbuf,
                registrar,
                pool,
                mega_pool,
            );
            &&& m.len() == 12
            &&& forall|i: int| 0 <= i < 12 ==> !(#[trigger] m[i]).1
            &&& forall|i: int|
                0 <= i < 12 ==> ((#[trigger] m[i]).2 <==> !(i == 0 || i == 1 || i == 6 || i == 11))
            &&& m[0].0 == pool_program_id && m[1].0 == shared_memory_program && m[2].0 == retbuf
            &&& m[3].0 == registrar.pool@ && m[4].0 == pool.pool_token_mint@
            &&& m[5].0 == pool.asset_vaults@[0]@ && m[6].0 == pool.vault_signer@
            &&& m[7].0 == registrar.mega_pool@ && m[8].0 == mega_pool.pool_token_mint@
            &&& m[9].0 == mega_pool.asset_vaults@[0]@ && m[10].0 == mega_pool.asset_vaults@[1]@
            &&& m[11].0 == mega_pool.vault_signer@
        }),
{
}

/// The pool accounts shared by the deposit, withdraw and stake instructions,
/// with the pool token mint of the pool that `mega` selects.
pub open spec fn common_pool_result(
    pool_program_id: Seq<u8>,
    shared_memory_program: Seq<u8>,
    retbuf: Seq<u8>,
    registrar: RegistrarAccounts,
    pool: PoolAccounts,
    mega_pool: PoolAccounts,
    mega: bool,
) -> (Seq<MetaView>, Address) {
    (
        common_pool_metas(pool_program_id, shared_memory_program, retbuf, registrar, pool, mega_pool),
        if mega {
            mega_pool.pool_token_mint
        } else {
            pool.pool_token_mint
        },
    )
}

/// Both pools' accounts are always listed, twelve of them, and the mega flag
/// changes nothing but the mint that comes with them: the mega pool's mint
/// where it is set, the staking pool's where it is not.
pub proof fn mega_flag_selects_only_the_mint(
    pool_program_id: Seq<u8>,
    shared_memory_program: Seq<u8>,
    retbuf: Seq<u8>,
    registrar: RegistrarAccounts,
    pool: PoolAccounts,
    mega_pool: PoolAccounts,
)
    ensures
        ({
            let with_mega = common_pool_result(
                pool_program_id,
                shared_memory_program,
                retbuf,
                registrar,
                pool,
                mega_pool,
                true,
            );
            let without = common_pool_result(
                pool_program_id,
                shared_memory_program,
                retbuf,
                registrar,
                pool,
                mega_pool,
                false,
            );
            &&& with_mega.0 == without.0
            &&& with_mega.0.len() == 12
            &&& with_mega.1 == mega_pool.pool_token_mint
            &&& without.1 == pool.pool_token_mint
        }),
{
}

/// The pool accounts shared by the deposit, withdraw and stake instructions,
/// and the pool token mint of the pool that `mega` selects. The staking pool
/// holds one asset and the mega pool two; other pools are refused by
/// `requires`, as the client asserts them.
pub fn common_pool_accounts(
    pool_program_id: Address,
    shared_memory_program: Address,
    retbuf: Address,
    registrar: &RegistrarAccounts,
    pool: &PoolAccounts,
    mega_pool: &PoolAccounts,
    mega: bool,
) -> (r: (Vec<AccountMeta>, Address))
    requires
        pool.asset_vaults@.len() == 1,
        mega_pool.asset_vaults@.len() == 2,
    ensures
        metas(r.0@) == common_pool_metas(
            pool_program_id@,
            shared_memory_program@,
            retbuf@,
            *registrar,
            *pool,
            *mega_pool,
        ),
        r.1 == if mega {
            mega_pool.pool_token_mint
        } else {
            pool.pool_token_mint
        },
        (metas(r.0@), r.1) == common_pool_result(
            pool_program_id@,
            shared_memory_program@,
            retbuf@,
            *registrar,
            *pool,
            *mega_pool,
            mega,
        ),
{
    let mut v: Vec<AccountMeta> = Vec::new();
    v.push(AccountMeta::new_readonly(pool_program_id, false));
    v.push(AccountMeta::new_readonly(shared_memory_program, false));
    v.push(AccountMeta::new(retbuf, false));
    v.push(AccountMeta::new(registrar.pool, false));
    v.push(AccountMeta::new(pool.pool_token_mint, false));
    v.push(AccountMeta::new(pool.asset_vaults[0], false));
    v.push(AccountMeta::new_readonly(pool.vault_signer, false));
    v.push(AccountMeta::new(registrar.mega_pool, false));
    v.push(AccountMeta::new(mega_pool.pool_token_mint, false));
    v.push(AccountMeta::new(mega_pool.asset_vaults[0], false));
    v.push(AccountMeta::new(mega_pool.asset_vaults[1], false));
    v.push(AccountMeta::new_readonly(mega_pool.vault_signer, false));
    let main_pool_mint = if mega {
        mega_pool.pool_token_mint
    } else {
        pool.pool_token_mint
    };
    proof {
        assert(metas(v@) =~= common_pool_metas(
            pool_program_id@,
            shared_memory_program@,
            retbuf@,
            *registrar,
            *pool,
            *mega_pool,
        ));
    }
    (v, main_pool_mint)
}

/// The writable, non-signer use of each asset vault, in order.
pub open spec fn asset_metas(assets: Seq<Address>) -> Seq<MetaView> {
    assets.map_values(|a: Address| writable(a@, false))
}

/// Every asset vault of a basket is passed writable and not as a signer,
/// whatever the number of assets, so the pool can move tokens out of each.
pub proof fn basket_vaults_are_writable(assets: Seq<Address>)
    ensures
        asset_metas(assets).len() == assets.len(),
        forall|i: int|
            0 <= i < assets.len() ==> #[trigger] asset_metas(assets)[i] == (
                assets[i]@,
                false,
                true,
            ),
{
}

/// The pool accounts of the stake and stake-withdrawal instructions: the shared
/// pool accounts, the user's pool token account, the basket's asset vaults and
/// the registry's vault authority.
pub fn stake_pool_accounts(
    common: Vec<AccountMeta>,
    pool_token: Address,
    basket_assets: &Vec<Address>,
    registry_vault_authority: Address,
) -> (r: Vec<AccountMeta>)
    ensures
        metas(r@) == metas(common@) + seq![writable(pool_token@, false)] + asset_metas(
            basket_assets@,
        ) + seq![readonly(registry_vault_authority@, false)],
        r@.len() == common@.len() + basket_assets@.len() + 2,
        forall|i: int| 0 <= i < common@.len() ==> #[trigger] r@[i] == common@[i],
        r@[common@.len() as int] == (AccountMeta {
            pubkey: pool_token,
            is_signer: false,
            is_writable: true,
        }),
        forall|i: int|
            0 <= i < basket_assets@.len() ==> #[trigger] r@[common@.len() + 1 + i] == (
            AccountMeta { pubkey: basket_assets@[i], is_signer: false, is_writable: true }),
        r@[r@.len() - 1] == (AccountMeta {
            pubkey: registry_vault_authority,
            is_signer: false,
            is_writable: false,
        }),
{
    let ghost c = common@;
    let mut v = common;
    let ghost start = metas(v@) + seq![writable(pool_token@, false)];
    v.push(AccountMeta::new(pool_token, false));
    proof {
        assert(metas(v@) =~= start + asset_metas(basket_assets@.take(0)));
    }
    let mut i: usize = 0;
    while i < basket_assets.len()
        invariant
            0 <= i <= basket_assets@.len(),
            metas(v@) == start + asset_metas(basket_assets@.take(i as int)),
            start == metas(c) + seq![writable(pool_token@, false)],
            v@.len() == c.len() + 1 + i,
            forall|j: int| 0 <= j < c.len() ==> #[trigger] v@[j] == c[j],
            v@[c.len() as int] == (AccountMeta {
                pubkey: pool_token,
                is_signer: false,
                is_writable: true,
            }),
            forall|j: int|
                0 <= j < i ==> #[trigger] v@[c.len() + 1 + j] == (AccountMeta {
                    pubkey: basket_assets@[j],
                    is_signer: false,
                    is_writable: true,
                }),
        decreases basket_assets@.len() - i,
    {
        let ghost prev = metas(v@);
        v.push(AccountMeta::new(basket_assets[i], false));
        proof {
            let x = writable(basket_assets@[i as int]@, false);
            assert(metas(v@) =~= prev.push(x));
            assert(basket_assets@.take(i + 1) =~= basket_assets@.take(i as int).push(
                basket_assets@[i as int],
            ));
            assert(asset_metas(basket_assets@.take(i + 1)) =~= asset_metas(
                basket_assets@.take(i as int),
            ).push(x));
            assert(metas(v@) =~= start + asset_metas(basket_assets@.take(i + 1)));
        }
        i = i + 1;
    }
    proof {
        assert(basket_assets@.take(i as int) =~= basket_assets@);
    }
    let ghost before = metas(v@);
    v.push(AccountMeta::new_readonly(registry_vault_authority, false));
    proof {
        assert(metas(v@) =~= before + seq![readonly(registry_vault_authority@, false)]);
    }
    v
}

/// Picks the registrar vault that takes a deposit from a token account with
/// the mint `depositor_mint`. The stake intent vault is asked first: where its
/// mint is the depositor's, it is the answer. Otherwise the mega vault's mint
/// is needed: called without it, the result is `Ok(None)`, asking for it;
/// called with it, the mega vault is the answer where the mints agree, and the
/// depositor's mint is invalid where they do not.
pub fn vault_for(
    registrar: &RegistrarAccounts,
    depositor_mint: &Address,
    vault_mint: &Address,
    mega_vault_mint: Option<Address>,
) -> (r: Result<Option<Address>, ClientError>)
    ensures
        depositor_mint@ == vault_mint@ ==> r == Ok::<Option<Address>, ClientError>(
            Some(registrar.vault),
        ),
        depositor_mint@ != vault_mint@ ==> match mega_vault_mint {
            None => r == Ok::<Option<Address>, ClientError>(None),
            Some(m) => if depositor_mint@ == m@ {
                r == Ok::<Option<Address>, ClientError>(Some(registrar.mega_vault))
            } else {
                is_any_error(r, "invalid depositor mint"@)
            },
        },
{
    if vault_mint.same(depositor_mint) {
        return Ok(Some(registrar.vault));
    }
    match mega_vault_mint {
        None => Ok(None),
        Some(m) => {
            if m.same(depositor_mint) {
                Ok(Some(registrar.mega_vault))
            } else {
                Err(any_error("invalid depositor mint"))
            }
        },
    }
}

/// The vault authority answered for a derived program address: the address
/// itself, or an invalid vault authority where none could be derived.
pub fn vault_authority_from(derived: Option<Address>) -> (r: Result<Address, ClientError>)
    ensures
        match derived {
            Some(a) => r == Ok::<Address, ClientError>(a),
            None => is_any_error(r, "invalid vault authority"@),
        },
{
    match derived {
        Some(a) => Ok(a),
        None => Err(any_error("invalid vault authority")),
    }
}

/// The registrar's vault authority: the program address of the registry
/// `program_id` with the vault signer seeds.
pub fn vault_authority(seeds: &Vec<Vec<u8>>, program_id: &Address) -> (r: Result<
    Address,
    ClientError,
>)
    ensures
        match program_address(seeds_view(seeds@), program_id@) {
            Some(k) => r matches Ok(a) && a@ == k,
            None => is_any_error(r, "invalid vault authority"@),
        },
        // More than 16 seeds, or a seed longer than 32 bytes, derive no address.
        !seeds_in_limits(seeds_view(seeds@)) ==> is_any_error(r, "invalid vault authority"@),
{
    vault_authority_from(create_program_address(seeds, program_id))
}

/// The vault of the staking pool's single asset; a pool with another number of
/// assets is refused.
pub fn stake_pool_asset_vault(pool: &PoolAccounts) -> (r: Result<Address, ClientError>)
    ensures
        pool.asset_vaults@.len() == 1 ==> r == Ok::<Address, ClientError>(pool.asset_vaults@[0]),
        pool.asset_vaults@.len() != 1 ==> is_any_error(r, "invalid asset length"@),
{
    if pool.asset_vaults.len() != 1 {
        return Err(any_error("invalid asset length"));
    }
    Ok(pool.asset_vaults[0])
}

/// The vaults of the mega pool's two assets, in order; a pool with another
/// number of assets is refused.
pub fn stake_mega_pool_asset_vaults(pool: &PoolAccounts) -> (r: Result<
    (Address, Address),
    ClientError,
>)
    ensures
        pool.asset_vaults@.len() == 2 ==> r == Ok::<(Address, Address), ClientError>(
            (pool.asset_vaults@[0], pool.asset_vaults@[1]),
        ),
        pool.asset_vaults@.len() != 2 ==> is_any_error(r, "invalid asset length"@),
{
    if pool.asset_vaults.len() != 2 {
        return Err(any_error("invalid asset length"));
    }
    Ok((pool.asset_vaults[0], pool.asset_vaults[1]))
}

} // verus!
