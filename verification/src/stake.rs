//! The registry's stake instruction: the order in which it reads its accounts,
//! and the checks that admit a stake before the staking pool tokens are created.
use crate::address::{AccountMeta, MetaView, metas, readonly, writable};
use crate::programs::{clock_sysvar_key, token_program_key};
use vstd::prelude::*;

verus! {

/// The registry's own reasons to refuse a stake.
#[derive(Clone, Copy, Debug, PartialEq, Eq, Structural)]
pub enum RegistryErrorCode {
    /// The beneficiary did not sign.
    Unauthorized,
    /// The member cannot afford the staking pool tokens.
    InsufficientStakeIntentBalance,
    /// The member still holds stake of an earlier generation of the entity.
    StaleStakeNeedsWithdrawal,
    /// The entity does not meet the activation requirements.
    EntityNotActivated,
}

/// An error of the stake instruction: one of the registry's own codes, or the
/// error of an account check (`E`) that the instruction runs.
#[derive(Debug)]
pub enum RegistryError<E> {
    ErrorCode(RegistryErrorCode),
    Check(E),
}

/// An error of the runtime while the instruction reads its accounts.
#[derive(Clone, Copy, Debug, PartialEq, Eq, Structural)]
pub enum ProgramError {
    /// Fewer accounts were passed than the instruction reads.
    NotEnoughAccountKeys,
}

/// The accounts of the stake instruction, by role.
#[derive(Clone, Debug)]
pub struct StakeAccounts {
    pub member: AccountMeta,
    pub beneficiary: AccountMeta,
    pub entity: AccountMeta,
    pub registrar: AccountMeta,
    pub clock: AccountMeta,
    pub token_program: AccountMeta,
    /// The accounts of the staking pool, which the pool reads in its own order.
    pub pool: Vec<AccountMeta>,
}

/// The number of accounts that the stake instruction reads before the pool's.
pub open spec fn stake_prefix_len() -> int {
    6
}

/// Reads the stake instruction's accounts in order: member, beneficiary,
/// entity, registrar, clock, token program, then the pool's accounts.
pub fn parse_stake_accounts(accounts: &Vec<AccountMeta>) -> (r: Result<StakeAccounts, ProgramError>)
    ensures
        accounts@.len() < stake_prefix_len() <==> r == Err::<StakeAccounts, ProgramError>(
            ProgramError::NotEnoughAccountKeys,
        ),
        r matches Ok(s) ==> {
            &&& s.member == accounts@[0]
            &&& s.beneficiary == accounts@[1]
            &&& s.entity == accounts@[2]
            &&& s.registrar == accounts@[3]
            &&& s.clock == accounts@[4]
            &&& s.token_program == accounts@[5]
            &&& s.pool@ == accounts@.subrange(stake_prefix_len(), accounts@.len() as int)
        },
{
    if accounts.len() < 6 {
        return Err(ProgramError::NotEnoughAccountKeys);
    }
    let mut pool: Vec<AccountMeta> = Vec::new();
    let mut i: usize = 6;
    while i < accounts.len()
        invariant
            6 <= i <= accounts@.len(),
            pool@ == accounts@.subrange(6, i as int),
        decreases accounts@.len() - i,
    {
        pool.push(accounts[i]);
        proof {
            assert(accounts@.subrange(6, i + 1) =~= accounts@.subrange(6, i as int).push(
                accounts@[i as int],
            ));
        }
        i = i + 1;
    }
    Ok(
        StakeAccounts {
            member: accounts[0],
            beneficiary: accounts[1],
            entity: accounts[2],
            registrar: accounts[3],
            clock: accounts[4],
            token_program: accounts[5],
            pool,
        },
    )
}

/// The accounts that the client passes ahead of the pool's to the stake
/// instruction.
pub open spec fn stake_metas(
    member: Seq<u8>,
    beneficiary: Seq<u8>,
    entity: Seq<u8>,
    registrar: Seq<u8>,
) -> Seq<MetaView> {
    seq![
        writable(member, false),
        readonly(beneficiary, true),
        writable(entity, false),
        readonly(registrar, false),
        readonly(clock_sysvar_key(), false),
        readonly(token_program_key(), false),
    ]
}

/// Stake accounts in the order that the client lays them out are read back by
/// the instruction in their roles: the member, the signing beneficiary, the
/// entity, the registrar, the clock and the token program, and after them the
/// pool's accounts unchanged.
pub proof fn stake_accounts_read_back(
    accounts: Seq<AccountMeta>,
    member: Seq<u8>,
    beneficiary: Seq<u8>,
    entity: Seq<u8>,
    registrar: Seq<u8>,
    pool: Seq<AccountMeta>,
)
    requires
        metas(accounts) == stake_metas(member, beneficiary, entity, registrar) + metas(pool),
    ensures
        accounts.len() >= stake_prefix_len(),
        accounts[0]@ == writable(member, false),
        accounts[1]@ == readonly(beneficiary, true),
        accounts[1].is_signer,
        accounts[2]@ == writable(entity, false),
        accounts[3]@ == readonly(registrar, false),
        accounts[4]@ == readonly(clock_sysvar_key(), false),
        accounts[5]@ == readonly(token_program_key(), false),
        metas(accounts.subrange(stake_prefix_len(), accounts.len() as int)) == metas(pool),
{
    let pre = stake_metas(member, beneficiary, entity, registrar);
    assert(metas(accounts).len() == accounts.len());
    assert forall|i: int| 0 <= i < 6 implies #[trigger] accounts[i]@ == pre[i] by {
        assert(metas(accounts)[i] == accounts[i]@);
        assert((pre + metas(pool))[i] == pre[i]);
    }
    assert(metas(accounts.subrange(6, accounts.len() as int)) =~= metas(pool)) by {
        assert forall|i: int| 0 <= i < pool.len() implies #[trigger] metas(pool)[i] == metas(
            accounts.subrange(6, accounts.len() as int),
        )[i] by {
            assert(metas(accounts)[i + 6] == (pre + metas(pool))[i + 6]);
        }
    }
}

/// What the stake instruction learns of the member account from the registry:
/// whether the member can afford the stake, its stake generation, and whether
/// it holds no stake.
#[derive(Debug)]
pub struct MemberFacts<E> {
    pub can_afford: Result<bool, E>,
    pub generation: u64,
    pub stake_is_empty: bool,
}

/// A check that admits a stake and that the caller runs on request; they come
/// in this order, after the beneficiary's signature.
#[derive(Clone, Copy, Debug, PartialEq, Eq, Structural)]
pub enum StakeCheck {
    /// The check that the pool accounts belong to the registrar.
    Pool,
    /// The check of the entity account.
    Entity,
    /// Joining the member account to the entity and the beneficiary, and
    /// reading from it whether it can afford the stake, its generation and
    /// whether it holds no stake.
    Member,
    /// Whether the entity meets the activation requirements.
    Activation,
}

/// The outcomes of the checks that admit a stake, as far as they have run:
/// `None` for a check not run yet.
#[derive(Debug)]
pub struct AccessControlRequest<E> {
    /// Whether the beneficiary signed the transaction.
    pub beneficiary_is_signer: bool,
    /// The entity's stake generation.
    pub entity_generation: u64,
    pub pool_check: Option<Result<(), E>>,
    pub entity_check: Option<Result<(), E>>,
    pub member: Option<Result<MemberFacts<E>, E>>,
    pub entity_activated: Option<bool>,
}

/// What admission control asks for next: a check to run, with the request
/// handed back to record its outcome in, or the answer.
#[derive(Debug)]
pub enum AccessControl<E> {
    Run(StakeCheck, AccessControlRequest<E>),
    Done(Result<(), RegistryError<E>>),
}

/// Whether the member's facts stop the stake: it cannot be shown to afford the
/// stake, or it holds stake of an earlier generation.
pub open spec fn member_refused<E>(m: MemberFacts<E>, entity_generation: u64) -> bool {
    ||| m.can_afford != Ok::<bool, E>(true)
    ||| (m.generation != entity_generation && !m.stake_is_empty)
}

/// The check that must run next, or `None` where the outcomes so far decide:
/// a check is asked for only once every check before it has passed.
pub open spec fn next_check<E>(req: AccessControlRequest<E>) -> Option<StakeCheck> {
    if !req.beneficiary_is_signer {
        None
    } else {
        match req.pool_check {
            None => Some(StakeCheck::Pool),
            Some(Err(_)) => None,
            Some(Ok(_)) => match req.entity_check {
                None => Some(StakeCheck::Entity),
                Some(Err(_)) => None,
                Some(Ok(_)) => match req.member {
                    None => Some(StakeCheck::Member),
                    Some(Err(_)) => None,
                    Some(Ok(m)) => if member_refused(m, req.entity_generation) {
                        None
                    } else {
                        match req.entity_activated {
                            None => Some(StakeCheck::Activation),
                            Some(_) => None,
                        }
                    },
                },
            },
        }
    }
}

/// The answer where the outcomes so far decide it (see `next_check`): the
/// first check that failed, in order, gives the error; where every check
/// passed, the stake is admitted.
pub open spec fn stake_admission<E>(req: AccessControlRequest<E>) -> Result<(), RegistryError<E>> {
    if !req.beneficiary_is_signer {
        Err(RegistryError::ErrorCode(RegistryErrorCode::Unauthorized))
    } else {
        match req.pool_check {
            Some(Err(e)) => Err(RegistryError::Check(e)),
            _ => match req.entity_check {
                Some(Err(e)) => Err(RegistryError::Check(e)),
                _ => match req.member {
                    Some(Err(e)) => Err(RegistryError::Check(e)),
                    Some(Ok(m)) => match m.can_afford {
                        Err(e) => Err(RegistryError::Check(e)),
                        Ok(false) => Err(
                            RegistryError::ErrorCode(
                                RegistryErrorCode::InsufficientStakeIntentBalance,
                            ),
                        ),
                        Ok(true) => if m.generation != req.entity_generation
                            && !m.stake_is_empty {
                            Err(
                                RegistryError::ErrorCode(
                                    RegistryErrorCode::StaleStakeNeedsWithdrawal,
                                ),
                            )
                        } else if req.entity_activated == Some(false) {
                            Err(RegistryError::ErrorCode(RegistryErrorCode::EntityNotActivated))
                        } else {
                            Ok(())
                        },
                    },
                    None => Ok(()),
                },
            },
        }
    }
}

/// Whether every check admits the stake.
pub open spec fn stake_admitted<E>(req: AccessControlRequest<E>) -> bool {
    &&& req.beneficiary_is_signer
    &&& req.pool_check matches Some(Ok(_))
    &&& req.entity_check matches Some(Ok(_))
    &&& req.member matches Some(Ok(m)) && {
        &&& m.can_afford == Ok::<bool, E>(true)
        &&& (m.generation == req.entity_generation || m.stake_is_empty)
    }
    &&& req.entity_activated == Some(true)
}

/// Admission control of a stake, one check at a time. Given the outcomes of
/// the checks run so far, it asks for the next check in order (handing the
/// request back), or answers once the outcomes decide: the first check that
/// failed gives the error, and the stake is admitted exactly when the
/// beneficiary signed, the pool, entity and member accounts passed their
/// checks, the member can afford the stake, any stake of an earlier generation
/// has been withdrawn, and the entity is activated.
pub fn access_control<E>(req: AccessControlRequest<E>) -> (r: AccessControl<E>)
    ensures
        match next_check(req) {
            Some(c) => r == AccessControl::Run(c, req),
            None => r == AccessControl::<E>::Done(stake_admission(req)),
        },
        next_check(req) is None ==> (stake_admission(req) is Ok <==> stake_admitted(req)),
        // A check is asked for only while its outcome is unknown.
        r matches AccessControl::Run(c, back) ==> back == req && match c {
            StakeCheck::Pool => req.pool_check is None,
            StakeCheck::Entity => req.entity_check is None,
            StakeCheck::Member => req.member is None,
            StakeCheck::Activation => req.entity_activated is None,
        },
        !req.beneficiary_is_signer ==> r == AccessControl::<E>::Done(
            Err(RegistryError::ErrorCode(RegistryErrorCode::Unauthorized)),
        ),
        req.beneficiary_is_signer ==> match req.pool_check {
            None => r == AccessControl::Run(StakeCheck::Pool, req),
            Some(Err(e)) => r == AccessControl::<E>::Done(Err(RegistryError::Check(e))),
            Some(Ok(_)) => match req.entity_check {
                None => r == AccessControl::Run(StakeCheck::Entity, req),
                Some(Err(e)) => r == AccessControl::<E>::Done(Err(RegistryError::Check(e))),
                Some(Ok(_)) => match req.member {
                    None => r == AccessControl::Run(StakeCheck::Member, req),
                    Some(Err(e)) => r == AccessControl::<E>::Done(Err(RegistryError::Check(e))),
                    Some(Ok(m)) => match m.can_afford {
                        Err(e) => r == AccessControl::<E>::Done(Err(RegistryError::Check(e))),
                        Ok(false) => r == AccessControl::<E>::Done(
                            Err(
                                RegistryError::ErrorCode(
                                    RegistryErrorCode::InsufficientStakeIntentBalance,
                                ),
                            ),
                        ),
                        Ok(true) => if m.generation != req.entity_generation
                            && !m.stake_is_empty {
                            r == AccessControl::<E>::Done(
                                Err(
                                    RegistryError::ErrorCode(
                                        RegistryErrorCode::StaleStakeNeedsWithdrawal,
                                    ),
                                ),
                            )
                        } else {
                            match req.entity_activated {
                                None => r == AccessControl::Run(StakeCheck::Activation, req),
                                Some(false) => r == AccessControl::<E>::Done(
                                    Err(
                                        RegistryError::ErrorCode(
                                            RegistryErrorCode::EntityNotActivated,
                                        ),
                                    ),
                                ),
                                Some(true) => r == AccessControl::<E>::Done(Ok(())),
                            }
                        },
                    },
                },
            },
        },
{
    if !req.beneficiary_is_signer {
        return AccessControl::Done(Err(RegistryError::ErrorCode(RegistryErrorCode::Unauthorized)));
    }
    let pool_passed = match &req.pool_check {
        None => None,
        Some(Ok(())) => Some(true),
        Some(Err(_)) => Some(false),
    };
    match pool_passed {
        None => {
            return AccessControl::Run(StakeCheck::Pool, req);
        },
        Some(false) => {
            return match req.pool_check {
                Some(Err(e)) => AccessControl::Done(Err(RegistryError::Check(e))),
                _ => AccessControl::Done(Ok(())),
            };
        },
        Some(true) => {},
    }
    let entity_passed = match &req.entity_check {
        None => None,
        Some(Ok(())) => Some(true),
        Some(Err(_)) => Some(false),
    };
    match entity_passed {
        None => {
            return AccessControl::Run(StakeCheck::Entity, req);
        },
        Some(false) => {
            return match req.entity_check {
                Some(Err(e)) => AccessControl::Done(Err(RegistryError::Check(e))),
                _ => AccessControl::Done(Ok(())),
            };
        },
        Some(true) => {},
    }
    let member_state = match &req.member {
        None => MemberState::Unknown,
        Some(Err(_)) => MemberState::JoinFailed,
        Some(Ok(m)) => match &m.can_afford {
            Err(_) => MemberState::AffordFailed,
            Ok(false) => MemberState::CannotAfford,
            Ok(true) => if m.generation != req.entity_generation && !m.stake_is_empty {
                MemberState::Stale
            } else {
                MemberState::Passed
            },
        },
    };
    match member_state {
        MemberState::Unknown => AccessControl::Run(StakeCheck::Member, req),
        MemberState::JoinFailed => match req.member {
            Some(Err(e)) => AccessControl::Done(Err(RegistryError::Check(e))),
            _ => AccessControl::Done(Ok(())),
        },
        MemberState::AffordFailed => match req.member {
            Some(Ok(MemberFacts { can_afford: Err(e), .. })) => AccessControl::Done(
                Err(RegistryError::Check(e)),
            ),
            _ => AccessControl::Done(Ok(())),
        },
        MemberState::CannotAfford => AccessControl::Done(
            Err(RegistryError::ErrorCode(RegistryErrorCode::InsufficientStakeIntentBalance)),
        ),
        MemberState::Stale => AccessControl::Done(
            Err(RegistryError::ErrorCode(RegistryErrorCode::StaleStakeNeedsWithdrawal)),
        ),
        MemberState::Passed => match req.entity_activated {
            None => AccessControl::Run(StakeCheck::Activation, req),
            Some(false) => AccessControl::Done(
                Err(RegistryError::ErrorCode(RegistryErrorCode::EntityNotActivated)),
            ),
            Some(true) => AccessControl::Done(Ok(())),
        },
    }
}

/// How far the member's facts let a stake go.
enum MemberState {
    Unknown,
    JoinFailed,
    AffordFailed,
    CannotAfford,
    Stale,
    Passed,
}

/// A check is asked for only while its outcome is unknown, and once every
/// outcome is known the outcomes decide: nothing more is asked.
pub proof fn checks_asked_only_while_unknown<E>(req: AccessControlRequest<E>)
    ensures
        next_check(req) == Some(StakeCheck::Pool) ==> req.pool_check is None,
        next_check(req) == Some(StakeCheck::Entity) ==> req.entity_check is None,
        next_check(req) == Some(StakeCheck::Member) ==> req.member is None,
        next_check(req) == Some(StakeCheck::Activation) ==> req.entity_activated is None,
        (req.pool_check is Some && req.entity_check is Some && req.member is Some
            && req.entity_activated is Some) ==> next_check(req) is None,
{
}

/// A member that cannot afford the stake is refused for an insufficient stake
/// intent balance once the signature and the pool and entity checks have
/// passed, whatever its generation or stake, and nothing more is asked.
pub proof fn unaffordable_stake_is_refused<E>(req: AccessControlRequest<E>)
    requires
        req.beneficiary_is_signer,
        req.pool_check matches Some(Ok(_)),
        req.entity_check matches Some(Ok(_)),
        req.member matches Some(Ok(m)) && m.can_afford == Ok::<bool, E>(false),
    ensures
        next_check(req) is None,
        stake_admission(req) == Err::<(), RegistryError<E>>(
            RegistryError::ErrorCode(RegistryErrorCode::InsufficientStakeIntentBalance),
        ),
{
}

/// A member with stake of an earlier generation is refused until it withdraws
/// it, once it can afford the stake and the earlier checks have passed.
pub proof fn stale_stake_is_refused<E>(req: AccessControlRequest<E>)
    requires
        req.beneficiary_is_signer,
        req.pool_check matches Some(Ok(_)),
        req.entity_check matches Some(Ok(_)),
        req.member matches Some(Ok(m)) && m.can_afford == Ok::<bool, E>(true)
            && m.generation != req.entity_generation && !m.stake_is_empty,
    ensures
        next_check(req) is None,
        stake_admission(req) == Err::<(), RegistryError<E>>(
            RegistryError::ErrorCode(RegistryErrorCode::StaleStakeNeedsWithdrawal),
        ),
{
}

/// Without the beneficiary's signature a stake is refused as unauthorized,
/// before any check runs.
pub proof fn unsigned_stake_is_refused<E>(req: AccessControlRequest<E>)
    requires
        !req.beneficiary_is_signer,
    ensures
        next_check(req) is None,
        stake_admission(req) == Err::<(), RegistryError<E>>(
            RegistryError::ErrorCode(RegistryErrorCode::Unauthorized),
        ),
{
}

/// A check runs only once every check before it has passed.
pub proof fn checks_run_in_order<E>(req: AccessControlRequest<E>)
    ensures
        next_check(req) is Some ==> req.beneficiary_is_signer,
        next_check(req) == Some(StakeCheck::Entity) ==> req.pool_check matches Some(Ok(_)),
        next_check(req) == Some(StakeCheck::Member) ==> {
            &&& req.pool_check matches Some(Ok(_))
            &&& req.entity_check matches Some(Ok(_))
        },
        next_check(req) == Some(StakeCheck::Activation) ==> stake_admitted(
            AccessControlRequest { entity_activated: Some(true), ..req },
        ),
{
}

/// All stake from an earlier generation must be withdrawn before stake for a
/// new generation is added: an admitted stake comes from a member of the
/// entity's current generation, or from a member that holds no stake.
pub proof fn admitted_stake_keeps_one_generation<E>(req: AccessControlRequest<E>)
    requires
        next_check(req) is None,
        stake_admission(req) is Ok,
    ensures
        req.member matches Some(Ok(m)) && (m.generation == req.entity_generation
            || m.stake_is_empty),
        req.beneficiary_is_signer,
        req.entity_activated == Some(true),
{
}

} // verus!
