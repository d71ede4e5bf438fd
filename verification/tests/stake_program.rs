use serum_staking::address::{AccountMeta, Address};
use serum_staking::client::stake_accounts;
use serum_staking::get_basket::{handler, BasketSource, StakeError, StakeErrorCode};
use serum_staking::stake::{
    access_control, parse_stake_accounts, AccessControl, AccessControlRequest, MemberFacts,
    ProgramError, RegistryError, RegistryErrorCode, StakeCheck,
};

fn addr(n: u8) -> Address {
    Address { bytes: [n; 32] }
}

/// The outcomes that the checks give, run only when admission control asks.
#[derive(Clone)]
struct Outcomes {
    signer: bool,
    pool: Result<(), u32>,
    entity: Result<(), u32>,
    member: Result<(Result<bool, u32>, u64, bool), u32>,
    entity_generation: u64,
    activated: bool,
}

fn admitted() -> Outcomes {
    Outcomes {
        signer: true,
        pool: Ok(()),
        entity: Ok(()),
        member: Ok((Ok(true), 3, false)),
        entity_generation: 3,
        activated: true,
    }
}

/// Runs admission control to its answer, and lists the checks it asked for.
fn run(o: Outcomes) -> (Result<(), RegistryError<u32>>, Vec<StakeCheck>) {
    let mut asked = Vec::new();
    let mut req = AccessControlRequest {
        beneficiary_is_signer: o.signer,
        entity_generation: o.entity_generation,
        pool_check: None,
        entity_check: None,
        member: None,
        entity_activated: None,
    };
    loop {
        match access_control(req) {
            AccessControl::Done(r) => return (r, asked),
            AccessControl::Run(check, mut back) => {
                asked.push(check);
                match check {
                    StakeCheck::Pool => back.pool_check = Some(o.pool),
                    StakeCheck::Entity => back.entity_check = Some(o.entity),
                    StakeCheck::Member => {
                        back.member = Some(o.member.map(|(can_afford, generation, stake_is_empty)| {
                            MemberFacts { can_afford, generation, stake_is_empty }
                        }))
                    }
                    StakeCheck::Activation => back.entity_activated = Some(o.activated),
                }
                req = back;
            }
        }
    }
}

fn code(r: Result<(), RegistryError<u32>>) -> Option<RegistryErrorCode> {
    match r {
        Err(RegistryError::ErrorCode(c)) => Some(c),
        _ => None,
    }
}

fn check(r: Result<(), RegistryError<u32>>) -> Option<u32> {
    match r {
        Err(RegistryError::Check(e)) => Some(e),
        _ => None,
    }
}

#[test]
fn stake_accounts_are_read_back_in_their_roles() {
    let built = stake_accounts(addr(1), addr(2), addr(3), addr(4), vec![AccountMeta::new(addr(9), false)]);
    let s = parse_stake_accounts(&built).unwrap();
    assert_eq!(s.member.pubkey.bytes, [1; 32]);
    assert!(s.beneficiary.is_signer);
    assert_eq!(s.beneficiary.pubkey.bytes, [2; 32]);
    assert_eq!(s.entity.pubkey.bytes, [3; 32]);
    assert_eq!(s.registrar.pubkey.bytes, [4; 32]);
    assert_eq!(s.clock.pubkey.bytes, solana_program::sysvar::clock::ID.to_bytes());
    assert_eq!(s.token_program.pubkey.bytes, spl_token::ID.to_bytes());
    assert_eq!(s.pool.len(), 1);
    assert_eq!(s.pool[0].pubkey.bytes, [9; 32]);
}

#[test]
fn too_few_stake_accounts_are_refused() {
    let five = vec![AccountMeta::new(addr(1), false); 5];
    assert_eq!(parse_stake_accounts(&five).unwrap_err(), ProgramError::NotEnoughAccountKeys);
    let six = vec![AccountMeta::new(addr(1), false); 6];
    assert!(parse_stake_accounts(&six).unwrap().pool.is_empty());
}

#[test]
fn access_control_admits_a_valid_stake() {
    let (r, asked) = run(admitted());
    assert!(r.is_ok());
    assert_eq!(
        asked,
        vec![StakeCheck::Pool, StakeCheck::Entity, StakeCheck::Member, StakeCheck::Activation]
    );
}

#[test]
fn access_control_needs_the_beneficiary_signature() {
    let mut o = admitted();
    o.signer = false;
    o.pool = Err(7);
    let (r, asked) = run(o);
    assert_eq!(code(r), Some(RegistryErrorCode::Unauthorized));
    assert!(asked.is_empty());
}

#[test]
fn access_control_reports_the_first_failed_check() {
    let mut o = admitted();
    o.pool = Err(1);
    o.entity = Err(2);
    let (r, asked) = run(o);
    assert_eq!(check(r), Some(1));
    assert_eq!(asked, vec![StakeCheck::Pool]);

    let mut o = admitted();
    o.entity = Err(2);
    o.member = Err(3);
    let (r, asked) = run(o);
    assert_eq!(check(r), Some(2));
    assert_eq!(asked, vec![StakeCheck::Pool, StakeCheck::Entity]);

    let mut o = admitted();
    o.member = Err(3);
    o.activated = false;
    let (r, asked) = run(o);
    assert_eq!(check(r), Some(3));
    assert_eq!(asked, vec![StakeCheck::Pool, StakeCheck::Entity, StakeCheck::Member]);

    let mut o = admitted();
    o.member = Ok((Err(4), 3, false));
    assert_eq!(check(run(o).0), Some(4));
}

#[test]
fn access_control_needs_an_affordable_stake() {
    let mut o = admitted();
    o.member = Ok((Ok(false), 0, false));
    let (r, asked) = run(o);
    assert_eq!(code(r), Some(RegistryErrorCode::InsufficientStakeIntentBalance));
    assert_eq!(asked.last(), Some(&StakeCheck::Member));
}

#[test]
fn access_control_needs_stale_stake_withdrawn() {
    let mut o = admitted();
    o.member = Ok((Ok(true), 2, false));
    let (r, asked) = run(o);
    assert_eq!(code(r), Some(RegistryErrorCode::StaleStakeNeedsWithdrawal));
    assert_eq!(asked.last(), Some(&StakeCheck::Member));
    let mut o = admitted();
    o.member = Ok((Ok(true), 2, true));
    assert!(run(o).0.is_ok());
}

#[test]
fn access_control_needs_an_activated_entity() {
    let mut o = admitted();
    o.activated = false;
    assert_eq!(code(run(o).0), Some(RegistryErrorCode::EntityNotActivated));
}

#[test]
fn access_control_answers_outcomes_given_at_once() {
    let req = AccessControlRequest {
        beneficiary_is_signer: true,
        entity_generation: 1,
        pool_check: Some(Ok(())),
        entity_check: Some(Err(9u32)),
        member: None,
        entity_activated: None,
    };
    match access_control(req) {
        AccessControl::Done(r) => assert_eq!(check(r), Some(9)),
        AccessControl::Run(..) => panic!("the entity check already failed"),
    }
}

fn deposit(r: Result<BasketSource, StakeError>) -> Vec<i64> {
    match r {
        Ok(BasketSource::Deposit(b)) => b.quantities,
        _ => panic!("expected a deposit basket"),
    }
}

#[test]
fn empty_pool_takes_the_amount_of_its_last_asset() {
    assert_eq!(deposit(handler(0, 1, 500)), vec![500]);
    assert_eq!(deposit(handler(0, 2, 500)), vec![0, 500]);
    assert_eq!(deposit(handler(0, 2, 0)), vec![0, 0]);
}

#[test]
fn empty_pool_with_other_assets_is_invalid() {
    assert_eq!(handler(0, 0, 5).unwrap_err(), StakeError::ErrorCode(StakeErrorCode::InvalidState));
    assert_eq!(handler(0, 3, 5).unwrap_err(), StakeError::ErrorCode(StakeErrorCode::InvalidState));
}

#[test]
fn circulating_pool_uses_the_simple_basket() {
    assert!(matches!(handler(1, 1, 500), Ok(BasketSource::SimpleBasket)));
    assert!(matches!(handler(10, 7, 500), Ok(BasketSource::SimpleBasket)));
}

#[test]
fn empty_pool_refuses_an_amount_beyond_i64() {
    assert_eq!(handler(0, 1, u64::MAX).unwrap_err(), StakeError::ErrorCode(StakeErrorCode::InvalidState));
    assert_eq!(
        handler(0, 2, i64::MAX as u64 + 1).unwrap_err(),
        StakeError::ErrorCode(StakeErrorCode::InvalidState)
    );
    assert_eq!(deposit(handler(0, 1, i64::MAX as u64)), vec![i64::MAX]);
    assert!(matches!(handler(5, 1, u64::MAX), Ok(BasketSource::SimpleBasket)));
}
