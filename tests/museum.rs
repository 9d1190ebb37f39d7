use meme_museum::contract::{
    CallContext, Category, MemeMuseum, ProvisioningStep, MIN_ACCOUNT_BALANCE, NO_DEPOSIT, XCC_GAS,
};
use meme_museum::museum::{Museum, MuseumError};

const CONTRACT: &str = "museum.testnet";
const OWNER: &str = "owner.testnet";
const CONTRIBUTOR: &str = "carol.testnet";
const OUTSIDER: &str = "mallory.testnet";

fn ctx(caller: &str, deposit: u128) -> CallContext {
    CallContext {
        predecessor: caller.to_string(),
        current_account: CONTRACT.to_string(),
        attached_deposit: deposit,
        block_timestamp: 1_600_000_000,
        state_exists: true,
    }
}

fn uninitialized(caller: &str, deposit: u128) -> CallContext {
    let mut c = ctx(caller, deposit);
    c.state_exists = false;
    c
}

fn callback(m: &mut MemeMuseum, account: String, succeeded: bool) -> Result<bool, MuseumError> {
    m.on_add_meme(&ctx(CONTRACT, 0), account, succeeded)
}

fn fresh_museum() -> MemeMuseum {
    MemeMuseum::init(&uninitialized(OWNER, 0), "meme museum".to_string(), vec![OWNER.to_string()]).unwrap()
}

fn museum_with_contributor() -> MemeMuseum {
    let mut m = fresh_museum();
    m.add_myself_as_contributor(&ctx(CONTRIBUTOR, 0)).unwrap();
    m
}

fn ask(m: &mut MemeMuseum, caller: &str, deposit: u128, meme: &str) -> Result<String, MuseumError> {
    m.add_meme(
        &ctx(caller, deposit),
        meme.to_string(),
        "Title".to_string(),
        "data".to_string(),
        Category::A,
    )
    .map(|c| c.account_id)
}

#[test]
fn init_sets_owners_and_empty_lists() {
    let m = fresh_museum();
    assert_eq!(m.get_owner_list(), vec![OWNER.to_string()]);
    assert!(m.get_meme_list().is_empty());
    assert_eq!(m.get_meme_count(), 0);
    let museum = m.get_museum();
    assert_eq!(museum.get_name(), "meme museum");
    assert_eq!(museum.get_created_at(), 1_600_000_000);
    assert!(museum.get_contributor_list().is_empty());
}

#[test]
fn init_twice_is_refused() {
    let result = MemeMuseum::init(&ctx(OWNER, 0), "again".to_string(), vec![OWNER.to_string()]);
    assert!(matches!(result, Err(MuseumError::AlreadyInitialized)));
}

#[test]
fn membership_predicates_follow_the_caller() {
    let m = museum_with_contributor();
    assert!(m.is_owner(&ctx(OWNER, 0)));
    assert!(!m.is_contributor(&ctx(OWNER, 0)));
    assert!(m.is_contributor(&ctx(CONTRIBUTOR, 0)));
    assert!(!m.is_owner(&ctx(CONTRIBUTOR, 0)));
    assert!(!m.is_owner(&ctx(OUTSIDER, 0)));
    assert!(!m.is_contributor(&ctx(OUTSIDER, 0)));
}

#[test]
fn full_account_appends_the_contract_account() {
    let m = fresh_museum();
    assert_eq!(m.full_account_for(&ctx(OWNER, 0), "pepe".to_string()), "pepe.museum.testnet");
}

#[test]
fn provisioning_succeeds_and_records_the_meme() {
    let mut m = museum_with_contributor();
    let plan = m
        .add_meme(
            &ctx(CONTRIBUTOR, MIN_ACCOUNT_BALANCE + 1),
            "pepe".to_string(),
            "Title".to_string(),
            "data".to_string(),
            Category::A,
        )
        .unwrap();
    assert_eq!(plan.account_id, "pepe.museum.testnet");
    assert_eq!(
        plan.steps,
        vec![
            ProvisioningStep::CreateAccount,
            ProvisioningStep::AddSignerFullAccessKey,
            ProvisioningStep::DeployCode,
            ProvisioningStep::CallInit,
        ]
    );
    assert_eq!(plan.init_args.title, "Title");
    assert_eq!(plan.init_args.data, "data");
    assert_eq!(plan.init_args.category, Category::A);
    assert_eq!(plan.init_deposit, MIN_ACCOUNT_BALANCE + 1);
    assert_eq!(plan.init_gas, XCC_GAS);
    assert_eq!(plan.callback_deposit, NO_DEPOSIT);
    assert_eq!(plan.callback_gas, XCC_GAS);
    assert_eq!(m.get_meme_count(), 0);

    assert_eq!(callback(&mut m, plan.account_id.clone(), true), Ok(true));
    assert_eq!(m.get_meme_list(), vec!["pepe.museum.testnet".to_string()]);
    assert_eq!(m.get_meme_count(), 1);
}

#[test]
fn failed_init_leaves_the_registry_unchanged() {
    let mut m = museum_with_contributor();
    let account = ask(&mut m, CONTRIBUTOR, MIN_ACCOUNT_BALANCE + 1, "pepe").unwrap();
    assert_eq!(callback(&mut m, account, false), Ok(false));
    assert!(m.get_meme_list().is_empty());
    assert_eq!(m.get_meme_count(), 0);
}

#[test]
fn concurrent_requests_for_one_name_record_it_once() {
    let mut m = museum_with_contributor();
    let first = ask(&mut m, CONTRIBUTOR, MIN_ACCOUNT_BALANCE + 1, "pepe").unwrap();
    let second = ask(&mut m, OWNER, MIN_ACCOUNT_BALANCE + 5, "pepe").unwrap();
    assert_eq!(first, second);
    assert_eq!(callback(&mut m, first, true), Ok(true));
    // The host refuses to create an account that exists already.
    assert_eq!(callback(&mut m, second, false), Ok(false));
    assert_eq!(m.get_meme_list(), vec!["pepe.museum.testnet".to_string()]);
    assert_eq!(
        ask(&mut m, CONTRIBUTOR, MIN_ACCOUNT_BALANCE + 1, "pepe"),
        Err(MuseumError::DuplicateResource)
    );
}

#[test]
fn outsider_is_unauthorized() {
    let mut m = museum_with_contributor();
    let contributors = m.get_museum().get_contributor_list();
    assert_eq!(
        ask(&mut m, OUTSIDER, MIN_ACCOUNT_BALANCE * 2, "pepe"),
        Err(MuseumError::Unauthorized)
    );
    assert!(m.get_meme_list().is_empty());
    assert_eq!(m.get_museum().get_contributor_list(), contributors);
}

#[test]
fn deposit_must_exceed_the_minimum() {
    let mut m = museum_with_contributor();
    assert_eq!(
        ask(&mut m, CONTRIBUTOR, MIN_ACCOUNT_BALANCE, "pepe"),
        Err(MuseumError::InsufficientFunds)
    );
    assert_eq!(ask(&mut m, CONTRIBUTOR, 0, "pepe"), Err(MuseumError::InsufficientFunds));
    assert_eq!(
        ask(&mut m, CONTRIBUTOR, MIN_ACCOUNT_BALANCE + 1, "pepe"),
        Ok("pepe.museum.testnet".to_string())
    );
}

#[test]
fn unauthorized_is_checked_before_funds() {
    let mut m = fresh_museum();
    assert_eq!(ask(&mut m, OUTSIDER, 0, "pepe"), Err(MuseumError::Unauthorized));
}

#[test]
fn invalid_names_are_refused() {
    let mut m = museum_with_contributor();
    let deposit = MIN_ACCOUNT_BALANCE + 1;
    for name in ["Pepe", "pe pe", "pe..pe", "-pepe", "pépé", "pepe!", ""] {
        assert_eq!(ask(&mut m, CONTRIBUTOR, deposit, name), Err(MuseumError::InvalidIdentifier), "{}", name);
    }
    let long = "a".repeat(50);
    assert_eq!(ask(&mut m, CONTRIBUTOR, deposit, &long), Err(MuseumError::InvalidIdentifier));
    for name in ["a", "pe-pe", "pe_pe", "pe.pe", "007"] {
        assert!(ask(&mut m, CONTRIBUTOR, deposit, name).is_ok(), "{}", name);
    }
}

#[test]
fn remove_non_member_is_not_found() {
    let mut m = museum_with_contributor();
    assert_eq!(m.remove_myself_as_contributor(&ctx(OUTSIDER, 0)), Err(MuseumError::NotFound));
    assert_eq!(m.remove_myself_as_contributor(&ctx(OWNER, 0)), Err(MuseumError::NotFound));
    assert_eq!(m.get_museum().get_contributor_list(), vec![CONTRIBUTOR.to_string()]);
}

#[test]
fn self_add_keeps_duplicates_and_remove_takes_the_first() {
    let mut m = fresh_museum();
    m.add_myself_as_contributor(&ctx(CONTRIBUTOR, 0)).unwrap();
    m.add_myself_as_contributor(&ctx(OUTSIDER, 0)).unwrap();
    m.add_myself_as_contributor(&ctx(CONTRIBUTOR, 0)).unwrap();
    assert_eq!(
        m.get_museum().get_contributor_list(),
        vec![CONTRIBUTOR.to_string(), OUTSIDER.to_string(), CONTRIBUTOR.to_string()]
    );
    assert_eq!(m.remove_myself_as_contributor(&ctx(CONTRIBUTOR, 0)), Ok(()));
    assert_eq!(
        m.get_museum().get_contributor_list(),
        vec![OUTSIDER.to_string(), CONTRIBUTOR.to_string()]
    );
    assert!(m.is_contributor(&ctx(CONTRIBUTOR, 0)));
    assert_eq!(m.remove_myself_as_contributor(&ctx(CONTRIBUTOR, 0)), Ok(()));
    assert!(!m.is_contributor(&ctx(CONTRIBUTOR, 0)));
}

#[test]
fn owner_adds_a_contributor() {
    let mut m = fresh_museum();
    assert_eq!(m.add_contributor(&ctx(OWNER, 0), CONTRIBUTOR.to_string()), Ok(()));
    assert!(m.is_contributor(&ctx(CONTRIBUTOR, 0)));
}

#[test]
fn only_owners_add_contributors() {
    let mut m = museum_with_contributor();
    assert_eq!(
        m.add_contributor(&ctx(CONTRIBUTOR, 0), OUTSIDER.to_string()),
        Err(MuseumError::Unauthorized)
    );
    assert_eq!(m.assert_signed_by_owner(&ctx(CONTRIBUTOR, 0)), Err(MuseumError::Unauthorized));
    assert_eq!(m.assert_signed_by_owner(&ctx(OWNER, 0)), Ok(()));
    assert!(!m.is_contributor(&ctx(OUTSIDER, 0)));
}

#[test]
fn add_contributor_needs_an_initialized_state() {
    let mut m = fresh_museum();
    let context = uninitialized(OWNER, 0);
    assert!(!m.is_initialized(&context));
    assert_eq!(m.assert_contract_is_initialized(&context), Err(MuseumError::NotInitialized));
    assert_eq!(
        m.add_contributor(&context, CONTRIBUTOR.to_string()),
        Err(MuseumError::NotInitialized)
    );
    assert!(m.get_museum().get_contributor_list().is_empty());
}

#[test]
fn stored_fields_round_trip() {
    let museum = Museum::from_parts(
        "gallery".to_string(),
        42,
        vec![OWNER.to_string()],
        vec!["pepe.museum.testnet".to_string()],
        vec![CONTRIBUTOR.to_string(), CONTRIBUTOR.to_string()],
    );
    let again = Museum::from_parts(
        museum.get_name(),
        museum.get_created_at(),
        museum.get_owner_list(),
        museum.get_meme_list(),
        museum.get_contributor_list(),
    );
    let m = MemeMuseum::from_museum(again);
    assert_eq!(m.get_museum().get_name(), "gallery");
    assert_eq!(m.get_museum().get_created_at(), 42);
    assert_eq!(m.get_owner_list(), vec![OWNER.to_string()]);
    assert_eq!(m.get_meme_list(), vec!["pepe.museum.testnet".to_string()]);
    assert_eq!(
        m.get_museum().get_contributor_list(),
        vec![CONTRIBUTOR.to_string(), CONTRIBUTOR.to_string()]
    );
}

#[test]
fn museum_new_is_empty() {
    let museum = Museum::new("gallery".to_string(), 7);
    assert_eq!(museum.get_name(), "gallery");
    assert_eq!(museum.get_created_at(), 7);
    assert!(museum.get_owner_list().is_empty());
    assert_eq!(museum.get_meme_count(), 0);
    assert!(!museum.has_owner(&OWNER.to_string()));
}

#[test]
fn museum_records_memes_in_order() {
    let mut museum = Museum::new("gallery".to_string(), 7);
    museum.add_meme("a.museum.testnet".to_string());
    museum.add_meme("b.museum.testnet".to_string());
    assert!(museum.has_meme(&"b.museum.testnet".to_string()));
    assert!(!museum.has_meme(&"c.museum.testnet".to_string()));
    assert_eq!(
        museum.get_meme_list(),
        vec!["a.museum.testnet".to_string(), "b.museum.testnet".to_string()]
    );
}

#[test]
fn callback_from_another_account_is_refused() {
    let mut m = museum_with_contributor();
    let account = ask(&mut m, CONTRIBUTOR, MIN_ACCOUNT_BALANCE + 1, "pepe").unwrap();
    assert_eq!(
        m.on_add_meme(&ctx(CONTRIBUTOR, 0), account.clone(), true),
        Err(MuseumError::Unauthorized)
    );
    assert_eq!(m.on_add_meme(&ctx(OWNER, 0), account, true), Err(MuseumError::Unauthorized));
    assert!(m.get_meme_list().is_empty());
}

#[test]
fn entry_points_need_an_initialized_state() {
    let mut m = museum_with_contributor();
    assert_eq!(
        m.add_myself_as_contributor(&uninitialized(OUTSIDER, 0)),
        Err(MuseumError::NotInitialized)
    );
    assert_eq!(
        m.remove_myself_as_contributor(&uninitialized(CONTRIBUTOR, 0)),
        Err(MuseumError::NotInitialized)
    );
    assert_eq!(
        m.add_meme(
            &uninitialized(CONTRIBUTOR, MIN_ACCOUNT_BALANCE + 1),
            "pepe".to_string(),
            "Title".to_string(),
            "data".to_string(),
            Category::B,
        )
        .map(|c| c.account_id),
        Err(MuseumError::NotInitialized)
    );
    assert_eq!(
        m.on_add_meme(&uninitialized(CONTRACT, 0), "pepe.museum.testnet".to_string(), true),
        Err(MuseumError::NotInitialized)
    );
    assert_eq!(m.get_museum().get_contributor_list(), vec![CONTRIBUTOR.to_string()]);
    assert!(m.get_meme_list().is_empty());
}
