//! The target contract: secret receipt, the pull request and its completion.

use handoff::error::ContractError;
use handoff::first_export::ExportData;
use handoff::second_contract::{
    complete_migration, handle, init, migrate, query, set_migration_secret,
    FirstContractQueryMsg, HandleMsg, InitMsg, QueryMsg,
};

fn s(x: &str) -> String {
    x.to_string()
}

fn fresh_target() -> handoff::second_contract::State {
    init(
        s("bob"),
        InitMsg { first_contract_addr: s("first"), first_contract_hash: s("hash1") },
    )
}

fn sample_payload() -> ExportData {
    ExportData { name: s("example"), decimals: 6, accounts: Vec::new() }
}

#[test]
fn init_registers_owner_and_source() {
    let st = fresh_target();
    assert_eq!(st.owner, s("bob"));
    assert_eq!(st.first_contract_addr, s("first"));
    assert_eq!(st.first_contract_hash, s("hash1"));
    assert_eq!(st.migration_secret, None);
    assert_eq!(st.exported_data, None);
}

#[test]
fn secret_push_from_registered_source_is_stored() {
    let mut st = fresh_target();
    let r = set_migration_secret(&mut st, &s("first"), b"asdfgh".to_vec());
    assert_eq!(r, Ok(()));
    assert_eq!(st.migration_secret, Some(b"asdfgh".to_vec()));
    assert_eq!(st.owner, s("bob"));
    assert_eq!(st.exported_data, None);
}

#[test]
fn secret_push_from_anyone_else_is_unauthorized_and_changes_nothing() {
    let mut st = fresh_target();
    let before = st.clone();
    let r = set_migration_secret(&mut st, &s("mallory"), b"stolen".to_vec());
    assert_eq!(r, Err(ContractError::Unauthorized));
    assert_eq!(st, before);
    // not even the owner may push the secret
    let r2 = set_migration_secret(&mut st, &s("bob"), b"owned!".to_vec());
    assert_eq!(r2, Err(ContractError::Unauthorized));
    assert_eq!(st, before);
}

#[test]
fn secret_push_may_overwrite_an_earlier_one() {
    // the reference behavior: the registered source may push again, and the
    // newer secret replaces the older one
    let mut st = fresh_target();
    set_migration_secret(&mut st, &s("first"), b"older!".to_vec()).unwrap();
    set_migration_secret(&mut st, &s("first"), b"newer!".to_vec()).unwrap();
    assert_eq!(st.migration_secret, Some(b"newer!".to_vec()));
}

#[test]
fn pull_before_secret_is_secret_not_set() {
    let st = fresh_target();
    let r = migrate(&st, &s("bob"));
    assert_eq!(r, Err(ContractError::SecretNotSet));
}

#[test]
fn pull_by_non_owner_is_unauthorized() {
    let mut st = fresh_target();
    set_migration_secret(&mut st, &s("first"), b"asdfgh".to_vec()).unwrap();
    let r = migrate(&st, &s("mallory"));
    assert_eq!(r, Err(ContractError::Unauthorized));
}

#[test]
fn pull_prepares_the_remote_query_with_the_stored_secret() {
    let mut st = fresh_target();
    set_migration_secret(&mut st, &s("first"), b"asdfgh".to_vec()).unwrap();
    let q = migrate(&st, &s("bob")).unwrap();
    assert_eq!(q.contract_addr, s("first"));
    assert_eq!(q.callback_code_hash, s("hash1"));
    assert_eq!(
        q.msg,
        FirstContractQueryMsg::Migrate { secret: b"asdfgh".to_vec() }
    );
}

#[test]
fn completion_persists_the_released_snapshot() {
    let mut st = fresh_target();
    set_migration_secret(&mut st, &s("first"), b"asdfgh".to_vec()).unwrap();
    let r = complete_migration(&mut st, Some(sample_payload()));
    assert_eq!(r, Ok(()));
    assert_eq!(st.exported_data, Some(sample_payload()));
}

#[test]
fn completion_after_a_refused_query_is_remote_query_failed() {
    let mut st = fresh_target();
    set_migration_secret(&mut st, &s("first"), b"asdfgh".to_vec()).unwrap();
    let before = st.clone();
    let r = complete_migration(&mut st, None);
    assert_eq!(r, Err(ContractError::RemoteQueryFailed));
    assert_eq!(st, before);
}

#[test]
fn handle_dispatches_secret_push_and_pull() {
    let mut st = fresh_target();
    let r = handle(
        &mut st,
        &s("first"),
        HandleMsg::SetMigrationSecret { secret: b"asdfgh".to_vec() },
    );
    assert_eq!(r, Ok(None));
    assert_eq!(st.migration_secret, Some(b"asdfgh".to_vec()));

    let r2 = handle(&mut st, &s("bob"), HandleMsg::Migrate {}).unwrap();
    let q = r2.expect("the pull must hand back the remote query");
    assert_eq!(q.contract_addr, s("first"));

    let r3 = handle(&mut st, &s("mallory"), HandleMsg::Migrate {});
    assert_eq!(r3, Err(ContractError::Unauthorized));
}

#[test]
fn query_answers_nothing_yet() {
    let st = fresh_target();
    assert_eq!(query(&st, QueryMsg {}), Vec::<u8>::new());
}
