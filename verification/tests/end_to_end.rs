//! The whole handoff, both contracts composed as the host would compose them.

use handoff::error::ContractError;
use handoff::first_contract;
use handoff::first_contract::{QueryAnswer, SecondContractHandleMsg};
use handoff::second_contract;
use handoff::second_contract::FirstContractQueryMsg;

fn s(x: &str) -> String {
    x.to_string()
}

#[test]
fn full_handoff_moves_the_snapshot_to_the_target() {
    // the source contract lives at "first", the target at "second"
    let mut src = first_contract::init(s("alice"), first_contract::InitMsg {});
    let mut tgt = second_contract::init(
        s("bob"),
        second_contract::InitMsg {
            first_contract_addr: s("first"),
            first_contract_hash: s("hash1"),
        },
    );

    // the source's owner requests the migration
    let push = first_contract::handle(
        &mut src,
        &s("alice"),
        first_contract::HandleMsg::Migrate { address: s("second"), code_hash: s("hash2") },
    )
    .unwrap();
    assert_eq!(src.mode, first_contract::ContractMode::Migrated);
    assert_eq!(push.contract_addr, s("second"));

    // the host delivers the push; its sender is the source contract itself
    let SecondContractHandleMsg::SetMigrationSecret { secret } = push.msg;
    second_contract::set_migration_secret(&mut tgt, &s("first"), secret).unwrap();

    // the target's owner pulls; the host performs the prepared remote query
    let q = second_contract::migrate(&tgt, &s("bob")).unwrap();
    assert_eq!(q.contract_addr, s("first"));
    assert_eq!(q.callback_code_hash, s("hash1"));
    let FirstContractQueryMsg::Migrate { secret } = q.msg;
    let answer = first_contract::query(
        &src,
        first_contract::QueryMsg::ExportedData { secret },
    )
    .unwrap();
    let payload = match answer {
        QueryAnswer::ExportedData(d) => d,
        other => panic!("expected the export payload, got {:?}", other),
    };

    // the host hands the answer back and the target persists it
    second_contract::complete_migration(&mut tgt, Some(payload.clone())).unwrap();
    assert_eq!(tgt.exported_data, Some(payload));
    let stored = tgt.exported_data.unwrap();
    assert_eq!(stored.name, s("example"));
    assert_eq!(stored.decimals, 6);
    assert!(stored.accounts.is_empty());
}

#[test]
fn corrupted_secret_gets_the_generic_denial_and_the_target_keeps_nothing() {
    let mut src = first_contract::init(s("alice"), first_contract::InitMsg {});
    let mut tgt = second_contract::init(
        s("bob"),
        second_contract::InitMsg {
            first_contract_addr: s("first"),
            first_contract_hash: s("hash1"),
        },
    );

    let push = first_contract::handle(
        &mut src,
        &s("alice"),
        first_contract::HandleMsg::Migrate { address: s("second"), code_hash: s("hash2") },
    )
    .unwrap();
    let SecondContractHandleMsg::SetMigrationSecret { secret } = push.msg;
    second_contract::set_migration_secret(&mut tgt, &s("first"), secret).unwrap();

    // the pull goes out with a corrupted secret
    let q = second_contract::migrate(&tgt, &s("bob")).unwrap();
    let FirstContractQueryMsg::Migrate { mut secret } = q.msg;
    secret[0] ^= 0xff;
    let denied = first_contract::query(
        &src,
        first_contract::QueryMsg::ExportedData { secret },
    );
    assert_eq!(denied, Err(ContractError::NotAuthorized));
    // the very same denial a never-migrated source would give
    let fresh = first_contract::init(s("carol"), first_contract::InitMsg {});
    let denied_fresh = first_contract::query_exported_data(&fresh, &b"asdfgh".to_vec());
    assert_eq!(denied.unwrap_err(), denied_fresh.unwrap_err());

    // the source refused, so the pull fails recoverably and nothing is stored
    let before = tgt.clone();
    let r = second_contract::complete_migration(&mut tgt, None);
    assert_eq!(r, Err(ContractError::RemoteQueryFailed));
    assert_eq!(tgt, before);
    assert_eq!(tgt.exported_data, None);
}
