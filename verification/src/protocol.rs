//! The handoff seen as a whole: what the two contracts' contracts add up to
//! when the host delivers every message and query faithfully.

use vstd::prelude::*;

use crate::error::ContractError;
use crate::first_contract;
use crate::first_export::ExportData;
use crate::second_contract;

verus! {

/// The end-to-end guarantee of the handoff.
///
/// Suppose the source's owner requests the migration and it succeeds; the
/// emitted push, carrying the fresh secret, reaches the target with the
/// source's identity as its sender; the target's owner then asks to pull,
/// and the prepared remote query is answered by the migrated source.  Then
/// the pull request must succeed, the source must release the exported
/// snapshot, and the target ends up holding exactly that snapshot.
pub proof fn lemma_end_to_end(
    src0: first_contract::State,
    owner_a: String,
    address_t: String,
    hash_t: String,
    r_mig: Result<first_contract::OutgoingExecute, ContractError>,
    src1: first_contract::State,
    push_sender: String,
    push_secret: Vec<u8>,
    tgt0: second_contract::State,
    tgt1: second_contract::State,
    owner_b: String,
    r_pull: Result<second_contract::OutgoingQuery, ContractError>,
    presented: Vec<u8>,
    r_query: Result<ExportData, ContractError>,
    r_done: Result<(), ContractError>,
    tgt2: second_contract::State,
)
    requires
        src0.wf(),
        // the owner's migration request on the source went through
        first_contract::migrate_outcome(src0, owner_a, address_t, hash_t, r_mig, src1),
        r_mig is Ok,
        // the push that reaches the target is the one the source emitted,
        // delivered with the source's registered identity as its sender
        (r_mig matches Ok(out) ==> (out.msg
            matches first_contract::SecondContractHandleMsg::SetMigrationSecret { secret }
            && push_secret@ == secret@)),
        push_sender@ == tgt0.first_contract_addr@,
        second_contract::set_secret_outcome(tgt0, push_sender, push_secret, Ok(()), tgt1),
        // the target's owner asks to pull
        owner_b@ == tgt1.owner@,
        second_contract::pull_request_outcome(tgt1, owner_b, r_pull),
        // the prepared remote query is put to the source as prepared
        (r_pull matches Ok(q) ==> (q.msg
            matches second_contract::FirstContractQueryMsg::Migrate { secret }
            && presented@ == secret@)),
        first_contract::export_query_outcome(src1, presented@, r_query),
        // and the target finishes the pull with the source's answer
        second_contract::complete_outcome(
            tgt1,
            (match r_query {
                Ok(d) => Some(d),
                Err(_) => None,
            }),
            r_done,
            tgt2,
        ),
    ensures
        r_pull is Ok,
        r_query matches Ok(d) && first_contract::is_export_snapshot(d),
        r_done == Ok::<(), ContractError>(()),
        tgt2.exported_data matches Some(d) && first_contract::is_export_snapshot(d),
{
}

} // verus!
