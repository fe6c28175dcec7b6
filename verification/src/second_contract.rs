//! The target side of the handoff: receives the one-time secret over the
//! authenticated message channel, then pulls the exported data by presenting
//! that secret back to the source.

use vstd::prelude::*;

use crate::error::ContractError;
use crate::first_export::ExportData;

verus! {

/// The target contract's single persisted record.
#[derive(Clone, Debug, PartialEq)]
pub struct State {
    /// The account allowed to trigger the pull step.  Set once at creation.
    pub owner: String,
    /// Identity of the designated source contract.  Fixed at creation; the
    /// push of the secret is accepted from this sender and no other.
    pub first_contract_addr: String,
    /// Code hash of the designated source contract, fixed at creation.
    pub first_contract_hash: String,
    /// The one-time secret, populated only by an authenticated push from the
    /// source.
    pub migration_secret: Option<Vec<u8>>,
    /// The snapshot pulled from the source, once the pull has succeeded.
    pub exported_data: Option<ExportData>,
}

/// Creation names the source contract the target will listen to and pull
/// from.
#[derive(Clone, Debug, PartialEq)]
pub struct InitMsg {
    pub first_contract_addr: String,
    pub first_contract_hash: String,
}

/// The target's state-changing operations.
#[derive(Clone, Debug, PartialEq)]
pub enum HandleMsg {
    /// The source's push of the one-time secret.
    SetMigrationSecret { secret: Vec<u8> },
    /// The owner's request to pull the exported data.
    Migrate {},
}

/// The target's read-only surface.  This deployment answers nothing yet: a
/// concrete successor defines its own post-migration reads.
#[derive(Clone, Debug, PartialEq)]
pub struct QueryMsg {}

/// The query the target sends to the source to pull the export.
#[derive(Clone, Debug, PartialEq)]
pub enum FirstContractQueryMsg {
    Migrate { secret: Vec<u8> },
}

/// An outbound smart query the host is asked to perform.
#[derive(Clone, Debug, PartialEq)]
pub struct OutgoingQuery {
    pub contract_addr: String,
    pub callback_code_hash: String,
    pub msg: FirstContractQueryMsg,
}

/// Everything the secret push does: only the registered source may store the
/// secret; every other field stays as it was, and a refused push changes
/// nothing at all.
pub open spec fn set_secret_outcome(
    s: State,
    sender: String,
    secret: Vec<u8>,
    r: Result<(), ContractError>,
    s2: State,
) -> bool {
    &&& (sender@ != s.first_contract_addr@ ==> r == Err::<(), ContractError>(
        ContractError::Unauthorized,
    ) && s2 == s)
    &&& (sender@ == s.first_contract_addr@ ==> r == Ok::<(), ContractError>(())
        && s2 == State { migration_secret: Some(secret), ..s })
}

/// Everything the pull request decides before any outside call is made: only
/// the owner may pull, only once a secret is stored, and the prepared remote
/// query presents exactly the stored secret to the registered source.
pub open spec fn pull_request_outcome(
    s: State,
    sender: String,
    r: Result<OutgoingQuery, ContractError>,
) -> bool {
    &&& (sender@ != s.owner@ ==> r == Err::<OutgoingQuery, ContractError>(
        ContractError::Unauthorized,
    ))
    &&& (sender@ == s.owner@ && s.migration_secret is None ==> r == Err::<
        OutgoingQuery,
        ContractError,
    >(ContractError::SecretNotSet))
    &&& (sender@ == s.owner@ ==> (s.migration_secret matches Some(sec) ==> (r matches Ok(q)
        && q.contract_addr == s.first_contract_addr
        && q.callback_code_hash == s.first_contract_hash
        && (q.msg matches FirstContractQueryMsg::Migrate { secret } && secret@ == sec@))))
}

/// Everything the pull's completion does: a successful remote answer is
/// persisted as the imported snapshot; a refused one surfaces as a distinct,
/// recoverable error and changes nothing.
pub open spec fn complete_outcome(
    s: State,
    response: Option<ExportData>,
    r: Result<(), ContractError>,
    s2: State,
) -> bool {
    &&& (response matches Some(d) ==> r == Ok::<(), ContractError>(()) && s2 == State {
        exported_data: Some(d),
        ..s
    })
    &&& (response is None ==> r == Err::<(), ContractError>(ContractError::RemoteQueryFailed)
        && s2 == s)
}

/// Creates the target's record: the creator becomes the owner, the source is
/// registered, and no secret and no data are held yet.
pub fn init(sender: String, msg: InitMsg) -> (s: State)
    ensures
        s.owner == sender,
        s.first_contract_addr == msg.first_contract_addr,
        s.first_contract_hash == msg.first_contract_hash,
        s.migration_secret is None,
        s.exported_data is None,
{
    State {
        owner: sender,
        first_contract_addr: msg.first_contract_addr,
        first_contract_hash: msg.first_contract_hash,
        migration_secret: None,
        exported_data: None,
    }
}

/// Dispatches a state-changing call.  The pull itself needs the host to run
/// the remote query, so `Migrate` only prepares it here: the host performs
/// the returned query and hands its answer to `complete_migration`.
pub fn handle(state: &mut State, sender: &String, msg: HandleMsg) -> (r: Result<
    Option<OutgoingQuery>,
    ContractError,
>)
    ensures
        (msg matches HandleMsg::SetMigrationSecret { secret } ==> (match r {
            Ok(opt) => opt is None && set_secret_outcome(
                *old(state),
                *sender,
                secret,
                Ok(()),
                *final(state),
            ),
            Err(e) => set_secret_outcome(*old(state), *sender, secret, Err(e), *final(state)),
        })),
        (msg matches HandleMsg::Migrate {  } ==> *final(state) == *old(state) && (match r {
            Ok(opt) => opt matches Some(q) && pull_request_outcome(*old(state), *sender, Ok(q)),
            Err(e) => pull_request_outcome(
                *old(state),
                *sender,
                Err::<OutgoingQuery, ContractError>(e),
            ),
        })),
{
    match msg {
        HandleMsg::SetMigrationSecret { secret } => {
            match set_migration_secret(state, sender, secret) {
                Ok(()) => Ok(None),
                Err(e) => Err(e),
            }
        },
        HandleMsg::Migrate {  } => {
            match migrate(state, sender) {
                Ok(q) => Ok(Some(q)),
                Err(e) => Err(e),
            }
        },
    }
}

/// Stores the one-time secret.  Only a message whose transport-level sender
/// is the registered source contract may do so; anybody else is refused and
/// the record stays exactly as it was.
pub fn set_migration_secret(state: &mut State, sender: &String, secret: Vec<u8>) -> (r: Result<
    (),
    ContractError,
>)
    ensures
        set_secret_outcome(*old(state), *sender, secret, r, *final(state)),
{
    if !(*sender == state.first_contract_addr) {
        return Err(ContractError::Unauthorized);
    }
    state.migration_secret = Some(secret);
    Ok(())
}

/// The owner's pull request.  Decides everything that can be decided locally
/// and hands back the remote query the host must perform; the record itself
/// is untouched until the answer arrives.
pub fn migrate(state: &State, sender: &String) -> (r: Result<OutgoingQuery, ContractError>)
    ensures
        pull_request_outcome(*state, *sender, r),
{
    if !(*sender == state.owner) {
        return Err(ContractError::Unauthorized);
    }
    match &state.migration_secret {
        None => Err(ContractError::SecretNotSet),
        Some(secret) => Ok(OutgoingQuery {
            contract_addr: state.first_contract_addr.clone(),
            callback_code_hash: state.first_contract_hash.clone(),
            msg: FirstContractQueryMsg::Migrate { secret: secret.clone() },
        }),
    }
}

/// Answers a read-only call.  There is nothing to answer yet, so every query
/// gets the empty reply.
pub fn query(_state: &State, _msg: QueryMsg) -> (r: Vec<u8>)
    ensures
        r@ == Seq::<u8>::empty(),
{
    Vec::new()
}

/// Finishes the pull with the source's answer: persists a released snapshot,
/// or surfaces the source's refusal as `RemoteQueryFailed` without touching
/// the record.
pub fn complete_migration(state: &mut State, response: Option<ExportData>) -> (r: Result<
    (),
    ContractError,
>)
    ensures
        complete_outcome(*old(state), response, r, *final(state)),
{
    match response {
        Some(d) => {
            state.exported_data = Some(d);
            Ok(())
        },
        None => Err(ContractError::RemoteQueryFailed),
    }
}

} // verus!
