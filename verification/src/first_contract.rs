//! The source side of the handoff: a one-way state machine that freezes the
//! contract on migration and gates the data export behind a one-time secret.

use vstd::prelude::*;

use crate::error::ContractError;
use crate::first_export::{Account, ExportData};

verus! {

/// Whether the contract still accepts state-changing operations.
/// The only transition is `Running` to `Migrated`; there is no way back.
#[derive(Clone, Copy, Debug, PartialEq, Eq, Structural)]
pub enum ContractMode {
    Running,
    Migrated,
}

/// The source contract's single persisted record.
#[derive(Clone, Debug, PartialEq)]
pub struct State {
    /// The account allowed to request the migration.  Set once at creation.
    pub owner: String,
    /// The designated successor, `None` until migration starts.
    pub migration_addr: Option<String>,
    /// The one-time export secret, `None` until migration starts.
    pub migration_secret: Option<Vec<u8>>,
    /// One-way mode flag.
    pub mode: ContractMode,
}

impl State {
    /// The record's invariant: the contract is migrated exactly when both the
    /// successor and the secret are recorded.
    pub open spec fn wf(self) -> bool {
        (self.mode == ContractMode::Migrated) <==> (self.migration_addr is Some
            && self.migration_secret is Some)
    }

    /// Decides the invariant, for callers outside the proof: a record loaded
    /// from storage can be checked before it is operated on.
    pub fn is_well_formed(&self) -> (r: bool)
        ensures
            r == self.wf(),
    {
        match self.mode {
            ContractMode::Migrated => self.migration_addr.is_some()
                && self.migration_secret.is_some(),
            ContractMode::Running => !(self.migration_addr.is_some()
                && self.migration_secret.is_some()),
        }
    }
}

/// Creation carries no payload.
#[derive(Clone, Debug, PartialEq)]
pub struct InitMsg {}

/// The source's state-changing operations.
#[derive(Clone, Debug, PartialEq)]
pub enum HandleMsg {
    /// Request the handoff to the contract at `address` with code `code_hash`.
    Migrate { address: String, code_hash: String },
}

/// The push message the source sends to its successor.
#[derive(Clone, Debug, PartialEq)]
pub enum SecondContractHandleMsg {
    SetMigrationSecret { secret: Vec<u8> },
}

/// The source's read-only operations.
#[derive(Clone, Debug, PartialEq)]
pub enum QueryMsg {
    /// Where did this contract migrate to, if anywhere?
    MigrationAddress {},
    /// Release the exported snapshot to whoever presents the secret.
    ExportedData { secret: Vec<u8> },
}

/// An outbound execute call the host is asked to deliver.
#[derive(Clone, Debug, PartialEq)]
pub struct OutgoingExecute {
    pub contract_addr: String,
    pub callback_code_hash: String,
    pub msg: SecondContractHandleMsg,
}

/// A query's answer, before wire encoding.
#[derive(Clone, Debug, PartialEq)]
pub enum QueryAnswer {
    MigrationAddress(Option<String>),
    ExportedData(ExportData),
}

/// The secret the source issues.  A stand-in value: a production deployment
/// must draw a cryptographically unpredictable token instead.
pub open spec fn placeholder_secret() -> Seq<u8> {
    seq![97u8, 115u8, 100u8, 102u8, 103u8, 104u8]
}

/// Draws the migration secret.
fn generate_secret() -> (r: Vec<u8>)
    ensures
        r@ == placeholder_secret(),
{
    let r: Vec<u8> = vec![97u8, 115u8, 100u8, 102u8, 103u8, 104u8];
    proof {
        assert(r@ =~= placeholder_secret());
    }
    r
}

/// Does the presented secret match the stored one?  False whenever no secret
/// is stored at all.
pub open spec fn secret_matches(stored: Option<Vec<u8>>, presented: Seq<u8>) -> bool {
    stored matches Some(s) && s@ == presented
}

/// The snapshot the export query releases: the source's data at call time.
pub open spec fn is_export_snapshot(d: ExportData) -> bool {
    &&& d.name@ == "example"@
    &&& d.decimals == 6
    &&& d.accounts@ == Seq::<Account>::empty()
}

/// How a migrated record relates to the record it came from.
pub open spec fn migrate_transition(s: State, s2: State, address: String) -> bool {
    &&& s2.owner == s.owner
    &&& s2.migration_addr == Some(address)
    &&& s2.migration_secret matches Some(sec) && sec@ == placeholder_secret()
    &&& s2.mode == ContractMode::Migrated
}

/// The push message a successful migration emits: the fresh secret, addressed
/// to the successor.
pub open spec fn migrate_message(
    s2: State,
    out: OutgoingExecute,
    address: String,
    code_hash: String,
) -> bool {
    &&& out.contract_addr == address
    &&& out.callback_code_hash == code_hash
    &&& out.msg matches SecondContractHandleMsg::SetMigrationSecret { secret }
        && secret@ == placeholder_secret() && secret_matches(s2.migration_secret, secret@)
}

/// Everything a migration request does, success and failure alike.
pub open spec fn migrate_outcome(
    s: State,
    sender: String,
    address: String,
    code_hash: String,
    r: Result<OutgoingExecute, ContractError>,
    s2: State,
) -> bool {
    &&& (sender@ != s.owner@ ==> r == Err::<OutgoingExecute, ContractError>(
        ContractError::Unauthorized,
    ) && s2 == s)
    &&& (sender@ == s.owner@ && s.migration_addr is Some ==> r == Err::<
        OutgoingExecute,
        ContractError,
    >(ContractError::AlreadyMigrated) && s2 == s)
    &&& (sender@ == s.owner@ && s.migration_addr is None ==> (r matches Ok(out)
        && migrate_transition(s, s2, address) && migrate_message(s2, out, address, code_hash)))
}

/// Everything the export query does: the snapshot for a matching secret, and
/// one single generic denial for everything else.
pub open spec fn export_query_outcome(
    s: State,
    presented: Seq<u8>,
    r: Result<ExportData, ContractError>,
) -> bool {
    &&& (secret_matches(s.migration_secret, presented) ==> (r matches Ok(d)
        && is_export_snapshot(d)))
    &&& (!secret_matches(s.migration_secret, presented) ==> r == Err::<ExportData, ContractError>(
        ContractError::NotAuthorized,
    ))
}

/// Everything the dispatcher does: a frozen contract refuses every
/// state-changing call before dispatch; a running one dispatches.
pub open spec fn handle_outcome(
    s: State,
    sender: String,
    msg: HandleMsg,
    r: Result<OutgoingExecute, ContractError>,
    s2: State,
) -> bool {
    &&& (s.mode == ContractMode::Migrated ==> r == Err::<OutgoingExecute, ContractError>(
        ContractError::ContractFrozen,
    ) && s2 == s)
    &&& (s.mode == ContractMode::Running ==> (msg matches HandleMsg::Migrate { address, code_hash }
        && migrate_outcome(s, sender, address, code_hash, r, s2)))
}

/// Creates the source's record: the creator becomes the owner, the contract
/// runs, and nothing about a migration is recorded yet.
pub fn init(sender: String, _msg: InitMsg) -> (s: State)
    ensures
        s.owner == sender,
        s.migration_addr is None,
        s.migration_secret is None,
        s.mode == ContractMode::Running,
        s.wf(),
{
    State {
        owner: sender,
        migration_addr: None,
        migration_secret: None,
        mode: ContractMode::Running,
    }
}

/// Dispatches a state-changing call.  A migrated contract refuses everything
/// with `ContractFrozen` before looking at the message.
pub fn handle(state: &mut State, sender: &String, msg: HandleMsg) -> (r: Result<
    OutgoingExecute,
    ContractError,
>)
    requires
        old(state).wf(),
    ensures
        final(state).wf(),
        handle_outcome(*old(state), *sender, msg, r, *final(state)),
{
    match state.mode {
        ContractMode::Migrated => Err(ContractError::ContractFrozen),
        ContractMode::Running => {
            match msg {
                HandleMsg::Migrate { address, code_hash } => migrate(
                    state,
                    sender,
                    address,
                    code_hash,
                ),
            }
        },
    }
}

/// The migration request itself: only the owner, only once.  On success the
/// record turns `Migrated`, keeps the fresh secret, and the returned push
/// message carries that same secret to the successor.  The state change and
/// the push are handed back together, so the protocol commits them
/// atomically.
pub fn migrate(state: &mut State, sender: &String, address: String, code_hash: String) -> (r:
    Result<OutgoingExecute, ContractError>)
    requires
        old(state).wf(),
    ensures
        final(state).wf(),
        migrate_outcome(*old(state), *sender, address, code_hash, r, *final(state)),
{
    if !(*sender == state.owner) {
        return Err(ContractError::Unauthorized);
    }
    if state.migration_addr.is_some() {
        return Err(ContractError::AlreadyMigrated);
    }
    let secret = generate_secret();
    state.migration_addr = Some(address.clone());
    state.mode = ContractMode::Migrated;
    state.migration_secret = Some(secret.clone());
    Ok(OutgoingExecute {
        contract_addr: address,
        callback_code_hash: code_hash,
        msg: SecondContractHandleMsg::SetMigrationSecret { secret },
    })
}

/// Answers a read-only call.  The export branch is gated by the secret; the
/// address branch is open to everyone.
pub fn query(state: &State, msg: QueryMsg) -> (r: Result<QueryAnswer, ContractError>)
    ensures
        msg matches QueryMsg::MigrationAddress {  } ==> (r matches Ok(a)
            && a matches QueryAnswer::MigrationAddress(addr) && addr == state.migration_addr),
        (msg matches QueryMsg::ExportedData { secret } && secret_matches(
            state.migration_secret,
            secret@,
        )) ==> (r matches Ok(a) && a matches QueryAnswer::ExportedData(d) && is_export_snapshot(d)),
        (msg matches QueryMsg::ExportedData { secret } && !secret_matches(
            state.migration_secret,
            secret@,
        )) ==> r == Err::<QueryAnswer, ContractError>(ContractError::NotAuthorized),
{
    match msg {
        QueryMsg::MigrationAddress {  } => Ok(
            QueryAnswer::MigrationAddress(query_migration_address(state)),
        ),
        QueryMsg::ExportedData { secret } => {
            match query_exported_data(state, &secret) {
                Ok(d) => Ok(QueryAnswer::ExportedData(d)),
                Err(e) => Err(e),
            }
        },
    }
}

/// Where did this contract migrate to?  `None` while it is still running.
pub fn query_migration_address(state: &State) -> (r: Option<String>)
    ensures
        r == state.migration_addr,
{
    state.migration_addr.clone()
}

/// Releases the exported snapshot to whoever presents the stored secret.
/// A wrong secret and a secret presented before any migration are refused
/// with one and the same error, so the caller cannot tell the cases apart.
pub fn query_exported_data(state: &State, secret: &Vec<u8>) -> (r: Result<
    ExportData,
    ContractError,
>)
    ensures
        export_query_outcome(*state, secret@, r),
{
    match &state.migration_secret {
        None => Err(ContractError::NotAuthorized),
        Some(stored) => {
            let same = *stored == *secret;
            proof {
                if stored@ == secret@ {
                    assert(forall|i: int|
                        0 <= i < stored@.len() ==> stored@[i] == secret@[i]);
                }
                if same {
                    assert(stored@ =~= secret@);
                }
            }
            if same {
                Ok(ExportData {
                    name: String::from_str("example"),
                    decimals: 6,
                    accounts: Vec::new(),
                })
            } else {
                Err(ContractError::NotAuthorized)
            }
        },
    }
}

/// The mode is one-way: no accepted call ever takes a migrated source back
/// to `Running`.  Whatever `handle` answers, a record that was `Migrated`
/// stays `Migrated`, and a record that ends up `Running` was left untouched.
pub proof fn lemma_mode_one_way(
    s: State,
    sender: String,
    msg: HandleMsg,
    r: Result<OutgoingExecute, ContractError>,
    s2: State,
)
    requires
        s.wf(),
        handle_outcome(s, sender, msg, r, s2),
    ensures
        s.mode == ContractMode::Migrated ==> s2.mode == ContractMode::Migrated,
        s2.mode == ContractMode::Running ==> s2 == s,
{
}

/// A second migration request can never succeed: once one request has gone
/// through, every further request is refused and leaves the record exactly
/// as it was; for the owner the refusal is `AlreadyMigrated`.
pub proof fn lemma_no_second_migration(
    s: State,
    sender1: String,
    address1: String,
    hash1: String,
    r1: Result<OutgoingExecute, ContractError>,
    s2: State,
    sender2: String,
    address2: String,
    hash2: String,
    r2: Result<OutgoingExecute, ContractError>,
    s3: State,
)
    requires
        s.wf(),
        migrate_outcome(s, sender1, address1, hash1, r1, s2),
        r1 is Ok,
        migrate_outcome(s2, sender2, address2, hash2, r2, s3),
    ensures
        r2 is Err,
        s3 == s2,
        sender2@ == s2.owner@ ==> r2 == Err::<OutgoingExecute, ContractError>(
            ContractError::AlreadyMigrated,
        ),
{
}

/// A migrated source refuses every state-changing call, of any kind, with
/// `ContractFrozen`, before even looking at the message, and changes
/// nothing.
pub proof fn lemma_frozen_rejects(
    s: State,
    sender: String,
    msg: HandleMsg,
    r: Result<OutgoingExecute, ContractError>,
    s2: State,
)
    requires
        s.wf(),
        s.mode == ContractMode::Migrated,
        handle_outcome(s, sender, msg, r, s2),
    ensures
        r == Err::<OutgoingExecute, ContractError>(ContractError::ContractFrozen),
        s2 == s,
{
}

/// Every denial of the export query looks the same: whether the secret was
/// wrong or no secret was ever stored, and whatever the record held, the two
/// answers are equal, so the caller learns nothing about which case it hit.
pub proof fn lemma_denial_indistinguishable(
    s1: State,
    presented1: Seq<u8>,
    r1: Result<ExportData, ContractError>,
    s2: State,
    presented2: Seq<u8>,
    r2: Result<ExportData, ContractError>,
)
    requires
        export_query_outcome(s1, presented1, r1),
        !secret_matches(s1.migration_secret, presented1),
        export_query_outcome(s2, presented2, r2),
        !secret_matches(s2.migration_secret, presented2),
    ensures
        r1 == r2,
{
}

} // verus!
