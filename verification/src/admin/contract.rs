//! The ledger's commands and queries, each a function of the state, the
//! caller and the message.

use vstd::prelude::*;
use crate::admin::error::ContractError;
use crate::admin::msg::{AdminsListResp, ExecuteMsg, InstantiateMsg, MigrateMsg, QueryMsg, QueryResp};
use crate::admin::state::{find, is_admin, is_member, LedgerState, LedgerView};
use crate::decimal::{decimal, to_decimal};
use crate::host::{
    attr, coins, empty_response, views, AttributeView, CoinView, CosmosMsg, CosmosMsgView, Event,
    EventView, MessageInfo, Reply, ReplyOn, Response, ResponseView, StdError, SubMsg, SubMsgView,
    UNUSED_MSG_ID,
};
use crate::payment::{must_pay, required_payment};
use crate::verification::approves;
use crate::verification::msg::ExecuteMsg as VerifierExecuteMsg;

verus! {

/// The version that a new ledger records.
pub const OLD_VERSION: u32 = 1;

/// The version that an approved migration records.
pub const NEW_VERSION: u32 = 2;

/// The tag under which the verifier's verdict comes back.
pub const VALIDATE_MIGRATION_REPLY_ID: u64 = 1;

/// The views of a sequence with one more element are the views of the
/// sequence with that element's view appended.
pub proof fn lemma_views_push<T: View>(s: Seq<T>, x: T)
    ensures
        views(s.push(x)) == views(s).push(x@),
{
    assert(views(s.push(x)) =~= views(s).push(x@));
}

/// `admins` with `addr` admitted: appended, unless it is there already.
pub open spec fn enrol(admins: Seq<Seq<char>>, addr: Seq<char>) -> Seq<Seq<char>> {
    if is_admin(admins, addr) {
        admins
    } else {
        admins.push(addr)
    }
}

/// `admins` with each of `new` admitted in turn.
pub open spec fn enrol_all(admins: Seq<Seq<char>>, new: Seq<Seq<char>>) -> Seq<Seq<char>>
    decreases new.len(),
{
    if new.len() == 0 {
        admins
    } else {
        enrol(enrol_all(admins, new.drop_last()), new.last())
    }
}

/// Creates the ledger: the given admins in the order given, each once, the
/// donation denomination, the verifier's address, and the old version.
pub fn instantiate(msg: InstantiateMsg) -> (r: (LedgerState, Response))
    ensures
        r.0@ == (LedgerView {
            admins: enrol_all(Seq::empty(), views(msg.admins@)),
            donation_denom: msg.donation_denom@,
            version: OLD_VERSION,
            verifier: msg.verifier@,
        }),
        r.0.wf(),
        r.1@ == empty_response(),
{
    let ghost given = views(msg.admins@);
    let mut admins: Vec<String> = Vec::new();
    let mut i: usize = 0;
    assert(views(admins@) =~= Seq::empty());
    assert(given.take(0) =~= Seq::empty());
    while i < msg.admins.len()
        invariant
            i <= msg.admins.len(),
            given == views(msg.admins@),
            views(admins@) == enrol_all(Seq::empty(), given.take(i as int)),
            views(admins@).no_duplicates(),
        decreases msg.admins.len() - i,
    {
        let ghost before = admins@;
        if !is_member(&admins, &msg.admins[i]) {
            admins.push(msg.admins[i].clone());
            proof {
                lemma_views_push(before, admins@.last());
                lemma_push_fresh(views(before), given[i as int]);
            }
        }
        proof {
            assert(given.take(i + 1).drop_last() =~= given.take(i as int));
            assert(given.take(i + 1).last() == given[i as int]);
        }
        i += 1;
    }
    assert(given.take(msg.admins.len() as int) =~= given);
    let state = LedgerState {
        admins,
        donation_denom: msg.donation_denom,
        version: OLD_VERSION,
        verifier: msg.verifier,
    };
    (state, Response::new())
}

/// Appending an address that is not there keeps every address single.
pub proof fn lemma_push_fresh(admins: Seq<Seq<char>>, addr: Seq<char>)
    requires
        admins.no_duplicates(),
        !admins.contains(addr),
    ensures
        admins.push(addr).no_duplicates(),
{
    let t = admins.push(addr);
    assert forall|a: int, b: int| 0 <= a < t.len() && 0 <= b < t.len() && a != b implies t[a]
        != t[b] by {
        if a < admins.len() && b < admins.len() {
        } else if a < admins.len() {
            assert(admins.contains(admins[a]));
        } else {
            assert(admins.contains(admins[b]));
        }
    }
}

/// The answer to the query for the admins: all of them, in the order of
/// their admission.
pub fn admins_list(state: &LedgerState) -> (r: AdminsListResp)
    ensures
        views(r.admins@) == state@.admins,
{
    let mut admins: Vec<String> = Vec::new();
    let mut i: usize = 0;
    while i < state.admins.len()
        invariant
            i <= state.admins.len(),
            views(admins@) =~= views(state.admins@).take(i as int),
        decreases state.admins.len() - i,
    {
        let ghost before = admins@;
        admins.push(state.admins[i].clone());
        proof {
            lemma_views_push(before, admins@.last());
            assert(views(state.admins@).take(i + 1) =~= views(state.admins@).take(i as int).push(
                state.admins[i as int]@,
            ));
        }
        i += 1;
    }
    assert(views(state.admins@).take(state.admins.len() as int) =~= views(state.admins@));
    AdminsListResp { admins }
}

/// The answer to the query for the version: the one recorded.
pub fn get_version(state: &LedgerState) -> (r: u32)
    ensures
        r == state.version,
{
    state.version
}

/// Answers a query from the state, which it leaves alone.
pub fn query(state: &LedgerState, msg: QueryMsg) -> (r: QueryResp)
    ensures
        match msg {
            QueryMsg::AdminsList {  } => r matches QueryResp::AdminsList(resp) && views(
                resp.admins@,
            ) == state@.admins,
            QueryMsg::GetVersion {  } => r == QueryResp::Version(state.version),
        },
{
    match msg {
        QueryMsg::AdminsList {  } => QueryResp::AdminsList(admins_list(state)),
        QueryMsg::GetVersion {  } => QueryResp::Version(get_version(state)),
    }
}

/// Whether the `i`-th of `new` cannot be admitted: it is an admin already,
/// or it stands earlier in `new`.
pub open spec fn clashes(admins: Seq<Seq<char>>, new: Seq<Seq<char>>, i: int) -> bool {
    is_admin(admins, new[i]) || new.take(i).contains(new[i])
}

/// What a successful admission of `new` reports: one event per address, in
/// order, and the number of addresses.
pub open spec fn add_members_response(new: Seq<Seq<char>>) -> ResponseView {
    ResponseView {
        messages: Seq::empty(),
        attributes: seq![
            attr("action"@, "add_members"@),
            attr("added_count"@, decimal(new.len())),
        ],
        events: Seq::new(
            new.len(),
            |i: int| EventView { ty: "admin_added"@, attributes: seq![attr("addr"@, new[i])] },
        ),
    }
}

/// How `add_members` relates the state before and after, the caller, the
/// addresses and the result.
pub open spec fn add_members_post(
    pre: LedgerState,
    post: LedgerState,
    sender: Seq<char>,
    new: Seq<Seq<char>>,
    r: Result<Response, ContractError>,
) -> bool {
    if !is_admin(pre@.admins, sender) {
        &&& r matches Err(ContractError::Unauthorized { sender: s })
        &&& s@ == sender
        &&& post == pre
    } else if exists|i: int| 0 <= i < new.len() && clashes(pre@.admins, new, i) {
        &&& r matches Err(ContractError::AdminExists { admin })
        &&& exists|i: int|
            0 <= i < new.len() && #[trigger] clashes(pre@.admins, new, i) && admin@ == new[i]
                && forall|j: int| 0 <= j < i ==> !clashes(pre@.admins, new, j)
        &&& post == pre
    } else {
        &&& r matches Ok(resp)
        &&& resp@ == add_members_response(new)
        &&& post@ == (LedgerView { admins: pre@.admins + new, ..pre@ })
    }
}

/// Admits `admins`, for a caller who is an admin. A caller who is none is
/// refused. An address that is an admin already, or that is given twice, is
/// reported (the first such), and then nothing is admitted: an admin who
/// stood in the set twice would take two shares of every donation.
pub fn add_members(state: &mut LedgerState, info: MessageInfo, admins: Vec<String>) -> (r: Result<
    Response,
    ContractError,
>)
    requires
        old(state).wf(),
    ensures
        add_members_post(*old(state), *final(state), info.sender@, views(admins@), r),
        final(state).wf(),
{
    let ghost pre = views(state.admins@);
    let ghost new = views(admins@);
    if !is_member(&state.admins, &info.sender) {
        return Err(ContractError::Unauthorized { sender: info.sender });
    }
    let mut i: usize = 0;
    while i < admins.len()
        invariant
            i <= admins.len(),
            pre == views(state.admins@),
            new == views(admins@),
            *state == *old(state),
            old(state).wf(),
            is_admin(pre, info.sender@),
            forall|j: int| 0 <= j < i ==> !clashes(pre, new, j),
        decreases admins.len() - i,
    {
        if is_member(&state.admins, &admins[i]) || find(&admins, i, &admins[i]).is_some() {
            assert(clashes(pre, new, i as int));
            return Err(ContractError::AdminExists { admin: admins[i].clone() });
        }
        i += 1;
    }
    let mut resp = Response::new();
    i = 0;
    assert(new.take(0) =~= Seq::empty());
    assert(pre + new.take(0) =~= pre);
    while i < admins.len()
        invariant
            i <= admins.len(),
            new == views(admins@),
            pre == old(state)@.admins,
            pre.no_duplicates(),
            is_admin(pre, info.sender@),
            OLD_VERSION <= state.version <= NEW_VERSION,
            forall|j: int| 0 <= j < new.len() ==> !clashes(pre, new, j),
            views(state.admins@) == pre + new.take(i as int),
            views(state.admins@).no_duplicates(),
            state.donation_denom == old(state).donation_denom,
            state.version == old(state).version,
            state.verifier == old(state).verifier,
            resp@.messages == Seq::<SubMsgView>::empty(),
            resp@.attributes == Seq::<AttributeView>::empty(),
            resp@.events =~= Seq::new(
                i as nat,
                |k: int| EventView { ty: "admin_added"@, attributes: seq![attr("addr"@, new[k])] },
            ),
        decreases admins.len() - i,
    {
        let ghost before = state.admins@;
        let admin = admins[i].clone();
        proof {
            assert(!clashes(pre, new, i as int));
            assert(!(pre + new.take(i as int)).contains(new[i as int])) by {
                if (pre + new.take(i as int)).contains(new[i as int]) {
                    let k = choose|k: int|
                        0 <= k < (pre + new.take(i as int)).len() && (pre + new.take(i as int))[k]
                            == new[i as int];
                    if k < pre.len() {
                        assert(pre[k] == new[i as int]);
                        assert(pre.contains(new[i as int]));
                    } else {
                        assert(new.take(i as int)[k - pre.len()] == new[i as int]);
                        assert(new.take(i as int).contains(new[i as int]));
                    }
                }
            }
            lemma_push_fresh(views(before), new[i as int]);
        }
        let event = Event::new("admin_added").add_attribute("addr", admin.clone());
        assert(event@.attributes =~= seq![attr("addr"@, new[i as int])]);
        state.admins.push(admin);
        proof {
            lemma_views_push(before, state.admins@.last());
            assert(new.take(i + 1) =~= new.take(i as int).push(new[i as int]));
            assert(pre + new.take(i + 1) =~= (pre + new.take(i as int)).push(new[i as int]));
        }
        resp = resp.add_event(event);
        i += 1;
    }
    assert(new.take(admins.len() as int) =~= new);
    let resp = resp.add_attribute("action", "add_members".to_owned()).add_attribute(
        "added_count",
        to_decimal(admins.len() as u128),
    );
    assert(resp@.attributes =~= add_members_response(new).attributes);
    assert(resp@.events =~= add_members_response(new).events);
    Ok(resp)
}

/// `admins` without `addr`: its place is taken out, the others keep their
/// order; a sequence that does not hold it stays as it is.
pub open spec fn without(admins: Seq<Seq<char>>, addr: Seq<char>) -> Seq<Seq<char>> {
    if is_admin(admins, addr) {
        admins.remove(admins.index_of(addr))
    } else {
        admins
    }
}

/// What `leave` reports: the action and who left.
pub open spec fn leave_response(sender: Seq<char>) -> ResponseView {
    ResponseView {
        messages: Seq::empty(),
        attributes: seq![attr("action"@, "leave"@), attr("sender"@, sender)],
        events: Seq::empty(),
    }
}

/// How `leave` relates the state before and after, the caller and the
/// result.
pub open spec fn leave_post(
    pre: LedgerState,
    post: LedgerState,
    sender: Seq<char>,
    r: Result<Response, StdError>,
) -> bool {
    &&& r matches Ok(resp)
    &&& resp@ == leave_response(sender)
    &&& post@ == (LedgerView { admins: without(pre@.admins, sender), ..pre@ })
}

/// Taking out one place keeps every address single, and the address that
/// stood there is gone.
pub proof fn lemma_remove_keeps_single(admins: Seq<Seq<char>>, k: int)
    requires
        admins.no_duplicates(),
        0 <= k < admins.len(),
    ensures
        admins.remove(k).no_duplicates(),
        !admins.remove(k).contains(admins[k]),
        admins.index_of(admins[k]) == k,
{
    let t = admins.remove(k);
    assert forall|a: int, b: int| 0 <= a < t.len() && 0 <= b < t.len() && a != b implies t[a]
        != t[b] by {
        let a0 = if a < k { a } else { a + 1 };
        let b0 = if b < k { b } else { b + 1 };
        assert(t[a] == admins[a0] && t[b] == admins[b0]);
    }
    if t.contains(admins[k]) {
        let a = choose|a: int| 0 <= a < t.len() && t[a] == admins[k];
        let a0 = if a < k { a } else { a + 1 };
        assert(t[a] == admins[a0]);
    }
    assert(admins.contains(admins[k]));
}

/// Removes the caller from the admins. Anyone may call: a caller who is no
/// admin changes nothing, and is told the same.
pub fn leave(state: &mut LedgerState, info: MessageInfo) -> (r: Result<Response, StdError>)
    requires
        old(state).wf(),
    ensures
        leave_post(*old(state), *final(state), info.sender@, r),
        final(state).wf(),
{
    let ghost before = state.admins@;
    match find(&state.admins, state.admins.len(), &info.sender) {
        Some(k) => {
            state.admins.remove(k);
            proof {
                assert(views(before).take(before.len() as int) =~= views(before));
                lemma_remove_keeps_single(views(before), k as int);
                assert(views(before.remove(k as int)) =~= views(before).remove(k as int));
            }
        },
        None => {
            assert(views(before).take(before.len() as int) =~= views(before));
        },
    }
    let resp = Response::new().add_attribute("action", "leave".to_owned()).add_attribute(
        "sender",
        info.sender,
    );
    assert(resp@.attributes =~= leave_response(info.sender@).attributes);
    Ok(resp)
}

/// Each admin's share of a donation among `n` admins: the quotient, rounded
/// down.
pub open spec fn share(donation: u128, n: nat) -> u128
    recommends
        n > 0,
{
    (donation as nat / n) as u128
}

/// What of a donation among `n` admins stays with the ledger: the
/// remainder.
pub open spec fn retained(donation: u128, n: nat) -> u128
    recommends
        n > 0,
{
    (donation as nat % n) as u128
}

/// What a donation reports: one transfer of the share to each admin, in
/// order and also where the share is zero, then the action, the amount and
/// the share.
pub open spec fn donate_response(admins: Seq<Seq<char>>, denom: Seq<char>, donation: u128) -> ResponseView {
    ResponseView {
        messages: Seq::new(
            admins.len(),
            |i: int|
                SubMsgView {
                    id: UNUSED_MSG_ID,
                    msg: CosmosMsgView::BankSend {
                        to_address: admins[i],
                        amount: seq![CoinView { denom, amount: share(donation, admins.len()) }],
                    },
                    reply_on: ReplyOn::Never,
                },
        ),
        attributes: seq![
            attr("action"@, "donate"@),
            attr("amount"@, decimal(donation as nat)),
            attr("per_admin"@, decimal(share(donation, admins.len()) as nat)),
        ],
        events: Seq::empty(),
    }
}

/// How `donate` relates the state, the attached funds and the result.
pub open spec fn donate_post(
    state: LedgerState,
    funds: Seq<CoinView>,
    r: Result<Response, ContractError>,
) -> bool {
    match required_payment(funds, state@.donation_denom) {
        Err(e) => r matches Err(ContractError::Payment(p)) && p@ == e,
        Ok(donation) => if state@.admins.len() == 0 {
            r == Err::<Response, ContractError>(ContractError::NoAdmins)
        } else {
            r matches Ok(resp) && resp@ == donate_response(
                state@.admins,
                state@.donation_denom,
                donation,
            )
        },
    }
}

/// Splits the attached payment evenly among the admins. The payment must be
/// one coin of the donation denomination with a non-zero amount; a payment
/// that is not is refused first. A ledger without admins cannot split
/// anything, and says so. What the division leaves over stays with the
/// ledger.
pub fn donate(state: &LedgerState, info: MessageInfo) -> (r: Result<Response, ContractError>)
    ensures
        donate_post(*state, views(info.funds@), r),
        r is Ok <==> state.admins.len() > 0 && info.funds.len() == 1 && info.funds[0].denom@
            == state.donation_denom@ && info.funds[0].amount > 0,
{
    let donation = match must_pay(&info, state.donation_denom.as_str()) {
        Ok(amount) => amount,
        Err(e) => {
            return Err(ContractError::Payment(e));
        },
    };
    let n = state.admins.len();
    if n == 0 {
        assert(views(state.admins@).len() == 0);
        return Err(ContractError::NoAdmins);
    }
    let donation_per_admin = donation / (n as u128);
    assert(donation_per_admin == share(donation, n as nat));
    let ghost admins = views(state.admins@);
    let ghost denom = state.donation_denom@;
    let mut resp = Response::new();
    let mut i: usize = 0;
    while i < n
        invariant
            i <= n,
            n == state.admins.len(),
            admins == views(state.admins@),
            denom == state.donation_denom@,
            donation_per_admin == share(donation, n as nat),
            resp@.attributes == Seq::<AttributeView>::empty(),
            resp@.events == Seq::<EventView>::empty(),
            resp@.messages =~= donate_response(admins, denom, donation).messages.take(i as int),
        decreases n - i,
    {
        let msg = CosmosMsg::BankSend {
            to_address: state.admins[i].clone(),
            amount: coins(donation_per_admin, state.donation_denom.as_str()),
        };
        resp = resp.add_message(msg);
        i += 1;
    }
    assert(donate_response(admins, denom, donation).messages.take(n as int)
        =~= donate_response(admins, denom, donation).messages);
    let resp = resp.add_attribute("action", "donate".to_owned()).add_attribute(
        "amount",
        to_decimal(donation),
    ).add_attribute("per_admin", to_decimal(donation_per_admin));
    assert(resp@.attributes =~= donate_response(admins, denom, donation).attributes);
    Ok(resp)
}

/// What a migration request reports: one call of the verifier, with the
/// recorded version, the new version and the reason, tagged for a callback
/// whatever the verdict.
pub open spec fn migrate_response(state: LedgerView, reason: Seq<char>) -> ResponseView {
    ResponseView {
        messages: seq![
            SubMsgView {
                id: VALIDATE_MIGRATION_REPLY_ID,
                msg: CosmosMsgView::ValidateMigration {
                    contract_addr: state.verifier,
                    current_version: state.version,
                    new_version: NEW_VERSION,
                    reason,
                    funds: Seq::empty(),
                },
                reply_on: ReplyOn::Always,
            },
        ],
        attributes: Seq::empty(),
        events: Seq::empty(),
    }
}

/// Asks the verifier whether the version may advance. The request decides
/// nothing and changes nothing: the verdict arrives through `reply`.
pub fn migrate(state: &LedgerState, msg: MigrateMsg) -> (r: Result<Response, ContractError>)
    ensures
        r matches Ok(resp) && resp@ == migrate_response(state@, msg.reason@),
{
    let execute_msg = CosmosMsg::WasmExecute {
        contract_addr: state.verifier.clone(),
        msg: VerifierExecuteMsg::ValidateMigrationMsg {
            current_version: get_version(state),
            new_version: NEW_VERSION,
            reason: msg.reason,
        },
        funds: Vec::new(),
    };
    assert(views(execute_msg->WasmExecute_funds@) =~= Seq::empty());
    let sub_msg = SubMsg::reply_always(execute_msg, VALIDATE_MIGRATION_REPLY_ID);
    let resp = Response::new().add_submessage(sub_msg);
    assert(resp@.messages =~= migrate_response(state@, msg.reason@).messages);
    Ok(resp)
}

/// The version after the callback tagged `id`: the new one where the tag is
/// the migration's and the call succeeded, else the one before.
pub open spec fn version_after_reply(version: u32, id: u64, succeeded: bool) -> u32 {
    if id == VALIDATE_MIGRATION_REPLY_ID && succeeded {
        NEW_VERSION
    } else {
        version
    }
}

/// The text of the failure on an unknown tag.
pub const UNKNOWN_REPLY_ID: &'static str = "Unknown reply ID";

/// Takes the verifier's verdict. A success records the new version; a
/// failure is absorbed: the version stays and the callback still succeeds.
/// A callback under any other tag is an error and changes nothing.
pub fn reply(state: &mut LedgerState, msg: Reply) -> (r: Result<Response, StdError>)
    ensures
        *final(state) == (LedgerState {
            version: version_after_reply(old(state).version, msg.id, msg.result is Ok),
            ..*old(state)
        }),
        msg.id == VALIDATE_MIGRATION_REPLY_ID ==> (r matches Ok(resp) && resp@
            == empty_response()),
        msg.id != VALIDATE_MIGRATION_REPLY_ID ==> (r matches Err(
            StdError::GenericErr { msg: text },
        ) && text@ == UNKNOWN_REPLY_ID@),
        old(state).wf() ==> final(state).wf(),
{
    if msg.id == VALIDATE_MIGRATION_REPLY_ID {
        if msg.result.is_ok() {
            state.version = NEW_VERSION;
        }
        Ok(Response::new())
    } else {
        Err(StdError::generic_err(UNKNOWN_REPLY_ID))
    }
}

/// Carries out one command: the result and the state after it are those of
/// the command's own function; an error of `leave` would come wrapped.
pub fn execute(state: &mut LedgerState, info: MessageInfo, msg: ExecuteMsg) -> (r: Result<
    Response,
    ContractError,
>)
    requires
        old(state).wf(),
    ensures
        match msg {
            ExecuteMsg::AddMembers { admins } => add_members_post(
                *old(state),
                *final(state),
                info.sender@,
                views(admins@),
                r,
            ),
            ExecuteMsg::Leave {  } => r is Ok && leave_post(
                *old(state),
                *final(state),
                info.sender@,
                Ok(r->Ok_0),
            ),
            ExecuteMsg::Donate {  } => *final(state) == *old(state) && donate_post(
                *old(state),
                views(info.funds@),
                r,
            ),
        },
        final(state).wf(),
{
    match msg {
        ExecuteMsg::AddMembers { admins } => add_members(state, info, admins),
        ExecuteMsg::Leave {  } => match leave(state, info) {
            Ok(resp) => Ok(resp),
            Err(e) => Err(ContractError::StdError(e)),
        },
        ExecuteMsg::Donate {  } => donate(state, info),
    }
}

/// The version after one whole migration for `reason`: the request, the
/// verifier's verdict on it, and the callback.
pub open spec fn version_after_migration(version: u32, reason: Seq<char>) -> u32 {
    version_after_reply(
        version,
        VALIDATE_MIGRATION_REPLY_ID,
        approves(version, NEW_VERSION, reason),
    )
}

/// Carries one migration through within one process: the request, the
/// verifier's verdict on it, and the callback with that verdict. The
/// migration itself succeeds whatever the verdict; only an approval moves
/// the version.
pub fn run_migration(state: &mut LedgerState, msg: MigrateMsg) -> (r: Result<
    Response,
    ContractError,
>)
    requires
        old(state).wf(),
    ensures
        r matches Ok(resp) && resp@ == empty_response(),
        *final(state) == (LedgerState {
            version: version_after_migration(old(state).version, msg.reason@),
            ..*old(state)
        }),
        final(state).wf(),
{
    let mut request = match migrate(state, msg) {
        Ok(resp) => resp,
        Err(e) => {
            return Err(e);
        },
    };
    assert(request@.messages.len() == 1);
    assert(request@.messages[0] == request.messages@[0]@);
    match request.messages.pop() {
        Some(SubMsg { id, msg: CosmosMsg::WasmExecute { msg: call, .. }, .. }) => {
            let result = match crate::verification::execute(call) {
                Ok(_) => Ok(()),
                Err(e) => Err(e.message()),
            };
            match reply(state, Reply { id, result }) {
                Ok(resp) => Ok(resp),
                Err(e) => Err(ContractError::StdError(e)),
            }
        },
        _ => {
            assert(false);
            Err(ContractError::UnknownExecuteAction)
        },
    }
}

/// The version moves only to the new one, and only where the recorded
/// version lies below it and the reason is the accepted one; any other
/// migration leaves it as it was. So it never goes down.
pub proof fn lemma_migration_outcome(version: u32, reason: Seq<char>)
    ensures
        version_after_migration(version, reason) == if version < NEW_VERSION && reason
            == crate::verification::ACCEPTED_REASON@ {
            NEW_VERSION
        } else {
            version
        },
        version_after_migration(version, reason) >= version,
{
}

/// A callback never lowers the version of a valid ledger, whatever its tag
/// and outcome.
pub proof fn lemma_reply_monotonic(version: u32, id: u64, succeeded: bool)
    requires
        OLD_VERSION <= version <= NEW_VERSION,
    ensures
        version <= version_after_reply(version, id, succeeded) <= NEW_VERSION,
{
}

/// Leaving twice is leaving once: after the first time the address is no
/// admin, and the second changes nothing.
pub proof fn lemma_leave_idempotent(admins: Seq<Seq<char>>, addr: Seq<char>)
    requires
        admins.no_duplicates(),
    ensures
        !is_admin(without(admins, addr), addr),
        without(without(admins, addr), addr) == without(admins, addr),
        without(admins, addr).no_duplicates(),
{
    if is_admin(admins, addr) {
        let k = admins.index_of(addr);
        lemma_remove_keeps_single(admins, k);
    }
}

/// A donation among at least one admin is accounted for in full: every
/// admin is sent the share, rounded down, and the shares together with
/// what the ledger retains make up the donation.
pub proof fn lemma_donation_accounted(admins: Seq<Seq<char>>, denom: Seq<char>, donation: u128)
    requires
        admins.len() >= 1,
    ensures
        donate_response(admins, denom, donation).messages.len() == admins.len(),
        forall|i: int|
            0 <= i < admins.len() ==> (#[trigger] donate_response(
                admins,
                denom,
                donation,
            ).messages[i]).msg == (CosmosMsgView::BankSend {
                to_address: admins[i],
                amount: seq![CoinView { denom, amount: share(donation, admins.len()) }],
            }),
        share(donation, admins.len()) == donation as nat / admins.len(),
        retained(donation, admins.len()) == donation as nat % admins.len(),
        admins.len() * share(donation, admins.len()) + retained(donation, admins.len())
            == donation,
        retained(donation, admins.len()) < admins.len(),
{
    let n = admins.len() as int;
    let d = donation as int;
    assert(0 <= d / n <= d && 0 <= d % n < n && n * (d / n) + d % n == d) by (nonlinear_arith)
        requires
            n >= 1,
            d >= 0,
    ;
}

} // verus!
