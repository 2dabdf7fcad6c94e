use admin_ledger::admin::contract::{
    add_members as exec_add_members, admins_list, donate, execute, get_version, instantiate,
    leave, migrate, query, reply, run_migration, NEW_VERSION, OLD_VERSION,
    VALIDATE_MIGRATION_REPLY_ID,
};
use admin_ledger::admin::error::ContractError;
use admin_ledger::admin::msg::{
    AdminsListResp, ExecuteMsg, InstantiateMsg, MigrateMsg, QueryMsg, QueryResp,
};
use admin_ledger::admin::state::{find, is_member, LedgerState};
use admin_ledger::decimal::to_decimal;
use admin_ledger::host::{
    Attribute, Coin, CosmosMsg, Event, MessageInfo, Reply, ReplyOn, Response, StdError, SubMsg,
};
use admin_ledger::payment::PaymentError;
use admin_ledger::verification::error::ContractError as VerifierError;
use admin_ledger::verification::msg::{
    ExecuteMsg as VerifierExecuteMsg, InstantiateMsg as VerifierInstantiateMsg,
};
use admin_ledger::verification::{
    execute as verifier_execute, instantiate as verifier_instantiate,
};

fn strings(items: &[&str]) -> Vec<String> {
    items.iter().map(|s| s.to_string()).collect()
}

fn coins(amount: u128, denom: &str) -> Vec<Coin> {
    vec![Coin { denom: denom.to_owned(), amount }]
}

fn info(sender: &str, funds: Vec<Coin>) -> MessageInfo {
    MessageInfo { sender: sender.to_owned(), funds }
}

fn ledger(admins: &[&str], verifier: &str) -> LedgerState {
    let (state, resp) = instantiate(InstantiateMsg {
        admins: strings(admins),
        donation_denom: "usdc".to_owned(),
        verifier: verifier.to_owned(),
    });
    assert_eq!(resp, Response::new());
    assert!(state.is_valid());
    state
}

fn attribute<'a>(attributes: &'a [Attribute], key: &str) -> &'a str {
    &attributes.iter().find(|attr| attr.key == key).unwrap().value
}

/// Carries out the transfers of a response on a list of balances.
fn settle(balances: &mut Vec<(String, u128)>, contract: &str, resp: &Response) {
    for sub in &resp.messages {
        match &sub.msg {
            CosmosMsg::BankSend { to_address, amount } => {
                for coin in amount {
                    assert_eq!(coin.denom, "usdc");
                    let from = balances.iter_mut().find(|b| b.0 == contract).unwrap();
                    from.1 -= coin.amount;
                    match balances.iter_mut().find(|b| &b.0 == to_address) {
                        Some(to) => to.1 += coin.amount,
                        None => balances.push((to_address.clone(), coin.amount)),
                    }
                }
            }
            other => panic!("unexpected message {:?}", other),
        }
    }
}

fn balance(balances: &[(String, u128)], who: &str) -> u128 {
    balances.iter().find(|b| b.0 == who).map(|b| b.1).unwrap_or(0)
}

#[test]
fn instantiation() {
    let state = ledger(&[], "verifier");

    let resp = match query(&state, QueryMsg::AdminsList {}) {
        QueryResp::AdminsList(resp) => resp,
        other => panic!("unexpected answer {:?}", other),
    };

    assert_eq!(resp, AdminsListResp { admins: vec![] });

    let state = ledger(&["admin1", "admin2"], "verifier");

    let resp = match query(&state, QueryMsg::AdminsList {}) {
        QueryResp::AdminsList(resp) => resp,
        other => panic!("unexpected answer {:?}", other),
    };

    assert_eq!(
        resp,
        AdminsListResp {
            admins: vec!["admin1".to_owned(), "admin2".to_owned()]
        }
    );

    // Assert version is 1
    let resp = match query(&state, QueryMsg::GetVersion {}) {
        QueryResp::Version(version) => version,
        other => panic!("unexpected answer {:?}", other),
    };

    assert_eq!(resp, 1)
}

#[test]
fn unauthorized() {
    let mut state = ledger(&[], "verifier");

    let err = execute(
        &mut state,
        info("user", vec![]),
        ExecuteMsg::AddMembers {
            admins: vec!["user".to_owned()],
        },
    )
    .unwrap_err();

    assert_eq!(
        ContractError::Unauthorized {
            sender: "user".to_owned()
        },
        err
    );
}

#[test]
fn add_members() {
    let mut state = ledger(&["owner"], "verifier");

    let resp = execute(
        &mut state,
        info("owner", vec![]),
        ExecuteMsg::AddMembers {
            admins: vec!["user".to_owned()],
        },
    )
    .unwrap();

    assert_eq!(attribute(&resp.attributes, "action"), "add_members");
    assert_eq!(attribute(&resp.attributes, "added_count"), "1");

    let admin_added: Vec<_> = resp
        .events
        .iter()
        .filter(|ev| ev.ty == "admin_added")
        .collect();

    assert_eq!(admin_added.len(), 1);

    assert_eq!(attribute(&admin_added[0].attributes, "addr"), "user")
}

#[test]
fn donations() {
    let mut balances = vec![("user".to_owned(), 5u128)];

    let mut state = ledger(&["admin1", "admin2"], "verifier");

    let funds = coins(5, "usdc");
    // the host moves the attached funds before the call
    balances[0].1 -= 5;
    balances.push(("contract".to_owned(), 5));
    let resp = execute(&mut state, info("user", funds), ExecuteMsg::Donate {}).unwrap();
    settle(&mut balances, "contract", &resp);

    assert_eq!(balance(&balances, "user"), 0);
    assert_eq!(balance(&balances, "contract"), 1);
    assert_eq!(balance(&balances, "admin1"), 2);
    assert_eq!(balance(&balances, "admin2"), 2);
}

#[test]
fn migration() {
    assert_eq!(verifier_instantiate(VerifierInstantiateMsg {}), Response::new());
    let mut state = ledger(&["admin1", "admin2"], "verifier_addr");

    run_migration(
        &mut state,
        MigrateMsg {
            reason: "bug_fix".to_owned(),
        },
    )
    .unwrap();

    let version = get_version(&state);

    assert_eq!(version, NEW_VERSION)
}

#[test]
fn failing_migration() {
    let mut state = ledger(&["admin1", "admin2"], "verifier_addr");

    // The migration succeeds: the verifier's rejection only keeps the
    // version where it was.
    run_migration(
        &mut state,
        MigrateMsg {
            reason: "not_bug_fix".to_owned(),
        },
    )
    .unwrap();

    let version = get_version(&state);

    assert_eq!(version, OLD_VERSION)
}

#[test]
fn instantiation_keeps_each_admin_once() {
    let state = ledger(&["b", "a", "b", "c", "a"], "v");
    assert_eq!(state.admins, strings(&["b", "a", "c"]));
    assert_eq!(state.donation_denom, "usdc");
    assert_eq!(state.verifier, "v");
    assert_eq!(state.version, OLD_VERSION);
    assert_eq!(admins_list(&state).admins, strings(&["b", "a", "c"]));
}

#[test]
fn membership_is_exact_equality() {
    let admins = strings(&["alice", "bob"]);
    assert!(is_member(&admins, &"bob".to_owned()));
    assert!(!is_member(&admins, &"Bob".to_owned()));
    assert!(!is_member(&admins, &"bo".to_owned()));
    assert_eq!(find(&admins, 2, &"bob".to_owned()), Some(1));
    assert_eq!(find(&admins, 1, &"bob".to_owned()), None);
    assert_eq!(find(&admins, 0, &"alice".to_owned()), None);
}

#[test]
fn validity_of_a_state() {
    let mut state = ledger(&["a", "b"], "v");
    assert!(state.is_valid());
    state.admins.push("a".to_owned());
    assert!(!state.is_valid());
    state.admins.pop();
    state.version = 3;
    assert!(!state.is_valid());
    state.version = 0;
    assert!(!state.is_valid());
    state.version = NEW_VERSION;
    assert!(state.is_valid());
}

#[test]
fn add_members_reports_all_added() {
    let mut state = ledger(&["owner"], "v");
    let resp = exec_add_members(&mut state, info("owner", vec![]), strings(&["x", "y"])).unwrap();
    assert_eq!(state.admins, strings(&["owner", "x", "y"]));
    let event = |addr: &str| Event {
        ty: "admin_added".to_owned(),
        attributes: vec![Attribute { key: "addr".to_owned(), value: addr.to_owned() }],
    };
    assert_eq!(
        resp,
        Response {
            messages: vec![],
            attributes: vec![
                Attribute { key: "action".to_owned(), value: "add_members".to_owned() },
                Attribute { key: "added_count".to_owned(), value: "2".to_owned() },
            ],
            events: vec![event("x"), event("y")],
        }
    );
}

#[test]
fn add_members_of_nobody() {
    let mut state = ledger(&["owner"], "v");
    let resp = exec_add_members(&mut state, info("owner", vec![]), vec![]).unwrap();
    assert_eq!(state.admins, strings(&["owner"]));
    assert!(resp.events.is_empty());
    assert_eq!(attribute(&resp.attributes, "added_count"), "0");
}

#[test]
fn add_members_by_a_stranger_changes_nothing() {
    let mut state = ledger(&["owner"], "v");
    let before = state.clone();
    let err = exec_add_members(&mut state, info("user", vec![]), strings(&["x"])).unwrap_err();
    assert_eq!(err, ContractError::Unauthorized { sender: "user".to_owned() });
    assert_eq!(state, before);
}

#[test]
fn add_members_with_an_admin_among_them_adds_none() {
    let mut state = ledger(&["owner", "old"], "v");
    let before = state.clone();
    let err =
        exec_add_members(&mut state, info("owner", vec![]), strings(&["x", "old", "owner"]))
            .unwrap_err();
    assert_eq!(err, ContractError::AdminExists { admin: "old".to_owned() });
    assert_eq!(state, before);
}

#[test]
fn add_members_with_a_repeated_address_adds_none() {
    let mut state = ledger(&["owner"], "v");
    let before = state.clone();
    let err = exec_add_members(&mut state, info("owner", vec![]), strings(&["x", "y", "x"]))
        .unwrap_err();
    assert_eq!(err, ContractError::AdminExists { admin: "x".to_owned() });
    assert_eq!(state, before);
}

#[test]
fn leave_twice_is_leave_once() {
    let mut state = ledger(&["a", "b", "c"], "v");
    let resp = leave(&mut state, info("b", vec![])).unwrap();
    assert_eq!(
        resp,
        Response {
            messages: vec![],
            attributes: vec![
                Attribute { key: "action".to_owned(), value: "leave".to_owned() },
                Attribute { key: "sender".to_owned(), value: "b".to_owned() },
            ],
            events: vec![],
        }
    );
    assert_eq!(state.admins, strings(&["a", "c"]));
    let once = state.clone();
    let again = execute(&mut state, info("b", vec![]), ExecuteMsg::Leave {}).unwrap();
    assert_eq!(again, resp);
    assert_eq!(state, once);
    assert!(state.is_valid());
}

#[test]
fn leave_of_a_stranger_is_no_error() {
    let mut state = ledger(&[], "v");
    assert!(leave(&mut state, info("nobody", vec![])).is_ok());
    assert!(state.admins.is_empty());
}

#[test]
fn donation_is_split_with_the_remainder_kept() {
    let state = ledger(&["a", "b", "c"], "v");
    let resp = donate(&state, info("user", coins(100, "usdc"))).unwrap();
    let send = |to: &str| SubMsg {
        id: 0,
        msg: CosmosMsg::BankSend { to_address: to.to_owned(), amount: coins(33, "usdc") },
        reply_on: ReplyOn::Never,
    };
    assert_eq!(
        resp,
        Response {
            messages: vec![send("a"), send("b"), send("c")],
            attributes: vec![
                Attribute { key: "action".to_owned(), value: "donate".to_owned() },
                Attribute { key: "amount".to_owned(), value: "100".to_owned() },
                Attribute { key: "per_admin".to_owned(), value: "33".to_owned() },
            ],
            events: vec![],
        }
    );
    let mut balances = vec![("contract".to_owned(), 100u128)];
    settle(&mut balances, "contract", &resp);
    assert_eq!(balance(&balances, "contract"), 100 % 3);
    assert_eq!(3 * 33 + balance(&balances, "contract"), 100);
}

#[test]
fn donation_below_the_admin_count_sends_zero_to_each() {
    let state = ledger(&["a", "b", "c"], "v");
    let resp = donate(&state, info("user", coins(2, "usdc"))).unwrap();
    assert_eq!(resp.messages.len(), 3);
    for sub in &resp.messages {
        match &sub.msg {
            CosmosMsg::BankSend { amount, .. } => assert_eq!(amount, &coins(0, "usdc")),
            other => panic!("unexpected message {:?}", other),
        }
    }
    assert_eq!(attribute(&resp.attributes, "per_admin"), "0");
}

#[test]
fn donation_of_the_largest_amount() {
    let state = ledger(&["a", "b"], "v");
    let resp = donate(&state, info("user", coins(u128::MAX, "usdc"))).unwrap();
    assert_eq!(
        attribute(&resp.attributes, "amount"),
        "340282366920938463463374607431768211455"
    );
    assert_eq!(
        attribute(&resp.attributes, "per_admin"),
        "170141183460469231731687303715884105727"
    );
}

#[test]
fn donation_in_another_denomination_is_refused() {
    let state = ledger(&["a"], "v");
    let err = donate(&state, info("user", coins(5, "atom"))).unwrap_err();
    assert_eq!(err, ContractError::Payment(PaymentError::MissingDenom("usdc".to_owned())));
}

#[test]
fn donation_of_nothing_is_refused() {
    let state = ledger(&["a"], "v");
    let err = donate(&state, info("user", vec![])).unwrap_err();
    assert_eq!(err, ContractError::Payment(PaymentError::NoFunds {}));
    let err = donate(&state, info("user", coins(0, "usdc"))).unwrap_err();
    assert_eq!(err, ContractError::Payment(PaymentError::NoFunds {}));
    let err = donate(&state, info("user", coins(0, "atom"))).unwrap_err();
    assert_eq!(err, ContractError::Payment(PaymentError::NoFunds {}));
}

#[test]
fn donation_in_several_denominations_is_refused() {
    let state = ledger(&["a"], "v");
    let mut funds = coins(5, "usdc");
    funds.push(Coin { denom: "atom".to_owned(), amount: 1 });
    let err = donate(&state, info("user", funds)).unwrap_err();
    assert_eq!(err, ContractError::Payment(PaymentError::MultipleDenoms {}));
    let mut funds = coins(5, "usdc");
    funds.push(Coin { denom: "usdc".to_owned(), amount: 1 });
    let err = donate(&state, info("user", funds)).unwrap_err();
    assert_eq!(err, ContractError::Payment(PaymentError::MultipleDenoms {}));
}

#[test]
fn donation_without_admins_is_refused() {
    let mut state = ledger(&[], "v");
    let before = state.clone();
    let err = execute(&mut state, info("user", coins(5, "usdc")), ExecuteMsg::Donate {})
        .unwrap_err();
    assert_eq!(err, ContractError::NoAdmins);
    assert_eq!(state, before);
    // the payment is looked at first
    let err = donate(&state, info("user", coins(5, "atom"))).unwrap_err();
    assert_eq!(err, ContractError::Payment(PaymentError::MissingDenom("usdc".to_owned())));
}

#[test]
fn migrate_asks_the_verifier() {
    let state = ledger(&["a"], "the_verifier");
    let resp = migrate(&state, MigrateMsg { reason: "because".to_owned() }).unwrap();
    assert_eq!(
        resp,
        Response {
            messages: vec![SubMsg {
                id: VALIDATE_MIGRATION_REPLY_ID,
                msg: CosmosMsg::WasmExecute {
                    contract_addr: "the_verifier".to_owned(),
                    msg: VerifierExecuteMsg::ValidateMigrationMsg {
                        current_version: 1,
                        new_version: 2,
                        reason: "because".to_owned(),
                    },
                    funds: vec![],
                },
                reply_on: ReplyOn::Always,
            }],
            attributes: vec![],
            events: vec![],
        }
    );
    assert_eq!(state.version, OLD_VERSION);
}

#[test]
fn reply_commits_only_on_success() {
    let mut state = ledger(&["a"], "v");
    let resp = reply(&mut state, Reply { id: 1, result: Err("rejected".to_owned()) }).unwrap();
    assert_eq!(resp, Response::new());
    assert_eq!(state.version, OLD_VERSION);
    let resp = reply(&mut state, Reply { id: 1, result: Ok(()) }).unwrap();
    assert_eq!(resp, Response::new());
    assert_eq!(state.version, NEW_VERSION);
    assert_eq!(state.admins, strings(&["a"]));
}

#[test]
fn reply_under_an_unknown_tag_is_an_error() {
    let mut state = ledger(&["a"], "v");
    let before = state.clone();
    let err = reply(&mut state, Reply { id: 2, result: Ok(()) }).unwrap_err();
    assert_eq!(err, StdError::GenericErr { msg: "Unknown reply ID".to_owned() });
    assert_eq!(state, before);
    let err = reply(&mut state, Reply { id: 0, result: Err("x".to_owned()) }).unwrap_err();
    assert_eq!(err, StdError::GenericErr { msg: "Unknown reply ID".to_owned() });
}

#[test]
fn second_migration_keeps_the_new_version() {
    let mut state = ledger(&["a"], "v");
    run_migration(&mut state, MigrateMsg { reason: "bug_fix".to_owned() }).unwrap();
    assert_eq!(state.version, NEW_VERSION);
    let resp = run_migration(&mut state, MigrateMsg { reason: "bug_fix".to_owned() }).unwrap();
    assert_eq!(resp, Response::new());
    assert_eq!(state.version, NEW_VERSION);
}

#[test]
fn verifier_policy() {
    let ask = |current_version: u32, new_version: u32, reason: &str| {
        verifier_execute(VerifierExecuteMsg::ValidateMigrationMsg {
            current_version,
            new_version,
            reason: reason.to_owned(),
        })
    };
    assert_eq!(ask(1, 2, "bug_fix"), Ok(Response::new()));
    assert_eq!(ask(2, 2, "bug_fix"), Err(VerifierError::AlreadyMigrated { version: 2 }));
    assert_eq!(ask(3, 2, "bug_fix"), Err(VerifierError::AlreadyMigrated { version: 3 }));
    assert_eq!(ask(2, 2, "other"), Err(VerifierError::AlreadyMigrated { version: 2 }));
    assert_eq!(ask(1, 2, "not_bug_fix"), Err(VerifierError::InvalidMigrationReason {}));
    assert_eq!(ask(1, 2, ""), Err(VerifierError::InvalidMigrationReason {}));
    assert_eq!(ask(1, 2, "bug_fix "), Err(VerifierError::InvalidMigrationReason {}));
}

#[test]
fn verifier_rejections_in_words() {
    assert_eq!(
        VerifierError::AlreadyMigrated { version: 12 }.message(),
        "Contract already at version 12"
    );
    assert_eq!(VerifierError::InvalidMigrationReason {}.message(), "Invalid migration reason");
}

#[test]
fn decimal_numerals() {
    assert_eq!(to_decimal(0), "0");
    assert_eq!(to_decimal(7), "7");
    assert_eq!(to_decimal(10), "10");
    assert_eq!(to_decimal(1234567890), "1234567890");
    assert_eq!(to_decimal(u128::MAX), u128::MAX.to_string());
}

#[test]
fn response_is_built_in_order() {
    let resp = Response::new()
        .add_attribute("k1", "v1".to_owned())
        .add_event(Event { ty: "e".to_owned(), attributes: vec![] })
        .add_message(CosmosMsg::BankSend { to_address: "a".to_owned(), amount: coins(1, "x") })
        .add_attribute("k2", "v2".to_owned());
    assert_eq!(resp.attributes.len(), 2);
    assert_eq!(resp.attributes[0].key, "k1");
    assert_eq!(resp.attributes[1].value, "v2");
    assert_eq!(resp.events.len(), 1);
    assert_eq!(resp.messages[0].id, 0);
    assert_eq!(resp.messages[0].reply_on, ReplyOn::Never);
}

#[test]
fn failures_in_words() {
    assert_eq!(
        ContractError::Unauthorized { sender: "user".to_owned() }.message(),
        "user is not contract admin"
    );
    assert_eq!(
        ContractError::AdminExists { admin: "bob".to_owned() }.message(),
        "bob is already an admin"
    );
    assert_eq!(
        ContractError::Payment(PaymentError::MissingDenom("usdc".to_owned())).message(),
        "Payment error: Must send reserve token 'usdc'"
    );
    assert_eq!(
        ContractError::Payment(PaymentError::ExtraDenom("wei".to_owned())).message(),
        "Payment error: Received unsupported denom 'wei'"
    );
    assert_eq!(
        ContractError::Payment(PaymentError::MultipleDenoms {}).message(),
        "Payment error: Sent more than one denomination"
    );
    assert_eq!(PaymentError::NoFunds {}.message(), "No funds sent");
    assert_eq!(PaymentError::NonPayable {}.message(), "This message does no accept funds");
    assert_eq!(
        ContractError::StdError(StdError::GenericErr { msg: "Unknown reply ID".to_owned() })
            .message(),
        "Generic error: Unknown reply ID"
    );
    assert_eq!(
        ContractError::AlreadyMigrated { version: 2 }.message(),
        "Contract already at version 2"
    );
    assert_eq!(ContractError::InvalidMigrationReason {}.message(), "Invalid migration reason");
    assert_eq!(ContractError::UnknownExecuteAction.message(), "Unknown execute action");
    assert_eq!(ContractError::NoAdmins.message(), "No admins to share the donation");
}

#[test]
fn submessages_carry_their_policy() {
    let msg = CosmosMsg::BankSend { to_address: "a".to_owned(), amount: coins(1, "x") };
    assert_eq!(
        SubMsg::new(msg.clone()),
        SubMsg { id: 0, msg: msg.clone(), reply_on: ReplyOn::Never }
    );
    assert_eq!(
        SubMsg::reply_always(msg.clone(), 9),
        SubMsg { id: 9, msg, reply_on: ReplyOn::Always }
    );
}

#[test]
fn small_constructors() {
    assert_eq!(
        admin_ledger::host::coins(7, "usdc"),
        vec![Coin { denom: "usdc".to_owned(), amount: 7 }]
    );
    assert_eq!(
        Event::new("admin_added").add_attribute("addr", "user".to_owned()),
        Event {
            ty: "admin_added".to_owned(),
            attributes: vec![Attribute { key: "addr".to_owned(), value: "user".to_owned() }],
        }
    );
    assert_eq!(
        StdError::generic_err("Unknown reply ID"),
        StdError::GenericErr { msg: "Unknown reply ID".to_owned() }
    );
}
