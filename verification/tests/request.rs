use altbase_epic::request::{
    config_file, credentials, default_fee_text, finish, handle, node_url, request_bool,
    requested_fee_text, requested_or_default_fee, seed_file, send_order, wallet_dir, Action,
    Dispatch, EpicRequest, SendAmount,
};
use altbase_epic::send::Funding;

fn empty(action: &str) -> EpicRequest {
    EpicRequest {
        action: action.to_string(),
        mnemonic: None,
        password: None,
        data_dir: None,
        node_url: None,
        restore_start_height: None,
        to: None,
        amount: None,
        fee: None,
        send_max: None,
        memo: None,
    }
}

fn some(text: &str) -> Option<String> {
    Some(text.to_string())
}

#[test]
fn wallet_dir_is_as_given_or_the_default() {
    let mut req = empty("ensure");
    assert_eq!(wallet_dir(&req), "epic-light");
    req.data_dir = some("  ");
    assert_eq!(wallet_dir(&req), "epic-light");
    req.data_dir = some(" /srv/w ");
    assert_eq!(wallet_dir(&req), " /srv/w ");
}

#[test]
fn node_url_has_no_slash_at_the_end() {
    let mut req = empty("ensure");
    assert_eq!(node_url(&req), "https://api.altbase.io");
    req.node_url = some("\t");
    assert_eq!(node_url(&req), "https://api.altbase.io");
    req.node_url = some("http://n:3413//");
    assert_eq!(node_url(&req), "http://n:3413");
    req.node_url = some("///");
    assert_eq!(node_url(&req), "");
}

#[test]
fn flags_know_three_words_for_yes() {
    for yes in ["true", " TRUE ", "1", "Yes", "\tyes\n"] {
        assert!(request_bool(Some(yes)), "{yes:?}");
    }
    for no in ["", "false", "0", "y", "on", "11", "t rue"] {
        assert!(!request_bool(Some(no)), "{no:?}");
    }
    assert!(!request_bool(None));
}

#[test]
fn files_stand_below_the_wallet_directory() {
    let config = config_file("w");
    assert_eq!((config.base.as_str(), config.below), ("w", vec!["epic-wallet.toml".to_string()]));
    let seed = seed_file("w");
    assert_eq!(seed.base, "w");
    assert_eq!(seed.below, vec!["wallet_data".to_string(), "wallet.seed".to_string()]);
}

#[test]
fn credentials_need_a_mnemonic_and_then_a_password() {
    let mut req = empty("ensure");
    assert_eq!(credentials(&req), Err("Epic mnemonic is required".to_string()));
    req.password = some("p");
    req.mnemonic = some(" ");
    assert_eq!(credentials(&req), Err("Epic mnemonic is required".to_string()));
    req.mnemonic = some("a b");
    req.password = some("");
    assert_eq!(credentials(&req), Err("Epic wallet password is required".to_string()));
    req.password = None;
    assert_eq!(credentials(&req), Err("Epic wallet password is required".to_string()));
    req.password = some(" ");
    assert_eq!(credentials(&req), Ok(("a b".to_string(), " ".to_string())));
}

#[test]
fn fee_is_as_asked_for_or_the_default() {
    let mut req = empty("send");
    assert_eq!(requested_fee_text(&req), None);
    req.fee = some(" ");
    assert_eq!(requested_fee_text(&req), None);
    req.fee = some("0.5");
    assert_eq!(requested_fee_text(&req), some("0.5"));
    assert_eq!(default_fee_text(), "0.01");

    assert_eq!(requested_or_default_fee(Some(Ok(5)), Ok(1)), Ok(5));
    assert_eq!(requested_or_default_fee(Some(Ok(0)), Ok(1)), Ok(1));
    assert_eq!(requested_or_default_fee(None, Ok(1)), Ok(1));
    assert_eq!(requested_or_default_fee(Some(Ok(5)), Err("x".to_string())), Ok(5));
    assert_eq!(
        requested_or_default_fee(Some(Err("bad".to_string())), Ok(1)),
        Err("Epic fee: bad".to_string())
    );
    assert_eq!(
        requested_or_default_fee(None, Err("bad".to_string())),
        Err("Epic default fee: bad".to_string())
    );
    assert_eq!(
        requested_or_default_fee(Some(Ok(0)), Err("bad".to_string())),
        Err("Epic default fee: bad".to_string())
    );
}

#[test]
fn send_order_needs_a_destination_and_then_an_amount() {
    let mut req = empty("send");
    req.amount = some("1");
    assert_eq!(send_order(&req).err(), some("Destination address is required"));
    req.to = some("addr");
    req.amount = some(" ");
    assert_eq!(send_order(&req).err(), some("Amount is required"));
    req.amount = some("1.5");
    let order = send_order(&req).ok().unwrap();
    assert_eq!(order.to, "addr");
    assert!(matches!(order.amount, SendAmount::Text(text) if text == "1.5"));
    req.send_max = some("YES");
    req.amount = None;
    let order = send_order(&req).ok().unwrap();
    assert!(matches!(order.amount, SendAmount::Max));
    for amount in [some("1.5"), some("much"), some(" ")] {
        req.amount = amount;
        let order = send_order(&req).ok().unwrap();
        assert_eq!(order.to, "addr");
        assert!(matches!(order.amount, SendAmount::Max));
    }
}

#[test]
fn ordinary_payments_ignore_the_fee() {
    let mut req = empty("send");
    req.to = some("addr");
    req.amount = some("1.5");
    for fee in [None, some("2"), some("free")] {
        req.fee = fee;
        let order = send_order(&req).ok().unwrap();
        assert!(matches!(Funding::start(&order), Funding::Read(text) if text == "1.5"));
    }
}

#[test]
fn requests_are_dispatched_by_their_action() {
    for (name, expected) in
        [("ensure", Action::Ensure), ("snapshot", Action::Snapshot), ("send", Action::Send)]
    {
        match handle(Ok(empty(name))) {
            Dispatch::Run(action, req) => {
                assert_eq!(action, expected);
                assert_eq!(req.action, name);
            }
            Dispatch::Reply(text) => panic!("{}", text),
        }
    }
}

#[test]
fn unknown_actions_and_bad_requests_are_answered_at_once() {
    for name in ["", "Send", "send ", "drop"] {
        match handle(Ok(empty(name))) {
            Dispatch::Reply(text) => assert_eq!(
                text,
                r#"{"code":"epic-native-bad-action","error":"Unsupported Epic action","ok":false}"#
            ),
            Dispatch::Run(..) => panic!("{}", name),
        }
    }
    match handle(Err("expected \"x\"".to_string())) {
        Dispatch::Reply(text) => assert_eq!(
            text,
            r#"{"code":"epic-native-bad-request","error":"expected \"x\"","ok":false}"#
        ),
        Dispatch::Run(..) => panic!("run"),
    }
}

#[test]
fn outcomes_become_replies() {
    assert_eq!(finish(Ok("{}".to_string())), "{}");
    assert_eq!(
        finish(Err("Epic wallet open: no".to_string())),
        r#"{"code":"epic-native-wallet-error","error":"Epic wallet open: no","ok":false}"#
    );
}
