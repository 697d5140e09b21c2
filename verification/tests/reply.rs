use altbase_epic::failure::{failure, label, sanitize_epicbox_error, Stage};
use altbase_epic::reply::{c_string, err, null_request, ok, utf8_request};
use altbase_epic::snapshot::ensure_reply;

#[test]
fn success_is_marked_and_keeps_the_payload() {
    let payload = serde_json::from_str("{\"b\":[1,-2,null],\"ok\":7,\"a\":\"x\"}").unwrap();
    assert_eq!(ok(payload), r#"{"a":"x","b":[1,-2,null],"ok":true}"#);
    assert_eq!(ok(serde_json::Value::Null), r#"{"ok":true}"#);
}

#[test]
fn failure_carries_code_and_message() {
    assert_eq!(err("c", "m\n\u{0}"), "{\"code\":\"c\",\"error\":\"m\\n\\u0000\",\"ok\":false}");
}

#[test]
fn replies_have_no_nul_and_pass_as_c_strings() {
    let reply = err("a\u{0}b", "\u{0}");
    assert!(!reply.contains('\u{0}'));
    assert_eq!(c_string(reply.clone()), reply);
    let reply = ensure_reply("x\u{0}");
    assert!(!reply.contains('\u{0}'));
    assert_eq!(c_string(reply.clone()), reply);
}

#[test]
fn text_with_nul_is_replaced() {
    let expected = r#"{"code":"epic-native-nul","error":"response contained NUL","ok":false}"#;
    assert_eq!(c_string("a\u{0}".to_string()), expected);
    assert_eq!(c_string("\u{0}a".to_string()), expected);
    assert_eq!(c_string(String::new()), "");
}

#[test]
fn requests_that_cannot_be_read_are_answered() {
    assert_eq!(
        null_request(),
        r#"{"code":"epic-native-null-request","error":"request pointer is null","ok":false}"#
    );
    assert_eq!(
        utf8_request("bad byte"),
        r#"{"code":"epic-native-utf8-request","error":"bad byte","ok":false}"#
    );
}

#[test]
fn each_stage_has_its_words() {
    let expected = [
        (Stage::Fee, "Epic fee"),
        (Stage::DefaultFee, "Epic default fee"),
        (Stage::NodeClient, "Epic node client"),
        (Stage::WalletInit, "Epic wallet init"),
        (Stage::LifecycleProvider, "Epic lifecycle provider"),
        (Stage::DataDirectory, "Epic data directory"),
        (Stage::DataDirectoryCreate, "Epic data directory create"),
        (Stage::ConfigCreate, "Epic config create"),
        (Stage::WalletRestore, "Epic wallet restore"),
        (Stage::WalletOpen, "Epic wallet open"),
        (Stage::Address, "Epic address"),
        (Stage::WalletInstance, "Epic wallet instance"),
        (Stage::WalletBatch, "Epic wallet batch"),
        (Stage::ScanStatus, "Epic restore scan status"),
        (Stage::ScanStatusCommit, "Epic restore scan status commit"),
        (Stage::RestoreScan, "Epic restore scan"),
        (Stage::ScanMarker, "Epic restore scan marker"),
        (Stage::RecentScan, "Epic recent scan"),
        (Stage::BalanceRefresh, "Epic balance refresh"),
        (Stage::TransactionRefresh, "Epic transaction refresh"),
        (Stage::Amount, "Epic amount"),
        (Stage::MaxFeeEstimate, "Epic max fee estimate"),
        (Stage::TransactionCreate, "Epic transaction create"),
        (Stage::EpicboxSend, "Epicbox send"),
        (Stage::OutputLock, "Epic output lock"),
    ];
    for (stage, words) in expected {
        assert_eq!(label(stage), words);
        assert_eq!(failure(stage, "why"), format!("{}: why", words));
    }
}

#[test]
fn unreachable_servers_are_shown_in_plain_words() {
    let plain = "Epicbox server is not reachable. Please try again in a moment.";
    assert_eq!(sanitize_epicbox_error("Can't connect to the EPICBOX server!"), plain);
    assert_eq!(sanitize_epicbox_error("x Native-TLS y"), plain);
    assert_eq!(sanitize_epicbox_error("(os error 10060)"), plain);
    assert_eq!(sanitize_epicbox_error("os error 10061"), "os error 10061");
    assert_eq!(sanitize_epicbox_error(plain), plain);
}
