use clone_cw_multi_test::ibc_hooks::{
    apply_ibc_hook, ibc_hook_sender_canonical, parse_ibc_hooks_memo, IbcHooksMemo,
    IbcHooksMemoWasm, Ics20Packet, HOOK_SENDER_PREFIX,
};
use serde_json::Value;

const CANONICAL_CHANNEL_0: [u8; 32] = [
    166, 234, 67, 214, 31, 120, 180, 113, 68, 77, 236, 72, 212, 37, 213, 117, 238, 190, 218, 242,
    228, 51, 99, 89, 57, 127, 216, 165, 40, 57, 122, 79,
];
const CANONICAL_CHANNEL_1: [u8; 32] = [
    225, 17, 247, 102, 213, 145, 34, 78, 161, 175, 61, 215, 92, 131, 151, 232, 139, 230, 22, 168,
    72, 172, 118, 236, 155, 137, 33, 248, 119, 254, 132, 101,
];
const CANONICAL_EMPTY: [u8; 32] = [
    103, 57, 35, 40, 226, 22, 126, 6, 56, 62, 185, 253, 164, 189, 241, 83, 227, 59, 180, 249, 26,
    51, 239, 202, 13, 118, 45, 181, 33, 12, 119, 22,
];

fn packet(memo: Option<&str>) -> Ics20Packet {
    Ics20Packet {
        amount: 100_000,
        denom: "uosmo".to_string(),
        receiver: "cosmos1receiver".to_string(),
        sender: "osmo1sender".to_string(),
        memo: memo.map(|m| m.to_string()),
    }
}

fn same_packet(a: &Ics20Packet, b: &Ics20Packet) -> bool {
    a.amount == b.amount
        && a.denom == b.denom
        && a.receiver == b.receiver
        && a.sender == b.sender
        && a.memo == b.memo
}

/// Decodes an IBC-hooks memo the way a strict JSON decoder of the memo format
/// does: an object with at most the key `wasm`, whose value is `null` or an
/// object with exactly `contract` (a string) and `msg`.
fn decode_memo(memo: &String) -> Option<IbcHooksMemo> {
    let value: Value = serde_json::from_str(memo).ok()?;
    let obj = value.as_object()?;
    if obj.keys().any(|k| k != "wasm") {
        return None;
    }
    match obj.get("wasm") {
        None | Some(Value::Null) => Some(IbcHooksMemo { wasm: None }),
        Some(Value::Object(wasm)) => {
            if wasm.keys().any(|k| k != "contract" && k != "msg") {
                return None;
            }
            let contract = wasm.get("contract")?.as_str()?.to_string();
            let msg = wasm.get("msg")?.clone();
            Some(IbcHooksMemo { wasm: Some(IbcHooksMemoWasm { contract, msg }) })
        }
        Some(_) => None,
    }
}

fn humanize_hex(canonical: &Vec<u8>) -> Result<String, String> {
    let hex: String = canonical.iter().map(|b| format!("{:02x}", b)).collect();
    Ok(format!("addr{}", hex))
}

#[test]
fn prefix_is_the_hooks_domain_tag() {
    assert_eq!(HOOK_SENDER_PREFIX, "ibc-wasm-hook-intermediary");
}

#[test]
fn canonical_sender_is_the_keccak_of_the_tagged_preimage() {
    let canonical = ibc_hook_sender_canonical("channel-0", "osmo1sender");
    assert_eq!(canonical, CANONICAL_CHANNEL_0.to_vec());
    assert_eq!(canonical.len(), 32);
}

#[test]
fn canonical_sender_depends_on_the_channel() {
    let canonical = ibc_hook_sender_canonical("channel-1", "osmo1sender");
    assert_eq!(canonical, CANONICAL_CHANNEL_1.to_vec());
    assert_ne!(canonical, CANONICAL_CHANNEL_0.to_vec());
}

#[test]
fn canonical_sender_of_empty_channel_and_sender() {
    assert_eq!(ibc_hook_sender_canonical("", ""), CANONICAL_EMPTY.to_vec());
}

#[test]
fn no_memo_is_no_hook() {
    let mut p = packet(None);
    let before = packet(None);
    let res: Result<_, String> = parse_ibc_hooks_memo(
        |_m: &String| -> Option<IbcHooksMemo> { panic!("no memo to parse") },
        |_c: &Vec<u8>| -> Result<String, String> { panic!("nothing to humanize") },
        "channel-0",
        &mut p,
    );
    assert!(matches!(res, Ok(None)));
    assert!(same_packet(&p, &before));
}

#[test]
fn memo_that_is_not_a_hook_is_ignored() {
    let memo = "just a note";
    let mut p = packet(Some(memo));
    let res: Result<_, String> = parse_ibc_hooks_memo(
        decode_memo,
        |_c: &Vec<u8>| -> Result<String, String> { panic!("nothing to humanize") },
        "channel-0",
        &mut p,
    );
    assert!(matches!(res, Ok(None)));
    assert!(same_packet(&p, &packet(Some(memo))));
}

#[test]
fn memo_with_unknown_field_is_ignored() {
    let memo = r#"{"wasm":{"contract":"osmo1contract","msg":{}},"forward":{}}"#;
    let mut p = packet(Some(memo));
    let res: Result<_, String> =
        parse_ibc_hooks_memo(decode_memo, humanize_hex, "channel-0", &mut p);
    assert!(matches!(res, Ok(None)));
    assert!(same_packet(&p, &packet(Some(memo))));
}

#[test]
fn memo_without_wasm_is_ignored() {
    let memo = r#"{}"#;
    let mut p = packet(Some(memo));
    let res: Result<_, String> =
        parse_ibc_hooks_memo(decode_memo, humanize_hex, "channel-0", &mut p);
    assert!(matches!(res, Ok(None)));
    assert!(same_packet(&p, &packet(Some(memo))));
}

#[test]
fn hook_memo_redirects_funds_to_the_intermediary_sender() {
    let memo = r#"{"wasm":{"contract":"osmo1contract","msg":{"increment":{}}}}"#;
    let mut p = packet(Some(memo));
    let res: Result<_, String> = parse_ibc_hooks_memo(
        decode_memo,
        |c: &Vec<u8>| {
            assert_eq!(c, &CANONICAL_CHANNEL_0.to_vec());
            humanize_hex(c)
        },
        "channel-0",
        &mut p,
    );
    let (sender, contract, msg) = res.unwrap().unwrap();
    let expected = humanize_hex(&CANONICAL_CHANNEL_0.to_vec()).unwrap();
    assert_eq!(sender, expected);
    assert_eq!(contract, "osmo1contract");
    assert_eq!(msg, serde_json::from_str::<Value>(r#"{"increment":{}}"#).unwrap());
    assert_eq!(p.receiver, expected);
    assert_eq!(p.sender, "osmo1sender");
    assert_eq!(p.amount, 100_000);
    assert_eq!(p.denom, "uosmo");
    assert_eq!(p.memo.as_deref(), Some(memo));
}

#[test]
fn humanize_error_is_returned_and_packet_kept() {
    let memo = r#"{"wasm":{"contract":"osmo1contract","msg":null}}"#;
    let mut p = packet(Some(memo));
    let res = parse_ibc_hooks_memo(
        decode_memo,
        |_c: &Vec<u8>| -> Result<String, String> { Err("invalid canonical address".to_string()) },
        "channel-0",
        &mut p,
    );
    assert_eq!(res.err(), Some("invalid canonical address".to_string()));
    assert!(same_packet(&p, &packet(Some(memo))));
}

#[test]
fn apply_sets_receiver_and_returns_the_hook() {
    let mut p = packet(None);
    let wasm = IbcHooksMemoWasm { contract: "osmo1c".to_string(), msg: Value::Bool(true) };
    let res: Result<_, String> = apply_ibc_hook(&mut p, wasm, Ok("osmo1hooksender".to_string()));
    let (sender, contract, msg) = res.unwrap().unwrap();
    assert_eq!(sender, "osmo1hooksender");
    assert_eq!(contract, "osmo1c");
    assert_eq!(msg, Value::Bool(true));
    assert_eq!(p.receiver, "osmo1hooksender");
    assert_eq!(p.sender, "osmo1sender");
}

#[test]
fn apply_error_keeps_packet() {
    let mut p = packet(Some("m"));
    let wasm = IbcHooksMemoWasm { contract: "osmo1c".to_string(), msg: Value::Null };
    let res = apply_ibc_hook(&mut p, wasm, Err::<String, u8>(7));
    assert!(matches!(res, Err(7)));
    assert!(same_packet(&p, &packet(Some("m"))));
}

#[test]
fn hook_applied_twice_is_stable() {
    let memo = r#"{"wasm":{"contract":"osmo1contract","msg":{}}}"#;
    let mut p = packet(Some(memo));
    let first: Result<_, String> =
        parse_ibc_hooks_memo(decode_memo, humanize_hex, "channel-0", &mut p);
    let after_first = Ics20Packet {
        amount: p.amount,
        denom: p.denom.clone(),
        receiver: p.receiver.clone(),
        sender: p.sender.clone(),
        memo: p.memo.clone(),
    };
    let second: Result<_, String> =
        parse_ibc_hooks_memo(decode_memo, humanize_hex, "channel-0", &mut p);
    assert!(same_packet(&p, &after_first));
    assert_eq!(first.unwrap().unwrap().0, second.unwrap().unwrap().0);
}

#[test]
fn receiver_is_the_contract_caller() {
    let memo = r#"{"wasm":{"contract":"osmo1contract","msg":{}}}"#;
    let mut p = packet(Some(memo));
    let res: Result<_, String> =
        parse_ibc_hooks_memo(decode_memo, humanize_hex, "channel-1", &mut p);
    let (sender, _, _) = res.unwrap().unwrap();
    assert_eq!(p.receiver, sender);
    assert_eq!(sender, humanize_hex(&CANONICAL_CHANNEL_1.to_vec()).unwrap());
}
