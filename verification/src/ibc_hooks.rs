//! IBC-hooks memos on ICS-20 transfers.
//!
//! A transfer whose memo holds `{"wasm": {"contract": .., "msg": ..}}` is a
//! hook: the funds go to an intermediary account derived from the channel and
//! the original sender, and that account then calls the contract with `msg`.
use vstd::prelude::*;
use vstd::utf8::{decode_utf8, encode_scalar, encode_utf8, leading_byte_width_1};

use crate::hash::{keccak256, keccak256_digest};

verus! {

#[verifier::external_type_specification]
#[verifier::external_body]
pub struct ExJsonValue(serde_json::Value);

/// The `wasm` part of an IBC-hooks memo: the contract to call and the message
/// to call it with.
pub struct IbcHooksMemoWasm {
    pub contract: String,
    pub msg: serde_json::Value,
}

/// An IBC-hooks memo; `wasm` is absent when the memo carries no hook.
pub struct IbcHooksMemo {
    pub wasm: Option<IbcHooksMemoWasm>,
}

/// The fields of an ICS-20 fungible-token packet.
pub struct Ics20Packet {
    /// amount of tokens to transfer
    pub amount: u128,
    /// the token denomination to be transferred
    pub denom: String,
    /// the recipient address on the destination chain
    pub receiver: String,
    /// the sender address
    pub sender: String,
    /// optional memo for the transfer
    pub memo: Option<String>,
}

/// What a recognised hook yields: the intermediary sender, the contract to
/// call and the message to call it with.
pub type IbcHook = (String, String, serde_json::Value);

/// The domain tag that is hashed into every intermediary sender.
pub const HOOK_SENDER_PREFIX: &'static str = "ibc-wasm-hook-intermediary";

/// The bytes whose digest is the intermediary sender: the digest of the
/// domain tag, followed by the UTF-8 text `"{channel_id}/{original_sender}"`.
pub open spec fn hook_sender_preimage(channel_id: Seq<char>, original_sender: Seq<char>) -> Seq<u8> {
    keccak256_digest(encode_utf8(HOOK_SENDER_PREFIX@)) + encode_utf8(
        channel_id + seq!['/'] + original_sender,
    )
}

/// The canonical address of the intermediary sender for a transfer that came
/// in on `channel_id` from `original_sender`.
pub open spec fn hook_sender_canonical(channel_id: Seq<char>, original_sender: Seq<char>) -> Seq<u8> {
    keccak256_digest(hook_sender_preimage(channel_id, original_sender))
}

/// `after` is `before` with only its receiver replaced by `receiver`.
pub open spec fn packet_with_receiver(before: Ics20Packet, after: Ics20Packet, receiver: String) -> bool {
    &&& after.receiver == receiver
    &&& after.amount == before.amount
    &&& after.denom == before.denom
    &&& after.sender == before.sender
    &&& after.memo == before.memo
}

/// How a recognised hook ends, given what the address humanisation returned:
/// on success the intermediary sender becomes the receiver of the funds and is
/// returned with the contract and message; on failure the error is returned and
/// the packet is left as it was.
pub open spec fn hook_outcome<E>(
    before: Ics20Packet,
    after: Ics20Packet,
    wasm: IbcHooksMemoWasm,
    humanized: Result<String, E>,
    res: Result<Option<IbcHook>, E>,
) -> bool {
    match humanized {
        Ok(sender) => {
            &&& packet_with_receiver(before, after, sender)
            &&& res == Ok::<Option<IbcHook>, E>(Some((sender, wasm.contract, wasm.msg)))
        },
        Err(e) => {
            &&& after == before
            &&& res == Err::<Option<IbcHook>, E>(e)
        },
    }
}

/// Computes the canonical address of the intermediary sender for a transfer
/// that came in on `channel_id` from `original_sender`.
pub fn ibc_hook_sender_canonical(channel_id: &str, original_sender: &str) -> (canonical: Vec<u8>)
    ensures
        canonical@ == hook_sender_canonical(channel_id@, original_sender@),
        canonical@ == keccak256_digest(
            keccak256_digest(encode_utf8(HOOK_SENDER_PREFIX@)) + encode_utf8(channel_id@) + seq![
                0x2fu8,
            ] + encode_utf8(original_sender@),
        ),
        hook_sender_preimage(channel_id@, original_sender@).len() == 32
            + encode_utf8(channel_id@).len() + 1 + encode_utf8(original_sender@).len(),
        canonical@.len() == 32,
{
    let mut step = keccak256(HOOK_SENDER_PREFIX.as_bytes());
    let mut joined: String = channel_id.to_owned();
    joined.append("/");
    joined.append(original_sender);
    proof {
        reveal_strlit("/");
    }
    let joined_bytes = joined.as_str().as_bytes();
    let ghost prefix = step@;
    step.extend_from_slice(joined_bytes);
    assert(joined@ =~= channel_id@ + seq!['/'] + original_sender@);
    // `extend_from_slice` clones each byte, and a cloned byte is the byte itself.
    assert forall|i: int| 0 <= i < joined_bytes@.len() implies step@[prefix.len() + i]
        == joined_bytes@[i] by {
        assert(cloned::<u8>(joined_bytes@[i], step@[prefix.len() + i]));
    }
    assert(step@ =~= prefix + joined_bytes@);
    proof {
        lemma_hook_preimage_layout(channel_id@, original_sender@);
    }
    keccak256(step.as_slice())
}

/// Finishes a recognised hook once the intermediary sender's canonical
/// address has been humanised: on success the packet's receiver becomes that
/// address, which is returned with the contract and message to call; an error
/// is handed back as it is, with the packet untouched.
pub fn apply_ibc_hook<E>(
    packet: &mut Ics20Packet,
    wasm: IbcHooksMemoWasm,
    humanized: Result<String, E>,
) -> (res: Result<Option<IbcHook>, E>)
    ensures
        hook_outcome(*old(packet), *final(packet), wasm, humanized, res),
        humanized matches Ok(sender) ==> res == Ok::<Option<IbcHook>, E>(
            Some((sender, wasm.contract, wasm.msg)),
        ) && final(packet).receiver == sender,
        humanized is Err ==> *final(packet) == *old(packet),
{
    match humanized {
        Ok(sender) => {
            packet.receiver = sender.clone();
            Ok(Some((sender, wasm.contract, wasm.msg)))
        },
        Err(e) => Err(e),
    }
}

/// Matches the packet's memo against the IBC-hooks format and, when it holds
/// a hook, derives the intermediary sender, which becomes the receiver of the
/// funds and the sender of the contract call.
///
/// `parse_memo` decodes a memo text (`None` when it is not an IBC-hooks memo);
/// `humanize` turns a canonical address into its human-readable form.
pub fn parse_ibc_hooks_memo<P, H, E>(
    parse_memo: P,
    humanize: H,
    channel_id: &str,
    packet: &mut Ics20Packet,
) -> (res: Result<Option<IbcHook>, E>) where
    P: Fn(&String) -> Option<IbcHooksMemo>,
    H: Fn(&Vec<u8>) -> Result<String, E>,

    requires
        forall|memo: &String| #[trigger] call_requires(parse_memo, (memo,)),
        forall|canonical: &Vec<u8>| #[trigger] call_requires(humanize, (canonical,)),
    ensures
        match old(packet).memo {
            None => {
                &&& res == Ok::<Option<IbcHook>, E>(None)
                &&& *final(packet) == *old(packet)
            },
            Some(memo) => exists|parsed: Option<IbcHooksMemo>|
                {
                    &&& #[trigger] call_ensures(parse_memo, (&memo,), parsed)
                    &&& match parsed {
                        Some(IbcHooksMemo { wasm: Some(wasm) }) => exists|
                            canonical: Vec<u8>,
                            humanized: Result<String, E>,
                        |
                            {
                                &&& canonical@ == hook_sender_canonical(
                                    channel_id@,
                                    old(packet).sender@,
                                )
                                &&& #[trigger] call_ensures(humanize, (&canonical,), humanized)
                                &&& hook_outcome(
                                    *old(packet),
                                    *final(packet),
                                    wasm,
                                    humanized,
                                    res,
                                )
                            },
                        _ => {
                            &&& res == Ok::<Option<IbcHook>, E>(None)
                            &&& *final(packet) == *old(packet)
                        },
                    }
                },
        },
{
    let parsed = match &packet.memo {
        Some(memo) => parse_memo(memo),
        None => return Ok(None),
    };
    match parsed {
        Some(IbcHooksMemo { wasm: Some(wasm) }) => {
            let canonical = ibc_hook_sender_canonical(channel_id, packet.sender.as_str());
            let humanized = humanize(&canonical);
            apply_ibc_hook(packet, wasm, humanized)
        },
        _ => Ok(None),
    }
}

/// UTF-8 encoding distributes over concatenation.
proof fn lemma_encode_utf8_append(a: Seq<char>, b: Seq<char>)
    ensures
        encode_utf8(a + b) == encode_utf8(a) + encode_utf8(b),
    decreases a.len(),
{
    if a.len() == 0 {
        assert(a + b =~= b);
        assert(encode_utf8(a) + encode_utf8(b) =~= encode_utf8(b));
    } else {
        lemma_encode_utf8_append(a.drop_first(), b);
        assert((a + b).drop_first() =~= a.drop_first() + b);
        assert((a + b)[0] == a[0]);
        assert(encode_utf8(a + b) =~= encode_utf8(a) + encode_utf8(b));
    }
}

/// The character `/` is the single byte 0x2f in UTF-8.
proof fn lemma_encode_slash()
    ensures
        encode_utf8(seq!['/']) == seq![0x2fu8],
{
    let s = seq!['/'];
    assert(s.drop_first() =~= Seq::<char>::empty());
    assert(s[0] as u32 == 0x2f);
    let c: u32 = 0x2f;
    assert(c & 0x7f == 0x2f) by (bit_vector)
        requires
            c == 0x2f,
    ;
    assert(leading_byte_width_1(s[0] as u32) == 0x2fu8);
    assert(encode_scalar(s[0] as u32) =~= seq![0x2fu8]);
    assert(encode_utf8(s.drop_first()) =~= Seq::<u8>::empty());
    assert(encode_utf8(s) =~= seq![0x2fu8]);
}

/// The preimage of an intermediary sender is the digest of the domain tag,
/// then the complete UTF-8 bytes of the channel id, the byte `/`, and the
/// complete UTF-8 bytes of the original sender; nothing is cut off.
pub proof fn lemma_hook_preimage_layout(channel_id: Seq<char>, original_sender: Seq<char>)
    ensures
        hook_sender_preimage(channel_id, original_sender) == keccak256_digest(
            encode_utf8(HOOK_SENDER_PREFIX@),
        ) + encode_utf8(channel_id) + seq![0x2fu8] + encode_utf8(original_sender),
        hook_sender_preimage(channel_id, original_sender).len() == keccak256_digest(
            encode_utf8(HOOK_SENDER_PREFIX@),
        ).len() + encode_utf8(channel_id).len() + 1 + encode_utf8(original_sender).len(),
{
    lemma_encode_utf8_append(channel_id + seq!['/'], original_sender);
    lemma_encode_utf8_append(channel_id, seq!['/']);
    lemma_encode_slash();
    let tag = keccak256_digest(encode_utf8(HOOK_SENDER_PREFIX@));
    assert(hook_sender_preimage(channel_id, original_sender) =~= tag + encode_utf8(channel_id)
        + seq![0x2fu8] + encode_utf8(original_sender));
}

/// Two transfers on one channel from different original senders get different
/// preimages, and so do transfers from one sender on different channels.
pub proof fn lemma_hook_preimage_injective(
    channel1: Seq<char>,
    sender1: Seq<char>,
    channel2: Seq<char>,
    sender2: Seq<char>,
)
    requires
        hook_sender_preimage(channel1, sender1) == hook_sender_preimage(channel2, sender2),
        channel1 == channel2 || sender1 == sender2,
    ensures
        channel1 == channel2,
        sender1 == sender2,
{
    broadcast use vstd::utf8::encode_utf8_decode_utf8;

    lemma_hook_preimage_layout(channel1, sender1);
    lemma_hook_preimage_layout(channel2, sender2);
    let tag = keccak256_digest(encode_utf8(HOOK_SENDER_PREFIX@));
    let p = hook_sender_preimage(channel1, sender1);
    let e1 = encode_utf8(channel1);
    let e2 = encode_utf8(channel2);
    let f1 = encode_utf8(sender1);
    let f2 = encode_utf8(sender2);
    if channel1 == channel2 {
        let start: int = (tag.len() + e1.len() + 1) as int;
        assert(f1 =~= p.subrange(start, p.len() as int));
        assert(f2 =~= p.subrange(start, p.len() as int));
        assert(decode_utf8(f1) == decode_utf8(f2));
    } else {
        assert(e1.len() == e2.len());
        assert(e1 =~= p.subrange(tag.len() as int, (tag.len() + e1.len()) as int));
        assert(e2 =~= p.subrange(tag.len() as int, (tag.len() + e2.len()) as int));
        assert(decode_utf8(e1) == decode_utf8(e2));
    }
}

/// A hook whose sender was humanised to `sender` returns the contract call
/// `(sender, contract, msg)` of the memo and makes `sender` the receiver,
/// whatever the packet held before.
pub proof fn lemma_hook_success_returns_call<E>(
    before: Ics20Packet,
    after: Ics20Packet,
    wasm: IbcHooksMemoWasm,
    sender: String,
    res: Result<Option<IbcHook>, E>,
)
    requires
        hook_outcome(before, after, wasm, Ok::<String, E>(sender), res),
    ensures
        res == Ok::<Option<IbcHook>, E>(Some((sender, wasm.contract, wasm.msg))),
        after.receiver == sender,
{
}

/// What a hook returns does not depend on the packet's former receiver: two
/// packets that differ only there give the same result and the same packet.
pub proof fn lemma_hook_result_ignores_receiver<E>(
    before1: Ics20Packet,
    before2: Ics20Packet,
    after1: Ics20Packet,
    after2: Ics20Packet,
    wasm: IbcHooksMemoWasm,
    humanized: Result<String, E>,
    res1: Result<Option<IbcHook>, E>,
    res2: Result<Option<IbcHook>, E>,
)
    requires
        before1.amount == before2.amount,
        before1.denom == before2.denom,
        before1.sender == before2.sender,
        before1.memo == before2.memo,
        humanized is Ok,
        hook_outcome(before1, after1, wasm, humanized, res1),
        hook_outcome(before2, after2, wasm, humanized, res2),
    ensures
        res1 == res2,
        after1 == after2,
{
}

/// When a hook goes through, the account that receives the funds is the one
/// that is returned as the sender of the contract call.
pub proof fn lemma_hook_receiver_is_caller<E>(
    before: Ics20Packet,
    after: Ics20Packet,
    wasm: IbcHooksMemoWasm,
    humanized: Result<String, E>,
    res: Result<Option<IbcHook>, E>,
)
    requires
        hook_outcome(before, after, wasm, humanized, res),
    ensures
        res matches Ok(Some(hook)) ==> after.receiver == hook.0,
        res matches Ok(Some(hook)) ==> hook.1 == wasm.contract && hook.2 == wasm.msg,
{
}

/// A hook changes the packet in its receiver alone, and a hook whose sender
/// could not be humanised changes nothing.
pub proof fn lemma_hook_changes_only_receiver<E>(
    before: Ics20Packet,
    after: Ics20Packet,
    wasm: IbcHooksMemoWasm,
    humanized: Result<String, E>,
    res: Result<Option<IbcHook>, E>,
)
    requires
        hook_outcome(before, after, wasm, humanized, res),
    ensures
        after.amount == before.amount,
        after.denom == before.denom,
        after.sender == before.sender,
        after.memo == before.memo,
        res is Err ==> after == before,
{
}

/// Running a hook again on the packet it produced derives the same
/// intermediary sender (the memo and the original sender are kept), and with
/// the same humanised address it leaves that packet as it is.
pub proof fn lemma_hook_reapplication_is_stable<E>(
    channel_id: Seq<char>,
    first: Ics20Packet,
    second: Ics20Packet,
    third: Ics20Packet,
    wasm1: IbcHooksMemoWasm,
    wasm2: IbcHooksMemoWasm,
    sender: String,
    res1: Result<Option<IbcHook>, E>,
    res2: Result<Option<IbcHook>, E>,
)
    requires
        hook_outcome(first, second, wasm1, Ok::<String, E>(sender), res1),
        hook_outcome(second, third, wasm2, Ok::<String, E>(sender), res2),
    ensures
        second.memo == first.memo,
        hook_sender_canonical(channel_id, second.sender@) == hook_sender_canonical(
            channel_id,
            first.sender@,
        ),
        third == second,
{
}

} // verus!
