//! The memos that policies write, byte by byte.
//!
//! A memo is two bytes that name its kind and 64 bytes of data.

use vstd::prelude::*;
use crate::address::ShortAddressHash;
use crate::bytes::big_endian;
use crate::memo::MemoPayload;

verus! {

/// The largest fee that a destination memo has room for: seven bytes.
pub const MAX_DESTINATION_MEMO_FEE: u64 = 0xff_ffff_ffff_ffff;

/// `x` without its `k` lowest bytes.
pub open spec fn without_low_bytes(x: u64, k: nat) -> u64
    decreases k,
{
    if k == 0 {
        x
    } else {
        without_low_bytes(x, (k - 1) as nat) / 256
    }
}

/// The byte of `x` that has `k` bytes below it.
pub open spec fn byte_of(x: u64, k: nat) -> u8 {
    (without_low_bytes(x, k) % 256) as u8
}

/// The `n` lowest bytes of `x`, most significant first.
pub open spec fn low_bytes(x: u64, n: nat) -> Seq<u8> {
    Seq::new(n, |i: int| byte_of(x, (n - 1 - i) as nat))
}

/// Two hundred and fifty-six to the power of `n`.
pub open spec fn pow256(n: nat) -> nat
    decreases n,
{
    if n == 0 {
        1
    } else {
        256 * pow256((n - 1) as nat)
    }
}

/// Dropping a byte and then `k` bytes drops `k` bytes and one more.
pub proof fn lemma_without_low_bytes_shifts(x: u64, k: nat)
    ensures
        without_low_bytes(x, k + 1) == without_low_bytes(x / 256, k),
    decreases k,
{
    if k > 0 {
        lemma_without_low_bytes_shifts(x, (k - 1) as nat);
    } else {
        assert(without_low_bytes(x, 1) == without_low_bytes(x, 0) / 256);
    }
}

/// The `n` lowest bytes of a number write the number, as far as `n` bytes
/// can: its remainder by the `n`th power of 256.
pub proof fn lemma_low_bytes_write_the_number(x: u64, n: nat)
    ensures
        big_endian(low_bytes(x, n)) == (x as int) % (pow256(n) as int),
        pow256(n) > 0,
    decreases n,
{
    let s = low_bytes(x, n);
    if n > 0 {
        let rest = low_bytes(x / 256, (n - 1) as nat);
        assert(s.drop_last() =~= rest) by {
            assert forall|i: int| 0 <= i < n - 1 implies s[i] == rest[i] by {
                lemma_without_low_bytes_shifts(x, (n - 2 - i) as nat);
            }
        }
        assert(s.last() == (x % 256) as u8);
        lemma_low_bytes_write_the_number(x / 256, (n - 1) as nat);
        vstd::arithmetic::div_mod::lemma_mod_breakdown(
            x as int,
            256,
            pow256((n - 1) as nat) as int,
        );
    }
}

/// The fee and the total outlay that a destination memo was written for
/// can be read off it: its bytes from the twentieth on write the fee, if
/// seven bytes hold it, and those from the twenty-seventh on the total
/// outlay.
pub proof fn lemma_destination_memo_holds_its_numbers(
    address_hash: ShortAddressHash,
    num_recipients: u8,
    fee: u64,
    total_outlay: u64,
)
    requires
        fee <= MAX_DESTINATION_MEMO_FEE,
    ensures
        ({
            let bytes = destination_memo_bytes(address_hash, num_recipients, fee, total_outlay);
            &&& bytes.len() == 66
            &&& bytes.subrange(2, 18) == address_hash.bytes@
            &&& bytes[18] == num_recipients
            &&& big_endian(bytes.subrange(19, 26)) == fee
            &&& big_endian(bytes.subrange(26, 34)) == total_outlay
        }),
{
    let bytes = destination_memo_bytes(address_hash, num_recipients, fee, total_outlay);
    assert(bytes.subrange(2, 18) =~= address_hash.bytes@);
    assert(bytes.subrange(19, 26) =~= low_bytes(fee, 7));
    assert(bytes.subrange(26, 34) =~= low_bytes(total_outlay, 8));
    lemma_low_bytes_write_the_number(fee, 7);
    lemma_low_bytes_write_the_number(total_outlay, 8);
    assert(pow256(7) == 0x100_0000_0000_0000) by {
        reveal_with_fuel(pow256, 8);
    }
    assert(pow256(8) == 0x1_0000_0000_0000_0000) by {
        reveal_with_fuel(pow256, 9);
    }
    vstd::arithmetic::div_mod::lemma_small_mod(fee as nat, pow256(7));
    vstd::arithmetic::div_mod::lemma_small_mod(total_outlay as nat, pow256(8));
}

/// A burn redemption memo: kind `00 01`, then 64 bytes that say what the
/// burn redeems.
pub open spec fn burn_redemption_memo_bytes(memo_data: [u8; 64]) -> Seq<u8> {
    seq![0u8, 1u8] + memo_data@
}

/// A destination memo: kind `02 00`, the hash of the recipient's address,
/// the number of recipients, the fee in seven bytes and the total outlay in
/// eight, both most significant byte first, and zeros.
pub open spec fn destination_memo_bytes(
    address_hash: ShortAddressHash,
    num_recipients: u8,
    fee: u64,
    total_outlay: u64,
) -> Seq<u8> {
    Seq::new(
        66,
        |i: int|
            if i == 0 {
                2u8
            } else if i == 1 {
                0u8
            } else if i < 18 {
                address_hash.bytes@[i - 2]
            } else if i == 18 {
                num_recipients
            } else if i < 26 {
                byte_of(fee, (25 - i) as nat)
            } else if i < 34 {
                byte_of(total_outlay, (33 - i) as nat)
            } else {
                0u8
            },
    )
}

/// The payload with given bytes.
pub open spec fn payload_of(bytes: Seq<u8>) -> MemoPayload
    recommends
        bytes.len() == 66,
{
    MemoPayload { bytes: choose|a: [u8; 66]| (#[trigger] a@) == bytes }
}

/// The burn redemption memo for `memo_data`.
pub open spec fn burn_redemption_payload(memo_data: [u8; 64]) -> MemoPayload {
    payload_of(burn_redemption_memo_bytes(memo_data))
}

/// The destination memo for given values.
pub open spec fn destination_payload(
    address_hash: ShortAddressHash,
    num_recipients: u8,
    fee: u64,
    total_outlay: u64,
) -> MemoPayload {
    payload_of(destination_memo_bytes(address_hash, num_recipients, fee, total_outlay))
}

/// A payload is the payload of its bytes.
pub proof fn lemma_payload_of_its_bytes(payload: MemoPayload)
    ensures
        payload_of(payload.bytes@) == payload,
{
    let chosen = choose|a: [u8; 66]| (#[trigger] a@) == payload.bytes@;
    assert(chosen@ == payload.bytes@);
    assert(chosen =~= payload.bytes);
}

/// Writes a burn redemption memo.
pub fn burn_redemption_memo(memo_data: &[u8; 64]) -> (payload: MemoPayload)
    ensures
        payload.bytes@ == burn_redemption_memo_bytes(*memo_data),
        payload == burn_redemption_payload(*memo_data),
{
    let mut bytes: [u8; 66] = [0u8; 66];
    bytes[1] = 1;
    let mut i: usize = 0;
    while i < 64
        invariant
            0 <= i <= 64,
            bytes@[0] == 0,
            bytes@[1] == 1,
            forall|k: int| 0 <= k < i ==> bytes@[k + 2] == memo_data@[k],
        decreases 64 - i,
    {
        bytes[i + 2] = memo_data[i];
        i += 1;
    }
    proof {
        assert(bytes@ =~= burn_redemption_memo_bytes(*memo_data));
    }
    let payload = MemoPayload { bytes };
    proof {
        lemma_payload_of_its_bytes(payload);
    }
    payload
}

/// Writes a destination memo.
pub fn destination_memo(
    address_hash: &ShortAddressHash,
    num_recipients: u8,
    fee: u64,
    total_outlay: u64,
) -> (payload: MemoPayload)
    ensures
        payload.bytes@ == destination_memo_bytes(*address_hash, num_recipients, fee, total_outlay),
        payload == destination_payload(*address_hash, num_recipients, fee, total_outlay),
{
    let ghost wanted = destination_memo_bytes(*address_hash, num_recipients, fee, total_outlay);
    let mut bytes: [u8; 66] = [0u8; 66];
    bytes[0] = 2;
    bytes[18] = num_recipients;
    let mut i: usize = 0;
    while i < 16
        invariant
            0 <= i <= 16,
            wanted == destination_memo_bytes(*address_hash, num_recipients, fee, total_outlay),
            forall|k: int| 0 <= k < 2 + i ==> bytes@[k] == wanted[k],
            bytes@[18] == wanted[18],
            forall|k: int| 19 <= k < 66 ==> bytes@[k] == 0,
        decreases 16 - i,
    {
        bytes[i + 2] = address_hash.bytes[i];
        i += 1;
    }
    let mut rest: u64 = fee;
    let mut k: usize = 0;
    while k < 7
        invariant
            0 <= k <= 7,
            wanted == destination_memo_bytes(*address_hash, num_recipients, fee, total_outlay),
            rest == without_low_bytes(fee, k as nat),
            forall|m: int| 0 <= m < 19 ==> bytes@[m] == wanted[m],
            forall|m: int| 25 - k < m < 26 ==> bytes@[m] == wanted[m],
            forall|m: int| 26 <= m < 66 ==> bytes@[m] == 0,
        decreases 7 - k,
    {
        bytes[25 - k] = (rest % 256) as u8;
        rest = rest / 256;
        k += 1;
    }
    let mut rest: u64 = total_outlay;
    let mut k: usize = 0;
    while k < 8
        invariant
            0 <= k <= 8,
            wanted == destination_memo_bytes(*address_hash, num_recipients, fee, total_outlay),
            rest == without_low_bytes(total_outlay, k as nat),
            forall|m: int| 0 <= m < 26 ==> bytes@[m] == wanted[m],
            forall|m: int| 33 - k < m < 34 ==> bytes@[m] == wanted[m],
            forall|m: int| 34 <= m < 66 ==> bytes@[m] == 0,
        decreases 8 - k,
    {
        bytes[33 - k] = (rest % 256) as u8;
        rest = rest / 256;
        k += 1;
    }
    proof {
        assert(bytes@ =~= wanted);
    }
    let payload = MemoPayload { bytes };
    proof {
        lemma_payload_of_its_bytes(payload);
    }
    payload
}

/// A sender memo before it is authenticated: kind `01 00`, the hash of the
/// sender's address, and zeros. The last sixteen bytes are for the
/// authentication code, which is written by whoever seals the output.
pub open spec fn sender_memo_bytes(sender: ShortAddressHash) -> Seq<u8> {
    Seq::new(
        66,
        |i: int|
            if i == 0 {
                1u8
            } else if i == 1 {
                0u8
            } else if i < 18 {
                sender.bytes@[i - 2]
            } else {
                0u8
            },
    )
}

/// A sender memo with the id of the payment request that the payment
/// answers, before it is authenticated: kind `01 01`, the hash of the
/// sender's address, the id in eight bytes, most significant byte first,
/// and zeros, the last sixteen of them for the authentication code.
pub open spec fn sender_with_payment_request_id_memo_bytes(
    sender: ShortAddressHash,
    payment_request_id: u64,
) -> Seq<u8> {
    Seq::new(
        66,
        |i: int|
            if i == 0 {
                1u8
            } else if i == 1 {
                1u8
            } else if i < 18 {
                sender.bytes@[i - 2]
            } else if i < 26 {
                byte_of(payment_request_id, (25 - i) as nat)
            } else {
                0u8
            },
    )
}

/// The sender memo of a sender.
pub open spec fn sender_payload(sender: ShortAddressHash) -> MemoPayload {
    payload_of(sender_memo_bytes(sender))
}

/// The sender memo of a sender who answers a payment request.
pub open spec fn sender_with_payment_request_id_payload(
    sender: ShortAddressHash,
    payment_request_id: u64,
) -> MemoPayload {
    payload_of(sender_with_payment_request_id_memo_bytes(sender, payment_request_id))
}

/// Writes a sender memo, but for its authentication code.
pub fn sender_memo(sender: &ShortAddressHash) -> (payload: MemoPayload)
    ensures
        payload.bytes@ == sender_memo_bytes(*sender),
        payload == sender_payload(*sender),
{
    let ghost wanted = sender_memo_bytes(*sender);
    let mut bytes: [u8; 66] = [0u8; 66];
    bytes[0] = 1;
    let mut i: usize = 0;
    while i < 16
        invariant
            0 <= i <= 16,
            wanted == sender_memo_bytes(*sender),
            forall|k: int| 0 <= k < 2 + i ==> bytes@[k] == wanted[k],
            forall|k: int| 18 <= k < 66 ==> bytes@[k] == 0,
        decreases 16 - i,
    {
        bytes[i + 2] = sender.bytes[i];
        i += 1;
    }
    proof {
        assert(bytes@ =~= wanted);
    }
    let payload = MemoPayload { bytes };
    proof {
        lemma_payload_of_its_bytes(payload);
    }
    payload
}

/// Writes a sender memo with a payment request id, but for its
/// authentication code.
pub fn sender_with_payment_request_id_memo(sender: &ShortAddressHash, payment_request_id: u64) -> (payload:
    MemoPayload)
    ensures
        payload.bytes@ == sender_with_payment_request_id_memo_bytes(*sender, payment_request_id),
        payload == sender_with_payment_request_id_payload(*sender, payment_request_id),
{
    let ghost wanted = sender_with_payment_request_id_memo_bytes(*sender, payment_request_id);
    let mut bytes: [u8; 66] = [0u8; 66];
    bytes[0] = 1;
    bytes[1] = 1;
    let mut i: usize = 0;
    while i < 16
        invariant
            0 <= i <= 16,
            wanted == sender_with_payment_request_id_memo_bytes(*sender, payment_request_id),
            forall|k: int| 0 <= k < 2 + i ==> bytes@[k] == wanted[k],
            forall|k: int| 18 <= k < 66 ==> bytes@[k] == 0,
        decreases 16 - i,
    {
        bytes[i + 2] = sender.bytes[i];
        i += 1;
    }
    let mut rest: u64 = payment_request_id;
    let mut k: usize = 0;
    while k < 8
        invariant
            0 <= k <= 8,
            wanted == sender_with_payment_request_id_memo_bytes(*sender, payment_request_id),
            rest == without_low_bytes(payment_request_id, k as nat),
            forall|m: int| 0 <= m < 18 ==> bytes@[m] == wanted[m],
            forall|m: int| 25 - k < m < 26 ==> bytes@[m] == wanted[m],
            forall|m: int| 26 <= m < 66 ==> bytes@[m] == 0,
        decreases 8 - k,
    {
        bytes[25 - k] = (rest % 256) as u8;
        rest = rest / 256;
        k += 1;
    }
    proof {
        assert(bytes@ =~= wanted);
    }
    let payload = MemoPayload { bytes };
    proof {
        lemma_payload_of_its_bytes(payload);
    }
    payload
}

/// Whether a memo is of a kind that carries an authentication code: the
/// sender memos, whose kind begins with `01`.
pub open spec fn spec_is_authenticated(payload: MemoPayload) -> bool {
    payload.bytes@[0] == 1
}

/// A memo with an authentication code written in: its first fifty bytes
/// as they were, then the code.
pub open spec fn authenticated_bytes(payload: MemoPayload, code: [u8; 16]) -> Seq<u8> {
    payload.bytes@.take(50) + code@
}

/// Whether a memo is of a kind that carries an authentication code.
pub fn is_authenticated(payload: &MemoPayload) -> (b: bool)
    ensures
        b == spec_is_authenticated(*payload),
{
    payload.bytes[0] == 1
}

/// The part of a memo that its authentication code covers: its kind and
/// its data but for the code.
pub fn authenticated_part(payload: &MemoPayload) -> (part: [u8; 50])
    ensures
        part@ == payload.bytes@.take(50),
{
    let mut part: [u8; 50] = [0u8; 50];
    let mut i: usize = 0;
    while i < 50
        invariant
            0 <= i <= 50,
            forall|k: int| 0 <= k < i ==> part@[k] == payload.bytes@[k],
        decreases 50 - i,
    {
        part[i] = payload.bytes[i];
        i += 1;
    }
    proof {
        assert(part@ =~= payload.bytes@.take(50));
    }
    part
}

/// The memo with an authentication code written in its last sixteen bytes.
pub fn with_authentication_code(payload: &MemoPayload, code: &[u8; 16]) -> (signed: MemoPayload)
    ensures
        signed.bytes@ == authenticated_bytes(*payload, *code),
{
    let mut bytes: [u8; 66] = payload.bytes;
    let mut i: usize = 0;
    while i < 16
        invariant
            0 <= i <= 16,
            forall|k: int| 0 <= k < 50 ==> bytes@[k] == payload.bytes@[k],
            forall|k: int| 0 <= k < i ==> bytes@[50 + k] == code@[k],
        decreases 16 - i,
    {
        bytes[50 + i] = code[i];
        i += 1;
    }
    proof {
        assert(bytes@ =~= authenticated_bytes(*payload, *code));
    }
    MemoPayload { bytes }
}

/// Writing an authentication code into a memo changes neither its kind nor
/// what the code covers, and the memo then ends in the code. The sender
/// memos that the policies write are of the kind that carries a code, with
/// zeros in its place; destination and burn redemption memos are not.
pub proof fn lemma_authentication_code_leaves_the_memo(
    payload: MemoPayload,
    code: [u8; 16],
    signed: MemoPayload,
    sender: ShortAddressHash,
    payment_request_id: u64,
)
    requires
        signed.bytes@ == authenticated_bytes(payload, code),
    ensures
        signed.bytes@.take(50) == payload.bytes@.take(50),
        signed.bytes@.skip(50) == code@,
        spec_is_authenticated(signed) == spec_is_authenticated(payload),
        sender_memo_bytes(sender)[0] == 1,
        sender_with_payment_request_id_memo_bytes(sender, payment_request_id)[0] == 1,
        sender_memo_bytes(sender).skip(50) == Seq::new(16, |i: int| 0u8),
        sender_with_payment_request_id_memo_bytes(sender, payment_request_id).skip(50) == Seq::new(
            16,
            |i: int| 0u8,
        ),
        forall|hash: ShortAddressHash, n: u8, fee: u64, outlay: u64|
            (#[trigger] destination_memo_bytes(hash, n, fee, outlay))[0] != 1,
        forall|data: [u8; 64]| (#[trigger] burn_redemption_memo_bytes(data))[0] != 1,
{
    assert(signed.bytes@.take(50) =~= payload.bytes@.take(50));
    assert(signed.bytes@.skip(50) =~= code@);
    assert(signed.bytes@[0] == payload.bytes@.take(50)[0]);
    assert(sender_memo_bytes(sender).skip(50) =~= Seq::new(16, |i: int| 0u8));
    assert(sender_with_payment_request_id_memo_bytes(sender, payment_request_id).skip(50)
        =~= Seq::new(16, |i: int| 0u8));
}

} // verus!
