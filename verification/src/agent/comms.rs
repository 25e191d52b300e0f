//! Framing of messages on the serial line: a payload is announced by its
//! byte length, printed as exactly eight ASCII digits with leading zeroes.
use vstd::prelude::*;

use vstd::utf8::encode_utf8;

verus! {

/// How many bytes announce a message's length.
pub const MESSAGE_SIZE_NB_BYTES: usize = 8;

/// Decimal notation of a natural number as ASCII bytes, most significant
/// digit first.
pub open spec fn spec_dec_bytes(n: nat) -> Seq<u8>
    decreases n,
{
    if n < 10 {
        seq![(n + 48) as u8]
    } else {
        spec_dec_bytes(n / 10).push((n % 10 + 48) as u8)
    }
}

/// Ten to the power `k`.
pub open spec fn spec_pow10(k: nat) -> nat
    decreases k,
{
    if k == 0 {
        1nat
    } else {
        10 * spec_pow10((k - 1) as nat)
    }
}

/// A number below `10^k` prints in at most `k` digits.
proof fn lemma_dec_bytes_len(n: nat, k: nat)
    requires
        k >= 1,
        n < spec_pow10(k),
    ensures
        1 <= spec_dec_bytes(n).len() <= k,
    decreases k,
{
    if n < 10 {
    } else {
        assert(k >= 2) by {
            reveal_with_fuel(spec_pow10, 2);
        }
        let p = spec_pow10((k - 1) as nat);
        vstd::arithmetic::div_mod::lemma_fundamental_div_mod(n as int, 10);
        vstd::arithmetic::div_mod::lemma_mod_bound(n as int, 10);
        assert(n / 10 < p) by (nonlinear_arith)
            requires
                n as int == 10 * (n as int / 10) + n as int % 10,
                0 <= n as int % 10 < 10,
                (n as int) < 10 * p,
                p >= 1,
        ;
        lemma_dec_bytes_len(n / 10, (k - 1) as nat);
    }
}

/// The eight-byte length header: the decimal digits of `n`, padded on the
/// left with ASCII zeroes to eight bytes.
pub open spec fn spec_size_header(n: nat) -> Seq<u8>
    recommends
        n < 100000000,
{
    Seq::new((8 - spec_dec_bytes(n).len()) as nat, |i: int| 48u8) + spec_dec_bytes(n)
}

/// The decimal digits of `n` as ASCII bytes.
fn dec_bytes(n: usize) -> (r: Vec<u8>)
    ensures
        r@ == spec_dec_bytes(n as nat),
    decreases n,
{
    if n < 10 {
        let mut r: Vec<u8> = Vec::new();
        r.push((n as u8) + 48);
        proof {
            assert(r@ =~= spec_dec_bytes(n as nat));
        }
        r
    } else {
        let mut r = dec_bytes(n / 10);
        r.push(((n % 10) as u8) + 48);
        r
    }
}

/// One framed message: the payload's byte length as eight ASCII digits,
/// then the payload, the UTF-8 bytes of the text to send.
pub struct Message {
    pub message_size: [u8; MESSAGE_SIZE_NB_BYTES],
    pub message: Vec<u8>,
}

impl Message {
    /// Frames a text: the payload is its UTF-8 bytes, the header their count,
    /// zero-padded to eight digits. The count must fit those eight digits.
    pub fn new(message_to_send: String) -> (r: Self)
        requires
            encode_utf8(message_to_send@).len() < 100000000,
        ensures
            r.message@ == encode_utf8(message_to_send@),
            r.message_size@ == spec_size_header(encode_utf8(message_to_send@).len()),
    {
        let message = message_to_send.as_str().as_bytes_vec();
        let digits = dec_bytes(message.len());
        proof {
            assert(spec_pow10(8) == 100000000) by {
                reveal_with_fuel(spec_pow10, 9);
            }
            lemma_dec_bytes_len(message@.len(), 8);
        }
        let dlen = digits.len();
        let offset = MESSAGE_SIZE_NB_BYTES - dlen;
        let mut message_size: [u8; MESSAGE_SIZE_NB_BYTES] = [48u8; MESSAGE_SIZE_NB_BYTES];
        let mut i: usize = 0;
        while i < dlen
            invariant
                dlen == digits@.len(),
                1 <= dlen <= 8,
                offset == 8 - dlen,
                i <= dlen,
                message_size@.len() == 8,
                forall|j: int| 0 <= j < offset ==> message_size@[j] == 48u8,
                forall|j: int| 0 <= j < i ==> message_size@[offset + j] == digits@[j],
                forall|j: int| offset + i <= j < 8 ==> message_size@[j] == 48u8,
            decreases dlen - i,
        {
            message_size[offset + i] = digits[i];
            i += 1;
        }
        proof {
            assert(message_size@ =~= spec_size_header(message@.len()));
        }
        Message { message_size, message }
    }

    /// The frame on the wire: the eight header bytes, then the payload.
    pub fn to_bytes(&self) -> (r: Vec<u8>)
        ensures
            r@ == self.message_size@ + self.message@,
    {
        let mut bytes: Vec<u8> = Vec::new();
        bytes.extend_from_slice(self.message_size.as_slice());
        bytes.extend_from_slice(self.message.as_slice());
        proof {
            assert(bytes@ =~= self.message_size@ + self.message@);
        }
        bytes
    }
}

} // verus!
