use vstd::prelude::*;

verus! {

/// The two-byte big-endian length that precedes a DNS message sent over a
/// stream. The length is taken modulo 2^16, as a `u16` holds it.
pub open spec fn length_prefix(len: nat) -> Seq<u8> {
    seq![((len % 65536) / 256) as u8, (len % 256) as u8]
}

/// The length that a two-byte big-endian prefix announces.
pub open spec fn prefix_value(high: u8, low: u8) -> nat {
    (high as nat) * 256 + (low as nat)
}

/// A DNS message as sent over a stream: its length, then its bytes.
pub open spec fn framed(message: Seq<u8>) -> Seq<u8> {
    length_prefix(message.len()) + message
}

/// Frames a DNS message for a TCP or TLS stream: the message's length as a
/// two-byte big-endian number (taken modulo 2^16), then the message.
pub fn frame_tcp_message(message: &[u8]) -> (frame: Vec<u8>)
    ensures
        frame@ == framed(message@),
{
    let len: usize = message.len();
    let short_len: u16 = (len % 65536) as u16;
    let mut frame: Vec<u8> = Vec::new();
    frame.push((short_len / 256) as u8);
    frame.push((short_len % 256) as u8);
    let mut i: usize = 0;
    while i < len
        invariant
            0 <= i <= len,
            len == message@.len(),
            frame@ == length_prefix(len as nat) + message@.subrange(0, i as int),
        decreases len - i,
    {
        frame.push(message[i]);
        i = i + 1;
        proof {
            assert(frame@ =~= length_prefix(len as nat) + message@.subrange(0, i as int));
        }
    }
    proof {
        assert(message@.subrange(0, len as int) =~= message@);
    }
    frame
}

/// The length of the DNS message that follows a two-byte big-endian prefix.
pub fn frame_length(prefix: [u8; 2]) -> (len: usize)
    ensures
        len == prefix_value(prefix[0], prefix[1]),
{
    (prefix[0] as usize) * 256 + (prefix[1] as usize)
}

/// Reading the prefix of a framed message gives back the message's length,
/// and the rest of the frame is the message itself, for every message a
/// two-byte length can announce.
pub proof fn lemma_frame_round_trip(message: Seq<u8>)
    requires
        message.len() < 65536,
    ensures
        framed(message).len() == message.len() + 2,
        prefix_value(framed(message)[0], framed(message)[1]) == message.len(),
        framed(message).subrange(2, framed(message).len() as int) == message,
{
    let n: nat = message.len();
    assert(framed(message).subrange(2, framed(message).len() as int) =~= message);
    assert((n / 256) * 256 + n % 256 == n) by (nonlinear_arith);
}

} // verus!
