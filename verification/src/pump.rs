//! The byte-transfer model both relays share. A relay direction is driven as
//! a sequence of reads, each handing over one chunk of bytes; the functions
//! here decide what each chunk contributes to the other side, and the proof
//! functions state what a whole run of them forwards.
use vstd::prelude::*;

verus! {

/// All the bytes of a sequence of chunks, in arrival order.
pub open spec fn concat_all(chunks: Seq<Seq<u8>>) -> Seq<u8>
    decreases chunks.len(),
{
    if chunks.len() == 0 {
        Seq::empty()
    } else {
        chunks.first() + concat_all(chunks.drop_first())
    }
}

/// What the opaque tunnel forwards of one chunk: the chunk itself, untouched.
pub open spec fn tunnel_chunk_spec(chunk: Seq<u8>) -> Seq<u8> {
    chunk
}

/// What a tunnel direction forwards over a whole sequence of reads: each
/// chunk's contribution, in order.
pub open spec fn tunnel_forwarded(chunks: Seq<Seq<u8>>) -> Seq<u8>
    decreases chunks.len(),
{
    if chunks.len() == 0 {
        Seq::empty()
    } else {
        tunnel_chunk_spec(chunks.first()) + tunnel_forwarded(chunks.drop_first())
    }
}

/// Tunnel fidelity: however the peer's bytes arrive fragmented across reads,
/// a tunnel direction forwards exactly those bytes in the same order.
pub proof fn lemma_tunnel_fidelity(chunks: Seq<Seq<u8>>)
    ensures
        tunnel_forwarded(chunks) == concat_all(chunks),
    decreases chunks.len(),
{
    if chunks.len() > 0 {
        lemma_tunnel_fidelity(chunks.drop_first());
    }
}

/// Forwards the first `n` bytes of the read buffer through the tunnel,
/// exactly as they arrived.
pub fn tunnel_forward_chunk(buf: &Vec<u8>, n: usize) -> (out: Vec<u8>)
    requires
        n <= buf@.len(),
    ensures
        out@ == tunnel_chunk_spec(buf@.take(n as int)),
{
    let mut out: Vec<u8> = Vec::new();
    let mut i: usize = 0;
    while i < n
        invariant
            0 <= i <= n <= buf@.len(),
            out@ == buf@.take(i as int),
        decreases n - i,
    {
        out.push(buf[i]);
        proof {
            assert(out@ =~= buf@.take(i + 1));
        }
        i = i + 1;
    }
    out
}

/// What a content-length body copy with `n` bytes still owed forwards over a
/// sequence of reads: from each chunk, as much as is still owed.
pub open spec fn body_forwarded(n: int, chunks: Seq<Seq<u8>>) -> Seq<u8>
    decreases chunks.len(),
{
    if n <= 0 || chunks.len() == 0 {
        Seq::empty()
    } else {
        let t = if n < chunks.first().len() {
            n
        } else {
            chunks.first().len() as int
        };
        chunks.first().take(t) + body_forwarded(n - t, chunks.drop_first())
    }
}

/// Content-length framing: when the client supplies at least `n` bytes,
/// however fragmented across reads, the body copy forwards exactly the first
/// `n` of them, in order.
pub proof fn lemma_body_framing(n: int, chunks: Seq<Seq<u8>>)
    requires
        0 <= n <= concat_all(chunks).len(),
    ensures
        body_forwarded(n, chunks) == concat_all(chunks).take(n),
        body_forwarded(n, chunks).len() == n,
    decreases chunks.len(),
{
    if n == 0 {
        assert(body_forwarded(n, chunks) =~= concat_all(chunks).take(n));
    } else {
        let head = chunks.first();
        let rest = chunks.drop_first();
        if n < head.len() {
            assert(body_forwarded(n - n, rest) =~= Seq::<u8>::empty());
            assert(body_forwarded(n, chunks) =~= concat_all(chunks).take(n));
        } else {
            let t = head.len() as int;
            lemma_body_framing(n - t, rest);
            assert(head.take(t) =~= head);
            assert(body_forwarded(n, chunks) =~= concat_all(chunks).take(n));
        }
    }
}

/// Forwards from the first `n` bytes of the read buffer as much of the body
/// as is still owed, and discounts it from `remaining`.
pub fn body_forward_chunk(remaining: &mut u64, buf: &Vec<u8>, n: usize) -> (out: Vec<u8>)
    requires
        n <= buf@.len(),
    ensures
        out@ == buf@.take(n as int).take(
            if *old(remaining) < n as u64 {
                *old(remaining) as int
            } else {
                n as int
            },
        ),
        *final(remaining) == *old(remaining) - out@.len(),
{
    let take: usize = if *remaining < n as u64 {
        *remaining as usize
    } else {
        n
    };
    let out = tunnel_forward_chunk(buf, take);
    proof {
        assert(buf@.take(n as int).take(take as int) =~= buf@.take(take as int));
    }
    *remaining = *remaining - take as u64;
    out
}

} // verus!
