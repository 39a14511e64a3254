use vstd::prelude::*;

verus! {

/// How many bytes of a backend's output are kept for diagnostics.
pub const OUTPUT_TAIL_BYTES: usize = 4096;

/// The last `cap` elements of `s` (all of `s` when it is shorter).
pub open spec fn tail_of(s: Seq<u8>, cap: nat) -> Seq<u8> {
    if s.len() <= cap {
        s
    } else {
        s.subrange(s.len() - cap, s.len() as int)
    }
}

fn extend_from(out: &mut Vec<u8>, src: &[u8], from: usize)
    requires
        from <= src@.len(),
    ensures
        final(out)@ == old(out)@ + src@.subrange(from as int, src@.len() as int),
{
    let mut i: usize = from;
    while i < src.len()
        invariant
            from <= i <= src@.len(),
            out@ == old(out)@ + src@.subrange(from as int, i as int),
        decreases src.len() - i,
    {
        out.push(src[i]);
        i = i + 1;
        assert(out@ =~= old(out)@ + src@.subrange(from as int, i as int));
    }
}

/// Appends `chunk` to the captured output `buf`, keeping only its last `cap` bytes.
pub fn append_tail(buf: &mut Vec<u8>, chunk: &[u8], cap: usize)
    ensures
        final(buf)@ == tail_of(old(buf)@ + chunk@, cap as nat),
{
    let mut kept: Vec<u8> = Vec::new();
    if chunk.len() >= cap {
        extend_from(&mut kept, chunk, chunk.len() - cap);
    } else {
        let room: usize = cap - chunk.len();
        let from: usize = if buf.len() > room { buf.len() - room } else { 0 };
        extend_from(&mut kept, buf.as_slice(), from);
        extend_from(&mut kept, chunk, 0);
    }
    assert(kept@ =~= tail_of(old(buf)@ + chunk@, cap as nat));
    *buf = kept;
}

} // verus!
