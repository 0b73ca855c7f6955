//! Little-endian integer encoding, and reading it back.
use vstd::prelude::*;

verus! {

/// The four little-endian bytes of `x`.
pub open spec fn le32(x: u32) -> Seq<u8> {
    seq![
        (x % 256) as u8,
        ((x / 256) % 256) as u8,
        ((x / 65536) % 256) as u8,
        (x / 16777216) as u8,
    ]
}

/// The eight little-endian bytes of `x`.
pub open spec fn le64(x: u64) -> Seq<u8> {
    le32((x % 4294967296) as u32) + le32((x / 4294967296) as u32)
}

/// The 32-bit little-endian word that starts at offset `off` of `b`.
pub open spec fn read_le32(b: Seq<u8>, off: int) -> u32 {
    (b[off] as int + 256 * b[off + 1] + 65536 * b[off + 2] + 16777216 * b[off + 3]) as u32
}

/// A sequence of words, each written as four little-endian bytes.
pub open spec fn words_le(ws: Seq<u32>) -> Seq<u8>
    decreases ws.len(),
{
    if ws.len() == 0 {
        Seq::empty()
    } else {
        words_le(ws.drop_last()) + le32(ws.last())
    }
}

/// The words that start at offset `off` of `b`, `n` of them.
pub open spec fn read_words(b: Seq<u8>, off: int, n: nat) -> Seq<u32> {
    Seq::new(n, |i: int| read_le32(b, off + 4 * i))
}

pub proof fn lemma_words_le_len(ws: Seq<u32>)
    ensures
        words_le(ws).len() == 4 * ws.len(),
    decreases ws.len(),
{
    if ws.len() > 0 {
        lemma_words_le_len(ws.drop_last());
    }
}

/// Writing two runs of words is writing their concatenation.
pub proof fn lemma_words_le_concat(a: Seq<u32>, b: Seq<u32>)
    ensures
        words_le(a + b) == words_le(a) + words_le(b),
    decreases b.len(),
{
    if b.len() == 0 {
        assert(a + b =~= a);
        assert(words_le(a) + words_le(b) =~= words_le(a));
    } else {
        lemma_words_le_concat(a, b.drop_last());
        assert((a + b).drop_last() =~= a + b.drop_last());
        assert((a + b).last() == b.last());
        assert(words_le(a + b) =~= words_le(a) + words_le(b));
    }
}

/// A word written at some offset reads back as itself there.
pub proof fn lemma_read_le32(pre: Seq<u8>, x: u32, post: Seq<u8>)
    ensures
        read_le32(pre + le32(x) + post, pre.len() as int) == x,
{
    let b = pre + le32(x) + post;
    let n = pre.len() as int;
    assert(b[n] == (x % 256) as u8);
    assert(b[n + 1] == ((x / 256) % 256) as u8);
    assert(b[n + 2] == ((x / 65536) % 256) as u8);
    assert(b[n + 3] == (x / 16777216) as u8);
    let xi = x as int;
    assert(xi % 256 + 256 * ((xi / 256) % 256) + 65536 * ((xi / 65536) % 256) + 16777216 * (xi
        / 16777216) == xi) by (nonlinear_arith)
        requires
            0 <= xi < 4294967296,
    ;
}

/// Words written one after another read back as themselves.
pub proof fn lemma_read_words(pre: Seq<u8>, ws: Seq<u32>, post: Seq<u8>)
    ensures
        read_words(pre + words_le(ws) + post, pre.len() as int, ws.len()) == ws,
    decreases ws.len(),
{
    let b = pre + words_le(ws) + post;
    if ws.len() > 0 {
        let init = ws.drop_last();
        let x = ws.last();
        lemma_words_le_len(init);
        assert(b =~= pre + words_le(init) + (le32(x) + post));
        lemma_read_words(pre, init, le32(x) + post);
        assert(b =~= (pre + words_le(init)) + le32(x) + post);
        lemma_read_le32(pre + words_le(init), x, post);
        let r = read_words(b, pre.len() as int, ws.len());
        let r0 = read_words(b, pre.len() as int, init.len());
        assert forall|i: int| 0 <= i < ws.len() implies r[i] == ws[i] by {
            if i < init.len() {
                assert(r[i] == r0[i]);
            } else {
                assert(pre.len() + 4 * i == (pre + words_le(init)).len());
            }
        }
        assert(r =~= ws);
    } else {
        assert(read_words(b, pre.len() as int, ws.len()) =~= ws);
    }
}

/// Appends the four little-endian bytes of `x`.
pub fn push_u32_le(out: &mut Vec<u8>, x: u32)
    ensures
        final(out)@ == old(out)@ + le32(x),
{
    out.push((x % 256) as u8);
    out.push(((x / 256) % 256) as u8);
    out.push(((x / 65536) % 256) as u8);
    out.push((x / 16777216) as u8);
    assert(final(out)@ =~= old(out)@ + le32(x));
}

/// Appends the eight little-endian bytes of `x`.
pub fn push_u64_le(out: &mut Vec<u8>, x: u64)
    ensures
        final(out)@ == old(out)@ + le64(x),
{
    push_u32_le(out, (x % 4294967296) as u32);
    push_u32_le(out, (x / 4294967296) as u32);
    assert(final(out)@ =~= old(out)@ + le64(x));
}

/// Appends each word of `ws` in turn.
pub fn push_words_le(out: &mut Vec<u8>, ws: &[u32])
    ensures
        final(out)@ == old(out)@ + words_le(ws@),
{
    let mut i: usize = 0;
    while i < ws.len()
        invariant
            0 <= i <= ws@.len(),
            out@ == old(out)@ + words_le(ws@.take(i as int)),
        decreases ws@.len() - i,
    {
        push_u32_le(out, ws[i]);
        assert(ws@.take(i + 1).drop_last() =~= ws@.take(i as int));
        i = i + 1;
    }
    assert(ws@.take(ws@.len() as int) =~= ws@);
}

/// Appends `data` byte by byte.
pub fn push_bytes(out: &mut Vec<u8>, data: &[u8])
    ensures
        final(out)@ == old(out)@ + data@,
{
    let mut i: usize = 0;
    while i < data.len()
        invariant
            0 <= i <= data@.len(),
            out@ == old(out)@ + data@.take(i as int),
        decreases data@.len() - i,
    {
        out.push(data[i]);
        assert(data@.take(i + 1) =~= data@.take(i as int).push(data@[i as int]));
        i = i + 1;
    }
    assert(data@.take(data@.len() as int) =~= data@);
}

} // verus!
