//! Byte-order-mark sniffing over an incrementally arriving byte stream.
//!
//! A verdict is reached at the first moment at least three bytes have been
//! seen in total; it depends only on the first three bytes of the stream,
//! never on how the stream was cut into chunks.

use vstd::prelude::*;

verus! {

/// The encodings a byte-order mark can announce.
#[derive(Clone, Copy, Debug, PartialEq, Eq, Structural)]
pub enum TextEncoding {
    Utf8,
    Utf16Le,
    Utf16Be,
}

/// The verdict drawn from the first three bytes of a stream:
/// `EF BB BF` announces UTF-8, `FF FE` UTF-16LE, `FE FF` UTF-16BE,
/// and anything else no byte-order mark at all.
pub open spec fn spec_bom_verdict(b: Seq<u8>) -> Option<TextEncoding>
    recommends
        b.len() >= 3,
{
    if b[0] == 0xef && b[1] == 0xbb && b[2] == 0xbf {
        Some(TextEncoding::Utf8)
    } else if b[0] == 0xff && b[1] == 0xfe {
        Some(TextEncoding::Utf16Le)
    } else if b[0] == 0xfe && b[1] == 0xff {
        Some(TextEncoding::Utf16Be)
    } else {
        None
    }
}

/// The verdict only reads the first three bytes, so any two streams that
/// agree on those agree on the verdict.
pub proof fn lemma_bom_verdict_depends_on_first_three(a: Seq<u8>, b: Seq<u8>)
    requires
        a.len() >= 3,
        b.len() >= 3,
        a[0] == b[0],
        a[1] == b[1],
        a[2] == b[2],
    ensures
        spec_bom_verdict(a) == spec_bom_verdict(b),
{
}

/// What a sniffer reports when fed a list of chunks in order, starting from
/// `fed` bytes already buffered: `None` while fewer than three bytes have
/// been seen in total, otherwise the verdict reached at the first chunk that
/// brings the total to three or more.
pub open spec fn spec_sniff_run(fed: Seq<u8>, chunks: Seq<Seq<u8>>) -> Option<Option<TextEncoding>>
    decreases chunks.len(),
{
    if chunks.len() == 0 {
        None
    } else if (fed + chunks[0]).len() >= 3 {
        Some(spec_bom_verdict(fed + chunks[0]))
    } else {
        spec_sniff_run(fed + chunks[0], chunks.drop_first())
    }
}

/// Byte-order-mark detection is chunk-boundary-independent: feeding a byte
/// stream of at least three bytes in any number of pieces reaches the same
/// verdict as the one drawn from the stream fed whole, namely the verdict of
/// its first three bytes.
pub proof fn lemma_bom_detection_chunk_boundary_independent(fed: Seq<u8>, chunks: Seq<Seq<u8>>)
    requires
        fed.len() < 3,
        (fed + chunks.flatten()).len() >= 3,
    ensures
        spec_sniff_run(fed, chunks) == Some(spec_bom_verdict(fed + chunks.flatten())),
    decreases chunks.len(),
{
    if chunks.len() == 0 {
        assert(chunks.flatten().len() == 0);
        assert(false);
    } else {
        assert(chunks.flatten() == chunks[0] + chunks.drop_first().flatten());
        let whole = fed + chunks.flatten();
        if (fed + chunks[0]).len() >= 3 {
            let first = fed + chunks[0];
            assert(first[0] == whole[0]);
            assert(first[1] == whole[1]);
            assert(first[2] == whole[2]);
            lemma_bom_verdict_depends_on_first_three(first, whole);
        } else {
            assert((fed + chunks[0]) + chunks.drop_first().flatten() =~= whole);
            lemma_bom_detection_chunk_boundary_independent(fed + chunks[0], chunks.drop_first());
        }
    }
}

/// Two chunkings of the same byte stream reach the same verdict.
pub proof fn lemma_bom_detection_rechunking(c1: Seq<Seq<u8>>, c2: Seq<Seq<u8>>)
    requires
        c1.flatten() == c2.flatten(),
        c1.flatten().len() >= 3,
    ensures
        spec_sniff_run(Seq::empty(), c1) == spec_sniff_run(Seq::empty(), c2),
{
    assert(Seq::<u8>::empty() + c1.flatten() =~= c1.flatten());
    assert(Seq::<u8>::empty() + c2.flatten() =~= c2.flatten());
    lemma_bom_detection_chunk_boundary_independent(Seq::empty(), c1);
    lemma_bom_detection_chunk_boundary_independent(Seq::empty(), c2);
}

/// The byte-order-mark sniffing state: the bytes seen so far, kept only
/// while fewer than three have arrived.
pub struct BomSniffer {
    partial: Vec<u8>,
}

impl BomSniffer {
    /// The bytes fed so far.
    pub closed spec fn fed(&self) -> Seq<u8> {
        self.partial@
    }

    pub open spec fn inv(&self) -> bool {
        self.fed().len() < 3
    }

    pub fn new() -> (s: BomSniffer)
        ensures
            s.fed() == Seq::<u8>::empty(),
            s.inv(),
    {
        let s = BomSniffer { partial: Vec::new() };
        s
    }

    /// Feeds one chunk. Returns `Some(verdict)` exactly when this chunk
    /// brings the total number of bytes seen to three or more; the sniffer
    /// is then spent and must be discarded. Returns `None` while the total
    /// stays under three, mirroring one step of `spec_sniff_run`.
    pub fn feed(&mut self, chunk: &Vec<u8>) -> (r: Option<Option<TextEncoding>>)
        requires
            old(self).inv(),
        ensures
            old(self).fed().len() + chunk@.len() >= 3 ==> r == Some(
                spec_bom_verdict(old(self).fed() + chunk@),
            ),
            old(self).fed().len() + chunk@.len() < 3 ==> r is None && final(self).inv()
                && final(self).fed() == old(self).fed() + chunk@,
    {
        let have = self.partial.len();
        let need = 3 - have;
        if chunk.len() >= need {
            let mut i: usize = 0;
            while i < need
                invariant
                    i <= need,
                    need == 3 - old(self).fed().len(),
                    chunk@.len() >= need,
                    self.partial@ == old(self).fed() + chunk@.take(i as int),
                decreases need - i,
            {
                let b = chunk[i];
                self.partial.push(b);
                proof {
                    assert(chunk@.take(i + 1 as int) =~= chunk@.take(i as int).push(chunk@[i as int]));
                    assert(self.partial@ =~= old(self).fed() + chunk@.take(i + 1 as int));
                }
                i = i + 1;
            }
            let b0 = self.partial[0];
            let b1 = self.partial[1];
            let b2 = self.partial[2];
            proof {
                let whole = old(self).fed() + chunk@;
                assert(self.partial@ =~= whole.take(3));
                assert(b0 == whole[0] && b1 == whole[1] && b2 == whole[2]);
            }
            let verdict: Option<TextEncoding> = if b0 == 0xef && b1 == 0xbb && b2 == 0xbf {
                Some(TextEncoding::Utf8)
            } else if b0 == 0xff && b1 == 0xfe {
                Some(TextEncoding::Utf16Le)
            } else if b0 == 0xfe && b1 == 0xff {
                Some(TextEncoding::Utf16Be)
            } else {
                None
            };
            Some(verdict)
        } else {
            let mut i: usize = 0;
            while i < chunk.len()
                invariant
                    i <= chunk@.len(),
                    chunk@.len() < 3 - old(self).fed().len(),
                    self.partial@ == old(self).fed() + chunk@.take(i as int),
                decreases chunk@.len() - i,
            {
                let b = chunk[i];
                self.partial.push(b);
                proof {
                    assert(chunk@.take(i + 1 as int) =~= chunk@.take(i as int).push(chunk@[i as int]));
                    assert(self.partial@ =~= old(self).fed() + chunk@.take(i + 1 as int));
                }
                i = i + 1;
            }
            proof {
                assert(chunk@.take(chunk@.len() as int) =~= chunk@);
            }
            None
        }
    }
}

} // verus!
