//! The network decoder: incremental bytes-to-text decoding bound to one
//! encoding, with malformed sequences replaced, never failing. The decoding
//! tables themselves are an outside concern, so the decoded text is given a
//! name: `decoded_text_of(encoding, bytes, end_of_stream)` is everything the
//! streaming decoder has emitted after being fed `bytes` (flushed when
//! `end_of_stream`). The decoder's byte history is carried as ghost state,
//! so each call's output is pinned as the increment of that named total.

use vstd::prelude::*;

verus! {

use crate::bom::TextEncoding;

#[verifier::external_type_specification]
#[verifier::external_body]
pub struct ExDecoder(encoding_rs::Decoder);

/// Everything a streaming decoder for `encoding` has emitted after being fed
/// `bytes`, with malformed sequences replaced; with `end_of_stream` any
/// trailing partial sequence is flushed as replacement text. The decoding
/// depends on the encoding and the bytes alone.
pub uninterp spec fn decoded_text_of(
    encoding: TextEncoding,
    bytes: Seq<u8>,
    end_of_stream: bool,
) -> Seq<char>;

/// The text one more chunk makes the decoder emit mid-stream: the new total
/// with the old total cut off the front.
pub open spec fn spec_decoded_increment(
    encoding: TextEncoding,
    fed: Seq<u8>,
    chunk: Seq<u8>,
) -> Seq<char> {
    decoded_text_of(encoding, fed + chunk, false).skip(
        decoded_text_of(encoding, fed, false).len() as int,
    )
}

/// The text flushed when the stream ends after `fed` bytes.
pub open spec fn spec_decoder_flush(encoding: TextEncoding, fed: Seq<u8>) -> Seq<char> {
    decoded_text_of(encoding, fed, true).skip(decoded_text_of(encoding, fed, false).len() as int)
}

/// Relies on encoding_rs::Encoding::new_decoder: a fresh streaming decoder
/// for the given encoding, which also recognizes a leading byte-order mark.
#[verifier::external_body]
fn new_decoder_for(encoding: &TextEncoding) -> encoding_rs::Decoder {
    match encoding {
        TextEncoding::Utf8 => encoding_rs::UTF_8.new_decoder(),
        TextEncoding::Utf16Le => encoding_rs::UTF_16LE.new_decoder(),
        TextEncoding::Utf16Be => encoding_rs::UTF_16BE.new_decoder(),
    }
}

/// Incremental bytes-to-text decoder keyed to one encoding, set at
/// construction from the document's encoding. Fed incrementally; it never
/// rereads earlier bytes once consumed. The encoding it was made with and
/// the bytes fed so far are ghost state.
pub struct NetworkDecoder {
    decoder: encoding_rs::Decoder,
    encoding: Ghost<TextEncoding>,
    fed: Ghost<Seq<u8>>,
}

impl NetworkDecoder {
    /// The encoding this decoder was constructed for.
    pub closed spec fn spec_encoding(&self) -> TextEncoding {
        self.encoding@
    }

    /// Every byte fed so far, in order.
    pub closed spec fn spec_fed(&self) -> Seq<u8> {
        self.fed@
    }

    pub fn new(encoding: &TextEncoding) -> (d: NetworkDecoder)
        ensures
            d.spec_encoding() == *encoding,
            d.spec_fed() == Seq::<u8>::empty(),
    {
        NetworkDecoder {
            decoder: new_decoder_for(encoding),
            encoding: Ghost(*encoding),
            fed: Ghost(Seq::empty()),
        }
    }

    /// Relies on encoding_rs::Decoder::decode_to_string and
    /// Decoder::max_utf8_buffer_length: with a buffer of the worst-case size
    /// reserved, one call consumes the whole chunk (the worst-case arithmetic
    /// cannot overflow for the admitted chunk lengths), replacing malformed
    /// sequences and never failing; the decoder streams, so the outputs of
    /// successive calls concatenate to the decode of the whole fed byte
    /// stream, which depends on the encoding and those bytes alone.
    #[verifier::external_body]
    fn decode_inner(&mut self, chunk: &Vec<u8>, end_of_stream: bool) -> (t: String)
        requires
            chunk@.len() <= 0x1000_0000,
        ensures
            final(self).spec_encoding() == old(self).spec_encoding(),
            final(self).spec_fed() == old(self).spec_fed() + chunk@,
            decoded_text_of(old(self).spec_encoding(), old(self).spec_fed(), false) + t@
                == decoded_text_of(
                old(self).spec_encoding(),
                old(self).spec_fed() + chunk@,
                end_of_stream,
            ),
    {
        match self.decoder.max_utf8_buffer_length(chunk.len()) {
            None => String::new(),
            Some(cap) => {
                let mut out = String::with_capacity(cap);
                let (_res, _read, _replaced) = self.decoder.decode_to_string(
                    chunk,
                    &mut out,
                    end_of_stream,
                );
                out
            },
        }
    }

    /// Feeds one chunk of bytes and returns the text it makes the decoder
    /// emit; malformed sequences are replaced, the call never fails. Text
    /// held back for an incomplete trailing sequence comes out of a later
    /// call or of `finish`.
    pub fn decode(&mut self, chunk: &Vec<u8>) -> (t: String)
        requires
            chunk@.len() <= 0x1000_0000,
        ensures
            final(self).spec_encoding() == old(self).spec_encoding(),
            final(self).spec_fed() == old(self).spec_fed() + chunk@,
            t@ == spec_decoded_increment(old(self).spec_encoding(), old(self).spec_fed(), chunk@),
    {
        let t = self.decode_inner(chunk, false);
        proof {
            let enc = old(self).spec_encoding();
            let total0 = decoded_text_of(enc, old(self).spec_fed(), false);
            let total1 = decoded_text_of(enc, old(self).spec_fed() + chunk@, false);
            assert(t@ =~= (total0 + t@).skip(total0.len() as int));
            assert(t@ =~= total1.skip(total0.len() as int));
        }
        t
    }

    /// Consumes the decoder, flushing any undecoded trailing bytes as
    /// replacement-decoded text; empty if nothing was pending.
    pub fn finish(self) -> (t: String)
        ensures
            t@ == spec_decoder_flush(self.spec_encoding(), self.spec_fed()),
    {
        let mut this = self;
        let empty: Vec<u8> = Vec::new();
        let t = this.decode_inner(&empty, true);
        proof {
            let enc = self.spec_encoding();
            assert(self.spec_fed() + empty@ =~= self.spec_fed());
            let total0 = decoded_text_of(enc, self.spec_fed(), false);
            let total1 = decoded_text_of(enc, self.spec_fed(), true);
            assert(t@ =~= (total0 + t@).skip(total0.len() as int));
            assert(t@ =~= total1.skip(total0.len() as int));
        }
        t
    }
}

} // verus!
