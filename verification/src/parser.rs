//! The parser orchestrator: one per document-parsing session.
//!
//! It owns three input queues (network, script, prefetch), the byte-order
//! mark sniffing state, the network decoder, and the suspension, abort and
//! script-nesting flags, and drives the feed/suspend/resume/finish protocol.
//!
//! The parser maintains two input streams: one for input from script through
//! `write`, and one for input from the network. There is no concrete
//! representation of the insertion point; it always points to just before
//! the next character from the network input, with all of the script input
//! before it:
//!
//! ```text
//!     ... script input ... | ... network input ...
//!                          ^
//!                 insertion point
//! ```
//!
//! The grammar engine itself is an outside collaborator: the caller runs
//! each feed and each script and reports the outcome through the protocol
//! functions here, whose contracts pin down every queue and flag change.

use vstd::prelude::*;

verus! {

use crate::bom::spec_bom_verdict;
use crate::bom::BomSniffer;
use crate::bom::TextEncoding;
use crate::decode::spec_decoded_increment;
use crate::decode::spec_decoder_flush;
use crate::decode::NetworkDecoder;
use crate::document::DocumentModel;
use crate::document::ReadyState;
use crate::dom::Node;
use crate::dom::NodeData;
use crate::queue::InputQueue;
use crate::sink::ParsingAlgorithm;
use crate::sink::Sink;

/// The closed set of grammar engines a parser can drive.
#[derive(Clone, Copy, Debug, PartialEq, Eq, Structural)]
pub enum TokenizerKind {
    Html,
    AsyncHtml,
    Xml,
}

/// The driver-visible state of the tokenizer: which engine it is, the
/// source URL it reports, whether end-of-stream was signalled, and whether
/// raw-text lexing was forced. The grammar work itself happens in the
/// engine outside this crate.
pub struct Tokenizer {
    pub kind: TokenizerKind,
    pub url: String,
    pub ended: bool,
    pub plaintext_state: bool,
}

impl Tokenizer {
    pub fn new(kind: TokenizerKind, url: String) -> (t: Tokenizer)
        ensures
            t.kind == kind,
            t.url == url,
            !t.ended,
            !t.plaintext_state,
    {
        Tokenizer { kind, url, ended: false, plaintext_state: false }
    }

    /// Signals permanent end-of-stream to the grammar engine.
    pub fn end(&mut self)
        ensures
            *final(self) == (Tokenizer { ended: true, ..*old(self) }),
    {
        self.ended = true;
    }

    /// The source URL this tokenizer reports.
    pub fn url(&self) -> (u: &String)
        ensures
            u == &self.url,
    {
        &self.url
    }

    /// Forces raw-text lexing for the remainder of the stream. The XML
    /// engine has no such mode: calling this on it is a programming error.
    pub fn set_plaintext_state(&mut self)
        requires
            old(self).kind != TokenizerKind::Xml,
        ensures
            *final(self) == (Tokenizer { plaintext_state: true, ..*old(self) }),
    {
        self.plaintext_state = true;
    }
}

/// What the grammar engine reported when fed.
#[derive(Clone, Copy, Debug, PartialEq, Eq, Structural)]
pub enum TokenizerResult {
    Done,
    Script(usize),
}

/// What the driver must do after a script finished preparing.
#[derive(Clone, Copy, Debug, PartialEq, Eq, Structural)]
pub enum AfterScript {
    KeepFeeding,
    Suspended,
    Aborted,
}

/// What `write` decided.
pub enum WriteAction {
    /// A blocking script is pending: the text was appended to the script
    /// input, nothing else happens.
    Buffered,
    /// Feed this buffer to the tokenizer now.
    FeedNow(InputQueue),
}

/// A fragment-parsing session: a throwaway document, its parser and its
/// tree-construction adapter. The context document is never touched.
pub struct FragmentContext {
    pub context_elem: usize,
    pub form_elem: Option<usize>,
}

pub struct FragmentSession {
    pub document: DocumentModel,
    pub parser: ServoParser,
    pub sink: Sink,
}

/// The orchestrator.
pub struct ServoParser {
    pub tokenizer: Tokenizer,
    /// The byte-order-mark sniffing state; `None` once a verdict was
    /// reached, or when the source is known to be already-decoded text.
    pub bom_sniff: Option<BomSniffer>,
    /// The decoder for network byte input; `None` once end-of-stream
    /// decoding was finalized.
    pub network_decoder: Option<NetworkDecoder>,
    /// Input received from the network.
    pub network_input: InputQueue,
    /// Input received from script, to support `write`.
    pub script_input: InputQueue,
    /// Raw chunks forked to the speculative prefetch scanner.
    pub prefetch_input: InputQueue,
    /// Whether any further input is expected from the network.
    pub last_chunk_received: bool,
    /// Whether the parser waits for a parser-blocking script.
    pub suspended: bool,
    pub script_nesting_level: usize,
    pub aborted: bool,
    pub script_created_parser: bool,
    /// Whether the grammar engine is being fed right now.
    pub in_feed: bool,
}

impl ServoParser {
    /// The byte-order-mark sniffer, when present, has seen under three
    /// bytes.
    pub open spec fn wf(&self) -> bool {
        self.bom_sniff matches Some(s) ==> s.inv()
    }

    pub fn new(
        kind: TokenizerKind,
        url: String,
        last_chunk_received: bool,
        script_created_parser: bool,
        encoding: &TextEncoding,
    ) -> (p: ServoParser)
        ensures
            p.wf(),
            p.tokenizer.kind == kind,
            p.tokenizer.url == url,
            !p.tokenizer.ended,
            !p.tokenizer.plaintext_state,
            p.bom_sniff matches Some(s) && s.fed() == Seq::<u8>::empty(),
            (p.network_decoder matches Some(d) && d.spec_encoding() == *encoding && d.spec_fed()
                == Seq::<u8>::empty()),
            p.network_input@ == Seq::<Seq<char>>::empty(),
            p.script_input@ == Seq::<Seq<char>>::empty(),
            p.prefetch_input@ == Seq::<Seq<char>>::empty(),
            p.last_chunk_received == last_chunk_received,
            !p.suspended,
            p.script_nesting_level == 0,
            !p.aborted,
            p.script_created_parser == script_created_parser,
            !p.in_feed,
    {
        ServoParser {
            tokenizer: Tokenizer::new(kind, url),
            bom_sniff: Some(BomSniffer::new()),
            network_decoder: Some(NetworkDecoder::new(encoding)),
            network_input: InputQueue::new(),
            script_input: InputQueue::new(),
            prefetch_input: InputQueue::new(),
            last_chunk_received,
            suspended: false,
            script_nesting_level: 0,
            aborted: false,
            script_created_parser,
            in_feed: false,
        }
    }

    pub fn script_nesting_level(&self) -> (n: usize)
        ensures
            n == self.script_nesting_level,
    {
        self.script_nesting_level
    }

    pub fn is_script_created(&self) -> (r: bool)
        ensures
            r == self.script_created_parser,
    {
        self.script_created_parser
    }

    /// Writing is permitted for a script-created parser, or from inside a
    /// script the parser itself is running.
    pub open spec fn spec_can_write(&self) -> bool {
        self.script_created_parser || self.script_nesting_level > 0
    }

    pub fn can_write(&self) -> (r: bool)
        ensures
            r == self.spec_can_write(),
    {
        self.script_created_parser || self.script_nesting_level > 0
    }

    /// An active parser is one running a script and not aborted.
    pub fn is_active(&self) -> (r: bool)
        ensures
            r == (self.script_nesting_level > 0 && !self.aborted),
    {
        self.script_nesting_level > 0 && !self.aborted
    }

    /// The parser is not in the middle of feeding the tokenizer, or may be
    /// written to anyway.
    pub fn parser_is_not_active(&self) -> (r: bool)
        ensures
            r == (self.spec_can_write() || !self.in_feed),
    {
        self.can_write() || !self.in_feed
    }

    /// Pushes one chunk of already-decoded text: forked to the prefetch
    /// input when the document has a browsing context, then queued as
    /// network input. Empty chunks are dropped.
    fn push_text_input_chunk(&mut self, doc: &DocumentModel, chunk: String)
        ensures
            chunk@.len() == 0 ==> *final(self) == *old(self),
            chunk@.len() > 0 ==> {
                &&& final(self).network_input@ == old(self).network_input@.push(chunk@)
                &&& final(self).prefetch_input@ == (if doc.has_browsing_context {
                    old(self).prefetch_input@.push(chunk@)
                } else {
                    old(self).prefetch_input@
                })
                &&& *final(self) == (ServoParser {
                    network_input: final(self).network_input,
                    prefetch_input: final(self).prefetch_input,
                    ..*old(self)
                })
            },
    {
        if chunk.as_str().unicode_len() == 0 {
            return ;
        }
        if doc.has_browsing_context {
            let copy = chunk.clone();
            self.prefetch_input.push_back(copy);
        }
        self.network_input.push_back(chunk);
    }

    /// Pushes one chunk of string input: string input carries no byte-order
    /// mark, so sniffing ends.
    pub fn push_string_input_chunk(&mut self, doc: &DocumentModel, chunk: String)
        ensures
            final(self).bom_sniff is None,
            final(self).wf(),
            chunk@.len() == 0 ==> *final(self) == (ServoParser {
                bom_sniff: None,
                ..*old(self)
            }),
            chunk@.len() > 0 ==> {
                &&& final(self).network_input@ == old(self).network_input@.push(chunk@)
                &&& final(self).prefetch_input@ == (if doc.has_browsing_context {
                    old(self).prefetch_input@.push(chunk@)
                } else {
                    old(self).prefetch_input@
                })
                &&& *final(self) == (ServoParser {
                    bom_sniff: None,
                    network_input: final(self).network_input,
                    prefetch_input: final(self).prefetch_input,
                    ..*old(self)
                })
            },
    {
        self.bom_sniff = None;
        self.push_text_input_chunk(doc, chunk);
    }

    /// Pushes one chunk of network bytes: sniffs the byte-order mark (the
    /// verdict, once reached, sets the document's encoding), decodes the
    /// bytes, and queues whatever text came out.
    /// Exactly how one chunk of network bytes changes the parser and the
    /// document: the byte-order-mark state advances (a verdict, once
    /// reached, sets the document's encoding), the decoder's byte history
    /// grows by the chunk, and the text this chunk decodes to — the named
    /// increment of the decoder's output — is queued as network input and
    /// forked to the prefetch input when the document has a browsing
    /// context. Nothing else changes. Meaningful only while the parser
    /// still holds its decoder.
    pub open spec fn spec_bytes_pushed(
        p0: ServoParser,
        p1: ServoParser,
        d0: DocumentModel,
        d1: DocumentModel,
        chunk: Seq<u8>,
    ) -> bool {
        let dec0 = p0.network_decoder.unwrap();
        let t = spec_decoded_increment(dec0.spec_encoding(), dec0.spec_fed(), chunk);
        &&& (match p0.bom_sniff {
            Some(s) => {
                if s.fed().len() + chunk.len() >= 3 {
                    &&& p1.bom_sniff is None
                    &&& d1 == (DocumentModel {
                        encoding: (match spec_bom_verdict(s.fed() + chunk) {
                            Some(e) => e,
                            None => d0.encoding,
                        }),
                        ..d0
                    })
                } else {
                    &&& p1.bom_sniff matches Some(s2) && s2.fed() == s.fed() + chunk
                    &&& d1 == d0
                }
            },
            None => p1.bom_sniff is None && d1 == d0,
        })
        &&& (p1.network_decoder matches Some(dec1) && dec1.spec_encoding() == dec0.spec_encoding()
            && dec1.spec_fed() == dec0.spec_fed() + chunk)
        &&& (t.len() > 0 ==> p1.network_input@ == p0.network_input@.push(t) && p1.prefetch_input@
            == (if d0.has_browsing_context {
            p0.prefetch_input@.push(t)
        } else {
            p0.prefetch_input@
        }))
        &&& (t.len() == 0 ==> p1.network_input@ == p0.network_input@ && p1.prefetch_input@
            == p0.prefetch_input@)
        &&& p1 == (ServoParser {
            bom_sniff: p1.bom_sniff,
            network_decoder: p1.network_decoder,
            network_input: p1.network_input,
            prefetch_input: p1.prefetch_input,
            ..p0
        })
    }

    #[verifier::rlimit(60)]
    pub fn push_bytes_input_chunk(&mut self, doc: &mut DocumentModel, chunk: Vec<u8>)
        requires
            old(self).wf(),
            old(self).network_decoder is Some,
            chunk@.len() <= 0x1000_0000,
        ensures
            final(self).wf(),
            Self::spec_bytes_pushed(*old(self), *final(self), *old(doc), *final(doc), chunk@),
    {
        let verdict_ready = match &mut self.bom_sniff {
            Some(sniffer) => sniffer.feed(&chunk),
            None => None,
        };
        match verdict_ready {
            Some(verdict) => {
                self.bom_sniff = None;
                match verdict {
                    Some(encoding) => {
                        doc.set_encoding(encoding);
                    },
                    None => {},
                }
            },
            None => {},
        }
        let text = match &mut self.network_decoder {
            Some(decoder) => decoder.decode(&chunk),
            None => vstd::pervasive::unreached(),
        };
        if text.as_str().unicode_len() > 0 {
            if doc.has_browsing_context {
                let copy = text.clone();
                self.prefetch_input.push_back(copy);
            }
            self.network_input.push_back(text);
        }
    }

    /// Hands the whole prefetch input to the speculative scanner's driver.
    pub fn take_prefetch_input(&mut self) -> (q: InputQueue)
        ensures
            q@ == old(self).prefetch_input@,
            *final(self) == (ServoParser { prefetch_input: final(self).prefetch_input, ..*old(self) }),
            final(self).prefetch_input@ == Seq::<Seq<char>>::empty(),
    {
        self.prefetch_input.take_all()
    }

    /// Starts a synchronous parse drive: if end-of-stream was already
    /// signalled, finalizes the decoder first, appending any flushed
    /// trailing text to the network input. The drive must not start while
    /// suspended or aborted, nor with script input pending.
    pub fn parse_sync_start(&mut self)
        requires
            old(self).script_input@.len() == 0,
            !old(self).suspended,
            !old(self).aborted,
            !old(self).in_feed,
        ensures
            final(self).last_chunk_received ==> final(self).network_decoder is None,
            !old(self).last_chunk_received ==> *final(self) == *old(self),
            old(self).last_chunk_received && old(self).network_decoder is None ==> *final(self)
                == *old(self),
            old(self).last_chunk_received && old(self).network_decoder is Some ==> {
                let dec = old(self).network_decoder.unwrap();
                let flush = spec_decoder_flush(dec.spec_encoding(), dec.spec_fed());
                &&& *final(self) == (ServoParser {
                    network_decoder: None,
                    network_input: final(self).network_input,
                    ..*old(self)
                })
                &&& (flush.len() > 0 ==> final(self).network_input@ == old(
                    self,
                ).network_input@.push(flush))
                &&& (flush.len() == 0 ==> final(self).network_input@ == old(self).network_input@)
            },
    {
        if self.last_chunk_received {
            let decoder = self.network_decoder.take();
            match decoder {
                Some(d) => {
                    let chunk = d.finish();
                    if chunk.as_str().unicode_len() > 0 {
                        self.network_input.push_back(chunk);
                    }
                },
                None => {},
            }
        }
    }

    /// Lends the network input out for one feed of the grammar engine.
    pub fn begin_network_feed(&mut self) -> (q: InputQueue)
        requires
            !old(self).suspended,
            !old(self).aborted,
            !old(self).in_feed,
        ensures
            q@ == old(self).network_input@,
            final(self).network_input@ == Seq::<Seq<char>>::empty(),
            final(self).in_feed,
            *final(self) == (ServoParser {
                network_input: final(self).network_input,
                in_feed: true,
                ..*old(self)
            }),
    {
        self.in_feed = true;
        self.network_input.take_all()
    }

    /// The engine stopped at a just-parsed script: the unconsumed input
    /// comes back, and the script will be prepared at one deeper nesting
    /// level. Returns whether a microtask checkpoint must be performed
    /// first, which is exactly when no script is currently executing.
    pub fn network_feed_script(&mut self, doc: &DocumentModel, leftover: InputQueue) -> (checkpoint:
        bool)
        requires
            old(self).in_feed,
            old(self).script_nesting_level < usize::MAX,
        ensures
            checkpoint == doc.execution_stack_empty,
            final(self).network_input@ == leftover@,
            *final(self) == (ServoParser {
                network_input: final(self).network_input,
                in_feed: false,
                script_nesting_level: (old(self).script_nesting_level + 1) as usize,
                ..*old(self)
            }),
    {
        let mut back = leftover;
        core::mem::swap(&mut self.network_input, &mut back);
        self.in_feed = false;
        self.script_nesting_level = self.script_nesting_level + 1;
        doc.execution_stack_empty
    }

    /// The engine exhausted the network input. If end-of-stream was already
    /// signalled, the parse finishes: the document becomes interactive, the
    /// tokenizer ends, the parser detaches, and the document's
    /// load-completion collaborator is notified with the parsed URL, which
    /// is also returned.
    pub fn network_feed_done(&mut self, doc: &mut DocumentModel, leftover: InputQueue) -> (finished:
        Option<String>)
        requires
            old(self).in_feed,
            !old(self).suspended,
            !old(self).aborted,
            leftover@.len() == 0,
            old(self).script_input@.len() == 0,
            old(self).last_chunk_received ==> old(self).network_decoder is None,
        ensures
            final(self).network_input@ == Seq::<Seq<char>>::empty(),
            !old(self).last_chunk_received ==> {
                &&& finished is None
                &&& *final(doc) == *old(doc)
                &&& *final(self) == (ServoParser {
                    network_input: final(self).network_input,
                    in_feed: false,
                    ..*old(self)
                })
            },
            old(self).last_chunk_received ==> {
                &&& finished matches Some(u) && u == old(self).tokenizer.url
                &&& *final(self) == (ServoParser {
                    network_input: final(self).network_input,
                    in_feed: false,
                    tokenizer: (Tokenizer { ended: true, ..old(self).tokenizer }),
                    ..*old(self)
                })
                &&& *final(doc) == (DocumentModel {
                    ready_state: ReadyState::Interactive,
                    has_current_parser: false,
                    finished_load: Some(old(self).tokenizer.url),
                    ..*old(doc)
                })
            },
    {
        let mut back = leftover;
        core::mem::swap(&mut self.network_input, &mut back);
        self.in_feed = false;
        proof {
            assert(self.network_input@ =~= Seq::<Seq<char>>::empty());
        }
        if self.last_chunk_received {
            doc.set_ready_state(ReadyState::Interactive);
            self.tokenizer.end();
            doc.set_current_parser(false);
            let url = self.tokenizer.url().clone();
            doc.finish_load(url);
            Some(self.tokenizer.url().clone())
        } else {
            None
        }
    }

    /// A script finished preparing: the nesting level drops back. If the
    /// script turned out parser-blocking, the parser suspends; if the parse
    /// was aborted meanwhile, the drive stops; otherwise feeding continues.
    pub fn script_prepared(&mut self, doc: &DocumentModel) -> (step: AfterScript)
        requires
            old(self).script_nesting_level >= 1,
            !old(self).in_feed,
            !old(self).suspended,
        ensures
            final(self).script_nesting_level == old(self).script_nesting_level - 1,
            doc.pending_parsing_blocking_script ==> step == AfterScript::Suspended && *final(self)
                == (ServoParser {
                script_nesting_level: final(self).script_nesting_level,
                suspended: true,
                ..*old(self)
            }),
            !doc.pending_parsing_blocking_script ==> *final(self) == (ServoParser {
                script_nesting_level: final(self).script_nesting_level,
                ..*old(self)
            }) && step == (if old(self).aborted {
                AfterScript::Aborted
            } else {
                AfterScript::KeepFeeding
            }),
    {
        self.script_nesting_level = self.script_nesting_level - 1;
        if doc.pending_parsing_blocking_script {
            self.suspended = true;
            return AfterScript::Suspended;
        }
        if self.aborted {
            return AfterScript::Aborted;
        }
        AfterScript::KeepFeeding
    }

    /// Marks the engine as being fed again, for a `write` drive resuming
    /// after a script.
    pub fn resume_feed(&mut self)
        requires
            !old(self).in_feed,
            !old(self).suspended,
            !old(self).aborted,
        ensures
            *final(self) == (ServoParser { in_feed: true, ..*old(self) }),
    {
        self.in_feed = true;
    }

    /// `write`: permitted only when `can_write` holds. If a parser-blocking
    /// script is already pending, the text is appended verbatim to the
    /// script input and nothing else happens, preserving its order against
    /// not-yet-resumed input. Otherwise the text is handed back as a
    /// temporary buffer to feed the tokenizer directly.
    pub fn write(&mut self, doc: &DocumentModel, text: Vec<String>) -> (action: WriteAction)
        requires
            old(self).spec_can_write(),
            !doc.pending_parsing_blocking_script ==> old(self).script_input@.len() == 0 && !old(
                self,
            ).suspended && !old(self).aborted && !old(self).in_feed,
        ensures
            doc.pending_parsing_blocking_script ==> action is Buffered && final(self).script_input@
                == old(self).script_input@ + text@.map_values(|s: String| s@) && *final(self)
                == (ServoParser { script_input: final(self).script_input, ..*old(self) }),
            !doc.pending_parsing_blocking_script ==> (action matches WriteAction::FeedNow(q) && q@
                == text@.map_values(|s: String| s@) && *final(self) == (ServoParser {
                in_feed: true,
                ..*old(self)
            })),
    {
        let ghost views = text@.map_values(|s: String| s@);
        let mut rest = text;
        if doc.pending_parsing_blocking_script {
            let ghost base = self.script_input@;
            let total = rest.len();
            let mut k: usize = 0;
            while rest.len() > 0
                invariant
                    total == views.len(),
                    k + rest@.len() == views.len(),
                    views == text@.map_values(|s: String| s@),
                    forall|j: int| 0 <= j < rest@.len() ==> rest@[j] == text@[k + j],
                    self.script_input@ == base + views.take(k as int),
                    *self == (ServoParser { script_input: self.script_input, ..*old(self) }),
                decreases rest@.len(),
            {
                let chunk = rest.remove(0);
                proof {
                    assert(chunk == text@[k as int]);
                }
                self.script_input.push_back(chunk);
                proof {
                    assert(views.take(k + 1 as int) =~= views.take(k as int).push(
                        views[k as int],
                    ));
                    assert(self.script_input@ =~= base + views.take(k + 1 as int));
                }
                k = k + 1;
            }
            proof {
                assert(views.take(k as int) =~= views);
            }
            return WriteAction::Buffered;
        }
        let mut input = InputQueue::new();
        let total = rest.len();
        let mut k: usize = 0;
        while rest.len() > 0
            invariant
                total == views.len(),
                k + rest@.len() == views.len(),
                views == text@.map_values(|s: String| s@),
                forall|j: int| 0 <= j < rest@.len() ==> rest@[j] == text@[k + j],
                input@ == views.take(k as int),
                *self == *old(self),
            decreases rest@.len(),
        {
            let chunk = rest.remove(0);
            proof {
                assert(chunk == text@[k as int]);
            }
            input.push_back(chunk);
            proof {
                assert(views.take(k + 1 as int) =~= views.take(k as int).push(views[k as int]));
                assert(input@ =~= views.take(k + 1 as int));
            }
            k = k + 1;
        }
        proof {
            assert(views.take(k as int) =~= views);
        }
        self.in_feed = true;
        WriteAction::FeedNow(input)
    }

    /// A script finished during a `write` feed: nesting deepens, as in
    /// `network_feed_script`; the temporary buffer stays with the driver.
    pub fn write_feed_script(&mut self, doc: &DocumentModel) -> (checkpoint: bool)
        requires
            old(self).in_feed,
            old(self).script_nesting_level < usize::MAX,
        ensures
            checkpoint == doc.execution_stack_empty,
            *final(self) == (ServoParser {
                in_feed: false,
                script_nesting_level: (old(self).script_nesting_level + 1) as usize,
                ..*old(self)
            }),
    {
        self.in_feed = false;
        self.script_nesting_level = self.script_nesting_level + 1;
        doc.execution_stack_empty
    }

    /// A `write` feed consumed its whole buffer without suspending.
    pub fn write_feed_done(&mut self, leftover: InputQueue)
        requires
            old(self).in_feed,
            !old(self).suspended,
            leftover@.len() == 0,
        ensures
            *final(self) == (ServoParser { in_feed: false, ..*old(self) }),
    {
        let _ = leftover;
        self.in_feed = false;
    }

    /// The parser suspended during a `write`: the remaining input moves to
    /// the end of the script input, after anything written reentrantly
    /// during this same call.
    pub fn write_feed_suspended(&mut self, leftover: InputQueue)
        requires
            !old(self).in_feed,
            old(self).suspended,
        ensures
            final(self).script_input@ == old(self).script_input@ + leftover@,
            *final(self) == (ServoParser {
                script_input: final(self).script_input,
                ..*old(self)
            }),
    {
        self.script_input.append_all(leftover);
    }

    /// End of `close`: only a script-created parser may be closed. Marks
    /// end-of-stream; returns whether a synchronous parse drive must run
    /// now, which it must unless the parser is suspended.
    pub fn close(&mut self) -> (drive: bool)
        requires
            old(self).script_created_parser,
        ensures
            drive == !old(self).suspended,
            *final(self) == (ServoParser { last_chunk_received: true, ..*old(self) }),
    {
        self.last_chunk_received = true;
        !self.suspended
    }

    /// Aborts the parse: clears both input queues, drives the document's
    /// readiness through interactive to complete, ends the tokenizer and
    /// detaches the parser. Aborting twice is a programming error.
    pub fn abort(&mut self, doc: &mut DocumentModel)
        requires
            !old(self).aborted,
        ensures
            final(self).aborted,
            final(self).script_input@ == Seq::<Seq<char>>::empty(),
            final(self).network_input@ == Seq::<Seq<char>>::empty(),
            final(self).tokenizer == (Tokenizer { ended: true, ..old(self).tokenizer }),
            *final(self) == (ServoParser {
                aborted: true,
                script_input: final(self).script_input,
                network_input: final(self).network_input,
                tokenizer: final(self).tokenizer,
                ..*old(self)
            }),
            *final(doc) == (DocumentModel {
                ready_state: ReadyState::Complete,
                has_current_parser: false,
                ..*old(doc)
            }),
    {
        self.aborted = true;
        self.script_input.clear();
        self.network_input.clear();
        doc.set_ready_state(ReadyState::Interactive);
        self.tokenizer.end();
        doc.set_current_parser(false);
        doc.set_ready_state(ReadyState::Complete);
    }

    /// A parser-blocking script finished: moves everything from the script
    /// input to the beginning of the network input, resetting the insertion
    /// point to just before the next character to be consumed, and deepens
    /// the nesting level from its required zero base so the script can be
    /// executed. The parser must currently be suspended.
    pub fn resume_with_pending_parsing_blocking_script(&mut self)
        requires
            old(self).suspended,
            old(self).script_nesting_level == 0,
            !old(self).in_feed,
        ensures
            final(self).network_input@ == old(self).script_input@ + old(self).network_input@,
            final(self).script_input@ == Seq::<Seq<char>>::empty(),
            *final(self) == (ServoParser {
                suspended: false,
                script_nesting_level: 1,
                script_input: final(self).script_input,
                network_input: final(self).network_input,
                ..*old(self)
            }),
    {
        self.suspended = false;
        let mut merged = self.script_input.take_all();
        let rest = self.network_input.take_all();
        merged.append_all(rest);
        self.network_input.append_all(merged);
        self.script_nesting_level = 1;
    }

    /// The blocking script was executed: the nesting level returns to zero;
    /// parsing resumes synchronously unless a new suspension occurred.
    pub fn resume_script_executed(&mut self) -> (drive: bool)
        requires
            old(self).script_nesting_level == 1,
        ensures
            drive == !old(self).suspended,
            *final(self) == (ServoParser { script_nesting_level: 0, ..*old(self) }),
    {
        self.script_nesting_level = 0;
        !self.suspended
    }

    /// Becomes the document's current parser, pushes one string chunk, and
    /// says whether to drive a synchronous parse now.
    pub fn parse_string_chunk(&mut self, doc: &mut DocumentModel, input: String) -> (drive: bool)
        ensures
            final(doc).has_current_parser,
            *final(doc) == (DocumentModel { has_current_parser: true, ..*old(doc) }),
            drive == !final(self).suspended,
            final(self).bom_sniff is None,
            final(self).wf(),
            *final(self) == (ServoParser {
                bom_sniff: None,
                network_input: final(self).network_input,
                prefetch_input: final(self).prefetch_input,
                ..*old(self)
            }),
            input@.len() > 0 ==> {
                &&& final(self).network_input@ == old(self).network_input@.push(input@)
                &&& final(self).prefetch_input@ == (if old(doc).has_browsing_context {
                    old(self).prefetch_input@.push(input@)
                } else {
                    old(self).prefetch_input@
                })
            },
            input@.len() == 0 ==> {
                &&& final(self).network_input@ == old(self).network_input@
                &&& final(self).prefetch_input@ == old(self).prefetch_input@
            },
    {
        doc.set_current_parser(true);
        self.push_string_input_chunk(doc, input);
        !self.suspended
    }

    /// Becomes the document's current parser, pushes one byte chunk, and
    /// says whether to drive a synchronous parse now.
    pub fn parse_bytes_chunk(&mut self, doc: &mut DocumentModel, input: Vec<u8>) -> (drive: bool)
        requires
            old(self).wf(),
            old(self).network_decoder is Some,
            input@.len() <= 0x1000_0000,
        ensures
            final(doc).has_current_parser,
            drive == !final(self).suspended,
            final(self).wf(),
            Self::spec_bytes_pushed(
                *old(self),
                *final(self),
                (DocumentModel { has_current_parser: true, ..*old(doc) }),
                *final(doc),
                input@,
            ),
    {
        doc.set_current_parser(true);
        self.push_bytes_input_chunk(doc, input);
        !self.suspended
    }
}

impl ServoParser {
    /// Creates a parser for a network-originated HTML document and becomes the
    /// document's current parser; when literal initial markup is given, it is
    /// pushed and the caller must drive a synchronous parse before the document
    /// notices the parser.
    pub fn parse_html_document(
        doc: &mut DocumentModel,
        input: Option<String>,
        url: String,
        async_tokenizer: bool,
    ) -> (r: (ServoParser, bool))
        ensures
            r.0.wf(),
            r.0.tokenizer.kind == (if async_tokenizer {
                TokenizerKind::AsyncHtml
            } else {
                TokenizerKind::Html
            }),
            r.0.tokenizer.url == url,
            !r.0.script_created_parser,
            !r.0.last_chunk_received,
            !r.0.suspended,
            !r.0.aborted,
            final(doc).has_current_parser,
            *final(doc) == (DocumentModel { has_current_parser: true, ..*old(doc) }),
            input is None ==> r.1 == false && r.0.network_input@ == Seq::<Seq<char>>::empty(),
            input matches Some(text) ==> {
                &&& r.1 == true
                &&& r.0.bom_sniff is None
                &&& (text@.len() > 0 ==> r.0.network_input@ == Seq::<Seq<char>>::empty().push(
                    text@,
                ) && r.0.prefetch_input@ == (if old(doc).has_browsing_context {
                    Seq::<Seq<char>>::empty().push(text@)
                } else {
                    Seq::<Seq<char>>::empty()
                }))
                &&& (text@.len() == 0 ==> r.0.network_input@ == Seq::<Seq<char>>::empty()
                    && r.0.prefetch_input@ == Seq::<Seq<char>>::empty())
            },
            r.0.script_input@ == Seq::<Seq<char>>::empty(),
            r.0.script_nesting_level == 0,
            !r.0.in_feed,
            (r.0.network_decoder matches Some(d) && d.spec_encoding() == old(doc).encoding
                && d.spec_fed() == Seq::<u8>::empty()),
    {
        let kind = if async_tokenizer {
            TokenizerKind::AsyncHtml
        } else {
            TokenizerKind::Html
        };
        let mut parser = ServoParser::new(kind, url, false, false, &doc.encoding);
        match input {
            Some(text) => {
                let drive = parser.parse_string_chunk(doc, text);
                (parser, drive)
            },
            None => {
                doc.set_current_parser(true);
                (parser, false)
            },
        }
    }

    /// Creates the parser for a script-synthesized source: writing starts with
    /// `write`, so there is no byte stream and no byte-order mark.
    pub fn parse_html_script_input(doc: &mut DocumentModel, url: String) -> (parser: ServoParser)
        ensures
            parser.wf(),
            parser.bom_sniff is None,
            parser.script_created_parser,
            !parser.last_chunk_received,
            !parser.suspended,
            !parser.aborted,
            parser.script_input@ == Seq::<Seq<char>>::empty(),
            parser.network_input@ == Seq::<Seq<char>>::empty(),
            parser.prefetch_input@ == Seq::<Seq<char>>::empty(),
            parser.script_nesting_level == 0,
            !parser.in_feed,
            parser.network_decoder is Some,
            parser.tokenizer.kind == TokenizerKind::Html,
            parser.tokenizer.url == url,
            !parser.tokenizer.ended,
            !parser.tokenizer.plaintext_state,
            *final(doc) == (DocumentModel { has_current_parser: true, ..*old(doc) }),
    {
        let mut parser = ServoParser::new(TokenizerKind::Html, url, false, true, &doc.encoding);
        parser.bom_sniff = None;
        doc.set_current_parser(true);
        parser
    }

    /// Creates a parser for a network-originated XML document.
    pub fn parse_xml_document(doc: &mut DocumentModel, input: Option<String>, url: String) -> (r: (
        ServoParser,
        bool,
    ))
        ensures
            r.0.wf(),
            r.0.tokenizer.kind == TokenizerKind::Xml,
            r.0.tokenizer.url == url,
            !r.0.script_created_parser,
            !r.0.last_chunk_received,
            !r.0.suspended,
            !r.0.aborted,
            !r.0.in_feed,
            r.0.script_nesting_level == 0,
            r.0.script_input@ == Seq::<Seq<char>>::empty(),
            final(doc).has_current_parser,
            *final(doc) == (DocumentModel { has_current_parser: true, ..*old(doc) }),
            input is None ==> r.1 == false && r.0.network_input@ == Seq::<Seq<char>>::empty(),
            input matches Some(text) ==> {
                &&& r.1 == true
                &&& r.0.bom_sniff is None
                &&& (text@.len() > 0 ==> r.0.network_input@ == Seq::<Seq<char>>::empty().push(
                    text@,
                ))
                &&& (text@.len() == 0 ==> r.0.network_input@ == Seq::<Seq<char>>::empty())
            },
    {
        let mut parser = ServoParser::new(TokenizerKind::Xml, url, false, false, &doc.encoding);
        match input {
            Some(text) => {
                let drive = parser.parse_string_chunk(doc, text);
                (parser, drive)
            },
            None => {
                doc.set_current_parser(true);
                (parser, false)
            },
        }
    }

    /// Begins parsing fragment input against a context element: a throwaway
    /// document is created with the context document's quirks mode, and a
    /// fragment parser over it. The context document is only read, never
    /// mutated; the caller drives the parse to completion and then collects the
    /// result with `finish_html_fragment`.
    pub fn parse_html_fragment(
        context_doc: &DocumentModel,
        context: FragmentContext,
        input: String,
        url: String,
    ) -> (session: FragmentSession)
        ensures
            session.document.tree.wf(),
            session.document.quirks_mode == context_doc.quirks_mode,
            session.document.has_current_parser,
            session.parser.wf(),
            session.parser.last_chunk_received,
            !session.parser.suspended,
            !session.parser.aborted,
            !session.parser.in_feed,
            session.parser.script_input@ == Seq::<Seq<char>>::empty(),
            input@.len() > 0 ==> session.parser.network_input@ == Seq::<Seq<
                char,
            >>::empty().push(input@),
            input@.len() == 0 ==> session.parser.network_input@ == Seq::<Seq<char>>::empty(),
            session.sink.parsing_algorithm == ParsingAlgorithm::Fragment,
    {
        let _ = context;
        let mut document = DocumentModel::new(false);
        document.set_quirks_mode(context_doc.quirks_mode);
        let mut parser = ServoParser::new(
            TokenizerKind::Html,
            url,
            true,
            false,
            &document.encoding,
        );
        let sink = Sink::new(parser.tokenizer.url().clone(), ParsingAlgorithm::Fragment);
        parser.parse_string_chunk(&mut document, input);
        FragmentSession { document, parser, sink }
    }
}

/// Ends a fragment-parsing session: yields the parsed fragment's top-level
/// children in document order, each already detached from the throwaway
/// document, which is returned alongside them. The session's document must
/// hold a root element (the parse was driven to completion).
pub fn finish_html_fragment(session: FragmentSession) -> (r: (Vec<usize>, DocumentModel))
    requires
        session.document.tree.wf(),
        spec_document_element(session.document.tree@) is Some,
    ensures
        r.1.tree.wf(),
        r.0@ == session.document.tree@[spec_document_element(
            session.document.tree@,
        ).unwrap() as int].children@,
        forall|k: int|
            0 <= k < r.0@.len() ==> r.0@[k] < r.1.tree@.len() && r.1.tree@[r.0@[k] as int].parent
                is None,
    {
    let ghost whole = session;
    let mut doc = session.document;
    let ghost orig = doc.tree@[spec_document_element(doc.tree@).unwrap() as int].children@;
    proof {
        assert(orig == whole.document.tree@[spec_document_element(
            whole.document.tree@,
        ).unwrap() as int].children@);
    }
    let root = match find_document_element(&doc) {
        Some(r) => r,
        None => vstd::pervasive::unreached(),
    };
    let mut out: Vec<usize> = Vec::new();
    loop
        invariant
            doc.tree.wf(),
            root < doc.tree@.len(),
            out@ + doc.tree@[root as int].children@ == orig,
            orig == whole.document.tree@[spec_document_element(
                whole.document.tree@,
            ).unwrap() as int].children@,
            whole == session,
            forall|k: int|
                0 <= k < out@.len() ==> out@[k] < doc.tree@.len()
                    && doc.tree@[out@[k] as int].parent is None,
        decreases doc.tree@[root as int].children@.len(),
    {
        let first: Option<usize> = if doc.tree.node(root).children.len() == 0 {
            None
        } else {
            Some(doc.tree.node(root).children[0])
        };
        match first {
            None => {
                proof {
                    assert(out@ =~= orig);
                }
                return (out, doc);
            },
            Some(c) => {
                proof {
                    let a = doc.tree@;
                    assert(a[root as int].children@[0] == c);
                    assert(c < a.len());
                    assert(a[c as int].parent == Some(root));
                }
                let ghost pre = doc.tree@;
                doc.tree.remove_from_parent(c);
                proof {
                    let a = doc.tree@;
                    assert(pre[root as int].children@.index_of(c) == 0) by {
                        let ch = pre[root as int].children@;
                        let w = ch.index_of(c);
                        assert(ch.contains(c)) by {
                            assert(ch[0] == c);
                        }
                        assert(0 <= w < ch.len() && ch[w] == c);
                        assert(w == 0) by {
                            if w != 0 {
                                assert(ch[w] != ch[0]);
                            }
                        }
                    }
                    assert(a[root as int].children@ =~= pre[root as int].children@.remove(0));
                    assert forall|k: int|
                        0 <= k < out@.len() implies out@[k] < a.len() && a[out@[k] as int].parent
                        is None by {
                        if out@[k] == c {
                        } else if out@[k] == root {
                            assert(pre[root as int].parent == a[root as int].parent);
                        } else {
                            assert(a[out@[k] as int] == pre[out@[k] as int]);
                        }
                    }
                }
                proof {
                    let ch_now = doc.tree@[root as int].children@;
                    assert(out@.push(c) + ch_now =~= out@ + pre[root as int].children@);
                }
                out.push(c);
            },
        }
    }
}

/// The document element: the first element among the document node's
/// children.
pub open spec fn spec_document_element(a: Seq<Node>) -> Option<usize> {
    spec_first_element_child(a, a[0].children@)
}

pub open spec fn spec_first_element_child(a: Seq<Node>, ch: Seq<usize>) -> Option<usize>
    decreases ch.len(),
{
    if ch.len() == 0 {
        None
    } else if a[ch[0] as int].data is Element {
        Some(ch[0])
    } else {
        spec_first_element_child(a, ch.drop_first())
    }
}

/// Finds the document element of a well-formed arena.
pub fn find_document_element(doc: &DocumentModel) -> (r: Option<usize>)
    requires
        doc.tree.wf(),
    ensures
        r == spec_document_element(doc.tree@),
        r matches Some(e) ==> e < doc.tree@.len() && doc.tree@[e as int].data is Element,
{
    let ghost a = doc.tree@;
    let ghost all = a[0].children@;
    let count = doc.tree.node(0).children.len();
    let mut k: usize = 0;
    proof {
        assert(all.skip(0) =~= all);
    }
    while k < count
        invariant
            a == doc.tree@,
            doc.tree.wf(),
            all == a[0].children@,
            count == all.len(),
            k <= count,
            spec_first_element_child(a, all.skip(k as int)) == spec_first_element_child(a, all),
        decreases count - k,
    {
        let c = doc.tree.node(0).children[k];
        proof {
            let rest = all.skip(k as int);
            assert(rest[0] == all[k as int]);
            assert(rest.drop_first() =~= all.skip(k + 1 as int));
            assert(c < a.len());
        }
        let is_elem = match &doc.tree.node(c).data {
            NodeData::Element(..) => true,
            _ => false,
        };
        if is_elem {
            return Some(c);
        }
        k = k + 1;
    }
    proof {
        assert(all.skip(count as int) =~= Seq::<usize>::empty());
    }
    None
}

/// Given network input already split by a blocking script, text written by
/// that script lands exactly at the insertion point: once the script input
/// (holding what the script wrote) is merged back in front of the remaining
/// network input, the character stream still to be tokenized is the written
/// text followed by the remaining network input — so the whole parse
/// consumes the same stream as parsing
/// `consumed ++ written ++ network-remainder` in one pass.
pub proof fn lemma_insertion_point_ordering(
    consumed: Seq<char>,
    script_pending: Seq<Seq<char>>,
    written: Seq<Seq<char>>,
    network_rest: Seq<Seq<char>>,
)
    ensures
        consumed + ((script_pending + written) + network_rest).flatten() == consumed + (
        script_pending.flatten() + written.flatten() + network_rest.flatten()),
{
    crate::queue::lemma_flat_of_concat(script_pending + written, network_rest);
    crate::queue::lemma_flat_of_concat(script_pending, written);
}

/// Suspension and resumption neither lose, duplicate nor reorder input: the
/// pending character stream (script input ahead of network input) is the
/// same before and after the resume-time merge of the two queues.
pub proof fn lemma_suspend_resume_stream_equivalence(
    script_pending: Seq<Seq<char>>,
    network_rest: Seq<Seq<char>>,
)
    ensures
        (script_pending + network_rest).flatten() == script_pending.flatten()
            + network_rest.flatten(),
{
    crate::queue::lemma_flat_of_concat(script_pending, network_rest);
}

} // verus!
