//! End-to-end parsing scenarios: the verified orchestrator and sink driven
//! by a tiny stand-in grammar engine that understands just enough markup
//! (doctypes, start/end tags, text) for the scenarios.

use servoparser::bom::TextEncoding;
use servoparser::document::{DocumentModel, ReadyState};
use servoparser::dom::{NodeData, NodeOrText, QualifiedName};
use servoparser::parser::{
    finish_html_fragment, AfterScript, FragmentContext, ServoParser, TokenizerResult, WriteAction,
};
use servoparser::queue::InputQueue;
use servoparser::sink::{insert, NextParserState, Sink};

const HTML_NS: &str = "http://www.w3.org/1999/xhtml";

/// A minimal grammar engine: consumes whole tags and text runs, keeps any
/// incomplete trailing tag buffered across feeds, and reports a just-closed
/// script element like the real engines do.
struct ToyEngine {
    buffer: String,
    stack: Vec<usize>,
}

impl ToyEngine {
    fn new() -> ToyEngine {
        ToyEngine { buffer: String::new(), stack: Vec::new() }
    }

    fn current_parent(&self) -> usize {
        *self.stack.last().unwrap_or(&0)
    }

    fn feed(
        &mut self,
        mut q: InputQueue,
        sink: &mut Sink,
        doc: &mut DocumentModel,
    ) -> (TokenizerResult, InputQueue) {
        while let Some(chunk) = q.pop_front() {
            self.buffer.push_str(&chunk);
        }
        loop {
            if self.buffer.is_empty() {
                return (TokenizerResult::Done, q);
            }
            if self.buffer.starts_with('<') {
                let end = match self.buffer.find('>') {
                    Some(e) => e,
                    None => return (TokenizerResult::Done, q),
                };
                let tag: String = self.buffer[1..end].to_string();
                self.buffer.drain(..=end);
                if let Some(rest) = tag.strip_prefix("!DOCTYPE") {
                    sink.append_doctype_to_document(
                        doc,
                        rest.trim().to_string(),
                        String::new(),
                        String::new(),
                    );
                } else if let Some(name) = tag.strip_prefix('/') {
                    let node = self.stack.pop().expect("unbalanced end tag");
                    sink.pop(doc, node);
                    if name == "script" {
                        if let NextParserState::Suspend = sink.complete_script(doc, node) {
                            // Unconsumed input goes back to the caller's
                            // queue, as the real engines leave it there.
                            if !self.buffer.is_empty() {
                                let rest = std::mem::take(&mut self.buffer);
                                q.push_back(rest);
                            }
                            return (TokenizerResult::Script(node), q);
                        }
                    }
                } else {
                    let name = tag.split(' ').next().unwrap().to_string();
                    let qn = QualifiedName::new(HTML_NS.to_string(), name);
                    let id = sink.create_element(doc, qn, Vec::new());
                    let parent = self.current_parent();
                    sink.append(doc, parent, NodeOrText::AppendNode(id));
                    self.stack.push(id);
                }
            } else {
                let cut = self.buffer.find('<').unwrap_or(self.buffer.len());
                let text: String = self.buffer.drain(..cut).collect();
                let parent = self.current_parent();
                insert(doc, parent, None, NodeOrText::AppendText(text), sink.parsing_algorithm);
            }
        }
    }
}

/// Runs one synchronous parse drive with no scripts expected.
fn pump_no_scripts(
    parser: &mut ServoParser,
    doc: &mut DocumentModel,
    sink: &mut Sink,
    engine: &mut ToyEngine,
) -> Option<String> {
    parser.parse_sync_start();
    let q = parser.begin_network_feed();
    let (result, leftover) = engine.feed(q, sink, doc);
    match result {
        TokenizerResult::Done => parser.network_feed_done(doc, leftover),
        TokenizerResult::Script(_) => panic!("unexpected parser-blocking script"),
    }
}

/// A readable snapshot of the whole tree, for structural comparison.
fn snapshot(doc: &DocumentModel) -> Vec<String> {
    let mut out = Vec::new();
    for i in 0..doc.tree.len() {
        let node = doc.tree.node(i);
        let kind = match &node.data {
            NodeData::Document => "document".to_string(),
            NodeData::Doctype { name, .. } => format!("doctype:{}", name),
            NodeData::Text { contents } => format!("text:{}", contents),
            NodeData::Comment { contents } => format!("comment:{}", contents),
            NodeData::ProcessingInstruction { target, contents } => {
                format!("pi:{}:{}", target, contents)
            },
            NodeData::Element(ed) => format!("element:{}", ed.name.local),
        };
        out.push(format!("{} parent={:?} children={:?}", kind, node.parent, node.children));
    }
    out
}

/// Parses byte chunks arriving from the network, as the fetch bridge would
/// deliver them, and returns the finished document.
fn parse_network_bytes(chunks: Vec<Vec<u8>>) -> DocumentModel {
    let mut doc = DocumentModel::new(false);
    let (mut parser, drive) =
        ServoParser::parse_html_document(&mut doc, None, "about:test".to_string(), false);
    assert!(!drive);
    let mut sink = Sink::new("about:test".to_string(), servoparser::sink::ParsingAlgorithm::Normal);
    let mut engine = ToyEngine::new();
    for chunk in chunks {
        let drive = parser.parse_bytes_chunk(&mut doc, chunk);
        if drive {
            assert!(pump_no_scripts(&mut parser, &mut doc, &mut sink, &mut engine).is_none());
        }
    }
    parser.last_chunk_received = true;
    if !parser.suspended {
        let finished = pump_no_scripts(&mut parser, &mut doc, &mut sink, &mut engine);
        assert_eq!(finished, Some("about:test".to_string()));
    }
    doc
}

#[test]
fn doctype_split_mid_tag_matches_single_chunk() {
    let whole = parse_network_bytes(vec![b"<!DOCTYPE html><p>hi".to_vec()]);
    let split = parse_network_bytes(vec![b"<!DOCTYPE htm".to_vec(), b"l><p>hi".to_vec()]);
    assert_eq!(snapshot(&whole), snapshot(&split));

    // One doctype named html, and one paragraph element containing text hi.
    let mut doctypes = 0;
    let mut paragraphs = 0;
    for i in 0..whole.tree.len() {
        match &whole.tree.node(i).data {
            NodeData::Doctype { name, .. } => {
                assert_eq!(name, "html");
                doctypes += 1;
            },
            NodeData::Element(ed) if ed.name.local == "p" => {
                paragraphs += 1;
                let children = &whole.tree.node(i).children;
                assert_eq!(children.len(), 1);
                match &whole.tree.node(children[0]).data {
                    NodeData::Text { contents } => assert_eq!(contents, "hi"),
                    _ => panic!("expected text under p, got {:?}", snapshot(&whole)),
                }
            },
            _ => {},
        }
    }
    assert_eq!(doctypes, 1);
    assert_eq!(paragraphs, 1);
}

#[test]
fn script_created_parser_write_close_single_div() {
    let mut doc = DocumentModel::new(false);
    let mut parser = ServoParser::parse_html_script_input(&mut doc, "about:blank".to_string());
    let mut sink = Sink::new("about:blank".to_string(), servoparser::sink::ParsingAlgorithm::Normal);
    let mut engine = ToyEngine::new();

    for piece in ["<div>", "</div>"] {
        match parser.write(&doc, vec![piece.to_string()]) {
            WriteAction::Buffered => panic!("no blocking script is pending"),
            WriteAction::FeedNow(q) => {
                let (result, leftover) = engine.feed(q, &mut sink, &mut doc);
                assert!(matches!(result, TokenizerResult::Done));
                parser.write_feed_done(leftover);
            },
        }
    }

    let drive = parser.close();
    assert!(drive);
    let finished = pump_no_scripts(&mut parser, &mut doc, &mut sink, &mut engine);
    assert_eq!(finished, Some("about:blank".to_string()));
    assert!(!parser.is_active());

    let mut divs = 0;
    for i in 0..doc.tree.len() {
        if let NodeData::Element(ed) = &doc.tree.node(i).data {
            assert_eq!(ed.name.local, "div");
            divs += 1;
            assert!(doc.tree.node(i).children.is_empty());
        }
    }
    assert_eq!(divs, 1);
}

/// Parses text that contains one blocking script; `write_during_script` is
/// written by the script while it executes. Returns the finished document.
fn parse_with_blocking_script(chunks: Vec<&str>, write_during_script: Option<&str>) -> DocumentModel {
    let mut doc = DocumentModel::new(false);
    let (mut parser, drive) =
        ServoParser::parse_html_document(&mut doc, None, "about:test".to_string(), false);
    assert!(!drive);
    let mut sink = Sink::new("about:test".to_string(), servoparser::sink::ParsingAlgorithm::Normal);
    let mut engine = ToyEngine::new();

    let mut resumed = false;
    for chunk in chunks {
        let drive = parser.parse_string_chunk(&mut doc, chunk.to_string());
        if !drive {
            continue;
        }
        parser.parse_sync_start();
        loop {
            let q = parser.begin_network_feed();
            let (result, leftover) = engine.feed(q, &mut sink, &mut doc);
            match result {
                TokenizerResult::Done => {
                    parser.network_feed_done(&mut doc, leftover);
                    break;
                },
                TokenizerResult::Script(_script) => {
                    let _checkpoint = parser.network_feed_script(&doc, leftover);
                    // The prepare step finds the script parser-blocking.
                    doc.set_pending_parsing_blocking_script(true);
                    match parser.script_prepared(&doc) {
                        AfterScript::Suspended => {},
                        other => panic!("expected suspension, got {:?}", other),
                    }
                    // The blocking script finished loading: resume, execute.
                    doc.set_pending_parsing_blocking_script(false);
                    parser.resume_with_pending_parsing_blocking_script();
                    assert!(!resumed, "only one blocking script in these scenarios");
                    resumed = true;
                    if let Some(w) = write_during_script {
                        match parser.write(&doc, vec![w.to_string()]) {
                            WriteAction::Buffered => panic!("nothing pending while executing"),
                            WriteAction::FeedNow(wq) => {
                                let (wr, wleft) = engine.feed(wq, &mut sink, &mut doc);
                                assert!(matches!(wr, TokenizerResult::Done));
                                parser.write_feed_done(wleft);
                            },
                        }
                    }
                    let drive_again = parser.resume_script_executed();
                    assert!(drive_again);
                    parser.parse_sync_start();
                },
            }
        }
    }
    parser.last_chunk_received = true;
    if !parser.suspended {
        pump_no_scripts(&mut parser, &mut doc, &mut sink, &mut engine);
    }
    doc
}

#[test]
fn insertion_point_write_matches_one_pass() {
    // Network input: N_before = <p>a</p><script>s</script>, N_rest = <p>b</p>.
    // The script writes W = <em>w</em> while it executes; the result must be
    // the tree of parsing N_before ++ W ++ N_rest in one pass.
    let with_write = parse_with_blocking_script(
        vec!["<p>a</p><script>s</script><p>b</p>"],
        Some("<em>w</em>"),
    );
    let one_pass = parse_with_blocking_script(
        vec!["<p>a</p><script>s</script><em>w</em><p>b</p>"],
        None,
    );
    assert_eq!(snapshot(&with_write), snapshot(&one_pass));
}

#[test]
fn suspend_resume_equivalence_at_chunk_boundary() {
    // The same input parsed whole and split at a boundary that does not cut
    // the closing script tag; the suspension and resumption injected at the
    // script must leave the tree identical.
    let whole = parse_with_blocking_script(vec!["<p>a</p><script>s</script><p>bcd</p>"], None);
    let split = parse_with_blocking_script(
        vec!["<p>a</p><script>s</script><p>b", "cd</p>"],
        None,
    );
    assert_eq!(snapshot(&whole), snapshot(&split));
}

#[test]
fn abort_clears_queues_and_completes_document() {
    let mut doc = DocumentModel::new(false);
    let (mut parser, _) = ServoParser::parse_html_document(&mut doc, None, "about:test".to_string(), false);
    // Queue input on both streams without driving the parse.
    parser.push_string_input_chunk(&doc, "<p>never parsed".to_string());
    assert!(parser.network_input.len() > 0);

    parser.abort(&mut doc);
    assert!(parser.network_input.is_empty());
    assert!(parser.script_input.is_empty());
    assert!(parser.tokenizer.ended);
    assert_eq!(doc.ready_state, ReadyState::Complete);
    assert!(!doc.has_current_parser);
}

#[test]
fn fragment_parsing_leaves_context_document_alone() {
    // A context document with some content of its own.
    let context_doc = parse_network_bytes(vec![b"<section>ctx</section>".to_vec()]);
    let before = snapshot(&context_doc);

    let session = ServoParser::parse_html_fragment(
        &context_doc,
        FragmentContext { context_elem: 1, form_elem: None },
        "<li>one</li><li>two</li>".to_string(),
        "about:test".to_string(),
    );
    let mut session = session;
    let mut engine = ToyEngine::new();
    // Fragment parsing needs a root element for the children to hang off.
    let q = session.parser.begin_network_feed();
    let mut q2 = InputQueue::new();
    q2.push_back("<html>".to_string());
    let (r, _left) = engine.feed(q2, &mut session.sink, &mut session.document);
    assert!(matches!(r, TokenizerResult::Done));
    let (r, leftover) = engine.feed(q, &mut session.sink, &mut session.document);
    assert!(matches!(r, TokenizerResult::Done));
    session.parser.network_feed_done(&mut session.document, leftover);

    let (nodes, fragment_doc) = finish_html_fragment(session);
    assert_eq!(nodes.len(), 2);
    for id in &nodes {
        assert!(fragment_doc.tree.node(*id).parent.is_none());
        match &fragment_doc.tree.node(*id).data {
            NodeData::Element(ed) => assert_eq!(ed.name.local, "li"),
            _ => panic!("expected li elements"),
        }
    }
    // The context document is untouched.
    assert_eq!(snapshot(&context_doc), before);
}

#[test]
fn bytes_with_utf8_bom_set_document_encoding() {
    let mut doc = DocumentModel::new(false);
    let (mut parser, _) = ServoParser::parse_html_document(&mut doc, None, "about:test".to_string(), false);
    // Split the byte-order mark across two chunks.
    let d1 = parser.parse_bytes_chunk(&mut doc, vec![0xef]);
    assert!(d1);
    assert_eq!(doc.encoding, TextEncoding::Utf8);
    let mut sink = Sink::new("about:test".to_string(), servoparser::sink::ParsingAlgorithm::Normal);
    let mut engine = ToyEngine::new();
    pump_no_scripts(&mut parser, &mut doc, &mut sink, &mut engine);
    parser.parse_bytes_chunk(&mut doc, vec![0xbb, 0xbf]);
    assert_eq!(doc.encoding, TextEncoding::Utf8);
    pump_no_scripts(&mut parser, &mut doc, &mut sink, &mut engine);
}

#[test]
fn utf16le_bom_switches_document_encoding() {
    let mut doc = DocumentModel::new(false);
    let (mut parser, _) = ServoParser::parse_html_document(&mut doc, None, "about:test".to_string(), false);
    parser.parse_bytes_chunk(&mut doc, vec![0xff]);
    assert_eq!(doc.encoding, TextEncoding::Utf8);
    parser.parse_bytes_chunk(&mut doc, vec![0xfe, b'h']);
    assert_eq!(doc.encoding, TextEncoding::Utf16Le);
}

#[test]
fn write_suspension_moves_leftover_to_script_input() {
    // A write whose text contains a blocking script: the unconsumed
    // remainder of the written text must end up at the back of the script
    // input once the parser suspends.
    let mut doc = DocumentModel::new(false);
    let mut parser = ServoParser::parse_html_script_input(&mut doc, "about:blank".to_string());
    let mut sink = Sink::new("about:blank".to_string(), servoparser::sink::ParsingAlgorithm::Normal);
    let mut engine = ToyEngine::new();

    let q = match parser.write(&doc, vec!["<script>s</script><p>tail".to_string()]) {
        WriteAction::FeedNow(q) => q,
        WriteAction::Buffered => panic!("nothing is pending yet"),
    };
    let (result, leftover) = engine.feed(q, &mut sink, &mut doc);
    assert!(matches!(result, TokenizerResult::Script(_)));
    let _checkpoint = parser.write_feed_script(&doc);
    // Preparing the script finds it parser-blocking.
    doc.set_pending_parsing_blocking_script(true);
    assert!(matches!(parser.script_prepared(&doc), AfterScript::Suspended));
    parser.write_feed_suspended(leftover);
    assert!(parser.suspended);
    assert_eq!(parser.script_input.pop_front(), Some("<p>tail".to_string()));
    assert_eq!(parser.script_input.pop_front(), None);
}
