//! Unit tests for the building blocks: input queues, byte-order-mark
//! sniffing, the arena tree, the tree-construction adapter and the element
//! creation algorithm, and the text helpers.

use servoparser::bom::{BomSniffer, TextEncoding};
use servoparser::document::{CustomElementKey, DocumentModel, QuirksModeKind};
use servoparser::dom::{DomArena, ElementAttribute, NodeData, NodeOrText, QualifiedName};

use servoparser::queue::InputQueue;
use servoparser::sink::{
    create_element_for_token, insert, NextParserState, ParsingAlgorithm, Sink,
};
use servoparser::util::{eq_ignore_ascii_case, replace_all, str_eq};

const HTML_NS: &str = "http://www.w3.org/1999/xhtml";

fn qn(local: &str) -> QualifiedName {
    QualifiedName::new(HTML_NS.to_string(), local.to_string())
}

fn attr(ns: &str, local: &str, value: &str) -> ElementAttribute {
    ElementAttribute::new(
        QualifiedName::new(ns.to_string(), local.to_string()),
        value.to_string(),
    )
}

fn new_element(doc: &mut DocumentModel, local: &str, attrs: Vec<ElementAttribute>) -> usize {
    create_element_for_token(qn(local), attrs, doc, ParsingAlgorithm::Normal)
}

#[test]
fn queue_keeps_chunk_order() {
    let mut q = InputQueue::new();
    assert!(q.is_empty());
    q.push_back("one".to_string());
    q.push_back("two".to_string());
    assert_eq!(q.len(), 2);
    let mut rest = InputQueue::new();
    rest.push_back("three".to_string());
    q.append_all(rest);
    assert_eq!(q.pop_front(), Some("one".to_string()));
    assert_eq!(q.pop_front(), Some("two".to_string()));
    assert_eq!(q.pop_front(), Some("three".to_string()));
    assert_eq!(q.pop_front(), None);
}

#[test]
fn bom_sniffer_is_chunk_boundary_independent() {
    // The UTF-8 signature fed in one piece and in three pieces.
    let mut whole = BomSniffer::new();
    let whole_verdict = whole.feed(&vec![0xef, 0xbb, 0xbf, b'a']);
    let mut split = BomSniffer::new();
    assert_eq!(split.feed(&vec![0xef]), None);
    assert_eq!(split.feed(&vec![0xbb]), None);
    let split_verdict = split.feed(&vec![0xbf, b'a']);
    assert_eq!(whole_verdict, Some(Some(TextEncoding::Utf8)));
    assert_eq!(whole_verdict, split_verdict);
}

#[test]
fn bom_sniffer_reports_no_mark_on_plain_bytes() {
    let mut s = BomSniffer::new();
    assert_eq!(s.feed(&vec![b'<', b'p', b'>']), Some(None));
    let mut s16 = BomSniffer::new();
    assert_eq!(s16.feed(&vec![0xfe, 0xff, 0x00]), Some(Some(TextEncoding::Utf16Be)));
}

#[test]
fn arena_insert_before_orders_children() {
    let mut arena = DomArena::new();
    let a = arena.add_node(NodeData::Comment { contents: "a".to_string() });
    let b = arena.add_node(NodeData::Comment { contents: "b".to_string() });
    let c = arena.add_node(NodeData::Comment { contents: "c".to_string() });
    arena.insert_before(0, None, a);
    arena.insert_before(0, None, c);
    arena.insert_before(0, Some(c), b);
    assert_eq!(arena.node(0).children, vec![a, b, c]);
    assert_eq!(arena.node(b).parent, Some(0));

    arena.remove_from_parent(b);
    assert_eq!(arena.node(0).children, vec![a, c]);
    assert_eq!(arena.node(b).parent, None);
    // Removing a detached node changes nothing.
    arena.remove_from_parent(b);
    assert_eq!(arena.node(b).parent, None);
}

#[test]
fn arena_reparent_children_preserves_order() {
    let mut arena = DomArena::new();
    let from = arena.add_node(NodeData::Comment { contents: "from".to_string() });
    let to = arena.add_node(NodeData::Comment { contents: "to".to_string() });
    arena.insert_before(0, None, from);
    arena.insert_before(0, None, to);
    let x = arena.add_node(NodeData::Comment { contents: "x".to_string() });
    let y = arena.add_node(NodeData::Comment { contents: "y".to_string() });
    let z = arena.add_node(NodeData::Comment { contents: "z".to_string() });
    arena.insert_before(from, None, x);
    arena.insert_before(from, None, y);
    arena.insert_before(to, None, z);
    arena.reparent_children(from, to);
    assert_eq!(arena.node(to).children, vec![z, x, y]);
    assert!(arena.node(from).children.is_empty());
    assert_eq!(arena.node(x).parent, Some(to));
    assert_eq!(arena.node(y).parent, Some(to));
}

#[test]
fn insert_merges_adjacent_text_runs() {
    let mut doc = DocumentModel::new(false);
    let p = new_element(&mut doc, "p", Vec::new());
    insert(&mut doc, 0, None, NodeOrText::AppendNode(p), ParsingAlgorithm::Normal);
    insert(&mut doc, p, None, NodeOrText::AppendText("ab".to_string()), ParsingAlgorithm::Normal);
    insert(&mut doc, p, None, NodeOrText::AppendText("cd".to_string()), ParsingAlgorithm::Normal);
    assert_eq!(doc.tree.node(p).children.len(), 1);
    let t = doc.tree.node(p).children[0];
    match &doc.tree.node(t).data {
        NodeData::Text { contents } => assert_eq!(contents, "abcd"),
        _ => panic!("expected a text node"),
    }
}

#[test]
fn inserting_element_brackets_reaction_queue_outside_fragments() {
    let mut doc = DocumentModel::new(false);
    let e = new_element(&mut doc, "span", Vec::new());
    let pushed = doc.element_queues_pushed;
    let popped = doc.element_queues_popped;
    insert(&mut doc, 0, None, NodeOrText::AppendNode(e), ParsingAlgorithm::Normal);
    assert_eq!(doc.element_queues_pushed, pushed + 1);
    assert_eq!(doc.element_queues_popped, popped + 1);

    let f = new_element(&mut doc, "span", Vec::new());
    insert(&mut doc, 0, None, NodeOrText::AppendNode(f), ParsingAlgorithm::Fragment);
    assert_eq!(doc.element_queues_pushed, pushed + 1);
    assert_eq!(doc.element_queues_popped, popped + 1);
}

#[test]
fn create_element_runs_sanitization_once_for_inputs() {
    let mut doc = DocumentModel::new(false);
    let attrs = vec![attr("", "type", "text"), attr("", "value", "v")];
    let input = new_element(&mut doc, "input", attrs);
    match &doc.tree.node(input).data {
        NodeData::Element(ed) => {
            assert_eq!(ed.sanitize_passes, 1);
            assert_eq!(ed.attrs.len(), 2);
            assert_eq!(ed.attrs[0].value, "text");
            assert!(!ed.created_sync);
        },
        _ => panic!("expected an element"),
    }
    let div = new_element(&mut doc, "div", Vec::new());
    match &doc.tree.node(div).data {
        NodeData::Element(ed) => assert_eq!(ed.sanitize_passes, 0),
        _ => panic!("expected an element"),
    }
}

#[test]
fn create_element_with_definition_constructs_synchronously() {
    let mut doc = DocumentModel::new(false);
    doc.register_custom_element(CustomElementKey {
        ns: HTML_NS.to_string(),
        local: "my-card".to_string(),
        is: None,
    });
    assert_eq!(doc.microtask_checkpoints, 0);
    let e = new_element(&mut doc, "my-card", Vec::new());
    match &doc.tree.node(e).data {
        NodeData::Element(ed) => assert!(ed.created_sync),
        _ => panic!("expected an element"),
    }
    // No script was executing, so a checkpoint was performed, one reaction
    // queue was pushed and popped, and the insertion guard is balanced.
    assert_eq!(doc.microtask_checkpoints, 1);
    assert_eq!(doc.element_queues_pushed, 1);
    assert_eq!(doc.element_queues_popped, 1);
    assert_eq!(doc.throw_on_dynamic_markup_insertion, 0);

    // Fragment parsing takes the deferred path even with a definition.
    let f = create_element_for_token(
        qn("my-card"),
        Vec::new(),
        &mut doc,
        ParsingAlgorithm::Fragment,
    );
    match &doc.tree.node(f).data {
        NodeData::Element(ed) => assert!(!ed.created_sync),
        _ => panic!("expected an element"),
    }
    assert_eq!(doc.microtask_checkpoints, 1);
}

#[test]
fn create_element_honours_is_attribute() {
    let mut doc = DocumentModel::new(false);
    doc.register_custom_element(CustomElementKey {
        ns: HTML_NS.to_string(),
        local: "button".to_string(),
        is: Some("fancy-button".to_string()),
    });
    let e = new_element(&mut doc, "button", vec![attr("", "IS", "fancy-button")]);
    match &doc.tree.node(e).data {
        NodeData::Element(ed) => assert!(ed.created_sync),
        _ => panic!("expected an element"),
    }
}

#[test]
fn add_attrs_if_missing_keeps_existing_values() {
    let mut doc = DocumentModel::new(false);
    let e = new_element(&mut doc, "html", vec![attr("", "lang", "en")]);
    let sink = Sink::new("about:test".to_string(), ParsingAlgorithm::Normal);
    sink.add_attrs_if_missing(
        &mut doc,
        e,
        vec![attr("", "lang", "fr"), attr("", "dir", "ltr")],
    );
    match &doc.tree.node(e).data {
        NodeData::Element(ed) => {
            assert_eq!(ed.attrs.len(), 2);
            assert_eq!(ed.attrs[0].name.local, "lang");
            assert_eq!(ed.attrs[0].value, "en");
            assert_eq!(ed.attrs[1].name.local, "dir");
            assert_eq!(ed.attrs[1].value, "ltr");
        },
        _ => panic!("expected an element"),
    }
}

#[test]
fn complete_script_suspends_only_for_script_elements() {
    let mut doc = DocumentModel::new(false);
    let script = new_element(&mut doc, "script", Vec::new());
    let div = new_element(&mut doc, "div", Vec::new());
    let mut sink = Sink::new("about:test".to_string(), ParsingAlgorithm::Normal);
    assert!(matches!(sink.complete_script(&doc, div), NextParserState::Continue));
    assert_eq!(sink.script, None);
    assert!(matches!(sink.complete_script(&doc, script), NextParserState::Suspend));
    assert_eq!(sink.script, Some(script));
}

#[test]
fn mark_script_already_started_touches_only_scripts() {
    let mut doc = DocumentModel::new(false);
    let script = new_element(&mut doc, "script", Vec::new());
    let div = new_element(&mut doc, "div", Vec::new());
    let sink = Sink::new("about:test".to_string(), ParsingAlgorithm::Normal);
    sink.mark_script_already_started(&mut doc, script);
    sink.mark_script_already_started(&mut doc, div);
    match &doc.tree.node(script).data {
        NodeData::Element(ed) => assert!(ed.script_already_started),
        _ => panic!(),
    }
    match &doc.tree.node(div).data {
        NodeData::Element(ed) => assert!(!ed.script_already_started),
        _ => panic!(),
    }
}

#[test]
fn associate_with_form_requires_same_home_subtree() {
    let mut doc = DocumentModel::new(false);
    let form = new_element(&mut doc, "form", Vec::new());
    let input = new_element(&mut doc, "input", Vec::new());
    let sink = Sink::new("about:test".to_string(), ParsingAlgorithm::Normal);
    insert(&mut doc, 0, None, NodeOrText::AppendNode(form), ParsingAlgorithm::Normal);
    insert(&mut doc, 0, None, NodeOrText::AppendNode(input), ParsingAlgorithm::Normal);
    sink.associate_with_form(&mut doc, input, form, input, None);
    match &doc.tree.node(input).data {
        NodeData::Element(ed) => assert_eq!(ed.form_owner, Some(form)),
        _ => panic!(),
    }

    // A detached control is in another home subtree: no association.
    let stray = new_element(&mut doc, "input", Vec::new());
    sink.associate_with_form(&mut doc, stray, form, stray, None);
    match &doc.tree.node(stray).data {
        NodeData::Element(ed) => assert_eq!(ed.form_owner, None),
        _ => panic!(),
    }

    // A div is no form control even in the same subtree.
    let div = new_element(&mut doc, "div", Vec::new());
    insert(&mut doc, 0, None, NodeOrText::AppendNode(div), ParsingAlgorithm::Normal);
    sink.associate_with_form(&mut doc, div, form, div, None);
    match &doc.tree.node(div).data {
        NodeData::Element(ed) => assert_eq!(ed.form_owner, None),
        _ => panic!(),
    }
}

#[test]
fn mathml_annotation_xml_integration_point_checks_encoding_attr() {
    let mut doc = DocumentModel::new(false);
    let sink = Sink::new("about:test".to_string(), ParsingAlgorithm::Normal);
    let a = new_element(&mut doc, "annotation-xml", vec![attr("", "encoding", "TEXT/HTML")]);
    let b = new_element(
        &mut doc,
        "annotation-xml",
        vec![attr("", "encoding", "application/xhtml+xml")],
    );
    let c = new_element(&mut doc, "annotation-xml", vec![attr("", "encoding", "text/plain")]);
    let d = new_element(&mut doc, "annotation-xml", Vec::new());
    assert!(sink.is_mathml_annotation_xml_integration_point(&doc, a));
    assert!(sink.is_mathml_annotation_xml_integration_point(&doc, b));
    assert!(!sink.is_mathml_annotation_xml_integration_point(&doc, c));
    assert!(!sink.is_mathml_annotation_xml_integration_point(&doc, d));
}

#[test]
fn quirks_mode_signal_maps_onto_document() {
    let mut doc = DocumentModel::new(false);
    let sink = Sink::new("about:test".to_string(), ParsingAlgorithm::Normal);
    assert_eq!(doc.quirks_mode, QuirksModeKind::NoQuirks);
    sink.set_quirks_mode(&mut doc, QuirksModeKind::LimitedQuirks);
    assert_eq!(doc.quirks_mode, QuirksModeKind::LimitedQuirks);
    sink.set_quirks_mode(&mut doc, QuirksModeKind::Quirks);
    assert_eq!(doc.quirks_mode, QuirksModeKind::Quirks);
}

#[test]
fn append_doctype_lands_under_document_node() {
    let mut doc = DocumentModel::new(false);
    let sink = Sink::new("about:test".to_string(), ParsingAlgorithm::Normal);
    sink.append_doctype_to_document(
        &mut doc,
        "html".to_string(),
        "pub".to_string(),
        "sys".to_string(),
    );
    let children = &doc.tree.node(0).children;
    assert_eq!(children.len(), 1);
    match &doc.tree.node(children[0]).data {
        NodeData::Doctype { name, public_id, system_id } => {
            assert_eq!(name, "html");
            assert_eq!(public_id, "pub");
            assert_eq!(system_id, "sys");
        },
        _ => panic!("expected a doctype"),
    }
}

#[test]
fn pop_notifies_elements_once_per_pop() {
    let mut doc = DocumentModel::new(false);
    let e = new_element(&mut doc, "p", Vec::new());
    let sink = Sink::new("about:test".to_string(), ParsingAlgorithm::Normal);
    sink.pop(&mut doc, e);
    match &doc.tree.node(e).data {
        NodeData::Element(ed) => assert_eq!(ed.pop_notified, 1),
        _ => panic!(),
    }
}

#[test]
fn replace_all_substitutes_every_occurrence() {
    assert_eq!(replace_all("a ${x} b ${x}", "${x}", "v"), "a v b v");
    assert_eq!(replace_all("${x}${x}", "${x}", ""), "");
    assert_eq!(replace_all("nothing here", "${x}", "v"), "nothing here");
    assert_eq!(replace_all("aaa", "aa", "b"), "ba");
}

#[test]
fn ascii_case_insensitive_comparison() {
    assert!(eq_ignore_ascii_case("Text/HTML", "text/html"));
    assert!(!eq_ignore_ascii_case("text/html", "text/plain"));
    assert!(eq_ignore_ascii_case("", ""));
    assert!(!eq_ignore_ascii_case("a", "ab"));
    assert!(str_eq("same", "same"));
    assert!(!str_eq("same", "Same"));
}

#[test]
fn write_while_script_pending_buffers_in_order() {
    let mut doc = DocumentModel::new(false);
    let mut parser = servoparser::parser::ServoParser::parse_html_script_input(&mut doc, "about:blank".to_string());
    parser.push_string_input_chunk(&doc, "<p>rest".to_string());
    // A blocking script is pending and the parser is suspended.
    doc.set_pending_parsing_blocking_script(true);
    parser.suspended = true;
    parser.script_input.push_back("first".to_string());
    match parser.write(&doc, vec!["second".to_string()]) {
        servoparser::parser::WriteAction::Buffered => {},
        _ => panic!("expected buffering while a blocking script is pending"),
    }
    // The script finished: the merge resets the insertion point, putting all
    // script input ahead of the remaining network input.
    doc.set_pending_parsing_blocking_script(false);
    parser.resume_with_pending_parsing_blocking_script();
    assert!(parser.script_input.is_empty());
    assert_eq!(parser.network_input.pop_front(), Some("first".to_string()));
    assert_eq!(parser.network_input.pop_front(), Some("second".to_string()));
    assert_eq!(parser.network_input.pop_front(), Some("<p>rest".to_string()));
    assert_eq!(parser.network_input.pop_front(), None);
    assert_eq!(parser.script_nesting_level(), 1);
    let drive = parser.resume_script_executed();
    assert!(drive);
    assert_eq!(parser.script_nesting_level(), 0);
}

#[test]
fn network_bytes_fork_to_prefetch_with_browsing_context() {
    let mut doc = DocumentModel::new(true);
    let (mut parser, _) =
        servoparser::parser::ServoParser::parse_html_document(&mut doc, None, "u".to_string(), false);
    parser.parse_bytes_chunk(&mut doc, b"<p>hi".to_vec());
    let mut prefetch = parser.take_prefetch_input();
    assert_eq!(prefetch.pop_front(), Some("<p>hi".to_string()));
    assert_eq!(prefetch.pop_front(), None);
    assert_eq!(parser.network_input.pop_front(), Some("<p>hi".to_string()));

    // Without a browsing context nothing is forked.
    let mut doc2 = DocumentModel::new(false);
    let (mut parser2, _) =
        servoparser::parser::ServoParser::parse_html_document(&mut doc2, None, "u".to_string(), false);
    parser2.parse_bytes_chunk(&mut doc2, b"<p>hi".to_vec());
    assert!(parser2.take_prefetch_input().is_empty());
}

#[test]
fn decoder_flush_reaches_network_input_at_end_of_stream() {
    // The last byte of a two-byte UTF-8 sequence never arrives: the decoder
    // holds the lead byte back, and finalization flushes it as replacement
    // text.
    let mut doc = DocumentModel::new(false);
    let (mut parser, _) =
        servoparser::parser::ServoParser::parse_html_document(&mut doc, None, "u".to_string(), false);
    parser.parse_bytes_chunk(&mut doc, vec![b'a', b'b', b'c', 0xc3]);
    assert_eq!(parser.network_input.pop_front(), Some("abc".to_string()));
    parser.last_chunk_received = true;
    parser.parse_sync_start();
    assert_eq!(parser.network_input.pop_front(), Some("\u{fffd}".to_string()));
    assert!(parser.network_input.is_empty());
}
