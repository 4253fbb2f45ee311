//! Tests for the fetch-response bridge: content-type dispatch,
//! content-security-policy header combination, synthesized error and
//! placeholder pages, and the chunk/completion guards.

use servoparser::bom::TextEncoding;
use servoparser::document::DocumentModel;
use servoparser::dom::NodeData;
use servoparser::parser::ServoParser;
use servoparser::response::{
    attach_image_to_body, build_bad_cert_page, build_crash_page, build_net_error_page,
    build_unknown_mime_page, collect_csp_policies, response_content_action,
    synthesized_error_metadata, ContentAction, ErrorPageTemplates, MimeClass, NetworkErrorKind,
    ParserContext, ResponseDirective,
};

fn mime(top: &str, sub: &str, suffix: Option<&str>) -> Option<MimeClass> {
    Some(MimeClass {
        top: top.to_string(),
        sub: sub.to_string(),
        suffix: suffix.map(|s| s.to_string()),
    })
}

fn templates() -> ErrorPageTemplates {
    ErrorPageTemplates {
        bad_cert: "cert:${reason}:${bytes}:${secret}".to_string(),
        net_error: "net:${reason}".to_string(),
        crash: "crash:${details}".to_string(),
    }
}

#[test]
fn content_dispatch_covers_every_mime_family() {
    assert_eq!(
        response_content_action(&mime("image", "png", None), &None),
        ContentAction::ImageDocument
    );
    assert_eq!(
        response_content_action(&mime("text", "plain", None), &None),
        ContentAction::TextPlainDocument
    );
    assert_eq!(
        response_content_action(&mime("text", "html", None), &None),
        ContentAction::ParseHtmlNormally
    );
    assert_eq!(
        response_content_action(&mime("text", "html", None), &Some(NetworkErrorKind::Other)),
        ContentAction::ParseHtmlNormally
    );
    assert_eq!(
        response_content_action(
            &mime("text", "html", None),
            &Some(NetworkErrorKind::SslValidation {
                reason: "expired".to_string(),
                cert_bytes: vec![1, 2, 3],
            }),
        ),
        ContentAction::BadCertPage
    );
    assert_eq!(
        response_content_action(
            &mime("text", "html", None),
            &Some(NetworkErrorKind::Internal { reason: "broken".to_string() }),
        ),
        ContentAction::NetErrorPage
    );
    assert_eq!(
        response_content_action(
            &mime("text", "html", None),
            &Some(NetworkErrorKind::Crash { details: "boom".to_string() }),
        ),
        ContentAction::CrashPage
    );
    assert_eq!(
        response_content_action(&mime("text", "xml", None), &None),
        ContentAction::NoSpecialHandling
    );
    assert_eq!(
        response_content_action(&mime("application", "xml", None), &None),
        ContentAction::NoSpecialHandling
    );
    assert_eq!(
        response_content_action(&mime("application", "json", None), &None),
        ContentAction::NoSpecialHandling
    );
    assert_eq!(
        response_content_action(&mime("application", "xhtml", Some("xml")), &None),
        ContentAction::NoSpecialHandling
    );
    assert_eq!(
        response_content_action(&mime("application", "xhtml", None), &None),
        ContentAction::UnknownMimeWarningPage
    );
    assert_eq!(
        response_content_action(&mime("video", "mp4", None), &None),
        ContentAction::UnknownMimeWarningPage
    );
    assert_eq!(response_content_action(&None, &None), ContentAction::DoNothing);
}

#[test]
fn csp_headers_combine_and_skip_invalid_text() {
    let headers = vec![
        Some("default-src 'self'".to_string()),
        None,
        Some("img-src *".to_string()),
    ];
    let combined = collect_csp_policies(headers).expect("two valid headers");
    assert_eq!(combined, vec!["default-src 'self'".to_string(), "img-src *".to_string()]);
    assert!(collect_csp_policies(vec![]).is_none());
    assert!(collect_csp_policies(vec![None, None]).is_none());
}

#[test]
fn bad_cert_page_substitutes_reason_bytes_and_secret() {
    // Standard no-padding base64 of `abc` is `YWJj`.
    let page = build_bad_cert_page(
        "cert:${reason}:${bytes}:${secret}",
        "expired",
        &vec![b'a', b'b', b'c'],
        "SECRET-REDACTED",
    );
    assert_eq!(page, "cert:expired:YWJj:SECRET-REDACTED");
}

#[test]
fn error_and_warning_pages_substitute_placeholders() {
    assert_eq!(build_net_error_page("net:${reason}", "dns"), "net:dns");
    assert_eq!(build_crash_page("crash:${details}", "sig"), "crash:sig");
    assert_eq!(
        build_unknown_mime_page("video", "mp4"),
        "<html><body><p>Unknown content type (video/mp4).</p></body></html>"
    );
}

#[test]
fn synthesized_error_metadata_is_text_html() {
    let meta = synthesized_error_metadata(&NetworkErrorKind::Internal {
        reason: "broken".to_string(),
    })
    .expect("text/html parses");
    assert_eq!(meta.top, "text");
    assert_eq!(meta.sub, "html");
    assert!(meta.suffix.is_none());
    assert!(synthesized_error_metadata(&NetworkErrorKind::Other).is_none());
}

#[test]
fn process_response_synthesizes_bad_cert_page() {
    let mut doc = DocumentModel::new(false);
    let (mut parser, _) = ServoParser::parse_html_document(&mut doc, None, "https://x".to_string(), false);
    let mut ctx = ParserContext::new("https://x".to_string());
    let directive = ctx.process_response(
        &mut parser,
        &mut doc,
        mime("text", "html", None),
        Some(NetworkErrorKind::SslValidation {
            reason: "expired".to_string(),
            cert_bytes: vec![b'a', b'b', b'c'],
        }),
        vec![Some("default-src 'self'".to_string())],
        &templates(),
        &"SECRET-REDACTED".to_string(),
    );
    assert_eq!(directive, ResponseDirective::Drive);
    assert!(ctx.is_synthesized_document);
    assert!(ctx.parser_linked);
    assert_eq!(
        doc.csp_policies,
        Some(vec!["default-src 'self'".to_string()])
    );
    assert_eq!(
        parser.network_input.pop_front(),
        Some("cert:expired:YWJj:SECRET-REDACTED".to_string())
    );

    // Body chunks for a synthesized document are dropped.
    let drive = ctx.process_response_chunk(&mut parser, &mut doc, b"real body".to_vec());
    assert!(!drive);
    assert!(parser.network_input.is_empty());
}

#[test]
fn process_response_without_content_type_stops() {
    let mut doc = DocumentModel::new(false);
    let (mut parser, _) = ServoParser::parse_html_document(&mut doc, None, "https://x".to_string(), false);
    let mut ctx = ParserContext::new("https://x".to_string());
    let directive = ctx.process_response(
        &mut parser,
        &mut doc,
        None,
        None,
        vec![],
        &templates(),
        &"s".to_string(),
    );
    assert_eq!(directive, ResponseDirective::Stop);
    assert!(!ctx.is_synthesized_document);
    assert!(!ctx.parser_linked);
    assert!(parser.network_input.is_empty());

    // With no parser linked, body chunks are effectively dropped: the
    // documented gap for a response without a content type.
    let drive = ctx.process_response_chunk(&mut parser, &mut doc, b"<p>lost".to_vec());
    assert!(!drive);
    assert!(parser.network_input.is_empty());
}

#[test]
fn process_response_on_aborted_parser_changes_nothing() {
    let mut doc = DocumentModel::new(false);
    let (mut parser, _) = ServoParser::parse_html_document(&mut doc, None, "https://x".to_string(), false);
    parser.abort(&mut doc);
    let mut ctx = ParserContext::new("https://x".to_string());
    let directive = ctx.process_response(
        &mut parser,
        &mut doc,
        mime("text", "html", None),
        None,
        vec![Some("default-src 'self'".to_string())],
        &templates(),
        &"s".to_string(),
    );
    assert_eq!(directive, ResponseDirective::Stop);
    assert!(!ctx.parser_linked);
    assert!(doc.csp_policies.is_none());
}

#[test]
fn process_response_eof_marks_end_of_stream() {
    let mut doc = DocumentModel::new(false);
    let (mut parser, _) = ServoParser::parse_html_document(&mut doc, None, "https://x".to_string(), false);
    let mut ctx = ParserContext::new("https://x".to_string());
    let directive = ctx.process_response(
        &mut parser,
        &mut doc,
        mime("text", "html", None),
        None,
        vec![],
        &templates(),
        &"s".to_string(),
    );
    assert_eq!(directive, ResponseDirective::ParseNormally);
    ctx.redirect_count = 2;
    let drive = ctx.process_response_eof(&mut parser, &mut doc);
    assert!(drive);
    assert!(parser.last_chunk_received);
    assert_eq!(doc.redirect_count, 2);
}

#[test]
fn utf16le_body_bytes_decode_through_the_network_decoder() {
    // FF FE is the UTF-16LE byte-order mark; "hi" follows in UTF-16LE. The
    // decoder must hand back decoded text, not the raw bytes.
    let mut doc = DocumentModel::new(false);
    let (mut parser, _) = ServoParser::parse_html_document(&mut doc, None, "https://x".to_string(), false);
    let mut ctx = ParserContext::new("https://x".to_string());
    ctx.process_response(
        &mut parser,
        &mut doc,
        mime("text", "html", None),
        None,
        vec![],
        &templates(),
        &"s".to_string(),
    );
    let drive =
        ctx.process_response_chunk(&mut parser, &mut doc, vec![0xff, 0xfe, b'h', 0, b'i', 0]);
    assert!(drive);
    assert_eq!(doc.encoding, TextEncoding::Utf16Le);
    assert_eq!(parser.network_input.pop_front(), Some("hi".to_string()));
}

#[test]
fn image_document_gets_img_under_body() {
    // Build a document with <html><body> by hand, then attach the image.
    let mut doc = DocumentModel::new(false);
    let html = servoparser::sink::create_element_for_token(
        servoparser::dom::QualifiedName::new(
            "http://www.w3.org/1999/xhtml".to_string(),
            "html".to_string(),
        ),
        Vec::new(),
        &mut doc,
        servoparser::sink::ParsingAlgorithm::Normal,
    );
    servoparser::sink::insert(
        &mut doc,
        0,
        None,
        servoparser::dom::NodeOrText::AppendNode(html),
        servoparser::sink::ParsingAlgorithm::Normal,
    );
    let body = servoparser::sink::create_element_for_token(
        servoparser::dom::QualifiedName::new(
            "http://www.w3.org/1999/xhtml".to_string(),
            "body".to_string(),
        ),
        Vec::new(),
        &mut doc,
        servoparser::sink::ParsingAlgorithm::Normal,
    );
    servoparser::sink::insert(
        &mut doc,
        html,
        None,
        servoparser::dom::NodeOrText::AppendNode(body),
        servoparser::sink::ParsingAlgorithm::Normal,
    );

    attach_image_to_body(&mut doc, &"https://x/cat.png".to_string());
    let children = &doc.tree.node(body).children;
    assert_eq!(children.len(), 1);
    match &doc.tree.node(children[0]).data {
        NodeData::Element(ed) => {
            assert_eq!(ed.name.local, "img");
            assert_eq!(ed.attrs.len(), 1);
            assert_eq!(ed.attrs[0].name.local, "src");
            assert_eq!(ed.attrs[0].value, "https://x/cat.png");
        },
        _ => panic!("expected the img element"),
    }
}
