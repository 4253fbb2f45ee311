//! The fetch-response bridge: adapts a streaming fetch response (metadata,
//! byte chunks, completion) into calls on the parser orchestrator, including
//! content-security-policy header combination, MIME-based content dispatch
//! and synthesis of built-in error and placeholder documents.

use vstd::prelude::*;

verus! {

use crate::document::DocumentModel;
use crate::dom::ElementAttribute;
use crate::dom::NodeData;
use crate::dom::QualifiedName;
use crate::parser::ServoParser;
use crate::sink::spec_element_local;
use crate::util::replace_all;
use crate::util::spec_replace_all;
use crate::util::str_eq;
use vstd::string::StringExecFns;

/// A parsed content type: top-level type, subtype and optional suffix.
pub struct MimeClass {
    pub top: String,
    pub sub: String,
    pub suffix: Option<String>,
}

/// The classified transport-level failures; the first three synthesize a
/// built-in error document in place of the real body, any other is logged
/// and otherwise ignored.
pub enum NetworkErrorKind {
    SslValidation { reason: String, cert_bytes: Vec<u8> },
    Internal { reason: String },
    Crash { details: String },
    Other,
}

/// What the mime crate parsed a content-type text into.
pub uninterp spec fn mime_class_of(s: Seq<char>) -> Option<
    (Seq<char>, Seq<char>, Option<Seq<char>>),
>;

/// Relies on mime::Mime's FromStr parse and its type_/subtype/suffix
/// accessors: the outcome depends on the text alone, and the source parses
/// `text/html` into type `text`, subtype `html` and no suffix.
#[verifier::external_body]
pub fn parse_mime(s: &str) -> (r: Option<MimeClass>)
    ensures
        r matches Some(m) ==> mime_class_of(s@) == Some(
            (
                m.top@,
                m.sub@,
                match m.suffix {
                    Some(x) => Some(x@),
                    None => None::<Seq<char>>,
                },
            ),
        ),
        r is None ==> mime_class_of(s@) is None,
        r is None ==> s@ != "text/html"@,
        r matches Some(m) ==> (s@ == "text/html"@ ==> m.top@ == "text"@ && m.sub@ == "html"@
            && m.suffix is None),
{
    match s.parse::<mime::Mime>() {
        Err(_) => None,
        Ok(m) => Some(
            MimeClass {
                top: m.type_().as_str().to_string(),
                sub: m.subtype().as_str().to_string(),
                suffix: match m.suffix() {
                    Some(x) => Some(x.as_str().to_string()),
                    None => None,
                },
            },
        ),
    }
}

/// What the base64 standard alphabet without padding encodes bytes to.
pub uninterp spec fn base64_nopad_of(b: Seq<u8>) -> Seq<char>;

/// Relies on base64's Engine::encode with the standard-alphabet no-padding
/// engine: the encoding depends on the bytes alone, and encodes nothing to
/// nothing.
#[verifier::external_body]
fn base64_encode_nopad(b: &Vec<u8>) -> (r: String)
    ensures
        r@ == base64_nopad_of(b@),
        b@.len() == 0 ==> r@.len() == 0,
{
    base64::Engine::encode(&base64::engine::general_purpose::STANDARD_NO_PAD, b)
}

/// Combines the `content-security-policy` response header values into the
/// policy texts to apply, in order; a header whose value could not be read
/// as text is silently skipped, and no valid header means no policy list at
/// all.
pub open spec fn spec_collected_policies(headers: Seq<Option<String>>) -> Seq<Seq<char>>
    decreases headers.len(),
{
    if headers.len() == 0 {
        Seq::empty()
    } else {
        let rest = spec_collected_policies(headers.drop_first());
        match headers[0] {
            Some(h) => seq![h@] + rest,
            None => rest,
        }
    }
}

pub fn collect_csp_policies(headers: Vec<Option<String>>) -> (r: Option<Vec<String>>)
    ensures
        r matches Some(v) ==> v@.map_values(|s: String| s@) == spec_collected_policies(headers@)
            && spec_collected_policies(headers@).len() > 0,
        r is None ==> spec_collected_policies(headers@).len() == 0,
{
    let ghost all = headers@;
    let mut out: Vec<String> = Vec::new();
    let mut rest = headers;
    proof {
        assert(out@.map_values(|s: String| s@) =~= Seq::<Seq<char>>::empty());
    }
    while rest.len() > 0
        invariant
            out@.map_values(|s: String| s@) + spec_collected_policies(rest@)
                == spec_collected_policies(all),
        decreases rest@.len(),
    {
        let ghost pre = rest@;
        let head = rest.remove(0);
        proof {
            assert(pre[0] == head);
            assert(pre.drop_first() =~= rest@);
        }
        match head {
            Some(h) => {
                let ghost outpre = out@;
                out.push(h);
                proof {
                    assert(out@.map_values(|s: String| s@) =~= outpre.map_values(|s: String| s@)
                        + seq![h@]);
                }
            },
            None => {},
        }
    }
    proof {
        assert(spec_collected_policies(rest@).len() == 0);
        assert(out@.map_values(|s: String| s@) =~= spec_collected_policies(all));
        assert(out@.map_values(|s: String| s@).len() == out@.len());
    }
    if out.len() == 0 {
        None
    } else {
        Some(out)
    }
}

/// The MIME-based content dispatch of the bridge.
#[derive(Clone, Copy, Debug, PartialEq, Eq, Structural)]
pub enum ContentAction {
    /// image/*: synthesize an image document.
    ImageDocument,
    /// text/plain: synthesize a leading `<pre>` and force raw-text lexing.
    TextPlainDocument,
    /// text/html carrying an SSL-validation failure: built-in error page.
    BadCertPage,
    /// text/html carrying an internal failure: built-in error page.
    NetErrorPage,
    /// text/html carrying a crash report: built-in error page.
    CrashPage,
    /// text/html without such a failure: parse the body normally.
    ParseHtmlNormally,
    /// The XML/JSON family: no special handling.
    NoSpecialHandling,
    /// Anything else: synthesize a warning page naming the content type.
    UnknownMimeWarningPage,
    /// No content-type header: the bridge does nothing further and body
    /// chunks are dropped (a documented gap, not a defined behaviour).
    DoNothing,
}

pub open spec fn spec_content_action(
    content_type: Option<MimeClass>,
    error: Option<NetworkErrorKind>,
) -> ContentAction {
    match content_type {
        None => ContentAction::DoNothing,
        Some(ct) => {
            if ct.top@ == "image"@ {
                ContentAction::ImageDocument
            } else if ct.top@ == "text"@ && ct.sub@ == "plain"@ {
                ContentAction::TextPlainDocument
            } else if ct.top@ == "text"@ && ct.sub@ == "html"@ {
                match error {
                    Some(NetworkErrorKind::SslValidation { .. }) => ContentAction::BadCertPage,
                    Some(NetworkErrorKind::Internal { .. }) => ContentAction::NetErrorPage,
                    Some(NetworkErrorKind::Crash { .. }) => ContentAction::CrashPage,
                    Some(NetworkErrorKind::Other) => ContentAction::ParseHtmlNormally,
                    None => ContentAction::ParseHtmlNormally,
                }
            } else if (ct.top@ == "text"@ && ct.sub@ == "xml"@) || (ct.top@ == "application"@
                && ct.sub@ == "xml"@) || (ct.top@ == "application"@ && ct.sub@ == "json"@) {
                ContentAction::NoSpecialHandling
            } else if ct.top@ == "application"@ && ct.sub@ == "xhtml"@ && (ct.suffix matches Some(x)
                && x@ == "xml"@) {
                ContentAction::NoSpecialHandling
            } else {
                ContentAction::UnknownMimeWarningPage
            }
        },
    }
}

/// Decides, from the content type and any carried network error, how the
/// bridge treats the body.
pub fn response_content_action(
    content_type: &Option<MimeClass>,
    error: &Option<NetworkErrorKind>,
) -> (a: ContentAction)
    ensures
        a == spec_content_action(*content_type, *error),
{
    match content_type {
        None => ContentAction::DoNothing,
        Some(ct) => {
            let top = ct.top.as_str();
            let sub = ct.sub.as_str();
            if str_eq(top, "image") {
                ContentAction::ImageDocument
            } else if str_eq(top, "text") && str_eq(sub, "plain") {
                ContentAction::TextPlainDocument
            } else if str_eq(top, "text") && str_eq(sub, "html") {
                match error {
                    Some(NetworkErrorKind::SslValidation { .. }) => ContentAction::BadCertPage,
                    Some(NetworkErrorKind::Internal { .. }) => ContentAction::NetErrorPage,
                    Some(NetworkErrorKind::Crash { .. }) => ContentAction::CrashPage,
                    Some(NetworkErrorKind::Other) => ContentAction::ParseHtmlNormally,
                    None => ContentAction::ParseHtmlNormally,
                }
            } else if (str_eq(top, "text") && str_eq(sub, "xml")) || (str_eq(top, "application")
                && str_eq(sub, "xml")) || (str_eq(top, "application") && str_eq(sub, "json")) {
                ContentAction::NoSpecialHandling
            } else if str_eq(top, "application") && str_eq(sub, "xhtml") && (match &ct.suffix {
                Some(x) => str_eq(x.as_str(), "xml"),
                None => false,
            }) {
                ContentAction::NoSpecialHandling
            } else {
                ContentAction::UnknownMimeWarningPage
            }
        },
    }
}

/// The built-in page templates, as the embedder provides them.
pub struct ErrorPageTemplates {
    pub bad_cert: String,
    pub net_error: String,
    pub crash: String,
}

/// The bad-certificate page: the template with the failure reason, the
/// base64-encoded certificate chain and the shared secret substituted.
pub fn build_bad_cert_page(
    template: &str,
    reason: &str,
    cert_bytes: &Vec<u8>,
    secret: &str,
) -> (page: String)
    ensures
        page@ == spec_replace_all(
            spec_replace_all(
                spec_replace_all(template@, "${reason}"@, reason@),
                "${bytes}"@,
                base64_nopad_of(cert_bytes@),
            ),
            "${secret}"@,
            secret@,
        ),
{
    let step1 = replace_all(template, "${reason}", reason);
    let encoded = base64_encode_nopad(cert_bytes);
    let step2 = replace_all(step1.as_str(), "${bytes}", encoded.as_str());
    replace_all(step2.as_str(), "${secret}", secret)
}

/// The network-error page: the template with the failure reason substituted.
pub fn build_net_error_page(template: &str, reason: &str) -> (page: String)
    ensures
        page@ == spec_replace_all(template@, "${reason}"@, reason@),
{
    replace_all(template, "${reason}", reason)
}

/// The crash page: the template with the failure details substituted.
pub fn build_crash_page(template: &str, details: &str) -> (page: String)
    ensures
        page@ == spec_replace_all(template@, "${details}"@, details@),
{
    replace_all(template, "${details}", details)
}

/// The warning page shown for an unrecognized content type, naming it.
pub fn build_unknown_mime_page(top: &str, sub: &str) -> (page: String)
    ensures
        page@ == "<html><body><p>Unknown content type ("@ + top@ + "/"@ + sub@
            + ").</p></body></html>"@,
{
    let mut page = String::new();
    page.append("<html><body><p>Unknown content type (");
    page.append(top);
    page.append("/");
    page.append(sub);
    page.append(").</p></body></html>");
    proof {
        assert(page@ =~= "<html><body><p>Unknown content type ("@ + top@ + "/"@ + sub@
            + ").</p></body></html>"@);
    }
    page
}


/// The placeholder or error page the bridge synthesizes for this dispatch,
/// empty where none is synthesized.
pub open spec fn spec_synthesized_page(
    content_type: Option<MimeClass>,
    error: Option<NetworkErrorKind>,
    templates: ErrorPageTemplates,
    secret: Seq<char>,
) -> Seq<char> {
    match spec_content_action(content_type, error) {
        ContentAction::ImageDocument => "<html><body></body></html>"@,
        ContentAction::TextPlainDocument => "<pre>\n"@,
        ContentAction::BadCertPage => match error {
            Some(NetworkErrorKind::SslValidation { reason, cert_bytes }) => spec_replace_all(
                spec_replace_all(
                    spec_replace_all(templates.bad_cert@, "${reason}"@, reason@),
                    "${bytes}"@,
                    base64_nopad_of(cert_bytes@),
                ),
                "${secret}"@,
                secret,
            ),
            _ => Seq::empty(),
        },
        ContentAction::NetErrorPage => match error {
            Some(NetworkErrorKind::Internal { reason }) => spec_replace_all(
                templates.net_error@,
                "${reason}"@,
                reason@,
            ),
            _ => Seq::empty(),
        },
        ContentAction::CrashPage => match error {
            Some(NetworkErrorKind::Crash { details }) => spec_replace_all(
                templates.crash@,
                "${details}"@,
                details@,
            ),
            _ => Seq::empty(),
        },
        ContentAction::UnknownMimeWarningPage => match content_type {
            Some(ct) => "<html><body><p>Unknown content type ("@ + ct.top@ + "/"@ + ct.sub@
                + ").</p></body></html>"@,
            None => Seq::empty(),
        },
        _ => Seq::empty(),
    }
}

/// What the driver must do after the response metadata was processed.
#[derive(Clone, Copy, Debug, PartialEq, Eq, Structural)]
pub enum ResponseDirective {
    /// Nothing further: no content type, or the parser was gone or aborted.
    Stop,
    /// A placeholder page was pushed: drive a synchronous parse, then attach
    /// the image element to the parsed body.
    DriveThenAttachImage,
    /// A leading `<pre>` was pushed: drive a synchronous parse, then force
    /// raw-text lexing on the tokenizer.
    DriveThenSetPlaintext,
    /// A synthesized page was pushed: drive a synchronous parse.
    Drive,
    /// Parse the streamed body normally.
    ParseNormally,
}

/// The context of one document fetch: the bridge between a streaming
/// response and the parser.
pub struct ParserContext {
    /// Whether the parser was obtained when response metadata arrived.
    pub parser_linked: bool,
    /// Whether the final document was synthesized rather than the fetched
    /// bytes.
    pub is_synthesized_document: bool,
    /// The URL for this document.
    pub url: String,
    /// The redirect count observed on completion.
    pub redirect_count: u64,
}

impl ParserContext {
    pub fn new(url: String) -> (c: ParserContext)
        ensures
            !c.parser_linked,
            !c.is_synthesized_document,
            c.url == url,
            c.redirect_count == 0,
    {
        ParserContext { parser_linked: false, is_synthesized_document: false, url, redirect_count: 0 }
    }

    /// Response metadata arrived: applies the combined
    /// content-security-policy list to the document and dispatches on the
    /// content type, synthesizing a placeholder or error page where one is
    /// called for. The caller has already obtained the active parser; an
    /// aborted parser stops everything.
    pub fn process_response(
        &mut self,
        parser: &mut ServoParser,
        doc: &mut DocumentModel,
        content_type: Option<MimeClass>,
        error: Option<NetworkErrorKind>,
        csp_headers: Vec<Option<String>>,
        templates: &ErrorPageTemplates,
        secret: &String,
    ) -> (directive: ResponseDirective)
        requires
            old(parser).wf(),
        ensures
            final(parser).wf(),
            old(parser).aborted ==> directive == ResponseDirective::Stop && *final(self) == *old(
                self,
            ) && *final(parser) == *old(parser) && *final(doc) == *old(doc),
            !old(parser).aborted ==> {
                &&& final(self).parser_linked == (spec_content_action(content_type, error)
                    != ContentAction::DoNothing || old(self).parser_linked)
                &&& (spec_collected_policies(csp_headers@).len() > 0 ==> (
                final(doc).csp_policies matches Some(v) && v@.map_values(|s: String| s@)
                    == spec_collected_policies(csp_headers@)))
                &&& (spec_collected_policies(csp_headers@).len() == 0 ==> final(doc).csp_policies
                    == old(doc).csp_policies)
                &&& *final(parser) == (ServoParser {
                    bom_sniff: final(parser).bom_sniff,
                    network_input: final(parser).network_input,
                    prefetch_input: final(parser).prefetch_input,
                    ..*old(parser)
                })
                &&& (match spec_content_action(content_type, error) {
                    ContentAction::DoNothing => final(parser).bom_sniff == old(parser).bom_sniff,
                    ContentAction::ParseHtmlNormally => final(parser).bom_sniff == old(
                        parser,
                    ).bom_sniff,
                    ContentAction::NoSpecialHandling => final(parser).bom_sniff == old(
                        parser,
                    ).bom_sniff,
                    _ => final(parser).bom_sniff is None,
                })
                &&& directive == (match spec_content_action(content_type, error) {
                    ContentAction::DoNothing => ResponseDirective::Stop,
                    ContentAction::ImageDocument => ResponseDirective::DriveThenAttachImage,
                    ContentAction::TextPlainDocument => ResponseDirective::DriveThenSetPlaintext,
                    ContentAction::BadCertPage => ResponseDirective::Drive,
                    ContentAction::NetErrorPage => ResponseDirective::Drive,
                    ContentAction::CrashPage => ResponseDirective::Drive,
                    ContentAction::ParseHtmlNormally => ResponseDirective::ParseNormally,
                    ContentAction::NoSpecialHandling => ResponseDirective::ParseNormally,
                    ContentAction::UnknownMimeWarningPage => ResponseDirective::Drive,
                })
                &&& final(self).is_synthesized_document == (old(self).is_synthesized_document
                    || (match spec_content_action(content_type, error) {
                    ContentAction::ImageDocument => true,
                    ContentAction::BadCertPage => true,
                    ContentAction::NetErrorPage => true,
                    ContentAction::CrashPage => true,
                    ContentAction::UnknownMimeWarningPage => true,
                    _ => false,
                }))
                &&& ({
                    let page = spec_synthesized_page(content_type, error, *templates, secret@);
                    &&& (page.len() > 0 ==> {
                        &&& final(parser).network_input@ == old(parser).network_input@.push(page)
                        &&& final(parser).prefetch_input@ == (if old(doc).has_browsing_context {
                            old(parser).prefetch_input@.push(page)
                        } else {
                            old(parser).prefetch_input@
                        })
                    })
                    &&& (page.len() == 0 ==> {
                        &&& final(parser).network_input@ == old(parser).network_input@
                        &&& final(parser).prefetch_input@ == old(parser).prefetch_input@
                    })
                })
            },
    {
        if parser.aborted {
            return ResponseDirective::Stop;
        }
        let policies = collect_csp_policies(csp_headers);
        match policies {
            Some(v) => {
                doc.set_csp_list(Some(v));
            },
            None => {},
        }
        let action = response_content_action(&content_type, &error);
        match action {
            // No content-type header: nothing further happens, and with no
            // parser linked, later body chunks are effectively dropped — a
            // documented gap, not a defined behaviour.
            ContentAction::DoNothing => {
                return ResponseDirective::Stop;
            },
            _ => {},
        }
        self.parser_linked = true;
        match action {
            ContentAction::DoNothing => ResponseDirective::Stop,
            ContentAction::ImageDocument => {
                self.is_synthesized_document = true;
                let page = String::from_str("<html><body></body></html>");
                parser.push_string_input_chunk(doc, page);
                ResponseDirective::DriveThenAttachImage
            },
            ContentAction::TextPlainDocument => {
                let page = String::from_str("<pre>\n");
                parser.push_string_input_chunk(doc, page);
                ResponseDirective::DriveThenSetPlaintext
            },
            ContentAction::BadCertPage => {
                self.is_synthesized_document = true;
                let (reason, cert_bytes) = match &error {
                    Some(NetworkErrorKind::SslValidation { reason, cert_bytes }) => (
                        reason,
                        cert_bytes,
                    ),
                    _ => vstd::pervasive::unreached(),
                };
                let page = build_bad_cert_page(
                    templates.bad_cert.as_str(),
                    reason.as_str(),
                    cert_bytes,
                    secret.as_str(),
                );
                parser.push_string_input_chunk(doc, page);
                ResponseDirective::Drive
            },
            ContentAction::NetErrorPage => {
                self.is_synthesized_document = true;
                let reason = match &error {
                    Some(NetworkErrorKind::Internal { reason }) => reason,
                    _ => vstd::pervasive::unreached(),
                };
                let page = build_net_error_page(templates.net_error.as_str(), reason.as_str());
                parser.push_string_input_chunk(doc, page);
                ResponseDirective::Drive
            },
            ContentAction::CrashPage => {
                self.is_synthesized_document = true;
                let details = match &error {
                    Some(NetworkErrorKind::Crash { details }) => details,
                    _ => vstd::pervasive::unreached(),
                };
                let page = build_crash_page(templates.crash.as_str(), details.as_str());
                parser.push_string_input_chunk(doc, page);
                ResponseDirective::Drive
            },
            ContentAction::ParseHtmlNormally => ResponseDirective::ParseNormally,
            ContentAction::NoSpecialHandling => ResponseDirective::ParseNormally,
            ContentAction::UnknownMimeWarningPage => {
                self.is_synthesized_document = true;
                let (top, sub) = match &content_type {
                    Some(ct) => (&ct.top, &ct.sub),
                    None => vstd::pervasive::unreached(),
                };
                let page = build_unknown_mime_page(top.as_str(), sub.as_str());
                parser.push_string_input_chunk(doc, page);
                ResponseDirective::Drive
            },
        }
    }

    /// One body chunk arrived: dropped when the document was synthesized,
    /// when no parser was linked, or when the parser was aborted; otherwise
    /// decoded and queued, and a synchronous parse must be driven unless
    /// suspended.
    pub fn process_response_chunk(
        &mut self,
        parser: &mut ServoParser,
        doc: &mut DocumentModel,
        payload: Vec<u8>,
    ) -> (drive: bool)
        requires
            old(parser).wf(),
            old(parser).network_decoder is Some,
            payload@.len() <= 0x1000_0000,
        ensures
            *final(self) == *old(self),
            final(parser).wf(),
            old(self).is_synthesized_document || !old(self).parser_linked || old(parser).aborted
                ==> !drive && *final(parser) == *old(parser) && *final(doc) == *old(doc),
            !(old(self).is_synthesized_document || !old(self).parser_linked || old(
                parser,
            ).aborted) ==> {
                &&& drive == !final(parser).suspended
                &&& final(doc).has_current_parser
                &&& ServoParser::spec_bytes_pushed(
                    *old(parser),
                    *final(parser),
                    (DocumentModel { has_current_parser: true, ..*old(doc) }),
                    *final(doc),
                    payload@,
                )
            },
    {
        if self.is_synthesized_document {
            return false;
        }
        if !self.parser_linked {
            return false;
        }
        if parser.aborted {
            return false;
        }
        parser.parse_bytes_chunk(doc, payload)
    }

    /// The response completed: records the observed redirect count on the
    /// document, marks end-of-stream, and says whether a synchronous parse
    /// must be driven now.
    pub fn process_response_eof(
        &mut self,
        parser: &mut ServoParser,
        doc: &mut DocumentModel,
    ) -> (drive: bool)
        ensures
            *final(self) == *old(self),
            !old(self).parser_linked || old(parser).aborted ==> !drive && *final(parser) == *old(
                parser,
            ) && *final(doc) == *old(doc),
            old(self).parser_linked && !old(parser).aborted ==> {
                &&& *final(doc) == (DocumentModel {
                    redirect_count: old(self).redirect_count,
                    ..*old(doc)
                })
                &&& *final(parser) == (ServoParser {
                    last_chunk_received: true,
                    ..*old(parser)
                })
                &&& drive == !old(parser).suspended
            },
    {
        if !self.parser_linked {
            return false;
        }
        if parser.aborted {
            return false;
        }
        doc.set_redirect_count(self.redirect_count);
        parser.last_chunk_received = true;
        !parser.suspended
    }
}

/// Synthesizes the response metadata used in place of a failed fetch: the
/// SSL-validation, internal and crash failures are shown as `text/html`
/// error documents, so their stand-in metadata carries that content type.
pub fn synthesized_error_metadata(error: &NetworkErrorKind) -> (r: Option<MimeClass>)
    ensures
        (error matches NetworkErrorKind::Other) ==> r is None,
        !(error matches NetworkErrorKind::Other) ==> (r matches Some(m) && m.top@ == "text"@
            && m.sub@ == "html"@ && m.suffix is None),
{
    match error {
        NetworkErrorKind::Other => None,
        _ => parse_mime("text/html"),
    }
}

/// After an image document was parsed, hangs an `img` element pointing at
/// the resource URL under the parsed body.
pub fn attach_image_to_body(doc: &mut DocumentModel, url: &String)
    requires
        old(doc).tree.wf(),
        spec_body_element(old(doc).tree@) is Some,
    ensures
        final(doc).tree.wf(),
        final(doc).tree@.len() == old(doc).tree@.len() + 1,
        ({
            let id = old(doc).tree@.len() as int;
            let body = spec_body_element(old(doc).tree@).unwrap() as int;
            &&& final(doc).tree@[id].data matches NodeData::Element(ed) && ed.name.local@
                == "img"@ && ed.attrs@.len() == 1 && ed.attrs@[0].name.local@ == "src"@
                && ed.attrs@[0].value@ == url@
            &&& final(doc).tree@[id].parent == Some(spec_body_element(old(doc).tree@).unwrap())
        }),
{
    let body = match find_body_element(doc) {
        Some(b) => b,
        None => vstd::pervasive::unreached(),
    };
    let name = QualifiedName::new(
        String::from_str("http://www.w3.org/1999/xhtml"),
        String::from_str("img"),
    );
    let mut attrs: Vec<ElementAttribute> = Vec::new();
    attrs.push(
        ElementAttribute::new(
            QualifiedName::new(String::new(), String::from_str("src")),
            url.clone(),
        ),
    );
    let id = doc.tree.add_node(
        NodeData::Element(
            crate::dom::ElementData {
                name,
                attrs,
                script_already_started: false,
                pop_notified: 0,
                form_owner: None,
                sanitize_passes: 0,
                created_sync: false,
            },
        ),
    );
    proof {
        assert(id != 0) by {
            assert(old(doc).tree@[0].data is Document);
        }
    }
    doc.tree.insert_before(body, None, id);
}

/// The body element: the first `body`-named element child of the document
/// element.
pub open spec fn spec_body_element(a: Seq<crate::dom::Node>) -> Option<usize> {
    match crate::parser::spec_document_element(a) {
        None => None,
        Some(root) => spec_first_child_named(a, a[root as int].children@, "body"@),
    }
}

pub open spec fn spec_first_child_named(
    a: Seq<crate::dom::Node>,
    ch: Seq<usize>,
    local: Seq<char>,
) -> Option<usize>
    decreases ch.len(),
{
    if ch.len() == 0 {
        None
    } else if a[ch[0] as int].data is Element && spec_element_local(a, ch[0] as int) == local {
        Some(ch[0])
    } else {
        spec_first_child_named(a, ch.drop_first(), local)
    }
}

/// Whether node `n` is an element whose local name is exactly `lit`.
fn element_local_is(doc: &DocumentModel, n: usize, lit: &str) -> (r: bool)
    requires
        n < doc.tree@.len(),
    ensures
        r == (doc.tree@[n as int].data is Element && spec_element_local(doc.tree@, n as int)
            == lit@),
{
    match &doc.tree.node(n).data {
        NodeData::Element(ed) => str_eq(ed.name.local.as_str(), lit),
        _ => false,
    }
}

/// Finds the parsed document's body element.
pub fn find_body_element(doc: &DocumentModel) -> (r: Option<usize>)
    requires
        doc.tree.wf(),
    ensures
        r == spec_body_element(doc.tree@),
        r matches Some(b) ==> b < doc.tree@.len() && doc.tree@[b as int].data is Element,
{
    let root = match crate::parser::find_document_element(doc) {
        Some(r) => r,
        None => {
            return None;
        },
    };
    let ghost a = doc.tree@;
    let ghost all = a[root as int].children@;
    let count = doc.tree.node(root).children.len();
    let mut k: usize = 0;
    proof {
        assert(all.skip(0) =~= all);
    }
    while k < count
        invariant
            a == doc.tree@,
            doc.tree.wf(),
            root < a.len(),
            Some(root) == crate::parser::spec_document_element(a),
            all == a[root as int].children@,
            count == all.len(),
            k <= count,
            spec_first_child_named(a, all.skip(k as int), "body"@) == spec_first_child_named(
                a,
                all,
                "body"@,
            ),
        decreases count - k,
    {
        let c = doc.tree.node(root).children[k];
        proof {
            let rest = all.skip(k as int);
            assert(rest[0] == all[k as int]);
            assert(rest.drop_first() =~= all.skip(k + 1 as int));
            assert(c < a.len());
        }
        let named = element_local_is(doc, c, "body");
        if named {
            proof {
                let rest = all.skip(k as int);
                assert(a[c as int].data is Element);
                assert(spec_element_local(a, c as int) == "body"@);
                assert(spec_first_child_named(a, rest, "body"@) == Some(c));
                assert(spec_body_element(a) == Some(c));
            }
            return Some(c);
        }
        k = k + 1;
    }
    proof {
        assert(all.skip(count as int) =~= Seq::<usize>::empty());
    }
    None
}

} // verus!
