//! A model of the owning document and its environment, as the parser and
//! the tree-construction adapter observe them: the tree arena plus the
//! document-level state the parser reads and writes (quirks mode, encoding,
//! readiness, current-parser registration, pending-blocking-script flag),
//! and explicit counters for the script environment (microtask checkpoints,
//! custom-element reaction queues, the dynamic-markup-insertion guard)
//! instead of ambient global state.

use vstd::prelude::*;

verus! {

use crate::bom::TextEncoding;
use crate::dom::DomArena;

/// Document-wide compatibility mode selected from the doctype.
#[derive(Clone, Copy, Debug, PartialEq, Eq, Structural)]
pub enum QuirksModeKind {
    NoQuirks,
    LimitedQuirks,
    Quirks,
}

/// Document readiness, as the parser drives it.
#[derive(Clone, Copy, Debug, PartialEq, Eq, Structural)]
pub enum ReadyState {
    Loading,
    Interactive,
    Complete,
}

/// A key under which a custom-element definition is registered.
pub struct CustomElementKey {
    pub ns: String,
    pub local: String,
    pub is: Option<String>,
}

/// The document and its script environment, as far as the parser touches
/// them.
pub struct DocumentModel {
    /// The document tree.
    pub tree: DomArena,
    pub quirks_mode: QuirksModeKind,
    pub encoding: TextEncoding,
    pub ready_state: ReadyState,
    /// Whether this document currently has a registered parser.
    pub has_current_parser: bool,
    /// Whether a parser-blocking script is pending.
    pub pending_parsing_blocking_script: bool,
    /// Whether the document has a browsing context worth prefetching for.
    pub has_browsing_context: bool,
    /// Whether no script is currently executing anywhere in the environment.
    pub execution_stack_empty: bool,
    /// The throw-on-dynamic-markup-insertion guard counter.
    pub throw_on_dynamic_markup_insertion: u64,
    /// How many microtask checkpoints were performed.
    pub microtask_checkpoints: u64,
    /// Custom-element reaction queues pushed and popped.
    pub element_queues_pushed: u64,
    pub element_queues_popped: u64,
    /// The URL whose load completed, once the parser finished.
    pub finished_load: Option<String>,
    pub redirect_count: u64,
    /// The content-security-policy texts applied to the document, if any.
    pub csp_policies: Option<Vec<String>>,
    /// Registered custom-element definitions.
    pub custom_element_registry: Vec<CustomElementKey>,
}

/// Everything of the document except the tree and the script-environment
/// counters is unchanged.
pub open spec fn same_doc_except_tree_and_queues(d0: DocumentModel, d1: DocumentModel) -> bool {
    &&& d1.quirks_mode == d0.quirks_mode
    &&& d1.encoding == d0.encoding
    &&& d1.ready_state == d0.ready_state
    &&& d1.has_current_parser == d0.has_current_parser
    &&& d1.pending_parsing_blocking_script == d0.pending_parsing_blocking_script
    &&& d1.has_browsing_context == d0.has_browsing_context
    &&& d1.execution_stack_empty == d0.execution_stack_empty
    &&& d1.finished_load == d0.finished_load
    &&& d1.redirect_count == d0.redirect_count
    &&& d1.csp_policies == d0.csp_policies
    &&& d1.custom_element_registry == d0.custom_element_registry
}

/// Everything of the document except the tree is unchanged.
pub open spec fn same_doc_except_tree(d0: DocumentModel, d1: DocumentModel) -> bool {
    &&& same_doc_except_tree_and_queues(d0, d1)
    &&& d1.throw_on_dynamic_markup_insertion == d0.throw_on_dynamic_markup_insertion
    &&& d1.microtask_checkpoints == d0.microtask_checkpoints
    &&& d1.element_queues_pushed == d0.element_queues_pushed
    &&& d1.element_queues_popped == d0.element_queues_popped
}

/// Whether a custom-element definition is registered for this name and
/// `is` value.
pub open spec fn spec_has_definition(
    registry: Seq<CustomElementKey>,
    ns: Seq<char>,
    local: Seq<char>,
    is: Option<Seq<char>>,
) -> bool {
    exists|i: int|
        0 <= i < registry.len() && (#[trigger] registry[i]).ns@ == ns && registry[i].local@ == local
            && match (registry[i].is, is) {
            (Some(a), Some(b)) => a@ == b,
            (None, None) => true,
            _ => false,
        }
}

impl DocumentModel {
    /// A fresh document: empty tree, no quirks, UTF-8, still loading.
    pub fn new(has_browsing_context: bool) -> (d: DocumentModel)
        ensures
            d.tree.wf(),
            d.tree@.len() == 1,
            d.quirks_mode == QuirksModeKind::NoQuirks,
            d.encoding == TextEncoding::Utf8,
            d.ready_state == ReadyState::Loading,
            !d.has_current_parser,
            !d.pending_parsing_blocking_script,
            d.has_browsing_context == has_browsing_context,
            d.execution_stack_empty,
            d.throw_on_dynamic_markup_insertion == 0,
            d.microtask_checkpoints == 0,
            d.element_queues_pushed == 0,
            d.element_queues_popped == 0,
            d.finished_load is None,
            d.redirect_count == 0,
            d.csp_policies is None,
            d.custom_element_registry@ == Seq::<CustomElementKey>::empty(),
    {
        DocumentModel {
            tree: DomArena::new(),
            quirks_mode: QuirksModeKind::NoQuirks,
            encoding: TextEncoding::Utf8,
            ready_state: ReadyState::Loading,
            has_current_parser: false,
            pending_parsing_blocking_script: false,
            has_browsing_context,
            execution_stack_empty: true,
            throw_on_dynamic_markup_insertion: 0,
            microtask_checkpoints: 0,
            element_queues_pushed: 0,
            element_queues_popped: 0,
            finished_load: None,
            redirect_count: 0,
            csp_policies: None,
            custom_element_registry: Vec::new(),
        }
    }

    pub fn set_encoding(&mut self, encoding: TextEncoding)
        ensures
            *final(self) == (DocumentModel { encoding, ..*old(self) }),
    {
        self.encoding = encoding;
    }

    pub fn set_quirks_mode(&mut self, mode: QuirksModeKind)
        ensures
            *final(self) == (DocumentModel { quirks_mode: mode, ..*old(self) }),
    {
        self.quirks_mode = mode;
    }

    pub fn set_ready_state(&mut self, state: ReadyState)
        ensures
            *final(self) == (DocumentModel { ready_state: state, ..*old(self) }),
    {
        self.ready_state = state;
    }

    pub fn set_current_parser(&mut self, present: bool)
        ensures
            *final(self) == (DocumentModel { has_current_parser: present, ..*old(self) }),
    {
        self.has_current_parser = present;
    }

    pub fn set_pending_parsing_blocking_script(&mut self, pending: bool)
        ensures
            *final(self) == (DocumentModel {
                pending_parsing_blocking_script: pending,
                ..*old(self)
            }),
    {
        self.pending_parsing_blocking_script = pending;
    }

    pub fn set_execution_stack_empty(&mut self, empty: bool)
        ensures
            *final(self) == (DocumentModel { execution_stack_empty: empty, ..*old(self) }),
    {
        self.execution_stack_empty = empty;
    }

    pub fn set_redirect_count(&mut self, count: u64)
        ensures
            *final(self) == (DocumentModel { redirect_count: count, ..*old(self) }),
    {
        self.redirect_count = count;
    }

    pub fn set_csp_list(&mut self, policies: Option<Vec<String>>)
        ensures
            *final(self) == (DocumentModel { csp_policies: policies, ..*old(self) }),
    {
        self.csp_policies = policies;
    }

    /// Records that the document's load finished with the parsed URL.
    pub fn finish_load(&mut self, url: String)
        ensures
            *final(self) == (DocumentModel { finished_load: Some(url), ..*old(self) }),
    {
        self.finished_load = Some(url);
    }

    /// Performs a microtask checkpoint (modelled as a counter).
    pub fn perform_microtask_checkpoint(&mut self)
        requires
            old(self).microtask_checkpoints < u64::MAX,
        ensures
            *final(self) == (DocumentModel {
                microtask_checkpoints: (old(self).microtask_checkpoints + 1) as u64,
                ..*old(self)
            }),
    {
        self.microtask_checkpoints = self.microtask_checkpoints + 1;
    }

    pub fn register_custom_element(&mut self, key: CustomElementKey)
        ensures
            final(self).custom_element_registry@ == old(self).custom_element_registry@.push(key),
            *final(self) == (DocumentModel {
                custom_element_registry: final(self).custom_element_registry,
                ..*old(self)
            }),
    {
        self.custom_element_registry.push(key);
    }

    /// Looks up whether a custom-element definition matches the given name,
    /// honouring an explicit `is` value.
    pub fn lookup_custom_element_definition(
        &self,
        ns: &String,
        local: &String,
        is: &Option<String>,
    ) -> (r: bool)
        ensures
            r == spec_has_definition(
                self.custom_element_registry@,
                ns@,
                local@,
                match is {
                    Some(s) => Some(s@),
                    None => None,
                },
            ),
    {
        let reg = &self.custom_element_registry;
        let ghost isv: Option<Seq<char>> = match is {
            Some(s) => Some(s@),
            None => None,
        };
        let mut i: usize = 0;
        while i < reg.len()
            invariant
                reg == &self.custom_element_registry,
                isv == (match is {
                    Some(s) => Some(s@),
                    None => None::<Seq<char>>,
                }),
                i <= reg@.len(),
                forall|j: int|
                    0 <= j < i ==> !((#[trigger] reg@[j]).ns@ == ns@ && reg@[j].local@ == local@
                        && match (reg@[j].is, isv) {
                        (Some(a), Some(b)) => a@ == b,
                        (None, None) => true,
                        _ => false,
                    }),
            decreases reg@.len() - i,
        {
            let key = &reg[i];
            let ns_eq = key.ns == *ns;
            let local_eq = key.local == *local;
            let is_eq: bool = match (&key.is, is) {
                (Some(a), Some(b)) => *a == *b,
                (None, None) => true,
                _ => false,
            };
            if ns_eq && local_eq && is_eq {
                proof {
                    assert(spec_has_definition(reg@, ns@, local@, isv)) by {
                        assert((reg@[i as int]).ns@ == ns@);
                    }
                }
                return true;
            }
            i = i + 1;
        }
        false
    }
}

} // verus!
