//! The tree-construction adapter: turns the structural events of the
//! tokenizer into mutations of the arena document, and the element-creation
//! algorithm that decides synchronous versus deferred custom-element
//! construction and sequences attribute application around value
//! sanitization.

use vstd::prelude::*;

verus! {

use crate::document::spec_has_definition;
use crate::document::same_doc_except_tree_and_queues;
use crate::document::DocumentModel;
use crate::document::QuirksModeKind;
use crate::dom::spec_insert_position;
use crate::dom::spec_last_child;
use crate::dom::spec_prev_sibling;
use crate::dom::ElementAttribute;
use crate::dom::ElementData;
use crate::dom::Node;
use crate::dom::NodeData;
use crate::dom::NodeOrText;
use crate::dom::QualifiedName;
use crate::dom::spec_add_attrs_if_missing;
use crate::dom::spec_attr_value;
use crate::dom::DomArena;
use crate::util::eq_ignore_ascii_case;
use crate::util::spec_eq_ignore_ascii_case;
use crate::util::str_eq;
use vstd::string::StringExecFns;

/// Whether a parse builds a whole document or a fragment against a context
/// element; fragment parsing never notifies custom-element reaction queues.
#[derive(Clone, Copy, Debug, PartialEq, Eq, Structural)]
pub enum ParsingAlgorithm {
    Normal,
    Fragment,
}

/// What the tokenizer should do after an element was popped complete.
#[derive(Clone, Copy, Debug, PartialEq, Eq, Structural)]
pub enum NextParserState {
    Suspend,
    Continue,
}

/// The tree-construction adapter's own state: everything else it touches
/// lives in the document it is handed.
pub struct Sink {
    pub base_url: String,
    pub current_line: u64,
    /// The just-completed script element waiting to be run, if any.
    pub script: Option<usize>,
    pub parsing_algorithm: ParsingAlgorithm,
    /// How many parse errors the tokenizer reported.
    pub parse_errors: u64,
}

/// The node whose text would absorb an inserted character run: the previous
/// sibling of the reference child, or the last child when appending, and
/// only if that node is a text node.
pub open spec fn spec_text_merge_target(
    a: Seq<Node>,
    parent: int,
    reference_child: Option<usize>,
) -> Option<usize> {
    let anchor = match reference_child {
        Some(r) => spec_prev_sibling(a, parent, r),
        None => spec_last_child(a, parent),
    };
    match anchor {
        Some(x) => if a[x as int].data is Text {
            Some(x)
        } else {
            None
        },
        None => None,
    }
}

/// The root reached from `i` by following parent links, walking at most
/// `fuel` edges.
pub open spec fn spec_root_within(a: Seq<Node>, i: int, fuel: nat) -> Option<usize>
    decreases fuel,
{
    if a[i].parent is None {
        Some(i as usize)
    } else if fuel == 0 {
        None
    } else {
        spec_root_within(a, a[i].parent.unwrap() as int, (fuel - 1) as nat)
    }
}

/// Whether two element nodes live in the same home subtree: parent chains
/// from both reach the same root within the arena's size.
pub open spec fn spec_same_tree(a: Seq<Node>, x: int, y: int) -> bool {
    &&& spec_root_within(a, x, a.len()) is Some
    &&& spec_root_within(a, x, a.len()) == spec_root_within(a, y, a.len())
}

pub open spec fn spec_is_element(a: Seq<Node>, i: int) -> bool {
    a[i].data is Element
}

pub open spec fn spec_element_local(a: Seq<Node>, i: int) -> Seq<char> {
    (a[i].data)->Element_0.name.local@
}

/// The form-associable controls whose owner the parser may set.
pub open spec fn spec_is_form_control(a: Seq<Node>, i: int) -> bool {
    &&& a[i].data is Element
    &&& {
        let local = spec_element_local(a, i);
        ||| local == "button"@
        ||| local == "fieldset"@
        ||| local == "input"@
        ||| local == "object"@
        ||| local == "output"@
        ||| local == "select"@
        ||| local == "textarea"@
    }
}

/// The first attribute whose local name is `is`, compared ASCII
/// case-insensitively; its value selects the custom-element definition.
pub open spec fn spec_is_value(attrs: Seq<ElementAttribute>) -> Option<Seq<char>>
    decreases attrs.len(),
{
    if attrs.len() == 0 {
        None
    } else if spec_eq_ignore_ascii_case(attrs[0].name.local@, "is"@) {
        Some(attrs[0].value@)
    } else {
        spec_is_value(attrs.drop_first())
    }
}

/// Whether creating an element for this token must run custom-element
/// construction synchronously and script-visibly.
pub open spec fn spec_will_execute_script(
    doc: DocumentModel,
    name: QualifiedName,
    attrs: Seq<ElementAttribute>,
    parsing_algorithm: ParsingAlgorithm,
) -> bool {
    &&& spec_has_definition(
        doc.custom_element_registry@,
        name.ns@,
        name.local@,
        spec_is_value(attrs),
    )
    &&& parsing_algorithm != ParsingAlgorithm::Fragment
}

/// Exactly how `insert` changes the document: an inserted node lands at the
/// chosen position with a reaction-queue bracket outside fragment parsing; an
/// inserted text run merges into the preceding text node when there is one
/// and otherwise becomes a new text node at the chosen position.
pub open spec fn spec_inserted(
    d0: DocumentModel,
    d1: DocumentModel,
    parent: usize,
    reference_child: Option<usize>,
    child: NodeOrText,
    parsing_algorithm: ParsingAlgorithm,
) -> bool {
    &&& (child matches NodeOrText::AppendNode(n) ==> {
        let bracket = parsing_algorithm != ParsingAlgorithm::Fragment && d0.tree@[n as int].data
            is Element;
        &&& d1.tree@.len() == d0.tree@.len()
        &&& d1.tree@[parent as int].children@ == d0.tree@[parent as int].children@.insert(
            spec_insert_position(d0.tree@[parent as int].children@, reference_child),
            n,
        )
        &&& d1.tree@[n as int].parent == Some(parent)
        &&& d1.tree@[n as int].data == d0.tree@[n as int].data
        &&& forall|i: int|
            0 <= i < d0.tree@.len() && i != parent && i != n ==> d1.tree@[i] == d0.tree@[i]
        &&& d1.element_queues_pushed == d0.element_queues_pushed + (
        if bracket {
            1int
        } else {
            0int
        })
        &&& d1.element_queues_popped == d0.element_queues_popped + (
        if bracket {
            1int
        } else {
            0int
        })
    })
    &&& (child matches NodeOrText::AppendText(t) ==> {
        let target = spec_text_merge_target(d0.tree@, parent as int, reference_child);
        &&& d1.element_queues_pushed == d0.element_queues_pushed
        &&& d1.element_queues_popped == d0.element_queues_popped
        &&& match target {
            Some(x) => {
                &&& d1.tree@.len() == d0.tree@.len()
                &&& d1.tree@[x as int].data matches NodeData::Text { contents } && contents@ == (
                d0.tree@[x as int].data)->Text_contents@ + t@
                &&& forall|i: int|
                    0 <= i < d0.tree@.len() && i != x ==> d1.tree@[i] == d0.tree@[i]
            },
            None => {
                let id = d0.tree@.len() as int;
                &&& d1.tree@.len() == d0.tree@.len() + 1
                &&& d1.tree@[id].data matches NodeData::Text { contents } && contents@ == t@
                &&& d1.tree@[id].parent == Some(parent)
                &&& d1.tree@[parent as int].children@ == d0.tree@[parent as int].children@.insert(
                    spec_insert_position(d0.tree@[parent as int].children@, reference_child),
                    id as usize,
                )
                &&& forall|i: int|
                    0 <= i < d0.tree@.len() && i != parent ==> d1.tree@[i] == d0.tree@[i]
            },
        }
    })
}

/// Inserts a node or a run of text at the given tree position, honouring the
/// insert-a-node and insert-a-character algorithms: adjacent text runs merge
/// into an existing preceding text node rather than starting a new one, and
/// inserting an element outside fragment parsing brackets the insertion in a
/// fresh custom-element reaction queue.
pub fn insert(
    doc: &mut DocumentModel,
    parent: usize,
    reference_child: Option<usize>,
    child: NodeOrText,
    parsing_algorithm: ParsingAlgorithm,
)
    requires
        old(doc).tree.wf(),
        parent < old(doc).tree@.len(),
        child matches NodeOrText::AppendNode(n) ==> n < old(doc).tree@.len() && n != parent && n
            != 0 && old(doc).tree@[n as int].parent is None,
        reference_child matches Some(r) ==> r < old(doc).tree@.len() && old(
            doc,
        ).tree@[r as int].parent == Some(parent),
        old(doc).element_queues_pushed < u64::MAX,
        old(doc).element_queues_popped < u64::MAX,
    ensures
        final(doc).tree.wf(),
        same_doc_except_tree_and_queues(*old(doc), *final(doc)),
        final(doc).throw_on_dynamic_markup_insertion == old(doc).throw_on_dynamic_markup_insertion,
        final(doc).microtask_checkpoints == old(doc).microtask_checkpoints,
        spec_inserted(*old(doc), *final(doc), parent, reference_child, child, parsing_algorithm),
{
    match child {
        NodeOrText::AppendNode(n) => {
            let is_elem = node_is_element(doc, n);
            let bracket = parsing_algorithm != ParsingAlgorithm::Fragment && is_elem;
            if bracket {
                doc.element_queues_pushed = doc.element_queues_pushed + 1;
            }
            doc.tree.insert_before(parent, reference_child, n);
            if bracket {
                doc.element_queues_popped = doc.element_queues_popped + 1;
            }
        },
        NodeOrText::AppendText(t) => {
            let anchor: Option<usize> = match reference_child {
                Some(r) => doc.tree.prev_sibling(parent, r),
                None => doc.tree.last_child(parent),
            };
            let target: Option<usize> = match anchor {
                Some(x) => {
                    proof {
                        let a = doc.tree@;
                        let ch = a[parent as int].children@;
                        match reference_child {
                            Some(r) => {
                                assert(ch.contains(r) && ch.index_of(r) > 0);
                                assert(ch[ch.index_of(r) - 1] == x);
                            },
                            None => {
                                assert(ch[ch.len() - 1] == x);
                            },
                        }
                        assert(x < a.len());
                    }
                    match doc.tree.node(x).data {
                        NodeData::Text { .. } => Some(x),
                        _ => None,
                    }
                },
                None => None,
            };
            match target {
                Some(x) => {
                    doc.tree.append_text_data(x, &t);
                },
                None => {
                    let id = doc.tree.add_node(NodeData::Text { contents: t });
                    doc.tree.insert_before(parent, reference_child, id);
                },
            }
        },
    }
}

/// Whether the node is an element.
pub fn node_is_element(doc: &DocumentModel, n: usize) -> (r: bool)
    requires
        n < doc.tree@.len(),
    ensures
        r == (doc.tree@[n as int].data is Element),
{
    match doc.tree.node(n).data {
        NodeData::Element(..) => true,
        _ => false,
    }
}





/// The candidate whose home subtree decides form association: the previous
/// candidate only stands in when the candidate itself has no parent yet.
pub open spec fn spec_assoc_candidate(
    a: Seq<Node>,
    element: usize,
    prev_element: Option<usize>,
) -> usize {
    match prev_element {
        None => element,
        Some(p) => if a[element as int].parent is Some {
            element
        } else {
            p
        },
    }
}

/// The first `is` attribute of the list, if any, as the element-creation
/// algorithm reads it.
pub fn find_is_value(attrs: &Vec<ElementAttribute>) -> (r: Option<String>)
    ensures
        r matches Some(s) ==> spec_is_value(attrs@) == Some(s@),
        r is None ==> spec_is_value(attrs@) is None,
{
    let mut i: usize = 0;
    proof {
        assert(attrs@.skip(0) =~= attrs@);
    }
    while i < attrs.len()
        invariant
            i <= attrs@.len(),
            spec_is_value(attrs@.skip(i as int)) == spec_is_value(attrs@),
        decreases attrs@.len() - i,
    {
        let ghost rest = attrs@.skip(i as int);
        proof {
            assert(rest[0] == attrs@[i as int]);
            assert(rest.drop_first() =~= attrs@.skip(i + 1 as int));
        }
        if eq_ignore_ascii_case(attrs[i].name.local.as_str(), "is") {
            return Some(attrs[i].value.clone());
        }
        i = i + 1;
    }
    proof {
        assert(attrs@.skip(attrs@.len() as int) =~= Seq::<ElementAttribute>::empty());
    }
    None
}

/// Creates an element for a token: resolves a custom-element definition
/// (honouring an explicit `is` attribute), decides synchronous versus
/// deferred construction, and applies every attribute in document order; for
/// an input-like element, value sanitization runs exactly once, after all
/// attributes are set. A synchronous construction is bracketed by the
/// dynamic-markup-insertion guard, a microtask checkpoint when no script is
/// running, and a fresh custom-element reaction queue.
pub fn create_element_for_token(
    name: QualifiedName,
    attrs: Vec<ElementAttribute>,
    doc: &mut DocumentModel,
    parsing_algorithm: ParsingAlgorithm,
) -> (id: usize)
    requires
        old(doc).tree.wf(),
        old(doc).throw_on_dynamic_markup_insertion < u64::MAX,
        old(doc).microtask_checkpoints < u64::MAX,
        old(doc).element_queues_pushed < u64::MAX,
        old(doc).element_queues_popped < u64::MAX,
    ensures
        final(doc).tree.wf(),
        same_doc_except_tree_and_queues(*old(doc), *final(doc)),
        id == old(doc).tree@.len(),
        final(doc).tree@.len() == old(doc).tree@.len() + 1,
        forall|i: int| 0 <= i < old(doc).tree@.len() ==> final(doc).tree@[i] == old(doc).tree@[i],
        final(doc).tree@[id as int].parent is None,
        final(doc).tree@[id as int].children@ == Seq::<usize>::empty(),
        (final(doc).tree@[id as int].data matches NodeData::Element(ed) && {
            let will = spec_will_execute_script(*old(doc), name, attrs@, parsing_algorithm);
            &&& ed.name == name
            &&& ed.attrs@ == attrs@
            &&& !ed.script_already_started
            &&& ed.pop_notified == 0
            &&& ed.form_owner is None
            &&& ed.sanitize_passes == (if name.local@ == "input"@ { 1int } else { 0int })
            &&& ed.created_sync == will
        }),
        ({
            let will = spec_will_execute_script(*old(doc), name, attrs@, parsing_algorithm);
            &&& final(doc).throw_on_dynamic_markup_insertion == old(
                doc,
            ).throw_on_dynamic_markup_insertion
            &&& final(doc).microtask_checkpoints == old(doc).microtask_checkpoints + (
            if will && old(doc).execution_stack_empty {
                1int
            } else {
                0int
            })
            &&& final(doc).element_queues_pushed == old(doc).element_queues_pushed + (
            if will {
                1int
            } else {
                0int
            })
            &&& final(doc).element_queues_popped == old(doc).element_queues_popped + (
            if will {
                1int
            } else {
                0int
            })
        }),
{
    let is_value = find_is_value(&attrs);
    let definition = doc.lookup_custom_element_definition(&name.ns, &name.local, &is_value);
    let will_execute_script = definition && parsing_algorithm != ParsingAlgorithm::Fragment;
    if will_execute_script {
        doc.throw_on_dynamic_markup_insertion = doc.throw_on_dynamic_markup_insertion + 1;
        if doc.execution_stack_empty {
            doc.perform_microtask_checkpoint();
        }
        doc.element_queues_pushed = doc.element_queues_pushed + 1;
    }
    let is_input = str_eq(name.local.as_str(), "input");
    let sanitize_passes: u64 = if is_input {
        1
    } else {
        0
    };
    let id = doc.tree.add_node(
        NodeData::Element(
            ElementData {
                name,
                attrs,
                script_already_started: false,
                pop_notified: 0,
                form_owner: None,
                sanitize_passes,
                created_sync: will_execute_script,
            },
        ),
    );
    if will_execute_script {
        doc.element_queues_popped = doc.element_queues_popped + 1;
        doc.throw_on_dynamic_markup_insertion = doc.throw_on_dynamic_markup_insertion - 1;
    }
    id
}

impl Sink {
    pub fn new(base_url: String, parsing_algorithm: ParsingAlgorithm) -> (s: Sink)
        ensures
            s.base_url == base_url,
            s.current_line == 1,
            s.script is None,
            s.parsing_algorithm == parsing_algorithm,
            s.parse_errors == 0,
    {
        Sink { base_url, current_line: 1, script: None, parsing_algorithm, parse_errors: 0 }
    }

    /// The root of the home subtree `start` sits in, found by walking parent
    /// links with bounded fuel.
    fn home_root(&self, doc: &DocumentModel, start: usize) -> (r: Option<usize>)
        requires
            doc.tree.wf(),
            start < doc.tree@.len(),
        ensures
            r == spec_root_within(doc.tree@, start as int, doc.tree@.len()),
    {
        let ghost a = doc.tree@;
        let mut cur = start;
        let mut fuel = doc.tree.len();
        loop
            invariant
                a == doc.tree@,
                doc.tree.wf(),
                cur < a.len(),
                spec_root_within(a, cur as int, fuel as nat) == spec_root_within(
                    a,
                    start as int,
                    a.len(),
                ),
            decreases fuel,
        {
            match doc.tree.node(cur).parent {
                None => {
                    return Some(cur);
                },
                Some(p) => {
                    if fuel == 0 {
                        return None;
                    }
                    proof {
                        assert(a[cur as int].parent == Some(p));
                        assert(0 <= p < a.len());
                    }
                    fuel = fuel - 1;
                    cur = p;
                },
            }
        }
    }

    /// Whether two element nodes are in the same home subtree.
    pub fn same_tree(&self, doc: &DocumentModel, x: usize, y: usize) -> (r: bool)
        requires
            doc.tree.wf(),
            x < doc.tree@.len(),
            y < doc.tree@.len(),
            doc.tree@[x as int].data is Element,
            doc.tree@[y as int].data is Element,
        ensures
            r == spec_same_tree(doc.tree@, x as int, y as int),
    {
        let rx = self.home_root(doc, x);
        let ry = self.home_root(doc, y);
        match (rx, ry) {
            (Some(a), Some(b)) => a == b,
            _ => false,
        }
    }

    pub fn has_parent_node(&self, doc: &DocumentModel, node: usize) -> (r: bool)
        requires
            node < doc.tree@.len(),
        ensures
            r == (doc.tree@[node as int].parent is Some),
    {
        match doc.tree.node(node).parent {
            Some(_) => true,
            None => false,
        }
    }

    /// The handle of the document node itself.
    pub fn get_document(&self, doc: &DocumentModel) -> (r: usize)
        requires
            doc.tree.wf(),
        ensures
            r == 0,
            doc.tree@[r as int].data is Document,
    {
        0
    }

    pub fn same_node(&self, x: usize, y: usize) -> (r: bool)
        ensures
            r == (x == y),
    {
        x == y
    }

    /// The qualified name of an element node.
    pub fn elem_name<'a>(&self, doc: &'a DocumentModel, target: usize) -> (name: &'a QualifiedName)
        requires
            target < doc.tree@.len(),
            doc.tree@[target as int].data is Element,
        ensures
            *name == (doc.tree@[target as int].data)->Element_0.name,
    {
        match &doc.tree.node(target).data {
            NodeData::Element(ed) => &ed.name,
            _ => {
                proof {
                    assert(false);
                }
                vstd::pervasive::unreached()
            },
        }
    }

    /// Creates an element under this sink's parsing algorithm.
    pub fn create_element(
        &self,
        doc: &mut DocumentModel,
        name: QualifiedName,
        attrs: Vec<ElementAttribute>,
    ) -> (id: usize)
        requires
            old(doc).tree.wf(),
            old(doc).throw_on_dynamic_markup_insertion < u64::MAX,
            old(doc).microtask_checkpoints < u64::MAX,
            old(doc).element_queues_pushed < u64::MAX,
            old(doc).element_queues_popped < u64::MAX,
        ensures
            final(doc).tree.wf(),
            same_doc_except_tree_and_queues(*old(doc), *final(doc)),
            id == old(doc).tree@.len(),
            final(doc).tree@.len() == old(doc).tree@.len() + 1,
            forall|i: int|
                0 <= i < old(doc).tree@.len() ==> final(doc).tree@[i] == old(doc).tree@[i],
            final(doc).tree@[id as int].parent is None,
            (final(doc).tree@[id as int].data matches NodeData::Element(ed) && ed.name == name
                && ed.attrs@ == attrs@ && ed.created_sync == spec_will_execute_script(
                *old(doc),
                name,
                attrs@,
                self.parsing_algorithm,
            ) && ed.sanitize_passes == (if name.local@ == "input"@ { 1int } else { 0int })),
            ({
                let will = spec_will_execute_script(*old(doc), name, attrs@, self.parsing_algorithm);
                &&& final(doc).throw_on_dynamic_markup_insertion == old(
                    doc,
                ).throw_on_dynamic_markup_insertion
                &&& final(doc).microtask_checkpoints == old(doc).microtask_checkpoints + (
                if will && old(doc).execution_stack_empty {
                    1int
                } else {
                    0int
                })
                &&& final(doc).element_queues_pushed == old(doc).element_queues_pushed + (
                if will {
                    1int
                } else {
                    0int
                })
                &&& final(doc).element_queues_popped == old(doc).element_queues_popped + (
                if will {
                    1int
                } else {
                    0int
                })
            }),
    {
        create_element_for_token(name, attrs, doc, self.parsing_algorithm)
    }

    pub fn create_comment(&self, doc: &mut DocumentModel, text: String) -> (id: usize)
        requires
            old(doc).tree.wf(),
        ensures
            final(doc).tree.wf(),
            *final(doc) == (DocumentModel { tree: final(doc).tree, ..*old(doc) }),
            id == old(doc).tree@.len(),
            final(doc).tree@.len() == old(doc).tree@.len() + 1,
            forall|i: int|
                0 <= i < old(doc).tree@.len() ==> final(doc).tree@[i] == old(doc).tree@[i],
            final(doc).tree@[id as int].parent is None,
            final(doc).tree@[id as int].children@ == Seq::<usize>::empty(),
            (final(doc).tree@[id as int].data matches NodeData::Comment { contents } && contents@
                == text@),
    {
        doc.tree.add_node(NodeData::Comment { contents: text })
    }

    pub fn create_pi(&self, doc: &mut DocumentModel, target: String, data: String) -> (id: usize)
        requires
            old(doc).tree.wf(),
        ensures
            final(doc).tree.wf(),
            *final(doc) == (DocumentModel { tree: final(doc).tree, ..*old(doc) }),
            id == old(doc).tree@.len(),
            final(doc).tree@.len() == old(doc).tree@.len() + 1,
            forall|i: int|
                0 <= i < old(doc).tree@.len() ==> final(doc).tree@[i] == old(doc).tree@[i],
            final(doc).tree@[id as int].parent is None,
            (final(doc).tree@[id as int].data matches NodeData::ProcessingInstruction {
                target: t,
                contents,
            } && t@ == target@ && contents@ == data@),
    {
        doc.tree.add_node(NodeData::ProcessingInstruction { target, contents: data })
    }

    /// Links a form-associable control to its owning form, but only when the
    /// nearest already-parented candidate lives in the form's home subtree.
    pub fn associate_with_form(
        &self,
        doc: &mut DocumentModel,
        target: usize,
        form: usize,
        element: usize,
        prev_element: Option<usize>,
    )
        requires
            old(doc).tree.wf(),
            target < old(doc).tree@.len(),
            form < old(doc).tree@.len(),
            element < old(doc).tree@.len(),
            prev_element matches Some(p) ==> p < old(doc).tree@.len() && old(
                doc,
            ).tree@[p as int].data is Element,
            old(doc).tree@[element as int].data is Element,
            old(doc).tree@[form as int].data is Element,
        ensures
            final(doc).tree.wf(),
            *final(doc) == (DocumentModel { tree: final(doc).tree, ..*old(doc) }),
            ({
                let a = old(doc).tree@;
                let chosen = spec_assoc_candidate(a, element, prev_element);
                if spec_same_tree(a, chosen as int, form as int) && spec_is_form_control(
                    a,
                    target as int,
                ) {
                    &&& DomArena::spec_only_element_changed(a, final(doc).tree@, target as int)
                    &&& final(doc).tree.spec_element(target as int) == (ElementData {
                        form_owner: Some(form),
                        ..old(doc).tree.spec_element(target as int)
                    })
                } else {
                    final(doc).tree@ == a
                }
            }),
    {
            let tree_node: usize = match prev_element {
            None => element,
            Some(prev) => {
                if self.has_parent_node(doc, element) {
                    element
                } else {
                    prev
                }
            },
        };
        if !self.same_tree(doc, tree_node, form) {
            return ;
        }
        let is_control = {
            if !node_is_element(doc, target) {
                false
            } else {
                let local = match &doc.tree.node(target).data {
                    NodeData::Element(ed) => &ed.name.local,
                    _ => {
                        proof {
                            assert(false);
                        }
                        vstd::pervasive::unreached()
                    },
                };
                str_eq(local.as_str(), "button") || str_eq(local.as_str(), "fieldset") || str_eq(
                    local.as_str(),
                    "input",
                ) || str_eq(local.as_str(), "object") || str_eq(local.as_str(), "output")
                    || str_eq(local.as_str(), "select") || str_eq(local.as_str(), "textarea")
            }
        };
        if is_control {
            doc.tree.set_form_owner(target, form);
        }
    }

    /// Inserts right before an existing sibling; the sibling must have a
    /// parent.
    pub fn append_before_sibling(&self, doc: &mut DocumentModel, sibling: usize, new_node: NodeOrText)
        requires
            old(doc).tree.wf(),
            sibling < old(doc).tree@.len(),
            old(doc).tree@[sibling as int].parent is Some,
            new_node matches NodeOrText::AppendNode(n) ==> n < old(doc).tree@.len() && n != 0
                && Some(n) != old(doc).tree@[sibling as int].parent && old(
                doc,
            ).tree@[n as int].parent is None,
            old(doc).element_queues_pushed < u64::MAX,
            old(doc).element_queues_popped < u64::MAX,
        ensures
            final(doc).tree.wf(),
            same_doc_except_tree_and_queues(*old(doc), *final(doc)),
            final(doc).throw_on_dynamic_markup_insertion == old(
                doc,
            ).throw_on_dynamic_markup_insertion,
            final(doc).microtask_checkpoints == old(doc).microtask_checkpoints,
            spec_inserted(
                *old(doc),
                *final(doc),
                old(doc).tree@[sibling as int].parent.unwrap(),
                Some(sibling),
                new_node,
                self.parsing_algorithm,
            ),
    {
        let parent = match doc.tree.node(sibling).parent {
            Some(p) => p,
            None => {
                proof {
                    assert(false);
                }
                0
            },
        };
        insert(doc, parent, Some(sibling), new_node, self.parsing_algorithm);
    }

    /// Counts a parse error reported by the tokenizer; parse errors never
    /// abort parsing.
    pub fn parse_error(&mut self)
        ensures
            *final(self) == (Sink {
                parse_errors: if old(self).parse_errors < u64::MAX {
                    (old(self).parse_errors + 1) as u64
                } else {
                    u64::MAX
                },
                ..*old(self)
            }),
    {
        if self.parse_errors < u64::MAX {
            self.parse_errors = self.parse_errors + 1;
        }
    }

    /// Maps the tokenizer's quirks-mode signal one-to-one onto the document.
    pub fn set_quirks_mode(&self, doc: &mut DocumentModel, mode: QuirksModeKind)
        ensures
            *final(doc) == (DocumentModel { quirks_mode: mode, ..*old(doc) }),
    {
        doc.set_quirks_mode(mode);
    }

    /// Appends at the end of a parent's child list.
    pub fn append(&self, doc: &mut DocumentModel, parent: usize, child: NodeOrText)
        requires
            old(doc).tree.wf(),
            parent < old(doc).tree@.len(),
            child matches NodeOrText::AppendNode(n) ==> n < old(doc).tree@.len() && n != parent
                && n != 0 && old(doc).tree@[n as int].parent is None,
            old(doc).element_queues_pushed < u64::MAX,
            old(doc).element_queues_popped < u64::MAX,
        ensures
            final(doc).tree.wf(),
            same_doc_except_tree_and_queues(*old(doc), *final(doc)),
            final(doc).throw_on_dynamic_markup_insertion == old(
                doc,
            ).throw_on_dynamic_markup_insertion,
            final(doc).microtask_checkpoints == old(doc).microtask_checkpoints,
            spec_inserted(*old(doc), *final(doc), parent, None, child, self.parsing_algorithm),
    {
        insert(doc, parent, None, child, self.parsing_algorithm);
    }

    /// Appends under the element's parent when it has one, otherwise under
    /// the previous element.
    pub fn append_based_on_parent_node(
        &self,
        doc: &mut DocumentModel,
        elem: usize,
        prev_elem: usize,
        child: NodeOrText,
    )
        requires
            old(doc).tree.wf(),
            elem < old(doc).tree@.len(),
            prev_elem < old(doc).tree@.len(),
            child matches NodeOrText::AppendNode(n) ==> n < old(doc).tree@.len() && n != 0 && old(
                doc,
            ).tree@[n as int].parent is None && n != prev_elem && Some(n) != old(
                doc,
            ).tree@[elem as int].parent,
            old(doc).element_queues_pushed < u64::MAX,
            old(doc).element_queues_popped < u64::MAX,
        ensures
            final(doc).tree.wf(),
            same_doc_except_tree_and_queues(*old(doc), *final(doc)),
            final(doc).throw_on_dynamic_markup_insertion == old(
                doc,
            ).throw_on_dynamic_markup_insertion,
            final(doc).microtask_checkpoints == old(doc).microtask_checkpoints,
            old(doc).tree@[elem as int].parent matches Some(p) ==> spec_inserted(
                *old(doc),
                *final(doc),
                p,
                Some(elem),
                child,
                self.parsing_algorithm,
            ),
            old(doc).tree@[elem as int].parent is None ==> spec_inserted(
                *old(doc),
                *final(doc),
                prev_elem,
                None,
                child,
                self.parsing_algorithm,
            ),
    {
        if self.has_parent_node(doc, elem) {
            self.append_before_sibling(doc, elem, child);
        } else {
            self.append(doc, prev_elem, child);
        }
    }

    /// Appends a doctype node to the document node.
    pub fn append_doctype_to_document(
        &self,
        doc: &mut DocumentModel,
        name: String,
        public_id: String,
        system_id: String,
    )
        requires
            old(doc).tree.wf(),
        ensures
            final(doc).tree.wf(),
            *final(doc) == (DocumentModel { tree: final(doc).tree, ..*old(doc) }),
            final(doc).tree@.len() == old(doc).tree@.len() + 1,
            ({
                let id = old(doc).tree@.len() as int;
                &&& final(doc).tree@[id].data matches NodeData::Doctype {
                    name: n,
                    public_id: p,
                    system_id: s,
                } && n@ == name@ && p@ == public_id@ && s@ == system_id@
                &&& final(doc).tree@[id].parent == Some(0usize)
                &&& final(doc).tree@[0].children@ == old(doc).tree@[0].children@.push(id as usize)
            }),
            forall|i: int|
                0 <= i < old(doc).tree@.len() && i != 0 ==> final(doc).tree@[i] == old(
                    doc,
                ).tree@[i],
    {
        let id = doc.tree.add_node(NodeData::Doctype { name, public_id, system_id });
        let ghost mid = doc.tree@;
        doc.tree.insert_before(0, None, id);
        proof {
            let ch = mid[0].children@;
            assert(ch.insert(ch.len() as int, id) =~= ch.push(id));
            assert(mid[0].children@ == old(doc).tree@[0].children@);
        }
    }

    /// Adds each attribute the element does not already have.
    pub fn add_attrs_if_missing(
        &self,
        doc: &mut DocumentModel,
        target: usize,
        attrs: Vec<ElementAttribute>,
    )
        requires
            old(doc).tree.wf(),
            target < old(doc).tree@.len(),
            old(doc).tree@[target as int].data is Element,
        ensures
            final(doc).tree.wf(),
            *final(doc) == (DocumentModel { tree: final(doc).tree, ..*old(doc) }),
            DomArena::spec_only_element_changed(old(doc).tree@, final(doc).tree@, target as int),
            final(doc).tree.spec_element(target as int).attrs@ == spec_add_attrs_if_missing(
                old(doc).tree.spec_element(target as int).attrs@,
                attrs@,
            ),
            final(doc).tree.spec_element(target as int) == (ElementData {
                attrs: final(doc).tree.spec_element(target as int).attrs,
                ..old(doc).tree.spec_element(target as int)
            }),
    {
        doc.tree.add_attrs_if_missing(target, attrs);
    }

    /// Detaches a node from its parent, if it has one.
    pub fn remove_from_parent(&self, doc: &mut DocumentModel, target: usize)
        requires
            old(doc).tree.wf(),
            target < old(doc).tree@.len(),
        ensures
            final(doc).tree.wf(),
            *final(doc) == (DocumentModel { tree: final(doc).tree, ..*old(doc) }),
            final(doc).tree@[target as int].parent is None,
            final(doc).tree@.len() == old(doc).tree@.len(),
            old(doc).tree@[target as int].parent is None ==> final(doc).tree@ == old(doc).tree@,
            old(doc).tree@[target as int].parent matches Some(p) ==> {
                &&& final(doc).tree@[p as int].children@ == old(
                    doc,
                ).tree@[p as int].children@.remove(
                    old(doc).tree@[p as int].children@.index_of(target),
                )
                &&& forall|i: int|
                    0 <= i < old(doc).tree@.len() && i != target && i != p ==> final(doc).tree@[i]
                        == old(doc).tree@[i]
            },
    {
        doc.tree.remove_from_parent(target);
    }

    /// Marks a just-inserted script element as already started.
    pub fn mark_script_already_started(&self, doc: &mut DocumentModel, node: usize)
        requires
            old(doc).tree.wf(),
            node < old(doc).tree@.len(),
        ensures
            final(doc).tree.wf(),
            *final(doc) == (DocumentModel { tree: final(doc).tree, ..*old(doc) }),
            ({
                let a = old(doc).tree@;
                if spec_is_element(a, node as int) && spec_element_local(a, node as int)
                    == "script"@ {
                    &&& DomArena::spec_only_element_changed(a, final(doc).tree@, node as int)
                    &&& final(doc).tree.spec_element(node as int) == (ElementData {
                        script_already_started: true,
                        ..old(doc).tree.spec_element(node as int)
                    })
                } else {
                    final(doc).tree@ == a
                }
            }),
    {
            if node_is_element(doc, node) {
            let is_script = match &doc.tree.node(node).data {
                NodeData::Element(ed) => str_eq(ed.name.local.as_str(), "script"),
                _ => false,
            };
            if is_script {
                doc.tree.set_script_already_started(node);
            }
        }
    }

    /// Records the just-closed script element as pending and tells the
    /// tokenizer to suspend; any other element lets parsing continue.
    pub fn complete_script(&mut self, doc: &DocumentModel, node: usize) -> (r: NextParserState)
        requires
            node < doc.tree@.len(),
        ensures
            ({
                let a = doc.tree@;
                if spec_is_element(a, node as int) && spec_element_local(a, node as int)
                    == "script"@ {
                    r == NextParserState::Suspend && *final(self) == (Sink {
                        script: Some(node),
                        ..*old(self)
                    })
                } else {
                    r == NextParserState::Continue && *final(self) == *old(self)
                }
            }),
    {
            let is_script = match &doc.tree.node(node).data {
            NodeData::Element(ed) => str_eq(ed.name.local.as_str(), "script"),
            _ => false,
        };
        if is_script {
            self.script = Some(node);
            NextParserState::Suspend
        } else {
            NextParserState::Continue
        }
    }

    /// Moves all children of one node under another, preserving order.
    pub fn reparent_children(&self, doc: &mut DocumentModel, node: usize, new_parent: usize)
        requires
            old(doc).tree.wf(),
            node < old(doc).tree@.len(),
            new_parent < old(doc).tree@.len(),
            node != new_parent,
            !old(doc).tree@[node as int].children@.contains(new_parent),
        ensures
            final(doc).tree.wf(),
            *final(doc) == (DocumentModel { tree: final(doc).tree, ..*old(doc) }),
            final(doc).tree@[new_parent as int].children@ == old(
                doc,
            ).tree@[new_parent as int].children@ + old(doc).tree@[node as int].children@,
            final(doc).tree@[node as int].children@ == Seq::<usize>::empty(),
            forall|c: int|
                0 <= c < old(doc).tree@.len() && old(doc).tree@[node as int].children@.contains(
                    c as usize,
                ) ==> final(doc).tree@[c].parent == Some(new_parent),
            forall|i: int|
                0 <= i < old(doc).tree@.len() && i != node && i != new_parent && !old(
                    doc,
                ).tree@[node as int].children@.contains(i as usize) ==> final(doc).tree@[i] == old(
                    doc,
                ).tree@[i],
    {
        doc.tree.reparent_children(node, new_parent);
    }

    /// True exactly when the element's `encoding` attribute is, ASCII
    /// case-insensitively, `text/html` or `application/xhtml+xml`.
    pub fn is_mathml_annotation_xml_integration_point(
        &self,
        doc: &DocumentModel,
        handle: usize,
    ) -> (r: bool)
        requires
            handle < doc.tree@.len(),
            doc.tree@[handle as int].data is Element,
        ensures
            r == ({
                let attrs = (doc.tree@[handle as int].data)->Element_0.attrs@;
                match spec_attr_value(attrs, ""@, "encoding"@) {
                    Some(v) => spec_eq_ignore_ascii_case(v, "text/html"@)
                        || spec_eq_ignore_ascii_case(v, "application/xhtml+xml"@),
                    None => false,
                }
            }),
    {
        let attrs = match &doc.tree.node(handle).data {
            NodeData::Element(ed) => &ed.attrs,
            _ => {
                proof {
                    assert(false);
                }
                vstd::pervasive::unreached()
            },
        };
        let value = get_attr_value(attrs, "", "encoding");
        match value {
            Some(v) => {
                eq_ignore_ascii_case(v.as_str(), "text/html") || eq_ignore_ascii_case(
                    v.as_str(),
                    "application/xhtml+xml",
                )
            },
            None => false,
        }
    }

    pub fn set_current_line(&mut self, line: u64)
        ensures
            *final(self) == (Sink { current_line: line, ..*old(self) }),
    {
        self.current_line = line;
    }

    /// Runs the popped node's insertion callback.
    pub fn pop(&self, doc: &mut DocumentModel, node: usize)
        requires
            old(doc).tree.wf(),
            node < old(doc).tree@.len(),
            old(doc).tree@[node as int].data is Element ==> old(doc).tree.spec_element(
                node as int,
            ).pop_notified < u64::MAX,
        ensures
            final(doc).tree.wf(),
            *final(doc) == (DocumentModel { tree: final(doc).tree, ..*old(doc) }),
            ({
                let a = old(doc).tree@;
                if spec_is_element(a, node as int) {
                    &&& DomArena::spec_only_element_changed(a, final(doc).tree@, node as int)
                    &&& final(doc).tree.spec_element(node as int) == (ElementData {
                        pop_notified: (old(doc).tree.spec_element(node as int).pop_notified
                            + 1) as u64,
                        ..old(doc).tree.spec_element(node as int)
                    })
                } else {
                    final(doc).tree@ == a
                }
            }),
    {
        if node_is_element(doc, node) {
            doc.tree.notify_pop(node);
        }
    }
}

/// The value of the first attribute with the given namespace and local name.
pub fn get_attr_value<'a>(
    attrs: &'a Vec<ElementAttribute>,
    ns: &str,
    local: &str,
) -> (r: Option<&'a String>)
    ensures
        r matches Some(v) ==> spec_attr_value(attrs@, ns@, local@) == Some(v@),
        r is None ==> spec_attr_value(attrs@, ns@, local@) is None,
{
    let mut i: usize = 0;
    proof {
        assert(attrs@.skip(0) =~= attrs@);
    }
    while i < attrs.len()
        invariant
            i <= attrs@.len(),
            spec_attr_value(attrs@.skip(i as int), ns@, local@) == spec_attr_value(
                attrs@,
                ns@,
                local@,
            ),
        decreases attrs@.len() - i,
    {
        let ghost rest = attrs@.skip(i as int);
        proof {
            assert(rest[0] == attrs@[i as int]);
            assert(rest.drop_first() =~= attrs@.skip(i + 1 as int));
        }
        if str_eq(attrs[i].name.ns.as_str(), ns) && str_eq(attrs[i].name.local.as_str(), local) {
            return Some(&attrs[i].value);
        }
        i = i + 1;
    }
    proof {
        assert(attrs@.skip(attrs@.len() as int) =~= Seq::<ElementAttribute>::empty());
    }
    None
}

} // verus!
