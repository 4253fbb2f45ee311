//! An arena model of the document tree.
//!
//! Tree nodes are arena-owned values addressed by stable handles (indices);
//! the tree-construction adapter holds handles, never owning references. The
//! arena keeps a local well-formedness invariant: every child index is in
//! bounds and points back to its parent, every parented node appears in its
//! parent's child list, and no child list repeats an entry.

use vstd::prelude::*;

verus! {

use vstd::string::StringExecFns;

/// A namespace/local-name pair naming an element or attribute.
pub struct QualifiedName {
    pub ns: String,
    pub local: String,
}

impl QualifiedName {
    pub fn new(ns: String, local: String) -> (q: QualifiedName)
        ensures
            q.ns == ns,
            q.local == local,
    {
        QualifiedName { ns, local }
    }

    pub fn duplicate(&self) -> (q: QualifiedName)
        ensures
            q.ns@ == self.ns@,
            q.local@ == self.local@,
    {
        QualifiedName { ns: self.ns.clone(), local: self.local.clone() }
    }
}

/// An attribute as handed over by the tokenizer: a qualified name and a value.
pub struct ElementAttribute {
    pub name: QualifiedName,
    pub value: String,
}

impl ElementAttribute {
    pub fn new(name: QualifiedName, value: String) -> (a: ElementAttribute)
        ensures
            a.name == name,
            a.value == value,
    {
        ElementAttribute { name, value }
    }
}

/// The element-specific part of a node.
pub struct ElementData {
    pub name: QualifiedName,
    pub attrs: Vec<ElementAttribute>,
    /// Set when the adapter marks a parser-inserted script as already started.
    pub script_already_started: bool,
    /// Counts the times the node's insertion callback ran when it was popped.
    pub pop_notified: u64,
    /// The owning form this control was associated with, if any.
    pub form_owner: Option<usize>,
    /// How many times value sanitization ran on this (input-like) element.
    pub sanitize_passes: u64,
    /// Whether custom-element construction ran synchronously at creation.
    pub created_sync: bool,
}

/// Whether an attribute with this namespace and local name is present.
pub open spec fn spec_has_attr(attrs: Seq<ElementAttribute>, ns: Seq<char>, local: Seq<char>) -> bool {
    exists|i: int|
        0 <= i < attrs.len() && (#[trigger] attrs[i]).name.ns@ == ns && attrs[i].name.local@
            == local
}

/// The value of the first attribute with this namespace and local name.
pub open spec fn spec_attr_value(
    attrs: Seq<ElementAttribute>,
    ns: Seq<char>,
    local: Seq<char>,
) -> Option<Seq<char>>
    decreases attrs.len(),
{
    if attrs.len() == 0 {
        None
    } else if attrs[0].name.ns@ == ns && attrs[0].name.local@ == local {
        Some(attrs[0].value@)
    } else {
        spec_attr_value(attrs.drop_first(), ns, local)
    }
}

/// The attribute list after adding, in order, each incoming attribute whose
/// name is not already present.
pub open spec fn spec_add_attrs_if_missing(
    existing: Seq<ElementAttribute>,
    incoming: Seq<ElementAttribute>,
) -> Seq<ElementAttribute>
    decreases incoming.len(),
{
    if incoming.len() == 0 {
        existing
    } else {
        let first = incoming[0];
        let grown = if spec_has_attr(existing, first.name.ns@, first.name.local@) {
            existing
        } else {
            existing.push(first)
        };
        spec_add_attrs_if_missing(grown, incoming.drop_first())
    }
}

/// Whether the list carries an attribute with exactly this name.
pub fn has_attr_named(attrs: &Vec<ElementAttribute>, name: &QualifiedName) -> (r: bool)
    ensures
        r == spec_has_attr(attrs@, name.ns@, name.local@),
{
    let mut i: usize = 0;
    while i < attrs.len()
        invariant
            i <= attrs@.len(),
            forall|j: int|
                0 <= j < i ==> !((#[trigger] attrs@[j]).name.ns@ == name.ns@
                    && attrs@[j].name.local@ == name.local@),
        decreases attrs@.len() - i,
    {
        if attrs[i].name.ns == name.ns && attrs[i].name.local == name.local {
            proof {
                assert((attrs@[i as int]).name.ns@ == name.ns@);
            }
            return true;
        }
        i = i + 1;
    }
    false
}

/// What a tree node is.
pub enum NodeData {
    Document,
    Doctype { name: String, public_id: String, system_id: String },
    Text { contents: String },
    Comment { contents: String },
    ProcessingInstruction { target: String, contents: String },
    Element(ElementData),
}

/// One arena slot: the node's payload and its place in the tree.
pub struct Node {
    pub data: NodeData,
    pub parent: Option<usize>,
    pub children: Vec<usize>,
}

/// A node or a run of text, as the tokenizer hands insertions over.
pub enum NodeOrText {
    AppendNode(usize),
    AppendText(String),
}

/// The arena. Slot 0 is always the document node.
pub struct DomArena {
    nodes: Vec<Node>,
}

/// The youngest child of `p`, if any.
pub open spec fn spec_last_child(a: Seq<Node>, p: int) -> Option<usize> {
    if a[p].children@.len() == 0 {
        None
    } else {
        Some(a[p].children@.last())
    }
}

/// The sibling immediately before `r` among the children of `p`, if any.
pub open spec fn spec_prev_sibling(a: Seq<Node>, p: int, r: usize) -> Option<usize> {
    let ch = a[p].children@;
    if ch.contains(r) && ch.index_of(r) > 0 {
        Some(ch[ch.index_of(r) - 1])
    } else {
        None
    }
}

/// Where a new child lands in `p`'s child list: right before `ref_child`,
/// or at the end when there is none.
pub open spec fn spec_insert_position(ch: Seq<usize>, ref_child: Option<usize>) -> int {
    match ref_child {
        Some(r) => ch.index_of(r),
        None => ch.len() as int,
    }
}

impl View for DomArena {
    type V = Seq<Node>;

    closed spec fn view(&self) -> Seq<Node> {
        self.nodes@
    }
}

impl DomArena {
    pub open spec fn wf(&self) -> bool {
        let a = self@;
        &&& a.len() >= 1
        &&& a[0].data is Document
        &&& a[0].parent is None
        &&& (forall|i: int, k: int|
            0 <= i < a.len() && 0 <= k < a[i].children@.len() ==> {
                let c = #[trigger] a[i].children@[k];
                c < a.len() && a[c as int].parent == Some(i as usize)
            })
        &&& (forall|j: int|
            0 <= j < a.len() && (#[trigger] a[j].parent) is Some ==> {
                let p = a[j].parent.unwrap() as int;
                0 <= p < a.len() && a[p].children@.contains(j as usize)
            })
        &&& (forall|i: int, k1: int, k2: int|
            0 <= i < a.len() && 0 <= k1 < a[i].children@.len() && 0 <= k2
                < a[i].children@.len() && k1 != k2 ==> #[trigger] a[i].children@[k1]
                != #[trigger] a[i].children@[k2])
        &&& (forall|j: int|
            0 <= j < a.len() ==> (#[trigger] a[j].parent) != Some(j as usize))
    }

    /// A fresh arena holding only the document node.
    pub fn new() -> (d: DomArena)
        ensures
            d.wf(),
            d@.len() == 1,
            d@[0].data is Document,
            d@[0].children@.len() == 0,
    {
        let mut nodes: Vec<Node> = Vec::new();
        nodes.push(Node { data: NodeData::Document, parent: None, children: Vec::new() });
        DomArena { nodes }
    }

    pub fn len(&self) -> (n: usize)
        ensures
            n == self@.len(),
    {
        self.nodes.len()
    }

    pub fn node(&self, i: usize) -> (n: &Node)
        requires
            i < self@.len(),
        ensures
            *n == self@[i as int],
    {
        &self.nodes[i]
    }

    /// Creates a detached node and hands back its handle.
    pub fn add_node(&mut self, data: NodeData) -> (id: usize)
        requires
            old(self).wf(),
        ensures
            final(self).wf(),
            id == old(self)@.len(),
            final(self)@.len() == old(self)@.len() + 1,
            final(self)@[id as int].data == data,
            final(self)@[id as int].parent is None,
            final(self)@[id as int].children@ == Seq::<usize>::empty(),
            forall|i: int| 0 <= i < old(self)@.len() ==> final(self)@[i] == old(self)@[i],
    {
        let id = self.nodes.len();
        self.nodes.push(Node { data, parent: None, children: Vec::new() });
        id
    }

    /// Inserts the detached node `child` under `parent`, right before
    /// `ref_child` when one is given and at the end of the child list
    /// otherwise.
    pub fn insert_before(&mut self, parent: usize, ref_child: Option<usize>, child: usize)
        requires
            old(self).wf(),
            parent < old(self)@.len(),
            child < old(self)@.len(),
            child != parent,
            child != 0,
            old(self)@[child as int].parent is None,
            ref_child matches Some(r) ==> r < old(self)@.len() && old(self)@[r as int].parent
                == Some(parent),
        ensures
            final(self).wf(),
            final(self)@.len() == old(self)@.len(),
            final(self)@[parent as int].children@ == old(self)@[parent as int].children@.insert(
                spec_insert_position(old(self)@[parent as int].children@, ref_child),
                child,
            ),
            final(self)@[parent as int].data == old(self)@[parent as int].data,
            final(self)@[parent as int].parent == old(self)@[parent as int].parent,
            final(self)@[child as int].parent == Some(parent),
            final(self)@[child as int].data == old(self)@[child as int].data,
            final(self)@[child as int].children@ == old(self)@[child as int].children@,
            forall|i: int|
                0 <= i < old(self)@.len() && i != parent && i != child ==> final(self)@[i] == old(
                    self,
                )@[i],
    {
        let ghost a0 = self@;
        let pos: usize = match ref_child {
            Some(r) => self.find_child_index(parent, r),
            None => self.nodes[parent].children.len(),
        };
        proof {
            assert(pos == spec_insert_position(a0[parent as int].children@, ref_child));
        }
        let n = &mut self.nodes[parent];
        n.children.insert(pos, child);
        let m = &mut self.nodes[child];
        m.parent = Some(parent);
        proof {
            let a = self@;
            let ch0 = a0[parent as int].children@;
            let ch = a[parent as int].children@;
            assert(ch =~= ch0.insert(pos as int, child));
            assert(a.len() == a0.len());
            assert(forall|x: int|
                0 <= x < a.len() && x != child ==> (#[trigger] a[x]).parent == a0[x].parent);
            assert(forall|x: int|
                0 <= x < a.len() && x != parent ==> (#[trigger] a[x]).children@
                    == a0[x].children@);
            assert(forall|x: int| 0 <= x < a.len() ==> (#[trigger] a[x]).data == a0[x].data);
            assert(forall|k: int| 0 <= k < pos ==> ch[k] == ch0[k]);
            assert(ch[pos as int] == child);
            assert(forall|k: int| pos < k < ch.len() ==> ch[k] == ch0[k - 1]);
            assert(forall|k: int|
                0 <= k < ch.len() && k != pos ==> ch0.contains(#[trigger] ch[k]));
            assert forall|k: int|
                0 <= k < ch.len() && k != pos implies #[trigger] ch[k] != child by {
                assert(ch0.contains(ch[k]));
                assert(a0[ch[k] as int].parent == Some(parent));
            }
            assert forall|i: int, k: int|
                0 <= i < a.len() && 0 <= k < a[i].children@.len() implies {
                let c = #[trigger] a[i].children@[k];
                c < a.len() && a[c as int].parent == Some(i as usize)
            } by {
                let c = a[i].children@[k];
                if i == parent {
                    if k == pos {
                        assert(c == child);
                        assert(a[child as int].parent == Some(parent));
                    } else {
                        assert(ch0.contains(c));
                        assert(a0[c as int].parent == Some(parent));
                        assert(c != child);
                        assert(a[c as int].parent == a0[c as int].parent);
                    }
                } else {
                    assert(a[i].children@ == a0[i].children@);
                    assert(a0[c as int].parent == Some(i as usize));
                    assert(c != child);
                    assert(a[c as int].parent == a0[c as int].parent);
                }
            }
            assert forall|j: int|
                0 <= j < a.len() && (#[trigger] a[j].parent) is Some implies {
                let p = a[j].parent.unwrap() as int;
                0 <= p < a.len() && a[p].children@.contains(j as usize)
            } by {
                let p = a[j].parent.unwrap() as int;
                if j == child {
                    assert(ch[pos as int] == child);
                    assert(ch.contains(child));
                } else {
                    assert(a[j].parent == a0[j].parent);
                    assert(a0[p].children@.contains(j as usize));
                    let k0 = choose|k0: int|
                        0 <= k0 < a0[p].children@.len() && a0[p].children@[k0] == j as usize;
                    if p == parent {
                        if k0 < pos {
                            assert(ch[k0] == j as usize);
                        } else {
                            assert(ch[k0 + 1] == j as usize);
                        }
                        assert(ch.contains(j as usize));
                    } else {
                        assert(a[p].children@ == a0[p].children@);
                    }
                }
            }
            assert forall|i: int, k1: int, k2: int|
                0 <= i < a.len() && 0 <= k1 < a[i].children@.len() && 0 <= k2
                    < a[i].children@.len() && k1 != k2 implies #[trigger] a[i].children@[k1]
                != #[trigger] a[i].children@[k2] by {
                if i == parent {
                    if k1 != pos && k2 != pos {
                        let j1 = if k1 < pos {
                            k1
                        } else {
                            k1 - 1
                        };
                        let j2 = if k2 < pos {
                            k2
                        } else {
                            k2 - 1
                        };
                        assert(ch[k1] == ch0[j1]);
                        assert(ch[k2] == ch0[j2]);
                        assert(ch0[j1] != ch0[j2]);
                    } else if k1 == pos {
                        assert(ch[k2] != child);
                    } else {
                        assert(ch[k1] != child);
                    }
                }
            }
            assert forall|j: int|
                0 <= j < a.len() implies (#[trigger] a[j].parent) != Some(j as usize) by {
                if j == child {
                    assert(a[j].parent == Some(parent));
                } else {
                    assert(a[j].parent == a0[j].parent);
                }
            }
        }
    }

    /// The position of `r` in `parent`'s child list.
    fn find_child_index(&self, parent: usize, r: usize) -> (pos: usize)
        requires
            self.wf(),
            parent < self@.len(),
            self@[r as int].parent == Some(parent),
            r < self@.len(),
        ensures
            pos == self@[parent as int].children@.index_of(r),
            pos < self@[parent as int].children@.len(),
    {
        let ghost ch = self@[parent as int].children@;
        proof {
            assert(ch.contains(r));
        }
        let count = self.nodes[parent].children.len();
        let mut k: usize = 0;
        loop
            invariant
                self.wf(),
                parent < self@.len(),
                count == ch.len(),
                ch == self@[parent as int].children@,
                ch.contains(r),
                k < count,
                forall|j: int| 0 <= j < k ==> ch[j] != r,
            decreases count - k,
        {
            if self.nodes[parent].children[k] == r {
                proof {
                    let w = ch.index_of(r);
                    assert(0 <= w < ch.len() && ch[w] == r);
                    assert forall|j1: int, j2: int|
                        0 <= j1 < ch.len() && 0 <= j2 < ch.len() && ch[j1] == r && ch[j2]
                            == r implies j1 == j2 by {}
                    assert(w == k);
                }
                return k;
            }
            proof {
                if k + 1 == count {
                    let w = ch.index_of(r);
                    assert(0 <= w < ch.len() && ch[w] == r);
                    assert(false);
                }
            }
            k = k + 1;
        }
    }

    /// Detaches `target` from its parent, if it has one.
    pub fn remove_from_parent(&mut self, target: usize)
        requires
            old(self).wf(),
            target < old(self)@.len(),
        ensures
            final(self).wf(),
            final(self)@.len() == old(self)@.len(),
            old(self)@[target as int].parent is None ==> final(self)@ == old(self)@,
            old(self)@[target as int].parent matches Some(p) ==> {
                &&& final(self)@[target as int].parent is None
                &&& final(self)@[target as int].data == old(self)@[target as int].data
                &&& final(self)@[target as int].children@ == old(self)@[target as int].children@
                &&& final(self)@[p as int].children@ == old(self)@[p as int].children@.remove(
                    old(self)@[p as int].children@.index_of(target),
                )
                &&& final(self)@[p as int].data == old(self)@[p as int].data
                &&& final(self)@[p as int].parent == old(self)@[p as int].parent
                &&& forall|i: int|
                    0 <= i < old(self)@.len() && i != target && i != p ==> final(self)@[i] == old(
                        self,
                    )@[i]
            },
    {
        let ghost a0 = self@;
        let total = self.nodes.len();
        proof {
            assert(a0.len() == total as int);
        }
        let parent_opt = self.nodes[target].parent;
        match parent_opt {
            None => {
                proof {
                    assert(self@ =~= a0);
                }
            },
            Some(p) => {
                let pos = self.find_child_index(p, target);
                let ghost ch0 = a0[p as int].children@;
                let n = &mut self.nodes[p];
                n.children.remove(pos);
                let m = &mut self.nodes[target];
                m.parent = None;
                proof {
                    let a = self@;
                    let ch = a[p as int].children@;
                    assert(ch =~= ch0.remove(pos as int));
                    assert(target != p);
                    assert(a.len() == a0.len());
                    assert(forall|x: int|
                        0 <= x < a.len() && x != target ==> (#[trigger] a[x]).parent
                            == a0[x].parent);
                    assert(forall|x: int|
                        0 <= x < a.len() && x != p ==> (#[trigger] a[x]).children@
                            == a0[x].children@);
                    assert(forall|x: int|
                        0 <= x < a.len() ==> (#[trigger] a[x]).data == a0[x].data);
                    assert(forall|k: int| 0 <= k < pos ==> ch[k] == ch0[k]);
                    assert(forall|k: int| pos <= k < ch.len() ==> ch[k] == ch0[k + 1]);
                    assert(ch0[pos as int] == target);
                    assert forall|k: int| 0 <= k < ch.len() implies #[trigger] ch[k]
                        != target by {
                        if k < pos {
                            assert(ch[k] == ch0[k]);
                            assert(ch0[k] != ch0[pos as int]);
                        } else {
                            assert(ch[k] == ch0[k + 1]);
                            assert(ch0[k + 1] != ch0[pos as int]);
                        }
                    }
                    assert forall|i: int, k: int|
                        0 <= i < a.len() && 0 <= k < a[i].children@.len() implies {
                        let c = #[trigger] a[i].children@[k];
                        c < a.len() && a[c as int].parent == Some(i as usize)
                    } by {
                        if i == p {
                            let c = a[i].children@[k];
                            assert(c != target);
                            if k < pos {
                                assert(c == ch0[k]);
                            } else {
                                assert(c == ch0[k + 1]);
                            }
                            assert(a0[c as int].parent == Some(p));
                            assert(a[c as int].parent == a0[c as int].parent);
                        } else {
                            let c = a[i].children@[k];
                            assert(a[i].children@ == a0[i].children@);
                            assert(a0[c as int].parent == Some(i as usize));
                            assert(c != target) by {
                                if c == target {
                                    assert(a0[target as int].parent == Some(i as usize));
                                    assert(a0[target as int].parent == Some(p));
                                    assert(i as usize == p);
                                    assert(i < total as int);
                                    assert((i as usize) as int == i);
                                    assert(i == p as int);
                                }
                            }
                            assert(a[c as int].parent == a0[c as int].parent);
                        }
                    }
                    assert forall|j: int|
                        0 <= j < a.len() && (#[trigger] a[j].parent) is Some implies {
                        let q = a[j].parent.unwrap() as int;
                        0 <= q < a.len() && a[q].children@.contains(j as usize)
                    } by {
                        assert(j != target);
                        let q = a[j].parent.unwrap() as int;
                        assert(a0[q].children@.contains(j as usize));
                        let k0 = choose|k0: int|
                            0 <= k0 < a0[q].children@.len() && a0[q].children@[k0] == j as usize;
                        if q == p {
                            assert(k0 != pos) by {
                                if k0 == pos {
                                    assert(ch0[k0] == j as usize);
                                    assert(ch0[pos as int] == target);
                                    assert(j as usize == target);
                                    assert(j < total as int);
                                    assert((j as usize) as int == j);
                                }
                            }
                            if k0 < pos {
                                assert(ch[k0] == j as usize);
                            } else {
                                assert(ch[k0 - 1] == j as usize);
                            }
                        } else {
                            assert(a[q].children@ == a0[q].children@);
                        }
                    }
                    assert forall|i: int, k1: int, k2: int|
                        0 <= i < a.len() && 0 <= k1 < a[i].children@.len() && 0 <= k2
                            < a[i].children@.len() && k1 != k2 implies #[trigger] a[i].children@[k1]
                        != #[trigger] a[i].children@[k2] by {
                        if i == p {
                            let x1 = if k1 < pos {
                                ch0[k1]
                            } else {
                                ch0[k1 + 1]
                            };
                            let x2 = if k2 < pos {
                                ch0[k2]
                            } else {
                                ch0[k2 + 1]
                            };
                            assert(a[i].children@[k1] == x1);
                            assert(a[i].children@[k2] == x2);
                        }
                    }
                }
            },
        }
    }

    /// Moves every child of `from` under `to`, preserving order, behind any
    /// children `to` already has.
    pub fn reparent_children(&mut self, from: usize, to: usize)
        requires
            old(self).wf(),
            from < old(self)@.len(),
            to < old(self)@.len(),
            from != to,
            !old(self)@[from as int].children@.contains(to),
        ensures
            final(self).wf(),
            final(self)@.len() == old(self)@.len(),
            final(self)@[to as int].children@ == old(self)@[to as int].children@ + old(
                self,
            )@[from as int].children@,
            final(self)@[to as int].data == old(self)@[to as int].data,
            final(self)@[to as int].parent == old(self)@[to as int].parent,
            final(self)@[from as int].children@ == Seq::<usize>::empty(),
            final(self)@[from as int].data == old(self)@[from as int].data,
            final(self)@[from as int].parent == old(self)@[from as int].parent,
            forall|c: int|
                0 <= c < old(self)@.len() && old(self)@[from as int].children@.contains(c as usize)
                    ==> final(self)@[c].parent == Some(to) && final(self)@[c].data == old(
                    self,
                )@[c].data && final(self)@[c].children@ == old(self)@[c].children@,
            forall|i: int|
                0 <= i < old(self)@.len() && i != from && i != to && !old(
                    self,
                )@[from as int].children@.contains(i as usize) ==> final(self)@[i] == old(self)@[i],
    {
        let ghost a0 = self@;
        let ghost moved = a0[from as int].children@;
        proof {
            assert forall|j: int| 0 <= j < moved.len() implies #[trigger] moved[j] < a0.len()
                && a0[moved[j] as int].parent == Some(from) by {
                assert(a0[from as int].children@[j] == moved[j]);
            }
            assert forall|j1: int, j2: int|
                0 <= j1 < moved.len() && 0 <= j2 < moved.len() && j1 != j2 implies #[trigger] moved[j1]
                != #[trigger] moved[j2] by {
                assert(a0[from as int].children@[j1] != a0[from as int].children@[j2]);
            }
            assert forall|j: int| 0 <= j < moved.len() implies #[trigger] moved[j]
                != from by {
                if moved[j] == from {
                    assert(a0[from as int].parent == Some(from));
                }
            }
        }
        let mut taken: Vec<usize> = Vec::new();
        let n = &mut self.nodes[from];
        core::mem::swap(&mut taken, &mut n.children);
        let count = taken.len();
        let mut k: usize = 0;
        while k < count
            invariant
                taken@ == moved,
                count == moved.len(),
                a0.len() == self@.len(),
                from < a0.len(),
                to < a0.len(),
                from != to,
                k <= count,
                forall|j: int|
                    0 <= j < moved.len() ==> #[trigger] moved[j] < a0.len() && moved[j] != from,
                forall|j1: int, j2: int|
                    0 <= j1 < moved.len() && 0 <= j2 < moved.len() && j1 != j2
                        ==> #[trigger] moved[j1] != #[trigger] moved[j2],
                self@[from as int].children@ == Seq::<usize>::empty(),
                self@[from as int].data == a0[from as int].data,
                self@[from as int].parent == a0[from as int].parent,
                forall|j: int|
                    0 <= j < k ==> self@[#[trigger] moved[j] as int].parent == Some(to) && self@[moved[j] as int].data
                        == a0[moved[j] as int].data && self@[moved[j] as int].children@
                        == a0[moved[j] as int].children@,
                forall|i: int|
                    0 <= i < a0.len() && i != from && !moved.take(k as int).contains(i as usize)
                        ==> self@[i] == a0[i],
            decreases count - k,
        {
            let c = taken[k];
            proof {
                assert(moved[k as int] == c);
                assert(c < a0.len());
                assert(!moved.take(k as int).contains(c));
            }
            let ghost before = self@;
            let m = &mut self.nodes[c];
            m.parent = Some(to);
            proof {
                assert(forall|x: int|
                    0 <= x < a0.len() && x != c ==> self@[x] == before[x]);
                assert(self@[c as int].data == before[c as int].data);
                assert(self@[c as int].children@ == before[c as int].children@);
                assert(moved.take(k + 1 as int) =~= moved.take(k as int).push(c));
                assert forall|j: int| 0 <= j < k + 1 implies self@[#[trigger] moved[j] as int].parent
                    == Some(to) && self@[moved[j] as int].data == a0[moved[j] as int].data
                    && self@[moved[j] as int].children@ == a0[moved[j] as int].children@ by {
                    if j < k {
                        assert(moved[j] != c);
                    } else {
                        assert(before[c as int] == a0[c as int]);
                    }
                }
                assert forall|i: int|
                    0 <= i < a0.len() && i != from && !moved.take(k + 1 as int).contains(
                        i as usize,
                    ) implies self@[i] == a0[i] by {
                    assert(!moved.take(k as int).contains(i as usize));
                    assert(i != c) by {
                        assert(moved.take(k + 1 as int)[k as int] == c);
                        if i == c {
                            assert(moved.take(k + 1 as int).contains(i as usize));
                        }
                    }
                }
            }
            k = k + 1;
        }
        proof {
            assert(moved.take(count as int) =~= moved);
        }
        let ghost a1 = self@;
        let t = &mut self.nodes[to];
        t.children.append(&mut taken);
        let total = self.nodes.len();
        proof {
            let a = self@;
            assert(a.len() == total as int);
            let ch0 = a0[to as int].children@;
            let ch = a[to as int].children@;
            assert(!moved.contains(to));
            assert(a1[to as int] == a0[to as int]);
            assert(ch =~= ch0 + moved);
            assert(a.len() == a0.len());
            assert(forall|x: int| 0 <= x < a.len() && x != to ==> self@[x] == a1[x]);
            assert(a[to as int].data == a0[to as int].data);
            assert(a[to as int].parent == a0[to as int].parent);
            assert forall|j: int| 0 <= j < moved.len() implies a[#[trigger] moved[j] as int].parent
                == Some(to) && a[moved[j] as int].data == a0[moved[j] as int].data
                && a[moved[j] as int].children@ == a0[moved[j] as int].children@ by {
                assert(moved[j] != to);
                assert(a1[moved[j] as int].parent == Some(to));
            }
            assert forall|x: int|
                0 <= x < a.len() && !moved.contains(x as usize) implies (#[trigger] a[x]).parent
                == a0[x].parent by {
                if x == to {
                } else if x == from {
                } else {
                    assert(a1[x] == a0[x]);
                }
            }
            assert forall|x: int|
                0 <= x < a.len() && x != to && x != from implies (#[trigger] a[x]).children@
                == a0[x].children@ by {
                if moved.contains(x as usize) {
                    let w = choose|w: int| 0 <= w < moved.len() && moved[w] == x as usize;
                    assert(a[moved[w] as int].children@ == a0[moved[w] as int].children@);
                    assert((x as usize) as int == x);
                    assert(moved[w] as int == x);
                } else {
                    assert(a1[x] == a0[x]);
                }
            }
            assert forall|x: int|
                0 <= x < a.len() && (#[trigger] a[x]).parent != a0[x].parent implies moved.contains(
                x as usize,
            ) && a[x].parent == Some(to) by {
                if moved.contains(x as usize) {
                    let w = choose|w: int| 0 <= w < moved.len() && moved[w] == x as usize;
                    assert(a[moved[w] as int].parent == Some(to));
                    assert((x as usize) as int == x);
                    assert(moved[w] as int == x);
                } else {
                    assert(a[x].parent == a0[x].parent);
                }
            }
            assert(!moved.contains(0usize)) by {
                if moved.contains(0usize) {
                    let w = choose|w: int| 0 <= w < moved.len() && moved[w] == 0usize;
                    assert(a0[moved[w] as int].parent == Some(from));
                }
            }
            assert(a[0].parent == a0[0].parent);
            assert(a[0].data == a0[0].data);
            assert forall|i: int, k2: int|
                0 <= i < a.len() && 0 <= k2 < a[i].children@.len() implies {
                let c = #[trigger] a[i].children@[k2];
                c < a.len() && a[c as int].parent == Some(i as usize)
            } by {
                let c = a[i].children@[k2];
                if i == to {
                    if k2 < ch0.len() {
                        assert(c == ch0[k2]);
                        assert(a0[c as int].parent == Some(to as usize));
                        assert(!moved.contains(c)) by {
                            if moved.contains(c) {
                                let w = choose|w: int| 0 <= w < moved.len() && moved[w] == c;
                                assert(a0[moved[w] as int].parent == Some(from));
                            }
                        }
                        assert(a[c as int].parent == a0[c as int].parent);
                    } else {
                        assert(c == moved[k2 - ch0.len()]);
                        assert(a[c as int].parent == Some(to as usize));
                        assert(c < a.len());
                    }
                } else if i == from {
                    assert(a[i].children@.len() == 0);
                } else {
                    assert(a[i].children@ == a0[i].children@) by {
                        if moved.contains(i as usize) {
                            let w = choose|w: int| 0 <= w < moved.len() && moved[w] == i as usize;
                            assert(a[moved[w] as int].children@ == a0[moved[w] as int].children@);
                        } else {
                            assert(a1[i] == a0[i]);
                        }
                    }
                    assert(a0[c as int].parent == Some(i as usize));
                    assert(!moved.contains(c)) by {
                        if moved.contains(c) {
                            let w = choose|w: int| 0 <= w < moved.len() && moved[w] == c;
                            assert(a0[moved[w] as int].parent == Some(from));
                            assert(i as usize == from);
                            assert(i == from as int);
                        }
                    }
                    assert(a[c as int].parent == a0[c as int].parent);
                    assert(a[c as int].parent == Some(i as usize));
                }
            }
            assert forall|j: int|
                0 <= j < a.len() && (#[trigger] a[j].parent) is Some implies {
                let q = a[j].parent.unwrap() as int;
                0 <= q < a.len() && a[q].children@.contains(j as usize)
            } by {
                let q = a[j].parent.unwrap() as int;
                if moved.contains(j as usize) {
                    let w = choose|w: int| 0 <= w < moved.len() && moved[w] == j as usize;
                    assert(a[moved[w] as int].parent == Some(to));
                    assert(q == to);
                    assert(ch[ch0.len() + w] == j as usize);
                    assert(ch.contains(j as usize));
                } else {
                    assert(a[j].parent == a0[j].parent) by {
                        if j == to {
                        } else if j == from {
                            assert(a1[from as int].parent == a0[from as int].parent);
                        } else {
                            assert(a1[j] == a0[j]);
                        }
                    }
                    assert(a0[q].children@.contains(j as usize));
                    let k0 = choose|k0: int|
                        0 <= k0 < a0[q].children@.len() && a0[q].children@[k0] == j as usize;
                    if q == to {
                        assert(ch[k0] == j as usize);
                        assert(ch.contains(j as usize));
                    } else if q == from {
                        assert(moved[k0] == j as usize);
                        assert(false);
                    } else {
                        assert(a[q].children@ == a0[q].children@) by {
                            if moved.contains(q as usize) {
                                let w2 = choose|w2: int|
                                    0 <= w2 < moved.len() && moved[w2] == q as usize;
                                assert(a[moved[w2] as int].children@ == a0[moved[w2] as int].children@);
                            } else {
                                assert(a1[q] == a0[q]);
                            }
                        }
                    }
                }
            }
            assert forall|i: int, k1: int, k2: int|
                0 <= i < a.len() && 0 <= k1 < a[i].children@.len() && 0 <= k2
                    < a[i].children@.len() && k1 != k2 implies #[trigger] a[i].children@[k1]
                != #[trigger] a[i].children@[k2] by {
                if i == to {
                    let x1 = if k1 < ch0.len() {
                        ch0[k1]
                    } else {
                        moved[k1 - ch0.len()]
                    };
                    let x2 = if k2 < ch0.len() {
                        ch0[k2]
                    } else {
                        moved[k2 - ch0.len()]
                    };
                    assert(a[i].children@[k1] == x1);
                    assert(a[i].children@[k2] == x2);
                    if k1 < ch0.len() && k2 >= ch0.len() {
                        assert(a0[x1 as int].parent == Some(to as usize));
                        assert(moved.contains(x2));
                        assert(a0[x2 as int].parent == Some(from as usize));
                    } else if k2 < ch0.len() && k1 >= ch0.len() {
                        assert(a0[x2 as int].parent == Some(to as usize));
                        assert(moved.contains(x1));
                        assert(a0[x1 as int].parent == Some(from as usize));
                    }
                } else {
                    assert(a[i].children@ == a0[i].children@) by {
                        if i == from {
                            assert(a[i].children@.len() == 0);
                            assert(a0[from as int].children@ == moved);
                            if a0[from as int].children@.len() != 0 {
                                assert(a[i].children@ =~= Seq::<usize>::empty());
                            }
                        } else if moved.contains(i as usize) {
                            let w = choose|w: int| 0 <= w < moved.len() && moved[w] == i as usize;
                            assert(a[moved[w] as int].children@ == a0[moved[w] as int].children@);
                        } else {
                            assert(a1[i] == a0[i]);
                        }
                    }
                }
            }
            assert forall|j: int|
                0 <= j < a.len() implies (#[trigger] a[j].parent) != Some(j as usize) by {
                if moved.contains(j as usize) {
                    let w = choose|w: int| 0 <= w < moved.len() && moved[w] == j as usize;
                    assert(a[moved[w] as int].parent == Some(to));
                    assert((j as usize) as int == j);
                    assert(moved[w] as int == j);
                    assert(a[j].parent == Some(to));
                    assert(to != j as usize);
                } else {
                    assert(a[j].parent == a0[j].parent);
                }
            }
        }
    }

    /// Appends text to the contents of an existing text node.
    pub fn append_text_data(&mut self, t: usize, extra: &String)
        requires
            old(self).wf(),
            t < old(self)@.len(),
            old(self)@[t as int].data is Text,
        ensures
            final(self).wf(),
            final(self)@.len() == old(self)@.len(),
            final(self)@[t as int].data matches NodeData::Text { contents } && contents@ == (old(
                self,
            )@[t as int].data)->Text_contents@ + extra@,
            final(self)@[t as int].parent == old(self)@[t as int].parent,
            final(self)@[t as int].children@ == old(self)@[t as int].children@,
            forall|i: int| 0 <= i < old(self)@.len() && i != t ==> final(self)@[i] == old(self)@[i],
    {
        let n = &mut self.nodes[t];
        match &mut n.data {
            NodeData::Text { contents } => {
                contents.append(extra.as_str());
            },
            _ => {
                proof {
                    assert(false);
                }
            },
        }
    }

    /// The element data of node `e`, which must be an element.
    pub open spec fn spec_element(&self, e: int) -> ElementData {
        (self@[e].data)->Element_0
    }

    /// Everything of node `e` except its element payload is unchanged, the
    /// rest of the arena too.
    pub open spec fn spec_only_element_changed(a0: Seq<Node>, a1: Seq<Node>, e: int) -> bool {
        &&& a1.len() == a0.len()
        &&& a1[e].parent == a0[e].parent
        &&& a1[e].children@ == a0[e].children@
        &&& a1[e].data is Element
        &&& forall|i: int| 0 <= i < a0.len() && i != e ==> a1[i] == a0[i]
    }

    /// Links a form-associable control to its owning form.
    pub fn set_form_owner(&mut self, e: usize, form: usize)
        requires
            old(self).wf(),
            e < old(self)@.len(),
            old(self)@[e as int].data is Element,
        ensures
            final(self).wf(),
            Self::spec_only_element_changed(old(self)@, final(self)@, e as int),
            final(self).spec_element(e as int) == (ElementData {
                form_owner: Some(form),
                ..old(self).spec_element(e as int)
            }),
    {
        let n = &mut self.nodes[e];
        match &mut n.data {
            NodeData::Element(ed) => {
                ed.form_owner = Some(form);
            },
            _ => {
                proof {
                    assert(false);
                }
            },
        }
    }

    /// Marks a parser-inserted script element as already started.
    pub fn set_script_already_started(&mut self, e: usize)
        requires
            old(self).wf(),
            e < old(self)@.len(),
            old(self)@[e as int].data is Element,
        ensures
            final(self).wf(),
            Self::spec_only_element_changed(old(self)@, final(self)@, e as int),
            final(self).spec_element(e as int) == (ElementData {
                script_already_started: true,
                ..old(self).spec_element(e as int)
            }),
    {
        let n = &mut self.nodes[e];
        match &mut n.data {
            NodeData::Element(ed) => {
                ed.script_already_started = true;
            },
            _ => {
                proof {
                    assert(false);
                }
            },
        }
    }

    /// Runs the node's insertion callback when it is popped complete.
    pub fn notify_pop(&mut self, e: usize)
        requires
            old(self).wf(),
            e < old(self)@.len(),
            old(self)@[e as int].data is Element,
            old(self).spec_element(e as int).pop_notified < u64::MAX,
        ensures
            final(self).wf(),
            Self::spec_only_element_changed(old(self)@, final(self)@, e as int),
            final(self).spec_element(e as int) == (ElementData {
                pop_notified: (old(self).spec_element(e as int).pop_notified + 1) as u64,
                ..old(self).spec_element(e as int)
            }),
    {
        let n = &mut self.nodes[e];
        match &mut n.data {
            NodeData::Element(ed) => {
                ed.pop_notified = ed.pop_notified + 1;
            },
            _ => {
                proof {
                    assert(false);
                }
            },
        }
    }

    /// Adds, in order, each attribute whose name the element does not
    /// already carry.
    pub fn add_attrs_if_missing(&mut self, e: usize, attrs: Vec<ElementAttribute>)
        requires
            old(self).wf(),
            e < old(self)@.len(),
            old(self)@[e as int].data is Element,
        ensures
            final(self).wf(),
            Self::spec_only_element_changed(old(self)@, final(self)@, e as int),
            final(self).spec_element(e as int) == (ElementData {
                attrs: final(self).spec_element(e as int).attrs,
                ..old(self).spec_element(e as int)
            }),
            final(self).spec_element(e as int).attrs@ == spec_add_attrs_if_missing(
                old(self).spec_element(e as int).attrs@,
                attrs@,
            ),
    {
        let ghost incoming = attrs@;
        let ghost a0 = self@;
        let mut cur: Vec<ElementAttribute> = Vec::new();
        let n = &mut self.nodes[e];
        match &mut n.data {
            NodeData::Element(ed) => {
                core::mem::swap(&mut cur, &mut ed.attrs);
            },
            _ => {
                proof {
                    assert(false);
                }
            },
        }
        let ghost orig = cur@;
        let mut rest = attrs;
        while rest.len() > 0
            invariant
                spec_add_attrs_if_missing(cur@, rest@) == spec_add_attrs_if_missing(
                    orig,
                    incoming,
                ),
            decreases rest@.len(),
        {
            let ghost pre = cur@;
            let ghost restpre = rest@;
            let first = rest.remove(0);
            proof {
                assert(restpre[0] == first);
                assert(restpre.drop_first() =~= rest@);
            }
            let present = has_attr_named(&cur, &first.name);
            if !present {
                cur.push(first);
            }
        }
        proof {
            assert(spec_add_attrs_if_missing(cur@, rest@) == cur@);
        }
        let n2 = &mut self.nodes[e];
        match &mut n2.data {
            NodeData::Element(ed) => {
                let mut put = cur;
                core::mem::swap(&mut put, &mut ed.attrs);
            },
            _ => {
                proof {
                    assert(false);
                }
            },
        }
    }

    pub fn last_child(&self, p: usize) -> (r: Option<usize>)
        requires
            p < self@.len(),
        ensures
            r == spec_last_child(self@, p as int),
    {
        let ch = &self.nodes[p].children;
        if ch.len() == 0 {
            None
        } else {
            Some(ch[ch.len() - 1])
        }
    }

    pub fn prev_sibling(&self, p: usize, r: usize) -> (s: Option<usize>)
        requires
            self.wf(),
            p < self@.len(),
            r < self@.len(),
            self@[r as int].parent == Some(p),
        ensures
            s == spec_prev_sibling(self@, p as int, r),
    {
        let pos = self.find_child_index(p, r);
        if pos == 0 {
            None
        } else {
            Some(self.nodes[p].children[pos - 1])
        }
    }
}

} // verus!
