//! DOM access: the element tree model and the element handle wrapper.
//!
//! The real element tree lives inside the engine and is reached through
//! opaque handles whose reference counts the engine keeps.  Here the tree
//! is an explicit arena: a node's parent always has a smaller index than
//! the node (nodes are created after their parents), which keeps every
//! ancestor walk finite.  An [`Element`] is an owned use of one handle;
//! its constructors and `release` keep the per-node use count exactly as
//! the engine's use/unuse calls would.

use vstd::prelude::*;

verus! {

use vstd::string::StringExecFns;

use crate::event::{spec_click_code, spec_event_code, BehaviorEvent, BehaviorEventParams, ClickReason};
use crate::value::Value;

/// Result codes of DOM operations, as the engine reports them.
#[allow(non_camel_case_types)]
#[derive(Clone, Copy, PartialEq, Eq, Structural, Debug)]
pub enum SCDOM_RESULT {
    /// Success.
    OK,
    /// The window handle is not valid.
    INVALID_HWND,
    /// The element handle is not valid.
    INVALID_HANDLE,
    /// The element does not carry what was asked of it.
    PASSIVE_HANDLE,
    /// A parameter is not valid.
    INVALID_PARAMETER,
    /// The operation failed.
    OPERATION_FAILED,
    /// Success, but nothing was there to do.
    OK_NOT_HANDLED,
}

/// A specialized `Result` type for DOM operations.
pub type DomResult<T> = Result<T, SCDOM_RESULT>;

/// An element handle: `0` is the null handle, any other value is one plus
/// the node's index in the tree arena.
pub type HELEMENT = u64;

/// Tree links of one node.
pub struct NodeLinks {
    /// Index of the parent node; always smaller than this node's index.
    pub parent: Option<usize>,
    /// Indices of the children, in document order; all larger than this
    /// node's index.
    pub children: Vec<usize>,
}

/// One event fired through the tree, with its posting mode.
pub struct FiredEvent {
    /// The event payload as it would cross the wire.
    pub params: BehaviorEventParams,
    /// Whether the event was posted (`true`) or sent synchronously.
    pub post: bool,
}

/// The element tree of one document, with the timers set on its elements
/// and the events fired through it.  The per-node data lives in parallel
/// vectors, all indexed by the node's index.
pub struct Dom {
    /// Tree links of each node.
    pub links: Vec<NodeLinks>,
    /// Tag name of each node, e.g. `div`.
    pub tags: Vec<String>,
    /// Inner text of each node.
    pub texts: Vec<String>,
    /// Attributes of each node, as name/value pairs looked up first-match.
    pub attrs: Vec<Vec<(String, String)>>,
    /// Style attributes of each node.
    pub styles: Vec<Vec<(String, String)>>,
    /// Value of each node.
    pub values: Vec<Value>,
    /// Engine-side use count of each node's handle.
    pub uses: Vec<u64>,
    /// Active timers: element handle, timer id, period in milliseconds.
    pub timers: Vec<(u64, u64, u32)>,
    /// Events fired through the tree, oldest first.
    pub events: Vec<FiredEvent>,
}

/// Every parent index is smaller than its node's index.
pub open spec fn parents_ordered(links: Seq<NodeLinks>) -> bool {
    forall|n: int|
        0 <= n < links.len() ==> match #[trigger] links[n].parent {
            Some(p) => 0 <= p < n,
            None => true,
        }
}

/// Every child index is larger than its node's and inside the arena.
pub open spec fn children_in_range(links: Seq<NodeLinks>) -> bool {
    forall|n: int, i: int|
        0 <= n < links.len() && 0 <= i < links[n].children@.len() ==> n
            < #[trigger] links[n].children@[i] < links.len()
}

/// A node listed as a child points back at the listing node.
pub open spec fn child_parent_link(links: Seq<NodeLinks>) -> bool {
    forall|n: int, i: int|
        0 <= n < links.len() && 0 <= i < links[n].children@.len() ==> links[#[trigger] links[n].children@[i] as int].parent
            == Some(n as usize)
}

/// A node with a parent is listed among that parent's children.
pub open spec fn parent_child_link(links: Seq<NodeLinks>) -> bool {
    forall|n: int|
        0 <= n < links.len() ==> match #[trigger] links[n].parent {
            Some(p) => links[p as int].children@.contains(n as usize),
            None => true,
        }
}

/// No node is listed twice among one node's children.
pub open spec fn children_unique(links: Seq<NodeLinks>) -> bool {
    forall|n: int, i: int, j: int|
        0 <= n < links.len() && 0 <= i < links[n].children@.len() && 0 <= j
            < links[n].children@.len() && i != j ==> #[trigger] links[n].children@[i]
            != #[trigger] links[n].children@[j]
}

/// All five structural invariants of the link structure.
pub open spec fn links_wf(links: Seq<NodeLinks>) -> bool {
    &&& parents_ordered(links)
    &&& children_in_range(links)
    &&& child_parent_link(links)
    &&& parent_child_link(links)
    &&& children_unique(links)
}

impl Dom {
    /// The tree is well formed: the parallel vectors agree in length and
    /// the link structure holds its invariants.
    pub open spec fn wf(&self) -> bool {
        &&& links_wf(self.links@)
        &&& self.tags@.len() == self.links@.len()
        &&& self.texts@.len() == self.links@.len()
        &&& self.attrs@.len() == self.links@.len()
        &&& self.styles@.len() == self.links@.len()
        &&& self.values@.len() == self.links@.len()
        &&& self.uses@.len() == self.links@.len()
    }

    /// Whether `he` is a handle of a node of this tree.
    pub open spec fn valid_handle(&self, he: u64) -> bool {
        1 <= he <= self.links@.len()
    }

    /// The node index of a handle.
    pub open spec fn node_of(&self, he: u64) -> int {
        he - 1
    }

    /// The links are unchanged and the content vectors changed at most at
    /// the given node.
    pub open spec fn same_but_content_at(&self, o: Dom, at: int) -> bool {
        &&& self.links@ == o.links@
        &&& self.tags@.len() == o.tags@.len()
        &&& self.texts@.len() == o.texts@.len()
        &&& self.attrs@.len() == o.attrs@.len()
        &&& self.styles@.len() == o.styles@.len()
        &&& self.values@.len() == o.values@.len()
        &&& self.uses@.len() == o.uses@.len()
        &&& self.timers@ == o.timers@
        &&& self.events@ == o.events@
        &&& forall|k: int|
            0 <= k < o.links@.len() && k != at ==> #[trigger] self.tags@[k] == o.tags@[k]
                && self.texts@[k] == o.texts@[k] && self.attrs@[k] == o.attrs@[k]
                && self.styles@[k] == o.styles@[k] && self.values@[k] == o.values@[k]
                && self.uses@[k] == o.uses@[k]
    }

    /// All per-node content vectors, the timers and the events are
    /// unchanged; only the links may differ.
    pub open spec fn same_content(&self, o: Dom) -> bool {
        &&& self.tags@ == o.tags@
        &&& self.texts@ == o.texts@
        &&& self.attrs@ == o.attrs@
        &&& self.styles@ == o.styles@
        &&& self.values@ == o.values@
        &&& self.uses@ == o.uses@
        &&& self.timers@ == o.timers@
        &&& self.events@ == o.events@
    }

    /// An empty tree.
    pub fn new() -> (r: Dom)
        ensures
            r.wf(),
            r.links@.len() == 0,
            r.timers@.len() == 0,
            r.events@.len() == 0,
    {
        Dom {
            links: Vec::new(),
            tags: Vec::new(),
            texts: Vec::new(),
            attrs: Vec::new(),
            styles: Vec::new(),
            values: Vec::new(),
            uses: Vec::new(),
            timers: Vec::new(),
            events: Vec::new(),
        }
    }

    /// The handle of the document root: the first node, when one exists.
    pub fn root_handle(&self) -> (r: u64)
        ensures
            self.links@.len() == 0 ==> r == 0,
            self.links@.len() > 0 ==> r == 1,
    {
        if self.links.len() == 0 {
            0
        } else {
            1
        }
    }

    /// The node index of a valid handle, as a vector index.
    pub fn node_index(&self, he: u64) -> (idx: usize)
        requires
            self.valid_handle(he),
        ensures
            idx == self.node_of(he),
            idx < self.links@.len(),
    {
        let bound = self.links.len();
        (he - 1) as usize
    }
}

/// The root of the ancestor chain of node `n`: the chain is finite
/// because a parent's index is always smaller.
pub open spec fn spec_root_of(links: Seq<NodeLinks>, n: int) -> int
    decreases n,
{
    match links[n].parent {
        Some(p) => if 0 <= p < n {
            spec_root_of(links, p as int)
        } else {
            n
        },
        None => n,
    }
}

/// Whether node `n` lies in the subtree of node `a` (self included).
pub open spec fn spec_in_subtree(links: Seq<NodeLinks>, n: int, a: int) -> bool
    decreases n,
{
    if n == a {
        true
    } else {
        match links[n].parent {
            Some(p) => if 0 <= p < n {
                spec_in_subtree(links, p as int, a)
            } else {
                false
            },
            None => false,
        }
    }
}

/// DOM element: an owned use of one element handle.  The wrapper holds
/// exactly one use of the node; `retain` takes another and `release`
/// gives one back, as the engine's use/unuse calls would.
pub struct Element {
    /// The handle; `0` is the null element.
    pub he: HELEMENT,
}

impl Element {
    /// Construct an element from a handle, taking a use of it; a handle
    /// that is not valid gives the null element, as the engine's use call
    /// would refuse it.  The use count saturates at its maximum.
    pub fn from(dom: &mut Dom, he: HELEMENT) -> (r: Element)
        requires
            old(dom).wf(),
        ensures
            final(dom).wf(),
            old(dom).valid_handle(he) ==> {
                &&& r.he == he
                &&& final(dom).same_but_content_at(*old(dom), old(dom).node_of(he))
                &&& final(dom).uses@[old(dom).node_of(he)] == (if old(dom).uses@[old(dom).node_of(
                    he,
                )] < u64::MAX {
                    old(dom).uses@[old(dom).node_of(he)] + 1
                } else {
                    old(dom).uses@[old(dom).node_of(he)] as int
                })
                &&& final(dom).tags@[old(dom).node_of(he)] == old(dom).tags@[old(dom).node_of(he)]
                &&& final(dom).texts@[old(dom).node_of(he)] == old(dom).texts@[old(dom).node_of(he)]
                &&& final(dom).attrs@[old(dom).node_of(he)] == old(dom).attrs@[old(dom).node_of(he)]
                &&& final(dom).styles@[old(dom).node_of(he)] == old(dom).styles@[old(dom).node_of(
                    he,
                )]
                &&& final(dom).values@[old(dom).node_of(he)] == old(dom).values@[old(dom).node_of(
                    he,
                )]
            },
            !old(dom).valid_handle(he) ==> r.he == 0 && *final(dom) == *old(dom),
    {
        if he >= 1 && he <= dom.links.len() as u64 {
            let idx = dom.node_index(he);
            let uses = dom.uses[idx];
            if uses < u64::MAX {
                dom.uses[idx] = uses + 1;
            }
            Element { he }
        } else {
            Element { he: 0 }
        }
    }

    /// The raw handle.
    pub fn as_ptr(&self) -> (r: HELEMENT)
        ensures
            r == self.he,
    {
        self.he
    }

    /// Whether this is the null element.
    pub fn is_null(&self) -> (r: bool)
        ensures
            r == (self.he == 0),
    {
        self.he == 0
    }

    /// Take one more use of the handle, as cloning the wrapper does.
    pub fn retain(&self, dom: &mut Dom) -> (r: Element)
        requires
            old(dom).wf(),
            old(dom).valid_handle(self.he),
        ensures
            final(dom).wf(),
            r.he == self.he,
            final(dom).same_but_content_at(*old(dom), old(dom).node_of(self.he)),
            final(dom).uses@[old(dom).node_of(self.he)] == (if old(dom).uses@[old(dom).node_of(
                self.he,
            )] < u64::MAX {
                old(dom).uses@[old(dom).node_of(self.he)] + 1
            } else {
                old(dom).uses@[old(dom).node_of(self.he)] as int
            }),
            final(dom).tags@[old(dom).node_of(self.he)] == old(dom).tags@[old(dom).node_of(self.he)],
            final(dom).texts@[old(dom).node_of(self.he)] == old(dom).texts@[old(dom).node_of(
                self.he,
            )],
            final(dom).attrs@[old(dom).node_of(self.he)] == old(dom).attrs@[old(dom).node_of(
                self.he,
            )],
            final(dom).styles@[old(dom).node_of(self.he)] == old(dom).styles@[old(dom).node_of(
                self.he,
            )],
            final(dom).values@[old(dom).node_of(self.he)] == old(dom).values@[old(dom).node_of(
                self.he,
            )],
    {
        let idx = dom.node_index(self.he);
        let uses = dom.uses[idx];
        if uses < u64::MAX {
            vstd::std_specs::core::index_set(&mut dom.uses, idx, uses + 1);
        }
        Element { he: self.he }
    }

    /// Give the wrapper's use of the handle back, as dropping the wrapper
    /// does.  Releasing the null element does nothing.
    pub fn release(self, dom: &mut Dom)
        requires
            old(dom).wf(),
            self.he != 0 ==> old(dom).valid_handle(self.he) && old(dom).uses@[old(dom).node_of(
                self.he,
            )] > 0,
        ensures
            final(dom).wf(),
            self.he != 0 ==> {
                &&& final(dom).same_but_content_at(*old(dom), old(dom).node_of(self.he))
                &&& final(dom).uses@[old(dom).node_of(self.he)] == old(dom).uses@[old(dom).node_of(
                    self.he,
                )] - 1
                &&& final(dom).tags@[old(dom).node_of(self.he)] == old(dom).tags@[old(dom).node_of(
                    self.he,
                )]
                &&& final(dom).texts@[old(dom).node_of(self.he)] == old(dom).texts@[old(
                    dom,
                ).node_of(self.he)]
                &&& final(dom).attrs@[old(dom).node_of(self.he)] == old(dom).attrs@[old(
                    dom,
                ).node_of(self.he)]
                &&& final(dom).styles@[old(dom).node_of(self.he)] == old(dom).styles@[old(
                    dom,
                ).node_of(self.he)]
                &&& final(dom).values@[old(dom).node_of(self.he)] == old(dom).values@[old(
                    dom,
                ).node_of(self.he)]
            },
            self.he == 0 ==> *final(dom) == *old(dom),
    {
        if self.he != 0 {
            let idx = dom.node_index(self.he);
            let uses = dom.uses[idx];
            vstd::std_specs::core::index_set(&mut dom.uses, idx, uses - 1);
        }
    }

    /// Create a new element with the given tag; it is disconnected from
    /// the tree and its handle starts with one use, owned by the result.
    pub fn create(dom: &mut Dom, tag: &str) -> (r: DomResult<Element>)
        requires
            old(dom).wf(),
            old(dom).links@.len() < u64::MAX - 1,
        ensures
            final(dom).wf(),
            r matches Ok(e) && {
                &&& e.he == old(dom).links@.len() + 1
                &&& final(dom).links@.len() == old(dom).links@.len() + 1
                &&& final(dom).links@.subrange(0, old(dom).links@.len() as int) == old(dom).links@
                &&& final(dom).tags@ == old(dom).tags@.push(final(dom).tags@.last())
                &&& final(dom).tags@.last()@ == tag@
                &&& final(dom).texts@.last()@.len() == 0
                &&& final(dom).attrs@.last()@.len() == 0
                &&& final(dom).links@.last().parent is None
                &&& final(dom).links@.last().children@.len() == 0
                &&& final(dom).uses@.last() == 1
                &&& final(dom).texts@ == old(dom).texts@.push(final(dom).texts@.last())
                &&& final(dom).attrs@ == old(dom).attrs@.push(final(dom).attrs@.last())
                &&& final(dom).styles@ == old(dom).styles@.push(final(dom).styles@.last())
                &&& final(dom).values@ == old(dom).values@.push(final(dom).values@.last())
                &&& final(dom).uses@ == old(dom).uses@.push(1)
            },
            final(dom).timers@ == old(dom).timers@,
            final(dom).events@ == old(dom).events@,
    {
        let he = dom.links.len() as u64 + 1;
        dom.links.push(NodeLinks { parent: None, children: Vec::new() });
        dom.tags.push(tag.to_owned());
        dom.texts.push(String::new());
        dom.attrs.push(Vec::new());
        dom.styles.push(Vec::new());
        dom.values.push(Value::Null);
        dom.uses.push(1);
        proof {
            assert(dom.links@.subrange(0, old(dom).links@.len() as int) =~= old(dom).links@);
            lemma_wf_after_push(old(dom).links@, dom.links@);
        }
        Ok(Element { he })
    }

    /// Parent element, with a fresh use of its handle.
    pub fn parent(&self, dom: &mut Dom) -> (r: Option<Element>)
        requires
            old(dom).wf(),
            old(dom).valid_handle(self.he),
        ensures
            final(dom).wf(),
            final(dom).links@ == old(dom).links@,
            match old(dom).links@[old(dom).node_of(self.he)].parent {
                Some(p) => r matches Some(e) && e.he == p + 1,
                None => r is None && *final(dom) == *old(dom),
            },
    {
        let idx = dom.node_index(self.he);
        match dom.links[idx].parent {
            Some(p) => Some(Element::from(dom, p as u64 + 1)),
            None => None,
        }
    }

    /// Root of the element's ancestor chain, with a fresh use of its
    /// handle.
    pub fn root(&self, dom: &mut Dom) -> (r: Element)
        requires
            old(dom).wf(),
            old(dom).valid_handle(self.he),
        ensures
            final(dom).wf(),
            final(dom).links@ == old(dom).links@,
            r.he == spec_root_of(old(dom).links@, old(dom).node_of(self.he)) + 1,
            final(dom).links@[final(dom).node_of(r.he)].parent is None,
    {
        let mut cur: usize = dom.node_index(self.he);
        loop
            invariant
                dom.wf(),
                dom.links@ == old(dom).links@,
                0 <= cur < dom.links@.len(),
                spec_root_of(dom.links@, cur as int) == spec_root_of(
                    old(dom).links@,
                    old(dom).node_of(self.he),
                ),
            ensures
                dom.wf(),
                dom.links@ == old(dom).links@,
                0 <= cur < dom.links@.len(),
                dom.links@[cur as int].parent is None,
                cur as int == spec_root_of(old(dom).links@, old(dom).node_of(self.he)),
            decreases cur,
        {
            match dom.links[cur].parent {
                Some(p) => {
                    cur = p;
                },
                None => {
                    break ;
                },
            }
        }
        let total = dom.links.len();
        Element::from(dom, cur as u64 + 1)
    }

    /// Number of child elements.
    pub fn children_count(&self, dom: &Dom) -> (r: usize)
        requires
            dom.wf(),
            dom.valid_handle(self.he),
        ensures
            r == dom.links@[dom.node_of(self.he)].children@.len(),
    {
        let idx = dom.node_index(self.he);
        dom.links[idx].children.len()
    }

    /// Number of child elements.
    pub fn len(&self, dom: &Dom) -> (r: usize)
        requires
            dom.wf(),
            dom.valid_handle(self.he),
        ensures
            r == dom.links@[dom.node_of(self.he)].children@.len(),
    {
        self.children_count(dom)
    }

    /// Child element at `index`, with a fresh use of its handle.
    pub fn child(&self, dom: &mut Dom, index: usize) -> (r: Option<Element>)
        requires
            old(dom).wf(),
            old(dom).valid_handle(self.he),
        ensures
            final(dom).wf(),
            final(dom).links@ == old(dom).links@,
            ({
                let kids = old(dom).links@[old(dom).node_of(self.he)].children@;
                if index < kids.len() {
                    r matches Some(e) && e.he == kids[index as int] + 1
                } else {
                    r is None && *final(dom) == *old(dom)
                }
            }),
    {
        let idx = dom.node_index(self.he);
        let total = dom.links.len();
        if index < dom.links[idx].children.len() {
            let c = dom.links[idx].children[index];
            Some(Element::from(dom, c as u64 + 1))
        } else {
            None
        }
    }

    /// Child element at `index`, with a fresh use of its handle.
    pub fn get(&self, dom: &mut Dom, index: usize) -> (r: Option<Element>)
        requires
            old(dom).wf(),
            old(dom).valid_handle(self.he),
        ensures
            final(dom).wf(),
            final(dom).links@ == old(dom).links@,
            ({
                let kids = old(dom).links@[old(dom).node_of(self.he)].children@;
                if index < kids.len() {
                    r matches Some(e) && e.he == kids[index as int] + 1
                } else {
                    r is None
                }
            }),
    {
        self.child(dom, index)
    }

    /// First child element.
    pub fn first_child(&self, dom: &mut Dom) -> (r: Option<Element>)
        requires
            old(dom).wf(),
            old(dom).valid_handle(self.he),
        ensures
            final(dom).wf(),
            final(dom).links@ == old(dom).links@,
            ({
                let kids = old(dom).links@[old(dom).node_of(self.he)].children@;
                if kids.len() > 0 {
                    r matches Some(e) && e.he == kids[0] + 1
                } else {
                    r is None
                }
            }),
    {
        self.child(dom, 0)
    }

    /// Last child element.
    pub fn last_child(&self, dom: &mut Dom) -> (r: Option<Element>)
        requires
            old(dom).wf(),
            old(dom).valid_handle(self.he),
        ensures
            final(dom).wf(),
            final(dom).links@ == old(dom).links@,
            ({
                let kids = old(dom).links@[old(dom).node_of(self.he)].children@;
                if kids.len() > 0 {
                    r matches Some(e) && e.he == kids.last() + 1
                } else {
                    r is None
                }
            }),
    {
        let count = self.len(dom);
        if count > 0 {
            self.child(dom, count - 1)
        } else {
            None
        }
    }

    /// Index of this element in its parent's child list; a detached
    /// element reports 0.
    pub fn index(&self, dom: &Dom) -> (r: usize)
        requires
            dom.wf(),
            dom.valid_handle(self.he),
        ensures
            match dom.links@[dom.node_of(self.he)].parent {
                Some(p) => r < dom.links@[p as int].children@.len()
                    && dom.links@[p as int].children@[r as int] == dom.node_of(self.he) as usize,
                None => r == 0,
            },
    {
        let idx = dom.node_index(self.he);
        match dom.links[idx].parent {
            Some(p) => {
                let mut i: usize = 0;
                while i < dom.links[p].children.len()
                    invariant
                        dom.wf(),
                        0 <= p < dom.links@.len(),
                        idx < dom.links@.len(),
                        idx == dom.node_of(self.he),
                        dom.links@[idx as int].parent == Some(p),
                        i <= dom.links@[p as int].children@.len(),
                        forall|j: int|
                            0 <= j < i ==> dom.links@[p as int].children@[j] != idx,
                    decreases dom.links@[p as int].children@.len() - i,
                {
                    if dom.links[p].children[i] == idx {
                        return i;
                    }
                    i = i + 1;
                }
                proof {
                    assert(dom.links@[p as int].children@.contains(idx));
                    let w = choose|w: int|
                        0 <= w < dom.links@[p as int].children@.len() && dom.links@[p as int].children@[w]
                            == idx;
                    assert(false);
                }
                vstd::pervasive::unreached()
            },
            None => 0,
        }
    }

    /// First sibling: the first child of the parent, or none for a
    /// detached element.
    pub fn first_sibling(&self, dom: &mut Dom) -> (r: Option<Element>)
        requires
            old(dom).wf(),
            old(dom).valid_handle(self.he),
        ensures
            final(dom).wf(),
            final(dom).links@ == old(dom).links@,
            match old(dom).links@[old(dom).node_of(self.he)].parent {
                Some(p) => r matches Some(e) && e.he == old(dom).links@[p as int].children@[0] + 1,
                None => r is None,
            },
    {
        let idx = dom.node_index(self.he);
        match dom.links[idx].parent {
            Some(p) => {
                proof {
                    assert(dom.links@[p as int].children@.contains(idx));
                }
                let dad = Element { he: p as u64 + 1 };
                dad.child(dom, 0)
            },
            None => None,
        }
    }

    /// Last sibling: the last child of the parent, or none for a
    /// detached element.
    pub fn last_sibling(&self, dom: &mut Dom) -> (r: Option<Element>)
        requires
            old(dom).wf(),
            old(dom).valid_handle(self.he),
        ensures
            final(dom).wf(),
            final(dom).links@ == old(dom).links@,
            match old(dom).links@[old(dom).node_of(self.he)].parent {
                Some(p) => r matches Some(e) && e.he == old(dom).links@[p as int].children@.last()
                    + 1,
                None => r is None,
            },
    {
        let idx = dom.node_index(self.he);
        match dom.links[idx].parent {
            Some(p) => {
                proof {
                    assert(dom.links@[p as int].children@.contains(idx));
                }
                let dad = Element { he: p as u64 + 1 };
                let count = dad.len(dom);
                dad.child(dom, count - 1)
            },
            None => None,
        }
    }

    /// Next sibling: the parent's child after this element.
    pub fn next_sibling(&self, dom: &mut Dom) -> (r: Option<Element>)
        requires
            old(dom).wf(),
            old(dom).valid_handle(self.he),
        ensures
            final(dom).wf(),
            final(dom).links@ == old(dom).links@,
            match old(dom).links@[old(dom).node_of(self.he)].parent {
                Some(p) => {
                    let kids = old(dom).links@[p as int].children@;
                    forall|w: int|
                        0 <= w < kids.len() && kids[w] == old(dom).node_of(self.he) ==> if w + 1
                            < kids.len() {
                            r matches Some(e) && e.he == kids[w + 1] + 1
                        } else {
                            r is None
                        }
                },
                None => r is None,
            },
    {
        let pos = self.index(dom);
        let idx = dom.node_index(self.he);
        match dom.links[idx].parent {
            Some(p) => {
                let dad = Element { he: p as u64 + 1 };
                let count = dad.len(dom);
                proof {
                    assert(dom.links@.len() == dom.links.len());
                    lemma_unique_position(dom.links@, p as int, idx);
                }
                if pos + 1 < count {
                    dad.child(dom, pos + 1)
                } else {
                    None
                }
            },
            None => None,
        }
    }

    /// Previous sibling: the parent's child before this element.
    pub fn prev_sibling(&self, dom: &mut Dom) -> (r: Option<Element>)
        requires
            old(dom).wf(),
            old(dom).valid_handle(self.he),
        ensures
            final(dom).wf(),
            final(dom).links@ == old(dom).links@,
            match old(dom).links@[old(dom).node_of(self.he)].parent {
                Some(p) => {
                    let kids = old(dom).links@[p as int].children@;
                    forall|w: int|
                        0 <= w < kids.len() && kids[w] == old(dom).node_of(self.he) ==> if w > 0 {
                            r matches Some(e) && e.he == kids[w - 1] + 1
                        } else {
                            r is None
                        }
                },
                None => r is None,
            },
    {
        let pos = self.index(dom);
        let idx = dom.node_index(self.he);
        match dom.links[idx].parent {
            Some(p) => {
                let dad = Element { he: p as u64 + 1 };
                proof {
                    assert(dom.links@.len() == dom.links.len());
                    lemma_unique_position(dom.links@, p as int, idx);
                }
                if pos > 0 {
                    dad.child(dom, pos - 1)
                } else {
                    None
                }
            },
            None => None,
        }
    }
}

/// In a well-formed tree a node occurs at exactly one position among its
/// parent's children.
proof fn lemma_unique_position(links: Seq<NodeLinks>, p: int, c: usize)
    requires
        links_wf(links),
        links.len() <= usize::MAX,
        0 <= p < links.len(),
        links[c as int].parent == Some(p as usize),
        c < links.len(),
    ensures
        forall|i: int, j: int|
            0 <= i < links[p].children@.len() && 0 <= j < links[p].children@.len()
                && links[p].children@[i] == c && links[p].children@[j] == c ==> i == j,
{
}

/// Appending a fresh detached node keeps every structural invariant.
proof fn lemma_wf_after_push(before: Seq<NodeLinks>, after: Seq<NodeLinks>)
    requires
        after.len() == before.len() + 1,
        after.subrange(0, before.len() as int) == before,
        after.last().parent is None,
        after.last().children@.len() == 0,
        links_wf(before),
    ensures
        links_wf(after),
{
    let m = before.len() as int;
    assert forall|k: int| 0 <= k < m implies after[k] == before[k] by {
        assert(after.subrange(0, m)[k] == after[k]);
    }
    assert forall|n: int| 0 <= n < after.len() implies match #[trigger] after[n].parent {
        Some(p) => 0 <= p < n,
        None => true,
    } by {
        if n < m {
            assert(after[n] == before[n]);
        }
    }
    assert forall|n: int, i: int|
        0 <= n < after.len() && 0 <= i < after[n].children@.len() implies n
        < #[trigger] after[n].children@[i] < after.len() by {
        if n < m {
            assert(after[n] == before[n]);
        }
    }
    assert forall|n: int, i: int|
        0 <= n < after.len() && 0 <= i < after[n].children@.len() implies after[#[trigger] after[n].children@[i] as int].parent
        == Some(n as usize) by {
        if n < m {
            assert(after[n] == before[n]);
            assert(before[before[n].children@[i] as int].parent == Some(n as usize));
            assert(after[before[n].children@[i] as int] == before[before[n].children@[i] as int]);
        }
    }
    assert forall|n: int| 0 <= n < after.len() implies match #[trigger] after[n].parent {
        Some(p) => after[p as int].children@.contains(n as usize),
        None => true,
    } by {
        if n < m {
            assert(after[n] == before[n]);
            match before[n].parent {
                Some(p) => {
                    assert(before[p as int].children@.contains(n as usize));
                    let w = choose|w: int|
                        0 <= w < before[p as int].children@.len() && before[p as int].children@[w]
                            == n as usize;
                    assert(after[p as int] == before[p as int]);
                    assert(after[p as int].children@[w] == n as usize);
                },
                None => {},
            }
        }
    }
    assert forall|n: int, i: int, j: int|
        0 <= n < after.len() && 0 <= i < after[n].children@.len() && 0 <= j
            < after[n].children@.len() && i != j implies #[trigger] after[n].children@[i]
        != #[trigger] after[n].children@[j] by {
        if n < m {
            assert(after[n] == before[n]);
        }
    }
}


/// The value of the first entry of `list` whose name reads `name`.
pub open spec fn spec_attr_lookup(list: Seq<(String, String)>, name: Seq<char>) -> Option<
    Seq<char>,
>
    decreases list.len(),
{
    if list.len() == 0 {
        None
    } else if list[0].0@ == name {
        Some(list[0].1@)
    } else {
        spec_attr_lookup(list.drop_first(), name)
    }
}

/// `list` with every entry named `name` taken out, order kept.
pub open spec fn spec_attr_remove(list: Seq<(String, String)>, name: Seq<char>) -> Seq<
    (String, String),
>
    decreases list.len(),
{
    if list.len() == 0 {
        list
    } else if list[0].0@ == name {
        spec_attr_remove(list.drop_first(), name)
    } else {
        seq![list[0]] + spec_attr_remove(list.drop_first(), name)
    }
}

/// Removing one name changes no other name's lookup, and leaves the
/// removed name unfindable.
pub proof fn lemma_attr_remove_lookup(list: Seq<(String, String)>, name: Seq<char>, other: Seq<char>)
    ensures
        spec_attr_lookup(spec_attr_remove(list, name), other) == (if other == name {
            None
        } else {
            spec_attr_lookup(list, other)
        }),
    decreases list.len(),
{
    if list.len() == 0 {
    } else {
        lemma_attr_remove_lookup(list.drop_first(), name, other);
        if list[0].0@ == name {
        } else {
            let rest = spec_attr_remove(list.drop_first(), name);
            assert((seq![list[0]] + rest).drop_first() =~= rest);
        }
    }
}

/// Look a name up in an attribute list, first match wins.
fn attr_get(list: &Vec<(String, String)>, name: &str) -> (r: Option<String>)
    ensures
        match spec_attr_lookup(list@, name@) {
            Some(v) => r matches Some(s) && s@ == v,
            None => r is None,
        },
{
    let owned: String = name.to_owned();
    let mut i: usize = 0;
    proof {
        assert(list@.skip(0) =~= list@);
    }
    while i < list.len()
        invariant
            i <= list@.len(),
            owned@ == name@,
            spec_attr_lookup(list@, name@) == spec_attr_lookup(list@.skip(i as int), name@),
        decreases list@.len() - i,
    {
        proof {
            assert(list@.skip(i as int).drop_first() =~= list@.skip(i as int + 1));
        }
        if list[i].0 == owned {
            return Some(list[i].1.clone());
        }
        i = i + 1;
    }
    proof {
        assert(list@.skip(i as int) =~= Seq::<(String, String)>::empty());
    }
    None
}

/// An attribute list without the entries of one name, order kept.
fn attr_remove(list: &Vec<(String, String)>, name: &str) -> (r: Vec<(String, String)>)
    ensures
        r@ == spec_attr_remove(list@, name@),
{
    let owned: String = name.to_owned();
    let mut out: Vec<(String, String)> = Vec::new();
    let mut i: usize = 0;
    proof {
        assert(list@.skip(0) =~= list@);
        assert(out@ + spec_attr_remove(list@.skip(0), name@) =~= spec_attr_remove(list@, name@));
    }
    while i < list.len()
        invariant
            i <= list@.len(),
            owned@ == name@,
            out@ + spec_attr_remove(list@.skip(i as int), name@) == spec_attr_remove(
                list@,
                name@,
            ),
        decreases list@.len() - i,
    {
        proof {
            assert(list@.skip(i as int).drop_first() =~= list@.skip(i as int + 1));
        }
        if list[i].0 == owned {
            proof {
                assert(out@ + spec_attr_remove(list@.skip(i as int + 1), name@) =~= out@
                    + spec_attr_remove(list@.skip(i as int), name@));
            }
        } else {
            let pair = (list[i].0.clone(), list[i].1.clone());
            let ghost prev = out@;
            out.push(pair);
            proof {
                let rest = spec_attr_remove(list@.skip(i as int + 1), name@);
                assert(spec_attr_remove(list@.skip(i as int), name@) =~= seq![
                    list@.skip(i as int)[0],
                ] + rest);
                assert(prev.push(list@[i as int]) + rest =~= prev + (seq![list@[i as int]] + rest));
            }
        }
        i = i + 1;
    }
    proof {
        assert(list@.skip(i as int) =~= Seq::<(String, String)>::empty());
        assert(out@ + Seq::<(String, String)>::empty() =~= out@);
    }
    out
}

impl Element {
    /// Tag name of the element.
    pub fn get_tag(&self, dom: &Dom) -> (r: String)
        requires
            dom.wf(),
            dom.valid_handle(self.he),
        ensures
            r == dom.tags@[dom.node_of(self.he)],
    {
        let idx = dom.node_index(self.he);
        dom.tags[idx].clone()
    }

    /// Inner text of the element.
    pub fn get_text(&self, dom: &Dom) -> (r: String)
        requires
            dom.wf(),
            dom.valid_handle(self.he),
        ensures
            r == dom.texts@[dom.node_of(self.he)],
    {
        let idx = dom.node_index(self.he);
        dom.texts[idx].clone()
    }

    /// Set the inner text of the element.
    pub fn set_text(&self, dom: &mut Dom, text: &str) -> (r: DomResult<()>)
        requires
            old(dom).wf(),
            old(dom).valid_handle(self.he),
        ensures
            final(dom).wf(),
            r is Ok,
            final(dom).same_but_content_at(*old(dom), old(dom).node_of(self.he)),
            final(dom).texts@[old(dom).node_of(self.he)]@ == text@,
            final(dom).tags@[old(dom).node_of(self.he)] == old(dom).tags@[old(dom).node_of(
                self.he,
            )],
            final(dom).attrs@[old(dom).node_of(self.he)] == old(dom).attrs@[old(dom).node_of(
                self.he,
            )],
            final(dom).styles@[old(dom).node_of(self.he)] == old(dom).styles@[old(dom).node_of(
                self.he,
            )],
            final(dom).values@[old(dom).node_of(self.he)] == old(dom).values@[old(dom).node_of(
                self.he,
            )],
            final(dom).uses@[old(dom).node_of(self.he)] == old(dom).uses@[old(dom).node_of(
                self.he,
            )],
    {
        let idx = dom.node_index(self.he);
        vstd::std_specs::core::index_set(&mut dom.texts, idx, text.to_owned());
        Ok(())
    }

    /// Value of the element.
    pub fn get_value(&self, dom: &Dom) -> (r: Value)
        requires
            dom.wf(),
            dom.valid_handle(self.he),
        ensures
            r == dom.values@[dom.node_of(self.he)],
    {
        let idx = dom.node_index(self.he);
        dom.values[idx].duplicate()
    }

    /// Set the value of the element.
    pub fn set_value(&self, dom: &mut Dom, val: Value) -> (r: DomResult<()>)
        requires
            old(dom).wf(),
            old(dom).valid_handle(self.he),
        ensures
            final(dom).wf(),
            r is Ok,
            final(dom).same_but_content_at(*old(dom), old(dom).node_of(self.he)),
            final(dom).values@[old(dom).node_of(self.he)] == val,
            final(dom).tags@[old(dom).node_of(self.he)] == old(dom).tags@[old(dom).node_of(
                self.he,
            )],
            final(dom).texts@[old(dom).node_of(self.he)] == old(dom).texts@[old(dom).node_of(
                self.he,
            )],
            final(dom).attrs@[old(dom).node_of(self.he)] == old(dom).attrs@[old(dom).node_of(
                self.he,
            )],
            final(dom).styles@[old(dom).node_of(self.he)] == old(dom).styles@[old(dom).node_of(
                self.he,
            )],
            final(dom).uses@[old(dom).node_of(self.he)] == old(dom).uses@[old(dom).node_of(
                self.he,
            )],
    {
        let idx = dom.node_index(self.he);
        vstd::std_specs::core::index_set(&mut dom.values, idx, val);
        Ok(())
    }

    /// Number of attributes of the element.
    pub fn attribute_count(&self, dom: &Dom) -> (r: usize)
        requires
            dom.wf(),
            dom.valid_handle(self.he),
        ensures
            r == dom.attrs@[dom.node_of(self.he)]@.len(),
    {
        let idx = dom.node_index(self.he);
        dom.attrs[idx].len()
    }

    /// Attribute name at `index`; empty for an index out of range.
    pub fn attribute_name(&self, dom: &Dom, index: usize) -> (r: String)
        requires
            dom.wf(),
            dom.valid_handle(self.he),
        ensures
            index < dom.attrs@[dom.node_of(self.he)]@.len() ==> r == dom.attrs@[dom.node_of(
                self.he,
            )]@[index as int].0,
            index >= dom.attrs@[dom.node_of(self.he)]@.len() ==> r@.len() == 0,
    {
        let idx = dom.node_index(self.he);
        if index < dom.attrs[idx].len() {
            dom.attrs[idx][index].0.clone()
        } else {
            String::new()
        }
    }

    /// Attribute value at `index`; empty for an index out of range.
    pub fn attribute(&self, dom: &Dom, index: usize) -> (r: String)
        requires
            dom.wf(),
            dom.valid_handle(self.he),
        ensures
            index < dom.attrs@[dom.node_of(self.he)]@.len() ==> r == dom.attrs@[dom.node_of(
                self.he,
            )]@[index as int].1,
            index >= dom.attrs@[dom.node_of(self.he)]@.len() ==> r@.len() == 0,
    {
        let idx = dom.node_index(self.he);
        if index < dom.attrs[idx].len() {
            dom.attrs[idx][index].1.clone()
        } else {
            String::new()
        }
    }

    /// Attribute value by name; `None` when the element has no attribute
    /// of that name.
    pub fn get_attribute(&self, dom: &Dom, name: &str) -> (r: Option<String>)
        requires
            dom.wf(),
            dom.valid_handle(self.he),
        ensures
            match spec_attr_lookup(dom.attrs@[dom.node_of(self.he)]@, name@) {
                Some(v) => r matches Some(s) && s@ == v,
                None => r is None,
            },
    {
        let idx = dom.node_index(self.he);
        attr_get(&dom.attrs[idx], name)
    }

    /// Add or replace an attribute.  Afterwards the name looks up the new
    /// value and every other name looks up what it did before.
    pub fn set_attribute(&self, dom: &mut Dom, name: &str, value: &str) -> (r: DomResult<()>)
        requires
            old(dom).wf(),
            old(dom).valid_handle(self.he),
        ensures
            final(dom).wf(),
            r is Ok,
            final(dom).same_but_content_at(*old(dom), old(dom).node_of(self.he)),
            spec_attr_lookup(final(dom).attrs@[old(dom).node_of(self.he)]@, name@) == Some(value@),
            forall|o: Seq<char>|
                o != name@ ==> #[trigger] spec_attr_lookup(
                    final(dom).attrs@[old(dom).node_of(self.he)]@,
                    o,
                ) == spec_attr_lookup(old(dom).attrs@[old(dom).node_of(self.he)]@, o),
            final(dom).tags@[old(dom).node_of(self.he)] == old(dom).tags@[old(dom).node_of(
                self.he,
            )],
            final(dom).texts@[old(dom).node_of(self.he)] == old(dom).texts@[old(dom).node_of(
                self.he,
            )],
            final(dom).styles@[old(dom).node_of(self.he)] == old(dom).styles@[old(dom).node_of(
                self.he,
            )],
            final(dom).values@[old(dom).node_of(self.he)] == old(dom).values@[old(dom).node_of(
                self.he,
            )],
            final(dom).uses@[old(dom).node_of(self.he)] == old(dom).uses@[old(dom).node_of(
                self.he,
            )],
    {
        let idx = dom.node_index(self.he);
        let mut list = attr_remove(&dom.attrs[idx], name);
        let pair = (name.to_owned(), value.to_owned());
        list.insert(0, pair);
        proof {
            let older = old(dom).attrs@[old(dom).node_of(self.he)]@;
            let removed = spec_attr_remove(older, name@);
            assert(list@.drop_first() =~= removed);
            assert forall|o: Seq<char>| o != name@ implies #[trigger] spec_attr_lookup(list@, o)
                == spec_attr_lookup(older, o) by {
                lemma_attr_remove_lookup(older, name@, o);
            }
        }
        vstd::std_specs::core::index_set(&mut dom.attrs, idx, list);
        Ok(())
    }

    /// Remove an attribute.  Afterwards the name looks up nothing and
    /// every other name looks up what it did before.
    pub fn remove_attribute(&self, dom: &mut Dom, name: &str) -> (r: DomResult<()>)
        requires
            old(dom).wf(),
            old(dom).valid_handle(self.he),
        ensures
            final(dom).wf(),
            r is Ok,
            final(dom).same_but_content_at(*old(dom), old(dom).node_of(self.he)),
            spec_attr_lookup(final(dom).attrs@[old(dom).node_of(self.he)]@, name@) is None,
            forall|o: Seq<char>|
                o != name@ ==> #[trigger] spec_attr_lookup(
                    final(dom).attrs@[old(dom).node_of(self.he)]@,
                    o,
                ) == spec_attr_lookup(old(dom).attrs@[old(dom).node_of(self.he)]@, o),
            final(dom).tags@[old(dom).node_of(self.he)] == old(dom).tags@[old(dom).node_of(
                self.he,
            )],
            final(dom).texts@[old(dom).node_of(self.he)] == old(dom).texts@[old(dom).node_of(
                self.he,
            )],
            final(dom).styles@[old(dom).node_of(self.he)] == old(dom).styles@[old(dom).node_of(
                self.he,
            )],
            final(dom).values@[old(dom).node_of(self.he)] == old(dom).values@[old(dom).node_of(
                self.he,
            )],
            final(dom).uses@[old(dom).node_of(self.he)] == old(dom).uses@[old(dom).node_of(
                self.he,
            )],
    {
        let idx = dom.node_index(self.he);
        let list = attr_remove(&dom.attrs[idx], name);
        proof {
            let older = old(dom).attrs@[old(dom).node_of(self.he)]@;
            assert forall|o: Seq<char>| true implies #[trigger] spec_attr_lookup(list@, o) == (
            if o == name@ {
                None
            } else {
                spec_attr_lookup(older, o)
            }) by {
                lemma_attr_remove_lookup(older, name@, o);
            }
        }
        vstd::std_specs::core::index_set(&mut dom.attrs, idx, list);
        Ok(())
    }

    /// Set the attribute when a value is given, remove it otherwise.
    pub fn toggle_attribute(&self, dom: &mut Dom, name: &str, isset: bool, value: Option<&str>) -> (r:
        DomResult<()>)
        requires
            old(dom).wf(),
            old(dom).valid_handle(self.he),
            isset ==> value is Some,
        ensures
            final(dom).wf(),
            r is Ok,
            final(dom).same_but_content_at(*old(dom), old(dom).node_of(self.he)),
            isset ==> (value matches Some(v) && spec_attr_lookup(
                final(dom).attrs@[old(dom).node_of(self.he)]@,
                name@,
            ) == Some(v@)),
            !isset ==> spec_attr_lookup(
                final(dom).attrs@[old(dom).node_of(self.he)]@,
                name@,
            ) is None,
            forall|o: Seq<char>|
                o != name@ ==> #[trigger] spec_attr_lookup(
                    final(dom).attrs@[old(dom).node_of(self.he)]@,
                    o,
                ) == spec_attr_lookup(old(dom).attrs@[old(dom).node_of(self.he)]@, o),
    {
        if isset {
            match value {
                Some(v) => self.set_attribute(dom, name, v),
                None => vstd::pervasive::unreached(),
            }
        } else {
            self.remove_attribute(dom, name)
        }
    }

    /// Remove every attribute from the element.
    pub fn clear_attributes(&self, dom: &mut Dom) -> (r: DomResult<()>)
        requires
            old(dom).wf(),
            old(dom).valid_handle(self.he),
        ensures
            final(dom).wf(),
            r is Ok,
            final(dom).same_but_content_at(*old(dom), old(dom).node_of(self.he)),
            final(dom).attrs@[old(dom).node_of(self.he)]@.len() == 0,
    {
        let idx = dom.node_index(self.he);
        let empty: Vec<(String, String)> = Vec::new();
        vstd::std_specs::core::index_set(&mut dom.attrs, idx, empty);
        Ok(())
    }

    /// Style attribute value by name; empty when not set.
    pub fn get_style_attribute(&self, dom: &Dom, name: &str) -> (r: String)
        requires
            dom.wf(),
            dom.valid_handle(self.he),
        ensures
            match spec_attr_lookup(dom.styles@[dom.node_of(self.he)]@, name@) {
                Some(v) => r@ == v,
                None => r@.len() == 0,
            },
    {
        let idx = dom.node_index(self.he);
        match attr_get(&dom.styles[idx], name) {
            Some(s) => s,
            None => String::new(),
        }
    }

    /// Set a style attribute.
    pub fn set_style_attribute(&self, dom: &mut Dom, name: &str, value: &str) -> (r: DomResult<()>)
        requires
            old(dom).wf(),
            old(dom).valid_handle(self.he),
        ensures
            final(dom).wf(),
            r is Ok,
            final(dom).same_but_content_at(*old(dom), old(dom).node_of(self.he)),
            spec_attr_lookup(final(dom).styles@[old(dom).node_of(self.he)]@, name@) == Some(value@),
            forall|o: Seq<char>|
                o != name@ ==> #[trigger] spec_attr_lookup(
                    final(dom).styles@[old(dom).node_of(self.he)]@,
                    o,
                ) == spec_attr_lookup(old(dom).styles@[old(dom).node_of(self.he)]@, o),
    {
        let idx = dom.node_index(self.he);
        let mut list = attr_remove(&dom.styles[idx], name);
        let pair = (name.to_owned(), value.to_owned());
        list.insert(0, pair);
        proof {
            let older = old(dom).styles@[old(dom).node_of(self.he)]@;
            let removed = spec_attr_remove(older, name@);
            assert(list@.drop_first() =~= removed);
            assert forall|o: Seq<char>| o != name@ implies #[trigger] spec_attr_lookup(list@, o)
                == spec_attr_lookup(older, o) by {
                lemma_attr_remove_lookup(older, name@, o);
            }
        }
        vstd::std_specs::core::index_set(&mut dom.styles, idx, list);
        Ok(())
    }
}


/// An owned copy of a vector of indices.
fn copy_indices(v: &Vec<usize>) -> (r: Vec<usize>)
    ensures
        r@ == v@,
{
    let mut out: Vec<usize> = Vec::new();
    let mut i: usize = 0;
    while i < v.len()
        invariant
            i <= v@.len(),
            out@ == v@.subrange(0, i as int),
        decreases v@.len() - i,
    {
        out.push(v[i]);
        proof {
            assert(out@ =~= v@.subrange(0, i as int + 1));
        }
        i = i + 1;
    }
    proof {
        assert(out@ =~= v@);
    }
    out
}

/// Linking a detached later node under an earlier one keeps every
/// structural invariant.
proof fn lemma_wf_after_attach(
    before: Seq<NodeLinks>,
    after: Seq<NodeLinks>,
    p: int,
    c: int,
    pos: int,
)
    requires
        links_wf(before),
        before.len() <= usize::MAX,
        after.len() == before.len(),
        0 <= p < before.len(),
        0 <= c < before.len(),
        p < c,
        before[c].parent is None,
        0 <= pos <= before[p].children@.len(),
        after[p].parent == before[p].parent,
        after[p].children@ == before[p].children@.insert(pos, c as usize),
        after[c].parent == Some(p as usize),
        after[c].children@ == before[c].children@,
        forall|k: int| 0 <= k < before.len() && k != p && k != c ==> after[k] == before[k],
    ensures
        links_wf(after),
{
    let oldkids = before[p].children@;
    let newkids = after[p].children@;
    oldkids.insert_ensures(pos, c as usize);
    // c was in nobody's child list, since its parent was None
    assert forall|n: int, i: int|
        0 <= n < before.len() && 0 <= i < before[n].children@.len() implies before[n].children@[i]
        != c as usize by {
        if before[n].children@[i] == c as usize {
            assert(before[c].parent == Some(n as usize));
        }
    }
    assert forall|n: int| 0 <= n < after.len() implies match #[trigger] after[n].parent {
        Some(q) => 0 <= q < n,
        None => true,
    } by {
        if n == c {
        } else if n == p {
            assert(after[p].parent == before[p].parent);
        } else {
            assert(after[n] == before[n]);
        }
    }
    assert forall|n: int, i: int|
        0 <= n < after.len() && 0 <= i < after[n].children@.len() implies n
        < #[trigger] after[n].children@[i] < after.len() by {
        if n == p {
            if i < pos {
                assert(newkids[i] == oldkids[i]);
            } else if i == pos {
                assert(newkids[i] == c as usize);
            } else {
                assert(newkids[i] == oldkids[i - 1]);
            }
        } else if n == c {
            assert(after[c].children@ == before[c].children@);
        } else {
            assert(after[n] == before[n]);
        }
    }
    assert forall|n: int, i: int|
        0 <= n < after.len() && 0 <= i < after[n].children@.len() implies after[#[trigger] after[n].children@[i] as int].parent
        == Some(n as usize) by {
        if n == p {
            if i < pos {
                assert(newkids[i] == oldkids[i]);
                assert(before[oldkids[i] as int].parent == Some(p as usize));
                assert(oldkids[i] != c as usize);
                assert(oldkids[i] != p as usize);
                assert(after[oldkids[i] as int] == before[oldkids[i] as int]);
            } else if i == pos {
                assert(newkids[i] == c as usize);
            } else {
                assert(newkids[i] == oldkids[i - 1]);
                assert(before[oldkids[i - 1] as int].parent == Some(p as usize));
                assert(oldkids[i - 1] != c as usize);
                assert(oldkids[i - 1] != p as usize);
                assert(after[oldkids[i - 1] as int] == before[oldkids[i - 1] as int]);
            }
        } else if n == c {
            assert(after[c].children@ == before[c].children@);
            let x = before[c].children@[i];
            assert(before[x as int].parent == Some(c as usize));
            assert(x != c as usize);
            assert(x != p as usize) by {
                if x == p as usize {
                    assert(before[p].parent == Some(c as usize));
                    assert(p > c);
                }
            }
            assert(after[x as int] == before[x as int]);
        } else {
            assert(after[n] == before[n]);
            let x = before[n].children@[i];
            assert(before[x as int].parent == Some(n as usize));
            assert(x != c as usize);
            if x as int == p {
                assert(after[p].parent == before[p].parent);
            } else {
                assert(after[x as int] == before[x as int]);
            }
        }
    }
    assert forall|n: int| 0 <= n < after.len() implies match #[trigger] after[n].parent {
        Some(q) => after[q as int].children@.contains(n as usize),
        None => true,
    } by {
        if n == c {
            assert(newkids[pos] == c as usize);
            assert(after[p].children@.contains(c as usize));
        } else {
            let par = after[n].parent;
            assert(par == before[n].parent);
            match before[n].parent {
                Some(q) => {
                    let w = choose|w: int|
                        0 <= w < before[q as int].children@.len() && before[q as int].children@[w]
                            == n as usize;
                    if q as int == p {
                        if w < pos {
                            assert(newkids[w] == oldkids[w]);
                        } else {
                            assert(newkids[w + 1] == oldkids[w]);
                        }
                        assert(after[p].children@.contains(n as usize));
                    } else {
                        assert(after[q as int].children@ == before[q as int].children@);
                        assert(after[q as int].children@[w] == n as usize);
                    }
                },
                None => {},
            }
        }
    }
    assert forall|n: int, i: int, j: int|
        0 <= n < after.len() && 0 <= i < after[n].children@.len() && 0 <= j
            < after[n].children@.len() && i != j implies #[trigger] after[n].children@[i]
        != #[trigger] after[n].children@[j] by {
        if n == p {
            let xi = if i < pos {
                oldkids[i]
            } else if i == pos {
                c as usize
            } else {
                oldkids[i - 1]
            };
            let xj = if j < pos {
                oldkids[j]
            } else if j == pos {
                c as usize
            } else {
                oldkids[j - 1]
            };
            assert(newkids[i] == xi);
            assert(newkids[j] == xj);
            if i == pos {
                if xj == c as usize {
                    assert(oldkids.contains(xj) || j == pos);
                }
            } else if j == pos {
                if xi == c as usize {
                    assert(oldkids.contains(xi) || i == pos);
                }
            }
        } else if n == c {
            assert(after[c].children@ == before[c].children@);
        } else {
            assert(after[n] == before[n]);
        }
    }
}

/// Unlinking a child from its parent keeps every structural invariant.
proof fn lemma_wf_after_detach(
    before: Seq<NodeLinks>,
    after: Seq<NodeLinks>,
    p: int,
    c: int,
    pos: int,
)
    requires
        links_wf(before),
        before.len() <= usize::MAX,
        after.len() == before.len(),
        0 <= p < before.len(),
        0 <= c < before.len(),
        p != c,
        0 <= pos < before[p].children@.len(),
        before[p].children@[pos] == c as usize,
        before[c].parent == Some(p as usize),
        after[p].parent == before[p].parent,
        after[p].children@ == before[p].children@.remove(pos),
        after[c].parent is None,
        after[c].children@ == before[c].children@,
        forall|k: int| 0 <= k < before.len() && k != p && k != c ==> after[k] == before[k],
    ensures
        links_wf(after),
{
    let oldkids = before[p].children@;
    let newkids = after[p].children@;
    oldkids.remove_ensures(pos);
    assert forall|n: int| 0 <= n < after.len() implies match #[trigger] after[n].parent {
        Some(q) => 0 <= q < n,
        None => true,
    } by {
        if n != c && n != p {
            assert(after[n] == before[n]);
        } else if n == p {
            assert(after[p].parent == before[p].parent);
        }
    }
    assert forall|n: int, i: int|
        0 <= n < after.len() && 0 <= i < after[n].children@.len() implies n
        < #[trigger] after[n].children@[i] < after.len() by {
        if n == p {
            if i < pos {
                assert(newkids[i] == oldkids[i]);
            } else {
                assert(newkids[i] == oldkids[i + 1]);
            }
        } else if n == c {
            assert(after[c].children@ == before[c].children@);
        } else {
            assert(after[n] == before[n]);
        }
    }
    assert forall|n: int, i: int|
        0 <= n < after.len() && 0 <= i < after[n].children@.len() implies after[#[trigger] after[n].children@[i] as int].parent
        == Some(n as usize) by {
        if n == p {
            let x = if i < pos {
                oldkids[i]
            } else {
                oldkids[i + 1]
            };
            assert(newkids[i] == x);
            assert(before[x as int].parent == Some(p as usize));
            assert(x != c as usize) by {
                if x == c as usize {
                    if i < pos {
                        assert(oldkids[i] == oldkids[pos]);
                    } else {
                        assert(oldkids[i + 1] == oldkids[pos]);
                    }
                }
            }
            if x as int == p {
                assert(before[p].parent == Some(p as usize));
            } else {
                assert(after[x as int] == before[x as int]);
            }
        } else if n == c {
            assert(after[c].children@ == before[c].children@);
            let x = before[c].children@[i];
            assert(before[x as int].parent == Some(c as usize));
            assert(c < x);
            if x as int == p {
                assert(before[p].parent == Some(c as usize));
                assert(after[p].parent == Some(c as usize));
            } else {
                assert(after[x as int] == before[x as int]);
            }
        } else {
            assert(after[n] == before[n]);
            let x = before[n].children@[i];
            assert(before[x as int].parent == Some(n as usize));
            assert(x != c as usize);
            if x as int == p {
                assert(after[p].parent == before[p].parent);
            } else {
                assert(after[x as int] == before[x as int]);
            }
        }
    }
    assert forall|n: int| 0 <= n < after.len() implies match #[trigger] after[n].parent {
        Some(q) => after[q as int].children@.contains(n as usize),
        None => true,
    } by {
        if n == c {
        } else {
            match after[n].parent {
                Some(q) => {
                    assert(after[n].parent == before[n].parent);
                    assert(before[q as int].children@.contains(n as usize));
                    let w = choose|w: int|
                        0 <= w < before[q as int].children@.len() && before[q as int].children@[w]
                            == n as usize;
                    if q as int == p {
                        assert(w != pos) by {
                            if w == pos {
                                assert(n == c);
                            }
                        }
                        if w < pos {
                            assert(newkids[w] == oldkids[w]);
                            assert(after[p].children@.contains(n as usize));
                        } else {
                            assert(newkids[w - 1] == oldkids[w]);
                            assert(after[p].children@.contains(n as usize));
                        }
                    } else {
                        assert(after[q as int].children@ == before[q as int].children@);
                        assert(after[q as int].children@[w] == n as usize);
                    }
                },
                None => {},
            }
        }
    }
    assert forall|n: int, i: int, j: int|
        0 <= n < after.len() && 0 <= i < after[n].children@.len() && 0 <= j
            < after[n].children@.len() && i != j implies #[trigger] after[n].children@[i]
        != #[trigger] after[n].children@[j] by {
        if n == p {
            let xi = if i < pos {
                oldkids[i]
            } else {
                oldkids[i + 1]
            };
            let xj = if j < pos {
                oldkids[j]
            } else {
                oldkids[j + 1]
            };
            assert(newkids[i] == xi);
            assert(newkids[j] == xj);
        } else if n == c {
            assert(after[c].children@ == before[c].children@);
        } else {
            assert(after[n] == before[n]);
        }
    }
}

impl Dom {
    /// Link the detached node `c` under `p` at position `pos` of its
    /// child list.
    fn attach_child(&mut self, p: usize, c: usize, pos: usize)
        requires
            old(self).wf(),
            p < old(self).links@.len(),
            c < old(self).links@.len(),
            p < c,
            old(self).links@[c as int].parent is None,
            pos <= old(self).links@[p as int].children@.len(),
        ensures
            final(self).wf(),
            final(self).same_content(*old(self)),
            final(self).links@.len() == old(self).links@.len(),
            final(self).links@[p as int].parent == old(self).links@[p as int].parent,
            final(self).links@[p as int].children@ == old(self).links@[p as int].children@.insert(
                pos as int,
                c,
            ),
            final(self).links@[c as int].parent == Some(p),
            final(self).links@[c as int].children@ == old(self).links@[c as int].children@,
            forall|k: int|
                0 <= k < old(self).links@.len() && k != p && k != c ==> final(self).links@[k]
                    == old(self).links@[k],
    {
        let total = self.links.len();
        let mut kids = copy_indices(&self.links[p].children);
        kids.insert(pos, c);
        let p_parent = self.links[p].parent;
        vstd::std_specs::core::index_set(
            &mut self.links,
            p,
            NodeLinks { parent: p_parent, children: kids },
        );
        let c_kids = copy_indices(&self.links[c].children);
        vstd::std_specs::core::index_set(
            &mut self.links,
            c,
            NodeLinks { parent: Some(p), children: c_kids },
        );
        proof {
            lemma_wf_after_attach(
                old(self).links@,
                self.links@,
                p as int,
                c as int,
                pos as int,
            );
        }
    }

    /// Unlink the child `c` sitting at position `pos` of `p`'s child
    /// list.
    fn detach_child(&mut self, p: usize, c: usize, pos: usize)
        requires
            old(self).wf(),
            p < old(self).links@.len(),
            c < old(self).links@.len(),
            pos < old(self).links@[p as int].children@.len(),
            old(self).links@[p as int].children@[pos as int] == c,
            old(self).links@[c as int].parent == Some(p),
        ensures
            final(self).wf(),
            final(self).same_content(*old(self)),
            final(self).links@.len() == old(self).links@.len(),
            final(self).links@[p as int].parent == old(self).links@[p as int].parent,
            final(self).links@[p as int].children@ == old(self).links@[p as int].children@.remove(
                pos as int,
            ),
            final(self).links@[c as int].parent is None,
            final(self).links@[c as int].children@ == old(self).links@[c as int].children@,
            forall|k: int|
                0 <= k < old(self).links@.len() && k != p && k != c ==> final(self).links@[k]
                    == old(self).links@[k],
    {
        proof {
            assert(p != c);
        }
        let total = self.links.len();
        let mut kids = copy_indices(&self.links[p].children);
        kids.remove(pos);
        let p_parent = self.links[p].parent;
        vstd::std_specs::core::index_set(
            &mut self.links,
            p,
            NodeLinks { parent: p_parent, children: kids },
        );
        let c_kids = copy_indices(&self.links[c].children);
        vstd::std_specs::core::index_set(
            &mut self.links,
            c,
            NodeLinks { parent: None, children: c_kids },
        );
        proof {
            lemma_wf_after_detach(
                old(self).links@,
                self.links@,
                p as int,
                c as int,
                pos as int,
            );
        }
    }
}

/// Whether an insertion under `p` of `c` is accepted by the model: the
/// child must be a real handle, detached, and created after the parent.
pub open spec fn spec_can_insert(dom: Dom, p: int, che: u64) -> bool {
    &&& dom.valid_handle(che)
    &&& dom.links@[che - 1].parent is None
    &&& p < che - 1
}

/// The smaller of two values.
pub open spec fn spec_min(a: int, b: int) -> int {
    if a < b {
        a
    } else {
        b
    }
}

impl Element {
    /// Insert `child` at `index` of this element's child list; an index
    /// past the end appends.  The child must be a real, detached element
    /// created after this one, else nothing changes and an error tells
    /// which check failed.
    pub fn insert(&self, dom: &mut Dom, index: usize, child: &Element) -> (r: DomResult<()>)
        requires
            old(dom).wf(),
            old(dom).valid_handle(self.he),
        ensures
            final(dom).wf(),
            !old(dom).valid_handle(child.he) ==> r == Err::<(), SCDOM_RESULT>(
                SCDOM_RESULT::INVALID_HANDLE,
            ) && *final(dom) == *old(dom),
            old(dom).valid_handle(child.he) && !spec_can_insert(
                *old(dom),
                old(dom).node_of(self.he),
                child.he,
            ) ==> r == Err::<(), SCDOM_RESULT>(SCDOM_RESULT::INVALID_PARAMETER) && *final(dom)
                == *old(dom),
            spec_can_insert(*old(dom), old(dom).node_of(self.he), child.he) ==> {
                let p = old(dom).node_of(self.he);
                let c = old(dom).node_of(child.he);
                let pos = spec_min(
                    index as int,
                    old(dom).links@[p].children@.len() as int,
                );
                &&& r is Ok
                &&& final(dom).same_content(*old(dom))
                &&& final(dom).links@.len() == old(dom).links@.len()
                &&& final(dom).links@[p].children@ == old(dom).links@[p].children@.insert(
                    pos,
                    c as usize,
                )
                &&& final(dom).links@[p].parent == old(dom).links@[p].parent
                &&& final(dom).links@[c].parent == Some(p as usize)
                &&& final(dom).links@[c].children@ == old(dom).links@[c].children@
                &&& forall|k: int|
                    0 <= k < old(dom).links@.len() && k != p && k != c ==> final(dom).links@[k]
                        == old(dom).links@[k]
            },
    {
        if !(child.he >= 1 && child.he <= dom.links.len() as u64) {
            return Err(SCDOM_RESULT::INVALID_HANDLE);
        }
        let p = dom.node_index(self.he);
        let c = dom.node_index(child.he);
        if !(p < c) {
            return Err(SCDOM_RESULT::INVALID_PARAMETER);
        }
        let detached = match dom.links[c].parent {
            Some(_) => false,
            None => true,
        };
        if !detached {
            return Err(SCDOM_RESULT::INVALID_PARAMETER);
        }
        let count = dom.links[p].children.len();
        let pos = if index < count {
            index
        } else {
            count
        };
        dom.attach_child(p, c, pos);
        Ok(())
    }

    /// Append `child` as the last child of this element.
    pub fn append(&self, dom: &mut Dom, child: &Element) -> (r: DomResult<()>)
        requires
            old(dom).wf(),
            old(dom).valid_handle(self.he),
        ensures
            final(dom).wf(),
            !old(dom).valid_handle(child.he) ==> r == Err::<(), SCDOM_RESULT>(
                SCDOM_RESULT::INVALID_HANDLE,
            ) && *final(dom) == *old(dom),
            old(dom).valid_handle(child.he) && !spec_can_insert(
                *old(dom),
                old(dom).node_of(self.he),
                child.he,
            ) ==> r == Err::<(), SCDOM_RESULT>(SCDOM_RESULT::INVALID_PARAMETER) && *final(dom)
                == *old(dom),
            spec_can_insert(*old(dom), old(dom).node_of(self.he), child.he) ==> {
                let p = old(dom).node_of(self.he);
                let c = old(dom).node_of(child.he);
                &&& r is Ok
                &&& final(dom).same_content(*old(dom))
                &&& final(dom).links@.len() == old(dom).links@.len()
                &&& final(dom).links@[p].children@ == old(dom).links@[p].children@.push(c as usize)
                &&& final(dom).links@[p].parent == old(dom).links@[p].parent
                &&& final(dom).links@[c].parent == Some(p as usize)
                &&& final(dom).links@[c].children@ == old(dom).links@[c].children@
                &&& forall|k: int|
                    0 <= k < old(dom).links@.len() && k != p && k != c ==> final(dom).links@[k]
                        == old(dom).links@[k]
            },
    {
        let count = self.len(dom);
        let r = self.insert(dom, count, child);
        proof {
            if spec_can_insert(*old(dom), old(dom).node_of(self.he), child.he) {
                let p = old(dom).node_of(self.he);
                let kids = old(dom).links@[p].children@;
                assert(kids.insert(kids.len() as int, old(dom).node_of(child.he) as usize) =~= kids.push(
                    old(dom).node_of(child.he) as usize,
                ));
            }
        }
        r
    }

    /// Append `element` as the last child and give its use back, as a
    /// caller handing the element over would.
    pub fn push(&self, dom: &mut Dom, element: Element) -> (r: DomResult<()>)
        requires
            old(dom).wf(),
            old(dom).valid_handle(self.he),
            element.he != 0 ==> old(dom).valid_handle(element.he) && old(dom).uses@[old(
                dom,
            ).node_of(element.he)] > 0,
        ensures
            final(dom).wf(),
            final(dom).links@.len() == old(dom).links@.len(),
            spec_can_insert(*old(dom), old(dom).node_of(self.he), element.he) ==> r is Ok
                && final(dom).links@[old(dom).node_of(self.he)].children@ == old(dom).links@[old(
                dom,
            ).node_of(self.he)].children@.push(old(dom).node_of(element.he) as usize),
            element.he != 0 ==> final(dom).uses@[old(dom).node_of(element.he)] == old(
                dom,
            ).uses@[old(dom).node_of(element.he)] - 1,
            element.he == 0 ==> *final(dom) == *old(dom),
    {
        let r = self.append(dom, &element);
        element.release(dom);
        r
    }

    /// Take this element out of its parent's child list; doing so to an
    /// already detached element changes nothing.
    pub fn detach(&self, dom: &mut Dom) -> (r: DomResult<()>)
        requires
            old(dom).wf(),
            old(dom).valid_handle(self.he),
        ensures
            final(dom).wf(),
            r is Ok,
            final(dom).links@.len() == old(dom).links@.len(),
            final(dom).same_content(*old(dom)),
            final(dom).links@[old(dom).node_of(self.he)].parent is None,
            final(dom).links@[old(dom).node_of(self.he)].children@ == old(dom).links@[old(
                dom,
            ).node_of(self.he)].children@,
            match old(dom).links@[old(dom).node_of(self.he)].parent {
                Some(p) => {
                    &&& final(dom).links@[p as int].parent == old(dom).links@[p as int].parent
                    &&& (forall|w: int|
                        0 <= w < old(dom).links@[p as int].children@.len()
                            && old(dom).links@[p as int].children@[w] == old(dom).node_of(self.he)
                            ==> final(dom).links@[p as int].children@
                            == old(dom).links@[p as int].children@.remove(w))
                    &&& forall|k: int|
                        0 <= k < old(dom).links@.len() && k != p && k != old(dom).node_of(self.he)
                            ==> final(dom).links@[k] == old(dom).links@[k]
                },
                None => *final(dom) == *old(dom),
            },
    {
        let idx = dom.node_index(self.he);
        let pos = self.index(dom);
        match dom.links[idx].parent {
            Some(p) => {
                proof {
                    assert(dom.links@.len() == dom.links.len());
                    lemma_unique_position(dom.links@, p as int, idx);
                }
                dom.detach_child(p, idx, pos);
                Ok(())
            },
            None => Ok(()),
        }
    }

    /// Remove the last child and hand it out with a fresh use, or `None`
    /// when this element has no children.
    pub fn pop(&self, dom: &mut Dom) -> (r: Option<Element>)
        requires
            old(dom).wf(),
            old(dom).valid_handle(self.he),
        ensures
            final(dom).wf(),
            final(dom).links@.len() == old(dom).links@.len(),
            old(dom).links@[old(dom).node_of(self.he)].children@.len() == 0 ==> r is None
                && *final(dom) == *old(dom),
            old(dom).links@[old(dom).node_of(self.he)].children@.len() > 0 ==> {
                let p = old(dom).node_of(self.he);
                let c = old(dom).links@[p].children@.last() as int;
                &&& r matches Some(e) && e.he == c + 1
                &&& final(dom).links@[p].children@ == old(dom).links@[p].children@.drop_last()
                &&& final(dom).links@[c].parent is None
            },
    {
        let idx = dom.node_index(self.he);
        let count = dom.links[idx].children.len();
        if count == 0 {
            return None;
        }
        let c = dom.links[idx].children[count - 1];
        let total = dom.links.len();
        dom.detach_child(idx, c, count - 1);
        proof {
            assert(old(dom).links@[idx as int].children@.remove(count - 1) =~= old(
                dom,
            ).links@[idx as int].children@.drop_last());
        }
        Some(Element::from(dom, c as u64 + 1))
    }

    /// Remove the content of the element: all children are detached and
    /// the text is emptied.
    pub fn clear(&self, dom: &mut Dom) -> (r: DomResult<()>)
        requires
            old(dom).wf(),
            old(dom).valid_handle(self.he),
        ensures
            final(dom).wf(),
            r is Ok,
            final(dom).links@.len() == old(dom).links@.len(),
            final(dom).links@[old(dom).node_of(self.he)].children@.len() == 0,
            final(dom).links@[old(dom).node_of(self.he)].parent == old(dom).links@[old(
                dom,
            ).node_of(self.he)].parent,
            final(dom).texts@[old(dom).node_of(self.he)]@.len() == 0,
    {
        let idx = dom.node_index(self.he);
        loop
            invariant
                dom.wf(),
                idx < dom.links@.len(),
                dom.links@.len() == old(dom).links@.len(),
                dom.links@[idx as int].parent == old(dom).links@[idx as int].parent,
            ensures
                dom.wf(),
                idx < dom.links@.len(),
                dom.links@.len() == old(dom).links@.len(),
                dom.links@[idx as int].children@.len() == 0,
                dom.links@[idx as int].parent == old(dom).links@[idx as int].parent,
            decreases dom.links@[idx as int].children@.len(),
        {
            let count = dom.links[idx].children.len();
            if count == 0 {
                break ;
            }
            let c = dom.links[idx].children[count - 1];
            dom.detach_child(idx, c, count - 1);
        }
        let empty = String::new();
        vstd::std_specs::core::index_set(&mut dom.texts, idx, empty);
        Ok(())
    }
}


/// The nearest ancestor-or-self of `n` whose tag reads `sel`.
pub open spec fn spec_nearest(links: Seq<NodeLinks>, tags: Seq<String>, n: int, sel: Seq<char>) -> Option<int>
    decreases n,
{
    if tags[n]@ == sel {
        Some(n)
    } else {
        match links[n].parent {
            Some(p) => if 0 <= p < n {
                spec_nearest(links, tags, p as int, sel)
            } else {
                None
            },
            None => None,
        }
    }
}

/// The nodes of the subtree rooted at `n`, in document traversal order:
/// the node itself first, then each child's subtree, in child-list
/// order.
pub open spec fn spec_subtree_seq(links: Seq<NodeLinks>, n: int) -> Seq<int>
    decreases links.len() - n, 1int, 0int,
{
    if 0 <= n < links.len() {
        seq![n] + spec_forest_seq(links, n, 0)
    } else {
        Seq::empty()
    }
}

/// The subtrees of node `n`'s children from position `i` on, joined in
/// child-list order.
pub open spec fn spec_forest_seq(links: Seq<NodeLinks>, n: int, i: int) -> Seq<int>
    decreases links.len() - n, 0int, links[n].children@.len() - i,
{
    if 0 <= n < links.len() && 0 <= i < links[n].children@.len() {
        let c = links[n].children@[i] as int;
        (if n < c < links.len() {
            spec_subtree_seq(links, c)
        } else {
            Seq::empty()
        }) + spec_forest_seq(links, n, i + 1)
    } else {
        Seq::empty()
    }
}

/// A member of a joined sequence is a member of one of the parts.
proof fn lemma_concat_contains(s1: Seq<int>, s2: Seq<int>, x: int)
    ensures
        (s1 + s2).contains(x) <==> s1.contains(x) || s2.contains(x),
{
    if (s1 + s2).contains(x) {
        let w = choose|w: int| 0 <= w < (s1 + s2).len() && (s1 + s2)[w] == x;
        if w < s1.len() {
            assert(s1[w] == x);
        } else {
            assert(s2[w - s1.len()] == x);
        }
    }
    if s1.contains(x) {
        let w = choose|w: int| 0 <= w < s1.len() && s1[w] == x;
        assert((s1 + s2)[w] == x);
    }
    if s2.contains(x) {
        let w = choose|w: int| 0 <= w < s2.len() && s2[w] == x;
        assert((s1 + s2)[s1.len() + w] == x);
    }
}

/// Climbing one link: what lies in the subtree of a child lies in the
/// subtree of the parent.
proof fn lemma_in_subtree_step(links: Seq<NodeLinks>, x: int, c: int, n: int)
    requires
        parents_ordered(links),
        links.len() <= usize::MAX,
        0 <= x < links.len(),
        0 <= c < links.len(),
        0 <= n < links.len(),
        spec_in_subtree(links, x, c),
        links[c].parent == Some(n as usize),
    ensures
        spec_in_subtree(links, x, n),
    decreases x,
{
    if x == n {
    } else if x == c {
        assert(n < c);
        assert(spec_in_subtree(links, n, n));
    } else {
        match links[x].parent {
            Some(p) => {
                assert(0 <= p < x);
                lemma_in_subtree_step(links, p as int, c, n);
            },
            None => {},
        }
    }
}

/// Every member of the document-order sequence of `a`'s subtree lies in
/// that subtree.
proof fn lemma_subtree_seq_sound(links: Seq<NodeLinks>, a: int)
    requires
        links_wf(links),
        links.len() <= usize::MAX,
        0 <= a < links.len(),
    ensures
        forall|x: int|
            #[trigger] spec_subtree_seq(links, a).contains(x) ==> 0 <= x < links.len()
                && spec_in_subtree(links, x, a),
    decreases links.len() - a, 1int, 0int,
{
    assert forall|x: int|
        #[trigger] spec_subtree_seq(links, a).contains(x) implies 0 <= x < links.len()
        && spec_in_subtree(links, x, a) by {
        lemma_concat_contains(seq![a], spec_forest_seq(links, a, 0), x);
        if seq![a].contains(x) {
            assert(x == a);
        } else {
            lemma_forest_seq_sound(links, a, 0);
        }
    }
}

/// Every member of a forest sequence lies in the subtree of the forest's
/// root.
proof fn lemma_forest_seq_sound(links: Seq<NodeLinks>, n: int, i: int)
    requires
        links_wf(links),
        links.len() <= usize::MAX,
        0 <= n < links.len(),
        0 <= i,
    ensures
        forall|x: int|
            #[trigger] spec_forest_seq(links, n, i).contains(x) ==> 0 <= x < links.len()
                && spec_in_subtree(links, x, n),
    decreases links.len() - n, 0int, links[n].children@.len() - i,
{
    if i < links[n].children@.len() {
        let c = links[n].children@[i] as int;
        assert(n < c < links.len());
        lemma_subtree_seq_sound(links, c);
        lemma_forest_seq_sound(links, n, i + 1);
        assert forall|x: int|
            #[trigger] spec_forest_seq(links, n, i).contains(x) implies 0 <= x < links.len()
            && spec_in_subtree(links, x, n) by {
            lemma_concat_contains(
                spec_subtree_seq(links, c),
                spec_forest_seq(links, n, i + 1),
                x,
            );
            if spec_subtree_seq(links, c).contains(x) {
                lemma_in_subtree_step(links, x, c, n);
            }
        }
    }
}

/// A forest sequence holds the head of each of its subtrees: every child
/// from position `i` on appears.
proof fn lemma_forest_contains_child(links: Seq<NodeLinks>, n: int, i: int, j: int)
    requires
        links_wf(links),
        links.len() <= usize::MAX,
        0 <= n < links.len(),
        0 <= i <= j < links[n].children@.len(),
    ensures
        spec_forest_seq(links, n, i).contains(links[n].children@[j] as int),
    decreases j - i,
{
    let c = links[n].children@[i] as int;
    assert(n < c < links.len());
    if j == i {
        assert(spec_subtree_seq(links, c)[0] == c);
        lemma_concat_contains(spec_subtree_seq(links, c), spec_forest_seq(links, n, i + 1), c);
    } else {
        lemma_forest_contains_child(links, n, i + 1, j);
        lemma_concat_contains(
            spec_subtree_seq(links, c),
            spec_forest_seq(links, n, i + 1),
            links[n].children@[j] as int,
        );
    }
}

/// The document-order sequence is closed under children: with a node it
/// holds each of the node's children.
proof fn lemma_subtree_seq_closed(links: Seq<NodeLinks>, a: int, p: int, x: int)
    requires
        links_wf(links),
        links.len() <= usize::MAX,
        0 <= a < links.len(),
        0 <= p < links.len(),
        spec_subtree_seq(links, a).contains(p),
        links[p].children@.contains(x as usize),
        0 <= x < links.len(),
    ensures
        spec_subtree_seq(links, a).contains(x),
    decreases links.len() - a, 1int, 0int,
{
    lemma_concat_contains(seq![a], spec_forest_seq(links, a, 0), p);
    let w = choose|w: int| 0 <= w < links[p].children@.len() && links[p].children@[w] == x as usize;
    if p == a {
        lemma_forest_contains_child(links, a, 0, w);
        lemma_concat_contains(seq![a], spec_forest_seq(links, a, 0), x);
    } else {
        assert(spec_forest_seq(links, a, 0).contains(p));
        lemma_forest_seq_closed(links, a, 0, p, x);
        lemma_concat_contains(seq![a], spec_forest_seq(links, a, 0), x);
    }
}

/// A forest sequence is closed under children in the same way.
proof fn lemma_forest_seq_closed(links: Seq<NodeLinks>, n: int, i: int, p: int, x: int)
    requires
        links_wf(links),
        links.len() <= usize::MAX,
        0 <= n < links.len(),
        0 <= i,
        0 <= p < links.len(),
        spec_forest_seq(links, n, i).contains(p),
        links[p].children@.contains(x as usize),
        0 <= x < links.len(),
    ensures
        spec_forest_seq(links, n, i).contains(x),
    decreases links.len() - n, 0int, links[n].children@.len() - i,
{
    if i < links[n].children@.len() {
        let c = links[n].children@[i] as int;
        assert(n < c < links.len());
        lemma_concat_contains(spec_subtree_seq(links, c), spec_forest_seq(links, n, i + 1), p);
        if spec_subtree_seq(links, c).contains(p) {
            lemma_subtree_seq_closed(links, c, p, x);
            lemma_concat_contains(spec_subtree_seq(links, c), spec_forest_seq(links, n, i + 1), x);
        } else {
            lemma_forest_seq_closed(links, n, i + 1, p, x);
            lemma_concat_contains(spec_subtree_seq(links, c), spec_forest_seq(links, n, i + 1), x);
        }
    }
}

/// Every node of `a`'s subtree appears in the document-order sequence.
proof fn lemma_subtree_seq_complete(links: Seq<NodeLinks>, x: int, a: int)
    requires
        links_wf(links),
        links.len() <= usize::MAX,
        0 <= x < links.len(),
        0 <= a < links.len(),
        spec_in_subtree(links, x, a),
    ensures
        spec_subtree_seq(links, a).contains(x),
    decreases x,
{
    if x == a {
        assert(spec_subtree_seq(links, a)[0] == a);
    } else {
        match links[x].parent {
            Some(p) => {
                assert(0 <= p < x);
                lemma_subtree_seq_complete(links, p as int, a);
                assert(links[p as int].children@.contains(x as usize));
                lemma_subtree_seq_closed(links, a, p as int, x);
            },
            None => {},
        }
    }
}

/// The document-order sequence of an element's subtree holds exactly the
/// subtree's members: every listed node lies in the subtree, and every
/// node whose ancestor chain passes the element is listed.  With the
/// selector search's contract this makes the answered list complete.
pub proof fn lemma_document_order_members(links: Seq<NodeLinks>, a: int)
    requires
        links_wf(links),
        links.len() <= usize::MAX,
        0 <= a < links.len(),
    ensures
        forall|x: int|
            #[trigger] spec_subtree_seq(links, a).contains(x) <==> (0 <= x < links.len()
                && spec_in_subtree(links, x, a)),
{
    lemma_subtree_seq_sound(links, a);
    assert forall|x: int|
        0 <= x < links.len() && spec_in_subtree(links, x, a) implies #[trigger] spec_subtree_seq(
        links,
        a,
    ).contains(x) by {
        lemma_subtree_seq_complete(links, x, a);
    }
}

/// The members of `order` whose tag reads `sel`, kept in order.
pub open spec fn spec_matched(tags: Seq<String>, order: Seq<int>, sel: Seq<char>) -> Seq<int>
    decreases order.len(),
{
    if order.len() == 0 {
        Seq::empty()
    } else {
        (if 0 <= order[0] < tags.len() && tags[order[0]]@ == sel {
            seq![order[0]]
        } else {
            Seq::empty()
        }) + spec_matched(tags, order.drop_first(), sel)
    }
}

/// The matches of the elements of this element's subtree, in document
/// order: what the selector search answers.
pub open spec fn spec_selected(dom: Dom, n: int, sel: Seq<char>) -> Seq<int> {
    spec_matched(dom.tags@, spec_subtree_seq(dom.links@, n), sel)
}

/// Matching distributes over joining orders: the matches of a
/// concatenation are the matches of the parts, in order.
pub proof fn lemma_matched_add(tags: Seq<String>, a: Seq<int>, b: Seq<int>, sel: Seq<char>)
    ensures
        spec_matched(tags, a + b, sel) == spec_matched(tags, a, sel) + spec_matched(tags, b, sel),
    decreases a.len(),
{
    if a.len() == 0 {
        assert(a + b =~= b);
        assert(spec_matched(tags, a, sel) + spec_matched(tags, b, sel) =~= spec_matched(
            tags,
            b,
            sel,
        ));
    } else {
        assert((a + b).drop_first() =~= a.drop_first() + b);
        lemma_matched_add(tags, a.drop_first(), b, sel);
        let h = if 0 <= a[0] < tags.len() && tags[a[0]]@ == sel {
            seq![a[0]]
        } else {
            Seq::<int>::empty()
        };
        assert((a + b)[0] == a[0]);
        assert(h + (spec_matched(tags, a.drop_first(), sel) + spec_matched(tags, b, sel)) =~= (h
            + spec_matched(tags, a.drop_first(), sel)) + spec_matched(tags, b, sel));
    }
}

/// Every match names a node of the tree.
pub proof fn lemma_matched_in_range(tags: Seq<String>, order: Seq<int>, sel: Seq<char>)
    ensures
        forall|j: int|
            0 <= j < spec_matched(tags, order, sel).len() ==> 0 <= #[trigger] spec_matched(
                tags,
                order,
                sel,
            )[j] < tags.len(),
    decreases order.len(),
{
    if order.len() == 0 {
    } else {
        lemma_matched_in_range(tags, order.drop_first(), sel);
        let rest = spec_matched(tags, order.drop_first(), sel);
        if 0 <= order[0] < tags.len() && tags[order[0]]@ == sel {
            assert forall|j: int|
                0 <= j < spec_matched(tags, order, sel).len() implies 0 <= #[trigger] spec_matched(
                tags,
                order,
                sel,
            )[j] < tags.len() by {
                if j == 0 {
                    assert(spec_matched(tags, order, sel)[0] == order[0]);
                } else {
                    assert(spec_matched(tags, order, sel)[j] == rest[j - 1]);
                }
            }
        } else {
            assert(spec_matched(tags, order, sel) =~= rest);
        }
    }
}

/// A sequence of vector indices, as mathematical integers.
pub open spec fn ids_view(v: Seq<usize>) -> Seq<int> {
    v.map_values(|x: usize| x as int)
}

/// Append to `out`, in document order, the subtree nodes of `n` whose
/// tag reads the selector.
fn collect_matches(dom: &Dom, n: usize, sel: &String, out: &mut Vec<usize>)
    requires
        dom.wf(),
        n < dom.links@.len(),
    ensures
        ids_view(final(out)@) == ids_view(old(out)@) + spec_matched(
            dom.tags@,
            spec_subtree_seq(dom.links@, n as int),
            sel@,
        ),
    decreases dom.links@.len() - n,
{
    proof {
        assert(spec_subtree_seq(dom.links@, n as int) =~= seq![n as int] + spec_forest_seq(
            dom.links@,
            n as int,
            0,
        ));
        lemma_matched_add(
            dom.tags@,
            seq![n as int],
            spec_forest_seq(dom.links@, n as int, 0),
            sel@,
        );
        assert(seq![n as int].drop_first() =~= Seq::<int>::empty());
    }
    if dom.tags[n] == *sel {
        let ghost before = out@;
        out.push(n);
        proof {
            reveal_with_fuel(spec_matched, 3);
            assert(ids_view(out@) =~= ids_view(before).push(n as int));
            assert(ids_view(before).push(n as int) =~= ids_view(before) + seq![n as int]);
            assert(spec_matched(dom.tags@, seq![n as int], sel@) =~= seq![n as int]);
        }
    } else {
        proof {
            reveal_with_fuel(spec_matched, 3);
            assert(spec_matched(dom.tags@, seq![n as int], sel@) =~= Seq::<int>::empty());
            assert(ids_view(out@) + Seq::<int>::empty() =~= ids_view(out@));
        }
    }
    let count = dom.links[n].children.len();
    let mut i: usize = 0;
    proof {
        assert(ids_view(out@) + spec_matched(
            dom.tags@,
            spec_forest_seq(dom.links@, n as int, 0),
            sel@,
        ) =~= ids_view(old(out)@) + spec_matched(
            dom.tags@,
            spec_subtree_seq(dom.links@, n as int),
            sel@,
        ));
    }
    while i < count
        invariant
            dom.wf(),
            n < dom.links@.len(),
            count == dom.links@[n as int].children@.len(),
            i <= count,
            ids_view(out@) + spec_matched(
                dom.tags@,
                spec_forest_seq(dom.links@, n as int, i as int),
                sel@,
            ) == ids_view(old(out)@) + spec_matched(
                dom.tags@,
                spec_subtree_seq(dom.links@, n as int),
                sel@,
            ),
        decreases count - i,
    {
        let c = dom.links[n].children[i];
        proof {
            assert(spec_forest_seq(dom.links@, n as int, i as int) =~= spec_subtree_seq(
                dom.links@,
                c as int,
            ) + spec_forest_seq(dom.links@, n as int, i as int + 1));
            lemma_matched_add(
                dom.tags@,
                spec_subtree_seq(dom.links@, c as int),
                spec_forest_seq(dom.links@, n as int, i as int + 1),
                sel@,
            );
            let ghost pre = ids_view(out@);
            assert(pre + (spec_matched(dom.tags@, spec_subtree_seq(dom.links@, c as int), sel@)
                + spec_matched(
                dom.tags@,
                spec_forest_seq(dom.links@, n as int, i as int + 1),
                sel@,
            )) =~= (pre + spec_matched(dom.tags@, spec_subtree_seq(dom.links@, c as int), sel@))
                + spec_matched(dom.tags@, spec_forest_seq(dom.links@, n as int, i as int + 1), sel@));
        }
        collect_matches(dom, c, sel, out);
        i = i + 1;
    }
    proof {
        assert(spec_matched(
            dom.tags@,
            spec_forest_seq(dom.links@, n as int, count as int),
            sel@,
        ) =~= Seq::<int>::empty());
        assert(ids_view(out@) + Seq::<int>::empty() =~= ids_view(out@));
    }
}

impl Element {
    /// Test this element's tag against a tag selector.
    pub fn test(&self, dom: &Dom, selector: &str) -> (r: bool)
        requires
            dom.wf(),
            dom.valid_handle(self.he),
        ensures
            r == (dom.tags@[dom.node_of(self.he)]@ == selector@),
    {
        let idx = dom.node_index(self.he);
        let owned: String = selector.to_owned();
        dom.tags[idx] == owned
    }

    /// The nearest ancestor-or-self whose tag reads the selector, with a
    /// fresh use of its handle.
    pub fn find_nearest_parent(&self, dom: &mut Dom, selector: &str) -> (r: DomResult<
        Option<Element>,
    >)
        requires
            old(dom).wf(),
            old(dom).valid_handle(self.he),
        ensures
            final(dom).wf(),
            final(dom).links@ == old(dom).links@,
            match spec_nearest(
                old(dom).links@,
                old(dom).tags@,
                old(dom).node_of(self.he),
                selector@,
            ) {
                Some(m) => r matches Ok(o) && (o matches Some(e) && e.he == m + 1),
                None => r matches Ok(o) && o is None,
            },
    {
        let owned: String = selector.to_owned();
        let mut cur: usize = dom.node_index(self.he);
        loop
            invariant
                dom.wf(),
                dom.links@ == old(dom).links@,
                dom.tags@ == old(dom).tags@,
                cur < dom.links@.len(),
                owned@ == selector@,
                spec_nearest(dom.links@, dom.tags@, cur as int, selector@) == spec_nearest(
                    old(dom).links@,
                    old(dom).tags@,
                    old(dom).node_of(self.he),
                    selector@,
                ),
            ensures
                dom.wf(),
                dom.links@ == old(dom).links@,
                dom.tags@ == old(dom).tags@,
                cur < dom.links@.len(),
                match spec_nearest(
                    old(dom).links@,
                    old(dom).tags@,
                    old(dom).node_of(self.he),
                    selector@,
                ) {
                    Some(m) => m == cur && dom.tags@[cur as int]@ == selector@,
                    None => !(dom.tags@[cur as int]@ == selector@),
                },
            decreases cur,
        {
            if dom.tags[cur] == owned {
                break ;
            }
            match dom.links[cur].parent {
                Some(p) => {
                    cur = p;
                },
                None => {
                    break ;
                },
            }
        }
        let total = dom.links.len();
        if dom.tags[cur] == owned {
            let e = Element::from(dom, cur as u64 + 1);
            Ok(Some(e))
        } else {
            Ok(None)
        }
    }


    /// The first element of this element's subtree, in document
    /// traversal order, whose tag reads the selector, with a fresh use
    /// of its handle; a miss is an empty answer, not an error.
    pub fn find_first(&self, dom: &mut Dom, selector: &str) -> (r: DomResult<Option<Element>>)
        requires
            old(dom).wf(),
            old(dom).valid_handle(self.he),
        ensures
            final(dom).wf(),
            final(dom).links@ == old(dom).links@,
            final(dom).tags@ == old(dom).tags@,
            ({
                let found = spec_selected(*old(dom), old(dom).node_of(self.he), selector@);
                if found.len() > 0 {
                    r matches Ok(o) && (o matches Some(e) && e.he == found[0] + 1)
                } else {
                    r matches Ok(o) && o is None
                }
            }),
    {
        let owned: String = selector.to_owned();
        let idx = dom.node_index(self.he);
        let mut ids: Vec<usize> = Vec::new();
        collect_matches(dom, idx, &owned, &mut ids);
        let total = dom.links.len();
        if ids.len() > 0 {
            proof {
                lemma_matched_in_range(dom.tags@, spec_subtree_seq(dom.links@, idx as int), owned@);
                assert(ids_view(ids@)[0] == ids@[0] as int);
            }
            let m = ids[0];
            let e = Element::from(dom, m as u64 + 1);
            Ok(Some(e))
        } else {
            Ok(None)
        }
    }

    /// All elements of this element's subtree whose tag reads the
    /// selector, complete and in document traversal order, each with a
    /// fresh use of its handle; no match is an empty list, not an error.
    pub fn find_all(&self, dom: &mut Dom, selector: &str) -> (r: DomResult<Option<Vec<Element>>>)
        requires
            old(dom).wf(),
            old(dom).valid_handle(self.he),
        ensures
            final(dom).wf(),
            final(dom).links@ == old(dom).links@,
            final(dom).tags@ == old(dom).tags@,
            ({
                let found = spec_selected(*old(dom), old(dom).node_of(self.he), selector@);
                r matches Ok(o) && (o matches Some(v) && v@.len() == found.len() && (forall|j: int|
                    0 <= j < found.len() ==> #[trigger] v@[j].he == found[j] + 1))
            }),
    {
        let owned: String = selector.to_owned();
        let idx = dom.node_index(self.he);
        let mut ids: Vec<usize> = Vec::new();
        collect_matches(dom, idx, &owned, &mut ids);
        proof {
            lemma_matched_in_range(dom.tags@, spec_subtree_seq(dom.links@, idx as int), owned@);
        }
        let ghost found = spec_selected(*old(dom), old(dom).node_of(self.he), selector@);
        let total = dom.links.len();
        let mut out: Vec<Element> = Vec::new();
        let mut k: usize = 0;
        while k < ids.len()
            invariant
                dom.wf(),
                dom.links@ == old(dom).links@,
                dom.tags@ == old(dom).tags@,
                total == dom.links@.len(),
                k <= ids@.len(),
                ids_view(ids@) == found,
                forall|j: int| 0 <= j < found.len() ==> 0 <= #[trigger] found[j] < total,
                out@.len() == k,
                forall|j: int| 0 <= j < k ==> #[trigger] out@[j].he == found[j] + 1,
            decreases ids@.len() - k,
        {
            proof {
                assert(ids_view(ids@)[k as int] == ids@[k as int] as int);
            }
            let m = ids[k];
            let e = Element::from(dom, m as u64 + 1);
            proof {
                assert(dom.tags@ =~= old(dom).tags@);
            }
            out.push(e);
            k = k + 1;
        }
        Ok(Some(out))
    }

    /// Send or post an event through the tree: the payload is built from
    /// the code, the reason and the optional data value, exactly as the
    /// engine's fire call takes them.
    pub fn fire_event(
        &self,
        dom: &mut Dom,
        source: HELEMENT,
        target: HELEMENT,
        code: BehaviorEvent,
        reason: ClickReason,
        post: bool,
        data: Option<Value>,
    ) -> (r: DomResult<()>)
        ensures
            r is Ok,
            final(dom).events@.len() == old(dom).events@.len() + 1,
            final(dom).events@.subrange(0, old(dom).events@.len() as int) == old(dom).events@,
            ({
                let fired = final(dom).events@.last();
                &&& fired.params.cmd == spec_event_code(code)
                &&& fired.params.he_target == target
                &&& fired.params.he == source
                &&& fired.params.reason == spec_click_code(reason) as u64
                &&& fired.params.data == (match data {
                    Some(v) => v,
                    None => Value::Null,
                })
                &&& fired.post == post
            }),
            final(dom).links@ == old(dom).links@,
            final(dom).tags@ == old(dom).tags@,
            final(dom).texts@ == old(dom).texts@,
            final(dom).attrs@ == old(dom).attrs@,
            final(dom).styles@ == old(dom).styles@,
            final(dom).values@ == old(dom).values@,
            final(dom).uses@ == old(dom).uses@,
            final(dom).timers@ == old(dom).timers@,
    {
        let cmd = crate::event::event_code_of(code);
        let raw = crate::event::click_code_of(reason);
        let value = match data {
            Some(v) => v,
            None => Value::Null,
        };
        let params = BehaviorEventParams {
            cmd,
            he_target: target,
            he: source,
            reason: raw as u64,
            data: value,
        };
        dom.events.push(FiredEvent { params, post });
        Ok(())
    }

    /// Ask the engine to tick a timer on this element: the start call is
    /// recorded with its period and identifier.
    pub fn start_timer(&self, dom: &mut Dom, period_ms: u32, timer_id: u64) -> (r: DomResult<()>)
        ensures
            r is Ok,
            final(dom).timers@ == old(dom).timers@.push((self.he, timer_id, period_ms)),
            final(dom).links@ == old(dom).links@,
            final(dom).events@ == old(dom).events@,
    {
        dom.timers.push((self.he, timer_id, period_ms));
        Ok(())
    }

    /// Stop a timer on this element: recorded as a start call with a zero
    /// period, which is how the engine is told to stop.  On the null
    /// element nothing is recorded.
    pub fn stop_timer(&self, dom: &mut Dom, timer_id: u64) -> (r: DomResult<()>)
        ensures
            r is Ok,
            self.he != 0 ==> final(dom).timers@ == old(dom).timers@.push((self.he, timer_id, 0u32)),
            self.he == 0 ==> *final(dom) == *old(dom),
            final(dom).links@ == old(dom).links@,
            final(dom).events@ == old(dom).events@,
    {
        if self.he != 0 {
            dom.timers.push((self.he, timer_id, 0));
        }
        Ok(())
    }
}


/// A marked optional part of an element's text form: the value between
/// its prefix and suffix, or nothing at all.
pub open spec fn spec_marked(prefix: Seq<char>, v: Option<Seq<char>>, suffix: Seq<char>) -> Seq<
    char,
> {
    match v {
        Some(s) => prefix + s + suffix,
        None => Seq::<char>::empty(),
    }
}

/// The human-readable form of an element: its tag, then `#id`, `.class`,
/// `|type` and `(name)` for whichever of those attributes are set.
pub open spec fn spec_display_text(dom: Dom, idx: int) -> Seq<char> {
    dom.tags@[idx]@ + spec_marked("#"@, spec_attr_lookup(dom.attrs@[idx]@, "id"@), Seq::empty())
        + spec_marked("."@, spec_attr_lookup(dom.attrs@[idx]@, "class"@), Seq::empty())
        + spec_marked("|"@, spec_attr_lookup(dom.attrs@[idx]@, "type"@), Seq::empty()) + spec_marked(
        "("@,
        spec_attr_lookup(dom.attrs@[idx]@, "name"@),
        ")"@,
    )
}

impl Element {
    /// Human-readable form of the element, `tag#id.class|type(name)` with
    /// the attribute parts present only when set; the null element reads
    /// `None`.
    pub fn display_text(&self, dom: &Dom) -> (r: String)
        requires
            dom.wf(),
            self.he != 0 ==> dom.valid_handle(self.he),
        ensures
            self.he == 0 ==> r@ == "None"@,
            self.he != 0 ==> r@ == spec_display_text(*dom, dom.node_of(self.he)),
    {
        proof {
            reveal_strlit("None");
            reveal_strlit("#");
            reveal_strlit(".");
            reveal_strlit("|");
            reveal_strlit("(");
            reveal_strlit(")");
            reveal_strlit("id");
            reveal_strlit("class");
            reveal_strlit("type");
            reveal_strlit("name");
        }
        if self.he == 0 {
            return String::from_str("None");
        }
        let mut out = self.get_tag(dom);
        match self.get_attribute(dom, "id") {
            Some(v) => {
                out.append("#");
                out.append(v.as_str());
            },
            None => {},
        }
        match self.get_attribute(dom, "class") {
            Some(v) => {
                out.append(".");
                out.append(v.as_str());
            },
            None => {},
        }
        match self.get_attribute(dom, "type") {
            Some(v) => {
                out.append("|");
                out.append(v.as_str());
            },
            None => {},
        }
        match self.get_attribute(dom, "name") {
            Some(v) => {
                out.append("(");
                out.append(v.as_str());
                out.append(")");
            },
            None => {},
        }
        proof {
            assert(out@ =~= spec_display_text(*dom, dom.node_of(self.he)));
        }
        out
    }
}


/// An equal copy of a list of string pairs.
fn copy_pairs(list: &Vec<(String, String)>) -> (r: Vec<(String, String)>)
    ensures
        r@ == list@,
{
    let mut out: Vec<(String, String)> = Vec::new();
    let mut i: usize = 0;
    while i < list.len()
        invariant
            i <= list@.len(),
            out@ == list@.subrange(0, i as int),
        decreases list@.len() - i,
    {
        let pair = (list[i].0.clone(), list[i].1.clone());
        out.push(pair);
        proof {
            assert(out@ =~= list@.subrange(0, i as int + 1));
        }
        i = i + 1;
    }
    proof {
        assert(out@ =~= list@);
    }
    out
}

impl Element {
    /// Identifier of the element suitable for storage; in this model the
    /// handle itself, narrowed to the engine's identifier width.
    pub fn get_uid(&self) -> (r: u32)
        ensures
            r == self.he as u32,
    {
        #[verifier::truncate]
        (self.he as u32)
    }

    /// Create a new element with the given tag as the last child of
    /// `parent`.
    pub fn create_at(dom: &mut Dom, tag: &str, parent: &Element) -> (r: DomResult<Element>)
        requires
            old(dom).wf(),
            old(dom).valid_handle(parent.he),
            old(dom).links@.len() < u64::MAX - 1,
        ensures
            final(dom).wf(),
            r matches Ok(e) && {
                let p = old(dom).node_of(parent.he);
                let c = old(dom).links@.len() as int;
                &&& e.he == c + 1
                &&& final(dom).links@.len() == old(dom).links@.len() + 1
                &&& final(dom).links@[c].parent == Some(p as usize)
                &&& final(dom).links@[c].children@.len() == 0
                &&& final(dom).links@[p].children@ == old(dom).links@[p].children@.push(c as usize)
                &&& final(dom).tags@[c]@ == tag@
                &&& final(dom).texts@[c]@.len() == 0
                &&& final(dom).uses@[c] == 1
                &&& forall|k: int|
                    0 <= k < old(dom).links@.len() && k != p ==> final(dom).links@[k] == old(
                        dom,
                    ).links@[k]
            },
            final(dom).timers@ == old(dom).timers@,
            final(dom).events@ == old(dom).events@,
    {
        let e = match Element::create(dom, tag) {
            Ok(e) => e,
            Err(_) => vstd::pervasive::unreached(),
        };
        proof {
            assert(dom.links@[old(dom).node_of(parent.he)].children@ =~= old(dom).links@[old(
                dom,
            ).node_of(parent.he)].children@);
        }
        match parent.append(dom, &e) {
            Ok(_) => Ok(e),
            Err(_) => vstd::pervasive::unreached(),
        }
    }

    /// Create a new element with the given tag and inner text; it is
    /// disconnected from the tree.
    pub fn with_text(dom: &mut Dom, tag: &str, text: &str) -> (r: DomResult<Element>)
        requires
            old(dom).wf(),
            old(dom).links@.len() < u64::MAX - 1,
        ensures
            final(dom).wf(),
            r matches Ok(e) && {
                let c = old(dom).links@.len() as int;
                &&& e.he == c + 1
                &&& final(dom).links@.len() == old(dom).links@.len() + 1
                &&& final(dom).links@[c].parent is None
                &&& final(dom).links@[c].children@.len() == 0
                &&& final(dom).tags@[c]@ == tag@
                &&& final(dom).texts@[c]@ == text@
                &&& final(dom).uses@[c] == 1
            },
            final(dom).timers@ == old(dom).timers@,
            final(dom).events@ == old(dom).events@,
    {
        let e = match Element::create(dom, tag) {
            Ok(e) => e,
            Err(_) => vstd::pervasive::unreached(),
        };
        match e.set_text(dom, text) {
            Ok(_) => Ok(e),
            Err(_) => vstd::pervasive::unreached(),
        }
    }

    /// Create a new element with the given tag and `type` attribute,
    /// which controls and widgets use; it is disconnected from the tree.
    pub fn with_type(dom: &mut Dom, tag: &str, el_type: &str) -> (r: DomResult<Element>)
        requires
            old(dom).wf(),
            old(dom).links@.len() < u64::MAX - 1,
        ensures
            final(dom).wf(),
            r matches Ok(e) && {
                let c = old(dom).links@.len() as int;
                &&& e.he == c + 1
                &&& final(dom).links@.len() == old(dom).links@.len() + 1
                &&& final(dom).links@[c].parent is None
                &&& final(dom).links@[c].children@.len() == 0
                &&& final(dom).tags@[c]@ == tag@
                &&& spec_attr_lookup(final(dom).attrs@[c]@, "type"@) == Some(el_type@)
                &&& final(dom).uses@[c] == 1
            },
            final(dom).timers@ == old(dom).timers@,
            final(dom).events@ == old(dom).events@,
    {
        let e = match Element::create(dom, tag) {
            Ok(e) => e,
            Err(_) => vstd::pervasive::unreached(),
        };
        match e.set_attribute(dom, "type", el_type) {
            Ok(_) => Ok(e),
            Err(_) => vstd::pervasive::unreached(),
        }
    }

    /// Create a disconnected copy of the element's own content: its tag,
    /// text, attributes, style attributes and value.  Children are not
    /// copied.
    pub fn clone_element(&self, dom: &mut Dom) -> (r: DomResult<Element>)
        requires
            old(dom).wf(),
            old(dom).valid_handle(self.he),
            old(dom).links@.len() < u64::MAX - 1,
        ensures
            final(dom).wf(),
            r matches Ok(e) && {
                let src = old(dom).node_of(self.he);
                let c = old(dom).links@.len() as int;
                &&& e.he == c + 1
                &&& final(dom).links@.len() == old(dom).links@.len() + 1
                &&& final(dom).links@[c].parent is None
                &&& final(dom).links@[c].children@.len() == 0
                &&& final(dom).tags@[c]@ == old(dom).tags@[src]@
                &&& final(dom).texts@[c]@ == old(dom).texts@[src]@
                &&& final(dom).attrs@[c]@ == old(dom).attrs@[src]@
                &&& final(dom).styles@[c]@ == old(dom).styles@[src]@
                &&& final(dom).values@[c] == old(dom).values@[src]
                &&& final(dom).uses@[c] == 1
            },
            final(dom).timers@ == old(dom).timers@,
            final(dom).events@ == old(dom).events@,
    {
        let src = dom.node_index(self.he);
        let tag = dom.tags[src].clone();
        let text = dom.texts[src].clone();
        let attrs = copy_pairs(&dom.attrs[src]);
        let styles = copy_pairs(&dom.styles[src]);
        let value = dom.values[src].duplicate();
        let e = match Element::create(dom, tag.as_str()) {
            Ok(e) => e,
            Err(_) => vstd::pervasive::unreached(),
        };
        let idx = dom.node_index(e.he);
        vstd::std_specs::core::index_set(&mut dom.texts, idx, text);
        vstd::std_specs::core::index_set(&mut dom.attrs, idx, attrs);
        vstd::std_specs::core::index_set(&mut dom.styles, idx, styles);
        vstd::std_specs::core::index_set(&mut dom.values, idx, value);
        Ok(e)
    }

    /// Take the element out of the tree and strip it bare: detached, no
    /// children, no text, no attributes, no style attributes, null value.
    /// The model keeps the emptied node slot.
    pub fn destroy(&self, dom: &mut Dom) -> (r: DomResult<()>)
        requires
            old(dom).wf(),
            old(dom).valid_handle(self.he),
        ensures
            final(dom).wf(),
            r is Ok,
            final(dom).links@.len() == old(dom).links@.len(),
            ({
                let c = old(dom).node_of(self.he);
                &&& final(dom).links@[c].parent is None
                &&& final(dom).links@[c].children@.len() == 0
                &&& final(dom).texts@[c]@.len() == 0
                &&& final(dom).attrs@[c]@.len() == 0
                &&& final(dom).styles@[c]@.len() == 0
                &&& final(dom).values@[c] is Null
            }),
    {
        let idx = dom.node_index(self.he);
        match self.detach(dom) {
            Ok(_) => {},
            Err(_) => vstd::pervasive::unreached(),
        }
        match self.clear(dom) {
            Ok(_) => {},
            Err(_) => vstd::pervasive::unreached(),
        }
        let empty_attrs: Vec<(String, String)> = Vec::new();
        let empty_styles: Vec<(String, String)> = Vec::new();
        vstd::std_specs::core::index_set(&mut dom.attrs, idx, empty_attrs);
        vstd::std_specs::core::index_set(&mut dom.styles, idx, empty_styles);
        vstd::std_specs::core::index_set(&mut dom.values, idx, Value::Null);
        Ok(())
    }
}


/// Exchanging the tree positions of two linked nodes keeps every
/// structural invariant, provided each lands under a parent of smaller
/// index.
proof fn lemma_wf_after_swap(
    before: Seq<NodeLinks>,
    after: Seq<NodeLinks>,
    a: int,
    b: int,
    pa: int,
    pb: int,
    wa: int,
    wb: int,
)
    requires
        links_wf(before),
        before.len() <= usize::MAX,
        after.len() == before.len(),
        0 <= a < before.len(),
        0 <= b < before.len(),
        a != b,
        0 <= pa < before.len(),
        0 <= pb < before.len(),
        before[a].parent == Some(pa as usize),
        before[b].parent == Some(pb as usize),
        0 <= wa < before[pa].children@.len(),
        before[pa].children@[wa] == a as usize,
        0 <= wb < before[pb].children@.len(),
        before[pb].children@[wb] == b as usize,
        pa < b,
        pb < a,
        after[a].parent == Some(pb as usize),
        after[a].children@ == before[a].children@,
        after[b].parent == Some(pa as usize),
        after[b].children@ == before[b].children@,
        pa == pb ==> after[pa].children@ == before[pa].children@.update(wa, b as usize).update(
            wb,
            a as usize,
        ) && after[pa].parent == before[pa].parent,
        pa != pb ==> after[pa].children@ == before[pa].children@.update(wa, b as usize)
            && after[pa].parent == before[pa].parent && after[pb].children@
            == before[pb].children@.update(wb, a as usize) && after[pb].parent
            == before[pb].parent,
        forall|k: int|
            0 <= k < before.len() && k != a && k != b && k != pa && k != pb ==> after[k]
                == before[k],
    ensures
        links_wf(after),
{
    // the parents are below their children, so they are neither a nor b
    assert(pa < a);
    assert(pb < b);
    if pa == pb {
        assert(wa != wb);
    }
    // only wa holds a in pa's list, only wb holds b in pb's list
    assert forall|i: int|
        0 <= i < before[pa].children@.len() && i != wa implies before[pa].children@[i]
        != a as usize by {}
    assert forall|i: int|
        0 <= i < before[pb].children@.len() && i != wb implies before[pb].children@[i]
        != b as usize by {}
    // b sits in no list but pb's, a in no list but pa's
    assert forall|n: int, i: int|
        0 <= n < before.len() && 0 <= i < before[n].children@.len() && before[n].children@[i]
            == b as usize implies n == pb && i == wb by {
        assert(before[before[n].children@[i] as int].parent == Some(n as usize));
    }
    assert forall|n: int, i: int|
        0 <= n < before.len() && 0 <= i < before[n].children@.len() && before[n].children@[i]
            == a as usize implies n == pa && i == wa by {
        assert(before[before[n].children@[i] as int].parent == Some(n as usize));
    }
    assert forall|n: int| 0 <= n < after.len() implies match #[trigger] after[n].parent {
        Some(q) => 0 <= q < n,
        None => true,
    } by {
        if n == a {
        } else if n == b {
        } else if n == pa || n == pb {
        } else {
            assert(after[n] == before[n]);
        }
    }
    assert forall|n: int, i: int|
        0 <= n < after.len() && 0 <= i < after[n].children@.len() implies n
        < #[trigger] after[n].children@[i] < after.len() by {
        if n == pa || n == pb {
            if after[n].children@[i] == before[n].children@[i] {
            } else {
            }
        } else if n == a || n == b {
        } else {
            assert(after[n] == before[n]);
        }
    }
    assert forall|n: int, i: int|
        0 <= n < after.len() && 0 <= i < after[n].children@.len() implies after[#[trigger] after[n].children@[i] as int].parent
        == Some(n as usize) by {
        let x = after[n].children@[i] as int;
        if n == pa && i == wa {
            assert(x == b);
        } else if n == pb && i == wb {
            assert(x == a);
        } else if n == pa || n == pb {
            assert(after[n].children@[i] == before[n].children@[i]);
            let xb = before[n].children@[i] as int;
            assert(before[xb].parent == Some(n as usize));
            assert(xb != a && xb != b);
            if xb == pa || xb == pb {
                assert(after[xb].parent == before[xb].parent);
            } else {
                assert(after[xb] == before[xb]);
            }
        } else if n == a || n == b {
            assert(after[n].children@[i] == before[n].children@[i]);
            let xb = before[n].children@[i] as int;
            assert(before[xb].parent == Some(n as usize));
            assert(xb != a && xb != b);
            if xb == pa || xb == pb {
                assert(after[xb].parent == before[xb].parent);
            } else {
                assert(after[xb] == before[xb]);
            }
        } else {
            assert(after[n] == before[n]);
            let xb = before[n].children@[i] as int;
            assert(before[xb].parent == Some(n as usize));
            assert(xb != a && xb != b);
            if xb == pa || xb == pb {
                assert(after[xb].parent == before[xb].parent);
            } else {
                assert(after[xb] == before[xb]);
            }
        }
    }
    assert forall|n: int| 0 <= n < after.len() implies match #[trigger] after[n].parent {
        Some(q) => after[q as int].children@.contains(n as usize),
        None => true,
    } by {
        if n == a {
            assert(after[pb].children@[wb] == a as usize);
            assert(after[pb].children@.contains(a as usize));
        } else if n == b {
            assert(after[pa].children@[wa] == b as usize);
            assert(after[pa].children@.contains(b as usize));
        } else {
            assert(after[n].parent == before[n].parent);
            match before[n].parent {
                Some(q) => {
                    let w = choose|w: int|
                        0 <= w < before[q as int].children@.len() && before[q as int].children@[w]
                            == n as usize;
                    if q as int == pa || q as int == pb {
                        assert(w != wa || q as int != pa);
                        assert(w != wb || q as int != pb);
                        assert(after[q as int].children@[w] == n as usize);
                        assert(after[q as int].children@.contains(n as usize));
                    } else if q as int == a || q as int == b {
                        assert(after[q as int].children@[w] == n as usize);
                        assert(after[q as int].children@.contains(n as usize));
                    } else {
                        assert(after[q as int] == before[q as int]);
                        assert(after[q as int].children@[w] == n as usize);
                        assert(after[q as int].children@.contains(n as usize));
                    }
                },
                None => {},
            }
        }
    }
    assert forall|n: int, i: int, j: int|
        0 <= n < after.len() && 0 <= i < after[n].children@.len() && 0 <= j
            < after[n].children@.len() && i != j implies #[trigger] after[n].children@[i]
        != #[trigger] after[n].children@[j] by {
        if n == pa || n == pb {
            let xi = after[n].children@[i];
            let xj = after[n].children@[j];
            if xi == xj {
                // each of a and b sits at exactly one position, and every
                // untouched entry differs from both
                assert(before[n].children@[i] != before[n].children@[j]);
            }
        } else if n == a || n == b {
        } else {
            assert(after[n] == before[n]);
        }
    }
}

/// Whether the model accepts exchanging the positions of two elements:
/// both are linked into the tree, and each would land under a parent of
/// smaller index — the discipline every link of this arena keeps.
pub open spec fn spec_can_swap(dom: Dom, ahe: u64, bhe: u64) -> bool {
    &&& dom.valid_handle(ahe)
    &&& dom.valid_handle(bhe)
    &&& ahe != bhe
    &&& (dom.links@[ahe - 1].parent matches Some(pa) && pa < bhe - 1)
    &&& (dom.links@[bhe - 1].parent matches Some(pb) && pb < ahe - 1)
}

impl Element {
    /// Exchange the tree positions of this element and `other`: each
    /// takes the other's parent and place in its child list.  Both must
    /// be linked in, and each must land under a parent created before
    /// it, else nothing changes and an error tells which check failed.
    pub fn swap(&self, dom: &mut Dom, other: &Element) -> (r: DomResult<()>)
        requires
            old(dom).wf(),
            old(dom).valid_handle(self.he),
        ensures
            final(dom).wf(),
            final(dom).links@.len() == old(dom).links@.len(),
            !old(dom).valid_handle(other.he) ==> r == Err::<(), SCDOM_RESULT>(
                SCDOM_RESULT::INVALID_HANDLE,
            ) && *final(dom) == *old(dom),
            old(dom).valid_handle(other.he) && !spec_can_swap(*old(dom), self.he, other.he) ==> r
                == Err::<(), SCDOM_RESULT>(SCDOM_RESULT::INVALID_PARAMETER) && *final(dom) == *old(
                dom,
            ),
            spec_can_swap(*old(dom), self.he, other.he) ==> {
                let a = old(dom).node_of(self.he);
                let b = old(dom).node_of(other.he);
                &&& r is Ok
                &&& final(dom).same_content(*old(dom))
                &&& final(dom).links@[a].parent == old(dom).links@[b].parent
                &&& final(dom).links@[b].parent == old(dom).links@[a].parent
                &&& final(dom).links@[a].children@ == old(dom).links@[a].children@
                &&& final(dom).links@[b].children@ == old(dom).links@[b].children@
                &&& (old(dom).links@[a].parent matches Some(pa) ==> forall|w: int|
                    0 <= w < old(dom).links@[pa as int].children@.len() && old(
                        dom,
                    ).links@[pa as int].children@[w] == a ==> final(dom).links@[pa as int].children@[w]
                        == b as usize)
                &&& (old(dom).links@[b].parent matches Some(pb) ==> forall|w: int|
                    0 <= w < old(dom).links@[pb as int].children@.len() && old(
                        dom,
                    ).links@[pb as int].children@[w] == b ==> final(dom).links@[pb as int].children@[w]
                        == a as usize)
            },
    {
        let a = dom.node_index(self.he);
        if !(other.he >= 1 && other.he <= dom.links.len() as u64) {
            return Err(SCDOM_RESULT::INVALID_HANDLE);
        }
        let b = dom.node_index(other.he);
        if a == b {
            return Err(SCDOM_RESULT::INVALID_PARAMETER);
        }
        let pa = match dom.links[a].parent {
            Some(p) => p,
            None => {
                return Err(SCDOM_RESULT::INVALID_PARAMETER);
            },
        };
        let pb = match dom.links[b].parent {
            Some(p) => p,
            None => {
                return Err(SCDOM_RESULT::INVALID_PARAMETER);
            },
        };
        if !(pa < b && pb < a) {
            return Err(SCDOM_RESULT::INVALID_PARAMETER);
        }
        let wa = self.index(dom);
        let wb = other.index(dom);
        proof {
            assert(dom.links@.len() == dom.links.len());
            lemma_unique_position(dom.links@, pa as int, a);
            lemma_unique_position(dom.links@, pb as int, b);
        }
        if pa == pb {
            let mut kids = copy_indices(&dom.links[pa].children);
            vstd::std_specs::core::index_set(&mut kids, wa, b);
            vstd::std_specs::core::index_set(&mut kids, wb, a);
            let parent = dom.links[pa].parent;
            vstd::std_specs::core::index_set(
                &mut dom.links,
                pa,
                NodeLinks { parent, children: kids },
            );
        } else {
            let mut ka = copy_indices(&dom.links[pa].children);
            vstd::std_specs::core::index_set(&mut ka, wa, b);
            let parent_a = dom.links[pa].parent;
            vstd::std_specs::core::index_set(
                &mut dom.links,
                pa,
                NodeLinks { parent: parent_a, children: ka },
            );
            let mut kb = copy_indices(&dom.links[pb].children);
            vstd::std_specs::core::index_set(&mut kb, wb, a);
            let parent_b = dom.links[pb].parent;
            vstd::std_specs::core::index_set(
                &mut dom.links,
                pb,
                NodeLinks { parent: parent_b, children: kb },
            );
        }
        let a_kids = copy_indices(&dom.links[a].children);
        vstd::std_specs::core::index_set(
            &mut dom.links,
            a,
            NodeLinks { parent: Some(pb), children: a_kids },
        );
        let b_kids = copy_indices(&dom.links[b].children);
        vstd::std_specs::core::index_set(
            &mut dom.links,
            b,
            NodeLinks { parent: Some(pa), children: b_kids },
        );
        proof {
            lemma_wf_after_swap(
                old(dom).links@,
                dom.links@,
                a as int,
                b as int,
                pa as int,
                pb as int,
                wa as int,
                wb as int,
            );
        }
        Ok(())
    }
}

} // verus!
