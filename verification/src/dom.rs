//! A parsed page: its nodes in document order, each with the index of its
//! parent, and what a node holds.

use vstd::prelude::*;

verus! {

/// What a node of a page holds.
pub enum NodeData {
    /// A run of text.
    Text(String),
    /// An element: its tag name and its attributes in source order.
    Element { name: String, attrs: Vec<(String, String)> },
    /// A comment.
    Comment(String),
}

/// One node of a page.
pub struct Node {
    /// The index of the parent node; `None` at the top of the page.
    pub parent: Option<usize>,
    /// The node's content.
    pub data: NodeData,
}

/// A page as a list of nodes in document order.
pub struct Page {
    nodes: Vec<Node>,
}

/// Every node comes after its parent.
pub open spec fn ordered(nodes: Seq<Node>) -> bool {
    forall|i: int|
        0 <= i < nodes.len() ==> match (#[trigger] nodes[i]).parent {
            Some(p) => p < i,
            None => true,
        }
}

/// The parent of node `i`, if it has one.
pub open spec fn parent_of(nodes: Seq<Node>, i: int) -> Option<int> {
    if 0 <= i < nodes.len() {
        match nodes[i].parent {
            Some(p) => if p < i {
                Some(p as int)
            } else {
                None
            },
            None => None,
        }
    } else {
        None
    }
}

/// Whether node `i` lies below node `root`: `root` is its parent, or the
/// parent of its parent, and so on.
pub open spec fn is_under(nodes: Seq<Node>, root: int, i: int) -> bool
    decreases i,
{
    match parent_of(nodes, i) {
        Some(p) => p == root || is_under(nodes, root, p),
        None => false,
    }
}

/// The text of node `i`, where it is a text node.
pub open spec fn text_at(nodes: Seq<Node>, i: int) -> Option<Seq<char>> {
    if 0 <= i < nodes.len() {
        match nodes[i].data {
            NodeData::Text(t) => Some(t@),
            _ => None,
        }
    } else {
        None
    }
}

/// The tag name of node `i`, where it is an element.
pub open spec fn name_at(nodes: Seq<Node>, i: int) -> Option<Seq<char>> {
    if 0 <= i < nodes.len() {
        match nodes[i].data {
            NodeData::Element { name, attrs } => Some(name@),
            _ => None,
        }
    } else {
        None
    }
}

/// The value of the first of `attrs`, from position `from` on, whose name
/// is `key`.
pub open spec fn lookup(attrs: Seq<(String, String)>, key: Seq<char>, from: int) -> Option<
    Seq<char>,
>
    decreases attrs.len() - from,
{
    if 0 <= from < attrs.len() {
        if attrs[from].0@ == key {
            Some(attrs[from].1@)
        } else {
            lookup(attrs, key, from + 1)
        }
    } else {
        None
    }
}

/// The value of the attribute `key` of node `i`, where it is an element
/// and has such an attribute: that of the first of that name.
pub open spec fn attr_at(nodes: Seq<Node>, i: int, key: Seq<char>) -> Option<Seq<char>> {
    if 0 <= i < nodes.len() {
        match nodes[i].data {
            NodeData::Element { name, attrs } => lookup(attrs@, key, 0),
            _ => None,
        }
    } else {
        None
    }
}

/// The nodes that parsing `html` as an HTML document gives.
pub uninterp spec fn html_nodes(html: Seq<char>) -> Seq<Node>;

/// select's `Document::from` on a string slice, each node of the parsed
/// document turned into a `Node`: parent index, and text, tag name with
/// attributes, or comment. select appends a node after its parent, so every
/// parent index is smaller than the node's own.
#[verifier::external_body]
fn parse_nodes(html: &str) -> (nodes: Vec<Node>)
    ensures
        nodes@ == html_nodes(html@),
        ordered(nodes@),
{
    select::document::Document::from(html).nodes.into_iter().map(|raw| Node {
        parent: raw.parent,
        data: match raw.data {
            select::node::Data::Text(t) => NodeData::Text(t.to_string()),
            select::node::Data::Element(name, attrs) => NodeData::Element {
                name: name.local.to_string(),
                attrs: attrs.into_iter().map(|(k, v)| (k.local.to_string(), v.to_string())).collect(),
            },
            select::node::Data::Comment(c) => NodeData::Comment(c.to_string()),
        },
    }).collect()
}

impl View for Page {
    type V = Seq<Node>;

    closed spec fn view(&self) -> Seq<Node> {
        self.nodes@
    }
}

impl Page {
    /// Every node of a document comes after its parent.
    #[verifier::type_invariant]
    pub open spec fn well_formed(self) -> bool {
        ordered(self@)
    }

    /// The page that `html` parses to.
    pub fn parse(html: &str) -> (doc: Page)
        ensures
            doc@ == html_nodes(html@),
            ordered(doc@),
    {
        Page { nodes: parse_nodes(html) }
    }

    /// The document made of `nodes`, where every node comes after its
    /// parent; `None` where one does not.
    pub fn new(nodes: Vec<Node>) -> (doc: Option<Page>)
        ensures
            doc is Some <==> ordered(nodes@),
            doc matches Some(d) ==> d@ == nodes@,
    {
        let mut i: usize = 0;
        while i < nodes.len()
            invariant
                i <= nodes.len(),
                forall|j: int|
                    0 <= j < i ==> match (#[trigger] nodes@[j]).parent {
                        Some(p) => p < j,
                        None => true,
                    },
            decreases nodes.len() - i,
        {
            match nodes[i].parent {
                Some(p) => {
                    if p >= i {
                        return None;
                    }
                },
                None => {},
            }
            i = i + 1;
        }
        Some(Page { nodes })
    }

    /// A document has no more nodes than can be counted.
    pub proof fn lemma_fits(&self)
        ensures
            self@.len() <= usize::MAX,
    {
        assert(self.nodes.len() <= usize::MAX);
    }

    /// The number of nodes.
    pub fn len(&self) -> (n: usize)
        ensures
            n == self@.len(),
    {
        self.nodes.len()
    }

    /// The parent of node `i`.
    pub fn parent(&self, i: usize) -> (p: Option<usize>)
        ensures
            p is Some <==> parent_of(self@, i as int) is Some,
            p matches Some(q) ==> parent_of(self@, i as int) == Some(q as int) && q < i,
    {
        proof {
            use_type_invariant(self);
        }
        if i < self.nodes.len() {
            self.nodes[i].parent
        } else {
            None
        }
    }

    /// Whether node `i` lies below node `root`.
    pub fn is_under(&self, root: usize, i: usize) -> (r: bool)
        ensures
            r == is_under(self@, root as int, i as int),
    {
        let mut cur: usize = i;
        loop
            invariant
                is_under(self@, root as int, i as int) == is_under(self@, root as int, cur as int),
            decreases cur,
        {
            match self.parent(cur) {
                Some(p) => {
                    if p == root {
                        return true;
                    }
                    cur = p;
                },
                None => {
                    return false;
                },
            }
        }
    }

    /// The text of node `i`, where it is a text node.
    pub fn text(&self, i: usize) -> (t: Option<&str>)
        ensures
            t is Some <==> text_at(self@, i as int) is Some,
            t matches Some(s) ==> text_at(self@, i as int) == Some(s@),
    {
        if i >= self.nodes.len() {
            return None;
        }
        match &self.nodes[i].data {
            NodeData::Text(t) => Some(t.as_str()),
            _ => None,
        }
    }

    /// The tag name of node `i`, where it is an element.
    pub fn name(&self, i: usize) -> (t: Option<&str>)
        ensures
            t is Some <==> name_at(self@, i as int) is Some,
            t matches Some(s) ==> name_at(self@, i as int) == Some(s@),
    {
        if i >= self.nodes.len() {
            return None;
        }
        match &self.nodes[i].data {
            NodeData::Element { name, attrs } => Some(name.as_str()),
            _ => None,
        }
    }

    /// The value of the attribute `key` of node `i`: that of the first
    /// attribute of that name, where the node is an element and has one.
    pub fn attr(&self, i: usize, key: &str) -> (t: Option<&str>)
        ensures
            t is Some <==> attr_at(self@, i as int, key@) is Some,
            t matches Some(s) ==> attr_at(self@, i as int, key@) == Some(s@),
    {
        if i >= self.nodes.len() {
            return None;
        }
        match &self.nodes[i].data {
            NodeData::Element { name, attrs } => {
                let mut j: usize = 0;
                while j < attrs.len()
                    invariant
                        j <= attrs.len(),
                        attr_at(self@, i as int, key@) == lookup(attrs@, key@, j as int),
                    decreases attrs.len() - j,
                {
                    if crate::text::same_text(attrs[j].0.as_str(), key) {
                        return Some(attrs[j].1.as_str());
                    }
                    j = j + 1;
                }
                None
            },
            _ => None,
        }
    }
}

} // verus!
