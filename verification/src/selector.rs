//! Selectors: which nodes of a page a fixed path of tag names, attributes
//! and classes picks, and the text found at them.

use vstd::prelude::*;
use crate::dom::{attr_at, is_under, name_at, parent_of, text_at, Node, Page};
use crate::text::{
    compact, join, join_with, push_compact, push_words, same_text, split_words, trim, trimmed,
    views, words,
};

verus! {

/// A condition on one node of a page.
pub enum Selector {
    /// Any node.
    Any,
    /// A text node.
    Text,
    /// An element with this tag name.
    Name(&'static str),
    /// An element with this attribute and value.
    Attr(&'static str, &'static str),
    /// An element whose `class` attribute lists this class.
    Class(&'static str),
    /// Both conditions hold of the node.
    And(Box<Selector>, Box<Selector>),
    /// The second condition holds of the node and the first of its parent.
    Child(Box<Selector>, Box<Selector>),
    /// The second condition holds of the node and the first of one of the
    /// nodes above it.
    Descendant(Box<Selector>, Box<Selector>),
}

/// `a` holds of the parent and `b` of the node.
pub open spec fn child_of(a: Selector, b: Selector) -> Selector {
    Selector::Child(Box::new(a), Box::new(b))
}

/// `a` holds of a node above and `b` of the node.
pub open spec fn below(a: Selector, b: Selector) -> Selector {
    Selector::Descendant(Box::new(a), Box::new(b))
}

/// `a` and `b` hold of the node.
pub open spec fn both(a: Selector, b: Selector) -> Selector {
    Selector::And(Box::new(a), Box::new(b))
}

/// Where to look for nodes.
#[derive(Clone, Copy)]
pub enum Scope {
    /// Anywhere in the page.
    Anywhere,
    /// Below this node, at any depth.
    Under(usize),
    /// Directly below this node.
    ChildrenOf(usize),
}

/// Whether `sel` holds of node `i`.
pub open spec fn matches(nodes: Seq<Node>, sel: Selector, i: int) -> bool
    decreases sel, 0int, i,
{
    0 <= i < nodes.len() && match sel {
        Selector::Any => true,
        Selector::Text => text_at(nodes, i) is Some,
        Selector::Name(n) => name_at(nodes, i) == Some(n@),
        Selector::Attr(k, v) => attr_at(nodes, i, k@) == Some(v@),
        Selector::Class(c) => match attr_at(nodes, i, "class"@) {
            Some(v) => words(v).contains(c@),
            None => false,
        },
        Selector::And(a, b) => matches(nodes, *a, i) && matches(nodes, *b, i),
        Selector::Child(a, b) => matches(nodes, *b, i) && match parent_of(nodes, i) {
            Some(p) => matches(nodes, *a, p),
            None => false,
        },
        Selector::Descendant(a, b) => matches(nodes, *b, i) && matches_above(nodes, *a, i),
    }
}

/// Whether `sel` holds of one of the nodes above node `i`.
pub open spec fn matches_above(nodes: Seq<Node>, sel: Selector, i: int) -> bool
    decreases sel, 1int, i,
{
    match parent_of(nodes, i) {
        Some(p) => matches(nodes, sel, p) || matches_above(nodes, sel, p),
        None => false,
    }
}

/// Whether node `i` lies where `scope` looks.
pub open spec fn in_scope(nodes: Seq<Node>, scope: Scope, i: int) -> bool {
    match scope {
        Scope::Anywhere => 0 <= i < nodes.len(),
        Scope::Under(root) => is_under(nodes, root as int, i),
        Scope::ChildrenOf(root) => parent_of(nodes, i) == Some(root as int),
    }
}

/// Whether node `i` lies in `scope` and `sel` holds of it.
pub open spec fn hit(nodes: Seq<Node>, scope: Scope, sel: Selector, i: int) -> bool {
    in_scope(nodes, scope, i) && matches(nodes, sel, i)
}

/// The first hit at or after node `from`, in document order.
pub open spec fn first_hit(nodes: Seq<Node>, scope: Scope, sel: Selector, from: int) -> Option<
    usize,
>
    decreases nodes.len() - from,
{
    if 0 <= from < nodes.len() {
        if hit(nodes, scope, sel, from) {
            Some(from as usize)
        } else {
            first_hit(nodes, scope, sel, from + 1)
        }
    } else {
        None
    }
}

/// The hits before node `upto`, in document order.
pub open spec fn hits(nodes: Seq<Node>, scope: Scope, sel: Selector, upto: int) -> Seq<usize>
    decreases upto,
{
    if upto <= 0 {
        Seq::empty()
    } else if hit(nodes, scope, sel, upto - 1) {
        hits(nodes, scope, sel, upto - 1).push((upto - 1) as usize)
    } else {
        hits(nodes, scope, sel, upto - 1)
    }
}

/// The first hit is the first entry of the list of all hits.
pub proof fn lemma_first_of_hits(nodes: Seq<Node>, scope: Scope, sel: Selector)
    requires
        nodes.len() <= usize::MAX,
    ensures
        match first_hit(nodes, scope, sel, 0) {
            Some(i) => hits(nodes, scope, sel, nodes.len() as int).len() > 0 && hits(
                nodes,
                scope,
                sel,
                nodes.len() as int,
            )[0] == i,
            None => hits(nodes, scope, sel, nodes.len() as int).len() == 0,
        },
{
    lemma_first_hit(nodes, scope, sel, 0);
    match first_hit(nodes, scope, sel, 0) {
        Some(i) => lemma_hits_head(nodes, scope, sel, i as int, nodes.len() as int),
        None => lemma_hits_head(nodes, scope, sel, nodes.len() as int, nodes.len() as int),
    }
}

/// The first hit from `from` on is a hit, and no node between `from` and it
/// is one.
proof fn lemma_first_hit(nodes: Seq<Node>, scope: Scope, sel: Selector, from: int)
    requires
        0 <= from <= nodes.len() <= usize::MAX,
    ensures
        match first_hit(nodes, scope, sel, from) {
            Some(i) => from <= i < nodes.len() && hit(nodes, scope, sel, i as int) && forall|
                j: int,
            |
                from <= j < i ==> !hit(nodes, scope, sel, j),
            None => forall|j: int| from <= j < nodes.len() ==> !hit(nodes, scope, sel, j),
        },
    decreases nodes.len() - from,
{
    if from < nodes.len() && !hit(nodes, scope, sel, from) {
        lemma_first_hit(nodes, scope, sel, from + 1);
    }
}

/// Where `first` is the first hit, the list of the hits before `upto`
/// starts with it, and is empty where `upto` does not reach beyond it.
proof fn lemma_hits_head(nodes: Seq<Node>, scope: Scope, sel: Selector, first: int, upto: int)
    requires
        0 <= first,
        0 <= upto <= nodes.len() <= usize::MAX,
        forall|j: int| 0 <= j < first && j < upto ==> !hit(nodes, scope, sel, j),
        first < upto ==> hit(nodes, scope, sel, first),
    ensures
        first < upto ==> hits(nodes, scope, sel, upto).len() > 0 && hits(nodes, scope, sel, upto)[0]
            == first,
        first >= upto ==> hits(nodes, scope, sel, upto).len() == 0,
    decreases upto,
{
    if upto > 0 {
        lemma_hits_head(nodes, scope, sel, first, upto - 1);
    }
}

/// The words of the text nodes among the hits before node `upto`, in
/// document order.
pub open spec fn hit_words(nodes: Seq<Node>, scope: Scope, sel: Selector, upto: int) -> Seq<
    Seq<char>,
>
    decreases upto,
{
    if upto <= 0 {
        Seq::empty()
    } else {
        let before = hit_words(nodes, scope, sel, upto - 1);
        match text_at(nodes, upto - 1) {
            Some(t) => if hit(nodes, scope, sel, upto - 1) {
                before + words(t)
            } else {
                before
            },
            None => before,
        }
    }
}

/// The trimmed text of each text node among the hits before node `upto`, in
/// document order.
pub open spec fn hit_cells(nodes: Seq<Node>, scope: Scope, sel: Selector, upto: int) -> Seq<
    Seq<char>,
>
    decreases upto,
{
    if upto <= 0 {
        Seq::empty()
    } else {
        let before = hit_cells(nodes, scope, sel, upto - 1);
        match text_at(nodes, upto - 1) {
            Some(t) => if hit(nodes, scope, sel, upto - 1) {
                before.push(trimmed(t))
            } else {
                before
            },
            None => before,
        }
    }
}

/// The text nodes among the hits before node `upto`, each without white
/// space and hyphens, written one after the other.
pub open spec fn hit_compact(nodes: Seq<Node>, scope: Scope, sel: Selector, upto: int) -> Seq<
    char,
>
    decreases upto,
{
    if upto <= 0 {
        Seq::empty()
    } else {
        let before = hit_compact(nodes, scope, sel, upto - 1);
        match text_at(nodes, upto - 1) {
            Some(t) => if hit(nodes, scope, sel, upto - 1) {
                before + compact(t)
            } else {
                before
            },
            None => before,
        }
    }
}

/// The text below node `root`: the words of its text nodes, in document
/// order, with one space between neighbours.
pub open spec fn text_under(nodes: Seq<Node>, root: usize) -> Seq<char> {
    join(hit_words(nodes, Scope::Under(root), Selector::Text, nodes.len() as int), " "@)
}

/// `a` holds of the parent and `b` of the node.
pub fn child(a: Selector, b: Selector) -> (s: Selector)
    ensures
        s == child_of(a, b),
{
    Selector::Child(Box::new(a), Box::new(b))
}

/// `a` holds of a node above and `b` of the node.
pub fn descendant(a: Selector, b: Selector) -> (s: Selector)
    ensures
        s == below(a, b),
{
    Selector::Descendant(Box::new(a), Box::new(b))
}

/// `a` and `b` hold of the node.
pub fn and(a: Selector, b: Selector) -> (s: Selector)
    ensures
        s == both(a, b),
{
    Selector::And(Box::new(a), Box::new(b))
}

impl Page {
    /// Whether `sel` holds of node `i`.
    pub fn matches(&self, sel: &Selector, i: usize) -> (r: bool)
        ensures
            r == matches(self@, *sel, i as int),
        decreases *sel, 0int, i,
    {
        if i >= self.len() {
            return false;
        }
        match sel {
            Selector::Any => true,
            Selector::Text => self.text(i).is_some(),
            Selector::Name(n) => match self.name(i) {
                Some(name) => same_text(name, n),
                None => false,
            },
            Selector::Attr(k, v) => match self.attr(i, k) {
                Some(value) => same_text(value, v),
                None => false,
            },
            Selector::Class(c) => match self.attr(i, "class") {
                Some(value) => {
                    let listed = split_words(value);
                    let mut j: usize = 0;
                    while j < listed.len()
                        invariant
                            j <= listed.len(),
                            matches(self@, *sel, i as int) == views(listed@).contains(c@),
                            forall|k: int| 0 <= k < j ==> views(listed@)[k] != c@,
                        decreases listed.len() - j,
                    {
                        if same_text(listed[j].as_str(), c) {
                            assert(views(listed@)[j as int] == c@);
                            return true;
                        }
                        j = j + 1;
                    }
                    false
                },
                None => false,
            },
            Selector::And(a, b) => self.matches(a, i) && self.matches(b, i),
            Selector::Child(a, b) => {
                if !self.matches(b, i) {
                    return false;
                }
                match self.parent(i) {
                    Some(p) => self.matches(a, p),
                    None => false,
                }
            },
            Selector::Descendant(a, b) => self.matches(b, i) && self.matches_above(a, i),
        }
    }

    /// Whether `sel` holds of one of the nodes above node `i`.
    pub fn matches_above(&self, sel: &Selector, i: usize) -> (r: bool)
        ensures
            r == matches_above(self@, *sel, i as int),
        decreases *sel, 1int, i,
    {
        match self.parent(i) {
            Some(p) => self.matches(sel, p) || self.matches_above(sel, p),
            None => false,
        }
    }

    /// Whether node `i` lies in `scope` and `sel` holds of it.
    pub fn hit(&self, scope: Scope, sel: &Selector, i: usize) -> (r: bool)
        ensures
            r == hit(self@, scope, *sel, i as int),
    {
        let inside = match scope {
            Scope::Anywhere => i < self.len(),
            Scope::Under(root) => self.is_under(root, i),
            Scope::ChildrenOf(root) => match self.parent(i) {
                Some(p) => p == root,
                None => false,
            },
        };
        inside && self.matches(sel, i)
    }

    /// The first node in `scope` of which `sel` holds, in document order.
    pub fn find_first(&self, scope: Scope, sel: &Selector) -> (r: Option<usize>)
        ensures
            r == first_hit(self@, scope, *sel, 0),
    {
        let mut i: usize = 0;
        while i < self.len()
            invariant
                i <= self@.len(),
                first_hit(self@, scope, *sel, 0) == first_hit(self@, scope, *sel, i as int),
            decreases self@.len() - i,
        {
            if self.hit(scope, sel, i) {
                return Some(i);
            }
            i = i + 1;
        }
        None
    }

    /// Every node in `scope` of which `sel` holds, in document order.
    pub fn find_all(&self, scope: Scope, sel: &Selector) -> (r: Vec<usize>)
        ensures
            r@ == hits(self@, scope, *sel, self@.len() as int),
    {
        let mut found: Vec<usize> = Vec::new();
        let mut i: usize = 0;
        while i < self.len()
            invariant
                i <= self@.len(),
                found@ == hits(self@, scope, *sel, i as int),
            decreases self@.len() - i,
        {
            if self.hit(scope, sel, i) {
                found.push(i);
            }
            i = i + 1;
        }
        found
    }

    /// The words of the text nodes in `scope` of which `sel` holds, with one
    /// space between neighbours.
    pub fn gather_text(&self, scope: Scope, sel: &Selector) -> (r: String)
        ensures
            r@ == join(hit_words(self@, scope, *sel, self@.len() as int), " "@),
    {
        let mut found: Vec<String> = Vec::new();
        let mut i: usize = 0;
        assert(views(found@) =~= hit_words(self@, scope, *sel, 0));
        while i < self.len()
            invariant
                i <= self@.len(),
                views(found@) == hit_words(self@, scope, *sel, i as int),
            decreases self@.len() - i,
        {
            match self.text(i) {
                Some(t) => {
                    if self.hit(scope, sel, i) {
                        push_words(t, &mut found);
                    }
                },
                None => {},
            }
            i = i + 1;
        }
        join_with(&found, " ")
    }

    /// The trimmed text of each text node in `scope` of which `sel` holds.
    pub fn gather_cells(&self, scope: Scope, sel: &Selector) -> (r: Vec<String>)
        ensures
            views(r@) == hit_cells(self@, scope, *sel, self@.len() as int),
    {
        let mut found: Vec<String> = Vec::new();
        let mut i: usize = 0;
        assert(views(found@) =~= hit_cells(self@, scope, *sel, 0));
        while i < self.len()
            invariant
                i <= self@.len(),
                views(found@) == hit_cells(self@, scope, *sel, i as int),
            decreases self@.len() - i,
        {
            match self.text(i) {
                Some(t) => {
                    if self.hit(scope, sel, i) {
                        let cell = trim(t);
                        let ghost before = views(found@);
                        found.push(cell);
                        assert(views(found@) =~= before.push(cell@));
                    }
                },
                None => {},
            }
            i = i + 1;
        }
        found
    }

    /// The text nodes in `scope` of which `sel` holds, each without white
    /// space and hyphens, written one after the other.
    pub fn gather_compact(&self, scope: Scope, sel: &Selector) -> (r: String)
        ensures
            r@ == hit_compact(self@, scope, *sel, self@.len() as int),
    {
        let mut found = String::new();
        let mut i: usize = 0;
        while i < self.len()
            invariant
                i <= self@.len(),
                found@ == hit_compact(self@, scope, *sel, i as int),
            decreases self@.len() - i,
        {
            match self.text(i) {
                Some(t) => {
                    if self.hit(scope, sel, i) {
                        push_compact(t, &mut found);
                    }
                },
                None => {},
            }
            i = i + 1;
        }
        found
    }

    /// The text below node `root`.
    pub fn text_under(&self, root: usize) -> (r: String)
        ensures
            r@ == text_under(self@, root),
    {
        self.gather_text(Scope::Under(root), &Selector::Text)
    }
}

} // verus!
