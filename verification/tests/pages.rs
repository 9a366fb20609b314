use uwinsearch::dom::{Node, NodeData, Page};
use uwinsearch::selector::{and, child, descendant, Scope, Selector};

fn element(parent: Option<usize>, name: &str, attrs: &[(&str, &str)]) -> Node {
    Node {
        parent,
        data: NodeData::Element {
            name: name.to_string(),
            attrs: attrs.iter().map(|(k, v)| (k.to_string(), v.to_string())).collect(),
        },
    }
}

fn text(parent: Option<usize>, content: &str) -> Node {
    Node { parent, data: NodeData::Text(content.to_string()) }
}

/// html(0) > body(1) > [ div#a.box.big(2) > [ p(3) > "one  two"(4), "three"(5) ],
///                       div(6) > span.box(7) > " four "(8) ],  comment(9)
fn small_page() -> Page {
    Page::new(vec![
        element(None, "html", &[]),
        element(Some(0), "body", &[]),
        element(Some(1), "div", &[("id", "a"), ("class", "box  big"), ("id", "shadowed")]),
        element(Some(2), "p", &[]),
        text(Some(3), "one  two"),
        text(Some(2), "three"),
        element(Some(1), "div", &[]),
        element(Some(6), "span", &[("class", "box")]),
        text(Some(7), " four "),
        Node { parent: Some(0), data: NodeData::Comment("note".to_string()) },
    ])
    .expect("every node comes after its parent")
}

#[test]
fn a_node_before_its_parent_is_refused() {
    assert!(Page::new(vec![text(Some(1), "x"), element(None, "p", &[])]).is_none());
    assert!(Page::new(vec![element(Some(0), "p", &[])]).is_none());
    assert!(Page::new(vec![]).is_some());
}

#[test]
fn nodes_are_read_by_index() {
    let page = small_page();
    assert_eq!(page.len(), 10);
    assert_eq!(page.name(2), Some("div"));
    assert_eq!(page.name(4), None);
    assert_eq!(page.text(4), Some("one  two"));
    assert_eq!(page.text(2), None);
    assert_eq!(page.text(9), None);
    assert_eq!(page.attr(2, "id"), Some("a"));
    assert_eq!(page.attr(2, "class"), Some("box  big"));
    assert_eq!(page.attr(2, "href"), None);
    assert_eq!(page.attr(4, "id"), None);
    assert_eq!(page.parent(4), Some(3));
    assert_eq!(page.parent(0), None);
    assert_eq!(page.name(10), None);
    assert_eq!(page.parent(10), None);
}

#[test]
fn below_means_at_any_depth() {
    let page = small_page();
    assert!(page.is_under(2, 4));
    assert!(page.is_under(1, 8));
    assert!(page.is_under(0, 9));
    assert!(!page.is_under(2, 2));
    assert!(!page.is_under(2, 8));
    assert!(!page.is_under(4, 2));
    assert!(!page.is_under(2, 10));
}

#[test]
fn selectors_hold_of_the_nodes_they_describe() {
    let page = small_page();
    assert!(page.matches(&Selector::Any, 9));
    assert!(!page.matches(&Selector::Any, 10));
    assert!(page.matches(&Selector::Text, 5));
    assert!(!page.matches(&Selector::Text, 9));
    assert!(page.matches(&Selector::Name("div"), 2));
    assert!(!page.matches(&Selector::Name("div"), 3));
    assert!(page.matches(&Selector::Attr("id", "a"), 2));
    assert!(!page.matches(&Selector::Attr("id", "shadowed"), 2));
    assert!(page.matches(&Selector::Class("box"), 2));
    assert!(page.matches(&Selector::Class("big"), 2));
    assert!(!page.matches(&Selector::Class("bo"), 2));
    assert!(!page.matches(&Selector::Class("box"), 6));
    assert!(page.matches(&and(Selector::Name("span"), Selector::Class("box")), 7));
    assert!(!page.matches(&and(Selector::Name("div"), Selector::Class("box")), 7));
    assert!(page.matches(&child(Selector::Name("div"), Selector::Name("p")), 3));
    assert!(!page.matches(&child(Selector::Name("body"), Selector::Name("p")), 3));
    assert!(!page.matches(&child(Selector::Any, Selector::Name("html")), 0));
    assert!(page.matches(&descendant(Selector::Name("body"), Selector::Text), 4));
    assert!(page.matches(&descendant(Selector::Attr("id", "a"), Selector::Text), 5));
    assert!(!page.matches(&descendant(Selector::Attr("id", "a"), Selector::Text), 8));
    assert!(!page.matches(&descendant(Selector::Name("p"), Selector::Name("p")), 3));
}

#[test]
fn finding_goes_in_document_order() {
    let page = small_page();
    assert_eq!(page.find_all(Scope::Anywhere, &Selector::Name("div")), vec![2, 6]);
    assert_eq!(page.find_first(Scope::Anywhere, &Selector::Name("div")), Some(2));
    assert_eq!(page.find_first(Scope::Anywhere, &Selector::Name("table")), None);
    assert_eq!(page.find_all(Scope::Anywhere, &Selector::Text), vec![4, 5, 8]);
    assert_eq!(page.find_all(Scope::Under(2), &Selector::Any), vec![3, 4, 5]);
    assert_eq!(page.find_all(Scope::ChildrenOf(2), &Selector::Any), vec![3, 5]);
    assert_eq!(page.find_all(Scope::ChildrenOf(1), &Selector::Class("box")), vec![2]);
    assert_eq!(page.find_first(Scope::Under(6), &Selector::Text), Some(8));
    assert_eq!(page.find_first(Scope::Under(8), &Selector::Any), None);
    assert!(page.find_all(Scope::Under(10), &Selector::Any).is_empty());
}

#[test]
fn text_is_gathered_word_by_word() {
    let page = small_page();
    assert_eq!(page.text_under(2), "one two three");
    assert_eq!(page.text_under(1), "one two three four");
    assert_eq!(page.text_under(4), "");
    assert_eq!(page.gather_text(Scope::Anywhere, &descendant(Selector::Name("p"), Selector::Text)), "one two");
    assert_eq!(
        page.gather_cells(Scope::Anywhere, &Selector::Text),
        vec!["one  two".to_string(), "three".to_string(), "four".to_string()]
    );
    assert_eq!(page.gather_compact(Scope::Anywhere, &Selector::Text), "onetwothreefour");
}

#[test]
fn parsing_gives_the_nodes_in_document_order() {
    let page = Page::parse("<html><head></head><body><p id=\"x\">Hi <b>there</b></p><!--c--></body></html>");
    assert_eq!(page.len(), 8);
    assert_eq!(page.name(0), Some("html"));
    assert_eq!(page.name(1), Some("head"));
    assert_eq!(page.name(2), Some("body"));
    assert_eq!(page.name(3), Some("p"));
    assert_eq!(page.attr(3, "id"), Some("x"));
    assert_eq!(page.text(4), Some("Hi "));
    assert_eq!(page.name(5), Some("b"));
    assert_eq!(page.text(6), Some("there"));
    assert_eq!(page.text(7), None);
    assert_eq!(page.name(7), None);
    assert_eq!(page.parent(0), None);
    assert_eq!(page.parent(1), Some(0));
    assert_eq!(page.parent(3), Some(2));
    assert_eq!(page.parent(6), Some(5));
    assert_eq!(page.parent(7), Some(2));
    assert_eq!(page.text_under(3), "Hi there");
}

#[test]
fn parsing_supplies_what_the_markup_leaves_out() {
    let page = Page::parse("<table><tr><td>a-1</td></tr></table>");
    let body = page.find_first(Scope::Anywhere, &child(Selector::Name("table"), Selector::Name("tbody")));
    assert!(body.is_some());
    let cells = page.find_all(Scope::Under(body.unwrap()), &Selector::Name("td"));
    assert_eq!(cells.len(), 1);
    assert_eq!(page.gather_compact(Scope::Under(cells[0]), &Selector::Text), "a1");
}
