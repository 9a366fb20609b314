use select::document::Document;
use select::predicate::{And, Any, Attr, Class, Name, Predicate, Text};
use uwinsearch::dom::Page;
use uwinsearch::selector::{and, child, descendant, Scope, Selector};

const SAMPLE: &str = "<html><head><title>Sample</title></head><body>
  <h1> 03-60-100  <b>Intro   to Proofs</b></h1>
  <div id=\"details\" class=\"tab  first\">
    <div><label>Starts</label><span id=\"starts\">Sep 6, 2018</span></div>
    <p class=\"note\">Bring a  calculator.</p>
    <p>Logic, sets and <i>proofs<!-- really --></i>.</p>
    <ul><li>one</li><li><ul><li>two <b>deep</b></li></ul></li></ul>
  </div>
  <div id=\"exams\"><table>
    <tr><th>Type</th><th>Slot</th></tr>
    <tr><td>Final</td><td> 12 </td></tr>
    <tr><td><span class=\"wwctrl\"> Midterm</span></td></tr>
  </table></div>
  <ul class=\"plain list\"><li><b>Ada</b><div><span class=\"wwctrl\">Professor</span></div></li></ul>
</body></html>";

fn found<P: Predicate>(document: &Document, predicate: P) -> Vec<usize> {
    document.find(predicate).map(|node| node.index()).collect()
}

fn words(document: &Document, at: usize) -> String {
    let node = document.nth(at).unwrap();
    let all: Vec<&str> =
        node.find(Text).flat_map(|n| n.as_text()).flat_map(str::split_whitespace).collect();
    all.join(" ")
}

#[test]
fn pages_hold_what_the_parser_found() {
    let document = Document::from(SAMPLE);
    let page = Page::parse(SAMPLE);
    assert_eq!(page.len(), document.nodes.len());
    for at in 0..page.len() {
        let node = document.nth(at).unwrap();
        assert_eq!(page.parent(at), node.parent().map(|p| p.index()));
        assert_eq!(page.name(at), node.name());
        assert_eq!(page.text(at), node.as_text());
        for key in ["id", "class", "href"] {
            assert_eq!(page.attr(at, key), node.attr(key));
        }
    }
    assert_eq!(page.name(page.len()), None);
}

#[test]
fn selectors_pick_the_nodes_that_the_parser_s_predicates_pick() {
    let document = Document::from(SAMPLE);
    let page = Page::parse(SAMPLE);
    let anywhere = |selector: &Selector| page.find_all(Scope::Anywhere, selector);
    assert_eq!(anywhere(&Selector::Any), found(&document, Any));
    assert_eq!(anywhere(&Selector::Text), found(&document, Text));
    assert_eq!(anywhere(&Selector::Name("li")), found(&document, Name("li")));
    assert_eq!(anywhere(&Selector::Attr("id", "exams")), found(&document, Attr("id", "exams")));
    assert_eq!(anywhere(&Selector::Class("first")), found(&document, Class("first")));
    assert_eq!(anywhere(&Selector::Class("tab")), found(&document, Class("tab")));
    assert_eq!(anywhere(&Selector::Class("ta")), found(&document, Class("ta")));
    assert_eq!(
        anywhere(&and(Selector::Name("span"), Selector::Class("wwctrl"))),
        found(&document, And(Name("span"), Class("wwctrl")))
    );
    assert_eq!(
        anywhere(&child(Selector::Name("div"), Selector::Class("wwctrl"))),
        found(&document, Name("div").child(Class("wwctrl")))
    );
    assert_eq!(
        anywhere(&descendant(Selector::Name("p"), Selector::Text)),
        found(&document, Name("p").descendant(Text))
    );
    assert_eq!(
        anywhere(&child(child(Selector::Attr("id", "details"), Selector::Name("ul")), Selector::Name("li"))),
        found(&document, Attr("id", "details").child(Name("ul")).child(Name("li")))
    );
    assert_eq!(
        anywhere(&descendant(Selector::Attr("id", "exams"), Selector::Name("tr"))),
        found(&document, Attr("id", "exams").descendant(Name("tr")))
    );
    assert_eq!(
        anywhere(&descendant(Selector::Name("td"), Selector::Text)),
        found(&document, Name("td").descendant(Text))
    );
    assert_eq!(
        page.find_first(Scope::Anywhere, &child(Selector::Name("body"), Selector::Name("h1"))),
        document.find(Name("body").child(Name("h1"))).next().map(|node| node.index())
    );
}

#[test]
fn scopes_reach_the_nodes_that_the_parser_s_walks_reach() {
    let document = Document::from(SAMPLE);
    let page = Page::parse(SAMPLE);
    for at in 0..page.len() {
        let node = document.nth(at).unwrap();
        let below: Vec<usize> = node.descendants().map(|n| n.index()).collect();
        assert_eq!(page.find_all(Scope::Under(at), &Selector::Any), below);
        let children: Vec<usize> = node.children().map(|n| n.index()).collect();
        assert_eq!(page.find_all(Scope::ChildrenOf(at), &Selector::Any), children);
        let cells: Vec<usize> = node.find(Name("td").descendant(Text)).map(|n| n.index()).collect();
        assert_eq!(
            page.find_all(Scope::Under(at), &descendant(Selector::Name("td"), Selector::Text)),
            cells
        );
        assert_eq!(
            page.find_first(Scope::ChildrenOf(at), &Selector::Name("div")),
            node.children().filter(|n| n.is(Name("div"))).next().map(|n| n.index())
        );
        assert_eq!(page.find_first(Scope::Under(at), &Selector::Name("b")), node.find(Name("b")).next().map(|n| n.index()));
    }
}

#[test]
fn text_is_the_text_that_the_parser_s_walk_gathers() {
    let document = Document::from(SAMPLE);
    let page = Page::parse(SAMPLE);
    for at in 0..page.len() {
        assert_eq!(page.text_under(at), words(&document, at));
    }
    let cells: Vec<String> = document
        .find(Name("td").descendant(Text))
        .flat_map(|n| n.as_text())
        .map(str::trim)
        .map(str::to_owned)
        .collect();
    assert_eq!(page.gather_cells(Scope::Anywhere, &descendant(Selector::Name("td"), Selector::Text)), cells);
    let compact: String = document
        .find(Text)
        .flat_map(|n| n.as_text())
        .flat_map(|s| s.split_whitespace().flat_map(|s| s.split("-")))
        .collect();
    assert_eq!(page.gather_compact(Scope::Anywhere, &Selector::Text), compact);
}
