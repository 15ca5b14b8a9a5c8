//! The markup tree that every component renders into: elements with a tag,
//! an ordered attribute list and an ordered child list, plus raw text nodes.

use vstd::prelude::*;
use vstd::string::StringExecFns;

verus! {

/// One attribute of a markup element: a name and a value.
#[derive(Debug, PartialEq)]
pub struct Attr {
    pub name: String,
    pub value: String,
}

/// Holds when `a` is the attribute `name="value"`.
pub open spec fn attr_is(a: Attr, name: Seq<char>, value: Seq<char>) -> bool {
    a.name@ == name && a.value@ == value
}

/// A markup element: a tag, its attributes in order, and its children in
/// order. Produced fresh on every render call and handed to the host render
/// engine; the components never retain one.
#[derive(Debug, PartialEq)]
pub struct Element {
    pub tag: String,
    pub attrs: Vec<Attr>,
    pub children: Vec<Node>,
}

/// A node of the markup tree: a nested element or raw text.
#[derive(Debug, PartialEq)]
pub enum Node {
    Element(Element),
    Text(String),
}

/// Builds one attribute from a literal name and a computed value.
pub fn attr(name: &str, value: String) -> (a: Attr)
    ensures
        attr_is(a, name@, value@),
{
    Attr { name: String::from_str(name), value }
}

/// The child list a component with a `text` property produces in front of
/// `rest`: the text as one leading text node when it is non-empty, nothing
/// when it is empty.
pub open spec fn text_then(text: String, rest: Seq<Node>) -> Seq<Node> {
    if text@.len() == 0 {
        rest
    } else {
        seq![Node::Text(text)] + rest
    }
}

/// Prepends `text` as a text node (when non-empty) to the moved `rest`.
pub fn make_text_then(text: String, rest: Vec<Node>) -> (kids: Vec<Node>)
    ensures
        kids@ == text_then(text, rest@),
{
    if text.as_str().is_empty() {
        rest
    } else {
        let ghost snap = text;
        let mut kids: Vec<Node> = Vec::new();
        kids.push(Node::Text(text));
        let mut tail = rest;
        kids.append(&mut tail);
        proof {
            assert(kids@ =~= seq![Node::Text(snap)] + rest@);
        }
        kids
    }
}

/// Builds an element that carries a single `class` attribute and the given
/// children, the shape shared by most components here.
pub fn element_with_class(tag: &str, class_value: String, children: Vec<Node>) -> (e: Element)
    ensures
        e.tag@ == tag@,
        e.attrs@.len() == 1,
        attr_is(e.attrs@[0], "class"@, class_value@),
        e.children@ == children@,
{
    let mut attrs: Vec<Attr> = Vec::new();
    attrs.push(attr("class", class_value));
    Element { tag: String::from_str(tag), attrs, children }
}

} // verus!
