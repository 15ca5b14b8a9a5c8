//! The card components: a styled container and its header, body and footer.
//!
//! Each component is stateless; `view` is a pure mapping from the property
//! record to one markup element, and its contract pins tag, class list and
//! child order exactly.

use vstd::prelude::*;
use vstd::string::StringExecFns;

use crate::markup::{attr_is, element_with_class, make_text_then, text_then, Element, Node};
use crate::util::{prefixed_token, spec_join, spec_style_token, Classes, Style};

verus! {

/// Properties for [`Card`].
#[derive(Debug, PartialEq)]
pub struct CardProps {
    /// Free-form CSS class, appended last so callers can override.
    pub class: String,
    /// Child subtree, typically [`CardHeader`], [`CardBody`] or [`CardFooter`].
    pub children: Vec<Node>,
    /// Color style of the card.
    pub style: Style,
}

impl Default for CardProps {
    /// The documented defaults: empty class, no children, primary style.
    fn default() -> (d: Self)
        ensures
            d.class@ == Seq::<char>::empty(),
            d.children@ == Seq::<Node>::empty(),
            d.style == Style::Primary,
    {
        CardProps { class: String::new(), children: Vec::new(), style: Style::Primary }
    }
}

/// The class tokens of a card, in order: `card`, the style token prefixed
/// with `bg-`, and the caller's class when non-empty.
pub open spec fn spec_card_classes(style: Style, class: Seq<char>) -> Seq<Seq<char>> {
    let base = seq!["card"@, "bg-"@ + spec_style_token(style)];
    if class.len() == 0 {
        base
    } else {
        base.push(class)
    }
}

/// Card, parent of [`CardHeader`], [`CardBody`] and [`CardFooter`].
pub struct Card {}

impl Card {
    /// Instantiates the stateless component.
    pub fn create() -> (c: Card) {
        Card {}
    }

    /// Renders a `div` whose class list is `card`, `bg-<style>` and the
    /// caller's class, wrapping the child subtree verbatim and in order.
    pub fn view(&self, props: CardProps) -> (e: Element)
        ensures
            e.tag@ == "div"@,
            e.attrs@.len() == 1,
            attr_is(
                e.attrs@[0],
                "class"@,
                spec_join(spec_card_classes(props.style, props.class@)),
            ),
            e.children@ == props.children@,
    {
        let mut classes = Classes::new();
        classes.push(String::from_str("card"));
        classes.push(prefixed_token("bg-", &props.style));
        classes.push(props.class);
        proof {
            reveal_strlit("card");
            reveal_strlit("bg-");
            assert(classes@ =~= spec_card_classes(props.style, props.class@));
        }
        element_with_class("div", classes.to_attribute(), props.children)
    }
}

/// Properties for [`CardHeader`].
#[derive(Debug, PartialEq)]
pub struct CardHeaderProps {
    /// Text rendered first inside the header, when non-empty.
    pub text: String,
    /// Child subtree rendered after the text.
    pub children: Vec<Node>,
}

impl Default for CardHeaderProps {
    /// The documented defaults: empty text and no children.
    fn default() -> (d: Self)
        ensures
            d.text@ == Seq::<char>::empty(),
            d.children@ == Seq::<Node>::empty(),
    {
        CardHeaderProps { text: String::new(), children: Vec::new() }
    }
}

/// Header for a [`Card`] dialog.
pub struct CardHeader {}

impl CardHeader {
    /// Instantiates the stateless component.
    pub fn create() -> (c: CardHeader) {
        CardHeader {}
    }

    /// Renders a `div` with the fixed class `card-header`, containing the
    /// text node (when the text is non-empty) followed by the child subtree
    /// verbatim and in order.
    pub fn view(&self, props: CardHeaderProps) -> (e: Element)
        ensures
            e.tag@ == "div"@,
            e.attrs@.len() == 1,
            attr_is(e.attrs@[0], "class"@, "card-header"@),
            e.children@ == text_then(props.text, props.children@),
    {
        element_with_class(
            "div",
            String::from_str("card-header"),
            make_text_then(props.text, props.children),
        )
    }
}

/// Properties for [`CardBody`]. The body has no text of its own: content
/// arrives only through the children.
#[derive(Debug, PartialEq)]
pub struct CardBodyProps {
    /// Child subtree rendered inside the body.
    pub children: Vec<Node>,
}

impl Default for CardBodyProps {
    /// The documented default: no children.
    fn default() -> (d: Self)
        ensures
            d.children@ == Seq::<Node>::empty(),
    {
        CardBodyProps { children: Vec::new() }
    }
}

/// Body for a [`Card`] dialog.
pub struct CardBody {}

impl CardBody {
    /// Instantiates the stateless component.
    pub fn create() -> (c: CardBody) {
        CardBody {}
    }

    /// Renders a `div` with the fixed class `card-body`, wrapping the child
    /// subtree verbatim and in order.
    pub fn view(&self, props: CardBodyProps) -> (e: Element)
        ensures
            e.tag@ == "div"@,
            e.attrs@.len() == 1,
            attr_is(e.attrs@[0], "class"@, "card-body"@),
            e.children@ == props.children@,
    {
        element_with_class("div", String::from_str("card-body"), props.children)
    }
}

/// Properties for [`CardFooter`].
#[derive(Debug, PartialEq)]
pub struct CardFooterProps {
    /// Text rendered first inside the footer, when non-empty.
    pub text: String,
    /// Child subtree rendered after the text.
    pub children: Vec<Node>,
}

impl Default for CardFooterProps {
    /// The documented defaults: empty text and no children.
    fn default() -> (d: Self)
        ensures
            d.text@ == Seq::<char>::empty(),
            d.children@ == Seq::<Node>::empty(),
    {
        CardFooterProps { text: String::new(), children: Vec::new() }
    }
}

/// Footer for a [`Card`] dialog.
pub struct CardFooter {}

impl CardFooter {
    /// Instantiates the stateless component.
    pub fn create() -> (c: CardFooter) {
        CardFooter {}
    }

    /// Renders a `div` with the fixed class `card-footer`, containing the
    /// text node (when the text is non-empty) followed by the child subtree
    /// verbatim and in order.
    pub fn view(&self, props: CardFooterProps) -> (e: Element)
        ensures
            e.tag@ == "div"@,
            e.attrs@.len() == 1,
            attr_is(e.attrs@[0], "class"@, "card-footer"@),
            e.children@ == text_then(props.text, props.children@),
    {
        element_with_class(
            "div",
            String::from_str("card-footer"),
            make_text_then(props.text, props.children),
        )
    }
}

} // verus!
