//! The button component: a styled clickable element with an optional
//! outline variant.

use vstd::prelude::*;
use vstd::string::StringExecFns;

use crate::markup::{attr_is, element_with_class, make_text_then, text_then, Element, Node};
use crate::util::{prefixed_token, spec_join, spec_style_token, Classes, Style};

verus! {

/// Properties for [`Button`].
#[derive(Debug, PartialEq)]
pub struct ButtonProps {
    /// Free-form CSS class, appended last so callers can override.
    pub class: String,
    /// Color style of the button.
    pub style: Style,
    /// Renders the outline variant (`btn-outline-<style>`) instead of the
    /// filled one (`btn-<style>`).
    pub outline: bool,
    /// Inner text, used only when the button has no children.
    pub text: String,
    /// Child subtree; when non-empty it replaces the text.
    pub children: Vec<Node>,
}

impl Default for ButtonProps {
    /// The documented defaults: empty class and text, primary style, no
    /// outline, no children.
    fn default() -> (d: Self)
        ensures
            d.class@ == Seq::<char>::empty(),
            d.style == Style::Primary,
            !d.outline,
            d.text@ == Seq::<char>::empty(),
            d.children@ == Seq::<Node>::empty(),
    {
        ButtonProps {
            class: String::new(),
            style: Style::Primary,
            outline: false,
            text: String::new(),
            children: Vec::new(),
        }
    }
}

/// The class tokens of a button, in order: `btn`, then exactly one style
/// token (`btn-outline-<style>` when outlined, else `btn-<style>`), then the
/// caller's class when non-empty. The filled and the outline token never
/// appear together.
pub open spec fn spec_button_classes(style: Style, outline: bool, class: Seq<char>) -> Seq<
    Seq<char>,
> {
    let prefix = if outline {
        "btn-outline-"@
    } else {
        "btn-"@
    };
    let base = seq!["btn"@, prefix + spec_style_token(style)];
    if class.len() == 0 {
        base
    } else {
        base.push(class)
    }
}

/// The content of a button: the children verbatim when there are any, else
/// the text as one text node (nothing when the text is empty too).
pub open spec fn spec_button_children(text: String, children: Seq<Node>) -> Seq<Node> {
    if children.len() > 0 {
        children
    } else {
        text_then(text, Seq::<Node>::empty())
    }
}

/// A clickable button.
pub struct Button {}

impl Button {
    /// Instantiates the stateless component.
    pub fn create() -> (c: Button) {
        Button {}
    }

    /// Renders a `button` element with the class list of
    /// `spec_button_classes` and the content of `spec_button_children`.
    pub fn view(&self, props: ButtonProps) -> (e: Element)
        ensures
            e.tag@ == "button"@,
            e.attrs@.len() == 1,
            attr_is(
                e.attrs@[0],
                "class"@,
                spec_join(spec_button_classes(props.style, props.outline, props.class@)),
            ),
            e.children@ == spec_button_children(props.text, props.children@),
    {
        let mut classes = Classes::new();
        classes.push(String::from_str("btn"));
        if props.outline {
            classes.push(prefixed_token("btn-outline-", &props.style));
        } else {
            classes.push(prefixed_token("btn-", &props.style));
        }
        classes.push(props.class);
        proof {
            reveal_strlit("btn");
            reveal_strlit("btn-outline-");
            reveal_strlit("btn-");
            assert(classes@ =~= spec_button_classes(props.style, props.outline, props.class@));
        }
        let children = if props.children.len() > 0 {
            props.children
        } else {
            make_text_then(props.text, Vec::new())
        };
        element_with_class("button", classes.to_attribute(), children)
    }
}

} // verus!
