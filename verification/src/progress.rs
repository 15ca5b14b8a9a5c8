//! The progress components: a plain grouping container and the progress bar
//! with its verified percentage arithmetic.
//!
//! The fill percentage is kept in hundredths of a percent as an integer,
//! rounded half up from the exact ratio and clamped to `[0, 10000]`; a
//! degenerate range (`max_value <= min_value`, where the exact ratio has a
//! zero divisor) renders as 0. The width string shows the hundredths only
//! when they are non-zero, so whole percentages render as plain integers.

use vstd::prelude::*;
use vstd::string::StringExecFns;
use vstd::arithmetic::div_mod::{lemma_fundamental_div_mod, lemma_mod_bound, lemma_div_pos_is_pos};

use crate::decimal::{dec_string, digit_str, spec_dec, spec_digit};
use crate::markup::{attr, attr_is, element_with_class, make_text_then, text_then, Attr, Element,
    Node};
use crate::util::{prefixed_token, spec_join, spec_style_token, Classes, Style};

verus! {

/// Properties for [`Progress`]. The group deliberately exposes no `class`
/// override: it always renders the bare `progress` class.
#[derive(Debug, PartialEq)]
pub struct ProgressProps {
    /// Children for the group, conventionally [`ProgressBar`] instances.
    pub children: Vec<Node>,
}

impl Default for ProgressProps {
    /// The documented default: no children.
    fn default() -> (d: Self)
        ensures
            d.children@ == Seq::<Node>::empty(),
    {
        ProgressProps { children: Vec::new() }
    }
}

/// Groups several [`ProgressBar`] instances together.
pub struct Progress {}

impl Progress {
    /// Instantiates the stateless component.
    pub fn create() -> (c: Progress) {
        Progress {}
    }

    /// Renders a `div` with the fixed class `progress`, wrapping the child
    /// subtree verbatim and in order.
    pub fn view(&self, props: ProgressProps) -> (e: Element)
        ensures
            e.tag@ == "div"@,
            e.attrs@.len() == 1,
            attr_is(e.attrs@[0], "class"@, "progress"@),
            e.children@ == props.children@,
    {
        element_with_class("div", String::from_str("progress"), props.children)
    }
}

/// The fill level in hundredths of a percent: the ratio
/// `(now - min) / (max - min)` scaled to hundredths, rounded half up and
/// clamped to `[0, 10000]`. A non-positive range, where the exact ratio
/// would divide by zero, yields 0.
pub open spec fn spec_percent_hundredths(min: int, max: int, now: int) -> int {
    if max <= min {
        0
    } else if now <= min {
        0
    } else if now >= max {
        10000
    } else {
        ((now - min) * 10000 + (max - min) / 2) / (max - min)
    }
}

/// Computes the fill level of a bar, exactly as `spec_percent_hundredths`
/// states and never above 10000.
pub fn percent_hundredths(min: u8, max: u8, now: u8) -> (p: u32)
    ensures
        p == spec_percent_hundredths(min as int, max as int, now as int),
        p <= 10000,
{
    if max <= min {
        0
    } else if now <= min {
        0
    } else if now >= max {
        10000
    } else {
        let num: u32 = (now - min) as u32 * 10000;
        let den: u32 = (max - min) as u32;
        let p = (num + den / 2) / den;
        proof {
            lemma_percent_rounding(min as int, max as int, now as int);
        }
        p
    }
}

/// Within a proper range the rendered level is exactly the half-up rounding
/// of `(now - min) / (max - min)`, in hundredths of a percent: it lies in
/// `[0, 10000]`, and it is the unique `p` with
/// `den * p <= num + den / 2 < den * (p + 1)` for `num = (now - min) * 10000`
/// and `den = max - min`.
pub proof fn lemma_percent_rounding(min: int, max: int, now: int)
    requires
        0 <= min < max <= 255,
        min <= now <= max,
    ensures
        0 <= spec_percent_hundredths(min, max, now) <= 10000,
        (max - min) * spec_percent_hundredths(min, max, now) <= (now - min) * 10000 + (max - min)
            / 2,
        (now - min) * 10000 + (max - min) / 2 < (max - min) * (spec_percent_hundredths(
            min,
            max,
            now,
        ) + 1),
{
    let den = max - min;
    let num = (now - min) * 10000;
    let x = num + den / 2;
    if now <= min {
        assert(den * 0 == 0) by (nonlinear_arith);
        assert(den * (0 + 1) == den) by (nonlinear_arith);
    } else if now >= max {
        assert(num == den * 10000);
        assert(den * (10000 + 1) == den * 10000 + den) by (nonlinear_arith);
    } else {
        let p = x / den;
        lemma_fundamental_div_mod(x, den);
        lemma_mod_bound(x, den);
        lemma_div_pos_is_pos(x, den);
        assert(den * p <= x);
        assert(x < den * p + den);
        assert(den * (p + 1) == den * p + den) by (nonlinear_arith);
        assert(num <= (den - 1) * 10000);
        assert(x < den * 10000);
        assert(p < 10000) by (nonlinear_arith)
            requires
                den >= 1,
                den * p < den * 10000,
        ;
    }
}

/// A degenerate range keeps the rendered level defined: it is exactly 0.
pub proof fn lemma_degenerate_range(min: int, now: int)
    ensures
        spec_percent_hundredths(min, min, now) == 0,
{
}

/// The percentage as characters: the whole percent in decimal, then `.` and
/// two digits of hundredths only when the hundredths are non-zero.
pub open spec fn spec_percent_chars(ph: int) -> Seq<char> {
    if ph % 100 == 0 {
        spec_dec(ph / 100)
    } else {
        spec_dec(ph / 100) + seq!['.'] + seq![
            spec_digit(ph % 100 / 10),
            spec_digit(ph % 100 % 10),
        ]
    }
}

/// The `style` attribute value of a bar at level `ph`.
pub open spec fn spec_width_style(ph: int) -> Seq<char> {
    "width: "@ + spec_percent_chars(ph) + "%"@
}

/// Renders the `style` attribute value, exactly as `spec_width_style` states.
pub fn width_style(ph: u32) -> (r: String)
    requires
        ph <= 10000,
    ensures
        r@ == spec_width_style(ph as int),
{
    let mut r = String::from_str("width: ");
    let whole = dec_string(ph / 100);
    r.append(whole.as_str());
    let frac = ph % 100;
    if frac != 0 {
        r.append(".");
        r.append(digit_str(frac / 10));
        r.append(digit_str(frac % 10));
    }
    r.append("%");
    proof {
        reveal_strlit(".");
        assert(r@ =~= spec_width_style(ph as int));
    }
    r
}

/// A degenerate range renders a defined width: exactly `width: 0%`.
pub proof fn lemma_degenerate_range_width(min: int, now: int)
    ensures
        spec_width_style(spec_percent_hundredths(min, min, now)) == "width: 0%"@,
{
    reveal_strlit("width: ");
    reveal_strlit("%");
    reveal_strlit("width: 0%");
    assert(spec_width_style(0) =~= "width: 0%"@);
}

/// Properties for [`ProgressBar`].
#[derive(Debug, PartialEq)]
pub struct ProgressBarProps {
    /// Free-form CSS class, appended last so callers can override.
    pub class: String,
    /// Color style of the bar.
    pub style: Style,
    /// Optional text placed in the bar, rendered when non-empty.
    pub text: String,
    /// Enables the striped effect.
    pub is_striped: bool,
    /// Enables the animation effect.
    pub is_animated: bool,
    /// The minimum value of the bar.
    pub min_value: u8,
    /// The maximum value of the bar.
    pub max_value: u8,
    /// The current value of the bar.
    pub now_value: u8,
}

impl Default for ProgressBarProps {
    /// The documented defaults: empty class and text, primary style, no
    /// effects, all bounds 0.
    fn default() -> (d: Self)
        ensures
            d.class@ == Seq::<char>::empty(),
            d.style == Style::Primary,
            d.text@ == Seq::<char>::empty(),
            !d.is_striped,
            !d.is_animated,
            d.min_value == 0,
            d.max_value == 0,
            d.now_value == 0,
    {
        ProgressBarProps {
            class: String::new(),
            style: Style::Primary,
            text: String::new(),
            is_striped: false,
            is_animated: false,
            min_value: 0,
            max_value: 0,
            now_value: 0,
        }
    }
}

/// The class tokens of a bar, in order: `progress-bar`, the style token
/// prefixed with `bg-`, the effect tokens when enabled, and the caller's
/// class when non-empty.
pub open spec fn spec_bar_classes(
    style: Style,
    is_striped: bool,
    is_animated: bool,
    class: Seq<char>,
) -> Seq<Seq<char>> {
    let base = seq!["progress-bar"@, "bg-"@ + spec_style_token(style)];
    let striped = if is_striped {
        base.push("progress-bar-striped"@)
    } else {
        base
    };
    let animated = if is_animated {
        striped.push("progress-bar-animated"@)
    } else {
        striped
    };
    if class.len() == 0 {
        animated
    } else {
        animated.push(class)
    }
}

/// A single bar inside a [`Progress`] group.
pub struct ProgressBar {}

impl ProgressBar {
    /// Instantiates the stateless component.
    pub fn create() -> (c: ProgressBar) {
        ProgressBar {}
    }

    /// Renders a `div` with `role="progressbar"`, the computed width, the
    /// three ARIA bounds in decimal, the class list of `spec_bar_classes`,
    /// and the text node (when the text is non-empty) as only content.
    pub fn view(&self, props: ProgressBarProps) -> (e: Element)
        ensures
            e.tag@ == "div"@,
            e.attrs@.len() == 6,
            attr_is(
                e.attrs@[0],
                "class"@,
                spec_join(
                    spec_bar_classes(
                        props.style,
                        props.is_striped,
                        props.is_animated,
                        props.class@,
                    ),
                ),
            ),
            attr_is(e.attrs@[1], "role"@, "progressbar"@),
            attr_is(
                e.attrs@[2],
                "style"@,
                spec_width_style(
                    spec_percent_hundredths(
                        props.min_value as int,
                        props.max_value as int,
                        props.now_value as int,
                    ),
                ),
            ),
            attr_is(e.attrs@[3], "aria-valuenow"@, spec_dec(props.now_value as int)),
            attr_is(e.attrs@[4], "aria-valuemin"@, spec_dec(props.min_value as int)),
            attr_is(e.attrs@[5], "aria-valuemax"@, spec_dec(props.max_value as int)),
            e.children@ == text_then(props.text, Seq::<Node>::empty()),
    {
        let mut classes = Classes::new();
        classes.push(String::from_str("progress-bar"));
        classes.push(prefixed_token("bg-", &props.style));
        if props.is_striped {
            classes.push(String::from_str("progress-bar-striped"));
        }
        if props.is_animated {
            classes.push(String::from_str("progress-bar-animated"));
        }
        classes.push(props.class);
        proof {
            reveal_strlit("progress-bar");
            reveal_strlit("bg-");
            reveal_strlit("progress-bar-striped");
            reveal_strlit("progress-bar-animated");
            assert(classes@ =~= spec_bar_classes(
                props.style,
                props.is_striped,
                props.is_animated,
                props.class@,
            ));
        }
        let level = percent_hundredths(props.min_value, props.max_value, props.now_value);
        let mut attrs: Vec<Attr> = Vec::new();
        attrs.push(attr("class", classes.to_attribute()));
        attrs.push(attr("role", String::from_str("progressbar")));
        attrs.push(attr("style", width_style(level)));
        attrs.push(attr("aria-valuenow", dec_string(props.now_value as u32)));
        attrs.push(attr("aria-valuemin", dec_string(props.min_value as u32)));
        attrs.push(attr("aria-valuemax", dec_string(props.max_value as u32)));
        let children = make_text_then(props.text, Vec::new());
        Element { tag: String::from_str("div"), attrs, children }
    }
}

} // verus!
