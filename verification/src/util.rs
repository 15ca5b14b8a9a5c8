//! Shared styling utilities: the semantic `Style` palette with its canonical
//! lowercase class tokens, and the ordered CSS class-list builder.

use vstd::prelude::*;
use vstd::string::StringExecFns;

verus! {

/// The closed set of semantic style tags shared by the components. Each
/// variant maps to a canonical lowercase token used as a class suffix
/// (for example `bg-` + `success`).
#[derive(Clone, Copy, Debug, PartialEq, Eq, Structural)]
pub enum Style {
    Primary,
    Secondary,
    Success,
    Danger,
    Warning,
    Info,
    Light,
    Dark,
    Link,
}

/// The canonical lowercase token of a style.
pub open spec fn spec_style_token(s: Style) -> Seq<char> {
    match s {
        Style::Primary => "primary"@,
        Style::Secondary => "secondary"@,
        Style::Success => "success"@,
        Style::Danger => "danger"@,
        Style::Warning => "warning"@,
        Style::Info => "info"@,
        Style::Light => "light"@,
        Style::Dark => "dark"@,
        Style::Link => "link"@,
    }
}

/// Returns the canonical lowercase token of `s`.
pub fn style_token(s: &Style) -> (r: String)
    ensures
        r@ == spec_style_token(*s),
{
    match s {
        Style::Primary => String::from_str("primary"),
        Style::Secondary => String::from_str("secondary"),
        Style::Success => String::from_str("success"),
        Style::Danger => String::from_str("danger"),
        Style::Warning => String::from_str("warning"),
        Style::Info => String::from_str("info"),
        Style::Light => String::from_str("light"),
        Style::Dark => String::from_str("dark"),
        Style::Link => String::from_str("link"),
    }
}

/// Returns `prefix` followed by the token of `s`, such as `bg-success`.
pub fn prefixed_token(prefix: &str, s: &Style) -> (r: String)
    ensures
        r@ == prefix@ + spec_style_token(*s),
{
    let mut r = String::from_str(prefix);
    let t = style_token(s);
    r.append(t.as_str());
    r
}

/// Holds when `t` is a well-formed class token: non-empty and made of
/// lowercase ASCII letters only, hence whitespace-free.
pub open spec fn is_lower_token(t: Seq<char>) -> bool {
    t.len() > 0 && (forall|i: int| 0 <= i < t.len() ==> 'a' <= #[trigger] t[i] <= 'z')
}

/// Every style token is non-empty, lowercase and whitespace-free.
pub proof fn lemma_style_token_wf(s: Style)
    ensures
        is_lower_token(spec_style_token(s)),
{
    reveal_strlit("primary");
    reveal_strlit("secondary");
    reveal_strlit("success");
    reveal_strlit("danger");
    reveal_strlit("warning");
    reveal_strlit("info");
    reveal_strlit("light");
    reveal_strlit("dark");
    reveal_strlit("link");
}

/// The token mapping is injective: distinct styles never share a token.
pub proof fn lemma_style_token_injective(a: Style, b: Style)
    ensures
        spec_style_token(a) == spec_style_token(b) ==> a == b,
{
    reveal_strlit("primary");
    reveal_strlit("secondary");
    reveal_strlit("success");
    reveal_strlit("danger");
    reveal_strlit("warning");
    reveal_strlit("info");
    reveal_strlit("light");
    reveal_strlit("dark");
    reveal_strlit("link");
    if spec_style_token(a) == spec_style_token(b) {
        assert(spec_style_token(a).len() == spec_style_token(b).len());
        assert(spec_style_token(a)[0] == spec_style_token(b)[0]);
    }
}

/// The space-joined attribute string of `tokens`, in order, with exactly one
/// space between neighbouring tokens.
pub open spec fn spec_join(tokens: Seq<Seq<char>>) -> Seq<char>
    decreases tokens.len(),
{
    if tokens.len() == 0 {
        Seq::empty()
    } else if tokens.len() == 1 {
        tokens[0]
    } else {
        tokens[0] + seq![' '] + spec_join(tokens.drop_first())
    }
}

/// Joining after appending one token appends that token after one space
/// (or is that token alone when nothing was joined before).
pub proof fn lemma_join_push(tokens: Seq<Seq<char>>, t: Seq<char>)
    ensures
        spec_join(tokens.push(t)) == (if tokens.len() == 0 {
            t
        } else {
            spec_join(tokens) + seq![' '] + t
        }),
    decreases tokens.len(),
{
    if tokens.len() == 0 {
        assert(tokens.push(t)[0] == t);
    } else if tokens.len() == 1 {
        assert(tokens.push(t).drop_first() =~= seq![t]);
        assert(spec_join(seq![t]) == t);
        assert(tokens.push(t)[0] == tokens[0]);
    } else {
        lemma_join_push(tokens.drop_first(), t);
        assert(tokens.push(t).drop_first() =~= tokens.drop_first().push(t));
        assert(tokens.push(t)[0] == tokens[0]);
        assert((tokens[0] + seq![' '] + (spec_join(tokens.drop_first()) + seq![' '] + t)) =~= (
        tokens[0] + seq![' '] + spec_join(tokens.drop_first())) + seq![' '] + t);
    }
}

/// An ordered CSS class-list builder. Tokens are kept in push order and
/// joined with single spaces; an empty token is skipped at push time, so an
/// empty caller-supplied `class` contributes nothing. Repeated tokens are
/// kept verbatim: no de-duplication is attempted.
pub struct Classes {
    items: Vec<String>,
}

impl View for Classes {
    type V = Seq<Seq<char>>;

    closed spec fn view(&self) -> Seq<Seq<char>> {
        self.items@.map_values(|s: String| s@)
    }
}

impl Classes {
    /// An empty class list.
    pub fn new() -> (c: Classes)
        ensures
            c@ =~= Seq::<Seq<char>>::empty(),
    {
        Classes { items: Vec::new() }
    }

    /// Appends `class` as one token; an empty string is skipped.
    pub fn push(&mut self, class: String)
        ensures
            final(self)@ == (if class@.len() == 0 {
                old(self)@
            } else {
                old(self)@.push(class@)
            }),
    {
        if !class.as_str().is_empty() {
            let ghost snap = class@;
            self.items.push(class);
            proof {
                assert(self@ =~= old(self)@.push(snap));
            }
        }
    }

    /// Joins the tokens with single spaces into one attribute string.
    pub fn to_attribute(&self) -> (r: String)
        ensures
            r@ == spec_join(self@),
    {
        let mut r = String::new();
        let mut i: usize = 0;
        while i < self.items.len()
            invariant
                i <= self.items.len(),
                self@.len() == self.items@.len(),
                r@ == spec_join(self@.subrange(0, i as int)),
            decreases self.items.len() - i,
        {
            if i > 0 {
                r.append(" ");
            }
            r.append(self.items[i].as_str());
            proof {
                reveal_strlit(" ");
                lemma_join_push(self@.subrange(0, i as int), self@[i as int]);
                assert(self@.subrange(0, i as int).push(self@[i as int]) =~= self@.subrange(
                    0,
                    i as int + 1,
                ));
                if i == 0 {
                    assert(Seq::<char>::empty() + self@[0] =~= self@[0]);
                } else {
                    assert(" "@ =~= seq![' ']);
                }
            }
            i = i + 1;
        }
        proof {
            assert(self@.subrange(0, self@.len() as int) =~= self@);
        }
        r
    }
}

} // verus!
