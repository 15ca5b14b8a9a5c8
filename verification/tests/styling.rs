use bootstrap_ui::button::{Button, ButtonProps};
use bootstrap_ui::markup::Node;
use bootstrap_ui::util::{prefixed_token, style_token, Classes, Style};

fn all_styles() -> Vec<Style> {
    vec![
        Style::Primary,
        Style::Secondary,
        Style::Success,
        Style::Danger,
        Style::Warning,
        Style::Info,
        Style::Light,
        Style::Dark,
        Style::Link,
    ]
}

#[test]
fn style_tokens_exact() {
    assert_eq!(style_token(&Style::Primary), "primary");
    assert_eq!(style_token(&Style::Secondary), "secondary");
    assert_eq!(style_token(&Style::Success), "success");
    assert_eq!(style_token(&Style::Danger), "danger");
    assert_eq!(style_token(&Style::Warning), "warning");
    assert_eq!(style_token(&Style::Info), "info");
    assert_eq!(style_token(&Style::Light), "light");
    assert_eq!(style_token(&Style::Dark), "dark");
    assert_eq!(style_token(&Style::Link), "link");
}

#[test]
fn style_tokens_nonempty_lowercase_no_whitespace() {
    for s in all_styles().iter() {
        let t = style_token(s);
        assert!(!t.is_empty());
        for c in t.chars() {
            assert!(c.is_ascii_lowercase());
            assert!(!c.is_whitespace());
        }
    }
}

#[test]
fn style_tokens_injective() {
    let tokens: Vec<String> = all_styles().iter().map(style_token).collect();
    for i in 0..tokens.len() {
        for j in 0..tokens.len() {
            if i != j {
                assert_ne!(tokens[i], tokens[j]);
            }
        }
    }
}

#[test]
fn prefixed_token_builds_class_suffix() {
    assert_eq!(prefixed_token("bg-", &Style::Danger), "bg-danger");
    assert_eq!(prefixed_token("btn-outline-", &Style::Info), "btn-outline-info");
}

#[test]
fn classes_join_in_push_order() {
    let mut c = Classes::new();
    c.push(String::from("a"));
    c.push(String::from("b"));
    c.push(String::from("c"));
    assert_eq!(c.to_attribute(), "a b c");
}

#[test]
fn classes_skip_empty_tokens() {
    let mut c = Classes::new();
    c.push(String::from("a"));
    c.push(String::new());
    c.push(String::from("b"));
    assert_eq!(c.to_attribute(), "a b");
}

#[test]
fn classes_keep_duplicates() {
    let mut c = Classes::new();
    c.push(String::from("a"));
    c.push(String::from("a"));
    assert_eq!(c.to_attribute(), "a a");
}

#[test]
fn classes_empty_list_joins_to_empty() {
    let c = Classes::new();
    assert_eq!(c.to_attribute(), "");
}

#[test]
fn button_outline_class_list() {
    let e = Button::create().view(ButtonProps {
        class: String::from("x"),
        style: Style::Success,
        outline: true,
        text: String::new(),
        children: Vec::new(),
    });
    assert_eq!(e.tag, "button");
    assert_eq!(e.attrs.len(), 1);
    assert_eq!(e.attrs[0].name, "class");
    let classes = &e.attrs[0].value;
    assert_eq!(classes, "btn btn-outline-success x");
    assert!(classes.contains("btn-outline-success"));
    assert!(!classes.contains("bg-success"));
    assert!(classes.ends_with("x"));
}

#[test]
fn button_filled_class_list() {
    let e = Button::create().view(ButtonProps {
        class: String::new(),
        style: Style::Secondary,
        outline: false,
        text: String::new(),
        children: Vec::new(),
    });
    assert_eq!(e.attrs[0].value, "btn btn-secondary");
}

#[test]
fn button_text_when_no_children() {
    let e = Button::create().view(ButtonProps {
        class: String::new(),
        style: Style::Link,
        outline: true,
        text: String::from("Link2"),
        children: Vec::new(),
    });
    assert_eq!(e.children, vec![Node::Text(String::from("Link2"))]);
}

#[test]
fn button_children_replace_text() {
    let e = Button::create().view(ButtonProps {
        class: String::new(),
        style: Style::Primary,
        outline: false,
        text: String::from("ignored"),
        children: vec![Node::Text(String::from("Save"))],
    });
    assert_eq!(e.children, vec![Node::Text(String::from("Save"))]);
}

#[test]
fn button_defaults() {
    let d = ButtonProps::default();
    assert_eq!(d.class, "");
    assert_eq!(d.style, Style::Primary);
    assert!(!d.outline);
    assert_eq!(d.text, "");
    assert!(d.children.is_empty());
    let e = Button::create().view(d);
    assert_eq!(e.attrs[0].value, "btn btn-primary");
    assert!(e.children.is_empty());
}
