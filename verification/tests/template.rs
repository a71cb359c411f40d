use alertify::template::{render_template, FieldMap};

fn fields_of(pairs: &[(&str, &str)]) -> FieldMap {
    let mut fields = FieldMap::new();
    for (name, value) in pairs {
        fields.insert(name, value.to_string());
    }
    fields
}

#[test]
fn unknown_placeholder_is_kept() {
    let fields = fields_of(&[("level", "20")]);
    assert_eq!(
        render_template("low {level}% ({missing})", &fields),
        "low 20% ({missing})"
    );
}

#[test]
fn empty_template_renders_to_empty_text() {
    assert_eq!(render_template("", &fields_of(&[("a", "b")])), "");
    assert_eq!(render_template("", &FieldMap::new()), "");
}

#[test]
fn without_fields_every_template_stays() {
    let fields = FieldMap::new();
    for template in [
        "plain",
        "{a}",
        "{a}{b}",
        "{",
        "}",
        "{}",
        "{a b}",
        "{a",
        "a}",
        "{{a}}",
        "{abc{def}",
        "héllo {wörld} ✓",
        "{a-b}",
        "{_}",
        "{A9_z}",
    ] {
        assert_eq!(render_template(template, &fields), template);
    }
}

#[test]
fn known_placeholders_are_replaced() {
    let fields = fields_of(&[("a", "1"), ("b", "22"), ("A9_z", "x"), ("_", "u")]);
    assert_eq!(render_template("{a}", &fields), "1");
    assert_eq!(render_template("{a}{b}", &fields), "122");
    assert_eq!(render_template("<{a}|{b}|{a}>", &fields), "<1|22|1>");
    assert_eq!(render_template("{A9_z}{_}", &fields), "xu");
    assert_eq!(render_template("{{a}}", &fields), "{1}");
}

#[test]
fn a_failed_start_does_not_hide_the_next_placeholder() {
    let fields = fields_of(&[("def", "D"), ("abc", "A")]);
    assert_eq!(render_template("{abc{def}", &fields), "{abcD");
    assert_eq!(render_template("{abc {def}", &fields), "{abc D");
    assert_eq!(render_template("{{def}", &fields), "{D");
}

#[test]
fn names_hold_ascii_letters_digits_and_underscores_only() {
    let fields = fields_of(&[("a-b", "no"), ("a b", "no"), ("é", "no"), ("", "no"), ("a", "yes")]);
    assert_eq!(render_template("{a-b}", &fields), "{a-b}");
    assert_eq!(render_template("{a b}", &fields), "{a b}");
    assert_eq!(render_template("{é}", &fields), "{é}");
    assert_eq!(render_template("{}", &fields), "{}");
    assert_eq!(render_template("{a}", &fields), "yes");
}

#[test]
fn values_are_not_rendered_again() {
    let fields = fields_of(&[("a", "{b}"), ("b", "x")]);
    assert_eq!(render_template("{a}", &fields), "{b}");
    assert_eq!(render_template("{a}{b}", &fields), "{b}x");
    let fields = fields_of(&[("open", "{"), ("b", "x")]);
    assert_eq!(render_template("{open}b}", &fields), "{b}");
}

#[test]
fn an_empty_value_is_put_in() {
    let fields = fields_of(&[("a", "")]);
    assert_eq!(render_template("[{a}]", &fields), "[]");
}

#[test]
fn text_outside_ascii_is_copied() {
    let fields = fields_of(&[("who", "wörld ✓")]);
    assert_eq!(render_template("héllo {who}…", &fields), "héllo wörld ✓…");
}

#[test]
fn field_map_keeps_the_last_value() {
    let mut fields = FieldMap::new();
    assert!(!fields.contains("a"));
    assert!(fields.get("a").is_none());
    fields.insert("a", "1".to_string());
    fields.insert("a", "2".to_string());
    assert!(fields.contains("a"));
    assert_eq!(fields.get("a").map(|s| s.as_str()), Some("2"));
    assert_eq!(render_template("{a}", &fields), "2");
}

fn with_regex(template: &str, pairs: &[(&str, &str)]) -> String {
    let pattern = regex::Regex::new(r"\{([a-zA-Z0-9_]+)\}").unwrap();
    pattern
        .replace_all(template, |found: &regex::Captures| {
            match pairs.iter().find(|(name, _)| *name == &found[1]) {
                Some((_, value)) => value.to_string(),
                None => found[0].to_string(),
            }
        })
        .to_string()
}

#[test]
fn rendering_agrees_with_the_placeholder_pattern() {
    let pairs = [("a", "1"), ("bb", "{a}"), ("c_9", ""), ("Z", "}{"), ("level", "20")];
    let fields = fields_of(&pairs);
    let pieces = ["{", "}", "a", "bb", "c_9", "Z", "x", " ", "-", "é", "{a}", "{{", "}}", "level"];
    let mut templates: Vec<String> = vec![String::new()];
    for first in pieces {
        templates.push(first.to_string());
        for second in pieces {
            templates.push(format!("{}{}", first, second));
            for third in pieces {
                templates.push(format!("{}{}{}", first, second, third));
                templates.push(format!("{{{}{}}}{}", first, second, third));
                templates.push(format!("{}{{{}}}{}", first, second, third));
            }
        }
    }
    for template in &templates {
        assert_eq!(
            render_template(template, &fields),
            with_regex(template, &pairs),
            "template {:?}",
            template
        );
    }
}
