use xcpp::bundle::files;
use xcpp::project::substitution;
use xcpp::template::{render, replacement, Bindings};

#[test]
fn bound_placeholder_is_replaced() {
    let mut b = Bindings::new();
    b.insert("x", "v");
    assert_eq!(render("{{x}}", &b), "v");
}

#[test]
fn missing_key_passes_through() {
    assert_eq!(render("{{x}}", &Bindings::new()), "{{x}}");
}

#[test]
fn plain_text_is_unchanged() {
    assert_eq!(render("plain", &Bindings::new()), "plain");
}

#[test]
fn empty_template_gives_empty_text() {
    let mut b = Bindings::new();
    b.insert("x", "v");
    assert_eq!(render("", &b), "");
}

#[test]
fn unterminated_placeholder_is_text() {
    let mut b = Bindings::new();
    b.insert("x", "v");
    assert_eq!(render("a {{x", &b), "a {{x");
    assert_eq!(render("a x}} b", &b), "a x}} b");
    assert_eq!(render("{ {x} }", &b), "{ {x} }");
}

#[test]
fn values_are_taken_verbatim() {
    let mut b = Bindings::new();
    b.insert("x", "{{y}}");
    b.insert("y", "no");
    assert_eq!(render("<{{x}}>", &b), "<{{y}}>");
}

#[test]
fn several_placeholders_are_replaced_in_place() {
    let mut b = Bindings::new();
    b.insert("first", "one");
    b.insert("second", "two");
    assert_eq!(render("{{first}}, {{second}}, {{third}}!", &b), "one, two, {{third}}!");
    assert_eq!(render("{{first}}{{first}}", &b), "oneone");
}

#[test]
fn spaces_around_a_name_are_ignored() {
    let mut b = Bindings::new();
    b.insert("x", "v");
    assert_eq!(render("{{ x }}", &b), "v");
}

#[test]
fn later_binding_wins() {
    let mut b = Bindings::new();
    b.insert("x", "old");
    b.insert("y", "other");
    b.insert("x", "new");
    assert_eq!(b.get("x"), Some("new".to_string()));
    assert_eq!(b.get("y"), Some("other".to_string()));
    assert_eq!(b.get("z"), None);
    assert!(b.contains("x"));
    assert!(!b.contains("z"));
    assert_eq!(render("{{x}}-{{y}}", &b), "new-other");
}

#[test]
fn replacement_of_unbound_name_is_the_placeholder() {
    let mut b = Bindings::new();
    b.insert("gdb", "/tc/gdb.exe");
    assert_eq!(replacement(&b, "gdb"), "/tc/gdb.exe");
    assert_eq!(replacement(&b, "g++"), "{{g++}}");
    assert_eq!(replacement(&b, ""), "{{}}");
}

#[test]
fn rendering_the_bundle_twice_changes_nothing() {
    let b = substitution("hello", "/home/me/hello", "c++17", "/tc/g++.exe", "/tc/gdb.exe");
    for f in files() {
        let once = render(f.content, &b);
        assert!(!once.contains("{{"));
        assert_eq!(render(&once, &b), once);
    }
}

#[test]
fn bundle_has_five_files_under_the_root() {
    let paths: Vec<&str> = files().iter().map(|f| f.path).collect();
    assert_eq!(
        paths,
        vec![
            ".vscode/c_cpp_properties.json",
            ".vscode/launch.json",
            ".vscode/settings.json",
            ".vscode/tasks.json",
            "makefile",
        ]
    );
    for p in paths {
        assert!(!p.starts_with('/'));
        assert!(!p.split('/').any(|s| s == ".."));
    }
}

#[test]
fn settings_hold_no_placeholder() {
    let settings = files()[2].content;
    assert!(!settings.contains("{{"));
    assert_eq!(render(settings, &Bindings::new()), settings);
}
