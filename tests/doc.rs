use gluon_doc::{
    generate, is_documentable, module_json, module_name, output_path, plan_entry, record, Decl,
    Field, Metadata, ModuleType, Record, MODULE_TEMPLATE,
};

fn decl(name: &str, typ: &str) -> Decl {
    Decl { name: name.to_string(), typ: typ.to_string() }
}

fn meta(entries: &[(&str, Option<&str>)]) -> Metadata {
    Metadata {
        comment: None,
        module: entries
            .iter()
            .map(|(n, c)| {
                (n.to_string(), Metadata { comment: c.map(|c| c.to_string()), module: Vec::new() })
            })
            .collect(),
    }
}

fn field(name: &str, typ: &str, comment: &str) -> Field {
    Field { name: name.to_string(), typ: typ.to_string(), comment: comment.to_string() }
}

#[test]
fn record_is_deterministic() {
    let t = ModuleType {
        type_fields: vec![decl("Option", "Option a")],
        row: vec![decl("map", "(a -> b) -> Option a -> Option b")],
    };
    let m = meta(&[("map", Some("maps the value"))]);
    let m2 = meta(&[("map", Some("maps the value"))]);
    assert_eq!(record(&t, &m), record(&t.clone(), &m2));
}

#[test]
fn record_keeps_declaration_and_row_order() {
    let t = ModuleType {
        type_fields: vec![decl("Zeta", "Zeta"), decl("Alpha", "Alpha"), decl("Mid", "Mid")],
        row: vec![decl("z", "Int"), decl("a", "String"), decl("a", "Float")],
    };
    let r = record(&t, &meta(&[]));
    let names: Vec<&str> = r.types.iter().map(|f| f.name.as_str()).collect();
    assert_eq!(names, vec!["Zeta", "Alpha", "Mid"]);
    let values: Vec<(&str, &str)> = r.values.iter().map(|f| (f.name.as_str(), f.typ.as_str())).collect();
    assert_eq!(values, vec![("z", "Int"), ("a", "String"), ("a", "Float")]);
}

#[test]
fn record_comment_empty_when_absent() {
    let t = ModuleType {
        type_fields: vec![decl("A", "A"), decl("B", "B")],
        row: vec![decl("c", "Int"), decl("d", "Int")],
    };
    let m = meta(&[("A", Some("an a")), ("B", None), ("c", Some("a c"))]);
    let r = record(&t, &m);
    assert_eq!(r.types, vec![field("A", "A", "an a"), field("B", "B", "")]);
    assert_eq!(r.values, vec![field("c", "Int", "a c"), field("d", "Int", "")]);
}

#[test]
fn record_takes_first_metadata_entry_of_a_name() {
    let t = ModuleType { type_fields: vec![], row: vec![decl("x", "Int")] };
    let m = meta(&[("x", Some("first")), ("x", Some("second"))]);
    assert_eq!(record(&t, &m).values, vec![field("x", "Int", "first")]);
}

#[test]
fn empty_type_gives_empty_record_and_page_with_name() {
    let t = ModuleType { type_fields: vec![], row: vec![] };
    let r = record(&t, &meta(&[]));
    assert_eq!(r, Record { types: vec![], values: vec![] });
    let text = generate("std.empty", &t, &meta(&[])).unwrap();
    assert!(!text.is_empty());
    assert!(text.contains("std.empty"));
}

#[test]
fn scenario_single_type_and_value() {
    let target = plan_entry("out", "a/b.glu", true).unwrap();
    assert_eq!(target.output, "out/a/b.html");
    assert_eq!(target.module_name, "a.b");
    let t = ModuleType { type_fields: vec![decl("Foo", "Foo")], row: vec![decl("bar", "Int")] };
    let m = meta(&[("Foo", Some("the foo"))]);
    let text = generate(&target.module_name, &t, &m).unwrap();
    assert!(text.contains("Foo"));
    assert!(text.contains("the foo"));
    assert!(text.contains("bar"));
    assert!(text.contains("Int"));
    assert!(text.contains("a.b"));
}

#[test]
fn scenario_only_source_files_planned() {
    let entries = [
        ("a.glu", true),
        ("lib/b.glu", true),
        ("lib/deep/c.glu", true),
        ("README.md", true),
        ("lib/notes.txt", true),
        ("lib", false),
    ];
    let outputs: Vec<String> = entries
        .iter()
        .filter_map(|(p, f)| plan_entry("docs", p, *f))
        .map(|t| t.output)
        .collect();
    assert_eq!(outputs, vec!["docs/a.html", "docs/lib/b.html", "docs/lib/deep/c.html"]);
}

#[test]
fn scenario_same_name_type_and_value() {
    let t = ModuleType {
        type_fields: vec![decl("Size", "Int")],
        row: vec![decl("Size", "std.int.Int")],
    };
    let r = record(&t, &meta(&[("Size", Some("a size"))]));
    assert_eq!(r.types, vec![field("Size", "Int", "a size")]);
    assert_eq!(r.values, vec![field("Size", "std.int.Int", "a size")]);
}

#[test]
fn documentable_files() {
    assert!(is_documentable("a.glu", true));
    assert!(is_documentable("x/y/z.glu", true));
    assert!(!is_documentable("a.glu", false));
    assert!(!is_documentable(".glu", true));
    assert!(!is_documentable("dir/.glu", true));
    assert!(!is_documentable("a.rs", true));
    assert!(!is_documentable("a.gluon", true));
    assert!(!is_documentable("", true));
}

#[test]
fn module_names() {
    assert_eq!(module_name("std/map.glu"), "std.map");
    assert_eq!(module_name("a\\b\\c.glu"), "a.b.c");
    assert_eq!(module_name("prelude.glu"), "prelude");
    assert_eq!(module_name("notes.txt"), "notes.txt");
}

#[test]
fn output_paths() {
    assert_eq!(output_path("out", "a/b.glu"), "out/a/b.html");
    assert_eq!(output_path("out/", "a/b.glu"), "out/a/b.html");
    assert_eq!(output_path("", "b.glu"), "b.html");
    assert!(plan_entry("out", "a/b.txt", true).is_none());
}

#[test]
fn json_of_module() {
    let t = ModuleType { type_fields: vec![decl("T", "T a")], row: vec![decl("x", "Int"), decl("y", "T Int")] };
    let m = gluon_doc::Module { name: "m".to_string(), record: record(&t, &meta(&[("x", Some("an x"))])) };
    assert_eq!(
        module_json(&m),
        "{\"name\":\"m\",\"record\":{\"types\":[{\"name\":\"T\",\"type\":\"T a\",\"comment\":\"\"}],\
         \"values\":[{\"name\":\"x\",\"type\":\"Int\",\"comment\":\"an x\"},\
         {\"name\":\"y\",\"type\":\"T Int\",\"comment\":\"\"}]}}"
    );
}

#[test]
fn json_escapes_strings() {
    let m = gluon_doc::Module {
        name: "q\"b\\n\nt\tc\u{1}".to_string(),
        record: Record { types: vec![], values: vec![] },
    };
    assert_eq!(
        module_json(&m),
        "{\"name\":\"q\\\"b\\\\n\\nt\\tc\\u0001\",\"record\":{\"types\":[],\"values\":[]}}"
    );
}

#[test]
fn rendered_page_fills_template() {
    let t = ModuleType { type_fields: vec![], row: vec![decl("lt", "a -> b")] };
    let text = generate("m", &t, &meta(&[("lt", Some("x < y"))])).unwrap();
    assert!(text.starts_with("<!DOCTYPE html>"));
    assert!(!text.contains("{{"));
    assert!(text.contains("<h3 class=\"name\">lt</h3>"));
    assert!(text.contains("x &lt; y"));
    assert!(text.contains("a -&gt; b"));
    assert!(MODULE_TEMPLATE.contains("{{#each record.values}}"));
}
