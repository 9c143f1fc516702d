use determinishtic::registry::{ToolEntry, ToolRegistry};

#[test]
fn a_new_registry_is_empty() {
    let registry = ToolRegistry::new();
    assert_eq!(registry.len(), 0);
    assert!(registry.entries().is_empty());
    assert!(!registry.contains("anything"));
    assert_eq!(registry.find(""), None);
}

#[test]
fn entries_keep_name_and_description() {
    let entry = ToolEntry::new("fetch", "Fetch a page");
    assert_eq!(entry.name, "fetch");
    assert_eq!(entry.description, "Fetch a page");
}

#[test]
fn new_names_go_behind_the_others() {
    let mut registry = ToolRegistry::new();
    registry.register(ToolEntry::new("a", "first"));
    registry.register(ToolEntry::new("b", "second"));
    registry.register(ToolEntry::new("c", "third"));
    let names: Vec<&str> = registry.entries().iter().map(|e| e.name.as_str()).collect();
    assert_eq!(names, vec!["a", "b", "c"]);
    assert_eq!(registry.find("b"), Some(1));
    assert!(registry.contains("c"));
}

#[test]
fn a_known_name_is_refused() {
    let mut registry = ToolRegistry::new();
    assert!(registry.register(ToolEntry::new("a", "first")));
    assert!(registry.register(ToolEntry::new("b", "second")));
    assert!(!registry.register(ToolEntry::new("a", "again")));
    assert_eq!(registry.len(), 2);
    assert_eq!(registry.entries()[0].name, "a");
    assert_eq!(registry.entries()[0].description, "first");
    assert_eq!(registry.entries()[1].description, "second");
    assert_eq!(registry.description_of("a"), Some(&"first".to_string()));
}

#[test]
fn names_are_compared_exactly() {
    let mut registry = ToolRegistry::new();
    registry.register(ToolEntry::new("Tool", "x"));
    registry.register(ToolEntry::new("tool", "y"));
    registry.register(ToolEntry::new("tool ", "z"));
    assert_eq!(registry.len(), 3);
    assert_eq!(registry.description_of("tool"), Some(&"y".to_string()));
    assert_eq!(registry.description_of("TOOL"), None);
}
