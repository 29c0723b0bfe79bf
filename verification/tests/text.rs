use chp::text::{
    append_texts, contains_text, copy_texts, distinct_texts, join_path, same_text,
};

#[test]
fn join_path_puts_one_slash_between() {
    assert_eq!(join_path("src", "main.cpp"), "src/main.cpp");
    assert_eq!(join_path("", "a"), "/a");
    assert_eq!(join_path("a/b", ""), "a/b/");
}

#[test]
fn same_text_compares_characters() {
    assert!(same_text(&"chp.toml".to_string(), "chp.toml"));
    assert!(!same_text(&"chp.toml".to_string(), "chp.tom"));
    assert!(same_text(&String::new(), ""));
}

#[test]
fn copy_and_append_keep_order() {
    let items = vec!["b".to_string(), "a".to_string(), "b".to_string()];
    assert_eq!(copy_texts(&items), items);
    let mut out = vec!["x".to_string()];
    append_texts(&mut out, &items);
    assert_eq!(out, vec!["x", "b", "a", "b"]);
    append_texts(&mut out, &Vec::new());
    assert_eq!(out.len(), 4);
}

#[test]
fn contains_text_looks_for_the_exact_text() {
    let items = vec!["a".to_string(), "b".to_string()];
    assert!(contains_text(&items, &"b".to_string()));
    assert!(!contains_text(&items, &"B".to_string()));
    assert!(!contains_text(&items, &"".to_string()));
    assert!(!contains_text(&Vec::new(), &"a".to_string()));
}

#[test]
fn distinct_texts_keeps_first_occurrences_in_order() {
    let items: Vec<String> =
        ["b", "a", "b", "c", "a", "a", "d"].iter().map(|s| s.to_string()).collect();
    assert_eq!(distinct_texts(&items), vec!["b", "a", "c", "d"]);
    assert_eq!(distinct_texts(&Vec::new()), Vec::<String>::new());
    let plain: Vec<String> = ["x", "y"].iter().map(|s| s.to_string()).collect();
    assert_eq!(distinct_texts(&plain), plain);
}
