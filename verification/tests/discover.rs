use chp::discover::{
    find_cpp_files_in_dirs, find_cpp_files_in_dirs_helper, has_source_extension, Entry, Node,
};
use chp::error::ChpError;

fn file(name: &str) -> Entry {
    Entry { name: name.to_string(), node: Node::File }
}

fn dir(name: &str, children: Vec<Entry>) -> Entry {
    Entry { name: name.to_string(), node: Node::Dir(children) }
}

fn strings(items: &[&str]) -> Vec<String> {
    items.iter().map(|s| s.to_string()).collect()
}

#[test]
fn extension_must_be_cpp() {
    assert!(has_source_extension("main.cpp"));
    assert!(has_source_extension("a.cpp"));
    assert!(has_source_extension("a.b.cpp"));
    assert!(has_source_extension("..cpp"));
    assert!(has_source_extension("\u{e9}.cpp"));
    assert!(!has_source_extension(".cpp"));
    assert!(!has_source_extension("cpp"));
    assert!(!has_source_extension(""));
    assert!(!has_source_extension("main.c"));
    assert!(!has_source_extension("main.hpp"));
    assert!(!has_source_extension("main.cpp.txt"));
    assert!(!has_source_extension("main.cpp."));
    assert!(!has_source_extension("main.CPP"));
    assert!(!has_source_extension("maincpp"));
    assert!(!has_source_extension("main.cp"));
}

#[test]
fn no_configured_directories_means_no_search() {
    assert_eq!(find_cpp_files_in_dirs(&None, &Vec::new()), Ok(Vec::new()));
    assert_eq!(find_cpp_files_in_dirs(&Some(Vec::new()), &Vec::new()), Ok(Vec::new()));
    assert_eq!(
        find_cpp_files_in_dirs(&None, &vec![Node::Dir(vec![file("a.cpp")])]),
        Ok(Vec::new())
    );
}

#[test]
fn finds_the_single_source_of_a_small_project() {
    let snapshots = vec![Node::Dir(vec![file("main.cpp")])];
    assert_eq!(
        find_cpp_files_in_dirs(&Some(strings(&["src"])), &snapshots),
        Ok(strings(&["src/main.cpp"]))
    );
}

#[test]
fn finds_sources_at_every_depth_in_listing_order() {
    let snapshots = vec![
        Node::Dir(vec![
            file("b.cpp"),
            dir("deep", vec![file("x.cpp"), dir("deeper", vec![file("y.cpp"), file("y.h")])]),
            file("a.cpp"),
            file("README.md"),
            dir("empty", vec![]),
        ]),
        Node::Dir(vec![file("lib.cpp"), file("lib.hpp")]),
    ];
    assert_eq!(
        find_cpp_files_in_dirs(&Some(strings(&["src", "vendor/lib"])), &snapshots),
        Ok(strings(&[
            "src/b.cpp",
            "src/deep/x.cpp",
            "src/deep/deeper/y.cpp",
            "src/a.cpp",
            "vendor/lib/lib.cpp",
        ]))
    );
}

#[test]
fn returns_exactly_the_sources_and_nothing_else() {
    let mut children = Vec::new();
    let mut expected = Vec::new();
    for i in 0..7 {
        children.push(file(&format!("s{}.cpp", i)));
        expected.push(format!("code/s{}.cpp", i));
    }
    for i in 0..5 {
        children.push(file(&format!("o{}.txt", i)));
    }
    let mut nested = Vec::new();
    for i in 0..4 {
        nested.push(file(&format!("n{}.cpp", i)));
        nested.push(file(&format!("n{}.o", i)));
        expected.push(format!("code/sub/n{}.cpp", i));
    }
    children.push(dir("sub", nested));
    let found = find_cpp_files_in_dirs(&Some(strings(&["code"])), &vec![Node::Dir(children)]).unwrap();
    assert_eq!(found.len(), 11);
    assert_eq!(found, expected);
    for path in &found {
        assert!(path.starts_with("code/"));
        assert!(path.ends_with(".cpp"));
        assert!(!path.starts_with('/'));
    }
}

#[test]
fn a_directory_named_like_a_source_is_searched_but_not_returned() {
    let snapshots = vec![Node::Dir(vec![dir("gen.cpp", vec![file("inner.cpp")])])];
    assert_eq!(
        find_cpp_files_in_dirs(&Some(strings(&["src"])), &snapshots),
        Ok(strings(&["src/gen.cpp/inner.cpp"]))
    );
}

#[test]
fn snapshots_beyond_the_configured_directories_are_not_searched() {
    let snapshots = vec![Node::Dir(vec![file("in.cpp")]), Node::Dir(vec![file("out.cpp")])];
    assert_eq!(
        find_cpp_files_in_dirs(&Some(strings(&["src"])), &snapshots),
        Ok(strings(&["src/in.cpp"]))
    );
}

#[test]
fn a_missing_configured_directory_fails_the_walk() {
    let dirs = Some(strings(&["src", "gone"]));
    let snapshots = vec![Node::Dir(vec![file("a.cpp")]), Node::Unreadable];
    assert_eq!(find_cpp_files_in_dirs(&dirs, &snapshots), Err(ChpError::DirectoryWalkError));
    let short = vec![Node::Dir(vec![file("a.cpp")])];
    assert_eq!(find_cpp_files_in_dirs(&dirs, &short), Err(ChpError::DirectoryWalkError));
}

#[test]
fn a_configured_directory_that_is_a_file_fails_the_walk() {
    assert_eq!(
        find_cpp_files_in_dirs(&Some(strings(&["main.cpp"])), &vec![Node::File]),
        Err(ChpError::DirectoryWalkError)
    );
}

#[test]
fn an_unreadable_directory_anywhere_below_fails_the_walk() {
    let snapshots = vec![Node::Dir(vec![
        file("a.cpp"),
        dir("ok", vec![file("b.cpp")]),
        dir("deep", vec![dir("locked", vec![]), Entry { name: "no".to_string(), node: Node::Unreadable }]),
        file("c.cpp"),
    ])];
    assert_eq!(
        find_cpp_files_in_dirs(&Some(strings(&["src"])), &snapshots),
        Err(ChpError::DirectoryWalkError)
    );
}

#[test]
fn helper_appends_behind_what_is_already_there() {
    let mut found = strings(&["first.cpp"]);
    let entries = vec![file("x.cpp"), dir("d", vec![file("y.cpp")]), file("z.txt")];
    assert_eq!(find_cpp_files_in_dirs_helper(&mut found, "lib", &entries), Ok(()));
    assert_eq!(found, strings(&["first.cpp", "lib/x.cpp", "lib/d/y.cpp"]));
}

#[test]
fn helper_keeps_what_it_held_when_it_fails() {
    let mut found = strings(&["first.cpp"]);
    let entries = vec![
        file("x.cpp"),
        Entry { name: "bad".to_string(), node: Node::Unreadable },
        file("y.cpp"),
    ];
    assert_eq!(
        find_cpp_files_in_dirs_helper(&mut found, "lib", &entries),
        Err(ChpError::DirectoryWalkError)
    );
    assert_eq!(found[0], "first.cpp");
}

#[test]
fn a_file_below_two_configured_directories_is_returned_once() {
    let dirs = Some(strings(&["src", "src/sub"]));
    let snapshots = vec![
        Node::Dir(vec![dir("sub", vec![file("a.cpp")])]),
        Node::Dir(vec![file("a.cpp")]),
    ];
    assert_eq!(find_cpp_files_in_dirs(&dirs, &snapshots), Ok(strings(&["src/sub/a.cpp"])));
}

#[test]
fn a_directory_configured_twice_is_searched_as_one() {
    let dirs = Some(strings(&["src", "src"]));
    let listing = || Node::Dir(vec![file("b.cpp"), file("a.cpp"), file("b.h")]);
    assert_eq!(
        find_cpp_files_in_dirs(&dirs, &vec![listing(), listing()]),
        Ok(strings(&["src/b.cpp", "src/a.cpp"]))
    );
}

#[test]
fn a_repeated_file_keeps_the_place_where_it_was_first_found() {
    let dirs = Some(strings(&["src/sub", "src", "src/sub/deep"]));
    let snapshots = vec![
        Node::Dir(vec![file("a.cpp"), dir("deep", vec![file("d.cpp")])]),
        Node::Dir(vec![
            file("b.cpp"),
            dir("sub", vec![file("a.cpp"), dir("deep", vec![file("d.cpp")])]),
            file("c.cpp"),
        ]),
        Node::Dir(vec![file("d.cpp")]),
    ];
    let found = find_cpp_files_in_dirs(&dirs, &snapshots).unwrap();
    assert_eq!(
        found,
        strings(&["src/sub/a.cpp", "src/sub/deep/d.cpp", "src/b.cpp", "src/c.cpp"])
    );
    let mut sorted = found.clone();
    sorted.sort();
    sorted.dedup();
    assert_eq!(sorted.len(), found.len());
}

#[test]
fn overlapping_directories_still_fail_on_an_unreadable_one() {
    let dirs = Some(strings(&["src", "src/sub"]));
    let snapshots = vec![Node::Dir(vec![dir("sub", vec![file("a.cpp")])]), Node::Unreadable];
    assert_eq!(find_cpp_files_in_dirs(&dirs, &snapshots), Err(ChpError::DirectoryWalkError));
}
