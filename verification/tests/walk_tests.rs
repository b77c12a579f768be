use drakermore::walk::{walk_files, FsEntry};

fn file(name: &str) -> FsEntry {
    FsEntry::File { name: name.to_string() }
}

fn dir(name: &str, entries: Vec<FsEntry>) -> FsEntry {
    FsEntry::Dir { name: name.to_string(), entries }
}

fn tree() -> Vec<FsEntry> {
    vec![
        file("a.jar"),
        file("b.jar"),
        dir(
            "sub",
            vec![file("c.jar"), dir("nested", vec![file("d.jar")]), file("e.txt")],
        ),
        dir("empty", Vec::new()),
    ]
}

#[test]
fn non_recursive_walk_yields_direct_children_only() {
    let paths = walk_files(&tree(), false);
    assert_eq!(paths, vec!["a.jar".to_string(), "b.jar".to_string()]);
}

#[test]
fn recursive_walk_yields_every_file_once() {
    let paths = walk_files(&tree(), true);
    assert_eq!(
        paths,
        vec![
            "a.jar".to_string(),
            "b.jar".to_string(),
            "sub/c.jar".to_string(),
            "sub/nested/d.jar".to_string(),
            "sub/e.txt".to_string(),
        ]
    );
    for i in 0..paths.len() {
        for j in 0..i {
            assert_ne!(paths[i], paths[j]);
        }
    }
}

#[test]
fn walk_of_empty_listing_is_empty() {
    let paths = walk_files(&Vec::new(), true);
    assert!(paths.is_empty());
}

#[test]
fn directories_are_never_yielded() {
    let paths = walk_files(&tree(), true);
    assert!(!paths.contains(&"sub".to_string()));
    assert!(!paths.contains(&"empty".to_string()));
    assert!(!paths.contains(&"sub/nested".to_string()));
}
