use upg_desktop::files::{list_files_recursive, DirEntry};

fn s(v: &str) -> String {
    v.to_string()
}

#[test]
fn nested_listing_uses_forward_slashes() {
    let tree = vec![
        DirEntry::File(s("README.md")),
        DirEntry::Dir(s("src"), vec![DirEntry::File(s("main.rs")), DirEntry::Dir(s("bin"), vec![DirEntry::File(s("tool.rs"))])]),
        DirEntry::Dir(s("empty"), vec![]),
        DirEntry::File(s("Cargo.toml")),
    ];
    assert_eq!(
        list_files_recursive(&tree),
        vec![s("README.md"), s("src/main.rs"), s("src/bin/tool.rs"), s("Cargo.toml")]
    );
}

#[test]
fn empty_listing() {
    assert!(list_files_recursive(&vec![]).is_empty());
}
