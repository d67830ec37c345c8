use libvencord::fs_model::FsTree;

#[test]
fn written_files_read_back() {
    let mut tree = FsTree::new();
    assert!(!tree.has_file("/a"));
    tree.write_file("/a", vec![1, 2, 3]);
    assert!(tree.has_file("/a"));
    assert_eq!(tree.read_file("/a").unwrap(), &vec![1, 2, 3]);
    assert!(tree.read_file("/b").is_none());
}

#[test]
fn writing_twice_replaces_the_content() {
    let mut tree = FsTree::new();
    tree.write_file("/a", vec![1]);
    tree.write_file("/a", vec![2]);
    assert_eq!(tree.read_file("/a").unwrap(), &vec![2]);
}

#[test]
fn remove_reports_whether_the_file_existed() {
    let mut tree = FsTree::new();
    tree.write_file("/a", vec![1]);
    assert!(tree.remove_file("/a"));
    assert!(!tree.has_file("/a"));
    assert!(!tree.remove_file("/a"));
}

#[test]
fn rename_moves_the_content() {
    let mut tree = FsTree::new();
    tree.write_file("/a", vec![1]);
    assert!(tree.rename_file("/a", "/b"));
    assert!(!tree.has_file("/a"));
    assert_eq!(tree.read_file("/b").unwrap(), &vec![1]);
}

#[test]
fn rename_replaces_an_existing_destination() {
    let mut tree = FsTree::new();
    tree.write_file("/a", vec![1]);
    tree.write_file("/b", vec![2]);
    assert!(tree.rename_file("/a", "/b"));
    assert_eq!(tree.read_file("/b").unwrap(), &vec![1]);
}

#[test]
fn rename_of_a_missing_source_changes_nothing() {
    let mut tree = FsTree::new();
    tree.write_file("/b", vec![2]);
    assert!(!tree.rename_file("/a", "/b"));
    assert_eq!(tree.read_file("/b").unwrap(), &vec![2]);
}

#[test]
fn directories_keep_creation_order_without_duplicates() {
    let mut tree = FsTree::new();
    tree.mkdir("/x");
    tree.mkdir("/y");
    tree.mkdir("/x");
    assert!(tree.has_dir("/x"));
    assert!(tree.has_dir("/y"));
    assert!(!tree.has_dir("/z"));
    assert_eq!(tree.dir_count(), 2);
    assert_eq!(tree.dir_at(0), "/x");
    assert_eq!(tree.dir_at(1), "/y");
}

#[test]
fn files_and_directories_are_separate_namespaces() {
    let mut tree = FsTree::new();
    tree.mkdir("/x");
    assert!(!tree.has_file("/x"));
    tree.write_file("/y", vec![]);
    assert!(!tree.has_dir("/y"));
}
