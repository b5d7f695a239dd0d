use dir_lister::FileItem;
use dir_lister::RawEntry;
use dir_lister::build_listing;
use dir_lister::describe_entry;
use dir_lister::list_directory_from_read;

fn raw(name: Option<&str>, path: Option<&str>, is_dir: bool) -> RawEntry {
    RawEntry {
        name: name.map(|n| n.to_string()),
        path: path.map(|p| p.to_string()),
        is_dir,
    }
}

fn contents(items: &[FileItem]) -> Vec<(String, String, bool)> {
    let mut v: Vec<(String, String, bool)> = items
        .iter()
        .map(|it| (it.name.clone(), it.path.clone(), it.is_dir))
        .collect();
    v.sort();
    v
}

#[test]
fn empty_directory_lists_empty() {
    let r = list_directory_from_read(Ok(Vec::new()));
    assert_eq!(r, Ok(Vec::new()));
}

#[test]
fn failed_read_passes_error_through() {
    let msg = "No such file or directory (os error 2)".to_string();
    let r = list_directory_from_read(Err(msg.clone()));
    assert_eq!(r, Err(msg));
}

#[test]
fn counts_files_and_directories() {
    let entries = vec![
        raw(Some("a.txt"), Some("/d/a.txt"), false),
        raw(Some("sub"), Some("/d/sub"), true),
        raw(Some("b.txt"), Some("/d/b.txt"), false),
    ];
    let items = build_listing(&entries);
    assert_eq!(items.len(), 3);
    assert_eq!(items.iter().filter(|it| it.is_dir).count(), 1);
}

#[test]
fn child_name_and_path() {
    let entries = vec![raw(Some("a.txt"), Some("/d/a.txt"), false)];
    let items = build_listing(&entries);
    assert_eq!(items.len(), 1);
    assert_eq!(items[0].name, "a.txt");
    assert!(items[0].path.ends_with("a.txt"));
    assert!(!items[0].is_dir);
}

#[test]
fn undecodable_texts_default_to_empty() {
    let item = describe_entry(&raw(None, None, true));
    assert_eq!(item.name, "");
    assert_eq!(item.path, "");
    assert!(item.is_dir);
}

#[test]
fn listing_is_idempotent_up_to_order() {
    let first = vec![
        raw(Some("a.txt"), Some("/d/a.txt"), false),
        raw(Some("sub"), Some("/d/sub"), true),
        raw(Some("b.txt"), Some("/d/b.txt"), false),
    ];
    let second = vec![
        raw(Some("b.txt"), Some("/d/b.txt"), false),
        raw(Some("a.txt"), Some("/d/a.txt"), false),
        raw(Some("sub"), Some("/d/sub"), true),
    ];
    let items1 = build_listing(&first);
    let items2 = build_listing(&second);
    assert_eq!(items1.len(), items2.len());
    assert_eq!(contents(&items1), contents(&items2));
}
