use cloud_files::models::Folder;
use cloud_files::utils::{get_folder_and_files, get_folder_obj, Listed, Listing};

fn entry(name: &str, below: Listing) -> Listed {
    Listed { name: Some(name.to_string()), below }
}

fn node(name: &str, folders: Vec<Folder>) -> Folder {
    Folder { name: name.to_string(), folders }
}

#[test]
fn an_empty_directory_gives_a_root_without_children() {
    let tree = get_folder_and_files(&Listing::Entries(vec![]));
    assert_eq!(tree, node("", vec![]));
    assert_eq!(tree.folders.len(), 0);
}

#[test]
fn an_unreadable_directory_gives_a_root_without_children() {
    assert_eq!(get_folder_and_files(&Listing::Unreadable), node("", vec![]));
}

#[test]
fn one_file_and_one_subdirectory_with_one_file() {
    let listing = Listing::Entries(vec![
        entry("a.txt", Listing::Unreadable),
        entry("docs", Listing::Entries(vec![entry("b.txt", Listing::Unreadable)])),
    ]);
    let tree = get_folder_and_files(&listing);
    assert_eq!(tree.name, "");
    assert_eq!(tree.folders.len(), 2);
    assert_eq!(tree.folders[0], node("a.txt", vec![]));
    assert_eq!(tree.folders[1].name, "docs");
    assert_eq!(tree.folders[1].folders, vec![node("b.txt", vec![])]);
    assert_eq!(tree.folders[1].folders[0].folders.len(), 0);
}

#[test]
fn a_name_with_a_full_stop_is_a_leaf_whatever_is_below_it() {
    let listing = Listing::Entries(vec![entry(
        "v1.2",
        Listing::Entries(vec![entry("inner", Listing::Entries(vec![]))]),
    )]);
    assert_eq!(get_folder_and_files(&listing), node("", vec![node("v1.2", vec![])]));
}

#[test]
fn a_name_without_a_full_stop_that_cannot_be_listed_has_no_children() {
    let listing = Listing::Entries(vec![entry("README", Listing::Unreadable)]);
    assert_eq!(get_folder_and_files(&listing), node("", vec![node("README", vec![])]));
}

#[test]
fn an_entry_that_could_not_be_read_is_left_out() {
    let listing = Listing::Entries(vec![
        entry("a", Listing::Entries(vec![])),
        Listed { name: None, below: Listing::Entries(vec![entry("x", Listing::Unreadable)]) },
        entry("b", Listing::Entries(vec![Listed { name: None, below: Listing::Unreadable }])),
    ]);
    assert_eq!(
        get_folder_and_files(&listing),
        node("", vec![node("a", vec![]), node("b", vec![])])
    );
}

#[test]
fn the_order_of_the_listing_is_kept_at_every_level() {
    let listing = Listing::Entries(vec![
        entry("z", Listing::Entries(vec![
            entry("2", Listing::Entries(vec![])),
            entry("1", Listing::Entries(vec![entry("deep", Listing::Entries(vec![]))])),
        ])),
        entry("a", Listing::Entries(vec![])),
    ]);
    assert_eq!(
        get_folder_and_files(&listing),
        node(
            "",
            vec![
                node("z", vec![node("2", vec![]), node("1", vec![node("deep", vec![])])]),
                node("a", vec![]),
            ]
        )
    );
}

#[test]
fn get_folder_obj_hangs_the_nodes_behind_those_that_are_there() {
    let mut obj = node("top", vec![node("old", vec![node("kept", vec![])])]);
    get_folder_obj(&Listing::Entries(vec![entry("new", Listing::Entries(vec![]))]), &mut obj);
    assert_eq!(
        obj,
        node("top", vec![node("old", vec![node("kept", vec![])]), node("new", vec![])])
    );
    get_folder_obj(&Listing::Unreadable, &mut obj);
    assert_eq!(obj.folders.len(), 2);
}
