use zapret_ui::lists::{
    check_preset, ensure_user_lists, get_zapret_lists, list_file_path, list_kinds,
    lists_from_contents, update_zapret_lists, ListKind, ZapretLists,
};
use zapret_ui::paths::{bin_dir, lists_dir};

#[test]
fn lists_and_bin_dirs_are_joined_under_the_base() {
    assert_eq!(lists_dir("/opt/zapret"), "/opt/zapret/lists");
    assert_eq!(bin_dir("/opt/zapret"), "/opt/zapret/bin");
    assert_eq!(lists_dir("/opt/zapret/"), "/opt/zapret/lists");
    assert_eq!(bin_dir(""), "bin");
}

#[test]
fn list_file_names_and_order() {
    let names: Vec<&str> = list_kinds().iter().map(|k| k.file_name()).collect();
    assert_eq!(
        names,
        vec![
            "list-general.txt",
            "list-general-user.txt",
            "list-exclude.txt",
            "list-exclude-user.txt",
            "ipset-all.txt",
            "ipset-exclude.txt",
            "ipset-exclude-user.txt",
        ]
    );
    for i in 0..names.len() {
        for j in (i + 1)..names.len() {
            assert_ne!(names[i], names[j]);
        }
    }
}

#[test]
fn list_file_path_joins_the_file_name() {
    assert_eq!(
        list_file_path("/tmp/zapret-lists", ListKind::IpsetAll),
        "/tmp/zapret-lists/ipset-all.txt"
    );
}

#[test]
fn new_and_default_lists_are_empty() {
    let a = ZapretLists::new();
    let b = ZapretLists::default();
    for k in list_kinds() {
        assert_eq!(a.content(k), "");
        assert_eq!(b.content(k), "");
    }
}

#[test]
fn set_content_changes_only_that_list() {
    let mut l = ZapretLists::new();
    l.set_content(ListKind::ListExclude, "example.org\n".to_string());
    assert_eq!(l.content(ListKind::ListExclude), "example.org\n");
    assert_eq!(l.list_exclude, "example.org\n");
    for k in list_kinds() {
        if k != ListKind::ListExclude {
            assert_eq!(l.content(k), "");
        }
    }
}

#[test]
fn get_after_update_returns_the_update() {
    let mut state = ZapretLists::new();
    state.set_content(ListKind::IpsetAll, "old".to_string());
    let mut written = ZapretLists::new();
    written.set_content(ListKind::ListGeneral, "youtube.com\r\n".to_string());
    written.set_content(ListKind::IpsetExcludeUser, "10.0.0.0/8".to_string());
    update_zapret_lists(&mut state, written);
    let read = get_zapret_lists(&state);
    assert_eq!(read.list_general, "youtube.com\r\n");
    assert_eq!(read.ipset_exclude_user, "10.0.0.0/8");
    assert_eq!(read.ipset_all, "");
    assert_eq!(read.list_exclude, "");
}

#[test]
fn lists_from_contents_follow_the_kind_order() {
    let contents: Vec<String> = (0..7).map(|i| format!("content {}", i)).collect();
    let l = lists_from_contents(contents);
    for (i, k) in list_kinds().into_iter().enumerate() {
        assert_eq!(l.content(k), format!("content {}", i));
    }
    assert_eq!(l.list_general, "content 0");
    assert_eq!(l.ipset_exclude_user, "content 6");
}

#[test]
fn user_lists_are_planned_with_their_defaults() {
    let plan = ensure_user_lists("/res/zapret");
    assert_eq!(plan.lists_dir, "/res/zapret/lists");
    assert_eq!(plan.files.len(), 3);
    assert_eq!(plan.files[0].kind, ListKind::IpsetExcludeUser);
    assert_eq!(plan.files[0].path, "/res/zapret/lists/ipset-exclude-user.txt");
    assert_eq!(plan.files[0].content, "203.0.113.113/32\r\n");
    assert_eq!(plan.files[1].kind, ListKind::ListGeneralUser);
    assert_eq!(plan.files[1].path, "/res/zapret/lists/list-general-user.txt");
    assert_eq!(plan.files[1].content, "domain.example.abc\r\n");
    assert_eq!(plan.files[2].kind, ListKind::ListExcludeUser);
    assert_eq!(plan.files[2].path, "/res/zapret/lists/list-exclude-user.txt");
    assert_eq!(plan.files[2].content, "domain.example.abc\r\n");
}

#[test]
fn only_the_original_preset_is_known() {
    assert_eq!(check_preset("original"), Ok(()));
    assert_eq!(check_preset("other"), Err("unknown preset: other".to_string()));
    assert_eq!(check_preset(""), Err("unknown preset: ".to_string()));
    assert_eq!(check_preset("Original"), Err("unknown preset: Original".to_string()));
}

#[test]
fn verbatim_looking_bases_are_joined_like_any_other_here() {
    // Outside Windows a `\\?\` prefix is ordinary text.
    if std::path::MAIN_SEPARATOR == '/' {
        assert_eq!(lists_dir("\\\\?\\C:\\Apps\\zapret"), "\\\\?\\C:\\Apps\\zapret/lists");
    }
}
