use std::path::{Path, PathBuf};

use help_desk_bot::keys::{
    created_key, data_key, header_slot, likes_key, next_key, script_path, views_key, DATA_ENTRIES,
    FEEDBACK_PENDING, FEEDBACK_STREAM, KEY_HASHES, L10N_NONE,
};
use help_desk_bot::l10n::Lang;
use help_desk_bot::path::{components_count, parent_key};

const SAMPLES: [&str; 22] = [
    "", "/", "//", "/a", "/a/", "/a/b", "//a//b/", "a", "a/b", "a/b/", ".", "./", "./a", "./a/b",
    "/./a", "a/./b", "/a/../b", "..", "../a", "/a/.", ".a/b", "a.b/c",
];

#[test]
fn component_counts_agree_with_std_paths() {
    for s in SAMPLES {
        assert_eq!(components_count(s), Path::new(s).components().count(), "path {:?}", s);
    }
}

#[test]
fn parents_agree_with_std_paths() {
    for s in SAMPLES {
        let count = Path::new(s).components().count();
        if count == 0 {
            continue;
        }
        let expected = PathBuf::from_iter(Path::new(s).components().take(count - 1));
        assert_eq!(parent_key(s), expected.to_str().unwrap(), "path {:?}", s);
    }
}

#[test]
fn parents_of_grid_keys() {
    assert_eq!(parent_key("/a/b"), "/a");
    assert_eq!(parent_key("/a"), "/");
    assert_eq!(parent_key("/"), "");
    assert_eq!(components_count("/"), 1);
    assert_eq!(components_count("/a/b"), 3);
}

#[test]
fn parent_has_one_component_fewer() {
    for s in SAMPLES {
        let count = components_count(s);
        if count > 0 {
            assert_eq!(components_count(&parent_key(s)), count - 1, "path {:?}", s);
        }
    }
}

#[test]
fn store_entry_names() {
    assert_eq!(views_key("/a"), "{l10n:none}:/a:views");
    assert_eq!(created_key("/a"), "{l10n:none}:/a:created");
    assert_eq!(likes_key("/a"), "{l10n:none}:/a:likes");
    assert_eq!(next_key("/a", Lang::Ru), "{l10n:ru}:/a:next");
    assert_eq!(data_key("/a/b", Lang::Ru), "{l10n:ru}:/a/b:data");
    assert_eq!(header_slot(Lang::Ru), "l10n:ru");
    assert_eq!(FEEDBACK_PENDING, "feedback:pending");
    assert_eq!(FEEDBACK_STREAM, "feedback:stream");
    assert_eq!(DATA_ENTRIES, "data_entries");
    assert_eq!(KEY_HASHES, "key_hashes");
    assert_eq!(L10N_NONE, "l10n:none");
}

#[test]
fn store_entry_names_differ_by_key() {
    assert_ne!(views_key("/a"), views_key("/a/"));
    assert_ne!(next_key("/a", Lang::Ru), next_key("/b", Lang::Ru));
}

#[test]
fn script_paths_agree_with_std_paths() {
    for dir in ["scripts", "scripts/", "/etc/bot", ""] {
        let mut expected = PathBuf::from(dir);
        expected.push("toggle_like.lua");
        assert_eq!(script_path(dir, "toggle_like"), expected.to_str().unwrap());
    }
}
