use openpresenter::library::{
    contains_chars, is_listed_under, mark_used, media_type_of, remove_id, Asset, LibraryState,
    MediaType, RECENT_LIMIT,
};

fn ids(v: &[&str]) -> Vec<String> {
    v.iter().map(|s| s.to_string()).collect()
}

#[test]
fn media_types_by_extension() {
    assert_eq!(media_type_of("/media/song.MP4"), MediaType::Video);
    assert_eq!(media_type_of("clip.webm"), MediaType::Video);
    assert_eq!(media_type_of("photo.JPeG"), MediaType::Image);
    assert_eq!(media_type_of("photo.png"), MediaType::Image);
    assert_eq!(media_type_of("notes.txt"), MediaType::Image);
    assert_eq!(media_type_of("no_extension"), MediaType::Image);
    assert_eq!(media_type_of(".mov"), MediaType::Image);
}

#[test]
fn used_asset_moves_to_front() {
    let mut recent = ids(&["a", "b", "c"]);
    mark_used(&mut recent, "c".to_string());
    assert_eq!(recent, ids(&["c", "a", "b"]));
    mark_used(&mut recent, "d".to_string());
    assert_eq!(recent, ids(&["d", "c", "a", "b"]));
}

#[test]
fn recent_list_keeps_six() {
    let mut recent = ids(&["1", "2", "3", "4", "5", "6"]);
    mark_used(&mut recent, "7".to_string());
    assert_eq!(RECENT_LIMIT, 6);
    assert_eq!(recent, ids(&["7", "1", "2", "3", "4", "5"]));
    mark_used(&mut recent, "3".to_string());
    assert_eq!(recent, ids(&["3", "7", "1", "2", "4", "5"]));
}

#[test]
fn removing_drops_every_copy() {
    let mut v = ids(&["a", "b", "a", "c"]);
    remove_id(&mut v, &"a".to_string());
    assert_eq!(v, ids(&["b", "c"]));
    remove_id(&mut v, &"z".to_string());
    assert_eq!(v, ids(&["b", "c"]));
}

fn asset(id: &str, name: &str) -> Asset {
    Asset {
        id: id.to_string(),
        name: name.to_string(),
        path: format!("/media/{name}.png"),
        media_type: MediaType::Image,
    }
}

fn library() -> LibraryState {
    let mut l = LibraryState::new();
    l.assets = vec![asset("1", "Sunrise"), asset("2", "Cross"), asset("3", "sunset beach")];
    l
}

#[test]
fn search_is_case_insensitive_substring() {
    let l = library();
    assert_eq!(l.listed(""), vec![0, 1, 2]);
    assert_eq!(l.listed("SUN"), vec![0, 2]);
    assert_eq!(l.listed("ross"), vec![1]);
    assert_eq!(l.listed("t b"), vec![2]);
    assert_eq!(l.listed("moon"), Vec::<usize>::new());
    assert!(is_listed_under("Anything", ""));
    assert!(!is_listed_under("", "a"));
}

#[test]
fn substring_search() {
    let s: Vec<char> = "abcabd".chars().collect();
    let t: Vec<char> = "abd".chars().collect();
    let u: Vec<char> = "abe".chars().collect();
    assert!(contains_chars(&s, &t));
    assert!(!contains_chars(&s, &u));
    assert!(contains_chars(&s, &[]));
    assert!(!contains_chars(&t, &s));
}

#[test]
fn recent_assets_still_in_library() {
    let mut l = library();
    l.applied("3".to_string());
    l.applied("gone".to_string());
    l.applied("1".to_string());
    assert_eq!(l.recently_used_ids, ids(&["1", "gone", "3"]));
    assert_eq!(l.recent(), vec![0, 2]);
}

#[test]
fn selecting_toggles() {
    let mut l = library();
    l.select_asset("2".to_string());
    assert_eq!(l.selected_id.as_deref(), Some("2"));
    l.select_asset("3".to_string());
    assert_eq!(l.selected_id.as_deref(), Some("3"));
    l.select_asset("3".to_string());
    assert_eq!(l.selected_id, None);
}

#[test]
fn deleting_an_asset_forgets_it() {
    let mut l = library();
    l.applied("2".to_string());
    l.applied("1".to_string());
    l.select_asset("2".to_string());
    l.asset_deleted(&"2".to_string());
    let left: Vec<&str> = l.assets.iter().map(|a| a.id.as_str()).collect();
    assert_eq!(left, vec!["1", "3"]);
    assert_eq!(l.recently_used_ids, ids(&["1"]));
    assert_eq!(l.selected_id, None);
    l.select_asset("3".to_string());
    l.asset_deleted(&"1".to_string());
    assert_eq!(l.selected_id.as_deref(), Some("3"));
    assert_eq!(l.recent(), Vec::<usize>::new());
}
