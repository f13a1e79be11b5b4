use openpresenter::songs::{next_verse_label, song_slides, Song, SongState, Verse};

fn labels(st: &SongState) -> Vec<String> {
    st.editing.as_ref().unwrap().verses.iter().map(|v| v.label.clone()).collect()
}

fn order(st: &SongState) -> Vec<usize> {
    st.editing.as_ref().unwrap().verses.iter().map(|v| v.order_index).collect()
}

fn new_state() -> SongState {
    let mut st = SongState::new();
    st.new_song("song-1".to_string());
    st
}

#[test]
fn verse_labels_follow_song_form() {
    assert_eq!(next_verse_label(0), "Verse 1");
    assert_eq!(next_verse_label(1), "Chorus 1");
    assert_eq!(next_verse_label(2), "Verse 2");
    assert_eq!(next_verse_label(3), "Chorus 2");
    assert_eq!(next_verse_label(4), "Bridge");
    assert_eq!(next_verse_label(5), "Verse 5");
    assert_eq!(next_verse_label(12), "Verse 12");
}

#[test]
fn new_song_is_titled() {
    let st = new_state();
    assert_eq!(st.edit_title, "New Song");
    assert_eq!(st.editing.as_ref().unwrap().id, "song-1");
}

#[test]
fn add_move_delete_verses_renumber() {
    let mut st = new_state();
    st.add_verse();
    st.add_verse();
    st.add_verse();
    assert_eq!(labels(&st), vec!["Verse 1", "Chorus 1", "Verse 2"]);
    assert_eq!(order(&st), vec![0, 1, 2]);
    st.move_verse_up(2);
    assert_eq!(labels(&st), vec!["Verse 1", "Verse 2", "Chorus 1"]);
    assert_eq!(order(&st), vec![0, 1, 2]);
    st.move_verse_down(0);
    assert_eq!(labels(&st), vec!["Verse 2", "Verse 1", "Chorus 1"]);
    st.move_verse_down(2);
    assert_eq!(labels(&st), vec!["Verse 2", "Verse 1", "Chorus 1"]);
    st.delete_verse(0);
    assert_eq!(labels(&st), vec!["Verse 1", "Chorus 1"]);
    assert_eq!(order(&st), vec![0, 1]);
    st.delete_verse(5);
    assert_eq!(labels(&st), vec!["Verse 1", "Chorus 1"]);
}

#[test]
fn song_to_save_trims_details_and_reads_tempo() {
    let mut st = new_state();
    st.add_verse();
    st.add_verse();
    st.editing.as_mut().unwrap().verses[0].order_index = 9;
    st.edit_title = " Amazing Grace ".into();
    st.edit_artist = "  John Newton ".into();
    st.edit_copyright = "   ".into();
    st.edit_bpm = " 72 ".into();
    st.edit_key = "G".into();
    let s = st.song_to_save().unwrap();
    assert_eq!(s.id, "song-1");
    assert_eq!(s.title, " Amazing Grace ");
    assert_eq!(s.artist.as_deref(), Some("John Newton"));
    assert_eq!(s.copyright, None);
    assert_eq!(s.key_signature.as_deref(), Some("G"));
    assert_eq!(s.bpm, Some(72));
    let order: Vec<usize> = s.verses.iter().map(|v| v.order_index).collect();
    assert_eq!(order, vec![0, 1]);
    assert_eq!(s.verses[1].label, "Chorus 1");
    // Nothing is committed before the store succeeds.
    assert_eq!(st.editing.as_ref().unwrap().title, "New Song");
    assert_eq!(st.editing.as_ref().unwrap().verses[0].order_index, 9);
    st.song_saved(s);
    assert_eq!(st.editing.as_ref().unwrap().title, " Amazing Grace ");
    st.edit_bpm = "fast".into();
    assert_eq!(st.song_to_save().unwrap().bpm, None);
    assert!(SongState::new().song_to_save().is_none());
}

#[test]
fn load_song_fills_fields() {
    let mut st = SongState::new();
    let song = Song {
        id: "s".into(),
        title: "T".into(),
        artist: None,
        copyright: Some("c".into()),
        ccli_number: None,
        key_signature: None,
        bpm: Some(128),
        verses: vec![],
    };
    st.load_song_for_editing(song);
    assert_eq!(st.edit_artist, "");
    assert_eq!(st.edit_copyright, "c");
    assert_eq!(st.edit_bpm, "128");
}

#[test]
fn song_becomes_faded_slides() {
    let song = Song {
        id: "s".into(),
        title: "T".into(),
        artist: None,
        copyright: None,
        ccli_number: None,
        key_signature: None,
        bpm: None,
        verses: vec![
            Verse { label: "Verse 1".into(), content: "line a".into(), order_index: 0 },
            Verse { label: "Chorus 1".into(), content: "line b".into(), order_index: 1 },
        ],
    };
    let slides = song_slides(&song);
    assert_eq!(slides.len(), 2);
    assert_eq!(slides[1].group.as_deref(), Some("Chorus 1"));
    assert_eq!(slides[0].transition, openpresenter::domain::Transition::Fade { duration_ms: 500 });
    match &slides[0].content {
        openpresenter::domain::SlideContent::Text { text } => assert_eq!(text, "line a"),
        _ => panic!("not text"),
    }
    assert_eq!(slides[0].id.len(), 36);
    assert_ne!(slides[0].id, slides[1].id);
}

#[test]
fn deleting_open_song_closes_it() {
    let mut st = new_state();
    st.song_deleted(&"other".to_string());
    assert!(st.editing.is_some());
    st.song_deleted(&"song-1".to_string());
    assert!(st.editing.is_none());
}

#[test]
fn verse_text_and_labels_change_in_place() {
    let mut st = new_state();
    st.add_verse();
    st.add_verse();
    st.verse_content_changed(1, "Amazing grace".to_string());
    st.verse_label_changed(0, "Intro".to_string());
    st.verse_content_changed(7, "ignored".to_string());
    st.verse_label_changed(7, "ignored".to_string());
    let song = st.editing.as_ref().unwrap();
    assert_eq!(song.verses[1].content, "Amazing grace");
    assert_eq!(song.verses[0].label, "Intro");
    assert_eq!(labels(&st), vec!["Intro", "Chorus 1"]);
    assert_eq!(order(&st), vec![0, 1]);
}

#[test]
fn new_song_clears_the_previous_fields() {
    let mut st = new_state();
    st.edit_artist = "A".into();
    st.edit_copyright = "C".into();
    st.edit_ccli = "1".into();
    st.edit_key = "G".into();
    st.edit_bpm = "90".into();
    st.new_song("song-2".to_string());
    assert_eq!(st.edit_title, "New Song");
    assert_eq!((st.edit_artist.as_str(), st.edit_copyright.as_str(), st.edit_ccli.as_str(), st.edit_key.as_str(), st.edit_bpm.as_str()), ("", "", "", "", ""));
    st.edit_artist = "typed".into();
    st.add_verse();
    st.move_verse_down(0);
    assert_eq!(st.edit_artist, "typed");
    assert_eq!(st.editing.as_ref().unwrap().title, "New Song");
}
