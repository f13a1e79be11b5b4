use openpresenter::props::{
    image_prop_name, look_name, new_image_prop, new_text_prop, text_prop_name, track_name,
};

#[test]
fn text_prop_names() {
    assert_eq!(text_prop_name("  Lower third "), "Lower third");
    assert_eq!(text_prop_name("   "), "New Text Prop");
    assert_eq!(text_prop_name(""), "New Text Prop");
}

#[test]
fn image_prop_names() {
    assert_eq!(image_prop_name("Logo", "/img/church.png"), "Logo");
    assert_eq!(image_prop_name(" ", "/img/church.png"), "church");
    assert_eq!(image_prop_name("", "/img/archive.tar.gz"), "archive.tar");
    assert_eq!(image_prop_name("", "/"), "Image");
}

#[test]
fn look_names() {
    assert_eq!(look_name("", 0), "Look 1");
    assert_eq!(look_name("  ", 4), "Look 5");
    assert_eq!(look_name(" Dark ", 4), "Dark");
}

#[test]
fn track_names() {
    assert_eq!(track_name("/music/intro.mp3"), "intro.mp3");
    assert_eq!(track_name("intro.mp3"), "intro.mp3");
    assert_eq!(track_name("/"), "unknown");
    assert_eq!(track_name("/music/.."), "unknown");
}

#[test]
fn new_props_get_fresh_identities() {
    let a = new_text_prop("  ");
    let b = new_image_prop("", "/img/logo.png");
    assert_eq!(a.name, "New Text Prop");
    assert_eq!(b.name, "logo");
    assert_eq!(a.id.len(), 36);
    assert_ne!(a.id, b.id);
}
