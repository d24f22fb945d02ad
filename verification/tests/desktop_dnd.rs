use walz::desktop_dnd::{
    available, desktop_state, dnd_from_banners, is_gnome_session, load_follow, toggle_follow,
    watch_step, WatchStep,
};

#[test]
fn follow_toggle_round_trip() {
    assert!(!load_follow(None));
    assert!(load_follow(Some("true\n")));
    let mut follow = false;
    let (enabled, text, adopt) = toggle_follow(&mut follow, Some(true));
    assert!(enabled && follow);
    assert_eq!(text, "true");
    assert_eq!(adopt, Some(true));
    assert!(load_follow(Some(text)));
    let (enabled, text, adopt) = toggle_follow(&mut follow, Some(true));
    assert!(!enabled && !follow);
    assert_eq!(adopt, None);
    assert!(!load_follow(Some(text)));
}

#[test]
fn watch_applies_changes_only() {
    assert_eq!(watch_step(true, None, Some(true)), WatchStep { last: Some(true), apply: Some(true) });
    assert_eq!(watch_step(true, Some(true), Some(true)), WatchStep { last: Some(true), apply: None });
    assert_eq!(watch_step(true, Some(true), None), WatchStep { last: Some(true), apply: None });
    assert_eq!(watch_step(true, Some(true), Some(false)), WatchStep { last: Some(false), apply: Some(false) });
    assert_eq!(watch_step(false, Some(true), Some(false)), WatchStep { last: None, apply: None });
}

#[test]
fn desktop_answers() {
    assert_eq!(desktop_state(Some(false), Some(true)), Some(false));
    assert_eq!(desktop_state(None, Some(true)), Some(true));
    assert_eq!(desktop_state(None, None), None);
    assert!(dnd_from_banners(false));
    assert!(!dnd_from_banners(true));
}

#[test]
fn gnome_sessions_are_recognised() {
    assert!(is_gnome_session("GNOME"));
    assert!(is_gnome_session("ubuntu:GNOME"));
    assert!(is_gnome_session("gnome:x"));
    assert!(!is_gnome_session("KDE"));
    assert!(!is_gnome_session("GNOME-Flashback"));
    assert!(!is_gnome_session(""));
    assert!(!is_gnome_session("ubuntu:"));
}

#[test]
fn availability_is_cached() {
    let mut cache = None;
    assert!(available(&mut cache, Some(false)));
    assert!(available(&mut cache, None));
    let mut none = None;
    assert!(!available(&mut none, None));
    assert!(!available(&mut none, Some(true)));
}

#[test]
fn reenabling_applies_current_state() {
    let off = watch_step(false, Some(true), Some(true));
    assert_eq!(off.last, None);
    let on = watch_step(true, off.last, Some(true));
    assert_eq!(on.apply, Some(true));
}
