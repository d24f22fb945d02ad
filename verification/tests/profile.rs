use walz::profile::{get, get_all_profiles, init, profile_listing, Args, Profile, ProfileCell};

#[test]
fn default_and_named_profiles() {
    let p = Profile::new(None, false, Some("/home/u/.local/share"), Some("/home/u/.config"));
    assert_eq!(p.name, "default");
    assert_eq!(p.data_dir, "/home/u/.local/share/walz");
    assert_eq!(p.config_dir, "/home/u/.config/walz");
    assert!(!p.start_minimized);
    let w = Profile::new(Some("work".to_string()), true, Some("/d"), Some("/c"));
    assert_eq!(w.name, "work");
    assert_eq!(w.data_dir, "/d/walz/profiles/work");
    assert_eq!(w.config_dir, "/c/walz/profiles/work");
    assert!(w.start_minimized);
    let d = Profile::new(Some("default".to_string()), false, None, None);
    assert_eq!(d.name, "default");
    assert_eq!(d.data_dir, "~/.local/share/walz");
    assert_eq!(d.config_dir, "~/.config/walz");
    assert_eq!(Profile::new(Some(String::new()), false, None, None).name, "default");
}

#[test]
fn titles_and_tooltips() {
    let p = Profile::new(None, false, None, None);
    assert_eq!(p.window_title(), "Walz");
    assert_eq!(p.tray_tooltip(), "Walz");
    let w = Profile::new(Some("work".to_string()), false, None, None);
    assert_eq!(w.window_title(), "Walz (work)");
    assert_eq!(w.tray_tooltip(), "Walz - work");
}

#[test]
fn init_once_and_list() {
    let mut cell = ProfileCell::new();
    let listing = Args { profile: None, list_profiles: true, minimized: false };
    assert!(!init(&mut cell, listing, None, None));
    let args = Args { profile: Some("a".to_string()), list_profiles: false, minimized: true };
    assert!(init(&mut cell, args, Some("/d"), Some("/c")));
    assert_eq!(get(&cell).name, "a");
    assert!(get(&cell).start_minimized);
    let again = Args { profile: Some("b".to_string()), list_profiles: true, minimized: false };
    assert!(init(&mut cell, again, None, None));
    assert_eq!(get(&cell).name, "a");
}

#[test]
fn profile_lists() {
    let found = vec!["work".to_string(), "home".to_string()];
    assert_eq!(get_all_profiles(found.clone()), vec!["default", "work", "home"]);
    assert_eq!(
        profile_listing(&found),
        vec!["Available profiles:", "  default", "  work", "  home"]
    );
}
