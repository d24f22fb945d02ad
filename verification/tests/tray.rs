use walz::tray::{
    badge_tooltip, click_shows_window, create_badge_icon, menu_action, menu_entries, paint_badge,
    MenuAction, MenuEntry,
};

const TINY_PNG: [u8; 70] = [
    0x89, 0x50, 0x4e, 0x47, 0x0d, 0x0a, 0x1a, 0x0a, 0x00, 0x00, 0x00, 0x0d, 0x49, 0x48, 0x44,
    0x52, 0x00, 0x00, 0x00, 0x01, 0x00, 0x00, 0x00, 0x01, 0x08, 0x06, 0x00, 0x00, 0x00, 0x1f,
    0x15, 0xc4, 0x89, 0x00, 0x00, 0x00, 0x0d, 0x49, 0x44, 0x41, 0x54, 0x78, 0x9c, 0x63, 0xf8,
    0xcf, 0xc0, 0xf0, 0x1f, 0x00, 0x05, 0x00, 0x01, 0xff, 0x89, 0x99, 0x3d, 0x1d, 0x00, 0x00,
    0x00, 0x00, 0x49, 0x45, 0x4e, 0x44, 0xae, 0x42, 0x60, 0x82,
];

#[test]
fn badge_disc_in_top_right_corner() {
    let w = 24u32;
    let h = 24u32;
    let mut pixels = vec![0u8; (w * h * 4) as usize];
    paint_badge(&mut pixels, w, h);
    // radius 4, centre (18, 6)
    let at = |x: u32, y: u32| -> &[u8] {
        let i = ((y * w + x) * 4) as usize;
        &pixels[i..i + 4]
    };
    assert_eq!(at(18, 6), [239, 68, 68, 255]);
    assert_eq!(at(22, 6), [239, 68, 68, 255]);
    assert_eq!(at(23, 6), [0, 0, 0, 0]);
    assert_eq!(at(18, 2), [239, 68, 68, 255]);
    assert_eq!(at(18, 1), [0, 0, 0, 0]);
    assert_eq!(at(21, 9), [0, 0, 0, 0]);
    assert_eq!(at(0, 0), [0, 0, 0, 0]);
    let painted = pixels.chunks(4).filter(|p| p == &[239, 68, 68, 255]).count();
    assert_eq!(painted, 49);
}

#[test]
fn badge_leaves_trailing_bytes() {
    let mut pixels = vec![7u8; 6 * 6 * 4 + 3];
    paint_badge(&mut pixels, 6, 6);
    assert_eq!(&pixels[6 * 6 * 4..], &[7, 7, 7]);
}

#[test]
fn icon_decodes_and_gets_badge() {
    let plain = create_badge_icon(&TINY_PNG, 0).unwrap();
    assert_eq!((plain.width, plain.height), (1, 1));
    assert_eq!(plain.pixels.len(), 4);
    let badged = create_badge_icon(&TINY_PNG, 5).unwrap();
    assert_eq!((badged.width, badged.height), (1, 1));
    assert_eq!(create_badge_icon(b"not a png", 1), None);
}

#[test]
fn tooltip_counts_unread() {
    assert_eq!(badge_tooltip("Walz", 0), "Walz");
    assert_eq!(badge_tooltip("Walz - work", 12), "Walz - work (12 unread)");
    assert_eq!(badge_tooltip("Walz", 4294967295), "Walz (4294967295 unread)");
}

#[test]
fn menu_ids_and_layout() {
    assert_eq!(menu_action("show"), Some(MenuAction::Show));
    assert_eq!(menu_action("hide"), Some(MenuAction::Hide));
    assert_eq!(menu_action("dnd"), Some(MenuAction::ToggleDnd));
    assert_eq!(menu_action("follow-desktop-dnd"), Some(MenuAction::ToggleFollow));
    assert_eq!(menu_action("ask-download-location"), Some(MenuAction::ToggleAskLocation));
    assert_eq!(menu_action("devtools"), Some(MenuAction::DevTools));
    assert_eq!(menu_action("quit"), Some(MenuAction::Quit));
    assert_eq!(menu_action("other"), None);
    let entries = menu_entries(true, Some(false), true);
    assert_eq!(entries.len(), 10);
    assert_eq!(entries[3], MenuEntry::Check("dnd", "Do Not Disturb", true));
    assert_eq!(
        entries[4],
        MenuEntry::Check("follow-desktop-dnd", "Follow Desktop Do Not Disturb", false)
    );
    assert_eq!(
        entries[5],
        MenuEntry::Check("ask-download-location", "Ask Where to Save Downloads", true)
    );
    assert_eq!(entries[9], MenuEntry::Item("quit", "Quit", Some("Ctrl+Q")));
    assert!(click_shows_window(false));
    assert!(!click_shows_window(true));
}

#[test]
fn menu_without_desktop_dnd() {
    let entries = menu_entries(false, None, false);
    assert_eq!(entries.len(), 9);
    assert_eq!(entries[3], MenuEntry::Check("dnd", "Do Not Disturb", false));
    assert_eq!(
        entries[4],
        MenuEntry::Check("ask-download-location", "Ask Where to Save Downloads", false)
    );
    assert_eq!(entries[5], MenuEntry::Separator);
    for entry in &entries {
        match entry {
            MenuEntry::Item(id, _, _) | MenuEntry::Check(id, _, _) => assert!(menu_action(id).is_some()),
            MenuEntry::Separator => {}
        }
    }
}
