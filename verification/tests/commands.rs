use walz::commands::{
    choose_image_mime, clipboard_file, dropped_files, get_custom_css, get_system_theme,
    load_dnd, opens_chat, pasted_image, set_dnd, set_pending_chat, set_pending_download_name,
    take_pending_chat, toggle_dnd, update_badge, uri_list_paths, after_last_char, paste_start,
    paste_after_image, PasteStep,
};
use walz::commands::{local_file, prepare_notification};
use walz::links::UrlParts;
use walz::slot::Slot;

fn strings(items: &[&str]) -> Vec<String> {
    items.iter().map(|s| s.to_string()).collect()
}

fn byte_paths(items: &[&str]) -> Vec<Vec<u8>> {
    items.iter().map(|s| s.as_bytes().to_vec()).collect()
}

#[test]
fn prefers_web_friendly_image_flavours() {
    let offered = strings(&["image/tiff", "image/bmp", "image/png", "text/plain"]);
    assert_eq!(choose_image_mime(&offered), Some(("image/png".to_string(), "png".to_string())));
    let offered = strings(&["image/gif", "image/jpeg"]);
    assert_eq!(choose_image_mime(&offered), Some(("image/jpeg".to_string(), "jpg".to_string())));
    let offered = strings(&["text/plain", "image/x-portable-anymap", "image/tiff"]);
    assert_eq!(
        choose_image_mime(&offered),
        Some(("image/x-portable-anymap".to_string(), "x-portable-anymap".to_string()))
    );
    assert_eq!(choose_image_mime(&strings(&["text/uri-list"])), None);
    assert_eq!(choose_image_mime(&Vec::new()), None);
}

#[test]
fn rsplit_first_piece() {
    assert_eq!(after_last_char("a/b/c", '/'), "c");
    assert_eq!(after_last_char("abc", '/'), "abc");
    assert_eq!(after_last_char("a/", '/'), "");
}

#[test]
fn uri_list_keeps_local_files_only() {
    let list = "# copied\r\nfile:///tmp/a%20b.png\r\n\r\nhttps://example.com/x\nfile:///etc/hosts\n  \nnot a uri\nfile://remote.host/x";
    assert_eq!(uri_list_paths(list), byte_paths(&["/tmp/a b.png", "/etc/hosts"]));
    assert_eq!(uri_list_paths(""), Vec::<Vec<u8>>::new());
    assert_eq!(uri_list_paths("file:///x"), byte_paths(&["/x"]));
}

#[test]
fn uri_list_keeps_paths_that_are_not_text() {
    assert_eq!(
        uri_list_paths("file:///tmp/%FF.png\nfile:///%FE/a.txt"),
        vec![b"/tmp/\xff.png".to_vec(), b"/\xfe/a.txt".to_vec()]
    );
    let f = clipboard_file(b"/tmp/\xff.png", b"hi", "pasted-file");
    assert_eq!(f.name, "pasted-file");
    assert_eq!(f.mime, "image/png");
    assert_eq!(f.data, "aGk=");
    let g = clipboard_file(b"/\xfe/a.txt", b"", "pasted-file");
    assert_eq!(g.name, "a.txt");
    assert_eq!(g.mime, "text/plain");
    let h = clipboard_file(b"/tmp/a.\xff", b"", "pasted-file");
    assert_eq!(h.name, "pasted-file");
    assert_eq!(h.mime, "application/octet-stream");
}

#[test]
fn file_names_follow_path_components() {
    let name = |p: &str| clipboard_file(p.as_bytes(), b"", "none").name;
    let mime = |p: &str| clipboard_file(p.as_bytes(), b"", "none").mime;
    assert_eq!(name("/a/b.txt/"), "b.txt");
    assert_eq!(name("/a/b.txt/."), "b.txt");
    assert_eq!(name("/a/b.txt//./"), "b.txt");
    assert_eq!(name("/a/.."), "none");
    assert_eq!(name("."), "none");
    assert_eq!(name("./"), "none");
    assert_eq!(name(""), "none");
    assert_eq!(name("c"), "c");
    assert_eq!(name("/.bashrc"), ".bashrc");
    assert_eq!(mime("/.png"), "application/octet-stream");
    assert_eq!(mime("/..png"), "image/png");
    assert_eq!(mime("/a.tar.gz"), "application/gzip");
    assert_eq!(mime("/a."), "application/octet-stream");
}

#[test]
fn clipboard_files_are_named_typed_and_encoded() {
    let f = clipboard_file(b"/tmp/photo.png", b"hello", "pasted-file");
    assert_eq!(f.name, "photo.png");
    assert_eq!(f.mime, "image/png");
    assert_eq!(f.data, "aGVsbG8=");
    let g = clipboard_file(b"/", b"", "file");
    assert_eq!(g.name, "file");
    assert_eq!(g.mime, "application/octet-stream");
    assert_eq!(g.data, "");
}

#[test]
fn pasted_image_needs_bytes() {
    assert_eq!(pasted_image("image/png".to_string(), "png", b""), None);
    let f = pasted_image("image/png".to_string(), "png", b"hell").unwrap();
    assert_eq!(f.name, "pasted-image.png");
    assert_eq!(f.mime, "image/png");
    assert_eq!(f.data, "aGVsbA==");
}

#[test]
fn dropped_files_skip_unreadable_paths() {
    let reads = vec![
        (b"/a/one.txt".to_vec(), Some(b"hel".to_vec())),
        (b"/a/missing".to_vec(), None),
        (b"/a/two.jpg".to_vec(), Some(Vec::new())),
        (b"/a/\xff".to_vec(), Some(b"x".to_vec())),
    ];
    let files = dropped_files(&reads, "file");
    assert_eq!(files.len(), 3);
    assert_eq!(files[0].name, "one.txt");
    assert_eq!(files[0].mime, "text/plain");
    assert_eq!(files[0].data, "aGVs");
    assert_eq!(files[1].name, "two.jpg");
    assert_eq!(files[1].mime, "image/jpeg");
    assert_eq!(files[1].data, "");
}

#[test]
fn pending_chat_is_handed_out_once() {
    let mut pending = Slot::new();
    assert_eq!(take_pending_chat(&mut pending), None);
    set_pending_chat(&mut pending, Some("123@c.us".to_string()));
    set_pending_chat(&mut pending, Some("456@c.us".to_string()));
    assert_eq!(take_pending_chat(&mut pending), Some("456@c.us".to_string()));
    assert_eq!(take_pending_chat(&mut pending), None);
    set_pending_chat(&mut pending, Some("1".to_string()));
    set_pending_chat(&mut pending, None);
    assert_eq!(take_pending_chat(&mut pending), None);
    set_pending_download_name(&mut pending, "report.pdf".to_string());
    assert_eq!(pending.take(), Some("report.pdf".to_string()));
}

#[test]
fn dnd_file_round_trip() {
    let mut dnd = false;
    let text = set_dnd(&mut dnd, true);
    assert!(dnd);
    assert_eq!(text, "true");
    assert!(load_dnd(Some(text)));
    assert!(!load_dnd(Some(set_dnd(&mut dnd, false))));
    assert!(load_dnd(Some(" true\n")));
    assert!(!load_dnd(Some("yes")));
    assert!(!load_dnd(None));
    assert!(toggle_dnd(&mut dnd));
    assert!(dnd);
    assert!(!toggle_dnd(&mut dnd));
    assert!(!dnd);
}

#[test]
fn theme_name_prefers_the_portal() {
    assert_eq!(get_system_theme(Some(true), false), "dark");
    assert_eq!(get_system_theme(Some(false), true), "light");
    assert_eq!(get_system_theme(None, true), "dark");
    assert_eq!(get_system_theme(None, false), "light");
}

#[test]
fn badge_changes_are_reported() {
    let mut current = 0;
    assert!(update_badge(&mut current, 3));
    assert_eq!(current, 3);
    assert!(!update_badge(&mut current, 3));
    assert!(update_badge(&mut current, 0));
}

#[test]
fn css_and_notification_actions() {
    assert_eq!(get_custom_css(Some("a{}".to_string())), "a{}");
    assert_eq!(get_custom_css(None), "");
    assert!(opens_chat("default"));
    assert!(!opens_chat("__closed"));
}

#[test]
fn paste_steps() {
    let offered = strings(&["text/uri-list", "image/bmp"]);
    assert_eq!(paste_start(&offered), PasteStep::ReadImage("image/bmp".to_string(), "bmp".to_string()));
    assert_eq!(paste_after_image(&offered, "image/bmp".to_string(), "bmp", b""), PasteStep::ReadUriList);
    match paste_after_image(&offered, "image/bmp".to_string(), "bmp", b"x") {
        PasteStep::Finish(files) => {
            assert_eq!(files.len(), 1);
            assert_eq!(files[0].name, "pasted-image.bmp");
            assert_eq!(files[0].data, "eA==");
        }
        other => panic!("unexpected step {other:?}"),
    }
    assert_eq!(paste_start(&strings(&["text/uri-list"])), PasteStep::ReadUriList);
    assert_eq!(paste_start(&strings(&["text/plain"])), PasteStep::Finish(Vec::new()));
    assert_eq!(
        paste_after_image(&strings(&["image/png"]), "image/png".to_string(), "png", b""),
        PasteStep::Finish(Vec::new())
    );
}

#[test]
fn local_file_needs_file_scheme() {
    let mut parts = UrlParts {
        scheme: "file".to_string(),
        host: None,
        path: "/tmp/x".to_string(),
        query: Vec::new(),
        file_path: Some(b"/tmp/x".to_vec()),
    };
    assert_eq!(local_file(&parts), Some(b"/tmp/x".to_vec()));
    parts.scheme = "https".to_string();
    assert_eq!(local_file(&parts), None);
}

#[test]
fn notifications_remember_their_chat() {
    let mut pending = Slot::new();
    assert!(!prepare_notification(true, &mut pending, &Some("a".to_string())));
    assert_eq!(pending.take(), None);
    assert!(prepare_notification(false, &mut pending, &Some("b".to_string())));
    assert!(prepare_notification(false, &mut pending, &None));
    assert_eq!(pending.take(), Some("b".to_string()));
}
