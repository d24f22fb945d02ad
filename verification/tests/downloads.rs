use walz::downloads::{
    announces_download, destination_dir, load_ask_location, may_discard, next_stage_dir, on_finished,
    on_requested, pretty, resolve_filename, save_outcome, stage_dir_to_clear, staged_name,
    toggle_ask_location, Finished,
};
use walz::downloads::{decide_finished, path_last_segment};
use walz::slot::Slot;

#[test]
fn filename_prefers_page_then_webkit_then_url() {
    let mut pending = Slot::new();
    pending.put(Some("asked.pdf".to_string()));
    let name = |p: &mut Slot, d: Option<Option<&str>>, u: &str| resolve_filename(p, d, u);
    assert_eq!(name(&mut pending, Some(Some("guess.bin")), "https://x.org/a/b.zip"), Some("asked.pdf".to_string()));
    assert_eq!(pending.take(), None);
    assert_eq!(name(&mut pending, Some(Some("guess.bin")), "https://x.org/a/b.zip"), Some("guess.bin".to_string()));
    assert_eq!(name(&mut pending, Some(Some("download")), "https://x.org/a/b.zip"), Some("b.zip".to_string()));
    assert_eq!(name(&mut pending, None, "https://x.org/a/b.zip"), Some("b.zip".to_string()));
    assert_eq!(name(&mut pending, Some(Some("download")), "https://x.org/a/"), Some("download".to_string()));
    assert_eq!(name(&mut pending, None, "https://x.org/download"), Some("download".to_string()));
    assert_eq!(name(&mut pending, None, "blob:xyz"), Some("download".to_string()));
    assert_eq!(name(&mut pending, None, "data:text/plain,hi"), Some("download".to_string()));
    // A name that is not text is kept as WebKit gave it, unless the page asked.
    assert_eq!(name(&mut pending, Some(None), "https://x.org/a/b.zip"), None);
    pending.put(Some("asked.pdf".to_string()));
    assert_eq!(name(&mut pending, Some(None), "https://x.org/a/b.zip"), Some("asked.pdf".to_string()));
}

#[test]
fn staging_directories_are_numbered() {
    let mut seq = 0u64;
    assert_eq!(next_stage_dir("/data/incomplete", &mut seq), "/data/incomplete/0");
    assert_eq!(next_stage_dir("/data/incomplete", &mut seq), "/data/incomplete/1");
    assert_eq!(seq, 2);
    let mut last = u64::MAX;
    assert_eq!(next_stage_dir("/s", &mut last), "/s/18446744073709551615");
    assert_eq!(last, 0);
}

#[test]
fn requested_destination_falls_back() {
    assert_eq!(on_requested(Some("/stage/3"), Some("/home/u/Downloads/Walz"), "a.txt"), Some("/stage/3/a.txt".to_string()));
    assert_eq!(on_requested(None, Some("/home/u/Downloads/Walz"), "a.txt"), Some("/home/u/Downloads/Walz/a.txt".to_string()));
    assert_eq!(on_requested(None, None, "a.txt"), None);
    assert_eq!(destination_dir(Some("/stage/3"), Some("/d")), Some("/stage/3"));
    assert_eq!(destination_dir(None, Some("/d")), Some("/d"));
    assert_eq!(destination_dir(None, None), None);
}

#[test]
fn pretty_abbreviates_home() {
    assert_eq!(pretty("/home/u/Downloads/a", Some("/home/u")), "~/Downloads/a");
    assert_eq!(pretty("/tmp/a", Some("/home/u")), "/tmp/a");
    assert_eq!(pretty("/tmp/a", None), "/tmp/a");
    assert_eq!(pretty("/home/ux/a", Some("/home/u")), "/home/ux/a");
    assert_eq!(pretty("/home/anna/f.pdf", Some("/home/ann")), "/home/anna/f.pdf");
    assert_eq!(pretty("/home/u", Some("/home/u")), "~");
}

#[test]
fn finished_downloads() {
    assert_eq!(on_finished(None, true, "/stage", None), Finished::Notify("File downloaded successfully".to_string()));
    assert_eq!(on_finished(None, false, "/stage", None), Finished::Nothing);
    assert_eq!(on_finished(Some("/stage/1/a"), false, "/stage", None), Finished::Discard);
    assert_eq!(on_finished(Some("/stage/1/a"), true, "/stage", None), Finished::Prompt);
    assert_eq!(on_finished(Some("/stagex/a"), true, "/stage", None), Finished::Notify("Saved to /stagex/a".to_string()));
    assert_eq!(
        on_finished(Some("/home/u/Downloads/Walz/a"), true, "/stage", Some("/home/u")),
        Finished::Notify("Saved to ~/Downloads/Walz/a".to_string())
    );
}

#[test]
fn save_dialog_helpers() {
    assert_eq!(staged_name("/stage/1/report.pdf"), "report.pdf");
    assert_eq!(staged_name("/"), "download");
    assert_eq!(save_outcome(true, "~/x.pdf", "x.pdf"), "Saved to ~/x.pdf");
    assert_eq!(save_outcome(false, "~/x.pdf", "x.pdf"), "Could not save x.pdf");
    assert!(may_discard("/stage/1/a", "/stage"));
    assert!(!may_discard("/home/a", "/stage"));
    assert_eq!(stage_dir_to_clear("/stage/1/a", "/stage"), Some("/stage/1".to_string()));
    assert_eq!(stage_dir_to_clear("/stage/a", "/stage"), None);
    assert_eq!(stage_dir_to_clear("/other/a", "/stage"), None);
}

#[test]
fn ask_location_round_trip() {
    assert!(load_ask_location(None));
    assert!(load_ask_location(Some("garbage")));
    assert!(!load_ask_location(Some(" false\n")));
    let mut ask = true;
    let (enabled, text) = toggle_ask_location(&mut ask);
    assert!(!enabled && !ask);
    assert_eq!(text, "false");
    assert!(!load_ask_location(Some(text)));
    let (enabled, text) = toggle_ask_location(&mut ask);
    assert!(enabled && ask);
    assert!(load_ask_location(Some(text)));
}

#[test]
fn download_notices_honour_dnd() {
    assert!(announces_download(true, false));
    assert!(!announces_download(true, true));
    assert!(!announces_download(false, false));
}

#[test]
fn path_segments_and_decisions() {
    assert_eq!(path_last_segment("/a/b.zip"), Some("b.zip"));
    assert_eq!(path_last_segment("/"), Some(""));
    assert_eq!(path_last_segment("text/plain,hi"), None);
    assert_eq!(decide_finished(Some("/x/a"), true, true, None), Finished::Prompt);
    assert_eq!(decide_finished(Some("/x/a"), true, false, None), Finished::Notify("Saved to /x/a".to_string()));
    assert_eq!(decide_finished(Some("/x/a"), false, true, None), Finished::Discard);
}
