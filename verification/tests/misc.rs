use walz::commands::clipboard_file;
use walz::transcription::validate_audio;
use walz::mpris::claim_server;
use walz::secrets::{list_secrets, profile_attributes, secret_attributes, secret_label};
use walz::single_instance::{acquire_outcome, parse_wake, socket_name, socket_name_for_hash, wake, Acquired};
use walz::text::{str_eq, trim, trim_char, trim_start_char};
use walz::theme::{dark_from_color_scheme, theme_step};

fn pair(a: &str, b: &str) -> (String, String) {
    (a.to_string(), b.to_string())
}

#[test]
fn base64_groups_and_padding() {
    let data = |bytes: &[u8]| clipboard_file(b"/x.bin", bytes, "file").data;
    assert_eq!(data(b""), "");
    assert_eq!(data(b"f"), "Zg==");
    assert_eq!(data(b"fo"), "Zm8=");
    assert_eq!(data(b"foo"), "Zm9v");
    assert_eq!(data(b"foob"), "Zm9vYg==");
    assert_eq!(data(&[0xfb, 0xff]), "+/8=");
    assert_eq!(validate_audio("Zm9vYg==", "ogg"), Ok(()));
    assert_eq!(
        validate_audio("Zm9v!", "ogg"),
        Err("Could not read the audio message.".to_string())
    );
}

#[test]
fn socket_names() {
    assert_eq!(socket_name_for_hash(0), "walz-0000000000000000");
    assert_eq!(socket_name_for_hash(0xdead_beef), "walz-00000000deadbeef");
    assert_eq!(socket_name_for_hash(u64::MAX), "walz-ffffffffffffffff");
    let a = socket_name("/home/u/.local/share/walz");
    assert_eq!(a.len(), 21);
    assert!(a.starts_with("walz-"));
    assert!(a[5..].chars().all(|c| c.is_ascii_digit() || ('a'..='f').contains(&c)));
    assert_eq!(a, socket_name("/home/u/.local/share/walz"));
    assert_ne!(a, socket_name("/home/u/.local/share/walz/profiles/work"));
}

#[test]
fn acquiring_the_profile() {
    assert_eq!(acquire_outcome(false, false, false), Acquired::Unguarded);
    assert_eq!(acquire_outcome(true, true, false), Acquired::Primary);
    assert_eq!(acquire_outcome(true, false, true), Acquired::AlreadyRunning);
    assert_eq!(acquire_outcome(true, false, false), Acquired::Unguarded);
}

#[test]
fn wake_carries_the_launch_link() {
    assert_eq!(wake(None), b"walz-show".to_vec());
    assert_eq!(wake(Some("wa.me/15551234")), b"walz-show\nwa.me/15551234".to_vec());
    assert_eq!(wake(Some("\u{e9}")), vec![b'w', b'a', b'l', b'z', b'-', b's', b'h', b'o', b'w', 0x0a, 0xc3, 0xa9]);
    assert_eq!(parse_wake(b"walz-show"), Some(None));
    assert_eq!(parse_wake(b"walz-shoW"), None);
    assert_eq!(parse_wake(b"walz"), None);
    assert_eq!(parse_wake(b"walz-showx"), Some(None));
    assert_eq!(parse_wake(b"walz-show\r\nwa.me/1"), Some(None));
    assert_eq!(parse_wake(b"walz-show\nhttps://wa.me/1"), Some(Some("https://wa.me/1".to_string())));
    assert_eq!(parse_wake(b"walz-show\n\xff\xfe"), Some(None));
    for link in [None, Some(""), Some("whatsapp://send?phone=15551234"), Some("wa.me/1?text=h\u{e9}llo")] {
        let message = wake(link);
        assert_eq!(parse_wake(&message), Some(link.map(|l| l.to_string())));
    }
}

#[test]
fn secret_filing() {
    assert_eq!(secret_label("token", "work"), "walz - token (work)");
    assert_eq!(
        secret_attributes("token", "work"),
        vec![pair("application", "walz"), pair("key", "token"), pair("profile", "work")]
    );
    assert_eq!(profile_attributes("work"), vec![pair("application", "walz"), pair("profile", "work")]);
    let items = vec![
        vec![pair("application", "walz"), pair("key", "a")],
        vec![pair("application", "walz")],
        vec![pair("key", "b"), pair("key", "c")],
    ];
    assert_eq!(list_secrets(&items), vec!["a".to_string(), "b".to_string()]);
}

#[test]
fn theme_readings() {
    assert!(dark_from_color_scheme(Some(1)));
    assert!(!dark_from_color_scheme(Some(2)));
    assert!(!dark_from_color_scheme(None));
    assert_eq!(theme_step(None, true), (Some(true), true));
    assert_eq!(theme_step(Some(true), true), (Some(true), false));
    assert_eq!(theme_step(Some(true), false), (Some(false), true));
}

#[test]
fn mpris_runs_once() {
    let mut running = false;
    assert_eq!(claim_server(&mut running), Ok(()));
    assert_eq!(claim_server(&mut running), Err("MPRIS server already running".to_string()));
}

#[test]
fn text_helpers() {
    assert_eq!(trim("\u{3000}\t a b \u{85}"), "a b");
    assert_eq!(trim("   "), "");
    assert_eq!(trim("\u{200b}x\u{a0}\u{2029}\u{1680}"), "\u{200b}x");
    assert_eq!(trim("\u{d}\u{c}\u{e}"), "\u{e}");
    assert_eq!(trim_char("//a/b//", '/'), "a/b");
    assert_eq!(trim_start_char("//a/", '/'), "a/");
    assert!(str_eq("é", "é"));
    assert!(!str_eq("a", "ab"));
}
