use walz::links::{invite_url, send_url, to_web_url, web_target, web_url, UrlParts};
use walz::links::{launch_url, park, set_launch_url, take_pending};
use walz::slot::{OnceCell, Slot};

#[test]
fn maps_click_to_chat_links() {
    let expected = Some("https://web.whatsapp.com/send?phone=15551234567".to_string());
    assert_eq!(to_web_url("whatsapp://send?phone=15551234567"), expected);
    assert_eq!(to_web_url("https://wa.me/15551234567"), expected);
    assert_eq!(
        to_web_url("https://api.whatsapp.com/send?phone=%2B1%20(555)%20123-4567"),
        expected
    );
}

#[test]
fn encodes_prefilled_text() {
    assert_eq!(
        to_web_url("https://wa.me/1555?text=hi%20there%20%26%20now"),
        Some("https://web.whatsapp.com/send?phone=1555&text=hi+there+%26+now".to_string())
    );
}

#[test]
fn maps_group_invites() {
    assert_eq!(
        to_web_url("https://chat.whatsapp.com/ABC123"),
        Some("https://web.whatsapp.com/accept?code=ABC123".to_string())
    );
}

#[test]
fn rejects_what_it_cannot_translate() {
    // Server-side redirects, a missing number, and unrelated links.
    assert_eq!(to_web_url("https://wa.me/message/ABC123"), None);
    assert_eq!(to_web_url("whatsapp://send?text=hello"), None);
    assert_eq!(to_web_url("https://example.com/wa.me/1555"), None);
    assert_eq!(to_web_url("not a url"), None);
}

#[test]
fn accepts_path_form_and_web_host() {
    assert_eq!(
        to_web_url("whatsapp:send?phone=123&text=a"),
        Some("https://web.whatsapp.com/send?phone=123&text=a".to_string())
    );
    assert_eq!(
        to_web_url("https://web.whatsapp.com/send?phone=42"),
        Some("https://web.whatsapp.com/send?phone=42".to_string())
    );
    assert_eq!(
        to_web_url("whatsapp://chat?code=XyZ"),
        Some("https://web.whatsapp.com/accept?code=XyZ".to_string())
    );
    assert_eq!(to_web_url("whatsapp://chat"), None);
    assert_eq!(to_web_url("whatsapp://open?phone=1"), None);
    assert_eq!(to_web_url("ftp://wa.me/1555"), None);
}

#[test]
fn trims_surrounding_white_space() {
    assert_eq!(
        to_web_url("  https://wa.me/15551234567\n"),
        Some("https://web.whatsapp.com/send?phone=15551234567".to_string())
    );
}

#[test]
fn wa_me_trailing_slash_and_empty_path() {
    assert_eq!(
        to_web_url("https://wa.me/1555/"),
        Some("https://web.whatsapp.com/send?phone=1555".to_string())
    );
    assert_eq!(to_web_url("https://wa.me/"), None);
    assert_eq!(to_web_url("https://chat.whatsapp.com/"), None);
    assert_eq!(to_web_url("https://chat.whatsapp.com/a/b"), None);
}

#[test]
fn phone_needs_digits_and_empty_text_is_dropped() {
    assert_eq!(send_url(Some("+-()"), Some("hi")), None);
    assert_eq!(send_url(None, Some("hi")), None);
    assert_eq!(
        send_url(Some("+49 170"), Some("")),
        Some("https://web.whatsapp.com/send?phone=49170".to_string())
    );
}

#[test]
fn text_is_form_encoded_as_utf8() {
    assert_eq!(
        send_url(Some("1"), Some("Été+hiver *-._~")),
        Some("https://web.whatsapp.com/send?phone=1&text=%C3%89t%C3%A9%2Bhiver+*-._%7E".to_string())
    );
}

#[test]
fn invite_and_web_url_shapes() {
    assert_eq!(invite_url("a b"), "https://web.whatsapp.com/accept?code=a+b");
    let pairs = vec![("x".to_string(), "1".to_string()), ("y".to_string(), "&".to_string())];
    assert_eq!(web_url("p", &pairs), "https://web.whatsapp.com/p?x=1&y=%26");
    assert_eq!(web_url("p", &Vec::new()), "https://web.whatsapp.com/p?");
}

#[test]
fn web_target_reads_first_matching_parameter() {
    let parts = UrlParts {
        scheme: "https".to_string(),
        host: Some("api.whatsapp.com".to_string()),
        path: "/send".to_string(),
        query: vec![
            ("phone".to_string(), "12".to_string()),
            ("phone".to_string(), "34".to_string()),
        ],
        file_path: None,
    };
    assert_eq!(
        web_target(&parts),
        Some("https://web.whatsapp.com/send?phone=12".to_string())
    );
}

#[test]
fn park_keeps_translation_until_taken() {
    let mut pending = Slot::new();
    park(&mut pending, "https://wa.me/15551234567");
    park(&mut pending, "https://example.com/");
    assert_eq!(
        take_pending(&mut pending),
        Some("https://web.whatsapp.com/send?phone=15551234567".to_string())
    );
    assert_eq!(take_pending(&mut pending), None);
}

#[test]
fn launch_url_first_set_wins() {
    let mut cell = OnceCell::new();
    assert_eq!(launch_url(&cell), None);
    set_launch_url(&mut cell, Some("whatsapp://send?phone=1".to_string()));
    set_launch_url(&mut cell, Some("other".to_string()));
    assert_eq!(launch_url(&cell), Some("whatsapp://send?phone=1"));
    let mut empty = OnceCell::new();
    set_launch_url(&mut empty, None);
    set_launch_url(&mut empty, Some("late".to_string()));
    assert_eq!(launch_url(&empty), None);
}
