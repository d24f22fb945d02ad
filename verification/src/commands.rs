//! The logic behind the app's IPC commands: clipboard selection, the Do Not
//! Disturb setting, pending chats and download names, theme and badge state.

use vstd::prelude::*;
use crate::encoding::{b64_encode, base64_encode, opt_bytes};
use crate::links::{opt_str_view, parse_url, parsed_url, UrlParts};
use crate::paths::{file_name_bytes, guessed_mime, join, mime_extension, mime_for_path, os_file_name, path_join};
use crate::slot::{Slot, slot_after_put, slot_after_take, slot_taken};
use crate::text::{
    chars_of, decode_text, lemma_split_by_nonempty, owned, utf8_decoded, split_by, str_eq, str_starts_with, string_from_chars, trim,
    trimmed, starts_with,
};

verus! {

/// A file handed to the page: a name, its MIME type, and its bytes in base64.
#[derive(Debug, Clone, PartialEq, Eq)]
pub struct ClipboardFile {
    pub name: String,
    pub mime: String,
    pub data: String,
}

/// The image flavours taken from the clipboard, most web-friendly first, each
/// with the extension given to the pasted file.
pub open spec fn image_preference() -> Seq<(Seq<char>, Seq<char>)> {
    seq![
        ("image/png"@, "png"@),
        ("image/jpeg"@, "jpg"@),
        ("image/webp"@, "webp"@),
        ("image/gif"@, "gif"@),
        ("image/bmp"@, "bmp"@),
    ]
}

/// The first preferred flavour that is on offer.
pub open spec fn first_preferred(
    prefs: Seq<(Seq<char>, Seq<char>)>,
    offered: Seq<Seq<char>>,
) -> Option<(Seq<char>, Seq<char>)>
    decreases prefs.len(),
{
    if prefs.len() == 0 {
        None
    } else if offered.contains(prefs[0].0) {
        Some(prefs[0])
    } else {
        first_preferred(prefs.drop_first(), offered)
    }
}

/// The first offered type that starts with `image/`.
pub open spec fn first_image(offered: Seq<Seq<char>>) -> Option<Seq<char>>
    decreases offered.len(),
{
    if offered.len() == 0 {
        None
    } else if starts_with(offered[0], "image/"@) {
        Some(offered[0])
    } else {
        first_image(offered.drop_first())
    }
}

/// What follows the last `c` in `s` (all of `s` when `c` does not occur);
/// the first item of `str::rsplit(c)`.
pub open spec fn after_last(s: Seq<char>, c: char) -> Seq<char>
    decreases s.len(),
{
    if s.len() == 0 {
        s
    } else if s.last() == c {
        Seq::empty()
    } else {
        after_last(s.drop_last(), c).push(s.last())
    }
}

/// The image flavour to paste and the extension of the pasted file: a preferred
/// flavour when one is offered, else the first `image/` type with its subtype
/// as extension.
pub open spec fn chosen_image(offered: Seq<Seq<char>>) -> Option<(Seq<char>, Seq<char>)> {
    match first_preferred(image_preference(), offered) {
        Some(p) => Some(p),
        None => match first_image(offered) {
            Some(m) => Some((m, after_last(m, '/'))),
            None => None,
        },
    }
}

proof fn lemma_after_last_at(s: Seq<char>, c: char, j: int)
    requires
        0 <= j <= s.len(),
        forall|k: int| j <= k < s.len() ==> #[trigger] s[k] != c,
        j == 0 || s[j - 1] == c,
    ensures
        after_last(s, c) == s.subrange(j, s.len() as int),
    decreases s.len(),
{
    if s.len() == 0 {
        assert(s.subrange(j, 0) =~= s);
    } else if j == s.len() {
        assert(s.subrange(j, j) =~= Seq::<char>::empty());
    } else {
        let t = s.drop_last();
        assert forall|k: int| j <= k < t.len() implies #[trigger] t[k] != c by {
            assert(t[k] == s[k]);
        }
        if j > 0 {
            assert(t[j - 1] == s[j - 1]);
        }
        lemma_after_last_at(t, c, j);
        assert(t.subrange(j, t.len() as int).push(s.last()) =~= s.subrange(j, s.len() as int));
    }
}

/// The part of `s` after the last `c`.
pub fn after_last_char(s: &str, c: char) -> (r: &str)
    ensures
        r@ == after_last(s@, c),
{
    let cs = chars_of(s);
    let n = cs.len();
    let mut j: usize = n;
    while j > 0 && cs[j - 1] != c
        invariant
            cs@ == s@,
            n == cs@.len(),
            j <= n,
            forall|k: int| j <= k < n ==> #[trigger] cs@[k] != c,
        decreases j,
    {
        j = j - 1;
    }
    proof {
        lemma_after_last_at(s@, c, j as int);
    }
    s.substring_char(j, n)
}

/// Whether `mime` is among the offered types.
pub fn offers(offered: &Vec<String>, mime: &str) -> (r: bool)
    ensures
        r == offered.deep_view().contains(mime@),
{
    let mut i: usize = 0;
    while i < offered.len()
        invariant
            i <= offered@.len(),
            forall|k: int| 0 <= k < i ==> offered.deep_view()[k] != mime@,
        decreases offered@.len() - i,
    {
        if str_eq(offered[i].as_str(), mime) {
            assert(offered.deep_view()[i as int] == mime@);
            return true;
        }
        i = i + 1;
    }
    false
}

/// The first offered type that starts with `image/`.
fn find_image(offered: &Vec<String>) -> (r: Option<&String>)
    ensures
        match r { Some(m) => Some(m@), None => None::<Seq<char>> } == first_image(offered.deep_view()),
{
    let mut i: usize = 0;
    assert(offered.deep_view().skip(0) =~= offered.deep_view());
    while i < offered.len()
        invariant
            i <= offered@.len(),
            first_image(offered.deep_view()) == first_image(offered.deep_view().skip(i as int)),
        decreases offered@.len() - i,
    {
        let ghost rest = offered.deep_view().skip(i as int);
        assert(rest[0] == offered.deep_view()[i as int]);
        if str_starts_with(offered[i].as_str(), "image/") {
            return Some(&offered[i]);
        }
        assert(rest.drop_first() =~= offered.deep_view().skip(i as int + 1));
        i = i + 1;
    }
    None
}

pub open spec fn opt_pair_view(o: Option<(String, String)>) -> Option<(Seq<char>, Seq<char>)> {
    match o {
        Some(p) => Some((p.0@, p.1@)),
        None => None,
    }
}

/// Pick the image flavour to paste from the offered MIME types. Apps often offer
/// several (GIMP advertises tiff and bmp ahead of png); the most web-friendly
/// one is taken rather than whichever comes first.
pub fn choose_image_mime(offered: &Vec<String>) -> (r: Option<(String, String)>)
    ensures
        opt_pair_view(r) == chosen_image(offered.deep_view()),
{
    proof {
        reveal_with_fuel(first_preferred, 6);
    }
    let ghost o = offered.deep_view();
    let ghost prefs = image_preference();
    assert(prefs.drop_first() =~= seq![
        ("image/jpeg"@, "jpg"@),
        ("image/webp"@, "webp"@),
        ("image/gif"@, "gif"@),
        ("image/bmp"@, "bmp"@),
    ]);
    assert(prefs.drop_first().drop_first() =~= seq![
        ("image/webp"@, "webp"@),
        ("image/gif"@, "gif"@),
        ("image/bmp"@, "bmp"@),
    ]);
    assert(prefs.drop_first().drop_first().drop_first() =~= seq![
        ("image/gif"@, "gif"@),
        ("image/bmp"@, "bmp"@),
    ]);
    assert(prefs.drop_first().drop_first().drop_first().drop_first() =~= seq![
        ("image/bmp"@, "bmp"@),
    ]);
    assert(prefs.drop_first().drop_first().drop_first().drop_first().drop_first() =~= Seq::<(Seq<char>, Seq<char>)>::empty());
    if offers(offered, "image/png") {
        return Some((owned("image/png"), owned("png")));
    }
    if offers(offered, "image/jpeg") {
        return Some((owned("image/jpeg"), owned("jpg")));
    }
    if offers(offered, "image/webp") {
        return Some((owned("image/webp"), owned("webp")));
    }
    if offers(offered, "image/gif") {
        return Some((owned("image/gif"), owned("gif")));
    }
    if offers(offered, "image/bmp") {
        return Some((owned("image/bmp"), owned("bmp")));
    }
    match find_image(offered) {
        Some(m) => {
            let extension = after_last_char(m.as_str(), '/');
            Some((m.clone(), owned(extension)))
        },
        None => None,
    }
}

/// Law: a PNG on the clipboard is pasted as PNG, wherever it stands among the
/// offered flavours.
pub proof fn law_png_preferred(offered: Seq<Seq<char>>)
    ensures
        offered.contains("image/png"@) ==> chosen_image(offered) == Some(("image/png"@, "png"@)),
{
    reveal_with_fuel(first_preferred, 2);
}

/// Law: an image is pasted whenever any `image/` flavour is offered.
pub proof fn law_image_when_offered(offered: Seq<Seq<char>>, i: int)
    requires
        0 <= i < offered.len(),
        starts_with(offered[i], "image/"@),
    ensures
        chosen_image(offered) is Some,
{
    if first_preferred(image_preference(), offered) is None {
        lemma_first_image_found(offered, i);
    }
}

proof fn lemma_first_image_found(offered: Seq<Seq<char>>, i: int)
    requires
        0 <= i < offered.len(),
        starts_with(offered[i], "image/"@),
    ensures
        first_image(offered) is Some,
    decreases i,
{
    if i > 0 && !starts_with(offered[0], "image/"@) {
        lemma_first_image_found(offered.drop_first(), i - 1);
    }
}

/// The pieces of `s` between line feeds. `str::lines` also drops a `\r`
/// before each line feed and does not yield a final empty piece; both are
/// immaterial here, since every piece is trimmed and empty ones are skipped.
pub open spec fn split_lines(s: Seq<char>) -> Seq<Seq<char>> {
    split_by(s, '\n')
}

/// The local file a `text/uri-list` line names, as the bytes of its path:
/// comment lines (`#`) and blank lines name none, and only `file:` URLs that
/// map to a local path count.
pub open spec fn line_path(line: Seq<char>) -> Option<Seq<u8>> {
    let uri = trimmed(line);
    if uri.len() == 0 || uri[0] == '#' {
        None
    } else {
        match parsed_url(uri) {
            Some(p) => if p.scheme == "file"@ {
                p.file_path
            } else {
                None
            },
            None => None,
        }
    }
}

/// The files named by a sequence of lines, in order.
pub open spec fn collect_paths(lines: Seq<Seq<char>>) -> Seq<Seq<u8>>
    decreases lines.len(),
{
    if lines.len() == 0 {
        Seq::empty()
    } else {
        let r = collect_paths(lines.drop_last());
        match line_path(lines.last()) {
            Some(p) => r.push(p),
            None => r,
        }
    }
}

/// Law: every file a URI list yields comes from one of its lines, and that
/// line is a `file:` URL.
pub proof fn law_paths_come_from_file_urls(lines: Seq<Seq<char>>, k: int)
    requires
        0 <= k < collect_paths(lines).len(),
    ensures
        exists|j: int| 0 <= j < lines.len() && line_path(#[trigger] lines[j]) == Some(collect_paths(lines)[k])
            && (parsed_url(trimmed(lines[j])) matches Some(p) && p.scheme == "file"@),
    decreases lines.len(),
{
    let r = collect_paths(lines.drop_last());
    if k < r.len() {
        law_paths_come_from_file_urls(lines.drop_last(), k);
        let j = choose|j: int| 0 <= j < lines.drop_last().len() && line_path(#[trigger] lines.drop_last()[j]) == Some(r[k])
            && (parsed_url(trimmed(lines.drop_last()[j])) matches Some(p) && p.scheme == "file"@);
        assert(lines[j] == lines.drop_last()[j]);
    } else {
        let j = lines.len() - 1;
        assert(lines[j] == lines.last());
    }
}

/// The local files that a `text/uri-list` clipboard entry names, in order.
pub open spec fn uri_list_paths_spec(s: Seq<char>) -> Seq<Seq<u8>> {
    collect_paths(split_lines(s))
}

/// The local file one `text/uri-list` line names.
pub fn uri_line_path(line: &str) -> (r: Option<Vec<u8>>)
    ensures
        opt_bytes(r) == line_path(line@),
{
    let uri = trim(line);
    if uri.is_empty() {
        return None;
    }
    let first = chars_of(uri)[0];
    if first == '#' {
        return None;
    }
    match parse_url(uri) {
        Some(p) => local_file(&p),
        None => None,
    }
}

/// The local file a parsed URL names: its path, for a `file:` URL that maps to one.
pub fn local_file(parts: &UrlParts) -> (r: Option<Vec<u8>>)
    ensures
        opt_bytes(r) == (if parts@.scheme == "file"@ { parts@.file_path } else { None }),
{
    if str_eq(parts.scheme.as_str(), "file") {
        parts.file_path.clone()
    } else {
        None
    }
}

/// The local files that a `text/uri-list` clipboard entry names, in order.
pub fn uri_list_paths(uri_data: &str) -> (r: Vec<Vec<u8>>)
    ensures
        r.deep_view() == uri_list_paths_spec(uri_data@),
{
    let cs = chars_of(uri_data);
    let mut out: Vec<Vec<u8>> = Vec::new();
    let mut cur: Vec<char> = Vec::new();
    let mut i: usize = 0;
    proof {
        lemma_split_by_nonempty(uri_data@.take(0), '\n');
        assert(uri_data@.take(0) =~= Seq::<char>::empty());
        assert(split_by(uri_data@.take(0), '\n').drop_last() =~= Seq::<Seq<char>>::empty());
    }
    while i < cs.len()
        invariant
            cs@ == uri_data@,
            i <= cs@.len(),
            split_by(uri_data@.take(i as int), '\n').len() >= 1,
            cur@ == split_by(uri_data@.take(i as int), '\n').last(),
            out.deep_view() == collect_paths(split_by(uri_data@.take(i as int), '\n').drop_last()),
        decreases cs@.len() - i,
    {
        let c = cs[i];
        let ghost prev = split_by(uri_data@.take(i as int), '\n');
        proof {
            let t = uri_data@.take(i as int + 1);
            assert(t.drop_last() =~= uri_data@.take(i as int));
            assert(t.last() == c);
            lemma_split_by_nonempty(t, '\n');
        }
        if c == '\n' {
            let line = string_from_chars(cur.as_slice());
            let found = uri_line_path(line.as_str());
            let ghost before = out.deep_view();
            match found {
                Some(p) => {
                    assert(p.deep_view() =~= p@);
                    out.push(p);
                    assert(out.deep_view() =~= before.push(p@));
                },
                None => {},
            }
            proof {
                let next = split_by(uri_data@.take(i as int + 1), '\n');
                assert(next == prev.push(Seq::<char>::empty()));
                assert(next.drop_last() =~= prev);
                assert(prev =~= prev.drop_last().push(prev.last()));
                assert(out.deep_view() =~= collect_paths(prev));
            }
            cur = Vec::new();
        } else {
            cur.push(c);
            proof {
                let next = split_by(uri_data@.take(i as int + 1), '\n');
                assert(next == prev.update(prev.len() - 1, prev.last().push(c)));
                assert(next.drop_last() =~= prev.drop_last());
            }
        }
        i = i + 1;
    }
    let ghost lines = split_by(uri_data@, '\n');
    assert(uri_data@.take(cs@.len() as int) =~= uri_data@);
    let line = string_from_chars(cur.as_slice());
    let ghost before_last = out.deep_view();
    match uri_line_path(line.as_str()) {
        Some(p) => {
            assert(p.deep_view() =~= p@);
            out.push(p);
            assert(out.deep_view() =~= before_last.push(p@));
        },
        None => {},
    }
    proof {
        assert(lines =~= lines.drop_last().push(lines.last()));
    }
    out
}

/// The name a local file is handed over under: its file name when that is
/// valid text, else `fallback`.
pub open spec fn local_file_name(path: Seq<u8>, fallback: Seq<char>) -> Seq<char> {
    match os_file_name(path) {
        Some(n) => match utf8_decoded(n) {
            Some(t) => t,
            None => fallback,
        },
        None => fallback,
    }
}

/// The file the page receives for a local path, given as bytes, whose
/// contents are `data`: named after the path's last component (`fallback` when
/// it has none or it is not valid text), typed by its extension, with the
/// bytes in base64.
pub fn clipboard_file(path: &[u8], data: &[u8], fallback: &str) -> (f: ClipboardFile)
    ensures
        f.name@ == local_file_name(path@, fallback@),
        f.mime@ == guessed_mime(mime_extension(path@)),
        f.data@ == b64_encode(data@),
{
    let name = match file_name_bytes(path) {
        Some(n) => match decode_text(n.as_slice()) {
            Some(t) => t,
            None => owned(fallback),
        },
        None => owned(fallback),
    };
    ClipboardFile { name, mime: mime_for_path(path), data: base64_encode(data) }
}

/// The file pasted from an image on the clipboard: none when the clipboard
/// gave no bytes, else `pasted-image.<extension>`.
pub fn pasted_image(mime: String, extension: &str, data: &[u8]) -> (r: Option<ClipboardFile>)
    ensures
        data@.len() == 0 ==> r is None,
        data@.len() > 0 ==> (r matches Some(f) && f.name@ == "pasted-image."@ + extension@
            && f.mime@ == mime@ && f.data@ == b64_encode(data@)),
{
    if data.len() == 0 {
        return None;
    }
    let mut name = owned("pasted-image.");
    name.append(extension);
    Some(ClipboardFile { name, mime, data: base64_encode(data) })
}

/// The next step of a paste from the clipboard.
#[derive(Debug, Clone, PartialEq, Eq)]
pub enum PasteStep {
    /// Read the clipboard's contents in this image flavour; the pasted file gets
    /// this extension.
    ReadImage(String, String),
    /// Read the clipboard's `text/uri-list` entry.
    ReadUriList,
    /// Hand these files to the page.
    Finish(Vec<ClipboardFile>),
}

/// Where a paste goes when no image is pasted: to the URI list when one is
/// offered, else nowhere.
pub open spec fn uri_list_or_nothing(offered: Seq<Seq<char>>, step: PasteStep) -> bool {
    if offered.contains("text/uri-list"@) {
        step is ReadUriList
    } else {
        step matches PasteStep::Finish(files) && files@.len() == 0
    }
}

fn uri_list_or_nothing_exec(offered: &Vec<String>) -> (r: PasteStep)
    ensures
        uri_list_or_nothing(offered.deep_view(), r),
{
    if offers(offered, "text/uri-list") {
        PasteStep::ReadUriList
    } else {
        PasteStep::Finish(Vec::new())
    }
}

/// The first step of a paste, given the MIME types the clipboard offers: read
/// an image when one is offered, else the URI list when there is one.
pub fn paste_start(offered: &Vec<String>) -> (r: PasteStep)
    ensures
        match chosen_image(offered.deep_view()) {
            Some((mime, ext)) => r matches PasteStep::ReadImage(m, e) && m@ == mime && e@ == ext,
            None => uri_list_or_nothing(offered.deep_view(), r),
        },
{
    match choose_image_mime(offered) {
        Some((mime, extension)) => PasteStep::ReadImage(mime, extension),
        None => uri_list_or_nothing_exec(offered),
    }
}

/// The step after the image was read: the pasted image when the clipboard
/// gave bytes, else on to the URI list.
pub fn paste_after_image(offered: &Vec<String>, mime: String, extension: &str, data: &[u8]) -> (r: PasteStep)
    ensures
        data@.len() > 0 ==> (r matches PasteStep::Finish(files) && files@.len() == 1
            && files[0].name@ == "pasted-image."@ + extension@ && files[0].mime@ == mime@
            && files[0].data@ == b64_encode(data@)),
        data@.len() == 0 ==> uri_list_or_nothing(offered.deep_view(), r),
{
    match pasted_image(mime, extension, data) {
        Some(f) => {
            let mut files = Vec::new();
            files.push(f);
            PasteStep::Finish(files)
        },
        None => uri_list_or_nothing_exec(offered),
    }
}

/// Remember which chat a notification belongs to, so a click can open it.
pub fn set_pending_chat(pending: &mut Slot, chat_id: Option<String>)
    ensures
        final(pending)@ == slot_after_put(old(pending)@, opt_str_view(chat_id)),
{
    pending.put(chat_id);
}

/// Prepare a notification: none is shown while Do Not Disturb is on;
/// otherwise the chat it belongs to, if any, is remembered so that a click can
/// open it. Returns whether to show it.
pub fn prepare_notification(dnd: bool, pending: &mut Slot, chat_id: &Option<String>) -> (show: bool)
    ensures
        show == !dnd,
        final(pending)@ == if !dnd && chat_id is Some {
            slot_after_put(old(pending)@, opt_str_view(*chat_id))
        } else {
            old(pending)@
        },
{
    if dnd {
        return false;
    }
    match chat_id {
        Some(id) => set_pending_chat(pending, Some(id.clone())),
        None => {},
    }
    true
}

/// Collect the chat of the last notification, if any.
pub fn take_pending_chat(pending: &mut Slot) -> (r: Option<String>)
    ensures
        opt_str_view(r) == slot_taken(old(pending)@),
        final(pending)@ == slot_after_take(old(pending)@),
{
    pending.take()
}

/// Remember the name the page wants the next download saved under.
pub fn set_pending_download_name(pending: &mut Slot, name: String)
    ensures
        final(pending)@ == slot_after_put(old(pending)@, Some(name@)),
{
    pending.put(Some(name));
}

/// The text an on/off setting file holds for `enabled`.
pub open spec fn bool_text(enabled: bool) -> Seq<char> {
    if enabled {
        "true"@
    } else {
        "false"@
    }
}

/// `bool::to_string`, the text an on/off setting file is written with.
pub fn bool_file_text(enabled: bool) -> (r: &'static str)
    ensures
        r@ == bool_text(enabled),
{
    if enabled {
        "true"
    } else {
        "false"
    }
}

/// A setting that is off unless its file reads `true`, white space aside.
pub open spec fn off_unless_true(contents: Option<Seq<char>>) -> bool {
    match contents {
        Some(c) => trimmed(c) == "true"@,
        None => false,
    }
}

pub open spec fn opt_ref_view(o: Option<&str>) -> Option<Seq<char>> {
    match o {
        Some(s) => Some(s@),
        None => None,
    }
}

/// Whether a setting file with `contents` (none when it cannot be read) reads `true`.
pub fn reads_true(contents: Option<&str>) -> (r: bool)
    ensures
        r == off_unless_true(opt_ref_view(contents)),
{
    match contents {
        Some(c) => str_eq(trim(c), "true"),
        None => false,
    }
}

/// The file that holds the Do Not Disturb state, in the profile's config directory.
pub fn dnd_path(config_dir: &str) -> (r: String)
    ensures
        r@ == path_join(config_dir@, "dnd"@),
{
    join(config_dir, "dnd")
}

/// The file the notification icon is written to, in the profile's data directory.
pub fn notification_icon_path(data_dir: &str) -> (r: String)
    ensures
        r@ == path_join(data_dir@, "notification-icon.png"@),
{
    join(data_dir, "notification-icon.png")
}

/// The user's stylesheet, in the profile's config directory.
pub fn custom_css_path(config_dir: &str) -> (r: String)
    ensures
        r@ == path_join(config_dir@, "custom.css"@),
{
    join(config_dir, "custom.css")
}

/// The persisted Do Not Disturb state, from the contents of its file.
pub fn load_dnd(contents: Option<&str>) -> (r: bool)
    ensures
        r == off_unless_true(opt_ref_view(contents)),
{
    reads_true(contents)
}

/// The single way to change Do Not Disturb: sets the flag and returns what
/// its file is written with.
pub fn set_dnd(dnd: &mut bool, enabled: bool) -> (contents: &'static str)
    ensures
        *final(dnd) == enabled,
        contents@ == bool_text(enabled),
{
    *dnd = enabled;
    bool_file_text(enabled)
}

/// Flip Do Not Disturb; returns the new state.
pub fn toggle_dnd(dnd: &mut bool) -> (r: bool)
    ensures
        r == !*old(dnd),
        *final(dnd) == r,
{
    let new_state = !*dnd;
    set_dnd(dnd, new_state);
    new_state
}

pub(crate) proof fn lemma_bool_text_trimmed(enabled: bool)
    ensures
        trimmed(bool_text(enabled)) == bool_text(enabled),
        (bool_text(enabled) == "true"@) == enabled,
        (bool_text(enabled) == "false"@) == !enabled,
{
    reveal_strlit("true");
    reveal_strlit("false");
    let t = bool_text(enabled);
    assert(!crate::text::is_white_space(t[0]));
    assert(!crate::text::is_white_space(t.last()));
    assert(crate::text::trim_start_by(t, crate::text::white_space_pred()) == t);
    assert(crate::text::trim_end_by(t, crate::text::white_space_pred()) == t);
    assert("true"@.len() != "false"@.len());
}

/// Law: Do Not Disturb survives a restart: the state written by `set_dnd` is
/// the state `load_dnd` reads back.
pub proof fn law_dnd_round_trip(enabled: bool)
    ensures
        off_unless_true(Some(bool_text(enabled))) == enabled,
{
    lemma_bool_text_trimmed(enabled);
}

/// The theme name reported to the page: the desktop portal's answer when it
/// gives one, else the window's own theme.
pub open spec fn system_theme(portal_dark: Option<bool>, window_dark: bool) -> Seq<char> {
    let dark = match portal_dark {
        Some(d) => d,
        None => window_dark,
    };
    if dark {
        "dark"@
    } else {
        "light"@
    }
}

/// The theme name reported to the page.
pub fn get_system_theme(portal_dark: Option<bool>, window_dark: bool) -> (r: String)
    ensures
        r@ == system_theme(portal_dark, window_dark),
{
    let dark = match portal_dark {
        Some(d) => d,
        None => window_dark,
    };
    if dark {
        owned("dark")
    } else {
        owned("light")
    }
}

/// Record the unread count; returns whether it changed, in which case the
/// tray badge has to be redrawn.
pub fn update_badge(current: &mut u32, count: u32) -> (changed: bool)
    ensures
        *final(current) == count,
        changed == (*old(current) != count),
{
    let previous = *current;
    *current = count;
    previous != count
}

/// The user's stylesheet: the file's contents, or nothing when it cannot be read.
pub fn get_custom_css(contents: Option<String>) -> (r: String)
    ensures
        r@ == match contents {
            Some(c) => c@,
            None => Seq::<char>::empty(),
        },
{
    match contents {
        Some(c) => c,
        None => String::new(),
    }
}

/// Whether a notification action should raise the window and open the chat:
/// only a click on the notification itself (`default`) does.
pub fn opens_chat(action: &str) -> (r: bool)
    ensures
        r == (action@ == "default"@),
{
    str_eq(action, "default")
}

/// The files handed to the page for a drop (or a paste of `file:` URLs): one
/// per path that could be read, in order, named after its last component
/// (`fallback` when it has none).
pub open spec fn dropped_files_spec(
    reads: Seq<(Seq<u8>, Option<Seq<u8>>)>,
    fallback: Seq<char>,
) -> Seq<(Seq<char>, Seq<char>, Seq<char>)>
    decreases reads.len(),
{
    if reads.len() == 0 {
        Seq::empty()
    } else {
        let r = dropped_files_spec(reads.drop_last(), fallback);
        let (path, data) = reads.last();
        match data {
            Some(d) => r.push((local_file_name(path, fallback), guessed_mime(mime_extension(path)), b64_encode(d))),
            None => r,
        }
    }
}

pub open spec fn files_view(files: Seq<ClipboardFile>) -> Seq<(Seq<char>, Seq<char>, Seq<char>)> {
    files.map_values(|f: ClipboardFile| (f.name@, f.mime@, f.data@))
}

pub open spec fn reads_view(reads: Seq<(Vec<u8>, Option<Vec<u8>>)>) -> Seq<(Seq<u8>, Option<Seq<u8>>)> {
    reads.map_values(|r: (Vec<u8>, Option<Vec<u8>>)| (r.0@, opt_bytes(r.1)))
}

/// The files handed to the page: `reads` pairs each path, as bytes, with its
/// contents, or none when it could not be read.
pub fn dropped_files(reads: &Vec<(Vec<u8>, Option<Vec<u8>>)>, fallback: &str) -> (r: Vec<ClipboardFile>)
    ensures
        files_view(r@) == dropped_files_spec(reads_view(reads@), fallback@),
{
    let mut files: Vec<ClipboardFile> = Vec::new();
    let mut i: usize = 0;
    while i < reads.len()
        invariant
            i <= reads@.len(),
            files_view(files@) == dropped_files_spec(reads_view(reads@).take(i as int), fallback@),
        decreases reads@.len() - i,
    {
        proof {
            let t = reads_view(reads@).take(i as int + 1);
            assert(t.drop_last() =~= reads_view(reads@).take(i as int));
        }
        let ghost before = files@;
        match &reads[i].1 {
            Some(d) => {
                let f = clipboard_file(reads[i].0.as_slice(), d.as_slice(), fallback);
                files.push(f);
                assert(files_view(files@) =~= files_view(before).push((f.name@, f.mime@, f.data@)));
            },
            None => {},
        }
        i = i + 1;
        assert(files_view(files@) =~= dropped_files_spec(reads_view(reads@).take(i as int), fallback@));
    }
    assert(reads_view(reads@).take(reads@.len() as int) =~= reads_view(reads@));
    files
}

} // verus!
