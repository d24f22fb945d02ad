//! Download handling.
//!
//! A download is staged into the profile's data directory, and once it
//! finishes the user is asked where to keep it. With the "Ask where to save"
//! toggle off, files go straight to the default download directory.

use vstd::prelude::*;
use crate::commands::{bool_file_text, bool_text, opt_ref_view};
use crate::links::{opt_str_view, parse_url, parsed_url};
use crate::paths::{file_name, join, parent, path_eq, path_file_name, path_join, path_parent, path_within, same_path, within};
use crate::slot::{Slot, slot_after_take, slot_taken};
use crate::text::{decimal, owned, push_decimal, str_eq, str_starts_with, starts_with, trim, trimmed};
use crate::commands::after_last;
use crate::commands::after_last_char;

verus! {

/// The last segment of a URL path, as `Url::path_segments().next_back()` gives
/// it: none for a path that does not start with `/` (a cannot-be-a-base URL).
pub open spec fn last_path_segment(path: Seq<char>) -> Option<Seq<char>> {
    if starts_with(path, "/"@) {
        Some(after_last(path, '/'))
    } else {
        None
    }
}

/// The last path segment of the URL `url`, if it parses and has one.
pub open spec fn url_last_segment(url: Seq<char>) -> Option<Seq<char>> {
    match parsed_url(url) {
        Some(p) => last_path_segment(p.path),
        None => None,
    }
}

/// A usable file name: `download` is WebKit's placeholder for "no idea".
pub open spec fn informative(name: Seq<char>) -> bool {
    name.len() > 0 && name != "download"@
}

/// The name to save under: what the page asked for, else the name WebKit
/// guessed, else the last URL segment, else `download`. WebKit's guess is
/// `None` when its path has no file name, and `Some(None)` when the name is
/// not valid text; such a name is kept as WebKit gave it, which the result
/// says by being `None`.
pub open spec fn resolved_filename(
    pending: Option<Seq<char>>,
    destination_name: Option<Option<Seq<char>>>,
    url: Seq<char>,
) -> Option<Seq<char>> {
    match pending {
        Some(p) => Some(p),
        None => match destination_name {
            Some(None) => None,
            Some(Some(d)) if d != "download"@ => Some(d),
            _ => match url_last_segment(url) {
                Some(s) if informative(s) => Some(s),
                _ => Some("download"@),
            },
        },
    }
}

/// Law: a name the page asked for always wins: it is the name saved under,
/// whatever WebKit proposed and whatever the URL.
pub proof fn law_page_name_wins(asked: Seq<char>, destination_name: Option<Option<Seq<char>>>, url: Seq<char>)
    ensures
        resolved_filename(Some(asked), destination_name, url) == Some(asked),
{
}

/// Law: without a name from the page, a text name WebKit proposed is kept
/// unless it is WebKit's placeholder `download`, and a proposed name that is
/// not text is kept as WebKit gave it.
pub proof fn law_webkit_name_next(destination_name: Option<Option<Seq<char>>>, url: Seq<char>)
    ensures
        (destination_name matches Some(Some(d)) && d != "download"@) ==> resolved_filename(None, destination_name, url) == Some(destination_name->0->0),
        destination_name == Some(None::<Seq<char>>) ==> resolved_filename(None, destination_name, url) is None,
{
}

/// Law: with no name from the page and no usable one from WebKit, the URL's
/// last path segment is used when it is a real name, and `download` otherwise.
pub proof fn law_url_name_last(destination_name: Option<Option<Seq<char>>>, url: Seq<char>)
    requires
        destination_name is None || destination_name == Some(Some("download"@)),
    ensures
        (url_last_segment(url) matches Some(s) && s.len() > 0 && s != "download"@)
            ==> resolved_filename(None, destination_name, url) == url_last_segment(url),
        !(url_last_segment(url) matches Some(s) && s.len() > 0 && s != "download"@)
            ==> resolved_filename(None, destination_name, url) == Some("download"@),
{
}

/// The view of WebKit's proposed file name.
pub open spec fn proposed_view(o: Option<Option<&str>>) -> Option<Option<Seq<char>>> {
    match o {
        None => None,
        Some(None) => Some(None),
        Some(Some(s)) => Some(Some(s@)),
    }
}

/// The last segment of a URL path (`Url::path`); none for a path that does
/// not start with `/`.
pub fn path_last_segment(path: &str) -> (r: Option<&str>)
    ensures
        opt_ref_view(r) == last_path_segment(path@),
{
    if str_starts_with(path, "/") {
        Some(after_last_char(path, '/'))
    } else {
        None
    }
}

/// The last path segment of `url`.
fn last_segment(url: &str) -> (r: Option<String>)
    ensures
        opt_str_view(r) == url_last_segment(url@),
{
    match parse_url(url) {
        Some(p) => match path_last_segment(p.path.as_str()) {
            Some(s) => Some(owned(s)),
            None => None,
        },
        None => None,
    }
}

/// The name to save a download under. Consumes the name the page asked for.
/// `destination_name` is the file name of the path WebKit proposed; `None` in
/// the result keeps that name, which is not valid text, as it is.
pub fn resolve_filename(pending: &mut Slot, destination_name: Option<Option<&str>>, url: &str) -> (r: Option<String>)
    ensures
        opt_str_view(r) == resolved_filename(slot_taken(old(pending)@), proposed_view(destination_name), url@),
        final(pending)@ == slot_after_take(old(pending)@),
{
    let asked = pending.take();
    match asked {
        Some(p) => return Some(p),
        None => {},
    }
    match destination_name {
        Some(None) => return None,
        Some(Some(d)) => {
            if !str_eq(d, "download") {
                return Some(owned(d));
            }
        },
        None => {},
    }
    match last_segment(url) {
        Some(s) => {
            if !s.as_str().is_empty() && !str_eq(s.as_str(), "download") {
                return Some(s);
            }
        },
        None => {},
    }
    Some(owned("download"))
}

/// The staging directory for the next download: a fresh numbered directory
/// under `stage_root`, so the staged file keeps its real name. Advances the
/// counter, wrapping as `AtomicU64::fetch_add` does.
pub fn next_stage_dir(stage_root: &str, seq: &mut u64) -> (r: String)
    ensures
        r@ == path_join(stage_root@, decimal(*old(seq) as nat)),
        *final(seq) == (if *old(seq) == u64::MAX { 0 } else { (*old(seq) + 1) as u64 }),
{
    let n = *seq;
    *seq = n.wrapping_add(1);
    let mut name = String::new();
    push_decimal(&mut name, n);
    assert(name@ =~= decimal(n as nat));
    join(stage_root, name.as_str())
}

/// The directory WebKit should write a download into: `staged_dir` when the
/// user is to be asked and staging worked, else `default_dir`; `None` leaves
/// WebKit's own choice in place.
pub open spec fn destination_dir_spec(staged_dir: Option<Seq<char>>, default_dir: Option<Seq<char>>) -> Option<Seq<char>> {
    match staged_dir {
        Some(d) => Some(d),
        None => default_dir,
    }
}

/// Where WebKit should write a download named `filename`.
pub open spec fn requested_destination(
    staged_dir: Option<Seq<char>>,
    default_dir: Option<Seq<char>>,
    filename: Seq<char>,
) -> Option<Seq<char>> {
    match destination_dir_spec(staged_dir, default_dir) {
        Some(d) => Some(path_join(d, filename)),
        None => None,
    }
}

/// The directory a download goes to. `staged_dir` is the staging directory
/// when the user is to be asked and it could be created; when staging failed
/// the download is saved directly rather than lost.
pub fn destination_dir<'a>(staged_dir: Option<&'a str>, default_dir: Option<&'a str>) -> (r: Option<&'a str>)
    ensures
        opt_ref_view(r) == destination_dir_spec(opt_ref_view(staged_dir), opt_ref_view(default_dir)),
{
    match staged_dir {
        Some(d) => Some(d),
        None => default_dir,
    }
}

/// Pick the path WebKit writes to, for a download named `filename`.
pub fn on_requested(staged_dir: Option<&str>, default_dir: Option<&str>, filename: &str) -> (r: Option<String>)
    ensures
        opt_str_view(r) == requested_destination(opt_ref_view(staged_dir), opt_ref_view(default_dir), filename@),
{
    match destination_dir(staged_dir, default_dir) {
        Some(d) => Some(join(d, filename)),
        None => None,
    }
}

/// Whether `text` lies inside the directory `home`: it is `home` itself, or
/// `home` is followed by a path separator (or ends in one). A sibling whose
/// name merely begins with the same letters is not inside.
pub open spec fn within_home(text: Seq<char>, home: Seq<char>) -> bool {
    &&& starts_with(text, home)
    &&& {
        ||| text.len() == home.len()
        ||| text[home.len() as int] == '/'
        ||| (home.len() > 0 && home.last() == '/')
    }
}

/// `path` with the home directory abbreviated to `~` when the path lies in it.
pub open spec fn prettified(text: Seq<char>, home: Option<Seq<char>>) -> Seq<char> {
    match home {
        Some(h) if within_home(text, h) => "~"@ + text.skip(h.len() as int),
        _ => text,
    }
}

/// Abbreviate the home directory so a notification stays readable.
pub fn pretty(text: &str, home: Option<&str>) -> (r: String)
    ensures
        r@ == prettified(text@, opt_ref_view(home)),
{
    match home {
        Some(h) => {
            if str_starts_with(text, h) {
                let n = h.unicode_len();
                let len = text.unicode_len();
                let inside = n == len || text.get_char(n) == '/' || (n > 0 && h.get_char(n - 1) == '/');
                if inside {
                    let rest = text.substring_char(n, len);
                    let mut r = owned("~");
                    r.append(rest);
                    assert(text@.subrange(n as int, text@.len() as int) =~= text@.skip(n as int));
                    return r;
                }
            }
        },
        None => {},
    }
    owned(text)
}

/// What to do once a download has finished.
#[derive(Debug, Clone, PartialEq, Eq)]
pub enum Finished {
    /// Nothing to report.
    Nothing,
    /// Show a notification with this body.
    Notify(String),
    /// Drop the staged file.
    Discard,
    /// Ask the user where to keep the staged file.
    Prompt,
}

/// The model of [`Finished`].
pub enum FinishedView {
    Nothing,
    Notify(Seq<char>),
    Discard,
    Prompt,
}

impl View for Finished {
    type V = FinishedView;

    open spec fn view(&self) -> FinishedView {
        match self {
            Finished::Nothing => FinishedView::Nothing,
            Finished::Notify(s) => FinishedView::Notify(s@),
            Finished::Discard => FinishedView::Discard,
            Finished::Prompt => FinishedView::Prompt,
        }
    }
}

/// What follows a finished download: without a path, a plain notice when it
/// succeeded; a failed download is discarded; a staged one (`staged`: the path
/// lies under the staging root) is handed to the save dialog; one saved
/// directly is reported with its (abbreviated) path.
pub open spec fn finished_decision(
    path: Option<Seq<char>>,
    success: bool,
    staged: bool,
    home: Option<Seq<char>>,
) -> FinishedView {
    match path {
        None => if success {
            FinishedView::Notify("File downloaded successfully"@)
        } else {
            FinishedView::Nothing
        },
        Some(p) => if !success {
            FinishedView::Discard
        } else if staged {
            FinishedView::Prompt
        } else {
            FinishedView::Notify("Saved to "@ + prettified(p, home))
        },
    }
}

/// What follows a finished download, the staging root given.
pub open spec fn finished_action(
    path: Option<Seq<char>>,
    success: bool,
    stage_root: Seq<char>,
    home: Option<Seq<char>>,
) -> FinishedView {
    finished_decision(
        path,
        success,
        match path {
            Some(p) => path_within(p, stage_root),
            None => false,
        },
        home,
    )
}

/// Decide what follows a finished download; `staged` says whether the path
/// lies under the staging root.
pub fn decide_finished(path: Option<&str>, success: bool, staged: bool, home: Option<&str>) -> (r: Finished)
    ensures
        r@ == finished_decision(opt_ref_view(path), success, staged, opt_ref_view(home)),
{
    match path {
        None => if success {
            Finished::Notify(owned("File downloaded successfully"))
        } else {
            Finished::Nothing
        },
        Some(p) => if !success {
            Finished::Discard
        } else if staged {
            Finished::Prompt
        } else {
            let mut body = owned("Saved to ");
            let shown = pretty(p, home);
            body.append(shown.as_str());
            Finished::Notify(body)
        },
    }
}

/// Decide what follows a finished download.
pub fn on_finished(path: Option<&str>, success: bool, stage_root: &str, home: Option<&str>) -> (r: Finished)
    ensures
        r@ == finished_action(opt_ref_view(path), success, stage_root@, opt_ref_view(home)),
{
    let staged = match path {
        Some(p) => within(p, stage_root),
        None => false,
    };
    decide_finished(path, success, staged, home)
}

/// The name the save dialog proposes for a staged file.
pub fn staged_name(staged: &str) -> (r: String)
    ensures
        r@ == match path_file_name(staged@) {
            Some(n) => n,
            None => "download"@,
        },
{
    match file_name(staged) {
        Some(n) => n,
        None => owned("download"),
    }
}

/// The notification after the save dialog's move: where the file went, or
/// which file could not be saved.
pub fn save_outcome(moved: bool, shown_target: &str, name: &str) -> (r: String)
    ensures
        r@ == if moved {
            "Saved to "@ + shown_target@
        } else {
            "Could not save "@ + name@
        },
{
    if moved {
        let mut r = owned("Saved to ");
        r.append(shown_target);
        r
    } else {
        let mut r = owned("Could not save ");
        r.append(name);
        r
    }
}

/// Whether a file may be discarded: only staged files are.
pub fn may_discard(staged: &str, stage_root: &str) -> (r: bool)
    ensures
        r == path_within(staged@, stage_root@),
{
    within(staged, stage_root)
}

/// The staging directory to remove once its file is gone: the file's parent,
/// when that lies under the staging root and is not the root itself.
pub fn stage_dir_to_clear(staged: &str, stage_root: &str) -> (r: Option<String>)
    ensures
        opt_str_view(r) == match path_parent(staged@) {
            Some(d) if path_within(d, stage_root@) && !path_eq(d, stage_root@) => Some(d),
            _ => None,
        },
{
    match parent(staged) {
        Some(d) => {
            if within(d.as_str(), stage_root) && !same_path(d.as_str(), stage_root) {
                Some(d)
            } else {
                None
            }
        },
        None => None,
    }
}

/// A setting that is on unless its file reads `false`, white space aside.
pub open spec fn on_unless_false(contents: Option<Seq<char>>) -> bool {
    match contents {
        Some(c) => trimmed(c) != "false"@,
        None => true,
    }
}

/// Where downloads are staged until the user has chosen where to keep them.
pub fn stage_root(data_dir: &str) -> (r: String)
    ensures
        r@ == path_join(data_dir@, "incomplete"@),
{
    join(data_dir, "incomplete")
}

/// The file that holds the "Ask where to save" toggle.
pub fn ask_location_path(config_dir: &str) -> (r: String)
    ensures
        r@ == path_join(config_dir@, "ask-download-location"@),
{
    join(config_dir, "ask-download-location")
}

/// The persisted "Ask where to save" toggle, from the contents of its file.
pub fn load_ask_location(contents: Option<&str>) -> (r: bool)
    ensures
        r == on_unless_false(opt_ref_view(contents)),
{
    match contents {
        Some(c) => !str_eq(trim(c), "false"),
        None => true,
    }
}

/// Flip the "Ask where to save" toggle; returns the new state and what its
/// file is written with.
pub fn toggle_ask_location(ask: &mut bool) -> (r: (bool, &'static str))
    ensures
        r.0 == !*old(ask),
        *final(ask) == r.0,
        r.1@ == bool_text(r.0),
{
    let enabled = !*ask;
    *ask = enabled;
    (enabled, bool_file_text(enabled))
}

/// Whether a finished download is announced: download notices bypass the
/// notification command, so they honour Do Not Disturb themselves.
pub fn announces_download(success: bool, dnd: bool) -> (r: bool)
    ensures
        r == (success && !dnd),
{
    success && !dnd
}

/// Law: the "Ask where to save" toggle survives a restart.
pub proof fn law_ask_location_round_trip(enabled: bool)
    ensures
        on_unless_false(Some(bool_text(enabled))) == enabled,
{
    crate::commands::lemma_bool_text_trimmed(enabled);
}

/// Law: a failed download is never reported as saved, and only a staged
/// download reaches the save dialog.
pub proof fn law_finished(path: Option<Seq<char>>, success: bool, stage_root: Seq<char>, home: Option<Seq<char>>)
    ensures
        !success ==> !(finished_action(path, success, stage_root, home) is Notify),
        finished_action(path, success, stage_root, home) is Prompt ==> success && path_within(path->0, stage_root),
{
}

} // verus!
