//! Mirror the desktop's own Do Not Disturb switch into the app.
//!
//! Plasma answers through the `Inhibited` property of its notification server,
//! GNOME through the `show-banners` GSetting; a desktop that speaks neither
//! reports nothing and the feature stays inert. The desktop is polled, and its
//! state is applied only while the toggle is on, and only on a change.

use vstd::prelude::*;
use crate::commands::{bool_file_text, bool_text, off_unless_true, opt_ref_view, reads_true};
use crate::paths::{join, path_join};
use crate::text::{ascii_upper, ascii_uppercase, chars_of, split_by, lemma_split_by_nonempty};

verus! {

/// The file that holds the "follow the desktop" toggle.
pub fn follow_path(config_dir: &str) -> (r: String)
    ensures
        r@ == path_join(config_dir@, "follow-desktop-dnd"@),
{
    join(config_dir, "follow-desktop-dnd")
}

/// The persisted "follow the desktop" toggle, from the contents of its file.
pub fn load_follow(contents: Option<&str>) -> (r: bool)
    ensures
        r == off_unless_true(opt_ref_view(contents)),
{
    reads_true(contents)
}

/// Flip the "follow the desktop" toggle. Returns the new state, what its file
/// is written with, and the desktop state to adopt at once: when the toggle is
/// switched on the desktop's current state (`desktop`) is applied straight away.
pub fn toggle_follow(follow: &mut bool, desktop: Option<bool>) -> (r: (bool, &'static str, Option<bool>))
    ensures
        r.0 == !*old(follow),
        *final(follow) == r.0,
        r.1@ == bool_text(r.0),
        r.2 == (if r.0 { desktop } else { None }),
{
    let enabled = !*follow;
    *follow = enabled;
    let adopt = if enabled {
        desktop
    } else {
        None
    };
    (enabled, bool_file_text(enabled), adopt)
}

/// Law: the "follow the desktop" toggle survives a restart.
pub proof fn law_follow_round_trip(enabled: bool)
    ensures
        off_unless_true(Some(bool_text(enabled))) == enabled,
{
    crate::commands::lemma_bool_text_trimmed(enabled);
}

/// One poll of the desktop: the reading to remember and the Do Not Disturb
/// state to apply, if any.
#[derive(Debug, Clone, PartialEq, Eq)]
pub struct WatchStep {
    pub last: Option<bool>,
    pub apply: Option<bool>,
}

/// One poll: while following, a reading that differs from the last one is
/// remembered and applied; while not following, the last reading is
/// forgotten, so switching the toggle back on applies the desktop's state.
pub open spec fn watch_step_spec(follow: bool, last: Option<bool>, state: Option<bool>) -> (Option<bool>, Option<bool>) {
    if follow {
        if state is Some && state != last {
            (state, state)
        } else {
            (last, None)
        }
    } else {
        (None, None)
    }
}

/// One poll of the desktop's Do Not Disturb state.
pub fn watch_step(follow: bool, last: Option<bool>, state: Option<bool>) -> (r: WatchStep)
    ensures
        (r.last, r.apply) == watch_step_spec(follow, last, state),
{
    if follow {
        if state.is_some() && state != last {
            WatchStep { last: state, apply: state }
        } else {
            WatchStep { last, apply: None }
        }
    } else {
        WatchStep { last: None, apply: None }
    }
}

/// Law: a manual Do Not Disturb flip is not fought over: once a reading has
/// been applied, polling the same reading again applies nothing.
pub proof fn law_watch_applies_once(follow: bool, last: Option<bool>, state: Option<bool>)
    ensures
        watch_step_spec(follow, watch_step_spec(follow, last, state).0, state).1 is None,
{
}

/// Law: while the desktop is followed, every reading that differs from the
/// last one is both remembered and applied, in either direction; a reading
/// that is missing or unchanged applies nothing; and while it is not followed
/// nothing is applied and no reading is kept.
pub proof fn law_watch_applies_changes(follow: bool, last: Option<bool>, state: Option<bool>)
    ensures
        follow && state is Some && state != last ==> watch_step_spec(follow, last, state) == (state, state),
        follow && (state is None || state == last) ==> watch_step_spec(follow, last, state).1 is None,
        !follow ==> watch_step_spec(follow, last, state) == (None::<bool>, None::<bool>),
{
}

/// Law: switching the toggle off forgets the last reading, so switching it back
/// on applies whatever the desktop reports, even if it did not change.
pub proof fn law_reenable_applies(last: Option<bool>, before: Option<bool>, now: bool)
    ensures
        watch_step_spec(true, watch_step_spec(false, last, before).0, Some(now)).1 == Some(now),
{
}

/// The desktop's state: Plasma's answer, else GNOME's.
pub fn desktop_state(plasma: Option<bool>, gnome: Option<bool>) -> (r: Option<bool>)
    ensures
        r == (if plasma is Some { plasma } else { gnome }),
{
    match plasma {
        Some(p) => Some(p),
        None => gnome,
    }
}

/// GNOME's Do Not Disturb is the inverse of `show-banners`.
pub fn dnd_from_banners(show_banners: bool) -> (r: bool)
    ensures
        r == !show_banners,
{
    !show_banners
}

/// Whether `XDG_CURRENT_DESKTOP` names GNOME: one of its `:`-separated entries,
/// upper-cased, is `GNOME`.
pub open spec fn gnome_session(session: Seq<char>) -> bool {
    split_by(ascii_uppercase(session), ':').contains("GNOME"@)
}

fn to_upper(c: char) -> (r: char)
    ensures
        r == ascii_upper(c),
{
    if 'a' <= c && c <= 'z' {
        let code = c as u32 - 32;
        proof {
            assert(code < 128);
        }
        (code as u8) as char
    } else {
        c
    }
}

/// Whether the session is a GNOME one. The GNOME schema ships with the GNOME
/// libraries, so it is readable on desktops that ignore it: the session is
/// checked first.
pub fn is_gnome_session(session: &str) -> (r: bool)
    ensures
        r == gnome_session(session@),
{
    let cs = chars_of(session);
    let ghost up = ascii_uppercase(session@);
    let gnome: Vec<char> = vec!['G', 'N', 'O', 'M', 'E'];
    proof {
        reveal_strlit("GNOME");
        assert(gnome@ =~= "GNOME"@);
    }
    let mut found = false;
    let mut cur: Vec<char> = Vec::new();
    let mut i: usize = 0;
    proof {
        lemma_split_by_nonempty(up.take(0), ':');
        assert(up.take(0) =~= Seq::<char>::empty());
    }
    while i < cs.len()
        invariant
            cs@ == session@,
            up == ascii_uppercase(session@),
            gnome@ == "GNOME"@,
            i <= cs@.len(),
            split_by(up.take(i as int), ':').len() >= 1,
            cur@ == split_by(up.take(i as int), ':').last(),
            found == split_by(up.take(i as int), ':').drop_last().contains("GNOME"@),
        decreases cs@.len() - i,
    {
        let c = to_upper(cs[i]);
        let ghost prev = split_by(up.take(i as int), ':');
        proof {
            let t = up.take(i as int + 1);
            assert(t.drop_last() =~= up.take(i as int));
            assert(t.last() == c);
            lemma_split_by_nonempty(t, ':');
        }
        if c == ':' {
            let is_gnome = vec_eq(&cur, &gnome);
            proof {
                let next = split_by(up.take(i as int + 1), ':');
                assert(next.drop_last() =~= prev);
                assert(prev =~= prev.drop_last().push(prev.last()));
                if is_gnome {
                    assert(prev[prev.len() - 1] == "GNOME"@);
                }
                if prev.contains("GNOME"@) && !found {
                    let k = choose|k: int| 0 <= k < prev.len() && prev[k] == "GNOME"@;
                    if k < prev.len() - 1 {
                        assert(prev.drop_last()[k] == "GNOME"@);
                    }
                }
            }
            found = found || is_gnome;
            cur = Vec::new();
        } else {
            cur.push(c);
            proof {
                let next = split_by(up.take(i as int + 1), ':');
                assert(next.drop_last() =~= prev.drop_last());
            }
        }
        i = i + 1;
    }
    proof {
        assert(up.take(cs@.len() as int) =~= up);
    }
    let last_is_gnome = vec_eq(&cur, &gnome);
    proof {
        let lines = split_by(up, ':');
        assert(lines =~= lines.drop_last().push(lines.last()));
        if lines.contains("GNOME"@) && !found {
            let k = choose|k: int| 0 <= k < lines.len() && lines[k] == "GNOME"@;
            if k < lines.len() - 1 {
                assert(lines.drop_last()[k] == "GNOME"@);
            }
        }
        if last_is_gnome {
            assert(lines[lines.len() - 1] == "GNOME"@);
        }
    }
    found || last_is_gnome
}

fn vec_eq(a: &Vec<char>, b: &Vec<char>) -> (r: bool)
    ensures
        r == (a@ == b@),
{
    if a.len() != b.len() {
        return false;
    }
    let mut i: usize = 0;
    while i < a.len()
        invariant
            a@.len() == b@.len(),
            i <= a@.len(),
            forall|k: int| 0 <= k < i ==> a@[k] == b@[k],
        decreases a@.len() - i,
    {
        if a[i] != b[i] {
            return false;
        }
        i = i + 1;
    }
    assert(a@ =~= b@);
    true
}

/// Whether this desktop can be asked at all, cached after the first answer.
/// `probe` is the desktop's state, which the app only reads while the cache is
/// empty.
pub fn available(cache: &mut Option<bool>, probe: Option<bool>) -> (r: bool)
    ensures
        match *old(cache) {
            Some(v) => r == v && *final(cache) == *old(cache),
            None => r == (probe is Some) && *final(cache) == Some(r),
        },
{
    match *cache {
        Some(v) => v,
        None => {
            let v = probe.is_some();
            *cache = Some(v);
            v
        },
    }
}

} // verus!
