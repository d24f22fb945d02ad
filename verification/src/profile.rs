//! Profiles: separate sessions, each with its own data and config directories.

use vstd::prelude::*;
use crate::commands::opt_ref_view;
use crate::paths::{join, path_join};
use crate::text::{owned, str_eq};

verus! {

/// The command line.
#[derive(Debug, Clone, PartialEq, Eq)]
pub struct Args {
    /// Profile name to use (creates a separate session).
    pub profile: Option<String>,
    /// List the available profiles.
    pub list_profiles: bool,
    /// Start minimized to the system tray.
    pub minimized: bool,
}

/// A profile: its name, where its session data and its settings live, and
/// whether the window starts hidden.
#[derive(Debug, Clone, PartialEq, Eq)]
pub struct Profile {
    pub name: String,
    pub data_dir: String,
    pub config_dir: String,
    pub start_minimized: bool,
}

/// A name that selects a profile of its own: anything but empty or `default`.
pub open spec fn is_custom_name(n: Seq<char>) -> bool {
    n.len() > 0 && n != "default"@
}

/// The app's directory under a per-user base directory, with the usual
/// location standing in when the platform reports none.
pub open spec fn app_dir(root: Option<Seq<char>>, fallback: Seq<char>) -> Seq<char> {
    path_join(
        match root {
            Some(r) => r,
            None => fallback,
        },
        "walz"@,
    )
}

/// The directory of a named profile under an app directory.
pub open spec fn profile_dir(base: Seq<char>, name: Seq<char>) -> Seq<char> {
    path_join(path_join(base, "profiles"@), name)
}

/// Where a profile's session data lives.
pub open spec fn data_dir_of(name: Option<Seq<char>>, data_root: Option<Seq<char>>) -> Seq<char> {
    let base = app_dir(data_root, "~/.local/share"@);
    match name {
        Some(n) if is_custom_name(n) => profile_dir(base, n),
        _ => base,
    }
}

/// Where a profile's settings live.
pub open spec fn config_dir_of(name: Option<Seq<char>>, config_root: Option<Seq<char>>) -> Seq<char> {
    let base = app_dir(config_root, "~/.config"@);
    match name {
        Some(n) if is_custom_name(n) => profile_dir(base, n),
        _ => base,
    }
}

/// The name a profile ends up with.
pub open spec fn name_of(name: Option<Seq<char>>) -> Seq<char> {
    match name {
        Some(n) if is_custom_name(n) => n,
        _ => "default"@,
    }
}

/// The window title for a profile.
pub open spec fn window_title_spec(name: Seq<char>) -> Seq<char> {
    if name == "default"@ {
        "Walz"@
    } else {
        "Walz ("@ + name + ")"@
    }
}

/// The tray tooltip for a profile.
pub open spec fn tray_tooltip_spec(name: Seq<char>) -> Seq<char> {
    if name == "default"@ {
        "Walz"@
    } else {
        "Walz - "@ + name
    }
}

fn app_dir_exec(root: Option<&str>, fallback: &str) -> (r: String)
    ensures
        r@ == app_dir(opt_ref_view(root), fallback@),
{
    let base = match root {
        Some(r) => r,
        None => fallback,
    };
    join(base, "walz")
}

fn profile_dir_exec(base: &str, name: &str) -> (r: String)
    ensures
        r@ == profile_dir(base@, name@),
{
    let profiles = join(base, "profiles");
    join(profiles.as_str(), name)
}

impl Profile {
    /// The profile named `name` (the default profile when the name is missing,
    /// empty or `default`). `data_root` and `config_root` are the platform's
    /// per-user data and config directories, when it has them.
    pub fn new(
        name: Option<String>,
        start_minimized: bool,
        data_root: Option<&str>,
        config_root: Option<&str>,
    ) -> (p: Profile)
        ensures
            p.name@ == name_of(match name { Some(n) => Some(n@), None => None }),
            p.data_dir@ == data_dir_of(match name { Some(n) => Some(n@), None => None }, opt_ref_view(data_root)),
            p.config_dir@ == config_dir_of(match name { Some(n) => Some(n@), None => None }, opt_ref_view(config_root)),
            p.start_minimized == start_minimized,
    {
        let base_data = app_dir_exec(data_root, "~/.local/share");
        let base_config = app_dir_exec(config_root, "~/.config");
        match name {
            Some(n) => {
                if !n.as_str().is_empty() && !str_eq(n.as_str(), "default") {
                    let data_dir = profile_dir_exec(base_data.as_str(), n.as_str());
                    let config_dir = profile_dir_exec(base_config.as_str(), n.as_str());
                    return Profile { name: n, data_dir, config_dir, start_minimized };
                }
            },
            None => {},
        }
        Profile { name: owned("default"), data_dir: base_data, config_dir: base_config, start_minimized }
    }

    /// The window title: the app's name, with the profile's name unless it is
    /// the default profile.
    pub fn window_title(&self) -> (r: String)
        ensures
            r@ == window_title_spec(self.name@),
    {
        if str_eq(self.name.as_str(), "default") {
            owned("Walz")
        } else {
            let mut t = owned("Walz (");
            t.append(self.name.as_str());
            t.append(")");
            t
        }
    }

    /// The tray tooltip: the app's name, with the profile's name unless it is
    /// the default profile.
    pub fn tray_tooltip(&self) -> (r: String)
        ensures
            r@ == tray_tooltip_spec(self.name@),
    {
        if str_eq(self.name.as_str(), "default") {
            owned("Walz")
        } else {
            let mut t = owned("Walz - ");
            t.append(self.name.as_str());
            t
        }
    }
}

/// Law: two profiles never share a session: distinct names give distinct
/// profile names, and every name but the default's is kept as given.
pub proof fn law_profile_names(a: Option<Seq<char>>, b: Option<Seq<char>>)
    ensures
        a is Some && is_custom_name(a->0) ==> name_of(a) == a->0,
        a is Some && is_custom_name(a->0) && b is Some && is_custom_name(b->0) && a != b
            ==> name_of(a) != name_of(b),
        !(a is Some && is_custom_name(a->0)) ==> name_of(a) == "default"@,
{
}

/// The profile of this process, set once at start-up.
pub struct ProfileCell {
    profile: Option<Profile>,
}

impl ProfileCell {
    /// A cell with no profile yet.
    pub fn new() -> (c: ProfileCell)
        ensures
            !c.is_set(),
    {
        ProfileCell { profile: None }
    }

    /// Whether the profile has been set.
    pub closed spec fn is_set(&self) -> bool {
        self.profile is Some
    }

    /// The profile held, once set.
    pub closed spec fn value(&self) -> Profile
        recommends
            self.is_set(),
    {
        self.profile->0
    }
}

/// Set the profile from the command line, once. Returns `false` when the
/// command line asks for the list of profiles instead (the caller prints it
/// and exits); a cell already set is left as it is.
pub fn init(cell: &mut ProfileCell, args: Args, data_root: Option<&str>, config_root: Option<&str>) -> (run: bool)
    ensures
        old(cell).is_set() ==> run && final(cell).is_set() && final(cell).value() == old(cell).value(),
        !old(cell).is_set() ==> run == !args.list_profiles,
        !old(cell).is_set() && run ==> final(cell).is_set() && final(cell).value().name@ == name_of(
            match args.profile { Some(n) => Some(n@), None => None },
        ) && final(cell).value().start_minimized == args.minimized
            && final(cell).value().data_dir@ == data_dir_of(match args.profile { Some(n) => Some(n@), None => None }, opt_ref_view(data_root))
            && final(cell).value().config_dir@ == config_dir_of(match args.profile { Some(n) => Some(n@), None => None }, opt_ref_view(config_root)),
        !old(cell).is_set() && !run ==> !final(cell).is_set(),
{
    if cell.profile.is_some() {
        return true;
    }
    if args.list_profiles {
        return false;
    }
    cell.profile = Some(Profile::new(args.profile, args.minimized, data_root, config_root));
    true
}

/// The profile of this process. Only to be asked once it has been set.
pub fn get(cell: &ProfileCell) -> (p: &Profile)
    requires
        cell.is_set(),
    ensures
        *p == cell.value(),
{
    cell.profile.as_ref().unwrap()
}

/// All profiles: the default one, then those found on disk (`found`: the
/// names of the directories under the profiles directory, in the order read).
pub fn get_all_profiles(found: Vec<String>) -> (r: Vec<String>)
    ensures
        r.deep_view() == seq!["default"@] + found.deep_view(),
{
    let mut r: Vec<String> = Vec::new();
    r.push(owned("default"));
    let mut i: usize = 0;
    while i < found.len()
        invariant
            i <= found@.len(),
            r.deep_view() == seq!["default"@] + found.deep_view().take(i as int),
        decreases found@.len() - i,
    {
        let name = found[i].clone();
        assert(name@ == found.deep_view()[i as int]);
        let ghost before = r.deep_view();
        r.push(name);
        assert(r.deep_view() =~= before.push(name@));
        assert(found.deep_view().take(i as int + 1) =~= found.deep_view().take(i as int).push(name@));
        i = i + 1;
        assert(r.deep_view() =~= seq!["default"@] + found.deep_view().take(i as int));
    }
    assert(found.deep_view().take(found@.len() as int) =~= found.deep_view());
    r
}

/// The lines printed for `--list-profiles`.
pub fn profile_listing(found: &Vec<String>) -> (r: Vec<String>)
    ensures
        r@.len() == found@.len() + 2,
        r[0]@ == "Available profiles:"@,
        r[1]@ == "  default"@,
        forall|i: int| 0 <= i < found@.len() ==> #[trigger] r[i + 2]@ == "  "@ + found[i]@,
{
    let mut r: Vec<String> = Vec::new();
    r.push(owned("Available profiles:"));
    r.push(owned("  default"));
    let mut i: usize = 0;
    while i < found.len()
        invariant
            i <= found@.len(),
            r@.len() == i + 2,
            r[0]@ == "Available profiles:"@,
            r[1]@ == "  default"@,
            forall|k: int| 0 <= k < i ==> #[trigger] r[k + 2]@ == "  "@ + found[k]@,
        decreases found@.len() - i,
    {
        let mut line = owned("  ");
        line.append(found[i].as_str());
        r.push(line);
        i = i + 1;
    }
    r
}

} // verus!
