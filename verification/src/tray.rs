//! The tray icon: its unread badge, tooltip and menu.

use vstd::prelude::*;
use crate::text::{decimal, owned, push_decimal, str_eq};

verus! {

/// An RGBA image: 4 bytes per pixel, rows top to bottom.
#[derive(Debug, Clone, PartialEq, Eq)]
pub struct RgbaImage {
    pub pixels: Vec<u8>,
    pub width: u32,
    pub height: u32,
}

/// What `image::load_from_memory(bytes)` decodes to, as RGBA bytes and dimensions.
pub uninterp spec fn decoded_rgba(bytes: Seq<u8>) -> Option<(Seq<u8>, u32, u32)>;

/// `image::load_from_memory(bytes)`, then `to_rgba8()`, taken apart into its raw
/// bytes and dimensions. The crate's `ImageBuffer` only ever holds a buffer at
/// least `width * height * 4` bytes long (its constructors check this).
#[verifier::external_body]
fn decode_rgba(bytes: &[u8]) -> (r: Option<RgbaImage>)
    ensures
        match r {
            Some(img) => decoded_rgba(bytes@) == Some((img.pixels@, img.width, img.height))
                && img.pixels@.len() >= img.width * img.height * 4,
            None => decoded_rgba(bytes@) is None,
        },
{
    let img = image::load_from_memory(bytes).ok()?.to_rgba8();
    let (width, height) = img.dimensions();
    Some(RgbaImage { pixels: img.into_raw(), width, height })
}

/// The badge's radius: a sixth of the icon's shorter side.
pub open spec fn badge_radius(w: int, h: int) -> int {
    (if w < h { w } else { h }) / 6
}

/// Whether pixel `(x, y)` lies in the badge: a disc in the top right corner,
/// two pixels in from the edges.
pub open spec fn in_badge(w: int, h: int, x: int, y: int) -> bool {
    let r = badge_radius(w, h);
    let cx = w - r - 2;
    let cy = r + 2;
    (x - cx) * (x - cx) + (y - cy) * (y - cy) <= r * r
}

/// The badge colour, channel by channel.
pub open spec fn badge_channel(c: int) -> u8 {
    if c == 0 {
        239
    } else if c == 3 {
        255
    } else {
        68
    }
}

/// Where channel `c` of pixel `(x, y)` sits in the buffer.
pub open spec fn pixel_index(w: int, x: int, y: int, c: int) -> int {
    (y * w + x) * 4 + c
}

/// `after` is `before` with the badge painted over it: every channel of a
/// pixel inside the badge holds the badge colour; everything else is kept.
pub open spec fn badge_painted(before: Seq<u8>, after: Seq<u8>, w: int, h: int) -> bool {
    &&& after.len() == before.len()
    &&& forall|x: int, y: int, c: int|
        0 <= x < w && 0 <= y < h && 0 <= c < 4 ==> #[trigger] after[pixel_index(w, x, y, c)] == if in_badge(w, h, x, y) {
            badge_channel(c)
        } else {
            before[pixel_index(w, x, y, c)]
        }
    &&& forall|i: int| w * h * 4 <= i < after.len() ==> #[trigger] after[i] == before[i]
}

proof fn lemma_index_bounds(w: int, h: int, x: int, y: int, c: int)
    requires
        0 <= x < w,
        0 <= y < h,
        0 <= c < 4,
    ensures
        0 <= pixel_index(w, x, y, c) < w * h * 4,
        pixel_index(w, x, y, c) == (y * w + x) * 4 + c,
{
    assert(0 <= y * w) by (nonlinear_arith)
        requires 0 <= y, 0 <= w;
    assert(y * w + x < w * h) by (nonlinear_arith)
        requires 0 <= x < w, 0 <= y < h;
}

proof fn lemma_index_distinct(w: int, x1: int, y1: int, c1: int, x2: int, y2: int, c2: int)
    requires
        0 <= x1 < w,
        0 <= x2 < w,
        0 <= y1,
        0 <= y2,
        0 <= c1 < 4,
        0 <= c2 < 4,
        x1 != x2 || y1 != y2,
    ensures
        pixel_index(w, x1, y1, c1) != pixel_index(w, x2, y2, c2),
{
    let p1 = y1 * w + x1;
    let p2 = y2 * w + x2;
    if y1 == y2 {
        assert(p1 != p2);
    } else if y1 < y2 {
        assert(y1 * w + w <= y2 * w) by (nonlinear_arith)
            requires y1 < y2, 0 <= w;
    } else {
        assert(y2 * w + w <= y1 * w) by (nonlinear_arith)
            requires y2 < y1, 0 <= w;
    }
    assert(p1 != p2);
}

/// Whether `(x, y)` lies in the badge, computed without overflow.
fn pixel_in_badge(w: u32, h: u32, x: u32, y: u32) -> (r: bool)
    ensures
        r == in_badge(w as int, h as int, x as int, y as int),
{
    let shorter: u32 = if w < h { w } else { h };
    let r = (shorter / 6) as i128;
    let cx = w as i128 - r - 2;
    let cy = r + 2;
    let dx = x as i128 - cx;
    let dy = y as i128 - cy;
    assert(-0x2_0000_0000 <= dx <= 0x2_0000_0000);
    assert(-0x2_0000_0000 <= dy <= 0x2_0000_0000);
    assert(0 <= dx * dx <= 0x4_0000_0000_0000_0000) by (nonlinear_arith)
        requires -0x2_0000_0000 <= dx <= 0x2_0000_0000;
    assert(0 <= dy * dy <= 0x4_0000_0000_0000_0000) by (nonlinear_arith)
        requires -0x2_0000_0000 <= dy <= 0x2_0000_0000;
    assert(0 <= r * r <= 0x1_0000_0000_0000_0000) by (nonlinear_arith)
        requires 0 <= r <= 0x1_0000_0000;
    dx * dx + dy * dy <= r * r
}

/// Paint the unread badge onto an RGBA image of `w` by `h` pixels.
pub fn paint_badge(pixels: &mut Vec<u8>, w: u32, h: u32)
    requires
        old(pixels)@.len() >= w * h * 4,
    ensures
        badge_painted(old(pixels)@, final(pixels)@, w as int, h as int),
{
    let ghost before = pixels@;
    let wu = w as usize;
    let mut y: u32 = 0;
    let n = pixels.len();
    proof {
        assert(w * h * 4 <= n);
    }
    while y < h
        invariant
            y <= h,
            wu == w,
            before.len() >= w * h * 4,
            w * h * 4 <= usize::MAX,
            pixels@.len() == before.len(),
            forall|x2: int, y2: int, c: int|
                0 <= x2 < w && 0 <= y2 < h && 0 <= c < 4 ==> #[trigger] pixels@[pixel_index(w as int, x2, y2, c)] == if y2 < y {
                    if in_badge(w as int, h as int, x2, y2) { badge_channel(c) } else { before[pixel_index(w as int, x2, y2, c)] }
                } else {
                    before[pixel_index(w as int, x2, y2, c)]
                },
            forall|i: int| w * h * 4 <= i < pixels@.len() ==> #[trigger] pixels@[i] == before[i],
        decreases h - y,
    {
        let mut x: u32 = 0;
        while x < w
            invariant
                y < h,
                x <= w,
                wu == w,
                before.len() >= w * h * 4,
                w * h * 4 <= usize::MAX,
                pixels@.len() == before.len(),
                forall|x2: int, y2: int, c: int|
                    0 <= x2 < w && 0 <= y2 < h && 0 <= c < 4 ==> #[trigger] pixels@[pixel_index(w as int, x2, y2, c)] == if y2 < y || (y2 == y && x2 < x) {
                        if in_badge(w as int, h as int, x2, y2) { badge_channel(c) } else { before[pixel_index(w as int, x2, y2, c)] }
                    } else {
                        before[pixel_index(w as int, x2, y2, c)]
                    },
                forall|i: int| w * h * 4 <= i < pixels@.len() ==> #[trigger] pixels@[i] == before[i],
            decreases w - x,
        {
            if pixel_in_badge(w, h, x, y) {
                proof {
                    lemma_index_bounds(w as int, h as int, x as int, y as int, 3);
                    assert((y as int * w as int + x as int) * 4 + 3 < w * h * 4);
                }
                let base: usize = (y as usize * wu + x as usize) * 4;
                let ghost prev = pixels@;
                pixels.set(base, 239);
                pixels.set(base + 1, 68);
                pixels.set(base + 2, 68);
                pixels.set(base + 3, 255);
                proof {
                    assert forall|x2: int, y2: int, c: int|
                        0 <= x2 < w && 0 <= y2 < h && 0 <= c < 4 && (x2 != x || y2 != y) implies
                        #[trigger] pixels@[pixel_index(w as int, x2, y2, c)] == prev[pixel_index(w as int, x2, y2, c)] by {
                        lemma_index_bounds(w as int, h as int, x2, y2, c);
                        lemma_index_distinct(w as int, x2, y2, c, x as int, y as int, 0);
                        lemma_index_distinct(w as int, x2, y2, c, x as int, y as int, 1);
                        lemma_index_distinct(w as int, x2, y2, c, x as int, y as int, 2);
                        lemma_index_distinct(w as int, x2, y2, c, x as int, y as int, 3);
                    }
                    assert forall|i: int| w * h * 4 <= i < pixels@.len() implies #[trigger] pixels@[i] == before[i] by {
                        assert(prev[i] == before[i]);
                    }
                    assert(pixels@[pixel_index(w as int, x as int, y as int, 0)] == 239);
                    assert(pixels@[pixel_index(w as int, x as int, y as int, 1)] == 68);
                    assert(pixels@[pixel_index(w as int, x as int, y as int, 2)] == 68);
                    assert(pixels@[pixel_index(w as int, x as int, y as int, 3)] == 255);
                }
            }
            x = x + 1;
        }
        y = y + 1;
    }
    proof {
        assert forall|x2: int, y2: int, c: int|
            0 <= x2 < w && 0 <= y2 < h && 0 <= c < 4 implies #[trigger] pixels@[pixel_index(w as int, x2, y2, c)] == if in_badge(w as int, h as int, x2, y2) {
                badge_channel(c)
            } else {
                before[pixel_index(w as int, x2, y2, c)]
            } by {
        }
    }
}

/// The tray icon for `count` unread messages: the icon decoded from
/// `icon_png`, with the badge painted on when there is anything unread.
pub fn create_badge_icon(icon_png: &[u8], count: u32) -> (r: Option<RgbaImage>)
    ensures
        match r {
            None => decoded_rgba(icon_png@) is None,
            Some(img) => decoded_rgba(icon_png@) matches Some((before, w, h)) && img.width == w
                && img.height == h && if count == 0 {
                img.pixels@ == before
            } else {
                badge_painted(before, img.pixels@, w as int, h as int)
            },
        },
{
    let img = match decode_rgba(icon_png) {
        Some(img) => img,
        None => return None,
    };
    if count == 0 {
        return Some(img);
    }
    let RgbaImage { mut pixels, width, height } = img;
    paint_badge(&mut pixels, width, height);
    Some(RgbaImage { pixels, width, height })
}

/// The tooltip with the unread count appended when there is one.
pub open spec fn badge_tooltip_spec(base: Seq<char>, count: u32) -> Seq<char> {
    if count > 0 {
        base + " ("@ + decimal(count as nat) + " unread)"@
    } else {
        base
    }
}

/// The tray tooltip for `count` unread messages.
pub fn badge_tooltip(base: &str, count: u32) -> (r: String)
    ensures
        r@ == badge_tooltip_spec(base@, count),
{
    let mut t = owned(base);
    if count > 0 {
        t.append(" (");
        push_decimal(&mut t, count as u64);
        t.append(" unread)");
    }
    t
}

/// What a tray menu entry does.
#[derive(Debug, Clone, PartialEq, Eq)]
pub enum MenuAction {
    Show,
    Hide,
    ToggleDnd,
    /// Switch following the desktop's own Do Not Disturb on or off.
    ToggleFollow,
    /// Switch asking where to save downloads on or off.
    ToggleAskLocation,
    DevTools,
    Quit,
}

/// The action for a menu entry's id; unknown ids do nothing.
pub open spec fn menu_action_spec(id: Seq<char>) -> Option<MenuAction> {
    if id == "show"@ {
        Some(MenuAction::Show)
    } else if id == "hide"@ {
        Some(MenuAction::Hide)
    } else if id == "dnd"@ {
        Some(MenuAction::ToggleDnd)
    } else if id == "follow-desktop-dnd"@ {
        Some(MenuAction::ToggleFollow)
    } else if id == "ask-download-location"@ {
        Some(MenuAction::ToggleAskLocation)
    } else if id == "devtools"@ {
        Some(MenuAction::DevTools)
    } else if id == "quit"@ {
        Some(MenuAction::Quit)
    } else {
        None
    }
}

/// The action for a menu entry's id.
pub fn menu_action(id: &str) -> (r: Option<MenuAction>)
    ensures
        r == menu_action_spec(id@),
{
    if str_eq(id, "show") {
        Some(MenuAction::Show)
    } else if str_eq(id, "hide") {
        Some(MenuAction::Hide)
    } else if str_eq(id, "dnd") {
        Some(MenuAction::ToggleDnd)
    } else if str_eq(id, "follow-desktop-dnd") {
        Some(MenuAction::ToggleFollow)
    } else if str_eq(id, "ask-download-location") {
        Some(MenuAction::ToggleAskLocation)
    } else if str_eq(id, "devtools") {
        Some(MenuAction::DevTools)
    } else if str_eq(id, "quit") {
        Some(MenuAction::Quit)
    } else {
        None
    }
}

/// One entry of the tray menu.
#[derive(Debug, Clone, PartialEq, Eq)]
pub enum MenuEntry {
    /// A plain item: id, label and keyboard accelerator.
    Item(&'static str, &'static str, Option<&'static str>),
    /// A check item: id, label and whether it is checked.
    Check(&'static str, &'static str, bool),
    Separator,
}

/// The toggles above the DevTools entry: Do Not Disturb, following the
/// desktop's switch (only where the desktop can be asked), and asking where to
/// save downloads.
pub open spec fn toggle_entries(dnd: bool, follow: Option<bool>, ask: bool) -> Seq<MenuEntry> {
    let follow_entry = match follow {
        Some(f) => seq![MenuEntry::Check("follow-desktop-dnd", "Follow Desktop Do Not Disturb", f)],
        None => Seq::empty(),
    };
    seq![MenuEntry::Check("dnd", "Do Not Disturb", dnd)] + follow_entry
        + seq![MenuEntry::Check("ask-download-location", "Ask Where to Save Downloads", ask)]
}

/// The tray menu, top to bottom, for the toggles' states at the time it is
/// built. `follow` is `None` when the desktop cannot be asked for its own
/// Do Not Disturb state, and the entry for following it is then left out.
pub open spec fn menu_layout(dnd: bool, follow: Option<bool>, ask: bool) -> Seq<MenuEntry> {
    seq![
        MenuEntry::Item("show", "Show Walz", None),
        MenuEntry::Item("hide", "Hide", None),
        MenuEntry::Separator,
    ] + toggle_entries(dnd, follow, ask) + seq![
        MenuEntry::Separator,
        MenuEntry::Item("devtools", "Open DevTools", None),
        MenuEntry::Separator,
        MenuEntry::Item("quit", "Quit", Some("Ctrl+Q")),
    ]
}

/// The tray menu, top to bottom, with each toggle's check mark as given.
pub fn menu_entries(dnd: bool, follow: Option<bool>, ask: bool) -> (r: Vec<MenuEntry>)
    ensures
        r@ == menu_layout(dnd, follow, ask),
{
    let mut r: Vec<MenuEntry> = vec![
        MenuEntry::Item("show", "Show Walz", None),
        MenuEntry::Item("hide", "Hide", None),
        MenuEntry::Separator,
        MenuEntry::Check("dnd", "Do Not Disturb", dnd),
    ];
    match follow {
        Some(f) => r.push(MenuEntry::Check("follow-desktop-dnd", "Follow Desktop Do Not Disturb", f)),
        None => {},
    }
    r.push(MenuEntry::Check("ask-download-location", "Ask Where to Save Downloads", ask));
    r.push(MenuEntry::Separator);
    r.push(MenuEntry::Item("devtools", "Open DevTools", None));
    r.push(MenuEntry::Separator);
    r.push(MenuEntry::Item("quit", "Quit", Some("Ctrl+Q")));
    assert(r@ =~= menu_layout(dnd, follow, ask));
    r
}

/// What an entry with a given label is for, read off the label the user sees.
pub open spec fn label_action(label: Seq<char>) -> Option<MenuAction> {
    if label == "Show Walz"@ {
        Some(MenuAction::Show)
    } else if label == "Hide"@ {
        Some(MenuAction::Hide)
    } else if label == "Do Not Disturb"@ {
        Some(MenuAction::ToggleDnd)
    } else if label == "Follow Desktop Do Not Disturb"@ {
        Some(MenuAction::ToggleFollow)
    } else if label == "Ask Where to Save Downloads"@ {
        Some(MenuAction::ToggleAskLocation)
    } else if label == "Open DevTools"@ {
        Some(MenuAction::DevTools)
    } else if label == "Quit"@ {
        Some(MenuAction::Quit)
    } else {
        None
    }
}

/// Law: clicking an entry does what its label says, and each toggle's check
/// mark shows that toggle's state: the entry labelled "Show Walz" shows the
/// window, "Hide" hides it, and so on for every entry of the menu. Both the
/// "Show Walz" and the "Hide" entry are in every menu.
pub proof fn law_menu_labels_match_actions(dnd: bool, follow: Option<bool>, ask: bool)
    ensures
        forall|i: int|
            0 <= i < menu_layout(dnd, follow, ask).len() ==> match #[trigger] menu_layout(dnd, follow, ask)[i] {
                MenuEntry::Item(id, label, _) => label_action(label@) is Some && menu_action_spec(id@) == label_action(label@),
                MenuEntry::Check(id, label, checked) => {
                    &&& label_action(label@) is Some
                    &&& menu_action_spec(id@) == label_action(label@)
                    &&& label_action(label@) == Some(MenuAction::ToggleDnd) ==> checked == dnd
                    &&& label_action(label@) == Some(MenuAction::ToggleFollow) ==> follow == Some(checked)
                    &&& label_action(label@) == Some(MenuAction::ToggleAskLocation) ==> checked == ask
                },
                MenuEntry::Separator => true,
            },
        exists|i: int| 0 <= i < menu_layout(dnd, follow, ask).len()
            && (#[trigger] menu_layout(dnd, follow, ask)[i] matches MenuEntry::Item(_, label, _) && label@ == "Show Walz"@),
        exists|i: int| 0 <= i < menu_layout(dnd, follow, ask).len()
            && (#[trigger] menu_layout(dnd, follow, ask)[i] matches MenuEntry::Item(_, label, _) && label@ == "Hide"@),
{
    reveal_strlit("show");
    reveal_strlit("hide");
    reveal_strlit("dnd");
    reveal_strlit("follow-desktop-dnd");
    reveal_strlit("ask-download-location");
    reveal_strlit("devtools");
    reveal_strlit("quit");
    reveal_strlit("Show Walz");
    reveal_strlit("Hide");
    reveal_strlit("Do Not Disturb");
    reveal_strlit("Follow Desktop Do Not Disturb");
    reveal_strlit("Ask Where to Save Downloads");
    reveal_strlit("Open DevTools");
    reveal_strlit("Quit");
    let m = menu_layout(dnd, follow, ask);
    let head = seq![
        MenuEntry::Item("show", "Show Walz", None),
        MenuEntry::Item("hide", "Hide", None),
        MenuEntry::Separator,
        MenuEntry::Check("dnd", "Do Not Disturb", dnd),
    ];
    let tail = seq![
        MenuEntry::Check("ask-download-location", "Ask Where to Save Downloads", ask),
        MenuEntry::Separator,
        MenuEntry::Item("devtools", "Open DevTools", None),
        MenuEntry::Separator,
        MenuEntry::Item("quit", "Quit", Some("Ctrl+Q")),
    ];
    match follow {
        Some(f) => {
            assert(m =~= head + seq![MenuEntry::Check("follow-desktop-dnd", "Follow Desktop Do Not Disturb", f)] + tail);
        },
        None => {
            assert(m =~= head + tail);
        },
    }
    assert(m[0] == MenuEntry::Item("show", "Show Walz", None));
    assert(m[1] == MenuEntry::Item("hide", "Hide", None));
    assert("Hide"@[0] != "Quit"@[0]);
    assert("show"@[0] != "hide"@[0] && "show"@[0] != "quit"@[0] && "hide"@[0] != "quit"@[0]);
    assert(label_action("Show Walz"@) == Some(MenuAction::Show) && menu_action_spec("show"@) == Some(MenuAction::Show));
    assert(label_action("Hide"@) == Some(MenuAction::Hide) && menu_action_spec("hide"@) == Some(MenuAction::Hide));
    assert("Show Walz"@.len() == 9 && "Hide"@.len() == 4 && "Quit"@.len() == 4 && "Open DevTools"@.len() == 13);
    assert("Do Not Disturb"@.len() == 14);
    assert("Follow Desktop Do Not Disturb"@.len() == 29);
    assert("Ask Where to Save Downloads"@.len() == 27);
    assert("show"@.len() == 4 && "hide"@.len() == 4 && "quit"@.len() == 4 && "dnd"@.len() == 3);
    assert("follow-desktop-dnd"@.len() == 18 && "ask-download-location"@.len() == 21 && "devtools"@.len() == 8);
    assert(label_action("Do Not Disturb"@) == Some(MenuAction::ToggleDnd));
    assert(menu_action_spec("dnd"@) == Some(MenuAction::ToggleDnd));
    assert(label_action("Follow Desktop Do Not Disturb"@) == Some(MenuAction::ToggleFollow));
    assert(menu_action_spec("follow-desktop-dnd"@) == Some(MenuAction::ToggleFollow));
    assert(label_action("Ask Where to Save Downloads"@) == Some(MenuAction::ToggleAskLocation));
    assert(menu_action_spec("ask-download-location"@) == Some(MenuAction::ToggleAskLocation));
    assert(label_action("Open DevTools"@) == Some(MenuAction::DevTools) && menu_action_spec("devtools"@) == Some(MenuAction::DevTools));
    assert(label_action("Quit"@) == Some(MenuAction::Quit) && menu_action_spec("quit"@) == Some(MenuAction::Quit));
    assert forall|i: int| 0 <= i < m.len() implies match #[trigger] m[i] {
        MenuEntry::Item(id, label, _) => label_action(label@) is Some && menu_action_spec(id@) == label_action(label@),
        MenuEntry::Check(id, label, checked) => {
            &&& label_action(label@) is Some
            &&& menu_action_spec(id@) == label_action(label@)
            &&& label_action(label@) == Some(MenuAction::ToggleDnd) ==> checked == dnd
            &&& label_action(label@) == Some(MenuAction::ToggleFollow) ==> follow == Some(checked)
            &&& label_action(label@) == Some(MenuAction::ToggleAskLocation) ==> checked == ask
        },
        MenuEntry::Separator => true,
    } by {
        if i < 4 {
            assert(m[i] == head[i]);
        } else if follow is Some && i == 4 {
        } else {
            let k = if follow is Some { i - 5 } else { i - 4 };
            assert(m[i] == tail[k]);
        }
    }
}

/// Every check item of the menu carries an id that `menu_action` maps to the
/// toggle it shows, and every plain item an id with an action too.
pub proof fn law_menu_entries_have_actions(dnd: bool, follow: Option<bool>, ask: bool)
    ensures
        forall|i: int|
            0 <= i < menu_layout(dnd, follow, ask).len() ==> match #[trigger] menu_layout(dnd, follow, ask)[i] {
                MenuEntry::Item(id, _, _) => menu_action_spec(id@) is Some,
                MenuEntry::Check(id, _, _) => menu_action_spec(id@) is Some,
                MenuEntry::Separator => true,
            },
{
    reveal_strlit("show");
    reveal_strlit("hide");
    reveal_strlit("dnd");
    reveal_strlit("follow-desktop-dnd");
    reveal_strlit("ask-download-location");
    reveal_strlit("devtools");
    reveal_strlit("quit");
    let m = menu_layout(dnd, follow, ask);
    assert forall|i: int| 0 <= i < m.len() implies match #[trigger] m[i] {
        MenuEntry::Item(id, _, _) => menu_action_spec(id@) is Some,
        MenuEntry::Check(id, _, _) => menu_action_spec(id@) is Some,
        MenuEntry::Separator => true,
    } by {
        match follow {
            Some(f) => {
                assert(m =~= seq![
                    MenuEntry::Item("show", "Show Walz", None),
                    MenuEntry::Item("hide", "Hide", None),
                    MenuEntry::Separator,
                    MenuEntry::Check("dnd", "Do Not Disturb", dnd),
                    MenuEntry::Check("follow-desktop-dnd", "Follow Desktop Do Not Disturb", f),
                    MenuEntry::Check("ask-download-location", "Ask Where to Save Downloads", ask),
                    MenuEntry::Separator,
                    MenuEntry::Item("devtools", "Open DevTools", None),
                    MenuEntry::Separator,
                    MenuEntry::Item("quit", "Quit", Some("Ctrl+Q")),
                ]);
            },
            None => {
                assert(m =~= seq![
                    MenuEntry::Item("show", "Show Walz", None),
                    MenuEntry::Item("hide", "Hide", None),
                    MenuEntry::Separator,
                    MenuEntry::Check("dnd", "Do Not Disturb", dnd),
                    MenuEntry::Check("ask-download-location", "Ask Where to Save Downloads", ask),
                    MenuEntry::Separator,
                    MenuEntry::Item("devtools", "Open DevTools", None),
                    MenuEntry::Separator,
                    MenuEntry::Item("quit", "Quit", Some("Ctrl+Q")),
                ]);
            },
        }
    }
}

/// A left click on the tray icon hides a visible window and shows a hidden one;
/// returns whether the window should be shown.
pub fn click_shows_window(visible: bool) -> (show: bool)
    ensures
        show == !visible,
{
    !visible
}

} // verus!
