//! The decisions that the client's window and web view make: which web
//! resources to answer, where new windows go, which files the hard-flip
//! setting renames, and the command line and info it passes on.

use vstd::prelude::*;

use crate::text::text_eq;

verus! {

/// `t` occurs in `s` starting at index `i`.
pub open spec fn occurs_at(s: Seq<char>, t: Seq<char>, i: int) -> bool {
    0 <= i && i + t.len() <= s.len() && s.subrange(i, i + t.len()) == t
}

/// The first index at or after `i` where `t` occurs in `s`.
pub open spec fn find_from(s: Seq<char>, t: Seq<char>, i: int) -> Option<int>
    decreases s.len() + 1 - i,
{
    if i < 0 || i + t.len() > s.len() {
        None
    } else if occurs_at(s, t, i) {
        Some(i)
    } else {
        find_from(s, t, i + 1)
    }
}

/// Whether `t` occurs in `s`.
pub open spec fn contains(s: Seq<char>, t: Seq<char>) -> bool {
    find_from(s, t, 0) is Some
}

/// The first index at or after `from` where `t` occurs in `s`.
pub fn find_text(s: &str, t: &str, from: usize) -> (r: Option<usize>)
    ensures
        match r {
            Some(i) => find_from(s@, t@, from as int) == Some(i as int),
            None => find_from(s@, t@, from as int) is None,
        },
{
    let n = s.unicode_len();
    let m = t.unicode_len();
    if m > n {
        return None;
    }
    let last = n - m;
    if from > last {
        return None;
    }
    let mut i = from;
    loop
        invariant
            n == s@.len(),
            m == t@.len(),
            m <= n,
            last == n - m,
            from <= i <= last,
            find_from(s@, t@, from as int) == find_from(s@, t@, i as int),
        decreases last - i,
    {
        if text_eq(s.substring_char(i, i + m), t) {
            assert(occurs_at(s@, t@, i as int));
            return Some(i);
        }
        assert(!occurs_at(s@, t@, i as int));
        if i == last {
            assert(find_from(s@, t@, i + 1) is None);
            return None;
        }
        i = i + 1;
    }
}

/// Whether `t` occurs in `s`.
pub fn contains_text(s: &str, t: &str) -> (r: bool)
    ensures
        r == contains(s@, t@),
{
    find_text(s, t, 0).is_some()
}

/// What the client does with a web request.
#[derive(Debug, PartialEq)]
pub enum ResourceAction {
    /// Tell the page that the game changed, and let the request through.
    NotifyGameUpdated,
    /// Answer with the swapped file of this name where the swapper holds
    /// one; else clear the request's address.
    TrySwap { filename: String },
    /// Clear the request's address.
    Block,
}

/// The host that the client looks at.
pub open spec fn game_host() -> Seq<char> {
    "krunker.io"@
}

/// The prefix of a game file's name in an address.
pub open spec fn game_path_prefix() -> Seq<char> {
    "krunker.io/"@
}

/// The name of the game file that address `uri` asks for: the text between
/// the first `krunker.io/` and the next one (or the end), up to the first
/// `?`; empty where there is no `krunker.io/`.
pub open spec fn game_file_name(uri: Seq<char>) -> Seq<char> {
    match find_from(uri, game_path_prefix(), 0) {
        None => Seq::empty(),
        Some(a) => {
            let rest = uri.subrange(a + game_path_prefix().len(), uri.len() as int);
            let piece = match find_from(rest, game_path_prefix(), 0) {
                Some(b) => rest.subrange(0, b),
                None => rest,
            };
            match find_from(piece, "?"@, 0) {
                Some(q) => piece.subrange(0, q),
                None => piece,
            }
        },
    }
}

/// What the client does with a request for `uri`.
pub open spec fn resource_action_result(uri: Seq<char>, r: ResourceAction) -> bool {
    if contains(uri, game_host()) {
        if contains(uri, "game-info"@) || contains(uri, "lobby-ranked"@) {
            r == ResourceAction::NotifyGameUpdated
        } else {
            r matches ResourceAction::TrySwap { filename } && filename@ == game_file_name(uri)
        }
    } else {
        r == ResourceAction::Block
    }
}

/// Where `t` is found in `s` from `i` on, it occurs there, at or after `i`.
pub proof fn lemma_find_in_range(s: Seq<char>, t: Seq<char>, i: int)
    ensures
        find_from(s, t, i) matches Some(k) ==> i <= k && k + t.len() <= s.len() && occurs_at(s, t, k),
    decreases s.len() + 1 - i,
{
    if !(i < 0 || i + t.len() > s.len()) && !occurs_at(s, t, i) {
        lemma_find_in_range(s, t, i + 1);
    }
}

/// The name of the game file that address `uri` asks for.
pub fn game_file(uri: &str) -> (r: String)
    ensures
        r@ == game_file_name(uri@),
{
    let prefix = "krunker.io/";
    let a = match find_text(uri, prefix, 0) {
        Some(a) => a,
        None => return String::new(),
    };
    proof {
        lemma_find_in_range(uri@, prefix@, 0);
    }
    let n = uri.unicode_len();
    let rest = uri.substring_char(a + prefix.unicode_len(), n);
    let piece = match find_text(rest, prefix, 0) {
        Some(b) => {
            proof {
                lemma_find_in_range(rest@, prefix@, 0);
            }
            rest.substring_char(0, b)
        },
        None => rest,
    };
    match find_text(piece, "?", 0) {
        Some(q) => {
            proof {
                lemma_find_in_range(piece@, "?"@, 0);
            }
            String::from_str(piece.substring_char(0, q))
        },
        None => String::from_str(piece),
    }
}

/// Decides what the client does with a request for `uri`.
pub fn resource_action(uri: &str) -> (r: ResourceAction)
    ensures
        resource_action_result(uri@, r),
{
    if contains_text(uri, "krunker.io") {
        if contains_text(uri, "game-info") || contains_text(uri, "lobby-ranked") {
            ResourceAction::NotifyGameUpdated
        } else {
            ResourceAction::TrySwap { filename: game_file(uri) }
        }
    } else {
        ResourceAction::Block
    }
}

/// Where a window goes on screen.
#[derive(Debug, Clone, Copy, PartialEq)]
pub struct WindowPosition {
    pub left: i32,
    pub top: i32,
    pub right: i32,
    pub bottom: i32,
}

/// How a window is shown.
#[derive(Debug, Clone, Copy, PartialEq)]
pub struct WindowState {
    pub fullscreen: bool,
    pub position: WindowPosition,
}

/// The placement that a page's request for a new window gives: a windowed
/// placement at the requested position and size where the request has both,
/// else none (the window goes where the system puts it).
pub open spec fn new_window_placement(
    has_position: bool,
    has_size: bool,
    left: u32,
    top: u32,
    width: u32,
    height: u32,
) -> Option<WindowState> {
    if has_position && has_size {
        Some(
            WindowState {
                fullscreen: false,
                position: WindowPosition {
                    left: left as i32,
                    top: top as i32,
                    right: (left as i32 + width as i32) as i32,
                    bottom: (top as i32 + height as i32) as i32,
                },
            },
        )
    } else {
        None
    }
}

/// The placement of a new window that a page asks for. Where the request has
/// a position and a size whose edges do not fit in 32 bits, the client stops
/// (an arithmetic overflow), so such requests are left out.
pub fn new_window_state(
    has_position: bool,
    has_size: bool,
    left: u32,
    top: u32,
    width: u32,
    height: u32,
) -> (r: Option<WindowState>)
    requires
        has_position && has_size ==> i32::MIN <= left as i32 + width as i32 <= i32::MAX,
        has_position && has_size ==> i32::MIN <= top as i32 + height as i32 <= i32::MAX,
    ensures
        r == new_window_placement(has_position, has_size, left, top, width, height),
{
    if has_position && has_size {
        let l = left as i32;
        let t = top as i32;
        let w = width as i32;
        let h = height as i32;
        Some(
            WindowState {
                fullscreen: false,
                position: WindowPosition { left: l, top: t, right: l + w, bottom: t + h },
            },
        )
    } else {
        None
    }
}

/// Whether a new window at `uri` gets the user scripts: it is the social
/// page and user scripts are on.
pub fn loads_social_userscripts(uri: &str, userscripts_enabled: bool) -> (r: bool)
    ensures
        r == (contains(uri@, "krunker.io/social.html"@) && userscripts_enabled),
{
    contains_text(uri, "krunker.io/social.html") && userscripts_enabled
}

/// The renaming of the software renderer that the hard-flip setting asks
/// for, as (from, to): with it on, the library is put in place; with it off,
/// it is moved aside.
pub fn hard_flip_renames(enabled: bool) -> (r: (String, String))
    ensures
        enabled ==> r.0@ == "OLD_vk_swiftshader.dll"@ && r.1@ == "vk_swiftshader.dll"@,
        !enabled ==> r.0@ == "vk_swiftshader.dll"@ && r.1@ == "OLD_vk_swiftshader.dll"@,
{
    if enabled {
        (String::from_str("OLD_vk_swiftshader.dll"), String::from_str("vk_swiftshader.dll"))
    } else {
        (String::from_str("vk_swiftshader.dll"), String::from_str("OLD_vk_swiftshader.dll"))
    }
}

/// The browser arguments: the user's flags, with the frame-rate limit lifted
/// where the setting asks for it.
pub fn webview_args(flags: String, uncap_fps: bool) -> (r: String)
    ensures
        r@ == (if uncap_fps {
            flags@ + " --disable-frame-rate-limit"@
        } else {
            flags@
        }),
{
    let mut args = flags;
    if uncap_fps {
        args.append(" --disable-frame-rate-limit");
    }
    args
}

/// Whether the main window opens where it was last: only in the start mode
/// `Remember Previous`.
pub fn restores_last_position(start_mode: &str) -> (r: bool)
    ensures
        r == (start_mode@ == "Remember Previous"@),
{
    text_eq(start_mode, "Remember Previous")
}

/// The texts of `parts` joined with single spaces.
pub open spec fn join_spaced(parts: Seq<Seq<char>>) -> Seq<char>
    decreases parts.len(),
{
    if parts.len() == 0 {
        Seq::empty()
    } else if parts.len() == 1 {
        parts[0]
    } else {
        join_spaced(parts.drop_last()) + " "@ + parts.last()
    }
}

/// The launch arguments as the client reports them: joined with spaces, and
/// only where there are any.
pub fn launch_args_text(args: &Vec<String>) -> (r: Option<String>)
    ensures
        match r {
            Some(t) => args@.len() > 0 && t@ == join_spaced(args@.map_values(|a: String| a@)),
            None => args@.len() == 0,
        },
{
    if args.len() == 0 {
        return None;
    }
    let ghost views = args@.map_values(|a: String| a@);
    let mut text = args[0].clone();
    let mut i: usize = 1;
    assert(views.subrange(0, 1) =~= seq![views[0]]);
    while i < args.len()
        invariant
            views == args@.map_values(|a: String| a@),
            1 <= i <= args.len(),
            text@ == join_spaced(views.subrange(0, i as int)),
        decreases args.len() - i,
    {
        assert(views.subrange(0, i + 1).drop_last() =~= views.subrange(0, i as int));
        text.append(" ");
        text.append(args[i].as_str());
        i = i + 1;
    }
    assert(views.subrange(0, i as int) =~= views);
    Some(text)
}

} // verus!
