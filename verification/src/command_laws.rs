//! What each message from the web page asks for, and where new windows go,
//! stated over the message's parts and the request itself.

use vstd::prelude::*;

use crate::client::{new_window_placement, WindowState};
use crate::laws::law_decimal_reads_back;
use crate::text::decimal;
use crate::web_message::{
    command_result, documents_entry, is_digit, is_white_space, sep_at, sep_from, split_from, trim,
    trim_end, trim_start, ConfigValue, WebCommand,
};

verus! {

/// The names of the commands differ from each other and `true` differs from
/// `false`.
proof fn lemma_command_names_differ()
    ensures
        "toggle-rboost"@ != "drag"@,
        "toggle-rboost"@ != "throttle"@,
        "toggle-rboost"@ != "open"@,
        "throttle"@ != "drag"@,
        "open"@ != "drag"@,
        "open"@ != "throttle"@,
        "rpc-update"@ != "set-config"@,
        "get-info"@ != "close"@,
        "get-info"@ != "ping"@,
        "close"@ != "ping"@,
        "true"@ != "false"@,
{
    reveal_strlit("toggle-rboost");
    reveal_strlit("drag");
    reveal_strlit("throttle");
    reveal_strlit("open");
    reveal_strlit("rpc-update");
    reveal_strlit("set-config");
    reveal_strlit("get-info");
    reveal_strlit("close");
    reveal_strlit("ping");
    reveal_strlit("true");
    reveal_strlit("false");
    assert("toggle-rboost"@.len() != "drag"@.len());
    assert("toggle-rboost"@.len() != "throttle"@.len());
    assert("toggle-rboost"@.len() != "open"@.len());
    assert("throttle"@.len() != "drag"@.len());
    assert("open"@[0] != "drag"@[0]);
    assert("open"@.len() != "throttle"@.len());
    assert("rpc-update"@[0] != "set-config"@[0]);
    assert("get-info"@.len() != "close"@.len());
    assert("get-info"@.len() != "ping"@.len());
    assert("close"@.len() != "ping"@.len());
    assert("true"@.len() != "false"@.len());
}

/// A `toggle-rboost` message switches the render boost on (`WPARAM` 1)
/// exactly when its value is the text `true`, and off (`WPARAM` 3) for
/// `false` or any other value.
pub proof fn law_toggle_rboost_value(parts: Seq<Seq<char>>, c: WebCommand)
    requires
        command_result(parts, c),
        parts.len() == 2,
        parts[0] == "toggle-rboost"@,
    ensures
        (c is ToggleRenderBoost),
        parts[1] == "true"@ <==> c == (WebCommand::ToggleRenderBoost { wparam: 1 }),
        parts[1] != "true"@ <==> c == (WebCommand::ToggleRenderBoost { wparam: 3 }),
{
    lemma_command_names_differ();
}

/// A `drag` message posts `WPARAM` 0 exactly when its value is the text
/// `true`, and 2 for any other value.
pub proof fn law_drag_value(parts: Seq<Seq<char>>, c: WebCommand)
    requires
        command_result(parts, c),
        parts.len() == 2,
        parts[0] == "drag"@,
    ensures
        parts[1] == "true"@ <==> c == (WebCommand::SetDrag { wparam: 0 }),
        parts[1] != "true"@ <==> c == (WebCommand::SetDrag { wparam: 2 }),
{
    lemma_command_names_differ();
}

/// A `throttle` message throttles by the in-game factor for `game` and by
/// the in-menu factor for anything else.
pub proof fn law_throttle_setting(parts: Seq<Seq<char>>, c: WebCommand)
    requires
        command_result(parts, c),
        parts.len() == 2,
        parts[0] == "throttle"@,
    ensures
        c matches WebCommand::Throttle { setting } && (parts[1] == "game"@ ==> setting@
            == "throttle"@) && (parts[1] != "game"@ ==> setting@ == "inMenuThrottle"@),
{
    lemma_command_names_differ();
}

/// An `open` message opens the target it names.
pub proof fn law_open_target(parts: Seq<Seq<char>>, c: WebCommand)
    requires
        command_result(parts, c),
        parts.len() == 2,
        parts[0] == "open"@,
    ensures
        c matches WebCommand::Open { target } && target@ == parts[1],
{
    lemma_command_names_differ();
}

/// An `rpc-update` message shows its two values joined by ` on `, in order.
pub proof fn law_rpc_update_state(parts: Seq<Seq<char>>, c: WebCommand)
    requires
        command_result(parts, c),
        parts.len() == 3,
        parts[0] == "rpc-update"@,
    ensures
        c matches WebCommand::RpcUpdate { state } && state@ == parts[1] + " on "@ + parts[2],
{
    lemma_command_names_differ();
}

/// A `set-config` message stores its value under its setting; the texts
/// `true` and `false` are stored as those booleans.
pub proof fn law_set_config_value(parts: Seq<Seq<char>>, c: WebCommand)
    requires
        command_result(parts, c),
        parts.len() == 3,
        parts[0] == "set-config"@,
    ensures
        c matches WebCommand::SetConfig { setting, value } && setting@ == parts[1] && (parts[2]
            == "true"@ ==> value == ConfigValue::Bool(true)) && (parts[2] == "false"@ ==> value
            == ConfigValue::Bool(false)),
{
    lemma_command_names_differ();
}

/// A `set-config` value written as a count that fits in 64 signed bits is
/// stored as that integer, and with a minus before it as its negative.
pub proof fn law_set_config_integer(parts: Seq<Seq<char>>, c: WebCommand, n: nat, negative: bool)
    requires
        command_result(parts, c),
        parts.len() == 3,
        parts[0] == "set-config"@,
        !negative ==> parts[2] == decimal(n) && n <= i64::MAX,
        negative ==> parts[2] == "-"@ + decimal(n) && n <= i64::MAX + 1,
    ensures
        c matches WebCommand::SetConfig { setting, value } && setting@ == parts[1] && value
            == ConfigValue::Int(if negative { -n } else { n as int } as i64),
{
    lemma_command_names_differ();
    reveal_strlit("true");
    reveal_strlit("false");
    reveal_strlit("-");
    law_decimal_reads_back(n);
    let v = parts[2];
    assert(is_digit(decimal(n)[0]));
    if negative {
        assert(v[0] == '-');
        assert(v.drop_first() =~= decimal(n));
    } else {
        assert(v[0] == decimal(n)[0]);
    }
    assert(v != "true"@ && v != "false"@) by {
        if v == "true"@ || v == "false"@ {
            assert(v[0] == 't' || v[0] == 'f');
        }
    }
}

/// A `set-config` value that is neither `true` nor `false` and does not
/// start with a digit or a sign is stored as the text itself.
pub proof fn law_set_config_text(parts: Seq<Seq<char>>, c: WebCommand)
    requires
        command_result(parts, c),
        parts.len() == 3,
        parts[0] == "set-config"@,
        parts[2] != "true"@,
        parts[2] != "false"@,
        parts[2].len() > 0,
        !is_digit(parts[2][0]),
        parts[2][0] != '+',
        parts[2][0] != '-',
    ensures
        c matches WebCommand::SetConfig { setting, value } && setting@ == parts[1] && (value
            matches ConfigValue::Other(t) && t@ == parts[2]),
{
    lemma_command_names_differ();
}

/// A message of one part asks for the info, to close or to ping as that
/// part names, and for nothing where it names none of them.
pub proof fn law_single_part_commands(parts: Seq<Seq<char>>, c: WebCommand)
    requires
        command_result(parts, c),
        parts.len() == 1,
    ensures
        parts[0] == "get-info"@ <==> c == WebCommand::GetInfo,
        parts[0] == "close"@ <==> c == WebCommand::Close,
        parts[0] == "ping"@ <==> c == WebCommand::Ping,
        (parts[0] != "get-info"@ && parts[0] != "close"@ && parts[0] != "ping"@) <==> c
            == WebCommand::Ignore,
{
    lemma_command_names_differ();
}

/// A message whose part count fits no command asks for nothing.
pub proof fn law_other_counts_are_ignored(parts: Seq<Seq<char>>, c: WebCommand)
    requires
        command_result(parts, c),
        parts.len() == 0 || parts.len() > 3,
    ensures
        c == WebCommand::Ignore,
{
}

/// A new window is placed only where the request has both a position and a
/// size; it is then windowed, at the requested corner, and as wide and as
/// high as requested.
pub proof fn law_new_window_placement(
    has_position: bool,
    has_size: bool,
    left: u32,
    top: u32,
    width: u32,
    height: u32,
    r: Option<WindowState>,
)
    requires
        r == new_window_placement(has_position, has_size, left, top, width, height),
        i32::MIN <= left as i32 + width as i32 <= i32::MAX,
        i32::MIN <= top as i32 + height as i32 <= i32::MAX,
    ensures
        (r is Some) <==> has_position && has_size,
        !has_position ==> (r is None),
        !has_size ==> (r is None),
        r matches Some(w) ==> {
            &&& !w.fullscreen
            &&& w.position.left == left as i32
            &&& w.position.top == top as i32
            &&& w.position.right - w.position.left == width as i32
            &&& w.position.bottom - w.position.top == height as i32
        },
{
}

/// Trimming the start drops exactly the white space before the first other
/// character.
proof fn lemma_trim_start_drops(s: Seq<char>) -> (a: int)
    ensures
        0 <= a <= s.len(),
        trim_start(s) == s.subrange(a, s.len() as int),
        forall|i: int| 0 <= i < a ==> is_white_space(#[trigger] s[i]),
        trim_start(s).len() > 0 ==> !is_white_space(trim_start(s)[0]),
    decreases s.len(),
{
    if s.len() > 0 && is_white_space(s[0]) {
        let a = lemma_trim_start_drops(s.drop_first());
        assert(s.drop_first().subrange(a, s.len() - 1) =~= s.subrange(a + 1, s.len() as int));
        assert forall|i: int| 0 <= i < a + 1 implies is_white_space(#[trigger] s[i]) by {
            if i > 0 {
                assert(s[i] == s.drop_first()[i - 1]);
            }
        }
        a + 1
    } else {
        assert(s.subrange(0, s.len() as int) =~= s);
        0
    }
}

/// Trimming the end drops exactly the white space after the last other
/// character.
proof fn lemma_trim_end_drops(s: Seq<char>) -> (b: int)
    ensures
        0 <= b <= s.len(),
        trim_end(s) == s.subrange(0, b),
        forall|i: int| b <= i < s.len() ==> is_white_space(#[trigger] s[i]),
        trim_end(s).len() > 0 ==> !is_white_space(trim_end(s).last()),
    decreases s.len(),
{
    if s.len() > 0 && is_white_space(s.last()) {
        let b = lemma_trim_end_drops(s.drop_last());
        assert(s.drop_last().subrange(0, b) =~= s.subrange(0, b));
        assert forall|i: int| b <= i < s.len() implies is_white_space(#[trigger] s[i]) by {
            if i < s.len() - 1 {
                assert(s[i] == s.drop_last()[i]);
            }
        }
        b
    } else {
        assert(s.subrange(0, s.len() as int) =~= s);
        s.len() as int
    }
}

/// Trimming a part keeps a run of its characters and drops only white space
/// around it; what is kept neither starts nor ends with white space.
pub proof fn law_trim_drops_only_white_space(s: Seq<char>)
    ensures
        exists|a: int, b: int|
            {
                &&& 0 <= a <= b <= s.len()
                &&& trim(s) == s.subrange(a, b)
                &&& forall|i: int| 0 <= i < a ==> is_white_space(#[trigger] s[i])
                &&& forall|i: int| b <= i < s.len() ==> is_white_space(#[trigger] s[i])
            },
        trim(s).len() > 0 ==> !is_white_space(trim(s)[0]) && !is_white_space(trim(s).last()),
{
    let a = lemma_trim_start_drops(s);
    let rest = trim_start(s);
    let c = lemma_trim_end_drops(rest);
    let b = a + c;
    assert(rest.subrange(0, c) =~= s.subrange(a, b));
    assert forall|i: int| b <= i < s.len() implies is_white_space(#[trigger] s[i]) by {
        assert(s[i] == rest[i - a]);
    }
    if trim(s).len() > 0 {
        assert(trim(s)[0] == rest[0]);
    }
    assert(0 <= a <= b <= s.len() && trim(s) == s.subrange(a, b));
}

/// A separator search from `i` finds the first separator at or after `i`,
/// and none where there is none.
proof fn lemma_sep_from_is_first(s: Seq<char>, i: int)
    requires
        0 <= i,
    ensures
        sep_from(s, i) matches Some(k) ==> i <= k && sep_at(s, k) && forall|j: int|
            i <= j < k ==> !sep_at(s, j),
        sep_from(s, i) is None ==> forall|j: int| i <= j ==> !sep_at(s, j),
    decreases s.len() - i,
{
    if !(i + 1 >= s.len()) && !sep_at(s, i) {
        lemma_sep_from_is_first(s, i + 1);
    }
}

/// The parts of a message hold no separator `", "`: the message is split at
/// every one of them.
pub proof fn law_split_parts_hold_no_separator(s: Seq<char>, start: int)
    requires
        0 <= start <= s.len(),
    ensures
        forall|p: int, j: int|
            #![trigger sep_at(split_from(s, start)[p], j)]
            0 <= p < split_from(s, start).len() ==> !sep_at(split_from(s, start)[p], j),
    decreases s.len() - start,
{
    let parts = split_from(s, start);
    lemma_sep_from_is_first(s, start);
    match sep_from(s, start) {
        Some(k) => {
            let first = s.subrange(start, k);
            law_split_parts_hold_no_separator(s, k + 2);
            assert forall|p: int, j: int| 0 <= p < parts.len() implies !sep_at(parts[p], j) by {
                if p == 0 {
                    assert(parts[0] == first);
                    if sep_at(first, j) {
                        assert(sep_at(s, start + j));
                    }
                } else {
                    assert(parts[p] == split_from(s, k + 2)[p - 1]);
                }
            }
        },
        None => {
            assert forall|p: int, j: int| 0 <= p < parts.len() implies !sep_at(parts[p], j) by {
                assert(parts[p] == s.subrange(start, s.len() as int));
                if sep_at(parts[p], j) {
                    assert(sep_at(s, start + j));
                }
            }
        },
    }
}

/// An `open` target names an entry of the settings folder only where it is
/// `blocklist` (the block list file), `swapper` (the swapper folder) or
/// `userscripts` (the scripts folder); the three entries differ.
pub proof fn law_documents_entries(target: Seq<char>)
    ensures
        (documents_entry(target) is Some) <==> (target == "blocklist"@ || target == "swapper"@
            || target == "userscripts"@),
        target == "blocklist"@ ==> documents_entry(target) == Some("user_blocklist.json"@),
        target == "swapper"@ ==> documents_entry(target) == Some("swapper"@),
        target == "userscripts"@ ==> documents_entry(target) == Some("scripts"@),
        "user_blocklist.json"@ != "swapper"@ && "swapper"@ != "scripts"@
            && "user_blocklist.json"@ != "scripts"@,
{
    reveal_strlit("blocklist");
    reveal_strlit("swapper");
    reveal_strlit("userscripts");
    reveal_strlit("user_blocklist.json");
    reveal_strlit("scripts");
    assert("user_blocklist.json"@.len() != "swapper"@.len());
    assert("swapper"@[1] != "scripts"@[1]);
    assert("user_blocklist.json"@.len() != "scripts"@.len());
    assert("blocklist"@.len() != "swapper"@.len());
    assert("blocklist"@.len() != "userscripts"@.len());
    assert("swapper"@.len() != "userscripts"@.len());
}

} // verus!
