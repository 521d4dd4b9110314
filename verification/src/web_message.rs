//! The messages that the embedded web page posts to the client: splitting
//! them into parts, trimming the parts, and deciding which command they ask
//! for.

use vstd::prelude::*;

use crate::text::text_eq;

verus! {

/// Whether `c` has the Unicode White_Space property.
pub open spec fn is_white_space(c: char) -> bool {
    let u = c as int;
    ||| 0x9 <= u <= 0xd
    ||| u == 0x20
    ||| u == 0x85
    ||| u == 0xa0
    ||| u == 0x1680
    ||| 0x2000 <= u <= 0x200a
    ||| u == 0x2028
    ||| u == 0x2029
    ||| u == 0x202f
    ||| u == 0x205f
    ||| u == 0x3000
}

/// `s` without the white space at its start.
pub open spec fn trim_start(s: Seq<char>) -> Seq<char>
    decreases s.len(),
{
    if s.len() > 0 && is_white_space(s[0]) {
        trim_start(s.drop_first())
    } else {
        s
    }
}

/// `s` without the white space at its end.
pub open spec fn trim_end(s: Seq<char>) -> Seq<char>
    decreases s.len(),
{
    if s.len() > 0 && is_white_space(s.last()) {
        trim_end(s.drop_last())
    } else {
        s
    }
}

/// `s` without the white space at either end.
pub open spec fn trim(s: Seq<char>) -> Seq<char> {
    trim_end(trim_start(s))
}

/// Whether the separator `", "` starts at index `i` of `s`.
pub open spec fn sep_at(s: Seq<char>, i: int) -> bool {
    0 <= i && i + 1 < s.len() && s[i] == ',' && s[i + 1] == ' '
}

/// The first index at or after `i` where the separator starts.
pub open spec fn sep_from(s: Seq<char>, i: int) -> Option<int>
    decreases s.len() - i,
{
    if i < 0 || i + 1 >= s.len() {
        None
    } else if sep_at(s, i) {
        Some(i)
    } else {
        sep_from(s, i + 1)
    }
}

/// The parts of `s` from index `start` on, split at each separator `", "`,
/// found from left to right.
pub open spec fn split_from(s: Seq<char>, start: int) -> Seq<Seq<char>>
    decreases s.len() - start,
{
    match sep_from(s, start) {
        Some(k) => if start <= k && k + 1 < s.len() {
            seq![s.subrange(start, k)] + split_from(s, k + 2)
        } else {
            seq![s.subrange(start, s.len() as int)]
        },
        None => seq![s.subrange(start, s.len() as int)],
    }
}

/// The parts of a message: split at each `", "` and trimmed.
pub open spec fn message_parts(s: Seq<char>) -> Seq<Seq<char>> {
    split_from(s, 0).map_values(|p: Seq<char>| trim(p))
}

/// Whether `c` is white space.
pub fn char_is_white_space(c: char) -> (r: bool)
    ensures
        r == is_white_space(c),
{
    let u = c as u32;
    (0x9 <= u && u <= 0xd) || u == 0x20 || u == 0x85 || u == 0xa0 || u == 0x1680 || (0x2000 <= u
        && u <= 0x200a) || u == 0x2028 || u == 0x2029 || u == 0x202f || u == 0x205f || u == 0x3000
}

proof fn lemma_trim_start_skip(s: Seq<char>, k: int)
    requires
        0 <= k <= s.len(),
        forall|j: int| 0 <= j < k ==> is_white_space(s[j]),
    ensures
        trim_start(s) == trim_start(s.subrange(k, s.len() as int)),
    decreases k,
{
    if k > 0 {
        assert(s.drop_first().subrange(k - 1, s.drop_first().len() as int) =~= s.subrange(
            k,
            s.len() as int,
        ));
        lemma_trim_start_skip(s.drop_first(), k - 1);
    } else {
        assert(s.subrange(0, s.len() as int) =~= s);
    }
}

proof fn lemma_trim_end_skip(s: Seq<char>, k: int)
    requires
        0 <= k <= s.len(),
        forall|j: int| k <= j < s.len() ==> is_white_space(s[j]),
    ensures
        trim_end(s) == trim_end(s.subrange(0, k)),
    decreases s.len() - k,
{
    if k < s.len() {
        assert(s.drop_last().subrange(0, k) =~= s.subrange(0, k));
        lemma_trim_end_skip(s.drop_last(), k);
    } else {
        assert(s.subrange(0, k) =~= s);
    }
}

/// `s` without the white space at either end.
pub fn trim_text(s: &str) -> (r: String)
    ensures
        r@ == trim(s@),
{
    let n = s.unicode_len();
    let mut start: usize = 0;
    while start < n && char_is_white_space(s.get_char(start))
        invariant
            n == s@.len(),
            start <= n,
            forall|j: int| 0 <= j < start ==> is_white_space(s@[j]),
        decreases n - start,
    {
        start = start + 1;
    }
    let mut end: usize = n;
    while end > start && char_is_white_space(s.get_char(end - 1))
        invariant
            n == s@.len(),
            start <= end <= n,
            forall|j: int| end <= j < n ==> is_white_space(s@[j]),
        decreases end - start,
    {
        end = end - 1;
    }
    proof {
        let t = s@.subrange(start as int, n as int);
        lemma_trim_start_skip(s@, start as int);
        assert(trim_start(t) == t);
        lemma_trim_end_skip(t, end - start);
        assert(t.subrange(0, end - start) =~= s@.subrange(start as int, end as int));
        let u = s@.subrange(start as int, end as int);
        assert(u.len() == 0 || !is_white_space(u.last()));
        assert(trim_end(u) == u);
    }
    String::from_str(s.substring_char(start, end))
}

/// The parts of `s`, split at each separator `", "`, untrimmed.
pub fn split_text(s: &str) -> (r: Vec<String>)
    ensures
        r@.len() == split_from(s@, 0).len(),
        forall|i: int| 0 <= i < r@.len() ==> (#[trigger] r@[i])@ == split_from(s@, 0)[i],
{
    let n = s.unicode_len();
    let mut parts: Vec<String> = Vec::new();
    let ghost mut done: Seq<Seq<char>> = Seq::empty();
    let mut start: usize = 0;
    let mut i: usize = 0;
    while n > 0 && i < n - 1
        invariant
            n == s@.len(),
            start <= i,
            start <= n,
            parts@.len() == done.len(),
            forall|j: int| 0 <= j < parts@.len() ==> (#[trigger] parts@[j])@ == done[j],
            done + split_from(s@, start as int) == split_from(s@, 0),
            sep_from(s@, start as int) == sep_from(s@, i as int),
        decreases n - i,
    {
        if s.get_char(i) == ',' && s.get_char(i + 1) == ' ' {
            assert(sep_at(s@, i as int));
            let part = String::from_str(s.substring_char(start, i));
            proof {
                assert(split_from(s@, start as int) == seq![s@.subrange(start as int, i as int)]
                    + split_from(s@, i + 2));
                done = done.push(part@);
                assert(done + split_from(s@, i + 2) =~= split_from(s@, 0));
            }
            parts.push(part);
            start = i + 2;
            i = i + 2;
        } else {
            assert(!sep_at(s@, i as int));
            i = i + 1;
        }
    }
    let last = String::from_str(s.substring_char(start, n));
    proof {
        assert(sep_from(s@, i as int) is None);
        assert(split_from(s@, start as int) == seq![s@.subrange(start as int, n as int)]);
        done = done.push(last@);
        assert(done =~= split_from(s@, 0));
    }
    parts.push(last);
    parts
}

/// The parts of a message: split at each `", "` and trimmed.
pub fn split_message(message: &str) -> (r: Vec<String>)
    ensures
        r@.len() == message_parts(message@).len(),
        forall|i: int| 0 <= i < r@.len() ==> (#[trigger] r@[i])@ == message_parts(message@)[i],
{
    let raw = split_text(message);
    let mut parts: Vec<String> = Vec::new();
    let mut i: usize = 0;
    while i < raw.len()
        invariant
            raw@.len() == split_from(message@, 0).len(),
            forall|j: int| 0 <= j < raw@.len() ==> (#[trigger] raw@[j])@ == split_from(message@, 0)[j],
            i <= raw.len(),
            parts@.len() == i,
            forall|j: int| 0 <= j < i ==> (#[trigger] parts@[j])@ == message_parts(message@)[j],
        decreases raw.len() - i,
    {
        parts.push(trim_text(raw[i].as_str()));
        i = i + 1;
    }
    parts
}

/// What Rust's parsing of a `bool` gives for `s`: only `true` and `false`
/// are accepted.
pub open spec fn bool_text(s: Seq<char>) -> Option<bool> {
    if s == "true"@ {
        Some(true)
    } else if s == "false"@ {
        Some(false)
    } else {
        None
    }
}

/// Reads a `bool` as Rust does: exactly `true` or `false`.
pub fn parse_bool(s: &str) -> (r: Option<bool>)
    ensures
        r == bool_text(s@),
{
    if text_eq(s, "true") {
        Some(true)
    } else if text_eq(s, "false") {
        Some(false)
    } else {
        None
    }
}

/// Whether `c` is an ASCII decimal digit.
pub open spec fn is_digit(c: char) -> bool {
    '0' <= c <= '9'
}

/// The value of a sequence of decimal digits.
pub open spec fn digits_value(d: Seq<char>) -> int
    decreases d.len(),
{
    if d.len() == 0 {
        0
    } else {
        digits_value(d.drop_last()) * 10 + (d.last() as int - '0' as int)
    }
}

/// What Rust's parsing of an `i64` gives for `s`: an optional `+` or `-`
/// followed by one or more ASCII digits, whose value fits in 64 bits.
pub open spec fn decimal_i64(s: Seq<char>) -> Option<i64> {
    let digits = unsigned_part(s);
    let value = if s.len() > 0 && s[0] == '-' {
        -digits_value(digits)
    } else {
        digits_value(digits)
    };
    if digits.len() == 0 || !all_digits(digits) {
        None
    } else if i64::MIN <= value <= i64::MAX {
        Some(value as i64)
    } else {
        None
    }
}

/// `s` without its leading sign, if it has one.
pub open spec fn unsigned_part(s: Seq<char>) -> Seq<char> {
    if s.len() > 0 && (s[0] == '-' || s[0] == '+') {
        s.drop_first()
    } else {
        s
    }
}

/// Whether every character of `d` is a digit.
pub open spec fn all_digits(d: Seq<char>) -> bool {
    forall|i: int| 0 <= i < d.len() ==> is_digit(#[trigger] d[i])
}

/// The value of digits is never negative.
proof fn lemma_digits_nonnegative(d: Seq<char>)
    requires
        forall|i: int| 0 <= i < d.len() ==> is_digit(#[trigger] d[i]),
    ensures
        digits_value(d) >= 0,
    decreases d.len(),
{
    if d.len() > 0 {
        lemma_digits_nonnegative(d.drop_last());
    }
}

/// Appending digits never makes the value smaller.
proof fn lemma_digits_grow(d: Seq<char>, k: int)
    requires
        0 <= k <= d.len(),
        forall|i: int| 0 <= i < d.len() ==> is_digit(#[trigger] d[i]),
    ensures
        digits_value(d.subrange(0, k)) <= digits_value(d),
    decreases d.len() - k,
{
    if k < d.len() {
        assert(d.subrange(0, k + 1).drop_last() =~= d.subrange(0, k));
        lemma_digits_nonnegative(d.subrange(0, k));
        lemma_digits_grow(d, k + 1);
    } else {
        assert(d.subrange(0, k) =~= d);
    }
}

/// Reads an `i64` as Rust does: an optional `+` or `-` followed by one or
/// more ASCII digits, whose value fits in 64 bits.
#[verifier::loop_isolation(false)]
pub fn parse_i64(s: &str) -> (r: Option<i64>)
    ensures
        r == decimal_i64(s@),
{
    let n = s.unicode_len();
    if n == 0 {
        return None;
    }
    let first = s.get_char(0);
    let negative = first == '-';
    let start: usize = if first == '-' || first == '+' {
        1
    } else {
        0
    };
    let ghost digits = s@.subrange(start as int, n as int);
    assert(start == 1 ==> digits =~= s@.drop_first());
    assert(start == 0 ==> digits =~= s@);
    if start == n {
        return None;
    }
    let limit: u128 = 0x8000_0000_0000_0000;
    let mut acc: u128 = 0;
    let mut i: usize = start;
    assert(s@.subrange(start as int, start as int) =~= Seq::<char>::empty());
    while i < n
        invariant
            n == s@.len(),
            start < n,
            start <= i <= n,
            digits == s@.subrange(start as int, n as int),
            forall|j: int| start <= j < i ==> is_digit(#[trigger] s@[j]),
            acc == digits_value(s@.subrange(start as int, i as int)),
            acc <= limit,
            limit == 0x8000_0000_0000_0000u128,
        decreases n - i,
    {
        let c = s.get_char(i);
        if !('0' <= c && c <= '9') {
            assert(!is_digit(digits[i - start]));
            assert(!all_digits(digits));
            assert(digits == unsigned_part(s@));
            return None;
        }
        let d = (c as u32 - '0' as u32) as u128;
        let next = acc * 10 + d;
        assert(s@.subrange(start as int, i + 1).drop_last() =~= s@.subrange(start as int, i as int));
        if next > limit {
            proof {
                assert(digits == unsigned_part(s@));
                if all_digits(digits) {
                    assert(digits.subrange(0, i + 1 - start) =~= s@.subrange(start as int, i + 1));
                    lemma_digits_grow(digits, i + 1 - start);
                }
            }
            return None;
        }
        acc = next;
        i = i + 1;
    }
    assert(s@.subrange(start as int, n as int) == digits);
    assert(digits == unsigned_part(s@));
    assert(all_digits(digits)) by {
        assert forall|j: int| 0 <= j < digits.len() implies is_digit(#[trigger] digits[j]) by {
            assert(digits[j] == s@[start + j]);
        }
    }
    let value: i128 = if negative {
        -(acc as i128)
    } else {
        acc as i128
    };
    if value < -0x8000_0000_0000_0000i128 || value > 0x7fff_ffff_ffff_ffffi128 {
        None
    } else {
        Some(value as i64)
    }
}

/// The value of a `set-config` message, as far as it is a boolean or an
/// integer.
#[derive(Debug, PartialEq)]
pub enum ConfigValue {
    Bool(bool),
    Int(i64),
    /// Neither a boolean nor an integer: the text as it came.
    Other(String),
}

/// The configuration value that text `v` gives.
pub open spec fn config_value_result(v: Seq<char>, c: ConfigValue) -> bool {
    match bool_text(v) {
        Some(b) => c == ConfigValue::Bool(b),
        None => match decimal_i64(v) {
            Some(i) => c == ConfigValue::Int(i),
            None => c matches ConfigValue::Other(t) && t@ == v,
        },
    }
}

/// Reads a configuration value: a boolean where the text is one, else an
/// integer where it is one, else the text itself.
pub fn classify_config_value(value: &str) -> (r: ConfigValue)
    ensures
        config_value_result(value@, r),
{
    match parse_bool(value) {
        Some(b) => ConfigValue::Bool(b),
        None => match parse_i64(value) {
            Some(i) => ConfigValue::Int(i),
            None => ConfigValue::Other(String::from_str(value)),
        },
    }
}

/// What a message from the web page asks the client to do.
#[derive(Debug, PartialEq)]
pub enum WebCommand {
    /// Store a setting.
    SetConfig { setting: String, value: ConfigValue },
    /// Send the settings and version to the page.
    GetInfo,
    /// Post `WM_USER` with this `WPARAM` to the main window's widget.
    SetDrag { wparam: usize },
    /// Throttle the CPU by the factor stored under this setting.
    Throttle { setting: String },
    /// Quit.
    Close,
    /// Open this entry of the settings folder.
    Open { target: String },
    /// Show this state in the rich presence.
    RpcUpdate { state: String },
    /// Post `WM_USER` with this `WPARAM` to the page's render widget.
    ToggleRenderBoost { wparam: usize },
    /// Measure the ping.
    Ping,
    /// Nothing.
    Ignore,
}

/// The command that a message with trimmed parts `parts` asks for.
pub open spec fn command_result(parts: Seq<Seq<char>>, c: WebCommand) -> bool {
    if parts.len() == 3 && parts[0] == "set-config"@ {
        c matches WebCommand::SetConfig { setting, value } && setting@ == parts[1]
            && config_value_result(parts[2], value)
    } else if parts.len() == 1 && parts[0] == "get-info"@ {
        c == WebCommand::GetInfo
    } else if parts.len() == 2 && parts[0] == "drag"@ {
        c == WebCommand::SetDrag {
            wparam: if bool_text(parts[1]) == Some(true) {
                0
            } else {
                2
            },
        }
    } else if parts.len() == 2 && parts[0] == "throttle"@ {
        c matches WebCommand::Throttle { setting } && setting@ == (if parts[1] == "game"@ {
            "throttle"@
        } else {
            "inMenuThrottle"@
        })
    } else if parts.len() == 1 && parts[0] == "close"@ {
        c == WebCommand::Close
    } else if parts.len() == 2 && parts[0] == "open"@ {
        c matches WebCommand::Open { target } && target@ == parts[1]
    } else if parts.len() == 3 && parts[0] == "rpc-update"@ {
        c matches WebCommand::RpcUpdate { state } && state@ == parts[1] + " on "@ + parts[2]
    } else if parts.len() == 2 && parts[0] == "toggle-rboost"@ {
        c == WebCommand::ToggleRenderBoost {
            wparam: if bool_text(parts[1]) == Some(true) {
                1
            } else {
                3
            },
        }
    } else if parts.len() == 1 && parts[0] == "ping"@ {
        c == WebCommand::Ping
    } else {
        c == WebCommand::Ignore
    }
}

/// Decides what a message from the web page asks for: the message is split
/// at each `", "`, the parts are trimmed, and their number and first part
/// choose the command.
pub fn parse_web_message(message: &str) -> (r: WebCommand)
    ensures
        command_result(message_parts(message@), r),
{
    let parts = split_message(message);
    let ghost ps = message_parts(message@);
    let n = parts.len();
    let head = parts[0].as_str();
    if n == 3 && text_eq(head, "set-config") {
        let setting = parts[1].clone();
        let value = classify_config_value(parts[2].as_str());
        WebCommand::SetConfig { setting, value }
    } else if n == 1 && text_eq(head, "get-info") {
        WebCommand::GetInfo
    } else if n == 2 && text_eq(head, "drag") {
        let on = parse_bool(parts[1].as_str()) == Some(true);
        WebCommand::SetDrag {
            wparam: if on {
                0
            } else {
                2
            },
        }
    } else if n == 2 && text_eq(head, "throttle") {
        let setting = if text_eq(parts[1].as_str(), "game") {
            "throttle"
        } else {
            "inMenuThrottle"
        };
        WebCommand::Throttle { setting: String::from_str(setting) }
    } else if n == 1 && text_eq(head, "close") {
        WebCommand::Close
    } else if n == 2 && text_eq(head, "open") {
        WebCommand::Open { target: parts[1].clone() }
    } else if n == 3 && text_eq(head, "rpc-update") {
        let mut state = parts[1].clone();
        state.append(" on ");
        state.append(parts[2].as_str());
        WebCommand::RpcUpdate { state }
    } else if n == 2 && text_eq(head, "toggle-rboost") {
        let on = parse_bool(parts[1].as_str()) == Some(true);
        WebCommand::ToggleRenderBoost {
            wparam: if on {
                1
            } else {
                3
            },
        }
    } else if n == 1 && text_eq(head, "ping") {
        WebCommand::Ping
    } else {
        WebCommand::Ignore
    }
}

/// The entry of the settings folder that an `open` target names.
pub open spec fn documents_entry(target: Seq<char>) -> Option<Seq<char>> {
    if target == "blocklist"@ {
        Some("user_blocklist.json"@)
    } else if target == "swapper"@ {
        Some("swapper"@)
    } else if target == "userscripts"@ {
        Some("scripts"@)
    } else {
        None
    }
}

/// The entry of the settings folder that an `open` target names, if any.
pub fn documents_subpath(target: &str) -> (r: Option<String>)
    ensures
        match r {
            Some(p) => documents_entry(target@) == Some(p@),
            None => documents_entry(target@) is None,
        },
{
    if text_eq(target, "blocklist") {
        Some(String::from_str("user_blocklist.json"))
    } else if text_eq(target, "swapper") {
        Some(String::from_str("swapper"))
    } else if text_eq(target, "userscripts") {
        Some(String::from_str("scripts"))
    } else {
        None
    }
}

} // verus!
