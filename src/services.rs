//! Plain data of the desktop services the scripts can reach.
use vstd::prelude::*;

verus! {

/// Why a system query failed.
#[derive(Debug)]
pub enum SystemError {
    IoError(String),
    CommandError(String),
    ParseError(String),
    Utf8Error(String),
    NotFound(String),
    Other(String),
}

/// Battery status from the kernel's power-supply class.
#[derive(Debug, Clone, Copy)]
pub struct LinuxBatteryService;

/// Wireless network status from the network manager.
#[derive(Debug, Clone, Copy)]
pub struct LinuxWifiService;

/// The Wayland clipboard.
#[derive(Debug, Clone, Copy)]
pub struct LinuxClipboardService;

/// The playing media, from the media-player controller.
#[derive(Debug, Clone, Copy)]
pub struct LinuxMediaService;

/// A desktop notification as it arrives over the session bus.
#[derive(Debug)]
pub struct Notification {
    pub app_name: String,
    pub summary: String,
    pub body: String,
    pub timeout: i32,
}

/// A change announced by a tray item.
#[derive(Debug)]
pub enum TrayUpdate {
    ItemRegistered(String),
}

/// An event from the session-bus services.
#[derive(Debug)]
pub enum DbusUpdate {
    Notification(Notification),
    Tray(TrayUpdate),
}

/// A tray icon image: width, height and ARGB pixel bytes.
#[derive(Debug)]
pub struct Pixmap {
    pub width: i32,
    pub height: i32,
    pub data: Vec<u8>,
}

} // verus!

verus! {

pub open spec fn digit_of(c: char) -> Option<int> {
    if '0' <= c && c <= '9' { Some(c as int - '0' as int) } else { None }
}

/// The value of a non-empty run of decimal digits.
pub open spec fn digits_value(s: Seq<char>) -> Option<int>
    decreases s.len(),
{
    if s.len() == 0 {
        None
    } else if s.len() == 1 {
        digit_of(s[0])
    } else {
        match (digits_value(s.drop_last()), digit_of(s.last())) {
            (Some(v), Some(d)) => Some(10 * v + d),
            _ => None,
        }
    }
}

/// A decimal integer with an optional sign, when it fits in an `i32`.
pub open spec fn decimal_i32(s: Seq<char>) -> Option<i32> {
    let v = if s.len() > 0 && s[0] == '-' {
        match digits_value(s.drop_first()) {
            Some(x) => Some(-x),
            None => None,
        }
    } else if s.len() > 0 && s[0] == '+' {
        digits_value(s.drop_first())
    } else {
        digits_value(s)
    };
    match v {
        Some(x) => if i32::MIN <= x <= i32::MAX { Some(x as i32) } else { None },
        None => None,
    }
}

proof fn lemma_digits_nonneg(s: Seq<char>)
    ensures
        digits_value(s) matches Some(v) ==> v >= 0,
    decreases s.len(),
{
    if s.len() > 1 {
        lemma_digits_nonneg(s.drop_last());
    }
}

/// A prefix of a run of digits is worth no more than the whole run.
proof fn lemma_digits_prefix(s: Seq<char>, k: int)
    requires
        1 <= k <= s.len(),
        digits_value(s) is Some,
    ensures
        digits_value(s.subrange(0, k)) is Some,
        digits_value(s.subrange(0, k))->0 <= digits_value(s)->0,
    decreases s.len(),
{
    if k == s.len() {
        assert(s.subrange(0, k) =~= s);
    } else {
        lemma_digits_prefix(s.drop_last(), k);
        assert(s.drop_last().subrange(0, k) =~= s.subrange(0, k));
        lemma_digits_nonneg(s.drop_last());
    }
}

/// Reads a run of decimal digits, as far as its value stays within `limit`.
fn digits_up_to(s: &str, from: usize, limit: i64) -> (r: Option<i64>)
    requires
        from <= s@.len(),
        9 <= limit <= 4_000_000_000,
    ensures
        match r {
            Some(v) => digits_value(s@.subrange(from as int, s@.len() as int)) == Some(v as int) && v <= limit,
            None => !(digits_value(s@.subrange(from as int, s@.len() as int)) matches Some(v) && v <= limit),
        },
{
    let n = s.unicode_len();
    if from >= n {
        return None;
    }
    let ghost t = s@.subrange(from as int, n as int);
    let mut acc: i64 = 0;
    let mut i: usize = from;
    while i < n
        invariant
            n == s@.len(),
            t == s@.subrange(from as int, n as int),
            from <= i <= n,
            from < n,
            0 <= acc <= limit,
            9 <= limit <= 4_000_000_000,
            i == from ==> acc == 0,
            i > from ==> digits_value(t.subrange(0, i - from)) == Some(acc as int),
        decreases n - i,
    {
        let c = s.get_char(i);
        assert(t[i - from] == c);
        assert(t.subrange(0, i + 1 - from).drop_last() =~= t.subrange(0, i - from));
        assert(t.subrange(0, i + 1 - from).last() == c);
        if c < '0' || c > '9' {
            proof {
                if digits_value(t) is Some {
                    lemma_digits_prefix(t, i + 1 - from);
                }
            }
            return None;
        }
        let d = (c as u32 - '0' as u32) as i64;
        assert(0 <= d <= 9);
        assert(digit_of(c) == Some(d as int));
        proof {
            let p = t.subrange(0, i + 1 - from);
            if i == from {
                assert(p.len() == 1);
                assert(digits_value(p) == Some(10 * acc + d));
            } else {
                assert(digits_value(p) == Some(10 * acc + d));
            }
        }
        if acc > (limit - d) / 10 {
            proof {
                assert(10 * acc + d > limit) by (nonlinear_arith)
                    requires acc > (limit - d) / 10, 0 <= d <= 9, limit >= 0;
                if digits_value(t) is Some {
                    lemma_digits_prefix(t, i + 1 - from);
                }
            }
            return None;
        }
        assert(10 * acc + d <= limit) by (nonlinear_arith)
            requires acc <= (limit - d) / 10, 0 <= d <= 9, limit >= 0, acc >= 0;
        acc = 10 * acc + d;
        i += 1;
    }
    assert(t.subrange(0, n - from) =~= t);
    Some(acc)
}

/// Reads a decimal `i32` as `str::parse` does: an optional sign and digits.
pub fn parse_i32(s: &str) -> (r: Option<i32>)
    ensures
        r == decimal_i32(s@),
{
    let n = s.unicode_len();
    let (negative, from) = if n > 0 && s.get_char(0) == '-' {
        (true, 1usize)
    } else if n > 0 && s.get_char(0) == '+' {
        (false, 1usize)
    } else {
        (false, 0usize)
    };
    assert(from == 1 ==> s@.subrange(1, n as int) =~= s@.drop_first());
    assert(from == 0 ==> s@.subrange(0, n as int) =~= s@);
    let limit: i64 = if negative { 2147483648 } else { 2147483647 };
    let ghost t = s@.subrange(from as int, n as int);
    proof {
        lemma_digits_nonneg(t);
    }
    match digits_up_to(s, from, limit) {
        Some(v) => if negative { Some((-v) as i32) } else { Some(v as i32) },
        None => None,
    }
}

impl LinuxBatteryService {
    /// The battery capacity from the text of its `capacity` file.
    pub fn parse_capacity(&self, content: &str) -> (r: Result<i32, SystemError>)
        ensures
            match decimal_i32(crate::desktop_entry::trimmed(content@)) {
                Some(v) => r matches Ok(x) && x == v,
                None => r matches Err(SystemError::ParseError(_)),
            },
    {
        let t = crate::desktop_entry::trim(content);
        match parse_i32(t.as_str()) {
            Some(v) => Ok(v),
            None => Err(SystemError::ParseError(String::from_str("Failed to parse capacity"))),
        }
    }
}

pub open spec fn starts_yes(l: Seq<char>) -> bool {
    l.len() >= 4 && l.subrange(0, 4) == "yes:"@
}

/// `l` without every leading "yes:".
pub open spec fn strip_yes(l: Seq<char>) -> Seq<char>
    decreases l.len(),
{
    if starts_yes(l) { strip_yes(l.subrange(4, l.len() as int)) } else { l }
}

/// The first active line, stripped of its marker.
pub open spec fn first_active(lines: Seq<Seq<char>>) -> Option<Seq<char>>
    decreases lines.len(),
{
    if lines.len() == 0 {
        None
    } else {
        match first_active(lines.drop_last()) {
            Some(x) => Some(x),
            None => if starts_yes(lines.last()) { Some(strip_yes(lines.last())) } else { None },
        }
    }
}

/// The network name from the network manager's terse listing.
pub open spec fn ssid_of(output: Seq<char>) -> Seq<char> {
    match first_active(crate::desktop_entry::lines_of(output)) {
        Some(x) => x,
        None => "Disconnected"@,
    }
}

fn starts_yes_exec(l: &str) -> (r: bool)
    ensures
        r == starts_yes(l@),
{
    let n = l.unicode_len();
    n >= 4 && crate::text::str_eq(l.substring_char(0, 4), "yes:")
}

fn strip_yes_exec(l: &str) -> (r: String)
    ensures
        r@ == strip_yes(l@),
{
    let mut cur = String::from_str(l);
    while starts_yes_exec(cur.as_str())
        invariant
            strip_yes(cur@) == strip_yes(l@),
        decreases cur@.len(),
    {
        let n = cur.as_str().unicode_len();
        cur = String::from_str(cur.as_str().substring_char(4, n));
    }
    cur
}

impl LinuxWifiService {
    /// The name of the active network in the listing `nmcli -t -f active,ssid
    /// dev wifi` prints: the first line marked "yes:", else "Disconnected".
    pub fn ssid_from_output(&self, output: &str) -> (r: String)
        ensures
            r@ == ssid_of(output@),
    {
        let n = output.unicode_len();
        let mut found: Option<String> = None;
        let mut cur = String::new();
        let mut i: usize = 0;
        while i < n
            invariant
                n == output@.len(),
                i <= n,
                crate::desktop_entry::line_scan(output@.subrange(0, i as int)).1 == cur@,
                crate::desktop_entry::opt_view(found) == first_active(crate::desktop_entry::line_scan(output@.subrange(0, i as int)).0
                    .map_values(|l: Seq<char>| crate::desktop_entry::strip_cr(l))),
            decreases n - i,
        {
            let c = output.get_char(i);
            let ghost pre = output@.subrange(0, i as int);
            let ghost next = output@.subrange(0, i + 1);
            assert(next.drop_last() =~= pre);
            if c == '\n' {
                let line = crate::desktop_entry::DesktopEntry::strip_cr_exec(&cur);
                if found.is_none() && starts_yes_exec(line.as_str()) {
                    found = Some(strip_yes_exec(line.as_str()));
                }
                let ghost done = crate::desktop_entry::line_scan(pre).0;
                assert(crate::desktop_entry::line_scan(next).0.map_values(|l: Seq<char>| crate::desktop_entry::strip_cr(l))
                    =~= done.map_values(|l: Seq<char>| crate::desktop_entry::strip_cr(l)).push(crate::desktop_entry::strip_cr(cur@)));
                assert(crate::desktop_entry::line_scan(next).0.map_values(|l: Seq<char>| crate::desktop_entry::strip_cr(l)).drop_last()
                    =~= done.map_values(|l: Seq<char>| crate::desktop_entry::strip_cr(l)));
                cur = String::new();
            } else {
                crate::text::push_char(&mut cur, c);
                assert(crate::desktop_entry::line_scan(next).0 =~= crate::desktop_entry::line_scan(pre).0);
            }
            i += 1;
        }
        assert(output@.subrange(0, n as int) =~= output@);
        let ghost done = crate::desktop_entry::line_scan(output@).0;
        if cur.as_str().unicode_len() > 0 {
            let line = crate::desktop_entry::DesktopEntry::strip_cr_exec(&cur);
            if found.is_none() && starts_yes_exec(line.as_str()) {
                found = Some(strip_yes_exec(line.as_str()));
            }
            assert(done.push(cur@).map_values(|l: Seq<char>| crate::desktop_entry::strip_cr(l)).drop_last()
                =~= done.map_values(|l: Seq<char>| crate::desktop_entry::strip_cr(l)));
        }
        match found {
            Some(s) => s,
            None => String::from_str("Disconnected"),
        }
    }
}

} // verus!
