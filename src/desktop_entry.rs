//! Reading the name and icon of an application from its desktop entry.
use vstd::prelude::*;
use vstd::string::*;
use crate::text::{ends_with_char, push_char, starts_with_char, str_eq};

verus! {

/// Unicode white space, as `char::is_whitespace` documents it.
pub open spec fn is_ws(c: char) -> bool {
    ||| ('\u{9}' <= c && c <= '\u{d}')
    ||| c == ' ' ||| c == '\u{85}' ||| c == '\u{a0}' ||| c == '\u{1680}'
    ||| ('\u{2000}' <= c && c <= '\u{200a}')
    ||| c == '\u{2028}' ||| c == '\u{2029}' ||| c == '\u{202f}' ||| c == '\u{205f}' ||| c == '\u{3000}'
}

pub fn is_whitespace(c: char) -> (r: bool)
    ensures
        r == is_ws(c),
{
    ('\u{9}' <= c && c <= '\u{d}') || c == ' ' || c == '\u{85}' || c == '\u{a0}' || c == '\u{1680}'
        || ('\u{2000}' <= c && c <= '\u{200a}') || c == '\u{2028}' || c == '\u{2029}' || c == '\u{202f}'
        || c == '\u{205f}' || c == '\u{3000}'
}

pub open spec fn trim_start(s: Seq<char>) -> Seq<char>
    decreases s.len(),
{
    if s.len() > 0 && is_ws(s[0]) {
        trim_start(s.drop_first())
    } else {
        s
    }
}

pub open spec fn trim_end(s: Seq<char>) -> Seq<char>
    decreases s.len(),
{
    if s.len() > 0 && is_ws(s.last()) {
        trim_end(s.drop_last())
    } else {
        s
    }
}

/// `s` without leading and trailing white space.
pub open spec fn trimmed(s: Seq<char>) -> Seq<char> {
    trim_end(trim_start(s))
}

/// The characters of `s` before the first `c`: all of `s` when it has none.
pub open spec fn before_char(s: Seq<char>, c: char) -> int
    decreases s.len(),
{
    if s.len() == 0 {
        0
    } else if s[0] == c {
        0
    } else {
        1 + before_char(s.drop_first(), c)
    }
}

/// The lines of `s` read so far: the complete ones, and the one in progress.
pub open spec fn line_scan(s: Seq<char>) -> (Seq<Seq<char>>, Seq<char>)
    decreases s.len(),
{
    if s.len() == 0 {
        (Seq::empty(), Seq::empty())
    } else {
        let (done, cur) = line_scan(s.drop_last());
        if s.last() == '\n' {
            (done.push(cur), Seq::empty())
        } else {
            (done, cur.push(s.last()))
        }
    }
}

/// A line without the carriage return that may end it.
pub open spec fn strip_cr(l: Seq<char>) -> Seq<char> {
    if l.len() > 0 && l.last() == '\r' {
        l.drop_last()
    } else {
        l
    }
}

/// The lines of `s`: split at each newline, a final line only when it is
/// not empty, a carriage return that ends a line dropped.
pub open spec fn lines_of(s: Seq<char>) -> Seq<Seq<char>> {
    let (done, cur) = line_scan(s);
    let all = if cur.len() > 0 { done.push(cur) } else { done };
    all.map_values(|l: Seq<char>| strip_cr(l))
}

/// What reading a desktop entry has gathered: whether the current section
/// is the main one, and the name and icon found.
pub struct EntryScan {
    pub in_section: bool,
    pub name: Option<Seq<char>>,
    pub icon: Option<Seq<char>>,
}

pub open spec fn is_name_key(key: Seq<char>) -> bool {
    key == "Name"@ || (key.len() >= 5 && key.subrange(0, 5) == "Name["@)
}

/// One line of a desktop entry. A section header switches sections. In the
/// main section a plain `Name` always sets the name, a localized `Name[..]`
/// only while no name is known, and `Icon` sets the icon; blank lines,
/// comments and lines without `=` are skipped.
pub open spec fn scan_line(st: EntryScan, line: Seq<char>) -> EntryScan {
    let t = trimmed(line);
    if t.len() > 0 && t[0] == '[' && t.last() == ']' {
        EntryScan { in_section: t == "[Desktop Entry]"@, ..st }
    } else if !st.in_section || t.len() == 0 || t[0] == '#' {
        st
    } else {
        let e = before_char(t, '=');
        if e >= t.len() {
            st
        } else {
            let key = trimmed(t.subrange(0, e));
            let value = trimmed(t.subrange(e + 1, t.len() as int));
            if is_name_key(key) {
                if st.name is None || key == "Name"@ {
                    EntryScan { name: Some(value), ..st }
                } else {
                    st
                }
            } else if key == "Icon"@ {
                EntryScan { icon: Some(value), ..st }
            } else {
                st
            }
        }
    }
}

pub open spec fn scan_lines(lines: Seq<Seq<char>>) -> EntryScan
    decreases lines.len(),
{
    if lines.len() == 0 {
        EntryScan { in_section: false, name: None, icon: None }
    } else {
        scan_line(scan_lines(lines.drop_last()), lines.last())
    }
}

pub open spec fn opt_view(o: Option<String>) -> Option<Seq<char>> {
    match o {
        Some(s) => Some(s@),
        None => None,
    }
}

/// The name and icon of a desktop entry.
#[derive(Debug, Default)]
pub struct DesktopEntry {
    pub name: Option<String>,
    pub icon: Option<String>,
}

pub fn trim(s: &str) -> (r: String)
    ensures
        r@ == trimmed(s@),
{
    let n = s.unicode_len();
    let mut a: usize = 0;
    assert(s@.subrange(0, n as int) =~= s@);
    while a < n && is_whitespace(s.get_char(a))
        invariant
            n == s@.len(),
            a <= n,
            trim_start(s@) == trim_start(s@.subrange(a as int, n as int)),
        decreases n - a,
    {
        assert(s@.subrange(a as int, n as int).drop_first() =~= s@.subrange(a + 1, n as int));
        a += 1;
    }
    let mut b: usize = n;
    while b > a && is_whitespace(s.get_char(b - 1))
        invariant
            n == s@.len(),
            a <= b <= n,
            trimmed(s@) == trim_end(s@.subrange(a as int, b as int)),
        decreases b,
    {
        assert(s@.subrange(a as int, b as int).drop_last() =~= s@.subrange(a as int, b - 1));
        b -= 1;
    }
    let t = s.substring_char(a, b);
    String::from_str(t)
}

fn find_char(s: &str, c: char) -> (r: usize)
    ensures
        r == before_char(s@, c),
{
    let n = s.unicode_len();
    let mut i: usize = 0;
    assert(s@.subrange(0, n as int) =~= s@);
    while i < n && s.get_char(i) != c
        invariant
            n == s@.len(),
            i <= n,
            before_char(s@, c) == i + before_char(s@.subrange(i as int, n as int), c),
        decreases n - i,
    {
        assert(s@.subrange(i as int, n as int).drop_first() =~= s@.subrange(i + 1, n as int));
        i += 1;
    }
    i
}

proof fn lemma_before_char_bound(s: Seq<char>, c: char)
    ensures
        0 <= before_char(s, c) <= s.len(),
        before_char(s, c) < s.len() ==> s[before_char(s, c)] == c,
    decreases s.len(),
{
    if s.len() > 0 && s[0] != c {
        lemma_before_char_bound(s.drop_first(), c);
    }
}

impl DesktopEntry {
    fn scan_line_exec(in_section: &mut bool, name: &mut Option<String>, icon: &mut Option<String>, line: &str)
        ensures
            ({
                let st = scan_line(EntryScan { in_section: *old(in_section), name: opt_view(*old(name)), icon: opt_view(*old(icon)) }, line@);
                st.in_section == *final(in_section) && st.name == opt_view(*final(name)) && st.icon == opt_view(*final(icon))
            }),
    {
        let t = trim(line);
        let ts = t.as_str();
        if starts_with_char(ts, '[') && ends_with_char(ts, ']') {
            *in_section = str_eq(ts, "[Desktop Entry]");
            return;
        }
        if !*in_section || ts.unicode_len() == 0 || starts_with_char(ts, '#') {
            return;
        }
        let n = ts.unicode_len();
        let e = find_char(ts, '=');
        proof {
            lemma_before_char_bound(ts@, '=');
        }
        if e >= n {
            return;
        }
        let key = trim(ts.substring_char(0, e));
        let value = trim(ts.substring_char(e + 1, n));
        let ks = key.as_str();
        let k = ks.unicode_len();
        let localized = k >= 5 && str_eq(ks.substring_char(0, 5), "Name[");
        let plain = str_eq(ks, "Name");
        if plain || localized {
            if name.is_none() || plain {
                *name = Some(value);
            }
        } else if str_eq(ks, "Icon") {
            *icon = Some(value);
        }
    }

    /// Reads the name and icon of the main section of a desktop entry:
    /// `None` when it gives neither.
    pub fn parse_from_string(content: &str) -> (r: Option<DesktopEntry>)
        ensures
            ({
                let st = scan_lines(lines_of(content@));
                match r {
                    Some(e) => (st.name is Some || st.icon is Some) && opt_view(e.name) == st.name
                        && opt_view(e.icon) == st.icon,
                    None => st.name is None && st.icon is None,
                }
            }),
    {
        let n = content.unicode_len();
        let mut in_section = false;
        let mut name: Option<String> = None;
        let mut icon: Option<String> = None;
        let mut cur = String::new();
        let mut i: usize = 0;
        while i < n
            invariant
                n == content@.len(),
                i <= n,
                line_scan(content@.subrange(0, i as int)).1 == cur@,
                ({
                    let st = scan_lines(line_scan(content@.subrange(0, i as int)).0.map_values(|l: Seq<char>| strip_cr(l)));
                    st.in_section == in_section && st.name == opt_view(name) && st.icon == opt_view(icon)
                }),
            decreases n - i,
        {
            let c = content.get_char(i);
            let ghost pre = content@.subrange(0, i as int);
            let ghost next = content@.subrange(0, i + 1);
            assert(next.drop_last() =~= pre);
            if c == '\n' {
                let line = Self::strip_cr_exec(&cur);
                Self::scan_line_exec(&mut in_section, &mut name, &mut icon, line.as_str());
                let ghost done = line_scan(pre).0;
                assert(line_scan(next).0.map_values(|l: Seq<char>| strip_cr(l))
                    =~= done.map_values(|l: Seq<char>| strip_cr(l)).push(strip_cr(cur@)));
                assert(line_scan(next).0.map_values(|l: Seq<char>| strip_cr(l)).drop_last()
                    =~= done.map_values(|l: Seq<char>| strip_cr(l)));
                cur = String::new();
            } else {
                push_char(&mut cur, c);
                assert(line_scan(next).0 =~= line_scan(pre).0);
            }
            i += 1;
        }
        assert(content@.subrange(0, n as int) =~= content@);
        let ghost done = line_scan(content@).0;
        if cur.as_str().unicode_len() > 0 {
            let line = Self::strip_cr_exec(&cur);
            Self::scan_line_exec(&mut in_section, &mut name, &mut icon, line.as_str());
            assert(done.push(cur@).map_values(|l: Seq<char>| strip_cr(l)).drop_last()
                =~= done.map_values(|l: Seq<char>| strip_cr(l)));
        }
        if name.is_some() || icon.is_some() {
            Some(DesktopEntry { name, icon })
        } else {
            None
        }
    }

    pub fn strip_cr_exec(l: &String) -> (r: String)
        ensures
            r@ == strip_cr(l@),
    {
        let s = l.as_str();
        let n = s.unicode_len();
        if n > 0 && s.get_char(n - 1) == '\r' {
            assert(s@.subrange(0, n - 1) =~= s@.drop_last());
            String::from_str(s.substring_char(0, n - 1))
        } else {
            l.clone()
        }
    }
}

} // verus!
