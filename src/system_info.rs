use vstd::prelude::*;
use crate::text::{parse_decimal_micros, parse_micros, parse_u64, u64_value};
use crate::scan::{
    chars_of, contains, find, find_at, find_from, lemma_find_from_bounds, line_bounds, lines_of,
    matches_at, slice_chars, starts_with, trim, trim_bounds, word_bounds, words_of,
};

verus! {

pub open spec fn unknown() -> Seq<char> {
    "Unknown"@
}

/// The text between the first `sep` of `line` and the next one (or the end): what
/// `line.split(sep).nth(1)` gives.
pub open spec fn second_field(line: Seq<char>, sep: Seq<char>) -> Option<Seq<char>> {
    match find(line, sep) {
        Some(k) => {
            let e = match find_from(line, sep, k + sep.len()) {
                Some(j) => j,
                None => line.len() as int,
            };
            if k + sep.len() <= e <= line.len() {
                Some(line.subrange(k + sep.len(), e))
            } else {
                None
            }
        },
        None => None,
    }
}

/// The first of `lines` that begins with `prefix`.
pub open spec fn first_with_prefix(lines: Seq<Seq<char>>, prefix: Seq<char>) -> Option<Seq<char>>
    decreases lines.len(),
{
    if lines.len() == 0 {
        None
    } else if starts_with(lines[0], prefix) {
        Some(lines[0])
    } else {
        first_with_prefix(lines.drop_first(), prefix)
    }
}

/// The value of the first "key : value" line of /proc/cpuinfo that begins with
/// `key`, trimmed; `None` when there is no such line or it has no ':'.
pub open spec fn cpuinfo_value(content: Seq<char>, key: Seq<char>) -> Option<Seq<char>> {
    match first_with_prefix(lines_of(content), key) {
        Some(line) => match second_field(line, ":"@) {
            Some(v) => Some(trim(v)),
            None => None,
        },
        None => None,
    }
}

/// The first three fields of /proc/loadavg, space separated; "Unknown" when there
/// are fewer.
pub open spec fn load_average_text(content: Seq<char>) -> Seq<char> {
    let w = words_of(content);
    if w.len() >= 3 {
        w[0] + " "@ + w[1] + " "@ + w[2]
    } else {
        unknown()
    }
}

fn pattern(p: &str) -> (r: Vec<char>)
    requires
        p@.len() >= 1,
    ensures
        r@ == p@,
        r.len() >= 1,
{
    chars_of(p)
}

/// Whether `cs` begins with `p`.
fn begins_with(cs: &Vec<char>, p: &Vec<char>) -> (r: bool)
    ensures
        r == starts_with(cs@, p@),
{
    let r = matches_at(cs, p, 0);
    proof {
        if p.len() <= cs.len() {
            assert(cs@.subrange(0, p.len() as int) =~= cs@.take(p.len() as int));
        }
    }
    r
}

/// `second_field` of the line `line`, which is `s[lo..]` for a prefix of that length.
fn second_field_text(s: &str, lo: usize, line: &Vec<char>, sep: &Vec<char>) -> (r: Option<(
    usize,
    usize,
)>)
    requires
        sep.len() >= 1,
        lo + line.len() <= s@.len() <= usize::MAX,
        line@ == s@.subrange(lo as int, lo + line.len()),
    ensures
        match r {
            Some((a, b)) => a <= b <= line.len() && second_field(line@, sep@) == Some(
                line@.subrange(a as int, b as int),
            ),
            None => second_field(line@, sep@) is None,
        },
{
    let k = match find_at(line, sep, 0) {
        Some(k) => k,
        None => return None,
    };
    proof {
        lemma_find_from_bounds(line@, sep@, 0);
    }
    let start = k + sep.len();
    let e = match find_at(line, sep, start) {
        Some(j) => {
            proof {
                lemma_find_from_bounds(line@, sep@, start as int);
            }
            j
        },
        None => line.len(),
    };
    Some((start, e))
}

/// The value of the first line of `content` (from /proc/cpuinfo) that begins with
/// `key` (see `cpuinfo_value`).
pub fn parse_cpuinfo_field(content: &str, key: &str) -> (r: Option<String>)
    ensures
        match r {
            Some(v) => cpuinfo_value(content@, key@) == Some(v@),
            None => cpuinfo_value(content@, key@) is None,
        },
{
    proof {
        reveal_strlit(":");
    }
    let colon = pattern(":");
    let key_chars = chars_of(key);
    let cs = chars_of(content);
    let bounds = line_bounds(&cs);
    let ghost lines = lines_of(cs@);
    let mut k: usize = 0;
    assert(lines.skip(0) =~= lines);
    while k < bounds.len()
        invariant
            cs@ == content@,
            key_chars@ == key@,
            colon@ == ":"@,
            colon.len() >= 1,
            lines == lines_of(cs@),
            bounds.len() == lines.len(),
            forall|j: int|
                0 <= j < bounds.len() ==> {
                    &&& (#[trigger] bounds@[j]).0 <= bounds@[j].1 <= cs.len()
                    &&& cs@.subrange(bounds@[j].0 as int, bounds@[j].1 as int) == lines[j]
                },
            k <= bounds.len(),
            first_with_prefix(lines.skip(k as int), key@) == first_with_prefix(lines, key@),
        decreases bounds.len() - k,
    {
        let (lo, hi) = bounds[k];
        let line = slice_chars(&cs, lo, hi);
        proof {
            assert(lines.skip(k as int)[0] == line@);
            assert(lines.skip(k as int).drop_first() =~= lines.skip(k + 1));
        }
        if begins_with(&line, &key_chars) {
            return match second_field_text(content, lo, &line, &colon) {
                Some((a, b)) => {
                    let (x, y) = trim_bounds(&line, a, b);
                    let t = content.substring_char(lo + x, lo + y);
                    assert(t@ =~= line@.subrange(x as int, y as int));
                    Some(t.to_owned())
                },
                None => None,
            };
        }
        k = k + 1;
    }
    assert(lines.skip(k as int) =~= Seq::<Seq<char>>::empty());
    None
}

/// The load averages out of /proc/loadavg (see `load_average_text`).
pub fn parse_load_average(content: &str) -> (r: String)
    ensures
        r@ == load_average_text(content@),
{
    let cs = chars_of(content);
    let w = word_bounds(&cs);
    if w.len() < 3 {
        return "Unknown".to_owned();
    }
    let mut t = content.substring_char(w[0].0, w[0].1).to_owned();
    t.append(" ");
    t.append(content.substring_char(w[1].0, w[1].1));
    t.append(" ");
    t.append(content.substring_char(w[2].0, w[2].1));
    assert(t@ =~= load_average_text(content@));
    t
}

/// The servers named by "nameserver" lines of `lines`: the second word of each.
pub open spec fn nameservers(lines: Seq<Seq<char>>) -> Seq<Seq<char>>
    decreases lines.len(),
{
    if lines.len() == 0 {
        Seq::empty()
    } else {
        let l = lines[0];
        let rest = nameservers(lines.drop_first());
        if starts_with(l, "nameserver"@) && words_of(l).len() >= 2 {
            seq![words_of(l)[1]] + rest
        } else {
            rest
        }
    }
}

/// The DNS servers of /etc/resolv.conf, or just "Unknown" when it names none.
pub open spec fn dns_servers(content: Seq<char>) -> Seq<Seq<char>> {
    let found = nameservers(lines_of(content));
    if found.len() == 0 {
        seq![unknown()]
    } else {
        found
    }
}

/// The DNS servers named in `content`, the text of /etc/resolv.conf (see `dns_servers`).
pub fn parse_dns_servers(content: &str) -> (r: Vec<String>)
    ensures
        r@.map_values(|s: String| s@) == dns_servers(content@),
{
    proof {
        reveal_strlit("nameserver");
    }
    let key = pattern("nameserver");
    let cs = chars_of(content);
    let bounds = line_bounds(&cs);
    let ghost lines = lines_of(cs@);
    let mut out: Vec<String> = Vec::new();
    let mut k: usize = 0;
    assert(lines.skip(0) =~= lines);
    while k < bounds.len()
        invariant
            cs@ == content@,
            key@ == "nameserver"@,
            lines == lines_of(cs@),
            bounds.len() == lines.len(),
            forall|j: int|
                0 <= j < bounds.len() ==> {
                    &&& (#[trigger] bounds@[j]).0 <= bounds@[j].1 <= cs.len()
                    &&& cs@.subrange(bounds@[j].0 as int, bounds@[j].1 as int) == lines[j]
                },
            k <= bounds.len(),
            out@.map_values(|s: String| s@) + nameservers(lines.skip(k as int)) == nameservers(lines),
        decreases bounds.len() - k,
    {
        let (lo, hi) = bounds[k];
        let line = slice_chars(&cs, lo, hi);
        proof {
            assert(lines.skip(k as int)[0] == line@);
            assert(lines.skip(k as int).drop_first() =~= lines.skip(k + 1));
        }
        let ghost before = out@.map_values(|s: String| s@);
        if begins_with(&line, &key) {
            let w = word_bounds(&line);
            if w.len() >= 2 {
                let (a, b) = w[1];
                let t = content.substring_char(lo + a, lo + b);
                assert(t@ =~= line@.subrange(a as int, b as int));
                out.push(t.to_owned());
                assert(out@.map_values(|s: String| s@) =~= before.push(t@));
                assert(before.push(t@) + nameservers(lines.skip(k + 1)) =~= before + (seq![t@]
                    + nameservers(lines.skip(k + 1))));
            }
        }
        k = k + 1;
    }
    assert(lines.skip(k as int) =~= Seq::<Seq<char>>::empty());
    assert(out@.map_values(|s: String| s@) + Seq::<Seq<char>>::empty() =~= out@.map_values(
        |s: String| s@,
    ));
    if out.len() == 0 {
        let r = vec!["Unknown".to_owned()];
        assert(r@.map_values(|s: String| s@) =~= dns_servers(content@));
        r
    } else {
        out
    }
}

/// The word after the first "dev" in `ws` from index `i` on that has a word after it.
pub open spec fn dev_word(ws: Seq<Seq<char>>, i: int) -> Option<Seq<char>>
    decreases ws.len() - i,
{
    if i < 0 || i >= ws.len() {
        None
    } else if ws[i] == "dev"@ && i + 1 < ws.len() {
        Some(ws[i + 1])
    } else {
        dev_word(ws, i + 1)
    }
}

/// The interface of the first "default via ... dev X" line of `lines`.
pub open spec fn route_interface(lines: Seq<Seq<char>>) -> Option<Seq<char>>
    decreases lines.len(),
{
    if lines.len() == 0 {
        None
    } else {
        let l = lines[0];
        match (if contains(l, "default via"@) {
            dev_word(words_of(l), 0)
        } else {
            None
        }) {
            Some(d) => Some(d),
            None => route_interface(lines.drop_first()),
        }
    }
}

/// The interface of the default route in `output`, what `ip route show default`
/// prints; "Unknown" when there is none.
pub open spec fn default_interface(output: Seq<char>) -> Seq<char> {
    match route_interface(lines_of(output)) {
        Some(d) => d,
        None => unknown(),
    }
}

fn dev_in_line(s: &str, lo: usize, line: &Vec<char>) -> (r: Option<String>)
    requires
        lo + line.len() <= s@.len() <= usize::MAX,
        line@ == s@.subrange(lo as int, lo + line.len()),
    ensures
        match r {
            Some(d) => dev_word(words_of(line@), 0) == Some(d@),
            None => dev_word(words_of(line@), 0) is None,
        },
{
    let dev = "dev".to_owned();
    let w = word_bounds(line);
    let ghost ws = words_of(line@);
    let mut i: usize = 0;
    while i < w.len()
        invariant
            ws == words_of(line@),
            w.len() == ws.len(),
            dev@ == "dev"@,
            lo + line.len() <= s@.len() <= usize::MAX,
            line@ == s@.subrange(lo as int, lo + line.len()),
            forall|k: int|
                0 <= k < w.len() ==> {
                    &&& (#[trigger] w@[k]).0 <= w@[k].1 <= line.len()
                    &&& line@.subrange(w@[k].0 as int, w@[k].1 as int) == ws[k]
                },
            i <= w.len(),
            dev_word(ws, 0) == dev_word(ws, i as int),
        decreases w.len() - i,
    {
        let (a, b) = w[i];
        let word = s.substring_char(lo + a, lo + b).to_owned();
        assert(word@ =~= ws[i as int]);
        if word == dev && i + 1 < w.len() {
            let (c, d) = w[i + 1];
            let next = s.substring_char(lo + c, lo + d);
            assert(next@ =~= ws[i + 1]);
            assert(ws[i as int] == "dev"@);
            assert(dev_word(ws, i as int) == Some(ws[i + 1]));
            return Some(next.to_owned());
        }
        i = i + 1;
    }
    None
}

/// The interface of the default route (see `default_interface`).
pub fn parse_default_interface(output: &str) -> (r: String)
    ensures
        r@ == default_interface(output@),
{
    proof {
        reveal_strlit("default via");
    }
    let key = pattern("default via");
    let cs = chars_of(output);
    let bounds = line_bounds(&cs);
    let ghost lines = lines_of(cs@);
    let mut k: usize = 0;
    assert(lines.skip(0) =~= lines);
    while k < bounds.len()
        invariant
            cs@ == output@,
            key@ == "default via"@,
            key.len() >= 1,
            lines == lines_of(cs@),
            bounds.len() == lines.len(),
            forall|j: int|
                0 <= j < bounds.len() ==> {
                    &&& (#[trigger] bounds@[j]).0 <= bounds@[j].1 <= cs.len()
                    &&& cs@.subrange(bounds@[j].0 as int, bounds@[j].1 as int) == lines[j]
                },
            k <= bounds.len(),
            route_interface(lines.skip(k as int)) == route_interface(lines),
        decreases bounds.len() - k,
    {
        let (lo, hi) = bounds[k];
        let line = slice_chars(&cs, lo, hi);
        proof {
            assert(lines.skip(k as int)[0] == line@);
            assert(lines.skip(k as int).drop_first() =~= lines.skip(k + 1));
        }
        if find_at(&line, &key, 0).is_some() {
            match dev_in_line(output, lo, &line) {
                Some(d) => return d,
                None => {},
            }
        }
        k = k + 1;
    }
    assert(lines.skip(k as int) =~= Seq::<Seq<char>>::empty());
    "Unknown".to_owned()
}

/// `s` without the '"' characters at its start and at its end.
pub open spec fn strip_quotes(s: Seq<char>) -> Seq<char>
    decreases s.len(),
{
    if s.len() > 0 && s[0] == '"' {
        strip_quotes(s.drop_first())
    } else if s.len() > 0 && s.last() == '"' {
        strip_quotes(s.drop_last())
    } else {
        s
    }
}

/// The distribution's name from /etc/os-release: the value of its first
/// "PRETTY_NAME=" line without quotes; "Unknown" when there is none.
pub open spec fn pretty_name(content: Seq<char>) -> Seq<char> {
    match first_with_prefix(lines_of(content), "PRETTY_NAME="@) {
        Some(line) => match second_field(line, "="@) {
            Some(v) => strip_quotes(v),
            None => unknown(),
        },
        None => unknown(),
    }
}

proof fn lemma_strip_quotes(s: Seq<char>, a: int, b: int)
    requires
        0 <= a <= b <= s.len(),
        forall|j: int| 0 <= j < a ==> #[trigger] s[j] == '"',
        forall|j: int| b <= j < s.len() ==> #[trigger] s[j] == '"',
        a < b ==> s[a] != '"' && s[b - 1] != '"',
    ensures
        strip_quotes(s) == s.subrange(a, b),
    decreases s.len(),
{
    if s.len() > 0 && s[0] == '"' {
        if a == 0 {
            assert(b == 0);
            lemma_strip_quotes(s.drop_first(), 0, 0);
            assert(s.drop_first().subrange(0, 0) =~= s.subrange(0, 0));
        } else {
            lemma_strip_quotes(s.drop_first(), a - 1, b - 1);
            assert(s.drop_first().subrange(a - 1, b - 1) =~= s.subrange(a, b));
        }
    } else if s.len() > 0 && s.last() == '"' {
        if b == s.len() {
            assert(a == b);
        }
        lemma_strip_quotes(s.drop_last(), a, if b == s.len() { b - 1 } else { b });
        assert(s.drop_last().subrange(a, if b == s.len() { b - 1 } else { b }) =~= s.subrange(a, b));
    } else {
        if a > 0 {
            assert(s[0] == '"');
        }
        if b < s.len() {
            assert(s[s.len() - 1] == '"');
        }
        assert(s.subrange(a, b) =~= s);
    }
}

/// The distribution's name out of `content`, the text of /etc/os-release (see
/// `pretty_name`).
pub fn parse_pretty_name(content: &str) -> (r: String)
    ensures
        r@ == pretty_name(content@),
{
    proof {
        reveal_strlit("=");
        reveal_strlit("PRETTY_NAME=");
    }
    let eq = pattern("=");
    let key = pattern("PRETTY_NAME=");
    let cs = chars_of(content);
    let bounds = line_bounds(&cs);
    let ghost lines = lines_of(cs@);
    let mut k: usize = 0;
    assert(lines.skip(0) =~= lines);
    while k < bounds.len()
        invariant
            cs@ == content@,
            key@ == "PRETTY_NAME="@,
            eq@ == "="@,
            eq.len() >= 1,
            lines == lines_of(cs@),
            bounds.len() == lines.len(),
            forall|j: int|
                0 <= j < bounds.len() ==> {
                    &&& (#[trigger] bounds@[j]).0 <= bounds@[j].1 <= cs.len()
                    &&& cs@.subrange(bounds@[j].0 as int, bounds@[j].1 as int) == lines[j]
                },
            k <= bounds.len(),
            first_with_prefix(lines.skip(k as int), key@) == first_with_prefix(lines, key@),
        decreases bounds.len() - k,
    {
        let (lo, hi) = bounds[k];
        let line = slice_chars(&cs, lo, hi);
        proof {
            assert(lines.skip(k as int)[0] == line@);
            assert(lines.skip(k as int).drop_first() =~= lines.skip(k + 1));
        }
        if begins_with(&line, &key) {
            return match second_field_text(content, lo, &line, &eq) {
                Some((a, b)) => {
                    let ghost v = line@.subrange(a as int, b as int);
                    let mut x = a;
                    while x < b && line[x] == '"'
                        invariant
                            a <= x <= b <= line.len(),
                            forall|j: int| a <= j < x ==> #[trigger] line@[j] == '"',
                        decreases b - x,
                    {
                        x = x + 1;
                    }
                    let mut y = b;
                    while y > x && line[y - 1] == '"'
                        invariant
                            a <= x <= y <= b <= line.len(),
                            forall|j: int| y <= j < b ==> #[trigger] line@[j] == '"',
                        decreases y,
                    {
                        y = y - 1;
                    }
                    proof {
                        lemma_strip_quotes(v, x - a, y - a);
                        assert(v.subrange(x - a, y - a) =~= line@.subrange(x as int, y as int));
                    }
                    let t = content.substring_char(lo + x, lo + y);
                    assert(t@ =~= line@.subrange(x as int, y as int));
                    t.to_owned()
                },
                None => "Unknown".to_owned(),
            };
        }
        k = k + 1;
    }
    assert(lines.skip(k as int) =~= Seq::<Seq<char>>::empty());
    "Unknown".to_owned()
}

/// Whole seconds of uptime from /proc/uptime: its first number, truncated; 0 when
/// that is not a plain decimal number.
pub open spec fn uptime_seconds(content: Seq<char>) -> nat {
    let w = words_of(content);
    if w.len() >= 1 {
        parse_micros(w[0]) / 1_000_000
    } else {
        0
    }
}

pub fn parse_uptime_seconds(content: &str) -> (r: u64)
    ensures
        r as nat == uptime_seconds(content@),
{
    let cs = chars_of(content);
    let w = word_bounds(&cs);
    if w.len() == 0 {
        return 0;
    }
    let first = content.substring_char(w[0].0, w[0].1);
    parse_decimal_micros(first) / 1_000_000
}

/// Traffic counters of one network interface.
pub struct NetworkStats {
    pub rx_bytes: u64,
    pub tx_bytes: u64,
    pub rx_packets: u64,
    pub tx_packets: u64,
    pub interface_name: String,
}

/// A `NetworkStats` as plain values.
pub struct StatsModel {
    pub interface_name: Seq<char>,
    pub rx_bytes: nat,
    pub rx_packets: nat,
    pub tx_bytes: nat,
    pub tx_packets: nat,
}

pub open spec fn stats_of(s: NetworkStats) -> StatsModel {
    StatsModel {
        interface_name: s.interface_name@,
        rx_bytes: s.rx_bytes as nat,
        rx_packets: s.rx_packets as nat,
        tx_bytes: s.tx_bytes as nat,
        tx_packets: s.tx_packets as nat,
    }
}

pub open spec fn no_stats() -> StatsModel {
    StatsModel { interface_name: unknown(), rx_bytes: 0, rx_packets: 0, tx_bytes: 0, tx_packets: 0 }
}

impl Default for NetworkStats {
    /// No traffic on an unknown interface.
    fn default() -> (r: Self)
        ensures
            stats_of(r) == no_stats(),
    {
        NetworkStats {
            rx_bytes: 0,
            tx_bytes: 0,
            rx_packets: 0,
            tx_packets: 0,
            interface_name: "Unknown".to_owned(),
        }
    }
}

pub open spec fn or_zero(v: Option<nat>) -> nat {
    match v {
        Some(x) => x,
        None => 0,
    }
}

/// `s` without the ':' characters at its end.
pub open spec fn strip_colons(s: Seq<char>) -> Seq<char>
    decreases s.len(),
{
    if s.len() > 0 && s.last() == ':' {
        strip_colons(s.drop_last())
    } else {
        s
    }
}

/// The counters on a line of /proc/net/dev, when it has all 17 fields and is for
/// interface `name` (for any interface but loopback when `name` is "Unknown").
/// Counters that do not read as numbers count as 0.
pub open spec fn stats_line(line: Seq<char>, name: Seq<char>) -> Option<StatsModel> {
    let w = words_of(line);
    if w.len() >= 17 {
        let iface = strip_colons(w[0]);
        if iface == name || (name == unknown() && !starts_with(iface, "lo"@)) {
            Some(
                StatsModel {
                    interface_name: iface,
                    rx_bytes: or_zero(u64_value(w[1])),
                    rx_packets: or_zero(u64_value(w[2])),
                    tx_bytes: or_zero(u64_value(w[9])),
                    tx_packets: or_zero(u64_value(w[10])),
                },
            )
        } else {
            None
        }
    } else {
        None
    }
}

pub open spec fn first_stats(lines: Seq<Seq<char>>, name: Seq<char>) -> Option<StatsModel>
    decreases lines.len(),
{
    if lines.len() == 0 {
        None
    } else {
        match stats_line(lines[0], name) {
            Some(m) => Some(m),
            None => first_stats(lines.drop_first(), name),
        }
    }
}

/// The counters of interface `name` in /proc/net/dev, whose first two lines are
/// headings; no traffic on "Unknown" when no line matches.
pub open spec fn network_stats(content: Seq<char>, name: Seq<char>) -> StatsModel {
    let lines = lines_of(content);
    let body = if lines.len() >= 2 {
        lines.skip(2)
    } else {
        Seq::empty()
    };
    match first_stats(body, name) {
        Some(m) => m,
        None => no_stats(),
    }
}

fn counter(s: &str, lo: usize, b: (usize, usize)) -> (r: u64)
    requires
        lo + b.1 <= s@.len() <= usize::MAX,
        b.0 <= b.1,
    ensures
        r as nat == or_zero(u64_value(s@.subrange(lo + b.0, lo + b.1))),
{
    let t = s.substring_char(lo + b.0, lo + b.1);
    match parse_u64(t) {
        Some(v) => v,
        None => 0,
    }
}

fn stats_in_line(s: &str, lo: usize, line: &Vec<char>, name: &String) -> (r: Option<NetworkStats>)
    requires
        lo + line.len() <= s@.len() <= usize::MAX,
        line@ == s@.subrange(lo as int, lo + line.len()),
    ensures
        match r {
            Some(st) => stats_line(line@, name@) == Some(stats_of(st)),
            None => stats_line(line@, name@) is None,
        },
{
    proof {
        reveal_strlit("lo");
        reveal_strlit("Unknown");
    }
    let w = word_bounds(line);
    let ghost ws = words_of(line@);
    if w.len() < 17 {
        return None;
    }
    let (a, b0) = w[0];
    let mut b = b0;
    while b > a && line[b - 1] == ':'
        invariant
            a <= b <= b0 <= line.len(),
            strip_colons(line@.subrange(a as int, b0 as int)) == strip_colons(line@.subrange(a as int, b as int)),
        decreases b,
    {
        assert(line@.subrange(a as int, b as int).drop_last() =~= line@.subrange(a as int, b - 1));
        b = b - 1;
    }
    assert(strip_colons(line@.subrange(a as int, b as int)) == line@.subrange(a as int, b as int));
    let iface_chars = slice_chars(line, a, b);
    let iface = s.substring_char(lo + a, lo + b).to_owned();
    assert(iface@ =~= line@.subrange(a as int, b as int));
    let lo_prefix = pattern("lo");
    let wanted = iface == *name || (*name == "Unknown".to_owned() && !begins_with(&iface_chars, &lo_prefix));
    if !wanted {
        return None;
    }
    let st = NetworkStats {
        rx_bytes: counter(s, lo, w[1]),
        rx_packets: counter(s, lo, w[2]),
        tx_bytes: counter(s, lo, w[9]),
        tx_packets: counter(s, lo, w[10]),
        interface_name: iface,
    };
    proof {
        assert forall|k: int| 0 <= k < 17 implies s@.subrange(lo + w@[k].0, lo + w@[k].1) == ws[k] by {
            assert(s@.subrange(lo + w@[k].0, lo + w@[k].1) =~= line@.subrange(w@[k].0 as int, w@[k].1 as int));
        }
    }
    Some(st)
}

/// The counters of interface `name` out of `content`, the text of /proc/net/dev (see
/// `network_stats`).
pub fn parse_network_stats(content: &str, name: &String) -> (r: NetworkStats)
    ensures
        stats_of(r) == network_stats(content@, name@),
{
    let cs = chars_of(content);
    let bounds = line_bounds(&cs);
    let ghost lines = lines_of(cs@);
    let ghost body = if lines.len() >= 2 {
        lines.skip(2)
    } else {
        Seq::empty()
    };
    if bounds.len() < 2 {
        assert(body =~= Seq::<Seq<char>>::empty());
        return NetworkStats::default();
    }
    let mut k: usize = 2;
    assert(lines.skip(2) == body);
    while k < bounds.len()
        invariant
            cs@ == content@,
            lines == lines_of(cs@),
            bounds.len() == lines.len(),
            lines.len() >= 2,
            body == lines.skip(2),
            forall|j: int|
                0 <= j < bounds.len() ==> {
                    &&& (#[trigger] bounds@[j]).0 <= bounds@[j].1 <= cs.len()
                    &&& cs@.subrange(bounds@[j].0 as int, bounds@[j].1 as int) == lines[j]
                },
            2 <= k <= bounds.len(),
            first_stats(lines.skip(k as int), name@) == first_stats(body, name@),
        decreases bounds.len() - k,
    {
        let (lo, hi) = bounds[k];
        let line = slice_chars(&cs, lo, hi);
        proof {
            assert(lines.skip(k as int)[0] == line@);
            assert(lines.skip(k as int).drop_first() =~= lines.skip(k + 1));
        }
        match stats_in_line(content, lo, &line, name) {
            Some(st) => return st,
            None => {},
        }
        k = k + 1;
    }
    assert(lines.skip(k as int) =~= Seq::<Seq<char>>::empty());
    NetworkStats::default()
}

} // verus!
