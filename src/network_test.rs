use vstd::prelude::*;
use crate::coordinator::{names_of, PhasePlan};
use crate::scoring::{weight_rows, PhaseWeight};

verus! {

/// A carrier whose speed-test servers the network test measures.
pub struct NetworkProvider {
    pub name: String,
    pub test_urls: Vec<String>,
    /// Display color, as "#RRGGBB".
    pub color: &'static str,
}

/// A provider as plain text values: name, server URLs and color.
pub open spec fn provider_view(p: NetworkProvider) -> (Seq<char>, Seq<Seq<char>>, Seq<char>) {
    (p.name@, p.test_urls@.map_values(|u: String| u@), p.color@)
}

/// The three Chinese carriers, each with two upload endpoints.
pub open spec fn known_providers() -> Seq<(Seq<char>, Seq<Seq<char>>, Seq<char>)> {
    seq![
        ("中国移动"@, seq![
            "http://speedtest1.bmcc.com.cn:8080/speedtest/upload.php"@,
            "http://speedtest2.bmcc.com.cn:8080/speedtest/upload.php"@,
        ], "#00D4AA"@),
        ("中国联通"@, seq![
            "http://61.135.169.121:8080/speedtest/upload.php"@,
            "http://61.135.169.122:8080/speedtest/upload.php"@,
        ], "#E60012"@),
        ("中国电信"@, seq![
            "http://speedtest1.online.sh.cn:8080/speedtest/upload.php"@,
            "http://speedtest2.online.sh.cn:8080/speedtest/upload.php"@,
        ], "#0052D9"@),
    ]
}

fn provider(name: &str, first: &str, second: &str, color: &'static str) -> (r: NetworkProvider)
    ensures
        provider_view(r) == (name@, seq![first@, second@], color@),
{
    let r = NetworkProvider {
        name: name.to_owned(),
        test_urls: vec![first.to_owned(), second.to_owned()],
        color,
    };
    assert(r.test_urls@.map_values(|u: String| u@) =~= seq![first@, second@]);
    r
}

/// The providers that the network test measures, in display order.
pub fn get_network_providers() -> (r: Vec<NetworkProvider>)
    ensures
        r@.map_values(|p: NetworkProvider| provider_view(p)) == known_providers(),
{
    let r = vec![
        provider(
            "中国移动",
            "http://speedtest1.bmcc.com.cn:8080/speedtest/upload.php",
            "http://speedtest2.bmcc.com.cn:8080/speedtest/upload.php",
            "#00D4AA",
        ),
        provider(
            "中国联通",
            "http://61.135.169.121:8080/speedtest/upload.php",
            "http://61.135.169.122:8080/speedtest/upload.php",
            "#E60012",
        ),
        provider(
            "中国电信",
            "http://speedtest1.online.sh.cn:8080/speedtest/upload.php",
            "http://speedtest2.online.sh.cn:8080/speedtest/upload.php",
            "#0052D9",
        ),
    ];
    assert(r@.map_values(|p: NetworkProvider| provider_view(p)) =~= known_providers());
    r
}

pub open spec fn abs_diff(a: u64, b: u64) -> int {
    if a >= b {
        a - b
    } else {
        b - a
    }
}

/// Sum of the distances between consecutive entries of `ts[..n]`.
pub open spec fn delta_sum(ts: Seq<u64>, n: int) -> int
    decreases n,
{
    if n <= 1 || n > ts.len() {
        0
    } else {
        delta_sum(ts, n - 1) + abs_diff(ts[n - 1], ts[n - 2])
    }
}

/// Jitter of a series of round-trip times: the mean distance between consecutive
/// times, truncated; 0 for fewer than two times.
pub open spec fn jitter(ts: Seq<u64>) -> int {
    if ts.len() < 2 {
        0
    } else {
        delta_sum(ts, ts.len() as int) / (ts.len() - 1)
    }
}

/// The jitter of `ping_times` (in any one unit, such as microseconds).
pub fn calculate_jitter(ping_times: &Vec<u64>) -> (r: u64)
    ensures
        r as int == jitter(ping_times@),
{
    let n = ping_times.len();
    if n < 2 {
        return 0;
    }
    let mut sum: u128 = 0;
    let mut i: usize = 1;
    while i < n
        invariant
            n == ping_times.len(),
            2 <= n,
            1 <= i <= n,
            sum as int == delta_sum(ping_times@, i as int),
            sum as int <= (i as int - 1) * 0xffff_ffff_ffff_ffff,
            n <= usize::MAX,
        decreases n - i,
    {
        let a = ping_times[i];
        let b = ping_times[i - 1];
        let d = if a >= b { a - b } else { b - a };
        proof {
            assert((i as int) * 0xffff_ffff_ffff_ffff == (i as int - 1) * 0xffff_ffff_ffff_ffff
                + 0xffff_ffff_ffff_ffff) by (nonlinear_arith);
            assert((i as int) * 0xffff_ffff_ffff_ffff <= 0xffff_ffff_ffff_ffff * 0xffff_ffff_ffff_ffff)
                by (nonlinear_arith)
                requires
                    i <= 0xffff_ffff_ffff_ffff,
            ;
        }
        sum = sum + d as u128;
        i = i + 1;
    }
    let count = (n - 1) as u128;
    proof {
        assert((sum as int) / (count as int) <= 0xffff_ffff_ffff_ffff) by (nonlinear_arith)
            requires
                sum as int <= (count as int) * 0xffff_ffff_ffff_ffff,
                count >= 1,
        ;
    }
    (sum / count) as u64
}

/// The network test: one phase per provider, in display order. Its results report
/// download speed in kbit/s as the primary score and upload speed as the secondary
/// one; the composite is their plain average.
pub fn network_plan() -> (r: PhasePlan)
    ensures
        names_of(r.phase_names@) == known_providers().map_values(
            |p: (Seq<char>, Seq<Seq<char>>, Seq<char>)| p.0,
        ),
        weight_rows(r.weights@) == seq![("中国移动"@, 1u32), ("中国联通"@, 1u32), ("中国电信"@, 1u32)],
        r.composite_name@ == "平均"@,
{
    let phase_names = vec!["中国移动".to_owned(), "中国联通".to_owned(), "中国电信".to_owned()];
    let weights = vec![
        PhaseWeight::new("中国移动", 1),
        PhaseWeight::new("中国联通", 1),
        PhaseWeight::new("中国电信", 1),
    ];
    assert(names_of(phase_names@) =~= known_providers().map_values(
        |p: (Seq<char>, Seq<Seq<char>>, Seq<char>)| p.0,
    ));
    assert(weight_rows(weights@) =~= seq![("中国移动"@, 1u32), ("中国联通"@, 1u32), ("中国电信"@, 1u32)]);
    PhasePlan { phase_names, weights, composite_name: "平均".to_owned() }
}

} // verus!
