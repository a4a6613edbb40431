use vstd::prelude::*;

verus! {

/// What one finished benchmark phase reports, as a mathematical value.
pub struct PhaseRecord {
    pub name: Seq<char>,
    pub primary: u32,
    pub secondary: u32,
    pub duration_ms: u64,
    pub details: Seq<(Seq<char>, Seq<char>)>,
}

/// The outcome of one benchmark phase: two independent scores (higher is better),
/// the wall time it took and auxiliary metrics as key/value text.
pub struct PhaseResult {
    pub name: String,
    pub primary_score: u32,
    pub secondary_score: u32,
    pub duration_ms: u64,
    pub details: Vec<(String, String)>,
}

pub open spec fn details_view(d: Seq<(String, String)>) -> Seq<(Seq<char>, Seq<char>)> {
    d.map_values(|p: (String, String)| (p.0@, p.1@))
}

impl View for PhaseResult {
    type V = PhaseRecord;

    open spec fn view(&self) -> PhaseRecord {
        PhaseRecord {
            name: self.name@,
            primary: self.primary_score,
            secondary: self.secondary_score,
            duration_ms: self.duration_ms,
            details: details_view(self.details@),
        }
    }
}

pub open spec fn records_of(rs: Seq<PhaseResult>) -> Seq<PhaseRecord> {
    rs.map_values(|r: PhaseResult| r@)
}

fn copy_details(d: &Vec<(String, String)>) -> (r: Vec<(String, String)>)
    ensures
        details_view(r@) == details_view(d@),
{
    let mut out: Vec<(String, String)> = Vec::new();
    let mut i: usize = 0;
    while i < d.len()
        invariant
            i <= d.len(),
            out.len() == i,
            forall|j: int| 0 <= j < i ==> out@[j].0@ == d@[j].0@ && out@[j].1@ == d@[j].1@,
        decreases d.len() - i,
    {
        let k = d[i].0.clone();
        let v = d[i].1.clone();
        out.push((k, v));
        i = i + 1;
    }
    assert(details_view(out@) =~= details_view(d@));
    out
}

impl PhaseResult {
    /// An independent copy with the same contents.
    pub fn duplicate(&self) -> (r: PhaseResult)
        ensures
            r@ == self@,
    {
        PhaseResult {
            name: self.name.clone(),
            primary_score: self.primary_score,
            secondary_score: self.secondary_score,
            duration_ms: self.duration_ms,
            details: copy_details(&self.details),
        }
    }
}

/// Copies a list of phase results, keeping their order.
pub fn copy_results(rs: &Vec<PhaseResult>) -> (r: Vec<PhaseResult>)
    ensures
        records_of(r@) == records_of(rs@),
{
    let mut out: Vec<PhaseResult> = Vec::new();
    let mut i: usize = 0;
    while i < rs.len()
        invariant
            i <= rs.len(),
            out.len() == i,
            forall|j: int| 0 <= j < i ==> out@[j]@ == rs@[j]@,
        decreases rs.len() - i,
    {
        let c = rs[i].duplicate();
        out.push(c);
        i = i + 1;
    }
    assert(records_of(out@) =~= records_of(rs@));
    out
}

/// One row of a weight table: phases named `name` count `weight` times in the
/// composite score. Only the ratios between weights matter.
pub struct PhaseWeight {
    pub name: String,
    pub weight: u32,
}

impl PhaseWeight {
    pub fn new(name: &str, weight: u32) -> (r: PhaseWeight)
        ensures
            r.name@ == name@,
            r.weight == weight,
    {
        PhaseWeight { name: name.to_owned(), weight }
    }
}

/// The rows of a weight table as (name, weight) pairs.
pub open spec fn weight_rows(ws: Seq<PhaseWeight>) -> Seq<(Seq<char>, u32)> {
    ws.map_values(|w: PhaseWeight| (w.name@, w.weight))
}

/// The weight given to `name` by rows `i..` of `table`: that of the first row with
/// that exact name, and 0 where there is none.
pub open spec fn weight_from(table: Seq<PhaseWeight>, name: Seq<char>, i: int) -> int
    decreases table.len() - i,
{
    if i < 0 || i >= table.len() {
        0
    } else if table[i].name@ == name {
        table[i].weight as int
    } else {
        weight_from(table, name, i + 1)
    }
}

/// The weight that `table` gives to a phase named `name` (0 for an unknown name).
pub open spec fn weight_of(table: Seq<PhaseWeight>, name: Seq<char>) -> int {
    weight_from(table, name, 0)
}

pub open spec fn score_of(r: PhaseRecord, primary: bool) -> int {
    if primary {
        r.primary as int
    } else {
        r.secondary as int
    }
}

/// Sum over `results` of each score times the weight of its phase.
pub open spec fn weighted_sum(results: Seq<PhaseRecord>, table: Seq<PhaseWeight>, primary: bool) -> int
    decreases results.len(),
{
    if results.len() == 0 {
        0
    } else {
        weighted_sum(results.drop_last(), table, primary) + score_of(results.last(), primary)
            * weight_of(table, results.last().name)
    }
}

/// Sum of the weights of the phases in `results`.
pub open spec fn total_weight(results: Seq<PhaseRecord>, table: Seq<PhaseWeight>) -> int
    decreases results.len(),
{
    if results.len() == 0 {
        0
    } else {
        total_weight(results.drop_last(), table) + weight_of(table, results.last().name)
    }
}

/// The weighted mean of one score over `results`, truncated; 0 where no phase of
/// `results` carries weight.
pub open spec fn weighted_mean(results: Seq<PhaseRecord>, table: Seq<PhaseWeight>, primary: bool) -> int {
    let t = total_weight(results, table);
    if t > 0 {
        weighted_sum(results, table, primary) / t
    } else {
        0
    }
}

/// Looks up the weight of `name`: the first row with exactly that name, else 0.
pub fn weight_for(table: &Vec<PhaseWeight>, name: &String) -> (w: u32)
    ensures
        w as int == weight_of(table@, name@),
{
    let mut i: usize = 0;
    while i < table.len()
        invariant
            i <= table.len(),
            weight_from(table@, name@, 0) == weight_from(table@, name@, i as int),
        decreases table.len() - i,
    {
        if table[i].name == *name {
            return table[i].weight;
        }
        i = i + 1;
    }
    0
}

const SCORE_MAX: u128 = 0xffff_ffff;

/// Composite score pair of `results` under `table`: for each score, the mean of the
/// phases' scores weighted by their table weight, truncated toward zero. Phases
/// that the table does not name are ignored; where no phase carries weight the
/// pair is (0, 0).
pub fn aggregate(results: &Vec<PhaseResult>, table: &Vec<PhaseWeight>) -> (r: (u32, u32))
    ensures
        r.0 as int == weighted_mean(records_of(results@), table@, true),
        r.1 as int == weighted_mean(records_of(results@), table@, false),
{
    let ghost recs = records_of(results@);
    let mut sum_p: u128 = 0;
    let mut sum_s: u128 = 0;
    let mut total: u128 = 0;
    let mut i: usize = 0;
    while i < results.len()
        invariant
            i <= results.len(),
            recs == records_of(results@),
            results.len() <= usize::MAX,
            total as int == total_weight(recs.subrange(0, i as int), table@),
            sum_p as int == weighted_sum(recs.subrange(0, i as int), table@, true),
            sum_s as int == weighted_sum(recs.subrange(0, i as int), table@, false),
            total <= i as u128 * SCORE_MAX,
            sum_p <= total * SCORE_MAX,
            sum_s <= total * SCORE_MAX,
        decreases results.len() - i,
    {
        let w = weight_for(table, &results[i].name);
        let p = results[i].primary_score;
        let s = results[i].secondary_score;
        proof {
            let prefix = recs.subrange(0, i as int + 1);
            assert(prefix.drop_last() =~= recs.subrange(0, i as int));
            assert(prefix.last() == results@[i as int]@);
            assert(i as u128 + 1 <= 0xffff_ffff_ffff_ffffu128);
            assert((i as u128 + 1) * SCORE_MAX <= 0xffff_ffff_ffff_ffffu128 * SCORE_MAX)
                by (nonlinear_arith)
                requires
                    i as u128 + 1 <= 0xffff_ffff_ffff_ffffu128,
            ;
            assert(p as u128 * w as u128 <= w as u128 * SCORE_MAX) by (nonlinear_arith)
                requires
                    p as u128 <= SCORE_MAX,
            ;
            assert(s as u128 * w as u128 <= w as u128 * SCORE_MAX) by (nonlinear_arith)
                requires
                    s as u128 <= SCORE_MAX,
            ;
            assert((total + w as u128) * SCORE_MAX == total * SCORE_MAX + w as u128 * SCORE_MAX)
                by (nonlinear_arith);
            assert((i as u128 + 1) * SCORE_MAX == i as u128 * SCORE_MAX + SCORE_MAX)
                by (nonlinear_arith);
        }
        total = total + w as u128;
        sum_p = sum_p + p as u128 * w as u128;
        sum_s = sum_s + s as u128 * w as u128;
        i = i + 1;
    }
    assert(recs.subrange(0, results.len() as int) =~= recs);
    if total > 0 {
        proof {
            assert(sum_p / total <= SCORE_MAX) by (nonlinear_arith)
                requires
                    sum_p <= total * SCORE_MAX,
                    total > 0,
            ;
            assert(sum_s / total <= SCORE_MAX) by (nonlinear_arith)
                requires
                    sum_s <= total * SCORE_MAX,
                    total > 0,
            ;
        }
        ((sum_p / total) as u32, (sum_s / total) as u32)
    } else {
        (0, 0)
    }
}

} // verus!
