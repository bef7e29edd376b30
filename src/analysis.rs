//! The analysis lines shown while the engine analyzes: their scores and the
//! ordered list the panel keeps.

use vstd::prelude::*;
use crate::text::{decimal, u64_to_decimal};

verus! {

/// One principal variation reported by the engine.
#[derive(Debug, Clone, Default)]
pub struct EngineLine {
    /// 1-based position of the line in the panel.
    pub id: u32,
    pub score_cp: Option<i32>,
    pub score_mate: Option<i32>,
    pub depth: u32,
    pub pv: Vec<String>,
}

pub struct LineModel {
    pub id: u32,
    pub score_cp: Option<i32>,
    pub score_mate: Option<i32>,
    pub depth: u32,
    pub pv: Seq<Seq<char>>,
}

impl View for EngineLine {
    type V = LineModel;

    open spec fn view(&self) -> LineModel {
        LineModel {
            id: self.id,
            score_cp: self.score_cp,
            score_mate: self.score_mate,
            depth: self.depth,
            pv: self.pv.deep_view(),
        }
    }
}

pub open spec fn lines_view(s: Seq<EngineLine>) -> Seq<LineModel> {
    s.map_values(|l: EngineLine| l@)
}

pub open spec fn abs(v: int) -> nat {
    if v < 0 {
        (-v) as nat
    } else {
        v as nat
    }
}

/// Two decimal digits, with a leading zero below ten.
pub open spec fn two_digits(r: nat) -> Seq<char> {
    if r < 10 {
        "0"@ + decimal(r)
    } else {
        decimal(r)
    }
}

/// Centipawns `a` written in pawns with two decimals.
pub open spec fn pawns_text(a: nat) -> Seq<char> {
    decimal(a / 100) + "."@ + two_digits(a % 100)
}

/// How a score is shown: mate in `m` as `+Mm` or `-Mm`, centipawns as signed pawns
/// with two decimals, and `--` without a score.
pub open spec fn score_text(l: LineModel) -> Seq<char> {
    match l.score_mate {
        Some(m) => if m > 0 {
            "+M"@ + decimal(m as nat)
        } else {
            "-M"@ + decimal(abs(m as int))
        },
        None => match l.score_cp {
            Some(c) => if c >= 0 {
                "+"@ + pawns_text(c as nat)
            } else {
                "-"@ + pawns_text(abs(c as int))
            },
            None => "--"@,
        },
    }
}

/// The order of lines, best for the side to move first, in centipawns: a mate in
/// `m` counts as a thousand pawns less `m`, being mated in `m` as minus a thousand
/// pawns plus `m`, and a line without a score as level.
pub open spec fn sort_key(l: LineModel) -> int {
    match l.score_mate {
        Some(m) => if m > 0 {
            100000 - 100 * m
        } else {
            -100000 + 100 * abs(m as int)
        },
        None => match l.score_cp {
            Some(c) => c as int,
            None => 0,
        },
    }
}

/// Where a line with key `k` goes in `t`, ordered best first: after every line
/// whose key is at least `k`.
pub open spec fn insert_pos(t: Seq<LineModel>, k: int) -> nat
    decreases t.len(),
{
    if t.len() > 0 && sort_key(t[0]) >= k {
        1 + insert_pos(t.drop_first(), k)
    } else {
        0
    }
}

pub open spec fn insert_sorted(t: Seq<LineModel>, x: LineModel) -> Seq<LineModel> {
    t.insert(insert_pos(t, sort_key(x)) as int, x)
}

/// Inserts the lines of `rest` one after another into `acc`.
pub open spec fn sort_into(acc: Seq<LineModel>, rest: Seq<LineModel>) -> Seq<LineModel>
    decreases rest.len(),
{
    if rest.len() == 0 {
        acc
    } else {
        sort_into(insert_sorted(acc, rest[0]), rest.drop_first())
    }
}

/// The lines ordered best first; lines with equal keys keep their order.
pub open spec fn sort_lines(s: Seq<LineModel>) -> Seq<LineModel> {
    sort_into(Seq::empty(), s)
}

/// The lines with their ids set to their 1-based positions.
pub open spec fn renumber(s: Seq<LineModel>) -> Seq<LineModel> {
    Seq::new(s.len(), |i: int| LineModel { id: (i + 1) as u32, ..s[i] })
}

/// Index of the first line with the given id, or -1.
pub open spec fn index_of_id(s: Seq<LineModel>, id: u32) -> int
    decreases s.len(),
{
    if s.len() == 0 {
        -1
    } else if s[0].id == id {
        0
    } else {
        let r = index_of_id(s.drop_first(), id);
        if r < 0 {
            -1
        } else {
            r + 1
        }
    }
}

pub open spec fn max_u32(a: u32, b: u32) -> u32 {
    if a >= b {
        a
    } else {
        b
    }
}

/// The panel's lines after a report for line `id`: a known line takes the new
/// scores, and the depth and variation where the report has them; an unknown one is
/// added, the lines are ordered best first and renumbered.
pub open spec fn updated_lines(
    lines: Seq<LineModel>,
    id: u32,
    score_cp: Option<i32>,
    score_mate: Option<i32>,
    depth: Option<u32>,
    pv: Seq<Seq<char>>,
) -> Seq<LineModel> {
    let k = index_of_id(lines, id);
    if k >= 0 {
        lines.update(
            k,
            LineModel {
                score_cp,
                score_mate,
                depth: match depth {
                    Some(d) => d,
                    None => lines[k].depth,
                },
                pv: if pv.len() > 0 {
                    pv
                } else {
                    lines[k].pv
                },
                ..lines[k]
            },
        )
    } else {
        renumber(
            sort_lines(
                lines.push(
                    LineModel {
                        id,
                        score_cp,
                        score_mate,
                        depth: match depth {
                            Some(d) => d,
                            None => 0,
                        },
                        pv,
                    },
                ),
            ),
        )
    }
}

proof fn lemma_sort_into_len(acc: Seq<LineModel>, rest: Seq<LineModel>)
    ensures
        sort_into(acc, rest).len() == acc.len() + rest.len(),
    decreases rest.len(),
{
    if rest.len() > 0 {
        let t = insert_sorted(acc, rest[0]);
        lemma_insert_pos_bound(acc, sort_key(rest[0]));
        lemma_sort_into_len(t, rest.drop_first());
    }
}

proof fn lemma_insert_pos_bound(t: Seq<LineModel>, k: int)
    ensures
        insert_pos(t, k) <= t.len(),
    decreases t.len(),
{
    if t.len() > 0 && sort_key(t[0]) >= k {
        lemma_insert_pos_bound(t.drop_first(), k);
    }
}

fn abs_i32(v: i32) -> (r: u64)
    ensures
        r as nat == abs(v as int),
{
    if v < 0 {
        (0i64 - v as i64) as u64
    } else {
        v as u64
    }
}

fn two_digit_text(r: u64) -> (s: String)
    requires
        r < 100,
    ensures
        s@ == two_digits(r as nat),
{
    let d = u64_to_decimal(r);
    if r < 10 {
        let mut s = String::from_str("0");
        s.append(d.as_str());
        s
    } else {
        d
    }
}

fn pawns(a: u64) -> (s: String)
    ensures
        s@ == pawns_text(a as nat),
{
    let mut s = u64_to_decimal(a / 100);
    s.append(".");
    let frac = two_digit_text(a % 100);
    s.append(frac.as_str());
    s
}

impl EngineLine {
    /// The score as text: `+M3`, `-M2`, `+0.34`, `-1.50`, or `--` without one.
    pub fn format_score(&self) -> (r: String)
        ensures
            r@ == score_text(self@),
    {
        if let Some(mate) = self.score_mate {
            if mate > 0 {
                let mut s = String::from_str("+M");
                s.append(u64_to_decimal(mate as u64).as_str());
                s
            } else {
                let mut s = String::from_str("-M");
                s.append(u64_to_decimal(abs_i32(mate)).as_str());
                s
            }
        } else if let Some(cp) = self.score_cp {
            if cp >= 0 {
                let mut s = String::from_str("+");
                s.append(pawns(cp as u64).as_str());
                s
            } else {
                let mut s = String::from_str("-");
                s.append(pawns(abs_i32(cp)).as_str());
                s
            }
        } else {
            String::from_str("--")
        }
    }

    /// The line's place in the ordering, in centipawns (see `sort_key`).
    pub fn sort_key(&self) -> (r: i64)
        ensures
            r as int == sort_key(self@),
    {
        if let Some(mate) = self.score_mate {
            if mate > 0 {
                100000 - 100 * mate as i64
            } else {
                -100000 + 100 * (abs_i32(mate) as i64)
            }
        } else if let Some(cp) = self.score_cp {
            cp as i64
        } else {
            0
        }
    }
}

/// Inserts `x` into `t`, which is ordered best first, after every line at least as
/// good.
fn insert_line(t: &mut Vec<EngineLine>, x: EngineLine)
    ensures
        lines_view(final(t)@) == insert_sorted(lines_view(old(t)@), x@),
{
    let k = x.sort_key();
    let ghost tv = lines_view(t@);
    let n = t.len();
    let mut p: usize = 0;
    assert(tv.subrange(0, n as int) =~= tv);
    while p < n && t[p].sort_key() >= k
        invariant
            n == t.len(),
            p <= n,
            tv == lines_view(t@),
            insert_pos(tv, k as int) == p + insert_pos(tv.subrange(p as int, n as int), k as int),
        decreases n - p,
    {
        assert(tv.subrange(p as int, n as int).drop_first() =~= tv.subrange(p as int + 1, n as int));
        assert(tv.subrange(p as int, n as int)[0] == tv[p as int]);
        p = p + 1;
    }
    proof {
        if p < n {
            assert(tv.subrange(p as int, n as int)[0] == tv[p as int]);
        }
        assert(insert_pos(tv, k as int) == p);
    }
    t.insert(p, x);
    assert(lines_view(t@) =~= tv.insert(p as int, x@));
}

impl Default for AnalysisPanel {
    fn default() -> (r: AnalysisPanel)
        ensures
            r.all_lines@.len() == 0,
            r.display_lines == 3,
            r.max_calculated == 5,
            !r.is_analyzing,
            r.total_nodes == 0,
            r.current_depth == 0,
    {
        AnalysisPanel {
            all_lines: Vec::new(),
            display_lines: 3,
            max_calculated: 5,
            is_analyzing: false,
            total_nodes: 0,
            current_depth: 0,
        }
    }
}

/// The analysis lines the engine reports, best first.
pub struct AnalysisPanel {
    /// Every line received, up to the number the engine computes.
    pub all_lines: Vec<EngineLine>,
    /// How many lines to show, 1 to 5.
    pub display_lines: u32,
    /// How many lines the engine computes.
    pub max_calculated: u32,
    pub is_analyzing: bool,
    pub total_nodes: u64,
    pub current_depth: u32,
}

impl AnalysisPanel {
    /// Records a report for line `multipv` (a 0 counts as 1).
    pub fn update_line(
        &mut self,
        multipv: u32,
        score_cp: Option<i32>,
        score_mate: Option<i32>,
        depth: Option<u32>,
        pv: Vec<String>,
    )
        requires
            old(self).all_lines.len() < u32::MAX,
        ensures
            ({
                let id = max_u32(multipv, 1);
                &&& lines_view(final(self).all_lines@) == updated_lines(
                    lines_view(old(self).all_lines@),
                    id,
                    score_cp,
                    score_mate,
                    depth,
                    pv.deep_view(),
                )
                &&& final(self).current_depth == match depth {
                    Some(d) => max_u32(old(self).current_depth, d),
                    None => old(self).current_depth,
                }
                &&& final(self).max_calculated == max_u32(old(self).max_calculated, id)
                &&& final(self).display_lines == old(self).display_lines
                &&& final(self).is_analyzing == old(self).is_analyzing
                &&& final(self).total_nodes == old(self).total_nodes
            }),
    {
        let id: u32 = if multipv >= 1 {
            multipv
        } else {
            1
        };
        if let Some(d) = depth {
            if d > self.current_depth {
                self.current_depth = d;
            }
        }
        let ghost lv = lines_view(self.all_lines@);
        let ghost pvv = pv.deep_view();
        let n = self.all_lines.len();
        let mut i: usize = 0;
        assert(lv.subrange(0, n as int) =~= lv);
        while i < n && self.all_lines[i].id != id
            invariant
                n == self.all_lines.len(),
                i <= n,
                lv == lines_view(self.all_lines@),
                index_of_id(lv, id) == (if index_of_id(lv.subrange(i as int, n as int), id) < 0 {
                    -1
                } else {
                    i + index_of_id(lv.subrange(i as int, n as int), id)
                }),
            decreases n - i,
        {
            assert(lv.subrange(i as int, n as int).drop_first() =~= lv.subrange(
                i as int + 1,
                n as int,
            ));
            assert(lv.subrange(i as int, n as int)[0] == lv[i as int]);
            i = i + 1;
        }
        proof {
            if i < n {
                assert(lv.subrange(i as int, n as int)[0] == lv[i as int]);
            } else {
                assert(lv.subrange(i as int, n as int).len() == 0);
            }
        }
        if i < n {
            assert(index_of_id(lv, id) == i);
            let old_line = self.all_lines.remove(i);
            let new_depth: u32 = match depth {
                Some(d) => d,
                None => old_line.depth,
            };
            let new_pv: Vec<String> = if pv.len() > 0 {
                pv
            } else {
                old_line.pv
            };
            let line = EngineLine {
                id: old_line.id,
                score_cp,
                score_mate,
                depth: new_depth,
                pv: new_pv,
            };
            self.all_lines.insert(i, line);
            assert(lines_view(self.all_lines@) =~= updated_lines(
                lv,
                id,
                score_cp,
                score_mate,
                depth,
                pvv,
            ));
        } else {
            let line = EngineLine {
                id,
                score_cp,
                score_mate,
                depth: match depth {
                    Some(d) => d,
                    None => 0,
                },
                pv,
            };
            let mut pending: Vec<EngineLine> = Vec::new();
            std::mem::swap(&mut pending, &mut self.all_lines);
            pending.push(line);
            let ghost all = lines_view(pending@);
            assert(all =~= lv.push(line@));
            let mut sorted: Vec<EngineLine> = Vec::new();
            assert(lines_view(sorted@) =~= Seq::<LineModel>::empty());
            while pending.len() > 0
                invariant
                    sort_lines(all) == sort_into(lines_view(sorted@), lines_view(pending@)),
                decreases pending.len(),
            {
                let ghost rest = lines_view(pending@);
                let x = pending.remove(0);
                assert(lines_view(pending@) =~= rest.drop_first());
                insert_line(&mut sorted, x);
            }
            assert(lines_view(pending@) =~= Seq::<LineModel>::empty());
            let ghost s = lines_view(sorted@);
            assert(s == sort_lines(all));
            let m = sorted.len();
            assert(m == all.len()) by {
                lemma_sort_into_len(Seq::empty(), all);
            }
            let mut out: Vec<EngineLine> = Vec::new();
            let mut j: usize = 0;
            while j < m
                invariant
                    m == s.len(),
                    j <= m,
                    m <= u32::MAX,
                    sorted.len() == m - j,
                    lines_view(sorted@) == s.subrange(j as int, m as int),
                    lines_view(out@) =~= renumber(s).subrange(0, j as int),
                decreases m - j,
            {
                let ghost before = lines_view(out@);
                let ghost pre = sorted@;
                let mut x = sorted.remove(0);
                assert(lines_view(pre)[0] == x@);
                assert(s.subrange(j as int, m as int)[0] == s[j as int]);
                assert(x@ == s[j as int]);
                assert(lines_view(sorted@) =~= lines_view(pre).subrange(1, pre.len() as int));
                x.id = (j + 1) as u32;
                out.push(x);
                assert(lines_view(sorted@) =~= s.subrange(j as int + 1, m as int));
                assert(lines_view(out@) =~= before.push(renumber(s)[j as int]));
                j = j + 1;
            }
            assert(renumber(s).subrange(0, m as int) =~= renumber(s));
            self.all_lines = out;
            assert(index_of_id(lv, id) < 0);
            assert(all == lv.push(
                LineModel {
                    id,
                    score_cp,
                    score_mate,
                    depth: match depth {
                        Some(d) => d,
                        None => 0,
                    },
                    pv: pvv,
                },
            ));
        }
        if id > self.max_calculated {
            self.max_calculated = id;
        }
    }

    /// Forgets every line and the counters of the last analysis.
    pub fn clear(&mut self)
        ensures
            final(self).all_lines@.len() == 0,
            final(self).current_depth == 0,
            final(self).total_nodes == 0,
            final(self).max_calculated == 5,
            final(self).display_lines == old(self).display_lines,
            final(self).is_analyzing == old(self).is_analyzing,
    {
        self.all_lines.clear();
        self.current_depth = 0;
        self.total_nodes = 0;
        self.max_calculated = 5;
    }

    pub fn get_display_lines(&self) -> (r: u32)
        ensures
            r == self.display_lines,
    {
        self.display_lines
    }

    /// Sets how many lines to show, clamped to 1..=5.
    pub fn set_display_lines(&mut self, n: u32)
        ensures
            final(self).display_lines == (if n < 1 {
                1
            } else if n > 5 {
                5
            } else {
                n
            }),
            final(self).all_lines@ == old(self).all_lines@,
            final(self).max_calculated == old(self).max_calculated,
            final(self).is_analyzing == old(self).is_analyzing,
            final(self).total_nodes == old(self).total_nodes,
            final(self).current_depth == old(self).current_depth,
    {
        self.display_lines = if n < 1 {
            1
        } else if n > 5 {
            5
        } else {
            n
        };
    }
}

} // verus!
