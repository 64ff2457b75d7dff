//! The layout of a bar chart whose bars may each have their own colour: which
//! eighth-block goes in each cell of each bar, and where the value and name
//! labels go.
use vstd::prelude::*;

use crate::text::{decimal, decimal_string, lemma_decimal_digits, lemma_u64_decimal_len};

verus! {

/// The display width in terminal columns that `unicode-width` gives a text.
pub uninterp spec fn display_width(s: Seq<char>) -> nat;

/// The display width of a text (`UnicodeWidthStr::width` of `unicode-width`),
/// named by `display_width`. The crate's tables give each printable ASCII
/// character (space to `~`) one column and leave the state of the following
/// character unchanged, so such a text is as wide as it is long.
#[verifier::external_body]
fn text_width(s: &str) -> (r: usize)
    ensures
        r == display_width(s@),
        (forall|i: int| 0 <= i < s@.len() ==> ' ' <= #[trigger] s@[i] <= '~') ==> r == s@.len(),
{
    unicode_width::UnicodeWidthStr::width(s)
}

/// The largest of the values, or 0 when there is none.
pub open spec fn spec_max_value(values: Seq<u64>) -> u64
    decreases values.len(),
{
    if values.len() == 0 {
        0
    } else {
        let m = spec_max_value(values.drop_last());
        if values.last() > m { values.last() } else { m }
    }
}

/// The value that fills a bar to the top: the one given, else the largest
/// value.
pub open spec fn chart_max(max: Option<u64>, values: Seq<u64>) -> u64 {
    match max {
        Some(m) => m,
        None => spec_max_value(values),
    }
}

/// How many bars fit side by side in the width, at most one per value.
pub open spec fn bar_count(width: u16, bar_width: u16, bar_gap: u16, n: nat) -> nat {
    let fit = (width as int / (bar_width + bar_gap)) as nat;
    if fit < n { fit } else { n }
}

/// The height of a bar in eighths of a cell: the value times the number of
/// bar rows times 8, divided by the top value (at least 1).
pub open spec fn scaled(v: u64, height: u16, top_value: u64) -> nat {
    ((v as nat * (height - 1) as nat * 8) / if top_value > 1 { top_value as nat } else { 1nat }) as nat
}

/// The eighths shown in bar row `r` (0 for the lowest) of a bar `d` eighths
/// high: none below 0, a full cell of 8 at most.
pub open spec fn bar_level(d: nat, r: nat) -> nat {
    if d <= 8 * r {
        0
    } else if d - 8 * r >= 8 {
        8
    } else {
        (d - 8 * r) as nat
    }
}

/// The line just below a chart area whose top line is `top`, kept within
/// 16 bits (`Rect::bottom` of `tui`, which saturates).
pub open spec fn chart_bottom(top: u16, height: u16) -> int {
    if top + height > u16::MAX { u16::MAX as int } else { top + height }
}

/// Where the numeral of a bar's value goes: its cell and its text.
pub struct ValueLabel {
    pub x: u16,
    pub y: u16,
    pub text: String,
}

/// Where a bar's name goes: its first cell, its text, and the number of
/// columns it may take at most (the text is cut to them when drawn).
pub struct NameLabel {
    pub x: u16,
    pub y: u16,
    pub text: String,
    pub max_width: u16,
}

/// One row of a bar: its line and the eighths of its cells that are filled.
pub struct BarRow {
    pub y: u16,
    pub level: u64,
}

/// One bar: its leftmost column, its rows from the lowest up, its value
/// label, if it gets one, and its name label.
pub struct BarPlan {
    pub x: u16,
    pub rows: Vec<BarRow>,
    pub value_label: Option<ValueLabel>,
    pub name_label: NameLabel,
}

/// Whether `b` is the plan of bar `i`, named `name`, with value `v`, in the
/// area whose top left cell is `(left, top)`: bar row `r` lies on line
/// `top + height - 2 - r`; the value label on the line two above the
/// area's bottom, over the lowest bar row, and the name label on the line
/// above the bottom, from the bar's leftmost column and at most a bar width
/// wide.
pub open spec fn bar_planned(
    b: BarPlan,
    i: int,
    name: Seq<char>,
    v: u64,
    left: u16,
    top: u16,
    height: u16,
    bar_width: u16,
    bar_gap: u16,
    top_value: u64,
) -> bool {
    let numeral = decimal(v as nat);
    let w = numeral.len();
    &&& b.x == left + i * (bar_width + bar_gap)
    &&& b.rows@.len() == height - 1
    &&& forall|r: int|
        0 <= r < height - 1 ==> {
            &&& (#[trigger] b.rows@[r]).y == top + height - 2 - r
            &&& b.rows@[r].level == bar_level(scaled(v, height, top_value), r as nat)
        }
    &&& if v != 0 && w < bar_width {
        b.value_label matches Some(l) && l.text@ == numeral && l.x == b.x + (bar_width - w) / 2 && l.y
            == chart_bottom(top, height) - 2
    } else {
        b.value_label is None
    }
    &&& b.name_label.x == b.x
    &&& b.name_label.y == chart_bottom(top, height) - 1
    &&& b.name_label.text@ == name
    &&& b.name_label.max_width == bar_width
}

/// The values of a chart's entries, in order.
pub open spec fn entry_values(data: Seq<(String, u64)>) -> Seq<u64> {
    data.map_values(|e: (String, u64)| e.1)
}

/// Whether the chart's arithmetic stays in range, as drawing it needs: the
/// area's columns and bar lines are all numbered within a `u16`, the bar
/// width plus the gap is positive and fits, and the scaling of every shown
/// value fits in a `u64`.
pub open spec fn chart_in_range(
    left: u16,
    top: u16,
    width: u16,
    height: u16,
    bar_width: u16,
    bar_gap: u16,
    values: Seq<u64>,
) -> bool {
    &&& left + width <= u16::MAX + 1
    &&& height >= 2 ==> top + height - 2 <= u16::MAX
    &&& 0 < bar_width + bar_gap <= u16::MAX
    &&& height >= 2 ==> forall|i: int|
        0 <= i < bar_count(width, bar_width, bar_gap, values.len()) ==> #[trigger] values[i] as nat * (
        height - 1) as nat * 8 <= u64::MAX
}

/// The top value of a chart with no given maximum is its largest value: no
/// value is above it, and it is one of the values, or 0 when there is none.
pub proof fn law_max_is_largest(values: Seq<u64>)
    ensures
        forall|k: int| 0 <= k < values.len() ==> #[trigger] values[k] <= spec_max_value(values),
        values.len() > 0 ==> exists|k: int| 0 <= k < values.len() && #[trigger] values[k] == spec_max_value(values),
        values.len() == 0 ==> spec_max_value(values) == 0,
    decreases values.len(),
{
    if values.len() > 0 {
        let rest = values.drop_last();
        law_max_is_largest(rest);
        assert forall|k: int| 0 <= k < values.len() implies #[trigger] values[k] <= spec_max_value(values) by {
            if k < rest.len() {
                assert(values[k] == rest[k]);
            }
        }
        if values.last() > spec_max_value(rest) {
            assert(values[values.len() - 1] == spec_max_value(values));
        } else if rest.len() > 0 {
            let k = choose|k: int| 0 <= k < rest.len() && #[trigger] rest[k] == spec_max_value(rest);
            assert(values[k] == rest[k]);
        } else {
            assert(spec_max_value(rest) == 0);
            assert(values[0] == 0);
        }
    }
}

/// The largest of the values, or 0 when there is none.
pub fn max_value(values: &Vec<u64>) -> (r: u64)
    ensures
        r == spec_max_value(values@),
        forall|k: int| 0 <= k < values@.len() ==> #[trigger] values@[k] <= r,
        values@.len() > 0 ==> exists|k: int| 0 <= k < values@.len() && #[trigger] values@[k] == r,
        values@.len() == 0 ==> r == 0,
{
    proof {
        law_max_is_largest(values@);
    }
    let mut m: u64 = 0;
    let mut i: usize = 0;
    while i < values.len()
        invariant
            i <= values@.len(),
            m == spec_max_value(values@.take(i as int)),
        decreases values@.len() - i,
    {
        proof {
            assert(values@.take(i + 1).drop_last() =~= values@.take(i as int));
        }
        if values[i] > m {
            m = values[i];
        }
        i = i + 1;
    }
    proof {
        assert(values@.take(values@.len() as int) =~= values@);
    }
    m
}

proof fn lemma_bar_fits(i: int, count: int, width: int, step: int)
    requires
        0 <= i < count,
        count <= width / step,
        step > 0,
        width >= 0,
    ensures
        i * step + step <= width,
{
    assert((i + 1) * step <= (width / step) * step) by (nonlinear_arith)
        requires
            i + 1 <= width / step,
            step > 0,
    ;
    assert((width / step) * step <= width) by (nonlinear_arith)
        requires
            step > 0,
            width >= 0,
    ;
    assert((i + 1) * step == i * step + step) by (nonlinear_arith);
}

/// The rows of a bar `d` eighths high, from the lowest up, the lowest on
/// line `base`.
fn bar_rows(d: u64, rows: u16, base: u16) -> (r: Vec<BarRow>)
    requires
        rows <= base + 1,
    ensures
        r@.len() == rows,
        forall|k: int|
            0 <= k < rows ==> (#[trigger] r@[k]).level == bar_level(d as nat, k as nat) && r@[k].y == base - k,
{
    let mut out: Vec<BarRow> = Vec::new();
    let mut left_over = d;
    let mut k: u16 = 0;
    while k < rows
        invariant
            k <= rows,
            rows <= base + 1,
            out@.len() == k,
            left_over as int == if d as int <= 8 * k { 0 } else { d - 8 * k },
            forall|j: int|
                0 <= j < k ==> (#[trigger] out@[j]).level == bar_level(d as nat, j as nat) && out@[j].y == base
                    - j,
        decreases rows - k,
    {
        let level = if left_over >= 8 {
            8
        } else {
            left_over
        };
        out.push(BarRow { y: base - k, level });
        if left_over > 8 {
            left_over = left_over - 8;
        } else {
            left_over = 0;
        }
        k = k + 1;
    }
    out
}

/// The layout of a bar chart over the area whose top left cell is
/// `(left, top)`, `width` columns wide and `height` lines high, with the
/// given bar width and gap, for the entries (name and value) in order. A bar
/// is full at `max`, or at the largest value when no `max` is given. As many
/// bars are laid out as fit in the width, at most one per entry; none when
/// the area is less than two lines high. Each value's numeral is shown
/// centred on its bar when it is not 0 and narrower than the bar.
pub fn bar_chart_layout(
    left: u16,
    top: u16,
    width: u16,
    height: u16,
    bar_width: u16,
    bar_gap: u16,
    max: Option<u64>,
    data: &Vec<(String, u64)>,
) -> (r: Vec<BarPlan>)
    requires
        chart_in_range(left, top, width, height, bar_width, bar_gap, entry_values(data@)),
    ensures
        height < 2 ==> r@.len() == 0,
        height >= 2 ==> r@.len() == bar_count(width, bar_width, bar_gap, data@.len()),
        height >= 2 ==> forall|i: int|
            0 <= i < r@.len() ==> bar_planned(
                #[trigger] r@[i],
                i,
                data@[i].0@,
                data@[i].1,
                left,
                top,
                height,
                bar_width,
                bar_gap,
                chart_max(max, entry_values(data@)),
            ),
{
    let mut bars: Vec<BarPlan> = Vec::new();
    if height < 2 {
        return bars;
    }
    let ghost values = entry_values(data@);
    let mut all: Vec<u64> = Vec::new();
    let mut n: usize = 0;
    while n < data.len()
        invariant
            n <= data@.len(),
            all@ == values.take(n as int),
            values == entry_values(data@),
        decreases data@.len() - n,
    {
        all.push(data[n].1);
        n = n + 1;
    }
    assert(all@ =~= values);
    let top_value = match max {
        Some(m) => m,
        None => max_value(&all),
    };
    let divisor = if top_value > 1 {
        top_value
    } else {
        1
    };
    let step = bar_width + bar_gap;
    let fit = (width / step) as usize;
    let count = if fit < data.len() {
        fit
    } else {
        data.len()
    };
    let base = top + (height - 2);
    let bottom: u16 = if top as u32 + height as u32 > 0xFFFF {
        0xFFFF
    } else {
        top + height
    };
    let mut i: usize = 0;
    let mut x: u16 = left;
    while i < count
        invariant
            chart_in_range(left, top, width, height, bar_width, bar_gap, values),
            values == entry_values(data@),
            height >= 2,
            base == top + height - 2,
            bottom == chart_bottom(top, height),
            step == bar_width + bar_gap,
            count == bar_count(width, bar_width, bar_gap, data@.len()),
            count <= data@.len(),
            top_value == chart_max(max, values),
            divisor == if top_value > 1 { top_value } else { 1 },
            i <= count,
            i < count ==> x == left + i * step,
            bars@.len() == i,
            forall|j: int|
                0 <= j < i ==> bar_planned(
                    #[trigger] bars@[j],
                    j,
                    data@[j].0@,
                    data@[j].1,
                    left,
                    top,
                    height,
                    bar_width,
                    bar_gap,
                    top_value,
                ),
        decreases count - i,
    {
        proof {
            lemma_bar_fits(i as int, count as int, width as int, step as int);
        }
        let v = data[i].1;
        assert(v == values[i as int]);
        assert(v as nat * (height - 1) as nat * 8 <= u64::MAX);
        let d = v * ((height - 1) as u64) * 8 / divisor;
        let rows = bar_rows(d, height - 1, base);
        let numeral = decimal_string(v);
        let wu = text_width(numeral.as_str());
        proof {
            lemma_decimal_digits(v as nat);
            lemma_u64_decimal_len(v);
        }
        let w = wu as u16;
        let value_label = if v != 0 && w < bar_width {
            Some(ValueLabel { x: x + (bar_width - w) / 2, y: bottom - 2, text: numeral })
        } else {
            None
        };
        let name_label = NameLabel { x, y: bottom - 1, text: data[i].0.clone(), max_width: bar_width };
        bars.push(BarPlan { x, rows, value_label, name_label });
        proof {
            assert((i + 1) * step == i * step + step) by (nonlinear_arith);
        }
        i = i + 1;
        if i < count {
            proof {
                lemma_bar_fits(i as int, count as int, width as int, step as int);
            }
            x = x + step;
        }
    }
    bars
}

/// The eighths shown in the lowest `rows` rows of a bar.
pub open spec fn shown_eighths(d: nat, rows: nat) -> nat
    decreases rows,
{
    if rows == 0 {
        0
    } else {
        shown_eighths(d, (rows - 1) as nat) + bar_level(d, (rows - 1) as nat)
    }
}

/// A bar shows exactly its height in eighths, cut at the height of its rows:
/// the eighths over all its rows add up to the smaller of the two.
pub proof fn law_bar_shows_its_height(d: nat, rows: nat)
    ensures
        shown_eighths(d, rows) == if d < 8 * rows { d } else { 8 * rows },
    decreases rows,
{
    if rows > 0 {
        law_bar_shows_its_height(d, (rows - 1) as nat);
    }
}

/// The bars of a chart lie side by side without overlapping, each a bar
/// width wide and separated by the gap, and the last one ends within the
/// chart's width.
pub proof fn law_bars_side_by_side(
    bi: BarPlan,
    bj: BarPlan,
    i: int,
    j: int,
    vi: u64,
    vj: u64,
    ni: Seq<char>,
    nj: Seq<char>,
    left: u16,
    top: u16,
    width: u16,
    height: u16,
    bar_width: u16,
    bar_gap: u16,
    top_value: u64,
    n: nat,
)
    requires
        0 <= i < j < bar_count(width, bar_width, bar_gap, n),
        0 < bar_width + bar_gap,
        bar_planned(bi, i, ni, vi, left, top, height, bar_width, bar_gap, top_value),
        bar_planned(bj, j, nj, vj, left, top, height, bar_width, bar_gap, top_value),
    ensures
        bi.x + bar_width + bar_gap <= bj.x,
        bj.x + bar_width <= left + width,
{
    let step = bar_width + bar_gap;
    assert(j * step - i * step == (j - i) * step) by (nonlinear_arith);
    assert((j - i) * step >= step) by (nonlinear_arith)
        requires
            j - i >= 1,
            step > 0,
    ;
    lemma_bar_fits(j, bar_count(width, bar_width, bar_gap, n) as int, width as int, step as int);
}

} // verus!
