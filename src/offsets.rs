//! The fixed table of UTC offsets offered for display, and the search that
//! picks the entry for a given offset.

use vstd::prelude::*;
use vstd::string::StringExecFns;

use crate::decimal::{two_digit_text, two_digits};

verus! {

/// Seconds east of UTC of every offset offered, in increasing order.
pub open spec fn offset_table() -> Seq<i32> {
    seq![
        -43200i32, -39600i32, -36000i32, -34200i32, -32400i32, -28800i32, -25200i32, -21600i32, -18000i32, -14400i32,
        -12600i32, -10800i32, -7200i32, -3600i32, 0i32, 3600i32, 7200i32, 10800i32, 12600i32, 14400i32,
        16200i32, 18000i32, 19800i32, 20700i32, 21600i32, 23400i32, 25200i32, 28800i32, 31500i32, 32400i32,
        34200i32, 36000i32, 37800i32, 39600i32, 43200i32, 45900i32, 46800i32, 50400i32,
    ]
}

pub open spec fn strictly_increasing(s: Seq<i32>) -> bool {
    forall|i: int, j: int| 0 <= i < j < s.len() ==> s[i] < s[j]
}

/// Number of entries of `s` that are smaller than `x`.
pub open spec fn count_below(s: Seq<i32>, x: int) -> nat
    decreases s.len(),
{
    if s.len() == 0 {
        0
    } else {
        count_below(s.drop_last(), x) + if s.last() < x { 1nat } else { 0nat }
    }
}

/// The index that the search picks: the first entry not smaller than `x`,
/// or the last entry when every entry is smaller.
pub open spec fn offset_index_for(s: Seq<i32>, x: int) -> int {
    if count_below(s, x) < s.len() {
        count_below(s, x) as int
    } else {
        s.len() - 1
    }
}

/// In an increasing sequence, the entries below `x` are exactly those before
/// position `k` when `s[k - 1] < x <= s[k]`.
pub proof fn lemma_count_below_split(s: Seq<i32>, x: int, k: int)
    requires
        strictly_increasing(s),
        0 <= k <= s.len(),
        forall|i: int| 0 <= i < k ==> s[i] < x,
        forall|i: int| k <= i < s.len() ==> x <= s[i],
    ensures
        count_below(s, x) == k,
    decreases s.len(),
{
    if s.len() > 0 {
        let t = s.drop_last();
        assert(strictly_increasing(t));
        if k == s.len() {
            lemma_count_below_split(t, x, k - 1);
        } else {
            lemma_count_below_split(t, x, k);
        }
    }
}

pub proof fn lemma_offset_table_increasing()
    ensures
        strictly_increasing(offset_table()),
        offset_table().len() == 38,
        forall|i: int| 0 <= i < 38 ==> -86400 < #[trigger] offset_table()[i] < 86400,
{
    let s = offset_table();
    assert(s.len() == 38);
    assert forall|i: int| 0 <= i < 37 implies #[trigger] s[i] < s[i + 1] by {}
    assert forall|i: int, j: int| 0 <= i < j < s.len() implies s[i] < s[j] by {
        lemma_chain(s, i, j);
    }
    assert forall|i: int| 0 <= i < 38 implies -86400 < #[trigger] s[i] < 86400 by {
        lemma_chain(s, 0, i);
        lemma_chain(s, i, 37);
    }
}

proof fn lemma_chain(s: Seq<i32>, i: int, j: int)
    requires
        0 <= i <= j < s.len(),
        forall|k: int| 0 <= k < s.len() - 1 ==> #[trigger] s[k] < s[k + 1],
    ensures
        s[i] <= s[j],
        i < j ==> s[i] < s[j],
    decreases j - i,
{
    if i < j {
        lemma_chain(s, i + 1, j);
    }
}

/// The search on an increasing table: an offset equal to entry `i` picks `i`;
/// one strictly between entries `i` and `i + 1` picks `i + 1`; one below the
/// first entry picks the first; one above the last entry picks the last.
pub proof fn lemma_offset_index_cases(table: Seq<i32>, x: int, i: int)
    requires
        strictly_increasing(table),
        table.len() > 0,
    ensures
        0 <= i < table.len() && table[i] == x ==> offset_index_for(table, x) == i,
        0 <= i && i + 1 < table.len() && table[i] < x < table[i + 1] ==> offset_index_for(table, x)
            == i + 1,
        x < table[0] ==> offset_index_for(table, x) == 0,
        x > table[table.len() - 1] ==> offset_index_for(table, x) == table.len() - 1,
{
    if 0 <= i < table.len() && table[i] == x {
        lemma_count_below_split(table, x, i);
    }
    if 0 <= i && i + 1 < table.len() && table[i] < x < table[i + 1] {
        assert forall|k: int| 0 <= k < i + 1 implies table[k] < x by {
            if k < i {
                assert(table[k] < table[i]);
            }
        }
        assert forall|k: int| i + 1 <= k < table.len() implies x <= table[k] by {
            if k > i + 1 {
                assert(table[i + 1] < table[k]);
            }
        }
        lemma_count_below_split(table, x, i + 1);
    }
    if x < table[0] {
        assert forall|k: int| 0 <= k < table.len() implies x <= table[k] by {
            if k > 0 {
                assert(table[0] < table[k]);
            }
        }
        lemma_count_below_split(table, x, 0);
    }
    if x > table[table.len() - 1] {
        assert forall|k: int| 0 <= k < table.len() implies table[k] < x by {
            if k < table.len() - 1 {
                assert(table[k] < table[table.len() - 1]);
            }
        }
        lemma_count_below_split(table, x, table.len() as int);
    }
}

/// Every offset of the table lies strictly within one day.
pub proof fn lemma_offset_table_bounds(i: int)
    requires
        0 <= i < offset_table().len(),
    ensures
        -86400 < offset_table()[i] < 86400,
{
    lemma_offset_table_increasing();
}

/// The table of offsets, as a vector.
pub fn utc_offsets() -> (r: Vec<i32>)
    ensures
        r@ == offset_table(),
        r@.len() == 38,
        strictly_increasing(r@),
        forall|i: int| 0 <= i < r@.len() ==> -86400 < #[trigger] r@[i] < 86400,
{
    proof {
        lemma_offset_table_increasing();
    }
    let r = vec![
        -43200, -39600, -36000, -34200, -32400, -28800, -25200, -21600, -18000, -14400,
        -12600, -10800, -7200, -3600, 0, 3600, 7200, 10800, 12600, 14400,
        16200, 18000, 19800, 20700, 21600, 23400, 25200, 28800, 31500, 32400,
        34200, 36000, 37800, 39600, 43200, 45900, 46800, 50400,
    ];
    assert(r@ =~= offset_table());
    r
}

/// Binary search of an increasing table for `offset`: the index of the entry
/// equal to it, else of the first entry above it, else of the last entry.
pub fn find_offset_index(table: &[i32], offset: i32) -> (r: usize)
    requires
        table@.len() > 0,
        strictly_increasing(table@),
    ensures
        r < table@.len(),
        r == offset_index_for(table@, offset as int),
{
    let mut lo: usize = 0;
    let mut hi: usize = table.len();
    while lo < hi
        invariant
            0 <= lo <= hi <= table@.len(),
            strictly_increasing(table@),
            forall|i: int| 0 <= i < lo ==> table@[i] < offset,
            forall|i: int| hi <= i < table@.len() ==> offset <= table@[i],
        decreases hi - lo,
    {
        let mid = lo + (hi - lo) / 2;
        if table[mid] < offset {
            assert forall|i: int| 0 <= i <= mid implies table@[i] < offset by {
                if i < mid {
                    assert(table@[i] < table@[mid as int]);
                }
            }
            lo = mid + 1;
        } else {
            assert forall|i: int| mid <= i < table@.len() implies offset <= table@[i] by {
                if i > mid {
                    assert(table@[mid as int] < table@[i]);
                }
            }
            hi = mid;
        }
    }
    proof {
        lemma_count_below_split(table@, offset as int, lo as int);
    }
    if lo < table.len() {
        lo
    } else {
        table.len() - 1
    }
}

/// The label of an offset: `UTC`, its sign, then hours and minutes, each at
/// least two digits wide (`UTC+05:45`, `UTC-09:30`).
pub open spec fn offset_label(secs: int) -> Seq<char> {
    let a = if secs >= 0 { secs } else { -secs };
    seq!['U', 'T', 'C'] + seq![if secs >= 0 { '+' } else { '-' }] + two_digit_text(a / 3600)
        + seq![':'] + two_digit_text((a % 3600) / 60)
}

/// The label shown for an offset of `secs` seconds east of UTC.
pub fn format_offset(secs: i32) -> (r: String)
    requires
        -86400 < secs < 86400,
    ensures
        r@ == offset_label(secs as int),
{
    let a: i64 = if secs >= 0 {
        secs as i64
    } else {
        -(secs as i64)
    };
    let mut r = "UTC".to_owned();
    if secs >= 0 {
        r.append("+");
    } else {
        r.append("-");
    }
    let hours = two_digits(a / 3600);
    r.append(hours.as_str());
    r.append(":");
    let minutes = two_digits((a % 3600) / 60);
    r.append(minutes.as_str());
    proof {
        reveal_strlit("UTC");
        reveal_strlit("+");
        reveal_strlit("-");
        reveal_strlit(":");
        assert(r@ =~= offset_label(secs as int));
    }
    r
}

/// The labels of all offsets of the table, in table order.
pub fn offset_labels(offsets: &Vec<i32>) -> (r: Vec<String>)
    requires
        forall|i: int| 0 <= i < offsets@.len() ==> -86400 < #[trigger] offsets@[i] < 86400,
    ensures
        r@.len() == offsets@.len(),
        forall|i: int| 0 <= i < r@.len() ==> #[trigger] r@[i]@ == offset_label(offsets@[i] as int),
{
    let mut r: Vec<String> = Vec::new();
    let mut i: usize = 0;
    while i < offsets.len()
        invariant
            i <= offsets@.len(),
            r@.len() == i,
            forall|k: int| 0 <= k < offsets@.len() ==> -86400 < #[trigger] offsets@[k] < 86400,
            forall|k: int| 0 <= k < i ==> #[trigger] r@[k]@ == offset_label(offsets@[k] as int),
        decreases offsets@.len() - i,
    {
        let label = format_offset(offsets[i]);
        r.push(label);
        i = i + 1;
    }
    r
}

} // verus!
