//! The motor's sample table: measured operating points, ordered by current,
//! and the operating point that they give for a current in between.
use vstd::prelude::*;
use crate::error::ConfigError;
use crate::fixed::{
    blend, distance, greater, interpolate, lemma_interpolate_stays_between, lesser, magnitude,
};

verus! {

/// One measured operating point of the motor.
#[derive(Clone, Copy, Debug, PartialEq, Eq, Structural)]
pub struct MotorSamples {
    pub _i: i32,
    /// Electrical input power.
    pub kwp_in: i64,
    pub efficiency: i64,
    pub voltage: i64,
    pub current: i64,
    pub rpm: i64,
    /// Torque.
    pub tnm: i64,
    pub ih: i64,
    pub mo: i64,
}

/// Another name for a row of the table.
pub type MotorProperties = MotorSamples;

/// The current of each row.
pub open spec fn current_column(s: Seq<MotorSamples>) -> Seq<i64> {
    Seq::new(s.len(), |i: int| s[i].current)
}

/// The speed of each row.
pub open spec fn rpm_column(s: Seq<MotorSamples>) -> Seq<i64> {
    Seq::new(s.len(), |i: int| s[i].rpm)
}

/// The torque of each row.
pub open spec fn tnm_column(s: Seq<MotorSamples>) -> Seq<i64> {
    Seq::new(s.len(), |i: int| s[i].tnm)
}

/// The greatest entry of a column; zero for a column without entries.
pub open spec fn greatest(column: Seq<i64>) -> int
    decreases column.len(),
{
    if column.len() == 0 {
        0
    } else if column.len() == 1 {
        column[0] as int
    } else {
        let before = greatest(column.drop_last());
        if column.last() > before {
            column.last() as int
        } else {
            before
        }
    }
}

/// No row has a smaller current than the row before it.
pub open spec fn sorted_by_current(s: Seq<MotorSamples>) -> bool {
    forall|i: int| 0 <= i < s.len() - 1 ==> (#[trigger] s[i]).current <= s[i + 1].current
}

/// Row `i` and the row after it have the same voltage and the same torque.
pub open spec fn agrees(s: Seq<MotorSamples>, i: int) -> bool {
    s[i].voltage == s[i + 1].voltage && s[i].tnm == s[i + 1].tnm
}

/// Voltage and torque are the same in every row.
pub open spec fn uniform(s: Seq<MotorSamples>) -> bool {
    forall|i: int| 0 <= i < s.len() - 1 ==> #[trigger] agrees(s, i)
}

/// Row `k` is the first that differs from its successor in voltage or torque.
pub open spec fn first_disagreement(s: Seq<MotorSamples>, k: int) -> bool {
    &&& 0 <= k < s.len() - 1
    &&& !agrees(s, k)
    &&& forall|j: int| 0 <= j < k ==> #[trigger] agrees(s, j)
}

/// What is wrong with a table, if anything: that it is empty, else that it
/// is not sorted, else how the first row that differs from its successor
/// differs from it, the voltage taken before the torque.
pub open spec fn table_fault(s: Seq<MotorSamples>) -> Option<ConfigError> {
    if s.len() == 0 {
        Some(ConfigError::NoSamples)
    } else if !sorted_by_current(s) {
        Some(ConfigError::UnsortedCurrent)
    } else if uniform(s) {
        None
    } else {
        let k = choose|k: int| first_disagreement(s, k);
        if s[k].voltage != s[k + 1].voltage {
            Some(ConfigError::VoltageVaries)
        } else {
            Some(ConfigError::TorqueVaries)
        }
    }
}

/// A table that a motor can be built on: at least one row, sorted by
/// current, with one voltage and one torque throughout.
pub open spec fn valid_table(s: Seq<MotorSamples>) -> bool {
    s.len() > 0 && sorted_by_current(s) && uniform(s)
}

/// The largest index below `n` whose row has a current of at most `current`;
/// zero where there is none.
pub open spec fn floor_index(s: Seq<MotorSamples>, current: i64, n: int) -> int
    decreases n,
{
    if n <= 0 {
        0
    } else if s[n - 1].current <= current {
        n - 1
    } else {
        floor_index(s, current, n - 1)
    }
}

/// The row at which the segment for `current` begins: the last row but the
/// final one whose current is at most `current`, or the first row.
pub open spec fn closest_index(s: Seq<MotorSamples>, current: i64) -> int {
    floor_index(s, current, s.len() - 1)
}

/// Whether the table gives an operating point for `current`: it has a
/// segment, and the current's magnitude is within the table's greatest.
pub open spec fn covers(s: Seq<MotorSamples>, current: i64) -> bool {
    s.len() >= 2 && magnitude(current as int) <= greatest(current_column(s))
}

/// The point at `current` on the line through two rows. Its current is the
/// one asked for.
pub open spec fn between(low: MotorSamples, high: MotorSamples, current: i64) -> MotorSamples {
    let c = current as int;
    let c0 = low.current as int;
    let c1 = high.current as int;
    MotorSamples {
        _i: 0,
        kwp_in: interpolate(low.kwp_in as int, high.kwp_in as int, c, c0, c1) as i64,
        efficiency: interpolate(low.efficiency as int, high.efficiency as int, c, c0, c1) as i64,
        voltage: interpolate(low.voltage as int, high.voltage as int, c, c0, c1) as i64,
        current,
        rpm: interpolate(low.rpm as int, high.rpm as int, c, c0, c1) as i64,
        tnm: interpolate(low.tnm as int, high.tnm as int, c, c0, c1) as i64,
        ih: interpolate(low.ih as int, high.ih as int, c, c0, c1) as i64,
        mo: interpolate(low.mo as int, high.mo as int, c, c0, c1) as i64,
    }
}

/// The operating point that the table gives for `current`.
pub open spec fn operating_point(s: Seq<MotorSamples>, current: i64) -> MotorSamples
    recommends
        s.len() >= 2,
{
    let i = closest_index(s, current);
    between(s[i], s[i + 1], current)
}

proof fn lemma_greatest_step(column: Seq<i64>, n: int)
    requires
        0 <= n < column.len(),
    ensures
        greatest(column.take(n + 1)) == if n == 0 || column[n] > greatest(column.take(n)) {
            column[n] as int
        } else {
            greatest(column.take(n))
        },
{
    assert(column.take(n + 1).drop_last() =~= column.take(n));
}

/// A column of the table that is scanned for its greatest entry.
#[derive(Clone, Copy, Debug, PartialEq, Eq, Structural)]
pub enum Column {
    Rpm,
    Tnm,
    Current,
}

impl Column {
    /// The column's entries, row by row.
    pub open spec fn of(self, s: Seq<MotorSamples>) -> Seq<i64> {
        match self {
            Column::Rpm => rpm_column(s),
            Column::Tnm => tnm_column(s),
            Column::Current => current_column(s),
        }
    }

    fn entry(self, row: &MotorSamples) -> (r: i64)
        ensures
            r == match self {
                Column::Rpm => row.rpm,
                Column::Tnm => row.tnm,
                Column::Current => row.current,
            },
    {
        match self {
            Column::Rpm => row.rpm,
            Column::Tnm => row.tnm,
            Column::Current => row.current,
        }
    }
}

fn scan_greatest(samples: &Vec<MotorSamples>, column: Column) -> (m: i64)
    ensures
        m == greatest(column.of(samples@)),
{
    let mut m: i64 = 0;
    let mut i: usize = 0;
    while i < samples.len()
        invariant
            0 <= i <= samples.len(),
            column.of(samples@).len() == samples.len(),
            m == greatest(column.of(samples@).take(i as int)),
        decreases samples.len() - i,
    {
        let entry: i64 = column.entry(&samples[i]);
        proof {
            lemma_greatest_step(column.of(samples@), i as int);
        }
        if i == 0 || entry > m {
            m = entry;
        }
        i += 1;
    }
    assert(column.of(samples@).take(samples.len() as int) =~= column.of(samples@));
    m
}

impl MotorSamples {
    /// Decides whether a table can be used. The first fault found is the one
    /// reported: an empty table, then an unsorted one, then the first row that
    /// differs from its successor, by voltage before torque.
    pub fn check_properties(samples: &Vec<Self>) -> (r: Result<(), ConfigError>)
        ensures
            r is Ok <==> valid_table(samples@),
            r == match table_fault(samples@) {
                Some(fault) => Err::<(), ConfigError>(fault),
                None => Ok::<(), ConfigError>(()),
            },
    {
        if samples.len() == 0 {
            return Err(ConfigError::NoSamples);
        }
        let last: usize = samples.len() - 1;
        let mut i: usize = 0;
        while i < last
            invariant
                0 <= i <= last,
                last == samples.len() - 1,
                forall|j: int| 0 <= j < i ==> (#[trigger] samples@[j]).current <= samples@[j + 1].current,
            decreases last - i,
        {
            if samples[i].current > samples[i + 1].current {
                return Err(ConfigError::UnsortedCurrent);
            }
            i += 1;
        }
        let mut k: usize = 0;
        while k < last
            invariant
                0 <= k <= last,
                last == samples.len() - 1,
                sorted_by_current(samples@),
                forall|j: int| 0 <= j < k ==> #[trigger] agrees(samples@, j),
            decreases last - k,
        {
            if samples[k].voltage != samples[k + 1].voltage {
                assert(first_disagreement(samples@, k as int));
                assert forall|n: int| first_disagreement(samples@, n) implies n == k by {
                    if n < k {
                        assert(agrees(samples@, n));
                    } else if n > k {
                        assert(agrees(samples@, k as int));
                    }
                }
                return Err(ConfigError::VoltageVaries);
            }
            if samples[k].tnm != samples[k + 1].tnm {
                assert(first_disagreement(samples@, k as int));
                assert forall|n: int| first_disagreement(samples@, n) implies n == k by {
                    if n < k {
                        assert(agrees(samples@, n));
                    } else if n > k {
                        assert(agrees(samples@, k as int));
                    }
                }
                return Err(ConfigError::TorqueVaries);
            }
            k += 1;
        }
        assert forall|n: int| !first_disagreement(samples@, n) by {
            if 0 <= n < samples@.len() - 1 {
                assert(agrees(samples@, n));
            }
        }
        Ok(())
    }

    /// The greatest speed in the table; zero for an empty one.
    pub fn get_max_rpm(samples: &Vec<Self>) -> (m: i64)
        ensures
            m == greatest(rpm_column(samples@)),
    {
        scan_greatest(samples, Column::Rpm)
    }

    /// The greatest torque in the table; zero for an empty one.
    pub fn get_max_tnm(samples: &Vec<Self>) -> (m: i64)
        ensures
            m == greatest(tnm_column(samples@)),
    {
        scan_greatest(samples, Column::Tnm)
    }

    /// The greatest current in the table; zero for an empty one.
    pub fn get_max_current(samples: &Vec<Self>) -> (m: i64)
        ensures
            m == greatest(current_column(samples@)),
    {
        scan_greatest(samples, Column::Current)
    }

    /// The row at which the segment for `current` begins.
    pub fn find_smaller_closest(samples: &Vec<Self>, current: i64) -> (index: usize)
        ensures
            index == closest_index(samples@, current),
            samples@.len() >= 2 ==> index + 1 < samples@.len(),
            samples@.len() < 2 ==> index == 0,
            index > 0 ==> samples@[index as int].current <= current,
            forall|j: int|
                index < j < samples@.len() - 1 ==> (#[trigger] samples@[j]).current > current,
    {
        if samples.len() < 2 {
            return 0;
        }
        proof {
            lemma_floor_index(samples@, current, samples@.len() - 1);
        }
        let last: usize = samples.len() - 1;
        let mut index: usize = 0;
        let mut i: usize = 0;
        while i < last
            invariant
                0 <= i <= last,
                last == samples.len() - 1,
                last >= 1,
                index == floor_index(samples@, current, i as int),
                index < last,
            decreases last - i,
        {
            if samples[i].current <= current {
                index = i;
            }
            i += 1;
        }
        index
    }

    /// The operating point at `current`, read from the segment that begins
    /// at the closest row below. A current whose magnitude is beyond the
    /// table's greatest current has no operating point, nor has any current
    /// on a table of fewer than two rows.
    pub fn simulate_properties_from_current(samples: &Vec<Self>, current: i64) -> (r: Option<
        MotorSamples,
    >)
        ensures
            r == if covers(samples@, current) {
                Some(operating_point(samples@, current))
            } else {
                None::<MotorSamples>
            },
            magnitude(current as int) > greatest(current_column(samples@)) ==> r is None,
    {
        if samples.len() < 2 {
            return None;
        }
        let ceiling: i64 = Self::get_max_current(samples);
        if ceiling < 0 || distance(current, 0) > ceiling as u128 {
            return None;
        }
        let i: usize = Self::find_smaller_closest(samples, current);
        let low: MotorSamples = samples[i];
        let high: MotorSamples = samples[i + 1];
        let c0: i64 = low.current;
        let c1: i64 = high.current;
        Some(
            MotorSamples {
                _i: 0,
                kwp_in: blend(low.kwp_in, high.kwp_in, current, c0, c1),
                efficiency: blend(low.efficiency, high.efficiency, current, c0, c1),
                voltage: blend(low.voltage, high.voltage, current, c0, c1),
                current,
                rpm: blend(low.rpm, high.rpm, current, c0, c1),
                tnm: blend(low.tnm, high.tnm, current, c0, c1),
                ih: blend(low.ih, high.ih, current, c0, c1),
                mo: blend(low.mo, high.mo, current, c0, c1),
            },
        )
    }
}

proof fn lemma_floor_index(s: Seq<MotorSamples>, current: i64, n: int)
    requires
        0 <= n <= s.len(),
    ensures
        0 <= floor_index(s, current, n),
        n > 0 ==> floor_index(s, current, n) < n,
        floor_index(s, current, n) > 0 ==> s[floor_index(s, current, n)].current <= current,
        forall|j: int|
            floor_index(s, current, n) < j < n ==> (#[trigger] s[j]).current > current,
        (forall|j: int| 0 <= j < n ==> (#[trigger] s[j]).current > current) || (n > 0 && s[floor_index(
            s,
            current,
            n,
        )].current <= current),
    decreases n,
{
    if n > 0 && s[n - 1].current > current {
        lemma_floor_index(s, current, n - 1);
    }
}

proof fn lemma_first_is_least(s: Seq<MotorSamples>, j: int)
    requires
        sorted_by_current(s),
        0 <= j < s.len(),
    ensures
        s[0].current <= s[j].current,
    decreases j,
{
    if j > 0 {
        lemma_first_is_least(s, j - 1);
        assert(s[j - 1].current <= s[j].current);
    }
}

proof fn lemma_uniform_from_first(s: Seq<MotorSamples>, j: int)
    requires
        uniform(s),
        0 <= j < s.len(),
    ensures
        s[j].tnm == s[0].tnm,
        s[j].voltage == s[0].voltage,
    decreases j,
{
    if j > 0 {
        lemma_uniform_from_first(s, j - 1);
        assert(agrees(s, j - 1));
    }
}

/// The greatest entry of a column with at least one entry is one of its
/// entries, and no entry is greater.
pub proof fn lemma_greatest_is_maximum(column: Seq<i64>)
    requires
        column.len() > 0,
    ensures
        exists|i: int| 0 <= i < column.len() && column[i] == greatest(column),
        forall|j: int| 0 <= j < column.len() ==> column[j] <= greatest(column),
    decreases column.len(),
{
    if column.len() == 1 {
        assert(column[0] == greatest(column));
    } else {
        let before = column.drop_last();
        lemma_greatest_is_maximum(before);
        let w = choose|i: int| 0 <= i < before.len() && before[i] == greatest(before);
        if column.last() > greatest(before) {
            assert(column[column.len() - 1] == greatest(column));
        } else {
            assert(column[w] == greatest(column));
        }
        assert forall|j: int| 0 <= j < column.len() implies column[j] <= greatest(column) by {
            if j < before.len() {
                assert(before[j] == column[j]);
            }
        }
    }
}

/// On a valid table the scans for the greatest speed, current and torque
/// give the true maxima of their columns: each result occurs in its column,
/// and no row exceeds it.
pub proof fn lemma_scans_are_column_maxima(s: Seq<MotorSamples>)
    requires
        valid_table(s),
    ensures
        exists|i: int| 0 <= i < s.len() && s[i].rpm == greatest(rpm_column(s)),
        forall|j: int| 0 <= j < s.len() ==> s[j].rpm <= greatest(rpm_column(s)),
        exists|i: int| 0 <= i < s.len() && s[i].current == greatest(current_column(s)),
        forall|j: int| 0 <= j < s.len() ==> s[j].current <= greatest(current_column(s)),
        exists|i: int| 0 <= i < s.len() && s[i].tnm == greatest(tnm_column(s)),
        forall|j: int| 0 <= j < s.len() ==> s[j].tnm <= greatest(tnm_column(s)),
{
    lemma_greatest_is_maximum(rpm_column(s));
    let r = choose|i: int| 0 <= i < s.len() && rpm_column(s)[i] == greatest(rpm_column(s));
    assert(s[r].rpm == greatest(rpm_column(s)));
    assert forall|j: int| 0 <= j < s.len() implies s[j].rpm <= greatest(rpm_column(s)) by {
        assert(rpm_column(s)[j] == s[j].rpm);
    }
    lemma_greatest_is_maximum(current_column(s));
    let c = choose|i: int|
        0 <= i < s.len() && current_column(s)[i] == greatest(current_column(s));
    assert(s[c].current == greatest(current_column(s)));
    assert forall|j: int| 0 <= j < s.len() implies s[j].current <= greatest(
        current_column(s),
    ) by {
        assert(current_column(s)[j] == s[j].current);
    }
    lemma_greatest_is_maximum(tnm_column(s));
    let t = choose|i: int| 0 <= i < s.len() && tnm_column(s)[i] == greatest(tnm_column(s));
    assert(s[t].tnm == greatest(tnm_column(s)));
    assert forall|j: int| 0 <= j < s.len() implies s[j].tnm <= greatest(tnm_column(s)) by {
        assert(tnm_column(s)[j] == s[j].tnm);
    }
}

/// On a sorted table of at least two rows the closest index is that of a
/// segment. A current inside the table lies on its segment: at or above the
/// segment's first row and below its second. A current below the table gets
/// the first segment, and one at or above the table's last row the last.
pub proof fn lemma_closest_index_brackets(s: Seq<MotorSamples>, current: i64)
    requires
        sorted_by_current(s),
        s.len() >= 2,
    ensures
        0 <= closest_index(s, current) <= s.len() - 2,
        s[0].current <= current < s[s.len() - 1].current ==> s[closest_index(s, current)].current
            <= current < s[closest_index(s, current) + 1].current,
        current < s[0].current ==> closest_index(s, current) == 0,
        current >= s[s.len() - 1].current ==> closest_index(s, current) == s.len() - 2,
{
    let n = s.len() - 1;
    let i = closest_index(s, current);
    lemma_floor_index(s, current, n);
    if current < s[0].current {
        if i > 0 {
            lemma_first_is_least(s, i);
        }
    }
    if current >= s[n].current {
        assert(s[n - 1].current <= s[n].current);
    }
    if s[0].current <= current < s[n].current {
        if i + 1 < n {
            assert(s[i + 1].current > current);
        }
    }
}

/// Between two rows of equal torque every interpolated point has that
/// torque, and likewise for voltage.
pub proof fn lemma_between_keeps_constants(low: MotorSamples, high: MotorSamples, current: i64)
    ensures
        low.tnm == high.tnm ==> between(low, high, current).tnm == low.tnm,
        low.voltage == high.voltage ==> between(low, high, current).voltage == low.voltage,
{
    reveal(interpolate);
    let run = current - low.current;
    assert(0 * run == 0) by (nonlinear_arith);
}

/// On a valid table the operating point at any current has exactly the
/// table's torque and the table's voltage.
pub proof fn lemma_torque_is_constant(s: Seq<MotorSamples>, current: i64)
    requires
        valid_table(s),
        s.len() >= 2,
    ensures
        operating_point(s, current).tnm == s[0].tnm,
        operating_point(s, current).voltage == s[0].voltage,
{
    lemma_closest_index_brackets(s, current);
    let i = closest_index(s, current);
    lemma_uniform_from_first(s, i);
    lemma_uniform_from_first(s, i + 1);
    lemma_between_keeps_constants(s[i], s[i + 1], current);
}

/// On a sorted table the operating point at a current inside the table
/// has a speed between the speeds of the two rows around it.
pub proof fn lemma_speed_stays_between_rows(s: Seq<MotorSamples>, current: i64)
    requires
        sorted_by_current(s),
        s.len() >= 2,
        s[0].current <= current <= s[s.len() - 1].current,
    ensures
        lesser(
            s[closest_index(s, current)].rpm as int,
            s[closest_index(s, current) + 1].rpm as int,
        ) <= operating_point(s, current).rpm,
        operating_point(s, current).rpm <= greater(
            s[closest_index(s, current)].rpm as int,
            s[closest_index(s, current) + 1].rpm as int,
        ),
{
    lemma_closest_index_brackets(s, current);
    let i = closest_index(s, current);
    if current < s[s.len() - 1].current {
        assert(s[i].current <= current < s[i + 1].current);
    } else {
        assert(i == s.len() - 2);
        assert(s[i].current <= s[i + 1].current);
    }
    lemma_interpolate_stays_between(
        s[i].rpm as int,
        s[i + 1].rpm as int,
        current as int,
        s[i].current as int,
        s[i + 1].current as int,
    );
}

} // verus!
