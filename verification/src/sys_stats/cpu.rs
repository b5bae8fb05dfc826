//! Per-core CPU times, read from the kernel's CPU statistics lines.
//!
//! Each core's line starts with its identifier (`cpu0`, `cpu1`, ...)
//! followed by tick counters; the second field is time in user mode,
//! the fourth time in kernel mode, and the fifth idle time.  A core's
//! utilization is `(user + system) * 100 / (user + system + idle)`
//! percent, carried here in thousandths of a percent so the record
//! stays in integers.

use vstd::prelude::*;
use vstd::string::*;
use vstd::arithmetic::div_mod::lemma_div_is_ordered;
use vstd::arithmetic::div_mod::lemma_div_multiples_vanish;

verus! {

use crate::Category;
use crate::Measurements;
use crate::ParseError;
use crate::text::contains_seq;
use crate::text::milli_str;
use crate::text::milli_to_string;
use crate::text::spec_parse_u64;
use crate::text::split_fields;
use crate::text::parse_u64;
use crate::text::split_whitespace_fields;
use crate::text::str_contains;

/// One core's utilization, in thousandths of a percent: busy time over
/// total time, truncated, and zero when no time has been recorded.
pub open spec fn spec_utilization_milli_pct(user: u64, system: u64, idle: u64) -> int {
    if user + system + idle == 0 {
        0
    } else {
        ((user + system) * 100000) / (user + system + idle)
    }
}

/// One core's tick counters and derived utilization.
#[derive(Clone, Debug)]
pub struct CpuTime {
    pub cpu_id: String,
    pub user_time: u64,
    pub system_time: u64,
    pub idle_time: u64,
    /// Utilization in thousandths of a percent.
    pub utilization: u64,
}

/// The mathematical content of a `CpuTime` record.
pub ghost struct CpuTimeView {
    pub cpu_id: Seq<char>,
    pub user_time: u64,
    pub system_time: u64,
    pub idle_time: u64,
    pub utilization: u64,
}

impl View for CpuTime {
    type V = CpuTimeView;

    open spec fn view(&self) -> CpuTimeView {
        CpuTimeView {
            cpu_id: self.cpu_id@,
            user_time: self.user_time,
            system_time: self.system_time,
            idle_time: self.idle_time,
            utilization: self.utilization,
        }
    }
}

impl DeepView for CpuTime {
    type V = CpuTimeView;

    open spec fn deep_view(&self) -> CpuTimeView {
        self.view()
    }
}

impl CpuTime {
    pub fn new(cpu_id: String, user_time: u64, system_time: u64, idle_time: u64, utilization: u64)
        -> (r: Self)
        ensures
            r@ == (CpuTimeView { cpu_id: cpu_id@, user_time, system_time, idle_time, utilization
            }),
    {
        Self { cpu_id, user_time, system_time, idle_time, utilization }
    }

    pub fn system_time(&self) -> (v: u64)
        ensures
            v == self.system_time,
    {
        self.system_time
    }

    pub fn user_time(&self) -> (v: u64)
        ensures
            v == self.user_time,
    {
        self.user_time
    }

    pub fn idle_time(&self) -> (v: u64)
        ensures
            v == self.idle_time,
    {
        self.idle_time
    }

    pub fn cpu_id(&self) -> (v: &str)
        ensures
            v@ == self@.cpu_id,
    {
        self.cpu_id.as_str()
    }

    /// Utilization in thousandths of a percent.
    pub fn utilization(&self) -> (v: u64)
        ensures
            v == self.utilization,
    {
        self.utilization
    }
}

impl Default for CpuTime {
    /// The empty record shown before the first snapshot arrives.
    fn default() -> (r: Self)
        ensures
            r@ == (CpuTimeView {
                cpu_id: Seq::<char>::empty(),
                user_time: 0,
                system_time: 0,
                idle_time: 0,
                utilization: 0,
            }),
    {
        Self {
            cpu_id: String::new(),
            user_time: 0,
            system_time: 0,
            idle_time: 0,
            utilization: 0,
        }
    }
}

/// All cores' records, in the order their lines appear.
#[derive(Clone, Debug)]
pub struct CpuMeasurements {
    pub cpu_time: Vec<CpuTime>,
}

impl View for CpuMeasurements {
    type V = Seq<CpuTimeView>;

    open spec fn view(&self) -> Seq<CpuTimeView> {
        Seq::new(self.cpu_time@.len(), |i: int| self.cpu_time@[i]@)
    }
}

impl CpuMeasurements {
    pub fn new(cpu_time: Vec<CpuTime>) -> (r: Self)
        ensures
            r.cpu_time == cpu_time,
    {
        Self { cpu_time }
    }

    pub fn cpu_time(&self) -> (v: &[CpuTime])
        ensures
            v@ == self.cpu_time@,
    {
        self.cpu_time.as_slice()
    }
}

impl Default for CpuMeasurements {
    /// The empty record shown before the first snapshot arrives.
    fn default() -> (r: Self)
        ensures
            r@ == Seq::<CpuTimeView>::empty(),
    {
        let cpu_time: Vec<CpuTime> = Vec::new();
        proof {
            assert(Seq::new(cpu_time@.len(), |i: int| cpu_time@[i]@) =~= Seq::<
                CpuTimeView,
            >::empty());
        }
        Self { cpu_time }
    }
}

/// One core's line in the CPU panel.
pub open spec fn spec_cpu_core_text(c: CpuTimeView) -> Seq<char> {
    c.cpu_id + " use: \t"@ + milli_str(c.utilization) + " %\n"@
}

/// The CPU panel's text: one line per core, in order.
pub open spec fn spec_cpu_text(cores: Seq<CpuTimeView>) -> Seq<char>
    decreases cores.len(),
{
    if cores.len() == 0 {
        Seq::empty()
    } else {
        spec_cpu_core_text(cores[0]) + spec_cpu_text(cores.drop_first())
    }
}

impl Measurements for CpuMeasurements {
    open spec fn spec_category(&self) -> Category {
        Category::Cpu
    }

    fn category(&self) -> (c: Category) {
        Category::Cpu
    }

    fn info_text(&self) -> (s: String)
        ensures
            s@ == spec_cpu_text(self@),
    {
        let ghost all = self@;
        let mut s = String::new();
        let mut i: usize = 0;
        proof {
            assert(all.skip(0) =~= all);
            assert(s@ + spec_cpu_text(all.skip(0)) =~= spec_cpu_text(all));
        }
        while i < self.cpu_time.len()
            invariant
                i <= self.cpu_time.len(),
                all == self@,
                spec_cpu_text(all) == s@ + spec_cpu_text(all.skip(i as int)),
            decreases self.cpu_time.len() - i,
        {
            proof {
                assert(all.skip(i as int)[0] == all[i as int]);
                assert(all.skip(i as int).drop_first() =~= all.skip(i + 1));
            }
            let core = &self.cpu_time[i];
            let ghost s_before = s@;
            s.append(core.cpu_id.as_str());
            s.append(" use: \t");
            s.append(milli_to_string(core.utilization).as_str());
            s.append(" %\n");
            proof {
                assert(core@ == all[i as int]);
                assert(s@ =~= s_before + spec_cpu_core_text(all[i as int]));
                assert(s_before + spec_cpu_text(all.skip(i as int)) =~= s@ + spec_cpu_text(
                    all.skip(i + 1),
                ));
            }
            i += 1;
        }
        proof {
            assert(all.skip(self.cpu_time.len() as int) =~= Seq::<CpuTimeView>::empty());
            assert(s@ =~= spec_cpu_text(all));
        }
        s
    }
}

/// Derives the record's utilization from its tick counters.
pub fn compute_cpu_utilization(cpu_time: &mut CpuTime)
    ensures
        final(cpu_time)@ == (CpuTimeView {
            utilization: spec_utilization_milli_pct(
                old(cpu_time).user_time,
                old(cpu_time).system_time,
                old(cpu_time).idle_time,
            ) as u64,
            ..old(cpu_time)@
        }),
{
    let busy: u128 = cpu_time.user_time as u128 + cpu_time.system_time as u128;
    let total: u128 = busy + cpu_time.idle_time as u128;
    if total == 0 {
        cpu_time.utilization = 0;
    } else {
        let q: u128 = (busy * 100000) / total;
        proof {
            assert(busy * 100000 <= total * 100000) by (nonlinear_arith)
                requires
                    busy <= total,
            ;
            lemma_div_is_ordered(busy as int * 100000, total as int * 100000, total as int);
            lemma_div_multiples_vanish(100000, total as int);
            assert(total as int * 100000 == total as int * 100000int);
            assert((total as int * 100000) / (total as int) == 100000) by {
                assert(total as int * 100000 == (total as int) * 100000int);
            }
        }
        cpu_time.utilization = q as u64;
    }
}

/// What reading one CPU line's fields yields: the identifier from the
/// first field and the three tick counters from the second, fourth and
/// fifth, the first bad counter deciding the error; the utilization is
/// left zero until it is derived.
pub open spec fn spec_cpu_times(fs: Seq<Seq<char>>) -> Result<CpuTimeView, ParseError> {
    if fs.len() < 5 {
        Err(ParseError::MissingField)
    } else {
        match spec_parse_u64(fs[1]) {
            Err(e) => Err(e),
            Ok(user_time) => match spec_parse_u64(fs[3]) {
                Err(e) => Err(e),
                Ok(system_time) => match spec_parse_u64(fs[4]) {
                    Err(e) => Err(e),
                    Ok(idle_time) => Ok(
                        CpuTimeView {
                            cpu_id: fs[0],
                            user_time,
                            system_time,
                            idle_time,
                            utilization: 0,
                        },
                    ),
                },
            },
        }
    }
}

/// One line's fields as a core record, with the utilization not yet
/// derived.
pub fn get_cpu_times(cpu_data: Vec<String>) -> (r: Result<CpuTime, ParseError>)
    ensures
        r is Ok <==> spec_cpu_times(cpu_data.deep_view()) is Ok,
        r is Ok ==> r->Ok_0@ == spec_cpu_times(cpu_data.deep_view())->Ok_0,
        r is Err ==> r->Err_0 == spec_cpu_times(cpu_data.deep_view())->Err_0,
{
    if cpu_data.len() < 5 {
        return Err(ParseError::MissingField);
    }
    proof {
        assert(cpu_data[0int]@ == cpu_data.deep_view()[0]);
        assert(cpu_data[1int]@ == cpu_data.deep_view()[1]);
        assert(cpu_data[3int]@ == cpu_data.deep_view()[3]);
        assert(cpu_data[4int]@ == cpu_data.deep_view()[4]);
    }
    let user_time = match parse_u64(cpu_data[1].as_str()) {
        Ok(v) => v,
        Err(e) => {
            return Err(e);
        },
    };
    let system_time = match parse_u64(cpu_data[3].as_str()) {
        Ok(v) => v,
        Err(e) => {
            return Err(e);
        },
    };
    let idle_time = match parse_u64(cpu_data[4].as_str()) {
        Ok(v) => v,
        Err(e) => {
            return Err(e);
        },
    };
    let cpu_id = cpu_data[0].clone();
    Ok(CpuTime::new(cpu_id, user_time, system_time, idle_time, 0))
}

/// What extracting one CPU line yields: its fields as a core record
/// with the utilization derived from the tick counters.
pub open spec fn spec_extract_cpu_utilization(line: Seq<char>) -> Result<CpuTimeView, ParseError> {
    match spec_cpu_times(split_fields(line)) {
        Err(e) => Err(e),
        Ok(t) => Ok(
            CpuTimeView {
                utilization: spec_utilization_milli_pct(
                    t.user_time,
                    t.system_time,
                    t.idle_time,
                ) as u64,
                ..t
            },
        ),
    }
}

/// One CPU line as a core record with its utilization.
pub fn extract_cpu_utilization(line: &str) -> (r: Result<CpuTime, ParseError>)
    ensures
        r is Ok <==> spec_extract_cpu_utilization(line@) is Ok,
        r is Ok ==> r->Ok_0@ == spec_extract_cpu_utilization(line@)->Ok_0,
        r is Err ==> r->Err_0 == spec_extract_cpu_utilization(line@)->Err_0,
{
    let cpu_data = split_whitespace_fields(line);
    let mut cpu_time = match get_cpu_times(cpu_data) {
        Ok(t) => t,
        Err(e) => {
            return Err(e);
        },
    };
    compute_cpu_utilization(&mut cpu_time);
    Ok(cpu_time)
}

/// Whether the record for this line belongs in the per-core list: core
/// lines name their core (`cpu0`, ...), while the aggregate line's
/// identifier is followed by a space.
pub open spec fn spec_is_core_line(line: Seq<char>) -> bool {
    contains_seq(line, "cpu"@) && !contains_seq(line, "cpu "@)
}

/// How one line extends the core list: a core line must parse and is
/// appended; any other line is passed over.
pub open spec fn spec_cpu_update(cores: Seq<CpuTimeView>, line: Seq<char>) -> Result<
    Seq<CpuTimeView>,
    ParseError,
> {
    if spec_is_core_line(line) {
        match spec_extract_cpu_utilization(line) {
            Ok(t) => Ok(cores.push(t)),
            Err(e) => Err(e),
        }
    } else {
        Ok(cores)
    }
}

/// Folding `spec_cpu_update` over all lines, stopping at the first
/// failing line.
pub open spec fn spec_cpu_from_lines(lines: Seq<Seq<char>>, cores: Seq<CpuTimeView>) -> Result<
    Seq<CpuTimeView>,
    ParseError,
> decreases lines.len(),
{
    if lines.len() == 0 {
        Ok(cores)
    } else {
        match spec_cpu_update(cores, lines[0]) {
            Ok(c2) => spec_cpu_from_lines(lines.drop_first(), c2),
            Err(e) => Err(e),
        }
    }
}

/// Builds the per-core list from the source's lines, keeping the core
/// lines in order and leaving the aggregate line out.
pub fn cpu_usage_from_lines(lines: &Vec<String>) -> (r: Result<CpuMeasurements, ParseError>)
    ensures
        r is Ok <==> spec_cpu_from_lines(lines.deep_view(), Seq::<CpuTimeView>::empty()) is Ok,
        r is Ok ==> r->Ok_0@ == spec_cpu_from_lines(lines.deep_view(), Seq::<CpuTimeView>::empty())
            ->Ok_0,
        r is Err ==> r->Err_0 == spec_cpu_from_lines(
            lines.deep_view(),
            Seq::<CpuTimeView>::empty(),
        )->Err_0,
{
    let ghost all = lines.deep_view();
    let mut cores: Vec<CpuTime> = Vec::new();
    let mut i: usize = 0;
    proof {
        assert(all.skip(0) =~= all);
        assert(cores.deep_view() =~= Seq::<CpuTimeView>::empty());
    }
    while i < lines.len()
        invariant
            i <= lines.len(),
            all == lines.deep_view(),
            spec_cpu_from_lines(all, Seq::<CpuTimeView>::empty()) == spec_cpu_from_lines(
                all.skip(i as int),
                cores.deep_view(),
            ),
        decreases lines.len() - i,
    {
        proof {
            assert(all.skip(i as int)[0] == lines[i as int]@);
            assert(all.skip(i as int).drop_first() =~= all.skip(i + 1));
        }
        let line = lines[i].as_str();
        if str_contains(line, "cpu") && !str_contains(line, "cpu ") {
            match extract_cpu_utilization(line) {
                Ok(t) => {
                    let ghost before = cores.deep_view();
                    cores.push(t);
                    proof {
                        assert(cores.deep_view() =~= before.push(t@));
                    }
                },
                Err(e) => {
                    return Err(e);
                },
            }
        }
        i += 1;
    }
    proof {
        assert(all.skip(lines.len() as int) =~= Seq::<Seq<char>>::empty());
    }
    let r = CpuMeasurements::new(cores);
    proof {
        assert(r@ =~= r.cpu_time.deep_view());
    }
    Ok(r)
}

} // verus!
