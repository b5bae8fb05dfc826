//! GPU readings, read from the query tool's report.
//!
//! The report is line oriented; each line of interest carries its value
//! after a `": "` separator, as in `Product Name : ...` or
//! `Power Draw : 25.31 W`.  Numeric values are taken up to the unit that
//! follows them; fractional values are carried in thousandths of their
//! unit so the record stays in integers.

use vstd::prelude::*;
use vstd::string::*;

verus! {

use crate::Category;
use crate::Measurements;
use crate::ParseError;
use crate::text::contains_seq;
use crate::text::dec_str;
use crate::text::find_char;
use crate::text::milli_str;
use crate::text::milli_to_string;
use crate::text::u64_to_string;
use crate::text::find_first;
use crate::text::first_match;
use crate::text::lemma_first_match_is;
use crate::text::run_until;
use crate::text::spec_parse_milli_u64;
use crate::text::spec_parse_u64;
use crate::text::parse_milli_u64;
use crate::text::parse_u64;
use crate::text::str_contains;

/// One GPU's identity and readings.  Power values are in thousandths of
/// a watt and the utilization in thousandths of a percent; temperatures
/// are whole degrees.
#[derive(Clone, Debug)]
pub struct NvidiaGpuMeasurements {
    pub gpu_name: String,
    pub gpu_architecture: String,
    pub gpu_temp: u64,
    pub gpu_max_temp: u64,
    pub power_usage: u64,
    pub power_capacity: u64,
    pub gpu_utilization: u64,
}

/// The mathematical content of an `NvidiaGpuMeasurements` record.
pub ghost struct GpuView {
    pub gpu_name: Seq<char>,
    pub gpu_architecture: Seq<char>,
    pub gpu_temp: u64,
    pub gpu_max_temp: u64,
    pub power_usage: u64,
    pub power_capacity: u64,
    pub gpu_utilization: u64,
}

impl View for NvidiaGpuMeasurements {
    type V = GpuView;

    open spec fn view(&self) -> GpuView {
        GpuView {
            gpu_name: self.gpu_name@,
            gpu_architecture: self.gpu_architecture@,
            gpu_temp: self.gpu_temp,
            gpu_max_temp: self.gpu_max_temp,
            power_usage: self.power_usage,
            power_capacity: self.power_capacity,
            gpu_utilization: self.gpu_utilization,
        }
    }
}

/// The empty record: a disabled or absent GPU.
pub open spec fn spec_gpu_default() -> GpuView {
    GpuView {
        gpu_name: Seq::<char>::empty(),
        gpu_architecture: Seq::<char>::empty(),
        gpu_temp: 0,
        gpu_max_temp: 0,
        power_usage: 0,
        power_capacity: 0,
        gpu_utilization: 0,
    }
}

impl NvidiaGpuMeasurements {
    pub fn new(
        gpu_name: String,
        gpu_architecture: String,
        gpu_temp: u64,
        gpu_max_temp: u64,
        power_usage: u64,
        power_capacity: u64,
        gpu_utilization: u64,
    ) -> (r: Self)
        ensures
            r@ == (GpuView {
                gpu_name: gpu_name@,
                gpu_architecture: gpu_architecture@,
                gpu_temp,
                gpu_max_temp,
                power_usage,
                power_capacity,
                gpu_utilization,
            }),
    {
        Self {
            gpu_name,
            gpu_architecture,
            gpu_temp,
            gpu_max_temp,
            power_usage,
            power_capacity,
            gpu_utilization,
        }
    }

    pub fn gpu_name(&self) -> (v: &str)
        ensures
            v@ == self@.gpu_name,
    {
        self.gpu_name.as_str()
    }

    pub fn gpu_architecture(&self) -> (v: &str)
        ensures
            v@ == self@.gpu_architecture,
    {
        self.gpu_architecture.as_str()
    }

    pub fn gpu_temp(&self) -> (v: u64)
        ensures
            v == self.gpu_temp,
    {
        self.gpu_temp
    }

    pub fn gpu_max_temp(&self) -> (v: u64)
        ensures
            v == self.gpu_max_temp,
    {
        self.gpu_max_temp
    }

    /// Power draw in thousandths of a watt.
    pub fn power_usage(&self) -> (v: u64)
        ensures
            v == self.power_usage,
    {
        self.power_usage
    }

    /// Power limit in thousandths of a watt.
    pub fn power_capacity(&self) -> (v: u64)
        ensures
            v == self.power_capacity,
    {
        self.power_capacity
    }

    /// Utilization in thousandths of a percent.
    pub fn gpu_utilization(&self) -> (v: u64)
        ensures
            v == self.gpu_utilization,
    {
        self.gpu_utilization
    }
}

impl Default for NvidiaGpuMeasurements {
    /// The empty record shown before the first snapshot arrives, and
    /// kept when the query tool is absent.
    fn default() -> (r: Self)
        ensures
            r@ == spec_gpu_default(),
    {
        Self {
            gpu_name: String::new(),
            gpu_architecture: String::new(),
            gpu_temp: 0,
            gpu_max_temp: 0,
            power_usage: 0,
            power_capacity: 0,
            gpu_utilization: 0,
        }
    }
}

/// The GPU panel's text.
pub open spec fn spec_gpu_text(g: GpuView) -> Seq<char> {
    "GPU name: \t"@ + g.gpu_name + " \nGPU temp: \t"@ + dec_str(g.gpu_temp as nat)
        + " \nGPU util: \t"@ + milli_str(g.gpu_utilization) + " \nGPU power: \t"@ + milli_str(
        g.power_usage,
    )
}

impl Measurements for NvidiaGpuMeasurements {
    open spec fn spec_category(&self) -> Category {
        Category::Gpu
    }

    fn category(&self) -> (c: Category) {
        Category::Gpu
    }

    fn info_text(&self) -> (s: String)
        ensures
            s@ == spec_gpu_text(self@),
    {
        let mut s = String::from_str("GPU name: \t");
        s.append(self.gpu_name.as_str());
        s.append(" \nGPU temp: \t");
        s.append(u64_to_string(self.gpu_temp).as_str());
        s.append(" \nGPU util: \t");
        s.append(milli_to_string(self.gpu_utilization).as_str());
        s.append(" \nGPU power: \t");
        s.append(milli_to_string(self.power_usage).as_str());
        proof {
            assert(s@ =~= spec_gpu_text(self@));
        }
        s
    }
}

/// The value carried by a report line: what stands between the first
/// `": "` separator and the next one, or the line's end.
pub open spec fn spec_gpu_value(line: Seq<char>) -> Seq<char> {
    let sep = ": "@;
    let rest = line.subrange(first_match(line, sep) + sep.len(), line.len() as int);
    if contains_seq(rest, sep) {
        rest.subrange(0, first_match(rest, sep))
    } else {
        rest
    }
}

/// The value carried by a report line.
pub fn extract_nvidia_gpu_data(line: &str) -> (r: String)
    requires
        contains_seq(line@, ": "@),
    ensures
        r@ == spec_gpu_value(line@),
{
    proof {
        reveal_strlit(": ");
    }
    let n = line.unicode_len();
    match find_first(line, ": ") {
        None => {
            proof {
                assert(false);
            }
            String::new()
        },
        Some(i) => {
            proof {
                lemma_first_match_is(line@, ": "@, i as int);
            }
            let rest = line.substring_char(i + 2, n);
            match find_first(rest, ": ") {
                None => String::from_str(rest),
                Some(j) => {
                    proof {
                        lemma_first_match_is(rest@, ": "@, j as int);
                    }
                    String::from_str(rest.substring_char(0, j))
                },
            }
        },
    }
}

/// The numeric token of a report line's value: the value up to the
/// space before its unit.
pub open spec fn spec_gpu_numeric_token(line: Seq<char>) -> Seq<char> {
    let v = spec_gpu_value(line);
    v.take(run_until(v, ' '))
}

/// The value of a report line read as a whole number.
pub fn extract_nvidia_gpu_data_numeric_value(line: &str) -> (r: Result<u64, ParseError>)
    requires
        contains_seq(line@, ": "@),
    ensures
        r == spec_parse_u64(spec_gpu_numeric_token(line@)),
{
    let value = extract_nvidia_gpu_data(line);
    let j = find_char(value.as_str(), ' ');
    let tok = value.as_str().substring_char(0, j);
    proof {
        assert(tok@ =~= spec_gpu_numeric_token(line@));
    }
    parse_u64(tok)
}

/// The value of a report line read as a decimal number, in thousandths
/// of its unit.
pub fn extract_nvidia_gpu_data_milli_value(line: &str) -> (r: Result<u64, ParseError>)
    requires
        contains_seq(line@, ": "@),
    ensures
        r == spec_parse_milli_u64(spec_gpu_numeric_token(line@)),
{
    let value = extract_nvidia_gpu_data(line);
    let j = find_char(value.as_str(), ' ');
    let tok = value.as_str().substring_char(0, j);
    proof {
        assert(tok@ =~= spec_gpu_numeric_token(line@));
    }
    parse_milli_u64(tok)
}

/// How one report line updates the running GPU record: the first
/// matching key wins, a matching line must carry the separator and, for
/// numeric keys, a readable number; other lines are passed over.
pub open spec fn spec_gpu_update(g: GpuView, line: Seq<char>) -> Result<GpuView, ParseError> {
    if contains_seq(line, "Product Name"@) {
        if !contains_seq(line, ": "@) {
            Err(ParseError::MissingField)
        } else {
            Ok(GpuView { gpu_name: spec_gpu_value(line), ..g })
        }
    } else if contains_seq(line, "Product Architecture"@) {
        if !contains_seq(line, ": "@) {
            Err(ParseError::MissingField)
        } else {
            Ok(GpuView { gpu_architecture: spec_gpu_value(line), ..g })
        }
    } else if contains_seq(line, "GPU Current Temp"@) {
        if !contains_seq(line, ": "@) {
            Err(ParseError::MissingField)
        } else {
            match spec_parse_u64(spec_gpu_numeric_token(line)) {
                Ok(v) => Ok(GpuView { gpu_temp: v, ..g }),
                Err(e) => Err(e),
            }
        }
    } else if contains_seq(line, "GPU Max Operating Temp"@) {
        if !contains_seq(line, ": "@) {
            Err(ParseError::MissingField)
        } else {
            match spec_parse_u64(spec_gpu_numeric_token(line)) {
                Ok(v) => Ok(GpuView { gpu_max_temp: v, ..g }),
                Err(e) => Err(e),
            }
        }
    } else if contains_seq(line, "Power Draw"@) && contains_seq(line, " W"@) {
        if !contains_seq(line, ": "@) {
            Err(ParseError::MissingField)
        } else {
            match spec_parse_milli_u64(spec_gpu_numeric_token(line)) {
                Ok(v) => Ok(GpuView { power_usage: v, ..g }),
                Err(e) => Err(e),
            }
        }
    } else if contains_seq(line, "Current Power Limit"@) && contains_seq(line, " W"@) {
        if !contains_seq(line, ": "@) {
            Err(ParseError::MissingField)
        } else {
            match spec_parse_milli_u64(spec_gpu_numeric_token(line)) {
                Ok(v) => Ok(GpuView { power_capacity: v, ..g }),
                Err(e) => Err(e),
            }
        }
    } else if contains_seq(line, "Memory"@) && contains_seq(line, " %"@) {
        if !contains_seq(line, ": "@) {
            Err(ParseError::MissingField)
        } else {
            match spec_parse_milli_u64(spec_gpu_numeric_token(line)) {
                Ok(v) => Ok(GpuView { gpu_utilization: v, ..g }),
                Err(e) => Err(e),
            }
        }
    } else {
        Ok(g)
    }
}

/// Folding `spec_gpu_update` over all lines, stopping at the first
/// failing line.
pub open spec fn spec_gpu_from_lines(lines: Seq<Seq<char>>, g: GpuView) -> Result<
    GpuView,
    ParseError,
> decreases lines.len(),
{
    if lines.len() == 0 {
        Ok(g)
    } else {
        match spec_gpu_update(g, lines[0]) {
            Ok(g2) => spec_gpu_from_lines(lines.drop_first(), g2),
            Err(e) => Err(e),
        }
    }
}

/// Builds the GPU record from the report's lines, starting from the
/// empty record; the last line holding a key decides each field.
pub fn nvidia_gpu_from_lines(lines: &Vec<String>) -> (r: Result<NvidiaGpuMeasurements, ParseError>)
    ensures
        r is Ok <==> spec_gpu_from_lines(lines.deep_view(), spec_gpu_default()) is Ok,
        r is Ok ==> r->Ok_0@ == spec_gpu_from_lines(lines.deep_view(), spec_gpu_default())->Ok_0,
        r is Err ==> r->Err_0 == spec_gpu_from_lines(lines.deep_view(), spec_gpu_default())
            ->Err_0,
{
    let ghost all = lines.deep_view();
    let mut g = NvidiaGpuMeasurements::default();
    let mut i: usize = 0;
    proof {
        assert(all.skip(0) =~= all);
    }
    while i < lines.len()
        invariant
            i <= lines.len(),
            all == lines.deep_view(),
            spec_gpu_from_lines(all, spec_gpu_default()) == spec_gpu_from_lines(
                all.skip(i as int),
                g@,
            ),
        decreases lines.len() - i,
    {
        proof {
            assert(all.skip(i as int)[0] == lines[i as int]@);
            assert(all.skip(i as int).drop_first() =~= all.skip(i + 1));
        }
        let line = lines[i].as_str();
        if str_contains(line, "Product Name") {
            if !str_contains(line, ": ") {
                return Err(ParseError::MissingField);
            }
            g.gpu_name = extract_nvidia_gpu_data(line);
        } else if str_contains(line, "Product Architecture") {
            if !str_contains(line, ": ") {
                return Err(ParseError::MissingField);
            }
            g.gpu_architecture = extract_nvidia_gpu_data(line);
        } else if str_contains(line, "GPU Current Temp") {
            if !str_contains(line, ": ") {
                return Err(ParseError::MissingField);
            }
            match extract_nvidia_gpu_data_numeric_value(line) {
                Ok(v) => {
                    g.gpu_temp = v;
                },
                Err(e) => {
                    return Err(e);
                },
            }
        } else if str_contains(line, "GPU Max Operating Temp") {
            if !str_contains(line, ": ") {
                return Err(ParseError::MissingField);
            }
            match extract_nvidia_gpu_data_numeric_value(line) {
                Ok(v) => {
                    g.gpu_max_temp = v;
                },
                Err(e) => {
                    return Err(e);
                },
            }
        } else if str_contains(line, "Power Draw") && str_contains(line, " W") {
            if !str_contains(line, ": ") {
                return Err(ParseError::MissingField);
            }
            match extract_nvidia_gpu_data_milli_value(line) {
                Ok(v) => {
                    g.power_usage = v;
                },
                Err(e) => {
                    return Err(e);
                },
            }
        } else if str_contains(line, "Current Power Limit") && str_contains(line, " W") {
            if !str_contains(line, ": ") {
                return Err(ParseError::MissingField);
            }
            match extract_nvidia_gpu_data_milli_value(line) {
                Ok(v) => {
                    g.power_capacity = v;
                },
                Err(e) => {
                    return Err(e);
                },
            }
        } else if str_contains(line, "Memory") && str_contains(line, " %") {
            if !str_contains(line, ": ") {
                return Err(ParseError::MissingField);
            }
            match extract_nvidia_gpu_data_milli_value(line) {
                Ok(v) => {
                    g.gpu_utilization = v;
                },
                Err(e) => {
                    return Err(e);
                },
            }
        }
        i += 1;
    }
    proof {
        assert(all.skip(lines.len() as int) =~= Seq::<Seq<char>>::empty());
    }
    Ok(g)
}

} // verus!
