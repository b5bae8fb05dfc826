//! Memory totals, read from the kernel's memory information lines.
//!
//! The source is line oriented: the line holding a key such as
//! `MemTotal:` carries its value in kilobytes as the second-to-last
//! space-separated field.

use vstd::prelude::*;
use vstd::string::*;

verus! {

use crate::Category;
use crate::Measurements;
use crate::ParseError;
use crate::text::contains_seq;
use crate::text::dec_str;
use crate::text::spec_parse_u64;
use crate::text::u64_to_string;
use crate::text::split_fields;
use crate::text::parse_u64;
use crate::text::split_whitespace_fields;
use crate::text::str_contains;

/// Memory totals in kilobytes.
#[derive(Clone, Debug)]
pub struct MemoryMeasurments {
    pub mem_total: u64,
    pub mem_free: u64,
    pub mem_avail: u64,
}

impl MemoryMeasurments {
    pub fn new(mem_total: u64, mem_free: u64, mem_avail: u64) -> (r: Self)
        ensures
            r == (MemoryMeasurments { mem_total, mem_free, mem_avail }),
    {
        Self { mem_total, mem_free, mem_avail }
    }

    pub fn mem_total(&self) -> (v: u64)
        ensures
            v == self.mem_total,
    {
        self.mem_total
    }

    pub fn mem_free(&self) -> (v: u64)
        ensures
            v == self.mem_free,
    {
        self.mem_free
    }

    pub fn mem_avail(&self) -> (v: u64)
        ensures
            v == self.mem_avail,
    {
        self.mem_avail
    }
}

impl Default for MemoryMeasurments {
    /// The empty record shown before the first snapshot arrives.
    fn default() -> (r: Self)
        ensures
            r == (MemoryMeasurments { mem_total: 0, mem_free: 0, mem_avail: 0 }),
    {
        Self { mem_total: 0, mem_free: 0, mem_avail: 0 }
    }
}

/// The memory panel's text.
pub open spec fn spec_memory_text(m: MemoryMeasurments) -> Seq<char> {
    "mem total: \t"@ + dec_str(m.mem_total as nat) + " kB\nmem free: \t"@ + dec_str(
        m.mem_free as nat,
    ) + " kB\nmem avail: \t"@ + dec_str(m.mem_avail as nat) + " kB"@
}

impl Measurements for MemoryMeasurments {
    open spec fn spec_category(&self) -> Category {
        Category::Memory
    }

    fn category(&self) -> (c: Category) {
        Category::Memory
    }

    fn info_text(&self) -> (s: String)
        ensures
            s@ == spec_memory_text(*self),
    {
        let mut s = String::from_str("mem total: \t");
        s.append(u64_to_string(self.mem_total).as_str());
        s.append(" kB\nmem free: \t");
        s.append(u64_to_string(self.mem_free).as_str());
        s.append(" kB\nmem avail: \t");
        s.append(u64_to_string(self.mem_avail).as_str());
        s.append(" kB");
        proof {
            assert(s@ =~= spec_memory_text(*self));
        }
        s
    }
}

/// What extracting the kilobyte count from one memory line yields: the
/// second-to-last field read as a number.
pub open spec fn spec_extract_mem_consumption(line: Seq<char>) -> Result<u64, ParseError> {
    let fs = split_fields(line);
    if fs.len() < 2 {
        Err(ParseError::MissingField)
    } else {
        spec_parse_u64(fs[fs.len() - 2])
    }
}

/// The kilobyte count of one memory line: its second-to-last field.
pub fn extract_mem_consumption(line: &str) -> (r: Result<u64, ParseError>)
    ensures
        r == spec_extract_mem_consumption(line@),
{
    let fields = split_whitespace_fields(line);
    if fields.len() < 2 {
        return Err(ParseError::MissingField);
    }
    let idx = fields.len() - 2;
    proof {
        assert(fields[idx as int]@ == fields.deep_view()[idx as int]);
    }
    parse_u64(fields[idx].as_str())
}

/// How one line updates the running memory record: the first matching
/// key wins; a line with no key leaves the record unchanged.
pub open spec fn spec_memory_update(m: MemoryMeasurments, line: Seq<char>) -> Result<
    MemoryMeasurments,
    ParseError,
> {
    if contains_seq(line, "MemTotal:"@) {
        match spec_extract_mem_consumption(line) {
            Ok(v) => Ok(MemoryMeasurments { mem_total: v, ..m }),
            Err(e) => Err(e),
        }
    } else if contains_seq(line, "MemFree:"@) {
        match spec_extract_mem_consumption(line) {
            Ok(v) => Ok(MemoryMeasurments { mem_free: v, ..m }),
            Err(e) => Err(e),
        }
    } else if contains_seq(line, "MemAvailable:"@) {
        match spec_extract_mem_consumption(line) {
            Ok(v) => Ok(MemoryMeasurments { mem_avail: v, ..m }),
            Err(e) => Err(e),
        }
    } else {
        Ok(m)
    }
}

/// Folding `spec_memory_update` over all lines, stopping at the first
/// failing line.
pub open spec fn spec_memory_from_lines(lines: Seq<Seq<char>>, m: MemoryMeasurments) -> Result<
    MemoryMeasurments,
    ParseError,
> decreases lines.len(),
{
    if lines.len() == 0 {
        Ok(m)
    } else {
        match spec_memory_update(m, lines[0]) {
            Ok(m2) => spec_memory_from_lines(lines.drop_first(), m2),
            Err(e) => Err(e),
        }
    }
}

/// Builds the memory record from the source's lines, starting from the
/// empty record; the last line holding a key decides each field.
pub fn memory_consumption_from_lines(lines: &Vec<String>) -> (r: Result<
    MemoryMeasurments,
    ParseError,
>)
    ensures
        r == spec_memory_from_lines(
            lines.deep_view(),
            (MemoryMeasurments { mem_total: 0, mem_free: 0, mem_avail: 0 }),
        ),
{
    let ghost all = lines.deep_view();
    let ghost m0 = MemoryMeasurments { mem_total: 0, mem_free: 0, mem_avail: 0 };
    let mut m = MemoryMeasurments::new(0, 0, 0);
    let mut i: usize = 0;
    proof {
        assert(all.skip(0) =~= all);
    }
    while i < lines.len()
        invariant
            i <= lines.len(),
            all == lines.deep_view(),
            m0 == (MemoryMeasurments { mem_total: 0, mem_free: 0, mem_avail: 0 }),
            spec_memory_from_lines(all, m0) == spec_memory_from_lines(all.skip(i as int), m),
        decreases lines.len() - i,
    {
        proof {
            assert(all.skip(i as int)[0] == lines[i as int]@);
            assert(all.skip(i as int).drop_first() =~= all.skip(i + 1));
        }
        let line = lines[i].as_str();
        if str_contains(line, "MemTotal:") {
            match extract_mem_consumption(line) {
                Ok(v) => {
                    m.mem_total = v;
                },
                Err(e) => {
                    return Err(e);
                },
            }
        } else if str_contains(line, "MemFree:") {
            match extract_mem_consumption(line) {
                Ok(v) => {
                    m.mem_free = v;
                },
                Err(e) => {
                    return Err(e);
                },
            }
        } else if str_contains(line, "MemAvailable:") {
            match extract_mem_consumption(line) {
                Ok(v) => {
                    m.mem_avail = v;
                },
                Err(e) => {
                    return Err(e);
                },
            }
        }
        i += 1;
    }
    proof {
        assert(all.skip(lines.len() as int) =~= Seq::<Seq<char>>::empty());
    }
    Ok(m)
}

} // verus!
