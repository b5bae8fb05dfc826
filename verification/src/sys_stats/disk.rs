//! Per-device disk activity, read from the kernel's disk statistics lines.
//!
//! Each line lists, space separated: the major number, the minor number,
//! the device name, and counters, of which the fourth field is reads
//! completed, the eighth is writes completed, and the eleventh is the
//! number of operations in progress.

use vstd::prelude::*;
use vstd::string::*;

verus! {

use crate::Category;
use crate::Measurements;
use crate::ParseError;
use crate::text::contains_seq;
use crate::text::dec_str;
use crate::text::u64_to_string;
use crate::text::spec_parse_u64;
use crate::text::split_fields;
use crate::text::parse_u64;
use crate::text::split_whitespace_fields;
use crate::text::str_contains;

/// One storage device's counters.
#[derive(Clone, Debug)]
pub struct Sd {
    pub name: String,
    /// The device's major and minor numbers, joined as `major.minor`.
    pub version: String,
    pub reads_completed: u64,
    pub writes_completed: u64,
    pub io_in_progress: u64,
}

/// The mathematical content of an `Sd` record.
pub ghost struct SdView {
    pub name: Seq<char>,
    pub version: Seq<char>,
    pub reads_completed: u64,
    pub writes_completed: u64,
    pub io_in_progress: u64,
}

impl View for Sd {
    type V = SdView;

    open spec fn view(&self) -> SdView {
        SdView {
            name: self.name@,
            version: self.version@,
            reads_completed: self.reads_completed,
            writes_completed: self.writes_completed,
            io_in_progress: self.io_in_progress,
        }
    }
}

impl DeepView for Sd {
    type V = SdView;

    open spec fn deep_view(&self) -> SdView {
        self.view()
    }
}

impl Sd {
    pub fn new(
        name: String,
        version: String,
        reads_completed: u64,
        writes_completed: u64,
        io_in_progress: u64,
    ) -> (r: Self)
        ensures
            r@ == (SdView {
                name: name@,
                version: version@,
                reads_completed,
                writes_completed,
                io_in_progress,
            }),
    {
        Self { name, version, reads_completed, writes_completed, io_in_progress }
    }

    pub fn name(&self) -> (v: &str)
        ensures
            v@ == self@.name,
    {
        self.name.as_str()
    }

    pub fn version(&self) -> (v: &str)
        ensures
            v@ == self@.version,
    {
        self.version.as_str()
    }

    pub fn reads_completed(&self) -> (v: u64)
        ensures
            v == self.reads_completed,
    {
        self.reads_completed
    }

    pub fn writes_completed(&self) -> (v: u64)
        ensures
            v == self.writes_completed,
    {
        self.writes_completed
    }

    pub fn io_in_progress(&self) -> (v: u64)
        ensures
            v == self.io_in_progress,
    {
        self.io_in_progress
    }
}

/// The devices' counters, in the order their lines appear.
#[derive(Clone, Debug)]
pub struct DiskStatMeasurements {
    pub sd_utilization: Vec<Sd>,
}

impl View for DiskStatMeasurements {
    type V = Seq<SdView>;

    open spec fn view(&self) -> Seq<SdView> {
        Seq::new(self.sd_utilization@.len(), |i: int| self.sd_utilization@[i]@)
    }
}

impl DiskStatMeasurements {
    pub fn new(sd_utilization: Vec<Sd>) -> (r: Self)
        ensures
            r.sd_utilization == sd_utilization,
    {
        Self { sd_utilization }
    }

    pub fn sd_utilization(&self) -> (v: &[Sd])
        ensures
            v@ == self.sd_utilization@,
    {
        self.sd_utilization.as_slice()
    }
}

impl Default for DiskStatMeasurements {
    /// The empty record shown before the first snapshot arrives.
    fn default() -> (r: Self)
        ensures
            r@ == Seq::<SdView>::empty(),
    {
        let sd_utilization: Vec<Sd> = Vec::new();
        proof {
            assert(Seq::new(sd_utilization@.len(), |i: int| sd_utilization@[i]@) =~= Seq::<
                SdView,
            >::empty());
        }
        Self { sd_utilization }
    }
}

/// One device's lines in the disk panel.
pub open spec fn spec_sd_text(sd: SdView) -> Seq<char> {
    sd.name + ", \nversion: "@ + sd.version + ", \nreads completed successfully: "@ + dec_str(
        sd.reads_completed as nat,
    ) + ", \nwrites completed successfully: "@ + dec_str(sd.writes_completed as nat)
        + ", \nI/Os currently in progress: "@ + dec_str(sd.io_in_progress as nat) + "\n"@
}

/// The disk panel's text: each device's lines, in order.
pub open spec fn spec_disk_text(devs: Seq<SdView>) -> Seq<char>
    decreases devs.len(),
{
    if devs.len() == 0 {
        Seq::empty()
    } else {
        spec_sd_text(devs[0]) + spec_disk_text(devs.drop_first())
    }
}

impl Measurements for DiskStatMeasurements {
    open spec fn spec_category(&self) -> Category {
        Category::Disk
    }

    fn category(&self) -> (c: Category) {
        Category::Disk
    }

    fn info_text(&self) -> (s: String)
        ensures
            s@ == spec_disk_text(self@),
    {
        let ghost all = self@;
        let mut s = String::new();
        let mut i: usize = 0;
        proof {
            assert(all.skip(0) =~= all);
            assert(s@ + spec_disk_text(all.skip(0)) =~= spec_disk_text(all));
        }
        while i < self.sd_utilization.len()
            invariant
                i <= self.sd_utilization.len(),
                all == self@,
                spec_disk_text(all) == s@ + spec_disk_text(all.skip(i as int)),
            decreases self.sd_utilization.len() - i,
        {
            proof {
                assert(all.skip(i as int)[0] == all[i as int]);
                assert(all.skip(i as int).drop_first() =~= all.skip(i + 1));
            }
            let sd = &self.sd_utilization[i];
            let ghost s_before = s@;
            s.append(sd.name.as_str());
            s.append(", \nversion: ");
            s.append(sd.version.as_str());
            s.append(", \nreads completed successfully: ");
            s.append(u64_to_string(sd.reads_completed).as_str());
            s.append(", \nwrites completed successfully: ");
            s.append(u64_to_string(sd.writes_completed).as_str());
            s.append(", \nI/Os currently in progress: ");
            s.append(u64_to_string(sd.io_in_progress).as_str());
            s.append("\n");
            proof {
                assert(sd@ == all[i as int]);
                assert(s@ =~= s_before + spec_sd_text(all[i as int]));
                assert(s_before + spec_disk_text(all.skip(i as int)) =~= s@ + spec_disk_text(
                    all.skip(i + 1),
                ));
            }
            i += 1;
        }
        proof {
            assert(all.skip(self.sd_utilization.len() as int) =~= Seq::<SdView>::empty());
            assert(s@ =~= spec_disk_text(all));
        }
        s
    }
}

/// What extracting one disk line yields: name from the third field,
/// `major.minor` joined from the first two, and the three counters from
/// the fourth, eighth and eleventh, the first bad counter deciding the
/// error.
pub open spec fn spec_extract_disk_statistics(line: Seq<char>) -> Result<SdView, ParseError> {
    let fs = split_fields(line);
    if fs.len() < 11 {
        Err(ParseError::MissingField)
    } else {
        match spec_parse_u64(fs[3]) {
            Err(e) => Err(e),
            Ok(reads_completed) => match spec_parse_u64(fs[7]) {
                Err(e) => Err(e),
                Ok(writes_completed) => match spec_parse_u64(fs[10]) {
                    Err(e) => Err(e),
                    Ok(io_in_progress) => Ok(
                        SdView {
                            name: fs[2],
                            version: fs[0] + "."@ + fs[1],
                            reads_completed,
                            writes_completed,
                            io_in_progress,
                        },
                    ),
                },
            },
        }
    }
}

/// One disk line as a device record.
pub fn extract_disk_statistics(line: &str) -> (r: Result<Sd, ParseError>)
    ensures
        r is Ok <==> spec_extract_disk_statistics(line@) is Ok,
        r is Ok ==> r->Ok_0@ == spec_extract_disk_statistics(line@)->Ok_0,
        r is Err ==> r->Err_0 == spec_extract_disk_statistics(line@)->Err_0,
{
    let fields = split_whitespace_fields(line);
    if fields.len() < 11 {
        return Err(ParseError::MissingField);
    }
    proof {
        assert(fields[0int]@ == fields.deep_view()[0]);
        assert(fields[1int]@ == fields.deep_view()[1]);
        assert(fields[2int]@ == fields.deep_view()[2]);
        assert(fields[3int]@ == fields.deep_view()[3]);
        assert(fields[7int]@ == fields.deep_view()[7]);
        assert(fields[10int]@ == fields.deep_view()[10]);
    }
    let reads_completed = match parse_u64(fields[3].as_str()) {
        Ok(v) => v,
        Err(e) => {
            return Err(e);
        },
    };
    let writes_completed = match parse_u64(fields[7].as_str()) {
        Ok(v) => v,
        Err(e) => {
            return Err(e);
        },
    };
    let io_in_progress = match parse_u64(fields[10].as_str()) {
        Ok(v) => v,
        Err(e) => {
            return Err(e);
        },
    };
    let name = fields[2].clone();
    let version = fields[0].clone().concat(".").concat(fields[1].as_str());
    Ok(Sd::new(name, version, reads_completed, writes_completed, io_in_progress))
}

/// How one line extends the device list: a line naming an `sd` device
/// must parse and is appended; any other line is passed over.
pub open spec fn spec_disk_update(devs: Seq<SdView>, line: Seq<char>) -> Result<
    Seq<SdView>,
    ParseError,
> {
    if contains_seq(line, " sd"@) {
        match spec_extract_disk_statistics(line) {
            Ok(sd) => Ok(devs.push(sd)),
            Err(e) => Err(e),
        }
    } else {
        Ok(devs)
    }
}

/// Folding `spec_disk_update` over all lines, stopping at the first
/// failing line.
pub open spec fn spec_disk_from_lines(lines: Seq<Seq<char>>, devs: Seq<SdView>) -> Result<
    Seq<SdView>,
    ParseError,
> decreases lines.len(),
{
    if lines.len() == 0 {
        Ok(devs)
    } else {
        match spec_disk_update(devs, lines[0]) {
            Ok(d2) => spec_disk_from_lines(lines.drop_first(), d2),
            Err(e) => Err(e),
        }
    }
}

/// Builds the device list from the source's lines, keeping the lines
/// that name an `sd` device, in order.
pub fn disk_utility_from_lines(lines: &Vec<String>) -> (r: Result<
    DiskStatMeasurements,
    ParseError,
>)
    ensures
        r is Ok <==> spec_disk_from_lines(lines.deep_view(), Seq::<SdView>::empty()) is Ok,
        r is Ok ==> r->Ok_0@ == spec_disk_from_lines(lines.deep_view(), Seq::<SdView>::empty())
            ->Ok_0,
        r is Err ==> r->Err_0 == spec_disk_from_lines(lines.deep_view(), Seq::<SdView>::empty())
            ->Err_0,
{
    let ghost all = lines.deep_view();
    let mut devs: Vec<Sd> = Vec::new();
    let mut i: usize = 0;
    proof {
        assert(all.skip(0) =~= all);
        assert(devs.deep_view() =~= Seq::<SdView>::empty());
    }
    while i < lines.len()
        invariant
            i <= lines.len(),
            all == lines.deep_view(),
            spec_disk_from_lines(all, Seq::<SdView>::empty()) == spec_disk_from_lines(
                all.skip(i as int),
                devs.deep_view(),
            ),
        decreases lines.len() - i,
    {
        proof {
            assert(all.skip(i as int)[0] == lines[i as int]@);
            assert(all.skip(i as int).drop_first() =~= all.skip(i + 1));
        }
        let line = lines[i].as_str();
        if str_contains(line, " sd") {
            match extract_disk_statistics(line) {
                Ok(sd) => {
                    let ghost before = devs.deep_view();
                    devs.push(sd);
                    proof {
                        assert(devs.deep_view() =~= before.push(sd@));
                    }
                },
                Err(e) => {
                    return Err(e);
                },
            }
        }
        i += 1;
    }
    proof {
        assert(all.skip(lines.len() as int) =~= Seq::<Seq<char>>::empty());
    }
    let r = DiskStatMeasurements::new(devs);
    proof {
        assert(r@ =~= r.sd_utilization.deep_view());
    }
    Ok(r)
}

} // verus!
