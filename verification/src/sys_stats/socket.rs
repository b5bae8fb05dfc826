//! Socket counts, read from the kernel's socket statistics lines.
//!
//! Each protocol line starts with its name and carries the in-use count
//! as the third space-separated field, as in
//! `TCP: inuse 8 orphan 0 tw 0 alloc 8 mem 4`.

use vstd::prelude::*;
use vstd::string::*;

verus! {

use crate::Category;
use crate::Measurements;
use crate::ParseError;
use crate::text::contains_seq;
use crate::text::dec_str;
use crate::text::is_number;
use crate::text::u64_to_string;
use crate::text::number_val;
use crate::text::split_fields;
use crate::text::parse_u64;
use crate::text::split_whitespace_fields;
use crate::text::str_contains;

/// Sockets in use per protocol.
#[derive(Clone, Debug)]
pub struct SocketStatMeasurements {
    pub tcp_inuse: usize,
    pub udp_inuse: usize,
    pub udp_lite_inuse: usize,
}

impl SocketStatMeasurements {
    pub fn new(tcp_inuse: usize, udp_inuse: usize, udp_lite_inuse: usize) -> (r: Self)
        ensures
            r == (SocketStatMeasurements { tcp_inuse, udp_inuse, udp_lite_inuse }),
    {
        Self { tcp_inuse, udp_inuse, udp_lite_inuse }
    }

    pub fn tcp_inuse(&self) -> (v: usize)
        ensures
            v == self.tcp_inuse,
    {
        self.tcp_inuse
    }

    pub fn udp_inuse(&self) -> (v: usize)
        ensures
            v == self.udp_inuse,
    {
        self.udp_inuse
    }

    pub fn udp_lite_inuse(&self) -> (v: usize)
        ensures
            v == self.udp_lite_inuse,
    {
        self.udp_lite_inuse
    }
}

impl Default for SocketStatMeasurements {
    /// The empty record shown before the first snapshot arrives.
    fn default() -> (r: Self)
        ensures
            r == (SocketStatMeasurements { tcp_inuse: 0, udp_inuse: 0, udp_lite_inuse: 0 }),
    {
        Self { tcp_inuse: 0, udp_inuse: 0, udp_lite_inuse: 0 }
    }
}

/// The socket panel's text.
pub open spec fn spec_socket_text(m: SocketStatMeasurements) -> Seq<char> {
    "TCP: \t\t"@ + dec_str(m.tcp_inuse as nat) + " \nUDP: \t\t"@ + dec_str(m.udp_inuse as nat)
        + " \nUPD lite: \t"@ + dec_str(m.udp_lite_inuse as nat)
}

impl Measurements for SocketStatMeasurements {
    open spec fn spec_category(&self) -> Category {
        Category::Socket
    }

    fn category(&self) -> (c: Category) {
        Category::Socket
    }

    fn info_text(&self) -> (s: String)
        ensures
            s@ == spec_socket_text(*self),
    {
        let mut s = String::from_str("TCP: \t\t");
        s.append(u64_to_string(self.tcp_inuse as u64).as_str());
        s.append(" \nUDP: \t\t");
        s.append(u64_to_string(self.udp_inuse as u64).as_str());
        s.append(" \nUPD lite: \t");
        s.append(u64_to_string(self.udp_lite_inuse as u64).as_str());
        proof {
            assert(s@ =~= spec_socket_text(*self));
        }
        s
    }
}

/// What extracting the in-use count from one socket line yields: the
/// third field read as a number that fits in a `usize`.
pub open spec fn spec_extract_socket_stat(line: Seq<char>) -> Result<usize, ParseError> {
    let fs = split_fields(line);
    if fs.len() < 3 {
        Err(ParseError::MissingField)
    } else if !is_number(fs[2]) {
        Err(ParseError::NotNumeric)
    } else if number_val(fs[2]) > usize::MAX {
        Err(ParseError::Overflow)
    } else {
        Ok(number_val(fs[2]) as usize)
    }
}

/// The in-use count of one socket line: its third field.
pub fn extract_socket_stat(line: &str) -> (r: Result<usize, ParseError>)
    ensures
        r == spec_extract_socket_stat(line@),
{
    let fields = split_whitespace_fields(line);
    if fields.len() < 3 {
        return Err(ParseError::MissingField);
    }
    proof {
        assert(fields[2int]@ == fields.deep_view()[2]);
    }
    match parse_u64(fields[2].as_str()) {
        Err(e) => Err(e),
        Ok(v) => {
            if v > usize::MAX as u64 {
                Err(ParseError::Overflow)
            } else {
                Ok(v as usize)
            }
        },
    }
}

/// How one line updates the running socket record: each protocol key is
/// tested on its own, and a matching line must parse.
pub open spec fn spec_socket_update(s: SocketStatMeasurements, line: Seq<char>) -> Result<
    SocketStatMeasurements,
    ParseError,
> {
    let after_tcp = if contains_seq(line, "TCP: inuse"@) {
        match spec_extract_socket_stat(line) {
            Ok(v) => Ok(SocketStatMeasurements { tcp_inuse: v, ..s }),
            Err(e) => Err(e),
        }
    } else {
        Ok(s)
    };
    match after_tcp {
        Err(e) => Err(e),
        Ok(s1) => {
            let after_udp = if contains_seq(line, "UDP: inuse"@) {
                match spec_extract_socket_stat(line) {
                    Ok(v) => Ok(SocketStatMeasurements { udp_inuse: v, ..s1 }),
                    Err(e) => Err(e),
                }
            } else {
                Ok(s1)
            };
            match after_udp {
                Err(e) => Err(e),
                Ok(s2) => {
                    if contains_seq(line, "UDPLITE: inuse"@) {
                        match spec_extract_socket_stat(line) {
                            Ok(v) => Ok(SocketStatMeasurements { udp_lite_inuse: v, ..s2 }),
                            Err(e) => Err(e),
                        }
                    } else {
                        Ok(s2)
                    }
                },
            }
        },
    }
}

/// Folding `spec_socket_update` over all lines, stopping at the first
/// failing line.
pub open spec fn spec_socket_from_lines(lines: Seq<Seq<char>>, s: SocketStatMeasurements) -> Result<
    SocketStatMeasurements,
    ParseError,
> decreases lines.len(),
{
    if lines.len() == 0 {
        Ok(s)
    } else {
        match spec_socket_update(s, lines[0]) {
            Ok(s2) => spec_socket_from_lines(lines.drop_first(), s2),
            Err(e) => Err(e),
        }
    }
}

/// Builds the socket record from the source's lines, starting from the
/// empty record; the last line holding a protocol key decides its count.
pub fn socket_stats_from_lines(lines: &Vec<String>) -> (r: Result<
    SocketStatMeasurements,
    ParseError,
>)
    ensures
        r == spec_socket_from_lines(
            lines.deep_view(),
            (SocketStatMeasurements { tcp_inuse: 0, udp_inuse: 0, udp_lite_inuse: 0 }),
        ),
{
    let ghost all = lines.deep_view();
    let ghost s0 = SocketStatMeasurements { tcp_inuse: 0, udp_inuse: 0, udp_lite_inuse: 0 };
    let mut s = SocketStatMeasurements::new(0, 0, 0);
    let mut i: usize = 0;
    proof {
        assert(all.skip(0) =~= all);
    }
    while i < lines.len()
        invariant
            i <= lines.len(),
            all == lines.deep_view(),
            s0 == (SocketStatMeasurements { tcp_inuse: 0, udp_inuse: 0, udp_lite_inuse: 0 }),
            spec_socket_from_lines(all, s0) == spec_socket_from_lines(all.skip(i as int), s),
        decreases lines.len() - i,
    {
        proof {
            assert(all.skip(i as int)[0] == lines[i as int]@);
            assert(all.skip(i as int).drop_first() =~= all.skip(i + 1));
        }
        let line = lines[i].as_str();
        if str_contains(line, "TCP: inuse") {
            match extract_socket_stat(line) {
                Ok(v) => {
                    s.tcp_inuse = v;
                },
                Err(e) => {
                    return Err(e);
                },
            }
        }
        if str_contains(line, "UDP: inuse") {
            match extract_socket_stat(line) {
                Ok(v) => {
                    s.udp_inuse = v;
                },
                Err(e) => {
                    return Err(e);
                },
            }
        }
        if str_contains(line, "UDPLITE: inuse") {
            match extract_socket_stat(line) {
                Ok(v) => {
                    s.udp_lite_inuse = v;
                },
                Err(e) => {
                    return Err(e);
                },
            }
        }
        i += 1;
    }
    proof {
        assert(all.skip(lines.len() as int) =~= Seq::<Seq<char>>::empty());
    }
    Ok(s)
}

} // verus!
