//! The CUDA devices `nvidia-smi` reports: one CSV line per GPU with its
//! index, name, total and free memory (MiB) and compute capability.

use vstd::prelude::*;
use crate::env_types::{CudaDevice, CudaInfo};
use crate::text::{chars_of, string_of, trim_chars, trim_spec};
use crate::text_ops::{lines_spec, split_lines};
use crate::version::{
    digits_value, is_digit, lemma_digits_value_prefix_mono, parse_u32, parse_u32_spec, split_char,
    split_spec, unsigned_digits,
};

verus! {

/// Value of a non-empty digit string that fits in `u64`.
pub open spec fn digits_u64_spec(d: Seq<char>) -> Option<u64> {
    if d.len() > 0 && (forall|i: int| 0 <= i < d.len() ==> is_digit(#[trigger] d[i]))
        && digits_value(d) <= u64::MAX {
        Some(digits_value(d) as u64)
    } else {
        None
    }
}

/// What `str::parse::<u64>` accepts: an optional `+`, then one or more
/// decimal digits whose value fits in `u64`.
pub open spec fn parse_u64_spec(s: Seq<char>) -> Option<u64> {
    digits_u64_spec(unsigned_digits(s))
}

/// Parses a `u64` as `str::parse::<u64>` does.
pub fn parse_u64(s: &Vec<char>) -> (r: Option<u64>)
    ensures
        r == parse_u64_spec(s@),
{
    let start: usize = if s.len() > 0 && s[0] == '+' {
        1
    } else {
        0
    };
    let ghost d = unsigned_digits(s@);
    proof {
        assert(d =~= s@.subrange(start as int, s.len() as int));
    }
    if start >= s.len() {
        return None;
    }
    let mut value: u64 = 0;
    let mut i = start;
    while i < s.len()
        invariant
            start <= i <= s.len(),
            d == s@.subrange(start as int, s.len() as int),
            d == unsigned_digits(s@),
            forall|j: int| start <= j < i ==> is_digit(#[trigger] s@[j]),
            value as nat == digits_value(s@.subrange(start as int, i as int)),
        decreases s.len() - i,
    {
        let c = s[i];
        if !('0' <= c && c <= '9') {
            proof {
                assert(d[i - start] == c);
                assert(!is_digit(d[(i - start) as int]));
                assert(!(forall|j: int| 0 <= j < d.len() ==> is_digit(#[trigger] d[j])));
            }
            return None;
        }
        let dv = (c as u32 - '0' as u32) as u64;
        proof {
            assert(s@.subrange(start as int, i + 1).drop_last() =~= s@.subrange(
                start as int,
                i as int,
            ));
        }
        if value > (u64::MAX - dv) / 10 {
            proof {
                assert(value * 10 + dv > u64::MAX) by (nonlinear_arith)
                    requires
                        value > (u64::MAX - dv) / 10,
                        dv <= 9,
                ;
                let pre = s@.subrange(start as int, i + 1);
                assert(pre.last() == c);
                assert(digits_value(pre) == digits_value(pre.drop_last()) * 10 + dv);
                if forall|j: int| 0 <= j < d.len() ==> is_digit(#[trigger] d[j]) {
                    lemma_digits_value_prefix_mono(d, (i + 1 - start) as int);
                    assert(pre =~= d.take(i + 1 - start));
                    assert(digits_value(d) > u64::MAX);
                }
            }
            return None;
        }
        value = value * 10 + dv;
        i = i + 1;
    }
    proof {
        assert(s@.subrange(start as int, s.len() as int) =~= d);
        assert forall|j: int| 0 <= j < d.len() implies is_digit(#[trigger] d[j]) by {
            assert(d[j] == s@[start + j]);
        }
    }
    Some(value)
}

/// The trimmed comma-separated fields of a line.
pub open spec fn csv_fields(line: Seq<char>) -> Seq<Seq<char>> {
    split_spec(line, ',').map_values(|p: Seq<char>| trim_spec(p))
}

/// What a line reports, with memory in MiB: `None` for a line with fewer
/// than five fields or an index or memory figure that does not parse.
pub open spec fn cuda_line_spec(line: Seq<char>) -> Option<(u32, Seq<char>, u64, u64, Seq<char>)> {
    let f = csv_fields(line);
    if f.len() >= 5 {
        match (parse_u32_spec(f[0]), parse_u64_spec(f[2]), parse_u64_spec(f[3])) {
            (Some(id), Some(total), Some(free)) => Some((id, f[1], total, free, f[4])),
            _ => None,
        }
    } else {
        None
    }
}

/// Bytes in a MiB.
pub open spec fn mib() -> int {
    1048576
}

/// The memory figures of a line fit in bytes (the conversion would
/// overflow otherwise).
pub open spec fn cuda_line_fits(line: Seq<char>) -> bool {
    match cuda_line_spec(line) {
        Some((_, _, total, free, _)) => total * mib() <= u64::MAX && free * mib() <= u64::MAX,
        None => true,
    }
}

/// The device a line describes, memory in bytes.
pub open spec fn device_matches(d: CudaDevice, line: Seq<char>) -> bool {
    match cuda_line_spec(line) {
        Some((id, name, total, free, cap)) => {
            &&& d.id == id
            &&& d.name@ == name
            &&& d.memory_total == total * mib()
            &&& d.memory_free == free * mib()
            &&& d.compute_capability@ == cap
        },
        None => false,
    }
}

fn csv_fields_exec(line: &Vec<char>) -> (r: Vec<Vec<char>>)
    ensures
        r@.map_values(|p: Vec<char>| p@) == csv_fields(line@),
{
    let raw = split_char(line, ',');
    let ghost rv = raw@.map_values(|p: Vec<char>| p@);
    let mut out: Vec<Vec<char>> = Vec::new();
    let mut i: usize = 0;
    while i < raw.len()
        invariant
            i <= raw@.len(),
            rv == raw@.map_values(|p: Vec<char>| p@),
            rv == split_spec(line@, ','),
            out@.map_values(|p: Vec<char>| p@) == rv.take(i as int).map_values(
                |p: Seq<char>| trim_spec(p),
            ),
        decreases raw.len() - i,
    {
        let t = trim_chars(&raw[i]);
        let ghost before = out@.map_values(|p: Vec<char>| p@);
        out.push(t);
        proof {
            assert(out@.map_values(|p: Vec<char>| p@) =~= before.push(trim_spec(rv[i as int])));
            assert(rv.take(i + 1).map_values(|p: Seq<char>| trim_spec(p)) =~= rv.take(
                i as int,
            ).map_values(|p: Seq<char>| trim_spec(p)).push(trim_spec(rv[i as int])));
        }
        i = i + 1;
    }
    proof {
        assert(rv.take(raw@.len() as int) =~= rv);
    }
    out
}

/// Whether the memory figures of a line fit in bytes; a caller checks
/// this before [`parse_cuda_device_info`].
pub fn cuda_line_in_range(line: &str) -> (b: bool)
    ensures
        b == cuda_line_fits(line@),
{
    let v = chars_of(line);
    let f = csv_fields_exec(&v);
    let ghost fv = f@.map_values(|p: Vec<char>| p@);
    if f.len() < 5 {
        return true;
    }
    proof {
        assert(fv[0] == f@[0]@ && fv[2] == f@[2]@ && fv[3] == f@[3]@);
    }
    match (parse_u32(&f[0]), parse_u64(&f[2]), parse_u64(&f[3])) {
        (Some(_), Some(total), Some(free)) => total <= 17592186044415 && free <= 17592186044415,
        _ => true,
    }
}

/// The device one line of `nvidia-smi` output describes.
pub fn parse_cuda_device_info(line: &str) -> (r: Option<CudaDevice>)
    requires
        cuda_line_fits(line@),
    ensures
        match r {
            Some(d) => device_matches(d, line@),
            None => cuda_line_spec(line@) is None,
        },
{
    let v = chars_of(line);
    let f = csv_fields_exec(&v);
    let ghost fv = f@.map_values(|p: Vec<char>| p@);
    if f.len() < 5 {
        return None;
    }
    proof {
        assert(fv[0] == f@[0]@ && fv[1] == f@[1]@ && fv[2] == f@[2]@ && fv[3] == f@[3]@ && fv[4]
            == f@[4]@);
    }
    match (parse_u32(&f[0]), parse_u64(&f[2]), parse_u64(&f[3])) {
        (Some(id), Some(total), Some(free)) => Some(
            CudaDevice {
                id,
                name: string_of(&f[1]),
                memory_total: total * 1048576,
                memory_free: free * 1048576,
                compute_capability: string_of(&f[4]),
            },
        ),
        _ => None,
    }
}

/// Every line of an output passes [`cuda_line_fits`].
pub open spec fn cuda_output_fits(output: Seq<char>) -> bool {
    forall|i: int| 0 <= i < lines_spec(output).len() ==> cuda_line_fits(#[trigger] lines_spec(output)[i])
}

/// The devices of the lines that describe one, in order.
pub open spec fn devices_upto(lines: Seq<Seq<char>>, n: int) -> Seq<Seq<char>>
    decreases n,
{
    if n <= 0 {
        Seq::empty()
    } else {
        let p = devices_upto(lines, n - 1);
        if cuda_line_spec(lines[n - 1]) is Some {
            p.push(lines[n - 1])
        } else {
            p
        }
    }
}

/// Whether every line of an output passes [`cuda_line_fits`]; a caller
/// checks this before [`cuda_info_from_output`].
pub fn cuda_output_in_range(output: &str) -> (b: bool)
    ensures
        b == cuda_output_fits(output@),
{
    let v = chars_of(output);
    let lines = split_lines(&v);
    let ghost lv = lines@.map_values(|l: Vec<char>| l@);
    let mut i: usize = 0;
    while i < lines.len()
        invariant
            i <= lines@.len(),
            lv == lines@.map_values(|l: Vec<char>| l@),
            lv == lines_spec(output@),
            forall|j: int| 0 <= j < i ==> cuda_line_fits(#[trigger] lv[j]),
        decreases lines.len() - i,
    {
        let s = string_of(&lines[i]);
        if !cuda_line_in_range(s.as_str()) {
            proof {
                assert(lv[i as int] == s@);
            }
            return false;
        }
        i = i + 1;
    }
    true
}

/// What the CUDA probe found: the devices of the lines that describe one
/// (in order), available when there is at least one, and the driver
/// version as reported.
pub fn cuda_info_from_output(output: &str, version: Option<String>) -> (r: CudaInfo)
    requires
        cuda_output_fits(output@),
    ensures
        r.devices@.len() == devices_upto(lines_spec(output@), lines_spec(output@).len() as int).len(),
        forall|k: int|
            0 <= k < r.devices@.len() ==> device_matches(
                #[trigger] r.devices@[k],
                devices_upto(lines_spec(output@), lines_spec(output@).len() as int)[k],
            ),
        r.available == (r.devices@.len() > 0),
        r.version == version,
{
    let v = chars_of(output);
    let lines = split_lines(&v);
    let ghost lv = lines@.map_values(|l: Vec<char>| l@);
    let mut devices: Vec<CudaDevice> = Vec::new();
    let mut i: usize = 0;
    while i < lines.len()
        invariant
            i <= lines@.len(),
            lv == lines@.map_values(|l: Vec<char>| l@),
            lv == lines_spec(output@),
            cuda_output_fits(output@),
            devices@.len() == devices_upto(lv, i as int).len(),
            forall|k: int|
                0 <= k < devices@.len() ==> device_matches(
                    #[trigger] devices@[k],
                    devices_upto(lv, i as int)[k],
                ),
        decreases lines.len() - i,
    {
        let s = string_of(&lines[i]);
        proof {
            assert(lv[i as int] == s@);
            assert(cuda_line_fits(lv[i as int]));
        }
        let ghost before = devices@;
        match parse_cuda_device_info(s.as_str()) {
            Some(d) => {
                devices.push(d);
                proof {
                    assert forall|k: int| 0 <= k < devices@.len() implies device_matches(
                        #[trigger] devices@[k],
                        devices_upto(lv, i + 1)[k],
                    ) by {
                        if k < before.len() {
                            assert(devices@[k] == before[k]);
                        }
                    }
                }
            },
            None => {},
        }
        i = i + 1;
    }
    let available = devices.len() > 0;
    CudaInfo { available, version, devices }
}

} // verus!
