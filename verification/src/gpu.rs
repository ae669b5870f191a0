//! Reading GPU memory from the output of the vendor tools: the CSV line
//! `nvidia-smi` prints and the memory report of `rocm-smi`.

use vstd::prelude::*;

use crate::setup::{extract_bytes_from_line, first_big_number, parse_u64, parse_u64_range, GpuInfo, GpuVendor};
use crate::text::{
    chars_of, find_from, find_pattern, lemma_find_from, string_of_range, to_lowercase,
    lowercase, trim, trim_bounds,
};

verus! {

/// A line without the `\r` of a `\r\n` ending.
pub open spec fn strip_cr(l: Seq<char>) -> Seq<char> {
    if l.len() > 0 && l.last() == '\r' {
        l.drop_last()
    } else {
        l
    }
}

/// Splitting state after reading `s`: the finished lines and the line
/// being read.
pub open spec fn lines_state(s: Seq<char>) -> (Seq<Seq<char>>, Seq<char>)
    decreases s.len(),
{
    if s.len() == 0 {
        (Seq::empty(), Seq::empty())
    } else {
        let (ls, cur) = lines_state(s.drop_last());
        if s.last() == '\n' {
            (ls.push(strip_cr(cur)), Seq::empty())
        } else {
            (ls, cur.push(s.last()))
        }
    }
}

/// The lines of a text, as `str::lines` gives them: split at `\n`, a
/// `\r` just before it dropped, no empty line after a final `\n`.
pub open spec fn text_lines(s: Seq<char>) -> Seq<Seq<char>> {
    let (ls, cur) = lines_state(s);
    if cur.len() > 0 {
        ls.push(cur)
    } else {
        ls
    }
}

/// The lines of `s` (`str::lines`).
pub fn split_lines(s: &str) -> (r: Vec<String>)
    ensures
        r@.map_values(|l: String| l@) == text_lines(s@),
{
    let v = chars_of(s);
    let n = v.len();
    let mut r: Vec<String> = Vec::new();
    let mut start: usize = 0;
    let mut i: usize = 0;
    while i < n
        invariant
            n == v@.len(),
            v@ == s@,
            start <= i <= n,
            lines_state(v@.take(i as int)) == (
                r@.map_values(|l: String| l@),
                v@.subrange(start as int, i as int),
            ),
        decreases n - i,
    {
        assert(v@.take(i + 1).drop_last() == v@.take(i as int));
        assert(v@.take(i + 1).last() == v@[i as int]);
        if v[i] == '\n' {
            let end = if i > start && v[i - 1] == '\r' {
                i - 1
            } else {
                i
            };
            let line = string_of_range(s, start, end);
            let ghost before = r@.map_values(|l: String| l@);
            r.push(line);
            assert(r@.map_values(|l: String| l@) == before.push(line@));
            assert(strip_cr(v@.subrange(start as int, i as int)) == v@.subrange(
                start as int,
                end as int,
            ));
            start = i + 1;
            assert(v@.subrange(start as int, i + 1) == Seq::<char>::empty());
        } else {
            assert(v@.subrange(start as int, i + 1) == v@.subrange(start as int, i as int).push(
                v@[i as int],
            ));
        }
        i = i + 1;
    }
    assert(v@.take(n as int) == v@);
    if start < n {
        let line = string_of_range(s, start, n);
        let ghost before = r@.map_values(|l: String| l@);
        r.push(line);
        assert(r@.map_values(|l: String| l@) == before.push(line@));
    }
    r
}

/// The first two comma-separated fields of a line, each trimmed; `None`
/// when the line has no comma.
pub open spec fn first_two_fields(line: Seq<char>) -> Option<(Seq<char>, Seq<char>)> {
    match find_from(line, seq![','], 0) {
        None => None,
        Some(c) => {
            let rest = line.skip(c + 1);
            let second = match find_from(rest, seq![','], 0) {
                Some(k) => rest.take(k),
                None => rest,
            };
            Some((trim(line.take(c)), trim(second)))
        },
    }
}

/// What the first line of `nvidia-smi --query-gpu=memory.total,memory.free
/// --format=csv,noheader,nounits` tells: total and free VRAM in MB, when
/// both fields parse.
pub open spec fn nvidia_info(out: Seq<char>) -> Option<GpuInfo> {
    let lines = text_lines(out);
    if lines.len() == 0 {
        None
    } else {
        match first_two_fields(lines[0]) {
            None => None,
            Some((a, b)) => match (parse_u64(a), parse_u64(b)) {
                (Some(total), Some(free)) => Some(
                    GpuInfo { vendor: GpuVendor::Nvidia, vram_total_mb: total, vram_free_mb: free },
                ),
                _ => None,
            },
        }
    }
}

/// Reads the VRAM report of `nvidia-smi` (total and free MB, comma
/// separated, on the first line).
pub fn parse_nvidia_smi(out: &str) -> (r: Option<GpuInfo>)
    ensures
        r == nvidia_info(out@),
{
    let lines = split_lines(out);
    proof {
        assert(lines@.len() == text_lines(out@).len());
    }
    if lines.len() == 0 {
        return None;
    }
    let line = &lines[0];
    assert(line@ == text_lines(out@)[0]);
    let v = chars_of(line.as_str());
    let comma = chars_of(",");
    proof {
        reveal_strlit(",");
        assert(comma@ == seq![',']);
    }
    let c = match find_pattern(&v, &comma) {
        None => return None,
        Some(c) => c,
    };
    proof {
        lemma_find_from(v@, seq![','], 0);
    }
    let n = v.len();
    let rest = string_of_range(line.as_str(), c + 1, n);
    assert(rest@ == v@.skip(c + 1));
    let w = chars_of(rest.as_str());
    let e = match find_pattern(&w, &comma) {
        Some(k) => {
            proof {
                lemma_find_from(w@, seq![','], 0);
            }
            k
        },
        None => w.len(),
    };
    let (a0, a1) = trim_bounds(&v, 0, c);
    let (b0, b1) = trim_bounds(&w, 0, e);
    assert(v@.subrange(0, c as int) == v@.take(c as int));
    assert(w@.subrange(0, e as int) == (match find_from(w@, seq![','], 0) {
        Some(k) => w@.take(k),
        None => w@,
    }));
    let total = parse_u64_range(&v, a0, a1);
    let free = parse_u64_range(&w, b0, b1);
    match (total, free) {
        (Some(t), Some(f)) => Some(
            GpuInfo { vendor: GpuVendor::Nvidia, vram_total_mb: t, vram_free_mb: f },
        ),
        _ => None,
    }
}

/// Bytes in a mebibyte.
pub const MIB: u64 = 1_048_576;

/// Whether `pat` occurs in `s`.
pub open spec fn contains(s: Seq<char>, pat: Seq<char>) -> bool {
    find_from(s, pat, 0) is Some
}

/// The (total, used) VRAM in MB after one line of the `rocm-smi` memory
/// report, given the line lower-cased: a line mentioning "total" with a
/// byte count sets the total; otherwise one mentioning "used" with a byte
/// count sets the used amount.
pub open spec fn meminfo_step(totals: (u64, u64), line: Seq<char>, lower: Seq<char>) -> (u64, u64) {
    if contains(lower, "total"@) && first_big_number(line, 0) is Some {
        ((first_big_number(line, 0)->0 / MIB) as u64, totals.1)
    } else if contains(lower, "used"@) && first_big_number(line, 0) is Some {
        (totals.0, (first_big_number(line, 0)->0 / MIB) as u64)
    } else {
        totals
    }
}

/// The (total, used) VRAM in MB a `rocm-smi` memory report gives, line by
/// line (lines lower-cased by `lowercase`).
pub open spec fn meminfo_totals(lines: Seq<Seq<char>>) -> (u64, u64)
    decreases lines.len(),
{
    if lines.len() == 0 {
        (0, 0)
    } else {
        meminfo_step(meminfo_totals(lines.drop_last()), lines.last(), lowercase(lines.last()))
    }
}

/// Whether `pat` occurs in `s`.
fn str_contains(s: &str, pat: &str) -> (r: bool)
    requires
        pat@.len() > 0,
    ensures
        r == contains(s@, pat@),
{
    let v = chars_of(s);
    let p = chars_of(pat);
    find_pattern(&v, &p).is_some()
}

/// One line of the `rocm-smi` memory report applied to the (total, used)
/// VRAM in MB read so far; `lower` is the line lower-cased.
pub fn meminfo_line_update(totals: (u64, u64), line: &str, lower: &str) -> (r: (u64, u64))
    ensures
        r == meminfo_step(totals, line@, lower@),
{
    proof {
        reveal_strlit("total");
        reveal_strlit("used");
    }
    if str_contains(lower, "total") {
        match extract_bytes_from_line(line) {
            Some(b) => return (b / MIB, totals.1),
            None => {},
        }
    }
    if str_contains(lower, "used") {
        match extract_bytes_from_line(line) {
            Some(b) => return (totals.0, b / MIB),
            None => {},
        }
    }
    totals
}

/// Reads the (total, used) VRAM in MB from the output of
/// `rocm-smi --showmeminfo vram`.
pub fn parse_rocm_meminfo(out: &str) -> (r: (u64, u64))
    ensures
        r == meminfo_totals(text_lines(out@)),
{
    let lines = split_lines(out);
    let ghost ls = text_lines(out@);
    let mut totals: (u64, u64) = (0, 0);
    let mut i: usize = 0;
    while i < lines.len()
        invariant
            lines@.map_values(|l: String| l@) == ls,
            i <= lines@.len(),
            totals == meminfo_totals(ls.take(i as int)),
        decreases lines@.len() - i,
    {
        assert(ls.take(i + 1).drop_last() == ls.take(i as int));
        assert(ls.take(i + 1).last() == lines@[i as int]@);
        let lower = to_lowercase(lines[i].as_str());
        totals = meminfo_line_update(totals, lines[i].as_str(), lower.as_str());
        i = i + 1;
    }
    assert(ls.take(lines@.len() as int) == ls);
    totals
}

/// What the AMD report gives: the total and the free VRAM (total less used,
/// not below 0); when no total was read, an AMD GPU of unknown VRAM if
/// ROCm is installed, else none.
pub open spec fn amd_info(total_mb: u64, used_mb: u64, rocm_installed: bool) -> Option<GpuInfo> {
    if total_mb == 0 {
        if rocm_installed {
            Some(GpuInfo { vendor: GpuVendor::Amd, vram_total_mb: 0, vram_free_mb: 0 })
        } else {
            None
        }
    } else {
        Some(
            GpuInfo {
                vendor: GpuVendor::Amd,
                vram_total_mb: total_mb,
                vram_free_mb: if used_mb <= total_mb {
                    (total_mb - used_mb) as u64
                } else {
                    0
                },
            },
        )
    }
}

/// The AMD GPU described by a `rocm-smi` report's totals.
pub fn amd_gpu_info(total_mb: u64, used_mb: u64, rocm_installed: bool) -> (r: Option<GpuInfo>)
    ensures
        r == amd_info(total_mb, used_mb, rocm_installed),
{
    if total_mb == 0 {
        if rocm_installed {
            Some(GpuInfo { vendor: GpuVendor::Amd, vram_total_mb: 0, vram_free_mb: 0 })
        } else {
            None
        }
    } else {
        Some(
            GpuInfo {
                vendor: GpuVendor::Amd,
                vram_total_mb: total_mb,
                vram_free_mb: total_mb.saturating_sub(used_mb),
            },
        )
    }
}

/// The hardware found: the NVIDIA GPU if one was read, else the AMD one,
/// else CPU only.
pub fn detected_gpu(nvidia: Option<GpuInfo>, amd: Option<GpuInfo>) -> (r: GpuInfo)
    ensures
        r == (match nvidia {
            Some(g) => g,
            None => match amd {
                Some(g) => g,
                None => GpuInfo { vendor: GpuVendor::CpuOnly, vram_total_mb: 0, vram_free_mb: 0 },
            },
        }),
{
    match nvidia {
        Some(g) => g,
        None => match amd {
            Some(g) => g,
            None => GpuInfo { vendor: GpuVendor::CpuOnly, vram_total_mb: 0, vram_free_mb: 0 },
        },
    }
}

} // verus!
