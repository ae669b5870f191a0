//! Model selection for the local inference server: GPU description,
//! reading VRAM figures from tool output, and picking a model that fits.

use vstd::prelude::*;

use crate::fmt::{decimal, u64_to_string};
use crate::text::{chars_of, is_whitespace, is_ws, owned};

verus! {

/// GPU vendor detected on the system.
#[derive(Debug, Clone, Copy, PartialEq, Eq, Structural)]
pub enum GpuVendor {
    /// NVIDIA GPU (CUDA).
    Nvidia,
    /// AMD GPU (ROCm).
    Amd,
    /// No discrete GPU detected; CPU-only inference.
    CpuOnly,
}

/// How a vendor is displayed.
pub open spec fn vendor_text(v: GpuVendor) -> Seq<char> {
    match v {
        GpuVendor::Nvidia => "NVIDIA (CUDA)"@,
        GpuVendor::Amd => "AMD (ROCm)"@,
        GpuVendor::CpuOnly => "CPU-only"@,
    }
}

impl GpuVendor {
    /// The display text: "NVIDIA (CUDA)", "AMD (ROCm)" or "CPU-only".
    pub fn to_string(&self) -> (r: String)
        ensures
            r@ == vendor_text(*self),
    {
        match self {
            GpuVendor::Nvidia => owned("NVIDIA (CUDA)"),
            GpuVendor::Amd => owned("AMD (ROCm)"),
            GpuVendor::CpuOnly => owned("CPU-only"),
        }
    }
}

/// Information about the detected GPU hardware.
#[derive(Debug, Clone, Copy)]
pub struct GpuInfo {
    /// The GPU vendor/type.
    pub vendor: GpuVendor,
    /// Total VRAM in megabytes (0 for CPU-only).
    pub vram_total_mb: u64,
    /// Free VRAM in megabytes (0 for CPU-only or unknown).
    pub vram_free_mb: u64,
}

/// How GPU information is displayed.
pub open spec fn gpu_info_text(g: GpuInfo) -> Seq<char> {
    match g.vendor {
        GpuVendor::CpuOnly => "CPU-only (no discrete GPU detected)"@,
        _ => vendor_text(g.vendor) + " — "@ + decimal(g.vram_total_mb as nat) + "MB VRAM total, ~"@
            + decimal(g.vram_free_mb as nat) + "MB free"@,
    }
}

impl GpuInfo {
    /// The display text, e.g. "AMD (ROCm) — 16384MB VRAM total, ~14000MB free".
    pub fn to_string(&self) -> (r: String)
        ensures
            r@ == gpu_info_text(*self),
    {
        match self.vendor {
            GpuVendor::CpuOnly => owned("CPU-only (no discrete GPU detected)"),
            _ => {
                let mut s = self.vendor.to_string();
                s.append(" — ");
                let t = u64_to_string(self.vram_total_mb);
                s.append(t.as_str());
                s.append("MB VRAM total, ~");
                let f = u64_to_string(self.vram_free_mb);
                s.append(f.as_str());
                s.append("MB free");
                s
            },
        }
    }
}

/// Configuration for a selected model.
#[derive(Debug, Clone)]
pub struct ModelConfig {
    /// The model tag (e.g. "qwen3:14b").
    pub model_name: String,
    /// Human-readable tier label.
    pub tier_label: String,
    /// Approximate VRAM required in MB when loaded.
    pub vram_required_mb: u64,
}

impl ModelConfig {
    /// The display text: "name (label, ~NMB VRAM)".
    pub fn to_string(&self) -> (r: String)
        ensures
            r@ == self.model_name@ + " ("@ + self.tier_label@ + ", ~"@ + decimal(
                self.vram_required_mb as nat,
            ) + "MB VRAM)"@,
    {
        let mut s = self.model_name.clone();
        s.append(" (");
        s.append(self.tier_label.as_str());
        s.append(", ~");
        let v = u64_to_string(self.vram_required_mb);
        s.append(v.as_str());
        s.append("MB VRAM)");
        s
    }
}

/// The model chosen for an amount of usable VRAM:
/// (model, tier label, VRAM it needs).
pub open spec fn model_for_vram(vram_mb: int) -> (Seq<char>, Seq<char>, u64) {
    if vram_mb >= 12_000 {
        ("qwen3:14b"@, "Tier 1 — Full quality"@, 10_000)
    } else if vram_mb >= 6_000 {
        ("qwen3:8b"@, "Tier 2 — Good quality"@, 5_500)
    } else if vram_mb >= 3_000 {
        ("qwen3:3b"@, "Tier 3 — Reduced quality"@, 2_500)
    } else {
        ("qwen3:1.5b"@, "Tier 4 — Minimal (CPU-viable)"@, 1_200)
    }
}

/// Selects a model by usable VRAM: 12 GB or more for the 14b model, 6 GB
/// for 8b, 3 GB for 3b, else 1.5b.
pub fn select_model_for_vram(vram_mb: u64) -> (r: ModelConfig)
    ensures
        (r.model_name@, r.tier_label@, r.vram_required_mb) == model_for_vram(vram_mb as int),
{
    if vram_mb >= 12_000 {
        ModelConfig {
            model_name: owned("qwen3:14b"),
            tier_label: owned("Tier 1 — Full quality"),
            vram_required_mb: 10_000,
        }
    } else if vram_mb >= 6_000 {
        ModelConfig {
            model_name: owned("qwen3:8b"),
            tier_label: owned("Tier 2 — Good quality"),
            vram_required_mb: 5_500,
        }
    } else if vram_mb >= 3_000 {
        ModelConfig {
            model_name: owned("qwen3:3b"),
            tier_label: owned("Tier 3 — Reduced quality"),
            vram_required_mb: 2_500,
        }
    } else {
        ModelConfig {
            model_name: owned("qwen3:1.5b"),
            tier_label: owned("Tier 4 — Minimal (CPU-viable)"),
            vram_required_mb: 1_200,
        }
    }
}

/// Law: more usable VRAM never selects a model that needs less, and from
/// 1.2 GB on the chosen model fits in the VRAM it was chosen for.
pub proof fn law_model_selection_monotone(v1: int, v2: int)
    requires
        v1 <= v2,
    ensures
        model_for_vram(v1).2 <= model_for_vram(v2).2,
        v1 >= 1_200 ==> model_for_vram(v1).2 <= v1,
{
}

/// The VRAM a model may use: none on CPU, else the free VRAM when known,
/// else 80% of the total when known, else an assumed 8 GB.
pub open spec fn effective_vram(g: GpuInfo) -> int {
    match g.vendor {
        GpuVendor::CpuOnly => 0,
        _ => if g.vram_free_mb > 0 {
            g.vram_free_mb as int
        } else if g.vram_total_mb > 0 {
            (g.vram_total_mb * 80) / 100
        } else {
            8192
        },
    }
}

/// Selects the best model for the detected hardware.
pub fn select_model(gpu_info: &GpuInfo) -> (r: ModelConfig)
    requires
        gpu_info.vendor != GpuVendor::CpuOnly && gpu_info.vram_free_mb == 0 ==> gpu_info.vram_total_mb
            * 80 <= u64::MAX,
    ensures
        (r.model_name@, r.tier_label@, r.vram_required_mb) == model_for_vram(
            effective_vram(*gpu_info),
        ),
{
    let effective_vram: u64 = match gpu_info.vendor {
        GpuVendor::CpuOnly => 0,
        _ => {
            if gpu_info.vram_free_mb > 0 {
                gpu_info.vram_free_mb
            } else if gpu_info.vram_total_mb > 0 {
                gpu_info.vram_total_mb * 80 / 100
            } else {
                8192
            }
        },
    };
    select_model_for_vram(effective_vram)
}

/// Whether `c` is an ASCII digit.
pub open spec fn is_digit(c: char) -> bool {
    '0' <= c && c <= '9'
}

/// Whether every character is an ASCII digit.
pub open spec fn all_digits(s: Seq<char>) -> bool {
    forall|i: int| 0 <= i < s.len() ==> is_digit(#[trigger] s[i])
}

/// The value of a string of decimal digits.
pub open spec fn digits_value(s: Seq<char>) -> nat
    decreases s.len(),
{
    if s.len() == 0 {
        0
    } else {
        digits_value(s.drop_last()) * 10 + ((s.last() as u32) - ('0' as u32)) as nat
    }
}

/// What `str::parse::<u64>` gives: an optional `+` then one or more
/// digits, with a value that fits.
pub open spec fn parse_u64(s: Seq<char>) -> Option<u64> {
    let body = if s.len() > 0 && s[0] == '+' {
        s.drop_first()
    } else {
        s
    };
    if body.len() > 0 && all_digits(body) && digits_value(body) <= u64::MAX {
        Some(digits_value(body) as u64)
    } else {
        None
    }
}

/// Parses `v[from..to]` as a `u64` (see `parse_u64`).
pub fn parse_u64_range(v: &Vec<char>, from: usize, to: usize) -> (r: Option<u64>)
    requires
        from <= to <= v@.len(),
    ensures
        r == parse_u64(v@.subrange(from as int, to as int)),
{
    let ghost s = v@.subrange(from as int, to as int);
    let start = if from < to && v[from] == '+' {
        from + 1
    } else {
        from
    };
    let ghost body = v@.subrange(start as int, to as int);
    assert(body == (if s.len() > 0 && s[0] == '+' {
        s.drop_first()
    } else {
        s
    }));
    if start == to {
        return None;
    }
    let mut i = start;
    let mut acc: u64 = 0;
    let mut overflow = false;
    while i < to
        invariant
            start <= i <= to <= v@.len(),
            body == v@.subrange(start as int, to as int),
            s == v@.subrange(from as int, to as int),
            body == (if s.len() > 0 && s[0] == '+' {
                s.drop_first()
            } else {
                s
            }),
            all_digits(v@.subrange(start as int, i as int)),
            !overflow ==> acc == digits_value(v@.subrange(start as int, i as int)),
            overflow ==> digits_value(v@.subrange(start as int, i as int)) > u64::MAX,
        decreases to - i,
    {
        let c = v[i];
        if !('0' <= c && c <= '9') {
            assert(body[i - start] == c);
            assert(!is_digit(body[i - start]));
            assert(!all_digits(body));
            assert(parse_u64(s) is None);
            return None;
        }
        let ghost prev = v@.subrange(start as int, i as int);
        let ghost next = v@.subrange(start as int, i + 1);
        assert(next.drop_last() == prev);
        assert(next.last() == c);
        let d = (c as u32 - '0' as u32) as u64;
        if !overflow {
            match acc.checked_mul(10) {
                Some(m) => match m.checked_add(d) {
                    Some(a) => {
                        acc = a;
                    },
                    None => {
                        overflow = true;
                    },
                },
                None => {
                    overflow = true;
                    assert(digits_value(next) >= digits_value(prev) * 10) by (nonlinear_arith)
                        requires
                            digits_value(next) == digits_value(prev) * 10 + ((c as u32) - ('0' as u32)) as nat,
                    ;
                },
            }
        } else {
            assert(digits_value(next) >= digits_value(prev) * 10) by (nonlinear_arith)
                requires
                    digits_value(next) == digits_value(prev) * 10 + ((c as u32) - ('0' as u32)) as nat,
            ;
        }
        proof {
            assert forall|k: int| 0 <= k < next.len() implies is_digit(#[trigger] next[k]) by {
                if k < prev.len() {
                    assert(next[k] == prev[k]);
                }
            }
        }
        i = i + 1;
    }
    if overflow {
        None
    } else {
        Some(acc)
    }
}

/// Index of the first white space at or after `i` (or the end).
pub open spec fn token_end(s: Seq<char>, i: int) -> int
    decreases s.len() - i,
{
    if i >= s.len() || is_ws(s[i]) {
        i
    } else {
        token_end(s, i + 1)
    }
}

/// `token_end` lies between `i` and the end.
pub proof fn lemma_token_end(s: Seq<char>, i: int)
    requires
        0 <= i <= s.len(),
    ensures
        i <= token_end(s, i) <= s.len(),
        i < s.len() && !is_ws(s[i]) ==> token_end(s, i) > i,
    decreases s.len() - i,
{
    if i < s.len() && !is_ws(s[i]) {
        lemma_token_end(s, i + 1);
    }
}

/// The first white-space separated token from `i` on that parses as a
/// `u64` above 1,000,000.
pub open spec fn first_big_number(s: Seq<char>, i: int) -> Option<u64>
    decreases s.len() - i,
{
    if i < 0 || i >= s.len() {
        None
    } else if is_ws(s[i]) {
        first_big_number(s, i + 1)
    } else {
        let e = token_end(s, i);
        match parse_u64(s.subrange(i, e)) {
            Some(n) if n > 1_000_000 => Some(n),
            _ => {
                proof {
                    lemma_token_end(s, i);
                }
                first_big_number(s, e)
            },
        }
    }
}

/// Extracts the first byte count from a line of tool output: the first
/// white-space separated token that parses as a number above 1,000,000.
pub fn extract_bytes_from_line(line: &str) -> (r: Option<u64>)
    ensures
        r == first_big_number(line@, 0),
{
    let v = chars_of(line);
    let n = v.len();
    let mut i: usize = 0;
    while i < n
        invariant
            n == v@.len(),
            v@ == line@,
            i <= n,
            first_big_number(line@, 0) == first_big_number(line@, i as int),
        decreases n - i,
    {
        if is_whitespace(v[i]) {
            i = i + 1;
        } else {
            let mut e = i;
            while e < n && !is_whitespace(v[e])
                invariant
                    i <= e <= n,
                    n == v@.len(),
                    token_end(v@, i as int) == token_end(v@, e as int),
                decreases n - e,
            {
                e = e + 1;
            }
            match parse_u64_range(&v, i, e) {
                Some(x) => {
                    if x > 1_000_000 {
                        return Some(x);
                    }
                },
                None => {},
            }
            i = e;
        }
    }
    None
}

/// Whether a model is among the names the server reports, allowing an
/// implicit `:latest` tag on either side.
pub open spec fn model_listed(names: Seq<Seq<char>>, model: Seq<char>) -> bool {
    exists|i: int|
        0 <= i < names.len() && (names[i] == model || names[i] == model + ":latest"@ || model
            == names[i] + ":latest"@)
}

/// Whether `model_name` is among the model names the server listed.
pub fn is_model_listed(names: &Vec<String>, model_name: &str) -> (r: bool)
    ensures
        r == model_listed(names@.map_values(|s: String| s@), model_name@),
{
    let ghost ns = names@.map_values(|s: String| s@);
    let mut with_latest = owned(model_name);
    with_latest.append(":latest");
    let model = owned(model_name);
    let mut i: usize = 0;
    while i < names.len()
        invariant
            i <= names@.len(),
            ns == names@.map_values(|s: String| s@),
            model@ == model_name@,
            with_latest@ == model_name@ + ":latest"@,
            forall|j: int|
                0 <= j < i ==> !(ns[j] == model_name@ || ns[j] == model_name@ + ":latest"@
                    || model_name@ == ns[j] + ":latest"@),
        decreases names@.len() - i,
    {
        let mut name_latest = names[i].clone();
        name_latest.append(":latest");
        if names[i] == model || names[i] == with_latest || model == name_latest {
            assert(ns[i as int] == names@[i as int]@);
            return true;
        }
        assert(ns[i as int] == names@[i as int]@);
        i = i + 1;
    }
    false
}

} // verus!
