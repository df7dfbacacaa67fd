//! Metric readings and the text that the status surfaces show.
use vstd::prelude::*;
use vstd::arithmetic::power2::*;
use crate::config::AppConfig;
use crate::float_bits::{
    F32Bits, f32_clamped, f32_ge, f32_whole_text, pow2_u32, round_half_even, round_half_even_div,
};
use crate::gpu::GpuInfo;
use crate::text::{
    chars_of, decimal, digit_char, digit_to_char, join, join_words, push_char,
    push_decimal, push_str, replace_all, replace_chars, split_words, string_of, trim, trim_chars,
    views, words,
};

verus! {

/// How many low bits of `x` a binary64 number cannot hold, counting from
/// `k`: the least `j >= k` with `x < 2^(53 + j)`.
pub open spec fn f64_dropped_bits_from(x: nat, k: nat) -> nat
    decreases 128 - k,
{
    if k >= 128 || x < pow2(53 + k) {
        k
    } else {
        f64_dropped_bits_from(x, k + 1)
    }
}

/// The binary64 number nearest to `x` (halves to an even significand):
/// `x` rounded to a multiple of `2^k`, where `k` is the number of low bits
/// beyond 53 significant ones.
pub open spec fn f64_nearest(x: nat) -> nat {
    let k = f64_dropped_bits_from(x, 0);
    round_half_even_div(x, pow2(k)) * pow2(k)
}

/// 2^30 bytes.
pub const GIB: u128 = 0x4000_0000;

/// 2^20 bytes.
pub const MIB: u128 = 0x10_0000;

/// A byte count as the status surfaces show it: with one decimal in GB when
/// at least 1 GiB, otherwise as whole MB. The count is first taken to the
/// nearest binary64 number, and the quotient is rounded halves to even.
pub open spec fn spec_format_bytes(bytes: u64) -> Seq<char> {
    let r = f64_nearest(bytes as nat);
    if r >= GIB {
        let tenths = round_half_even_div(r * 10, GIB as nat);
        decimal(tenths / 10) + seq!['.', digit_char((tenths % 10) as int)] + " GB"@
    } else {
        decimal(round_half_even_div(r, MIB as nat)) + " MB"@
    }
}

/// `x` taken to the nearest binary64 number (see `f64_nearest`).
fn nearest_f64(x: u64) -> (r: u128)
    ensures
        r as nat == f64_nearest(x as nat),
        r <= x as nat + 0x800,
{
    let mut k: u32 = 0;
    let mut limit: u128 = 0x20_0000_0000_0000;
    proof {
        lemma2_to64();
        lemma_pow2_adds(32, 21);
    }
    assert(pow2(21) == 0x20_0000) by { lemma2_to64(); }
    assert(limit == pow2(53 + k as nat));
    while x as u128 >= limit
        invariant
            k <= 11,
            limit as nat == pow2((53 + k) as nat),
            f64_dropped_bits_from(x as nat, 0) == f64_dropped_bits_from(x as nat, k as nat),
        decreases 11 - k,
    {
        proof {
            lemma2_to64();
            if 53 + k >= 64 {
                if 53 + k > 64 {
                    lemma_pow2_strictly_increases(64, (53 + k) as nat);
                }
                assert(false);
            }
            lemma_pow2_unfold((54 + k) as nat);
        }
        limit = limit * 2;
        k = k + 1;
    }
    assert(f64_dropped_bits_from(x as nat, k as nat) == k);
    let p = pow2_u32(k) as u128;
    proof {
        lemma2_to64();
        if k < 11 {
            lemma_pow2_strictly_increases(k as nat, 11);
        }
        lemma_pow2_pos(k as nat);
    }
    let q = round_half_even(x as u128, p);
    assert(q * p <= x as nat + p) by (nonlinear_arith)
        requires
            q == round_half_even_div(x as nat, p as nat),
            p > 0,
    {
        let qq = x as nat / p as nat;
        let rr = x as nat % p as nat;
        assert(x as nat == qq * p + rr);
        assert(q <= qq + 1);
        assert(q * p <= qq * p + p);
    }
    q * p
}

/// The text of a byte count (see `spec_format_bytes`).
pub fn format_bytes(bytes: u64) -> (s: String)
    ensures
        s@ == spec_format_bytes(bytes),
{
    let r = nearest_f64(bytes);
    let mut s = String::new();
    if r >= GIB {
        let tenths = round_half_even(r * 10, GIB);
        push_decimal(&mut s, tenths / 10);
        push_char(&mut s, '.');
        push_char(&mut s, digit_to_char((tenths % 10) as u8));
        push_str(&mut s, " GB");
    } else {
        let mib = round_half_even(r, MIB);
        push_decimal(&mut s, mib);
        push_str(&mut s, " MB");
    }
    s
}

/// `name` without the vendor words `NVIDIA`, `GeForce`, `Laptop GPU` and
/// `GPU`, removed in that order.
pub open spec fn gpu_name_without_vendor_words(name: Seq<char>) -> Seq<char> {
    replace_all(
        replace_all(
            replace_all(replace_all(name, "NVIDIA"@, seq![]), "GeForce"@, seq![]),
            "Laptop GPU"@,
            seq![],
        ),
        "GPU"@,
        seq![],
    )
}

/// Whether `w` looks like a model number: at least three characters, one of
/// them an ASCII digit.
pub open spec fn model_like(w: Seq<char>) -> bool {
    &&& w.len() >= 3
    &&& exists|i: int| 0 <= i < w.len() && '0' <= #[trigger] w[i] <= '9'
}

/// The first word of `ws` that looks like a model number.
pub open spec fn first_model_like(ws: Seq<Seq<char>>) -> Option<Seq<char>>
    decreases ws.len(),
{
    if ws.len() == 0 {
        None
    } else if model_like(ws[0]) {
        Some(ws[0])
    } else {
        first_model_like(ws.skip(1))
    }
}

/// The short GPU name shown on the status surfaces: `N/A` without a name;
/// otherwise the name without vendor words and with its white space
/// collapsed (or, if nothing is left, the trimmed name), reduced to its
/// first word that looks like a model number when there is one.
pub open spec fn spec_short_gpu_name(name: Option<Seq<char>>) -> Seq<char> {
    match name {
        None => "N/A"@,
        Some(n) => {
            let cleaned = join(words(gpu_name_without_vendor_words(n)), seq![' ']);
            let value = if cleaned.len() == 0 {
                trim(n)
            } else {
                trim(cleaned)
            };
            match first_model_like(words(value)) {
                Some(w) => w,
                None => value,
            }
        },
    }
}

/// Whether `w` looks like a model number (see `model_like`).
fn is_model_like(w: &Vec<char>) -> (r: bool)
    ensures
        r == model_like(w@),
{
    if w.len() < 3 {
        return false;
    }
    let mut i: usize = 0;
    while i < w.len()
        invariant
            i <= w.len(),
            w.len() >= 3,
            forall|t: int| 0 <= t < i ==> !('0' <= #[trigger] w@[t] <= '9'),
        decreases w.len() - i,
    {
        if '0' <= w[i] && w[i] <= '9' {
            assert('0' <= w@[i as int] <= '9');
            return true;
        }
        i = i + 1;
    }
    false
}

/// The short name of a GPU (see `spec_short_gpu_name`).
pub fn short_gpu_name(name: Option<&str>) -> (r: String)
    ensures
        r@ == spec_short_gpu_name(
            match name {
                Some(n) => Some(n@),
                None => None,
            },
        ),
{
    let text = match name {
        None => {
            let mut na = String::new();
            push_str(&mut na, "N/A");
            return na;
        },
        Some(n) => n,
    };
    proof {
        reveal_strlit("NVIDIA");
        reveal_strlit("GeForce");
        reveal_strlit("Laptop GPU");
        reveal_strlit("GPU");
    }
    let full_name = chars_of(text);
    let nothing: Vec<char> = Vec::new();
    let step1 = replace_chars(&full_name, &chars_of("NVIDIA"), &nothing);
    let step2 = replace_chars(&step1, &chars_of("GeForce"), &nothing);
    let step3 = replace_chars(&step2, &chars_of("Laptop GPU"), &nothing);
    let step4 = replace_chars(&step3, &chars_of("GPU"), &nothing);
    let cleaned = join_words(&split_words(&step4), ' ');
    let value = if cleaned.len() == 0 {
        trim_chars(&full_name)
    } else {
        trim_chars(&cleaned)
    };
    let parts = split_words(&value);
    let mut i: usize = 0;
    assert(views(parts@).skip(0) =~= views(parts@));
    assert(spec_short_gpu_name(Some(text@)) == match first_model_like(words(value@)) {
        Some(w) => w,
        None => value@,
    });
    while i < parts.len()
        invariant
            name == Some(text),
            spec_short_gpu_name(Some(text@)) == match first_model_like(words(value@)) {
                Some(w) => w,
                None => value@,
            },
            i <= parts.len(),
            first_model_like(words(value@)) == first_model_like(views(parts@).skip(i as int)),
            views(parts@) == words(value@),
        decreases parts.len() - i,
    {
        let ghost rest = views(parts@).skip(i as int);
        assert(rest[0] == parts@[i as int]@);
        assert(rest.len() > 0);
        if is_model_like(&parts[i]) {
            assert(first_model_like(rest) == Some(parts@[i as int]@));
            return string_of(&parts[i]);
        }
        assert(rest.skip(1) =~= views(parts@).skip(i + 1));
        i = i + 1;
    }
    assert(views(parts@).skip(parts.len() as int) =~= Seq::<Seq<char>>::empty());
    string_of(&value)
}

/// A speed text made compact: ` MB/s` becomes `M` and ` KB/s` becomes `K`.
pub open spec fn spec_compact_speed(full: Seq<char>) -> Seq<char> {
    replace_all(replace_all(full, " MB/s"@, "M"@), " KB/s"@, "K"@)
}

/// The compact form of a speed text (see `spec_compact_speed`).
pub fn compact_speed(full: &str) -> (r: String)
    ensures
        r@ == spec_compact_speed(full@),
{
    proof {
        reveal_strlit(" MB/s");
        reveal_strlit(" KB/s");
    }
    let step1 = replace_chars(&chars_of(full), &chars_of(" MB/s"), &chars_of("M"));
    let step2 = replace_chars(&step1, &chars_of(" KB/s"), &chars_of("K"));
    string_of(&step2)
}

/// How loaded the machine is, as the tray icon reflects it.
#[derive(Debug, Clone, Copy, PartialEq, Eq, Structural)]
pub enum PressureLevel {
    Normal,
    Medium,
    High,
}

/// binary32 `95.0`.
pub const HIGH_MEMORY_PERCENT: u32 = 0x42be_0000;

/// binary32 `85.0`.
pub const MEDIUM_PERCENT: u32 = 0x42aa_0000;

/// binary32 `100.0`.
pub const FULL_PERCENT: u32 = 0x42c8_0000;

/// The pressure level of a sample: `High` when memory use is at least 95 %,
/// else `Medium` when CPU, memory or GPU use (a missing GPU counting as 0)
/// is at least 85 %, else `Normal`. NaN readings count as below every
/// threshold, as `f32::max` passes over them.
pub open spec fn spec_pressure_level(cpu: F32Bits, memory: F32Bits, gpu: Option<F32Bits>) -> PressureLevel {
    let g = match gpu {
        Some(g) => g.0,
        None => 0,
    };
    if f32_ge(memory.0, HIGH_MEMORY_PERCENT) {
        PressureLevel::High
    } else if f32_ge(cpu.0, MEDIUM_PERCENT) || f32_ge(memory.0, MEDIUM_PERCENT) || f32_ge(
        g,
        MEDIUM_PERCENT,
    ) {
        PressureLevel::Medium
    } else {
        PressureLevel::Normal
    }
}

/// The pressure level of a sample (see `spec_pressure_level`).
pub fn pressure_level(cpu: F32Bits, memory: F32Bits, gpu: Option<F32Bits>) -> (r: PressureLevel)
    ensures
        r == spec_pressure_level(cpu, memory, gpu),
{
    let g = match gpu {
        Some(g) => g,
        None => F32Bits(0),
    };
    if memory.at_least(F32Bits(HIGH_MEMORY_PERCENT)) {
        PressureLevel::High
    } else if cpu.at_least(F32Bits(MEDIUM_PERCENT)) || memory.at_least(F32Bits(MEDIUM_PERCENT))
        || g.at_least(F32Bits(MEDIUM_PERCENT)) {
        PressureLevel::Medium
    } else {
        PressureLevel::Normal
    }
}

/// A CPU reading kept within 0..=100 % (a NaN stays NaN).
pub fn clamp_percent(value: F32Bits) -> (r: F32Bits)
    ensures
        r.0 == f32_clamped(value.0, 0, FULL_PERCENT),
{
    value.clamp(F32Bits(0), F32Bits(FULL_PERCENT))
}

/// Memory in use. `percent` is a binary32 value.
#[derive(Debug, Clone, Copy)]
pub struct MemoryInfo {
    pub used_bytes: u64,
    pub total_bytes: u64,
    pub percent: F32Bits,
}

/// The memory in use, never reported above the total.
pub fn used_memory(used: u64, total: u64) -> (r: u64)
    ensures
        r == if used <= total {
            used
        } else {
            total
        },
{
    if used <= total {
        used
    } else {
        total
    }
}

/// An optional value as text: the value itself, or `N/A` when it is missing
/// and missing values are shown, or nothing.
pub open spec fn spec_optional_value(value: Option<Seq<char>>, show_na: bool) -> Seq<char> {
    match value {
        Some(v) => v,
        None => if show_na {
            "N/A"@
        } else {
            seq![]
        },
    }
}

/// An optional value as text (see `spec_optional_value`).
pub fn format_optional_value(value: Option<String>, show_na: bool) -> (r: String)
    ensures
        r@ == spec_optional_value(
            match value {
                Some(v) => Some(v@),
                None => None,
            },
            show_na,
        ),
{
    match value {
        Some(value) => value,
        None => {
            let mut s = String::new();
            if show_na {
                push_str(&mut s, "N/A");
            }
            s
        },
    }
}

/// The video memory figures as `used / total`, or `N/A` (when shown) unless
/// both are known.
pub open spec fn spec_vram_value(gpu: GpuInfo, show_na: bool) -> Seq<char> {
    match (gpu.memory_used_bytes, gpu.memory_total_bytes) {
        (Some(used), Some(total)) => spec_format_bytes(used) + " / "@ + spec_format_bytes(total),
        _ => if show_na {
            "N/A"@
        } else {
            seq![]
        },
    }
}

/// The video memory line of the full status text: `VRAM used / total`, or
/// `VRAM N/A` (when shown) unless both figures are known.
pub open spec fn spec_vram_line(gpu: GpuInfo, show_na: bool) -> Seq<char> {
    match (gpu.memory_used_bytes, gpu.memory_total_bytes) {
        (Some(used), Some(total)) => "VRAM "@ + spec_format_bytes(used) + " / "@
            + spec_format_bytes(total),
        _ => if show_na {
            "VRAM N/A"@
        } else {
            seq![]
        },
    }
}

/// The video memory figures (see `spec_vram_value`).
pub fn format_vram_value(gpu: &GpuInfo, show_na: bool) -> (r: String)
    ensures
        r@ == spec_vram_value(*gpu, show_na),
{
    let mut s = String::new();
    match (gpu.memory_used_bytes, gpu.memory_total_bytes) {
        (Some(used), Some(total)) => {
            push_str(&mut s, &format_bytes(used));
            push_str(&mut s, " / ");
            push_str(&mut s, &format_bytes(total));
        },
        _ => {
            if show_na {
                push_str(&mut s, "N/A");
            }
        },
    }
    s
}

/// The video memory line (see `spec_vram_line`).
pub fn format_vram(gpu: &GpuInfo, show_na: bool) -> (r: String)
    ensures
        r@ == spec_vram_line(*gpu, show_na),
{
    let mut s = String::new();
    match (gpu.memory_used_bytes, gpu.memory_total_bytes) {
        (Some(used), Some(total)) => {
            push_str(&mut s, "VRAM ");
            push_str(&mut s, &format_bytes(used));
            push_str(&mut s, " / ");
            push_str(&mut s, &format_bytes(total));
        },
        _ => {
            if show_na {
                push_str(&mut s, "VRAM N/A");
            }
        },
    }
    s
}

/// The GPU utilisation as a whole percentage (`12%`), or `N/A` (when shown)
/// when unknown.
pub open spec fn spec_gpu_usage(gpu: GpuInfo, show_na: bool) -> Seq<char> {
    spec_optional_value(
        match gpu.usage_percent {
            Some(p) => Some(f32_whole_text(p.0) + "%"@),
            None => None,
        },
        show_na,
    )
}

fn gpu_usage_text(gpu: &GpuInfo, show_na: bool) -> (r: String)
    ensures
        r@ == spec_gpu_usage(*gpu, show_na),
{
    let value = match gpu.usage_percent {
        Some(p) => {
            let mut s = String::new();
            p.push_whole(&mut s);
            push_str(&mut s, "%");
            Some(s)
        },
        None => None,
    };
    format_optional_value(value, show_na)
}

/// The GPU name as `short_gpu_name` shortens it.
pub open spec fn spec_gpu_short_name(gpu: GpuInfo) -> Seq<char> {
    spec_short_gpu_name(
        match gpu.name {
            Some(n) => Some(n@),
            None => None,
        },
    )
}

fn gpu_short_name(gpu: &GpuInfo) -> (r: String)
    ensures
        r@ == spec_gpu_short_name(*gpu),
{
    match &gpu.name {
        Some(n) => short_gpu_name(Some(n.as_str())),
        None => short_gpu_name(None),
    }
}

/// The one-line status text: `CPU c% | MEM m% | ↓ down | ↑ up`, with the
/// percentages as whole numbers and the speeds already in compact form.
pub open spec fn spec_format_compact(cpu: F32Bits, memory: MemoryInfo, download: Seq<char>, upload: Seq<char>) -> Seq<char> {
    "CPU "@ + f32_whole_text(cpu.0) + "% | MEM "@ + f32_whole_text(memory.percent.0) + "% | ↓ "@
        + download + " | ↑ "@ + upload
}

/// The one-line status text (see `spec_format_compact`). `download` and
/// `upload` are the compact speed texts.
pub fn format_compact(cpu: F32Bits, memory: &MemoryInfo, download: &str, upload: &str) -> (r: String)
    ensures
        r@ == spec_format_compact(cpu, *memory, download@, upload@),
{
    let mut s = String::new();
    push_str(&mut s, "CPU ");
    cpu.push_whole(&mut s);
    push_str(&mut s, "% | MEM ");
    memory.percent.push_whole(&mut s);
    push_str(&mut s, "% | ↓ ");
    push_str(&mut s, download);
    push_str(&mut s, " | ↑ ");
    push_str(&mut s, upload);
    s
}

/// `lines` without the empty ones, separated by `sep`.
pub open spec fn join_nonempty(lines: Seq<Seq<char>>, sep: Seq<char>) -> Seq<char>
    decreases lines.len(),
{
    if lines.len() == 0 {
        seq![]
    } else {
        let before = join_nonempty(lines.drop_last(), sep);
        if lines.last().len() == 0 {
            before
        } else if before.len() == 0 {
            lines.last()
        } else {
            before + sep + lines.last()
        }
    }
}

/// The multi-line status text: CPU, memory, GPU, video memory and network
/// lines, the empty ones left out, separated by line breaks. `download`
/// and `upload` are the speed texts.
pub open spec fn spec_format_full(
    cpu: F32Bits,
    memory: MemoryInfo,
    download: Seq<char>,
    upload: Seq<char>,
    gpu: GpuInfo,
    config: AppConfig,
) -> Seq<char> {
    join_nonempty(
        seq![
            "CPU "@ + f32_whole_text(cpu.0) + "%"@,
            "MEM "@ + spec_format_bytes(memory.used_bytes) + " / "@ + spec_format_bytes(
                memory.total_bytes,
            ),
            "GPU "@ + spec_gpu_usage(gpu, config.show_na) + " "@ + spec_gpu_short_name(gpu),
            spec_vram_line(gpu, config.show_na),
            "NET ↓ "@ + download + " ↑ "@ + upload,
        ],
        "\n"@,
    )
}

/// Appends `line` to `out` unless it is empty, after a line break when
/// `out` already holds a line.
fn push_line(out: &mut String, line: &String)
    ensures
        final(out)@ == if line@.len() == 0 {
            old(out)@
        } else if old(out)@.len() == 0 {
            line@
        } else {
            old(out)@ + "\n"@ + line@
        },
{
    if line.as_str().unicode_len() == 0 {
        return;
    }
    if out.as_str().unicode_len() > 0 {
        push_str(out, "\n");
    }
    push_str(out, line.as_str());
}

/// The multi-line status text (see `spec_format_full`).
pub fn format_full(
    cpu: F32Bits,
    memory: &MemoryInfo,
    download: &str,
    upload: &str,
    gpu: &GpuInfo,
    config: &AppConfig,
) -> (r: String)
    ensures
        r@ == spec_format_full(cpu, *memory, download@, upload@, *gpu, *config),
{
    let mut cpu_line = String::new();
    push_str(&mut cpu_line, "CPU ");
    cpu.push_whole(&mut cpu_line);
    push_str(&mut cpu_line, "%");
    let mut mem_line = String::new();
    push_str(&mut mem_line, "MEM ");
    push_str(&mut mem_line, &format_bytes(memory.used_bytes));
    push_str(&mut mem_line, " / ");
    push_str(&mut mem_line, &format_bytes(memory.total_bytes));
    let mut gpu_line = String::new();
    push_str(&mut gpu_line, "GPU ");
    push_str(&mut gpu_line, &gpu_usage_text(gpu, config.show_na));
    push_str(&mut gpu_line, " ");
    push_str(&mut gpu_line, &gpu_short_name(gpu));
    let vram_line = format_vram(gpu, config.show_na);
    let mut net_line = String::new();
    push_str(&mut net_line, "NET ↓ ");
    push_str(&mut net_line, download);
    push_str(&mut net_line, " ↑ ");
    push_str(&mut net_line, upload);
    let ghost lines = seq![cpu_line@, mem_line@, gpu_line@, vram_line@, net_line@];
    let mut out = String::new();
    push_line(&mut out, &cpu_line);
    assert(lines.take(1).drop_last() =~= Seq::<Seq<char>>::empty());
    assert(join_nonempty(Seq::<Seq<char>>::empty(), "\n"@) == Seq::<char>::empty());
    assert(lines.take(1).last() == cpu_line@);
    assert(out@ == join_nonempty(lines.take(1), "\n"@));
    push_line(&mut out, &mem_line);
    assert(lines.take(2).drop_last() =~= lines.take(1));
    assert(out@ == join_nonempty(lines.take(2), "\n"@));
    push_line(&mut out, &gpu_line);
    assert(lines.take(3).drop_last() =~= lines.take(2));
    assert(out@ == join_nonempty(lines.take(3), "\n"@));
    push_line(&mut out, &vram_line);
    assert(lines.take(4).drop_last() =~= lines.take(3));
    assert(out@ == join_nonempty(lines.take(4), "\n"@));
    push_line(&mut out, &net_line);
    assert(lines.take(5).drop_last() =~= lines.take(4));
    assert(lines.take(5) =~= lines);
    out
}

/// The tooltip text: CPU, memory (used / total and percentage), GPU usage
/// and name, video memory and network speeds on five lines.
pub open spec fn spec_format_tooltip(
    cpu: F32Bits,
    memory: MemoryInfo,
    download: Seq<char>,
    upload: Seq<char>,
    gpu: GpuInfo,
    config: AppConfig,
) -> Seq<char> {
    "CPU: "@ + f32_whole_text(cpu.0) + "%\nMemory: "@ + spec_format_bytes(memory.used_bytes)
        + " / "@ + spec_format_bytes(memory.total_bytes) + " ("@ + f32_whole_text(
        memory.percent.0,
    ) + "%)\nGPU: "@ + spec_gpu_usage(gpu, config.show_na) + " "@ + spec_gpu_short_name(gpu)
        + "\nVRAM: "@ + spec_vram_value(gpu, config.show_na) + "\nNET: ↓ "@ + download + " ↑ "@
        + upload
}

/// The tooltip text (see `spec_format_tooltip`).
pub fn format_tooltip(
    cpu: F32Bits,
    memory: &MemoryInfo,
    download: &str,
    upload: &str,
    gpu: &GpuInfo,
    config: &AppConfig,
) -> (r: String)
    ensures
        r@ == spec_format_tooltip(cpu, *memory, download@, upload@, *gpu, *config),
{
    let gpu_name = gpu_short_name(gpu);
    let mut s = String::new();
    push_str(&mut s, "CPU: ");
    cpu.push_whole(&mut s);
    push_str(&mut s, "%\nMemory: ");
    push_str(&mut s, &format_bytes(memory.used_bytes));
    push_str(&mut s, " / ");
    push_str(&mut s, &format_bytes(memory.total_bytes));
    push_str(&mut s, " (");
    memory.percent.push_whole(&mut s);
    push_str(&mut s, "%)\nGPU: ");
    push_str(&mut s, &gpu_usage_text(gpu, config.show_na));
    push_str(&mut s, " ");
    push_str(&mut s, &gpu_name);
    push_str(&mut s, "\nVRAM: ");
    push_str(&mut s, &format_vram_value(gpu, config.show_na));
    push_str(&mut s, "\nNET: ↓ ");
    push_str(&mut s, download);
    push_str(&mut s, " ↑ ");
    push_str(&mut s, upload);
    s
}

/// What one sample shows: the CPU load clamped to `0..=100`, the pressure
/// level and the three texts of the status surfaces.
#[derive(Debug)]
pub struct SnapshotTexts {
    pub cpu_percent: F32Bits,
    pub pressure: PressureLevel,
    pub compact_text: String,
    pub full_text: String,
    pub tooltip: String,
}

/// Puts one sample together from its readings: the raw CPU load is clamped
/// to `0..=100`; the pressure level comes from that load, the memory
/// percentage and the GPU utilisation; the compact text carries the short
/// speed texts, the full text and the tooltip the long ones together with
/// the GPU figures and the configuration.
pub fn snapshot_texts(
    raw_cpu: F32Bits,
    memory: &MemoryInfo,
    gpu: &GpuInfo,
    config: &AppConfig,
    short_download: &str,
    short_upload: &str,
    download: &str,
    upload: &str,
) -> (r: SnapshotTexts)
    ensures
        r.cpu_percent.0 == f32_clamped(raw_cpu.0, 0, FULL_PERCENT),
        r.pressure == spec_pressure_level(r.cpu_percent, memory.percent, gpu.usage_percent),
        r.compact_text@ == spec_format_compact(
            r.cpu_percent,
            *memory,
            short_download@,
            short_upload@,
        ),
        r.full_text@ == spec_format_full(
            r.cpu_percent,
            *memory,
            download@,
            upload@,
            *gpu,
            *config,
        ),
        r.tooltip@ == spec_format_tooltip(
            r.cpu_percent,
            *memory,
            download@,
            upload@,
            *gpu,
            *config,
        ),
{
    let cpu_percent = clamp_percent(raw_cpu);
    let pressure = pressure_level(cpu_percent, memory.percent, gpu.usage_percent);
    let compact_text = format_compact(cpu_percent, memory, short_download, short_upload);
    let full_text = format_full(cpu_percent, memory, download, upload, gpu, config);
    let tooltip = format_tooltip(cpu_percent, memory, download, upload, gpu, config);
    SnapshotTexts { cpu_percent, pressure, compact_text, full_text, tooltip }
}

/// With any sanitised configuration, missing GPU figures are shown as
/// `N/A` rather than left out: the GPU usage reads `N/A`, the video memory
/// line `VRAM N/A` and the tooltip's video memory value `N/A`.
pub proof fn lemma_missing_values_show_na(gpu: GpuInfo, config: AppConfig)
    requires
        gpu.usage_percent is None,
        gpu.memory_used_bytes is None || gpu.memory_total_bytes is None,
    ensures
        spec_gpu_usage(gpu, config.spec_sanitized().show_na) == "N/A"@,
        spec_vram_line(gpu, config.spec_sanitized().show_na) == "VRAM N/A"@,
        spec_vram_value(gpu, config.spec_sanitized().show_na) == "N/A"@,
{
}

/// A word counts as a model number exactly when it has at least three
/// characters and an ASCII digit at some position, wherever it stands.
pub proof fn lemma_model_like_words(w: Seq<char>)
    ensures
        model_like(w) <==> (w.len() >= 3 && exists|i: int|
            0 <= i < w.len() && '0' <= #[trigger] w[i] <= '9'),
{
}

/// A word of at least three characters with an ASCII digit at some
/// position.
pub open spec fn digit_word(w: Seq<char>) -> bool {
    w.len() >= 3 && exists|i: int| 0 <= i < w.len() && '0' <= #[trigger] w[i] <= '9'
}

/// The model-number word picked from a list of words is the first word of
/// the list that has at least three characters and an ASCII digit at some
/// position; when there is such a word, one is picked.
pub proof fn lemma_first_model_like_picks_digit_word(ws: Seq<Seq<char>>)
    ensures
        first_model_like(ws) matches Some(w) ==> digit_word(w) && exists|j: int|
            0 <= j < ws.len() && ws[j] == w && forall|m: int|
                0 <= m < j ==> !digit_word(#[trigger] ws[m]),
        (exists|k: int| 0 <= k < ws.len() && digit_word(#[trigger] ws[k])) ==> first_model_like(
            ws,
        ) is Some,
    decreases ws.len(),
{
    if ws.len() > 0 {
        let rest = ws.skip(1);
        lemma_first_model_like_picks_digit_word(rest);
        if model_like(ws[0]) {
            assert(digit_word(ws[0]));
        } else {
            assert(!digit_word(ws[0]));
            if first_model_like(ws) is Some {
                let w = first_model_like(ws)->Some_0;
                let j = choose|j: int|
                    0 <= j < rest.len() && rest[j] == w && forall|m: int|
                        0 <= m < j ==> !digit_word(#[trigger] rest[m]);
                assert(ws[j + 1] == w);
                assert forall|m: int| 0 <= m < j + 1 implies !digit_word(#[trigger] ws[m]) by {
                    if m > 0 {
                        assert(ws[m] == rest[m - 1]);
                    }
                }
            }
            if exists|k: int| 0 <= k < ws.len() && digit_word(#[trigger] ws[k]) {
                let k = choose|k: int| 0 <= k < ws.len() && digit_word(#[trigger] ws[k]);
                assert(k > 0);
                assert(rest[k - 1] == ws[k]);
            }
        }
    }
}

/// Whenever the GPU utilisation is known it is shown as its whole-number
/// text followed by `%`, whatever its value (an idle 0 % included) and
/// whether or not missing values are shown.
pub proof fn lemma_known_gpu_usage_is_shown(gpu: GpuInfo, show_na: bool)
    requires
        gpu.usage_percent is Some,
    ensures
        spec_gpu_usage(gpu, show_na) == f32_whole_text(gpu.usage_percent->Some_0.0) + "%"@,
{
}

/// The pressure level is `High` exactly when memory use is at least 95 %,
/// whatever the CPU and GPU readings; below that it is `Medium` exactly
/// when the CPU, the memory or a known GPU is at least 85 % busy, and
/// `Normal` otherwise.
pub proof fn lemma_pressure_thresholds(cpu: F32Bits, memory: F32Bits, gpu: Option<F32Bits>)
    ensures
        (spec_pressure_level(cpu, memory, gpu) == PressureLevel::High) <==> f32_ge(
            memory.0,
            0x42be_0000,
        ),
        (spec_pressure_level(cpu, memory, gpu) == PressureLevel::Medium) <==> (!f32_ge(
            memory.0,
            0x42be_0000,
        ) && (f32_ge(cpu.0, 0x42aa_0000) || f32_ge(memory.0, 0x42aa_0000) || (gpu matches Some(
            g,
        ) && f32_ge(g.0, 0x42aa_0000)))),
{
    assert(!f32_ge(0, 0x42aa_0000));
}

} // verus!
