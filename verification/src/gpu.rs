//! GPU readings and the decisions of the GPU samplers.
use vstd::prelude::*;
use crate::float_bits::{F32Bits, u32_to_f32, f32_equals_nat, f32_nearest};
use crate::text::{
    chars_of, parse_u64, push_str, spec_parse_u64, split_on, split_trimmed, string_of, trim,
    trim_all, trim_chars, views,
};

verus! {

/// What is known of the GPU at one sample. `usage_percent` and
/// `temperature_celsius` are binary32 values.
#[derive(Debug)]
pub struct GpuInfo {
    pub name: Option<String>,
    pub usage_percent: Option<F32Bits>,
    pub memory_used_bytes: Option<u64>,
    pub memory_total_bytes: Option<u64>,
    pub temperature_celsius: Option<F32Bits>,
    pub available: bool,
    pub source: Option<String>,
}

impl GpuInfo {
    /// A GPU about which nothing is known.
    pub open spec fn spec_unknown(self) -> bool {
        &&& self.name is None
        &&& self.usage_percent is None
        &&& self.memory_used_bytes is None
        &&& self.memory_total_bytes is None
        &&& self.temperature_celsius is None
        &&& !self.available
        &&& self.source is None
    }

    /// A reading that degrades gracefully: an unavailable GPU reports
    /// neither a name nor a usage.
    pub open spec fn spec_degrades_gracefully(self) -> bool {
        !self.available ==> self.name is None && self.usage_percent is None
    }
}

impl Default for GpuInfo {
    fn default() -> (r: Self)
        ensures
            r.spec_unknown(),
    {
        GpuInfo {
            name: None,
            usage_percent: None,
            memory_used_bytes: None,
            memory_total_bytes: None,
            temperature_celsius: None,
            available: false,
            source: None,
        }
    }
}

/// Utilisation rates reported by NVML, in percent.
#[derive(Debug, Clone, Copy, Default)]
pub struct NvmlUtilization {
    pub gpu: u32,
    pub memory: u32,
}

/// Memory figures reported by NVML, in bytes.
#[derive(Debug, Clone, Copy, Default)]
pub struct NvmlMemory {
    pub total: u64,
    pub free: u64,
    pub used: u64,
}

/// `value` MiB in bytes, saturating at `u64::MAX`.
pub open spec fn spec_mib_to_bytes(value: u64) -> u64 {
    if value * 0x10_0000 > u64::MAX {
        u64::MAX
    } else {
        (value * 0x10_0000) as u64
    }
}

/// A size in MiB as bytes (see `spec_mib_to_bytes`).
pub fn mib_to_bytes(value: u64) -> (r: u64)
    ensures
        r == spec_mib_to_bytes(value),
{
    match value.checked_mul(0x10_0000) {
        Some(bytes) => bytes,
        None => u64::MAX,
    }
}

/// The fields of one `nvidia-smi` CSV line (`name, utilization.gpu,
/// memory.used, memory.total, temperature.gpu`, memory in MiB), trimmed;
/// the memory figures in bytes when they parse as whole numbers.
#[derive(Debug)]
pub struct NvidiaSmiFields {
    pub name: String,
    pub usage: String,
    pub memory_used_bytes: Option<u64>,
    pub memory_total_bytes: Option<u64>,
    pub temperature: String,
}

/// A MiB figure parsed and converted to bytes.
pub open spec fn spec_mib_field(text: Seq<char>) -> Option<u64> {
    match spec_parse_u64(text) {
        Some(v) => Some(spec_mib_to_bytes(v)),
        None => None,
    }
}

/// Splits an `nvidia-smi` CSV line into its fields: `None` when it has
/// fewer than five comma-separated fields; further fields are ignored.
pub fn nvidia_smi_fields(line: &str) -> (r: Option<NvidiaSmiFields>)
    ensures
        ({
            let parts = trim_all(split_on(line@, ','));
            &&& r is None <==> parts.len() < 5
            &&& r matches Some(f) ==> {
                &&& f.name@ == parts[0]
                &&& f.usage@ == parts[1]
                &&& f.memory_used_bytes == spec_mib_field(parts[2])
                &&& f.memory_total_bytes == spec_mib_field(parts[3])
                &&& f.temperature@ == parts[4]
            }
        }),
{
    let parts = split_trimmed(&chars_of(line), ',');
    if parts.len() < 5 {
        return None;
    }
    assert(views(parts@)[2] == parts@[2]@);
    assert(views(parts@)[3] == parts@[3]@);
    assert(views(parts@)[0] == parts@[0]@);
    assert(views(parts@)[1] == parts@[1]@);
    assert(views(parts@)[4] == parts@[4]@);
    let used = match parse_u64(&parts[2]) {
        Some(v) => Some(mib_to_bytes(v)),
        None => None,
    };
    let total = match parse_u64(&parts[3]) {
        Some(v) => Some(mib_to_bytes(v)),
        None => None,
    };
    Some(
        NvidiaSmiFields {
            name: string_of(&parts[0]),
            usage: string_of(&parts[1]),
            memory_used_bytes: used,
            memory_total_bytes: total,
            temperature: string_of(&parts[4]),
        },
    )
}

/// The GPU information of one `nvidia-smi` line: its fields, with the
/// utilisation and the temperature as the binary32 values their texts
/// parse to (`None` where they do not parse), reported as available and as
/// coming from `nvidia-smi`.
pub fn nvidia_smi_reading(
    fields: NvidiaSmiFields,
    usage_percent: Option<F32Bits>,
    temperature_celsius: Option<F32Bits>,
) -> (r: GpuInfo)
    ensures
        r.name matches Some(n) && n@ == fields.name@,
        r.usage_percent == usage_percent,
        r.memory_used_bytes == fields.memory_used_bytes,
        r.memory_total_bytes == fields.memory_total_bytes,
        r.temperature_celsius == temperature_celsius,
        r.available,
        r.source matches Some(s) && s@ == "nvidia-smi"@,
{
    let mut source = String::new();
    push_str(&mut source, "nvidia-smi");
    GpuInfo {
        name: Some(fields.name),
        usage_percent,
        memory_used_bytes: fields.memory_used_bytes,
        memory_total_bytes: fields.memory_total_bytes,
        temperature_celsius,
        available: true,
        source: Some(source),
    }
}

/// What follows `prefix` in the first of `lines` that starts with it.
pub open spec fn after_first_prefix(lines: Seq<Seq<char>>, prefix: Seq<char>) -> Option<Seq<char>>
    decreases lines.len(),
{
    if lines.len() == 0 {
        None
    } else if lines[0].len() >= prefix.len() && lines[0].take(prefix.len() as int) == prefix {
        Some(lines[0].skip(prefix.len() as int))
    } else {
        after_first_prefix(lines.skip(1), prefix)
    }
}

/// The adapter name in the `system_profiler SPDisplaysDataType` report:
/// the text after `Chipset Model:` on the first (trimmed) line that starts
/// with it, trimmed, or `None` when there is no such line or the name is
/// empty.
pub open spec fn spec_chipset_model(report: Seq<char>) -> Option<Seq<char>> {
    match after_first_prefix(trim_all(split_on(report, '\n')), "Chipset Model:"@) {
        Some(v) => if trim(v).len() > 0 {
            Some(trim(v))
        } else {
            None
        },
        None => None,
    }
}

/// Whether `line` starts with `prefix`.
fn starts_with(line: &Vec<char>, prefix: &Vec<char>) -> (r: bool)
    ensures
        r == (line@.len() >= prefix@.len() && line@.take(prefix@.len() as int) == prefix@),
{
    if line.len() < prefix.len() {
        return false;
    }
    let mut j: usize = 0;
    while j < prefix.len()
        invariant
            j <= prefix.len() <= line.len(),
            forall|t: int| 0 <= t < j ==> line@[t] == prefix@[t],
        decreases prefix.len() - j,
    {
        if line[j] != prefix[j] {
            assert(line@.take(prefix@.len() as int)[j as int] != prefix@[j as int]);
            return false;
        }
        j = j + 1;
    }
    assert(line@.take(prefix@.len() as int) =~= prefix@);
    true
}

/// The adapter name in a `system_profiler` report (see
/// `spec_chipset_model`).
pub fn chipset_model(report: &str) -> (r: Option<String>)
    ensures
        r matches Some(n) ==> spec_chipset_model(report@) == Some(n@),
        r is None ==> spec_chipset_model(report@) is None,
{
    let lines = split_trimmed(&chars_of(report), '\n');
    let prefix = chars_of("Chipset Model:");
    let ghost all = views(lines@);
    let mut i: usize = 0;
    assert(all.skip(0) =~= all);
    while i < lines.len()
        invariant
            i <= lines.len(),
            all == views(lines@),
            all == trim_all(split_on(report@, '\n')),
            prefix@ == "Chipset Model:"@,
            after_first_prefix(all, prefix@) == after_first_prefix(all.skip(i as int), prefix@),
        decreases lines.len() - i,
    {
        let ghost rest = all.skip(i as int);
        assert(rest[0] == lines@[i as int]@);
        if starts_with(&lines[i], &prefix) {
            let line = &lines[i];
            let mut value: Vec<char> = Vec::new();
            let mut k: usize = prefix.len();
            while k < line.len()
                invariant
                    prefix.len() <= k <= line.len(),
                    value@ == line@.subrange(prefix.len() as int, k as int),
                decreases line.len() - k,
            {
                value.push(line[k]);
                assert(line@.subrange(prefix.len() as int, k as int).push(line@[k as int])
                    =~= line@.subrange(prefix.len() as int, k + 1));
                k = k + 1;
            }
            assert(value@ =~= line@.skip(prefix.len() as int));
            assert(after_first_prefix(rest, prefix@) == Some(value@));
            let name = trim_chars(&value);
            if name.len() == 0 {
                return None;
            }
            return Some(string_of(&name));
        }
        assert(rest.skip(1) =~= all.skip(i + 1));
        i = i + 1;
    }
    assert(all.skip(lines.len() as int) =~= Seq::<Seq<char>>::empty());
    None
}

/// How long to wait before trying to load NVML again, in milliseconds.
pub const RETRY_BACKOFF_MS: u64 = 30_000;

/// `now - then` on the monotonic millisecond clock, zero when `then` is
/// later.
pub open spec fn elapsed_ms(now: u64, then: u64) -> int {
    if now >= then {
        now - then
    } else {
        0
    }
}

/// Decisions of the NVML sampler: when to (re)load the library, and what a
/// round of readings from the loaded library amounts to. `L` is the loaded
/// library; the instants are monotonic milliseconds.
#[derive(Debug)]
pub struct NvmlSampler<L> {
    loaded: Option<L>,
    last_attempt: Option<u64>,
}

impl<L> NvmlSampler<L> {
    /// The loaded library, if any.
    pub closed spec fn spec_loaded(&self) -> Option<L> {
        self.loaded
    }

    /// When loading was last attempted, if ever.
    pub closed spec fn spec_last_attempt(&self) -> Option<u64> {
        self.last_attempt
    }

    /// Whether a sample at `now` tries to load the library: only when none
    /// is loaded and the last attempt, if any, is at least
    /// `RETRY_BACKOFF_MS` old.
    pub open spec fn spec_should_load(&self, now: u64) -> bool {
        &&& self.spec_loaded() is None
        &&& match self.spec_last_attempt() {
            Some(last) => elapsed_ms(now, last) >= RETRY_BACKOFF_MS,
            None => true,
        }
    }

    /// A sampler with nothing loaded and no attempt made.
    pub fn new() -> (r: Self)
        ensures
            r.spec_loaded() is None,
            r.spec_last_attempt() is None,
    {
        NvmlSampler { loaded: None, last_attempt: None }
    }

    /// Starts a sample at `now`: tells whether the library is to be loaded
    /// now, and if so records the attempt.
    pub fn begin_sample(&mut self, now: u64) -> (load: bool)
        ensures
            load == old(self).spec_should_load(now),
            final(self).spec_loaded() == old(self).spec_loaded(),
            final(self).spec_last_attempt() == if load {
                Some(now)
            } else {
                old(self).spec_last_attempt()
            },
    {
        if self.loaded.is_some() {
            return false;
        }
        if let Some(last) = self.last_attempt {
            let elapsed = if now >= last { now - last } else { 0 };
            if elapsed < RETRY_BACKOFF_MS {
                return false;
            }
        }
        self.last_attempt = Some(now);
        true
    }

    /// Keeps the outcome of an attempt to load the library.
    pub fn finish_load(&mut self, loaded: Option<L>)
        ensures
            final(self).spec_loaded() == loaded,
            final(self).spec_last_attempt() == old(self).spec_last_attempt(),
    {
        self.loaded = loaded;
    }

    /// The loaded library, if any.
    pub fn loaded(&self) -> (r: Option<&L>)
        ensures
            r == match self.spec_loaded() {
                Some(l) => Some(&l),
                None => None,
            },
    {
        match &self.loaded {
            Some(l) => Some(l),
            None => None,
        }
    }

    /// Turns one round of readings at `now` into GPU information. When all
    /// three readings failed the device is considered lost: the library is
    /// dropped, the instant recorded for the back-off, and nothing is
    /// returned. Otherwise the GPU `name` is reported as available with the
    /// readings that succeeded, the utilisation and temperature converted
    /// to the nearest binary32 value.
    pub fn record_readings(
        &mut self,
        now: u64,
        name: String,
        utilization: Option<NvmlUtilization>,
        memory: Option<NvmlMemory>,
        temperature: Option<u32>,
    ) -> (r: Option<GpuInfo>)
        ensures
            (utilization is None && memory is None && temperature is None) ==> {
                &&& r is None
                &&& final(self).spec_loaded() is None
                &&& final(self).spec_last_attempt() == Some(now)
            },
            !(utilization is None && memory is None && temperature is None) ==> {
                &&& final(self).spec_loaded() == old(self).spec_loaded()
                &&& final(self).spec_last_attempt() == old(self).spec_last_attempt()
                &&& r matches Some(info) && {
                    &&& info.name == Some(name)
                    &&& info.available
                    &&& info.source matches Some(s) && s@ == "nvml"@
                    &&& match utilization {
                        Some(u) => info.usage_percent matches Some(p) && f32_equals_nat(
                            p.0,
                            f32_nearest(u.gpu as nat),
                        ),
                        None => info.usage_percent is None,
                    }
                    &&& match memory {
                        Some(m) => info.memory_used_bytes == Some(m.used)
                            && info.memory_total_bytes == Some(m.total),
                        None => info.memory_used_bytes is None && info.memory_total_bytes is None,
                    }
                    &&& match temperature {
                        Some(t) => info.temperature_celsius matches Some(c) && f32_equals_nat(
                            c.0,
                            f32_nearest(t as nat),
                        ),
                        None => info.temperature_celsius is None,
                    }
                }
            },
    {
        if utilization.is_none() && memory.is_none() && temperature.is_none() {
            self.loaded = None;
            self.last_attempt = Some(now);
            return None;
        }
        let usage_percent = match utilization {
            Some(u) => Some(u32_to_f32(u.gpu)),
            None => None,
        };
        let (memory_used_bytes, memory_total_bytes) = match memory {
            Some(m) => (Some(m.used), Some(m.total)),
            None => (None, None),
        };
        let temperature_celsius = match temperature {
            Some(t) => Some(u32_to_f32(t)),
            None => None,
        };
        let mut source = String::new();
        push_str(&mut source, "nvml");
        Some(
            GpuInfo {
                name: Some(name),
                usage_percent,
                memory_used_bytes,
                memory_total_bytes,
                temperature_celsius,
                available: true,
                source: Some(source),
            },
        )
    }
}

/// A sampler that has failed finds no reason to load again within
/// `RETRY_BACKOFF_MS` of its last attempt, and does load again after it.
pub proof fn lemma_nvml_backoff<L>(sampler: NvmlSampler<L>, now: u64)
    requires
        sampler.spec_loaded() is None,
        sampler.spec_last_attempt() matches Some(last) && last <= now,
    ensures
        sampler.spec_should_load(now) <==> now - sampler.spec_last_attempt()->Some_0
            >= RETRY_BACKOFF_MS,
{
}

/// Attempts to load the vendor library are never less than
/// `RETRY_BACKOFF_MS` apart. `s0` is a sampler whose `begin_sample` at
/// `first` attempted a load and left `s1`; `s2` is what `finish_load` made
/// of `s1`, whatever the attempt loaded. A sample of `s2` at a `later`
/// instant attempts again only when the back-off has passed since `first`,
/// and does so then when the attempt failed.
pub proof fn lemma_nvml_attempts_spaced<L>(
    s0: NvmlSampler<L>,
    s1: NvmlSampler<L>,
    s2: NvmlSampler<L>,
    first: u64,
    later: u64,
)
    requires
        s0.spec_should_load(first),
        s1.spec_loaded() == s0.spec_loaded(),
        s1.spec_last_attempt() == Some(first),
        s2.spec_last_attempt() == s1.spec_last_attempt(),
        first <= later,
    ensures
        s2.spec_should_load(later) ==> later - first >= RETRY_BACKOFF_MS,
        s2.spec_loaded() is None && later - first >= RETRY_BACKOFF_MS ==> s2.spec_should_load(
            later,
        ),
{
}

/// One sample of a sampler with no library loaded, as `begin_sample` at
/// `now` leaves it (`load` is what it returned, `after` the sampler after
/// it): when the last attempt was less than `RETRY_BACKOFF_MS` before
/// `now`, no load is tried and the sampler is left exactly as it was, with
/// no library to read, so the sample gives nothing; otherwise exactly one
/// attempt is made and its instant becomes `now`.
pub proof fn lemma_nvml_sample_backoff<L>(
    before: NvmlSampler<L>,
    after: NvmlSampler<L>,
    now: u64,
    load: bool,
)
    requires
        before.spec_loaded() is None,
        load == before.spec_should_load(now),
        after.spec_loaded() == before.spec_loaded(),
        after.spec_last_attempt() == if load {
            Some(now)
        } else {
            before.spec_last_attempt()
        },
    ensures
        (before.spec_last_attempt() matches Some(t0) && elapsed_ms(now, t0) < RETRY_BACKOFF_MS)
            ==> !load && after == before && after.spec_loaded() is None,
        !(before.spec_last_attempt() matches Some(t0) && elapsed_ms(now, t0) < RETRY_BACKOFF_MS)
            ==> load && after.spec_last_attempt() == Some(now),
{
}

impl<L> Default for NvmlSampler<L> {
    fn default() -> (r: Self)
        ensures
            r.spec_loaded() is None,
            r.spec_last_attempt() is None,
    {
        NvmlSampler::new()
    }
}

/// Samples the GPU, falling back from a vendor library reading to the
/// adapter name that the platform reports.
#[derive(Debug)]
pub struct GpuSampler {
    cached_name: Option<String>,
}

impl GpuSampler {
    /// The adapter name found so far, if any.
    pub closed spec fn spec_cached_name(&self) -> Option<String> {
        self.cached_name
    }

    /// A sampler that has not looked up the adapter name yet.
    pub fn new() -> (r: Self)
        ensures
            r.spec_cached_name() is None,
    {
        GpuSampler { cached_name: None }
    }

    /// Whether a sample without a vendor reading still has to look up the
    /// adapter name.
    pub fn needs_name_lookup(&self) -> (r: bool)
        ensures
            r == self.spec_cached_name() is None,
    {
        self.cached_name.is_none()
    }

    /// The GPU information of one sample. A vendor library `reading` is
    /// returned as it is. Otherwise the adapter name is remembered from the
    /// first successful lookup (`looked_up`, used only while none is
    /// remembered) and reported as an available GPU without figures from
    /// `system_profiler`; without a name nothing is known.
    pub fn sample(&mut self, reading: Option<GpuInfo>, looked_up: Option<String>) -> (r: GpuInfo)
        ensures
            reading is Some ==> r == reading->Some_0 && final(self).spec_cached_name()
                == old(self).spec_cached_name(),
            reading is None ==> {
                let name = if old(self).spec_cached_name() is None {
                    looked_up
                } else {
                    old(self).spec_cached_name()
                };
                &&& final(self).spec_cached_name() == name
                &&& match name {
                    Some(n) => {
                        &&& r.name == Some(n)
                        &&& r.available
                        &&& r.source matches Some(s) && s@ == "system_profiler"@
                        &&& r.usage_percent is None
                        &&& r.memory_used_bytes is None
                        &&& r.memory_total_bytes is None
                        &&& r.temperature_celsius is None
                    },
                    None => r.spec_unknown(),
                }
            },
            (reading matches Some(info) ==> info.spec_degrades_gracefully())
                ==> r.spec_degrades_gracefully(),
    {
        if let Some(info) = reading {
            return info;
        }
        if self.cached_name.is_none() {
            self.cached_name = looked_up;
        }
        match &self.cached_name {
            Some(name) => {
                let mut source = String::new();
                push_str(&mut source, "system_profiler");
                GpuInfo {
                    name: Some(name.clone()),
                    usage_percent: None,
                    memory_used_bytes: None,
                    memory_total_bytes: None,
                    temperature_celsius: None,
                    available: true,
                    source: Some(source),
                }
            },
            None => GpuInfo::default(),
        }
    }
}

impl Default for GpuSampler {
    fn default() -> (r: Self)
        ensures
            r.spec_cached_name() is None,
    {
        GpuSampler::new()
    }
}

} // verus!
