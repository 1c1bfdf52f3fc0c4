//! What the launcher knows about the machine it runs on.
//!
//! Quantities are kept in bytes. The machine's figures are read by the
//! application; the GPU probe's output is split here.

use vstd::prelude::*;
use crate::text::{chars_of, push_char, trim_bounds, trimmed};

verus! {

/// How the GPU was probed.
#[derive(Clone, Copy, Debug, PartialEq, Eq, Structural)]
pub enum GpuProbe {
    /// `nvidia-smi` ran and succeeded.
    Reported,
    /// `nvidia-smi` ran but did not succeed.
    Unusable,
    /// No supported probe could be run.
    Unavailable,
}

/// What is known about the GPU.
pub struct GpuInfo {
    pub probe: GpuProbe,
    pub available: bool,
    pub name: Option<String>,
    pub vram_bytes: Option<u64>,
}

/// The machine the launcher runs on.
pub struct Machine {
    pub os: String,
    pub arch: String,
    pub memory_bytes: u64,
    pub available_memory_bytes: u64,
    pub free_disk_bytes: u64,
    pub gpu: GpuInfo,
}

impl GpuProbe {
    /// The name of the probe that was used.
    pub open spec fn probe_label(self) -> Seq<char> {
        match self {
            GpuProbe::Reported => "nvidia-smi"@,
            GpuProbe::Unusable => "nvidia-smi"@,
            GpuProbe::Unavailable => "none"@,
        }
    }

    /// The name of the probe that was used.
    pub fn probe_name(&self) -> (s: &'static str)
        ensures
            s@ == self.probe_label(),
    {
        match self {
            GpuProbe::Reported => "nvidia-smi",
            GpuProbe::Unusable => "nvidia-smi",
            GpuProbe::Unavailable => "none",
        }
    }

    /// The explanation shown with each way of probing the GPU.
    pub open spec fn note_text(self) -> Seq<char> {
        match self {
            GpuProbe::Reported => "NVIDIA GPU information obtained from nvidia-smi."@,
            GpuProbe::Unusable => "nvidia-smi ran but did not return a usable NVIDIA GPU record."@,
            GpuProbe::Unavailable =>
                "No supported GPU probe was available. GPU capability is unknown; CPU profiles remain available."@,
        }
    }

    /// The explanation shown with the probe's result.
    pub fn note(&self) -> (s: &'static str)
        ensures
            s@ == self.note_text(),
    {
        match self {
            GpuProbe::Reported => "NVIDIA GPU information obtained from nvidia-smi.",
            GpuProbe::Unusable => "nvidia-smi ran but did not return a usable NVIDIA GPU record.",
            GpuProbe::Unavailable =>
                "No supported GPU probe was available. GPU capability is unknown; CPU profiles remain available.",
        }
    }
}

impl GpuInfo {
    /// The GPU as `nvidia-smi` reported it: usable only when both its name
    /// and its memory are known.
    pub fn reported(name: Option<String>, vram_bytes: Option<u64>) -> (g: GpuInfo)
        ensures
            g.probe == GpuProbe::Reported,
            g.available == (name is Some && vram_bytes is Some),
            g.name == name,
            g.vram_bytes == vram_bytes,
    {
        let available = name.is_some() && vram_bytes.is_some();
        GpuInfo { probe: GpuProbe::Reported, available, name, vram_bytes }
    }

    /// `nvidia-smi` ran but failed: nothing is known.
    pub fn unusable() -> (g: GpuInfo)
        ensures
            g.probe == GpuProbe::Unusable,
            !g.available,
            g.name is None,
            g.vram_bytes is None,
    {
        GpuInfo { probe: GpuProbe::Unusable, available: false, name: None, vram_bytes: None }
    }

    /// No probe could be run: nothing is known.
    pub fn unavailable() -> (g: GpuInfo)
        ensures
            g.probe == GpuProbe::Unavailable,
            !g.available,
            g.name is None,
            g.vram_bytes is None,
    {
        GpuInfo { probe: GpuProbe::Unavailable, available: false, name: None, vram_bytes: None }
    }
}

/// The text before the first line break, or all of it.
pub open spec fn first_line(s: Seq<char>) -> Seq<char> {
    if s.contains('\n') {
        s.take(s.index_of_first('\n').unwrap())
    } else {
        s
    }
}

/// The first record of `nvidia-smi` output: its first line, trimmed.
pub open spec fn gpu_record(stdout: Seq<char>) -> Seq<char> {
    trimmed(first_line(stdout))
}

/// The record's first field, trimmed; the name when it is not empty.
pub open spec fn record_name(record: Seq<char>) -> Option<Seq<char>> {
    let field = if record.contains(',') {
        record.take(record.index_of_first(',').unwrap())
    } else {
        record
    };
    let name = trimmed(field);
    if name.len() > 0 {
        Some(name)
    } else {
        None
    }
}

/// The record's second field, trimmed, when there is one: everything after
/// the first comma.
pub open spec fn record_memory(record: Seq<char>) -> Option<Seq<char>> {
    if record.contains(',') {
        Some(trimmed(record.skip(record.index_of_first(',').unwrap() + 1)))
    } else {
        None
    }
}

fn string_of(v: &Vec<char>, start: usize, end: usize) -> (r: String)
    requires
        start <= end <= v.len(),
    ensures
        r@ == v@.subrange(start as int, end as int),
{
    let mut out = String::new();
    let mut i = start;
    while i < end
        invariant
            start <= i <= end <= v.len(),
            out@ == v@.subrange(start as int, i as int),
        decreases end - i,
    {
        push_char(&mut out, v[i]);
        assert(v@.subrange(start as int, i + 1) == v@.subrange(start as int, i as int).push(v@[i as int]));
        i = i + 1;
    }
    out
}

/// The index of the first `c` in `v[from..to]`, or `to`.
fn find_char(v: &Vec<char>, from: usize, to: usize, c: char) -> (r: usize)
    requires
        from <= to <= v.len(),
    ensures
        from <= r <= to,
        forall|i: int| from <= i < r ==> v@[i] != c,
        r < to ==> v@[r as int] == c,
{
    let mut i = from;
    while i < to && v[i] != c
        invariant
            from <= i <= to <= v.len(),
            forall|k: int| from <= k < i ==> v@[k] != c,
        decreases to - i,
    {
        i = i + 1;
    }
    i
}

proof fn lemma_first_index(s: Seq<char>, c: char, r: int)
    requires
        0 <= r <= s.len(),
        forall|i: int| 0 <= i < r ==> s[i] != c,
        r < s.len() ==> s[r] == c,
    ensures
        s.contains(c) <==> r < s.len(),
        r < s.len() ==> s.index_of_first(c) == Some(r),
{
    if r < s.len() {
        s.index_of_first_ensures(c);
    } else {
        if s.contains(c) {
            let k = choose|k: int| 0 <= k < s.len() && s[k] == c;
            assert(s[k] == c);
        }
    }
}

/// Splits the output of
/// `nvidia-smi --query-gpu=name,memory.total --format=csv,noheader,nounits`
/// into the GPU's name and the text of its memory size in MiB.
pub fn split_gpu_record(stdout: &str) -> (r: (Option<String>, Option<String>))
    ensures
        r.0 matches Some(n) ==> record_name(gpu_record(stdout@)) == Some(n@),
        r.0 is None <==> record_name(gpu_record(stdout@)) is None,
        r.1 matches Some(m) ==> record_memory(gpu_record(stdout@)) == Some(m@),
        r.1 is None <==> record_memory(gpu_record(stdout@)) is None,
{
    let all = chars_of(stdout);
    let nl = find_char(&all, 0, all.len(), '\n');
    proof {
        lemma_first_index(all@, '\n', nl as int);
        assert(all@.subrange(0, all@.len() as int) == all@);
    }
    let line_chars = {
        let mut v: Vec<char> = Vec::new();
        let mut i: usize = 0;
        while i < nl
            invariant
                i <= nl <= all.len(),
                v@ == all@.subrange(0, i as int),
            decreases nl - i,
        {
            v.push(all[i]);
            assert(all@.subrange(0, i + 1) == all@.subrange(0, i as int).push(all@[i as int]));
            i = i + 1;
        }
        v
    };
    assert(line_chars@ == first_line(stdout@));
    let (s, e) = trim_bounds(&line_chars);
    let ghost record = gpu_record(stdout@);
    assert(line_chars@.subrange(s as int, e as int) == record);
    let comma = find_char(&line_chars, s, e, ',');
    proof {
        let local = line_chars@.subrange(s as int, e as int);
        assert forall|i: int| 0 <= i < comma - s implies local[i] != ',' by {
            assert(local[i] == line_chars@[s + i]);
        }
        if comma < e {
            assert(local[comma - s] == line_chars@[comma as int]);
        }
        lemma_first_index(local, ',', comma - s);
    }
    let field = {
        let mut v: Vec<char> = Vec::new();
        let mut i = s;
        while i < comma
            invariant
                s <= i <= comma <= e <= line_chars.len(),
                v@ == line_chars@.subrange(s as int, i as int),
            decreases comma - i,
        {
            v.push(line_chars[i]);
            assert(line_chars@.subrange(s as int, i + 1) == line_chars@.subrange(s as int, i as int).push(
                line_chars@[i as int],
            ));
            i = i + 1;
        }
        v
    };
    assert(field@ == (if record.contains(',') {
        record.take(record.index_of_first(',').unwrap())
    } else {
        record
    }));
    let (fs, fe) = trim_bounds(&field);
    let name = if fs < fe {
        Some(string_of(&field, fs, fe))
    } else {
        None
    };
    let memory = if comma < e {
        let mut v: Vec<char> = Vec::new();
        let mut i = comma + 1;
        while i < e
            invariant
                comma + 1 <= i <= e <= line_chars.len(),
                v@ == line_chars@.subrange(comma + 1, i as int),
            decreases e - i,
        {
            v.push(line_chars[i]);
            assert(line_chars@.subrange(comma + 1, i + 1) == line_chars@.subrange(
                comma + 1,
                i as int,
            ).push(line_chars@[i as int]));
            i = i + 1;
        }
        assert(v@ == record.skip(record.index_of_first(',').unwrap() + 1));
        let (ms, me) = trim_bounds(&v);
        Some(string_of(&v, ms, me))
    } else {
        None
    };
    (name, memory)
}

} // verus!
