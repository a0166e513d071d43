//! The render context: CPU counts, memory figures and the process
//! environment, gathered once per render into one immutable snapshot.
//!
//! Every figure is kept as an integer and handed to the template engine as
//! its decimal string; the free-memory figure is computed here as
//! `total - used`, never queried, so the subtraction invariant holds of
//! every snapshot by construction.

use crate::decimal::{dec_str, u64_dec};
use vstd::prelude::*;

verus! {

/// Why no context snapshot could be built.
#[derive(Clone, Copy, PartialEq, Eq, Structural, Debug)]
pub enum SystemQueryError {
    /// The host reported more memory in use than it has in total, so no
    /// consistent free-memory figure exists.
    InconsistentMemory,
}

/// Logical and physical CPU counts.
#[derive(Clone, Copy, PartialEq, Eq, Structural, Debug)]
pub struct CpuFacts {
    pub logical: u64,
    pub physical: u64,
}

/// Total, used and free memory, in the host's native units.
#[derive(Clone, Copy, PartialEq, Eq, Structural, Debug)]
pub struct MemFacts {
    pub total: u64,
    pub used: u64,
    pub free: u64,
}

impl MemFacts {
    /// The free figure is exactly what remains of the total after use.
    pub open spec fn wf(self) -> bool {
        &&& self.used <= self.total
        &&& self.free == self.total - self.used
    }

    /// Builds the memory figures from a total and a used reading, deriving
    /// the free figure; refuses a reading with more in use than exists.
    pub fn new(total: u64, used: u64) -> (r: Option<MemFacts>)
        ensures
            r is Some <==> used <= total,
            r is Some ==> r->0 == (MemFacts { total, used, free: (total - used) as u64 }),
            r is Some ==> r->0.wf(),
    {
        if used <= total {
            Some(MemFacts { total, used, free: total - used })
        } else {
            None
        }
    }
}

/// One immutable snapshot of everything a template may reference.
#[derive(Clone, Debug)]
pub struct TemplateRendererContext {
    pub cpu: CpuFacts,
    pub mem: MemFacts,
    /// Every environment variable visible to the process, name to value.
    pub env: Vec<(String, String)>,
}

/// The section name / entry list pairs handed to the template engine, with
/// each entry a field name and its text value.
pub type Sections = Vec<(String, Vec<(String, String)>)>;

/// The entries of one section, as mathematical string pairs.
pub open spec fn entries_view(v: Seq<(String, String)>) -> Seq<(Seq<char>, Seq<char>)> {
    v.map_values(|p: (String, String)| (p.0@, p.1@))
}

/// The whole section list, as mathematical string pairs.
pub open spec fn sections_view(v: Seq<(String, Vec<(String, String)>)>) -> Seq<
    (Seq<char>, Seq<(Seq<char>, Seq<char>)>),
> {
    v.map_values(|s: (String, Vec<(String, String)>)| (s.0@, entries_view(s.1@)))
}

/// What a snapshot exposes to the template engine: the `cpu` and `mem`
/// sections with each figure as a decimal numeral, and the `env` section
/// with the environment verbatim.
pub open spec fn context_data(c: TemplateRendererContext) -> Seq<
    (Seq<char>, Seq<(Seq<char>, Seq<char>)>),
> {
    seq![
        (
            "cpu"@,
            seq![
                ("logical"@, dec_str(c.cpu.logical as nat)),
                ("physical"@, dec_str(c.cpu.physical as nat)),
            ],
        ),
        ("env"@, entries_view(c.env@)),
        (
            "mem"@,
            seq![
                ("total"@, dec_str(c.mem.total as nat)),
                ("used"@, dec_str(c.mem.used as nat)),
                ("free"@, dec_str(c.mem.free as nat)),
            ],
        ),
    ]
}

impl TemplateRendererContext {
    /// A snapshot is well formed when its memory figures carry the
    /// subtraction invariant and both CPU counts are positive.
    pub open spec fn wf(self) -> bool {
        &&& self.mem.wf()
        &&& self.cpu.logical >= 1
        &&& self.cpu.physical >= 1
    }

    /// Builds a snapshot from raw readings: the free-memory figure is
    /// derived, and inconsistent memory readings are refused.
    pub fn from_parts(
        logical: u64,
        physical: u64,
        total: u64,
        used: u64,
        env: Vec<(String, String)>,
    ) -> (r: Result<TemplateRendererContext, SystemQueryError>)
        ensures
            r is Ok <==> used <= total,
            r is Ok ==> r->Ok_0 == (TemplateRendererContext {
                cpu: CpuFacts { logical, physical },
                mem: MemFacts { total, used, free: (total - used) as u64 },
                env,
            }),
            r is Err ==> r->Err_0 == SystemQueryError::InconsistentMemory,
    {
        match MemFacts::new(total, used) {
            Some(mem) => Ok(
                TemplateRendererContext { cpu: CpuFacts { logical, physical }, mem, env },
            ),
            None => Err(SystemQueryError::InconsistentMemory),
        }
    }

    /// Queries the host for CPU and memory facts and combines them with
    /// the given environment into a snapshot. Whatever the host reports,
    /// a snapshot is only ever returned well formed.
    pub fn new(env: Vec<(String, String)>) -> (r: Result<
        TemplateRendererContext,
        SystemQueryError,
    >)
        ensures
            r is Ok ==> r->Ok_0.wf() && r->Ok_0.env == env,
            r is Err ==> r->Err_0 == SystemQueryError::InconsistentMemory,
    {
        let logical = cpu_logical();
        let physical = cpu_physical();
        let system = system_new_all();
        let total = system_total_memory(&system);
        let used = system_used_memory(&system);
        TemplateRendererContext::from_parts(logical, physical, total, used, env)
    }

    /// Lays the snapshot out as the section list the template engine
    /// receives, rendering every figure as a decimal numeral.
    pub fn into_sections(self) -> (r: Sections)
        ensures
            sections_view(r@) == context_data(self),
    {
        let mut cpu: Vec<(String, String)> = Vec::new();
        cpu.push(("logical".to_owned(), u64_dec(self.cpu.logical)));
        cpu.push(("physical".to_owned(), u64_dec(self.cpu.physical)));
        let mut mem: Vec<(String, String)> = Vec::new();
        mem.push(("total".to_owned(), u64_dec(self.mem.total)));
        mem.push(("used".to_owned(), u64_dec(self.mem.used)));
        mem.push(("free".to_owned(), u64_dec(self.mem.free)));
        let mut sections: Sections = Vec::new();
        sections.push(("cpu".to_owned(), cpu));
        sections.push(("env".to_owned(), self.env));
        sections.push(("mem".to_owned(), mem));
        proof {
            assert(sections_view(sections@) =~~= context_data(self));
        }
        sections
    }
}

/// The free-memory figure of every well-formed snapshot is exactly the
/// total minus the used figure, as integers: it is derived by that
/// subtraction when the snapshot is built and never queried.
pub proof fn lemma_mem_free_invariant(c: TemplateRendererContext)
    requires
        c.wf(),
    ensures
        c.mem.free as int == c.mem.total as int - c.mem.used as int,
{
}

/// In the data handed to the engine — where `mem` is the third section
/// and `free` its third entry — the text under `free` is, for every
/// well-formed snapshot, exactly the numeral of the total minus the used
/// figure.
pub proof fn lemma_mem_free_text(c: TemplateRendererContext)
    requires
        c.wf(),
    ensures
        context_data(c)[2].1[2].1 == dec_str((c.mem.total - c.mem.used) as nat),
{
}

/// In the data handed to the engine — where `cpu` is the first section —
/// the texts under `logical` and `physical` are nonempty and made of
/// decimal digits alone, so both fields always read as non-negative
/// integers.
pub proof fn lemma_cpu_texts_are_numerals(c: TemplateRendererContext)
    ensures
        context_data(c)[0].1[0].1 == dec_str(c.cpu.logical as nat),
        context_data(c)[0].1[1].1 == dec_str(c.cpu.physical as nat),
        dec_str(c.cpu.logical as nat).len() >= 1,
        dec_str(c.cpu.physical as nat).len() >= 1,
        forall|i: int|
            0 <= i < dec_str(c.cpu.logical as nat).len() ==> crate::decimal::is_digit_char(
                #[trigger] dec_str(c.cpu.logical as nat)[i],
            ),
        forall|i: int|
            0 <= i < dec_str(c.cpu.physical as nat).len() ==> crate::decimal::is_digit_char(
                #[trigger] dec_str(c.cpu.physical as nat)[i],
            ),
{
    crate::decimal::lemma_dec_str_digits(c.cpu.logical as nat);
    crate::decimal::lemma_dec_str_digits(c.cpu.physical as nat);
}

/// Relies on `num_cpus::get`: the number of logical cores, documented to
/// be at least one.
#[verifier::external_body]
fn cpu_logical() -> (n: u64)
    ensures
        n >= 1,
{
    num_cpus::get() as u64
}

/// Relies on `num_cpus::get_physical`: the number of physical cores,
/// documented to be at least one.
#[verifier::external_body]
fn cpu_physical() -> (n: u64)
    ensures
        n >= 1,
{
    num_cpus::get_physical() as u64
}

/// Relies on `sysinfo::System::new_all`: queries the host once for all of
/// its facts. Nothing is promised of the readings themselves.
#[verifier::external_body]
fn system_new_all() -> sysinfo::System {
    sysinfo::System::new_all()
}

/// Relies on `sysinfo::System::total_memory`: the host's total memory in
/// native units. The figure is the host's to choose.
#[verifier::external_body]
fn system_total_memory(system: &sysinfo::System) -> u64 {
    system.total_memory()
}

/// Relies on `sysinfo::System::used_memory`: the host's memory in use, in
/// native units. The figure is the host's to choose.
#[verifier::external_body]
fn system_used_memory(system: &sysinfo::System) -> u64 {
    system.used_memory()
}

#[verifier::external_type_specification]
#[verifier::external_body]
pub struct ExSystem(sysinfo::System);

} // verus!
