use vstd::prelude::*;
use crate::configuration::SandboxConfiguration;
use crate::errors::Error;

verus! {

/// The three resource dimensions the limit enforcer touches: the address
/// space (used as the memory bound), CPU time, and the size of core dumps.
#[derive(Debug, Clone, Copy, PartialEq, Eq, Structural)]
pub enum LimitKind {
    AddressSpace,
    CpuTime,
    CoreDump,
}

/// One limit to hand to the kernel: the dimension and the ceiling, which is
/// installed as both the soft and the hard limit, so the process cannot
/// later raise its own bound.
#[derive(Debug, Clone, Copy, PartialEq, Eq, Structural)]
pub struct LimitRequest {
    pub kind: LimitKind,
    pub value: u64,
}

/// The limits a configuration asks for, in the fixed order they are applied:
/// the address-space bound when a memory limit is set, then the CPU-time
/// bound when a time limit is set, then, unconditionally, a core-dump size
/// of zero. The order is deterministic so that a partial failure is
/// diagnosable by which dimension was being set.
pub open spec fn planned_limits(config: SandboxConfiguration) -> Seq<LimitRequest> {
    (match config.memory_limit {
        Some(m) => seq![LimitRequest { kind: LimitKind::AddressSpace, value: m }],
        None => Seq::empty(),
    }) + (match config.time_limit {
        Some(t) => seq![LimitRequest { kind: LimitKind::CpuTime, value: t }],
        None => Seq::empty(),
    }) + seq![LimitRequest { kind: LimitKind::CoreDump, value: 0 }]
}

/// The ordered list of limits that enforcing `config` will hand to the
/// kernel.
pub fn limit_plan(config: &SandboxConfiguration) -> (plan: Vec<LimitRequest>)
    ensures
        plan@ == planned_limits(*config),
{
    let mut plan: Vec<LimitRequest> = Vec::new();
    if let Some(m) = config.memory_limit {
        plan.push(LimitRequest { kind: LimitKind::AddressSpace, value: m });
    }
    if let Some(t) = config.time_limit {
        plan.push(LimitRequest { kind: LimitKind::CpuTime, value: t });
    }
    plan.push(LimitRequest { kind: LimitKind::CoreDump, value: 0 });
    proof {
        assert(plan@ =~= planned_limits(*config));
    }
    plan
}

/// Every planned request is accounted for by the configuration: an
/// address-space request carries the configured memory limit, a CPU-time
/// request carries the configured time limit, and a core-dump request
/// carries zero.
pub proof fn lemma_planned_limits_kinds(config: SandboxConfiguration)
    ensures
        forall|j: int| 0 <= j < planned_limits(config).len() ==> {
            let q = #[trigger] planned_limits(config)[j];
            &&& (q.kind is AddressSpace ==> config.memory_limit == Some(q.value))
            &&& (q.kind is CpuTime ==> config.time_limit == Some(q.value))
            &&& (q.kind is CoreDump ==> q.value == 0)
        },
{
}

/// With no memory limit and no time limit configured, the only limit that
/// enforcement plans is the unconditional core-dump bound of zero: the CPU
/// and memory ceilings are left untouched.
pub proof fn lemma_unlimited_config_plans_only_core(config: SandboxConfiguration)
    requires
        config.memory_limit is None,
        config.time_limit is None,
    ensures
        planned_limits(config) == seq![LimitRequest { kind: LimitKind::CoreDump, value: 0 }],
{
    assert(planned_limits(config) =~= seq![LimitRequest { kind: LimitKind::CoreDump, value: 0 }]);
}

/// Whenever a memory limit is configured, enforcement plans an address-space
/// request with exactly that value; whenever a time limit is configured, a
/// CPU-time request with exactly that value; and a core-dump bound of zero
/// is always planned.
pub proof fn lemma_configured_limits_planned(config: SandboxConfiguration)
    ensures
        config.memory_limit matches Some(m) ==> planned_limits(config).contains(
            (LimitRequest { kind: LimitKind::AddressSpace, value: m }),
        ),
        config.time_limit matches Some(t) ==> planned_limits(config).contains(
            (LimitRequest { kind: LimitKind::CpuTime, value: t }),
        ),
        planned_limits(config).contains((LimitRequest { kind: LimitKind::CoreDump, value: 0 })),
{
    let s = planned_limits(config);
    if let Some(m) = config.memory_limit {
        assert(s[0] == (LimitRequest { kind: LimitKind::AddressSpace, value: m }));
    }
    if let Some(t) = config.time_limit {
        let j: int = if config.memory_limit is Some { 1 } else { 0 };
        assert(s[j] == (LimitRequest { kind: LimitKind::CpuTime, value: t }));
    }
    assert(s[s.len() - 1] == (LimitRequest { kind: LimitKind::CoreDump, value: 0 }));
}

/// Relies on nix's setrlimit: the kernel is handed `value` as both the soft
/// and the hard limit of the chosen resource, and the call returns Ok
/// exactly when the kernel accepted the change. Whether it does depends on
/// process privilege and on the limits already in force, so nothing is
/// promised of the outcome.
#[verifier::external_body]
fn apply_limit(kind: &LimitKind, value: u64) -> bool {
    let resource = match kind {
        LimitKind::AddressSpace => nix::sys::resource::Resource::RLIMIT_AS,
        LimitKind::CpuTime => nix::sys::resource::Resource::RLIMIT_CPU,
        LimitKind::CoreDump => nix::sys::resource::Resource::RLIMIT_CORE,
    };
    nix::sys::resource::setrlimit(resource, value, value).is_ok()
}

/// Applies the configured limits to the calling process, in the planned
/// order, stopping at the first rejection. Intended to run in the child
/// after fork and before exec; the change is process-wide and irreversible.
/// On failure no rollback is attempted: the caller is expected to abandon
/// the child.
pub fn setup_resource_limits(config: &SandboxConfiguration) -> (r: Result<(), Error>)
    ensures
        r matches Err(e) ==> e is LimitSetting,
        r matches Err(Error::LimitSetting(k)) ==> exists|j: int|
            0 <= j < planned_limits(*config).len() && planned_limits(*config)[j].kind == k,
        r matches Err(Error::LimitSetting(k)) ==> (k is AddressSpace ==> config.memory_limit is Some),
        r matches Err(Error::LimitSetting(k)) ==> (k is CpuTime ==> config.time_limit is Some),
{
    let plan = limit_plan(config);
    let mut i: usize = 0;
    while i < plan.len()
        invariant
            plan@ == planned_limits(*config),
            i <= plan.len(),
        decreases plan.len() - i,
    {
        let q = plan[i];
        if !apply_limit(&q.kind, q.value) {
            proof {
                lemma_planned_limits_kinds(*config);
                assert(planned_limits(*config)[i as int].kind == q.kind);
            }
            return Err(Error::LimitSetting(q.kind));
        }
        i += 1;
    }
    Ok(())
}

} // verus!
