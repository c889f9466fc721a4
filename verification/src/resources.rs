//! Resource accounting against configured limits, and the instance count
//! decisions of the auto scaler.

use vstd::prelude::*;
use crate::error::AppError;

verus! {

/// Kind of a monitored resource.
#[derive(Debug, Clone, Copy, PartialEq, Eq, Hash, Structural)]
pub enum ResourceType {
    CPU,
    Memory,
    Disk,
    Network,
    Connections,
    FileDescriptors,
}

/// Display name of a resource kind.
pub open spec fn resource_name(t: ResourceType) -> Seq<char> {
    match t {
        ResourceType::CPU => "CPU"@,
        ResourceType::Memory => "Memory"@,
        ResourceType::Disk => "Disk"@,
        ResourceType::Network => "Network"@,
        ResourceType::Connections => "Connections"@,
        ResourceType::FileDescriptors => "FileDescriptors"@,
    }
}

impl ResourceType {
    /// Display name of this resource kind.
    pub fn to_string(&self) -> (s: &'static str)
        ensures
            s@ == resource_name(*self),
    {
        match self {
            ResourceType::CPU => "CPU",
            ResourceType::Memory => "Memory",
            ResourceType::Disk => "Disk",
            ResourceType::Network => "Network",
            ResourceType::Connections => "Connections",
            ResourceType::FileDescriptors => "FileDescriptors",
        }
    }
}

/// Comparison that triggers an alert.
#[derive(Debug, Clone, Copy, PartialEq, Eq, Structural)]
pub enum AlertCondition {
    GreaterThan,
    LessThan,
    Equal,
    NotEqual,
}

/// How serious an alert is.
#[derive(Debug, Clone, Copy, PartialEq, Eq, Structural)]
pub enum AlertSeverity {
    Info,
    Warning,
    Error,
    Critical,
}

/// Network throughput.
#[derive(Debug, Clone, Copy, Default)]
pub struct NetworkUsage {
    pub bytes_per_second: u64,
    pub packets_per_second: u64,
}

/// Resource use of the application; `last_updated_ms` is milliseconds
/// since the Unix epoch, `queue_sizes` the length of each named queue.
#[derive(Debug, Clone)]
pub struct ApplicationResourceStatus {
    pub memory_usage: u64,
    pub heap_usage: u64,
    pub thread_count: usize,
    pub connection_count: usize,
    pub file_descriptor_count: usize,
    pub cache_usage: u64,
    pub queue_sizes: Vec<(String, usize)>,
    pub last_updated_ms: u64,
}

/// Integer resource ceilings (the CPU ceiling is a fraction and stays with
/// the caller).
#[derive(Debug, Clone, Copy)]
pub struct ResourceLimits {
    pub max_memory_usage: u64,
    pub max_disk_usage: u64,
    pub max_network_bandwidth: u64,
    pub max_connections: usize,
    pub max_file_descriptors: usize,
}

/// Resources currently held.
#[derive(Debug, Clone, Copy)]
pub struct ResourceUsage {
    pub memory_usage: u64,
    pub connection_count: usize,
    pub file_descriptor_count: usize,
}

/// Resources that an operation asks for.
#[derive(Debug, Clone, Copy)]
pub struct ResourceRequirement {
    pub memory: u64,
    pub connections: usize,
    pub file_descriptors: usize,
}

/// Resources granted to an operation; `acquired_at_ms` is milliseconds
/// since the Unix epoch.
#[derive(Debug, Clone)]
pub struct ResourceHandle {
    pub id: String,
    pub required_resources: ResourceRequirement,
    pub acquired_at_ms: u64,
}

impl Default for ResourceUsage {
    fn default() -> (u: Self)
        ensures
            u.memory_usage == 0 && u.connection_count == 0 && u.file_descriptor_count == 0,
    {
        ResourceUsage { memory_usage: 0, connection_count: 0, file_descriptor_count: 0 }
    }
}

/// Whether `r` can be granted on top of `u` within `l`; a zero request of
/// a kind is never refused.
pub open spec fn fits(u: ResourceUsage, r: ResourceRequirement, l: ResourceLimits) -> bool {
    &&& (r.memory == 0 || u.memory_usage + r.memory <= l.max_memory_usage)
    &&& (r.connections == 0 || u.connection_count + r.connections <= l.max_connections)
    &&& (r.file_descriptors == 0 || u.file_descriptor_count + r.file_descriptors
        <= l.max_file_descriptors)
}

/// The sums of usage and request cannot overflow.
pub open spec fn sums_in_range(u: ResourceUsage, r: ResourceRequirement) -> bool {
    &&& u.memory_usage + r.memory <= u64::MAX
    &&& u.connection_count + r.connections <= usize::MAX
    &&& u.file_descriptor_count + r.file_descriptors <= usize::MAX
}

/// Usage after granting `r`.
pub open spec fn acquired(u: ResourceUsage, r: ResourceRequirement) -> ResourceUsage {
    ResourceUsage {
        memory_usage: (u.memory_usage + r.memory) as u64,
        connection_count: (u.connection_count + r.connections) as usize,
        file_descriptor_count: (u.file_descriptor_count + r.file_descriptors) as usize,
    }
}

/// `a - b`, or 0 when `b` is larger.
pub open spec fn sat_sub(a: int, b: int) -> int {
    if a >= b {
        a - b
    } else {
        0
    }
}

/// Usage after giving `r` back (never below zero).
pub open spec fn released(u: ResourceUsage, r: ResourceRequirement) -> ResourceUsage {
    ResourceUsage {
        memory_usage: sat_sub(u.memory_usage as int, r.memory as int) as u64,
        connection_count: sat_sub(u.connection_count as int, r.connections as int) as usize,
        file_descriptor_count: sat_sub(
            u.file_descriptor_count as int,
            r.file_descriptors as int,
        ) as usize,
    }
}

/// Usage is within every limit.
pub open spec fn within_limits(u: ResourceUsage, l: ResourceLimits) -> bool {
    &&& u.memory_usage <= l.max_memory_usage
    &&& u.connection_count <= l.max_connections
    &&& u.file_descriptor_count <= l.max_file_descriptors
}

impl ResourceUsage {
    /// Whether `required` can be granted within `limits`.
    pub fn check_availability(&self, required: &ResourceRequirement, limits: &ResourceLimits) -> (b:
        bool)
        requires
            sums_in_range(*self, *required),
        ensures
            b == fits(*self, *required, *limits),
    {
        if required.memory > 0 && self.memory_usage + required.memory > limits.max_memory_usage {
            return false;
        }
        if required.connections > 0 && self.connection_count + required.connections
            > limits.max_connections {
            return false;
        }
        if required.file_descriptors > 0 && self.file_descriptor_count + required.file_descriptors
            > limits.max_file_descriptors {
            return false;
        }
        true
    }

    /// Grants `required` when it fits; otherwise refuses and changes nothing.
    pub fn acquire(&mut self, required: &ResourceRequirement, limits: &ResourceLimits) -> (r: Result<
        (),
        AppError,
    >)
        requires
            sums_in_range(*old(self), *required),
        ensures
            r is Ok <==> fits(*old(self), *required, *limits),
            r is Ok ==> *final(self) == acquired(*old(self), *required),
            r is Err ==> *final(self) == *old(self) && r->Err_0 == AppError::Config(
                r->Err_0->Config_0,
            ) && r->Err_0.message() == "Resource limit exceeded"@,
    {
        if !self.check_availability(required, limits) {
            return Err(AppError::Config(String::from_str("Resource limit exceeded")));
        }
        self.memory_usage = self.memory_usage + required.memory;
        self.connection_count = self.connection_count + required.connections;
        self.file_descriptor_count = self.file_descriptor_count + required.file_descriptors;
        Ok(())
    }

    /// Gives `required` back; each count stops at zero.
    pub fn release(&mut self, required: &ResourceRequirement)
        ensures
            *final(self) == released(*old(self), *required),
    {
        self.memory_usage = self.memory_usage.saturating_sub(required.memory);
        self.connection_count = self.connection_count.saturating_sub(required.connections);
        self.file_descriptor_count = self.file_descriptor_count.saturating_sub(
            required.file_descriptors,
        );
    }

    /// `Ok` when usage is within every limit, else the first exceeded one.
    pub fn check_limits(&self, limits: &ResourceLimits) -> (r: Result<(), AppError>)
        ensures
            r is Ok <==> within_limits(*self, *limits),
            r is Err ==> (r->Err_0 is Config),
            r is Err ==> r->Err_0.message() == if self.memory_usage > limits.max_memory_usage {
                "Memory limit exceeded"@
            } else if self.connection_count > limits.max_connections {
                "Connection limit exceeded"@
            } else {
                "File descriptor limit exceeded"@
            },
    {
        if self.memory_usage > limits.max_memory_usage {
            return Err(AppError::Config(String::from_str("Memory limit exceeded")));
        }
        if self.connection_count > limits.max_connections {
            return Err(AppError::Config(String::from_str("Connection limit exceeded")));
        }
        if self.file_descriptor_count > limits.max_file_descriptors {
            return Err(AppError::Config(String::from_str("File descriptor limit exceeded")));
        }
        Ok(())
    }
}

/// Releasing what was just granted gives the usage back.
pub proof fn lemma_acquire_release_roundtrip(u: ResourceUsage, r: ResourceRequirement)
    requires
        sums_in_range(u, r),
    ensures
        released(acquired(u, r), r) == u,
{
}

/// A granted request keeps usage within limits when it was within them.
pub proof fn lemma_acquire_keeps_limits(
    u: ResourceUsage,
    r: ResourceRequirement,
    l: ResourceLimits,
)
    requires
        within_limits(u, l),
        fits(u, r, l),
        sums_in_range(u, r),
    ensures
        within_limits(acquired(u, r), l),
{
}

/// Releasing never raises usage.
pub proof fn lemma_release_never_grows(u: ResourceUsage, r: ResourceRequirement)
    ensures
        released(u, r).memory_usage <= u.memory_usage,
        released(u, r).connection_count <= u.connection_count,
        released(u, r).file_descriptor_count <= u.file_descriptor_count,
{
}

/// Direction of a scaling step.
#[derive(Debug, Clone, Copy, PartialEq, Eq, Structural)]
pub enum ScalingEventType {
    ScaleUp,
    ScaleDown,
}

/// One scaling step; `timestamp_ms` is milliseconds since the Unix epoch.
#[derive(Debug, Clone)]
pub struct ScalingEvent {
    pub event_type: ScalingEventType,
    pub from_instances: usize,
    pub to_instances: usize,
    pub timestamp_ms: u64,
    pub reason: String,
}

/// Snapshot of the scaler (times in milliseconds).
#[derive(Debug, Clone, Copy)]
pub struct ScalingStatus {
    pub current_instances: usize,
    pub target_instances: usize,
    pub min_instances: usize,
    pub max_instances: usize,
    pub last_scaling_ms: Option<u64>,
    pub cooldown_remaining_ms: Option<u64>,
}

/// The load figures that drive scaling: the CPU comparisons are made by
/// the caller on its fractional reading.
#[derive(Debug, Clone, Copy)]
pub struct ScalingSignals {
    pub cpu_above_80_percent: bool,
    pub cpu_below_20_percent: bool,
    pub memory_usage: u64,
    pub connection_count: usize,
}

/// Bytes in a GiB.
pub const GIB: u64 = 1073741824;

/// Memory above 80% of a GiB.
pub open spec fn memory_high(m: u64) -> bool {
    5 * m > 4 * GIB
}

/// Memory below 30% of a GiB.
pub open spec fn memory_low(m: u64) -> bool {
    10 * m < 3 * GIB
}

/// Whether the signals ask for one more instance.
pub open spec fn wants_scale_up(s: ScalingSignals) -> bool {
    s.cpu_above_80_percent || memory_high(s.memory_usage) || s.connection_count > 80
}

/// Whether the signals allow one instance less.
pub open spec fn wants_scale_down(s: ScalingSignals, current: usize) -> bool {
    s.cpu_below_20_percent && memory_low(s.memory_usage) && s.connection_count < 20 && current
        > 1
}

/// Time since the last scaling; a clock that went back counts as forever.
pub open spec fn elapsed_since(last: u64, now: u64) -> u64 {
    if now >= last {
        (now - last) as u64
    } else {
        u64::MAX
    }
}

/// Cool-down left at `now`, if any.
pub open spec fn cooldown_left(s: AutoScaler, now: u64) -> Option<u64> {
    match s.last_scaling_ms {
        Some(l) => if elapsed_since(l, now) < s.cooldown_period_ms {
            Some((s.cooldown_period_ms - elapsed_since(l, now)) as u64)
        } else {
            None
        },
        None => None,
    }
}

/// Instance count of a scaler, with its bounds and history.
pub struct AutoScaler {
    pub current_instances: usize,
    pub target_instances: usize,
    pub min_instances: usize,
    pub max_instances: usize,
    pub scaling_history: Vec<ScalingEvent>,
    pub last_scaling_ms: Option<u64>,
    pub cooldown_period_ms: u64,
}

impl AutoScaler {
    /// A scaler at one instance, with a five minute cool-down.
    pub fn new(min_instances: usize, max_instances: usize) -> (s: Self)
        ensures
            s.current_instances == 1 && s.target_instances == 1,
            s.min_instances == min_instances && s.max_instances == max_instances,
            s.scaling_history@.len() == 0,
            s.last_scaling_ms is None,
            s.cooldown_period_ms == 300000,
    {
        AutoScaler {
            current_instances: 1,
            target_instances: 1,
            min_instances,
            max_instances,
            scaling_history: Vec::new(),
            last_scaling_ms: None,
            cooldown_period_ms: 300000,
        }
    }

    /// Cool-down left at `now_ms`, if any.
    pub fn cooldown_remaining(&self, now_ms: u64) -> (r: Option<u64>)
        ensures
            r == cooldown_left(*self, now_ms),
    {
        match self.last_scaling_ms {
            Some(l) => {
                let elapsed = if now_ms >= l {
                    now_ms - l
                } else {
                    u64::MAX
                };
                if elapsed < self.cooldown_period_ms {
                    Some(self.cooldown_period_ms - elapsed)
                } else {
                    None
                }
            },
            None => None,
        }
    }

    fn record(&mut self, kind: ScalingEventType, target: usize, now_ms: u64, reason: &str)
        ensures
            final(self).current_instances == target,
            final(self).target_instances == target,
            final(self).last_scaling_ms == Some(now_ms),
            final(self).min_instances == old(self).min_instances,
            final(self).max_instances == old(self).max_instances,
            final(self).cooldown_period_ms == old(self).cooldown_period_ms,
            final(self).scaling_history@.len() == old(self).scaling_history@.len() + 1,
            final(self).scaling_history@.drop_last() == old(self).scaling_history@,
            final(self).scaling_history@.last().event_type == kind,
            final(self).scaling_history@.last().from_instances == old(self).current_instances,
            final(self).scaling_history@.last().to_instances == target,
            final(self).scaling_history@.last().timestamp_ms == now_ms,
            final(self).scaling_history@.last().reason@ == reason@,
    {
        let event = ScalingEvent {
            event_type: kind,
            from_instances: self.current_instances,
            to_instances: target,
            timestamp_ms: now_ms,
            reason: String::from_str(reason),
        };
        self.scaling_history.push(event);
        self.current_instances = target;
        self.target_instances = target;
        self.last_scaling_ms = Some(now_ms);
    }

    /// Raises the instance count to `target`; a target that is not above
    /// the current count changes nothing.
    pub fn scale_up(&mut self, target: usize, now_ms: u64)
        ensures
            target <= old(self).current_instances ==> *final(self) == *old(self),
            target > old(self).current_instances ==> {
                &&& final(self).current_instances == target
                &&& final(self).target_instances == target
                &&& final(self).last_scaling_ms == Some(now_ms)
                &&& final(self).scaling_history@.drop_last() == old(self).scaling_history@
                &&& final(self).scaling_history@.len() == old(self).scaling_history@.len() + 1
                &&& final(self).scaling_history@.last().event_type == ScalingEventType::ScaleUp
                &&& final(self).scaling_history@.last().from_instances
                    == old(self).current_instances
                &&& final(self).scaling_history@.last().to_instances == target
                &&& final(self).scaling_history@.last().reason@
                    == "High resource usage detected"@
            },
            final(self).min_instances == old(self).min_instances,
            final(self).max_instances == old(self).max_instances,
            final(self).cooldown_period_ms == old(self).cooldown_period_ms,
    {
        if target <= self.current_instances {
            return ;
        }
        self.record(ScalingEventType::ScaleUp, target, now_ms, "High resource usage detected");
    }

    /// Lowers the instance count to `target`; a target that is not below
    /// the current count changes nothing.
    pub fn scale_down(&mut self, target: usize, now_ms: u64)
        ensures
            target >= old(self).current_instances ==> *final(self) == *old(self),
            target < old(self).current_instances ==> {
                &&& final(self).current_instances == target
                &&& final(self).target_instances == target
                &&& final(self).last_scaling_ms == Some(now_ms)
                &&& final(self).scaling_history@.drop_last() == old(self).scaling_history@
                &&& final(self).scaling_history@.len() == old(self).scaling_history@.len() + 1
                &&& final(self).scaling_history@.last().event_type
                    == ScalingEventType::ScaleDown
                &&& final(self).scaling_history@.last().from_instances
                    == old(self).current_instances
                &&& final(self).scaling_history@.last().to_instances == target
                &&& final(self).scaling_history@.last().reason@ == "Low resource usage detected"@
            },
            final(self).min_instances == old(self).min_instances,
            final(self).max_instances == old(self).max_instances,
            final(self).cooldown_period_ms == old(self).cooldown_period_ms,
    {
        if target >= self.current_instances {
            return ;
        }
        self.record(ScalingEventType::ScaleDown, target, now_ms, "Low resource usage detected");
    }

    /// One scaling decision at `now_ms`: nothing during the cool-down;
    /// otherwise one instance more under high load (at most the maximum),
    /// or one less under low load (at least the minimum). The count can
    /// only grow past its machine limit when it is scaled up.
    pub fn evaluate_scaling(&mut self, signals: &ScalingSignals, now_ms: u64)
        requires
            old(self).current_instances == usize::MAX ==> !wants_scale_up(*signals) || match old(
                self,
            ).last_scaling_ms {
                Some(l) => elapsed_since(l, now_ms) < old(self).cooldown_period_ms,
                None => false,
            },
        ensures
            ({
                let o = *old(self);
                let cooling = match o.last_scaling_ms {
                    Some(l) => elapsed_since(l, now_ms) < o.cooldown_period_ms,
                    None => false,
                };
                let up_to = if o.current_instances + 1 <= o.max_instances {
                    (o.current_instances + 1) as usize
                } else {
                    o.max_instances
                };
                let down_to = if o.current_instances - 1 >= o.min_instances {
                    (o.current_instances - 1) as usize
                } else {
                    o.min_instances
                };
                let expected = if cooling {
                    o.current_instances
                } else if wants_scale_up(*signals) {
                    if up_to > o.current_instances {
                        up_to
                    } else {
                        o.current_instances
                    }
                } else if wants_scale_down(*signals, o.current_instances) {
                    if down_to < o.current_instances {
                        down_to
                    } else {
                        o.current_instances
                    }
                } else {
                    o.current_instances
                };
                &&& final(self).current_instances == expected
                &&& expected == o.current_instances ==> *final(self) == o
                &&& expected != o.current_instances ==> final(self).last_scaling_ms == Some(
                    now_ms,
                )
            }),
            final(self).min_instances == old(self).min_instances,
            final(self).max_instances == old(self).max_instances,
    {
        match self.last_scaling_ms {
            Some(l) => {
                let elapsed = if now_ms >= l {
                    now_ms - l
                } else {
                    u64::MAX
                };
                if elapsed < self.cooldown_period_ms {
                    return ;
                }
            },
            None => {},
        }
        let current = self.current_instances;
        let mem = signals.memory_usage;
        let high_mem = mem > 858993459;
        let low_mem = mem < 322122548;
        proof {
            assert(high_mem == memory_high(mem));
            assert(low_mem == memory_low(mem));
        }
        let up = signals.cpu_above_80_percent || high_mem || signals.connection_count > 80;
        let down = signals.cpu_below_20_percent && low_mem && signals.connection_count < 20
            && current > 1;
        if up {
            let next = if current + 1 <= self.max_instances {
                current + 1
            } else {
                self.max_instances
            };
            self.scale_up(next, now_ms);
        } else if down {
            let next = if current - 1 >= self.min_instances {
                current - 1
            } else {
                self.min_instances
            };
            self.scale_down(next, now_ms);
        }
    }

    /// Snapshot at `now_ms`.
    pub fn get_status(&self, now_ms: u64) -> (s: ScalingStatus)
        ensures
            s.current_instances == self.current_instances,
            s.target_instances == self.target_instances,
            s.min_instances == self.min_instances,
            s.max_instances == self.max_instances,
            s.last_scaling_ms == self.last_scaling_ms,
            s.cooldown_remaining_ms == cooldown_left(*self, now_ms),
    {
        ScalingStatus {
            current_instances: self.current_instances,
            target_instances: self.target_instances,
            min_instances: self.min_instances,
            max_instances: self.max_instances,
            last_scaling_ms: self.last_scaling_ms,
            cooldown_remaining_ms: self.cooldown_remaining(now_ms),
        }
    }
}

/// Data points a resource history keeps: a day at one point a minute.
pub const HISTORY_LIMIT: usize = 1440;

/// Drops the oldest points of a history until at most `limit` are left.
pub fn trim_history<T>(history: &mut Vec<T>, limit: usize)
    ensures
        final(history)@ == if old(history)@.len() > limit {
            old(history)@.subrange(old(history)@.len() - limit, old(history)@.len() as int)
        } else {
            old(history)@
        },
{
    let ghost orig = history@;
    while history.len() > limit
        invariant
            history@.len() >= limit || history@ == orig,
            history@ == orig.subrange(orig.len() - history@.len(), orig.len() as int),
            history@.len() <= orig.len(),
        decreases history@.len(),
    {
        let ghost before = history@;
        history.remove(0);
        proof {
            assert(history@ =~= before.subrange(1, before.len() as int));
            assert(history@ =~= orig.subrange(orig.len() - history@.len(), orig.len() as int));
        }
    }
    proof {
        if orig.len() <= limit {
            assert(orig.subrange(0, orig.len() as int) =~= orig);
        }
    }
}

/// Sum of a sequence of figures.
pub open spec fn seq_sum(s: Seq<u64>) -> nat
    decreases s.len(),
{
    if s.len() == 0 {
        0
    } else {
        seq_sum(s.drop_last()) + s.last() as nat
    }
}

/// The last (at most) ten figures of a history.
pub open spec fn recent_ten(s: Seq<u64>) -> Seq<u64> {
    if s.len() > 10 {
        s.subrange(s.len() - 10, s.len() as int)
    } else {
        s
    }
}

/// The predicted next figure: the mean of the last ten (rounded down),
/// 0 without history.
pub fn predict_from_recent(history: &Vec<u64>) -> (p: u64)
    requires
        seq_sum(recent_ten(history@)) <= u64::MAX,
    ensures
        p == if history@.len() == 0 {
            0
        } else {
            seq_sum(recent_ten(history@)) / recent_ten(history@).len()
        },
{
    let n = history.len();
    if n == 0 {
        return 0;
    }
    let start: usize = if n > 10 {
        n - 10
    } else {
        0
    };
    let ghost r = recent_ten(history@);
    proof {
        assert(r =~= history@.subrange(start as int, n as int));
    }
    let mut sum: u64 = 0;
    let mut i: usize = start;
    while i < n
        invariant
            start <= i <= n,
            n == history@.len(),
            r == history@.subrange(start as int, n as int),
            seq_sum(r) <= u64::MAX,
            sum == seq_sum(history@.subrange(start as int, i as int)),
        decreases n - i,
    {
        proof {
            assert(history@.subrange(start as int, i + 1).drop_last() =~= history@.subrange(
                start as int,
                i as int,
            ));
            lemma_sum_prefix_le(r, (i + 1 - start) as int);
            assert(r.take(i + 1 - start) =~= history@.subrange(start as int, i + 1));
        }
        sum = sum + history[i];
        i = i + 1;
    }
    sum / ((n - start) as u64)
}

/// A prefix sums to no more than the whole.
pub proof fn lemma_sum_prefix_le(s: Seq<u64>, k: int)
    requires
        0 <= k <= s.len(),
    ensures
        seq_sum(s.take(k)) <= seq_sum(s),
    decreases s.len(),
{
    if k < s.len() {
        assert(s.drop_last().take(k) =~= s.take(k));
        lemma_sum_prefix_le(s.drop_last(), k);
    } else {
        assert(s.take(k) =~= s);
    }
}

} // verus!
