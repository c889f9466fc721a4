//! Graceful shutdown: the order in which shutdown handlers run, the verdict
//! over their outcomes, and the shutdown settings and statistics.

use vstd::prelude::*;
use crate::env_report::{debug_quoted, str_debug};
use crate::error::AppError;
use crate::text::{push_str, str_eq};

verus! {

/// Shutdown settings, in milliseconds.
#[derive(Debug, Clone, Copy)]
pub struct ShutdownConfig {
    pub timeout_ms: u64,
    pub force_timeout_ms: u64,
    pub signal_handlers_enabled: bool,
}

impl Default for ShutdownConfig {
    fn default() -> (c: Self)
        ensures
            c.timeout_ms == 30000 && c.force_timeout_ms == 5000 && c.signal_handlers_enabled,
    {
        ShutdownConfig { timeout_ms: 30000, force_timeout_ms: 5000, signal_handlers_enabled: true }
    }
}

/// What a shutdown did; times are milliseconds since the Unix epoch.
#[derive(Debug, Clone)]
pub struct ShutdownStats {
    pub shutdown_started_at_ms: Option<u64>,
    pub shutdown_completed_at_ms: Option<u64>,
    pub shutdown_duration_ms: Option<u64>,
    pub shutdown_successful: bool,
    pub handlers_executed: Vec<String>,
    pub failed_handlers: Vec<String>,
}

impl Default for ShutdownStats {
    fn default() -> (s: Self)
        ensures
            s.shutdown_started_at_ms is None && s.shutdown_completed_at_ms is None
                && s.shutdown_duration_ms is None && !s.shutdown_successful
                && s.handlers_executed@.len() == 0 && s.failed_handlers@.len() == 0,
    {
        ShutdownStats {
            shutdown_started_at_ms: None,
            shutdown_completed_at_ms: None,
            shutdown_duration_ms: None,
            shutdown_successful: false,
            handlers_executed: Vec::new(),
            failed_handlers: Vec::new(),
        }
    }
}

impl ShutdownStats {
    /// Records a finished shutdown: when it started and ended, how long it
    /// took (unknown when the clock went back), and whether every handler
    /// succeeded.
    pub fn record_finish(&mut self, started_ms: u64, completed_ms: u64, successful: bool)
        ensures
            final(self).shutdown_started_at_ms == Some(started_ms),
            final(self).shutdown_completed_at_ms == Some(completed_ms),
            final(self).shutdown_duration_ms == if completed_ms >= started_ms {
                Some((completed_ms - started_ms) as u64)
            } else {
                None
            },
            final(self).shutdown_successful == successful,
            final(self).handlers_executed@ == old(self).handlers_executed@,
            final(self).failed_handlers@ == old(self).failed_handlers@,
    {
        self.shutdown_started_at_ms = Some(started_ms);
        self.shutdown_completed_at_ms = Some(completed_ms);
        self.shutdown_duration_ms = if completed_ms >= started_ms {
            Some(completed_ms - started_ms)
        } else {
            None
        };
        self.shutdown_successful = successful;
    }
}

/// View of the registered handlers: name and priority.
pub open spec fn handlers_view(v: Seq<(String, u32)>) -> Seq<(Seq<char>, u32)> {
    v.map_values(|h: (String, u32)| (h.0@, h.1))
}

/// Handler `a` runs before handler `b`: a smaller priority first, and in
/// registration order among equal priorities.
pub open spec fn runs_before(hs: Seq<(Seq<char>, u32)>, a: int, b: int) -> bool {
    hs[a].1 < hs[b].1 || (hs[a].1 == hs[b].1 && a < b)
}

/// `idx` lists the positions of all handlers in the order they run.
pub open spec fn is_run_order(hs: Seq<(Seq<char>, u32)>, idx: Seq<usize>) -> bool {
    &&& idx.len() == hs.len()
    &&& forall|a: int| 0 <= a < idx.len() ==> idx[a] < hs.len()
    &&& forall|a: int, b: int| 0 <= a < b < idx.len() ==> runs_before(hs, idx[a] as int, idx[b] as int)
}

fn run_order(handlers: &Vec<(String, u32)>) -> (r: Vec<usize>)
    ensures
        is_run_order(handlers_view(handlers@), r@),
{
    let ghost hs = handlers_view(handlers@);
    let n = handlers.len();
    let mut r: Vec<usize> = Vec::new();
    let mut i: usize = 0;
    while i < n
        invariant
            n == handlers@.len(),
            hs == handlers_view(handlers@),
            i <= n,
            r@.len() == i,
            forall|a: int| 0 <= a < r@.len() ==> r@[a] < i,
            forall|a: int, b: int| 0 <= a < b < r@.len() ==> runs_before(hs, r@[a] as int, r@[b] as int),
        decreases n - i,
    {
        let mut p: usize = 0;
        while p < r.len() && handlers[r[p]].1 <= handlers[i].1
            invariant
                n == handlers@.len(),
                hs == handlers_view(handlers@),
                i < n,
                p <= r@.len(),
                r@.len() == i,
                forall|a: int| 0 <= a < r@.len() ==> r@[a] < i,
                forall|a: int, b: int|
                    0 <= a < b < r@.len() ==> runs_before(hs, r@[a] as int, r@[b] as int),
                forall|a: int| 0 <= a < p ==> runs_before(hs, r@[a] as int, i as int),
            decreases r.len() - p,
        {
            p = p + 1;
        }
        let ghost before = r@;
        proof {
            assert forall|a: int| p <= a < before.len() implies runs_before(
                hs,
                i as int,
                #[trigger] before[a] as int,
            ) by {
                if a > p {
                    assert(runs_before(hs, before[p as int] as int, before[a] as int));
                }
            }
        }
        r.insert(p, i);
        proof {
            assert(r@ =~= before.insert(p as int, i));
            assert forall|a: int, b: int| 0 <= a < b < r@.len() implies runs_before(
                hs,
                r@[a] as int,
                r@[b] as int,
            ) by {
                if b < p {
                } else if b == p {
                    assert(r@[a] == before[a]);
                } else if a < p {
                    assert(r@[b] == before[b - 1]);
                } else if a == p {
                    assert(r@[b] == before[b - 1]);
                } else {
                    assert(r@[a] == before[a - 1] && r@[b] == before[b - 1]);
                }
            }
        }
        i = i + 1;
    }
    r
}

/// The order in which registered handlers `(name, priority)` run: every
/// handler once, smaller priority first (the built-in ones: http_server
/// 5, app_state 10, database 50, resource_cleaner 90), in registration
/// order among equal priorities.
pub fn get_ordered_handlers(handlers: &Vec<(String, u32)>) -> (r: Vec<String>)
    ensures
        exists|idx: Seq<usize>|
            {
                &&& is_run_order(handlers_view(handlers@), idx)
                &&& #[trigger] r.deep_view() == idx.map_values(
                    |k: usize| handlers_view(handlers@)[k as int].0,
                )
            },
{
    let idx = run_order(handlers);
    let ghost hs = handlers_view(handlers@);
    let mut r: Vec<String> = Vec::new();
    let mut i: usize = 0;
    while i < idx.len()
        invariant
            i <= idx@.len(),
            hs == handlers_view(handlers@),
            is_run_order(hs, idx@),
            r.deep_view() == idx@.take(i as int).map_values(|k: usize| hs[k as int].0),
        decreases idx.len() - i,
    {
        let ghost before = r.deep_view();
        let k = idx[i];
        r.push(handlers[k].0.clone());
        proof {
            assert(r.deep_view() =~= before.push(hs[k as int].0));
            assert(idx@.take(i + 1).map_values(|k: usize| hs[k as int].0) =~= idx@.take(
                i as int,
            ).map_values(|k: usize| hs[k as int].0).push(hs[k as int].0));
        }
        i = i + 1;
    }
    proof {
        assert(idx@.take(idx@.len() as int) =~= idx@);
    }
    r
}

/// In a run order every registered handler runs exactly once.
pub proof fn lemma_run_order_runs_each_once(hs: Seq<(Seq<char>, u32)>, idx: Seq<usize>)
    requires
        is_run_order(hs, idx),
    ensures
        idx.no_duplicates(),
        forall|j: usize| j < hs.len() ==> #[trigger] idx.contains(j),
{
    let k = hs.len() as int;
    let ri = idx.map_values(|x: usize| x as int);
    assert forall|a: int, b: int| 0 <= a < idx.len() && 0 <= b < idx.len() && a != b implies idx[a]
        != idx[b] by {
        if a < b {
            assert(runs_before(hs, idx[a] as int, idx[b] as int));
        } else {
            assert(runs_before(hs, idx[b] as int, idx[a] as int));
        }
    }
    assert(ri.no_duplicates());
    ri.unique_seq_to_set();
    vstd::seq_lib::seq_to_set_is_finite(ri);
    vstd::set_lib::lemma_int_range(0, k);
    let range = vstd::set_lib::set_int_range(0, k);
    assert(ri.to_set().subset_of(range)) by {
        assert forall|x: int| ri.to_set().contains(x) implies range.contains(x) by {
            let a = choose|a: int| 0 <= a < ri.len() && ri[a] == x;
            assert(idx[a] < k);
        }
    }
    vstd::set_lib::lemma_subset_equality(ri.to_set(), range);
    assert forall|j: usize| j < hs.len() implies #[trigger] idx.contains(j) by {
        assert(range.contains(j as int));
        assert(ri.to_set().contains(j as int));
        let a = choose|a: int| 0 <= a < ri.len() && ri[a] == j as int;
        assert(idx[a] == j);
    }
}

/// Names of the handlers that did not succeed, in order.
pub open spec fn failed_names(results: Seq<(Seq<char>, bool)>) -> Seq<Seq<char>>
    decreases results.len(),
{
    if results.len() == 0 {
        Seq::empty()
    } else if results.last().1 {
        failed_names(results.drop_last())
    } else {
        failed_names(results.drop_last()).push(results.last().0)
    }
}

/// `{:?}` of a list of strings: `["a", "b"]`.
pub open spec fn debug_list(items: Seq<Seq<char>>) -> Seq<char> {
    "["@ + debug_items(items) + "]"@
}

/// The quoted items of a list, separated by `, `.
pub open spec fn debug_items(items: Seq<Seq<char>>) -> Seq<char>
    decreases items.len(),
{
    if items.len() == 0 {
        Seq::empty()
    } else if items.len() == 1 {
        str_debug(items[0])
    } else {
        debug_items(items.drop_last()) + ", "@ + str_debug(items.last())
    }
}

fn debug_string_list(items: &Vec<String>) -> (r: String)
    ensures
        r@ == debug_list(items.deep_view()),
{
    let mut r = String::from_str("[");
    let ghost iv = items.deep_view();
    let mut i: usize = 0;
    proof {
        assert(iv.take(0) =~= Seq::<Seq<char>>::empty());
    }
    while i < items.len()
        invariant
            i <= items@.len(),
            iv == items.deep_view(),
            r@ == "["@ + debug_items(iv.take(i as int)),
        decreases items.len() - i,
    {
        proof {
            assert(iv.take(i + 1).drop_last() =~= iv.take(i as int));
        }
        if i > 0 {
            push_str(&mut r, ", ");
        }
        let q = debug_quoted(items[i].as_str());
        push_str(&mut r, q.as_str());
        proof {
            if i == 0 {
                assert(iv.take(1)[0] == iv[0]);
            }
            assert(r@ =~= "["@ + debug_items(iv.take(i + 1)));
        }
        i = i + 1;
    }
    push_str(&mut r, "]");
    proof {
        assert(iv.take(items.len() as int) =~= iv);
    }
    r
}

/// The verdict over the handler outcomes (name, succeeded): `Ok` when all
/// succeeded, else a configuration error naming the failed ones.
pub fn shutdown_verdict(results: &Vec<(String, bool)>) -> (r: Result<(), AppError>)
    ensures
        ({
            let rv = results@.map_values(|e: (String, bool)| (e.0@, e.1));
            let failed = failed_names(rv);
            &&& r is Ok <==> failed.len() == 0
            &&& r is Err ==> r->Err_0 is Config && r->Err_0.message()
                == "Shutdown handlers failed: "@ + debug_list(failed)
        }),
{
    let ghost rv = results@.map_values(|e: (String, bool)| (e.0@, e.1));
    let mut failed: Vec<String> = Vec::new();
    let mut i: usize = 0;
    proof {
        assert(rv.take(0) =~= Seq::<(Seq<char>, bool)>::empty());
        assert(failed.deep_view() =~= Seq::<Seq<char>>::empty());
    }
    while i < results.len()
        invariant
            i <= results@.len(),
            rv == results@.map_values(|e: (String, bool)| (e.0@, e.1)),
            failed.deep_view() == failed_names(rv.take(i as int)),
        decreases results.len() - i,
    {
        proof {
            assert(rv.take(i + 1).drop_last() =~= rv.take(i as int));
            assert(rv.take(i + 1).last() == rv[i as int]);
        }
        if !results[i].1 {
            let ghost before = failed.deep_view();
            failed.push(results[i].0.clone());
            proof {
                assert(failed.deep_view() =~= before.push(results@[i as int].0@));
            }
        }
        i = i + 1;
    }
    proof {
        assert(rv.take(results.len() as int) =~= rv);
    }
    if failed.len() == 0 {
        Ok(())
    } else {
        let mut msg = String::from_str("Shutdown handlers failed: ");
        let list = debug_string_list(&failed);
        push_str(&mut msg, list.as_str());
        Err(AppError::Config(msg))
    }
}

/// A component that takes part in a graceful shutdown. The shutdown work
/// itself is asynchronous and left to the caller; what the library needs
/// is the handler's name and its place in the order.
pub trait ShutdownHandler {
    /// The name it is registered under.
    fn name(&self) -> &str;

    /// Its priority: smaller runs earlier; 100 unless the handler says
    /// otherwise.
    fn priority(&self) -> (p: u32)
        default_ensures
            p == 100,
    {
        100
    }
}

/// Shutdown handler of the database connections.
#[derive(Debug, Clone, Copy)]
pub struct DatabaseShutdownHandler;

/// Shutdown handler of the HTTP server.
#[derive(Debug, Clone, Copy)]
pub struct HttpServerShutdownHandler;

impl DatabaseShutdownHandler {
    /// The handler.
    pub fn new() -> Self {
        DatabaseShutdownHandler
    }
}

impl ShutdownHandler for DatabaseShutdownHandler {
    fn name(&self) -> (s: &str)
        ensures
            s@ == "database"@,
    {
        "database"
    }

    fn priority(&self) -> (p: u32)
        ensures
            p == 50,
    {
        50
    }
}

impl HttpServerShutdownHandler {
    /// The handler.
    pub fn new() -> Self {
        HttpServerShutdownHandler
    }
}

impl ShutdownHandler for HttpServerShutdownHandler {
    fn name(&self) -> (s: &str)
        ensures
            s@ == "http_server"@,
    {
        "http_server"
    }

    fn priority(&self) -> (p: u32)
        ensures
            p == 5,
    {
        5
    }
}

/// Whether a shutdown is under way, and the one-shot start of it.
#[derive(Debug, Clone, Copy)]
pub struct ShutdownFlag {
    pub is_shutting_down: bool,
}

impl ShutdownFlag {
    /// Marks the shutdown as started; returns whether it had already
    /// started, in which case the caller does nothing more.
    pub fn begin(&mut self) -> (already: bool)
        ensures
            already == old(self).is_shutting_down,
            final(self).is_shutting_down,
    {
        let already = self.is_shutting_down;
        self.is_shutting_down = true;
        already
    }
}

} // verus!
