//! What holds of the scheduler whatever is done with it: the cap on probes in
//! flight, the finality of a reload, and the silence after a stop.

use crate::config::types::{GlobalConfigView, ServiceConfigView};
use crate::config::validation::names_unique;
use crate::health::alert::AlertAction;
use crate::health::result::HealthStatus;
use crate::health::scheduler::{
    accepts, after_gate, after_outcome, enabled_name, find_task, gate_of, lemma_count_update,
    new_task, outcome_action, probing_count, scheduler_wf, task_names, tasks_after_reload,
    tasks_after_start, tasks_kept, tasks_started, tasks_without, ProbeGate, SchedulerPhase,
    SchedulerView, TaskView,
};
use vstd::prelude::*;

verus! {

/// The cap on concurrency: a scheduler in order has no more probes in flight
/// than permits, a task is let through only while a permit is free, and
/// letting it through keeps the scheduler in order.
pub proof fn lemma_concurrency_cap(v: SchedulerView, name: Seq<char>)
    requires
        scheduler_wf(v),
    ensures
        probing_count(v.tasks) <= v.permits,
        gate_of(v, name) == ProbeGate::Run ==> probing_count(v.tasks) < v.permits,
        scheduler_wf(after_gate(v, name)),
        probing_count(after_gate(v, name).tasks) <= v.permits,
{
    if gate_of(v, name) == ProbeGate::Run {
        let names = task_names(v.tasks);
        let i = names.index_of(name);
        assert(names[i] == name);
        let t = TaskView { probing: true, ..v.tasks[i] };
        lemma_count_update(v.tasks, i, t);
        assert(task_names(v.tasks.update(i, t)) =~= names);
    }
}

/// Every task that is left after a task was stopped was there before.
pub proof fn lemma_without_is_part(tasks: Seq<TaskView>, name: Seq<char>, i: int)
    requires
        0 <= i < tasks_without(tasks, name).len(),
    ensures
        exists|k: int| 0 <= k < tasks.len() && tasks[k] == tasks_without(tasks, name)[i],
{
    match find_task(tasks, name) {
        Some(at) => {
            let names = task_names(tasks);
            assert(names[at] == name);
            let k = if i < at {
                i
            } else {
                i + 1
            };
            assert(tasks[k] == tasks.remove(at)[i]);
        },
        None => {
            assert(tasks[i] == tasks_without(tasks, name)[i]);
        },
    }
}

/// Every task that is kept over a reload belongs to an enabled service.
pub proof fn lemma_kept_are_enabled(
    tasks: Seq<TaskView>,
    services: Seq<ServiceConfigView>,
    n: int,
    i: int,
)
    requires
        0 <= n <= tasks.len(),
        0 <= i < tasks_kept(tasks, services, n).len(),
    ensures
        enabled_name(services, tasks_kept(tasks, services, n)[i].name),
    decreases n,
{
    if n > 0 {
        let prev = tasks_kept(tasks, services, n - 1);
        if i < prev.len() {
            lemma_kept_are_enabled(tasks, services, n - 1, i);
        }
    }
}

/// Starting tasks for enabled services leaves only tasks of enabled services,
/// where it began with such.
pub proof fn lemma_started_are_enabled(
    tasks: Seq<TaskView>,
    global: GlobalConfigView,
    services: Seq<ServiceConfigView>,
    n: int,
    i: int,
)
    requires
        0 <= n <= services.len(),
        forall|k: int| 0 <= k < tasks.len() ==> enabled_name(services, (#[trigger] tasks[k]).name),
        0 <= i < tasks_after_start(tasks, global, services, n).len(),
    ensures
        enabled_name(services, tasks_after_start(tasks, global, services, n)[i].name),
    decreases n,
{
    if n > 0 {
        let prev = tasks_after_start(tasks, global, services, n - 1);
        let s = services[n - 1];
        if s.enabled {
            let rest = tasks_without(prev, s.name);
            if i < rest.len() {
                lemma_without_is_part(prev, s.name, i);
                let k = choose|k: int| 0 <= k < prev.len() && prev[k] == rest[i];
                lemma_started_are_enabled(tasks, global, services, n - 1, k);
                assert(tasks_started(prev, global, s)[i] == rest[i]);
            } else {
                assert(tasks_started(prev, global, s)[i] == new_task(global, s));
                assert(services[n - 1].enabled && services[n - 1].name == s.name);
            }
        } else {
            lemma_started_are_enabled(tasks, global, services, n - 1, i);
        }
    }
}

/// A reload is final: a service that the new list does not enable has no
/// task once the reload has returned, so its task is told to end when it
/// next asks, and the outcome of a probe it had in flight is discarded
/// without a trace.
pub proof fn lemma_reload_is_point_in_time(
    v: SchedulerView,
    services: Seq<ServiceConfigView>,
    name: Seq<char>,
    status: HealthStatus,
    now: u64,
)
    requires
        !enabled_name(services, name),
    ensures
        ({
            let after = SchedulerView {
                tasks: tasks_after_reload(v.tasks, v.global, services),
                total_services: services.len() as usize,
                ..v
            };
            &&& find_task(after.tasks, name) is None
            &&& gate_of(after, name) == ProbeGate::SkipGone
            &&& after_gate(after, name) == after
            &&& !accepts(after, name)
            &&& outcome_action(after, name, status, now) == AlertAction::NoAction
            &&& after_outcome(after, name, status, now) == after
        }),
{
    let kept = tasks_kept(v.tasks, services, v.tasks.len() as int);
    let tasks = tasks_after_reload(v.tasks, v.global, services);
    assert forall|k: int| 0 <= k < kept.len() implies enabled_name(
        services,
        (#[trigger] kept[k]).name,
    ) by {
        lemma_kept_are_enabled(v.tasks, services, v.tasks.len() as int, k);
    }
    let names = task_names(tasks);
    if names.contains(name) {
        let i = names.index_of(name);
        assert(names[i] == name);
        lemma_started_are_enabled(kept, v.global, services, services.len() as int, i);
    }
}

/// After a stop nothing moves: whatever task asks is told to end, and
/// whatever outcome arrives is discarded, asks nothing of the notifier and
/// leaves the scheduler as it is.
pub proof fn lemma_stopped_is_inert(v: SchedulerView, name: Seq<char>, status: HealthStatus, now: u64)
    requires
        v.phase == SchedulerPhase::Stopped,
    ensures
        gate_of(v, name) == ProbeGate::SkipGone,
        after_gate(v, name) == v,
        !accepts(v, name),
        outcome_action(v, name, status, now) == AlertAction::NoAction,
        after_outcome(v, name, status, now) == v,
{
}

/// Whether `t` is one of `tasks`.
pub open spec fn is_task_of(tasks: Seq<TaskView>, t: TaskView) -> bool {
    exists|k: int| 0 <= k < tasks.len() && tasks[k] == t
}

/// Whether `t` is the new task of an enabled one of the first `n` services.
pub open spec fn is_new_task_of(
    global: GlobalConfigView,
    services: Seq<ServiceConfigView>,
    n: int,
    t: TaskView,
) -> bool {
    exists|j: int|
        0 <= j < n && (#[trigger] services[j]).enabled && t == new_task(global, services[j])
}

/// Whether an enabled one of the first `n` services is named `name`.
pub open spec fn enabled_among(services: Seq<ServiceConfigView>, n: int, name: Seq<char>) -> bool {
    exists|j: int| 0 <= j < n && (#[trigger] services[j]).enabled && services[j].name == name
}

/// Stopping the task of a name, where names are unique, leaves no task of
/// that name, keeps every other task, and keeps the names unique.
pub proof fn lemma_without(tasks: Seq<TaskView>, name: Seq<char>)
    requires
        task_names(tasks).no_duplicates(),
    ensures
        task_names(tasks_without(tasks, name)).no_duplicates(),
        forall|i: int|
            0 <= i < tasks_without(tasks, name).len() ==> (#[trigger] tasks_without(
                tasks,
                name,
            )[i]).name != name && is_task_of(tasks, tasks_without(tasks, name)[i]),
        forall|k: int|
            0 <= k < tasks.len() && (#[trigger] tasks[k]).name != name ==> is_task_of(
                tasks_without(tasks, name),
                tasks[k],
            ),
{
    let names = task_names(tasks);
    let rest = tasks_without(tasks, name);
    match find_task(tasks, name) {
        Some(at) => {
            assert(names[at] == name);
            assert forall|i: int| 0 <= i < rest.len() implies (#[trigger] rest[i]).name != name
                && is_task_of(tasks, rest[i]) by {
                let k = if i < at {
                    i
                } else {
                    i + 1
                };
                assert(rest[i] == tasks[k]);
                assert(names[k] == tasks[k].name);
            }
            assert forall|a: int, b: int|
                0 <= a < rest.len() && 0 <= b < rest.len() && a != b implies task_names(rest)[a]
                != task_names(rest)[b] by {
                let a0 = if a < at {
                    a
                } else {
                    a + 1
                };
                let b0 = if b < at {
                    b
                } else {
                    b + 1
                };
                assert(rest[a] == tasks[a0] && rest[b] == tasks[b0]);
                assert(names[a0] == tasks[a0].name && names[b0] == tasks[b0].name);
            }
            assert forall|k: int|
                0 <= k < tasks.len() && (#[trigger] tasks[k]).name != name implies is_task_of(
                rest,
                tasks[k],
            ) by {
                assert(names[k] == tasks[k].name);
                let i = if k < at {
                    k
                } else {
                    k - 1
                };
                assert(rest[i] == tasks[k]);
            }
        },
        None => {
            assert forall|i: int| 0 <= i < rest.len() implies (#[trigger] rest[i]).name != name
                && is_task_of(tasks, rest[i]) by {
                assert(names[i] == tasks[i].name);
                assert(names.contains(names[i]));
            }
        },
    }
}

/// The tasks that a reload keeps are tasks that were there, and their names
/// stay unique.
pub proof fn lemma_kept_unique(tasks: Seq<TaskView>, services: Seq<ServiceConfigView>, n: int)
    requires
        task_names(tasks).no_duplicates(),
        0 <= n <= tasks.len(),
    ensures
        task_names(tasks_kept(tasks, services, n)).no_duplicates(),
        forall|i: int|
            0 <= i < tasks_kept(tasks, services, n).len() ==> exists|k: int|
                0 <= k < n && tasks[k] == #[trigger] tasks_kept(tasks, services, n)[i],
    decreases n,
{
    if n > 0 {
        lemma_kept_unique(tasks, services, n - 1);
        let prev = tasks_kept(tasks, services, n - 1);
        let cur = tasks_kept(tasks, services, n);
        let names = task_names(tasks);
        if enabled_name(services, tasks[n - 1].name) {
            assert forall|i: int| 0 <= i < cur.len() implies exists|k: int|
                0 <= k < n && tasks[k] == #[trigger] cur[i] by {
                if i < prev.len() {
                    let k = choose|k: int| 0 <= k < n - 1 && tasks[k] == prev[i];
                    assert(tasks[k] == cur[i]);
                } else {
                    assert(tasks[n - 1] == cur[i]);
                }
            }
            assert forall|a: int, b: int|
                0 <= a < cur.len() && 0 <= b < cur.len() && a != b implies task_names(cur)[a]
                != task_names(cur)[b] by {
                let ka = choose|k: int| 0 <= k < n && tasks[k] == cur[a];
                let kb = choose|k: int| 0 <= k < n && tasks[k] == cur[b];
                if a < prev.len() && b < prev.len() {
                    assert(task_names(prev)[a] == prev[a].name);
                    assert(task_names(prev)[b] == prev[b].name);
                } else if a < prev.len() {
                    let k = choose|k: int| 0 <= k < n - 1 && tasks[k] == prev[a];
                    assert(names[k] == tasks[k].name);
                    assert(names[n - 1] == tasks[n - 1].name);
                } else {
                    let k = choose|k: int| 0 <= k < n - 1 && tasks[k] == prev[b];
                    assert(names[k] == tasks[k].name);
                    assert(names[n - 1] == tasks[n - 1].name);
                }
            }
        } else {
            assert forall|i: int| 0 <= i < cur.len() implies exists|k: int|
                0 <= k < n && tasks[k] == #[trigger] cur[i] by {
                let k = choose|k: int| 0 <= k < n - 1 && tasks[k] == prev[i];
                assert(tasks[k] == cur[i]);
            }
        }
    }
}

/// What starting tasks for the first `n` services leaves, where the names of
/// the tasks and of the services are unique: the names stay unique; every
/// task is the new task of an enabled service or was there before under a
/// name that no enabled service has; and every enabled service has its new
/// task.
pub proof fn lemma_after_start(
    tasks: Seq<TaskView>,
    global: GlobalConfigView,
    services: Seq<ServiceConfigView>,
    n: int,
)
    requires
        task_names(tasks).no_duplicates(),
        names_unique(services),
        0 <= n <= services.len(),
    ensures
        task_names(tasks_after_start(tasks, global, services, n)).no_duplicates(),
        forall|i: int|
            0 <= i < tasks_after_start(tasks, global, services, n).len() ==> {
                let t = #[trigger] tasks_after_start(tasks, global, services, n)[i];
                is_new_task_of(global, services, n, t) || (is_task_of(tasks, t) && !enabled_among(
                    services,
                    n,
                    t.name,
                ))
            },
        forall|j: int|
            0 <= j < n && (#[trigger] services[j]).enabled ==> is_task_of(
                tasks_after_start(tasks, global, services, n),
                new_task(global, services[j]),
            ),
    decreases n,
{
    if n > 0 {
        lemma_after_start(tasks, global, services, n - 1);
        let prev = tasks_after_start(tasks, global, services, n - 1);
        let cur = tasks_after_start(tasks, global, services, n);
        let s = services[n - 1];
        if s.enabled {
            lemma_without(prev, s.name);
            let rest = tasks_without(prev, s.name);
            let fresh = new_task(global, s);
            assert(cur == rest.push(fresh));
            assert forall|a: int, b: int|
                0 <= a < cur.len() && 0 <= b < cur.len() && a != b implies task_names(cur)[a]
                != task_names(cur)[b] by {
                if a < rest.len() && b < rest.len() {
                    assert(task_names(rest)[a] == rest[a].name);
                    assert(task_names(rest)[b] == rest[b].name);
                } else if a < rest.len() {
                    assert(cur[a] == rest[a]);
                } else {
                    assert(cur[b] == rest[b]);
                }
            }
            assert forall|i: int| 0 <= i < cur.len() implies ({
                let t = #[trigger] cur[i];
                is_new_task_of(global, services, n, t) || (is_task_of(tasks, t) && !enabled_among(
                    services,
                    n,
                    t.name,
                ))
            }) by {
                let t = cur[i];
                if i < rest.len() {
                    assert(t == rest[i]);
                    let k = choose|k: int| 0 <= k < prev.len() && prev[k] == rest[i];
                    assert(prev[k] == t);
                    if is_new_task_of(global, services, n - 1, t) {
                        let j = choose|j: int|
                            0 <= j < n - 1 && (#[trigger] services[j]).enabled && t == new_task(
                                global,
                                services[j],
                            );
                        assert(services[j].enabled && t == new_task(global, services[j]));
                    } else {
                        if enabled_among(services, n, t.name) {
                            let j = choose|j: int|
                                0 <= j < n && (#[trigger] services[j]).enabled && services[j].name
                                    == t.name;
                            if j < n - 1 {
                                assert(enabled_among(services, n - 1, t.name));
                            }
                        }
                    }
                } else {
                    assert(t == fresh);
                    assert(services[n - 1].enabled && t == new_task(global, services[n - 1]));
                }
            }
            assert forall|j: int| 0 <= j < n && (#[trigger] services[j]).enabled implies is_task_of(
                cur,
                new_task(global, services[j]),
            ) by {
                if j < n - 1 {
                    let t = new_task(global, services[j]);
                    let k = choose|k: int| 0 <= k < prev.len() && prev[k] == t;
                    assert(prev[k].name != s.name);
                    let i = choose|i: int| 0 <= i < rest.len() && rest[i] == prev[k];
                    assert(cur[i] == t);
                } else {
                    assert(cur[rest.len() as int] == fresh);
                }
            }
        } else {
            assert forall|i: int| 0 <= i < cur.len() implies ({
                let t = #[trigger] cur[i];
                is_new_task_of(global, services, n, t) || (is_task_of(tasks, t) && !enabled_among(
                    services,
                    n,
                    t.name,
                ))
            }) by {
                let t = cur[i];
                if is_new_task_of(global, services, n - 1, t) {
                    let j = choose|j: int|
                        0 <= j < n - 1 && (#[trigger] services[j]).enabled && t == new_task(
                            global,
                            services[j],
                        );
                    assert(services[j].enabled && t == new_task(global, services[j]));
                } else {
                    if enabled_among(services, n, t.name) {
                        let j = choose|j: int|
                            0 <= j < n && (#[trigger] services[j]).enabled && services[j].name
                                == t.name;
                        assert(j < n - 1);
                        assert(enabled_among(services, n - 1, t.name));
                    }
                }
            }
        }
    }
}

/// A start gives every enabled service its task and no other: where the
/// services have unique names, the tasks after the start are the new tasks
/// of the enabled services, one each.
pub proof fn lemma_start_covers_enabled(
    global: GlobalConfigView,
    services: Seq<ServiceConfigView>,
)
    requires
        names_unique(services),
    ensures
        ({
            let after = tasks_after_start(
                Seq::<TaskView>::empty(),
                global,
                services,
                services.len() as int,
            );
            &&& task_names(after).no_duplicates()
            &&& forall|i: int|
                0 <= i < after.len() ==> is_new_task_of(
                    global,
                    services,
                    services.len() as int,
                    #[trigger] after[i],
                )
            &&& forall|j: int|
                0 <= j < services.len() && (#[trigger] services[j]).enabled ==> is_task_of(
                    after,
                    new_task(global, services[j]),
                )
        }),
{
    let none = Seq::<TaskView>::empty();
    assert(task_names(none) =~= Seq::<Seq<char>>::empty());
    lemma_after_start(none, global, services, services.len() as int);
}

/// A reload starts everything afresh: where the tasks and the services have
/// unique names, the tasks after the reload are the new tasks of the enabled
/// services, one each. None of them has a probe in flight or a failure
/// counted, so whatever was in flight before the reload is discarded.
pub proof fn lemma_reload_restarts_everything(
    tasks: Seq<TaskView>,
    global: GlobalConfigView,
    services: Seq<ServiceConfigView>,
)
    requires
        task_names(tasks).no_duplicates(),
        names_unique(services),
    ensures
        ({
            let after = tasks_after_reload(tasks, global, services);
            &&& task_names(after).no_duplicates()
            &&& forall|i: int|
                0 <= i < after.len() ==> is_new_task_of(
                    global,
                    services,
                    services.len() as int,
                    #[trigger] after[i],
                ) && !after[i].probing && after[i].alert.consecutive_failures == 0
            &&& forall|j: int|
                0 <= j < services.len() && (#[trigger] services[j]).enabled ==> is_task_of(
                    after,
                    new_task(global, services[j]),
                )
        }),
{
    let kept = tasks_kept(tasks, services, tasks.len() as int);
    let after = tasks_after_reload(tasks, global, services);
    lemma_kept_unique(tasks, services, tasks.len() as int);
    lemma_after_start(kept, global, services, services.len() as int);
    assert forall|i: int| 0 <= i < after.len() implies is_new_task_of(
        global,
        services,
        services.len() as int,
        #[trigger] after[i],
    ) && !after[i].probing && after[i].alert.consecutive_failures == 0 by {
        let t = after[i];
        if !is_new_task_of(global, services, services.len() as int, t) {
            let k = choose|k: int| 0 <= k < kept.len() && kept[k] == t;
            lemma_kept_are_enabled(tasks, services, tasks.len() as int, k);
            let j = choose|j: int|
                0 <= j < services.len() && (#[trigger] services[j]).enabled && services[j].name
                    == kept[k].name;
            assert(services[j].enabled && services[j].name == t.name);
            assert(enabled_among(services, services.len() as int, t.name));
        }
        let j = choose|j: int|
            0 <= j < services.len() && (#[trigger] services[j]).enabled && t == new_task(
                global,
                services[j],
            );
        assert(t == new_task(global, services[j]));
    }
}

} // verus!
