//! The shared status registry: what is known of each service, and the
//! snapshot with its totals that readers get.

use crate::config::types::opt_text;
use crate::health::result::{wall_clock_millis, HealthResult, HealthResultView, HealthStatus};
use crate::strmap::StrMap;
use vstd::prelude::*;

verus! {

/// What is known of one service.
#[derive(Debug)]
pub struct ServiceStatus {
    /// The name of the service.
    pub name: String,
    /// The address that is probed.
    pub url: String,
    /// How the service is doing.
    pub status: HealthStatus,
    /// When it was last probed, in milliseconds since the Unix epoch.
    pub last_check: Option<i64>,
    /// The HTTP status of the last answer.
    pub status_code: Option<u16>,
    /// How long the last probe took, in milliseconds.
    pub response_time_ms: Option<u64>,
    /// How many probes have failed in a row.
    pub consecutive_failures: u32,
    /// What went wrong in the last probe, if anything did.
    pub error_message: Option<String>,
    /// Whether the service is probed at all.
    pub enabled: bool,
}

/// What a `ServiceStatus` says.
pub struct ServiceStatusView {
    pub name: Seq<char>,
    pub url: Seq<char>,
    pub status: HealthStatus,
    pub last_check: Option<i64>,
    pub status_code: Option<u16>,
    pub response_time_ms: Option<u64>,
    pub consecutive_failures: u32,
    pub error_message: Option<Seq<char>>,
    pub enabled: bool,
}

impl View for ServiceStatus {
    type V = ServiceStatusView;

    open spec fn view(&self) -> ServiceStatusView {
        ServiceStatusView {
            name: self.name@,
            url: self.url@,
            status: self.status,
            last_check: self.last_check,
            status_code: self.status_code,
            response_time_ms: self.response_time_ms,
            consecutive_failures: self.consecutive_failures,
            error_message: opt_text(self.error_message),
            enabled: self.enabled,
        }
    }
}

impl Clone for ServiceStatus {
    fn clone(&self) -> (r: Self)
        ensures
            r@ == self@,
    {
        ServiceStatus {
            name: self.name.clone(),
            url: self.url.clone(),
            status: self.status,
            last_check: self.last_check,
            status_code: self.status_code,
            response_time_ms: self.response_time_ms,
            consecutive_failures: self.consecutive_failures,
            error_message: self.error_message.clone(),
            enabled: self.enabled,
        }
    }
}

/// The views of a list of statuses, in order.
pub open spec fn statuses_view(statuses: Seq<ServiceStatus>) -> Seq<ServiceStatusView> {
    Seq::new(statuses.len(), |i: int| statuses[i]@)
}

/// Whether a service counts as healthy: enabled and up.
pub open spec fn is_healthy_entry(s: ServiceStatusView) -> bool {
    s.enabled && s.status == HealthStatus::Up
}

/// Whether a service counts as unhealthy: enabled, not up, and probed.
pub open spec fn is_unhealthy_entry(s: ServiceStatusView) -> bool {
    s.enabled && s.status != HealthStatus::Up && s.status != HealthStatus::Unknown
}

/// Whether a service counts as disabled.
pub open spec fn is_disabled_entry(s: ServiceStatusView) -> bool {
    !s.enabled
}

/// Whether a service is enabled and waits for its first probe.
pub open spec fn is_pending_entry(s: ServiceStatusView) -> bool {
    s.enabled && s.status == HealthStatus::Unknown
}

/// The kinds that the totals tell apart.
pub enum Tally {
    Healthy,
    Unhealthy,
    Disabled,
    Pending,
}

/// Whether a service is of the given kind.
pub open spec fn in_tally(s: ServiceStatusView, kind: Tally) -> bool {
    match kind {
        Tally::Healthy => is_healthy_entry(s),
        Tally::Unhealthy => is_unhealthy_entry(s),
        Tally::Disabled => is_disabled_entry(s),
        Tally::Pending => is_pending_entry(s),
    }
}

/// How many of the services are of the given kind.
pub open spec fn count_entries(services: Seq<ServiceStatusView>, kind: Tally) -> nat
    decreases services.len(),
{
    if services.len() == 0 {
        0
    } else {
        count_entries(services.drop_last(), kind) + if in_tally(services.last(), kind) {
            1nat
        } else {
            0nat
        }
    }
}

/// A snapshot of the registry.
#[derive(Debug)]
pub struct OverallStatus {
    /// When the monitor started.
    pub start_time: i64,
    /// The configuration file in force.
    pub config_path: String,
    /// How many services are known.
    pub total_services: usize,
    /// How many are enabled and up.
    pub healthy_services: usize,
    /// How many are enabled, probed and not up.
    pub unhealthy_services: usize,
    /// How many are disabled.
    pub disabled_services: usize,
    /// When the configuration was last reloaded.
    pub last_config_reload: Option<i64>,
    /// What is known of each service.
    pub services: Vec<ServiceStatus>,
}

/// What an `OverallStatus` says.
pub struct OverallStatusView {
    pub start_time: i64,
    pub config_path: Seq<char>,
    pub total_services: usize,
    pub healthy_services: usize,
    pub unhealthy_services: usize,
    pub disabled_services: usize,
    pub last_config_reload: Option<i64>,
    pub services: Seq<ServiceStatusView>,
}

impl View for OverallStatus {
    type V = OverallStatusView;

    open spec fn view(&self) -> OverallStatusView {
        OverallStatusView {
            start_time: self.start_time,
            config_path: self.config_path@,
            total_services: self.total_services,
            healthy_services: self.healthy_services,
            unhealthy_services: self.unhealthy_services,
            disabled_services: self.disabled_services,
            last_config_reload: self.last_config_reload,
            services: statuses_view(self.services@),
        }
    }
}

/// What the registry holds.
pub struct StatusManagerView {
    pub services: Seq<ServiceStatusView>,
    pub start_time: i64,
    pub config_path: Seq<char>,
    pub last_config_reload: Option<i64>,
}

/// The names of the services, in order.
pub open spec fn status_names(services: Seq<ServiceStatusView>) -> Seq<Seq<char>> {
    Seq::new(services.len(), |i: int| services[i].name)
}

/// The position of the service named `name`, if it is known.
pub open spec fn find_status(services: Seq<ServiceStatusView>, name: Seq<char>) -> Option<int> {
    if status_names(services).contains(name) {
        Some(status_names(services).index_of(name))
    } else {
        None
    }
}

/// The entry of a service that was just added.
pub open spec fn initial_status(name: Seq<char>, url: Seq<char>, enabled: bool) -> ServiceStatusView {
    ServiceStatusView {
        name,
        url,
        status: HealthStatus::Unknown,
        last_check: None,
        status_code: None,
        response_time_ms: None,
        consecutive_failures: 0,
        error_message: None,
        enabled,
    }
}

/// The entry after the outcome of a probe was taken in: its status, HTTP
/// status, elapsed time, error text and failures in a row are those of the
/// outcome, and it was last checked when the outcome was recorded.
pub open spec fn updated_status(s: ServiceStatusView, r: HealthResultView) -> ServiceStatusView {
    ServiceStatusView {
        status: r.status,
        last_check: Some(r.timestamp),
        status_code: r.status_code,
        response_time_ms: Some(r.response_time),
        consecutive_failures: r.consecutive_failures,
        error_message: r.error_message,
        ..s
    }
}

/// The services after one was added: an entry that is there stays as it is,
/// a new one goes to the end.
pub open spec fn services_with(
    services: Seq<ServiceStatusView>,
    name: Seq<char>,
    url: Seq<char>,
    enabled: bool,
) -> Seq<ServiceStatusView> {
    if find_status(services, name) is Some {
        services
    } else {
        services.push(initial_status(name, url, enabled))
    }
}

/// The services without the one named `name`.
pub open spec fn services_without(services: Seq<ServiceStatusView>, name: Seq<char>) -> Seq<
    ServiceStatusView,
> {
    match find_status(services, name) {
        Some(i) => services.remove(i),
        None => services,
    }
}

/// The services after the outcome of a probe was taken in. A service that
/// was not known is entered as enabled.
pub open spec fn services_updated(services: Seq<ServiceStatusView>, r: HealthResultView) -> Seq<
    ServiceStatusView,
> {
    match find_status(services, r.service_name) {
        Some(i) => services.update(i, updated_status(services[i], r)),
        None => services.push(
            updated_status(initial_status(r.service_name, r.service_url, true), r),
        ),
    }
}

/// The snapshot of a registry: its services in order, and the totals
/// counted from them.
pub open spec fn snapshot_of(v: StatusManagerView) -> OverallStatusView {
    OverallStatusView {
        start_time: v.start_time,
        config_path: v.config_path,
        total_services: v.services.len() as usize,
        healthy_services: count_entries(v.services, Tally::Healthy)
            as usize,
        unhealthy_services: count_entries(v.services, Tally::Unhealthy)
            as usize,
        disabled_services: count_entries(v.services, Tally::Disabled)
            as usize,
        last_config_reload: v.last_config_reload,
        services: v.services,
    }
}

/// Every service is counted once: as healthy, as unhealthy, as disabled, or
/// as enabled and waiting for its first probe.
pub proof fn lemma_totals_add_up(services: Seq<ServiceStatusView>)
    ensures
        services.len() == count_entries(services, Tally::Healthy)
            + count_entries(services, Tally::Unhealthy)
            + count_entries(services, Tally::Disabled)
            + count_entries(services, Tally::Pending),
    decreases services.len(),
{
    if services.len() > 0 {
        lemma_totals_add_up(services.drop_last());
    }
}

/// The status registry.
#[derive(Debug)]
pub struct StatusManager {
    service_status: StrMap<ServiceStatus>,
    start_time: i64,
    config_path: String,
    last_config_reload: Option<i64>,
}

/// The entries of a registry's table, in order.
pub open spec fn entries_view(m: StrMap<ServiceStatus>) -> Seq<ServiceStatusView> {
    Seq::new(m.vals().len(), |i: int| m.vals()[i]@)
}

impl View for StatusManager {
    type V = StatusManagerView;

    closed spec fn view(&self) -> StatusManagerView {
        StatusManagerView {
            services: entries_view(self.service_status),
            start_time: self.start_time,
            config_path: self.config_path@,
            last_config_reload: self.last_config_reload,
        }
    }
}

impl StatusManager {
    /// Whether the registry is in order: every entry is kept under its name.
    pub closed spec fn wf(&self) -> bool {
        &&& self.service_status.wf()
        &&& status_names(entries_view(self.service_status)) == self.service_status.keys()
    }

    /// An empty registry for the given configuration file, started at
    /// `start_time`.
    pub fn started_at(config_path: String, start_time: i64) -> (r: Self)
        ensures
            r.wf(),
            r@ == (StatusManagerView {
                services: Seq::empty(),
                start_time,
                config_path: config_path@,
                last_config_reload: None,
            }),
    {
        let r = StatusManager {
            service_status: StrMap::new(),
            start_time,
            config_path,
            last_config_reload: None,
        };
        assert(r@.services =~= Seq::empty());
        assert(status_names(entries_view(r.service_status)) =~= r.service_status.keys());
        r
    }

    /// An empty registry for the given configuration file, started now.
    pub fn new(config_path: String) -> (r: Self)
        ensures
            r.wf(),
            r@ == (StatusManagerView {
                services: Seq::empty(),
                start_time: r@.start_time,
                config_path: config_path@,
                last_config_reload: None,
            }),
    {
        StatusManager::started_at(config_path, wall_clock_millis())
    }

    /// Makes a service known. A service that is known already keeps its
    /// entry as it is.
    pub fn add_service(&mut self, name: String, url: String, enabled: bool)
        requires
            old(self).wf(),
        ensures
            final(self).wf(),
            final(self)@ == (StatusManagerView {
                services: services_with(old(self)@.services, name@, url@, enabled),
                ..old(self)@
            }),
    {
        if self.service_status.contains_key(name.as_str()) {
            return ;
        }
        let ghost before = self.service_status;
        let entry = ServiceStatus {
            name: name.clone(),
            url,
            status: HealthStatus::Unknown,
            last_check: None,
            status_code: None,
            response_time_ms: None,
            consecutive_failures: 0,
            error_message: None,
            enabled,
        };
        self.service_status.insert(name, entry);
        proof {
            assert(entries_view(self.service_status) =~= entries_view(before).push(
                initial_status(name@, url@, enabled),
            ));
            assert(status_names(entries_view(self.service_status))
                =~= self.service_status.keys());
        }
    }

    /// Forgets a service.
    pub fn remove_service(&mut self, name: &str)
        requires
            old(self).wf(),
        ensures
            final(self).wf(),
            final(self)@ == (StatusManagerView {
                services: services_without(old(self)@.services, name@),
                ..old(self)@
            }),
    {
        let ghost before = self.service_status;
        match self.service_status.remove(name) {
            Some(_) => {
                proof {
                    let i = before.keys().index_of(name@);
                    assert(before.keys()[i] == name@);
                    assert(entries_view(self.service_status) =~= entries_view(before).remove(i));
                    assert(status_names(entries_view(self.service_status))
                        =~= self.service_status.keys());
                }
            },
            None => {
                proof {
                    assert(entries_view(self.service_status) =~= entries_view(before));
                }
            },
        }
    }

    /// Takes in the outcome of a probe.
    pub fn update_service_status(&mut self, result: &HealthResult)
        requires
            old(self).wf(),
        ensures
            final(self).wf(),
            final(self)@ == (StatusManagerView {
                services: services_updated(old(self)@.services, result@),
                ..old(self)@
            }),
    {
        let ghost before = self.service_status;
        match self.service_status.position(result.service_name.as_str()) {
            Some(i) => {
                let old_entry = self.service_status.value_at(i);
                let entry = ServiceStatus {
                    name: old_entry.name.clone(),
                    url: old_entry.url.clone(),
                    status: result.status,
                    last_check: Some(result.timestamp),
                    status_code: result.status_code,
                    response_time_ms: Some(result.response_time),
                    consecutive_failures: result.consecutive_failures,
                    error_message: result.error_message.clone(),
                    enabled: old_entry.enabled,
                };
                self.service_status.set_value_at(i, entry);
                proof {
                    assert(entries_view(self.service_status) =~= entries_view(before).update(
                        i as int,
                        updated_status(entries_view(before)[i as int], result@),
                    ));
                    assert(status_names(entries_view(self.service_status)) =~= status_names(
                        entries_view(before),
                    ));
                }
            },
            None => {
                let entry = ServiceStatus {
                    name: result.service_name.clone(),
                    url: result.service_url.clone(),
                    status: result.status,
                    last_check: Some(result.timestamp),
                    status_code: result.status_code,
                    response_time_ms: Some(result.response_time),
                    consecutive_failures: result.consecutive_failures,
                    error_message: result.error_message.clone(),
                    enabled: true,
                };
                self.service_status.insert(result.service_name.clone(), entry);
                proof {
                    assert(entries_view(self.service_status) =~= entries_view(before).push(
                        updated_status(
                            initial_status(result@.service_name, result@.service_url, true),
                            result@,
                        ),
                    ));
                    assert(status_names(entries_view(self.service_status))
                        =~= self.service_status.keys());
                }
            },
        }
    }

    /// Notes that the configuration was reloaded at time `at`.
    pub fn mark_config_reload_at(&mut self, at: i64)
        requires
            old(self).wf(),
        ensures
            final(self).wf(),
            final(self)@ == (StatusManagerView { last_config_reload: Some(at), ..old(self)@ }),
    {
        self.last_config_reload = Some(at);
    }

    /// Notes that the configuration was reloaded now.
    pub fn mark_config_reload(&mut self)
        requires
            old(self).wf(),
        ensures
            final(self).wf(),
            final(self)@.last_config_reload is Some,
            final(self)@ == (StatusManagerView {
                last_config_reload: final(self)@.last_config_reload,
                ..old(self)@
            }),
    {
        self.mark_config_reload_at(wall_clock_millis());
    }

    /// What is known of each service, in the order in which they became
    /// known.
    pub fn get_all_services(&self) -> (r: Vec<ServiceStatus>)
        ensures
            statuses_view(r@) == self@.services,
    {
        let n = self.service_status.len();
        let mut r: Vec<ServiceStatus> = Vec::new();
        let mut i: usize = 0;
        while i < n
            invariant
                i <= n,
                n == self.service_status.vals().len(),
                r@.len() == i,
                forall|j: int| 0 <= j < i ==> (#[trigger] r@[j])@ == self.service_status.vals()[j]@,
            decreases n - i,
        {
            r.push(self.service_status.value_at(i).clone());
            i += 1;
        }
        assert(statuses_view(r@) =~= entries_view(self.service_status));
        r
    }

    /// What is known of the service named `name`.
    pub fn get_service_status(&self, name: &str) -> (r: Option<ServiceStatus>)
        requires
            self.wf(),
        ensures
            match r {
                Some(s) => find_status(self@.services, name@) is Some && s@
                    == self@.services[find_status(self@.services, name@)->0],
                None => find_status(self@.services, name@) is None,
            },
    {
        match self.service_status.position(name) {
            Some(i) => Some(self.service_status.value_at(i).clone()),
            None => None,
        }
    }

    /// A snapshot of the registry, its totals counted from what it holds.
    pub fn get_overall_status(&self) -> (r: OverallStatus)
        ensures
            r@ == snapshot_of(self@),
    {
        let services = self.get_all_services();
        let ghost views = statuses_view(services@);
        let mut healthy_services: usize = 0;
        let mut unhealthy_services: usize = 0;
        let mut disabled_services: usize = 0;
        let mut i: usize = 0;
        assert(views.subrange(0, 0) =~= Seq::<ServiceStatusView>::empty());
        while i < services.len()
            invariant
                i <= services.len(),
                views == statuses_view(services@),
                healthy_services == count_entries(views.subrange(0, i as int), Tally::Healthy),
                unhealthy_services == count_entries(views.subrange(0, i as int), Tally::Unhealthy),
                disabled_services == count_entries(views.subrange(0, i as int), Tally::Disabled),
                healthy_services <= i,
                unhealthy_services <= i,
                disabled_services <= i,
            decreases services.len() - i,
        {
            proof {
                assert(views.subrange(0, i + 1).drop_last() =~= views.subrange(0, i as int));
                assert(views.subrange(0, i + 1).last() == services@[i as int]@);
            }
            let s = &services[i];
            if s.enabled && s.status.is_healthy() {
                healthy_services += 1;
            }
            if s.enabled && !s.status.is_healthy() && s.status != HealthStatus::Unknown {
                unhealthy_services += 1;
            }
            if !s.enabled {
                disabled_services += 1;
            }
            i += 1;
        }
        assert(views.subrange(0, services.len() as int) =~= views);
        OverallStatus {
            start_time: self.start_time,
            config_path: self.config_path.clone(),
            total_services: services.len(),
            healthy_services,
            unhealthy_services,
            disabled_services,
            last_config_reload: self.last_config_reload,
            services,
        }
    }

    /// Where snapshots are written unless the caller says otherwise.
    pub fn get_default_status_file_path() -> (r: String)
        ensures
            r@ == "/tmp/service-vitals-status.json"@,
    {
        "/tmp/service-vitals-status.json".to_string()
    }
}

} // verus!
