//! Change detection between two configurations, and the manager that holds
//! the configuration in force together with its version.

use crate::config::types::{
    codes_eq, opt_u64_eq, services_view, Config, ConfigView, GlobalConfigView, ServiceConfig,
    ServiceConfigView,
};
use crate::config::watcher::ConfigChangeEvent;
use crate::text::str_equal;
use vstd::prelude::*;

verus! {

/// One difference between an old and a new configuration.
#[derive(Debug)]
pub enum ConfigDiff {
    /// The new configuration has a service that the old one lacks.
    ServiceAdded(ServiceConfig),
    /// The old configuration has a service of this name that the new one lacks.
    ServiceRemoved(String),
    /// Both have the service, and it differs.
    ServiceModified { old: Box<ServiceConfig>, new: Box<ServiceConfig> },
    /// The global blocks differ.
    GlobalConfigModified,
}

/// What a `ConfigDiff` says.
pub enum ConfigDiffView {
    ServiceAdded(ServiceConfigView),
    ServiceRemoved(Seq<char>),
    ServiceModified { old: ServiceConfigView, new: ServiceConfigView },
    GlobalConfigModified,
}

impl View for ConfigDiff {
    type V = ConfigDiffView;

    open spec fn view(&self) -> ConfigDiffView {
        match self {
            ConfigDiff::ServiceAdded(s) => ConfigDiffView::ServiceAdded(s@),
            ConfigDiff::ServiceRemoved(name) => ConfigDiffView::ServiceRemoved(name@),
            ConfigDiff::ServiceModified { old, new } => ConfigDiffView::ServiceModified {
                old: old@,
                new: new@,
            },
            ConfigDiff::GlobalConfigModified => ConfigDiffView::GlobalConfigModified,
        }
    }
}

impl Clone for ConfigDiff {
    fn clone(&self) -> (r: Self)
        ensures
            r@ == self@,
    {
        match self {
            ConfigDiff::ServiceAdded(s) => ConfigDiff::ServiceAdded(s.clone()),
            ConfigDiff::ServiceRemoved(name) => ConfigDiff::ServiceRemoved(name.clone()),
            ConfigDiff::ServiceModified { old, new } => {
                let o: ServiceConfig = (**old).clone();
                let n: ServiceConfig = (**new).clone();
                ConfigDiff::ServiceModified { old: Box::new(o), new: Box::new(n) }
            },
            ConfigDiff::GlobalConfigModified => ConfigDiff::GlobalConfigModified,
        }
    }
}

/// The views of a list of differences, in order.
pub open spec fn diffs_view(diffs: Seq<ConfigDiff>) -> Seq<ConfigDiffView> {
    Seq::new(diffs.len(), |i: int| diffs[i]@)
}

/// The position of the first service named `name` from `from` on.
pub open spec fn find_name(services: Seq<ServiceConfigView>, name: Seq<char>, from: int) -> Option<
    int,
>
    decreases services.len() - from,
{
    if from < 0 || from >= services.len() {
        None
    } else if services[from].name == name {
        Some(from)
    } else {
        find_name(services, name, from + 1)
    }
}

/// Whether a service named `name` is in the list.
pub open spec fn has_name(services: Seq<ServiceConfigView>, name: Seq<char>) -> bool {
    find_name(services, name, 0) is Some
}

/// The first service named `name`, meaningful where there is one.
pub open spec fn lookup(services: Seq<ServiceConfigView>, name: Seq<char>) -> ServiceConfigView {
    services[find_name(services, name, 0)->0]
}

/// The additions among the first `n` new services: those whose name the old
/// list lacks, in the order of the new list.
pub open spec fn added_upto(
    olds: Seq<ServiceConfigView>,
    news: Seq<ServiceConfigView>,
    n: int,
) -> Seq<ConfigDiffView>
    decreases n,
{
    if n <= 0 {
        Seq::empty()
    } else if !has_name(olds, news[n - 1].name) {
        added_upto(olds, news, n - 1).push(ConfigDiffView::ServiceAdded(news[n - 1]))
    } else {
        added_upto(olds, news, n - 1)
    }
}

/// The removals among the first `n` old services: those whose name the new
/// list lacks, in the order of the old list.
pub open spec fn removed_upto(
    olds: Seq<ServiceConfigView>,
    news: Seq<ServiceConfigView>,
    n: int,
) -> Seq<ConfigDiffView>
    decreases n,
{
    if n <= 0 {
        Seq::empty()
    } else if !has_name(news, olds[n - 1].name) {
        removed_upto(olds, news, n - 1).push(ConfigDiffView::ServiceRemoved(olds[n - 1].name))
    } else {
        removed_upto(olds, news, n - 1)
    }
}

/// The modifications among the first `n` new services: those whose name the
/// old list has with another value, in the order of the new list.
pub open spec fn modified_upto(
    olds: Seq<ServiceConfigView>,
    news: Seq<ServiceConfigView>,
    n: int,
) -> Seq<ConfigDiffView>
    decreases n,
{
    if n <= 0 {
        Seq::empty()
    } else if has_name(olds, news[n - 1].name) && lookup(olds, news[n - 1].name) != news[n - 1] {
        modified_upto(olds, news, n - 1).push(
            ConfigDiffView::ServiceModified {
                old: lookup(olds, news[n - 1].name),
                new: news[n - 1],
            },
        )
    } else {
        modified_upto(olds, news, n - 1)
    }
}

/// The difference of the global blocks: one entry where they differ.
pub open spec fn global_diff(old: GlobalConfigView, new: GlobalConfigView) -> Seq<ConfigDiffView> {
    if old != new {
        seq![ConfigDiffView::GlobalConfigModified]
    } else {
        Seq::empty()
    }
}

/// The differences between two configurations: the global block first, then
/// the added services, then the removed ones, then the modified ones.
pub open spec fn diff_of(old: ConfigView, new: ConfigView) -> Seq<ConfigDiffView> {
    global_diff(old.global, new.global) + added_upto(
        old.services,
        new.services,
        new.services.len() as int,
    ) + removed_upto(old.services, new.services, old.services.len() as int) + modified_upto(
        old.services,
        new.services,
        new.services.len() as int,
    )
}

/// Whether a difference changes how services are probed: a changed global
/// block, or a service whose address, method, expected codes or interval
/// changed.
pub open spec fn needs_restart(d: ConfigDiffView) -> bool {
    match d {
        ConfigDiffView::GlobalConfigModified => true,
        ConfigDiffView::ServiceAdded(_) => false,
        ConfigDiffView::ServiceRemoved(_) => false,
        ConfigDiffView::ServiceModified { old, new } => old.url != new.url || old.method
            != new.method || old.expected_status_codes != new.expected_status_codes
            || old.check_interval_seconds != new.check_interval_seconds,
    }
}

/// Whether any of the differences needs a restart.
pub open spec fn any_needs_restart(diffs: Seq<ConfigDiffView>) -> bool {
    exists|i: int| 0 <= i < diffs.len() && needs_restart(#[trigger] diffs[i])
}

/// Finds the first service named `name`.
pub fn find_service(services: &Vec<ServiceConfig>, name: &str) -> (r: Option<usize>)
    ensures
        match r {
            Some(i) => find_name(services_view(services@), name@, 0) == Some(i as int) && i
                < services.len(),
            None => find_name(services_view(services@), name@, 0) is None,
        },
{
    let ghost views = services_view(services@);
    let mut i: usize = 0;
    while i < services.len()
        invariant
            i <= services.len(),
            views == services_view(services@),
            find_name(views, name@, 0) == find_name(views, name@, i as int),
        decreases services.len() - i,
    {
        if str_equal(services[i].name.as_str(), name) {
            return Some(i);
        }
        i += 1;
    }
    None
}

/// The view of a list with one more difference at its end.
pub proof fn lemma_diffs_view_push(before: Seq<ConfigDiff>, d: ConfigDiff)
    ensures
        diffs_view(before.push(d)) == diffs_view(before).push(d@),
{
    assert(diffs_view(before.push(d)) =~= diffs_view(before).push(d@));
}

/// Computes the differences between `old_config` and `new_config`.
pub fn calculate_config_diff(old_config: &Config, new_config: &Config) -> (diffs: Vec<ConfigDiff>)
    ensures
        diffs_view(diffs@) == diff_of(old_config@, new_config@),
{
    let ghost olds = old_config@.services;
    let ghost news = new_config@.services;
    let mut diffs: Vec<ConfigDiff> = Vec::new();
    if old_config.global != new_config.global {
        diffs.push(ConfigDiff::GlobalConfigModified);
    }
    assert(diffs_view(diffs@) =~= global_diff(old_config@.global, new_config@.global));
    let ghost head = diffs_view(diffs@);
    let mut i: usize = 0;
    while i < new_config.services.len()
        invariant
            i <= new_config.services.len(),
            olds == services_view(old_config.services@),
            news == services_view(new_config.services@),
            diffs_view(diffs@) == head + added_upto(olds, news, i as int),
        decreases new_config.services.len() - i,
    {
        let s = &new_config.services[i];
        assert(news[i as int] == s@);
        let ghost before = diffs@;
        if find_service(&old_config.services, s.name.as_str()).is_none() {
            diffs.push(ConfigDiff::ServiceAdded(s.clone()));
            proof {
                lemma_diffs_view_push(before, diffs@.last());
                assert(diffs@ =~= before.push(diffs@.last()));
            }
        }
        i += 1;
        assert(diffs_view(diffs@) =~= head + added_upto(olds, news, i as int));
    }
    let ghost head = diffs_view(diffs@);
    let mut i: usize = 0;
    while i < old_config.services.len()
        invariant
            i <= old_config.services.len(),
            olds == services_view(old_config.services@),
            news == services_view(new_config.services@),
            diffs_view(diffs@) == head + removed_upto(olds, news, i as int),
        decreases old_config.services.len() - i,
    {
        let s = &old_config.services[i];
        assert(olds[i as int] == s@);
        let ghost before = diffs@;
        if find_service(&new_config.services, s.name.as_str()).is_none() {
            diffs.push(ConfigDiff::ServiceRemoved(s.name.clone()));
            proof {
                lemma_diffs_view_push(before, diffs@.last());
                assert(diffs@ =~= before.push(diffs@.last()));
            }
        }
        i += 1;
        assert(diffs_view(diffs@) =~= head + removed_upto(olds, news, i as int));
    }
    let ghost head = diffs_view(diffs@);
    let mut i: usize = 0;
    while i < new_config.services.len()
        invariant
            i <= new_config.services.len(),
            olds == services_view(old_config.services@),
            news == services_view(new_config.services@),
            diffs_view(diffs@) == head + modified_upto(olds, news, i as int),
        decreases new_config.services.len() - i,
    {
        let s = &new_config.services[i];
        assert(news[i as int] == s@);
        let ghost before = diffs@;
        match find_service(&old_config.services, s.name.as_str()) {
            Some(j) => {
                let o = &old_config.services[j];
                assert(olds[j as int] == o@);
                if *o != *s {
                    diffs.push(
                        ConfigDiff::ServiceModified {
                            old: Box::new(o.clone()),
                            new: Box::new(s.clone()),
                        },
                    );
                    proof {
                        lemma_diffs_view_push(before, diffs@.last());
                        assert(diffs@ =~= before.push(diffs@.last()));
                    }
                }
            },
            None => {},
        }
        i += 1;
        assert(diffs_view(diffs@) =~= head + modified_upto(olds, news, i as int));
    }
    diffs
}

/// Whether applying `diffs` changes how services are probed.
pub fn requires_service_restart(diffs: &Vec<ConfigDiff>) -> (r: bool)
    ensures
        r == any_needs_restart(diffs_view(diffs@)),
{
    let ghost views = diffs_view(diffs@);
    let mut i: usize = 0;
    while i < diffs.len()
        invariant
            i <= diffs.len(),
            views == diffs_view(diffs@),
            forall|j: int| 0 <= j < i ==> !needs_restart(#[trigger] views[j]),
        decreases diffs.len() - i,
    {
        assert(views[i as int] == diffs@[i as int]@);
        let hit = match &diffs[i] {
            ConfigDiff::GlobalConfigModified => true,
            ConfigDiff::ServiceAdded(_) => false,
            ConfigDiff::ServiceRemoved(_) => false,
            ConfigDiff::ServiceModified { old, new } => !str_equal(
                old.url.as_str(),
                new.url.as_str(),
            ) || !str_equal(old.method.as_str(), new.method.as_str()) || !codes_eq(
                &old.expected_status_codes,
                &new.expected_status_codes,
            ) || !opt_u64_eq(old.check_interval_seconds, new.check_interval_seconds),
        };
        if hit {
            return true;
        }
        i += 1;
    }
    false
}

/// What subscribers are told after the configuration in force changed.
#[derive(Debug)]
pub struct ConfigUpdateNotification {
    /// The version of the configuration now in force.
    pub version: u64,
    /// What changed, in the order in which it is to be applied.
    pub diffs: Vec<ConfigDiff>,
    /// When the change took effect.
    pub timestamp: u64,
    /// Whether the change alters how services are probed.
    pub requires_restart: bool,
}

/// What a `ConfigUpdateNotification` says.
pub struct ConfigUpdateNotificationView {
    pub version: u64,
    pub diffs: Seq<ConfigDiffView>,
    pub timestamp: u64,
    pub requires_restart: bool,
}

impl View for ConfigUpdateNotification {
    type V = ConfigUpdateNotificationView;

    open spec fn view(&self) -> ConfigUpdateNotificationView {
        ConfigUpdateNotificationView {
            version: self.version,
            diffs: diffs_view(self.diffs@),
            timestamp: self.timestamp,
            requires_restart: self.requires_restart,
        }
    }
}

impl Clone for ConfigUpdateNotification {
    fn clone(&self) -> (r: Self)
        ensures
            r@ == self@,
    {
        let mut diffs: Vec<ConfigDiff> = Vec::new();
        let mut i: usize = 0;
        while i < self.diffs.len()
            invariant
                i <= self.diffs.len(),
                diffs@.len() == i,
                forall|j: int| 0 <= j < i ==> (#[trigger] diffs@[j])@ == self.diffs@[j]@,
            decreases self.diffs.len() - i,
        {
            diffs.push(self.diffs[i].clone());
            i += 1;
        }
        assert(diffs_view(diffs@) =~= diffs_view(self.diffs@));
        ConfigUpdateNotification {
            version: self.version,
            diffs,
            timestamp: self.timestamp,
            requires_restart: self.requires_restart,
        }
    }
}

/// The configuration in force, its version and the time of its last change.
#[derive(Debug)]
pub struct ConfigManager {
    current_config: Config,
    version: u64,
    last_update: u64,
}

/// What a `ConfigManager` holds.
pub struct ConfigManagerView {
    pub config: ConfigView,
    pub version: u64,
    pub last_update: u64,
}

/// The manager after `new` was offered at time `now`: unchanged where `new`
/// equals the configuration in force, else holding `new` under the next
/// version.
pub open spec fn manager_after(m: ConfigManagerView, new: ConfigView, now: u64) -> ConfigManagerView {
    if diff_of(m.config, new).len() == 0 {
        m
    } else {
        ConfigManagerView { config: new, version: (m.version + 1) as u64, last_update: now }
    }
}

/// What subscribers are told after `new` was offered at time `now`: nothing
/// where nothing changed, else the new version with the differences.
pub open spec fn notification_after(m: ConfigManagerView, new: ConfigView, now: u64) -> Option<
    ConfigUpdateNotificationView,
> {
    if diff_of(m.config, new).len() == 0 {
        None
    } else {
        Some(
            ConfigUpdateNotificationView {
                version: (m.version + 1) as u64,
                diffs: diff_of(m.config, new),
                timestamp: now,
                requires_restart: any_needs_restart(diff_of(m.config, new)),
            },
        )
    }
}

/// The view of an optional notification.
pub open spec fn opt_notification_view(o: Option<ConfigUpdateNotification>) -> Option<
    ConfigUpdateNotificationView,
> {
    match o {
        Some(n) => Some(n@),
        None => None,
    }
}

impl View for ConfigManager {
    type V = ConfigManagerView;

    closed spec fn view(&self) -> ConfigManagerView {
        ConfigManagerView {
            config: self.current_config@,
            version: self.version,
            last_update: self.last_update,
        }
    }
}

impl ConfigManager {
    /// A manager that holds `initial_config` as version 1, in force since `now`.
    pub fn new(initial_config: Config, now: u64) -> (m: Self)
        ensures
            m@ == (ConfigManagerView { config: initial_config@, version: 1, last_update: now }),
    {
        ConfigManager { current_config: initial_config, version: 1, last_update: now }
    }

    /// A copy of the configuration in force.
    pub fn get_config(&self) -> (c: Config)
        ensures
            c@ == self@.config,
    {
        self.current_config.clone()
    }

    /// The version of the configuration in force.
    pub fn get_version(&self) -> (v: u64)
        ensures
            v == self@.version,
    {
        self.version
    }

    /// When the configuration in force took effect.
    pub fn get_last_update(&self) -> (t: u64)
        ensures
            t == self@.last_update,
    {
        self.last_update
    }

    /// Offers `new_config` at time `now`. Where it differs from the
    /// configuration in force it replaces it under the next version, and the
    /// notification for the subscribers comes back; where it does not, nothing
    /// changes and nothing is announced.
    pub fn update_config(&mut self, new_config: Config, now: u64) -> (r: Option<
        ConfigUpdateNotification,
    >)
        requires
            old(self)@.version < u64::MAX,
        ensures
            final(self)@ == manager_after(old(self)@, new_config@, now),
            opt_notification_view(r) == notification_after(old(self)@, new_config@, now),
    {
        let diffs = calculate_config_diff(&self.current_config, &new_config);
        if diffs.len() == 0 {
            return None;
        }
        let requires_restart = requires_service_restart(&diffs);
        self.current_config = new_config;
        self.version = self.version + 1;
        self.last_update = now;
        Some(
            ConfigUpdateNotification { version: self.version, diffs, timestamp: now, requires_restart },
        )
    }

    /// Takes in a reload announced by the watcher: its configuration is
    /// offered as of the time of the reload.
    pub fn handle_config_change(&mut self, change_event: ConfigChangeEvent) -> (r: Option<
        ConfigUpdateNotification,
    >)
        requires
            old(self)@.version < u64::MAX,
        ensures
            final(self)@ == manager_after(
                old(self)@,
                change_event.new_config@,
                change_event.timestamp,
            ),
            opt_notification_view(r) == notification_after(
                old(self)@,
                change_event.new_config@,
                change_event.timestamp,
            ),
    {
        let timestamp = change_event.timestamp;
        self.update_config(change_event.new_config, timestamp)
    }
}

} // verus!
