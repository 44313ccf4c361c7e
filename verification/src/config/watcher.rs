//! Watching the configuration file: which file events count, how a burst of
//! them is settled into one reload, and what a reload announces.

use crate::config::types::{Config, ConfigView};
use crate::text::str_equal;
use vstd::prelude::*;

verus! {

/// The announcement of a configuration that was loaded and found valid.
#[derive(Debug)]
pub struct ConfigChangeEvent {
    /// The file that the configuration was read from.
    pub config_path: String,
    /// The new configuration.
    pub new_config: Config,
    /// When it was loaded, on the watcher's clock, in milliseconds.
    pub timestamp: u64,
    /// The number of this reload, counted from 1.
    pub version: u64,
}

impl Clone for ConfigChangeEvent {
    fn clone(&self) -> (r: Self)
        ensures
            r.config_path@ == self.config_path@,
            r.new_config@ == self.new_config@,
            r.timestamp == self.timestamp,
            r.version == self.version,
    {
        ConfigChangeEvent {
            config_path: self.config_path.clone(),
            new_config: self.new_config.clone(),
            timestamp: self.timestamp,
            version: self.version,
        }
    }
}

/// What happened to a file, as the file system tells it.
#[derive(Clone, Copy, Debug, PartialEq, Eq, Structural)]
pub enum FileEventKind {
    /// It was read.
    Access,
    /// It was created.
    Create,
    /// It was changed.
    Modify,
    /// It was removed.
    Remove,
    /// Anything else.
    Other,
}

/// One event of the file system.
#[derive(Debug)]
pub struct FileEvent {
    /// What happened.
    pub kind: FileEventKind,
    /// The files it happened to.
    pub paths: Vec<String>,
}

/// Whether an event of this kind on these paths concerns the file `target`:
/// a creation or a change of exactly that path.
pub open spec fn concerns_target(kind: FileEventKind, paths: Seq<String>, target: Seq<char>) -> bool {
    (kind == FileEventKind::Modify || kind == FileEventKind::Create) && exists|i: int|
        0 <= i < paths.len() && (#[trigger] paths[i])@ == target
}

/// What a watcher holds.
pub struct ConfigWatcherView {
    pub config_path: Seq<char>,
    pub debounce_delay: u64,
    pub next_version: u64,
    pub pending_until: Option<u64>,
}

/// Watches one configuration file and settles bursts of changes.
#[derive(Debug)]
pub struct ConfigWatcher {
    config_path: String,
    debounce_delay: u64,
    next_version: u64,
    pending_until: Option<u64>,
}

impl View for ConfigWatcher {
    type V = ConfigWatcherView;

    closed spec fn view(&self) -> ConfigWatcherView {
        ConfigWatcherView {
            config_path: self.config_path@,
            debounce_delay: self.debounce_delay,
            next_version: self.next_version,
            pending_until: self.pending_until,
        }
    }
}

/// The watcher after an event at time `now`: an event that concerns the
/// file starts the wait anew, any other changes nothing.
pub open spec fn watcher_after_event(
    w: ConfigWatcherView,
    kind: FileEventKind,
    paths: Seq<String>,
    now: u64,
) -> ConfigWatcherView {
    if concerns_target(kind, paths, w.config_path) {
        ConfigWatcherView { pending_until: Some((now + w.debounce_delay) as u64), ..w }
    } else {
        w
    }
}

/// Whether a reload is due at time `now`: a wait was started and is over.
pub open spec fn reload_is_due(w: ConfigWatcherView, now: u64) -> bool {
    match w.pending_until {
        Some(until) => now >= until,
        None => false,
    }
}

/// The view of an optional announcement.
pub open spec fn opt_event_view(o: Option<ConfigChangeEvent>) -> Option<
    (Seq<char>, ConfigView, u64, u64),
> {
    match o {
        Some(e) => Some((e.config_path@, e.new_config@, e.timestamp, e.version)),
        None => None,
    }
}

impl ConfigWatcher {
    /// A watcher of the file `config_path` that lets `debounce_delay`
    /// milliseconds pass after the last change before it reloads. Its first
    /// reload will be number 1.
    pub fn new(config_path: String, debounce_delay: u64) -> (w: Self)
        ensures
            w@ == (ConfigWatcherView {
                config_path: config_path@,
                debounce_delay,
                next_version: 1,
                pending_until: None,
            }),
    {
        ConfigWatcher { config_path, debounce_delay, next_version: 1, pending_until: None }
    }

    /// Whether `event` is a creation or a change of the file `target_path`.
    pub fn is_target_file_event(event: &FileEvent, target_path: &str) -> (r: bool)
        ensures
            r == concerns_target(event.kind, event.paths@, target_path@),
    {
        match event.kind {
            FileEventKind::Modify | FileEventKind::Create => {},
            _ => {
                return false;
            },
        }
        let mut i: usize = 0;
        while i < event.paths.len()
            invariant
                i <= event.paths.len(),
                event.kind == FileEventKind::Modify || event.kind == FileEventKind::Create,
                forall|j: int| 0 <= j < i ==> (#[trigger] event.paths@[j])@ != target_path@,
            decreases event.paths.len() - i,
        {
            if str_equal(event.paths[i].as_str(), target_path) {
                assert(event.paths@[i as int]@ == target_path@);
                return true;
            }
            i += 1;
        }
        false
    }

    /// Takes in an event of the file system at time `now`. An event that
    /// concerns the watched file starts the wait anew, so that a burst of
    /// changes ends in one reload; whether it did comes back.
    pub fn handle_file_event(&mut self, event: &FileEvent, now: u64) -> (r: bool)
        requires
            now + old(self)@.debounce_delay <= u64::MAX,
        ensures
            r == concerns_target(event.kind, event.paths@, old(self)@.config_path),
            final(self)@ == watcher_after_event(old(self)@, event.kind, event.paths@, now),
    {
        if ConfigWatcher::is_target_file_event(event, self.config_path.as_str()) {
            self.pending_until = Some(now + self.debounce_delay);
            true
        } else {
            false
        }
    }

    /// The number that the next reload will be announced under.
    pub fn next_version(&self) -> (v: u64)
        ensures
            v == self@.next_version,
    {
        self.next_version
    }

    /// The milliseconds that the watcher waits after the last change.
    pub fn debounce_delay(&self) -> (d: u64)
        ensures
            d == self@.debounce_delay,
    {
        self.debounce_delay
    }

    /// When the running wait is over, if one is running.
    pub fn next_wake(&self) -> (r: Option<u64>)
        ensures
            r == self@.pending_until,
    {
        self.pending_until
    }

    /// Asks at time `now` whether to reload. Where a wait is over it ends
    /// and the answer is yes; else nothing changes.
    pub fn take_due_reload(&mut self, now: u64) -> (due: bool)
        ensures
            due == reload_is_due(old(self)@, now),
            final(self)@ == if due {
                ConfigWatcherView { pending_until: None, ..old(self)@ }
            } else {
                old(self)@
            },
    {
        match self.pending_until {
            Some(until) => {
                if now >= until {
                    self.pending_until = None;
                    true
                } else {
                    false
                }
            },
            None => false,
        }
    }

    /// Takes in how a reload at time `now` went. A configuration that was
    /// loaded and found valid is announced under the next number, and the
    /// numbers go up by one; a failed load announces nothing and leaves the
    /// watcher as it is.
    pub fn reload_config(&mut self, loaded: Option<Config>, now: u64) -> (r: Option<
        ConfigChangeEvent,
    >)
        requires
            old(self)@.next_version < u64::MAX,
        ensures
            match loaded {
                Some(config) => opt_event_view(r) == Some(
                    (old(self)@.config_path, config@, now, old(self)@.next_version),
                ) && final(self)@ == (ConfigWatcherView {
                    next_version: (old(self)@.next_version + 1) as u64,
                    ..old(self)@
                }),
                None => r is None && final(self)@ == old(self)@,
            },
    {
        match loaded {
            Some(config) => {
                let version = self.next_version;
                self.next_version = self.next_version + 1;
                Some(
                    ConfigChangeEvent {
                        config_path: self.config_path.clone(),
                        new_config: config,
                        timestamp: now,
                        version,
                    },
                )
            },
            None => None,
        }
    }
}

} // verus!
