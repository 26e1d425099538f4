//! State of the interactive surface that is worth stating exactly:
//! the tab ring and the monitor pane's record. Rendering and input
//! polling live outside.

use vstd::prelude::*;

use crate::monitor::{ApplicationStatus, MonitoringMetrics};

verus! {

/// The tabs of the interactive surface, in display order.
#[derive(Debug, Clone, Copy, PartialEq, Eq, Structural)]
pub enum Tab {
    Build,
    Deploy,
    Monitor,
    Config,
    Exit,
}

/// The tab to the right of `t`, wrapping around.
pub open spec fn next_tab_spec(t: Tab) -> Tab {
    match t {
        Tab::Build => Tab::Deploy,
        Tab::Deploy => Tab::Monitor,
        Tab::Monitor => Tab::Config,
        Tab::Config => Tab::Exit,
        Tab::Exit => Tab::Build,
    }
}

/// The tab to the left of `t`, wrapping around.
pub open spec fn prev_tab_spec(t: Tab) -> Tab {
    match t {
        Tab::Build => Tab::Exit,
        Tab::Deploy => Tab::Build,
        Tab::Monitor => Tab::Deploy,
        Tab::Config => Tab::Monitor,
        Tab::Exit => Tab::Config,
    }
}

impl Tab {
    /// The tab to the right, wrapping around.
    pub fn next(&self) -> (r: Tab)
        ensures
            r == next_tab_spec(*self),
    {
        match self {
            Tab::Build => Tab::Deploy,
            Tab::Deploy => Tab::Monitor,
            Tab::Monitor => Tab::Config,
            Tab::Config => Tab::Exit,
            Tab::Exit => Tab::Build,
        }
    }

    /// The tab to the left, wrapping around.
    pub fn prev(&self) -> (r: Tab)
        ensures
            r == prev_tab_spec(*self),
            next_tab_spec(r) == *self,
    {
        match self {
            Tab::Build => Tab::Exit,
            Tab::Deploy => Tab::Build,
            Tab::Monitor => Tab::Deploy,
            Tab::Config => Tab::Monitor,
            Tab::Exit => Tab::Config,
        }
    }

    /// The tab's display title.
    pub fn title(&self) -> (r: &'static str)
        ensures
            self is Build ==> r@ == "Build"@,
            self is Deploy ==> r@ == "Deploy"@,
            self is Monitor ==> r@ == "Monitor"@,
            self is Config ==> r@ == "Config"@,
            self is Exit ==> r@ == "Exit"@,
    {
        match self {
            Tab::Build => "Build",
            Tab::Deploy => "Deploy",
            Tab::Monitor => "Monitor",
            Tab::Config => "Config",
            Tab::Exit => "Exit",
        }
    }
}

/// The monitor pane's record.
pub struct MonitorState {
    pub is_monitoring: bool,
    pub status: Option<ApplicationStatus>,
    pub logs: Vec<String>,
    pub metrics: Option<MonitoringMetrics>,
}

impl MonitorState {
    /// An empty pane: no snapshot yet.
    pub fn new() -> (r: MonitorState)
        ensures
            !r.is_monitoring,
            r.status is None,
            r.logs@ == Seq::<String>::empty(),
            r.metrics is None,
    {
        MonitorState { is_monitoring: false, status: None, logs: Vec::new(), metrics: None }
    }

    /// Fold one inbound monitor message into the pane: the snapshot
    /// and metrics are replaced whole, never merged with stale state;
    /// the log window is untouched.
    pub fn apply_update(&mut self, status: ApplicationStatus, metrics: Option<MonitoringMetrics>)
        ensures
            final(self).status == Some(status),
            final(self).metrics == metrics,
            final(self).logs == old(self).logs,
            final(self).is_monitoring == old(self).is_monitoring,
    {
        self.status = Some(status);
        self.metrics = metrics;
    }
}

} // verus!
