use vstd::prelude::*;
use crate::project::{Project, decoded_names, numbered, load_projects};

verus! {

/// Nanoseconds in one second: instants handed to the timer are counted in
/// nanoseconds on a monotonic clock.
pub const NANOS_PER_SEC: u64 = 1_000_000_000;

/// The panel chosen in the bottom navigation bar.
#[derive(Clone, Copy, Debug, PartialEq, Eq, Structural)]
pub enum Tab {
    Console,
    Editor,
}

/// Whole seconds from `start` to `now`; an instant before `start` counts as
/// no time at all.
pub open spec fn whole_seconds(start: u64, now: u64) -> nat {
    if now >= start {
        ((now - start) as nat / NANOS_PER_SEC as nat) as nat
    } else {
        0
    }
}

/// Everything the window shows, held between frames.
pub struct AppState {
    pub tab: Tab,
    pub running: bool,
    pub start: Option<u64>,
    pub selected: usize,
    pub projects: Vec<Project>,
}

impl AppState {
    /// The timer has a start instant exactly while it runs, and each project's
    /// id is its position in the list.
    pub open spec fn wf(&self) -> bool {
        &&& self.start.is_some() == self.running
        &&& forall|i: int| 0 <= i < self.projects@.len() ==> (#[trigger] self.projects@[i]).id == i
    }

    /// The state after choosing `tab` in the navigation bar.
    pub open spec fn with_tab(self, tab: Tab) -> AppState {
        AppState { tab, ..self }
    }

    /// The state after pressing Start at instant `now`.
    pub open spec fn started(self, now: u64) -> AppState {
        AppState { running: true, start: Some(now), ..self }
    }

    /// The state after pressing Stop.
    pub open spec fn stopped(self) -> AppState {
        AppState { running: false, start: None, ..self }
    }

    /// The state after picking the project with id `id` in the selector.
    pub open spec fn with_selection(self, id: usize) -> AppState {
        AppState { selected: id, ..self }
    }

    /// What the timer label shows at instant `now`: nothing while stopped,
    /// else the whole seconds since the last Start.
    pub open spec fn elapsed(self, now: u64) -> Option<nat> {
        match self.start {
            Some(t) if self.running => Some(whole_seconds(t, now)),
            _ => None,
        }
    }

    /// The text of the closed project selector: the name of the project whose
    /// id is the selected one, or the empty text where none has it.
    pub open spec fn display(self) -> Seq<char> {
        if exists|i: int| 0 <= i < self.projects@.len() && (#[trigger] self.projects@[i]).id == self.selected {
            let i = choose|i: int| 0 <= i < self.projects@.len() && (#[trigger] self.projects@[i]).id == self.selected;
            self.projects@[i].name@
        } else {
            Seq::empty()
        }
    }

    /// The state at start-up: Console tab, timer stopped, first project
    /// selected, and the projects loaded from what was read of the file
    /// (`None` where it could not be opened).
    pub fn load(file: Option<Vec<Option<String>>>) -> (r: AppState)
        ensures
            r.wf(),
            r.tab == Tab::Console,
            !r.running,
            r.selected == 0,
            file is None ==> r.projects@.len() == 0,
            file matches Some(lines) ==> numbered(r.projects@, decoded_names(lines@)),
    {
        let projects = load_projects(file);
        AppState { tab: Tab::Console, running: false, start: None, selected: 0, projects }
    }

    /// Chooses a tab in the navigation bar.
    pub fn select_tab(&mut self, tab: Tab)
        requires
            old(self).wf(),
        ensures
            final(self).wf(),
            *final(self) == old(self).with_tab(tab),
    {
        self.tab = tab;
    }

    /// Presses Start at instant `now`: the timer runs from `now`.
    pub fn start_timer(&mut self, now: u64)
        requires
            old(self).wf(),
        ensures
            final(self).wf(),
            *final(self) == old(self).started(now),
    {
        self.running = true;
        self.start = Some(now);
    }

    /// Presses Stop: the timer stops and forgets its start.
    pub fn stop_timer(&mut self)
        requires
            old(self).wf(),
        ensures
            final(self).wf(),
            *final(self) == old(self).stopped(),
    {
        self.running = false;
        self.start = None;
    }

    /// Picks the project with id `id` in the selector.
    pub fn select_project(&mut self, id: usize)
        requires
            old(self).wf(),
        ensures
            final(self).wf(),
            *final(self) == old(self).with_selection(id),
    {
        self.selected = id;
    }

    /// Whole seconds since the last Start at instant `now`, or `None` while
    /// the timer is stopped.
    pub fn elapsed_secs(&self, now: u64) -> (r: Option<u64>)
        requires
            self.wf(),
        ensures
            r matches Some(s) ==> self.elapsed(now) == Some(s as nat),
            r is None ==> self.elapsed(now) is None,
    {
        match self.start {
            Some(t) if self.running => {
                if now >= t {
                    Some((now - t) / NANOS_PER_SEC)
                } else {
                    Some(0)
                }
            },
            _ => None,
        }
    }

    /// The text of the closed project selector.
    pub fn selected_text(&self) -> (r: String)
        requires
            self.wf(),
        ensures
            r@ == self.display(),
    {
        if self.selected < self.projects.len() {
            let r = self.projects[self.selected].name.clone();
            proof {
                let k = self.selected as int;
                assert(self.projects@[k].id == self.selected);
                let i = choose|i: int| 0 <= i < self.projects@.len() && (#[trigger] self.projects@[i]).id == self.selected;
                assert(i == k);
            }
            r
        } else {
            proof {
                if exists|i: int| 0 <= i < self.projects@.len() && (#[trigger] self.projects@[i]).id == self.selected {
                    let i = choose|i: int| 0 <= i < self.projects@.len() && (#[trigger] self.projects@[i]).id == self.selected;
                    assert(self.projects@[i].id == i);
                }
            }
            String::new()
        }
    }
}

/// Right after Start the timer shows zero seconds, and from one second after
/// Start onwards it shows at least one.
pub proof fn lemma_start_reads_zero(s: AppState, t: u64, now: u64)
    requires
        s.wf(),
    ensures
        s.started(t).wf(),
        s.started(t).elapsed(t) == Some(0nat),
        now >= t + NANOS_PER_SEC ==> s.started(t).elapsed(now).unwrap() >= 1,
{
}

/// Stop followed by Start counts from the new Start alone: no time from an
/// earlier run carries over, and it shows zero at the moment of restarting.
pub proof fn lemma_restart_resets(s: AppState, t1: u64, t2: u64, now: u64)
    requires
        s.wf(),
    ensures
        s.started(t1).stopped().started(t2).elapsed(now) == s.started(t2).elapsed(now),
        s.started(t1).stopped().started(t2).elapsed(t2) == Some(0nat),
{
}

/// Selecting the project with id `k` makes the selector show that project's
/// name; selecting an id that no project has shows the empty text.
pub proof fn lemma_selection_display(s: AppState, k: usize)
    requires
        s.wf(),
    ensures
        s.with_selection(k).wf(),
        k < s.projects@.len() ==> s.with_selection(k).display() == s.projects@[k as int].name@,
        k >= s.projects@.len() ==> s.with_selection(k).display() == Seq::<char>::empty(),
{
    let u = s.with_selection(k);
    if k < s.projects@.len() {
        assert(u.projects@[k as int].id == k);
        let i = choose|i: int| 0 <= i < u.projects@.len() && (#[trigger] u.projects@[i]).id == u.selected;
        assert(u.projects@[i].id == i);
    } else {
        if exists|i: int| 0 <= i < u.projects@.len() && (#[trigger] u.projects@[i]).id == u.selected {
            let i = choose|i: int| 0 <= i < u.projects@.len() && (#[trigger] u.projects@[i]).id == u.selected;
            assert(u.projects@[i].id == i);
        }
    }
}

} // verus!
