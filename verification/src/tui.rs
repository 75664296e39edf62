//! The dashboard state machine.
//!
//! A single cooperative loop owns all of this state: on every tick it drains
//! the supervisor's queues into a bounded, FIFO-evicted log buffer, and every
//! key press moves the state machine — selection, panel focus, a per-project
//! filter, incremental project search, manual scrolling and an auto-scroll
//! pin to the newest message.  Rendering and raw input stay outside; the
//! functions here compute every state change from plain values.

use vstd::prelude::*;
use vstd::string::StringExecFns;

use crate::channel::{try_recv_event, LogReceiver, ProcessReceiver, StatusReceiver};
use crate::config::{get_entry, spec_get, Config};
use crate::logs::{LogLevel, LogMessage};
use crate::status::{spec_apply, spec_terminal, ProcessInfo, ProcessStatus, StatusUpdate};
use crate::text::{contains_chars, contains_seq, lower, str_eq, to_lower};

verus! {

/// Which panel receives vertical-navigation keys.
#[derive(Debug, Clone, Copy, PartialEq, Eq, Structural)]
pub enum FocusedPanel {
    Projects,
    Logs,
}

/// One project the dashboard tracks, with its latest reported status.
#[derive(Debug)]
pub struct RunningTask {
    pub name: String,
    pub status: ProcessStatus,
    pub tool: String,
}

/// The keys the dashboard reacts to, as plain values: the key itself plus
/// the control and shift modifiers.
#[derive(Debug, Clone, Copy, PartialEq, Eq, Structural)]
pub enum KeyCode {
    Esc,
    Enter,
    Backspace,
    Tab,
    Up,
    Down,
    PageUp,
    PageDown,
    Home,
    End,
    Char(char),
}

/// One key press.
#[derive(Debug, Clone, Copy, PartialEq, Eq, Structural)]
pub struct KeyInput {
    pub code: KeyCode,
    pub ctrl: bool,
    pub shift: bool,
}

/// The whole dashboard state.
pub struct App {
    pub config: Config,
    pub selected_project: usize,
    pub running_tasks: Vec<RunningTask>,
    pub logs: Vec<LogMessage>,
    pub log_rx: Option<LogReceiver>,
    pub status_rx: Option<StatusReceiver>,
    pub process_rx: Option<ProcessReceiver>,
    pub should_quit: bool,
    pub filter_project: Option<String>,
    pub max_logs: usize,
    pub log_scroll: usize,
    pub auto_scroll: bool,
    pub search_buffer: String,
    pub search_mode: bool,
    /// A transient result message and the millisecond instant it was set.
    pub export_message: Option<(String, u64)>,
    pub focused_panel: FocusedPanel,
    /// Project name to last reported process id; names are unique.
    pub process_ids: Vec<(String, u32)>,
}

/// Whether a message belongs to the view a filter selects.
pub open spec fn spec_matches_filter(m: LogMessage, filter: Option<String>) -> bool {
    match filter {
        Some(f) => m.project@ == f@,
        None => true,
    }
}

/// The messages a filter leaves visible, in buffer order.
pub open spec fn spec_filtered(logs: Seq<LogMessage>, filter: Option<String>) -> Seq<LogMessage> {
    logs.filter(|m: LogMessage| spec_matches_filter(m, filter))
}

/// One buffer step: append a message, evicting the oldest once the buffer
/// holds `cap` messages.
pub open spec fn spec_buffer_step(logs: Seq<LogMessage>, m: LogMessage, cap: int) -> Seq<
    LogMessage,
> {
    if logs.len() < cap {
        logs.push(m)
    } else {
        logs.drop_first().push(m)
    }
}

/// A project filter selects exactly the messages of that project: every
/// visible message carries the filtered project, and every buffered message
/// of that project stays visible.
pub proof fn lemma_filter_selects_exactly(logs: Seq<LogMessage>, f: String)
    ensures
        forall|i: int|
            0 <= i < spec_filtered(logs, Some(f)).len() ==> (#[trigger] spec_filtered(
                logs,
                Some(f),
            )[i]).project@ == f@,
        forall|i: int|
            0 <= i < logs.len() && (#[trigger] logs[i]).project@ == f@ ==> spec_filtered(
                logs,
                Some(f),
            ).contains(logs[i]),
{
    broadcast use vstd::seq_lib::group_filter_ensures;

    assert forall|i: int|
        0 <= i < logs.len() && (#[trigger] logs[i]).project@ == f@ implies spec_filtered(
        logs,
        Some(f),
    ).contains(logs[i]) by {
        logs.lemma_filter_contains(|m: LogMessage| spec_matches_filter(m, Some(f)), i);
    }
}

/// With no filter active, every message is visible.
pub proof fn lemma_filter_none_keeps_all(logs: Seq<LogMessage>)
    ensures
        spec_filtered(logs, None) == logs,
    decreases logs.len(),
{
    if logs.len() == 0 {
        assert(spec_filtered(logs, None) =~= logs);
    } else {
        lemma_filter_none_keeps_all(logs.drop_last());
        logs.drop_last().lemma_filter_push(logs.last(), |m: LogMessage| spec_matches_filter(m, None));
        assert(logs.drop_last().push(logs.last()) =~= logs);
        assert(spec_filtered(logs, None) =~= logs);
    }
}

impl App {
    /// The messages currently visible under the active filter.
    pub open spec fn filtered(self) -> Seq<LogMessage> {
        spec_filtered(self.logs@, self.filter_project)
    }

    /// A scroll position is sound when it addresses a visible message, or is
    /// pinned at zero while nothing is visible above it.
    pub open spec fn scroll_ok(self) -> bool {
        self.log_scroll == 0 || (self.log_scroll as int) < self.filtered().len()
    }

    /// The dashboard's data invariant: the buffer respects its bound, the
    /// scroll offset addresses the filtered view, the selection addresses
    /// the task list, and process ids are keyed by unique project names.
    pub open spec fn inv(self) -> bool {
        &&& 1 <= self.max_logs
        &&& self.logs@.len() <= self.max_logs
        &&& self.scroll_ok()
        &&& (self.selected_project == 0 || (self.selected_project as int)
            < self.running_tasks@.len())
        &&& (forall|i: int, j: int|
            0 <= i < j < self.process_ids@.len() ==> (#[trigger] self.process_ids@[i]).0@ != (
            #[trigger] self.process_ids@[j]).0@)
    }

    /// A fresh dashboard over a configuration: nothing selected, nothing
    /// buffered, no filter, auto-scroll on, a 1000-message buffer bound.
    pub fn new(config: Config) -> (r: App)
        ensures
            r.config == config,
            r.selected_project == 0,
            r.running_tasks@.len() == 0,
            r.logs@.len() == 0,
            r.log_rx is None && r.status_rx is None && r.process_rx is None,
            !r.should_quit,
            r.filter_project is None,
            r.max_logs == 1000,
            r.log_scroll == 0,
            r.auto_scroll,
            r.search_buffer@.len() == 0,
            !r.search_mode,
            r.export_message is None,
            r.focused_panel == FocusedPanel::Projects,
            r.process_ids@.len() == 0,
            r.inv(),
    {
        let r = App {
            config,
            selected_project: 0,
            running_tasks: Vec::new(),
            logs: Vec::new(),
            log_rx: None,
            status_rx: None,
            process_rx: None,
            should_quit: false,
            filter_project: None,
            max_logs: 1000,
            log_scroll: 0,
            auto_scroll: true,
            search_buffer: String::new(),
            search_mode: false,
            export_message: None,
            focused_panel: FocusedPanel::Projects,
            process_ids: Vec::new(),
        };
        proof {
            assert(r.filtered() =~= Seq::<LogMessage>::empty());
        }
        r
    }

    /// The same dashboard, wired to the supervisor's three queues.
    pub fn with_receivers(
        self,
        log_rx: LogReceiver,
        status_rx: StatusReceiver,
        process_rx: ProcessReceiver,
    ) -> (r: App)
        ensures
            r == (App {
                log_rx: Some(log_rx),
                status_rx: Some(status_rx),
                process_rx: Some(process_rx),
                ..self
            }),
    {
        App { log_rx: Some(log_rx), status_rx: Some(status_rx), process_rx: Some(process_rx), ..self }
    }

    /// The tasks the configuration declares a dev command for, in order.
    pub open spec fn spec_dev_tasks(ps: Seq<(String, crate::config::ProjectConfig)>) -> Seq<
        RunningTask,
    >
        decreases ps.len(),
    {
        if ps.len() == 0 {
            Seq::empty()
        } else {
            let head = match spec_get(ps[0].1.tasks@, "dev"@) {
                Some(task) => seq![
                    RunningTask {
                        name: ps[0].0,
                        status: ProcessStatus::Starting,
                        tool: task.tool,
                    },
                ],
                None => Seq::empty(),
            };
            head + Self::spec_dev_tasks(ps.drop_first())
        }
    }

    /// Register every configured project that has a dev task, in
    /// configuration order, each starting in `Starting`.
    pub fn init_tasks(&mut self)
        requires
            old(self).inv(),
        ensures
            final(self).running_tasks@ == old(self).running_tasks@ + Self::spec_dev_tasks(
                old(self).config.projects@,
            ),
            *final(self) == (App { running_tasks: final(self).running_tasks, ..*old(self) }),
            final(self).inv(),
    {
        let ghost ps = self.config.projects@;
        let ghost orig = self.running_tasks@;
        proof {
            assert(ps.skip(0) =~= ps);
        }
        let n = self.config.projects.len();
        let mut i: usize = 0;
        while i < n
            invariant
                n == ps.len(),
                i <= n,
                ps == self.config.projects@,
                orig + Self::spec_dev_tasks(ps) == self.running_tasks@ + Self::spec_dev_tasks(
                    ps.skip(i as int),
                ),
                *self == (App { running_tasks: self.running_tasks, ..*old(self) }),
            decreases n - i,
        {
            let ghost suf = ps.skip(i as int);
            proof {
                assert(suf[0] == ps[i as int]);
                assert(suf.drop_first() =~= ps.skip(i + 1));
            }
            let name = &self.config.projects[i].0;
            match get_entry(&self.config.projects[i].1.tasks, "dev") {
                Some(task) => {
                    let t = RunningTask {
                        name: name.clone(),
                        status: ProcessStatus::Starting,
                        tool: task.tool.clone(),
                    };
                    let ghost before = self.running_tasks@;
                    self.running_tasks.push(t);
                    proof {
                        assert(orig + Self::spec_dev_tasks(ps) =~= self.running_tasks@
                            + Self::spec_dev_tasks(ps.skip(i + 1)));
                    }
                },
                None => {},
            }
            i = i + 1;
        }
        proof {
            assert(ps.skip(n as int) =~= Seq::<(String, crate::config::ProjectConfig)>::empty());
            assert(self.running_tasks@ + Seq::<RunningTask>::empty() =~= self.running_tasks@);
        }
    }

    /// Move the selection one project down, staying on the last one.
    pub fn select_next(&mut self)
        requires
            old(self).inv(),
        ensures
            final(self).selected_project == if old(self).selected_project + 1 < old(self).running_tasks@.len() {
                old(self).selected_project + 1
            } else {
                old(self).selected_project as int
            },
            *final(self) == (App { selected_project: final(self).selected_project, ..*old(self) }),
            final(self).inv(),
    {
        if self.selected_project < self.running_tasks.len().saturating_sub(1) {
            self.selected_project = self.selected_project + 1;
        }
    }

    /// Move the selection one project up, staying on the first one.
    pub fn select_previous(&mut self)
        requires
            old(self).inv(),
        ensures
            final(self).selected_project == if old(self).selected_project > 0 {
                old(self).selected_project - 1
            } else {
                0int
            },
            *final(self) == (App { selected_project: final(self).selected_project, ..*old(self) }),
            final(self).inv(),
    {
        self.selected_project = self.selected_project.saturating_sub(1);
    }

    /// Whether a message passes the active filter.
    pub fn matches_filter(&self, m: &LogMessage) -> (r: bool)
        ensures
            r == spec_matches_filter(*m, self.filter_project),
    {
        match &self.filter_project {
            Some(f) => str_eq(m.project.as_str(), f.as_str()),
            None => true,
        }
    }

    /// How many messages the active filter leaves visible.
    pub fn filtered_count(&self) -> (r: usize)
        ensures
            r == self.filtered().len(),
    {
        let ghost pred = |m: LogMessage| spec_matches_filter(m, self.filter_project);
        let mut count: usize = 0;
        let mut i: usize = 0;
        proof {
            assert(self.logs@.take(0int) =~= Seq::<LogMessage>::empty());
            assert(spec_filtered(self.logs@.take(0int), self.filter_project) =~= Seq::<
                LogMessage,
            >::empty());
        }
        while i < self.logs.len()
            invariant
                i <= self.logs@.len(),
                count == spec_filtered(self.logs@.take(i as int), self.filter_project).len(),
                count <= i,
            decreases self.logs@.len() - i,
        {
            proof {
                self.logs@.lemma_take_succ_push(i as int);
                self.logs@.take(i as int).lemma_filter_push(
                    self.logs@[i as int],
                    |m: LogMessage| spec_matches_filter(m, self.filter_project),
                );
            }
            if self.matches_filter(&self.logs[i]) {
                count = count + 1;
            }
            i = i + 1;
        }
        proof {
            assert(self.logs@.take(self.logs@.len() as int) =~= self.logs@);
        }
        count
    }

    /// The currently visible messages, oldest first: exactly the buffered
    /// messages whose project the filter admits, or every buffered message
    /// when no filter is active.
    pub fn get_filtered_logs(&self) -> (r: Vec<LogMessage>)
        ensures
            r@ == self.filtered(),
    {
        let mut out: Vec<LogMessage> = Vec::new();
        let mut i: usize = 0;
        proof {
            assert(self.logs@.take(0int) =~= Seq::<LogMessage>::empty());
            assert(spec_filtered(self.logs@.take(0int), self.filter_project) =~= Seq::<
                LogMessage,
            >::empty());
        }
        while i < self.logs.len()
            invariant
                i <= self.logs@.len(),
                out@ == spec_filtered(self.logs@.take(i as int), self.filter_project),
            decreases self.logs@.len() - i,
        {
            proof {
                self.logs@.lemma_take_succ_push(i as int);
                self.logs@.take(i as int).lemma_filter_push(
                    self.logs@[i as int],
                    |m: LogMessage| spec_matches_filter(m, self.filter_project),
                );
            }
            if self.matches_filter(&self.logs[i]) {
                out.push(self.logs[i].duplicate());
            }
            i = i + 1;
        }
        proof {
            assert(self.logs@.take(self.logs@.len() as int) =~= self.logs@);
        }
        out
    }
}

/// The least index at which `p` holds, if it holds anywhere.
pub open spec fn spec_first_where<T>(s: Seq<T>, p: spec_fn(T) -> bool) -> Option<int>
    decreases s.len(),
{
    if s.len() == 0 {
        None
    } else if p(s[0]) {
        Some(0int)
    } else {
        match spec_first_where(s.drop_first(), p) {
            None => None,
            Some(i) => Some(i + 1),
        }
    }
}

/// If `p` first holds at `i`, the search finds exactly `i`.
pub proof fn lemma_first_where_found<T>(s: Seq<T>, p: spec_fn(T) -> bool, i: int)
    requires
        0 <= i < s.len(),
        p(s[i]),
        forall|j: int| 0 <= j < i ==> !p(s[j]),
    ensures
        spec_first_where(s, p) == Some(i),
    decreases i,
{
    if i > 0 {
        lemma_first_where_found(s.drop_first(), p, i - 1);
    }
}

/// If `p` holds nowhere, the search finds nothing.
pub proof fn lemma_first_where_none<T>(s: Seq<T>, p: spec_fn(T) -> bool)
    requires
        forall|j: int| 0 <= j < s.len() ==> !p(s[j]),
    ensures
        spec_first_where(s, p) is None,
    decreases s.len(),
{
    if s.len() > 0 {
        lemma_first_where_none(s.drop_first(), p);
    }
}

impl App {
    /// One filtered message count, saturated down to a last index.
    pub open spec fn last_index(self) -> int {
        if self.filtered().len() == 0 {
            0
        } else {
            self.filtered().len() - 1
        }
    }

    /// Scroll one step down and leave auto-scroll off.
    pub fn scroll_down_one(&mut self)
        requires
            old(self).inv(),
        ensures
            final(self).log_scroll == if old(self).log_scroll + 1 <= old(self).last_index() {
                old(self).log_scroll + 1
            } else {
                old(self).last_index()
            },
            !final(self).auto_scroll,
            *final(self) == (App {
                log_scroll: final(self).log_scroll,
                auto_scroll: false,
                ..*old(self)
            }),
            final(self).inv(),
    {
        let count = self.filtered_count();
        self.auto_scroll = false;
        let next = self.log_scroll.saturating_add(1);
        let cap = count.saturating_sub(1);
        self.log_scroll = if next < cap {
            next
        } else {
            cap
        };
    }

    /// Scroll `n` steps down.  Like every manual scroll this turns
    /// auto-scroll off — except when the page reaches the end, which turns
    /// it back on.
    pub fn scroll_down_page(&mut self, n: usize)
        requires
            old(self).inv(),
        ensures
            final(self).log_scroll == if old(self).log_scroll + n <= old(self).last_index() {
                old(self).log_scroll + n
            } else {
                old(self).last_index()
            },
            final(self).auto_scroll == (final(self).log_scroll >= old(self).last_index()),
            *final(self) == (App {
                log_scroll: final(self).log_scroll,
                auto_scroll: final(self).auto_scroll,
                ..*old(self)
            }),
            final(self).inv(),
    {
        let count = self.filtered_count();
        self.auto_scroll = false;
        let next = self.log_scroll.saturating_add(n);
        let cap = count.saturating_sub(1);
        self.log_scroll = if next < cap {
            next
        } else {
            cap
        };
        if self.log_scroll >= cap {
            self.auto_scroll = true;
        }
    }

    /// Scroll `n` steps up and leave auto-scroll off.
    pub fn scroll_up(&mut self, n: usize)
        requires
            old(self).inv(),
        ensures
            final(self).log_scroll == if old(self).log_scroll >= n {
                old(self).log_scroll - n
            } else {
                0int
            },
            !final(self).auto_scroll,
            *final(self) == (App {
                log_scroll: final(self).log_scroll,
                auto_scroll: false,
                ..*old(self)
            }),
            final(self).inv(),
    {
        self.auto_scroll = false;
        self.log_scroll = self.log_scroll.saturating_sub(n);
    }

    /// Jump to the oldest visible message and leave auto-scroll off.
    pub fn scroll_top(&mut self)
        requires
            old(self).inv(),
        ensures
            *final(self) == (App { log_scroll: 0, auto_scroll: false, ..*old(self) }),
            final(self).inv(),
    {
        self.auto_scroll = false;
        self.log_scroll = 0;
    }

    /// Jump to the newest visible message and re-enable auto-scroll.
    pub fn scroll_bottom(&mut self)
        requires
            old(self).inv(),
        ensures
            final(self).log_scroll == old(self).last_index(),
            *final(self) == (App {
                log_scroll: final(self).log_scroll,
                auto_scroll: true,
                ..*old(self)
            }),
            final(self).inv(),
    {
        self.auto_scroll = true;
        let count = self.filtered_count();
        self.log_scroll = count.saturating_sub(1);
    }

    /// Toggle the per-project filter on the selected project: filtering an
    /// already filtered project clears the filter; filtering a new one
    /// resets the scroll to the bottom of the view and re-enables
    /// auto-scroll.  With no task selected, nothing changes.
    pub fn toggle_filter(&mut self)
        requires
            old(self).inv(),
        ensures
            ({
                let tasks = old(self).running_tasks@;
                if (old(self).selected_project as int) < tasks.len() {
                    let name = tasks[old(self).selected_project as int].name;
                    match old(self).filter_project {
                        Some(f) if f@ == name@ => *final(self) == (App {
                            filter_project: None,
                            auto_scroll: true,
                            ..*old(self)
                        }),
                        _ => match final(self).filter_project {
                            Some(g) => g@ == name@ && final(self).log_scroll == final(self).last_index() && *final(self) == (App {
                                filter_project: final(self).filter_project,
                                log_scroll: final(self).log_scroll,
                                auto_scroll: true,
                                ..*old(self)
                            }),
                            None => false,
                        },
                    }
                } else {
                    *final(self) == *old(self)
                }
            }),
            final(self).inv(),
    {
        if self.selected_project < self.running_tasks.len() {
            let same = match &self.filter_project {
                Some(f) => str_eq(f.as_str(), self.running_tasks[self.selected_project].name.as_str()),
                None => false,
            };
            if same {
                self.filter_project = None;
                self.auto_scroll = true;
                proof {
                    self.logs@.lemma_filter_len(
                        |m: LogMessage| spec_matches_filter(m, old(self).filter_project),
                    );
                    lemma_filter_none_keeps_all(self.logs@);
                }
            } else {
                self.filter_project = Some(
                    self.running_tasks[self.selected_project].name.clone(),
                );
                // the toggle lands at the bottom of the newly filtered view
                let count = self.filtered_count();
                self.log_scroll = count.saturating_sub(1);
                self.auto_scroll = true;
            }
        }
    }

    /// Clear the filter and show every buffered message, auto-scroll on.
    pub fn show_all(&mut self)
        requires
            old(self).inv(),
        ensures
            *final(self) == (App { filter_project: None, auto_scroll: true, ..*old(self) }),
            final(self).inv(),
    {
        self.filter_project = None;
        self.auto_scroll = true;
        proof {
            self.logs@.lemma_filter_len(
                |m: LogMessage| spec_matches_filter(m, old(self).filter_project),
            );
            lemma_filter_none_keeps_all(self.logs@);
        }
    }

    /// Drop every buffered message and rewind the scroll.
    pub fn clear_logs(&mut self)
        requires
            old(self).inv(),
        ensures
            final(self).logs@.len() == 0,
            *final(self) == (App {
                logs: final(self).logs,
                log_scroll: 0,
                ..*old(self)
            }),
            final(self).inv(),
    {
        self.logs.clear();
        self.log_scroll = 0;
        proof {
            assert(self.filtered() =~= Seq::<LogMessage>::empty());
        }
    }

    /// Switch vertical navigation between the project list and the log view.
    pub fn toggle_focus(&mut self)
        requires
            old(self).inv(),
        ensures
            final(self).focused_panel == (if old(self).focused_panel == FocusedPanel::Projects {
                FocusedPanel::Logs
            } else {
                FocusedPanel::Projects
            }),
            *final(self) == (App { focused_panel: final(self).focused_panel, ..*old(self) }),
            final(self).inv(),
    {
        self.focused_panel = match self.focused_panel {
            FocusedPanel::Projects => FocusedPanel::Logs,
            FocusedPanel::Logs => FocusedPanel::Projects,
        };
    }

    /// A task's lowercased name contains the lowercased search buffer.
    pub open spec fn search_pred(needle: Seq<char>) -> spec_fn(RunningTask) -> bool {
        |t: RunningTask| contains_seq(lower(t.name@), needle)
    }

    /// The project the search buffer selects: the first task whose
    /// lowercased name contains the lowercased buffer.
    pub open spec fn spec_search_hit(tasks: Seq<RunningTask>, needle: Seq<char>) -> Option<int> {
        spec_first_where(tasks, Self::search_pred(needle))
    }

    /// Jump to the first project whose name contains the search buffer,
    /// case-insensitively; an empty buffer or a miss leaves the selection.
    pub fn apply_search(&mut self)
        requires
            old(self).inv(),
        ensures
            final(self).selected_project == if old(self).search_buffer@.len() == 0 {
                old(self).selected_project as int
            } else {
                match Self::spec_search_hit(
                    old(self).running_tasks@,
                    lower(old(self).search_buffer@),
                ) {
                    Some(i) => i,
                    None => old(self).selected_project as int,
                }
            },
            *final(self) == (App { selected_project: final(self).selected_project, ..*old(self) }),
            final(self).inv(),
    {
        if self.search_buffer.as_str().unicode_len() == 0 {
            return ;
        }
        let ghost needle_v = lower(self.search_buffer@);
        let ghost pred = Self::search_pred(needle_v);
        let needle = to_lower(&crate::text::chars_of(self.search_buffer.as_str()));
        let n = self.running_tasks.len();
        let mut i: usize = 0;
        while i < n
            invariant
                old(self).inv(),
                old(self).search_buffer@.len() > 0,
                n == self.running_tasks@.len(),
                i <= n,
                needle@ == needle_v,
                needle_v == lower(self.search_buffer@),
                pred == Self::search_pred(needle_v),
                forall|j: int| 0 <= j < i ==> !pred(#[trigger] self.running_tasks@[j]),
                *self == *old(self),
            decreases n - i,
        {
            let name_lc = to_lower(
                &crate::text::chars_of(self.running_tasks[i].name.as_str()),
            );
            if contains_chars(&name_lc, &needle) {
                proof {
                    assert(pred(self.running_tasks@[i as int]));
                    lemma_first_where_found(self.running_tasks@, pred, i as int);
                    assert(spec_first_where(self.running_tasks@, pred) == Some(i as int));
                    assert(Self::spec_search_hit(
                        old(self).running_tasks@,
                        lower(old(self).search_buffer@),
                    ) == Some(i as int));
                }
                self.selected_project = i;
                return ;
            }
            i = i + 1;
        }
        proof {
            lemma_first_where_none(self.running_tasks@, pred);
        }
    }

    /// Enter search mode with an empty buffer.
    pub fn enter_search(&mut self)
        requires
            old(self).inv(),
        ensures
            final(self).search_mode,
            final(self).search_buffer@.len() == 0,
            *final(self) == (App {
                search_mode: true,
                search_buffer: final(self).search_buffer,
                ..*old(self)
            }),
            final(self).inv(),
    {
        self.search_mode = true;
        self.search_buffer = String::new();
    }

    /// Append one character to the search buffer and re-apply the search.
    pub fn search_push(&mut self, c: char)
        requires
            old(self).inv(),
        ensures
            final(self).search_buffer@ == old(self).search_buffer@.push(c),
            final(self).selected_project == match Self::spec_search_hit(
                old(self).running_tasks@,
                lower(old(self).search_buffer@.push(c)),
            ) {
                Some(i) => i,
                None => old(self).selected_project as int,
            },
            *final(self) == (App {
                search_buffer: final(self).search_buffer,
                selected_project: final(self).selected_project,
                ..*old(self)
            }),
            final(self).inv(),
    {
        crate::text::push_char(&mut self.search_buffer, c);
        self.apply_search();
    }

    /// Drop the last character of the search buffer and re-apply the search.
    pub fn search_backspace(&mut self)
        requires
            old(self).inv(),
        ensures
            final(self).search_buffer@ == if old(self).search_buffer@.len() > 0 {
                old(self).search_buffer@.drop_last()
            } else {
                old(self).search_buffer@
            },
            *final(self) == (App {
                search_buffer: final(self).search_buffer,
                selected_project: final(self).selected_project,
                ..*old(self)
            }),
            final(self).inv(),
    {
        let cs = crate::text::chars_of(self.search_buffer.as_str());
        if cs.len() > 0 {
            let shorter = crate::text::copy_range(&cs, 0, cs.len() - 1);
            self.search_buffer = crate::text::string_from_chars(&shorter);
            proof {
                assert(self.search_buffer@ =~= old(self).search_buffer@.drop_last());
            }
        }
        self.apply_search();
    }

    /// Leave search mode, clearing the buffer on cancel and keeping it on
    /// confirm; either way the selection stays where the search left it.
    pub fn leave_search(&mut self, cancel: bool)
        requires
            old(self).inv(),
        ensures
            !final(self).search_mode,
            final(self).selected_project == old(self).selected_project,
            cancel ==> final(self).search_buffer@.len() == 0,
            !cancel ==> final(self).search_buffer == old(self).search_buffer,
            *final(self) == (App {
                search_mode: false,
                search_buffer: final(self).search_buffer,
                ..*old(self)
            }),
            final(self).inv(),
    {
        self.search_mode = false;
        if cancel {
            self.search_buffer = String::new();
        }
    }

    /// Jump straight to a project by its 1-based digit.
    pub fn quick_jump(&mut self, c: char)
        requires
            old(self).inv(),
        ensures
            final(self).selected_project == if 49 <= c as u32 <= 57 && (c as u32 - 49)
                < old(self).running_tasks@.len() {
                c as u32 - 49
            } else {
                old(self).selected_project as int
            },
            *final(self) == (App { selected_project: final(self).selected_project, ..*old(self) }),
            final(self).inv(),
    {
        let u = c as u32;
        if 49 <= u && u <= 57 {
            let idx = (u - 49) as usize;
            if idx < self.running_tasks.len() {
                self.selected_project = idx;
            }
        }
    }

    /// Jump the selection to the first or the last project.
    pub fn select_edge(&mut self, last: bool)
        requires
            old(self).inv(),
        ensures
            final(self).selected_project == if last {
                if old(self).running_tasks@.len() == 0 {
                    0int
                } else {
                    old(self).running_tasks@.len() - 1
                }
            } else {
                0int
            },
            *final(self) == (App { selected_project: final(self).selected_project, ..*old(self) }),
            final(self).inv(),
    {
        if last {
            self.selected_project = self.running_tasks.len().saturating_sub(1);
        } else {
            self.selected_project = 0;
        }
    }

    /// Dispatch one key press.
    ///
    /// In search mode every character edits the search buffer and only
    /// escape or enter leaves the mode, without moving the selection
    /// further.  In normal mode the key moves the selection or the scroll,
    /// toggles focus or filter, clears the buffer, or asks to quit; `q` and
    /// escape set the quit flag and nothing else reacts to them.
    pub fn handle_key(&mut self, key: KeyInput)
        requires
            old(self).inv(),
        ensures
            final(self).inv(),
            old(self).search_mode && key.code == KeyCode::Esc ==> !final(self).search_mode
                && final(self).search_buffer@.len() == 0 && final(self).selected_project == old(self).selected_project,
            old(self).search_mode && key.code == KeyCode::Enter ==> !final(self).search_mode
                && final(self).selected_project == old(self).selected_project,
            old(self).search_mode ==> final(self).logs == old(self).logs && final(self).filter_project == old(self).filter_project && final(self).should_quit == old(self).should_quit,
            !old(self).search_mode && (key.code == KeyCode::Char('q') || key.code == KeyCode::Esc)
                ==> final(self).should_quit,
            !old(self).search_mode && key.code == KeyCode::Char('/') ==> final(self).search_mode
                && final(self).search_buffer@.len() == 0,
            !old(self).search_mode && key.code == KeyCode::Tab ==> final(self).focused_panel != old(self).focused_panel,
            !old(self).search_mode && key.code == KeyCode::End ==> final(self).auto_scroll
                && final(self).log_scroll == final(self).last_index(),
            !old(self).search_mode && key.code == KeyCode::Home ==> !final(self).auto_scroll
                && final(self).log_scroll == 0,
            !old(self).search_mode && key.code == KeyCode::Char('a') ==> final(self).filter_project is None && final(self).auto_scroll,
            !old(self).search_mode && key.code == KeyCode::Char('c') && !key.ctrl ==> final(self).logs@.len() == 0 && final(self).log_scroll == 0,
            final(self).max_logs == old(self).max_logs,
    {
        if self.search_mode {
            match key.code {
                KeyCode::Esc => {
                    self.leave_search(true);
                },
                KeyCode::Enter => {
                    self.leave_search(false);
                },
                KeyCode::Backspace => {
                    self.search_backspace();
                },
                KeyCode::Char(c) => {
                    self.search_push(c);
                },
                _ => {},
            }
        } else {
            match key.code {
                KeyCode::Char('q') | KeyCode::Esc => {
                    self.should_quit = true;
                },
                KeyCode::Tab => {
                    self.toggle_focus();
                },
                KeyCode::Down | KeyCode::Char('j') => {
                    if self.focused_panel == FocusedPanel::Projects {
                        self.select_next();
                    } else {
                        self.scroll_down_one();
                    }
                },
                KeyCode::Up | KeyCode::Char('k') => {
                    if self.focused_panel == FocusedPanel::Projects {
                        self.select_previous();
                    } else {
                        self.scroll_up(1);
                    }
                },
                KeyCode::Enter | KeyCode::Char(' ') => {
                    self.toggle_filter();
                },
                KeyCode::Char('u') if key.ctrl => {
                    self.scroll_up(15);
                },
                KeyCode::Char('d') if key.ctrl => {
                    self.scroll_down_page(15);
                },
                KeyCode::Char('b') if key.ctrl => {
                    self.scroll_up(30);
                },
                KeyCode::Char('f') if key.ctrl => {
                    self.scroll_down_page(30);
                },
                KeyCode::Char('g') if key.shift => {
                    if self.focused_panel == FocusedPanel::Projects {
                        self.select_edge(true);
                    } else {
                        self.scroll_bottom();
                    }
                },
                KeyCode::Char('g') => {
                    if self.focused_panel == FocusedPanel::Projects {
                        self.select_edge(false);
                    } else {
                        self.scroll_top();
                    }
                },
                KeyCode::Char('c') if !key.ctrl => {
                    self.clear_logs();
                },
                KeyCode::Char('a') => {
                    self.show_all();
                },
                KeyCode::Char('/') => {
                    self.enter_search();
                },
                KeyCode::Char('n') => {
                    self.select_next();
                },
                KeyCode::Char('p') | KeyCode::Char('N') => {
                    self.select_previous();
                },
                KeyCode::PageUp => {
                    self.scroll_up(10);
                },
                KeyCode::PageDown => {
                    self.scroll_down_page(10);
                },
                KeyCode::Home => {
                    self.scroll_top();
                },
                KeyCode::End => {
                    self.scroll_bottom();
                },
                KeyCode::Char(c) => {
                    self.quick_jump(c);
                },
                _ => {},
            }
        }
    }
}

/// Repeated buffer steps over a whole arrival sequence, oldest first.
pub open spec fn spec_buffer_after(cap: int, msgs: Seq<LogMessage>) -> Seq<LogMessage>
    decreases msgs.len(),
{
    if msgs.len() == 0 {
        Seq::empty()
    } else {
        spec_buffer_step(spec_buffer_after(cap, msgs.drop_last()), msgs.last(), cap)
    }
}

/// The buffer bound, as a law: after any number of arrivals into an empty
/// buffer of capacity `cap`, the buffer holds exactly the newest
/// `min(N, cap)` messages in arrival order — its length never exceeds `cap`,
/// and once `N` exceeds `cap` the oldest `N - cap` messages are gone.
pub proof fn lemma_buffer_fifo(cap: int, msgs: Seq<LogMessage>)
    requires
        cap >= 1,
    ensures
        spec_buffer_after(cap, msgs) == msgs.skip(
            if msgs.len() <= cap {
                0
            } else {
                msgs.len() - cap
            },
        ),
        spec_buffer_after(cap, msgs).len() == if msgs.len() <= cap {
            msgs.len() as int
        } else {
            cap
        },
    decreases msgs.len(),
{
    if msgs.len() == 0 {
        assert(spec_buffer_after(cap, msgs) =~= msgs.skip(0));
    } else {
        let head = msgs.drop_last();
        lemma_buffer_fifo(cap, head);
        let b = spec_buffer_after(cap, head);
        if head.len() <= cap {
            assert(b == head.skip(0));
            assert(head.skip(0) =~= head);
            if head.len() < cap {
                assert(b.push(msgs.last()) =~= msgs.skip(0));
            } else {
                assert(b.drop_first().push(msgs.last()) =~= msgs.skip(1));
            }
        } else {
            assert(b == head.skip(head.len() - cap));
            assert(b.len() == cap);
            assert(b.drop_first().push(msgs.last()) =~= msgs.skip(msgs.len() - cap));
        }
    }
}

impl App {
    /// Append one captured message to the buffer, evicting the oldest
    /// message once the buffer is full and moving a manual scroll position
    /// along with the evicted line; with auto-scroll on, the scroll pins to
    /// the newest message of the filtered view.
    pub fn record_log(&mut self, msg: LogMessage)
        requires
            old(self).inv(),
        ensures
            final(self).logs@ == spec_buffer_step(
                old(self).logs@,
                msg,
                old(self).max_logs as int,
            ),
            final(self).logs@.len() <= old(self).max_logs,
            old(self).auto_scroll ==> final(self).log_scroll == final(self).last_index(),
            !old(self).auto_scroll ==> final(self).log_scroll == if old(self).logs@.len() < old(self).max_logs {
                old(self).log_scroll as int
            } else if old(self).log_scroll > 0 {
                old(self).log_scroll - 1
            } else {
                0int
            },
            *final(self) == (App {
                logs: final(self).logs,
                log_scroll: final(self).log_scroll,
                ..*old(self)
            }),
            final(self).inv(),
    {
        let ghost pred = |m: LogMessage| spec_matches_filter(m, self.filter_project);
        let ghost logs0 = self.logs@;
        self.logs.push(msg);
        proof {
            logs0.lemma_filter_push(msg, pred);
        }
        if self.logs.len() > self.max_logs {
            proof {
                assert(logs0.push(msg) =~= seq![logs0.push(msg)[0]] + logs0.push(msg).drop_first());
                logs0.push(msg).drop_first().lemma_filter_prepend(logs0.push(msg)[0], pred);
                assert(seq![logs0.push(msg)[0]] + logs0.push(msg).drop_first() == logs0.push(msg));
            }
            self.logs.remove(0);
            self.log_scroll = self.log_scroll.saturating_sub(1);
            proof {
                assert(self.logs@ =~= logs0.drop_first().push(msg));
                assert(logs0 =~= seq![logs0[0]] + logs0.drop_first());
                logs0.drop_first().lemma_filter_prepend(logs0[0], pred);
                logs0.drop_first().lemma_filter_push(msg, pred);
            }
        }
        if self.auto_scroll {
            let count = self.filtered_count();
            self.log_scroll = count.saturating_sub(1);
        }
    }

    /// Drain pending log messages into the buffer, giving back how many
    /// arrived; each one is recorded as [`Self::record_log`] says, so with
    /// auto-scroll on the view ends pinned to the newest filtered message.
    pub fn drain_logs(&mut self) -> (r: usize)
        requires
            old(self).inv(),
        ensures
            final(self).inv(),
            final(self).auto_scroll == old(self).auto_scroll,
            final(self).filter_project == old(self).filter_project,
            final(self).max_logs == old(self).max_logs,
            old(self).auto_scroll && r > 0 ==> final(self).log_scroll == final(self).last_index(),
            r == 0 ==> final(self).logs == old(self).logs && final(self).log_scroll == old(self).log_scroll,
            *final(self) == (App {
                logs: final(self).logs,
                log_scroll: final(self).log_scroll,
                log_rx: final(self).log_rx,
                ..*old(self)
            }),
    {
        let mut processed: usize = 0;
        match self.log_rx.take() {
            None => {
                self.log_rx = None;
                proof {
                    assert(*self =~= (App { log_rx: self.log_rx, ..*old(self) }));
                }
                0
            },
            Some(mut rx) => {
                let mut budget: u64 = 100000u64;
                let mut more = true;
                while more && budget > 0
                    invariant
                        self.inv(),
                        self.auto_scroll == old(self).auto_scroll,
                        self.filter_project == old(self).filter_project,
                        self.max_logs == old(self).max_logs,
                        old(self).auto_scroll && processed > 0 ==> self.log_scroll as int
                            == self.last_index(),
                        processed == 0 ==> self.logs == old(self).logs && self.log_scroll == old(self).log_scroll,
                        processed + budget <= 100000,
                        *self == (App {
                            logs: self.logs,
                            log_scroll: self.log_scroll,
                            log_rx: self.log_rx,
                            ..*old(self)
                        }),
                    decreases budget,
                {
                    match try_recv_event(&mut rx) {
                        Some(m) => {
                            self.record_log(m);
                            processed = processed + 1;
                        },
                        None => {
                            more = false;
                        },
                    }
                    budget = budget - 1;
                }
                self.log_rx = Some(rx);
                processed
            },
        }
    }

    /// Drain freshly reported process ids into the tracking table.
    pub fn drain_process_infos(&mut self)
        requires
            old(self).inv(),
        ensures
            final(self).inv(),
            *final(self) == (App {
                process_ids: final(self).process_ids,
                process_rx: final(self).process_rx,
                ..*old(self)
            }),
    {
        match self.process_rx.take() {
            None => {
                self.process_rx = None;
            },
            Some(mut rx) => {
                let mut budget: u64 = 100000u64;
                let mut more = true;
                while more && budget > 0
                    invariant
                        self.inv(),
                        *self == (App {
                            process_ids: self.process_ids,
                            process_rx: self.process_rx,
                            ..*old(self)
                        }),
                    decreases budget,
                {
                    match try_recv_event(&mut rx) {
                        Some(info) => {
                            self.record_process_info(info);
                        },
                        None => {
                            more = false;
                        },
                    }
                    budget = budget - 1;
                }
                self.process_rx = Some(rx);
            },
        }
    }

    /// An entry of the process-id table belongs to a project name.
    pub open spec fn pid_pred(key: Seq<char>) -> spec_fn((String, u32)) -> bool {
        |e: (String, u32)| e.0@ == key
    }

    /// Record the process id of one freshly spawned child: the project's
    /// entry is replaced if present and appended otherwise, leaving every
    /// other project's id alone.
    pub fn record_process_info(&mut self, info: ProcessInfo)
        requires
            old(self).inv(),
        ensures
            ({
                let ids = old(self).process_ids@;
                match spec_first_where(ids, Self::pid_pred(info.project@)) {
                    Some(j) => final(self).process_ids@ == ids.update(
                        j,
                        (info.project, info.pid),
                    ),
                    None => final(self).process_ids@ == ids.push((info.project, info.pid)),
                }
            }),
            *final(self) == (App { process_ids: final(self).process_ids, ..*old(self) }),
            final(self).inv(),
    {
        let ghost pred = Self::pid_pred(info.project@);
        let n = self.process_ids.len();
        let mut i: usize = 0;
        while i < n
            invariant
                old(self).inv(),
                n == self.process_ids@.len(),
                i <= n,
                pred == Self::pid_pred(info.project@),
                forall|j: int| 0 <= j < i ==> !pred(#[trigger] self.process_ids@[j]),
                *self == *old(self),
            decreases n - i,
        {
            if str_eq(self.process_ids[i].0.as_str(), info.project.as_str()) {
                proof {
                    lemma_first_where_found(self.process_ids@, pred, i as int);
                }
                self.process_ids[i] = (info.project, info.pid);
                return ;
            }
            i = i + 1;
        }
        proof {
            lemma_first_where_none(self.process_ids@, pred);
        }
        self.process_ids.push((info.project, info.pid));
    }

    /// A tracked task belongs to a project name.
    pub open spec fn task_pred(key: Seq<char>) -> spec_fn(RunningTask) -> bool {
        |t: RunningTask| t.name@ == key
    }

    /// Apply one lifecycle report: the first task of that project takes the
    /// reported status, except that a terminal status never reverts to a
    /// non-terminal one; an unknown project changes nothing.
    pub fn apply_status_update(&mut self, update: &StatusUpdate)
        requires
            old(self).inv(),
        ensures
            ({
                let tasks = old(self).running_tasks@;
                match spec_first_where(tasks, Self::task_pred(update.project@)) {
                    Some(j) => final(self).running_tasks@ == tasks.update(
                        j,
                        (RunningTask {
                            status: spec_apply(tasks[j].status, update.status),
                            ..tasks[j]
                        }),
                    ),
                    None => final(self).running_tasks@ == tasks,
                }
            }),
            final(self).running_tasks@.len() == old(self).running_tasks@.len(),
            forall|i: int|
                0 <= i < old(self).running_tasks@.len() ==> (#[trigger] final(self).running_tasks@[i]).name == old(self).running_tasks@[i].name && final(self).running_tasks@[i].tool == old(self).running_tasks@[i].tool,
            forall|i: int|
                0 <= i < old(self).running_tasks@.len() && spec_terminal(
                    old(self).running_tasks@[i].status,
                ) ==> spec_terminal((#[trigger] final(self).running_tasks@[i]).status),
            *final(self) == (App { running_tasks: final(self).running_tasks, ..*old(self) }),
            final(self).inv(),
    {
        let ghost pred = Self::task_pred(update.project@);
        let n = self.running_tasks.len();
        let mut i: usize = 0;
        while i < n
            invariant
                old(self).inv(),
                n == self.running_tasks@.len(),
                i <= n,
                pred == Self::task_pred(update.project@),
                forall|j: int| 0 <= j < i ==> !pred(#[trigger] self.running_tasks@[j]),
                *self == *old(self),
            decreases n - i,
        {
            if str_eq(self.running_tasks[i].name.as_str(), update.project.as_str()) {
                proof {
                    lemma_first_where_found(self.running_tasks@, pred, i as int);
                }
                let cur = self.running_tasks[i].status;
                self.running_tasks[i].status = cur.apply(update.status);
                return ;
            }
            i = i + 1;
        }
        proof {
            lemma_first_where_none(self.running_tasks@, pred);
        }
    }

    /// Drain pending lifecycle reports into the task list.  Task names and
    /// tools never change here, and a task already in a terminal state stays
    /// terminal whatever arrives.
    pub fn update_task_status(&mut self)
        requires
            old(self).inv(),
        ensures
            final(self).inv(),
            final(self).running_tasks@.len() == old(self).running_tasks@.len(),
            forall|i: int|
                0 <= i < old(self).running_tasks@.len() ==> (#[trigger] final(self).running_tasks@[i]).name == old(self).running_tasks@[i].name && final(self).running_tasks@[i].tool == old(self).running_tasks@[i].tool,
            forall|i: int|
                0 <= i < old(self).running_tasks@.len() && spec_terminal(
                    old(self).running_tasks@[i].status,
                ) ==> spec_terminal((#[trigger] final(self).running_tasks@[i]).status),
            *final(self) == (App {
                running_tasks: final(self).running_tasks,
                status_rx: final(self).status_rx,
                ..*old(self)
            }),
    {
        match self.status_rx.take() {
            None => {
                self.status_rx = None;
            },
            Some(mut rx) => {
                let mut budget: u64 = 100000u64;
                let mut more = true;
                while more && budget > 0
                    invariant
                        self.inv(),
                        self.running_tasks@.len() == old(self).running_tasks@.len(),
                        forall|i: int|
                            0 <= i < old(self).running_tasks@.len() ==> (#[trigger] self
                                .running_tasks@[i]).name == old(self).running_tasks@[i].name
                                && self.running_tasks@[i].tool == old(self).running_tasks@[i].tool,
                        forall|i: int|
                            0 <= i < old(self).running_tasks@.len() && spec_terminal(
                                old(self).running_tasks@[i].status,
                            ) ==> spec_terminal((#[trigger] self.running_tasks@[i]).status),
                        *self == (App {
                            running_tasks: self.running_tasks,
                            status_rx: self.status_rx,
                            ..*old(self)
                        }),
                    decreases budget,
                {
                    match try_recv_event(&mut rx) {
                        Some(u) => {
                            self.apply_status_update(&u);
                        },
                        None => {
                            more = false;
                        },
                    }
                    budget = budget - 1;
                }
                self.status_rx = Some(rx);
            },
        }
    }

    /// One full tick: expire a stale export message (3 seconds after it was
    /// set), then drain process ids, log messages and lifecycle reports.
    pub fn on_tick(&mut self, now_ms: u64)
        requires
            old(self).inv(),
        ensures
            final(self).inv(),
            final(self).auto_scroll == old(self).auto_scroll,
            final(self).filter_project == old(self).filter_project,
            final(self).running_tasks@.len() == old(self).running_tasks@.len(),
            forall|i: int|
                0 <= i < old(self).running_tasks@.len() && spec_terminal(
                    old(self).running_tasks@[i].status,
                ) ==> spec_terminal((#[trigger] final(self).running_tasks@[i]).status),
            final(self).export_message == (match old(self).export_message {
                Some(p) => if now_ms >= p.1 && now_ms - p.1 >= 3000 {
                    None
                } else {
                    Some(p)
                },
                None => None,
            }),
            final(self).should_quit == old(self).should_quit,
            final(self).search_mode == old(self).search_mode,
    {
        let expire = match &self.export_message {
            Some(p) => now_ms >= p.1 && now_ms - p.1 >= 3000,
            None => false,
        };
        if expire {
            self.export_message = None;
        }
        self.drain_process_infos();
        let _ = self.drain_logs();
        self.update_task_status();
    }
}

/// The export tag of a severity.
pub open spec fn spec_level_tag(l: LogLevel) -> Seq<char> {
    match l {
        LogLevel::Info => "INFO"@,
        LogLevel::Error => "ERROR"@,
        LogLevel::Debug => "DEBUG"@,
    }
}

/// One exported line: `[timestamp] [project] [LEVEL] message`.
pub open spec fn spec_export_line(m: LogMessage) -> Seq<char> {
    "["@ + m.timestamp@ + "] ["@ + m.project@ + "] ["@ + spec_level_tag(m.level) + "] "@
        + m.message@ + "\n"@
}

/// The first `n` exported lines, concatenated.
pub open spec fn spec_export_text_upto(ms: Seq<LogMessage>, n: int) -> Seq<char>
    decreases n,
{
    if n <= 0 {
        Seq::empty()
    } else {
        spec_export_text_upto(ms, n - 1) + spec_export_line(ms[n - 1])
    }
}

/// The filename an export is written to.
pub open spec fn spec_export_filename(filter: Option<String>, stamp: Seq<char>) -> Seq<char> {
    "meta-logs-"@ + (match filter {
        Some(f) => f@,
        None => "all"@,
    }) + "-"@ + stamp + ".txt"@
}

/// Relies on chrono's `Local::now` and its formatter: the current local
/// wall-clock time rendered as `YYYYMMDD_HHMMSS`.  The value depends on the
/// clock, so nothing is stated of it.
#[verifier::external_body]
pub fn now_stamp() -> (r: String) {
    chrono::Local::now().format("%Y%m%d_%H%M%S").to_string()
}

impl App {
    /// The text an export writes: every currently visible message, one line
    /// each, as `[timestamp] [project] [LEVEL] message`.
    pub fn render_export_text(&self) -> (r: String)
        ensures
            r@ == spec_export_text_upto(self.filtered(), self.filtered().len() as int),
    {
        let msgs = self.get_filtered_logs();
        let mut out = String::new();
        let mut i: usize = 0;
        while i < msgs.len()
            invariant
                msgs@ == self.filtered(),
                i <= msgs@.len(),
                out@ == spec_export_text_upto(msgs@, i as int),
            decreases msgs@.len() - i,
        {
            out.append("[");
            out.append(msgs[i].timestamp.as_str());
            out.append("] [");
            out.append(msgs[i].project.as_str());
            out.append("] [");
            out.append(msgs[i].level_str());
            out.append("] ");
            out.append(msgs[i].message.as_str());
            out.append("\n");
            i = i + 1;
            proof {
                assert(out@ =~= spec_export_text_upto(msgs@, i as int));
            }
        }
        out
    }

    /// The export filename for a given timestamp: the active filter's
    /// project name, or `all`, between the fixed prefix and the stamp.
    pub fn export_filename(&self, stamp: &str) -> (r: String)
        ensures
            r@ == spec_export_filename(self.filter_project, stamp@),
    {
        let mut out = String::from_str("meta-logs-");
        match &self.filter_project {
            Some(f) => {
                out.append(f.as_str());
            },
            None => {
                out.append("all");
            },
        }
        out.append("-");
        out.append(stamp);
        out.append(".txt");
        proof {
            assert(out@ =~= spec_export_filename(self.filter_project, stamp@));
        }
        out
    }

    /// The filename (stamped with the current time) and full text of an
    /// export of the visible messages.
    pub fn prepare_export(&self) -> (r: (String, String))
        ensures
            exists|stamp: Seq<char>|
                r.0@ == #[trigger] spec_export_filename(self.filter_project, stamp),
            r.1@ == spec_export_text_upto(self.filtered(), self.filtered().len() as int),
    {
        let stamp = now_stamp();
        let name = self.export_filename(stamp.as_str());
        let text = self.render_export_text();
        proof {
            assert(name@ == spec_export_filename(self.filter_project, stamp@));
        }
        (name, text)
    }

    /// Show a transient result message, timestamped so a later tick can
    /// expire it.
    pub fn set_export_result(&mut self, text: String, now_ms: u64)
        requires
            old(self).inv(),
        ensures
            final(self).export_message == Some((text, now_ms)),
            *final(self) == (App { export_message: final(self).export_message, ..*old(self) }),
            final(self).inv(),
    {
        self.export_message = Some((text, now_ms));
    }

    /// Export only the filtered view: with a filter active this hands back
    /// the stamped filename and text to write; without one it only shows a
    /// notice and hands back nothing.
    pub fn save_filtered_logs(&mut self, now_ms: u64) -> (r: Option<(String, String)>)
        requires
            old(self).inv(),
        ensures
            old(self).filter_project is None ==> r is None && (match final(self).export_message {
                Some(p) => p.0@ == "❌ No filter active. Use 'e' to export all logs."@ && p.1
                    == now_ms,
                None => false,
            }) && *final(self) == (App {
                export_message: final(self).export_message,
                ..*old(self)
            }),
            old(self).filter_project is Some ==> *final(self) == *old(self) && (match r {
                Some(p) => (exists|stamp: Seq<char>|
                    p.0@ == #[trigger] spec_export_filename(old(self).filter_project, stamp))
                    && p.1@ == spec_export_text_upto(
                    old(self).filtered(),
                    old(self).filtered().len() as int,
                ),
                None => false,
            }),
            final(self).inv(),
    {
        match &self.filter_project {
            None => {
                let text = String::from_str("❌ No filter active. Use 'e' to export all logs.");
                self.set_export_result(text, now_ms);
                None
            },
            Some(_) => Some(self.prepare_export()),
        }
    }

    /// The notice shown after a successful export to a file.
    pub fn export_success_message(count: usize, filename: &str) -> (r: String)
        ensures
            r@ == "✅ Exported "@ + crate::text::spec_decimal(count as int) + " logs to "@
                + filename@,
    {
        let mut out = String::from_str("✅ Exported ");
        let dec = crate::text::u64_to_string(count as u64);
        out.append(dec.as_str());
        out.append(" logs to ");
        out.append(filename);
        proof {
            assert(out@ =~= "✅ Exported "@ + crate::text::spec_decimal(count as int)
                + " logs to "@ + filename@);
        }
        out
    }

    /// The notice shown after a successful copy to the clipboard.
    pub fn export_copied_message(count: usize) -> (r: String)
        ensures
            r@ == "✅ Copied "@ + crate::text::spec_decimal(count as int)
                + " logs to clipboard"@,
    {
        let mut out = String::from_str("✅ Copied ");
        let dec = crate::text::u64_to_string(count as u64);
        out.append(dec.as_str());
        out.append(" logs to clipboard");
        proof {
            assert(out@ =~= "✅ Copied "@ + crate::text::spec_decimal(count as int)
                + " logs to clipboard"@);
        }
        out
    }
}

} // verus!
