//! What the screens show of a record: the rules, not the drawing.
//!
//! A status that the client does not know is shown as unknown, never as an
//! error.

use vstd::prelude::*;
use vstd::string::{StrSliceExecFns, StringExecFns};
use crate::app::App;
use crate::models::{Deployment, Project};
use crate::text::same;

verus! {

/// The number of characters that a commit is shortened to.
pub const SHORT_COMMIT: usize = 7;

/// The number of characters that are shown of either end of an API key.
pub const KEY_END: usize = 4;

/// An API key with no more characters than this is not shown at all.
pub const KEY_HIDDEN_UPTO: usize = 10;

/// How the status of a deployment is shown.
#[derive(Debug, Clone, Copy, PartialEq, Eq, Structural)]
pub enum StatusKind {
    Live,
    Building,
    Failed,
    Unknown,
}

/// How the status of a database is shown.
#[derive(Debug, Clone, Copy, PartialEq, Eq, Structural)]
pub enum DatabaseStatusKind {
    Running,
    Stopped,
    Other,
}

/// What the log pane shows.
#[derive(Debug, Clone, Copy, PartialEq, Eq, Structural)]
pub enum LogPane {
    /// The text that the stream has delivered.
    Live,
    /// The log that is stored with the deployment at this position of the
    /// list it was found in.
    Stored(usize),
    /// A note that the stream is being connected.
    Connecting,
    /// A note that the log is being loaded.
    Loading,
}

/// How a status of a deployment is shown: `live`, `building` and `failed`
/// as themselves, every other status as unknown.
pub open spec fn kind_of(status: Seq<char>) -> StatusKind {
    if status == "live"@ {
        StatusKind::Live
    } else if status == "building"@ {
        StatusKind::Building
    } else if status == "failed"@ {
        StatusKind::Failed
    } else {
        StatusKind::Unknown
    }
}

/// How a status of a database is shown.
pub open spec fn database_kind_of(status: Seq<char>) -> DatabaseStatusKind {
    if status == "running"@ {
        DatabaseStatusKind::Running
    } else if status == "stopped"@ {
        DatabaseStatusKind::Stopped
    } else {
        DatabaseStatusKind::Other
    }
}

/// The status of the latest deployment of a project, or `unknown` where it
/// has none.
pub open spec fn latest_status_of(project: Project) -> Seq<char> {
    match project.deployments {
        Some(list) => if list@.len() > 0 {
            list@[0].status@
        } else {
            "unknown"@
        },
        None => "unknown"@,
    }
}

/// The first `SHORT_COMMIT` characters of a commit, or all of it where it
/// has no more.
pub open spec fn shortened(commit: Seq<char>) -> Seq<char> {
    if commit.len() > SHORT_COMMIT {
        commit.subrange(0, SHORT_COMMIT as int)
    } else {
        commit
    }
}

/// The two ends of an API key that may be shown: its first and its last
/// `KEY_END` characters, where it is longer than `KEY_HIDDEN_UPTO`; nothing
/// of a shorter key.
pub open spec fn key_ends(key: Seq<char>) -> Option<(Seq<char>, Seq<char>)> {
    if key.len() > KEY_HIDDEN_UPTO {
        Some((key.subrange(0, KEY_END as int), key.subrange(key.len() - KEY_END, key.len() as int)))
    } else {
        None
    }
}

/// What stands in `s` before the first `c`; all of `s` where it holds no
/// `c`.
pub open spec fn before_first(s: Seq<char>, c: char) -> Seq<char>
    decreases s.len(),
{
    if s.len() == 0 || s[0] == c {
        Seq::<char>::empty()
    } else {
        seq![s[0]] + before_first(s.drop_first(), c)
    }
}

/// The position of the first deployment with the identifier `id` in
/// `list`, where there is one.
pub open spec fn position_of(list: Seq<Deployment>, id: Seq<char>) -> Option<int> {
    if exists|i: int| 0 <= i < list.len() && (#[trigger] list[i]).id@ == id {
        Some(first_position(list, id, 0))
    } else {
        None
    }
}

/// The least position from `from` on at which `list` holds a deployment
/// with the identifier `id`; the length of the list where there is none.
pub open spec fn first_position(list: Seq<Deployment>, id: Seq<char>, from: int) -> int
    decreases list.len() - from,
{
    if from < 0 || from >= list.len() {
        list.len() as int
    } else if list[from].id@ == id {
        from
    } else {
        first_position(list, id, from + 1)
    }
}

/// How the status of a deployment is shown.
pub fn status_kind(status: &str) -> (kind: StatusKind)
    ensures
        kind == kind_of(status@),
{
    if same(status, "live") {
        StatusKind::Live
    } else if same(status, "building") {
        StatusKind::Building
    } else if same(status, "failed") {
        StatusKind::Failed
    } else {
        StatusKind::Unknown
    }
}

/// How the status of a database is shown.
pub fn database_status_kind(status: &str) -> (kind: DatabaseStatusKind)
    ensures
        kind == database_kind_of(status@),
{
    if same(status, "running") {
        DatabaseStatusKind::Running
    } else if same(status, "stopped") {
        DatabaseStatusKind::Stopped
    } else {
        DatabaseStatusKind::Other
    }
}

/// The status of the latest deployment of a project.
pub fn latest_status(project: &Project) -> (status: String)
    ensures
        status@ == latest_status_of(*project),
{
    match &project.deployments {
        Some(list) => if list.len() > 0 {
            list[0].status.clone()
        } else {
            "unknown".to_string()
        },
        None => "unknown".to_string(),
    }
}

/// A commit, shortened for a list.
pub fn short_commit(commit: &str) -> (short: String)
    ensures
        short@ == shortened(commit@),
{
    if commit.unicode_len() > SHORT_COMMIT {
        String::from_str(commit.substring_char(0, SHORT_COMMIT))
    } else {
        String::from_str(commit)
    }
}

/// The two ends of an API key that may be shown.
pub fn shown_key_ends(key: &str) -> (ends: Option<(String, String)>)
    ensures
        match ends {
            Some((head, tail)) => key_ends(key@) == Some((head@, tail@)),
            None => key_ends(key@) is None,
        },
{
    let n = key.unicode_len();
    if n > KEY_HIDDEN_UPTO {
        let head = String::from_str(key.substring_char(0, KEY_END));
        let tail = String::from_str(key.substring_char(n - KEY_END, n));
        Some((head, tail))
    } else {
        None
    }
}

/// The day of a timestamp: what stands before its `T`.
pub fn day_of(timestamp: &str) -> (day: String)
    ensures
        day@ == before_first(timestamp@, 'T'),
{
    let n = timestamp.unicode_len();
    let mut i: usize = 0;
    proof {
        assert(timestamp@.subrange(0, n as int) =~= timestamp@);
        assert(timestamp@.subrange(0, 0) + before_first(timestamp@, 'T') =~= before_first(
            timestamp@,
            'T',
        ));
    }
    while i < n && timestamp.get_char(i) != 'T'
        invariant
            i <= n,
            n == timestamp@.len(),
            before_first(timestamp@, 'T') == timestamp@.subrange(0, i as int) + before_first(
                timestamp@.subrange(i as int, n as int),
                'T',
            ),
        decreases n - i,
    {
        proof {
            let rest = timestamp@.subrange(i as int, n as int);
            assert(rest.drop_first() =~= timestamp@.subrange(i + 1, n as int));
            assert(timestamp@.subrange(0, i as int) + (seq![rest[0]] + before_first(
                rest.drop_first(),
                'T',
            )) =~= timestamp@.subrange(0, i + 1) + before_first(rest.drop_first(), 'T'));
        }
        i += 1;
    }
    proof {
        let rest = timestamp@.subrange(i as int, n as int);
        assert(before_first(rest, 'T') =~= Seq::<char>::empty());
        assert(timestamp@.subrange(0, i as int) + Seq::<char>::empty() =~= timestamp@.subrange(
            0,
            i as int,
        ));
    }
    String::from_str(timestamp.substring_char(0, i))
}

/// No deployment before `upto` has the identifier, so the first one with
/// it is the first from `upto` on.
proof fn lemma_first_position_skips(list: Seq<Deployment>, id: Seq<char>, upto: int)
    requires
        0 <= upto <= list.len(),
        forall|j: int| 0 <= j < upto ==> (#[trigger] list[j]).id@ != id,
    ensures
        first_position(list, id, 0) == first_position(list, id, upto),
    decreases upto,
{
    if upto > 0 {
        lemma_first_position_skips(list, id, upto - 1);
    }
}

/// The position of the first deployment with the identifier `id`.
pub fn find_deployment(list: &Vec<Deployment>, id: &str) -> (found: Option<usize>)
    ensures
        match found {
            Some(i) => position_of(list@, id@) == Some(i as int) && i < list@.len()
                && list@[i as int].id@ == id@,
            None => position_of(list@, id@) is None,
        },
{
    let mut i: usize = 0;
    while i < list.len()
        invariant
            i <= list.len(),
            forall|j: int| 0 <= j < i ==> (#[trigger] list@[j]).id@ != id@,
        decreases list.len() - i,
    {
        if same(list[i].id.as_str(), id) {
            proof {
                lemma_first_position_skips(list@, id@, i as int);
            }
            return Some(i);
        }
        i += 1;
    }
    None
}

impl App {
    /// The list in which the log screen looks for its deployment: the
    /// deployments of the selected project where one is selected, none
    /// where their list was not delivered, and the recent activity where no
    /// project is selected.
    pub open spec fn log_candidates(&self) -> Option<Seq<Deployment>> {
        match self.selected_project {
            Some(project) => match project.deployments {
                Some(list) => Some(list@),
                None => None,
            },
            None => Some(self.activity@),
        }
    }

    /// The position, in the list of candidates, of the deployment whose
    /// log is asked for.
    pub open spec fn shown_position(&self, id: Seq<char>) -> Option<int> {
        match self.log_candidates() {
            Some(list) => position_of(list, id),
            None => None,
        }
    }

    /// What the log pane shows for the deployment `id`: the live text once
    /// any has come; else the stored log of the deployment where it is known
    /// and has one, or a note that the stream is being connected where its
    /// stored log is empty; else a note that the log is being loaded.
    pub open spec fn pane_of(&self, id: Seq<char>) -> LogPane {
        if self.live_logs@.len() > 0 {
            LogPane::Live
        } else {
            match self.shown_position(id) {
                Some(i) => if self.log_candidates()->0[i].logs@.len() == 0 {
                    LogPane::Connecting
                } else {
                    LogPane::Stored(i as usize)
                },
                None => LogPane::Loading,
            }
        }
    }

    /// The position of the deployment `id` in the list that the log screen
    /// looks in, where it is found there.
    pub fn shown_deployment(&self, id: &str) -> (found: Option<usize>)
        ensures
            match found {
                Some(i) => self.shown_position(id@) == Some(i as int) && i
                    < self.log_candidates()->0.len(),
                None => self.shown_position(id@) is None,
            },
    {
        match &self.selected_project {
            Some(project) => match &project.deployments {
                Some(list) => find_deployment(list, id),
                None => None,
            },
            None => find_deployment(&self.activity, id),
        }
    }

    /// The deployments that the log screen looks in.
    pub fn log_list(&self) -> (list: Option<&Vec<Deployment>>)
        ensures
            match list {
                Some(l) => self.log_candidates() == Some(l@),
                None => self.log_candidates() is None,
            },
    {
        match &self.selected_project {
            Some(project) => match &project.deployments {
                Some(list) => Some(list),
                None => None,
            },
            None => Some(&self.activity),
        }
    }

    /// What the log pane shows for the deployment `id`.
    pub fn log_pane(&self, id: &str) -> (pane: LogPane)
        ensures
            pane == self.pane_of(id@),
    {
        if !self.live_logs.as_str().is_empty() {
            return LogPane::Live;
        }
        match self.log_list() {
            Some(list) => match find_deployment(list, id) {
                Some(i) => if list[i].logs.as_str().is_empty() {
                    LogPane::Connecting
                } else {
                    LogPane::Stored(i)
                },
                None => LogPane::Loading,
            },
            None => LogPane::Loading,
        }
    }
}

} // verus!
