//! The supervisor of the live log stream.
//!
//! At most one subscription to the log feed is live at a time, and it is live
//! exactly while the active screen shows the log of a deployment. The
//! supervisor decides, once per tick, what has to happen to the
//! subscription; the caller cancels and opens the streams and hands in the
//! chunks that arrived, each tagged with the deployment it came from.

use vstd::prelude::*;
use vstd::string::StringExecFns;
use crate::app::{log_subject, App};
use crate::forms::opt_text;
use crate::screen::Screen;
use crate::text::{replace_all, replaced, same};

verus! {

/// The scroll offset that means "follow the newest line".
pub const FOLLOW_TAIL: u16 = 65535;

/// An offset this close to `FOLLOW_TAIL` counts as following.
pub const FOLLOW_MARGIN: u16 = 10;

/// A piece of log text, with the deployment whose stream delivered it.
#[derive(Debug, Clone)]
pub struct LogChunk {
    pub deployment_id: String,
    pub text: String,
}

/// What the caller has to do to the subscription after a tick.
#[derive(Debug)]
pub enum StreamAction {
    /// Nothing: the subscription, or its absence, is as it should be.
    Keep,
    /// Cancel the running subscription.
    Stop,
    /// Open a subscription to the log of this deployment.
    Start(String),
    /// Cancel the running subscription, then open one to the log of this
    /// deployment.
    Restart(String),
}

/// A stream action with its identifier read as a sequence of characters.
pub enum StreamActionView {
    Keep,
    Stop,
    Start(Seq<char>),
    Restart(Seq<char>),
}

impl View for StreamAction {
    type V = StreamActionView;

    open spec fn view(&self) -> StreamActionView {
        match *self {
            StreamAction::Keep => StreamActionView::Keep,
            StreamAction::Stop => StreamActionView::Stop,
            StreamAction::Start(id) => StreamActionView::Start(id@),
            StreamAction::Restart(id) => StreamActionView::Restart(id@),
        }
    }
}

/// The action that takes a subscription from `have` to `want`.
pub open spec fn stream_action(have: Option<Seq<char>>, want: Option<Seq<char>>) -> StreamActionView {
    if have == want {
        StreamActionView::Keep
    } else {
        match (have, want) {
            (_, None) => StreamActionView::Stop,
            (None, Some(id)) => StreamActionView::Start(id),
            (Some(_), Some(id)) => StreamActionView::Restart(id),
        }
    }
}

/// The scroll offset after new text has arrived: an offset that follows the
/// tail is pinned to it, any other stays.
pub open spec fn pinned(scroll: u16) -> u16 {
    if scroll >= FOLLOW_TAIL - FOLLOW_MARGIN {
        FOLLOW_TAIL
    } else {
        scroll
    }
}

/// The texts of those chunks that came from the deployment `id`, in the
/// order of arrival, as one text.
pub open spec fn accepted_text(chunks: Seq<LogChunk>, id: Seq<char>) -> Seq<char>
    decreases chunks.len(),
{
    if chunks.len() == 0 {
        Seq::<char>::empty()
    } else if chunks.last().deployment_id@ == id {
        accepted_text(chunks.drop_last(), id) + chunks.last().text@
    } else {
        accepted_text(chunks.drop_last(), id)
    }
}

/// Whether one of the chunks came from the deployment `id`.
pub open spec fn any_accepted(chunks: Seq<LogChunk>, id: Seq<char>) -> bool {
    exists|i: int| 0 <= i < chunks.len() && (#[trigger] chunks[i]).deployment_id@ == id
}

/// One more chunk is accepted from exactly where an earlier one was, or it
/// is itself.
proof fn lemma_any_accepted_grows(chunks: Seq<LogChunk>, id: Seq<char>)
    requires
        chunks.len() > 0,
    ensures
        any_accepted(chunks, id) == (any_accepted(chunks.drop_last(), id)
            || chunks.last().deployment_id@ == id),
{
    let front = chunks.drop_last();
    if any_accepted(front, id) {
        let i = choose|i: int| 0 <= i < front.len() && (#[trigger] front[i]).deployment_id@ == id;
        assert(chunks[i].deployment_id@ == id);
    }
    if chunks.last().deployment_id@ == id {
        assert(chunks[chunks.len() - 1].deployment_id@ == id);
    }
    if any_accepted(chunks, id) {
        let i = choose|i: int| 0 <= i < chunks.len() && (#[trigger] chunks[i]).deployment_id@ == id;
        if i < front.len() {
            assert(front[i].deployment_id@ == id);
        }
    }
}

/// The address of the log stream of a deployment: that of the server with
/// the scheme of the web socket in place of that of HTTP, and the path of the
/// stream behind it.
pub open spec fn stream_url(server_url: Seq<char>, deployment_id: Seq<char>) -> Seq<char> {
    replaced(replaced(server_url, "http://"@, "ws://"@), "https://"@, "wss://"@)
        + "/api/deployments/"@ + deployment_id + "/logs/stream"@
}

/// The address of the log stream of a deployment.
pub fn log_stream_url(server_url: &str, deployment_id: &str) -> (url: String)
    ensures
        url@ == stream_url(server_url@, deployment_id@),
{
    proof {
        reveal_strlit("http://");
        reveal_strlit("https://");
    }
    let plain = replace_all(server_url, "http://", "ws://");
    let mut url = replace_all(plain.as_str(), "https://", "wss://");
    url.append("/api/deployments/");
    url.append(deployment_id);
    url.append("/logs/stream");
    url
}

/// What a log stream handed over.
#[derive(Debug)]
pub enum StreamItem {
    /// A message that reads as text.
    Text(String),
    /// A message that does not read as text.
    Other,
    /// The stream failed or was closed.
    Closed,
}

/// What the reader of a log stream does with an item.
#[derive(Debug)]
pub enum StreamStep {
    /// Hand this text on, then read on.
    Forward(String),
    /// Read on.
    Skip,
    /// End the subscription, without a word to anyone.
    End,
}

/// Decides what the reader of a log stream does with `item`, given whether
/// the receiving side is still `open`: text is handed on while there is a
/// receiver, other messages are skipped, and a failed stream or a receiver
/// that is gone ends the subscription.
pub fn stream_step(item: StreamItem, open: bool) -> (step: StreamStep)
    ensures
        match item {
            StreamItem::Text(text) => if open {
                step == StreamStep::Forward(text)
            } else {
                step is End
            },
            StreamItem::Other => step is Skip,
            StreamItem::Closed => step is End,
        },
{
    match item {
        StreamItem::Text(text) => {
            if open {
                StreamStep::Forward(text)
            } else {
                StreamStep::End
            }
        },
        StreamItem::Other => StreamStep::Skip,
        StreamItem::Closed => StreamStep::End,
    }
}

/// The supervisor: it remembers which deployment the live subscription
/// belongs to, if there is one.
#[derive(Debug)]
pub struct LogSupervisor {
    pub subscribed: Option<String>,
}

impl LogSupervisor {
    /// The subscription is live exactly while `app` shows a log, and it
    /// belongs to the deployment whose log is shown.
    pub open spec fn in_step(&self, app: &App) -> bool {
        opt_text(self.subscribed) == log_subject(app.screen@)
    }

    /// Whether a chunk from the deployment `id` is taken in: the
    /// subscription belongs to that deployment, and so does the log on the
    /// screen.
    pub open spec fn listens_to(&self, app: &App, id: Seq<char>) -> bool {
        opt_text(self.subscribed) == Some(id) && log_subject(app.screen@) == Some(id)
    }

    /// Whether `(after, app_after)` with `action` is the outcome of a tick
    /// on `(self, app)`.
    ///
    /// The subscription comes into step with the screen. Where it was in
    /// step nothing changes and nothing is to be done. Where it was not, the
    /// log buffer is emptied and the action takes the subscription from what
    /// it was to what the screen asks for.
    pub open spec fn tick_step(
        &self,
        app: &App,
        after: &LogSupervisor,
        app_after: &App,
        action: StreamActionView,
    ) -> bool {
        &&& after.in_step(app)
        &&& action == stream_action(opt_text(self.subscribed), log_subject(app.screen@))
        &&& if self.in_step(app) {
            *app_after == *app
        } else {
            &&& *app_after == (App { live_logs: app_after.live_logs, ..*app })
            &&& app_after.live_logs@ == Seq::<char>::empty()
        }
    }

    /// Whether `app_after` is `app` once `chunk` has been handed in: a chunk
    /// that is listened to is added at the end of the buffer and pins a
    /// following scroll offset; any other chunk is dropped.
    pub open spec fn deliver_step(&self, app: &App, chunk: LogChunk, app_after: &App) -> bool {
        if self.listens_to(app, chunk.deployment_id@) {
            &&& *app_after == (App {
                live_logs: app_after.live_logs,
                log_scroll: pinned(app.log_scroll),
                ..*app
            })
            &&& app_after.live_logs@ == app.live_logs@ + chunk.text@
        } else {
            *app_after == *app
        }
    }

    /// Whether `app_after` is `app` once `chunks` have been handed in, in
    /// this order: the buffer has grown by the chunks of the deployment on
    /// the screen, and the scroll offset is pinned if there was one.
    pub open spec fn drain_step(&self, app: &App, chunks: Seq<LogChunk>, app_after: &App) -> bool {
        match log_subject(app.screen@) {
            Some(id) => if opt_text(self.subscribed) == Some(id) {
                &&& *app_after == (App {
                    live_logs: app_after.live_logs,
                    log_scroll: app_after.log_scroll,
                    ..*app
                })
                &&& app_after.live_logs@ == app.live_logs@ + accepted_text(chunks, id)
                &&& app_after.log_scroll == if any_accepted(chunks, id) {
                    pinned(app.log_scroll)
                } else {
                    app.log_scroll
                }
            } else {
                *app_after == *app
            },
            None => *app_after == *app,
        }
    }

    /// A supervisor without a subscription.
    pub fn new() -> (supervisor: Self)
        ensures
            supervisor.subscribed is None,
    {
        LogSupervisor { subscribed: None }
    }

    /// Brings the subscription into step with the active screen and says
    /// what the caller has to do to the streams.
    pub fn tick(&mut self, app: &mut App) -> (action: StreamAction)
        ensures
            old(self).tick_step(old(app), final(self), final(app), action@),
            old(app).wf() ==> final(app).wf(),
    {
        match &app.screen {
            Screen::DeploymentLogs(id) => {
                let running = match &self.subscribed {
                    Some(current) => Some(*current == *id),
                    None => None,
                };
                match running {
                    Some(true) => StreamAction::Keep,
                    Some(false) => {
                        self.subscribed = Some(id.clone());
                        let action = StreamAction::Restart(id.clone());
                        app.live_logs = String::new();
                        action
                    },
                    None => {
                        self.subscribed = Some(id.clone());
                        let action = StreamAction::Start(id.clone());
                        app.live_logs = String::new();
                        action
                    },
                }
            },
            _ => {
                if self.subscribed.is_some() {
                    self.subscribed = None;
                    app.live_logs = String::new();
                    StreamAction::Stop
                } else {
                    StreamAction::Keep
                }
            },
        }
    }

    fn listening(&self, app: &App, id: &str) -> (yes: bool)
        ensures
            yes == self.listens_to(app, id@),
    {
        let subscribed = match &self.subscribed {
            Some(current) => same(current.as_str(), id),
            None => false,
        };
        let shown = match &app.screen {
            Screen::DeploymentLogs(current) => same(current.as_str(), id),
            _ => false,
        };
        subscribed && shown
    }

    /// Hands in one chunk.
    pub fn deliver(&self, app: &mut App, chunk: &LogChunk)
        ensures
            self.deliver_step(old(app), *chunk, final(app)),
            old(app).wf() ==> final(app).wf(),
    {
        if self.listening(app, chunk.deployment_id.as_str()) {
            app.live_logs.append(chunk.text.as_str());
            if app.log_scroll >= FOLLOW_TAIL - FOLLOW_MARGIN {
                app.log_scroll = FOLLOW_TAIL;
            }
        }
    }

    /// Hands in the chunks that arrived since the last tick, in the order of
    /// their arrival.
    pub fn drain(&self, app: &mut App, chunks: Vec<LogChunk>)
        ensures
            self.drain_step(old(app), chunks@, final(app)),
            old(app).wf() ==> final(app).wf(),
    {
        let ghost start = *app;
        let mut i: usize = 0;
        while i < chunks.len()
            invariant
                i <= chunks.len(),
                self.drain_step(&start, chunks@.take(i as int), app),
                start.wf() ==> app.wf(),
            decreases chunks.len() - i,
        {
            self.deliver(app, &chunks[i]);
            proof {
                let upto = chunks@.take(i as int);
                let next = chunks@.take(i + 1);
                assert(next.drop_last() =~= upto);
                assert(next.last() == chunks@[i as int]);
                match log_subject(start.screen@) {
                    Some(id) => {
                        lemma_any_accepted_grows(next, id);
                        assert((start.live_logs@ + accepted_text(upto, id)) + next.last().text@
                            =~= start.live_logs@ + (accepted_text(upto, id) + next.last().text@));
                    },
                    None => {},
                }
            }
            i += 1;
        }
        assert(chunks@.take(chunks.len() as int) =~= chunks@);
    }
}

} // verus!
