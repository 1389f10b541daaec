//! What holds of the library as a whole, proved from the contracts of its
//! operations.

use vstd::prelude::*;
use crate::actions::Action;
use crate::app::{log_subject, App};
use crate::command::CommandView;
use crate::forms::opt_text;
use crate::logs::{accepted_text, LogChunk, LogSupervisor, StreamActionView};
use crate::models::Project;
use crate::navigate::Intent;
use crate::screen::ScreenView;
use crate::selection::{wrap_forward, wrap_next, wrap_prev};

verus! {

/// Going back follows the table of the screens.
///
/// From the detail or the settings of a project, the activity, the
/// settings, either form, the deployments, the network, the storage and the
/// help, back leads to the list of projects, with the selection at 0 and
/// message and error cleared. From the live log it leads to the detail of the
/// selected project, or to the list of projects where none is selected, with
/// the log buffer emptied and the scroll offset at 0. Set-up and the list of
/// projects stay as they are. Nothing is asked of the foreground loop.
pub proof fn law_back_follows_the_table(before: App, after: App, command: CommandView)
    requires
        before.navigate_step(Intent::Back, &after, command),
    ensures
        command == CommandView::Nothing,
        match before.screen@ {
            ScreenView::Setup | ScreenView::Projects => after == before,
            ScreenView::DeploymentLogs(_) => {
                &&& after.screen@ == match before.selected_project {
                    Some(project) => ScreenView::ProjectDetail(project.id@),
                    None => ScreenView::Projects,
                }
                &&& after.live_logs@.len() == 0
                &&& after.log_scroll == 0
                &&& after.message@.len() == 0
                &&& after.error is None
            },
            _ => {
                &&& after.screen@ == ScreenView::Projects
                &&& after.selected_index == 0
                &&& after.message@.len() == 0
                &&& after.error is None
                &&& !after.show_db_credentials
                &&& after.db_credentials is None
            },
        },
{
}

/// In a list of `n` items, one step forward and one step back undo each
/// other, whichever comes first.
pub proof fn law_next_and_previous_are_inverse(i: nat, n: nat)
    requires
        i < n,
    ensures
        wrap_prev(wrap_next(i, n), n) == i,
        wrap_next(wrap_prev(i, n), n) == i,
        wrap_next(i, n) < n,
        wrap_prev(i, n) < n,
{
    if i + 1 < n {
        assert((i + 1) % n == i + 1) by (nonlinear_arith)
            requires
                i + 1 < n,
        ;
    } else {
        assert((i + 1) % n == 0) by (nonlinear_arith)
            requires
                i + 1 == n,
                n > 0,
        ;
    }
    if i == 0 {
        assert(((n - 1) + 1) % (n as int) == 0) by (nonlinear_arith)
            requires
                n > 0,
        ;
    } else {
        assert(((i - 1) + 1) % (n as int) == i) by (nonlinear_arith)
            requires
                0 < i < n,
        ;
    }
}

/// `k` steps forward from a valid position `i` end at `(i + k) % n`.
proof fn lemma_forward_adds(i: nat, n: nat, k: nat)
    requires
        i < n,
    ensures
        wrap_forward(i, n, k) == (i + k) % n,
    decreases k,
{
    if k == 0 {
        vstd::arithmetic::div_mod::lemma_small_mod(i, n);
    } else {
        lemma_forward_adds(i, n, (k - 1) as nat);
        vstd::arithmetic::div_mod::lemma_add_mod_noop((i + k - 1) as int, 1, n as int);
        if n == 1 {
            assert((((i + k - 1) as nat) % n + 1) % n == 0);
            assert((i + k) % n == 0);
        } else {
            vstd::arithmetic::div_mod::lemma_small_mod(1, n);
        }
    }
}

/// In a list of `n` items, `n` steps forward from an item lead back to it.
pub proof fn law_next_comes_round(i: nat, n: nat)
    requires
        i < n,
    ensures
        wrap_forward(i, n, n) == i,
{
    lemma_forward_adds(i, n, n);
    vstd::arithmetic::div_mod::lemma_mod_add_multiples_vanish(i as int, n as int);
    vstd::arithmetic::div_mod::lemma_small_mod(i, n);
}

/// After `k` steps down the list the state differs from the first only in
/// the selection, which has moved `k` positions forward.
proof fn lemma_steps_move_the_selection(states: Seq<App>, k: int)
    requires
        0 <= k < states.len(),
        forall|j: int|
            0 <= j < states.len() - 1 ==> (#[trigger] states[j]).next_step(&states[j + 1]),
        states[0].active_len() > 0,
    ensures
        states[k] == (App { selected_index: states[k].selected_index, ..states[0] }),
        states[k].selected_index == wrap_forward(
            states[0].selected_index as nat,
            states[0].active_len(),
            k as nat,
        ),
    decreases k,
{
    if k > 0 {
        lemma_steps_move_the_selection(states, k - 1);
        assert(states[k - 1].next_step(&states[k - 1 + 1]));
        assert(states[k - 1].active_len() == states[0].active_len());
    }
}

/// On a screen with a list of `n` items and a valid selection, moving to
/// the next item `n` times in a row gives back the state that the moves
/// began with.
pub proof fn law_select_next_comes_round(states: Seq<App>)
    requires
        states.len() == states[0].active_len() + 1,
        states[0].selection_valid(),
        forall|j: int|
            0 <= j < states.len() - 1 ==> (#[trigger] states[j]).next_step(&states[j + 1]),
    ensures
        states.last() == states[0],
{
    let n = states[0].active_len();
    if n > 0 {
        lemma_steps_move_the_selection(states, n as int);
        law_next_comes_round(states[0].selected_index as nat, n);
    }
}

/// With a valid selection, moving to the previous item undoes moving to the
/// next one.
pub proof fn law_select_previous_undoes_next(first: App, second: App, third: App)
    requires
        first.selection_valid(),
        first.next_step(&second),
        second.previous_step(&third),
    ensures
        third == first,
{
    if first.active_len() > 0 {
        law_next_and_previous_are_inverse(first.selected_index as nat, first.active_len());
        assert(second.active_len() == first.active_len());
    }
}

/// With a valid selection, moving to the next item undoes moving to the
/// previous one.
pub proof fn law_select_next_undoes_previous(first: App, second: App, third: App)
    requires
        first.selection_valid(),
        first.previous_step(&second),
        second.next_step(&third),
    ensures
        third == first,
{
    if first.active_len() > 0 {
        law_next_and_previous_are_inverse(first.selected_index as nat, first.active_len());
        assert(second.active_len() == first.active_len());
    }
}

/// Whatever action takes the client away from the live log of a deployment
/// to a screen that is no live log, the log buffer is empty and the scroll
/// offset is 0 afterwards.
pub proof fn law_leaving_the_log_clears_it(
    before: App,
    action: Action,
    after: App,
    command: CommandView,
)
    requires
        before.perform_step(action, &after, command),
        before.screen is DeploymentLogs,
        !(after.screen is DeploymentLogs),
    ensures
        after.live_logs@.len() == 0,
        after.log_scroll == 0,
{
}

/// Whatever action changes which live log is shown, from one deployment to
/// another, from none to one or from one to none, the log buffer is empty
/// right after it.
pub proof fn law_another_log_starts_empty(
    before: App,
    action: Action,
    after: App,
    command: CommandView,
)
    requires
        before.perform_step(action, &after, command),
        log_subject(before.screen@) != log_subject(after.screen@),
    ensures
        after.live_logs@.len() == 0,
{
}

/// Whatever action changes the screen, an error that was shown is gone
/// afterwards.
pub proof fn law_a_change_of_screen_clears_the_error(
    before: App,
    action: Action,
    after: App,
    command: CommandView,
)
    requires
        before.perform_step(action, &after, command),
        before.screen@ != after.screen@,
    ensures
        after.error is None,
{
}

/// Whatever action takes the client away from the storage screen, the
/// credentials are dropped and no longer shown afterwards.
pub proof fn law_leaving_storage_drops_the_credentials(
    before: App,
    action: Action,
    after: App,
    command: CommandView,
)
    requires
        before.perform_step(action, &after, command),
        before.screen is Storage,
        !(after.screen is Storage),
    ensures
        after.db_credentials is None,
        !after.show_db_credentials,
{
}

/// Every action keeps the state well formed: the selection stays valid,
/// credentials stay guarded, the log buffer stays owned and the focus of each
/// form stays on one of its fields.
pub proof fn law_actions_keep_the_state_well_formed(
    before: App,
    action: Action,
    after: App,
    command: CommandView,
)
    requires
        before.wf(),
        before.perform_step(action, &after, command),
    ensures
        after.wf(),
{
    crate::selection::lemma_steps_stay_inside(
        before.selected_index as nat,
        before.active_len(),
    );
    crate::selection::lemma_steps_stay_inside(
        before.create_project_state.focused_field as nat,
        crate::forms::PROJECT_FIELDS as nat,
    );
    crate::selection::lemma_steps_stay_inside(
        before.create_database_state.focused_field as nat,
        crate::forms::DATABASE_FIELDS as nat,
    );
}

/// A chunk from a deployment other than the one on the screen changes
/// nothing, whatever the supervisor is subscribed to.
pub proof fn law_stale_chunk_is_dropped(
    supervisor: LogSupervisor,
    app: App,
    chunk: LogChunk,
    after: App,
)
    requires
        supervisor.deliver_step(&app, chunk, &after),
        log_subject(app.screen@) != Some(chunk.deployment_id@),
    ensures
        after == app,
{
}

/// Chunks of which none came from the deployment `id` add nothing to its
/// log.
proof fn lemma_nothing_accepted(chunks: Seq<LogChunk>, id: Seq<char>)
    requires
        forall|i: int| 0 <= i < chunks.len() ==> (#[trigger] chunks[i]).deployment_id@ != id,
    ensures
        accepted_text(chunks, id).len() == 0,
    decreases chunks.len(),
{
    if chunks.len() > 0 {
        let front = chunks.drop_last();
        assert forall|i: int| 0 <= i < front.len() implies (#[trigger] front[i]).deployment_id@
            != id by {
            assert(front[i] == chunks[i]);
        }
        lemma_nothing_accepted(front, id);
    }
}

/// Of the chunks that are handed in together, those from deployments other
/// than the one on the screen leave no trace: if none came from the
/// deployment on the screen, the buffer holds what it held, and the scroll
/// offset stays.
pub proof fn law_drain_takes_only_the_shown_log(
    supervisor: LogSupervisor,
    app: App,
    chunks: Seq<LogChunk>,
    after: App,
)
    requires
        supervisor.drain_step(&app, chunks, &after),
        forall|i: int|
            0 <= i < chunks.len() ==> log_subject(app.screen@) != Some(
                (#[trigger] chunks[i]).deployment_id@,
            ),
    ensures
        after.live_logs@ == app.live_logs@,
        after.log_scroll == app.log_scroll,
{
    match log_subject(app.screen@) {
        Some(id) => {
            lemma_nothing_accepted(chunks, id);
            assert(app.live_logs@ + accepted_text(chunks, id) =~= app.live_logs@);
        },
        None => {},
    }
}

/// After a tick the subscription is in step with the screen: it is live
/// exactly while the log of a deployment is shown, and it belongs to that
/// deployment. Where the tick found it out of step, the log buffer is
/// empty. Where it found the log of another deployment on the screen than
/// the one subscribed to, the old subscription is to be cancelled before the
/// new one is opened.
pub proof fn law_tick_brings_into_step(
    supervisor: LogSupervisor,
    app: App,
    after: LogSupervisor,
    app_after: App,
    action: StreamActionView,
)
    requires
        supervisor.tick_step(&app, &after, &app_after, action),
    ensures
        after.in_step(&app_after),
        opt_text(after.subscribed) is Some <==> app_after.screen is DeploymentLogs,
        !supervisor.in_step(&app) ==> app_after.live_logs@.len() == 0,
        supervisor.in_step(&app) <==> action is Keep,
        (supervisor.subscribed is Some && app.screen is DeploymentLogs && !supervisor.in_step(
            &app,
        )) ==> action == StreamActionView::Restart(log_subject(app.screen@)->0),
        (supervisor.subscribed is Some && !(app.screen is DeploymentLogs)) ==> action
            is Stop,
{
}

/// A failed attempt to create a project leaves the projects that are held
/// untouched and shows an error that is not empty. A successful attempt
/// after it drops that error, and once the list that the success asks for
/// has come, the client holds that list and shows no error.
pub proof fn law_create_project_fails_then_succeeds(
    first: App,
    reason: String,
    second: App,
    refused: CommandView,
    created: Project,
    third: App,
    accepted: CommandView,
    list: Vec<Project>,
    fourth: App,
)
    requires
        first.project_created_step(Err(reason), &second, refused),
        second.project_created_step(Ok(created), &third, accepted),
        third.projects_step(Ok(list), &fourth),
    ensures
        second.projects == first.projects,
        second.create_project_state.error is Some,
        second.create_project_state.error->0@.len() > 0,
        refused == CommandView::Nothing,
        third.projects == first.projects,
        third.create_project_state.error is None,
        accepted == CommandView::ListProjects,
        fourth.projects == list,
        fourth.error is None,
        fourth.create_project_state.error is None,
{
    reveal_strlit("Failed to create project: ");
}

} // verus!
