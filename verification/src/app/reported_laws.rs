//! What a run's snapshot shows of the events it has told.

use vstd::prelude::*;

use super::reported::{reported_stats, with_report, with_reports, ReportedView};
use super::state::PromptView;
use crate::depot_downloader::event::{AuthPromptKind, EventView};

verus! {

/// The bytes fetched, written and found that an event tells of.
pub open spec fn counters_told(event: EventView) -> Option<(u64, u64, u64)> {
    match event {
        EventView::Progress { network_bytes, written_bytes, verified_bytes, .. } => Some(
            (network_bytes, written_bytes, verified_bytes),
        ),
        EventView::Done { network_bytes, written_bytes, verified_bytes } => Some(
            (network_bytes, written_bytes, verified_bytes),
        ),
        _ => None,
    }
}

/// What an event says is being done: a message, or the file at hand.
pub open spec fn status_told(event: EventView) -> Option<Seq<char>> {
    match event {
        EventView::Log { message, .. } => Some(message),
        EventView::Progress { current_file, .. } => current_file,
        _ => None,
    }
}

/// The counters are those of the last event that tells of any, progress or the
/// end: the bytes fetched are its bytes fetched, those in place are the ones it
/// says were written and found together, as far as they can be counted, and
/// the run is verifying where it has found some and fetched none.
pub proof fn last_counters_are_shown(events: Seq<EventView>, at: int)
    requires
        0 <= at < events.len(),
        counters_told(events[at]) is Some,
        forall|i: int| at < i < events.len() ==> counters_told(#[trigger] events[i]) is None,
    ensures
        with_reports(events).network_bytes == counters_told(events[at]).unwrap().0,
        with_reports(events).written_bytes == counters_told(events[at]).unwrap().1,
        with_reports(events).verified_bytes == counters_told(events[at]).unwrap().2,
        reported_stats(with_reports(events)).network_bytes == counters_told(events[at]).unwrap().0,
        counters_told(events[at]).unwrap().1 + counters_told(events[at]).unwrap().2 <= u64::MAX ==> reported_stats(with_reports(events)).completed_uncompressed_bytes == counters_told(events[at]).unwrap().1 + counters_told(events[at]).unwrap().2,
        counters_told(events[at]).unwrap().1 + counters_told(events[at]).unwrap().2 > u64::MAX ==> reported_stats(with_reports(events)).completed_uncompressed_bytes == u64::MAX,
        reported_stats(with_reports(events)).is_verifying == (counters_told(events[at]).unwrap().0 == 0 && counters_told(events[at]).unwrap().2 > 0),
    decreases events.len(),
{
    if at < events.len() - 1 {
        let earlier = events.drop_last();
        assert forall|i: int| at < i < earlier.len() implies counters_told(#[trigger] earlier[i]) is None by {
            assert(earlier[i] == events[i]);
        }
        assert(earlier[at] == events[at]);
        assert(counters_told(events[events.len() - 1]) is None);
        last_counters_are_shown(earlier, at);
    }
}

/// Where no event has told of any bytes, all counters are zero.
pub proof fn no_last_counters_are_shown(events: Seq<EventView>)
    requires
        forall|i: int| 0 <= i < events.len() ==> counters_told(#[trigger] events[i]) is None,
    ensures
        with_reports(events).network_bytes == 0,
        with_reports(events).written_bytes == 0,
        with_reports(events).verified_bytes == 0,
        reported_stats(with_reports(events)).network_bytes == 0,
        reported_stats(with_reports(events)).completed_uncompressed_bytes == 0,
        !reported_stats(with_reports(events)).is_verifying,
    decreases events.len(),
{
    if events.len() > 0 {
        let earlier = events.drop_last();
        assert forall|i: int| 0 <= i < earlier.len() implies counters_told(#[trigger] earlier[i]) is None by {
            assert(earlier[i] == events[i]);
        }
        assert(counters_told(events[events.len() - 1]) is None);
        no_last_counters_are_shown(earlier);
    }
}

/// The totals are those of the last plan.
pub proof fn last_plan_is_shown(events: Seq<EventView>, at: int)
    requires
        0 <= at < events.len(),
        (events[at]) is Plan,
        forall|i: int| at < i < events.len() ==> !((#[trigger] events[i]) is Plan),
    ensures
        reported_stats(with_reports(events)).network_total_bytes == events[at]->Plan_total_compressed_bytes,
        reported_stats(with_reports(events)).total_uncompressed_bytes == events[at]->Plan_total_uncompressed_bytes,
        reported_stats(with_reports(events)).total_files == events[at]->Plan_total_files,
    decreases events.len(),
{
    if at < events.len() - 1 {
        let earlier = events.drop_last();
        assert forall|i: int| at < i < earlier.len() implies !((#[trigger] earlier[i]) is Plan) by {
            assert(earlier[i] == events[i]);
        }
        assert(earlier[at] == events[at]);
        assert(!((events[events.len() - 1]) is Plan));
        last_plan_is_shown(earlier, at);
    }
}

/// Without a plan there are no totals.
pub proof fn no_last_plan_is_shown(events: Seq<EventView>)
    requires
        forall|i: int| 0 <= i < events.len() ==> !((#[trigger] events[i]) is Plan),
    ensures
        reported_stats(with_reports(events)).network_total_bytes == 0,
        reported_stats(with_reports(events)).total_uncompressed_bytes == 0,
        reported_stats(with_reports(events)).total_files == 0,
    decreases events.len(),
{
    if events.len() > 0 {
        let earlier = events.drop_last();
        assert forall|i: int| 0 <= i < earlier.len() implies !((#[trigger] earlier[i]) is Plan) by {
            assert(earlier[i] == events[i]);
        }
        assert(!((events[events.len() - 1]) is Plan));
        no_last_plan_is_shown(earlier);
    }
}

/// The files done are those that the last progress counts.
pub proof fn last_files_are_shown(events: Seq<EventView>, at: int)
    requires
        0 <= at < events.len(),
        (events[at]) is Progress,
        forall|i: int| at < i < events.len() ==> !((#[trigger] events[i]) is Progress),
    ensures
        reported_stats(with_reports(events)).files_done == events[at]->Progress_files_done,
    decreases events.len(),
{
    if at < events.len() - 1 {
        let earlier = events.drop_last();
        assert forall|i: int| at < i < earlier.len() implies !((#[trigger] earlier[i]) is Progress) by {
            assert(earlier[i] == events[i]);
        }
        assert(earlier[at] == events[at]);
        assert(!((events[events.len() - 1]) is Progress));
        last_files_are_shown(earlier, at);
    }
}

/// Without progress no files are done.
pub proof fn no_last_files_are_shown(events: Seq<EventView>)
    requires
        forall|i: int| 0 <= i < events.len() ==> !((#[trigger] events[i]) is Progress),
    ensures
        reported_stats(with_reports(events)).files_done == 0,
    decreases events.len(),
{
    if events.len() > 0 {
        let earlier = events.drop_last();
        assert forall|i: int| 0 <= i < earlier.len() implies !((#[trigger] earlier[i]) is Progress) by {
            assert(earlier[i] == events[i]);
        }
        assert(!((events[events.len() - 1]) is Progress));
        no_last_files_are_shown(earlier);
    }
}

/// The status is the last message or file that was told, and a progress that
/// names no file leaves it.
pub proof fn last_status_is_shown(events: Seq<EventView>, at: int)
    requires
        0 <= at < events.len(),
        status_told(events[at]) is Some,
        forall|i: int| at < i < events.len() ==> status_told(#[trigger] events[i]) is None,
    ensures
        Some(reported_stats(with_reports(events)).status_message) == status_told(events[at]),
    decreases events.len(),
{
    if at < events.len() - 1 {
        let earlier = events.drop_last();
        assert forall|i: int| at < i < earlier.len() implies status_told(#[trigger] earlier[i]) is None by {
            assert(earlier[i] == events[i]);
        }
        assert(earlier[at] == events[at]);
        assert(status_told(events[events.len() - 1]) is None);
        last_status_is_shown(earlier, at);
    }
}

/// The status is empty until something is told.
pub proof fn no_last_status_is_shown(events: Seq<EventView>)
    requires
        forall|i: int| 0 <= i < events.len() ==> status_told(#[trigger] events[i]) is None,
    ensures
        reported_stats(with_reports(events)).status_message == Seq::<char>::empty(),
    decreases events.len(),
{
    if events.len() > 0 {
        let earlier = events.drop_last();
        assert forall|i: int| 0 <= i < earlier.len() implies status_told(#[trigger] earlier[i]) is None by {
            assert(earlier[i] == events[i]);
        }
        assert(status_told(events[events.len() - 1]) is None);
        no_last_status_is_shown(earlier);
    }
}

/// The error is the last one told, whatever follows it.
pub proof fn last_error_is_shown(events: Seq<EventView>, at: int)
    requires
        0 <= at < events.len(),
        (events[at]) is Error,
        forall|i: int| at < i < events.len() ==> !((#[trigger] events[i]) is Error),
    ensures
        reported_stats(with_reports(events)).error_message == Some(events[at]->Error_message),
    decreases events.len(),
{
    if at < events.len() - 1 {
        let earlier = events.drop_last();
        assert forall|i: int| at < i < earlier.len() implies !((#[trigger] earlier[i]) is Error) by {
            assert(earlier[i] == events[i]);
        }
        assert(earlier[at] == events[at]);
        assert(!((events[events.len() - 1]) is Error));
        last_error_is_shown(earlier, at);
    }
}

/// A run that tells of no error has none.
pub proof fn no_last_error_is_shown(events: Seq<EventView>)
    requires
        forall|i: int| 0 <= i < events.len() ==> !((#[trigger] events[i]) is Error),
    ensures
        reported_stats(with_reports(events)).error_message is None,
    decreases events.len(),
{
    if events.len() > 0 {
        let earlier = events.drop_last();
        assert forall|i: int| 0 <= i < earlier.len() implies !((#[trigger] earlier[i]) is Error) by {
            assert(earlier[i] == events[i]);
        }
        assert(!((events[events.len() - 1]) is Error));
        no_last_error_is_shown(earlier);
    }
}

/// The account is that of the last login.
pub proof fn last_login_is_shown(events: Seq<EventView>, at: int)
    requires
        0 <= at < events.len(),
        (events[at]) is LoginSuccess,
        forall|i: int| at < i < events.len() ==> !((#[trigger] events[i]) is LoginSuccess),
    ensures
        reported_stats(with_reports(events)).logged_in_username == events[at]->LoginSuccess_username,
    decreases events.len(),
{
    if at < events.len() - 1 {
        let earlier = events.drop_last();
        assert forall|i: int| at < i < earlier.len() implies !((#[trigger] earlier[i]) is LoginSuccess) by {
            assert(earlier[i] == events[i]);
        }
        assert(earlier[at] == events[at]);
        assert(!((events[events.len() - 1]) is LoginSuccess));
        last_login_is_shown(earlier, at);
    }
}

/// Nobody is logged in before a login.
pub proof fn no_last_login_is_shown(events: Seq<EventView>)
    requires
        forall|i: int| 0 <= i < events.len() ==> !((#[trigger] events[i]) is LoginSuccess),
    ensures
        reported_stats(with_reports(events)).logged_in_username is None,
    decreases events.len(),
{
    if events.len() > 0 {
        let earlier = events.drop_last();
        assert forall|i: int| 0 <= i < earlier.len() implies !((#[trigger] earlier[i]) is LoginSuccess) by {
            assert(earlier[i] == events[i]);
        }
        assert(!((events[events.len() - 1]) is LoginSuccess));
        no_last_login_is_shown(earlier);
    }
}

/// A saved login has expired exactly where the last question asked is one for a
/// password.
pub proof fn only_a_password_means_expiry(events: Seq<EventView>, at: int)
    requires
        0 <= at < events.len(),
        (events[at]) is AuthPrompt,
        forall|i: int| at < i < events.len() ==> !((#[trigger] events[i]) is AuthPrompt),
    ensures
        reported_stats(with_reports(events)).login_expired == (events[at]->AuthPrompt_kind == AuthPromptKind::Password),
    decreases events.len(),
{
    if at < events.len() - 1 {
        let earlier = events.drop_last();
        assert forall|i: int| at < i < earlier.len() implies !((#[trigger] earlier[i]) is AuthPrompt) by {
            assert(earlier[i] == events[i]);
        }
        assert(earlier[at] == events[at]);
        assert(!((events[events.len() - 1]) is AuthPrompt));
        only_a_password_means_expiry(earlier, at);
    }
}

/// A run that asks nothing has no expired login.
pub proof fn no_only_a_password_means_expiry(events: Seq<EventView>)
    requires
        forall|i: int| 0 <= i < events.len() ==> !((#[trigger] events[i]) is AuthPrompt),
    ensures
        !reported_stats(with_reports(events)).login_expired,
    decreases events.len(),
{
    if events.len() > 0 {
        let earlier = events.drop_last();
        assert forall|i: int| 0 <= i < earlier.len() implies !((#[trigger] earlier[i]) is AuthPrompt) by {
            assert(earlier[i] == events[i]);
        }
        assert(!((events[events.len() - 1]) is AuthPrompt));
        no_only_a_password_means_expiry(earlier);
    }
}

/// A question stands, with its kind and its message, until another one is asked
/// or a login succeeds.
pub proof fn last_question_stands(events: Seq<EventView>, at: int)
    requires
        0 <= at < events.len(),
        (events[at]) is AuthPrompt,
        forall|i: int| at < i < events.len() ==> !((#[trigger] events[i]) is AuthPrompt) && !(events[i] is LoginSuccess),
    ensures
        reported_stats(with_reports(events)).auth_prompt == Some(PromptView { kind: events[at]->AuthPrompt_kind, message: events[at]->AuthPrompt_message }),
    decreases events.len(),
{
    if at < events.len() - 1 {
        let earlier = events.drop_last();
        assert forall|i: int| at < i < earlier.len() implies !((#[trigger] earlier[i]) is AuthPrompt) && !(earlier[i] is LoginSuccess) by {
            assert(earlier[i] == events[i]);
        }
        assert(earlier[at] == events[at]);
        assert(!((events[events.len() - 1]) is AuthPrompt) && !(events[events.len() - 1] is LoginSuccess));
        last_question_stands(earlier, at);
    }
}

/// A run that asks nothing shows no question.
pub proof fn no_last_question_stands(events: Seq<EventView>)
    requires
        forall|i: int| 0 <= i < events.len() ==> !((#[trigger] events[i]) is AuthPrompt),
    ensures
        reported_stats(with_reports(events)).auth_prompt is None,
    decreases events.len(),
{
    if events.len() > 0 {
        let earlier = events.drop_last();
        assert forall|i: int| 0 <= i < earlier.len() implies !((#[trigger] earlier[i]) is AuthPrompt) by {
            assert(earlier[i] == events[i]);
        }
        assert(!((events[events.len() - 1]) is AuthPrompt));
        no_last_question_stands(earlier);
    }
}

/// A QR code stands, with its address, until another one comes or a login
/// succeeds.
pub proof fn last_code_stands(events: Seq<EventView>, at: int)
    requires
        0 <= at < events.len(),
        (events[at]) is Qr,
        forall|i: int| at < i < events.len() ==> !((#[trigger] events[i]) is Qr) && !(events[i] is LoginSuccess),
    ensures
        reported_stats(with_reports(events)).qr_url == Some(events[at]->Qr_url),
    decreases events.len(),
{
    if at < events.len() - 1 {
        let earlier = events.drop_last();
        assert forall|i: int| at < i < earlier.len() implies !((#[trigger] earlier[i]) is Qr) && !(earlier[i] is LoginSuccess) by {
            assert(earlier[i] == events[i]);
        }
        assert(earlier[at] == events[at]);
        assert(!((events[events.len() - 1]) is Qr) && !(events[events.len() - 1] is LoginSuccess));
        last_code_stands(earlier, at);
    }
}

/// A run that shows no QR code has none.
pub proof fn no_last_code_stands(events: Seq<EventView>)
    requires
        forall|i: int| 0 <= i < events.len() ==> !((#[trigger] events[i]) is Qr),
    ensures
        reported_stats(with_reports(events)).qr_url is None,
    decreases events.len(),
{
    if events.len() > 0 {
        let earlier = events.drop_last();
        assert forall|i: int| 0 <= i < earlier.len() implies !((#[trigger] earlier[i]) is Qr) by {
            assert(earlier[i] == events[i]);
        }
        assert(!((events[events.len() - 1]) is Qr));
        no_last_code_stands(earlier);
    }
}

/// After a login nothing is asked until the next question.
pub proof fn nothing_is_asked_after_a_login(events: Seq<EventView>, at: int)
    requires
        0 <= at < events.len(),
        events[at] is LoginSuccess,
        forall|i: int|
            at < i < events.len() ==> !((#[trigger] events[i]) is AuthPrompt) && !(events[i] is Qr),
    ensures
        reported_stats(with_reports(events)).auth_prompt is None,
        reported_stats(with_reports(events)).qr_url is None,
    decreases events.len(),
{
    if at < events.len() - 1 {
        let earlier = events.drop_last();
        assert forall|i: int| at < i < earlier.len() implies !((
        #[trigger] earlier[i]) is AuthPrompt) && !(earlier[i] is Qr) by {
            assert(earlier[i] == events[i]);
        }
        assert(earlier[at] == events[at]);
        assert(!(events[events.len() - 1] is AuthPrompt));
        nothing_is_asked_after_a_login(earlier, at);
    }
}

/// The depots that a run has started, in order.
pub open spec fn depots_started(events: Seq<EventView>) -> Seq<u64>
    decreases events.len(),
{
    if events.len() == 0 {
        Seq::empty()
    } else {
        match events[0] {
            EventView::DepotStart { depot_id } => seq![depot_id] + depots_started(
                events.drop_first(),
            ),
            _ => depots_started(events.drop_first()),
        }
    }
}

/// One event more is one depot more, last, where it starts one.
proof fn one_depot_more(events: Seq<EventView>, event: EventView)
    ensures
        depots_started(events.push(event)) == match event {
            EventView::DepotStart { depot_id } => depots_started(events).push(depot_id),
            _ => depots_started(events),
        },
    decreases events.len(),
{
    let all = events.push(event);
    if events.len() == 0 {
        assert(all.drop_first() =~= events);
        assert(depots_started(all.drop_first()) =~= Seq::empty());
        assert(depots_started(all) =~= match event {
            EventView::DepotStart { depot_id } => depots_started(events).push(depot_id),
            _ => depots_started(events),
        });
    } else {
        assert(all.drop_first() =~= events.drop_first().push(event));
        one_depot_more(events.drop_first(), event);
        assert(depots_started(all) =~= match event {
            EventView::DepotStart { depot_id } => depots_started(events).push(depot_id),
            _ => depots_started(events),
        });
    }
}

/// The depots shown are those that were started, all of them and in order.
pub proof fn started_depots_are_shown(events: Seq<EventView>)
    ensures
        reported_stats(with_reports(events)).depot_ids == depots_started(events),
    decreases events.len(),
{
    if events.len() > 0 {
        let earlier = events.drop_last();
        started_depots_are_shown(earlier);
        assert(events =~= earlier.push(events.last()));
        one_depot_more(earlier, events.last());
    }
}

/// The snapshot shows what was reported: each value as it is, the bytes in
/// place as the sum of those written and those found, and that the run is
/// verifying where it has found some and fetched none.
pub proof fn snapshot_shows_what_was_reported(reported: ReportedView)
    ensures
        ({
            let stats = reported_stats(reported);
            &&& stats.status_message == reported.status_message
            &&& stats.logged_in_username == reported.logged_in_username
            &&& stats.login_expired == reported.login_expired
            &&& stats.qr_url == reported.qr_url
            &&& stats.auth_prompt == reported.auth_prompt
            &&& stats.error_message == reported.error_message
            &&& stats.is_finished == reported.is_finished
            &&& stats.is_verifying <==> reported.network_bytes == 0 && reported.verified_bytes != 0
            &&& stats.depot_ids == reported.depot_ids
            &&& stats.network_bytes == reported.network_bytes
            &&& stats.network_total_bytes == reported.network_total_bytes
            &&& stats.total_uncompressed_bytes == reported.total_uncompressed_bytes
            &&& stats.files_done == reported.files_done
            &&& stats.total_files == reported.total_files
            &&& stats.completed_uncompressed_bytes <= reported.written_bytes
                + reported.verified_bytes
            &&& stats.completed_uncompressed_bytes < u64::MAX
                ==> stats.completed_uncompressed_bytes == reported.written_bytes
                + reported.verified_bytes
        }),
{
}

/// What a run has not told of yet is still what it was: an event changes
/// nothing but the values it tells.
pub proof fn events_change_only_what_they_tell(reported: ReportedView, event: EventView)
    ensures
        ({
            let after = with_report(reported, event);
            &&& counters_told(event) is None ==> {
                &&& after.network_bytes == reported.network_bytes
                &&& after.written_bytes == reported.written_bytes
                &&& after.verified_bytes == reported.verified_bytes
            }
            &&& !(event is Plan) ==> {
                &&& after.network_total_bytes == reported.network_total_bytes
                &&& after.total_uncompressed_bytes == reported.total_uncompressed_bytes
                &&& after.total_files == reported.total_files
            }
            &&& !(event is Progress) ==> after.files_done == reported.files_done
            &&& !(event is DepotStart) ==> after.depot_ids == reported.depot_ids
            &&& status_told(event) is None ==> after.status_message == reported.status_message
            &&& !(event is Error) ==> after.error_message == reported.error_message
            &&& !(event is Done) ==> after.is_finished == reported.is_finished
            &&& !(event is LoginSuccess) ==> {
                &&& after.logged_in_username == reported.logged_in_username
                &&& !(event is Qr) ==> after.qr_url == reported.qr_url
                &&& !(event is AuthPrompt) ==> after.auth_prompt == reported.auth_prompt
            }
            &&& !(event is AuthPrompt) ==> after.login_expired == reported.login_expired
        }),
{
}

} // verus!
