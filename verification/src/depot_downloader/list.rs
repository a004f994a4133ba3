//! Listing the apps of an account and the branches of an app.

use vstd::prelude::*;

use super::event::{
    app_views, branch_views, AuthPromptKind, BranchInfo, BranchView, Event, SteamApp, SteamAppView,
};
use super::process::{
    login_args, push_login_args, push_remember_args, remember_args, LoginMethod, LoginView,
};
use super::progress::optional_text;
use crate::decimal::{decimal, to_decimal};
use crate::text::views;

verus! {

/// A login prompt that comes up while apps are listed, in the shapes that a
/// download shows too.
#[derive(Debug)]
pub enum ListPrompt {
    Qr { url: String },
    AuthPrompt { kind: AuthPromptKind, message: String },
}

/// A login prompt with its text as a sequence of characters.
pub enum ListPromptView {
    Qr { url: Seq<char> },
    AuthPrompt { kind: AuthPromptKind, message: Seq<char> },
}

impl View for ListPrompt {
    type V = ListPromptView;

    open spec fn view(&self) -> ListPromptView {
        match *self {
            ListPrompt::Qr { url } => ListPromptView::Qr { url: url@ },
            ListPrompt::AuthPrompt { kind, message } => ListPromptView::AuthPrompt {
                kind,
                message: message@,
            },
        }
    }
}

pub enum UserAppsEvent {
    Prompt(ListPrompt),
    LoginSuccess { username: Option<String> },
    /// Steam asked for a password although a saved login was used.
    LoginExpired,
    Apps(Vec<SteamApp>),
    Error(String),
    Exited,
    FailedToStart(String),
}

/// An event with its texts as sequences of characters.
pub enum UserAppsEventView {
    Prompt(ListPromptView),
    LoginSuccess { username: Option<Seq<char>> },
    LoginExpired,
    Apps(Seq<SteamAppView>),
    Error(Seq<char>),
    Exited,
    FailedToStart(Seq<char>),
}

impl View for UserAppsEvent {
    type V = UserAppsEventView;

    open spec fn view(&self) -> UserAppsEventView {
        match *self {
            UserAppsEvent::Prompt(prompt) => UserAppsEventView::Prompt(prompt@),
            UserAppsEvent::LoginSuccess { username } => UserAppsEventView::LoginSuccess {
                username: optional_text(username),
            },
            UserAppsEvent::LoginExpired => UserAppsEventView::LoginExpired,
            UserAppsEvent::Apps(apps) => UserAppsEventView::Apps(app_views(apps@)),
            UserAppsEvent::Error(message) => UserAppsEventView::Error(message@),
            UserAppsEvent::Exited => UserAppsEventView::Exited,
            UserAppsEvent::FailedToStart(message) => UserAppsEventView::FailedToStart(message@),
        }
    }
}

/// The arguments that list the apps of an account.
pub open spec fn user_apps_args(login: LoginView) -> Seq<Seq<char>> {
    seq!["-list-user-apps"@, "-json"@] + remember_args(login) + login_args(login)
}

/// The arguments that list the branches of an app.
pub open spec fn branches_args(app_id: u64, login: LoginView) -> Seq<Seq<char>> {
    seq!["-app"@, decimal(app_id as nat), "-list-branches"@, "-json"@] + remember_args(login)
        + login_args(login)
}

/// The arguments DepotDownloader is launched with to list the apps of an
/// account.
pub fn list_user_apps_args(login: &LoginMethod) -> (args: Vec<String>)
    ensures
        views(args@) == user_apps_args(login@),
{
    let mut args: Vec<String> = Vec::new();
    args.push("-list-user-apps".to_owned());
    args.push("-json".to_owned());
    assert(views(args@) =~= seq!["-list-user-apps"@, "-json"@]);
    push_remember_args(&mut args, login);
    push_login_args(&mut args, login);
    args
}

/// The arguments DepotDownloader is launched with to list the branches of an
/// app. A remembered login only reconnects silently where DepotDownloader is
/// told again to remember it; without that it would ask for a password.
pub fn list_branches_args(app_id: u64, login: &LoginMethod) -> (args: Vec<String>)
    ensures
        views(args@) == branches_args(app_id, login@),
{
    let mut args: Vec<String> = Vec::new();
    args.push("-app".to_owned());
    args.push(to_decimal(app_id));
    args.push("-list-branches".to_owned());
    args.push("-json".to_owned());
    assert(views(args@) =~= seq![
        "-app"@,
        decimal(app_id as nat),
        "-list-branches"@,
        "-json"@,
    ]);
    push_remember_args(&mut args, login);
    push_login_args(&mut args, login);
    args
}

/// What an event of a `-list-user-apps` run tells, if anything.
pub open spec fn user_apps_report(event: Event) -> Option<UserAppsEventView> {
    match event {
        Event::Qr { url } => Some(UserAppsEventView::Prompt(ListPromptView::Qr { url: url@ })),
        Event::AuthPrompt { kind, message } => if kind == AuthPromptKind::Password {
            Some(UserAppsEventView::LoginExpired)
        } else {
            Some(
                UserAppsEventView::Prompt(ListPromptView::AuthPrompt { kind, message: message@ }),
            )
        },
        Event::LoginSuccess { username } => Some(
            UserAppsEventView::LoginSuccess { username: optional_text(username) },
        ),
        Event::UserApps { apps, count } => Some(UserAppsEventView::Apps(app_views(apps@))),
        Event::Error { message } => Some(UserAppsEventView::Error(message@)),
        _ => None,
    }
}

/// What an event of a `-list-user-apps` run tells, if anything.
pub fn user_apps_event(event: Event) -> (report: Option<UserAppsEvent>)
    ensures
        report is Some == user_apps_report(event) is Some,
        report is Some ==> report.unwrap()@ == user_apps_report(event).unwrap(),
{
    match event {
        Event::Qr { url } => Some(UserAppsEvent::Prompt(ListPrompt::Qr { url })),
        Event::AuthPrompt { kind, message } => {
            if kind == AuthPromptKind::Password {
                Some(UserAppsEvent::LoginExpired)
            } else {
                Some(UserAppsEvent::Prompt(ListPrompt::AuthPrompt { kind, message }))
            }
        },
        Event::LoginSuccess { username } => Some(UserAppsEvent::LoginSuccess { username }),
        Event::UserApps { apps, count: _ } => Some(UserAppsEvent::Apps(apps)),
        Event::Error { message } => Some(UserAppsEvent::Error(message)),
        _ => None,
    }
}

/// After this report the run is over: DepotDownloader is killed.
pub open spec fn is_answer(report: UserAppsEventView) -> bool {
    report is Apps || report is Error || report is LoginExpired
}

/// What to do about a report that was, or could not be, sent on.
#[derive(Debug, Clone, Copy, PartialEq, Eq, Structural)]
pub enum ListNext {
    /// Kill the process and wait until it is really gone, since it may hold
    /// the account's Steam session until then.
    KillAndAwaitExit,
    /// Wait for another line.
    Continue,
}

impl UserAppsEvent {
    /// Whether the run is over after this report.
    pub fn is_answer(&self) -> (yes: bool)
        ensures
            yes == is_answer(self@),
    {
        match self {
            UserAppsEvent::Apps(_) | UserAppsEvent::Error(_) | UserAppsEvent::LoginExpired => true,
            _ => false,
        }
    }

    /// Whether nothing follows after this event.
    pub fn is_last(&self) -> (yes: bool)
        ensures
            yes == (is_answer(self@) || self@ is Exited || self@ is FailedToStart),
    {
        match self {
            UserAppsEvent::Apps(_)
            | UserAppsEvent::Error(_)
            | UserAppsEvent::LoginExpired
            | UserAppsEvent::Exited
            | UserAppsEvent::FailedToStart(_) => true,
            _ => false,
        }
    }
}

/// What follows once a report was sent on, or could not be.
pub open spec fn list_next(report_is_answer: bool, sent: bool) -> ListNext {
    if !sent || report_is_answer {
        ListNext::KillAndAwaitExit
    } else {
        ListNext::Continue
    }
}

/// What follows once a report was sent on, or could not be.
pub fn after_report(report_is_answer: bool, sent: bool) -> (next: ListNext)
    ensures
        next == list_next(report_is_answer, sent),
{
    if !sent || report_is_answer {
        ListNext::KillAndAwaitExit
    } else {
        ListNext::Continue
    }
}

/// What a `-list-user-apps` run tells in all, for the events it prints before
/// it exits, while somebody listens: each report as it comes, until one is
/// followed by the end; and the exit where none is.
pub open spec fn user_apps_run(events: Seq<Event>) -> Seq<UserAppsEventView>
    decreases events.len(),
{
    if events.len() == 0 {
        seq![UserAppsEventView::Exited]
    } else {
        match user_apps_report(events[0]) {
            None => user_apps_run(events.drop_first()),
            Some(report) => match list_next(is_answer(report), true) {
                ListNext::KillAndAwaitExit => seq![report],
                ListNext::Continue => seq![report] + user_apps_run(events.drop_first()),
            },
        }
    }
}

/// What events report, in order, leaving out those that report nothing.
pub open spec fn user_apps_reports(events: Seq<Event>) -> Seq<UserAppsEventView>
    decreases events.len(),
{
    if events.len() == 0 {
        Seq::empty()
    } else {
        let later = user_apps_reports(events.drop_first());
        match user_apps_report(events[0]) {
            Some(report) => seq![report] + later,
            None => later,
        }
    }
}

/// The event reports an answer.
pub open spec fn answers(event: Event) -> bool {
    user_apps_report(event) matches Some(report) && is_answer(report)
}

/// A run tells the reports of its events in order, up to the first answer and
/// nothing after it. It tells its exit exactly where no answer came.
pub proof fn listing_ends_in_the_first_answer(events: Seq<Event>)
    ensures
        (exists|i: int| 0 <= i < events.len() && answers(#[trigger] events[i])) <==> !(
        user_apps_run(events).last() is Exited),
        (forall|i: int| 0 <= i < events.len() ==> !answers(#[trigger] events[i]))
            ==> user_apps_run(events) == user_apps_reports(events).push(UserAppsEventView::Exited),
        forall|at: int|
            0 <= at < events.len() && answers(#[trigger] events[at]) && (forall|i: int|
                0 <= i < at ==> !answers(#[trigger] events[i])) ==> user_apps_run(events)
                == user_apps_reports(events.take(at + 1)),
        user_apps_run(events).len() > 0,
        is_answer(user_apps_run(events).last()) || user_apps_run(events).last() is Exited,
        forall|i: int|
            0 <= i < user_apps_run(events).len() - 1 ==> {
                let report = #[trigger] user_apps_run(events)[i];
                !is_answer(report) && !(report is Exited)
            },
    decreases events.len(),
{
    let run = user_apps_run(events);
    if events.len() == 0 {
        assert(run =~= user_apps_reports(events).push(UserAppsEventView::Exited));
    } else {
        let rest = events.drop_first();
        let later = user_apps_run(rest);
        assert(forall|i: int| 0 <= i < rest.len() ==> rest[i] == events[i + 1]);
        listing_ends_in_the_first_answer(rest);
        if answers(events[0]) {
            assert(events.take(1).drop_first() =~= Seq::empty());
            assert(user_apps_reports(events.take(1)) =~= run) by {
                reveal_with_fuel(user_apps_reports, 2);
            }
        } else {
            assert(run.last() == later.last());
            assert forall|i: int| 0 <= i < run.len() - 1 implies {
                let report = #[trigger] run[i];
                !is_answer(report) && !(report is Exited)
            } by {
                if user_apps_report(events[0]) is None {
                    assert(run[i] == later[i]);
                } else if i > 0 {
                    assert(run[i] == later[i - 1]);
                }
            }
            if exists|i: int| 0 <= i < events.len() && answers(#[trigger] events[i]) {
                let i = choose|i: int| 0 <= i < events.len() && answers(#[trigger] events[i]);
                assert(answers(rest[i - 1]));
            }
            if exists|i: int| 0 <= i < rest.len() && answers(#[trigger] rest[i]) {
                let i = choose|i: int| 0 <= i < rest.len() && answers(#[trigger] rest[i]);
                assert(answers(events[i + 1]));
            }
            assert forall|at: int|
                0 <= at < events.len() && answers(#[trigger] events[at]) && (forall|i: int|
                    0 <= i < at ==> !answers(#[trigger] events[i])) implies run
                == user_apps_reports(events.take(at + 1)) by {
                assert(answers(rest[at - 1]));
                assert forall|i: int| 0 <= i < at - 1 implies !answers(#[trigger] rest[i]) by {
                    assert(!answers(events[i + 1]));
                }
                assert(later == user_apps_reports(rest.take(at)));
                assert(events.take(at + 1).drop_first() =~= rest.take(at));
                assert(events.take(at + 1)[0] == events[0]);
            }
            if forall|i: int| 0 <= i < events.len() ==> !answers(#[trigger] events[i]) {
                assert forall|i: int| 0 <= i < rest.len() implies !answers(#[trigger] rest[i]) by {
                    assert(!answers(events[i + 1]));
                }
                assert(run =~= user_apps_reports(events).push(UserAppsEventView::Exited));
            }
        }
    }
}

/// What an event of a `-list-branches` run means for it.
pub enum BranchesStep {
    /// The branches are here.
    Found(Vec<BranchInfo>),
    /// Nothing is decided yet.
    Continue,
    /// This login cannot list branches unattended.
    GiveUp,
}

/// What an event of a `-list-branches` run means for it, with texts as
/// sequences of characters.
pub enum BranchesStepView {
    Found(Seq<BranchView>),
    Continue,
    GiveUp,
}

impl View for BranchesStep {
    type V = BranchesStepView;

    open spec fn view(&self) -> BranchesStepView {
        match *self {
            BranchesStep::Found(branches) => BranchesStepView::Found(branch_views(branches@)),
            BranchesStep::Continue => BranchesStepView::Continue,
            BranchesStep::GiveUp => BranchesStepView::GiveUp,
        }
    }
}

/// Branches end the search; what any healthy login prints before them does
/// not; anything else (a prompt, an error) means that it would wait for input
/// nobody will provide.
pub open spec fn branches_step_of(event: Event) -> BranchesStepView {
    match event {
        Event::Branches { app_id, branches } => BranchesStepView::Found(branch_views(branches@)),
        Event::Log { .. } => BranchesStepView::Continue,
        Event::Ignored => BranchesStepView::Continue,
        Event::LoginSuccess { .. } => BranchesStepView::Continue,
        _ => BranchesStepView::GiveUp,
    }
}

/// What an event of a `-list-branches` run means for it.
pub fn branches_step(event: Event) -> (step: BranchesStep)
    ensures
        step@ == branches_step_of(event),
{
    match event {
        Event::Branches { app_id: _, branches } => BranchesStep::Found(branches),
        Event::Log { .. } | Event::Ignored | Event::LoginSuccess { .. } => BranchesStep::Continue,
        _ => BranchesStep::GiveUp,
    }
}

/// The branches that a `-list-branches` run ends with, for the events it
/// prints before it exits: those of the first event that decides, if it
/// decides for any.
pub open spec fn listed_branches(events: Seq<Event>) -> Option<Seq<BranchView>>
    decreases events.len(),
{
    if events.len() == 0 {
        None
    } else {
        match branches_step_of(events[0]) {
            BranchesStepView::Found(branches) => Some(branches),
            BranchesStepView::GiveUp => None,
            BranchesStepView::Continue => listed_branches(events.drop_first()),
        }
    }
}

/// A healthy run lists its branches: what it prints before them, where that
/// is logs, unknown events and the login's success alone, stands in no way.
pub proof fn healthy_run_lists_its_branches(
    before: Seq<Event>,
    app_id: u64,
    branches: Vec<BranchInfo>,
    after: Seq<Event>,
)
    requires
        forall|i: int|
            0 <= i < before.len() ==> {
                let event = #[trigger] before[i];
                event is Log || event is Ignored || event is LoginSuccess
            },
    ensures
        listed_branches(before.push(Event::Branches { app_id, branches }) + after) == Some(
            branch_views(branches@),
        ),
    decreases before.len(),
{
    let events = before.push(Event::Branches { app_id, branches }) + after;
    if before.len() > 0 {
        let rest = before.drop_first();
        assert(forall|i: int| 0 <= i < rest.len() ==> rest[i] == before[i + 1]);
        healthy_run_lists_its_branches(rest, app_id, branches, after);
        assert(events.drop_first() =~= rest.push(Event::Branches { app_id, branches }) + after);
        assert(events[0] == before[0]);
    }
}

} // verus!
