//! Launching a DepotDownloader download, and what follows from what it does.

use vstd::prelude::*;

use super::progress::optional_text;
use crate::decimal::{decimal, to_decimal};
use crate::text::views;

verus! {

/// How often speeds are measured again while DepotDownloader reports no new
/// counters, in milliseconds.
pub const SPEED_REFRESH_INTERVAL_MS: u64 = 100;

#[derive(Debug)]
pub enum LoginMethod {
    UsernamePassword { username: String, password: String },
    Qr,
    /// Reconnects with a login remembered by an earlier run: no password or QR
    /// scan needed, just the account name.
    RememberedUsername { username: String },
    /// No account at all.
    Anonymous,
}

/// A login method with its texts as sequences of characters.
pub enum LoginView {
    UsernamePassword { username: Seq<char>, password: Seq<char> },
    Qr,
    RememberedUsername { username: Seq<char> },
    Anonymous,
}

impl View for LoginMethod {
    type V = LoginView;

    open spec fn view(&self) -> LoginView {
        match *self {
            LoginMethod::UsernamePassword { username, password } => LoginView::UsernamePassword {
                username: username@,
                password: password@,
            },
            LoginMethod::Qr => LoginView::Qr,
            LoginMethod::RememberedUsername { username } => LoginView::RememberedUsername {
                username: username@,
            },
            LoginMethod::Anonymous => LoginView::Anonymous,
        }
    }
}

impl Clone for LoginMethod {
    fn clone(&self) -> (copy: LoginMethod)
        ensures
            copy@ == self@,
    {
        match self {
            LoginMethod::UsernamePassword { username, password } => LoginMethod::UsernamePassword {
                username: username.clone(),
                password: password.clone(),
            },
            LoginMethod::Qr => LoginMethod::Qr,
            LoginMethod::RememberedUsername { username } => LoginMethod::RememberedUsername {
                username: username.clone(),
            },
            LoginMethod::Anonymous => LoginMethod::Anonymous,
        }
    }
}

impl LoginMethod {
    /// Whether this login uses no account.
    pub fn is_anonymous(&self) -> (yes: bool)
        ensures
            yes == (self@ is Anonymous),
    {
        match self {
            LoginMethod::Anonymous => true,
            _ => false,
        }
    }
}

/// What to download, where to, and as whom.
#[derive(Debug)]
pub struct DownloadRequest {
    pub depot_downloader_binary: String,
    pub app_id: String,
    pub download_dir: Option<String>,
    pub max_downloads: Option<u32>,
    pub login: LoginMethod,
}

/// A request with its texts as sequences of characters.
#[verifier::ext_equal]
pub struct RequestView {
    pub depot_downloader_binary: Seq<char>,
    pub app_id: Seq<char>,
    pub download_dir: Option<Seq<char>>,
    pub max_downloads: Option<u32>,
    pub login: LoginView,
}

impl View for DownloadRequest {
    type V = RequestView;

    open spec fn view(&self) -> RequestView {
        RequestView {
            depot_downloader_binary: self.depot_downloader_binary@,
            app_id: self.app_id@,
            download_dir: optional_text(self.download_dir),
            max_downloads: self.max_downloads,
            login: self.login@,
        }
    }
}

/// The same optional text again.
pub fn copy_optional(text: &Option<String>) -> (copy: Option<String>)
    ensures
        optional_text(copy) == optional_text(*text),
        copy is Some == text is Some,
{
    match text {
        Some(text) => Some(text.clone()),
        None => None,
    }
}

impl Clone for DownloadRequest {
    fn clone(&self) -> (copy: DownloadRequest)
        ensures
            copy@ == self@,
    {
        DownloadRequest {
            depot_downloader_binary: self.depot_downloader_binary.clone(),
            app_id: self.app_id.clone(),
            download_dir: copy_optional(&self.download_dir),
            max_downloads: self.max_downloads,
            login: self.login.clone(),
        }
    }
}

/// The arguments that choose a login.
pub open spec fn login_args(login: LoginView) -> Seq<Seq<char>> {
    match login {
        LoginView::UsernamePassword { username, password } => seq![
            "-username"@,
            username,
            "-password"@,
            password,
        ],
        LoginView::Qr => seq!["-qr"@],
        LoginView::RememberedUsername { username } => seq!["-username"@, username],
        LoginView::Anonymous => Seq::empty(),
    }
}

/// The argument that makes DepotDownloader keep a login token after any
/// successful login, which is what a remembered login relies on later. It is
/// an error only where there is no account to remember.
pub open spec fn remember_args(login: LoginView) -> Seq<Seq<char>> {
    if login is Anonymous {
        Seq::empty()
    } else {
        seq!["-remember-password"@]
    }
}

/// The arguments that choose a directory.
pub open spec fn dir_args(dir: Option<Seq<char>>) -> Seq<Seq<char>> {
    match dir {
        Some(dir) => seq!["-dir"@, dir],
        None => Seq::empty(),
    }
}

/// The arguments that bound the number of concurrent downloads.
pub open spec fn max_downloads_args(max_downloads: Option<u32>) -> Seq<Seq<char>> {
    match max_downloads {
        Some(count) => seq!["-max-downloads"@, decimal(count as nat)],
        None => Seq::empty(),
    }
}

/// The arguments of a request.
pub open spec fn request_args(request: RequestView) -> Seq<Seq<char>> {
    seq!["-app"@, request.app_id, "-json"@] + remember_args(request.login) + dir_args(
        request.download_dir,
    ) + max_downloads_args(request.max_downloads) + login_args(request.login)
}

/// The arguments of a request as they are logged: with `***` for a password,
/// which stands last.
pub open spec fn logged_args(request: RequestView) -> Seq<Seq<char>> {
    if request.login is UsernamePassword {
        request_args(request).drop_last().push("***"@)
    } else {
        request_args(request)
    }
}

/// Appends the arguments that choose a login.
pub fn push_login_args(args: &mut Vec<String>, login: &LoginMethod)
    ensures
        views(final(args)@) == views(old(args)@) + login_args(login@),
{
    match login {
        LoginMethod::UsernamePassword { username, password } => {
            args.push("-username".to_owned());
            args.push(username.clone());
            args.push("-password".to_owned());
            args.push(password.clone());
        },
        LoginMethod::Qr => {
            args.push("-qr".to_owned());
        },
        LoginMethod::RememberedUsername { username } => {
            args.push("-username".to_owned());
            args.push(username.clone());
        },
        LoginMethod::Anonymous => {},
    }
    assert(views(args@) =~= views(old(args)@) + login_args(login@));
}

/// Appends the argument that makes DepotDownloader remember the login.
pub fn push_remember_args(args: &mut Vec<String>, login: &LoginMethod)
    ensures
        views(final(args)@) == views(old(args)@) + remember_args(login@),
{
    if !login.is_anonymous() {
        args.push("-remember-password".to_owned());
    }
    assert(views(args@) =~= views(old(args)@) + remember_args(login@));
}

impl DownloadRequest {
    /// The arguments DepotDownloader is launched with for this request.
    pub fn build_args(&self) -> (args: Vec<String>)
        ensures
            views(args@) == request_args(self@),
    {
        let mut args: Vec<String> = Vec::new();
        args.push("-app".to_owned());
        args.push(self.app_id.clone());
        args.push("-json".to_owned());
        assert(views(args@) =~= seq!["-app"@, self.app_id@, "-json"@]);
        push_remember_args(&mut args, &self.login);
        let ghost begun = views(args@);
        if let Some(dir) = &self.download_dir {
            args.push("-dir".to_owned());
            args.push(dir.clone());
        }
        assert(views(args@) =~= begun + dir_args(self@.download_dir));
        let ghost placed = views(args@);
        if let Some(max_downloads) = self.max_downloads {
            args.push("-max-downloads".to_owned());
            args.push(to_decimal(max_downloads as u64));
        }
        assert(views(args@) =~= placed + max_downloads_args(self@.max_downloads));
        push_login_args(&mut args, &self.login);
        args
    }

    /// The same arguments with the password blanked out, for logging the
    /// launch without leaking credentials to the console.
    pub fn build_args_for_logging(&self) -> (args: Vec<String>)
        ensures
            views(args@) == logged_args(self@),
    {
        let mut args = self.build_args();
        if let LoginMethod::UsernamePassword { .. } = &self.login {
            let ghost all = views(args@);
            args.pop();
            args.push("***".to_owned());
            assert(views(args@) =~= all.drop_last().push("***"@));
        }
        args
    }
}

/// With an account and a password, the logged arguments are those of the
/// launch but for the password, in whose place stands `***`.
pub proof fn logged_args_differ_in_the_password_alone(
    request: RequestView,
    username: Seq<char>,
    password: Seq<char>,
)
    requires
        request.login == (LoginView::UsernamePassword { username, password }),
    ensures
        request_args(request).last() == password,
        logged_args(request).len() == request_args(request).len(),
        logged_args(request).last() == "***"@,
        forall|i: int|
            0 <= i < logged_args(request).len() - 1 ==> #[trigger] logged_args(request)[i]
                == request_args(request)[i],
{
}

/// The logged arguments tell nothing of the password: whatever it is, they
/// are the same.
pub proof fn logged_args_tell_nothing_of_the_password(
    request: RequestView,
    username: Seq<char>,
    password: Seq<char>,
    other_password: Seq<char>,
)
    requires
        request.login == (LoginView::UsernamePassword { username, password }),
    ensures
        logged_args(request) == logged_args(
            RequestView {
                login: LoginView::UsernamePassword { username, password: other_password },
                ..request
            },
        ),
{
    let other = RequestView {
        login: LoginView::UsernamePassword { username, password: other_password },
        ..request
    };
    assert(request_args(request).drop_last() =~= request_args(other).drop_last());
}

/// The logged arguments of a login without a password are those of the
/// launch.
pub proof fn logged_args_without_password_are_the_launch(request: RequestView)
    requires
        !(request.login is UsernamePassword),
    ensures
        logged_args(request) == request_args(request),
{
}

/// How a DepotDownloader process ended.
#[derive(Debug)]
pub enum ExitOutcome {
    Success,
    /// It ended with the status told.
    Failure { status: String },
    /// It could not be waited on.
    Unknown { error: String },
}

/// What a running download reports.
pub enum ProcessEvent<S> {
    Stats(S),
    Exited(ExitOutcome),
    FailedToStart(String),
}

/// A text and another after it.
pub fn with_text(text: &str, rest: &str) -> (result: String)
    ensures
        result@ == text@ + rest@,
{
    let mut result = text.to_owned();
    result.append(rest);
    result
}

/// The message for a download directory that could not be created.
pub fn directory_failure(error: &str) -> (message: String)
    ensures
        message@ == "Could not create download directory: "@ + error@,
{
    with_text("Could not create download directory: ", error)
}

/// The message for a process that could not be started.
pub fn start_failure(error: &str) -> (message: String)
    ensures
        message@ == "Could not start DepotDownloader: "@ + error@,
{
    with_text("Could not start DepotDownloader: ", error)
}

/// What an exit that nobody asked for says.
pub open spec fn unexpected_exit_text(outcome: ExitOutcome) -> Seq<char> {
    match outcome {
        ExitOutcome::Success => "DepotDownloader exited before finishing the download."@,
        ExitOutcome::Failure { status } => "DepotDownloader exited with "@ + status@,
        ExitOutcome::Unknown { error } => "DepotDownloader could not be waited on: "@ + error@,
    }
}

/// Tells an exit that nobody asked for.
pub fn describe_unexpected_exit(outcome: &ExitOutcome) -> (message: String)
    ensures
        message@ == unexpected_exit_text(*outcome),
{
    match outcome {
        ExitOutcome::Success => {
            "DepotDownloader exited before finishing the download.".to_owned()
        },
        ExitOutcome::Failure { status } => with_text(
            "DepotDownloader exited with ",
            status.as_str(),
        ),
        ExitOutcome::Unknown { error } => with_text(
            "DepotDownloader could not be waited on: ",
            error.as_str(),
        ),
    }
}

/// What the wait for a running download ended with.
#[derive(Debug, Clone, Copy, PartialEq, Eq, Structural)]
pub enum Sample {
    /// A line came; `is_event` where it was an event, which the tracker took.
    Line { is_event: bool },
    /// Speeds were measured again; `changed` where that changed the stats.
    SpeedRefreshDue { changed: bool },
    LineChannelClosed,
    CancelRequested,
}

/// What to do after a sample: whether to send the stats on, whether to kill
/// the process, and whether to stop waiting for more.
#[derive(Debug, Clone, Copy, PartialEq, Eq, Structural)]
pub struct Step {
    pub send_stats: bool,
    pub kill: bool,
    pub stop: bool,
}

/// What follows once the stats were sent, where they were to be.
#[derive(Debug, Clone, Copy, PartialEq, Eq, Structural)]
pub enum Next {
    /// Nobody listens any more: leave at once.
    Leave,
    /// Wait for the process to end, and report how it did.
    AwaitExit { kill: bool },
    /// Wait for another sample.
    Continue,
}

/// What follows from a sample: a request to cancel kills the process, the end
/// of its output is waited out, and an expired login, which would only wait
/// for a password nobody can give, kills it too.
pub open spec fn step_after(sample: Sample, login_expired: bool) -> Step {
    match sample {
        Sample::CancelRequested => Step { send_stats: false, kill: true, stop: true },
        Sample::LineChannelClosed => Step { send_stats: false, kill: false, stop: true },
        Sample::Line { is_event } => Step {
            send_stats: is_event,
            kill: login_expired,
            stop: login_expired,
        },
        Sample::SpeedRefreshDue { changed } => Step {
            send_stats: changed,
            kill: login_expired,
            stop: login_expired,
        },
    }
}

/// What follows from a sample, with the login as the tracker knows it after
/// the sample.
pub fn after_sample(sample: Sample, login_expired: bool) -> (step: Step)
    ensures
        step == step_after(sample, login_expired),
{
    match sample {
        Sample::CancelRequested => Step { send_stats: false, kill: true, stop: true },
        Sample::LineChannelClosed => Step { send_stats: false, kill: false, stop: true },
        Sample::Line { is_event } => Step {
            send_stats: is_event,
            kill: login_expired,
            stop: login_expired,
        },
        Sample::SpeedRefreshDue { changed } => Step {
            send_stats: changed,
            kill: login_expired,
            stop: login_expired,
        },
    }
}

/// What follows from a step once its stats were sent, or could not be.
pub open spec fn next_of(step: Step, sent: bool) -> Next {
    if step.send_stats && !sent {
        Next::Leave
    } else if step.stop {
        Next::AwaitExit { kill: step.kill }
    } else {
        Next::Continue
    }
}

/// What follows from a step once its stats were sent, or could not be.
pub fn after_sending(step: Step, sent: bool) -> (next: Next)
    ensures
        next == next_of(step, sent),
{
    if step.send_stats && !sent {
        Next::Leave
    } else if step.stop {
        Next::AwaitExit { kill: step.kill }
    } else {
        Next::Continue
    }
}

/// A request to cancel always ends the process. An expired login ends it as
/// soon as it is known, where anybody still listens.
pub proof fn cancelling_and_expiry_end_the_run(sample: Sample, login_expired: bool, sent: bool)
    ensures
        next_of(step_after(Sample::CancelRequested, login_expired), sent) == (Next::AwaitExit {
            kill: true,
        }),
        login_expired && sent && !(sample is LineChannelClosed) ==> next_of(
            step_after(sample, login_expired),
            sent,
        ) == (Next::AwaitExit { kill: true }),
{
}

/// One turn of a running download: what its wait ended with, whether its login
/// is known to have expired by then, and whether its stats, where they are to
/// be, can be sent.
pub struct Turn {
    pub sample: Sample,
    pub login_expired: bool,
    pub sent: bool,
}

impl Turn {
    /// What to do in this turn.
    pub open spec fn step(self) -> Step {
        step_after(self.sample, self.login_expired)
    }

    /// What follows after this turn.
    pub open spec fn next(self) -> Next {
        next_of(self.step(), self.sent)
    }

    /// The turn reaches the listener with a snapshot.
    pub open spec fn tells(self) -> bool {
        self.step().send_stats && self.sent
    }
}

/// What a running download tells its listener.
pub enum RunReport {
    Snapshot,
    Exit,
}

/// What a download tells in all over its turns: a snapshot for each turn that
/// sends one, and its exit once it was waited for.
pub open spec fn run_reports(turns: Seq<Turn>) -> Seq<RunReport>
    decreases turns.len(),
{
    if turns.len() == 0 {
        Seq::empty()
    } else {
        let snapshot = if turns[0].tells() {
            seq![RunReport::Snapshot]
        } else {
            Seq::empty()
        };
        match turns[0].next() {
            Next::Leave => snapshot,
            Next::AwaitExit { .. } => snapshot.push(RunReport::Exit),
            Next::Continue => snapshot + run_reports(turns.drop_first()),
        }
    }
}

/// How many turns reach the listener with a snapshot.
pub open spec fn snapshots(turns: Seq<Turn>) -> nat
    decreases turns.len(),
{
    if turns.len() == 0 {
        0
    } else {
        snapshots(turns.drop_first()) + if turns[0].tells() {
            1nat
        } else {
            0
        }
    }
}

/// The first turn that is not followed by another.
pub open spec fn ends_first(turns: Seq<Turn>, at: int) -> bool {
    &&& 0 <= at < turns.len()
    &&& !(turns[at].next() is Continue)
    &&& forall|i: int| 0 <= i < at ==> (#[trigger] turns[i]).next() is Continue
}

/// A download tells snapshots alone, one for each turn that sends one, and
/// then its exit, once and last: exactly where the turn that ends it waits for
/// the exit. Where nobody listens any more, it leaves without.
pub proof fn snapshots_then_one_exit(turns: Seq<Turn>)
    ensures
        forall|i: int|
            0 <= i < run_reports(turns).len() - 1 ==> (#[trigger] run_reports(turns)[i]) is Snapshot,
        (forall|i: int| 0 <= i < turns.len() ==> (#[trigger] turns[i]).next() is Continue) ==> {
            &&& run_reports(turns).len() == snapshots(turns)
            &&& forall|i: int|
                0 <= i < run_reports(turns).len() ==> (#[trigger] run_reports(turns)[i]) is Snapshot
        },
        forall|at: int| #[trigger]
            ends_first(turns, at) ==> {
                let told = snapshots(turns.take(at + 1));
                if turns[at].next() is AwaitExit {
                    &&& run_reports(turns).len() == told + 1
                    &&& run_reports(turns).last() is Exit
                } else {
                    &&& run_reports(turns).len() == told
                    &&& told > 0 ==> run_reports(turns).last() is Snapshot
                }
            },
    decreases turns.len(),
{
    let reports = run_reports(turns);
    if turns.len() > 0 {
        let rest = turns.drop_first();
        let later = run_reports(rest);
        assert(forall|i: int| 0 <= i < rest.len() ==> rest[i] == turns[i + 1]);
        snapshots_then_one_exit(rest);
        let first = if turns[0].tells() {
            1int
        } else {
            0
        };
        if turns[0].next() is Continue {
            assert forall|i: int| 0 <= i < reports.len() - 1 implies (
            #[trigger] reports[i]) is Snapshot by {
                if i >= first {
                    assert(reports[i] == later[i - first]);
                }
            }
            if forall|i: int| 0 <= i < turns.len() ==> (#[trigger] turns[i]).next() is Continue {
                assert forall|i: int| 0 <= i < rest.len() implies (
                #[trigger] rest[i]).next() is Continue by {
                    assert(turns[i + 1].next() is Continue);
                }
                assert forall|i: int| 0 <= i < reports.len() implies (
                #[trigger] reports[i]) is Snapshot by {
                    if i >= first {
                        assert(reports[i] == later[i - first]);
                    }
                }
            }
            assert forall|at: int| #[trigger] ends_first(turns, at) implies {
                let told = snapshots(turns.take(at + 1));
                if turns[at].next() is AwaitExit {
                    &&& reports.len() == told + 1
                    &&& reports.last() is Exit
                } else {
                    &&& reports.len() == told
                    &&& told > 0 ==> reports.last() is Snapshot
                }
            } by {
                assert(ends_first(rest, at - 1)) by {
                    assert forall|i: int| 0 <= i < at - 1 implies (
                    #[trigger] rest[i]).next() is Continue by {
                        assert(turns[i + 1].next() is Continue);
                    }
                }
                assert(turns.take(at + 1).drop_first() =~= rest.take(at));
                assert(turns.take(at + 1)[0] == turns[0]);
                assert(later.len() > 0 ==> reports.last() == later.last());
            }
        } else {
            assert forall|at: int| #[trigger] ends_first(turns, at) implies at == 0 by {
                if at > 0 {
                    assert(turns[0].next() is Continue);
                }
            }
            assert(turns.take(1).drop_first() =~= Seq::empty());
            assert(snapshots(turns.take(1)) == first) by {
                reveal_with_fuel(snapshots, 2);
            }
        }
    }
}

} // verus!
