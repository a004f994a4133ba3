//! What DepotDownloader finds on the command lines it is launched with, and how
//! its runs go.

use vstd::prelude::*;

use super::event::{AuthPromptKind, Event};
use super::list::{
    branches_args, branches_step_of, is_answer, list_next, user_apps_args, user_apps_report,
    ListNext, ListPromptView, UserAppsEventView,
};
use super::process::{
    dir_args, login_args, max_downloads_args, next_of, remember_args, request_args, step_after,
    unexpected_exit_text, ExitOutcome, LoginView, Next, RequestView, Sample, Step,
};
use super::progress::optional_text;
use crate::app::state::branch_args;
use crate::decimal::decimal;

verus! {

/// The options of DepotDownloader that take the argument behind them.
pub open spec fn takes_value(name: Seq<char>) -> bool {
    ||| name == "-app"@
    ||| name == "-dir"@
    ||| name == "-max-downloads"@
    ||| name == "-username"@
    ||| name == "-password"@
    ||| name == "-branch"@
}

/// What a reader of a command line finds for an option: nothing where it is not
/// given, and where it is, the argument behind it if it takes one. An argument
/// that belongs to an option is never taken for another option.
pub open spec fn given(args: Seq<Seq<char>>, name: Seq<char>) -> Option<Option<Seq<char>>>
    decreases args.len(),
{
    if args.len() == 0 {
        None
    } else if takes_value(args[0]) && args.len() > 1 {
        if args[0] == name {
            Some(Some(args[1]))
        } else {
            given(args.skip(2), name)
        }
    } else if args[0] == name {
        Some(None)
    } else {
        given(args.skip(1), name)
    }
}

/// The names of the options are all different.
proof fn names_differ()
    ensures
        "-json"@ != "-remember-password"@,
        "-json"@ != "-qr"@,
        "-json"@ != "-list-user-apps"@,
        "-json"@ != "-list-branches"@,
        "-json"@ != "-app"@,
        "-json"@ != "-dir"@,
        "-json"@ != "-max-downloads"@,
        "-json"@ != "-username"@,
        "-json"@ != "-password"@,
        "-json"@ != "-branch"@,
        "-remember-password"@ != "-qr"@,
        "-remember-password"@ != "-list-user-apps"@,
        "-remember-password"@ != "-list-branches"@,
        "-remember-password"@ != "-app"@,
        "-remember-password"@ != "-dir"@,
        "-remember-password"@ != "-max-downloads"@,
        "-remember-password"@ != "-username"@,
        "-remember-password"@ != "-password"@,
        "-remember-password"@ != "-branch"@,
        "-qr"@ != "-list-user-apps"@,
        "-qr"@ != "-list-branches"@,
        "-qr"@ != "-app"@,
        "-qr"@ != "-dir"@,
        "-qr"@ != "-max-downloads"@,
        "-qr"@ != "-username"@,
        "-qr"@ != "-password"@,
        "-qr"@ != "-branch"@,
        "-list-user-apps"@ != "-list-branches"@,
        "-list-user-apps"@ != "-app"@,
        "-list-user-apps"@ != "-dir"@,
        "-list-user-apps"@ != "-max-downloads"@,
        "-list-user-apps"@ != "-username"@,
        "-list-user-apps"@ != "-password"@,
        "-list-user-apps"@ != "-branch"@,
        "-list-branches"@ != "-app"@,
        "-list-branches"@ != "-dir"@,
        "-list-branches"@ != "-max-downloads"@,
        "-list-branches"@ != "-username"@,
        "-list-branches"@ != "-password"@,
        "-list-branches"@ != "-branch"@,
        "-app"@ != "-dir"@,
        "-app"@ != "-max-downloads"@,
        "-app"@ != "-username"@,
        "-app"@ != "-password"@,
        "-app"@ != "-branch"@,
        "-dir"@ != "-max-downloads"@,
        "-dir"@ != "-username"@,
        "-dir"@ != "-password"@,
        "-dir"@ != "-branch"@,
        "-max-downloads"@ != "-username"@,
        "-max-downloads"@ != "-password"@,
        "-max-downloads"@ != "-branch"@,
        "-username"@ != "-password"@,
        "-username"@ != "-branch"@,
        "-password"@ != "-branch"@,
{
    reveal_strlit("-json");
    reveal_strlit("-remember-password");
    reveal_strlit("-qr");
    reveal_strlit("-list-user-apps");
    reveal_strlit("-list-branches");
    reveal_strlit("-app");
    reveal_strlit("-dir");
    reveal_strlit("-max-downloads");
    reveal_strlit("-username");
    reveal_strlit("-password");
    reveal_strlit("-branch");
    assert("-json"@.len() != "-remember-password"@.len());
    assert("-json"@.len() != "-qr"@.len());
    assert("-json"@.len() != "-list-user-apps"@.len());
    assert("-json"@.len() != "-list-branches"@.len());
    assert("-json"@.len() != "-app"@.len());
    assert("-json"@.len() != "-dir"@.len());
    assert("-json"@.len() != "-max-downloads"@.len());
    assert("-json"@.len() != "-username"@.len());
    assert("-json"@.len() != "-password"@.len());
    assert("-json"@.len() != "-branch"@.len());
    assert("-remember-password"@.len() != "-qr"@.len());
    assert("-remember-password"@.len() != "-list-user-apps"@.len());
    assert("-remember-password"@.len() != "-list-branches"@.len());
    assert("-remember-password"@.len() != "-app"@.len());
    assert("-remember-password"@.len() != "-dir"@.len());
    assert("-remember-password"@.len() != "-max-downloads"@.len());
    assert("-remember-password"@.len() != "-username"@.len());
    assert("-remember-password"@.len() != "-password"@.len());
    assert("-remember-password"@.len() != "-branch"@.len());
    assert("-qr"@.len() != "-list-user-apps"@.len());
    assert("-qr"@.len() != "-list-branches"@.len());
    assert("-qr"@.len() != "-app"@.len());
    assert("-qr"@.len() != "-dir"@.len());
    assert("-qr"@.len() != "-max-downloads"@.len());
    assert("-qr"@.len() != "-username"@.len());
    assert("-qr"@.len() != "-password"@.len());
    assert("-qr"@.len() != "-branch"@.len());
    assert("-list-user-apps"@.len() != "-list-branches"@.len());
    assert("-list-user-apps"@.len() != "-app"@.len());
    assert("-list-user-apps"@.len() != "-dir"@.len());
    assert("-list-user-apps"@.len() != "-max-downloads"@.len());
    assert("-list-user-apps"@.len() != "-username"@.len());
    assert("-list-user-apps"@.len() != "-password"@.len());
    assert("-list-user-apps"@.len() != "-branch"@.len());
    assert("-list-branches"@.len() != "-app"@.len());
    assert("-list-branches"@.len() != "-dir"@.len());
    assert("-list-branches"@[1] != "-max-downloads"@[1]);
    assert("-list-branches"@.len() != "-username"@.len());
    assert("-list-branches"@.len() != "-password"@.len());
    assert("-list-branches"@.len() != "-branch"@.len());
    assert("-app"@[1] != "-dir"@[1]);
    assert("-app"@.len() != "-max-downloads"@.len());
    assert("-app"@.len() != "-username"@.len());
    assert("-app"@.len() != "-password"@.len());
    assert("-app"@.len() != "-branch"@.len());
    assert("-dir"@.len() != "-max-downloads"@.len());
    assert("-dir"@.len() != "-username"@.len());
    assert("-dir"@.len() != "-password"@.len());
    assert("-dir"@.len() != "-branch"@.len());
    assert("-max-downloads"@.len() != "-username"@.len());
    assert("-max-downloads"@.len() != "-password"@.len());
    assert("-max-downloads"@.len() != "-branch"@.len());
    assert("-username"@[1] != "-password"@[1]);
    assert("-username"@.len() != "-branch"@.len());
    assert("-password"@.len() != "-branch"@.len());
}

/// A switch in front is passed over but for its own name.
proof fn switch_is_read(switch: Seq<char>, rest: Seq<Seq<char>>, name: Seq<char>)
    requires
        !takes_value(switch),
    ensures
        given(seq![switch] + rest, name) == if name == switch {
            Some(None)
        } else {
            given(rest, name)
        },
{
    assert((seq![switch] + rest)[0] == switch);
    assert((seq![switch] + rest).skip(1) =~= rest);
}

/// An option in front is passed over with its argument but for its own name.
proof fn option_is_read(option: Seq<char>, value: Seq<char>, rest: Seq<Seq<char>>, name: Seq<char>)
    requires
        takes_value(option),
    ensures
        given(seq![option, value] + rest, name) == if name == option {
            Some(Some(value))
        } else {
            given(rest, name)
        },
{
    assert((seq![option, value] + rest)[0] == option);
    assert((seq![option, value] + rest)[1] == value);
    assert((seq![option, value] + rest).skip(2) =~= rest);
}

/// What a login adds to a command line is read back.
proof fn login_is_read(login: LoginView, rest: Seq<Seq<char>>, name: Seq<char>)
    ensures
        given(login_args(login) + rest, name) == match login {
            LoginView::UsernamePassword { username, password } => if name == "-username"@ {
                Some(Some(username))
            } else if name == "-password"@ {
                Some(Some(password))
            } else {
                given(rest, name)
            },
            LoginView::Qr => if name == "-qr"@ {
                Some(None)
            } else {
                given(rest, name)
            },
            LoginView::RememberedUsername { username } => if name == "-username"@ {
                Some(Some(username))
            } else {
                given(rest, name)
            },
            LoginView::Anonymous => given(rest, name),
        },
        given(remember_args(login) + rest, name) == if name == "-remember-password"@ && !(
        login is Anonymous) {
            Some(None)
        } else {
            given(rest, name)
        },
{
    names_differ();
    match login {
        LoginView::UsernamePassword { username, password } => {
            let second = seq!["-password"@, password] + rest;
            assert(login_args(login) + rest =~= seq!["-username"@, username] + second);
            option_is_read("-username"@, username, second, name);
            option_is_read("-password"@, password, rest, name);
        },
        LoginView::Qr => {
            switch_is_read("-qr"@, rest, name);
        },
        LoginView::RememberedUsername { username } => {
            option_is_read("-username"@, username, rest, name);
        },
        LoginView::Anonymous => {
            assert(login_args(login) + rest =~= rest);
        },
    }
    if login is Anonymous {
        assert(remember_args(login) + rest =~= rest);
    } else {
        switch_is_read("-remember-password"@, rest, name);
    }
}

/// What a folder, a bound and a branch add to a command line is read back.
proof fn choices_are_read(
    dir: Option<Seq<char>>,
    count: Option<u32>,
    branch: Option<Seq<char>>,
    rest: Seq<Seq<char>>,
    name: Seq<char>,
)
    ensures
        given(dir_args(dir) + rest, name) == if name == "-dir"@ && dir is Some {
            Some(dir)
        } else {
            given(rest, name)
        },
        given(max_downloads_args(count) + rest, name) == if name == "-max-downloads"@
            && count is Some {
            Some(Some(decimal(count.unwrap() as nat)))
        } else {
            given(rest, name)
        },
        given(branch_args(branch) + rest, name) == if name == "-branch"@ && branch is Some {
            Some(branch)
        } else {
            given(rest, name)
        },
{
    match dir {
        Some(dir) => option_is_read("-dir"@, dir, rest, name),
        None => assert(dir_args(dir) + rest =~= rest),
    }
    match count {
        Some(count) => option_is_read("-max-downloads"@, decimal(count as nat), rest, name),
        None => assert(max_downloads_args(count) + rest =~= rest),
    }
    match branch {
        Some(branch) => option_is_read("-branch"@, branch, rest, name),
        None => assert(branch_args(branch) + rest =~= rest),
    }
}

/// The account and the password that a login gives away, if it does.
pub open spec fn account_given(login: LoginView) -> Option<Seq<char>> {
    match login {
        LoginView::UsernamePassword { username, .. } => Some(username),
        LoginView::RememberedUsername { username } => Some(username),
        _ => None,
    }
}

/// A download's command line read back gives the request: the app, the folder,
/// the bound in decimals and the branch, each where there is one and none where
/// there is none; the account of the login, its password only where the login
/// has one, a QR code only where it is by one; that the login is to be
/// remembered unless it is anonymous; and always the output to be read.
pub proof fn download_is_launched_as_asked(request: RequestView, branch: Option<Seq<char>>)
    ensures
        ({
            let args = request_args(request) + branch_args(branch);
            &&& given(args, "-app"@) == Some(Some(request.app_id))
            &&& given(args, "-json"@) == Some(None::<Seq<char>>)
            &&& given(args, "-dir"@) == match request.download_dir {
                Some(dir) => Some(Some(dir)),
                None => None,
            }
            &&& given(args, "-max-downloads"@) == match request.max_downloads {
                Some(count) => Some(Some(decimal(count as nat))),
                None => None,
            }
            &&& given(args, "-branch"@) == match branch {
                Some(branch) => Some(Some(branch)),
                None => None,
            }
            &&& given(args, "-username"@) == match account_given(request.login) {
                Some(account) => Some(Some(account)),
                None => None,
            }
            &&& given(args, "-password"@) == match request.login {
                LoginView::UsernamePassword { password, .. } => Some(Some(password)),
                _ => None,
            }
            &&& given(args, "-qr"@) is Some <==> request.login is Qr
            &&& given(args, "-remember-password"@) is Some <==> !(request.login is Anonymous)
            &&& given(args, "-list-user-apps"@) is None
            &&& given(args, "-list-branches"@) is None
        }),
{
    let args = request_args(request) + branch_args(branch);
    assert forall|name: Seq<char>| given(args, name) == launched(request, branch, name) by {
        launch_is_read(request, branch, name);
    }
    names_differ();
    assert(given(args, "-json"@) == launched(request, branch, "-json"@));
    assert(given(args, "-remember-password"@) == launched(request, branch, "-remember-password"@));
    assert(given(args, "-qr"@) == launched(request, branch, "-qr"@));
    assert(given(args, "-list-user-apps"@) == launched(request, branch, "-list-user-apps"@));
    assert(given(args, "-list-branches"@) == launched(request, branch, "-list-branches"@));
    assert(given(args, "-app"@) == launched(request, branch, "-app"@));
    assert(given(args, "-dir"@) == launched(request, branch, "-dir"@));
    assert(given(args, "-max-downloads"@) == launched(request, branch, "-max-downloads"@));
    assert(given(args, "-username"@) == launched(request, branch, "-username"@));
    assert(given(args, "-password"@) == launched(request, branch, "-password"@));
    assert(given(args, "-branch"@) == launched(request, branch, "-branch"@));
}

/// What a launch gives for an option.
spec fn launched(request: RequestView, branch: Option<Seq<char>>, name: Seq<char>) -> Option<
    Option<Seq<char>>,
> {
    if name == "-app"@ {
        Some(Some(request.app_id))
    } else if name == "-json"@ {
        Some(None)
    } else if name == "-remember-password"@ && !(request.login is Anonymous) {
        Some(None)
    } else if name == "-dir"@ && request.download_dir is Some {
        Some(request.download_dir)
    } else if name == "-max-downloads"@ && request.max_downloads is Some {
        Some(Some(decimal(request.max_downloads.unwrap() as nat)))
    } else if name == "-username"@ && account_given(request.login) is Some {
        Some(account_given(request.login))
    } else if name == "-password"@ && request.login is UsernamePassword {
        Some(Some(request.login->password))
    } else if name == "-qr"@ && request.login is Qr {
        Some(None)
    } else if name == "-branch"@ && branch is Some {
        Some(branch)
    } else {
        None
    }
}

/// The parts of a launch are read one after the other.
proof fn launch_is_read(request: RequestView, branch: Option<Seq<char>>, name: Seq<char>)
    ensures
        given(request_args(request) + branch_args(branch), name) == launched(request, branch, name),
{
    names_differ();
    let none = Seq::<Seq<char>>::empty();
    let b = branch_args(branch) + none;
    let l = login_args(request.login) + b;
    let m = max_downloads_args(request.max_downloads) + l;
    let d = dir_args(request.download_dir) + m;
    let r = remember_args(request.login) + d;
    let j = seq!["-json"@] + r;
    let a = seq!["-app"@, request.app_id] + j;
    assert(request_args(request) + branch_args(branch) =~= a);
    option_is_read("-app"@, request.app_id, j, name);
    switch_is_read("-json"@, r, name);
    login_is_read(request.login, d, name);
    choices_are_read(request.download_dir, request.max_downloads, branch, m, name);
    choices_are_read(request.download_dir, request.max_downloads, branch, l, name);
    login_is_read(request.login, b, name);
    choices_are_read(request.download_dir, request.max_downloads, branch, none, name);
    assert(given(none, name) is None);
}

/// The command lines that list apps and branches read back give what is to be
/// listed, with the login as for a download.
pub proof fn lists_are_launched_as_asked(app_id: u64, login: LoginView)
    ensures
        ({
            let apps = user_apps_args(login);
            let branches = branches_args(app_id, login);
            &&& given(apps, "-list-user-apps"@) == Some(None::<Seq<char>>)
            &&& given(apps, "-list-branches"@) is None
            &&& given(apps, "-app"@) is None
            &&& given(branches, "-list-branches"@) == Some(None::<Seq<char>>)
            &&& given(branches, "-list-user-apps"@) is None
            &&& given(branches, "-app"@) == Some(Some(decimal(app_id as nat)))
            &&& login_given(apps, login)
            &&& login_given(branches, login)
        }),
{
    names_differ();
    let none = Seq::<Seq<char>>::empty();
    let l = login_args(login) + none;
    let r = remember_args(login) + l;
    let j = seq!["-json"@] + r;
    let apps = seq!["-list-user-apps"@] + j;
    let list = seq!["-list-branches"@] + j;
    let branches = seq!["-app"@, decimal(app_id as nat)] + list;
    assert(user_apps_args(login) =~= apps);
    assert(branches_args(app_id, login) =~= branches);
    assert forall|name: Seq<char>| #[trigger] given(apps, name) == if name
        == "-list-user-apps"@ {
        Some(None)
    } else {
        given(j, name)
    } by {
        switch_is_read("-list-user-apps"@, j, name);
    }
    assert forall|name: Seq<char>| #[trigger] given(branches, name) == if name == "-app"@ {
        Some(Some(decimal(app_id as nat)))
    } else if name == "-list-branches"@ {
        Some(None)
    } else {
        given(j, name)
    } by {
        option_is_read("-app"@, decimal(app_id as nat), list, name);
        switch_is_read("-list-branches"@, j, name);
    }
    assert forall|name: Seq<char>| #[trigger] given(j, name) == if name == "-json"@ {
        Some(None)
    } else if name == "-remember-password"@ && !(login is Anonymous) {
        Some(None)
    } else {
        given(l, name)
    } by {
        switch_is_read("-json"@, r, name);
        login_is_read(login, l, name);
    }
    assert forall|name: Seq<char>| #[trigger] given(l, name) == match login {
        LoginView::UsernamePassword { username, password } => if name == "-username"@ {
            Some(Some(username))
        } else if name == "-password"@ {
            Some(Some(password))
        } else {
            None
        },
        LoginView::Qr => if name == "-qr"@ {
            Some(None)
        } else {
            None
        },
        LoginView::RememberedUsername { username } => if name == "-username"@ {
            Some(Some(username))
        } else {
            None
        },
        LoginView::Anonymous => None,
    } by {
        login_is_read(login, none, name);
        assert(given(none, name) is None);
    }
}

/// A command line gives a login: its account, its password where it has one,
/// and that it is to be remembered unless it is anonymous; and the output is to
/// be read.
pub open spec fn login_given(args: Seq<Seq<char>>, login: LoginView) -> bool {
    &&& given(args, "-json"@) == Some(None::<Seq<char>>)
    &&& given(args, "-username"@) == match account_given(login) {
        Some(account) => Some(Some(account)),
        None => None,
    }
    &&& given(args, "-password"@) == match login {
        LoginView::UsernamePassword { password, .. } => Some(Some(password)),
        _ => None,
    }
    &&& given(args, "-qr"@) is Some <==> login is Qr
    &&& given(args, "-remember-password"@) is Some <==> !(login is Anonymous)
}

/// A run sends a snapshot for a line only where the line is an event, and in
/// between only where the speeds have changed. It is killed exactly where it is
/// cancelled or its login has expired while it still tells something, and goes
/// on until then or until it has nothing more to say.
pub proof fn runs_go_on_until_they_end(sample: Sample, login_expired: bool)
    ensures
        ({
            let step = step_after(sample, login_expired);
            &&& step.send_stats <==> sample == (Sample::Line { is_event: true }) || sample == (
            Sample::SpeedRefreshDue { changed: true })
            &&& step.kill <==> sample is CancelRequested || login_expired && !(
            sample is LineChannelClosed)
            &&& step.stop <==> sample is CancelRequested || sample is LineChannelClosed
                || login_expired
        }),
{
}

/// A run that nobody listens to any more is left; otherwise it is waited for
/// where it is to stop, killed first only where it is to be, and goes on where
/// it is not.
pub proof fn unheard_runs_are_left(step: Step, sent: bool)
    ensures
        next_of(step, sent) is Leave <==> step.send_stats && !sent,
        next_of(step, sent) is AwaitExit <==> step.stop && (sent || !step.send_stats),
        next_of(step, sent) matches Next::AwaitExit { kill } ==> kill == step.kill,
        next_of(step, sent) is Continue <==> !step.stop && (sent || !step.send_stats),
{
}

/// What a listing reports: a QR code with its address; a question with its kind
/// and message, but for a password, which means that the login has expired; a
/// login with its account; the apps; an error with its message. Everything else
/// is passed over.
pub proof fn listings_report_what_matters(event: Event)
    ensures
        ({
            let report = user_apps_report(event);
            match event {
                Event::Qr { url } => report == Some(
                    UserAppsEventView::Prompt(ListPromptView::Qr { url: url@ }),
                ),
                Event::AuthPrompt { kind, message } => {
                    &&& report == Some(UserAppsEventView::LoginExpired) <==> kind
                        == AuthPromptKind::Password
                    &&& kind != AuthPromptKind::Password ==> report == Some(
                        UserAppsEventView::Prompt(
                            ListPromptView::AuthPrompt { kind, message: message@ },
                        ),
                    )
                },
                Event::LoginSuccess { username } => report == Some(
                    UserAppsEventView::LoginSuccess { username: optional_text(username) },
                ),
                Event::UserApps { apps, .. } => {
                    &&& report is Some
                    &&& report.unwrap() is Apps
                    &&& report.unwrap()->Apps_0.len() == apps@.len()
                    &&& forall|i: int|
                        0 <= i < apps@.len() ==> (#[trigger] report.unwrap()->Apps_0[i])
                            == apps@[i]@
                },
                Event::Error { message } => report == Some(UserAppsEventView::Error(message@)),
                _ => report is None,
            }
        }),
{
}

/// A listing is over with the apps, an error or an expired login, and goes on
/// through prompts and logins; it is also over once nobody listens.
pub proof fn listings_end_with_an_answer(report: UserAppsEventView, sent: bool)
    ensures
        report is Apps || report is Error || report is LoginExpired || !sent ==> list_next(
            is_answer(report),
            sent,
        ) == ListNext::KillAndAwaitExit,
        (report is Prompt || report is LoginSuccess) && sent ==> list_next(is_answer(report), sent)
            == ListNext::Continue,
{
}

/// A listing of branches ends with the branches, waits through messages and a
/// login, and gives up on anything else: nobody is there to answer.
pub proof fn branch_listings_never_wait(event: Event)
    ensures
        ({
            let step = branches_step_of(event);
            &&& step is Found <==> event is Branches
            &&& step is Continue <==> event is Log || event is Ignored || event is LoginSuccess
            &&& event matches Event::Branches { branches, .. } ==> {
                &&& step->Found_0.len() == branches@.len()
                &&& forall|i: int|
                    0 <= i < branches@.len() ==> (#[trigger] step->Found_0[i]) == branches@[i]@
            }
        }),
{
}

/// The text about an exit ends with the status or the error that came with it.
pub proof fn exits_tell_their_reason(status: String, error: String)
    ensures
        unexpected_exit_text(ExitOutcome::Failure { status }) == "DepotDownloader exited with "@
            + status@,
        unexpected_exit_text(ExitOutcome::Unknown { error })
            == "DepotDownloader could not be waited on: "@ + error@,
        unexpected_exit_text(ExitOutcome::Success)
            == "DepotDownloader exited before finishing the download."@,
{
}

} // verus!
