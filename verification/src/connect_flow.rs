use vstd::prelude::*;

use crate::error::{AppError, ErrorView};
use crate::remote_host::RemoteHost;
use crate::ssh_manager::{address_of, auth_failed_message, connect_address, remote_home_from};
use crate::text::{concat, trim, trimmed};

verus! {

/// Where a connection attempt stands: the step whose outcome it waits for.
#[derive(Debug, Clone, Copy, PartialEq, Eq)]
pub enum ConnectStage {
    Dialing,
    Opening,
    Handshaking,
    LoggingIn,
    CheckingLogin,
    ProbingHome,
}

/// The outcome of the step that was asked for.
#[derive(Debug)]
pub enum ConnectEvent {
    /// The dial, session creation, handshake or password login succeeded.
    Done,
    /// The dial, session creation, handshake or password login failed; the text
    /// is the failure's message.
    Failed(String),
    /// Whether the server reports the session as authenticated.
    LoginChecked(bool),
    /// The output of the command that was asked for, or its failure.
    Output(Result<String, AppError>),
}

/// The next piece of outside work a connection attempt asks for.
#[derive(Debug)]
pub enum ConnectAction {
    /// Open a TCP connection to this `host:port` address.
    Dial(String),
    /// Create an SSH session over the TCP connection.
    OpenSession,
    /// Run the SSH handshake.
    Handshake,
    /// Log in with this user name and password.
    Login(String, String),
    /// Ask whether the session is authenticated.
    CheckLogin,
    /// Run this command on the remote machine and report its output.
    RunCommand(String),
}

/// What a step decides: go on with the next stage and action, give up with an
/// error, or finish with the remote home directory.
#[derive(Debug)]
pub enum ConnectNext {
    Continue(ConnectStage, ConnectAction),
    Fail(AppError),
    Connected(String),
}

/// An action as a mathematical value.
pub enum ActionView {
    Dial(Seq<char>),
    OpenSession,
    Handshake,
    Login(Seq<char>, Seq<char>),
    CheckLogin,
    RunCommand(Seq<char>),
}

/// A decision as a mathematical value.
pub enum NextView {
    Continue(ConnectStage, ActionView),
    Fail(ErrorView),
    Connected(Seq<char>),
}

impl View for ConnectAction {
    type V = ActionView;

    open spec fn view(&self) -> ActionView {
        match self {
            ConnectAction::Dial(a) => ActionView::Dial(a@),
            ConnectAction::OpenSession => ActionView::OpenSession,
            ConnectAction::Handshake => ActionView::Handshake,
            ConnectAction::Login(u, p) => ActionView::Login(u@, p@),
            ConnectAction::CheckLogin => ActionView::CheckLogin,
            ConnectAction::RunCommand(c) => ActionView::RunCommand(c@),
        }
    }
}

impl View for ConnectNext {
    type V = NextView;

    open spec fn view(&self) -> NextView {
        match self {
            ConnectNext::Continue(s, a) => NextView::Continue(*s, a@),
            ConnectNext::Fail(e) => NextView::Fail(e@),
            ConnectNext::Connected(h) => NextView::Connected(h@),
        }
    }
}

/// The command whose output is the remote home directory.
pub open spec fn home_probe_command() -> Seq<char> {
    "echo $HOME"@
}

/// The event is an outcome of the step that the stage waits for.
pub open spec fn event_fits(stage: ConnectStage, event: ConnectEvent) -> bool {
    match stage {
        ConnectStage::CheckingLogin => event is LoginChecked,
        ConnectStage::ProbingHome => event is Output,
        _ => event is Done || event is Failed,
    }
}

/// One step of connecting to `host`: from the stage and the outcome of its step to
/// what comes next. The steps are, in order: dial `host:port`, create the session,
/// handshake, log in with the host's user name and password, check that the login
/// was accepted, and run `echo $HOME` once; the first failure ends the attempt.
pub open spec fn connect_transition(host: RemoteHost, stage: ConnectStage, event: ConnectEvent) -> NextView {
    match stage {
        ConnectStage::Dialing => match event {
            ConnectEvent::Failed(e) => NextView::Fail(
                ErrorView::Config("无法连接到 "@ + address_of(host) + ": "@ + e@),
            ),
            _ => NextView::Continue(ConnectStage::Opening, ActionView::OpenSession),
        },
        ConnectStage::Opening => match event {
            ConnectEvent::Failed(e) => NextView::Fail(ErrorView::Config("创建 SSH session 失败: "@ + e@)),
            _ => NextView::Continue(ConnectStage::Handshaking, ActionView::Handshake),
        },
        ConnectStage::Handshaking => match event {
            ConnectEvent::Failed(e) => NextView::Fail(ErrorView::Config("SSH 握手失败: "@ + e@)),
            _ => NextView::Continue(
                ConnectStage::LoggingIn,
                ActionView::Login(host.username@, host.password@),
            ),
        },
        ConnectStage::LoggingIn => match event {
            ConnectEvent::Failed(e) => NextView::Fail(ErrorView::Config("SSH 认证失败: "@ + e@)),
            _ => NextView::Continue(ConnectStage::CheckingLogin, ActionView::CheckLogin),
        },
        ConnectStage::CheckingLogin => match event {
            ConnectEvent::LoginChecked(true) => NextView::Continue(
                ConnectStage::ProbingHome,
                ActionView::RunCommand(home_probe_command()),
            ),
            _ => NextView::Fail(ErrorView::Config(auth_failed_message())),
        },
        ConnectStage::ProbingHome => match event {
            ConnectEvent::Output(p) => NextView::Connected(remote_home_from(p, host.username@)),
            // no other event fits this stage
            _ => NextView::Connected(Seq::empty()),
        },
    }
}

/// Where a connection attempt from `stage` ends after the outcomes `events`
/// (`None` while it has not ended, or where an outcome does not fit its step).
pub open spec fn connect_run(host: RemoteHost, stage: ConnectStage, events: Seq<ConnectEvent>) -> Option<
    NextView,
>
    decreases events.len(),
{
    if events.len() == 0 || !event_fits(stage, events[0]) {
        None
    } else {
        match connect_transition(host, stage, events[0]) {
            NextView::Continue(next, _) => connect_run(host, next, events.drop_first()),
            done => Some(done),
        }
    }
}

/// Whether `event` is an outcome of the step that `stage` waits for.
pub fn event_fits_stage(stage: &ConnectStage, event: &ConnectEvent) -> (b: bool)
    ensures
        b == event_fits(*stage, *event),
{
    match stage {
        ConnectStage::CheckingLogin => matches!(event, ConnectEvent::LoginChecked(_)),
        ConnectStage::ProbingHome => matches!(event, ConnectEvent::Output(_)),
        _ => matches!(event, ConnectEvent::Done) || matches!(event, ConnectEvent::Failed(_)),
    }
}

/// The first stage and action of connecting to `host`: dial its address.
pub fn connect_start(host: &RemoteHost) -> (r: (ConnectStage, ConnectAction))
    ensures
        r.0 == ConnectStage::Dialing,
        r.1@ == ActionView::Dial(address_of(*host)),
{
    (ConnectStage::Dialing, ConnectAction::Dial(connect_address(host)))
}

fn failure(prefix: &str, detail: &str) -> (e: AppError)
    ensures
        e@ == ErrorView::Config(prefix@ + detail@),
{
    AppError::Config(concat(prefix, detail))
}

/// One step of connecting to `host`, from `stage` and the outcome `event` of its step.
pub fn connect_step(host: &RemoteHost, stage: ConnectStage, event: ConnectEvent) -> (r: ConnectNext)
    requires
        event_fits(stage, event),
    ensures
        r@ == connect_transition(*host, stage, event),
{
    match stage {
        ConnectStage::Dialing => match event {
            ConnectEvent::Failed(e) => {
                let mut m = "无法连接到 ".to_owned();
                let address = connect_address(host);
                m.append(address.as_str());
                m.append(": ");
                m.append(e.as_str());
                ConnectNext::Fail(AppError::Config(m))
            },
            _ => ConnectNext::Continue(ConnectStage::Opening, ConnectAction::OpenSession),
        },
        ConnectStage::Opening => match event {
            ConnectEvent::Failed(e) => ConnectNext::Fail(failure("创建 SSH session 失败: ", e.as_str())),
            _ => ConnectNext::Continue(ConnectStage::Handshaking, ConnectAction::Handshake),
        },
        ConnectStage::Handshaking => match event {
            ConnectEvent::Failed(e) => ConnectNext::Fail(failure("SSH 握手失败: ", e.as_str())),
            _ => ConnectNext::Continue(
                ConnectStage::LoggingIn,
                ConnectAction::Login(host.username.clone(), host.password.clone()),
            ),
        },
        ConnectStage::LoggingIn => match event {
            ConnectEvent::Failed(e) => ConnectNext::Fail(failure("SSH 认证失败: ", e.as_str())),
            _ => ConnectNext::Continue(ConnectStage::CheckingLogin, ConnectAction::CheckLogin),
        },
        ConnectStage::CheckingLogin => match event {
            ConnectEvent::LoginChecked(true) => ConnectNext::Continue(
                ConnectStage::ProbingHome,
                ConnectAction::RunCommand("echo $HOME".to_owned()),
            ),
            _ => ConnectNext::Fail(AppError::Config("SSH 认证失败：用户名或密码错误".to_owned())),
        },
        ConnectStage::ProbingHome => match event {
            ConnectEvent::Output(Ok(out)) => ConnectNext::Connected(trimmed(out.as_str())),
            ConnectEvent::Output(Err(_)) => ConnectNext::Connected(concat("/home/", host.username.as_str())),
            // no other event fits this stage
            _ => ConnectNext::Connected(String::new()),
        },
    }
}

/// A connection attempt ends connected only after, in this order: a dial, a
/// session creation, a handshake and a password login that all succeeded, a check
/// that reported the login accepted, and one run of the home probe; the remote
/// home is what that probe gave.
pub proof fn law_connected_only_after_login(host: RemoteHost, events: Seq<ConnectEvent>)
    ensures
        connect_run(host, ConnectStage::Dialing, events) matches Some(NextView::Connected(home)) ==> {
            &&& events.len() >= 6
            &&& events[0] is Done
            &&& events[1] is Done
            &&& events[2] is Done
            &&& events[3] is Done
            &&& events[4] == ConnectEvent::LoginChecked(true)
            &&& events[5] matches ConnectEvent::Output(p) && home == remote_home_from(p, host.username@)
        },
{
    reveal_with_fuel(connect_run, 7);
}

/// A dial that fails ends the attempt with the address in the message, and
/// nothing after it is tried.
pub proof fn law_failed_dial_ends(host: RemoteHost, e: String, rest: Seq<ConnectEvent>)
    ensures
        connect_run(host, ConnectStage::Dialing, seq![ConnectEvent::Failed(e)] + rest) == Some(
            NextView::Fail(ErrorView::Config("无法连接到 "@ + address_of(host) + ": "@ + e@)),
        ),
{
    let events = seq![ConnectEvent::Failed(e)] + rest;
    assert(events[0] == ConnectEvent::Failed(e));
}

/// A login that the server does not report as accepted ends the attempt with the
/// authentication error, and the home probe never runs.
pub proof fn law_rejected_login_ends(host: RemoteHost, rest: Seq<ConnectEvent>)
    ensures
        connect_run(
            host,
            ConnectStage::Dialing,
            seq![
                ConnectEvent::Done,
                ConnectEvent::Done,
                ConnectEvent::Done,
                ConnectEvent::Done,
                ConnectEvent::LoginChecked(false),
            ] + rest,
        ) == Some(NextView::Fail(ErrorView::Config(auth_failed_message()))),
{
    let events = seq![
        ConnectEvent::Done,
        ConnectEvent::Done,
        ConnectEvent::Done,
        ConnectEvent::Done,
        ConnectEvent::LoginChecked(false),
    ] + rest;
    assert(events[0] == ConnectEvent::Done);
    assert(events.drop_first()[0] == ConnectEvent::Done);
    assert(events.drop_first().drop_first()[0] == ConnectEvent::Done);
    assert(events.drop_first().drop_first().drop_first()[0] == ConnectEvent::Done);
    assert(events.drop_first().drop_first().drop_first().drop_first()[0] == ConnectEvent::LoginChecked(false));
    reveal_with_fuel(connect_run, 6);
}

/// The remote home of a connection is what `echo $HOME` printed, without its
/// leading and trailing whitespace; only where that command failed is it
/// `/home/<username>`.
pub proof fn law_home_is_trimmed_probe_output(host: RemoteHost, probe: Result<String, AppError>)
    ensures
        ({
            let events = seq![
                ConnectEvent::Done,
                ConnectEvent::Done,
                ConnectEvent::Done,
                ConnectEvent::Done,
                ConnectEvent::LoginChecked(true),
                ConnectEvent::Output(probe),
            ];
            match probe {
                Ok(out) => connect_run(host, ConnectStage::Dialing, events) == Some(
                    NextView::Connected(trim(out@)),
                ),
                Err(_) => connect_run(host, ConnectStage::Dialing, events) == Some(
                    NextView::Connected("/home/"@ + host.username@),
                ),
            }
        }),
{
    let events = seq![
        ConnectEvent::Done,
        ConnectEvent::Done,
        ConnectEvent::Done,
        ConnectEvent::Done,
        ConnectEvent::LoginChecked(true),
        ConnectEvent::Output(probe),
    ];
    let e1 = events.drop_first();
    let e2 = e1.drop_first();
    let e3 = e2.drop_first();
    let e4 = e3.drop_first();
    let e5 = e4.drop_first();
    assert(events[0] == ConnectEvent::Done);
    assert(e1[0] == ConnectEvent::Done);
    assert(e2[0] == ConnectEvent::Done);
    assert(e3[0] == ConnectEvent::Done);
    assert(e4[0] == ConnectEvent::LoginChecked(true));
    assert(e5[0] == ConnectEvent::Output(probe));
    assert(e5.drop_first().len() == 0);
    reveal_with_fuel(connect_run, 7);
}

} // verus!
