//! The per-connection SMTP session state machine.
//!
//! The machine is driven one received line at a time: [`Session::on_line`]
//! consumes a raw line (terminator included) and says what to write back,
//! whether to close, and when an accumulated DATA payload is complete and
//! ready for the screening pipeline.  The transition function is stated
//! once, as [`spec_step`], and the executable machine is proved to follow
//! it; the protocol laws at the end of this module are proved over
//! [`spec_step`] alone.

use vstd::prelude::*;
use vstd::string::StringExecFns;

use crate::config::{matches_view, Config, ConfigView};
use crate::state::{addr_allowed, IpAddress, State};
use crate::text::{seq_eq_ci, split_command, split_verb, str_eq_ci, trim_spec, trim_str};

verus! {

/// Every line the server can write to the peer.
#[derive(Clone, Copy, PartialEq, Eq, Structural, Debug)]
pub enum Reply {
    Greeting,
    Hello,
    Bye,
    Okay,
    UsernamePrompt,
    PasswordPrompt,
    AuthSuccess,
    AuthFailure,
    StartData,
    Accepted,
    ParseFailure,
    Unrecognised,
    AuthRequired,
}

/// The exact wire text of each reply.
pub open spec fn reply_text(r: Reply) -> Seq<char> {
    match r {
        Reply::Greeting => "220 Welcome to the CCTV SMTP server\r\n"@,
        Reply::Hello => "250 Hello\r\n"@,
        Reply::Bye => "221 OK\r\n"@,
        Reply::Okay => "250 OK\r\n"@,
        Reply::UsernamePrompt => "334 VXNlcm5hbWU6\r\n"@,
        Reply::PasswordPrompt => "334 UGFzc3dvcmQ6\r\n"@,
        Reply::AuthSuccess => "235 Authentication successful\r\n"@,
        Reply::AuthFailure => "535 Authentication credentials invalid\r\n"@,
        Reply::StartData => "354 End data with <CR><LF>.<CR><LF>\r\n"@,
        Reply::Accepted => "250 Message accepted\r\n"@,
        Reply::ParseFailure => "550 Failed to parse email\r\n"@,
        Reply::Unrecognised => "500 Command unrecognised\r\n"@,
        Reply::AuthRequired => "530 Authentication required\r\n"@,
    }
}

impl Reply {
    /// The line to write for this reply, CRLF included.
    pub fn wire_line(&self) -> (r: &'static str)
        ensures
            r@ == reply_text(*self),
    {
        match self {
            Reply::Greeting => "220 Welcome to the CCTV SMTP server\r\n",
            Reply::Hello => "250 Hello\r\n",
            Reply::Bye => "221 OK\r\n",
            Reply::Okay => "250 OK\r\n",
            Reply::UsernamePrompt => "334 VXNlcm5hbWU6\r\n",
            Reply::PasswordPrompt => "334 UGFzc3dvcmQ6\r\n",
            Reply::AuthSuccess => "235 Authentication successful\r\n",
            Reply::AuthFailure => "535 Authentication credentials invalid\r\n",
            Reply::StartData => "354 End data with <CR><LF>.<CR><LF>\r\n",
            Reply::Accepted => "250 Message accepted\r\n",
            Reply::ParseFailure => "550 Failed to parse email\r\n",
            Reply::Unrecognised => "500 Command unrecognised\r\n",
            Reply::AuthRequired => "530 Authentication required\r\n",
        }
    }
}

/// A recognised command verb, or `Other` for everything else.
#[derive(Clone, Copy, PartialEq, Eq, Structural, Debug)]
pub enum Command {
    Helo,
    Quit,
    Mail,
    Rcpt,
    AuthLogin,
    Data,
    Other,
}

/// Reads a raw command line: trim it, split the verb from the single
/// argument at the first space, and recognise the verb without regard to
/// ASCII letter case.  `AUTH` counts only together with the argument
/// `LOGIN`; the arguments of `MAIL` and `RCPT` are deliberately not
/// inspected, the server accepts any sender and recipient.
pub open spec fn spec_parse_command(line: Seq<char>) -> Command {
    let t = trim_spec(line);
    let verb = split_verb(t).0;
    let arg = split_verb(t).1;
    if seq_eq_ci(verb, "HELO"@) || seq_eq_ci(verb, "EHLO"@) {
        Command::Helo
    } else if seq_eq_ci(verb, "QUIT"@) {
        Command::Quit
    } else if seq_eq_ci(verb, "MAIL"@) {
        Command::Mail
    } else if seq_eq_ci(verb, "RCPT"@) {
        Command::Rcpt
    } else if seq_eq_ci(verb, "AUTH"@) && seq_eq_ci(arg, "LOGIN"@) {
        Command::AuthLogin
    } else if seq_eq_ci(verb, "DATA"@) {
        Command::Data
    } else {
        Command::Other
    }
}

/// Executable form of [`spec_parse_command`].
pub fn parse_command(line: &str) -> (c: Command)
    ensures
        c == spec_parse_command(line@),
{
    let t = trim_str(line);
    let (verb, arg) = split_command(t);
    if str_eq_ci(verb, "HELO") || str_eq_ci(verb, "EHLO") {
        Command::Helo
    } else if str_eq_ci(verb, "QUIT") {
        Command::Quit
    } else if str_eq_ci(verb, "MAIL") {
        Command::Mail
    } else if str_eq_ci(verb, "RCPT") {
        Command::Rcpt
    } else if str_eq_ci(verb, "AUTH") && str_eq_ci(arg, "LOGIN") {
        Command::AuthLogin
    } else if str_eq_ci(verb, "DATA") {
        Command::Data
    } else {
        Command::Other
    }
}

/// Where a session stands between two received lines.
#[derive(Debug)]
pub enum Phase {
    /// The steady state: the next line is a command.
    AwaitingCommand,
    /// The username prompt was sent; the next line is the username.
    AuthUsername,
    /// The password prompt was sent; the next line is the password.
    AuthPassword { username: String },
    /// Inside DATA: lines accumulate until the lone-period terminator.
    Receiving { buffer: String },
    /// Terminal: reached by QUIT or end of input.
    Closed,
}

/// The phase of a session, over sequences of characters.
pub enum PhaseView {
    AwaitingCommand,
    AuthUsername,
    AuthPassword(Seq<char>),
    Receiving(Seq<char>),
    Closed,
}

/// The mathematical content of a [`Session`].
pub struct SessionView {
    pub authenticated: bool,
    pub phase: PhaseView,
}

/// One SMTP session: the protocol state of a single accepted connection.
/// Owned exclusively by the task driving that connection.
#[derive(Debug)]
pub struct Session {
    pub authenticated: bool,
    pub phase: Phase,
}

impl View for Session {
    type V = SessionView;

    open spec fn view(&self) -> SessionView {
        SessionView {
            authenticated: self.authenticated,
            phase: match self.phase {
                Phase::AwaitingCommand => PhaseView::AwaitingCommand,
                Phase::AuthUsername => PhaseView::AuthUsername,
                Phase::AuthPassword { username } => PhaseView::AuthPassword(username@),
                Phase::Receiving { buffer } => PhaseView::Receiving(buffer@),
                Phase::Closed => PhaseView::Closed,
            },
        }
    }
}

/// A session as it is right after the greeting banner: not authenticated,
/// awaiting its first command.
pub open spec fn fresh_session() -> SessionView {
    SessionView { authenticated: false, phase: PhaseView::AwaitingCommand }
}

/// What the machine does with one received line.
#[derive(Debug)]
pub enum Outcome {
    /// Write this reply and keep reading.
    Reply(Reply),
    /// Write this reply, then close the connection.
    ReplyClose(Reply),
    /// The line joined the DATA buffer; write nothing.
    Collected,
    /// The DATA terminator arrived: screen this payload, then write the
    /// screening verdict's reply.
    Dispatch(String),
}

/// An [`Outcome`], over sequences of characters.
pub enum OutcomeView {
    Reply(Reply),
    ReplyClose(Reply),
    Collected,
    Dispatch(Seq<char>),
}

impl View for Outcome {
    type V = OutcomeView;

    open spec fn view(&self) -> OutcomeView {
        match self {
            Outcome::Reply(r) => OutcomeView::Reply(*r),
            Outcome::ReplyClose(r) => OutcomeView::ReplyClose(*r),
            Outcome::Collected => OutcomeView::Collected,
            Outcome::Dispatch(data) => OutcomeView::Dispatch(data@),
        }
    }
}

/// The transition function of the session state machine: from a state and
/// one received raw line (terminator included) to the next state and the
/// outcome.  Lines reaching a `Closed` session are left to the driver and
/// mapped to no effect here.
pub open spec fn spec_step(s: SessionView, cfg: ConfigView, line: Seq<char>) -> (
    SessionView,
    OutcomeView,
) {
    match s.phase {
        PhaseView::AwaitingCommand => match spec_parse_command(line) {
            Command::Helo => (s, OutcomeView::Reply(Reply::Hello)),
            Command::Quit => (
                SessionView { phase: PhaseView::Closed, ..s },
                OutcomeView::ReplyClose(Reply::Bye),
            ),
            Command::Mail => (s, OutcomeView::Reply(Reply::Okay)),
            Command::Rcpt => (s, OutcomeView::Reply(Reply::Okay)),
            Command::AuthLogin => (
                SessionView { phase: PhaseView::AuthUsername, ..s },
                OutcomeView::Reply(Reply::UsernamePrompt),
            ),
            Command::Data => if s.authenticated {
                (
                    SessionView { phase: PhaseView::Receiving(Seq::empty()), ..s },
                    OutcomeView::Reply(Reply::StartData),
                )
            } else {
                (s, OutcomeView::Reply(Reply::AuthRequired))
            },
            Command::Other => (
                s,
                OutcomeView::Reply(
                    if s.authenticated {
                        Reply::Unrecognised
                    } else {
                        Reply::AuthRequired
                    },
                ),
            ),
        },
        PhaseView::AuthUsername => (
            SessionView { phase: PhaseView::AuthPassword(line), ..s },
            OutcomeView::Reply(Reply::PasswordPrompt),
        ),
        PhaseView::AuthPassword(username) => if matches_view(cfg, username, line) {
            (
                SessionView { authenticated: true, phase: PhaseView::AwaitingCommand },
                OutcomeView::Reply(Reply::AuthSuccess),
            )
        } else {
            (
                SessionView { authenticated: s.authenticated, phase: PhaseView::AwaitingCommand },
                OutcomeView::Reply(Reply::AuthFailure),
            )
        },
        PhaseView::Receiving(buffer) => if trim_spec(line) == seq!['.'] {
            (
                SessionView { phase: PhaseView::AwaitingCommand, ..s },
                OutcomeView::Dispatch(buffer),
            )
        } else {
            (
                SessionView { phase: PhaseView::Receiving(buffer + line), ..s },
                OutcomeView::Collected,
            )
        },
        PhaseView::Closed => (s, OutcomeView::Collected),
    }
}

impl Session {
    /// A session right after the greeting banner.
    pub fn new() -> (r: Session)
        ensures
            r@ == fresh_session(),
    {
        Session { authenticated: false, phase: Phase::AwaitingCommand }
    }

    /// Feeds one received raw line (terminator included) to the machine;
    /// the session moves and answers exactly as [`spec_step`] says.
    pub fn on_line(&mut self, cfg: &Config, line: &str) -> (out: Outcome)
        requires
            !(old(self)@.phase is Closed),
        ensures
            final(self)@ == spec_step(old(self)@, cfg@, line@).0,
            out@ == spec_step(old(self)@, cfg@, line@).1,
    {
        match &mut self.phase {
            Phase::AwaitingCommand => {
                let cmd = parse_command(line);
                match cmd {
                    Command::Helo => Outcome::Reply(Reply::Hello),
                    Command::Quit => {
                        self.phase = Phase::Closed;
                        Outcome::ReplyClose(Reply::Bye)
                    },
                    Command::Mail => Outcome::Reply(Reply::Okay),
                    Command::Rcpt => Outcome::Reply(Reply::Okay),
                    Command::AuthLogin => {
                        self.phase = Phase::AuthUsername;
                        Outcome::Reply(Reply::UsernamePrompt)
                    },
                    Command::Data => {
                        if self.authenticated {
                            self.phase = Phase::Receiving { buffer: String::new() };
                            Outcome::Reply(Reply::StartData)
                        } else {
                            Outcome::Reply(Reply::AuthRequired)
                        }
                    },
                    Command::Other => {
                        if self.authenticated {
                            Outcome::Reply(Reply::Unrecognised)
                        } else {
                            Outcome::Reply(Reply::AuthRequired)
                        }
                    },
                }
            },
            Phase::AuthUsername => {
                self.phase = Phase::AuthPassword { username: String::from_str(line) };
                Outcome::Reply(Reply::PasswordPrompt)
            },
            Phase::AuthPassword { username } => {
                let ok = cfg.creds_match_str(username.as_str(), line);
                self.phase = Phase::AwaitingCommand;
                if ok {
                    self.authenticated = true;
                    Outcome::Reply(Reply::AuthSuccess)
                } else {
                    Outcome::Reply(Reply::AuthFailure)
                }
            },
            Phase::Receiving { buffer } => {
                let t = trim_str(line);
                let is_terminator = t.unicode_len() == 1 && t.get_char(0) == '.';
                proof {
                    if is_terminator {
                        assert(trim_spec(line@) =~= seq!['.']);
                    }
                }
                if is_terminator {
                    let payload = buffer.clone();
                    self.phase = Phase::AwaitingCommand;
                    Outcome::Dispatch(payload)
                } else {
                    buffer.append(line);
                    Outcome::Collected
                }
            },
            Phase::Closed => Outcome::Collected,
        }
    }

    /// End of input: the session closes with no further effect; an
    /// unfinished DATA payload is discarded, never processed.
    pub fn on_eof(&mut self)
        ensures
            final(self)@.phase is Closed,
            final(self)@.authenticated == old(self)@.authenticated,
    {
        self.phase = Phase::Closed;
    }
}

/// Applies the access policy to a newly accepted peer: a disallowed
/// address gets no session and no banner at all; an allowed one gets a
/// fresh session and the greeting banner to write first.
pub fn accept_peer(state: &State, peer: IpAddress) -> (r: Option<(Session, Reply)>)
    ensures
        (r is Some) == addr_allowed(state@, peer),
        r matches Some(t) ==> t.0@ == fresh_session() && t.1 == Reply::Greeting,
{
    if state.is_socketaddr_accepted(peer) {
        Some((Session::new(), Reply::Greeting))
    } else {
        None
    }
}

/// The state a session is in after a whole run of received lines.
pub open spec fn run_steps(s: SessionView, cfg: ConfigView, lines: Seq<Seq<char>>) -> SessionView
    decreases lines.len(),
{
    if lines.len() == 0 {
        s
    } else {
        run_steps(spec_step(s, cfg, lines[0]).0, cfg, lines.drop_first())
    }
}

/// The state a session is in just before line `i` of a run.
pub open spec fn state_at(
    s: SessionView,
    cfg: ConfigView,
    lines: Seq<Seq<char>>,
    i: int,
) -> SessionView {
    run_steps(s, cfg, lines.take(i))
}

/// The step that alone can authenticate a session: the password line of an
/// AUTH LOGIN exchange, with credentials that match the store.
pub open spec fn auth_success_step(s: SessionView, cfg: ConfigView, line: Seq<char>) -> bool {
    s.phase matches PhaseView::AuthPassword(username) && matches_view(cfg, username, line)
}

/// A single step authenticates the session only through a successful
/// AUTH LOGIN password line; nothing else can set the flag.
pub proof fn lemma_auth_needs_valid_login(s: SessionView, cfg: ConfigView, line: Seq<char>)
    ensures
        spec_step(s, cfg, line).0.authenticated ==> s.authenticated || auth_success_step(
            s,
            cfg,
            line,
        ),
{
}

/// A failed AUTH LOGIN exchange answers 535 and leaves the authentication
/// flag exactly as it was.
pub proof fn lemma_failed_login_leaves_flag(
    s: SessionView,
    cfg: ConfigView,
    username: Seq<char>,
    line: Seq<char>,
)
    requires
        s.phase == PhaseView::AuthPassword(username),
        !matches_view(cfg, username, line),
    ensures
        spec_step(s, cfg, line).0.authenticated == s.authenticated,
        spec_step(s, cfg, line).0.phase is AwaitingCommand,
        spec_step(s, cfg, line).1 == OutcomeView::Reply(Reply::AuthFailure),
{
}

/// An unauthenticated session answers a DATA command with 530 and does not
/// move.
pub proof fn lemma_data_rejected_when_unauthenticated(
    s: SessionView,
    cfg: ConfigView,
    line: Seq<char>,
)
    requires
        !s.authenticated,
        s.phase is AwaitingCommand,
        spec_parse_command(line) == Command::Data,
    ensures
        spec_step(s, cfg, line) == (s, OutcomeView::Reply(Reply::AuthRequired)),
{
}

/// Over a whole run in which no step is a successful AUTH LOGIN password
/// line, a session that starts unauthenticated stays unauthenticated.
pub proof fn lemma_unauthenticated_stays(s: SessionView, cfg: ConfigView, lines: Seq<Seq<char>>)
    requires
        !s.authenticated,
        forall|i: int|
            0 <= i < lines.len() ==> !auth_success_step(
                state_at(s, cfg, lines, i),
                cfg,
                #[trigger] lines[i],
            ),
    ensures
        !run_steps(s, cfg, lines).authenticated,
    decreases lines.len(),
{
    if lines.len() > 0 {
        let s1 = spec_step(s, cfg, lines[0]).0;
        let rest = lines.drop_first();
        assert(lines.take(0) =~= Seq::<Seq<char>>::empty());
        assert(!auth_success_step(s, cfg, lines[0]));
        lemma_auth_needs_valid_login(s, cfg, lines[0]);
        assert forall|i: int|
            0 <= i < rest.len() implies !auth_success_step(
            state_at(s1, cfg, rest, i),
            cfg,
            #[trigger] rest[i],
        ) by {
            assert(lines.take(i + 1)[0] == lines[0]);
            assert(lines.take(i + 1).drop_first() =~= rest.take(i));
            assert(state_at(s, cfg, lines, i + 1) == state_at(s1, cfg, rest, i));
            assert(rest[i] == lines[i + 1]);
            assert(!auth_success_step(state_at(s, cfg, lines, i + 1), cfg, lines[i + 1]));
        }
        lemma_unauthenticated_stays(s1, cfg, rest);
    }
}

/// In a session in which no line ever completed AUTH LOGIN with matching
/// credentials, a DATA command is rejected with 530.
pub proof fn lemma_data_needs_prior_login(cfg: ConfigView, lines: Seq<Seq<char>>, line: Seq<char>)
    requires
        forall|i: int|
            0 <= i < lines.len() ==> !auth_success_step(
                state_at(fresh_session(), cfg, lines, i),
                cfg,
                #[trigger] lines[i],
            ),
        run_steps(fresh_session(), cfg, lines).phase is AwaitingCommand,
        spec_parse_command(line) == Command::Data,
    ensures
        spec_step(run_steps(fresh_session(), cfg, lines), cfg, line).1 == OutcomeView::Reply(
            Reply::AuthRequired,
        ),
{
    lemma_unauthenticated_stays(fresh_session(), cfg, lines);
}

/// However often HELO (or EHLO) is repeated, every answer is 250 Hello and
/// the session, its authentication flag included, does not change.
pub proof fn lemma_helo_idempotent(s: SessionView, cfg: ConfigView, lines: Seq<Seq<char>>)
    requires
        s.phase is AwaitingCommand,
        forall|i: int| 0 <= i < lines.len() ==> spec_parse_command(#[trigger] lines[i]) == Command::Helo,
    ensures
        run_steps(s, cfg, lines) == s,
        forall|i: int|
            0 <= i < lines.len() ==> spec_step(s, cfg, #[trigger] lines[i]).1 == OutcomeView::Reply(
                Reply::Hello,
            ),
    decreases lines.len(),
{
    if lines.len() > 0 {
        assert(spec_step(s, cfg, lines[0]).0 == s);
        lemma_helo_idempotent(s, cfg, lines.drop_first());
        assert forall|i: int|
            0 <= i < lines.len() implies spec_step(s, cfg, #[trigger] lines[i]).1
            == OutcomeView::Reply(Reply::Hello) by {
            if i > 0 {
                assert(lines.drop_first()[i - 1] == lines[i]);
            }
        }
    }
}

/// The concatenation of a run of received lines, each with its terminator.
pub open spec fn concat_lines(lines: Seq<Seq<char>>) -> Seq<char>
    decreases lines.len(),
{
    if lines.len() == 0 {
        Seq::empty()
    } else {
        lines[0] + concat_lines(lines.drop_first())
    }
}

/// Inside DATA, every line short of the lone-period terminator joins the
/// buffer verbatim, and the terminator hands exactly the accumulated
/// lines on — the terminator line itself is never part of the payload.
pub proof fn lemma_data_accumulates(
    s: SessionView,
    cfg: ConfigView,
    buffer: Seq<char>,
    lines: Seq<Seq<char>>,
    terminator: Seq<char>,
)
    requires
        s.phase == PhaseView::Receiving(buffer),
        forall|i: int| 0 <= i < lines.len() ==> trim_spec(#[trigger] lines[i]) != seq!['.'],
        trim_spec(terminator) == seq!['.'],
    ensures
        run_steps(s, cfg, lines).phase == PhaseView::Receiving(buffer + concat_lines(lines)),
        run_steps(s, cfg, lines).authenticated == s.authenticated,
        spec_step(run_steps(s, cfg, lines), cfg, terminator).1 == OutcomeView::Dispatch(
            buffer + concat_lines(lines),
        ),
        spec_step(run_steps(s, cfg, lines), cfg, terminator).0.phase is AwaitingCommand,
    decreases lines.len(),
{
    if lines.len() == 0 {
        assert(buffer + concat_lines(lines) =~= buffer);
    } else {
        let s1 = spec_step(s, cfg, lines[0]).0;
        assert(s1.phase == PhaseView::Receiving(buffer + lines[0]));
        lemma_data_accumulates(s1, cfg, buffer + lines[0], lines.drop_first(), terminator);
        assert((buffer + lines[0]) + concat_lines(lines.drop_first()) =~= buffer + concat_lines(
            lines,
        ));
    }
}

} // verus!
