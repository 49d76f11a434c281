//! The control surface's encoding helpers: resolving signal names to
//! numbers and naming states and error kinds for responses.

use vstd::prelude::*;
use vstd::string::StringExecFns;

use crate::strutil::{
    contains_space, lemma_split_space_concat, lemma_split_space_inverse, lemma_split_space_whole,
    spec_split_space, split_space, str_eq,
};
use crate::types::{Command, ErrKind, State};

verus! {

/// The signal sent for a graceful stop when a definition names none.
pub const DEFAULT_STOP_SIGNAL: u32 = 15;

/// The signal numbers this library knows by name; any other name is a
/// `BadSignalName` error.
pub open spec fn spec_parse_signal(s: Seq<char>) -> Result<u32, ErrKind> {
    if s == "SIGHUP"@ {
        Ok(1u32)
    } else if s == "SIGINT"@ {
        Ok(2u32)
    } else if s == "SIGQUIT"@ {
        Ok(3u32)
    } else if s == "SIGKILL"@ {
        Ok(9u32)
    } else if s == "SIGUSR1"@ {
        Ok(10u32)
    } else if s == "SIGUSR2"@ {
        Ok(12u32)
    } else if s == "SIGTERM"@ {
        Ok(15u32)
    } else if s == "SIGCONT"@ {
        Ok(18u32)
    } else if s == "SIGSTOP"@ {
        Ok(19u32)
    } else {
        Err(ErrKind::BadSignalName)
    }
}

/// Resolve a signal name from a kill command to its number.
pub fn parse_signal(s: &str) -> (r: Result<u32, ErrKind>)
    ensures
        r == spec_parse_signal(s@),
{
    if str_eq(s, "SIGHUP") {
        Ok(1)
    } else if str_eq(s, "SIGINT") {
        Ok(2)
    } else if str_eq(s, "SIGQUIT") {
        Ok(3)
    } else if str_eq(s, "SIGKILL") {
        Ok(9)
    } else if str_eq(s, "SIGUSR1") {
        Ok(10)
    } else if str_eq(s, "SIGUSR2") {
        Ok(12)
    } else if str_eq(s, "SIGTERM") {
        Ok(15)
    } else if str_eq(s, "SIGCONT") {
        Ok(18)
    } else if str_eq(s, "SIGSTOP") {
        Ok(19)
    } else {
        Err(ErrKind::BadSignalName)
    }
}

/// The wire form of a control request: the command word, then each
/// argument after a single space.
pub open spec fn spec_encode_command(c: Command) -> Seq<char> {
    match c {
        Command::List => "list"@,
        Command::Logs => "logs"@,
        Command::Status(n) => "status "@ + n@,
        Command::Start(n) => "start "@ + n@,
        Command::Stop(n) => "stop "@ + n@,
        Command::Monitor(n) => "monitor "@ + n@,
        Command::Forget(n) => "forget "@ + n@,
        Command::Kill(n, sig) => "kill "@ + n@ + " "@ + sig@,
    }
}

/// A command whose arguments the wire form can carry: none of them may
/// hold a space, since a space is the argument separator.
pub open spec fn spec_command_wf(c: Command) -> bool {
    match c {
        Command::List => true,
        Command::Logs => true,
        Command::Status(n) => !n@.contains(' '),
        Command::Start(n) => !n@.contains(' '),
        Command::Stop(n) => !n@.contains(' '),
        Command::Monitor(n) => !n@.contains(' '),
        Command::Forget(n) => !n@.contains(' '),
        Command::Kill(n, sig) => !n@.contains(' ') && !sig@.contains(' '),
    }
}

/// The lines the parser accepts: a command word alone for `list` and
/// `logs`, a word and one space-free argument for the commands on one
/// service, and `kill` with a name and a signal name.
pub open spec fn spec_parse_ok(s: Seq<char>) -> bool {
    let h = spec_split_space(s).0;
    let t = spec_split_space(s).1;
    ||| ((h == "list"@ || h == "logs"@) && t is None)
    ||| ((h == "status"@ || h == "start"@ || h == "stop"@ || h == "monitor"@ || h == "forget"@)
        && (t matches Some(tt) && !tt.contains(' ')))
    ||| (h == "kill"@ && (t matches Some(tt) && (spec_split_space(tt).1 matches Some(sig)
        && !sig.contains(' '))))
}

/// Encode a control request for the wire.
pub fn encode_command(c: &Command) -> (r: String)
    ensures
        r@ == spec_encode_command(*c),
{
    match c {
        Command::List => "list".to_owned(),
        Command::Logs => "logs".to_owned(),
        Command::Status(n) => {
            let mut s = "status ".to_owned();
            s.append(n.as_str());
            s
        },
        Command::Start(n) => {
            let mut s = "start ".to_owned();
            s.append(n.as_str());
            s
        },
        Command::Stop(n) => {
            let mut s = "stop ".to_owned();
            s.append(n.as_str());
            s
        },
        Command::Monitor(n) => {
            let mut s = "monitor ".to_owned();
            s.append(n.as_str());
            s
        },
        Command::Forget(n) => {
            let mut s = "forget ".to_owned();
            s.append(n.as_str());
            s
        },
        Command::Kill(n, sig) => {
            let mut s = "kill ".to_owned();
            s.append(n.as_str());
            s.append(" ");
            s.append(sig.as_str());
            s
        },
    }
}

/// Decode one request line. Exactly the lines of `spec_parse_ok` are
/// accepted, every other line is a `ProtocolError`, and an accepted line
/// is precisely the encoding of the command handed back.
pub fn parse_command(line: &str) -> (r: Result<Command, ErrKind>)
    ensures
        r is Ok <==> spec_parse_ok(line@),
        r matches Ok(c) ==> spec_encode_command(c) == line@ && spec_command_wf(c),
        r is Err ==> r == Err::<Command, ErrKind>(ErrKind::ProtocolError),
{
    proof {
        reveal_strlit("list");
        reveal_strlit("logs");
        reveal_strlit("status");
        reveal_strlit("status ");
        reveal_strlit("start");
        reveal_strlit("start ");
        reveal_strlit("stop");
        reveal_strlit("stop ");
        reveal_strlit("monitor");
        reveal_strlit("monitor ");
        reveal_strlit("forget");
        reveal_strlit("forget ");
        reveal_strlit("kill");
        reveal_strlit("kill ");
        reveal_strlit(" ");
        lemma_split_space_inverse(line@);
    }
    let (head, rest) = split_space(line);
    match rest {
        None => {
            if str_eq(head, "list") {
                Ok(Command::List)
            } else if str_eq(head, "logs") {
                Ok(Command::Logs)
            } else {
                Err(ErrKind::ProtocolError)
            }
        },
        Some(tail) => {
            if str_eq(head, "kill") {
                proof {
                    lemma_split_space_inverse(tail@);
                }
                let (name, sigrest) = split_space(tail);
                match sigrest {
                    Some(sig) => {
                        if !contains_space(sig) {
                            proof {
                                assert("kill "@ =~= "kill"@ + seq![' ']);
                                assert(" "@ =~= seq![' ']);
                                assert(("kill "@ + name@ + " "@ + sig@) =~= "kill"@ + seq![' ']
                                    + (name@ + seq![' '] + sig@));
                            }
                            Ok(Command::Kill(name.to_owned(), sig.to_owned()))
                        } else {
                            Err(ErrKind::ProtocolError)
                        }
                    },
                    None => Err(ErrKind::ProtocolError),
                }
            } else if contains_space(tail) {
                Err(ErrKind::ProtocolError)
            } else if str_eq(head, "status") {
                proof {
                    assert("status "@ =~= "status"@ + seq![' ']);
                }
                Ok(Command::Status(tail.to_owned()))
            } else if str_eq(head, "start") {
                proof {
                    assert("start "@ =~= "start"@ + seq![' ']);
                }
                Ok(Command::Start(tail.to_owned()))
            } else if str_eq(head, "stop") {
                proof {
                    assert("stop "@ =~= "stop"@ + seq![' ']);
                }
                Ok(Command::Stop(tail.to_owned()))
            } else if str_eq(head, "monitor") {
                proof {
                    assert("monitor "@ =~= "monitor"@ + seq![' ']);
                }
                Ok(Command::Monitor(tail.to_owned()))
            } else if str_eq(head, "forget") {
                proof {
                    assert("forget "@ =~= "forget"@ + seq![' ']);
                }
                Ok(Command::Forget(tail.to_owned()))
            } else {
                Err(ErrKind::ProtocolError)
            }
        },
    }
}

/// Every command the wire form can carry is accepted by the parser: the
/// two ends of the control socket agree on the protocol.
pub proof fn lemma_parser_accepts_encodings(c: Command)
    requires
        spec_command_wf(c),
    ensures
        spec_parse_ok(spec_encode_command(c)),
{
    reveal_strlit("list");
    reveal_strlit("logs");
    reveal_strlit("status");
    reveal_strlit("status ");
    reveal_strlit("start");
    reveal_strlit("start ");
    reveal_strlit("stop");
    reveal_strlit("stop ");
    reveal_strlit("monitor");
    reveal_strlit("monitor ");
    reveal_strlit("forget");
    reveal_strlit("forget ");
    reveal_strlit("kill");
    reveal_strlit("kill ");
    match c {
        Command::List => {
            lemma_split_space_whole("list"@);
        },
        Command::Logs => {
            lemma_split_space_whole("logs"@);
        },
        Command::Status(n) => {
            assert("status "@ + n@ =~= "status"@ + seq![' '] + n@);
            lemma_no_space_in_verb("status"@);
            lemma_split_space_concat("status"@, n@);
        },
        Command::Start(n) => {
            assert("start "@ + n@ =~= "start"@ + seq![' '] + n@);
            lemma_no_space_in_verb("start"@);
            lemma_split_space_concat("start"@, n@);
        },
        Command::Stop(n) => {
            assert("stop "@ + n@ =~= "stop"@ + seq![' '] + n@);
            lemma_no_space_in_verb("stop"@);
            lemma_split_space_concat("stop"@, n@);
        },
        Command::Monitor(n) => {
            assert("monitor "@ + n@ =~= "monitor"@ + seq![' '] + n@);
            lemma_no_space_in_verb("monitor"@);
            lemma_split_space_concat("monitor"@, n@);
        },
        Command::Forget(n) => {
            assert("forget "@ + n@ =~= "forget"@ + seq![' '] + n@);
            lemma_no_space_in_verb("forget"@);
            lemma_split_space_concat("forget"@, n@);
        },
        Command::Kill(n, sig) => {
            assert("kill "@ + n@ + " "@ + sig@ =~= "kill"@ + seq![' '] + (n@ + seq![' ']
                + sig@)) by {
                reveal_strlit(" ");
            }
            lemma_no_space_in_verb("kill"@);
            lemma_split_space_concat("kill"@, n@ + seq![' '] + sig@);
            lemma_split_space_concat(n@, sig@);
        },
    }
}

/// A revealed command word holds no space.
proof fn lemma_no_space_in_verb(h: Seq<char>)
    requires
        forall|j: int| 0 <= j < h.len() ==> h[j] != ' ',
    ensures
        !h.contains(' '),
{
}

/// The name a lifecycle state is reported under.
pub open spec fn spec_state_name(st: State) -> Seq<char> {
    match st {
        State::Blocked => "Blocked"@,
        State::Spawning => "Spawning"@,
        State::Running => "Running"@,
        State::Success => "Success"@,
        State::Error => "Error"@,
        State::Stopped => "Stopped"@,
        State::Killed => "Killed"@,
    }
}

/// Name a lifecycle state for a `list` or `status` response.
pub fn state_name(st: State) -> (r: &'static str)
    ensures
        r@ == spec_state_name(st),
{
    match st {
        State::Blocked => "Blocked",
        State::Spawning => "Spawning",
        State::Running => "Running",
        State::Success => "Success",
        State::Error => "Error",
        State::Stopped => "Stopped",
        State::Killed => "Killed",
    }
}

/// The name an error kind is reported under.
pub open spec fn spec_err_name(k: ErrKind) -> Seq<char> {
    match k {
        ErrKind::NotFound => "NotFound"@,
        ErrKind::AlreadyRunning => "AlreadyRunning"@,
        ErrKind::StillRunning => "StillRunning"@,
        ErrKind::DependencyCycle => "DependencyCycle"@,
        ErrKind::LaunchFailed => "LaunchFailed"@,
        ErrKind::BadSignalName => "BadSignalName"@,
        ErrKind::ProtocolError => "ProtocolError"@,
    }
}

/// Name an error kind for an error response.
pub fn err_name(k: ErrKind) -> (r: &'static str)
    ensures
        r@ == spec_err_name(k),
{
    match k {
        ErrKind::NotFound => "NotFound",
        ErrKind::AlreadyRunning => "AlreadyRunning",
        ErrKind::StillRunning => "StillRunning",
        ErrKind::DependencyCycle => "DependencyCycle",
        ErrKind::LaunchFailed => "LaunchFailed",
        ErrKind::BadSignalName => "BadSignalName",
        ErrKind::ProtocolError => "ProtocolError",
    }
}

} // verus!
