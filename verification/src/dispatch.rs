//! Argument dispatch: which of the four routines a command line selects,
//! and the exact line printed when it selects none.

use vstd::prelude::*;
use vstd::string::StringExecFns;

verus! {

/// One of the four leaf routines.
#[derive(Clone, Copy, Debug, PartialEq, Eq, Structural)]
pub enum Command {
    TcpClient,
    UdpClient,
    TcpServer,
    UdpServer,
}

/// The decision taken on a command line: run a routine, or print the usage
/// line or one of the error lines to standard error. Every decision other
/// than `Run` still exits with status zero.
#[derive(Clone, Copy, Debug, PartialEq, Eq, Structural)]
pub enum Action {
    Run(Command),
    Usage,
    UnknownClient,
    UnknownServer,
    UnknownRole,
}

/// The views of a sequence of argument strings.
pub open spec fn views_of(args: Seq<String>) -> Seq<Seq<char>> {
    Seq::new(args.len(), |i: int| args[i]@)
}

/// The decision taken on the given argument views: `args[0]` is the
/// program name, `args[1]` the role, `args[2]` the transport.
pub open spec fn dispatch_spec(args: Seq<Seq<char>>) -> Action {
    if args.len() < 3 {
        Action::Usage
    } else if args[1] == "client"@ {
        if args[2] == "tcp"@ {
            Action::Run(Command::TcpClient)
        } else if args[2] == "udp"@ {
            Action::Run(Command::UdpClient)
        } else {
            Action::UnknownClient
        }
    } else if args[1] == "server"@ {
        if args[2] == "tcp"@ {
            Action::Run(Command::TcpServer)
        } else if args[2] == "udp"@ {
            Action::Run(Command::UdpServer)
        } else {
            Action::UnknownServer
        }
    } else {
        Action::UnknownRole
    }
}

/// True when the string holds exactly the given text.
fn is_str(s: &String, t: &str) -> (r: bool)
    ensures
        r == (s@ == t@),
{
    let other = t.to_owned();
    s.eq(&other)
}

/// Decides which routine the argument strings select.
pub fn dispatch(args: &Vec<String>) -> (d: Action)
    ensures
        d == dispatch_spec(views_of(args@)),
{
    proof {
        assert(views_of(args@).len() == args@.len());
    }
    if args.len() < 3 {
        return Action::Usage;
    }
    let role = &args[1];
    let transport = &args[2];
    proof {
        assert(views_of(args@)[1] == args@[1]@);
        assert(views_of(args@)[2] == args@[2]@);
    }
    if is_str(role, "client") {
        if is_str(transport, "tcp") {
            Action::Run(Command::TcpClient)
        } else if is_str(transport, "udp") {
            Action::Run(Command::UdpClient)
        } else {
            Action::UnknownClient
        }
    } else if is_str(role, "server") {
        if is_str(transport, "tcp") {
            Action::Run(Command::TcpServer)
        } else if is_str(transport, "udp") {
            Action::Run(Command::UdpServer)
        } else {
            Action::UnknownServer
        }
    } else {
        Action::UnknownRole
    }
}

/// The line printed to standard error for each decision that runs no
/// routine, and `None` for a decision that runs one.
pub fn error_line(d: &Action) -> (r: Option<String>)
    ensures
        r is Some <==> !(*d is Run),
        *d == Action::Usage ==> (r matches Some(s) && s@ == "Provide a Client or Server!"@),
        *d == Action::UnknownClient ==> (r matches Some(s) && s@ == "Invalid client type"@),
        *d == Action::UnknownServer ==> (r matches Some(s) && s@ == "Invalid server type"@),
        *d == Action::UnknownRole ==> (r matches Some(s) && s@ == "Invalid argument"@),
{
    match d {
        Action::Run(_) => None,
        Action::Usage => Some(String::from_str("Provide a Client or Server!")),
        Action::UnknownClient => Some(String::from_str("Invalid client type")),
        Action::UnknownServer => Some(String::from_str("Invalid server type")),
        Action::UnknownRole => Some(String::from_str("Invalid argument")),
    }
}

} // verus!
