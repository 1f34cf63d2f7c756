use socket_demo::dispatch::Action;
use socket_demo::dispatch::Command;
use socket_demo::dispatch::dispatch;
use socket_demo::dispatch::error_line;

fn args_of(words: &[&str]) -> Vec<String> {
    words.iter().map(|w| w.to_string()).collect()
}

#[test]
fn too_few_arguments_is_usage() {
    assert_eq!(dispatch(&args_of(&["prog"])), Action::Usage);
    assert_eq!(dispatch(&args_of(&["prog", "client"])), Action::Usage);
    assert_eq!(dispatch(&args_of(&[])), Action::Usage);
    let line = error_line(&Action::Usage);
    assert_eq!(line.as_deref(), Some("Provide a Client or Server!"));
}

#[test]
fn valid_selections_run() {
    assert_eq!(
        dispatch(&args_of(&["prog", "client", "tcp"])),
        Action::Run(Command::TcpClient)
    );
    assert_eq!(
        dispatch(&args_of(&["prog", "client", "udp"])),
        Action::Run(Command::UdpClient)
    );
    assert_eq!(
        dispatch(&args_of(&["prog", "server", "tcp"])),
        Action::Run(Command::TcpServer)
    );
    assert_eq!(
        dispatch(&args_of(&["prog", "server", "udp"])),
        Action::Run(Command::UdpServer)
    );
    assert_eq!(error_line(&Action::Run(Command::TcpServer)), None);
}

#[test]
fn unknown_transport_for_client() {
    let d = dispatch(&args_of(&["prog", "client", "sctp"]));
    assert_eq!(d, Action::UnknownClient);
    assert_eq!(error_line(&d).as_deref(), Some("Invalid client type"));
}

#[test]
fn unknown_transport_for_server() {
    let d = dispatch(&args_of(&["prog", "server", "sctp"]));
    assert_eq!(d, Action::UnknownServer);
    assert_eq!(error_line(&d).as_deref(), Some("Invalid server type"));
}

#[test]
fn unknown_role() {
    let d = dispatch(&args_of(&["prog", "watcher", "tcp"]));
    assert_eq!(d, Action::UnknownRole);
    assert_eq!(error_line(&d).as_deref(), Some("Invalid argument"));
}

#[test]
fn extra_arguments_are_ignored() {
    assert_eq!(
        dispatch(&args_of(&["prog", "client", "tcp", "extra"])),
        Action::Run(Command::TcpClient)
    );
}
