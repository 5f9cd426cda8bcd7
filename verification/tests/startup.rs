use echo_server::startup::{listen_address, startup, usage_line, Startup};

fn args(words: &[&str]) -> Vec<String> {
    words.iter().map(|word| word.to_string()).collect()
}

fn usage_of(words: &[&str]) -> String {
    match startup(&args(words)) {
        Startup::Usage(line) => line,
        Startup::Listen(address) => panic!("expected the usage line, got the address {}", address),
    }
}

#[test]
fn usage_line_names_the_program() {
    assert_eq!(usage_line("echo"), "Usage: echo [ipv4 address] [port number]");
    assert_eq!(usage_line("./target/echo"), "Usage: ./target/echo [ipv4 address] [port number]");
    assert_eq!(usage_line(""), "Usage:  [ipv4 address] [port number]");
}

#[test]
fn listen_address_joins_host_and_port() {
    assert_eq!(listen_address("127.0.0.1", "8080"), "127.0.0.1:8080");
    assert_eq!(listen_address("localhost", "7"), "localhost:7");
    assert_eq!(listen_address("", ""), ":");
}

#[test]
fn no_argument_gives_the_usage_line() {
    assert_eq!(usage_of(&["echo"]), "Usage: echo [ipv4 address] [port number]");
}

#[test]
fn one_argument_gives_the_usage_line() {
    assert_eq!(usage_of(&["echo", "127.0.0.1"]), "Usage: echo [ipv4 address] [port number]");
}

#[test]
fn three_or_more_arguments_give_the_usage_line() {
    assert_eq!(
        usage_of(&["echo", "127.0.0.1", "8080", "extra"]),
        "Usage: echo [ipv4 address] [port number]"
    );
    assert_eq!(
        usage_of(&["srv", "a", "b", "c", "d", "e"]),
        "Usage: srv [ipv4 address] [port number]"
    );
}

#[test]
fn two_arguments_give_the_address() {
    match startup(&args(&["echo", "127.0.0.1", "8080"])) {
        Startup::Listen(address) => assert_eq!(address, "127.0.0.1:8080"),
        Startup::Usage(line) => panic!("expected an address, got {}", line),
    }
}

#[test]
fn the_address_is_not_checked_at_startup() {
    match startup(&args(&["echo", "not an address", "port"])) {
        Startup::Listen(address) => assert_eq!(address, "not an address:port"),
        Startup::Usage(line) => panic!("expected an address, got {}", line),
    }
}
