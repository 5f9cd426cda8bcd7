//! What the command line asks for: to listen on an address, or to be told how
//! the program is invoked.

use vstd::prelude::*;
use vstd::string::StringExecFns;

verus! {

/// What to do at startup.
#[derive(Debug)]
pub enum Startup {
    /// Print this line and leave with success, binding nothing.
    Usage(String),
    /// Bind this address and serve.
    Listen(String),
}

/// The view of a `Startup`.
pub enum Plan {
    Usage(Seq<char>),
    Listen(Seq<char>),
}

impl View for Startup {
    type V = Plan;

    open spec fn view(&self) -> Plan {
        match self {
            Startup::Usage(line) => Plan::Usage(line@),
            Startup::Listen(address) => Plan::Listen(address@),
        }
    }
}

/// The usage line for a program invoked as `program`.
pub open spec fn usage_text(program: Seq<char>) -> Seq<char> {
    "Usage: "@ + program + " [ipv4 address] [port number]"@
}

/// The address to bind: host and port with a colon between them.
pub open spec fn address_text(host: Seq<char>, port: Seq<char>) -> Seq<char> {
    host + ":"@ + port
}

/// The plan for a command line: the program's name, then its arguments. With
/// exactly two arguments, a host and a port, the plan is to listen; with any
/// other number it is the usage line.
pub open spec fn plan_for(args: Seq<Seq<char>>) -> Plan {
    if args.len() == 3 {
        Plan::Listen(address_text(args[1], args[2]))
    } else {
        Plan::Usage(usage_text(args[0]))
    }
}

/// Builds the usage line for a program invoked as `program`.
pub fn usage_line(program: &str) -> (line: String)
    ensures
        line@ == usage_text(program@),
{
    let mut line = String::new();
    line.append("Usage: ");
    line.append(program);
    line.append(" [ipv4 address] [port number]");
    line
}

/// Builds the address to bind from a host and a port.
pub fn listen_address(host: &str, port: &str) -> (address: String)
    ensures
        address@ == address_text(host@, port@),
{
    let mut address = String::new();
    address.append(host);
    address.append(":");
    address.append(port);
    address
}

/// Decides what to do from the command line. `args` is the whole of it, so it
/// starts with the program's name.
pub fn startup(args: &Vec<String>) -> (plan: Startup)
    requires
        args@.len() >= 1,
    ensures
        plan@ == plan_for(args.deep_view()),
{
    if args.len() == 3 {
        Startup::Listen(listen_address(args[1].as_str(), args[2].as_str()))
    } else {
        Startup::Usage(usage_line(args[0].as_str()))
    }
}

} // verus!
