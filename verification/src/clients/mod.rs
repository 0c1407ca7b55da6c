//! The command-line clients that can carry out a request, and what all of
//! them have in common.
//!
//! A client never runs anything itself. It describes the command to start as
//! plain values, and reads the output of the finished process; starting the
//! process is left to the caller.

pub mod curl;
pub mod powershell;
pub mod resolve;
pub mod wget;

use crate::clients::powershell::{
    closing_quote, escape_quotes, idle_millis, lemma_script_quotes_url, quoted_value,
    request_seconds, script_head, script_tail,
};
use crate::duration::{duration_secs, duration_subsec_nanos, is_positive};
use crate::error::{
    CommandFailedOutput, Error, ErrorView, ExitStatus, IoError, timed_out_view,
};
use crate::request::Response;
use crate::text::{decimal_seconds, lemma_only_zero_is_written_as_zero, push_decimal_seconds};
use std::time::Duration;
use vstd::prelude::*;
use vstd::string::StringExecFns;

verus! {

/// The kind of system the library runs on, as far as the clients differ.
#[derive(Clone, Copy, Debug, PartialEq, Eq, Structural)]
pub enum Platform {
    /// Windows.
    Windows,
    /// A Unix system.
    Unix,
    /// Anything else.
    Other,
}

/// What becomes of the standard streams of a process that is started.
#[derive(Clone, Copy, Debug, PartialEq, Eq, Structural)]
pub enum Stdio {
    /// All three streams are connected to the null device.
    Null,
    /// Standard output and standard error are captured in full.
    Piped,
}

/// A process to start: the program, looked up on the search path, and its
/// arguments, each of which reaches the program as one argument, unchanged.
/// No shell is involved.
#[derive(Clone, Debug, PartialEq, Eq)]
pub struct Command {
    /// The name of the program.
    pub program: String,
    /// The arguments, in order.
    pub args: Vec<String>,
    /// What becomes of the standard streams.
    pub stdio: Stdio,
}

/// What a [`Command`] is to the contracts.
pub struct CommandView {
    pub program: Seq<char>,
    pub args: Seq<Seq<char>>,
    pub stdio: Stdio,
}

impl View for Command {
    type V = CommandView;

    open spec fn view(&self) -> CommandView {
        CommandView { program: self.program@, args: self.args.deep_view(), stdio: self.stdio }
    }
}

/// What a finished process left behind.
#[derive(Clone, Debug, PartialEq, Eq)]
pub struct Output {
    /// How the process ended.
    pub status: ExitStatus,
    /// Everything it wrote to its standard output.
    pub stdout: Vec<u8>,
    /// Everything it wrote to its standard error.
    pub stderr: Vec<u8>,
}

/// What an [`Output`] is to the contracts.
pub struct OutputView {
    pub status: ExitStatus,
    pub stdout: Seq<u8>,
    pub stderr: Seq<u8>,
}

impl View for Output {
    type V = OutputView;

    open spec fn view(&self) -> OutputView {
        OutputView { status: self.status, stdout: self.stdout@, stderr: self.stderr@ }
    }
}

/// What the end of a request is to the contracts: the body, or the error.
pub open spec fn outcome_view(r: Result<Response, Error>) -> Result<Seq<u8>, ErrorView> {
    match r {
        Ok(response) => Ok(response@),
        Err(error) => Err(error@),
    }
}

/// Whether an attempt to start a client shows that the client exists: every
/// attempt does, except one that failed because the program was not found.
pub open spec fn probe_found(attempt: Result<ExitStatus, IoError>) -> bool {
    !(attempt matches Err(e) && e@.kind is NotFound)
}

/// The time limit handed to a client, in seconds: the timeout as a decimal
/// number, and `0`, which every client reads as "no limit", where there is
/// none.
pub open spec fn seconds_argument(timeout: Option<Duration>) -> Seq<char> {
    match timeout {
        Some(d) => decimal_seconds(duration_secs(d) as nat, duration_subsec_nanos(d) as nat),
        None => decimal_seconds(0, 0),
    }
}

/// How a client that reports timeouts by a dedicated exit code ended:
/// success gives the body; `timeout_code` gives a timeout; any other end
/// gives the status and both streams, untouched.
pub open spec fn outcome_by_exit_code(output: OutputView, timeout_code: i32) -> Result<
    Seq<u8>,
    ErrorView,
> {
    if output.status.is_success() {
        Ok(output.stdout)
    } else if output.status.has_code(timeout_code) {
        Err(ErrorView::IoError(timed_out_view()))
    } else {
        Err(
            ErrorView::CommandFailed {
                status: output.status,
                stdout: output.stdout,
                stderr: output.stderr,
            },
        )
    }
}

/// What every client offers: a way to find out whether it is installed, and
/// a way to fetch a URL within an optional time limit.
pub trait SystemHttpClientInterface: Sized {
    /// The name of the client's executable.
    spec fn command_name(platform: Platform) -> Seq<char>;

    /// The arguments with which the client is started to see whether it
    /// exists.
    spec fn probe_arguments() -> Seq<Seq<char>>;

    /// The arguments with which the client fetches `url`.
    spec fn arguments(url: Seq<char>, timeout: Option<Duration>) -> Seq<Seq<char>>;

    /// What the client's output means.
    spec fn outcome(output: OutputView, platform: Platform) -> Result<Seq<u8>, ErrorView>;

    /// The name of the client's executable.
    fn command(platform: Platform) -> (name: &'static str)
        ensures
            name@ == Self::command_name(platform),
    ;

    /// The harmless command that shows whether the client exists: the
    /// client with an argument that makes it exit at once. It is started
    /// with all streams connected to the null device.
    fn installed_spawn(platform: Platform) -> (probe: Command)
        ensures
            probe@ == (CommandView {
                program: Self::command_name(platform),
                args: Self::probe_arguments(),
                stdio: Stdio::Null,
            }),
    ;

    /// Whether the client is installed, given how the attempt to start
    /// [`installed_spawn`](Self::installed_spawn) went. Only "not found"
    /// counts as absence: a client that fails to start for another reason is
    /// reported as usable and fails when it is called.
    fn installed(attempt: &Result<ExitStatus, IoError>) -> (usable: bool)
        ensures
            usable == probe_found(*attempt),
    {
        match attempt {
            Err(e) => !e.is_not_found(),
            Ok(_) => true,
        }
    }

    /// The command that fetches `url`. No shell reads it, and the URL stands
    /// in it as data only.
    fn get(&self, url: &str, timeout: Option<Duration>, platform: Platform) -> (fetch: Command)
        ensures
            fetch@ == (CommandView {
                program: Self::command_name(platform),
                args: Self::arguments(url@, timeout),
                stdio: Stdio::Piped,
            }),
    ;

    /// The response or the error that the output of a finished
    /// [`get`](Self::get) command amounts to.
    fn response(&self, output: Output, platform: Platform) -> (r: Result<Response, Error>)
        ensures
            outcome_view(r) == Self::outcome(output@, platform),
    ;
}

/// Appends the time limit in seconds to `out`.
pub(crate) fn push_seconds_argument(out: &mut String, timeout: Option<Duration>)
    ensures
        final(out)@ == old(out)@ + seconds_argument(timeout),
{
    match timeout {
        Some(d) => push_decimal_seconds(out, d.as_secs(), d.subsec_nanos()),
        None => push_decimal_seconds(out, 0, 0),
    }
}

/// Reads the output of a client that reports timeouts by a dedicated exit
/// code.
pub(crate) fn response_by_exit_code(output: Output, timeout_code: i32) -> (r: Result<
    Response,
    Error,
>)
    ensures
        outcome_view(r) == outcome_by_exit_code(output@, timeout_code),
{
    if output.status.success() {
        Ok(Response { body: output.stdout })
    } else if output.status.exited_with(timeout_code) {
        Err(Error::IoError(IoError::timed_out()))
    } else {
        Err(
            Error::CommandFailed {
                status: output.status,
                stdout: CommandFailedOutput(output.stdout),
                stderr: CommandFailedOutput(output.stderr),
            },
        )
    }
}

/// The command that starts `program` only to see whether it exists.
pub(crate) fn probe_command(program: &str, args: Vec<String>) -> (probe: Command)
    ensures
        probe@ == (CommandView {
            program: program@,
            args: args.deep_view(),
            stdio: Stdio::Null,
        }),
{
    Command { program: String::from_str(program), args, stdio: Stdio::Null }
}

/// The clients that the library can use.
#[derive(Clone, Copy, Debug, PartialEq, Eq, Structural)]
#[non_exhaustive]
#[allow(non_camel_case_types)]
pub enum SystemHttpClient {
    /// `wget`
    wget,
    /// `curl`
    cURL,
    /// PowerShell with `Invoke-WebRequest`
    PowerShell,
}

/// The clients in order of preference: `wget` first everywhere; then
/// PowerShell before `curl` on Windows, and `curl` before PowerShell
/// elsewhere.
pub open spec fn preference(platform: Platform) -> Seq<SystemHttpClient> {
    match platform {
        Platform::Windows => seq![
            SystemHttpClient::wget,
            SystemHttpClient::PowerShell,
            SystemHttpClient::cURL,
        ],
        _ => seq![SystemHttpClient::wget, SystemHttpClient::cURL, SystemHttpClient::PowerShell],
    }
}

/// The place of `client` in the order of preference, counted from zero.
pub open spec fn place(platform: Platform, client: SystemHttpClient) -> int {
    match (platform, client) {
        (_, SystemHttpClient::wget) => 0,
        (Platform::Windows, SystemHttpClient::PowerShell) => 1,
        (Platform::Windows, SystemHttpClient::cURL) => 2,
        (_, SystemHttpClient::cURL) => 1,
        (_, SystemHttpClient::PowerShell) => 2,
    }
}

/// The client that is tried when `client` is not installed, if one is left.
pub open spec fn following(platform: Platform, client: SystemHttpClient) -> Option<
    SystemHttpClient,
> {
    if place(platform, client) + 1 < preference(platform).len() {
        Some(preference(platform)[place(platform, client) + 1])
    } else {
        None
    }
}

/// Every client has its place in the order of preference, and no two share
/// one.
pub proof fn lemma_place_in_preference(platform: Platform, client: SystemHttpClient)
    ensures
        0 <= place(platform, client) < preference(platform).len(),
        preference(platform)[place(platform, client)] == client,
        forall|i: int|
            0 <= i < preference(platform).len() && preference(platform)[i] == client ==> i
                == place(platform, client),
{
}

impl SystemHttpClient {
    /// The name under which the client is known to people.
    pub open spec fn display_name(self) -> Seq<char> {
        match self {
            SystemHttpClient::wget => "wget"@,
            SystemHttpClient::cURL => "cURL"@,
            SystemHttpClient::PowerShell => "PowerShell"@,
        }
    }

    /// The name of the client's executable.
    pub open spec fn command_name(self, platform: Platform) -> Seq<char> {
        match self {
            SystemHttpClient::wget => wget::wget::command_name(platform),
            SystemHttpClient::cURL => curl::cURL::command_name(platform),
            SystemHttpClient::PowerShell => powershell::PowerShell::command_name(platform),
        }
    }

    /// The arguments with which the client is started to see whether it
    /// exists.
    pub open spec fn probe_arguments(self) -> Seq<Seq<char>> {
        match self {
            SystemHttpClient::wget => wget::wget::probe_arguments(),
            SystemHttpClient::cURL => curl::cURL::probe_arguments(),
            SystemHttpClient::PowerShell => powershell::PowerShell::probe_arguments(),
        }
    }

    /// The arguments with which the client fetches `url`.
    pub open spec fn arguments(self, url: Seq<char>, timeout: Option<Duration>) -> Seq<
        Seq<char>,
    > {
        match self {
            SystemHttpClient::wget => wget::wget::arguments(url, timeout),
            SystemHttpClient::cURL => curl::cURL::arguments(url, timeout),
            SystemHttpClient::PowerShell => powershell::PowerShell::arguments(url, timeout),
        }
    }

    /// What the client's output means.
    pub open spec fn outcome(self, output: OutputView, platform: Platform) -> Result<
        Seq<u8>,
        ErrorView,
    > {
        match self {
            SystemHttpClient::wget => wget::wget::outcome(output, platform),
            SystemHttpClient::cURL => curl::cURL::outcome(output, platform),
            SystemHttpClient::PowerShell => powershell::PowerShell::outcome(output, platform),
        }
    }

    /// The command that fetches `url` with this client.
    pub open spec fn fetch_command(
        self,
        url: Seq<char>,
        timeout: Option<Duration>,
        platform: Platform,
    ) -> CommandView {
        CommandView {
            program: self.command_name(platform),
            args: self.arguments(url, timeout),
            stdio: Stdio::Piped,
        }
    }

    /// The name under which the client is known to people.
    pub fn name(self) -> (name: &'static str)
        ensures
            name@ == self.display_name(),
    {
        match self {
            SystemHttpClient::wget => "wget",
            SystemHttpClient::cURL => "cURL",
            SystemHttpClient::PowerShell => "PowerShell",
        }
    }

    /// The client at place `rank` in the order of preference, if there is
    /// one.
    pub fn preferred(platform: Platform, rank: usize) -> (client: Option<SystemHttpClient>)
        ensures
            client == if rank < preference(platform).len() {
                Some(preference(platform)[rank as int])
            } else {
                None
            },
    {
        let windows = match platform {
            Platform::Windows => true,
            _ => false,
        };
        if rank == 0 {
            Some(SystemHttpClient::wget)
        } else if rank == 1 {
            Some(if windows { SystemHttpClient::PowerShell } else { SystemHttpClient::cURL })
        } else if rank == 2 {
            Some(if windows { SystemHttpClient::cURL } else { SystemHttpClient::PowerShell })
        } else {
            None
        }
    }

    /// The client that is tried first.
    pub fn first(platform: Platform) -> (client: SystemHttpClient)
        ensures
            client == preference(platform)[0],
    {
        SystemHttpClient::wget
    }

    /// The client that is tried when this one is not installed, if one is
    /// left.
    pub fn next(self, platform: Platform) -> (client: Option<SystemHttpClient>)
        ensures
            client == following(platform, self),
    {
        let windows = match platform {
            Platform::Windows => true,
            _ => false,
        };
        match self {
            SystemHttpClient::wget => Some(
                if windows {
                    SystemHttpClient::PowerShell
                } else {
                    SystemHttpClient::cURL
                },
            ),
            SystemHttpClient::PowerShell => if windows {
                Some(SystemHttpClient::cURL)
            } else {
                None
            },
            SystemHttpClient::cURL => if windows {
                None
            } else {
                Some(SystemHttpClient::PowerShell)
            },
        }
    }

    /// The harmless command that shows whether the client exists.
    pub fn installed_spawn(self, platform: Platform) -> (probe: Command)
        ensures
            probe@ == (CommandView {
                program: self.command_name(platform),
                args: self.probe_arguments(),
                stdio: Stdio::Null,
            }),
    {
        match self {
            SystemHttpClient::wget => wget::wget::installed_spawn(platform),
            SystemHttpClient::cURL => curl::cURL::installed_spawn(platform),
            SystemHttpClient::PowerShell => powershell::PowerShell::installed_spawn(platform),
        }
    }

    /// Whether the client is installed, given how the attempt to start its
    /// probe went.
    pub fn installed(self, attempt: &Result<ExitStatus, IoError>) -> (usable: bool)
        ensures
            usable == probe_found(*attempt),
    {
        match self {
            SystemHttpClient::wget => wget::wget::installed(attempt),
            SystemHttpClient::cURL => curl::cURL::installed(attempt),
            SystemHttpClient::PowerShell => powershell::PowerShell::installed(attempt),
        }
    }

    /// The command that fetches `url` with this client. Whatever the URL
    /// holds, it reaches the client as data: as one argument of its own, or,
    /// for PowerShell, inside a quoted literal of the script.
    pub fn get(&self, url: &str, timeout: Option<Duration>, platform: Platform) -> (fetch:
        Command)
        ensures
            fetch@ == self.fetch_command(url@, timeout, platform),
    {
        match self {
            SystemHttpClient::wget => wget::wget.get(url, timeout, platform),
            SystemHttpClient::cURL => curl::cURL.get(url, timeout, platform),
            SystemHttpClient::PowerShell => powershell::PowerShell.get(url, timeout, platform),
        }
    }

    /// The response or the error that the output of a finished
    /// [`get`](Self::get) command amounts to.
    pub fn response(&self, output: Output, platform: Platform) -> (r: Result<Response, Error>)
        ensures
            outcome_view(r) == self.outcome(output@, platform),
    {
        match self {
            SystemHttpClient::wget => wget::wget.response(output, platform),
            SystemHttpClient::cURL => curl::cURL.response(output, platform),
            SystemHttpClient::PowerShell => powershell::PowerShell.response(output, platform),
        }
    }
}

/// Whatever characters a URL holds, it reaches the client as data and as
/// nothing else. `wget` and `curl` get it as their last argument, unchanged,
/// and their other arguments are the same for every URL. PowerShell gets it
/// inside a quoted literal of the script: the literal is closed exactly
/// where the rest of the script begins, and stands for exactly the URL.
pub proof fn lemma_url_reaches_client_as_data(
    client: SystemHttpClient,
    url: Seq<char>,
    timeout: Option<Duration>,
)
    ensures
        match client {
            SystemHttpClient::PowerShell => {
                let args = client.arguments(url, timeout);
                let body = args[1].skip(script_head(timeout).len() as int + 1);
                &&& args.len() == 2
                &&& args[0] == "-command"@
                &&& closing_quote(body) == escape_quotes(url).len()
                &&& quoted_value(body) == url
                &&& body.skip(closing_quote(body) as int + 1) == script_tail()
            },
            _ => {
                &&& client.arguments(url, timeout).last() == url
                &&& client.arguments(url, timeout).drop_last() == client.arguments(
                    Seq::empty(),
                    timeout,
                ).drop_last()
            },
        },
{
    match client {
        SystemHttpClient::PowerShell => {
            lemma_script_quotes_url(url, timeout);
        },
        _ => {
            assert(client.arguments(url, timeout).drop_last() =~= client.arguments(
                Seq::empty(),
                timeout,
            ).drop_last());
        },
    }
}

/// A request without a timeout is handed to the client with the limit
/// zero, which every client reads as "no limit"; a request with a timeout
/// never is, however short the timeout.
pub proof fn lemma_zero_means_no_limit(timeout: Option<Duration>)
    requires
        is_positive(timeout),
    ensures
        seconds_argument(timeout) == seq!['0'] <==> timeout is None,
        idle_millis(timeout) == 0 <==> timeout is None,
        request_seconds(timeout) == 0 <==> timeout is None,
{
    match timeout {
        Some(d) => {
            lemma_only_zero_is_written_as_zero(
                duration_secs(d) as nat,
                duration_subsec_nanos(d) as nat,
            );
        },
        None => {
            lemma_only_zero_is_written_as_zero(0, 0);
        },
    }
}

/// The names of the clients that the library can use, in order of
/// preference, whether or not any of them is installed.
pub fn supported_http_clients(platform: Platform) -> (names: Vec<&'static str>)
    ensures
        names@.len() == preference(platform).len(),
        forall|i: int|
            0 <= i < names@.len() ==> (#[trigger] names@[i])@ == preference(
                platform,
            )[i].display_name(),
{
    let mut names: Vec<&'static str> = Vec::new();
    let mut rank: usize = 0;
    while rank < 3
        invariant
            rank <= 3,
            names@.len() == rank,
            forall|i: int|
                0 <= i < names@.len() ==> (#[trigger] names@[i])@ == preference(
                    platform,
                )[i].display_name(),
        decreases 3 - rank,
    {
        match SystemHttpClient::preferred(platform, rank) {
            Some(client) => names.push(client.name()),
            None => {},
        }
        rank += 1;
    }
    names
}

} // verus!
