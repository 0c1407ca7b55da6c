//! The `wget` client.

use crate::clients::{
    Command, Output, OutputView, Platform, Stdio, SystemHttpClientInterface,
    outcome_by_exit_code, probe_command, push_seconds_argument, response_by_exit_code,
    seconds_argument,
};
use crate::error::{Error, ErrorView};
use crate::request::Response;
use std::time::Duration;
use vstd::prelude::*;
use vstd::string::StringExecFns;

verus! {

/// The `wget` client.
#[allow(non_camel_case_types)]
pub struct wget;

/// The exit code by which `wget` reports a network failure, which is how a
/// request that ran out of time ends.
pub const WGET_TIMEOUT_CODE: i32 = 4;

impl SystemHttpClientInterface for wget {
    open spec fn command_name(platform: Platform) -> Seq<char> {
        "wget"@
    }

    /// `--help`, which prints the usage and exits at once.
    open spec fn probe_arguments() -> Seq<Seq<char>> {
        seq!["--help"@]
    }

    /// `wget --timeout=<secs> --tries=1 -qO - <url>`
    open spec fn arguments(url: Seq<char>, timeout: Option<Duration>) -> Seq<Seq<char>> {
        seq!["--timeout="@ + seconds_argument(timeout), "--tries=1"@, "-qO"@, "-"@, url]
    }

    open spec fn outcome(output: OutputView, platform: Platform) -> Result<Seq<u8>, ErrorView> {
        outcome_by_exit_code(output, WGET_TIMEOUT_CODE)
    }

    fn command(platform: Platform) -> (name: &'static str) {
        "wget"
    }

    fn installed_spawn(platform: Platform) -> (probe: Command) {
        let mut args: Vec<String> = Vec::new();
        args.push(String::from_str("--help"));
        assert(args.deep_view() =~= Self::probe_arguments());
        probe_command(Self::command(platform), args)
    }

    fn get(&self, url: &str, timeout: Option<Duration>, platform: Platform) -> (fetch: Command) {
        let mut limit = String::from_str("--timeout=");
        push_seconds_argument(&mut limit, timeout);
        let mut args: Vec<String> = Vec::new();
        args.push(limit);
        args.push(String::from_str("--tries=1"));
        args.push(String::from_str("-qO"));
        args.push(String::from_str("-"));
        args.push(String::from_str(url));
        assert(args.deep_view() =~= Self::arguments(url@, timeout));
        Command { program: String::from_str(Self::command(platform)), args, stdio: Stdio::Piped }
    }

    fn response(&self, output: Output, platform: Platform) -> (r: Result<Response, Error>) {
        response_by_exit_code(output, WGET_TIMEOUT_CODE)
    }
}

} // verus!
