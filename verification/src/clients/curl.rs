//! The `curl` client.

use crate::clients::{
    Command, Output, OutputView, Platform, Stdio, SystemHttpClientInterface,
    outcome_by_exit_code, probe_command, push_seconds_argument, response_by_exit_code,
    seconds_argument,
};
use crate::error::{Error, ErrorView};
use crate::request::Response;
use std::time::Duration;
use vstd::prelude::*;
use vstd::string::StringExecFns;

verus! {

/// The `curl` client.
#[allow(non_camel_case_types)]
pub struct cURL;

/// The exit code by which `curl` reports that an operation ran out of time.
pub const CURL_TIMEOUT_CODE: i32 = 28;

impl SystemHttpClientInterface for cURL {
    open spec fn command_name(platform: Platform) -> Seq<char> {
        "curl"@
    }

    /// `--help`, which prints the usage and exits at once.
    open spec fn probe_arguments() -> Seq<Seq<char>> {
        seq!["--help"@]
    }

    /// `curl -m <secs> -L <url>`; `-L` follows redirects.
    open spec fn arguments(url: Seq<char>, timeout: Option<Duration>) -> Seq<Seq<char>> {
        seq!["-m"@, seconds_argument(timeout), "-L"@, url]
    }

    open spec fn outcome(output: OutputView, platform: Platform) -> Result<Seq<u8>, ErrorView> {
        outcome_by_exit_code(output, CURL_TIMEOUT_CODE)
    }

    fn command(platform: Platform) -> (name: &'static str) {
        "curl"
    }

    fn installed_spawn(platform: Platform) -> (probe: Command) {
        let mut args: Vec<String> = Vec::new();
        args.push(String::from_str("--help"));
        assert(args.deep_view() =~= Self::probe_arguments());
        probe_command(Self::command(platform), args)
    }

    fn get(&self, url: &str, timeout: Option<Duration>, platform: Platform) -> (fetch: Command) {
        let mut limit = String::new();
        push_seconds_argument(&mut limit, timeout);
        let mut args: Vec<String> = Vec::new();
        args.push(String::from_str("-m"));
        args.push(limit);
        args.push(String::from_str("-L"));
        args.push(String::from_str(url));
        assert(args.deep_view() =~= Self::arguments(url@, timeout));
        Command { program: String::from_str(Self::command(platform)), args, stdio: Stdio::Piped }
    }

    fn response(&self, output: Output, platform: Platform) -> (r: Result<Response, Error>) {
        response_by_exit_code(output, CURL_TIMEOUT_CODE)
    }
}

} // verus!
