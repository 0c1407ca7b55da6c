//! The PowerShell client, which fetches with `Invoke-WebRequest`.
//!
//! PowerShell takes no URL argument: the request is a short script, and the
//! URL stands in it inside a single-quoted literal. It has no exit code for
//! timeouts either, so a timeout is recognised by what it writes to its
//! standard error. The wording differs between the two interpreters and may
//! change with their versions: the match is the best that can be done, not a
//! promise.

use crate::clients::{
    Command, Output, OutputView, Platform, Stdio, SystemHttpClientInterface, probe_command,
};
use crate::duration::duration_nanos;
use crate::error::{CommandFailedOutput, Error, ErrorView, IoError, timed_out_view};
use crate::request::Response;
use crate::text::{decimal, push_decimal};
use std::time::Duration;
use vstd::prelude::*;
use vstd::std_specs::iter::IteratorSpec;
use vstd::string::{StringExecFns, StringSliceAdditionalSpecFns};

verus! {

/// The PowerShell client.
pub struct PowerShell;

/// Whether `needle` stands in `hay` at position `at`.
pub open spec fn occurs_at(hay: Seq<u8>, needle: Seq<u8>, at: int) -> bool {
    0 <= at && at + needle.len() <= hay.len() && hay.subrange(at, at + needle.len()) == needle
}

/// Whether `needle` stands somewhere in `hay`.
pub open spec fn contains_subslice(hay: Seq<u8>, needle: Seq<u8>) -> bool {
    exists|at: int| occurs_at(hay, needle, at)
}

/// `bytes` without the carriage return and line feed that PowerShell puts
/// after what a script writes; unchanged where it does not end in them.
pub open spec fn strip_crlf(bytes: Seq<u8>) -> Seq<u8> {
    if bytes.len() >= 2 && bytes[bytes.len() - 2] == 13 && bytes[bytes.len() - 1] == 10 {
        bytes.take(bytes.len() - 2)
    } else {
        bytes
    }
}

/// The bytes by which Windows PowerShell (`powershell`) reports a timeout.
pub open spec fn windows_timeout_mark() -> Seq<u8> {
    "The operation has timed out".spec_bytes()
}

/// The bytes by which the cross-platform PowerShell (`pwsh`) reports a
/// timeout.
pub open spec fn pwsh_timeout_mark() -> Seq<u8> {
    "HttpClient.Timeout".spec_bytes()
}

/// The bytes by which the PowerShell of this platform reports a timeout.
pub open spec fn timeout_mark(platform: Platform) -> Seq<u8> {
    match platform {
        Platform::Windows => windows_timeout_mark(),
        _ => pwsh_timeout_mark(),
    }
}

/// Whether what PowerShell wrote to its standard error reports a timeout:
/// whether the mark of this platform's PowerShell stands anywhere in it.
pub open spec fn reports_timeout(stderr: Seq<u8>, platform: Platform) -> bool {
    contains_subslice(stderr, timeout_mark(platform))
}

/// A span of `nanos` nanoseconds in units of `unit` nanoseconds, rounded to
/// the nearest unit (half a unit rounds up), but at least one unit and at
/// most `u64::MAX` units.
pub open spec fn rounded_limit(nanos: nat, unit: nat) -> nat {
    let rounded = (nanos + unit / 2) / unit;
    if rounded < 1 {
        1
    } else if rounded > u64::MAX {
        u64::MAX as nat
    } else {
        rounded
    }
}

/// The idle limit written into the script, in milliseconds; zero, which
/// means no limit, where there is no timeout.
pub open spec fn idle_millis(timeout: Option<Duration>) -> nat {
    match timeout {
        Some(d) => rounded_limit(duration_nanos(d), 1_000_000),
        None => 0,
    }
}

/// The request limit written into the script, in whole seconds; zero, which
/// means no limit, where there is no timeout.
pub open spec fn request_seconds(timeout: Option<Duration>) -> nat {
    match timeout {
        Some(d) => rounded_limit(duration_nanos(d), 1_000_000_000),
        None => 0,
    }
}

/// `url` as it stands inside a single-quoted PowerShell literal: every
/// single quote is doubled, every other character is kept.
pub open spec fn escape_quotes(url: Seq<char>) -> Seq<char>
    decreases url.len(),
{
    if url.len() == 0 {
        Seq::empty()
    } else if url.last() == '\'' {
        escape_quotes(url.drop_last()).push('\'').push('\'')
    } else {
        escape_quotes(url.drop_last()).push(url.last())
    }
}

/// The script from its start to the idle limit.
pub const SCRIPT_START: &'static str =
    "\n\t\t\t\t$ErrorActionPreference = \"Stop\"\n\t\t\t\t[System.Net.ServicePointManager]::MaxServicePointIdleTime = ";

/// The script between the idle limit and the request limit.
pub const SCRIPT_REQUEST: &'static str = ";\n\t\t\t\t$data = (Invoke-WebRequest -TimeoutSec ";

/// The script after the bracket that follows the URL literal.
pub const SCRIPT_END: &'static str =
    ".Content;\n\t\t\t\t$Writer = New-Object System.IO.BinaryWriter([console]::OpenStandardOutput());\n\t\t\t\t$Writer.Write($data, 0, $data.length)\n\t\t\t\t$Writer.Flush()\n\t\t\t\t$Writer.Close()\n\t\t\t";

/// The script up to the quote that opens the URL literal.
pub open spec fn script_head(timeout: Option<Duration>) -> Seq<char> {
    SCRIPT_START@ + decimal(idle_millis(timeout)) + SCRIPT_REQUEST@ + decimal(
        request_seconds(timeout),
    ) + seq![' ']
}

/// The script after the quote that closes the URL literal.
pub open spec fn script_tail() -> Seq<char> {
    seq![')'] + SCRIPT_END@
}

/// The script that fetches `url` and writes the body to standard output as
/// raw bytes: the limits, then the URL in a single-quoted literal, then the
/// lines that write the content out.
pub open spec fn script(url: Seq<char>, timeout: Option<Duration>) -> Seq<char> {
    script_head(timeout) + seq!['\''] + escape_quotes(url) + seq!['\''] + script_tail()
}

/// Where a single-quoted literal ends, given the text that follows its
/// opening quote: the position of the first quote that is not doubled, or
/// the length of the text where the literal is never closed.
pub open spec fn closing_quote(text: Seq<char>) -> nat
    decreases text.len(),
{
    if text.len() == 0 {
        0
    } else if text[0] != '\'' {
        1 + closing_quote(text.skip(1))
    } else if text.len() >= 2 && text[1] == '\'' {
        2 + closing_quote(text.skip(2))
    } else {
        0
    }
}

/// What a single-quoted literal stands for, given the text that follows its
/// opening quote: its characters up to the closing quote, with each doubled
/// quote read as one.
pub open spec fn quoted_value(text: Seq<char>) -> Seq<char>
    decreases text.len(),
{
    if text.len() == 0 {
        Seq::empty()
    } else if text[0] != '\'' {
        seq![text[0]] + quoted_value(text.skip(1))
    } else if text.len() >= 2 && text[1] == '\'' {
        seq!['\''] + quoted_value(text.skip(2))
    } else {
        Seq::empty()
    }
}

/// Escaping goes character by character from the front as well.
proof fn lemma_escape_front(c: char, url: Seq<char>)
    ensures
        escape_quotes(seq![c] + url) == if c == '\'' {
            seq!['\'', '\''] + escape_quotes(url)
        } else {
            seq![c] + escape_quotes(url)
        },
    decreases url.len(),
{
    let whole = seq![c] + url;
    if url.len() == 0 {
        assert(whole.drop_last() =~= Seq::<char>::empty());
        assert(whole.last() == c);
        assert(escape_quotes(whole.drop_last()) =~= Seq::<char>::empty());
        assert(escape_quotes(url) =~= Seq::<char>::empty());
        assert(escape_quotes(whole) =~= if c == '\'' {
            seq!['\'', '\''] + escape_quotes(url)
        } else {
            seq![c] + escape_quotes(url)
        });
    } else {
        assert(whole.drop_last() =~= seq![c] + url.drop_last());
        assert(whole.last() == url.last());
        lemma_escape_front(c, url.drop_last());
        assert(escape_quotes(whole) =~= if c == '\'' {
            seq!['\'', '\''] + escape_quotes(url)
        } else {
            seq![c] + escape_quotes(url)
        });
    }
}

/// A URL written into a single-quoted literal cannot end the literal or add
/// to it: whatever characters the URL holds, the literal is closed by the
/// quote that the script puts after it, and stands for exactly the URL.
pub proof fn lemma_quoted_url_reads_back(url: Seq<char>, rest: Seq<char>)
    requires
        rest.len() == 0 || rest[0] != '\'',
    ensures
        closing_quote(escape_quotes(url) + seq!['\''] + rest) == escape_quotes(url).len(),
        quoted_value(escape_quotes(url) + seq!['\''] + rest) == url,
    decreases url.len(),
{
    let text = escape_quotes(url) + seq!['\''] + rest;
    if url.len() == 0 {
        assert(text[0] == '\'');
        if text.len() >= 2 {
            assert(text[1] == rest[0]);
        }
    } else {
        let c = url[0];
        let tail = url.drop_first();
        assert(url =~= seq![c] + tail);
        lemma_escape_front(c, tail);
        lemma_quoted_url_reads_back(tail, rest);
        let after = escape_quotes(tail) + seq!['\''] + rest;
        if c == '\'' {
            assert(text[0] == '\'' && text[1] == '\'');
            assert(text.skip(2) =~= after);
            assert(quoted_value(text) =~= url);
        } else {
            assert(text[0] == c);
            assert(text.skip(1) =~= after);
            assert(quoted_value(text) =~= url);
        }
    }
}

/// In the script for any URL, the literal that opens after the head is
/// closed exactly where the rest of the script begins, and stands for
/// exactly the URL.
pub proof fn lemma_script_quotes_url(url: Seq<char>, timeout: Option<Duration>)
    ensures
        ({
            let body = script(url, timeout).skip(script_head(timeout).len() as int + 1);
            &&& closing_quote(body) == escape_quotes(url).len()
            &&& quoted_value(body) == url
            &&& body.skip(closing_quote(body) as int + 1) == script_tail()
        }),
{
    let body = script(url, timeout).skip(script_head(timeout).len() as int + 1);
    assert(body =~= escape_quotes(url) + seq!['\''] + script_tail());
    assert(script_tail()[0] == ')');
    lemma_quoted_url_reads_back(url, script_tail());
    assert(body.skip(closing_quote(body) as int + 1) =~= script_tail());
}

/// Whether `needle` stands in `hay` at position `at`.
fn matches_at(hay: &[u8], needle: &[u8], at: usize) -> (found: bool)
    requires
        at + needle@.len() <= hay@.len(),
    ensures
        found == occurs_at(hay@, needle@, at as int),
{
    let len: usize = hay.len();
    let mut i: usize = 0;
    while i < needle.len()
        invariant
            i <= needle@.len(),
            at + needle@.len() <= hay@.len(),
            len == hay@.len(),
            forall|k: int| 0 <= k < i ==> hay@[at + k] == needle@[k],
        decreases needle@.len() - i,
    {
        if hay[at + i] != needle[i] {
            assert(hay@.subrange(at as int, at + needle@.len())[i as int] != needle@[i as int]);
            return false;
        }
        i += 1;
    }
    assert(hay@.subrange(at as int, at + needle@.len()) =~= needle@);
    true
}

/// Whether `needle` stands somewhere in `hay`.
pub fn contains_slice(hay: &[u8], needle: &[u8]) -> (found: bool)
    ensures
        found == contains_subslice(hay@, needle@),
{
    if hay.len() < needle.len() {
        return false;
    }
    let last: usize = hay.len() - needle.len();
    let mut at: usize = 0;
    loop
        invariant
            last == hay@.len() - needle@.len(),
            at <= last,
            forall|k: int| 0 <= k < at ==> !occurs_at(hay@, needle@, k),
        decreases last - at,
    {
        if matches_at(hay, needle, at) {
            return true;
        }
        if at == last {
            return false;
        }
        at += 1;
    }
}

/// Whether what PowerShell wrote to its standard error reports a timeout.
pub fn timed_out(stderr: &[u8], platform: Platform) -> (found: bool)
    ensures
        found == reports_timeout(stderr@, platform),
{
    match platform {
        Platform::Windows => contains_slice(stderr, "The operation has timed out".as_bytes()),
        _ => contains_slice(stderr, "HttpClient.Timeout".as_bytes()),
    }
}

/// Removes the carriage return and line feed at the end of `bytes`, if it
/// ends in them.
pub fn trim_crlf(bytes: &mut Vec<u8>)
    ensures
        final(bytes)@ == strip_crlf(old(bytes)@),
{
    let len = bytes.len();
    if len >= 2 && bytes[len - 2] == 13 && bytes[len - 1] == 10 {
        bytes.truncate(len - 2);
    }
}

/// The limit for a timeout of `d`, in units of `unit` nanoseconds.
fn limit_in_units(d: Duration, unit: u64) -> (limit: u64)
    requires
        0 < unit <= 1_000_000_000,
    ensures
        limit == rounded_limit(duration_nanos(d), unit as nat),
{
    let nanos: u128 = (d.as_secs() as u128) * 1_000_000_000 + (d.subsec_nanos() as u128);
    let rounded: u128 = (nanos + (unit / 2) as u128) / (unit as u128);
    if rounded < 1 {
        1
    } else if rounded > u64::MAX as u128 {
        u64::MAX
    } else {
        rounded as u64
    }
}

/// Appends `url` to `out` as it stands inside a single-quoted literal.
fn push_escaped(out: &mut String, url: &str)
    ensures
        final(out)@ == old(out)@ + escape_quotes(url@),
{
    let mut rest = url.chars();
    let ghost mut n: int = 0;
    assert(url@.take(0) =~= Seq::empty());
    loop
        invariant
            0 <= n <= url@.len(),
            rest.remaining() == url@.skip(n),
            out@ == old(out)@ + escape_quotes(url@.take(n)),
        decreases url@.len() - n,
    {
        match rest.next() {
            None => {
                assert(url@.take(n) =~= url@);
                return ;
            },
            Some(c) => {
                proof {
                    assert(url@.take(n + 1).drop_last() =~= url@.take(n));
                    assert(url@.take(n + 1).last() == c);
                }
                if c == '\'' {
                    out.push('\'');
                    out.push('\'');
                } else {
                    out.push(c);
                }
                proof {
                    n = n + 1;
                }
            },
        }
    }
}

/// Writes the script that fetches `url`.
pub fn format_script(url: &str, timeout: Option<Duration>) -> (text: String)
    ensures
        text@ == script(url@, timeout),
{
    let (millis, seconds): (u64, u64) = match timeout {
        Some(d) => (limit_in_units(d, 1_000_000), limit_in_units(d, 1_000_000_000)),
        None => (0, 0),
    };
    let mut text = String::from_str(SCRIPT_START);
    push_decimal(&mut text, millis);
    text.append(SCRIPT_REQUEST);
    push_decimal(&mut text, seconds);
    text.push(' ');
    assert(text@ =~= script_head(timeout));
    text.push('\'');
    push_escaped(&mut text, url);
    text.push('\'');
    text.push(')');
    text.append(SCRIPT_END);
    assert(text@ =~= script(url@, timeout));
    text
}

impl SystemHttpClientInterface for PowerShell {
    /// `powershell` on Windows, `pwsh` everywhere else.
    open spec fn command_name(platform: Platform) -> Seq<char> {
        match platform {
            Platform::Windows => "powershell"@,
            _ => "pwsh"@,
        }
    }

    open spec fn probe_arguments() -> Seq<Seq<char>> {
        seq!["-help"@]
    }

    /// `-command <script>`
    open spec fn arguments(url: Seq<char>, timeout: Option<Duration>) -> Seq<Seq<char>> {
        seq!["-command"@, script(url, timeout)]
    }

    /// The body is the standard output without the line ending that
    /// PowerShell adds. A failure is a timeout where the standard error
    /// says so, and else carries the status and both streams in full.
    open spec fn outcome(output: OutputView, platform: Platform) -> Result<Seq<u8>, ErrorView> {
        if output.status.is_success() {
            Ok(strip_crlf(output.stdout))
        } else if reports_timeout(output.stderr, platform) {
            Err(ErrorView::IoError(timed_out_view()))
        } else {
            Err(
                ErrorView::CommandFailed {
                    status: output.status,
                    stdout: output.stdout,
                    stderr: output.stderr,
                },
            )
        }
    }

    fn command(platform: Platform) -> (name: &'static str) {
        match platform {
            Platform::Windows => "powershell",
            _ => "pwsh",
        }
    }

    fn installed_spawn(platform: Platform) -> (probe: Command) {
        let mut args: Vec<String> = Vec::new();
        args.push(String::from_str("-help"));
        assert(args.deep_view() =~= Self::probe_arguments());
        probe_command(Self::command(platform), args)
    }

    fn get(&self, url: &str, timeout: Option<Duration>, platform: Platform) -> (fetch: Command) {
        let mut args: Vec<String> = Vec::new();
        args.push(String::from_str("-command"));
        args.push(format_script(url, timeout));
        assert(args.deep_view() =~= Self::arguments(url@, timeout));
        Command { program: String::from_str(Self::command(platform)), args, stdio: Stdio::Piped }
    }

    fn response(&self, output: Output, platform: Platform) -> (r: Result<Response, Error>) {
        let Output { status, mut stdout, stderr } = output;
        if status.success() {
            trim_crlf(&mut stdout);
            Ok(Response { body: stdout })
        } else if timed_out(stderr.as_slice(), platform) {
            Err(Error::IoError(IoError::timed_out()))
        } else {
            Err(
                Error::CommandFailed {
                    status,
                    stdout: CommandFailedOutput(stdout),
                    stderr: CommandFailedOutput(stderr),
                },
            )
        }
    }
}

} // verus!
