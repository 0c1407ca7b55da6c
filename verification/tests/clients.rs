use std::time::Duration;

use sysreq::clients::curl::cURL;
use sysreq::clients::powershell::{contains_slice, format_script, timed_out, trim_crlf, PowerShell};
use sysreq::clients::wget::wget;
use sysreq::clients::{
    supported_http_clients, Command, Output, Platform, Stdio, SystemHttpClient,
    SystemHttpClientInterface,
};
use sysreq::error::{Error, ExitStatus, IoError, IoErrorKind};

const TIMEOUT: Option<Duration> = Some(Duration::from_secs(30));

const PLATFORMS: [Platform; 3] = [Platform::Windows, Platform::Unix, Platform::Other];

const CLIENTS: [SystemHttpClient; 3] =
    [SystemHttpClient::wget, SystemHttpClient::cURL, SystemHttpClient::PowerShell];

const FRAGMENT: &str = "#//\"\"\"\"\"'''''[[]]`````${hello}$hello###";

const DECORATED: &str = "http://example.org/#//\"\"\"\"\"'''''[[]]`````${hello}$hello###";

fn expected_script(url: &str, timeout_ms: u64, timeout_sec: u64) -> String {
    let url = url.replace('\'', "''");
    format!(
        "\n\t\t\t\t$ErrorActionPreference = \"Stop\"\n\t\t\t\t[System.Net.ServicePointManager]::MaxServicePointIdleTime = {timeout_ms};\n\t\t\t\t$data = (Invoke-WebRequest -TimeoutSec {timeout_sec} '{url}').Content;\n\t\t\t\t$Writer = New-Object System.IO.BinaryWriter([console]::OpenStandardOutput());\n\t\t\t\t$Writer.Write($data, 0, $data.length)\n\t\t\t\t$Writer.Flush()\n\t\t\t\t$Writer.Close()\n\t\t\t",
        url = url,
        timeout_ms = timeout_ms,
        timeout_sec = timeout_sec
    )
}

fn exited(code: i32, stdout: &[u8], stderr: &[u8]) -> Output {
    Output {
        status: ExitStatus { code: Some(code) },
        stdout: stdout.to_vec(),
        stderr: stderr.to_vec(),
    }
}

fn strings(args: &[&str]) -> Vec<String> {
    args.iter().map(|s| s.to_string()).collect()
}

/// The URL that `command` hands to the client, read the way the client
/// reads it: the last argument, or the literal in the script.
fn url_seen_by(client: SystemHttpClient, command: &Command) -> String {
    match client {
        SystemHttpClient::PowerShell => {
            let script = &command.args[1];
            let open = script.find('\'').unwrap() + 1;
            let mut url = String::new();
            let mut rest = script[open..].chars().peekable();
            while let Some(c) = rest.next() {
                if c != '\'' {
                    url.push(c);
                } else if rest.peek() == Some(&'\'') {
                    rest.next();
                    url.push('\'');
                } else {
                    assert_eq!(rest.next(), Some(')'));
                    return url;
                }
            }
            panic!("the literal is never closed");
        }
        _ => command.args.last().unwrap().clone(),
    }
}

#[test]
fn test_get() {
    for test_url in [
        "https://www.google.com/favicon.ico",
        "http://www.example.org",
        "http://google.com/favicon.ico",
    ] {
        for platform in PLATFORMS {
            for client in CLIENTS {
                println!("{test_url} sysreq...");
                let command = client.get(test_url, TIMEOUT, platform);
                assert_eq!(url_seen_by(client, &command), test_url);

                let truth: Vec<u8> = vec![0, 159, 146, 150, 13, 10, 255, 60, 104, 62];
                let result = client.response(exited(0, &truth, b"warning"), platform).unwrap();

                println!("{test_url} checking...");

                if truth != result.body {
                    panic!(
                        "Client: {client:?}\nURL: {test_url}\n\nDiff:\nTruth: {} bytes vs Ours: {} bytes\n{}",
                        truth.len(),
                        result.body.len(),
                        "<binary data>".to_string(),
                    );
                }
            }
        }
    }
}

#[test]
fn test_str_interp_url() {
    for platform in PLATFORMS {
        for client in CLIENTS {
            for interp in ["$SYSREQ_PWNED", "`SYSREQ_PWNED`", "${SYSREQ_PWNED}", "[[SYSREQ_PWNED]]"]
            {
                let command = client.get(interp, TIMEOUT, platform);
                assert_eq!(url_seen_by(client, &command), interp);
            }

            assert_eq!(url_seen_by(client, &client.get(FRAGMENT, TIMEOUT, platform)), FRAGMENT);

            let example = client.get("http://example.org", TIMEOUT, platform);
            let result = client.get(DECORATED, TIMEOUT, platform);
            assert_eq!(example.program, result.program);
            assert_eq!(example.args.len(), result.args.len());
            assert_eq!(example.stdio, result.stdio);
            assert_eq!(url_seen_by(client, &example), "http://example.org");
            assert_eq!(url_seen_by(client, &result), DECORATED);
        }
    }
}

#[test]
fn test_timeouts() {
    let url = format!("http://{}", "127.0.0.1:40123");
    println!("Testing timeouts on {url}");
    let timeout = Some(Duration::from_secs_f64(0.1));

    let command = SystemHttpClient::wget.get(&url, timeout, Platform::Unix);
    assert_eq!(command.args[0], "--timeout=0.1");
    let command = SystemHttpClient::cURL.get(&url, timeout, Platform::Unix);
    assert_eq!(command.args[1], "0.1");
    let command = SystemHttpClient::PowerShell.get(&url, timeout, Platform::Unix);
    assert_eq!(command.args[1], expected_script(&url, 100, 1));

    let cases = [
        (SystemHttpClient::wget, Platform::Unix, exited(4, b"", b"")),
        (SystemHttpClient::cURL, Platform::Unix, exited(28, b"", b"curl: (28) Operation timed out")),
        (
            SystemHttpClient::PowerShell,
            Platform::Unix,
            exited(
                1,
                b"",
                b"Invoke-WebRequest: The request was canceled due to the configured HttpClient.Timeout of 1 seconds elapsing.",
            ),
        ),
        (
            SystemHttpClient::PowerShell,
            Platform::Other,
            exited(1, b"", b"Invoke-WebRequest: HttpClient.Timeout of 1 seconds elapsing."),
        ),
        (
            SystemHttpClient::PowerShell,
            Platform::Windows,
            exited(1, b"", b"Invoke-WebRequest : The operation has timed out.\r\nAt line:4 char:14"),
        ),
    ];
    for (client, platform, output) in cases {
        println!("Testing timeout for client {client:?}");
        let result = client.response(output, platform);
        match result {
            Err(Error::IoError(err)) if err.kind == IoErrorKind::TimedOut => {}
            _ => panic!("{client:?}: {result:?}"),
        }
    }
}

#[test]
fn wget_command_line() {
    let command = wget.get("http://example.org/a b", None, Platform::Unix);
    assert_eq!(command.program, "wget");
    assert_eq!(
        command.args,
        strings(&["--timeout=0", "--tries=1", "-qO", "-", "http://example.org/a b"])
    );
    assert_eq!(command.stdio, Stdio::Piped);

    let command = wget.get("https://example.org", TIMEOUT, Platform::Windows);
    assert_eq!(command.program, "wget");
    assert_eq!(
        command.args,
        strings(&["--timeout=30", "--tries=1", "-qO", "-", "https://example.org"])
    );
}

#[test]
fn curl_command_line() {
    let command = cURL.get("http://example.org", None, Platform::Unix);
    assert_eq!(command.program, "curl");
    assert_eq!(command.args, strings(&["-m", "0", "-L", "http://example.org"]));
    assert_eq!(command.stdio, Stdio::Piped);

    let command = cURL.get("http://example.org", Some(Duration::new(1, 500_000_000)), Platform::Other);
    assert_eq!(command.args, strings(&["-m", "1.5", "-L", "http://example.org"]));
}

#[test]
fn powershell_command_line() {
    let command = PowerShell.get("http://example.org", None, Platform::Unix);
    assert_eq!(command.program, "pwsh");
    assert_eq!(
        command.args,
        vec!["-command".to_string(), expected_script("http://example.org", 0, 0)]
    );
    assert_eq!(command.stdio, Stdio::Piped);

    let command = PowerShell.get("http://example.org", TIMEOUT, Platform::Windows);
    assert_eq!(command.program, "powershell");
    assert_eq!(
        command.args,
        vec!["-command".to_string(), expected_script("http://example.org", 30_000, 30)]
    );
    assert_eq!(PowerShell.get("http://x", None, Platform::Other).program, "pwsh");
}

#[test]
fn dispatch_agrees_with_each_client() {
    for platform in PLATFORMS {
        let url = "http://example.org/?q='1'";
        let timeout = Some(Duration::from_millis(2500));
        assert_eq!(SystemHttpClient::wget.get(url, timeout, platform), wget.get(url, timeout, platform));
        assert_eq!(SystemHttpClient::cURL.get(url, timeout, platform), cURL.get(url, timeout, platform));
        assert_eq!(
            SystemHttpClient::PowerShell.get(url, timeout, platform),
            PowerShell.get(url, timeout, platform)
        );
        assert_eq!(SystemHttpClient::wget.installed_spawn(platform), wget::installed_spawn(platform));
        assert_eq!(SystemHttpClient::cURL.installed_spawn(platform), cURL::installed_spawn(platform));
        assert_eq!(
            SystemHttpClient::PowerShell.installed_spawn(platform),
            PowerShell::installed_spawn(platform)
        );
    }
}

#[test]
fn seconds_are_written_as_decimals() {
    let seconds =
        |timeout: Option<Duration>| cURL.get("http://x", timeout, Platform::Unix).args[1].clone();
    assert_eq!(seconds(None), "0");
    assert_eq!(seconds(Some(Duration::from_secs(1))), "1");
    assert_eq!(seconds(Some(Duration::from_millis(100))), "0.1");
    assert_eq!(seconds(Some(Duration::from_millis(1050))), "1.05");
    assert_eq!(seconds(Some(Duration::new(0, 1))), "0.000000001");
    assert_eq!(seconds(Some(Duration::new(12, 345_678_900))), "12.3456789");
    assert_eq!(seconds(Some(Duration::new(7, 999_999_999))), "7.999999999");
    assert_eq!(seconds(Some(Duration::new(86_400, 10))), "86400.00000001");
    assert_eq!(seconds(Some(Duration::new(u64::MAX, 0))), "18446744073709551615");
    for millis in [1u64, 20, 250, 1500, 30_000, 123_456] {
        let d = Duration::from_millis(millis);
        assert_eq!(seconds(Some(d)), d.as_secs_f64().to_string());
    }
}

#[test]
fn script_limits_are_rounded() {
    let script = |timeout: Option<Duration>| format_script("http://x", timeout);
    assert_eq!(script(None), expected_script("http://x", 0, 0));
    assert_eq!(script(Some(Duration::from_millis(100))), expected_script("http://x", 100, 1));
    assert_eq!(script(Some(Duration::new(0, 1))), expected_script("http://x", 1, 1));
    assert_eq!(script(Some(Duration::new(0, 1_499_999))), expected_script("http://x", 1, 1));
    assert_eq!(script(Some(Duration::new(0, 1_500_000))), expected_script("http://x", 2, 1));
    assert_eq!(script(Some(Duration::new(1, 499_999_999))), expected_script("http://x", 1500, 1));
    assert_eq!(script(Some(Duration::new(1, 500_000_000))), expected_script("http://x", 1500, 2));
    assert_eq!(script(Some(Duration::from_secs(30))), expected_script("http://x", 30_000, 30));
    assert_eq!(
        script(Some(Duration::new(u64::MAX, 999_999_999))),
        expected_script("http://x", u64::MAX, u64::MAX)
    );
    assert_eq!(
        script(Some(Duration::from_secs(u64::MAX / 1000 + 1))),
        expected_script("http://x", u64::MAX, u64::MAX / 1000 + 1)
    );
}

#[test]
fn script_doubles_single_quotes() {
    assert_eq!(format_script("http://x/'", None), expected_script("http://x/'", 0, 0));
    assert!(format_script("http://x/'", None).contains(" 'http://x/''')"));
    assert!(format_script("'", None).contains(" '''')"));
    assert!(format_script("a'b''c", None).contains(" 'a''b''''c')"));
    assert!(format_script("", None).contains("-TimeoutSec 0 '').Content;"));
    let odd = "http://x/');Remove-Item *;('";
    let command = PowerShell.get(odd, None, Platform::Windows);
    assert_eq!(url_seen_by(SystemHttpClient::PowerShell, &command), odd);
    let wide = "http://x/\u{e9}\u{1f600}'\u{4e2d}";
    let command = PowerShell.get(wide, None, Platform::Unix);
    assert_eq!(command.args[1], expected_script(wide, 0, 0));
}

#[test]
fn probe_commands() {
    for platform in PLATFORMS {
        let probe = wget::installed_spawn(platform);
        assert_eq!(probe.program, "wget");
        assert_eq!(probe.args, strings(&["--help"]));
        assert_eq!(probe.stdio, Stdio::Null);
        let probe = cURL::installed_spawn(platform);
        assert_eq!(probe.program, "curl");
        assert_eq!(probe.args, strings(&["--help"]));
        assert_eq!(probe.stdio, Stdio::Null);
        let probe = PowerShell::installed_spawn(platform);
        assert_eq!(probe.args, strings(&["-help"]));
        assert_eq!(probe.stdio, Stdio::Null);
        for client in CLIENTS {
            assert_eq!(client.installed_spawn(platform).args.len(), 1);
        }
    }
    let probe = PowerShell::installed_spawn(Platform::Windows);
    assert_eq!(probe.program, "powershell");
    assert_eq!(probe.args, strings(&["-help"]));
    assert_eq!(probe.stdio, Stdio::Null);
    assert_eq!(PowerShell::installed_spawn(Platform::Unix).program, "pwsh");
    assert_eq!(wget::command(Platform::Unix), "wget");
    assert_eq!(cURL::command(Platform::Windows), "curl");
    assert_eq!(PowerShell::command(Platform::Other), "pwsh");
}

#[test]
fn only_not_found_means_absent() {
    let not_found =
        Err(IoError { kind: IoErrorKind::NotFound, detail: "No such file or directory".to_string() });
    let denied = Err(IoError { kind: IoErrorKind::Other, detail: "Permission denied".to_string() });
    let timed_out = Err(IoError::timed_out());
    let failed = Ok(ExitStatus { code: Some(2) });
    let killed = Ok(ExitStatus { code: None });
    let fine = Ok(ExitStatus { code: Some(0) });
    assert!(!wget::installed(&not_found));
    assert!(!cURL::installed(&not_found));
    assert!(!PowerShell::installed(&not_found));
    assert!(wget::installed(&denied));
    assert!(cURL::installed(&failed));
    assert!(PowerShell::installed(&fine));
    for client in CLIENTS {
        assert!(!client.installed(&not_found));
        for attempt in [&denied, &timed_out, &failed, &killed, &fine] {
            assert!(client.installed(attempt));
        }
    }
}

#[test]
fn exit_codes_of_wget_and_curl() {
    for platform in PLATFORMS {
        for (client, timeout_code, other_code) in
            [(SystemHttpClient::wget, 4, 28), (SystemHttpClient::cURL, 28, 4)]
        {
            let body = client.response(exited(0, b"body\r\n", b"noise"), platform).unwrap().body;
            assert_eq!(body, b"body\r\n");

            let result = client.response(exited(timeout_code, b"partial", b"late"), platform);
            assert!(matches!(&result, Err(e) if e.is_timed_out()), "{result:?}");

            for code in [other_code, 1, 8, -1, 255] {
                match client.response(exited(code, b"out", b"err"), platform) {
                    Err(Error::CommandFailed { status, stdout, stderr }) => {
                        assert_eq!(status, ExitStatus { code: Some(code) });
                        assert_eq!(stdout.0, b"out");
                        assert_eq!(stderr.0, b"err");
                    }
                    other => panic!("{other:?}"),
                }
            }

            let killed =
                Output { status: ExitStatus { code: None }, stdout: vec![1], stderr: vec![2] };
            match client.response(killed, platform) {
                Err(Error::CommandFailed { status, stdout, stderr }) => {
                    assert_eq!(status.code, None);
                    assert_eq!(stdout.into_bytes(), vec![1]);
                    assert_eq!(stderr.into_bytes(), vec![2]);
                }
                other => panic!("{other:?}"),
            }
        }
    }
    assert!(matches!(wget.response(exited(4, b"", b""), Platform::Unix), Err(e) if e.is_timed_out()));
    assert!(matches!(cURL.response(exited(28, b"", b""), Platform::Unix), Err(e) if e.is_timed_out()));
    assert!(matches!(
        wget.response(exited(28, b"", b""), Platform::Unix),
        Err(Error::CommandFailed { .. })
    ));
    assert!(matches!(
        cURL.response(exited(4, b"", b""), Platform::Unix),
        Err(Error::CommandFailed { .. })
    ));
}

#[test]
fn powershell_strips_the_line_ending_it_adds() {
    for platform in PLATFORMS {
        let body =
            |stdout: &[u8]| PowerShell.response(exited(0, stdout, b""), platform).unwrap().body;
        assert_eq!(body(b"<html>\r\n"), b"<html>");
        assert_eq!(body(b"<html>\r\n\r\n"), b"<html>\r\n");
        assert_eq!(body(b"<html>\n"), b"<html>\n");
        assert_eq!(body(b"<html>\r"), b"<html>\r");
        assert_eq!(body(b"\r\n"), b"");
        assert_eq!(body(b"\n"), b"\n");
        assert_eq!(body(b""), b"");
        assert_eq!(body(b"\n\r"), b"\n\r");

        match PowerShell.response(exited(1, b"half\r\n", b"boom\r\n"), platform) {
            Err(Error::CommandFailed { status, stdout, stderr }) => {
                assert_eq!(status.code, Some(1));
                assert_eq!(stdout.0, b"half\r\n");
                assert_eq!(stderr.0, b"boom\r\n");
            }
            other => panic!("{other:?}"),
        }
        match PowerShell.response(exited(1, b"\r\n", b""), platform) {
            Err(Error::CommandFailed { stdout, stderr, .. }) => {
                assert_eq!(stdout.0, b"\r\n");
                assert_eq!(stderr.0, b"");
            }
            other => panic!("{other:?}"),
        }
    }
    let mut bytes = b"abc\r\n".to_vec();
    trim_crlf(&mut bytes);
    assert_eq!(bytes, b"abc");
    trim_crlf(&mut bytes);
    assert_eq!(bytes, b"abc");
}

#[test]
fn powershell_timeouts_are_read_from_standard_error() {
    let windows = b"Invoke-WebRequest : The operation has timed out.\r\nAt line:4";
    let unix = b"Invoke-WebRequest: The request was canceled due to the configured HttpClient.Timeout of 1 seconds elapsing.";

    assert!(timed_out(windows, Platform::Windows));
    assert!(!timed_out(windows, Platform::Unix));
    assert!(!timed_out(windows, Platform::Other));
    assert!(timed_out(unix, Platform::Unix));
    assert!(timed_out(unix, Platform::Other));
    assert!(!timed_out(unix, Platform::Windows));

    assert!(timed_out(b"The operation has timed out", Platform::Windows));
    assert!(timed_out(b"The operation has timed out\n", Platform::Windows));
    assert!(timed_out(b"\nThe operation has timed out", Platform::Windows));
    assert!(timed_out(b"first\r\nThe operation has timed out", Platform::Windows));
    assert!(timed_out(b"\xffThe operation has timed out", Platform::Windows));
    assert!(timed_out(b"The operation has timed out\n\xff", Platform::Windows));
    assert!(timed_out("\u{e9} The operation has timed out".as_bytes(), Platform::Windows));
    assert!(!timed_out(b"The operation has timed ou", Platform::Windows));
    assert!(!timed_out(b"the operation has timed out", Platform::Windows));
    assert!(!timed_out(b"", Platform::Windows));

    for platform in [Platform::Unix, Platform::Other] {
        assert!(timed_out(b"line one\nline two HttpClient.Timeout", platform));
        assert!(timed_out(b"\xff\xfeHttpClient.Timeout\xff", platform));
        assert!(!timed_out(b"HttpClient.Timeou", platform));
        assert!(!timed_out(b"httpclient.timeout", platform));
        assert!(!timed_out(b"", platform));

        let result = PowerShell.response(exited(1, b"", unix), platform);
        assert!(matches!(&result, Err(e) if e.is_timed_out()), "{result:?}");
        let result = PowerShell.response(exited(1, b"out\r\n", b"something else"), platform);
        assert!(matches!(&result, Err(Error::CommandFailed { .. })), "{result:?}");
        let body = PowerShell.response(exited(0, b"fine", unix), platform).unwrap().body;
        assert_eq!(body, b"fine");
    }

    let late = b"At line:4 char:14\r\n+ ... The operation has timed out.\r\n";
    let result = PowerShell.response(exited(1, b"", late), Platform::Windows);
    assert!(matches!(&result, Err(e) if e.is_timed_out()), "{result:?}");
    let result = PowerShell.response(exited(1, b"", unix), Platform::Windows);
    assert!(matches!(&result, Err(Error::CommandFailed { .. })), "{result:?}");
}

#[test]
fn contains_slice_finds_every_occurrence() {
    assert!(contains_slice(b"hello world", b"hello"));
    assert!(contains_slice(b"hello world", b"world"));
    assert!(contains_slice(b"hello world", b"o w"));
    assert!(contains_slice(b"hello world", b"hello world"));
    assert!(contains_slice(b"hello world", b""));
    assert!(contains_slice(b"", b""));
    assert!(!contains_slice(b"", b"a"));
    assert!(!contains_slice(b"hello", b"hello world"));
    assert!(!contains_slice(b"hello world", b"worlds"));
    assert!(!contains_slice(b"aaab", b"aba"));
    assert!(contains_slice(b"aaab", b"aab"));
    assert!(contains_slice(b"a", b"a"));
    assert!(!contains_slice(b"a", b"b"));
}

#[test]
fn supported_clients_in_order_of_preference() {
    assert_eq!(supported_http_clients(Platform::Windows), ["wget", "PowerShell", "cURL"]);
    assert_eq!(supported_http_clients(Platform::Unix), ["wget", "cURL", "PowerShell"]);
    assert_eq!(supported_http_clients(Platform::Other), ["wget", "cURL", "PowerShell"]);
    assert_eq!(sysreq::supported_http_clients(Platform::Unix).len(), 3);
    for platform in PLATFORMS {
        let mut client = Some(SystemHttpClient::first(platform));
        let mut names = Vec::new();
        let mut rank = 0;
        while let Some(c) = client {
            assert_eq!(SystemHttpClient::preferred(platform, rank), Some(c));
            names.push(c.name());
            client = c.next(platform);
            rank += 1;
        }
        assert_eq!(SystemHttpClient::preferred(platform, rank), None);
        assert_eq!(names, supported_http_clients(platform));
    }
}
