//! The command lines of `ssh`, and how often a connection is tried.

use vstd::prelude::*;

use crate::text;

verus! {

/// The options that keep `ssh` from asking about host keys, which change with every machine.
pub open spec fn strict_options() -> Seq<Seq<char>> {
    seq!["-o"@, "BatchMode=yes"@] + seq!["-o"@, "StrictHostKeyChecking=no"@] + seq![
        "-o"@,
        "UserKnownHostsFile=/dev/null"@,
    ]
}

/// An account on a host, as `ssh` and `scp` name it.
pub open spec fn user_at(username: Seq<char>, host: Seq<char>) -> Seq<char> {
    username + "@"@ + host
}

/// The arguments that lead `ssh` to an account.
pub open spec fn login_args(
    host: Seq<char>,
    port: nat,
    username: Seq<char>,
    key_path: Seq<char>,
) -> Seq<Seq<char>> {
    seq!["-i"@, key_path] + seq!["-p"@, text::decimal(port)] + strict_options() + seq![
        "-o"@,
        "ConnectTimeout=10"@,
    ] + seq![user_at(username, host)]
}

/// Runs commands on machines.
#[derive(Debug, Clone, Copy)]
pub struct SshClient {}

/// What to do after a failed attempt to connect.
#[derive(Debug, Clone, Copy, PartialEq, Eq, Structural)]
pub enum RetryStep {
    Retry,
    GiveUp,
}

impl SshClient {
    pub fn new() -> (r: SshClient)
        ensures
            r == (SshClient {  }),
    {
        SshClient {  }
    }

    /// Decides after the failure of attempt number `attempt`, counted from 1.
    pub fn connect_with_retry(&self, attempt: u32, max_retries: u32) -> (r: RetryStep)
        ensures
            r == retry_step(attempt, max_retries),
            r == (if attempt >= max_retries {
                RetryStep::GiveUp
            } else {
                RetryStep::Retry
            }),
    {
        if attempt >= max_retries {
            RetryStep::GiveUp
        } else {
            RetryStep::Retry
        }
    }

    /// The directory for the sockets of shared connections.
    pub fn control_dir(&self, username: &str) -> (r: String)
        ensures
            r@ == "/tmp/.ssh-mux-"@ + username@,
    {
        text::cat2("/tmp/.ssh-mux-", username)
    }

    /// Judges the end of a command: its output, or what went wrong.
    pub fn execute_command(&self, success: bool, status: &str, stdout: String, stderr: &str) -> (r:
        Result<String, String>)
        ensures
            is_outcome(r, success, status@, stdout, stderr@),
            match r {
                Ok(output) => success && output == stdout,
                Err(message) => !success && message@ == "Command failed with status "@ + status@
                    + ": "@ + stderr@,
            },
    {
        if success {
            Ok(stdout)
        } else {
            Err(text::cat4("Command failed with status ", status, ": ", stderr))
        }
    }

    /// The arguments of an interactive `ssh`.
    pub fn login_command(&self, host: &str, port: u16, username: &str, key_path: &str) -> (r: Vec<
        String,
    >)
        ensures
            text::views(r@) == login_args(host@, port as nat, username@, key_path@),
    {
        let mut args: Vec<String> = Vec::new();
        text::push_pair(&mut args, "-i", key_path);
        assert(text::views(args@) =~= seq!["-i"@, key_path@]);
        let n = text::number(port as u64);
        text::push_pair(&mut args, "-p", n.as_str());
        let ghost before = text::views(args@);
        text::push_pair(&mut args, "-o", "BatchMode=yes");
        text::push_pair(&mut args, "-o", "StrictHostKeyChecking=no");
        text::push_pair(&mut args, "-o", "UserKnownHostsFile=/dev/null");
        assert(text::views(args@) =~= before + strict_options());
        text::push_pair(&mut args, "-o", "ConnectTimeout=10");
        let ghost before = text::views(args@);
        let user_host = text::cat3(username, "@", host);
        text::push_word(&mut args, user_host.as_str());
        assert(text::views(args@) =~= before + seq![user_at(username@, host@)]);
        args
    }

    /// The arguments of an `ssh` that runs one command.
    pub fn execute_command_stream_raw(
        &self,
        host: &str,
        port: u16,
        username: &str,
        key_path: &str,
        command: &str,
    ) -> (r: Vec<String>)
        ensures
            text::views(r@) == login_args(host@, port as nat, username@, key_path@) + seq![
                "--"@,
                command@,
            ],
    {
        let mut args = self.login_command(host, port, username, key_path);
        text::push_pair(&mut args, "--", command);
        args
    }
}

impl Default for SshClient {
    fn default() -> (r: SshClient)
        ensures
            r == (SshClient {  }),
    {
        SshClient::new()
    }
}

/// A login goes to the port, the account and the host that are asked for, with the key that is
/// asked for, and never waits for an answer from the user.
pub proof fn law_login_goes_where_it_is_sent(
    host: Seq<char>,
    port: nat,
    username: Seq<char>,
    key_path: Seq<char>,
)
    ensures
        ({
            let args = login_args(host, port, username, key_path);
            &&& text::gives(args, "-i"@, key_path)
            &&& text::gives(args, "-p"@, text::decimal(port))
            &&& text::gives(args, "-o"@, "BatchMode=yes"@)
            &&& text::gives(args, "-o"@, "StrictHostKeyChecking=no"@)
            &&& text::gives(args, "-o"@, "UserKnownHostsFile=/dev/null"@)
            &&& text::gives(args, "-o"@, "ConnectTimeout=10"@)
            &&& args.len() == 13
            &&& args.last() == username + "@"@ + host
        }),
{
    let args = login_args(host, port, username, key_path);
    text::lemma_gives(args, 0);
    text::lemma_gives(args, 2);
    text::lemma_gives(args, 4);
    text::lemma_gives(args, 6);
    text::lemma_gives(args, 8);
    text::lemma_gives(args, 10);
}

/// Logins to different ports, or with different keys, differ.
pub proof fn law_logins_differ(
    host: Seq<char>,
    username: Seq<char>,
    port: nat,
    key_path: Seq<char>,
    other_port: nat,
    other_key_path: Seq<char>,
)
    requires
        login_args(host, port, username, key_path) == login_args(
            host,
            other_port,
            username,
            other_key_path,
        ),
    ensures
        port == other_port,
        key_path == other_key_path,
{
    let a = login_args(host, port, username, key_path);
    let b = login_args(host, other_port, username, other_key_path);
    assert(a[1] == key_path && b[1] == other_key_path);
    assert(a[3] == text::decimal(port) && b[3] == text::decimal(other_port));
    text::lemma_decimal_distinct(port, other_port);
}

/// What to do after the failure of an attempt to connect.
pub open spec fn retry_step(attempt: u32, max_retries: u32) -> RetryStep {
    if attempt >= max_retries {
        RetryStep::GiveUp
    } else {
        RetryStep::Retry
    }
}

/// A connection is tried as often as is allowed: it is given up exactly after the last attempt.
pub proof fn law_connection_is_tried_as_often_as_allowed(attempt: u32, max_retries: u32)
    ensures
        retry_step(attempt, max_retries) == RetryStep::Retry <==> attempt < max_retries,
        retry_step(max_retries, max_retries) == RetryStep::GiveUp,
{
}

/// Whether `r` is what the end of a command is judged as.
pub open spec fn is_outcome(
    r: Result<String, String>,
    success: bool,
    status: Seq<char>,
    stdout: String,
    stderr: Seq<char>,
) -> bool {
    match r {
        Ok(output) => success && output == stdout,
        Err(message) => !success && message@ == "Command failed with status "@ + status + ": "@
            + stderr,
    }
}

/// A command that succeeds gives its output, and one that fails its status and its errors.
pub proof fn law_outcome_of_a_command(
    r: Result<String, String>,
    success: bool,
    status: Seq<char>,
    stdout: String,
    stderr: Seq<char>,
)
    requires
        is_outcome(r, success, status, stdout, stderr),
    ensures
        r is Ok <==> success,
        r matches Ok(output) ==> output@ == stdout@,
        r matches Err(message) ==> text::occurs_in(status, message@) && stderr.is_suffix_of(
            message@,
        ),
{
    if let Err(message) = r {
        let head = "Command failed with status "@;
        text::lemma_occurs_between(head, status, ": "@ + stderr);
        assert(head + status + (": "@ + stderr) =~= message@);
        let n = message@.len() as int;
        assert(stderr =~= message@.subrange(n - stderr.len(), n));
    }
}

} // verus!
