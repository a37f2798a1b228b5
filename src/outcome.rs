use vstd::prelude::*;
use vstd::string::*;

verus! {

/// What a successful `start` reports.
#[derive(Debug, Clone, PartialEq, Eq)]
pub enum StartStatus {
    /// The slot was already occupied; nothing was spawned.
    AlreadyRunning,
    /// A worker was spawned and now occupies the slot.
    Started { id: u32 },
}

/// What a successful `stop` reports.
#[derive(Debug, Clone, PartialEq, Eq)]
pub enum StopStatus {
    /// The worker was terminated and the slot is empty.
    Stopped,
    /// The slot was already empty.
    WasNotRunning,
}

/// What a successful `send` reports.
#[derive(Debug, Clone, PartialEq, Eq)]
pub enum SendStatus {
    /// The whole payload was written to the worker's input stream.
    Sent,
}

/// The failures of the supervisor's operations.
#[derive(Debug, Clone, PartialEq, Eq)]
pub enum SupervisorError {
    /// The lock around the slot is unusable.
    LockAcquisitionFailed,
    /// The worker could not be launched; carries the system's error text.
    SpawnFailed(String),
    /// Terminating the worker failed; the worker is still managed.
    TerminationFailed(String),
    /// The slot is empty.
    NotRunning,
    /// The worker's input stream is not available.
    StdinUnavailable,
    /// Writing to the worker's input stream failed; carries the error text.
    WriteFailed(String),
}

/// The decimal digit `d` as a character.
pub open spec fn digit_char(d: nat) -> char {
    if d == 0 { '0' }
    else if d == 1 { '1' }
    else if d == 2 { '2' }
    else if d == 3 { '3' }
    else if d == 4 { '4' }
    else if d == 5 { '5' }
    else if d == 6 { '6' }
    else if d == 7 { '7' }
    else if d == 8 { '8' }
    else { '9' }
}

/// The decimal notation of `n`, without leading zeros.
pub open spec fn decimal(n: nat) -> Seq<char>
    decreases n,
{
    if n < 10 {
        seq![digit_char(n)]
    } else {
        decimal(n / 10).push(digit_char(n % 10))
    }
}

fn digit_str(d: u32) -> (r: &'static str)
    requires
        d < 10,
    ensures
        r@ == seq![digit_char(d as nat)],
{
    proof {
        reveal_strlit("0");
        reveal_strlit("1");
        reveal_strlit("2");
        reveal_strlit("3");
        reveal_strlit("4");
        reveal_strlit("5");
        reveal_strlit("6");
        reveal_strlit("7");
        reveal_strlit("8");
        reveal_strlit("9");
    }
    if d == 0 { "0" }
    else if d == 1 { "1" }
    else if d == 2 { "2" }
    else if d == 3 { "3" }
    else if d == 4 { "4" }
    else if d == 5 { "5" }
    else if d == 6 { "6" }
    else if d == 7 { "7" }
    else if d == 8 { "8" }
    else { "9" }
}

/// Appends the decimal notation of `n` to `s`.
pub fn push_decimal(s: &mut String, n: u32)
    ensures
        final(s)@ == old(s)@ + decimal(n as nat),
    decreases n,
{
    if n >= 10 {
        push_decimal(s, n / 10);
    }
    s.append(digit_str(n % 10));
    proof {
        if n >= 10 {
            assert(old(s)@ + decimal(n as nat) =~= old(s)@ + decimal((n / 10) as nat)
                + seq![digit_char((n % 10) as nat)]);
        } else {
            assert(decimal(n as nat) =~= seq![digit_char((n % 10) as nat)]);
        }
    }
}

impl StartStatus {
    pub open spec fn text_spec(self) -> Seq<char> {
        match self {
            StartStatus::AlreadyRunning => "MCP server is already running"@,
            StartStatus::Started { id } => "MCP server started with PID: "@ + decimal(id as nat),
        }
    }

    /// The status as the host shows it.
    pub fn text(&self) -> (r: String)
        ensures
            r@ == self.text_spec(),
    {
        match self {
            StartStatus::AlreadyRunning => String::from_str("MCP server is already running"),
            StartStatus::Started { id } => {
                let mut s = String::from_str("MCP server started with PID: ");
                push_decimal(&mut s, *id);
                s
            },
        }
    }
}

impl StopStatus {
    pub open spec fn text_spec(self) -> Seq<char> {
        match self {
            StopStatus::Stopped => "MCP server stopped"@,
            StopStatus::WasNotRunning => "MCP server was not running"@,
        }
    }

    /// The status as the host shows it.
    pub fn text(&self) -> (r: String)
        ensures
            r@ == self.text_spec(),
    {
        match self {
            StopStatus::Stopped => String::from_str("MCP server stopped"),
            StopStatus::WasNotRunning => String::from_str("MCP server was not running"),
        }
    }
}

impl SendStatus {
    pub open spec fn text_spec(self) -> Seq<char> {
        match self {
            SendStatus::Sent => "Message sent to MCP server"@,
        }
    }

    /// The status as the host shows it.
    pub fn text(&self) -> (r: String)
        ensures
            r@ == self.text_spec(),
    {
        match self {
            SendStatus::Sent => String::from_str("Message sent to MCP server"),
        }
    }
}

impl SupervisorError {
    pub open spec fn text_spec(self) -> Seq<char> {
        match self {
            SupervisorError::LockAcquisitionFailed => "Failed to acquire lock on server state"@,
            SupervisorError::SpawnFailed(e) => "Failed to start MCP server: "@ + e@,
            SupervisorError::TerminationFailed(e) => "Failed to stop MCP server: "@ + e@,
            SupervisorError::NotRunning => "MCP server not running"@,
            SupervisorError::StdinUnavailable => "Failed to get stdin of MCP server"@,
            SupervisorError::WriteFailed(e) => "Failed to send message to MCP server: "@ + e@,
        }
    }

    /// The failure as the host shows it.
    pub fn text(&self) -> (r: String)
        ensures
            r@ == self.text_spec(),
    {
        match self {
            SupervisorError::LockAcquisitionFailed => String::from_str(
                "Failed to acquire lock on server state",
            ),
            SupervisorError::SpawnFailed(e) => String::from_str(
                "Failed to start MCP server: ",
            ).concat(e.as_str()),
            SupervisorError::TerminationFailed(e) => String::from_str(
                "Failed to stop MCP server: ",
            ).concat(e.as_str()),
            SupervisorError::NotRunning => String::from_str("MCP server not running"),
            SupervisorError::StdinUnavailable => String::from_str(
                "Failed to get stdin of MCP server",
            ),
            SupervisorError::WriteFailed(e) => String::from_str(
                "Failed to send message to MCP server: ",
            ).concat(e.as_str()),
        }
    }
}

}
