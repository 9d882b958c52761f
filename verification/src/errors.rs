use vstd::prelude::*;
use vstd::string::StringExecFns;

verus! {

broadcast use vstd::seq::group_seq_axioms;

/// The character a decimal digit is written as.
pub open spec fn digit_char(d: nat) -> char {
    if d == 0 {
        '0'
    } else if d == 1 {
        '1'
    } else if d == 2 {
        '2'
    } else if d == 3 {
        '3'
    } else if d == 4 {
        '4'
    } else if d == 5 {
        '5'
    } else if d == 6 {
        '6'
    } else if d == 7 {
        '7'
    } else if d == 8 {
        '8'
    } else {
        '9'
    }
}

/// The decimal writing of a number: its digits in order, no sign, no
/// leading zero except for zero itself.
pub open spec fn spec_decimal(n: nat) -> Seq<char>
    decreases n,
{
    if n < 10 {
        seq![digit_char(n)]
    } else {
        spec_decimal(n / 10).push(digit_char(n % 10))
    }
}

/// Whether a sequence begins with the given prefix.
pub open spec fn begins_with(s: Seq<char>, prefix: Seq<char>) -> bool {
    s.len() >= prefix.len() && s.subrange(0, prefix.len() as int) == prefix
}

/// The character for one digit.
fn digit_str(d: u16) -> (r: &'static str)
    requires
        d < 10,
    ensures
        r@ =~= seq![digit_char(d as nat)],
{
    proof {
        reveal_strlit("0");
        reveal_strlit("1");
        reveal_strlit("2");
        reveal_strlit("3");
        reveal_strlit("4");
        reveal_strlit("5");
        reveal_strlit("6");
        reveal_strlit("7");
        reveal_strlit("8");
        reveal_strlit("9");
    }
    match d {
        0 => "0",
        1 => "1",
        2 => "2",
        3 => "3",
        4 => "4",
        5 => "5",
        6 => "6",
        7 => "7",
        8 => "8",
        _ => "9",
    }
}

/// Writes a number in decimal.
pub fn decimal_string(n: u16) -> (r: String)
    ensures
        r@ == spec_decimal(n as nat),
    decreases n,
{
    if n < 10 {
        String::from_str(digit_str(n))
    } else {
        let mut s = decimal_string(n / 10);
        s.append(digit_str(n % 10));
        proof {
            assert(spec_decimal(n as nat) =~= spec_decimal((n / 10) as nat) + seq![
                digit_char((n % 10) as nat),
            ]);
        }
        s
    }
}

/// Relies on std's rendering of std::io::Error, through ToString: the
/// error's own description of the underlying cause.
#[verifier::external_body]
fn io_error_text(e: &std::io::Error) -> (r: String) {
    e.to_string()
}

/// What can go wrong while serving connections.
#[derive(Debug)]
pub enum Error {
    /// The listening socket could not be bound; carries the requested port.
    ServerBindingFailed { port: u16, io_error: std::io::Error },
    /// The TLS library rejected the supplied credentials; carries the
    /// library's description of what was wrong with them.
    BadTlsParams(String),
    /// A write on one connection's encrypted stream failed.
    ConnFailedToSendData(std::io::Error),
    /// A read on one connection's encrypted stream failed.
    ConnFailedToReceiveData(std::io::Error),
    /// Closing one connection's socket failed.
    ConnFailedToClose(std::io::Error),
}

impl Error {
    /// The fixed description of the error's kind.
    pub fn message(&self) -> (r: &'static str)
        ensures
            self is ServerBindingFailed ==> r@ == "Failed to bind server to port"@,
            self is BadTlsParams ==> r@ == "Bad TLS parameters"@,
            self is ConnFailedToSendData ==> r@ == "Failed to send data to peer"@,
            self is ConnFailedToReceiveData ==> r@ == "Failed to receive data from peer"@,
            self is ConnFailedToClose ==> r@ == "Failed to close connection"@,
    {
        match self {
            Error::ServerBindingFailed { .. } => "Failed to bind server to port",
            Error::BadTlsParams(_) => "Bad TLS parameters",
            Error::ConnFailedToSendData(_) => "Failed to send data to peer",
            Error::ConnFailedToReceiveData(_) => "Failed to receive data from peer",
            Error::ConnFailedToClose(_) => "Failed to close connection",
        }
    }

    /// The full description of the error: its kind, the exact decimal port
    /// for a binding failure, and the underlying cause's own text.
    pub fn describe(&self) -> (r: String)
        ensures
            match self {
                Error::ServerBindingFailed { port, .. } => begins_with(
                    r@,
                    "Failed to bind server to port "@ + spec_decimal(*port as nat) + ": "@,
                ),
                Error::BadTlsParams(e) => r@ == "Bad TLS parameters: "@ + e@,
                Error::ConnFailedToSendData(_) => begins_with(r@, "Failed to send data to peer: "@),
                Error::ConnFailedToReceiveData(_) => begins_with(
                    r@,
                    "Failed to receive data from peer: "@,
                ),
                Error::ConnFailedToClose(_) => begins_with(r@, "Failed to close connection: "@),
            },
    {
        match self {
            Error::ServerBindingFailed { port, io_error } => {
                let mut s = String::from_str("Failed to bind server to port ");
                s.append(decimal_string(*port).as_str());
                s.append(": ");
                s.append(io_error_text(io_error).as_str());
                proof {
                    let prefix = "Failed to bind server to port "@ + spec_decimal(*port as nat)
                        + ": "@;
                    assert(s@.subrange(0, prefix.len() as int) =~= prefix);
                }
                s
            },
            Error::BadTlsParams(e) => {
                let mut s = String::from_str("Bad TLS parameters: ");
                s.append(e.as_str());
                s
            },
            Error::ConnFailedToSendData(io_error) => {
                let mut s = String::from_str("Failed to send data to peer: ");
                s.append(io_error_text(io_error).as_str());
                proof {
                    let prefix = "Failed to send data to peer: "@;
                    assert(s@.subrange(0, prefix.len() as int) =~= prefix);
                }
                s
            },
            Error::ConnFailedToReceiveData(io_error) => {
                let mut s = String::from_str("Failed to receive data from peer: ");
                s.append(io_error_text(io_error).as_str());
                proof {
                    let prefix = "Failed to receive data from peer: "@;
                    assert(s@.subrange(0, prefix.len() as int) =~= prefix);
                }
                s
            },
            Error::ConnFailedToClose(io_error) => {
                let mut s = String::from_str("Failed to close connection: ");
                s.append(io_error_text(io_error).as_str());
                proof {
                    let prefix = "Failed to close connection: "@;
                    assert(s@.subrange(0, prefix.len() as int) =~= prefix);
                }
                s
            },
        }
    }
}

} // verus!
