//! Ingest configuration: where the transport collaborator should connect,
//! and how a partial endpoint specification resolves to a full one.

use vstd::prelude::*;
use vstd::string::StringExecFns;

verus! {

/// The decimal digit characters of `n`, most significant first.
pub open spec fn dec_digits(n: nat) -> Seq<char>
    decreases n,
{
    if n < 10 {
        seq![digit_char(n)]
    } else {
        dec_digits(n / 10).push(digit_char(n % 10))
    }
}

/// The character for one decimal digit.
pub open spec fn digit_char(d: nat) -> char {
    if d == 0 {
        '0'
    } else if d == 1 {
        '1'
    } else if d == 2 {
        '2'
    } else if d == 3 {
        '3'
    } else if d == 4 {
        '4'
    } else if d == 5 {
        '5'
    } else if d == 6 {
        '6'
    } else if d == 7 {
        '7'
    } else if d == 8 {
        '8'
    } else {
        '9'
    }
}

/// The endpoint string assembled from a host and a port.
pub open spec fn endpoint_model(host: Seq<char>, port: u16) -> Seq<char> {
    "tcp://"@ + host + ":"@ + dec_digits(port as nat)
}

/// Why an endpoint could not be resolved.
#[derive(Clone, Copy, PartialEq, Eq, Structural, Debug)]
pub enum ArgsError {
    /// Neither a full endpoint nor a port to combine with the host.
    EndpointUnderspecified,
}

impl ArgsError {
    /// A human-readable account of the error.
    pub fn message(&self) -> String {
        "Either --zmq-endpoint or both --zmq-host and --zmq-port must be provided".to_owned()
    }
}

/// Ingest configuration as plain values.
pub struct Args {
    pub connection_string: String,
    pub zmq_endpoint: Option<String>,
    pub zmq_host: String,
    pub zmq_port: Option<u16>,
    pub zmq_topic: String,
}

impl Args {
    /// The endpoint to connect to: the explicit `zmq_endpoint` if one was
    /// given, otherwise `tcp://<zmq_host>:<zmq_port>`; an error exactly
    /// when neither an endpoint nor a port is present.
    pub fn resolve_endpoint(&self) -> (r: Result<String, ArgsError>)
        ensures
            self.zmq_endpoint matches Some(e) ==> (r matches Ok(s) && s@ == e@),
            self.zmq_endpoint is None ==> match self.zmq_port {
                Some(p) => r matches Ok(s) && s@ == endpoint_model(self.zmq_host@, p),
                None => r == Result::<String, ArgsError>::Err(ArgsError::EndpointUnderspecified),
            },
    {
        match &self.zmq_endpoint {
            Some(endpoint) => Ok(endpoint.clone()),
            None => match self.zmq_port {
                None => Err(ArgsError::EndpointUnderspecified),
                Some(port) => {
                    let mut s = "tcp://".to_owned();
                    s.append(self.zmq_host.as_str());
                    s.append(":");
                    append_decimal(&mut s, port);
                    Ok(s)
                },
            },
        }
    }
}

/// Appends the decimal digits of `n` to `s`.
fn append_decimal(s: &mut String, n: u16)
    ensures
        final(s)@ == old(s)@ + dec_digits(n as nat),
    decreases n,
{
    if n >= 10 {
        append_decimal(s, n / 10);
    }
    let digit: &str = match n % 10 {
        0 => "0",
        1 => "1",
        2 => "2",
        3 => "3",
        4 => "4",
        5 => "5",
        6 => "6",
        7 => "7",
        8 => "8",
        _ => "9",
    };
    proof {
        reveal_strlit("0");
        reveal_strlit("1");
        reveal_strlit("2");
        reveal_strlit("3");
        reveal_strlit("4");
        reveal_strlit("5");
        reveal_strlit("6");
        reveal_strlit("7");
        reveal_strlit("8");
        reveal_strlit("9");
        assert(digit@ =~= seq![digit_char((n % 10) as nat)]);
    }
    s.append(digit);
    proof {
        if n < 10 {
            assert(old(s)@ + dec_digits(n as nat) =~= old(s)@ + seq![digit_char(n as nat)]);
        } else {
            assert((old(s)@ + dec_digits((n / 10) as nat)) + digit@ =~= old(s)@ + dec_digits(
                n as nat,
            ));
        }
    }
}

} // verus!
