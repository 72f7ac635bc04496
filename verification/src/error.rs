//! The error taxonomy of one polish attempt, and its rendering into the
//! single human-readable message the driving loop displays.

use vstd::prelude::*;

verus! {

/// Why a response body that arrived with a success status yielded no
/// polished text.
#[derive(Debug, Clone, Copy, PartialEq, Eq, Structural)]
pub enum MalformedKind {
    /// The body has no `candidates` array.
    MissingCandidates,
    /// The `candidates` array is empty.
    NoCandidates,
    /// The first candidate has no `content.parts` array.
    NoTextParts,
    /// The concatenated text is empty or all-whitespace.
    EmptyText,
}

/// One polish attempt's failure, kept structured until the boundary that
/// renders user-facing text.
#[derive(Debug)]
pub enum PolishError {
    /// The network call itself failed: DNS, connection, timeout, TLS.
    Transport { cause: String },
    /// The response body was not valid JSON.
    InvalidJson { cause: String },
    /// The server answered with a non-success status.
    Remote { status: u16, message: String },
    /// The body's JSON shape was not the expected one.
    Malformed { kind: MalformedKind },
}

/// The decimal digit character for one digit value.
pub open spec fn spec_dec_digit(d: int) -> char {
    if d == 0 {
        '0'
    } else if d == 1 {
        '1'
    } else if d == 2 {
        '2'
    } else if d == 3 {
        '3'
    } else if d == 4 {
        '4'
    } else if d == 5 {
        '5'
    } else if d == 6 {
        '6'
    } else if d == 7 {
        '7'
    } else if d == 8 {
        '8'
    } else {
        '9'
    }
}

/// The decimal representation of a number, most significant digit first,
/// with no leading zero except for the number zero itself.
pub open spec fn spec_dec_rep(n: nat) -> Seq<char>
    decreases n,
{
    if n < 10 {
        seq![spec_dec_digit(n as int)]
    } else {
        spec_dec_rep(n / 10) + seq![spec_dec_digit((n % 10) as int)]
    }
}

fn digit_str(d: u16) -> (r: &'static str)
    requires
        d < 10,
    ensures
        r@ == seq![spec_dec_digit(d as int)],
{
    if d == 0 {
        proof {
            reveal_strlit("0");
            assert("0"@ =~= seq![spec_dec_digit(0)]);
        }
        "0"
    } else if d == 1 {
        proof {
            reveal_strlit("1");
            assert("1"@ =~= seq![spec_dec_digit(1)]);
        }
        "1"
    } else if d == 2 {
        proof {
            reveal_strlit("2");
            assert("2"@ =~= seq![spec_dec_digit(2)]);
        }
        "2"
    } else if d == 3 {
        proof {
            reveal_strlit("3");
            assert("3"@ =~= seq![spec_dec_digit(3)]);
        }
        "3"
    } else if d == 4 {
        proof {
            reveal_strlit("4");
            assert("4"@ =~= seq![spec_dec_digit(4)]);
        }
        "4"
    } else if d == 5 {
        proof {
            reveal_strlit("5");
            assert("5"@ =~= seq![spec_dec_digit(5)]);
        }
        "5"
    } else if d == 6 {
        proof {
            reveal_strlit("6");
            assert("6"@ =~= seq![spec_dec_digit(6)]);
        }
        "6"
    } else if d == 7 {
        proof {
            reveal_strlit("7");
            assert("7"@ =~= seq![spec_dec_digit(7)]);
        }
        "7"
    } else if d == 8 {
        proof {
            reveal_strlit("8");
            assert("8"@ =~= seq![spec_dec_digit(8)]);
        }
        "8"
    } else {
        proof {
            reveal_strlit("9");
            assert("9"@ =~= seq![spec_dec_digit(9)]);
        }
        "9"
    }
}

/// Renders a status code in decimal.
pub fn u16_to_dec(n: u16) -> (r: String)
    ensures
        r@ == spec_dec_rep(n as nat),
    decreases n,
{
    if n < 10 {
        String::from_str(digit_str(n))
    } else {
        let rest = u16_to_dec(n / 10);
        rest.concat(digit_str(n % 10))
    }
}

/// The descriptive text of a malformed-response failure.
pub open spec fn spec_malformed_text(k: MalformedKind) -> Seq<char> {
    match k {
        MalformedKind::MissingCandidates => "missing candidates"@,
        MalformedKind::NoCandidates => "no candidates"@,
        MalformedKind::NoTextParts => "no text parts"@,
        MalformedKind::EmptyText => "empty text"@,
    }
}

pub fn malformed_text(k: MalformedKind) -> (r: String)
    ensures
        r@ == spec_malformed_text(k),
{
    match k {
        MalformedKind::MissingCandidates => String::from_str("missing candidates"),
        MalformedKind::NoCandidates => String::from_str("no candidates"),
        MalformedKind::NoTextParts => String::from_str("no text parts"),
        MalformedKind::EmptyText => String::from_str("empty text"),
    }
}

/// The single user-facing message of a failure: transport failures
/// prefixed with `Request failed: `, JSON decode failures with
/// `Invalid API response JSON: `, remote failures rendered as
/// `Gemini API error (<status>): <message>`, and malformed responses
/// passed through their description.
pub open spec fn spec_format_error(e: PolishError) -> Seq<char> {
    match e {
        PolishError::Transport { cause } => "Request failed: "@ + cause@,
        PolishError::InvalidJson { cause } => "Invalid API response JSON: "@ + cause@,
        PolishError::Remote { status, message } => "Gemini API error ("@ + spec_dec_rep(
            status as nat,
        ) + "): "@ + message@,
        PolishError::Malformed { kind } => spec_malformed_text(kind),
    }
}

pub fn format_error(e: &PolishError) -> (r: String)
    ensures
        r@ == spec_format_error(*e),
{
    match e {
        PolishError::Transport { cause } => {
            let mut out = String::from_str("Request failed: ");
            out.append(cause.as_str());
            out
        },
        PolishError::InvalidJson { cause } => {
            let mut out = String::from_str("Invalid API response JSON: ");
            out.append(cause.as_str());
            out
        },
        PolishError::Remote { status, message } => {
            let mut out = String::from_str("Gemini API error (");
            let dec = u16_to_dec(*status);
            out.append(dec.as_str());
            out.append("): ");
            out.append(message.as_str());
            proof {
                assert(out@ =~= spec_format_error(*e));
            }
            out
        },
        PolishError::Malformed { kind } => malformed_text(*kind),
    }
}

} // verus!
