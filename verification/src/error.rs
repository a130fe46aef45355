//! Error types of the retrying HTTP facade, and their rendering as text.

use reqwest::Error as ReqwestError;
use vstd::prelude::*;

verus! {

/// Declares `reqwest::Error`, the opaque failure type of the underlying HTTP
/// engine, so that it can be carried through this crate's own error type.
#[verifier::external_type_specification]
#[verifier::external_body]
pub struct ExReqwestError(ReqwestError);

/// What a call through this crate can fail with.
#[derive(Debug)]
pub enum Error {
    /// An opaque failure surfaced by the underlying HTTP engine.
    Reqwest(ReqwestError),
    /// The request body could not be duplicated for a further attempt.
    NonRetriableRequest,
    /// Every permitted attempt failed; carries the attempt budget.
    ExceededMaxRetries(u32),
    /// The response bytes did not parse as the requested structured shape;
    /// carries the parser's message and a render of the offending bytes.
    Deserialization(String),
}

/// The character of one decimal digit.
pub open spec fn digit_char(d: nat) -> char {
    if d == 0 {
        '0'
    } else if d == 1 {
        '1'
    } else if d == 2 {
        '2'
    } else if d == 3 {
        '3'
    } else if d == 4 {
        '4'
    } else if d == 5 {
        '5'
    } else if d == 6 {
        '6'
    } else if d == 7 {
        '7'
    } else if d == 8 {
        '8'
    } else {
        '9'
    }
}

/// The decimal rendering of `n`, most significant digit first, with no
/// leading zero except for zero itself.
pub open spec fn decimal_digits(n: nat) -> Seq<char>
    decreases n,
{
    if n < 10 {
        seq![digit_char(n)]
    } else {
        decimal_digits(n / 10).push(digit_char(n % 10))
    }
}

fn append_digit(out: &mut String, d: u32)
    requires
        d < 10,
    ensures
        final(out)@ == old(out)@.push(digit_char(d as nat)),
{
    if d == 0 {
        proof {
            reveal_strlit("0");
        }
        out.append("0");
    } else if d == 1 {
        proof {
            reveal_strlit("1");
        }
        out.append("1");
    } else if d == 2 {
        proof {
            reveal_strlit("2");
        }
        out.append("2");
    } else if d == 3 {
        proof {
            reveal_strlit("3");
        }
        out.append("3");
    } else if d == 4 {
        proof {
            reveal_strlit("4");
        }
        out.append("4");
    } else if d == 5 {
        proof {
            reveal_strlit("5");
        }
        out.append("5");
    } else if d == 6 {
        proof {
            reveal_strlit("6");
        }
        out.append("6");
    } else if d == 7 {
        proof {
            reveal_strlit("7");
        }
        out.append("7");
    } else if d == 8 {
        proof {
            reveal_strlit("8");
        }
        out.append("8");
    } else {
        proof {
            reveal_strlit("9");
        }
        out.append("9");
    }
    proof {
        assert(out@ =~= old(out)@.push(digit_char(d as nat)));
    }
}

fn append_decimal(out: &mut String, n: u32)
    ensures
        final(out)@ == old(out)@ + decimal_digits(n as nat),
    decreases n,
{
    if n < 10 {
        append_digit(out, n);
    } else {
        append_decimal(out, n / 10);
        append_digit(out, n % 10);
    }
    proof {
        assert(out@ =~= old(out)@ + decimal_digits(n as nat));
    }
}

/// Relies on `reqwest::Error`'s display rendering (through
/// `ToString::to_string`): the failure text as the engine reports it.
#[verifier::external_body]
fn engine_error_text(error: &ReqwestError) -> (r: String) {
    error.to_string()
}

impl Error {
    /// Render the error as human-readable text. The two retry errors and
    /// the deserialization error carry fixed wording, pinned below; an
    /// engine failure renders exactly as the engine reports it.
    pub fn message(&self) -> (m: String)
        ensures
            self is NonRetriableRequest ==> m@
                == "[reqwew] non-retriable request; this typically occurs when attempting to retry a stream body request"@,
            (self matches Error::ExceededMaxRetries(retries) ==> m@
                == "[reqwew] max retries exceeded after "@ + decimal_digits(retries as nat)
                + " attempts"@),
            (self matches Error::Deserialization(detail) ==> m@
                == "[reqwew] deserialization error: "@ + detail@),
    {
        match self {
            Error::Reqwest(error) => engine_error_text(error),
            Error::NonRetriableRequest => String::from_str(
                "[reqwew] non-retriable request; this typically occurs when attempting to retry a stream body request",
            ),
            Error::ExceededMaxRetries(retries) => {
                let mut m = String::from_str("[reqwew] max retries exceeded after ");
                append_decimal(&mut m, *retries);
                m.append(" attempts");
                m
            },
            Error::Deserialization(detail) => {
                let mut m = String::from_str("[reqwew] deserialization error: ");
                m.append(detail.as_str());
                m
            },
        }
    }
}

} // verus!
