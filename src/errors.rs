use vstd::prelude::*;
use vstd::string::*;

verus! {

/// Errors that end a run abnormally.
#[derive(Debug)]
pub enum LoadGenError {
    /// The port segment of the address is not an unsigned 32-bit number.
    InvalidPortError(String),
    /// No outcome was collected during the whole run.
    NoResultsError,
    /// A rate of zero requests per second can never use up the budget.
    ZeroRateError,
}

pub open spec fn invalid_port_message(port: Seq<char>) -> Seq<char> {
    "[LoadGeneratorError]: "@ + port + " is an invalid port!"@
}

pub open spec fn no_results_message() -> Seq<char> {
    "[LoadGeneratorError]: No results are available! Connection issue for full duration of tests."@
}

pub open spec fn zero_rate_message() -> Seq<char> {
    "[LoadGeneratorError]: A rate of 0 requests per second is not allowed!"@
}

impl LoadGenError {
    /// The text shown to the user for this error.
    pub fn message(&self) -> (r: String)
        ensures
            r@ == match self {
                LoadGenError::InvalidPortError(port) => invalid_port_message(port@),
                LoadGenError::NoResultsError => no_results_message(),
                LoadGenError::ZeroRateError => zero_rate_message(),
            },
    {
        match self {
            LoadGenError::InvalidPortError(port) => {
                proof {
                    reveal_strlit("[LoadGeneratorError]: ");
                    reveal_strlit(" is an invalid port!");
                }
                let mut r = String::from_str("[LoadGeneratorError]: ");
                r.append(port.as_str());
                r.append(" is an invalid port!");
                r
            },
            LoadGenError::NoResultsError => {
                proof {
                    reveal_strlit(
                        "[LoadGeneratorError]: No results are available! Connection issue for full duration of tests.",
                    );
                }
                String::from_str(
                    "[LoadGeneratorError]: No results are available! Connection issue for full duration of tests.",
                )
            },
            LoadGenError::ZeroRateError => {
                proof {
                    reveal_strlit(
                        "[LoadGeneratorError]: A rate of 0 requests per second is not allowed!",
                    );
                }
                String::from_str(
                    "[LoadGeneratorError]: A rate of 0 requests per second is not allowed!",
                )
            },
        }
    }
}

} // verus!
