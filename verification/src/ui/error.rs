//! Errors that end a simulation run in the user interface.

use vstd::prelude::*;
use vstd::string::*;

verus! {

/// `ToString::to_string` on an I/O error: the text of the error.
///
/// Trusted, and claims nothing of the text: it depends on the operating
/// system the error came from.
#[verifier::external_body]
pub(crate) fn io_error_text(err: &std::io::Error) -> String {
    err.to_string()
}

/// Why a simulation run ended early.
#[derive(Debug)]
pub enum SimError {
    /// The user stopped the simulation.
    EarlyExit,
    /// The terminal failed.
    Tui(std::io::Error),
    /// The simulated CPU failed, with the text of each of its errors.
    Cpu(Vec<String>),
}

/// The text of the CPU errors `errs`, each on a line of its own.
pub open spec fn lines(errs: Seq<Seq<char>>) -> Seq<char>
    decreases errs.len(),
{
    if errs.len() == 0 {
        Seq::empty()
    } else {
        lines(errs.drop_last()) + errs.last() + "\n"@
    }
}

impl From<std::io::Error> for SimError {
    fn from(err: std::io::Error) -> (r: Self) {
        SimError::Tui(err)
    }
}

impl vstd::std_specs::convert::FromSpecImpl<std::io::Error> for SimError {
    open spec fn obeys_from_spec() -> bool {
        true
    }

    open spec fn from_spec(v: std::io::Error) -> SimError {
        SimError::Tui(v)
    }
}

impl From<Vec<String>> for SimError {
    fn from(errs: Vec<String>) -> (r: Self) {
        SimError::Cpu(errs)
    }
}

impl vstd::std_specs::convert::FromSpecImpl<Vec<String>> for SimError {
    open spec fn obeys_from_spec() -> bool {
        true
    }

    open spec fn from_spec(v: Vec<String>) -> SimError {
        SimError::Cpu(v)
    }
}

impl SimError {
    /// The text this error is shown as: `early exit`, the terminal error's own
    /// text, or every CPU error followed by a line break.
    pub fn message(&self) -> (r: String)
        ensures
            self is EarlyExit ==> r@ == "early exit"@,
            self matches SimError::Cpu(errs) ==> r@ == lines(errs@.map_values(|e: String| e@)),
    {
        match self {
            SimError::EarlyExit => String::from_str("early exit"),
            SimError::Tui(err) => io_error_text(err),
            SimError::Cpu(errs) => {
                let ghost texts = errs@.map_values(|e: String| e@);
                let mut text = String::new();
                let mut i: usize = 0;
                while i < errs.len()
                    invariant
                        i <= errs@.len(),
                        texts == errs@.map_values(|e: String| e@),
                        text@ == lines(texts.take(i as int)),
                    decreases errs.len() - i,
                {
                    text.append(errs[i].as_str());
                    text.append("\n");
                    proof {
                        assert(texts.take(i + 1).drop_last() =~= texts.take(i as int));
                    }
                    i = i + 1;
                }
                proof {
                    assert(texts.take(errs@.len() as int) =~= texts);
                }
                text
            },
        }
    }
}

} // verus!
