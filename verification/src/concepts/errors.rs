use vstd::prelude::*;

verus! {

/// Error raised while evaluating the right-hand side of an ODE.
///
/// When the evaluation of the right-hand side `f(y, t, p)` of the ODE
/// `dy/dt = f(y, t, p)` encounters a problem (a domain violation, a numerical
/// singularity), the evaluation function reports it with this error.  It
/// carries a human-readable message, which is the error's abstract view.
#[derive(Debug, Clone)]
pub struct CalcError {
    message: String,
}

impl View for CalcError {
    type V = Seq<char>;

    closed spec fn view(&self) -> Seq<char> {
        self.message@
    }
}

impl CalcError {
    /// Builds the error around the given message.
    pub fn new(message: String) -> (error: Self)
        ensures
            error@ == message@,
    {
        CalcError { message }
    }

    /// The message the error carries.
    pub fn message(&self) -> (message: &String)
        ensures
            message@ == self@,
    {
        &self.message
    }
}

impl From<String> for CalcError {
    fn from(string: String) -> (error: Self) {
        CalcError { message: string }
    }
}

impl vstd::std_specs::convert::FromSpecImpl<String> for CalcError {
    open spec fn obeys_from_spec() -> bool {
        true
    }

    closed spec fn from_spec(string: String) -> Self {
        CalcError { message: string }
    }
}

/// The message carried by `CalcError::from(string)`.
pub broadcast proof fn lemma_calc_error_from_string(string: String)
    ensures
        (#[trigger] <CalcError as vstd::std_specs::convert::FromSpec<String>>::from_spec(string))@
            == string@,
{
}

/// Error raised by the driving layer when solving does not produce a result.
///
/// It reports a structural problem of the requested time series (too few
/// points, a non-increasing sequence) or wraps an evaluation failure met
/// mid-drive, carrying the same message.  The message is the error's
/// abstract view.
#[derive(Debug, Clone)]
pub struct SolvingError {
    message: String,
}

impl View for SolvingError {
    type V = Seq<char>;

    closed spec fn view(&self) -> Seq<char> {
        self.message@
    }
}

impl SolvingError {
    /// Builds the error around the given message.
    pub fn new(message: String) -> (error: Self)
        ensures
            error@ == message@,
    {
        SolvingError { message }
    }

    /// The message the error carries.
    pub fn message(&self) -> (message: &String)
        ensures
            message@ == self@,
    {
        &self.message
    }
}

impl From<String> for SolvingError {
    fn from(string: String) -> (error: Self) {
        SolvingError { message: string }
    }
}

impl vstd::std_specs::convert::FromSpecImpl<String> for SolvingError {
    open spec fn obeys_from_spec() -> bool {
        true
    }

    closed spec fn from_spec(string: String) -> Self {
        SolvingError { message: string }
    }
}

/// The message carried by `SolvingError::from(string)`.
pub broadcast proof fn lemma_solving_error_from_string(string: String)
    ensures
        (#[trigger] <SolvingError as vstd::std_specs::convert::FromSpec<String>>::from_spec(
            string,
        ))@ == string@,
{
}

impl From<CalcError> for SolvingError {
    fn from(error: CalcError) -> (solving: Self) {
        SolvingError { message: error.message }
    }
}

impl vstd::std_specs::convert::FromSpecImpl<CalcError> for SolvingError {
    open spec fn obeys_from_spec() -> bool {
        true
    }

    closed spec fn from_spec(error: CalcError) -> Self {
        SolvingError { message: error.message }
    }
}

/// Wrapping an evaluation failure keeps its message: the drivers hand the
/// caller one failure type whichever layer failed.
pub broadcast proof fn lemma_solving_error_from_calc(error: CalcError)
    ensures
        (#[trigger] <SolvingError as vstd::std_specs::convert::FromSpec<CalcError>>::from_spec(
            error,
        ))@ == error@,
{
}

} // verus!
