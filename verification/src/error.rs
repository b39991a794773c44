use vstd::prelude::*;

verus! {

/// Stable classification of every host failure.
#[derive(Clone, Copy, Debug, PartialEq, Eq, Structural)]
pub enum HostErrorCode {
    InvalidRequest,
    SchemaMismatch,
    BudgetExceeded,
    ProviderUnavailable,
    InvalidResponse,
    TimedOut,
    Cancelled,
    Closed,
    Interrupted,
    AuthorityDenied,
    ToolRejected,
}

/// A typed host failure: a code, a human-readable message and ordered details.
#[derive(Debug, PartialEq)]
pub struct HostError {
    pub code: HostErrorCode,
    pub message: String,
    pub details: Vec<(String, String)>,
}

/// The details of an error as pairs of character sequences.
pub open spec fn details_view(details: Seq<(String, String)>) -> Seq<(Seq<char>, Seq<char>)> {
    Seq::new(details.len(), |i: int| (details[i].0@, details[i].1@))
}

impl Clone for HostError {
    fn clone(&self) -> (copy: HostError)
        ensures
            copy.code == self.code,
            copy.message@ == self.message@,
            details_view(copy.details@) == details_view(self.details@),
    {
        let mut details: Vec<(String, String)> = Vec::new();
        let mut i: usize = 0;
        while i < self.details.len()
            invariant
                i <= self.details@.len(),
                details@.len() == i,
                forall|j: int|
                    0 <= j < i ==> (#[trigger] details@[j]).0@ == self.details@[j].0@
                        && details@[j].1@ == self.details@[j].1@,
            decreases self.details@.len() - i,
        {
            details.push((self.details[i].0.clone(), self.details[i].1.clone()));
            i = i + 1;
        }
        assert(details_view(details@) =~= details_view(self.details@));
        HostError { code: self.code, message: self.message.clone(), details }
    }
}

impl HostError {
    pub fn new(code: HostErrorCode, message: &str) -> (error: HostError)
        ensures
            error.code == code,
            error.message@ == message@,
            error.details@.len() == 0,
    {
        HostError { code, message: message.to_owned(), details: Vec::new() }
    }

    /// Builds an error whose message was composed at run time.
    pub fn with_message(code: HostErrorCode, message: String) -> (error: HostError)
        ensures
            error.code == code,
            error.message@ == message@,
            error.details@.len() == 0,
    {
        HostError { code, message, details: Vec::new() }
    }

    /// Appends one `(name, value)` detail, keeping code and message.
    pub fn with_detail(self, name: &str, value: String) -> (error: HostError)
        ensures
            error.code == self.code,
            error.message@ == self.message@,
            error.details@.len() == self.details@.len() + 1,
            forall|i: int| 0 <= i < self.details@.len() ==> error.details@[i] == self.details@[i],
            error.details@.last().0@ == name@,
            error.details@.last().1@ == value@,
    {
        let mut error = self;
        error.details.push((name.to_owned(), value));
        error
    }
}

} // verus!
