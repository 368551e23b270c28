//! What a formatting call reported, and the status code that stands for it.

use vstd::prelude::*;

verus! {

/// Status of a call that met no error.
pub const STATUS_CLEAN: i32 = 0;

/// Status of a call that met an operational error.
pub const STATUS_OPERATIONAL: i32 = 1;

/// Status of a call that met a parsing error.
pub const STATUS_PARSING: i32 = 2;

/// Status of a call that met a formatting error.
pub const STATUS_FORMATTING: i32 = 3;

/// The one classification of a call. Where several kinds of error were met,
/// the gravest classifies the call: operational before parsing before
/// formatting.
#[derive(Clone, Copy, Debug, PartialEq, Eq)]
pub enum Severity {
    Clean,
    Formatting,
    Parsing,
    Operational,
}

impl Severity {
    /// The status code of this classification.
    pub open spec fn spec_status_code(self) -> i32 {
        match self {
            Severity::Operational => STATUS_OPERATIONAL,
            Severity::Parsing => STATUS_PARSING,
            Severity::Formatting => STATUS_FORMATTING,
            Severity::Clean => STATUS_CLEAN,
        }
    }

    /// The status code of this classification.
    pub fn status_code(self) -> (status: i32)
        ensures
            status == self.spec_status_code(),
    {
        match self {
            Severity::Operational => STATUS_OPERATIONAL,
            Severity::Parsing => STATUS_PARSING,
            Severity::Formatting => STATUS_FORMATTING,
            Severity::Clean => STATUS_CLEAN,
        }
    }
}

/// What the formatter reported of one call: the kinds of error it met. Any
/// combination of the three may be reported together.
#[derive(Clone, Copy, Debug, PartialEq, Eq)]
pub struct Summary {
    pub has_operational_errors: bool,
    pub has_parsing_errors: bool,
    pub has_formatting_errors: bool,
}

impl Summary {
    /// True when no kind of error was reported.
    pub open spec fn spec_has_no_errors(self) -> bool {
        !self.has_operational_errors && !self.has_parsing_errors && !self.has_formatting_errors
    }

    /// The gravest kind of error reported, `Clean` where none was.
    pub open spec fn spec_severity(self) -> Severity {
        if self.has_operational_errors {
            Severity::Operational
        } else if self.has_parsing_errors {
            Severity::Parsing
        } else if self.has_formatting_errors {
            Severity::Formatting
        } else {
            Severity::Clean
        }
    }

    /// A summary that reports nothing.
    pub fn new() -> (summary: Summary)
        ensures
            summary.spec_has_no_errors(),
    {
        Summary {
            has_operational_errors: false,
            has_parsing_errors: false,
            has_formatting_errors: false,
        }
    }

    /// True when no kind of error was reported.
    pub fn has_no_errors(&self) -> (clean: bool)
        ensures
            clean == self.spec_has_no_errors(),
    {
        !self.has_operational_errors && !self.has_parsing_errors && !self.has_formatting_errors
    }

    /// The gravest kind of error reported, `Clean` where none was.
    pub fn severity(&self) -> (severity: Severity)
        ensures
            severity == self.spec_severity(),
            severity == Severity::Clean <==> self.spec_has_no_errors(),
    {
        if self.has_operational_errors {
            Severity::Operational
        } else if self.has_parsing_errors {
            Severity::Parsing
        } else if self.has_formatting_errors {
            Severity::Formatting
        } else {
            Severity::Clean
        }
    }
}

/// The status code of a summary: that of its gravest kind of error.
pub open spec fn spec_process_summary(summary: Summary) -> i32 {
    summary.spec_severity().spec_status_code()
}

/// Maps what the formatter reported to the status code of the call: 1 where
/// an operational error was reported, else 2 where a parsing error was, else
/// 3 where a formatting error was, else 0.
pub fn process_summary(error_summary: Summary) -> (status_code: i32)
    ensures
        status_code == spec_process_summary(error_summary),
        error_summary.has_operational_errors ==> status_code == 1,
        !error_summary.has_operational_errors && error_summary.has_parsing_errors ==> status_code
            == 2,
        !error_summary.has_operational_errors && !error_summary.has_parsing_errors
            && error_summary.has_formatting_errors ==> status_code == 3,
        error_summary.spec_has_no_errors() <==> status_code == 0,
{
    error_summary.severity().status_code()
}

} // verus!
