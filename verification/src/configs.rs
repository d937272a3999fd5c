//! Validation results shared by every configuration section.
use vstd::prelude::*;
use crate::logger::{LogLevel, format_log_line, log_line, shown, should_log};

verus! {

/// A problem that makes a configuration unusable.
///
/// - `InvalidValue`: a field holds a value that cannot be used (section, field, message)
/// - `RequiredField`: a field is missing (section, field)
/// - `StructValue`: the section as a whole is inconsistent (section, message)
#[derive(Debug, PartialEq, Eq)]
pub enum ValidationError {
    InvalidValue { section: &'static str, field: &'static str, message: String },
    RequiredField { section: &'static str, field: &'static str },
    StructValue { section: &'static str, message: String },
}

/// A doubtful but usable configuration value.
#[derive(Clone, Debug, PartialEq, Eq)]
pub enum ValidationWarning {
    InvalidValue { section: &'static str, field: &'static str, message: String },
    StructValue { section: &'static str, message: String },
}

/// What a validation error reads like for the user.
pub open spec fn error_text(e: ValidationError) -> Seq<char> {
    match e {
        ValidationError::InvalidValue { section, field, message } => "Critical error in ["@
            + section@ + "] "@ + field@ + ": "@ + message@,
        ValidationError::RequiredField { section, field } => "Missing required field '"@ + field@
            + "' in section ["@ + section@ + "]"@,
        ValidationError::StructValue { section, message } => "Logic error in section ["@
            + section@ + "]: "@ + message@,
    }
}

/// What a validation warning reads like for the user.
pub open spec fn warning_text(w: ValidationWarning) -> Seq<char> {
    match w {
        ValidationWarning::InvalidValue { section, field, message } => "In ["@ + section@ + "] '"@
            + field@ + "' has invalid value: "@ + message@,
        ValidationWarning::StructValue { section, message } => "In ["@ + section@ + "] "@
            + message@,
    }
}

impl ValidationError {
    /// The user-facing text of the error.
    pub fn to_string(&self) -> (res: String)
        ensures
            res@ == error_text(*self),
    {
        match self {
            ValidationError::InvalidValue { section, field, message } => {
                let mut s = String::from_str("Critical error in [");
                s.append(section);
                s.append("] ");
                s.append(field);
                s.append(": ");
                s.append(message.as_str());
                s
            },
            ValidationError::RequiredField { section, field } => {
                let mut s = String::from_str("Missing required field '");
                s.append(field);
                s.append("' in section [");
                s.append(section);
                s.append("]");
                s
            },
            ValidationError::StructValue { section, message } => {
                let mut s = String::from_str("Logic error in section [");
                s.append(section);
                s.append("]: ");
                s.append(message.as_str());
                s
            },
        }
    }
}

impl ValidationWarning {
    /// The user-facing text of the warning.
    pub fn to_string(&self) -> (res: String)
        ensures
            res@ == warning_text(*self),
    {
        match self {
            ValidationWarning::InvalidValue { section, field, message } => {
                let mut s = String::from_str("In [");
                s.append(section);
                s.append("] '");
                s.append(field);
                s.append("' has invalid value: ");
                s.append(message.as_str());
                s
            },
            ValidationWarning::StructValue { section, message } => {
                let mut s = String::from_str("In [");
                s.append(section);
                s.append("] ");
                s.append(message.as_str());
                s
            },
        }
    }
}

/// A configuration section that can check itself.
pub trait ConfigValidate {
    /// Check the section: the warnings it deserves, or the error that rules it out.
    fn validate(&self) -> Result<Vec<ValidationWarning>, ValidationError>;
}

/// A validation issue as text: kind, section, field (empty when there is none) and message
/// (empty when there is none).
pub enum IssueView {
    InvalidValue(Seq<char>, Seq<char>, Seq<char>),
    RequiredField(Seq<char>, Seq<char>),
    StructValue(Seq<char>, Seq<char>),
}

/// The text view of an error.
pub open spec fn error_view(e: ValidationError) -> IssueView {
    match e {
        ValidationError::InvalidValue { section, field, message } => IssueView::InvalidValue(
            section@,
            field@,
            message@,
        ),
        ValidationError::RequiredField { section, field } => IssueView::RequiredField(
            section@,
            field@,
        ),
        ValidationError::StructValue { section, message } => IssueView::StructValue(
            section@,
            message@,
        ),
    }
}

/// The text view of a warning.
pub open spec fn warning_view(w: ValidationWarning) -> IssueView {
    match w {
        ValidationWarning::InvalidValue { section, field, message } => IssueView::InvalidValue(
            section@,
            field@,
            message@,
        ),
        ValidationWarning::StructValue { section, message } => IssueView::StructValue(
            section@,
            message@,
        ),
    }
}

/// The text view of a validation result.
pub open spec fn result_view(r: Result<Vec<ValidationWarning>, ValidationError>) -> Result<Seq<IssueView>, IssueView> {
    match r {
        Ok(ws) => Ok(Seq::new(ws@.len(), |i: int| warning_view(ws@[i]))),
        Err(e) => Err(error_view(e)),
    }
}

/// The log lines that report `warnings` of `module` under the threshold `max`.
pub open spec fn warning_lines(warnings: Seq<ValidationWarning>, module: Seq<char>, max: u8) -> Seq<Seq<char>> {
    if shown(LogLevel::Warn, max) {
        Seq::new(warnings.len(), |i: int| log_line(LogLevel::Warn, module, warning_text(warnings[i])))
    } else {
        Seq::empty()
    }
}

/// The text view of a list of lines.
pub open spec fn lines_of(v: Seq<String>) -> Seq<Seq<char>> {
    Seq::new(v.len(), |i: int| v[i]@)
}

/// The warning lines for every warning, in order (none when warnings are filtered out
/// by the threshold `max`, a level code).
pub fn warn_validate(warnings: Vec<ValidationWarning>, module: &str, max: u8) -> (lines: Vec<String>)
    ensures
        lines_of(lines@) == warning_lines(warnings@, module@, max),
{
    let mut lines: Vec<String> = Vec::new();
    if !should_log(LogLevel::Warn, max) {
        assert(lines_of(lines@) =~= warning_lines(warnings@, module@, max));
        return lines;
    }
    let mut i: usize = 0;
    while i < warnings.len()
        invariant
            i <= warnings@.len(),
            shown(LogLevel::Warn, max),
            lines@.len() == i,
            forall|j: int|
                0 <= j < i ==> #[trigger] lines@[j]@ == log_line(
                    LogLevel::Warn,
                    module@,
                    warning_text(warnings@[j]),
                ),
        decreases warnings@.len() - i,
    {
        let text = warnings[i].to_string();
        lines.push(format_log_line(LogLevel::Warn, module, text.as_str()));
        i = i + 1;
    }
    assert(lines_of(lines@) =~= warning_lines(warnings@, module@, max));
    lines
}

/// What a validation run reports: lines for the log, and whether the process must stop
/// (with exit status 1).
pub struct ValidationReport {
    pub lines: Vec<String>,
    pub exit: bool,
}

/// The lines and the stop decision for the validation results of a run of sections,
/// which stops at the first error.
pub open spec fn validation_outcome(
    results: Seq<Result<Vec<ValidationWarning>, ValidationError>>,
    module: Seq<char>,
    max: u8,
) -> (Seq<Seq<char>>, bool)
    decreases results.len(),
{
    if results.len() == 0 {
        (Seq::empty(), false)
    } else {
        match results[0] {
            Ok(ws) => {
                let (rest, exit) = validation_outcome(results.drop_first(), module, max);
                (warning_lines(ws@, module, max) + rest, exit)
            },
            Err(e) => (
                if shown(LogLevel::Error, max) {
                    seq![log_line(LogLevel::Error, module, error_text(e))]
                } else {
                    Seq::empty()
                },
                true,
            ),
        }
    }
}

/// Report one section's validation result: its warnings, or its error and the
/// decision to stop.
pub fn validate_config(
    result: Result<Vec<ValidationWarning>, ValidationError>,
    module: &str,
    max: u8,
) -> (r: ValidationReport)
    ensures
        (lines_of(r.lines@), r.exit) == validation_outcome(seq![result], module@, max),
{
    proof {
        assert(seq![result].drop_first() =~= Seq::<
            Result<Vec<ValidationWarning>, ValidationError>,
        >::empty());
    }
    match result {
        Ok(warnings) => {
            let ghost ws = warnings@;
            let lines = warn_validate(warnings, module, max);
            proof {
                assert(validation_outcome(Seq::empty(), module@, max) == (
                    Seq::<Seq<char>>::empty(),
                    false,
                ));
                assert(lines_of(lines@) =~= warning_lines(ws, module@, max) + Seq::<
                    Seq<char>,
                >::empty());
            }
            ValidationReport { lines, exit: false }
        },
        Err(e) => {
            let mut lines: Vec<String> = Vec::new();
            if should_log(LogLevel::Error, max) {
                let text = e.to_string();
                lines.push(format_log_line(LogLevel::Error, module, text.as_str()));
            }
            assert(lines_of(lines@) =~= validation_outcome(seq![Err(e)], module@, max).0);
            ValidationReport { lines, exit: true }
        },
    }
}

/// The outcome of a run of results is that of its first result followed, unless that
/// one stops the run, by the outcome of the rest.
pub proof fn lemma_outcome_cons(
    rs: Seq<Result<Vec<ValidationWarning>, ValidationError>>,
    module: Seq<char>,
    max: u8,
)
    requires
        rs.len() > 0,
    ensures
        validation_outcome(rs, module, max) == (if validation_outcome(seq![rs[0]], module, max).1 {
            validation_outcome(seq![rs[0]], module, max)
        } else {
            (
                validation_outcome(seq![rs[0]], module, max).0 + validation_outcome(
                    rs.drop_first(),
                    module,
                    max,
                ).0,
                validation_outcome(rs.drop_first(), module, max).1,
            )
        }),
{
    let one = seq![rs[0]];
    assert(one.drop_first() =~= Seq::<Result<Vec<ValidationWarning>, ValidationError>>::empty());
    assert(validation_outcome(Seq::empty(), module, max) == (Seq::<Seq<char>>::empty(), false));
    match rs[0] {
        Ok(ws) => {
            assert(warning_lines(ws@, module, max) + Seq::<Seq<char>>::empty() =~= warning_lines(
                ws@,
                module,
                max,
            ));
        },
        Err(_) => {},
    }
}

/// Append the lines of `more` to `lines`.
fn append_lines(lines: &mut Vec<String>, more: Vec<String>)
    ensures
        lines_of(final(lines)@) == lines_of(old(lines)@) + lines_of(more@),
{
    let ghost before = lines_of(lines@);
    let ghost added = lines_of(more@);
    let mut k: usize = 0;
    while k < more.len()
        invariant
            k <= more@.len(),
            added == lines_of(more@),
            lines_of(lines@) == before + added.take(k as int),
        decreases more@.len() - k,
    {
        let line = more[k].clone();
        let ghost old_lines = lines@;
        lines.push(line);
        proof {
            assert(lines@ == old_lines.push(line));
            assert(line@ == added[k as int]);
            assert(lines_of(lines@) =~= lines_of(old_lines).push(line@));
            assert((before + added.take(k as int)).push(added[k as int]) =~= before + added.take(
                k + 1,
            ));
        }
        k = k + 1;
        assert(lines_of(lines@) =~= before + added.take(k as int));
    }
    assert(added.take(k as int) =~= added);
}

/// Report the validation results of several sections, in order, up to the first error.
///
/// The results are given already computed; where a later section must not be validated
/// once an earlier one failed, drive a `ValidationRun` section by section instead.
pub fn validate_configs(
    results: Vec<Result<Vec<ValidationWarning>, ValidationError>>,
    module: &str,
    max: u8,
) -> (r: ValidationReport)
    ensures
        (lines_of(r.lines@), r.exit) == validation_outcome(results@, module@, max),
{
    let ghost all = results@;
    let total = results.len();
    let mut rs = results;
    let mut lines: Vec<String> = Vec::new();
    let mut i: usize = 0;
    proof {
        assert(all.skip(0) =~= all);
        assert(lines_of(lines@) =~= Seq::<Seq<char>>::empty());
    }
    while rs.len() > 0
        invariant
            i <= all.len(),
            all.len() == total,
            all == results@,
            rs@ == all.skip(i as int),
            validation_outcome(all, module@, max) == {
                let (rest, exit) = validation_outcome(all.skip(i as int), module@, max);
                (lines_of(lines@) + rest, exit)
            },
        decreases rs@.len(),
    {
        let ghost before = lines_of(lines@);
        let ghost rest_all = all.skip(i as int);
        let result = rs.remove(0);
        proof {
            assert(rest_all[0] == result);
            assert(rest_all.drop_first() =~= all.skip(i + 1));
            lemma_outcome_cons(rest_all, module@, max);
        }
        let report = validate_config(result, module, max);
        let exit = report.exit;
        let ghost one = validation_outcome(seq![result], module@, max);
        assert(exit == one.1);
        append_lines(&mut lines, report.lines);
        assert(lines_of(lines@) == before + one.0);
        i = i + 1;
        if exit {
            proof {
                assert(validation_outcome(rest_all, module@, max) == one);
                assert(validation_outcome(all, module@, max) == (before + validation_outcome(
                    rest_all,
                    module@,
                    max,
                ).0, true));
            }
            return ValidationReport { lines, exit: true };
        }
        proof {
            let tail = validation_outcome(all.skip(i as int), module@, max).0;
            let added = validation_outcome(seq![result], module@, max).0;
            assert((before + added) + tail =~= before + (added + tail));
        }
    }
    proof {
        assert(all.skip(i as int) =~= Seq::<Result<Vec<ValidationWarning>, ValidationError>>::empty());
        assert(lines_of(lines@) + Seq::<Seq<char>>::empty() =~= lines_of(lines@));
    }
    ValidationReport { lines, exit: false }
}

/// A validation run driven one section at a time: the next section is validated only
/// while the run has not stopped, so no section after the first error is ever looked at.
pub struct ValidationRun {
    pub lines: Vec<String>,
    pub exit: bool,
}

impl ValidationRun {
    /// A run that has reported nothing yet.
    pub fn new() -> (r: Self)
        ensures
            r.lines@.len() == 0,
            !r.exit,
    {
        ValidationRun { lines: Vec::new(), exit: false }
    }

    /// Report the result of the next section. Returns whether the following section is
    /// to be validated: `false` once an error stopped the run.
    pub fn record(
        &mut self,
        result: Result<Vec<ValidationWarning>, ValidationError>,
        module: &str,
        max: u8,
    ) -> (more: bool)
        requires
            !old(self).exit,
        ensures
            lines_of(final(self).lines@) == lines_of(old(self).lines@) + validation_outcome(
                seq![result],
                module@,
                max,
            ).0,
            final(self).exit == validation_outcome(seq![result], module@, max).1,
            more == !final(self).exit,
    {
        let report = validate_config(result, module, max);
        let exit = report.exit;
        append_lines(&mut self.lines, report.lines);
        self.exit = exit;
        !exit
    }
}

/// Driving a run section by section gives what a run over all the results gives: the
/// first result's report, then, unless it stopped the run, the report of the rest.
pub proof fn lemma_run_step(
    done: Seq<Seq<char>>,
    rs: Seq<Result<Vec<ValidationWarning>, ValidationError>>,
    module: Seq<char>,
    max: u8,
)
    requires
        rs.len() > 0,
    ensures
        ({
            let one = validation_outcome(seq![rs[0]], module, max);
            let all = validation_outcome(rs, module, max);
            let rest = validation_outcome(rs.drop_first(), module, max);
            &&& one.1 ==> (done + all.0, all.1) == (done + one.0, true)
            &&& !one.1 ==> (done + all.0, all.1) == ((done + one.0) + rest.0, rest.1)
        }),
{
    lemma_outcome_cons(rs, module, max);
    let one = validation_outcome(seq![rs[0]], module, max);
    let rest = validation_outcome(rs.drop_first(), module, max);
    assert(done + (one.0 + rest.0) =~= (done + one.0) + rest.0);
}

} // verus!
