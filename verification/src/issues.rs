//! What the validator finds: a list of issues, each an error or a warning.

use vstd::prelude::*;
use vstd::string::*;

verus! {

/// How serious an issue is.
#[derive(Debug, Clone, Copy, PartialEq, Eq, Structural)]
pub enum Severity {
    Error,
    Warning,
}

/// One finding: what is wrong, and where in the tree.
#[derive(Debug, PartialEq, Eq)]
pub struct Issue {
    pub severity: Severity,
    pub message: String,
    /// The path to the entity, such as
    /// `Metadata(name) > RecordSet(kind) > Field(name)`.
    pub context: Option<String>,
}

/// The view of an [`Issue`].
pub struct IssueView {
    pub severity: Severity,
    pub message: Seq<char>,
    pub context: Option<Seq<char>>,
}

impl View for Issue {
    type V = IssueView;

    open spec fn view(&self) -> IssueView {
        IssueView {
            severity: self.severity,
            message: self.message@,
            context: self.context.deep_view(),
        }
    }
}

impl DeepView for Issue {
    type V = IssueView;

    open spec fn deep_view(&self) -> IssueView {
        self@
    }
}

impl Clone for Issue {
    fn clone(&self) -> (r: Issue)
        ensures
            r@ == self@,
    {
        Issue {
            severity: self.severity,
            message: self.message.clone(),
            context: self.context.clone(),
        }
    }
}

/// An error found at `context`.
pub open spec fn error_at(message: Seq<char>, context: Seq<char>) -> IssueView {
    IssueView { severity: Severity::Error, message, context: Some(context) }
}

/// A warning given at `context`.
pub open spec fn warning_at(message: Seq<char>, context: Seq<char>) -> IssueView {
    IssueView { severity: Severity::Warning, message, context: Some(context) }
}

/// The issues of one severity, in the order in which they stand in `issues`.
pub open spec fn select(issues: Seq<IssueView>, severity: Severity) -> Seq<IssueView>
    decreases issues.len(),
{
    if issues.len() == 0 {
        Seq::empty()
    } else if issues.last().severity == severity {
        select(issues.drop_last(), severity).push(issues.last())
    } else {
        select(issues.drop_last(), severity)
    }
}

/// The word that starts the line of an issue.
pub open spec fn severity_word(severity: Severity) -> Seq<char> {
    match severity {
        Severity::Error => "error: "@,
        Severity::Warning => "warning: "@,
    }
}

/// The line of one issue in a report: the severity, the message and, in
/// square brackets, the path, ended by a line feed.
pub open spec fn report_line(issue: IssueView) -> Seq<char> {
    severity_word(issue.severity) + issue.message + match issue.context {
        Some(path) => " ["@ + path + "]"@,
        None => Seq::empty(),
    } + "\n"@
}

/// The lines of the given issues, one after the other.
pub open spec fn report_lines(issues: Seq<IssueView>) -> Seq<char>
    decreases issues.len(),
{
    if issues.len() == 0 {
        Seq::empty()
    } else {
        report_lines(issues.drop_last()) + report_line(issues.last())
    }
}

/// The report of a list of issues: every error, then every warning.
pub open spec fn report_text(issues: Seq<IssueView>) -> Seq<char> {
    report_lines(select(issues, Severity::Error)) + report_lines(
        select(issues, Severity::Warning),
    )
}

/// Selecting from a list with one more issue at its end.
pub proof fn lemma_select_push(issues: Seq<IssueView>, issue: IssueView, severity: Severity)
    ensures
        select(issues.push(issue), severity) == if issue.severity == severity {
            select(issues, severity).push(issue)
        } else {
            select(issues, severity)
        },
{
    assert(issues.push(issue).drop_last() =~= issues);
}

impl Issue {
    /// Whether the issue is an error.
    pub fn is_error(&self) -> (r: bool)
        ensures
            r == (self@.severity == Severity::Error),
    {
        match self.severity {
            Severity::Error => true,
            Severity::Warning => false,
        }
    }

    /// The line of the issue in a report.
    pub fn to_string(&self) -> (r: String)
        ensures
            r@ == report_line(self@),
    {
        let mut line = match self.severity {
            Severity::Error => String::from_str("error: "),
            Severity::Warning => String::from_str("warning: "),
        };
        line.append(self.message.as_str());
        match &self.context {
            Some(path) => {
                let mut tail = String::from_str(" [");
                tail.append(path.as_str());
                tail.append("]");
                line.append(tail.as_str());
            },
            None => {
            },
        }
        line.append("\n");
        line
    }
}

/// The issues of one validation, in document order.
#[derive(Debug, PartialEq, Eq)]
pub struct Issues {
    pub items: Vec<Issue>,
}

impl View for Issues {
    type V = Seq<IssueView>;

    open spec fn view(&self) -> Seq<IssueView> {
        self.items.deep_view()
    }
}

impl Clone for Issues {
    fn clone(&self) -> (r: Issues)
        ensures
            r@ == self@,
    {
        let r = Issues { items: self.items.clone() };
        r
    }
}

impl Issues {
    /// An empty list.
    pub fn new() -> (r: Issues)
        ensures
            r@ == Seq::<IssueView>::empty(),
    {
        let r = Issues { items: Vec::new() };
        r
    }

    /// Adds an issue at the end.
    pub fn add(&mut self, issue: Issue)
        ensures
            final(self)@ == old(self)@.push(issue@),
    {
        self.items.push(issue);
    }

    /// Adds an error found at `context`.
    pub fn add_error(&mut self, message: String, context: String)
        ensures
            final(self)@ == old(self)@.push(error_at(message@, context@)),
    {
        self.add(Issue { severity: Severity::Error, message, context: Some(context) });
    }

    /// Adds a warning given at `context`.
    pub fn add_warning(&mut self, message: String, context: String)
        ensures
            final(self)@ == old(self)@.push(warning_at(message@, context@)),
    {
        self.add(Issue { severity: Severity::Warning, message, context: Some(context) });
    }

    /// The number of issues.
    pub fn len(&self) -> (r: usize)
        ensures
            r == self@.len(),
    {
        self.items.len()
    }

    /// Whether nothing was found.
    pub fn is_empty(&self) -> (r: bool)
        ensures
            r == (self@.len() == 0),
    {
        self.items.len() == 0
    }

    /// The number of issues of one severity.
    pub fn count(&self, severity: Severity) -> (r: usize)
        ensures
            r == select(self@, severity).len(),
    {
        let mut n: usize = 0;
        let mut i: usize = 0;
        while i < self.items.len()
            invariant
                0 <= i <= self.items@.len(),
                n <= i,
                n == select(self@.take(i as int), severity).len(),
            decreases self.items@.len() - i,
        {
            proof {
                assert(self@.take(i + 1) =~= self@.take(i as int).push(self.items@[i as int]@));
                lemma_select_push(self@.take(i as int), self.items@[i as int]@, severity);
            }
            if self.items[i].severity == severity {
                n += 1;
            }
            i += 1;
        }
        assert(self@.take(self@.len() as int) =~= self@);
        n
    }

    /// The number of errors.
    pub fn error_count(&self) -> (r: usize)
        ensures
            r == select(self@, Severity::Error).len(),
    {
        self.count(Severity::Error)
    }

    /// The number of warnings.
    pub fn warning_count(&self) -> (r: usize)
        ensures
            r == select(self@, Severity::Warning).len(),
    {
        self.count(Severity::Warning)
    }

    /// Whether there is at least one error.
    pub fn has_errors(&self) -> (r: bool)
        ensures
            r == (select(self@, Severity::Error).len() > 0),
    {
        self.count(Severity::Error) > 0
    }

    /// Whether there is at least one warning.
    pub fn has_warnings(&self) -> (r: bool)
        ensures
            r == (select(self@, Severity::Warning).len() > 0),
    {
        self.count(Severity::Warning) > 0
    }

    /// Appends to `out` the report lines of the issues of one severity.
    fn write_lines(&self, severity: Severity, out: &mut String)
        ensures
            final(out)@ == old(out)@ + report_lines(select(self@, severity)),
    {
        let mut i: usize = 0;
        while i < self.items.len()
            invariant
                0 <= i <= self.items@.len(),
                out@ == old(out)@ + report_lines(select(self@.take(i as int), severity)),
            decreases self.items@.len() - i,
        {
            proof {
                let before = select(self@.take(i as int), severity);
                let issue = self.items@[i as int]@;
                assert(self@.take(i + 1) =~= self@.take(i as int).push(issue));
                lemma_select_push(self@.take(i as int), issue, severity);
                assert(before.push(issue).drop_last() =~= before);
            }
            if self.items[i].severity == severity {
                let line = self.items[i].to_string();
                out.append(line.as_str());
            }
            i += 1;
        }
        assert(self@.take(self@.len() as int) =~= self@);
    }

    /// The report: every error, then every warning, one line each.
    pub fn report(&self) -> (r: String)
        ensures
            r@ == report_text(self@),
    {
        let mut out = String::new();
        self.write_lines(Severity::Error, &mut out);
        self.write_lines(Severity::Warning, &mut out);
        out
    }
}

} // verus!
