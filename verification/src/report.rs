//! Non-short-circuiting error collection: every validation failure is
//! recorded with the path it was found at, and the whole pass always runs
//! to completion before the collected entries are inspected.

use vstd::prelude::*;

use crate::path::ConfigPath;
use crate::path::dotted_spec;
use crate::strint::CoerceError;

verus! {

/// What went wrong at one place in the configuration tree.
#[derive(Clone, Copy, Debug, PartialEq, Eq, Structural)]
pub enum ErrorCause {
    /// A required raw field was absent.
    MissingField,
    /// A raw field was present but failed conversion to its target type;
    /// carries the underlying conversion cause.
    MalformedField(CoerceError),
    /// A named lookup inside an already-validated structure found no match.
    UnresolvedReference,
}

/// One recorded failure: the path it was found at, and its cause.
#[derive(Debug)]
pub struct ErrorEntry {
    pub path: ConfigPath,
    pub cause: ErrorCause,
}

/// The mathematical value of an [`ErrorEntry`].
#[verifier::ext_equal]
pub struct EntryView {
    pub path: Seq<Seq<char>>,
    pub cause: ErrorCause,
}

impl View for ErrorEntry {
    type V = EntryView;

    open spec fn view(&self) -> EntryView {
        EntryView { path: self.path@, cause: self.cause }
    }
}

impl DeepView for ErrorEntry {
    type V = EntryView;

    open spec fn deep_view(&self) -> EntryView {
        self.view()
    }
}

/// A collector of `(path, cause)` pairs. One aggregator is owned by a
/// single validation pass; recording always succeeds and preserves order,
/// so the report lists every problem of the pass in the order it was found.
/// Emptiness is the sole gate for whether a build may proceed.
#[derive(Debug)]
pub struct ErrorAggregator {
    entries: Vec<ErrorEntry>,
}

impl View for ErrorAggregator {
    type V = Seq<EntryView>;

    closed spec fn view(&self) -> Seq<EntryView> {
        self.entries.deep_view()
    }
}

impl ErrorAggregator {
    /// An aggregator with nothing recorded yet.
    pub fn new() -> (r: Self)
        ensures
            r@ == Seq::<EntryView>::empty(),
    {
        let r = ErrorAggregator { entries: Vec::new() };
        proof {
            assert(r@ =~= Seq::<EntryView>::empty());
        }
        r
    }

    /// Appends one entry; always succeeds, and keeps the order of recording.
    pub fn record(&mut self, path: ConfigPath, cause: ErrorCause)
        ensures
            final(self)@ == old(self)@.push(EntryView { path: path@, cause }),
    {
        self.entries.push(ErrorEntry { path, cause });
        proof {
            assert(self@ =~= old(self)@.push(EntryView { path: path@, cause }));
        }
    }

    /// True iff no entry was recorded: the sole success predicate of a pass.
    pub fn is_empty(&self) -> (r: bool)
        ensures
            r <==> self@.len() == 0,
    {
        self.entries.len() == 0
    }

    /// Absorbs every entry of `other`, after the entries already here.
    /// A sub-structure's validator reports into an aggregator of its own,
    /// against paths below the sub-structure's prefix; merging preserves
    /// those entries verbatim.
    pub fn merge(&mut self, other: ErrorAggregator)
        ensures
            final(self)@ == old(self)@ + other@,
    {
        let mut absorbed = other;
        self.entries.append(&mut absorbed.entries);
        proof {
            assert(self@ =~= old(self)@ + other@);
        }
    }

    /// Converts the aggregator into the report handed to the caller; used
    /// only when the pass has failed.
    pub fn into_report(self) -> (r: ErrorReport)
        requires
            self@.len() > 0,
        ensures
            r@ == self@,
    {
        ErrorReport { entries: self.entries }
    }
}

/// The failure report of a whole validation pass: every recorded entry, in
/// the order of recording.
#[derive(Debug)]
pub struct ErrorReport {
    pub entries: Vec<ErrorEntry>,
}

impl View for ErrorReport {
    type V = Seq<EntryView>;

    open spec fn view(&self) -> Seq<EntryView> {
        self.entries.deep_view()
    }
}

/// The rendering of one cause.
pub open spec fn cause_text_spec(cause: ErrorCause) -> Seq<char> {
    match cause {
        ErrorCause::MissingField => "missing field"@,
        ErrorCause::MalformedField(CoerceError::NotDecimal) => "malformed field: not a decimal string"@,
        ErrorCause::MalformedField(CoerceError::Negative) => "malformed field: negative value"@,
        ErrorCause::MalformedField(CoerceError::TooLarge) => "malformed field: value too large"@,
        ErrorCause::UnresolvedReference => "reference not found"@,
    }
}

/// The rendering of one entry: its dotted path, then its cause.
pub open spec fn line_spec(e: EntryView) -> Seq<char> {
    dotted_spec(e.path) + ": "@ + cause_text_spec(e.cause)
}

impl ErrorCause {
    /// The human-readable rendering of this cause.
    pub fn describe(&self) -> (r: &'static str)
        ensures
            r@ == cause_text_spec(*self),
    {
        match self {
            ErrorCause::MissingField => "missing field",
            ErrorCause::MalformedField(CoerceError::NotDecimal) => "malformed field: not a decimal string",
            ErrorCause::MalformedField(CoerceError::Negative) => "malformed field: negative value",
            ErrorCause::MalformedField(CoerceError::TooLarge) => "malformed field: value too large",
            ErrorCause::UnresolvedReference => "reference not found",
        }
    }
}

impl ErrorReport {
    /// The number of entries.
    pub fn len(&self) -> (n: usize)
        ensures
            n == self@.len(),
    {
        self.entries.len()
    }

    /// Renders the report one line per entry, each line the entry's dotted
    /// path followed by its cause, suitable for printing to an operator.
    pub fn lines(&self) -> (r: Vec<String>)
        ensures
            r.deep_view() == Seq::new(self@.len(), |i: int| line_spec(self@[i])),
    {
        let mut out: Vec<String> = Vec::new();
        let mut i: usize = 0;
        while i < self.entries.len()
            invariant
                i <= self.entries.len(),
                out@.len() == i,
                forall|j: int| 0 <= j < i ==> out@[j]@ == line_spec(self@[j]),
            decreases self.entries.len() - i,
        {
            let mut line = self.entries[i].path.dotted();
            line.append(": ");
            line.append(self.entries[i].cause.describe());
            out.push(line);
            i = i + 1;
        }
        proof {
            assert(out.deep_view() =~= Seq::new(self@.len(), |i: int| line_spec(self@[i])));
        }
        out
    }
}

} // verus!
