//! The run configuration: what was asked for on the command line, and the
//! selection of capture groups it resolves to.

use vstd::prelude::*;

verus! {

/// The command line as given: the pattern, and the two repeatable options.
#[derive(Debug, Clone, PartialEq, Eq)]
pub struct Cli {
    /// Names of capture groups to print, in the order given.
    pub label: Option<Vec<String>>,
    /// Zero-based positions of capture groups to print, in the order given.
    pub index: Option<Vec<usize>>,
    /// The pattern, not yet compiled.
    pub regex: String,
}

/// How lines are processed.
#[derive(Debug, Clone, Copy, PartialEq, Eq, Structural)]
pub enum RegexMode {
    /// Print the first whole match of each line.
    Simple,
    /// Print selected capture groups of the first match of each line.
    Extract,
}

/// Which part of a match is printed.
#[derive(Debug, Clone, PartialEq, Eq)]
pub enum Selection {
    /// The whole match.
    Whole,
    /// The capture groups with these names, in this order.
    ByLabel(Vec<String>),
    /// The capture groups at these zero-based positions, in this order.
    ByIndex(Vec<usize>),
}

/// The mathematical content of a [`Selection`].
pub enum SelectionView {
    Whole,
    ByLabel(Seq<Seq<char>>),
    ByIndex(Seq<usize>),
}

impl View for Selection {
    type V = SelectionView;

    open spec fn view(&self) -> SelectionView {
        match self {
            Selection::Whole => SelectionView::Whole,
            Selection::ByLabel(labels) => SelectionView::ByLabel(labels.deep_view()),
            Selection::ByIndex(indices) => SelectionView::ByIndex(indices@),
        }
    }
}

/// A resolved command line. It does not change during a run.
#[derive(Debug, Clone, PartialEq, Eq)]
pub struct RunConfig {
    pub pattern: String,
    pub selection: Selection,
}

/// Why a command line was refused.
#[derive(Debug, Clone, Copy, PartialEq, Eq, Structural)]
pub enum ArgumentError {
    /// Both labels and indices were given; they exclude each other.
    Conflict,
}

impl Cli {
    /// The mode a command line asks for: extraction as soon as either option
    /// was given.
    pub open spec fn spec_mode(&self) -> RegexMode {
        if self.label is Some || self.index is Some {
            RegexMode::Extract
        } else {
            RegexMode::Simple
        }
    }

    /// The selection a command line asks for, or nothing where it gives both
    /// options.
    pub open spec fn spec_selection(&self) -> Option<SelectionView> {
        match (self.label, self.index) {
            (Some(_), Some(_)) => None,
            (Some(labels), None) => Some(SelectionView::ByLabel(labels.deep_view())),
            (None, Some(indices)) => Some(SelectionView::ByIndex(indices@)),
            (None, None) => Some(SelectionView::Whole),
        }
    }

    /// The mode this command line asks for.
    pub fn mode(&self) -> (m: RegexMode)
        ensures
            m == self.spec_mode(),
    {
        if self.label.is_some() || self.index.is_some() {
            RegexMode::Extract
        } else {
            RegexMode::Simple
        }
    }

    /// Turns the command line into a run configuration. Labels together with
    /// indices are refused; otherwise the pattern is kept as it is and the
    /// selection is the option that was given, or the whole match.
    pub fn resolve(self) -> (r: Result<RunConfig, ArgumentError>)
        ensures
            match r {
                Ok(config) => {
                    &&& self.spec_selection() == Some(config.selection@)
                    &&& config.pattern@ == self.regex@
                    &&& (config.selection is Whole <==> self.spec_mode() == RegexMode::Simple)
                },
                Err(e) => e == ArgumentError::Conflict && self.spec_selection() is None,
            },
    {
        let Cli { label, index, regex } = self;
        match (label, index) {
            (Some(_), Some(_)) => Err(ArgumentError::Conflict),
            (Some(labels), None) => Ok(
                RunConfig { pattern: regex, selection: Selection::ByLabel(labels) },
            ),
            (None, Some(indices)) => Ok(
                RunConfig { pattern: regex, selection: Selection::ByIndex(indices) },
            ),
            (None, None) => Ok(RunConfig { pattern: regex, selection: Selection::Whole }),
        }
    }
}

} // verus!
