//! Compiling a pattern and processing lines with it.

use crate::config::{RunConfig, Selection, SelectionView};
use crate::engine::{
    all_slices_of, captures_text, compiled, error_text, find_text, first_match, group_names,
    group_texts, is_slice_of, names_of, new_regex,
};
use crate::select::{
    drawn_from, emitted, extract_output, lemma_indexed_output_bounds,
    lemma_labelled_output_bounds, select_groups,
};
use vstd::prelude::*;

verus! {

/// A compiled pattern. It carries no state from one line to the next.
#[derive(Debug)]
pub struct CompiledPattern {
    engine: regex::Regex,
    names: Vec<Option<String>>,
}

/// A pattern that could not be compiled, with the matcher's description of
/// what is wrong with it.
#[derive(Debug, Clone, PartialEq, Eq)]
pub struct CompileError {
    pub diagnostic: String,
}

/// What simple mode prints for one line: the first match, if there is one.
pub open spec fn simple_output(rx: regex::Regex, line: Seq<char>) -> Seq<Seq<char>> {
    emitted(first_match(rx, line))
}

/// What is printed for one line: in simple mode the first match, else the
/// selected groups of the first match.
pub open spec fn line_output(rx: regex::Regex, selection: SelectionView, line: Seq<char>) -> Seq<
    Seq<char>,
> {
    match selection {
        SelectionView::Whole => simple_output(rx, line),
        _ => extract_output(group_texts(rx, line), group_names(rx), selection),
    }
}

/// What is printed for a sequence of lines: the output of each line, in the
/// order of the lines.
pub open spec fn lines_output(
    rx: regex::Regex,
    selection: SelectionView,
    lines: Seq<Seq<char>>,
) -> Seq<Seq<char>>
    decreases lines.len(),
{
    if lines.len() == 0 {
        Seq::empty()
    } else {
        lines_output(rx, selection, lines.drop_last()) + line_output(rx, selection, lines.last())
    }
}

/// What a whole run prints, or nothing where the pattern does not compile.
pub open spec fn run_output(
    pattern: Seq<char>,
    selection: SelectionView,
    lines: Seq<Seq<char>>,
) -> Option<Seq<Seq<char>>> {
    match compiled(pattern) {
        Some(rx) => Some(lines_output(rx, selection, lines)),
        None => None,
    }
}

/// Every text of `out` occurs in `line` as a contiguous run of characters.
pub open spec fn all_within(out: Seq<Seq<char>>, line: Seq<char>) -> bool {
    forall|k: int| 0 <= k < out.len() ==> is_slice_of(#[trigger] out[k], line)
}

/// The number of labels or positions of a selection; none for the whole match.
pub open spec fn selection_len(selection: SelectionView) -> nat {
    match selection {
        SelectionView::Whole => 0,
        SelectionView::ByLabel(labels) => labels.len(),
        SelectionView::ByIndex(indices) => indices.len(),
    }
}

impl CompiledPattern {
    #[verifier::type_invariant]
    spec fn names_belong_to_engine(self) -> bool {
        self.names.deep_view() == group_names(self.engine)
    }

    /// The compiled expression this value holds.
    pub closed spec fn engine(self) -> regex::Regex {
        self.engine
    }

    /// Compiles a pattern. It succeeds exactly where the matcher accepts the
    /// pattern; the diagnostic of a refused pattern is the matcher's own.
    pub fn compile(pattern: &str) -> (r: Result<CompiledPattern, CompileError>)
        ensures
            match r {
                Ok(rx) => compiled(pattern@) == Some(rx.engine()),
                Err(_) => compiled(pattern@) is None,
            },
    {
        match new_regex(pattern) {
            Ok(engine) => {
                let names = names_of(&engine);
                Ok(CompiledPattern { engine, names })
            },
            Err(e) => Err(CompileError { diagnostic: error_text(&e) }),
        }
    }

    /// The name of each capture group, if it has one, in the order of the
    /// group numbers.
    pub fn names(&self) -> (r: &Vec<Option<String>>)
        ensures
            r.deep_view() == group_names(self.engine()),
    {
        proof {
            use_type_invariant(self);
        }
        &self.names
    }
}

/// Simple mode for one line: the text of the first match, which is a piece of
/// the line, or nothing where the pattern does not match.
pub fn search_simple(rx: &CompiledPattern, line: &str) -> (out: Option<String>)
    ensures
        out.deep_view() == first_match(rx.engine(), line@),
        first_match(rx.engine(), line@) is None ==> out is None,
        out matches Some(text) ==> is_slice_of(text@, line@),
{
    find_text(&rx.engine, line)
}

/// Extract mode for one line: the selected groups of the first match, in the
/// order of the selection, or nothing where the pattern does not match. Each
/// text is a piece of the line, and each label or position gives at most one.
pub fn search_extract(rx: &CompiledPattern, selection: &Selection, line: &str) -> (out: Vec<String>)
    ensures
        out.deep_view() == extract_output(
            group_texts(rx.engine(), line@),
            group_names(rx.engine()),
            selection@,
        ),
        group_texts(rx.engine(), line@) is None ==> out.len() == 0,
        out.len() <= selection_len(selection@),
        all_within(out.deep_view(), line@),
{
    let texts = captures_text(&rx.engine, line);
    let out = select_groups(&texts, rx.names(), selection);
    proof {
        lemma_extract_output_bounds(texts.deep_view(), group_names(rx.engine()), selection@, line@);
    }
    out
}

/// Extraction prints at most one text for each label or position, and where
/// every group's text is a piece of the line, so is everything printed.
pub proof fn lemma_extract_output_bounds(
    texts: Option<Seq<Option<Seq<char>>>>,
    names: Seq<Option<Seq<char>>>,
    selection: SelectionView,
    line: Seq<char>,
)
    requires
        texts matches Some(groups) ==> all_slices_of(groups, line),
    ensures
        extract_output(texts, names, selection).len() <= selection_len(selection),
        all_within(extract_output(texts, names, selection), line),
{
    let out = extract_output(texts, names, selection);
    if let Some(groups) = texts {
        match selection {
            SelectionView::Whole => {},
            SelectionView::ByLabel(labels) => {
                lemma_labelled_output_bounds(groups, names, labels);
            },
            SelectionView::ByIndex(indices) => {
                lemma_indexed_output_bounds(groups, indices);
            },
        }
        assert(drawn_from(out, groups));
        assert forall|k: int| 0 <= k < out.len() implies is_slice_of(#[trigger] out[k], line) by {
            assert(groups.contains(Some(out[k])));
            let g = choose|g: int| 0 <= g < groups.len() && groups[g] == Some(out[k]);
            assert(groups[g] == Some(out[k]));
        }
    }
}

/// Simple mode prints at most one text for each line.
pub proof fn lemma_simple_at_most_one_per_line(rx: regex::Regex, lines: Seq<Seq<char>>)
    ensures
        lines_output(rx, SelectionView::Whole, lines).len() <= lines.len(),
    decreases lines.len(),
{
    if lines.len() > 0 {
        lemma_simple_at_most_one_per_line(rx, lines.drop_last());
    }
}

/// Simple mode prints nothing where no line has a match.
pub proof fn lemma_simple_silent_without_match(rx: regex::Regex, lines: Seq<Seq<char>>)
    requires
        forall|i: int| 0 <= i < lines.len() ==> first_match(rx, #[trigger] lines[i]) is None,
    ensures
        lines_output(rx, SelectionView::Whole, lines) == Seq::<Seq<char>>::empty(),
    decreases lines.len(),
{
    if lines.len() > 0 {
        assert forall|i: int| 0 <= i < lines.drop_last().len() implies first_match(
            rx,
            #[trigger] lines.drop_last()[i],
        ) is None by {
            assert(lines.drop_last()[i] == lines[i]);
        }
        lemma_simple_silent_without_match(rx, lines.drop_last());
        assert(first_match(rx, lines[lines.len() - 1]) is None);
        assert(lines_output(rx, SelectionView::Whole, lines) =~= Seq::<Seq<char>>::empty());
    }
}

/// Lines are processed independently: the output for two runs of lines, one
/// after the other, is the output of the first followed by that of the second.
pub proof fn lemma_lines_output_concat(
    rx: regex::Regex,
    selection: SelectionView,
    first: Seq<Seq<char>>,
    second: Seq<Seq<char>>,
)
    ensures
        lines_output(rx, selection, first + second) == lines_output(rx, selection, first)
            + lines_output(rx, selection, second),
    decreases second.len(),
{
    if second.len() == 0 {
        assert(first + second =~= first);
        assert(lines_output(rx, selection, first) + Seq::<Seq<char>>::empty() =~= lines_output(
            rx,
            selection,
            first,
        ));
    } else {
        lemma_lines_output_concat(rx, selection, first, second.drop_last());
        assert((first + second).drop_last() =~= first + second.drop_last());
        assert((first + second).last() == second.last());
        assert(lines_output(rx, selection, first + second) =~= lines_output(rx, selection, first)
            + lines_output(rx, selection, second));
    }
}

/// Running twice gives the same output: what a run prints is determined by
/// the pattern text, the selection's labels or positions, and the lines' text.
pub proof fn lemma_run_repeatable(
    first: RunConfig,
    first_lines: Vec<String>,
    second: RunConfig,
    second_lines: Vec<String>,
)
    requires
        first.pattern@ == second.pattern@,
        first.selection@ == second.selection@,
        first_lines.deep_view() == second_lines.deep_view(),
    ensures
        run_output(first.pattern@, first.selection@, first_lines.deep_view()) == run_output(
            second.pattern@,
            second.selection@,
            second_lines.deep_view(),
        ),
{
}

/// One line in either mode: what `search_simple` finds where the whole match
/// is selected, else what `search_extract` selects.
pub fn process_line(rx: &CompiledPattern, selection: &Selection, line: &str) -> (out: Vec<String>)
    ensures
        out.deep_view() == line_output(rx.engine(), selection@, line@),
        selection is Whole ==> out.len() <= 1,
        selection is Whole && first_match(rx.engine(), line@) is None ==> out.len() == 0,
        !(selection is Whole) ==> out.len() <= selection_len(selection@),
        all_within(out.deep_view(), line@),
{
    match selection {
        Selection::Whole => {
            let mut out: Vec<String> = Vec::new();
            assert(out.deep_view() =~= Seq::<Seq<char>>::empty());
            match search_simple(rx, line) {
                Some(text) => {
                    out.push(text);
                    assert(out.deep_view() =~= seq![text@]);
                },
                None => {},
            }
            out
        },
        _ => search_extract(rx, selection, line),
    }
}

/// Processes the lines in order with an already compiled pattern and collects
/// what is printed. Where the whole match is selected, that is at most one
/// text for each line.
pub fn process_lines(rx: &CompiledPattern, selection: &Selection, lines: &Vec<String>) -> (out: Vec<
    String,
>)
    ensures
        out.deep_view() == lines_output(rx.engine(), selection@, lines.deep_view()),
        selection is Whole ==> out.len() <= lines.len(),
{
    let mut out: Vec<String> = Vec::new();
    let mut i: usize = 0;
    assert(out.deep_view() =~= Seq::<Seq<char>>::empty());
    assert(lines.deep_view().take(0) =~= Seq::<Seq<char>>::empty());
    while i < lines.len()
        invariant
            i <= lines.len(),
            out.deep_view() == lines_output(
                rx.engine(),
                selection@,
                lines.deep_view().take(i as int),
            ),
        decreases lines.len() - i,
    {
        let ghost before = out.deep_view();
        let mut found = process_line(rx, selection, lines[i].as_str());
        let ghost added = found.deep_view();
        out.append(&mut found);
        proof {
            let upto = lines.deep_view().take(i + 1);
            assert(upto.drop_last() =~= lines.deep_view().take(i as int));
            assert(upto.last() == lines[i as int]@);
            assert(out.deep_view() =~= before + added);
        }
        i += 1;
    }
    assert(lines.deep_view().take(i as int) =~= lines.deep_view());
    proof {
        if selection is Whole {
            lemma_simple_at_most_one_per_line(rx.engine(), lines.deep_view());
        }
    }
    out
}

/// A whole run on lines already read: compiles the pattern of the
/// configuration and processes the lines in order. It fails exactly where the
/// pattern does not compile, and then nothing is printed.
pub fn run(config: &RunConfig, lines: &Vec<String>) -> (r: Result<Vec<String>, CompileError>)
    ensures
        match r {
            Ok(out) => run_output(config.pattern@, config.selection@, lines.deep_view()) == Some(
                out.deep_view(),
            ),
            Err(_) => run_output(config.pattern@, config.selection@, lines.deep_view()) is None,
        },
{
    match CompiledPattern::compile(config.pattern.as_str()) {
        Ok(rx) => Ok(process_lines(&rx, &config.selection, lines)),
        Err(e) => Err(e),
    }
}

} // verus!
