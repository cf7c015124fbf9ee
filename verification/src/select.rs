//! Choosing capture groups of one match, by name or by position.
//!
//! A match is given as plain values: the text of each capture group, in the
//! order of the group numbers (group 0 is the whole match), with nothing for a
//! group that took no part in the match; and the name of each group, if it has
//! one, in the same order.

use crate::config::{Selection, SelectionView};
use vstd::prelude::*;

verus! {

/// What one looked-up group contributes to the output: its text, or nothing.
pub open spec fn emitted(group: Option<Seq<char>>) -> Seq<Seq<char>> {
    match group {
        Some(text) => seq![text],
        None => Seq::empty(),
    }
}

/// The text of the group with the given number, if there is such a group and
/// it took part in the match.
pub open spec fn group_at(texts: Seq<Option<Seq<char>>>, number: int) -> Option<Seq<char>> {
    if 0 <= number < texts.len() {
        texts[number]
    } else {
        None
    }
}

/// The text of the group with the given name, if a group has that name and
/// took part in the match.
pub open spec fn group_named(
    texts: Seq<Option<Seq<char>>>,
    names: Seq<Option<Seq<char>>>,
    label: Seq<char>,
) -> Option<Seq<char>> {
    match names.index_of_first(Some(label)) {
        Some(number) => group_at(texts, number),
        None => None,
    }
}

/// The output for a sequence of labels: one text for each label whose group
/// took part in the match, in the order of the labels.
pub open spec fn labelled_output(
    texts: Seq<Option<Seq<char>>>,
    names: Seq<Option<Seq<char>>>,
    labels: Seq<Seq<char>>,
) -> Seq<Seq<char>>
    decreases labels.len(),
{
    if labels.len() == 0 {
        Seq::empty()
    } else {
        labelled_output(texts, names, labels.drop_last()) + emitted(
            group_named(texts, names, labels.last()),
        )
    }
}

/// The output for a sequence of zero-based positions: position `p` stands for
/// group `p + 1`, since group 0 is the whole match. One text for each position
/// whose group exists and took part in the match, in the order of the
/// positions.
pub open spec fn indexed_output(texts: Seq<Option<Seq<char>>>, indices: Seq<usize>) -> Seq<
    Seq<char>,
>
    decreases indices.len(),
{
    if indices.len() == 0 {
        Seq::empty()
    } else {
        indexed_output(texts, indices.drop_last()) + emitted(group_at(texts, indices.last() + 1))
    }
}

/// The output of extraction for one line: nothing where the line has no match
/// or the whole match is selected, else the selected groups.
pub open spec fn extract_output(
    texts: Option<Seq<Option<Seq<char>>>>,
    names: Seq<Option<Seq<char>>>,
    selection: SelectionView,
) -> Seq<Seq<char>> {
    match texts {
        None => Seq::empty(),
        Some(groups) => match selection {
            SelectionView::Whole => Seq::empty(),
            SelectionView::ByLabel(labels) => labelled_output(groups, names, labels),
            SelectionView::ByIndex(indices) => indexed_output(groups, indices),
        },
    }
}

/// Every text of `out` is the text of one of the groups.
pub open spec fn drawn_from(out: Seq<Seq<char>>, texts: Seq<Option<Seq<char>>>) -> bool {
    forall|k: int| 0 <= k < out.len() ==> texts.contains(Some(#[trigger] out[k]))
}

/// Selecting by label prints at most one text for each label, and only texts
/// of groups that took part in the match.
pub proof fn lemma_labelled_output_bounds(
    texts: Seq<Option<Seq<char>>>,
    names: Seq<Option<Seq<char>>>,
    labels: Seq<Seq<char>>,
)
    ensures
        labelled_output(texts, names, labels).len() <= labels.len(),
        drawn_from(labelled_output(texts, names, labels), texts),
    decreases labels.len(),
{
    if labels.len() > 0 {
        lemma_labelled_output_bounds(texts, names, labels.drop_last());
        let group = group_named(texts, names, labels.last());
        if let Some(text) = group {
            let number = names.index_of_first(Some(labels.last())).unwrap();
            assert(texts[number] == Some(text));
        }
    }
}

/// Selecting by position prints at most one text for each position, and only
/// texts of groups that took part in the match.
pub proof fn lemma_indexed_output_bounds(texts: Seq<Option<Seq<char>>>, indices: Seq<usize>)
    ensures
        indexed_output(texts, indices).len() <= indices.len(),
        drawn_from(indexed_output(texts, indices), texts),
    decreases indices.len(),
{
    if indices.len() > 0 {
        lemma_indexed_output_bounds(texts, indices.drop_last());
        let group = group_at(texts, indices.last() + 1);
        if let Some(text) = group {
            assert(texts[indices.last() + 1] == Some(text));
        }
    }
}

/// Selecting by position never reads group 0, the whole match: position `p`
/// stands for group `p + 1`. Two matches that agree on every other group give
/// the same output.
pub proof fn lemma_index_skips_whole_match(
    texts: Seq<Option<Seq<char>>>,
    others: Seq<Option<Seq<char>>>,
    indices: Seq<usize>,
)
    requires
        texts.len() == others.len(),
        forall|g: int| 1 <= g < texts.len() ==> texts[g] == others[g],
    ensures
        indexed_output(texts, indices) == indexed_output(others, indices),
    decreases indices.len(),
{
    if indices.len() > 0 {
        lemma_index_skips_whole_match(texts, others, indices.drop_last());
    }
}

/// The number of the first group that carries the given name, or nothing
/// where no group carries it.
pub fn group_number(names: &Vec<Option<String>>, label: &String) -> (r: Option<usize>)
    ensures
        match r {
            Some(n) => {
                &&& names.deep_view().index_of_first(Some(label@)) == Some(n as int)
                &&& n < names.len()
                &&& names.deep_view()[n as int] == Some(label@)
                &&& forall|j: int| 0 <= j < n ==> names.deep_view()[j] != Some(label@)
            },
            None => {
                &&& names.deep_view().index_of_first(Some(label@)) is None
                &&& forall|j: int| 0 <= j < names.len() ==> names.deep_view()[j] != Some(label@)
            },
        },
{
    let ghost all = names.deep_view();
    let ghost needle = Some(label@);
    let mut i: usize = 0;
    while i < names.len()
        invariant
            i <= names.len(),
            all == names.deep_view(),
            needle == Some(label@),
            forall|j: int| 0 <= j < i ==> all[j] != needle,
        decreases names.len() - i,
    {
        let found = match &names[i] {
            Some(name) => *name == *label,
            None => false,
        };
        if found {
            proof {
                assert(all[i as int] == needle);
                all.index_of_first_ensures(needle);
            }
            return Some(i);
        }
        i += 1;
    }
    proof {
        all.index_of_first_ensures(needle);
    }
    None
}

/// The text of group `number`, copied, if the group exists and took part.
pub fn group_text(texts: &Vec<Option<String>>, number: usize) -> (r: Option<String>)
    ensures
        r.deep_view() == group_at(texts.deep_view(), number as int),
{
    if number < texts.len() {
        match &texts[number] {
            Some(text) => Some(text.clone()),
            None => None,
        }
    } else {
        None
    }
}

/// Appends to `out` what one looked-up group contributes.
fn emit(out: &mut Vec<String>, group: Option<String>)
    ensures
        final(out).deep_view() == old(out).deep_view() + emitted(group.deep_view()),
{
    match group {
        Some(text) => {
            out.push(text);
            assert(out.deep_view() =~= old(out).deep_view() + seq![text@]);
        },
        None => {
            assert(out.deep_view() =~= old(out).deep_view() + Seq::<Seq<char>>::empty());
        },
    }
}

/// The texts of the groups named by `labels`, in the order of the labels. A
/// label that names no group, or a group that took no part in the match, gives
/// nothing.
pub fn select_by_label(
    texts: &Vec<Option<String>>,
    names: &Vec<Option<String>>,
    labels: &Vec<String>,
) -> (out: Vec<String>)
    ensures
        out.deep_view() == labelled_output(
            texts.deep_view(),
            names.deep_view(),
            labels.deep_view(),
        ),
{
    let mut out: Vec<String> = Vec::new();
    let mut i: usize = 0;
    assert(out.deep_view() =~= Seq::<Seq<char>>::empty());
    while i < labels.len()
        invariant
            i <= labels.len(),
            out.deep_view() == labelled_output(
                texts.deep_view(),
                names.deep_view(),
                labels.deep_view().take(i as int),
            ),
        decreases labels.len() - i,
    {
        let group = match group_number(names, &labels[i]) {
            Some(number) => group_text(texts, number),
            None => None,
        };
        proof {
            let upto = labels.deep_view().take(i + 1);
            assert(upto.drop_last() =~= labels.deep_view().take(i as int));
            assert(upto.last() == labels[i as int]@);
        }
        emit(&mut out, group);
        i += 1;
    }
    assert(labels.deep_view().take(i as int) =~= labels.deep_view());
    out
}

/// The texts of the groups at the zero-based positions `indices`, in the order
/// of the positions. A position past the last group, or a group that took no
/// part in the match, gives nothing.
pub fn select_by_index(texts: &Vec<Option<String>>, indices: &Vec<usize>) -> (out: Vec<String>)
    ensures
        out.deep_view() == indexed_output(texts.deep_view(), indices@),
{
    let mut out: Vec<String> = Vec::new();
    let mut i: usize = 0;
    assert(out.deep_view() =~= Seq::<Seq<char>>::empty());
    while i < indices.len()
        invariant
            i <= indices.len(),
            out.deep_view() == indexed_output(texts.deep_view(), indices@.take(i as int)),
        decreases indices.len() - i,
    {
        let group = match indices[i].checked_add(1) {
            Some(number) => group_text(texts, number),
            None => None,
        };
        proof {
            let upto = indices@.take(i + 1);
            assert(upto.drop_last() =~= indices@.take(i as int));
            assert(upto.last() == indices[i as int]);
            assert(texts.deep_view().len() == texts.len() <= usize::MAX);
            assert(group.deep_view() == group_at(texts.deep_view(), indices[i as int] + 1));
        }
        emit(&mut out, group);
        i += 1;
    }
    assert(indices@.take(i as int) =~= indices@);
    out
}

/// What extraction prints for one line, given what the matcher found in it:
/// `texts` is nothing where the line has no match.
pub fn select_groups(
    texts: &Option<Vec<Option<String>>>,
    names: &Vec<Option<String>>,
    selection: &Selection,
) -> (out: Vec<String>)
    ensures
        out.deep_view() == extract_output(texts.deep_view(), names.deep_view(), selection@),
{
    match texts {
        None => {
            let out: Vec<String> = Vec::new();
            assert(out.deep_view() =~= Seq::<Seq<char>>::empty());
            out
        },
        Some(groups) => match selection {
            Selection::Whole => {
                let out: Vec<String> = Vec::new();
                assert(out.deep_view() =~= Seq::<Seq<char>>::empty());
                out
            },
            Selection::ByLabel(labels) => select_by_label(groups, names, labels),
            Selection::ByIndex(indices) => select_by_index(groups, indices),
        },
    }
}

} // verus!
