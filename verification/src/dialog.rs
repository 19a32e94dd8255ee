//! The two dialog programs in which the user picks a subtitle: the arguments
//! that each is started with, and what its answer means.
//!
//! Each row of the list carries its position as a tag, and the program prints
//! the tag of the chosen row. The answer is matched against the positions, so
//! the names that are shown play no part in it.

use crate::resolver::{ChooserOutcome, SubtitleCandidate};
use crate::text::{
    chars_of, decimal_text, lemma_decimal_text_injective, push_text, render_decimal, string_of,
    texts,
};
use vstd::prelude::*;

verus! {

/// The family of the dialog program.
#[derive(Debug, Clone, Copy, PartialEq, Eq, Structural)]
pub enum GuiMode {
    /// `zenity`, for desktops built on GTK.
    Gtk,
    /// `kdialog`, for all others.
    Qt,
}

/// Whether `desktop` names a desktop that is built on GTK.
pub open spec fn is_gtk_desktop(desktop: Seq<char>) -> bool {
    ||| desktop == "Cinnamon"@
    ||| desktop == "GNOME"@
    ||| desktop == "XFCE"@
    ||| desktop == "xfce4"@
    ||| desktop == "bspwm"@
    ||| desktop == "gnome"@
    ||| desktop == "gtk"@
}

/// The dialog program for the desktop of the given name.
pub fn gui_mode_for(desktop: &str) -> (mode: GuiMode)
    ensures
        mode == (if is_gtk_desktop(desktop@) {
            GuiMode::Gtk
        } else {
            GuiMode::Qt
        }),
{
    if same_text(desktop, "Cinnamon") || same_text(desktop, "GNOME") || same_text(desktop, "XFCE")
        || same_text(desktop, "xfce4") || same_text(desktop, "bspwm") || same_text(
        desktop,
        "gnome",
    ) || same_text(desktop, "gtk") {
        GuiMode::Gtk
    } else {
        GuiMode::Qt
    }
}

/// Whether two texts hold the same characters.
pub fn same_text(a: &str, b: &str) -> (same: bool)
    ensures
        same == (a@ == b@),
{
    let x = a.to_owned();
    let y = b.to_owned();
    x == y
}

/// The mark that is shown with a candidate whose fingerprint matched.
pub open spec fn match_mark() -> Seq<char> {
    seq!['\u{2705}']
}

/// The label of a candidate in the list of `kdialog`: its name, and the mark
/// behind it where the fingerprint matched.
pub open spec fn kdialog_label(candidate: SubtitleCandidate) -> Seq<char> {
    if candidate.fingerprint_matched {
        candidate.display_name@ + seq![' '] + match_mark()
    } else {
        candidate.display_name@
    }
}

/// The arguments for the first `n` rows of `kdialog`: tag, label and state
/// of each.
pub open spec fn kdialog_rows(candidates: Seq<SubtitleCandidate>, n: nat) -> Seq<Seq<char>>
    decreases n,
{
    if n == 0 {
        Seq::empty()
    } else {
        kdialog_rows(candidates, (n - 1) as nat) + seq![
            decimal_text((n - 1) as nat),
            kdialog_label(candidates[n - 1]),
            "off"@,
        ]
    }
}

/// All arguments of `kdialog`.
pub open spec fn kdialog_arguments_of(candidates: Seq<SubtitleCandidate>, title: Seq<char>) -> Seq<
    Seq<char>,
> {
    seq![
        "--geometry"@,
        "800x400"@,
        "--radiolist"@,
        "Select subtitle"@,
        "--title"@,
        title,
    ] + kdialog_rows(candidates, candidates.len())
}

/// The mark column of a candidate in the list of `zenity`.
pub open spec fn zenity_mark(candidate: SubtitleCandidate) -> Seq<char> {
    if candidate.fingerprint_matched {
        match_mark()
    } else {
        Seq::empty()
    }
}

/// The arguments for the first `n` rows of `zenity`: tag, name and mark of
/// each.
pub open spec fn zenity_rows(candidates: Seq<SubtitleCandidate>, n: nat) -> Seq<Seq<char>>
    decreases n,
{
    if n == 0 {
        Seq::empty()
    } else {
        zenity_rows(candidates, (n - 1) as nat) + seq![
            decimal_text((n - 1) as nat),
            candidates[n - 1].display_name@,
            zenity_mark(candidates[n - 1]),
        ]
    }
}

/// All arguments of `zenity`. The column of tags is hidden, and is the one
/// that is printed.
pub open spec fn zenity_arguments_of(candidates: Seq<SubtitleCandidate>, title: Seq<char>) -> Seq<
    Seq<char>,
> {
    seq![
        "--width=720"@,
        "--height=400"@,
        "--list"@,
        "--title="@ + title,
        "--column=Index"@,
        "--column=Subtitle"@,
        "--column=Hash Match"@,
        "--hide-column=1"@,
        "--print-column=1"@,
    ] + zenity_rows(candidates, candidates.len())
}

/// Appends one argument.
fn push_argument(arguments: &mut Vec<String>, text: String)
    ensures
        texts(final(arguments)@) == texts(old(arguments)@).push(text@),
{
    arguments.push(text);
}

/// The arguments with which `kdialog` shows the candidates under the given
/// window title.
pub fn kdialog_arguments(candidates: &Vec<SubtitleCandidate>, title: &str) -> (arguments: Vec<
    String,
>)
    ensures
        texts(arguments@) == kdialog_arguments_of(candidates@, title@),
{
    let mut arguments: Vec<String> = Vec::new();
    push_argument(&mut arguments, "--geometry".to_owned());
    push_argument(&mut arguments, "800x400".to_owned());
    push_argument(&mut arguments, "--radiolist".to_owned());
    push_argument(&mut arguments, "Select subtitle".to_owned());
    push_argument(&mut arguments, "--title".to_owned());
    push_argument(&mut arguments, title.to_owned());
    let ghost head = texts(arguments@);
    let mut i: usize = 0;
    while i < candidates.len()
        invariant
            i <= candidates.len(),
            texts(arguments@) == head + kdialog_rows(candidates@, i as nat),
        decreases candidates.len() - i,
    {
        let candidate = &candidates[i];
        let mut label = candidate.display_name.clone();
        if candidate.fingerprint_matched {
            label.push(' ');
            label.push('\u{2705}');
        }
        assert(label@ =~= kdialog_label(candidates@[i as int]));
        push_argument(&mut arguments, render_decimal(i as u64));
        push_argument(&mut arguments, label);
        push_argument(&mut arguments, "off".to_owned());
        i = i + 1;
    }
    arguments
}

/// The arguments with which `zenity` shows the candidates under the given
/// window title.
pub fn zenity_arguments(candidates: &Vec<SubtitleCandidate>, title: &str) -> (arguments: Vec<
    String,
>)
    ensures
        texts(arguments@) == zenity_arguments_of(candidates@, title@),
{
    let mut arguments: Vec<String> = Vec::new();
    push_argument(&mut arguments, "--width=720".to_owned());
    push_argument(&mut arguments, "--height=400".to_owned());
    push_argument(&mut arguments, "--list".to_owned());
    let mut window = "--title=".to_owned();
    push_text(&mut window, title);
    push_argument(&mut arguments, window);
    push_argument(&mut arguments, "--column=Index".to_owned());
    push_argument(&mut arguments, "--column=Subtitle".to_owned());
    push_argument(&mut arguments, "--column=Hash Match".to_owned());
    push_argument(&mut arguments, "--hide-column=1".to_owned());
    push_argument(&mut arguments, "--print-column=1".to_owned());
    let ghost head = texts(arguments@);
    let mut i: usize = 0;
    while i < candidates.len()
        invariant
            i <= candidates.len(),
            texts(arguments@) == head + zenity_rows(candidates@, i as nat),
        decreases candidates.len() - i,
    {
        let candidate = &candidates[i];
        let mut mark = String::new();
        if candidate.fingerprint_matched {
            mark.push('\u{2705}');
        }
        push_argument(&mut arguments, render_decimal(i as u64));
        push_argument(&mut arguments, candidate.display_name.clone());
        push_argument(&mut arguments, mark);
        i = i + 1;
    }
    arguments
}

/// The arguments of the dialog program of the given family.
pub fn dialog_arguments(mode: GuiMode, candidates: &Vec<SubtitleCandidate>, title: &str) -> (arguments:
    Vec<String>)
    ensures
        texts(arguments@) == (match mode {
            GuiMode::Gtk => zenity_arguments_of(candidates@, title@),
            GuiMode::Qt => kdialog_arguments_of(candidates@, title@),
        }),
{
    match mode {
        GuiMode::Gtk => zenity_arguments(candidates, title),
        GuiMode::Qt => kdialog_arguments(candidates, title),
    }
}

/// What is left of `answer` when the line ends at its end are taken off.
pub open spec fn without_line_ends(answer: Seq<char>) -> Seq<char>
    decreases answer.len(),
{
    if answer.len() > 0 && answer.last() == '\n' {
        without_line_ends(answer.drop_last())
    } else {
        answer
    }
}

/// Whether `answer` is the tag of the row at position `i`, with or without
/// line ends behind it.
pub open spec fn names_row(answer: Seq<char>, i: int) -> bool {
    i >= 0 && without_line_ends(answer) == decimal_text(i as nat)
}

/// Whether `outcome` is what a run of the dialog program means: `started`
/// says whether the program could be started, `succeeded` whether it ended
/// with status 0, `answer` is what it printed, and `rows` is the number of
/// rows that it was given.
pub open spec fn is_dialog_outcome(
    started: bool,
    succeeded: bool,
    answer: Seq<char>,
    rows: int,
    outcome: ChooserOutcome,
) -> bool {
    if !started {
        outcome == ChooserOutcome::Unavailable
    } else if !succeeded {
        outcome == ChooserOutcome::Cancelled
    } else {
        match outcome {
            ChooserOutcome::Chosen(i) => i < rows && names_row(answer, i as int),
            ChooserOutcome::Unreadable => forall|i: int| 0 <= i < rows ==> !names_row(answer, i),
            _ => false,
        }
    }
}

/// An answer names one row at most.
pub proof fn lemma_answer_names_one_row(answer: Seq<char>, i: int, j: int)
    requires
        names_row(answer, i),
        names_row(answer, j),
    ensures
        i == j,
{
    lemma_decimal_text_injective(i as nat, j as nat);
}

/// A numeral ends in a digit, so nothing is taken off it.
proof fn lemma_numeral_has_no_line_end(n: nat)
    ensures
        decimal_text(n).len() > 0,
        decimal_text(n).last() != '\n',
        without_line_ends(decimal_text(n)) == decimal_text(n),
{
}

/// The tag of a row names that row, as it stands and with a line end behind
/// it, which is how the dialog programs print it.
pub proof fn lemma_tag_names_its_row(i: nat)
    ensures
        names_row(decimal_text(i), i as int),
        names_row(decimal_text(i).push('\n'), i as int),
{
    lemma_numeral_has_no_line_end(i);
    assert(decimal_text(i).push('\n').drop_last() =~= decimal_text(i));
}

/// What a run of the dialog program means.
///
/// A program that could not be started is `Unavailable`. One that ended with
/// another status than 0 was cancelled. Else the answer is the tag of the row
/// that was chosen; an answer that is the tag of none of the rows is
/// `Unreadable`.
pub fn dialog_outcome(started: bool, succeeded: bool, answer: &str, rows: usize) -> (outcome:
    ChooserOutcome)
    ensures
        is_dialog_outcome(started, succeeded, answer@, rows as int, outcome),
{
    if !started {
        return ChooserOutcome::Unavailable;
    }
    if !succeeded {
        return ChooserOutcome::Cancelled;
    }
    let chars = chars_of(answer);
    let mut end: usize = chars.len();
    assert(chars@.take(end as int) =~= chars@);
    while end > 0 && chars[end - 1] == '\n'
        invariant
            end <= chars.len(),
            without_line_ends(chars@) == without_line_ends(chars@.take(end as int)),
        decreases end,
    {
        assert(chars@.take(end as int).drop_last() =~= chars@.take(end - 1));
        end = end - 1;
    }
    let tag = string_of(&chars, 0, end);
    let mut i: usize = 0;
    while i < rows
        invariant
            i <= rows,
            started && succeeded,
            tag@ == without_line_ends(answer@),
            forall|j: int| 0 <= j < i ==> !names_row(answer@, j),
        decreases rows - i,
    {
        let numeral = render_decimal(i as u64);
        if numeral == tag {
            return ChooserOutcome::Chosen(i);
        }
        i = i + 1;
    }
    ChooserOutcome::Unreadable
}

} // verus!
