use osd::dialog::{
    dialog_arguments, dialog_outcome, gui_mode_for, kdialog_arguments, zenity_arguments, GuiMode,
};
use osd::resolver::{ChooserOutcome, SubtitleCandidate};

fn candidate(name: &str, id: i64, matched: bool) -> SubtitleCandidate {
    SubtitleCandidate { display_name: name.to_string(), remote_file_id: id, fingerprint_matched: matched }
}

#[test]
fn kdialog_gets_tag_label_and_state_of_each_row() {
    let candidates = vec![candidate("a.srt", 10, false), candidate("b.srt", 20, true)];
    assert_eq!(
        kdialog_arguments(&candidates, "movie"),
        vec![
            "--geometry",
            "800x400",
            "--radiolist",
            "Select subtitle",
            "--title",
            "movie",
            "0",
            "a.srt",
            "off",
            "1",
            "b.srt \u{2705}",
            "off",
        ]
    );
}

#[test]
fn zenity_gets_tag_name_and_mark_of_each_row() {
    let candidates = vec![candidate("a.srt", 10, false), candidate("b.srt", 20, true)];
    assert_eq!(
        zenity_arguments(&candidates, "movie"),
        vec![
            "--width=720",
            "--height=400",
            "--list",
            "--title=movie",
            "--column=Index",
            "--column=Subtitle",
            "--column=Hash Match",
            "--hide-column=1",
            "--print-column=1",
            "0",
            "a.srt",
            "",
            "1",
            "b.srt",
            "\u{2705}",
        ]
    );
}

#[test]
fn dialog_without_rows_has_its_fixed_arguments_only() {
    assert_eq!(kdialog_arguments(&Vec::new(), "t").len(), 6);
    assert_eq!(zenity_arguments(&Vec::new(), "t").len(), 9);
}

#[test]
fn rows_past_the_ninth_have_tags_of_two_digits() {
    let candidates: Vec<SubtitleCandidate> = (0..12).map(|i| candidate("x", i, false)).collect();
    let arguments = kdialog_arguments(&candidates, "t");
    assert_eq!(arguments[6 + 3 * 10], "10");
    assert_eq!(arguments[6 + 3 * 11], "11");
}

#[test]
fn dialog_arguments_go_by_the_family() {
    let candidates = vec![candidate("a.srt", 10, false)];
    assert_eq!(
        dialog_arguments(GuiMode::Gtk, &candidates, "m"),
        zenity_arguments(&candidates, "m")
    );
    assert_eq!(
        dialog_arguments(GuiMode::Qt, &candidates, "m"),
        kdialog_arguments(&candidates, "m")
    );
}

#[test]
fn answer_is_the_tag_of_the_chosen_row() {
    assert_eq!(dialog_outcome(true, true, "1\n", 3), ChooserOutcome::Chosen(1));
    assert_eq!(dialog_outcome(true, true, "0", 3), ChooserOutcome::Chosen(0));
    assert_eq!(dialog_outcome(true, true, "2\n\n", 3), ChooserOutcome::Chosen(2));
    assert_eq!(dialog_outcome(true, true, "11\n", 12), ChooserOutcome::Chosen(11));
}

#[test]
fn answer_that_names_no_row_is_unreadable() {
    assert_eq!(dialog_outcome(true, true, "3\n", 3), ChooserOutcome::Unreadable);
    assert_eq!(dialog_outcome(true, true, "", 3), ChooserOutcome::Unreadable);
    assert_eq!(dialog_outcome(true, true, "\n", 3), ChooserOutcome::Unreadable);
    assert_eq!(dialog_outcome(true, true, "01\n", 3), ChooserOutcome::Unreadable);
    assert_eq!(dialog_outcome(true, true, "a.srt\n", 3), ChooserOutcome::Unreadable);
    assert_eq!(dialog_outcome(true, true, " 1\n", 3), ChooserOutcome::Unreadable);
    assert_eq!(dialog_outcome(true, true, "0\n", 0), ChooserOutcome::Unreadable);
}

#[test]
fn status_other_than_zero_is_cancelled() {
    assert_eq!(dialog_outcome(true, false, "1\n", 3), ChooserOutcome::Cancelled);
    assert_eq!(dialog_outcome(true, false, "", 3), ChooserOutcome::Cancelled);
}

#[test]
fn program_that_did_not_start_is_unavailable() {
    assert_eq!(dialog_outcome(false, false, "", 3), ChooserOutcome::Unavailable);
    assert_eq!(dialog_outcome(false, true, "1\n", 3), ChooserOutcome::Unavailable);
}

#[test]
fn desktops_of_gtk_get_zenity() {
    for name in ["Cinnamon", "GNOME", "XFCE", "xfce4", "bspwm", "gnome", "gtk"] {
        assert_eq!(gui_mode_for(name), GuiMode::Gtk);
    }
}

#[test]
fn other_desktops_get_kdialog() {
    for name in ["KDE", "", "Gnome", "qt", "GNOME "] {
        assert_eq!(gui_mode_for(name), GuiMode::Qt);
    }
}
