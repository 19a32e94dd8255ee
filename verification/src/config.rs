//! What the user has set: the account at the catalog, and the options of one
//! run.

use crate::catalog::SearchQuery;
use crate::dialog::{gui_mode_for, is_gtk_desktop, GuiMode};
use crate::movie::Movie;
use vstd::prelude::*;

verus! {

/// The account at the catalog and the language of the subtitles.
#[derive(Debug, Clone, PartialEq, Eq)]
pub struct Config {
    pub key: String,
    pub user: String,
    pub password: String,
    pub language: String,
    pub useragent: String,
}

impl Config {
    /// A configuration with the given values.
    pub fn new(key: String, user: String, password: String, language: String, useragent: String) -> (config:
        Config)
        ensures
            config.key == key,
            config.user == user,
            config.password == password,
            config.language == language,
            config.useragent == useragent,
    {
        Config { key, user, password, language, useragent }
    }

    /// The configuration of a user who has set nothing yet: no account,
    /// subtitles in English, and the user agent of this program.
    pub fn build() -> (config: Config)
        ensures
            config.key@ == Seq::<char>::empty(),
            config.user@ == Seq::<char>::empty(),
            config.password@ == Seq::<char>::empty(),
            config.language@ == "en"@,
            config.useragent@ == "Opensubtitles downloader"@,
    {
        Config::new(
            String::new(),
            String::new(),
            String::new(),
            "en".to_owned(),
            "Opensubtitles downloader".to_owned(),
        )
    }
}

/// The options of one run.
#[derive(Debug, Clone, PartialEq, Eq)]
pub struct ParsedArgs {
    /// Whether the user picks the subtitle in a dialog.
    pub use_gui: bool,
    /// The dialog program to use.
    pub gui_mode: GuiMode,
    /// The path of the video, as the user gave it.
    pub path: String,
    /// A title to search for in place of the file's own, or the empty text.
    pub custom_title: String,
    /// Whether the run reports what it does.
    pub verbose: bool,
}

/// The dialog program for a session whose desktop is `desktop`: that of GTK
/// where the desktop is not known.
pub open spec fn gui_mode_of(desktop: Option<Seq<char>>) -> GuiMode {
    match desktop {
        Some(name) => if is_gtk_desktop(name) {
            GuiMode::Gtk
        } else {
            GuiMode::Qt
        },
        None => GuiMode::Gtk,
    }
}

impl ParsedArgs {
    /// Options with the given values.
    pub fn new(use_gui: bool, gui_mode: GuiMode, path: String, custom_title: String, verbose: bool) -> (args:
        ParsedArgs)
        ensures
            args.use_gui == use_gui,
            args.gui_mode == gui_mode,
            args.path == path,
            args.custom_title == custom_title,
            args.verbose == verbose,
    {
        ParsedArgs { use_gui, gui_mode, path, custom_title, verbose }
    }

    /// The options that the command line gives: whether `--verbose` and
    /// `--gui` were set, the name of the desktop where the session has one,
    /// the value of `--custom_title` where it was given, and the path of the
    /// video.
    ///
    /// The desktop decides the dialog program only where a dialog is asked
    /// for; without one the program of GTK stands in the options and is not
    /// used.
    pub fn build(
        verbose: bool,
        gui: bool,
        desktop: Option<&str>,
        custom_title: Option<&str>,
        movie: &str,
    ) -> (args: ParsedArgs)
        ensures
            args.verbose == verbose,
            args.use_gui == gui,
            args.gui_mode == (if gui {
                gui_mode_of(
                    match desktop {
                        Some(name) => Some(name@),
                        None => None,
                    },
                )
            } else {
                GuiMode::Gtk
            }),
            args.custom_title@ == (match custom_title {
                Some(title) => title@,
                None => Seq::<char>::empty(),
            }),
            args.path@ == movie@,
    {
        let gui_mode = if gui {
            match desktop {
                Some(name) => gui_mode_for(name),
                None => GuiMode::Gtk,
            }
        } else {
            GuiMode::Gtk
        };
        let title = match custom_title {
            Some(title) => title.to_owned(),
            None => String::new(),
        };
        ParsedArgs::new(gui, gui_mode, movie.to_owned(), title, verbose)
    }
}

/// What a run searches for: the title and the fingerprint of the video, or,
/// where the user gave a title, that title and no fingerprint.
pub open spec fn is_query_for(movie: Movie, custom_title: Seq<char>, language: Seq<char>, query: SearchQuery) -> bool {
    &&& query.language@ == language
    &&& if custom_title.len() == 0 {
        query.title@ == movie.title@ && query.fingerprint is Some && query.fingerprint->Some_0@
            == movie.hash@
    } else {
        query.title@ == custom_title && query.fingerprint is None
    }
}

/// What a run searches for.
pub fn query_for(movie: &Movie, custom_title: &str, language: &str) -> (query: SearchQuery)
    ensures
        is_query_for(*movie, custom_title@, language@, query),
{
    if custom_title.is_empty() {
        SearchQuery {
            title: movie.title.clone(),
            fingerprint: Some(movie.hash.clone()),
            language: language.to_owned(),
        }
    } else {
        SearchQuery { title: custom_title.to_owned(), fingerprint: None, language: language.to_owned() }
    }
}

} // verus!
