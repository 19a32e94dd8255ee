//! One run, from the video to the subtitle file, as a machine that is driven
//! from outside.
//!
//! The run goes through its stages in order: built, searched, resolved,
//! authenticated, link obtained, saved. Each step takes what came back from
//! the last action and says what to do next. A stage is left only on success;
//! the first failure ends the run with that failure. Without a dialog a run
//! goes from built to resolved in one step.

use crate::catalog::{
    download_link, download_request, is_download_answer, is_download_request, is_login_answer,
    is_login_request, is_search_answer, is_search_request, login, login_request, search_request,
    search_results, SearchQuery, Url,
};
use crate::config::{is_query_for, query_for, Config, ParsedArgs};
use crate::dialog::{
    dialog_arguments, dialog_outcome, is_dialog_outcome, kdialog_arguments_of,
    zenity_arguments_of, GuiMode,
};
use crate::error::OsdError;
use crate::fetch::{
    download_save_file, fetch_request, is_fetch_request, is_saved_file, FileWrite,
};
use crate::http::Request;
use crate::movie::Movie;
use crate::paths::subtitle_path_of;
use crate::resolver::{
    automatic_pick, chosen_outcome, is_automatic_pick, resolve_chosen, ChooserOutcome,
    SubtitleCandidate,
};
use crate::text::texts;
use vstd::prelude::*;

verus! {

/// How far a run has come.
#[derive(Debug, Clone, PartialEq, Eq)]
pub enum Stage {
    /// The video is known; the search is under way.
    Built { movie: Movie },
    /// The catalog has answered; the dialog is open.
    Searched { movie: Movie, candidates: Vec<SubtitleCandidate> },
    /// The subtitle is chosen; the login is under way.
    Resolved { movie: Movie, file_id: i64 },
    /// The session is open under `token`; the link is asked for.
    Authenticated { movie: Movie, token: String },
    /// The link is known; the file is being fetched.
    LinkObtained { movie: Movie, grant: Url },
    /// The subtitle is written once the last action is done.
    Saved,
    /// The run has ended without a subtitle.
    Failed,
}

/// What came back from the last action.
#[derive(Debug, Clone, PartialEq, Eq)]
pub enum Event {
    /// The catalog answered a request.
    Answer { status: u16, body: String },
    /// The dialog program has run: whether it could be started, whether it
    /// ended with status 0, and what it printed.
    Dialog { started: bool, succeeded: bool, output: String },
    /// The server of the file answered the fetch.
    Payload { status: u16, content: Vec<u8> },
    /// The action failed on this machine.
    Broken,
    /// The action took too long.
    TimedOut,
}

/// What to do next.
#[derive(Debug, Clone, PartialEq, Eq)]
pub enum Action {
    /// Send the request, and come back with its answer.
    Send(Request),
    /// Run the dialog program, and come back with what it did.
    Ask { program: String, arguments: Vec<String> },
    /// Write the file. This is the last action of a run that went well.
    Save(FileWrite),
    /// Report the failure. This is the last action of a run that did not.
    Fail(OsdError),
}

/// The place of a stage in the order of the run.
pub open spec fn rank(stage: Stage) -> int {
    match stage {
        Stage::Built { .. } => 0,
        Stage::Searched { .. } => 1,
        Stage::Resolved { .. } => 2,
        Stage::Authenticated { .. } => 3,
        Stage::LinkObtained { .. } => 4,
        Stage::Saved => 5,
        Stage::Failed => 6,
    }
}

/// The name of the dialog program of a family.
pub open spec fn program_of(mode: GuiMode) -> Seq<char> {
    match mode {
        GuiMode::Gtk => "zenity"@,
        GuiMode::Qt => "kdialog"@,
    }
}

/// The arguments of the dialog program of a family.
pub open spec fn dialog_arguments_of(
    mode: GuiMode,
    candidates: Seq<SubtitleCandidate>,
    title: Seq<char>,
) -> Seq<Seq<char>> {
    match mode {
        GuiMode::Gtk => zenity_arguments_of(candidates, title),
        GuiMode::Qt => kdialog_arguments_of(candidates, title),
    }
}

/// The run ends with the failure `e`.
pub open spec fn halts(e: OsdError, next: Stage, action: Action) -> bool {
    &&& next is Failed
    &&& action matches Action::Fail(f)
    &&& e.same_as(f)
}

/// The run sends `request` and goes on to the stage `then`, or ends with the
/// failure to make the request.
pub open spec fn sends(request: Result<Request, OsdError>, then: Stage, next: Stage, action: Action) -> bool {
    match request {
        Ok(to_send) => next == then && action == Action::Send(to_send),
        Err(e) => halts(e, next, action),
    }
}

/// What follows once the subtitle is chosen, or failed to be: the login.
pub open spec fn after_choice(
    config: Config,
    movie: Movie,
    choice: Result<i64, OsdError>,
    next: Stage,
    action: Action,
) -> bool {
    match choice {
        Err(e) => halts(e, next, action),
        Ok(file_id) => exists|request: Result<Request, OsdError>|
            is_login_request(
                config.key@,
                config.user@,
                config.password@,
                config.useragent@,
                request,
            ) && sends(request, Stage::Resolved { movie, file_id }, next, action),
    }
}

/// What follows the answer to the search: with a dialog the dialog, without
/// one the automatic pick and the login. No candidate at all ends the run.
pub open spec fn after_search(
    config: Config,
    args: ParsedArgs,
    movie: Movie,
    found: Result<Vec<SubtitleCandidate>, OsdError>,
    next: Stage,
    action: Action,
) -> bool {
    match found {
        Err(e) => halts(e, next, action),
        Ok(candidates) => if candidates@.len() == 0 {
            halts(OsdError::Empty, next, action)
        } else if args.use_gui {
            &&& next == Stage::Searched { movie, candidates }
            &&& action matches Action::Ask { program, arguments }
            &&& program@ == program_of(args.gui_mode)
            &&& texts(arguments@) == dialog_arguments_of(args.gui_mode, candidates@, movie.title@)
        } else {
            exists|i: int|
                is_automatic_pick(candidates@, i) && after_choice(
                    config,
                    movie,
                    Ok(candidates@[i].remote_file_id),
                    next,
                    action,
                )
        },
    }
}

/// What follows the answer to the login: the request for the link.
pub open spec fn after_login(
    config: Config,
    movie: Movie,
    file_id: i64,
    token: Result<String, OsdError>,
    next: Stage,
    action: Action,
) -> bool {
    match token {
        Err(e) => halts(e, next, action),
        Ok(session) => exists|request: Result<Request, OsdError>|
            is_download_request(file_id, session@, config.key@, config.useragent@, request)
                && sends(request, Stage::Authenticated { movie, token: session }, next, action),
    }
}

/// What follows the answer to the request for the link: the fetch.
pub open spec fn after_link(movie: Movie, grant: Result<Url, OsdError>, next: Stage, action: Action) -> bool {
    match grant {
        Err(e) => halts(e, next, action),
        Ok(url) => exists|request: Result<Request, OsdError>|
            is_fetch_request(url.link@, request) && sends(
                request,
                Stage::LinkObtained { movie, grant: url },
                next,
                action,
            ),
    }
}

/// What follows the answer to the fetch: the write.
pub open spec fn after_fetch(file: Result<FileWrite, OsdError>, next: Stage, action: Action) -> bool {
    match file {
        Err(e) => halts(e, next, action),
        Ok(to_write) => next == Stage::Saved && action == Action::Save(to_write),
    }
}

/// Whether a run at `stage` that is handed `event` goes to `next` with
/// `action`.
///
/// A run that has ended stays where it is. An action that broke or timed out
/// ends the run, and so does an event that the stage does not wait for.
pub open spec fn is_step(
    config: Config,
    args: ParsedArgs,
    stage: Stage,
    event: Event,
    next: Stage,
    action: Action,
) -> bool {
    if stage is Saved || stage is Failed {
        next == stage && action == Action::Fail(OsdError::UnexpectedEvent)
    } else if event is Broken {
        halts(OsdError::Io, next, action)
    } else if event is TimedOut {
        halts(OsdError::Timeout, next, action)
    } else {
        match (stage, event) {
            (Stage::Built { movie }, Event::Answer { status, body }) => exists|
                found: Result<Vec<SubtitleCandidate>, OsdError>,
            |
                is_search_answer(status, body@, found) && after_search(
                    config,
                    args,
                    movie,
                    found,
                    next,
                    action,
                ),
            (
                Stage::Searched { movie, candidates },
                Event::Dialog { started, succeeded, output },
            ) => exists|answer: ChooserOutcome|
                is_dialog_outcome(started, succeeded, output@, candidates@.len() as int, answer)
                    && after_choice(
                    config,
                    movie,
                    chosen_outcome(candidates@, answer),
                    next,
                    action,
                ),
            (Stage::Resolved { movie, file_id }, Event::Answer { status, body }) => exists|
                token: Result<String, OsdError>,
            |
                is_login_answer(status, body@, token) && after_login(
                    config,
                    movie,
                    file_id,
                    token,
                    next,
                    action,
                ),
            (Stage::Authenticated { movie, .. }, Event::Answer { status, body }) => exists|
                grant: Result<Url, OsdError>,
            |
                is_download_answer(status, body@, grant) && after_link(movie, grant, next, action),
            (Stage::LinkObtained { movie, .. }, Event::Payload { status, content }) => exists|
                file: Result<FileWrite, OsdError>,
            |
                is_saved_file(movie.path@, status, content@, file) && after_fetch(
                    file,
                    next,
                    action,
                ),
            _ => halts(OsdError::UnexpectedEvent, next, action),
        }
    }
}

/// Whether a run for `movie` starts at `next` with `action`: with the
/// search, or with the failure to make its request.
pub open spec fn is_start(config: Config, args: ParsedArgs, movie: Movie, next: Stage, action: Action) -> bool {
    exists|query: SearchQuery, request: Result<Request, OsdError>|
        is_query_for(movie, args.custom_title@, config.language@, query) && is_search_request(
            query,
            config.key@,
            config.useragent@,
            request,
        ) && sends(request, Stage::Built { movie }, next, action)
}

/// A step of a run that has not ended either ends it with a failure, or
/// takes it to a later stage with an action that is no failure: no stage is
/// left but on success, and none is gone back to.
pub proof fn lemma_step_advances_or_halts(
    config: Config,
    args: ParsedArgs,
    stage: Stage,
    event: Event,
    next: Stage,
    action: Action,
)
    requires
        is_step(config, args, stage, event, next, action),
        !(stage is Saved),
        !(stage is Failed),
    ensures
        next is Failed <==> action is Fail,
        !(next is Failed) ==> rank(next) > rank(stage),
        action is Save <==> next is Saved,
{
}

/// A dialog that the user cancelled ends the run with
/// `SelectionCancelled`, and with nothing else.
pub proof fn lemma_cancelled_dialog_halts(
    config: Config,
    args: ParsedArgs,
    movie: Movie,
    candidates: Vec<SubtitleCandidate>,
    output: String,
    next: Stage,
    action: Action,
)
    requires
        candidates@.len() > 0,
        is_step(
            config,
            args,
            Stage::Searched { movie, candidates },
            Event::Dialog { started: true, succeeded: false, output },
            next,
            action,
        ),
    ensures
        next is Failed,
        action == Action::Fail(OsdError::SelectionCancelled),
{
}

/// A dialog program that could not be started ends the run with
/// `ChooserUnavailable`: the run does not fall back to the automatic pick.
pub proof fn lemma_missing_dialog_halts(
    config: Config,
    args: ParsedArgs,
    movie: Movie,
    candidates: Vec<SubtitleCandidate>,
    succeeded: bool,
    output: String,
    next: Stage,
    action: Action,
)
    requires
        candidates@.len() > 0,
        is_step(
            config,
            args,
            Stage::Searched { movie, candidates },
            Event::Dialog { started: false, succeeded, output },
            next,
            action,
        ),
    ensures
        next is Failed,
        action == Action::Fail(OsdError::ChooserUnavailable),
{
}

/// What is written at the end of a run is what the server of the file sent,
/// byte for byte, beside the video.
pub proof fn lemma_saved_content_is_payload(
    config: Config,
    args: ParsedArgs,
    movie: Movie,
    grant: Url,
    content: Vec<u8>,
    next: Stage,
    action: Action,
)
    requires
        is_step(
            config,
            args,
            Stage::LinkObtained { movie, grant },
            Event::Payload { status: 200, content },
            next,
            action,
        ),
    ensures
        next is Saved,
        action matches Action::Save(file) && file.content@ == content@ && file.path@
            == subtitle_path_of(movie.path@),
{
}

/// Sends the request, or ends the run.
fn send_or_halt(request: Result<Request, OsdError>, then: Stage) -> (r: (Stage, Action))
    ensures
        sends(request, then, r.0, r.1),
{
    match request {
        Ok(to_send) => (then, Action::Send(to_send)),
        Err(e) => (Stage::Failed, Action::Fail(e)),
    }
}

/// Goes on with the login, or ends the run.
fn go_on_with_choice(config: &Config, movie: Movie, choice: Result<i64, OsdError>) -> (r: (
    Stage,
    Action,
))
    ensures
        after_choice(*config, movie, choice, r.0, r.1),
{
    match choice {
        Err(e) => (Stage::Failed, Action::Fail(e)),
        Ok(file_id) => {
            let request = login_request(
                config.key.as_str(),
                config.user.as_str(),
                config.password.as_str(),
                config.useragent.as_str(),
            );
            send_or_halt(request, Stage::Resolved { movie, file_id })
        },
    }
}

/// The first step of a run for `movie`.
pub fn start(config: &Config, args: &ParsedArgs, movie: Movie) -> (r: (Stage, Action))
    ensures
        is_start(*config, *args, movie, r.0, r.1),
{
    let query = query_for(&movie, args.custom_title.as_str(), config.language.as_str());
    let request = search_request(&query, config.key.as_str(), config.useragent.as_str());
    send_or_halt(request, Stage::Built { movie })
}

/// The step that the answer to the search leads to.
fn on_search_answer(config: &Config, args: &ParsedArgs, movie: Movie, status: u16, body: &str) -> (r:
    (Stage, Action))
    ensures
        exists|found: Result<Vec<SubtitleCandidate>, OsdError>|
            is_search_answer(status, body@, found) && after_search(
                *config,
                *args,
                movie,
                found,
                r.0,
                r.1,
            ),
{
    let found = search_results(status, body);
    let ghost seen = found;
    let r = match found {
        Err(e) => (Stage::Failed, Action::Fail(e)),
        Ok(candidates) => {
            if candidates.len() == 0 {
                (Stage::Failed, Action::Fail(OsdError::Empty))
            } else if args.use_gui {
                let arguments = dialog_arguments(args.gui_mode, &candidates, movie.title.as_str());
                let program = match args.gui_mode {
                    GuiMode::Gtk => "zenity".to_owned(),
                    GuiMode::Qt => "kdialog".to_owned(),
                };
                (Stage::Searched { movie, candidates }, Action::Ask { program, arguments })
            } else {
                let i = match automatic_pick(&candidates) {
                    Some(i) => i,
                    None => 0,
                };
                let file_id = candidates[i].remote_file_id;
                let r = go_on_with_choice(config, movie, Ok(file_id));
                assert(is_automatic_pick(candidates@, i as int));
                r
            }
        },
    };
    assert(after_search(*config, *args, movie, seen, r.0, r.1));
    r
}

/// The step that the run of the dialog program leads to.
fn on_dialog(
    config: &Config,
    movie: Movie,
    candidates: Vec<SubtitleCandidate>,
    started: bool,
    succeeded: bool,
    output: &str,
) -> (r: (Stage, Action))
    ensures
        exists|answer: ChooserOutcome|
            is_dialog_outcome(started, succeeded, output@, candidates@.len() as int, answer)
                && after_choice(*config, movie, chosen_outcome(candidates@, answer), r.0, r.1),
{
    let answer = dialog_outcome(started, succeeded, output, candidates.len());
    let choice = resolve_chosen(&candidates, answer);
    let r = go_on_with_choice(config, movie, choice);
    assert(is_dialog_outcome(started, succeeded, output@, candidates@.len() as int, answer)
        && after_choice(*config, movie, chosen_outcome(candidates@, answer), r.0, r.1));
    r
}

/// The step that the answer to the login leads to.
fn on_login_answer(config: &Config, movie: Movie, file_id: i64, status: u16, body: &str) -> (r: (
    Stage,
    Action,
))
    ensures
        exists|token: Result<String, OsdError>|
            is_login_answer(status, body@, token) && after_login(
                *config,
                movie,
                file_id,
                token,
                r.0,
                r.1,
            ),
{
    let token = login(status, body);
    let ghost seen = token;
    let r = match token {
        Err(e) => (Stage::Failed, Action::Fail(e)),
        Ok(session) => {
            let request = download_request(
                file_id,
                session.as_str(),
                config.key.as_str(),
                config.useragent.as_str(),
            );
            send_or_halt(request, Stage::Authenticated { movie, token: session })
        },
    };
    assert(is_login_answer(status, body@, seen) && after_login(
        *config,
        movie,
        file_id,
        seen,
        r.0,
        r.1,
    ));
    r
}

/// The step that the answer to the request for the link leads to.
fn on_link_answer(movie: Movie, status: u16, body: &str) -> (r: (Stage, Action))
    ensures
        exists|grant: Result<Url, OsdError>|
            is_download_answer(status, body@, grant) && after_link(movie, grant, r.0, r.1),
{
    let grant = download_link(status, body);
    let ghost seen = grant;
    let r = match grant {
        Err(e) => (Stage::Failed, Action::Fail(e)),
        Ok(url) => {
            let request = fetch_request(url.link.as_str());
            send_or_halt(request, Stage::LinkObtained { movie, grant: url })
        },
    };
    assert(is_download_answer(status, body@, seen) && after_link(movie, seen, r.0, r.1));
    r
}

/// The step that the answer to the fetch leads to.
fn on_payload(movie: Movie, status: u16, content: Vec<u8>) -> (r: (Stage, Action))
    ensures
        exists|file: Result<FileWrite, OsdError>|
            is_saved_file(movie.path@, status, content@, file) && after_fetch(file, r.0, r.1),
{
    let file = download_save_file(movie.path.as_str(), status, content);
    let ghost seen = file;
    let r = match file {
        Err(e) => (Stage::Failed, Action::Fail(e)),
        Ok(to_write) => (Stage::Saved, Action::Save(to_write)),
    };
    assert(is_saved_file(movie.path@, status, content@, seen) && after_fetch(seen, r.0, r.1));
    r
}

/// The next step of a run at `stage` that is handed `event`.
pub fn step(config: &Config, args: &ParsedArgs, stage: Stage, event: Event) -> (r: (Stage, Action))
    ensures
        is_step(*config, *args, stage, event, r.0, r.1),
{
    match stage {
        Stage::Saved => {
            return (Stage::Saved, Action::Fail(OsdError::UnexpectedEvent));
        },
        Stage::Failed => {
            return (Stage::Failed, Action::Fail(OsdError::UnexpectedEvent));
        },
        _ => {},
    }
    match event {
        Event::Broken => {
            return (Stage::Failed, Action::Fail(OsdError::Io));
        },
        Event::TimedOut => {
            return (Stage::Failed, Action::Fail(OsdError::Timeout));
        },
        _ => {},
    }
    match (stage, event) {
        (Stage::Built { movie }, Event::Answer { status, body }) => on_search_answer(
            config,
            args,
            movie,
            status,
            body.as_str(),
        ),
        (
            Stage::Searched { movie, candidates },
            Event::Dialog { started, succeeded, output },
        ) => on_dialog(config, movie, candidates, started, succeeded, output.as_str()),
        (Stage::Resolved { movie, file_id }, Event::Answer { status, body }) => on_login_answer(
            config,
            movie,
            file_id,
            status,
            body.as_str(),
        ),
        (Stage::Authenticated { movie, .. }, Event::Answer { status, body }) => on_link_answer(
            movie,
            status,
            body.as_str(),
        ),
        (Stage::LinkObtained { movie, .. }, Event::Payload { status, content }) => on_payload(
            movie,
            status,
            content,
        ),
        _ => (Stage::Failed, Action::Fail(OsdError::UnexpectedEvent)),
    }
}

} // verus!
