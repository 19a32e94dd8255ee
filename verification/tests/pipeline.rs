use osd::catalog::Url;
use osd::config::{Config, ParsedArgs};
use osd::dialog::GuiMode;
use osd::error::{InputError, OsdError};
use osd::fetch::FileWrite;
use osd::http::Method;
use osd::movie::{Movie, PathKind};
use osd::pipeline::{start, step, Action, Event, Stage};

fn fixture(len: usize) -> Vec<u8> {
    (0..len).map(|i| ((i * 7 + 3) % 256) as u8).collect()
}

fn config() -> Config {
    Config::new(
        "KEY".to_string(),
        "user".to_string(),
        "secret".to_string(),
        "en".to_string(),
        "agent".to_string(),
    )
}

fn args(use_gui: bool, mode: GuiMode, custom_title: &str) -> ParsedArgs {
    ParsedArgs::new(use_gui, mode, "movie.mkv".to_string(), custom_title.to_string(), false)
}

fn movie() -> Movie {
    Movie::new("/home/u/movie.mkv".to_string(), "movie".to_string(), "60a0df1f5fa2e000".to_string())
}

fn grant(link: &str) -> Url {
    Url {
        link: link.to_string(),
        requests: 0,
        remaining: 0,
        message: String::new(),
        reset_time: String::new(),
        reset_time_utc: String::new(),
    }
}

fn authenticated() -> Stage {
    Stage::Authenticated { movie: movie(), token: "abc".to_string() }
}

fn link_obtained() -> Stage {
    Stage::LinkObtained { movie: movie(), grant: grant("https://cdn/x.srt") }
}

fn answer(status: u16, body: &str) -> Event {
    Event::Answer { status, body: body.to_string() }
}

const ONE_MATCH: &str = r#"{"total_count":1,"data":[{"attributes":{"moviehash_match":true,
    "files":[{"file_id":555,"file_name":"movie.srt"}]}}]}"#;

const TWO_OF_ONE_NAME: &str = r#"{"total_count":2,"data":[
    {"attributes":{"moviehash_match":false,"files":[{"file_id":111,"file_name":"same.srt"}]}},
    {"attributes":{"moviehash_match":true,"files":[{"file_id":222,"file_name":"same.srt"}]}}]}"#;

#[test]
fn run_from_the_video_to_the_subtitle() {
    let content = fixture(204800);
    let movie = Movie::build(
        "movie.mkv",
        "/home/u",
        PathKind::File,
        204800,
        &content[..65536],
        &content[204800 - 65536..],
    )
    .unwrap();
    assert_eq!(movie.hash, "60a0df1f5fa2e000");
    let config = config();
    let args = args(false, GuiMode::Gtk, "");

    let (stage, action) = start(&config, &args, movie.clone());
    assert_eq!(stage, Stage::Built { movie: movie.clone() });
    match action {
        Action::Send(request) => {
            assert_eq!(request.method, Method::Get);
            assert_eq!(
                request.url,
                "https://api.opensubtitles.com/api/v1/subtitles?languages=en&query=movie&moviehash=60a0df1f5fa2e000"
            );
        },
        other => panic!("{:?}", other),
    }

    let (stage, action) = step(&config, &args, stage, answer(200, ONE_MATCH));
    assert_eq!(stage, Stage::Resolved { movie: movie.clone(), file_id: 555 });
    match action {
        Action::Send(request) => {
            assert_eq!(request.method, Method::Post);
            assert_eq!(request.url, "https://api.opensubtitles.com/api/v1/login");
            assert_eq!(request.body, r#"{"username":"user","password":"secret"}"#);
        },
        other => panic!("{:?}", other),
    }

    let (stage, action) = step(&config, &args, stage, answer(200, r#"{"token":"abc"}"#));
    assert_eq!(stage, Stage::Authenticated { movie: movie.clone(), token: "abc".to_string() });
    match action {
        Action::Send(request) => {
            assert_eq!(request.url, "https://api.opensubtitles.com/api/v1/download");
            assert_eq!(request.body, r#"{"file_id":555}"#);
            assert_eq!(
                request.headers.last(),
                Some(&("Authorization".to_string(), "Bearer abc".to_string()))
            );
        },
        other => panic!("{:?}", other),
    }

    let (stage, action) = step(&config, &args, stage, answer(200, r#"{"link":"https://cdn/x.srt"}"#));
    assert_eq!(
        stage,
        Stage::LinkObtained { movie: movie.clone(), grant: grant("https://cdn/x.srt") }
    );
    match action {
        Action::Send(request) => {
            assert_eq!(request.method, Method::Get);
            assert_eq!(request.url, "https://cdn/x.srt");
            assert!(request.headers.is_empty());
        },
        other => panic!("{:?}", other),
    }

    let payload = b"1\n00:00:01,000 --> 00:00:02,000\nHello\n".to_vec();
    let (stage, action) =
        step(&config, &args, stage, Event::Payload { status: 200, content: payload.clone() });
    assert_eq!(stage, Stage::Saved);
    assert_eq!(
        action,
        Action::Save(FileWrite { path: "/home/u/movie.srt".to_string(), content: payload })
    );
}

#[test]
fn run_with_a_dialog_takes_the_chosen_row() {
    let config = config();
    let args = args(true, GuiMode::Qt, "");
    let (stage, _) = start(&config, &args, movie());
    let (stage, action) = step(&config, &args, stage, answer(200, TWO_OF_ONE_NAME));
    match &stage {
        Stage::Searched { candidates, .. } => assert_eq!(candidates.len(), 2),
        other => panic!("{:?}", other),
    }
    match action {
        Action::Ask { program, arguments } => {
            assert_eq!(program, "kdialog");
            assert_eq!(
                arguments,
                vec![
                    "--geometry",
                    "800x400",
                    "--radiolist",
                    "Select subtitle",
                    "--title",
                    "movie",
                    "0",
                    "same.srt",
                    "off",
                    "1",
                    "same.srt \u{2705}",
                    "off",
                ]
            );
        },
        other => panic!("{:?}", other),
    }
    let chosen = Event::Dialog { started: true, succeeded: true, output: "0\n".to_string() };
    let (stage, action) = step(&config, &args, stage, chosen);
    assert_eq!(stage, Stage::Resolved { movie: movie(), file_id: 111 });
    assert!(matches!(action, Action::Send(_)));
}

#[test]
fn run_with_zenity_asks_zenity() {
    let config = config();
    let args = args(true, GuiMode::Gtk, "");
    let (stage, _) = start(&config, &args, movie());
    let (_, action) = step(&config, &args, stage, answer(200, ONE_MATCH));
    match action {
        Action::Ask { program, arguments } => {
            assert_eq!(program, "zenity");
            assert_eq!(arguments[3], "--title=movie");
            assert_eq!(arguments[9..], ["0", "movie.srt", "\u{2705}"]);
        },
        other => panic!("{:?}", other),
    }
}

#[test]
fn cancelled_dialog_ends_the_run() {
    let config = config();
    let args = args(true, GuiMode::Gtk, "");
    let (stage, _) = start(&config, &args, movie());
    let (stage, _) = step(&config, &args, stage, answer(200, ONE_MATCH));
    let cancelled = Event::Dialog { started: true, succeeded: false, output: String::new() };
    assert_eq!(
        step(&config, &args, stage, cancelled),
        (Stage::Failed, Action::Fail(OsdError::SelectionCancelled))
    );
}

#[test]
fn missing_dialog_program_ends_the_run() {
    let config = config();
    let args = args(true, GuiMode::Gtk, "");
    let (stage, _) = start(&config, &args, movie());
    let (stage, _) = step(&config, &args, stage, answer(200, ONE_MATCH));
    let missing = Event::Dialog { started: false, succeeded: false, output: String::new() };
    assert_eq!(
        step(&config, &args, stage, missing),
        (Stage::Failed, Action::Fail(OsdError::ChooserUnavailable))
    );
}

#[test]
fn unreadable_answer_of_the_dialog_ends_the_run() {
    let config = config();
    let args = args(true, GuiMode::Gtk, "");
    let (stage, _) = start(&config, &args, movie());
    let (stage, _) = step(&config, &args, stage, answer(200, ONE_MATCH));
    let odd = Event::Dialog { started: true, succeeded: true, output: "movie.srt\n".to_string() };
    assert_eq!(
        step(&config, &args, stage, odd),
        (Stage::Failed, Action::Fail(OsdError::InvalidSelection))
    );
}

#[test]
fn run_with_a_given_title_searches_without_fingerprint() {
    let config = config();
    let args = args(false, GuiMode::Gtk, "Other Title");
    match start(&config, &args, movie()) {
        (Stage::Built { .. }, Action::Send(request)) => assert_eq!(
            request.url,
            "https://api.opensubtitles.com/api/v1/subtitles?languages=en&query=Other+Title"
        ),
        other => panic!("{:?}", other),
    }
}

#[test]
fn run_does_not_start_with_a_bad_key() {
    let mut config = config();
    config.key = "KEY\n".to_string();
    let args = args(false, GuiMode::Gtk, "");
    assert_eq!(
        start(&config, &args, movie()),
        (Stage::Failed, Action::Fail(OsdError::InvalidHeader))
    );
}

#[test]
fn failure_of_a_stage_ends_the_run_with_that_failure() {
    let config = config();
    let args = args(false, GuiMode::Gtk, "");
    let built = || Stage::Built { movie: movie() };
    assert_eq!(
        step(&config, &args, built(), answer(503, "down")),
        (Stage::Failed, Action::Fail(OsdError::Remote { status: 503, body: "down".to_string() }))
    );
    assert_eq!(
        step(&config, &args, built(), answer(200, r#"{"total_count":0,"data":[]}"#)),
        (Stage::Failed, Action::Fail(OsdError::NoResults))
    );
    assert_eq!(
        step(&config, &args, built(), answer(200, r#"{"total_count":1,"data":[]}"#)),
        (Stage::Failed, Action::Fail(OsdError::Empty))
    );
    assert_eq!(
        step(&config, &args, built(), answer(200, "not json")),
        (Stage::Failed, Action::Fail(OsdError::Decode))
    );
    let resolved = Stage::Resolved { movie: movie(), file_id: 555 };
    assert_eq!(
        step(&config, &args, resolved, answer(401, "no")),
        (Stage::Failed, Action::Fail(OsdError::Remote { status: 401, body: "no".to_string() }))
    );
    assert_eq!(
        step(&config, &args, authenticated(), answer(200, r#"{"link":"x.srt"}"#)),
        (Stage::Failed, Action::Fail(OsdError::InvalidUrl))
    );
    assert_eq!(
        step(&config, &args, link_obtained(), Event::Payload { status: 410, content: b"gone".to_vec() }),
        (Stage::Failed, Action::Fail(OsdError::Remote { status: 410, body: String::new() }))
    );
}

#[test]
fn quoted_link_is_fetched_without_its_quotes() {
    let config = config();
    let args = args(false, GuiMode::Gtk, "");
    match step(&config, &args, authenticated(), answer(200, r#"{"link":"\"https://x/y.srt\""}"#)) {
        (Stage::LinkObtained { .. }, Action::Send(request)) => {
            assert_eq!(request.url, "https://x/y.srt")
        },
        other => panic!("{:?}", other),
    }
}

#[test]
fn broken_or_slow_action_ends_the_run() {
    let config = config();
    let args = args(false, GuiMode::Gtk, "");
    assert_eq!(
        step(&config, &args, Stage::Built { movie: movie() }, Event::Broken),
        (Stage::Failed, Action::Fail(OsdError::Io))
    );
    assert_eq!(
        step(&config, &args, authenticated(), Event::TimedOut),
        (Stage::Failed, Action::Fail(OsdError::Timeout))
    );
}

#[test]
fn event_out_of_turn_ends_the_run() {
    let config = config();
    let args = args(false, GuiMode::Gtk, "");
    let payload = Event::Payload { status: 200, content: Vec::new() };
    assert_eq!(
        step(&config, &args, Stage::Built { movie: movie() }, payload),
        (Stage::Failed, Action::Fail(OsdError::UnexpectedEvent))
    );
    assert_eq!(
        step(&config, &args, link_obtained(), answer(200, "{}")),
        (Stage::Failed, Action::Fail(OsdError::UnexpectedEvent))
    );
}

#[test]
fn run_that_has_ended_stays_where_it_is() {
    let config = config();
    let args = args(false, GuiMode::Gtk, "");
    assert_eq!(
        step(&config, &args, Stage::Saved, answer(200, "{}")),
        (Stage::Saved, Action::Fail(OsdError::UnexpectedEvent))
    );
    assert_eq!(
        step(&config, &args, Stage::Failed, Event::Broken),
        (Stage::Failed, Action::Fail(OsdError::UnexpectedEvent))
    );
}

#[test]
fn small_file_makes_no_video() {
    let content = vec![0u8; 1000];
    assert_eq!(
        Movie::build("m.mkv", "/", PathKind::File, 1000, &content, &content),
        Err(OsdError::Input(InputError::TooSmall))
    );
}
