use cloak_browser::download::{Action, Download, Event, Failure, Outcome};
use cloak_browser::ipc::{handle, Command};
use std::path::PathBuf;

fn begun(url: &str, file: &str) -> Download<PathBuf> {
    let (download, action) = Download::<PathBuf>::start(url.to_string(), file.to_string());
    assert_eq!(action, Action::Prompt { file: file.to_string() });
    download
}

fn fetching(url: &str, destination: &str) -> Download<PathBuf> {
    let (download, action) =
        begun(url, "download").step(Event::Chosen { destination: Some(PathBuf::from(destination)) });
    assert_eq!(action, Action::Fetch { url: url.to_string() });
    download
}

fn creating(destination: &str) -> Download<PathBuf> {
    let (download, action) = fetching("https://x", destination).step(Event::Responded { ok: true });
    assert_eq!(action, Action::Create { destination: PathBuf::from(destination) });
    download
}

fn reading() -> Download<PathBuf> {
    let (download, action) = creating("/tmp/p").step(Event::Created { ok: true });
    assert_eq!(action, Action::ReadBody);
    download
}

fn writing(body: &[u8]) -> Download<PathBuf> {
    let (download, action) = reading().step(Event::BodyRead { body: Some(body.to_vec()) });
    assert_eq!(action, Action::Write { body: body.to_vec() });
    download
}

#[test]
fn start_asks_where_to_save() {
    let (download, action) =
        Download::<PathBuf>::start("https://x/r".to_string(), "report.pdf".to_string());
    assert_eq!(download, Download::Choosing { url: "https://x/r".to_string() });
    assert_eq!(action, Action::Prompt { file: "report.pdf".to_string() });
    assert!(!download.is_finished());
    assert_eq!(download.outcome(), None);
}

#[test]
fn download_start_command_ends_with_the_body_in_the_chosen_file() {
    let raw = "{\"cmd\":\"download_start\",\"payload\":{\"url\":\"https://example.org/r\",\"file\":\"report.pdf\"}}";
    let Some(Command::DownloadStart { url, file }) = handle(raw) else {
        panic!("the command is a download");
    };
    let (download, action) = Download::<PathBuf>::start(url, file);
    assert_eq!(action, Action::Prompt { file: "report.pdf".to_string() });
    let chosen = PathBuf::from("/home/u/Downloads/report.pdf");
    let (download, action) = download.step(Event::Chosen { destination: Some(chosen.clone()) });
    assert_eq!(action, Action::Fetch { url: "https://example.org/r".to_string() });
    assert_eq!(download, Download::Fetching { destination: chosen.clone() });
    let (download, action) = download.step(Event::Responded { ok: true });
    assert_eq!(action, Action::Create { destination: chosen });
    assert_eq!(download, Download::Creating);
    let (download, action) = download.step(Event::Created { ok: true });
    assert_eq!(action, Action::ReadBody);
    assert_eq!(download, Download::Reading);
    let body = vec![0x25, 0x50, 0x44, 0x46, 0x00, 0xff, 0x0a];
    let (download, action) = download.step(Event::BodyRead { body: Some(body.clone()) });
    assert_eq!(action, Action::Write { body });
    assert_eq!(download, Download::Writing);
    let (download, action) = download.step(Event::Written { ok: true });
    assert_eq!(action, Action::Stop);
    assert_eq!(download, Download::Finished { outcome: Outcome::Saved });
    assert!(download.is_finished());
    assert_eq!(download.outcome(), Some(Outcome::Saved));
}

#[test]
fn an_empty_body_is_written_as_it_is() {
    let (download, action) = reading().step(Event::BodyRead { body: Some(Vec::new()) });
    assert_eq!(action, Action::Write { body: Vec::new() });
    assert_eq!(download, Download::Writing);
}

#[test]
fn cancelling_the_dialog_ends_the_download() {
    let (download, action) = begun("https://x", "report.pdf").step(Event::Chosen { destination: None });
    assert_eq!(action, Action::Stop);
    assert_eq!(download, Download::Finished { outcome: Outcome::Cancelled });
    assert_eq!(download.outcome(), Some(Outcome::Cancelled));
}

#[test]
fn nothing_follows_a_cancelled_download() {
    let events = || {
        vec![
            Event::Chosen { destination: Some(PathBuf::from("/tmp/p")) },
            Event::Responded { ok: true },
            Event::Created { ok: true },
            Event::BodyRead { body: Some(vec![1, 2, 3]) },
            Event::Written { ok: true },
        ]
    };
    for event in events() {
        let (download, _) = begun("https://x", "f").step(Event::Chosen { destination: None });
        let (download, action) = download.step(event);
        assert_eq!(action, Action::Stop);
        assert_eq!(download, Download::Finished { outcome: Outcome::Cancelled });
    }
}

#[test]
fn a_failed_request_ends_the_download() {
    let (download, action) = fetching("https://x", "/tmp/p").step(Event::Responded { ok: false });
    assert_eq!(action, Action::Stop);
    assert_eq!(download.outcome(), Some(Outcome::Failed(Failure::Fetch)));
}

#[test]
fn a_file_that_cannot_be_created_ends_the_download() {
    let (download, action) = creating("/tmp/p").step(Event::Created { ok: false });
    assert_eq!(action, Action::Stop);
    assert_eq!(download.outcome(), Some(Outcome::Failed(Failure::Create)));
}

#[test]
fn a_body_that_cannot_be_read_ends_the_download() {
    let (download, action) = reading().step(Event::BodyRead { body: None });
    assert_eq!(action, Action::Stop);
    assert_eq!(download.outcome(), Some(Outcome::Failed(Failure::Read)));
}

#[test]
fn a_body_that_cannot_be_written_ends_the_download() {
    let (download, action) = writing(b"abc").step(Event::Written { ok: false });
    assert_eq!(action, Action::Stop);
    assert_eq!(download.outcome(), Some(Outcome::Failed(Failure::Write)));
}

#[test]
fn a_finished_download_stays_finished() {
    for outcome in [
        Outcome::Saved,
        Outcome::Cancelled,
        Outcome::Failed(Failure::Fetch),
        Outcome::Failed(Failure::Create),
        Outcome::Failed(Failure::Read),
        Outcome::Failed(Failure::Write),
    ] {
        for event in [
            Event::Chosen { destination: Some(PathBuf::from("/tmp/p")) },
            Event::Chosen { destination: None },
            Event::Responded { ok: true },
            Event::Created { ok: true },
            Event::BodyRead { body: Some(vec![9]) },
            Event::Written { ok: true },
        ] {
            let (download, action) = Download::Finished { outcome }.step(event);
            assert_eq!(action, Action::Stop);
            assert_eq!(download, Download::Finished { outcome });
        }
    }
}

#[test]
fn an_event_out_of_turn_changes_nothing() {
    let (download, action) = begun("https://x", "f").step(Event::Responded { ok: true });
    assert_eq!(action, Action::Stop);
    assert_eq!(download, Download::Choosing { url: "https://x".to_string() });

    let (download, action) = fetching("https://x", "/tmp/p").step(Event::Written { ok: true });
    assert_eq!(action, Action::Stop);
    assert_eq!(download, Download::Fetching { destination: PathBuf::from("/tmp/p") });

    let (download, action) = creating("/tmp/p").step(Event::BodyRead { body: Some(vec![1]) });
    assert_eq!(action, Action::Stop);
    assert_eq!(download, Download::Creating);

    let (download, action) = reading().step(Event::Created { ok: true });
    assert_eq!(action, Action::Stop);
    assert_eq!(download, Download::Reading);

    let (download, action) = writing(b"x").step(Event::Chosen { destination: None });
    assert_eq!(action, Action::Stop);
    assert_eq!(download, Download::Writing);
}

#[test]
fn two_downloads_do_not_touch_each_other() {
    let first = fetching("https://a", "/tmp/a");
    let second = fetching("https://b", "/tmp/b");
    let (first, _) = first.step(Event::Responded { ok: false });
    assert_eq!(first.outcome(), Some(Outcome::Failed(Failure::Fetch)));
    let (second, action) = second.step(Event::Responded { ok: true });
    assert_eq!(action, Action::Create { destination: PathBuf::from("/tmp/b") });
    let (second, _) = second.step(Event::Created { ok: true });
    let (second, action) = second.step(Event::BodyRead { body: Some(b"bytes of b".to_vec()) });
    assert_eq!(action, Action::Write { body: b"bytes of b".to_vec() });
    let (second, _) = second.step(Event::Written { ok: true });
    assert_eq!(second.outcome(), Some(Outcome::Saved));
    assert_eq!(first.outcome(), Some(Outcome::Failed(Failure::Fetch)));
}

#[test]
fn the_place_to_save_may_be_of_any_type() {
    let (download, _) = Download::<u32>::start("https://x".to_string(), "f".to_string());
    let (download, _) = download.step(Event::Chosen { destination: Some(17) });
    let (_, action) = download.step(Event::Responded { ok: true });
    assert_eq!(action, Action::Create { destination: 17 });
}

/// Stands for the outside world of one download: what each piece of work
/// yields, and what has been done so far.
struct World {
    answers: bool,
    creates: bool,
    body: Option<Vec<u8>>,
    writes: bool,
    requested: Vec<String>,
    created: Vec<PathBuf>,
    written: Vec<Vec<u8>>,
}

impl World {
    fn perform(&mut self, action: Action<PathBuf>) -> Option<Event<PathBuf>> {
        match action {
            Action::Fetch { url } => {
                self.requested.push(url);
                Some(Event::Responded { ok: self.answers })
            }
            Action::Create { destination } => {
                self.created.push(destination);
                Some(Event::Created { ok: self.creates })
            }
            Action::ReadBody => Some(Event::BodyRead { body: self.body.take() }),
            Action::Write { body } => {
                self.written.push(body);
                Some(Event::Written { ok: self.writes })
            }
            Action::Prompt { .. } | Action::Stop => None,
        }
    }

    fn run(&mut self, chosen: Option<&str>) -> Option<Outcome> {
        let (download, _) = Download::<PathBuf>::start("https://x/r".to_string(), "r".to_string());
        let (mut download, mut action) =
            download.step(Event::Chosen { destination: chosen.map(PathBuf::from) });
        while let Some(event) = self.perform(action) {
            (download, action) = download.step(event);
        }
        download.outcome()
    }
}

fn world(answers: bool, creates: bool, body: Option<&[u8]>, writes: bool) -> World {
    World {
        answers,
        creates,
        body: body.map(|bytes| bytes.to_vec()),
        writes,
        requested: Vec::new(),
        created: Vec::new(),
        written: Vec::new(),
    }
}

#[test]
fn a_driven_download_saves_the_body_where_chosen() {
    let mut world = world(true, true, Some(b"the body"), true);
    assert_eq!(world.run(Some("/tmp/r")), Some(Outcome::Saved));
    assert_eq!(world.requested, vec!["https://x/r".to_string()]);
    assert_eq!(world.created, vec![PathBuf::from("/tmp/r")]);
    assert_eq!(world.written, vec![b"the body".to_vec()]);
}

#[test]
fn a_driven_download_that_is_cancelled_does_no_work() {
    let mut world = world(true, true, Some(b"the body"), true);
    assert_eq!(world.run(None), Some(Outcome::Cancelled));
    assert!(world.requested.is_empty());
    assert!(world.created.is_empty());
    assert!(world.written.is_empty());
}

#[test]
fn a_driven_download_stops_at_the_first_failure() {
    let mut unanswered = world(false, true, Some(b"b"), true);
    assert_eq!(unanswered.run(Some("/tmp/r")), Some(Outcome::Failed(Failure::Fetch)));
    assert!(unanswered.created.is_empty());
    assert!(unanswered.written.is_empty());

    let mut uncreated = world(true, false, Some(b"b"), true);
    assert_eq!(uncreated.run(Some("/tmp/r")), Some(Outcome::Failed(Failure::Create)));
    assert_eq!(uncreated.created, vec![PathBuf::from("/tmp/r")]);
    assert!(uncreated.written.is_empty());

    let mut unread = world(true, true, None, true);
    assert_eq!(unread.run(Some("/tmp/r")), Some(Outcome::Failed(Failure::Read)));
    assert_eq!(unread.created, vec![PathBuf::from("/tmp/r")]);
    assert!(unread.written.is_empty());

    let mut unwritten = world(true, true, Some(b"b"), false);
    assert_eq!(unwritten.run(Some("/tmp/r")), Some(Outcome::Failed(Failure::Write)));
    assert_eq!(unwritten.written, vec![b"b".to_vec()]);
}
