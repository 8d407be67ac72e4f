//! One download, as the host sees it.
//!
//! A download is a value of its own: it shares nothing with any other
//! download, and it moves only by [`Download::step`], on the events of its
//! own dialog, request and file. The caller does the work (the dialog, the
//! request, the file) and reports each result as an [`Event`]; `step`
//! answers with the next [`Action`]. Every failure ends the download in
//! silence: there is no retry and no notice.
//!
//! `P` is the type of a place to save to, as the save dialog hands it out.
//! The library never looks inside it.

use vstd::prelude::*;

verus! {

/// The step at which a download failed.
#[derive(Clone, Copy, Debug, PartialEq, Eq, Structural)]
pub enum Failure {
    /// The request got no response.
    Fetch,
    /// The file could not be created.
    Create,
    /// The body of the response could not be read to its end.
    Read,
    /// The body could not be written to the file.
    Write,
}

/// How a download ended.
#[derive(Clone, Copy, Debug, PartialEq, Eq, Structural)]
pub enum Outcome {
    /// The file holds the body of the response.
    Saved,
    /// The user closed the save dialog without choosing.
    Cancelled,
    /// A step failed.
    Failed(Failure),
}

/// Where a download stands.
#[derive(Debug, PartialEq)]
pub enum Download<P> {
    /// The save dialog is open.
    Choosing { url: String },
    /// The request is under way; `destination` is where the user chose to
    /// save.
    Fetching { destination: P },
    /// The response has arrived and the file is being created.
    Creating,
    /// The file exists and the body is being read.
    Reading,
    /// The body is being written to the file.
    Writing,
    /// The download is over.
    Finished { outcome: Outcome },
}

/// What the caller reports.
#[derive(Debug, PartialEq)]
pub enum Event<P> {
    /// The save dialog closed, with the place chosen or with none.
    Chosen { destination: Option<P> },
    /// The request was answered (`true`) or failed.
    Responded { ok: bool },
    /// The file was created or truncated (`true`), or could not be.
    Created { ok: bool },
    /// The body was read to its end, or reading failed.
    BodyRead { body: Option<Vec<u8>> },
    /// The body was written to the file (`true`), or writing failed.
    Written { ok: bool },
}

/// What the caller is to do next.
#[derive(Debug, PartialEq)]
pub enum Action<P> {
    /// Open the save dialog with `file` as the suggested name.
    Prompt { file: String },
    /// Start a worker of its own for this download and let it request
    /// `url`.
    Fetch { url: String },
    /// Create the file at `destination`, emptying it if it exists.
    Create { destination: P },
    /// Read the body of the response to its end.
    ReadBody,
    /// Write `body` to the file just created.
    Write { body: Vec<u8> },
    /// Nothing: the download is over, or the event was not the one it was
    /// waiting for.
    Stop,
}

/// The table of transitions: the state and the action that follow `state`
/// on `event`. An event that `state` is not waiting for changes nothing and
/// asks for nothing.
pub open spec fn transition<P>(state: Download<P>, event: Event<P>) -> (Download<P>, Action<P>) {
    match (state, event) {
        (Download::Choosing { url }, Event::Chosen { destination: Some(destination) }) => (
            Download::Fetching { destination },
            Action::Fetch { url },
        ),
        (Download::Choosing { .. }, Event::Chosen { destination: None }) => (
            Download::Finished { outcome: Outcome::Cancelled },
            Action::Stop,
        ),
        (Download::Fetching { destination }, Event::Responded { ok: true }) => (
            Download::Creating,
            Action::Create { destination },
        ),
        (Download::Fetching { .. }, Event::Responded { ok: false }) => (
            Download::Finished { outcome: Outcome::Failed(Failure::Fetch) },
            Action::Stop,
        ),
        (Download::Creating, Event::Created { ok: true }) => (Download::Reading, Action::ReadBody),
        (Download::Creating, Event::Created { ok: false }) => (
            Download::Finished { outcome: Outcome::Failed(Failure::Create) },
            Action::Stop,
        ),
        (Download::Reading, Event::BodyRead { body: Some(body) }) => (
            Download::Writing,
            Action::Write { body },
        ),
        (Download::Reading, Event::BodyRead { body: None }) => (
            Download::Finished { outcome: Outcome::Failed(Failure::Read) },
            Action::Stop,
        ),
        (Download::Writing, Event::Written { ok: true }) => (
            Download::Finished { outcome: Outcome::Saved },
            Action::Stop,
        ),
        (Download::Writing, Event::Written { ok: false }) => (
            Download::Finished { outcome: Outcome::Failed(Failure::Write) },
            Action::Stop,
        ),
        (state, _) => (state, Action::Stop),
    }
}

impl<P> Download<P> {
    /// Begins a download of `url`: the first thing to do is to ask the user
    /// where to save, with `file` as the suggested name.
    pub fn start(url: String, file: String) -> (begun: (Download<P>, Action<P>))
        ensures
            begun.0 == (Download::<P>::Choosing { url }),
            begun.1 == (Action::<P>::Prompt { file }),
    {
        (Download::Choosing { url }, Action::Prompt { file })
    }

    /// Whether the download is over.
    pub fn is_finished(&self) -> (over: bool)
        ensures
            over == (*self is Finished),
    {
        match self {
            Download::Finished { .. } => true,
            _ => false,
        }
    }

    /// How the download ended; `None` while it is under way.
    pub fn outcome(&self) -> (outcome: Option<Outcome>)
        ensures
            outcome == match *self {
                Download::Finished { outcome } => Some(outcome),
                _ => None,
            },
    {
        match self {
            Download::Finished { outcome } => Some(*outcome),
            _ => None,
        }
    }

    /// Takes the download one step on, on what the caller reports.
    pub fn step(self, event: Event<P>) -> (next: (Download<P>, Action<P>))
        ensures
            next == transition(self, event),
    {
        match self {
            Download::Choosing { url } => match event {
                Event::Chosen { destination: Some(destination) } => (
                    Download::Fetching { destination },
                    Action::Fetch { url },
                ),
                Event::Chosen { destination: None } => (
                    Download::Finished { outcome: Outcome::Cancelled },
                    Action::Stop,
                ),
                _ => (Download::Choosing { url }, Action::Stop),
            },
            Download::Fetching { destination } => match event {
                Event::Responded { ok } => if ok {
                    (Download::Creating, Action::Create { destination })
                } else {
                    (Download::Finished { outcome: Outcome::Failed(Failure::Fetch) }, Action::Stop)
                },
                _ => (Download::Fetching { destination }, Action::Stop),
            },
            Download::Creating => match event {
                Event::Created { ok } => if ok {
                    (Download::Reading, Action::ReadBody)
                } else {
                    (Download::Finished { outcome: Outcome::Failed(Failure::Create) }, Action::Stop)
                },
                _ => (Download::Creating, Action::Stop),
            },
            Download::Reading => match event {
                Event::BodyRead { body: Some(body) } => (Download::Writing, Action::Write { body }),
                Event::BodyRead { body: None } => (
                    Download::Finished { outcome: Outcome::Failed(Failure::Read) },
                    Action::Stop,
                ),
                _ => (Download::Reading, Action::Stop),
            },
            Download::Writing => match event {
                Event::Written { ok } => if ok {
                    (Download::Finished { outcome: Outcome::Saved }, Action::Stop)
                } else {
                    (Download::Finished { outcome: Outcome::Failed(Failure::Write) }, Action::Stop)
                },
                _ => (Download::Writing, Action::Stop),
            },
            Download::Finished { outcome } => (Download::Finished { outcome }, Action::Stop),
        }
    }
}

/// A download that is over stays as it is and asks for nothing more,
/// whatever is reported to it.
pub proof fn lemma_finished_is_final<P>(outcome: Outcome, event: Event<P>)
    ensures
        transition(Download::<P>::Finished { outcome }, event) == (
            Download::<P>::Finished { outcome },
            Action::<P>::Stop,
        ),
{
}

/// Where the user closes the save dialog without choosing, the download is
/// over at once: no worker is started and no file is created, then or later.
pub proof fn lemma_cancelled_download_does_nothing<P>(url: String, later: Event<P>)
    ensures
        transition(Download::<P>::Choosing { url }, Event::<P>::Chosen { destination: None }) == (
            Download::<P>::Finished { outcome: Outcome::Cancelled },
            Action::<P>::Stop,
        ),
        transition(Download::<P>::Finished { outcome: Outcome::Cancelled }, later).1
            == Action::<P>::Stop,
{
}

/// A worker is started only when the user has chosen where to save, and it
/// requests the address that the download began with.
pub proof fn lemma_fetch_follows_choice<P>(state: Download<P>, event: Event<P>)
    requires
        transition(state, event).1 is Fetch,
    ensures
        state is Choosing,
        event matches Event::Chosen { destination: Some(destination) } && transition(state, event).0
            == (Download::Fetching { destination }),
        transition(state, event).1 == (Action::<P>::Fetch { url: state->url }),
{
}

/// The only file ever created is the one at the place that the user chose,
/// and only once the request has been answered.
pub proof fn lemma_file_is_created_where_chosen<P>(state: Download<P>, event: Event<P>)
    requires
        transition(state, event).1 is Create,
    ensures
        state is Fetching,
        event == (Event::<P>::Responded { ok: true }),
        transition(state, event).1 == (Action::Create { destination: state->destination }),
{
}

/// What is written to the file is the body that was read, byte for byte,
/// and nothing is written before the body has been read to its end.
pub proof fn lemma_body_is_written_as_read<P>(state: Download<P>, event: Event<P>)
    requires
        transition(state, event).1 is Write,
    ensures
        state is Reading,
        event == (Event::<P>::BodyRead { body: Some(transition(state, event).1->body) }),
{
}

/// A failure at any step ends the download with nothing more to do.
pub proof fn lemma_failure_ends_download<P>(destination: P)
    ensures
        transition(Download::Fetching { destination }, Event::<P>::Responded { ok: false }) == (
            Download::<P>::Finished { outcome: Outcome::Failed(Failure::Fetch) },
            Action::<P>::Stop,
        ),
        transition(Download::<P>::Creating, Event::<P>::Created { ok: false }) == (
            Download::<P>::Finished { outcome: Outcome::Failed(Failure::Create) },
            Action::<P>::Stop,
        ),
        transition(Download::<P>::Reading, Event::<P>::BodyRead { body: None }) == (
            Download::<P>::Finished { outcome: Outcome::Failed(Failure::Read) },
            Action::<P>::Stop,
        ),
        transition(Download::<P>::Writing, Event::<P>::Written { ok: false }) == (
            Download::<P>::Finished { outcome: Outcome::Failed(Failure::Write) },
            Action::<P>::Stop,
        ),
{
}

/// A download in which every step succeeds: the worker requests `url`,
/// creates the file at `destination`, reads the body, writes exactly `body`,
/// and ends as saved.
pub proof fn lemma_successful_download<P>(url: String, destination: P, body: Vec<u8>)
    ensures
        ({
            let chosen = transition(
                Download::<P>::Choosing { url },
                Event::Chosen { destination: Some(destination) },
            );
            let answered = transition(chosen.0, Event::Responded { ok: true });
            let created = transition(answered.0, Event::Created { ok: true });
            let read = transition(created.0, Event::BodyRead { body: Some(body) });
            let written = transition(read.0, Event::Written { ok: true });
            &&& chosen.1 == (Action::<P>::Fetch { url })
            &&& answered.1 == (Action::Create { destination })
            &&& created.1 == Action::<P>::ReadBody
            &&& read.1 == (Action::<P>::Write { body })
            &&& written == (Download::<P>::Finished { outcome: Outcome::Saved }, Action::<P>::Stop)
        }),
{
}

} // verus!
