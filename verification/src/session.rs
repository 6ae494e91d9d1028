//! One run of the command line tool, as a sequence of decisions. The session
//! performs nothing itself: each step names the next thing to do (read the
//! store file, ask the clipboard, print, notify) and the caller, having done
//! it, hands back what came of it.

use crate::bridge::{
    fetch, get_clipboard, paste, set_clipboard, Fetch, FetchModel, Paste, PasteModel, Platform,
    Reading, ReadingModel,
};
use crate::clipboard::{image_model, lookup, open_model, opened, read_model, saved, Clipboard};
use crate::content::{ClipContent, ContentModel, ImageModel};
use crate::decimal::{decimal, to_decimal};
use crate::error::{
    ClipboardError, ClipboardErrorModel, ClipmanError, ClipmanErrorModel, IoFailure, IoFailureModel,
};
use vstd::prelude::*;

verus! {

/// What the user asked for.
#[derive(Clone, Copy, Debug, PartialEq, Eq, Structural)]
pub enum Command {
    /// Print the content of a slot.
    Get(u32),
    /// Put the content of a slot on the clipboard.
    Load(u32),
    /// Keep the current content of the clipboard in a slot.
    Save(u32),
}

/// What the caller has to do next.
#[derive(Debug, PartialEq)]
pub enum Action {
    /// Read the whole store file.
    ReadStore,
    /// Ask the clipboard for text.
    ReadText,
    /// Ask the clipboard for an image.
    ReadImage,
    /// Replace the content of the store file by these bytes.
    WriteStore(Vec<u8>),
    /// Write to the clipboard.
    Paste(Paste),
    /// Print this line on the standard output.
    Print(String),
    /// Show a desktop notification with this body.
    Notify(String),
    /// Stop: the command is done, or has failed.
    Exit(Result<(), ClipmanError>),
}

/// The mathematical value of an [`Action`].
pub enum ActionModel {
    ReadStore,
    ReadText,
    ReadImage,
    WriteStore(Seq<u8>),
    Paste(PasteModel),
    Print(Seq<char>),
    Notify(Seq<char>),
    Exit(Result<(), ClipmanErrorModel>),
}

impl View for Action {
    type V = ActionModel;

    open spec fn view(&self) -> ActionModel {
        match self {
            Action::ReadStore => ActionModel::ReadStore,
            Action::ReadText => ActionModel::ReadText,
            Action::ReadImage => ActionModel::ReadImage,
            Action::WriteStore(bytes) => ActionModel::WriteStore(bytes@),
            Action::Paste(write) => ActionModel::Paste(write@),
            Action::Print(line) => ActionModel::Print(line@),
            Action::Notify(body) => ActionModel::Notify(body@),
            Action::Exit(Ok(())) => ActionModel::Exit(Ok(())),
            Action::Exit(Err(error)) => ActionModel::Exit(Err(error@)),
        }
    }
}

/// What came of the action that the session asked for.
#[derive(Debug)]
pub enum Event {
    /// The store file was read, or could not be.
    StoreRead(Result<Vec<u8>, IoFailure>),
    /// The clipboard answered a read.
    Clipboard(Reading),
    /// The store file was written, or could not be.
    StoreWritten(Result<(), IoFailure>),
    /// The clipboard took the content, or refused it.
    Pasted(Result<(), ClipboardError>),
    /// The line was printed.
    Printed,
    /// The notification was shown, or could not be, with the cause.
    Notified(Result<(), String>),
}

/// The mathematical value of an [`Event`].
pub enum EventModel {
    StoreRead(Result<Seq<u8>, IoFailureModel>),
    Clipboard(ReadingModel),
    StoreWritten(Result<(), IoFailureModel>),
    Pasted(Result<(), ClipboardErrorModel>),
    Printed,
    Notified(Result<(), Seq<char>>),
}

impl View for Event {
    type V = EventModel;

    open spec fn view(&self) -> EventModel {
        match self {
            Event::StoreRead(read) => EventModel::StoreRead(read_model(*read)),
            Event::Clipboard(reading) => EventModel::Clipboard(reading@),
            Event::StoreWritten(Ok(())) => EventModel::StoreWritten(Ok(())),
            Event::StoreWritten(Err(failure)) => EventModel::StoreWritten(Err(failure@)),
            Event::Pasted(Ok(())) => EventModel::Pasted(Ok(())),
            Event::Pasted(Err(failure)) => EventModel::Pasted(Err(failure@)),
            Event::Printed => EventModel::Printed,
            Event::Notified(Ok(())) => EventModel::Notified(Ok(())),
            Event::Notified(Err(cause)) => EventModel::Notified(Err(cause@)),
        }
    }
}

/// How far a session has come.
#[derive(Debug)]
enum Stage {
    /// The store file is being read.
    Opening,
    /// Saving: the clipboard is asked for text.
    ReadingText(Clipboard),
    /// Saving: the clipboard had no text and is asked for an image.
    ReadingImage(Clipboard),
    /// Saving: the store file is being written.
    Writing,
    /// Saving: the user is being told that the slot was saved.
    Confirming,
    /// Getting: the content is being printed.
    Printing,
    /// Loading: the user is being told that the slot is restored.
    Announcing(ClipContent),
    /// Loading: the content is being written to the clipboard.
    Pasting,
    /// Loading: the user is being told that the clipboard refused.
    Reporting(ClipboardError),
    /// The session has asked the caller to stop.
    Done,
}

/// The mathematical value of the stage of a session.
pub enum StageModel {
    Opening,
    ReadingText(Map<u32, ContentModel>),
    ReadingImage(Map<u32, ContentModel>),
    Writing,
    Confirming,
    Printing,
    Announcing(ContentModel),
    Pasting,
    Reporting(ClipboardErrorModel),
    Done,
}

impl View for Stage {
    type V = StageModel;

    closed spec fn view(&self) -> StageModel {
        match self {
            Stage::Opening => StageModel::Opening,
            Stage::ReadingText(table) => StageModel::ReadingText(table@),
            Stage::ReadingImage(table) => StageModel::ReadingImage(table@),
            Stage::Writing => StageModel::Writing,
            Stage::Confirming => StageModel::Confirming,
            Stage::Printing => StageModel::Printing,
            Stage::Announcing(content) => StageModel::Announcing(content@),
            Stage::Pasting => StageModel::Pasting,
            Stage::Reporting(failure) => StageModel::Reporting(failure@),
            Stage::Done => StageModel::Done,
        }
    }
}

impl StageModel {
    /// An upper bound on the number of steps that a session at this stage
    /// still takes before it asks the caller to stop.
    pub open spec fn steps_left(self) -> nat {
        match self {
            StageModel::Opening => 5,
            StageModel::ReadingText(_) => 4,
            StageModel::ReadingImage(_) => 3,
            StageModel::Announcing(_) => 3,
            StageModel::Writing => 2,
            StageModel::Pasting => 2,
            StageModel::Confirming => 1,
            StageModel::Printing => 1,
            StageModel::Reporting(_) => 1,
            StageModel::Done => 0,
        }
    }

    /// Whether a session for `command` can be at this stage.
    pub open spec fn serves(self, command: Command) -> bool {
        match self {
            StageModel::Opening | StageModel::Done => true,
            StageModel::ReadingText(_)
            | StageModel::ReadingImage(_)
            | StageModel::Writing
            | StageModel::Confirming => command is Save,
            StageModel::Printing => command is Get,
            StageModel::Announcing(_) | StageModel::Pasting | StageModel::Reporting(_) => command
                is Load,
        }
    }

    /// Whether `action` is what a session asks for when it comes to this
    /// stage.
    pub open spec fn asked(self, action: ActionModel) -> bool {
        match (self, action) {
            (StageModel::Opening, ActionModel::ReadStore) => true,
            (StageModel::ReadingText(_), ActionModel::ReadText) => true,
            (StageModel::ReadingImage(_), ActionModel::ReadImage) => true,
            (StageModel::Writing, ActionModel::WriteStore(_)) => true,
            (StageModel::Confirming, ActionModel::Notify(_)) => true,
            (StageModel::Printing, ActionModel::Print(_)) => true,
            (StageModel::Announcing(_), ActionModel::Notify(_)) => true,
            (StageModel::Pasting, ActionModel::Paste(_)) => true,
            (StageModel::Reporting(_), ActionModel::Notify(_)) => true,
            (StageModel::Done, ActionModel::Exit(_)) => true,
            _ => false,
        }
    }

    /// Whether `event` answers what a session at this stage has asked for.
    pub open spec fn awaits(self, event: EventModel) -> bool {
        match (self, event) {
            (StageModel::Opening, EventModel::StoreRead(_)) => true,
            (StageModel::ReadingText(_), EventModel::Clipboard(ReadingModel::Text(_))) => true,
            (StageModel::ReadingImage(_), EventModel::Clipboard(ReadingModel::Image(_))) => true,
            (StageModel::Writing, EventModel::StoreWritten(_)) => true,
            (StageModel::Confirming, EventModel::Notified(_)) => true,
            (StageModel::Printing, EventModel::Printed) => true,
            (StageModel::Announcing(_), EventModel::Notified(_)) => true,
            (StageModel::Pasting, EventModel::Pasted(_)) => true,
            (StageModel::Reporting(_), EventModel::Notified(_)) => true,
            _ => false,
        }
    }
}

/// One run of the tool for one command.
#[derive(Debug)]
pub struct Session {
    command: Command,
    platform: Platform,
    stage: Stage,
}

/// The mathematical value of a [`Session`].
pub struct SessionModel {
    pub command: Command,
    pub platform: Platform,
    pub stage: StageModel,
}

impl View for Session {
    type V = SessionModel;

    closed spec fn view(&self) -> SessionModel {
        SessionModel { command: self.command, platform: self.platform, stage: self.stage@ }
    }
}

/// The body of the notification after a save.
pub open spec fn saved_notice(index: u32) -> Seq<char> {
    "Clipboard saved in slot "@ + decimal(index as nat)
}

/// The body of the notification before a load.
pub open spec fn restoring_notice(index: u32) -> Seq<char> {
    "Restoring slot "@ + decimal(index as nat)
}

/// The body of the notification after the clipboard refused a load.
pub open spec fn failure_notice() -> Seq<char> {
    "An error ocurred"@
}

/// The session stops with `outcome`.
pub open spec fn ends(
    after: SessionModel,
    action: ActionModel,
    outcome: Result<(), ClipmanErrorModel>,
) -> bool {
    after.stage == StageModel::Done && action == ActionModel::Exit(outcome)
}

/// The session saves `table`: it asks for the store file to be written with
/// the bytes that saving gave, or stops with the error that saving gave.
pub open spec fn persists(
    after: SessionModel,
    action: ActionModel,
    table: Map<u32, ContentModel>,
) -> bool {
    exists|image: Result<Seq<u8>, ClipmanErrorModel>| #[trigger]
        saved(table, image) && match image {
            Ok(bytes) => after.stage == StageModel::Writing && action == ActionModel::WriteStore(
                bytes,
            ),
            Err(error) => ends(after, action, Err(error)),
        }
}

/// What a saving session does with the answer of the clipboard: it reads an
/// image where there was no text, stops on a failure, and else puts the
/// content in the slot and asks for the table to be written.
pub open spec fn captures(
    after: SessionModel,
    action: ActionModel,
    table: Map<u32, ContentModel>,
    index: u32,
    reading: ReadingModel,
) -> bool {
    match fetch(reading) {
        FetchModel::ReadImage => after.stage == StageModel::ReadingImage(table) && action
            == ActionModel::ReadImage,
        FetchModel::Done(Ok(content)) => persists(after, action, table.insert(index, content)),
        FetchModel::Done(Err(failure)) => ends(
            after,
            action,
            Err(ClipmanErrorModel::Clipboard(failure)),
        ),
    }
}

/// What a session does first with the table that the store file held.
pub open spec fn begins(
    after: SessionModel,
    action: ActionModel,
    command: Command,
    table: Map<u32, ContentModel>,
) -> bool {
    match command {
        Command::Get(index) => match lookup(table, index) {
            Some(content) => after.stage == StageModel::Printing && action == ActionModel::Print(
                content.line(),
            ),
            None => ends(after, action, Err(ClipmanErrorModel::IndexNotFound)),
        },
        Command::Load(index) => match lookup(table, index) {
            Some(content) => after.stage == StageModel::Announcing(content) && action
                == ActionModel::Notify(restoring_notice(index)),
            None => ends(after, action, Err(ClipmanErrorModel::IndexNotFound)),
        },
        Command::Save(_) => after.stage == StageModel::ReadingText(table) && action
            == ActionModel::ReadText,
    }
}

/// The steps of a session: `after` and `action` are what follows when a
/// session in state `before` is handed `event`. An event that does not answer
/// what the session asked for stops it.
pub open spec fn follows(
    before: SessionModel,
    event: EventModel,
    after: SessionModel,
    action: ActionModel,
) -> bool {
    &&& after.command == before.command
    &&& after.platform == before.platform
    &&& match (before.stage, event, before.command) {
        (StageModel::Opening, EventModel::StoreRead(read), command) => match open_model(read) {
            Ok(table) => begins(after, action, command, table),
            Err(error) => ends(after, action, Err(error)),
        },
        (
            StageModel::ReadingText(table),
            EventModel::Clipboard(ReadingModel::Text(answer)),
            Command::Save(index),
        ) => captures(after, action, table, index, ReadingModel::Text(answer)),
        (
            StageModel::ReadingImage(table),
            EventModel::Clipboard(ReadingModel::Image(answer)),
            Command::Save(index),
        ) => captures(after, action, table, index, ReadingModel::Image(answer)),
        (StageModel::Writing, EventModel::StoreWritten(Ok(())), Command::Save(index)) => {
            after.stage == StageModel::Confirming && action == ActionModel::Notify(
                saved_notice(index),
            )
        },
        (StageModel::Writing, EventModel::StoreWritten(Err(failure)), Command::Save(_)) => ends(
            after,
            action,
            Err(ClipmanErrorModel::Io(failure)),
        ),
        (StageModel::Confirming, EventModel::Notified(Ok(())), Command::Save(_)) => ends(
            after,
            action,
            Ok(()),
        ),
        (StageModel::Confirming, EventModel::Notified(Err(cause)), Command::Save(_)) => ends(
            after,
            action,
            Err(ClipmanErrorModel::Notification(cause)),
        ),
        (StageModel::Printing, EventModel::Printed, Command::Get(_)) => ends(
            after,
            action,
            Ok(()),
        ),
        (StageModel::Announcing(content), EventModel::Notified(Ok(())), Command::Load(_)) => {
            after.stage == StageModel::Pasting && action == ActionModel::Paste(
                paste(content, before.platform),
            )
        },
        (StageModel::Announcing(_), EventModel::Notified(Err(cause)), Command::Load(_)) => ends(
            after,
            action,
            Err(ClipmanErrorModel::Notification(cause)),
        ),
        (StageModel::Pasting, EventModel::Pasted(Ok(())), Command::Load(_)) => ends(
            after,
            action,
            Ok(()),
        ),
        (StageModel::Pasting, EventModel::Pasted(Err(failure)), Command::Load(_)) => {
            after.stage == StageModel::Reporting(failure) && action == ActionModel::Notify(
                failure_notice(),
            )
        },
        (StageModel::Reporting(failure), EventModel::Notified(Ok(())), Command::Load(_)) => ends(
            after,
            action,
            Err(ClipmanErrorModel::Clipboard(failure)),
        ),
        (StageModel::Reporting(_), EventModel::Notified(Err(cause)), Command::Load(_)) => ends(
            after,
            action,
            Err(ClipmanErrorModel::Notification(cause)),
        ),
        _ => ends(after, action, Err(ClipmanErrorModel::OutOfTurn)),
    }
}

/// The body of the notification after a save.
fn saved_text(index: u32) -> (body: String)
    ensures
        body@ == saved_notice(index),
{
    let mut body = String::from_str("Clipboard saved in slot ");
    body.append(to_decimal(index as u64).as_str());
    body
}

/// The body of the notification before a load.
fn restoring_text(index: u32) -> (body: String)
    ensures
        body@ == restoring_notice(index),
{
    let mut body = String::from_str("Restoring slot ");
    body.append(to_decimal(index as u64).as_str());
    body
}

impl Session {
    /// A session for `command` on `platform`, and its first action: to read
    /// the store file.
    pub fn new(command: Command, platform: Platform) -> (start: (Session, Action))
        ensures
            start.0@ == (SessionModel { command, platform, stage: StageModel::Opening }),
            start.1@ == ActionModel::ReadStore,
            start.0@.stage.serves(command),
    {
        (Session { command, platform, stage: Stage::Opening }, Action::ReadStore)
    }

    /// Whether the session has asked the caller to stop.
    pub fn finished(&self) -> (done: bool)
        ensures
            done == (self@.stage == StageModel::Done),
    {
        match self.stage {
            Stage::Done => true,
            _ => false,
        }
    }

    fn at(command: Command, platform: Platform, stage: Stage, action: Action) -> (next: (
        Session,
        Action,
    ))
        ensures
            next.0@ == (SessionModel { command, platform, stage: stage@ }),
            next.1 == action,
    {
        (Session { command, platform, stage }, action)
    }

    fn end(command: Command, platform: Platform, outcome: Result<(), ClipmanError>) -> (next: (
        Session,
        Action,
    ))
        ensures
            next.0@ == (SessionModel { command, platform, stage: StageModel::Done }),
            next.1 == Action::Exit(outcome),
    {
        (Session { command, platform, stage: Stage::Done }, Action::Exit(outcome))
    }

    /// Saving: what follows the clipboard's answer `reading`.
    fn capture(
        command: Command,
        platform: Platform,
        table: Clipboard,
        index: u32,
        reading: Reading,
    ) -> (next: (Session, Action))
        ensures
            next.0@.command == command,
            next.0@.platform == platform,
            captures(next.0@, next.1@, table@, index, reading@),
    {
        match get_clipboard(reading) {
            Fetch::ReadImage => Session::at(
                command,
                platform,
                Stage::ReadingImage(table),
                Action::ReadImage,
            ),
            Fetch::Done(Ok(content)) => {
                let mut table = table;
                table.insert(index, content);
                let image = table.save();
                let ghost outcome = image_model(image);
                let next = match image {
                    Ok(bytes) => Session::at(
                        command,
                        platform,
                        Stage::Writing,
                        Action::WriteStore(bytes),
                    ),
                    Err(error) => Session::end(command, platform, Err(error)),
                };
                assert(persists(next.0@, next.1@, table@)) by {
                    assert(saved(table@, outcome));
                }
                next
            },
            Fetch::Done(Err(failure)) => Session::end(
                command,
                platform,
                Err(ClipmanError::Clipboard(failure)),
            ),
        }
    }

    /// What the session does first with the table that the store file held.
    fn begin(command: Command, platform: Platform, table: Clipboard) -> (next: (Session, Action))
        ensures
            next.0@.command == command,
            next.0@.platform == platform,
            begins(next.0@, next.1@, command, table@),
    {
        match command {
            Command::Get(index) => match table.get(index) {
                Some(content) => Session::at(
                    command,
                    platform,
                    Stage::Printing,
                    Action::Print(content.line()),
                ),
                None => Session::end(command, platform, Err(ClipmanError::IndexNotFound)),
            },
            Command::Load(index) => match table.get(index) {
                Some(content) => Session::at(
                    command,
                    platform,
                    Stage::Announcing(content.clone()),
                    Action::Notify(restoring_text(index)),
                ),
                None => Session::end(command, platform, Err(ClipmanError::IndexNotFound)),
            },
            Command::Save(_) => Session::at(
                command,
                platform,
                Stage::ReadingText(table),
                Action::ReadText,
            ),
        }
    }

    /// Takes what came of the last action and says what to do next.
    pub fn step(self, event: Event) -> (next: (Session, Action))
        ensures
            follows(self@, event@, next.0@, next.1@),
            self@.stage != StageModel::Done ==> next.0@.stage.steps_left()
                < self@.stage.steps_left(),
            self@.stage.serves(self@.command) ==> next.0@.stage.serves(next.0@.command),
    {
        let Session { command, platform, stage } = self;
        match (stage, event, command) {
            (Stage::Opening, Event::StoreRead(read), _) => match Clipboard::open(read) {
                Ok(table) => Session::begin(command, platform, table),
                Err(error) => Session::end(command, platform, Err(error)),
            },
            (
                Stage::ReadingText(table),
                Event::Clipboard(Reading::Text(answer)),
                Command::Save(index),
            ) => Session::capture(command, platform, table, index, Reading::Text(answer)),
            (
                Stage::ReadingImage(table),
                Event::Clipboard(Reading::Image(answer)),
                Command::Save(index),
            ) => Session::capture(command, platform, table, index, Reading::Image(answer)),
            (Stage::Writing, Event::StoreWritten(Ok(())), Command::Save(index)) => Session::at(
                command,
                platform,
                Stage::Confirming,
                Action::Notify(saved_text(index)),
            ),
            (Stage::Writing, Event::StoreWritten(Err(failure)), Command::Save(_)) => Session::end(
                command,
                platform,
                Err(ClipmanError::Io(failure)),
            ),
            (Stage::Confirming, Event::Notified(Ok(())), Command::Save(_)) => Session::end(
                command,
                platform,
                Ok(()),
            ),
            (Stage::Confirming, Event::Notified(Err(cause)), Command::Save(_)) => Session::end(
                command,
                platform,
                Err(ClipmanError::Notification(cause)),
            ),
            (Stage::Printing, Event::Printed, Command::Get(_)) => Session::end(
                command,
                platform,
                Ok(()),
            ),
            (Stage::Announcing(content), Event::Notified(Ok(())), Command::Load(_)) => Session::at(
                command,
                platform,
                Stage::Pasting,
                Action::Paste(set_clipboard(&content, platform)),
            ),
            (Stage::Announcing(_), Event::Notified(Err(cause)), Command::Load(_)) => Session::end(
                command,
                platform,
                Err(ClipmanError::Notification(cause)),
            ),
            (Stage::Pasting, Event::Pasted(Ok(())), Command::Load(_)) => Session::end(
                command,
                platform,
                Ok(()),
            ),
            (Stage::Pasting, Event::Pasted(Err(failure)), Command::Load(_)) => Session::at(
                command,
                platform,
                Stage::Reporting(failure),
                Action::Notify(String::from_str("An error ocurred")),
            ),
            (Stage::Reporting(failure), Event::Notified(Ok(())), Command::Load(_)) => Session::end(
                command,
                platform,
                Err(ClipmanError::Clipboard(failure)),
            ),
            (Stage::Reporting(_), Event::Notified(Err(cause)), Command::Load(_)) => Session::end(
                command,
                platform,
                Err(ClipmanError::Notification(cause)),
            ),
            _ => Session::end(command, platform, Err(ClipmanError::OutOfTurn)),
        }
    }
}

/// A run of a session: from `start` it is handed `events` one after another,
/// answers each with the action at the same place in `actions`, and is left
/// at `end`.
pub open spec fn runs(
    start: SessionModel,
    events: Seq<EventModel>,
    actions: Seq<ActionModel>,
    end: SessionModel,
) -> bool
    decreases events.len(),
{
    &&& actions.len() == events.len()
    &&& if events.len() == 0 {
        end == start
    } else {
        exists|next: SessionModel| #[trigger]
            follows(start, events.first(), next, actions.first()) && runs(
                next,
                events.drop_first(),
                actions.drop_first(),
                end,
            )
    }
}

/// How many of the actions are writes to the clipboard.
pub open spec fn pastes(actions: Seq<ActionModel>) -> nat
    decreases actions.len(),
{
    if actions.len() == 0 {
        0
    } else {
        pastes(actions.drop_first()) + if actions.first() is Paste {
            1nat
        } else {
            0nat
        }
    }
}

/// Every step keeps the command and the platform of a session, and brings
/// a session that has not stopped nearer to its end.
pub proof fn law_every_step_advances(
    before: SessionModel,
    event: EventModel,
    after: SessionModel,
    action: ActionModel,
)
    requires
        follows(before, event, after, action),
    ensures
        after.command == before.command,
        after.platform == before.platform,
        before.stage != StageModel::Done ==> after.stage.steps_left() < before.stage.steps_left(),
        after.stage == StageModel::Done <==> action is Exit,
{
}

/// A session keeps to its command: from a stage that serves the command,
/// a step leads to a stage that serves it too, and asks for what that stage
/// then awaits.
pub proof fn law_steps_keep_to_the_command(
    before: SessionModel,
    event: EventModel,
    after: SessionModel,
    action: ActionModel,
)
    requires
        follows(before, event, after, action),
        before.stage.serves(before.command),
    ensures
        after.stage.serves(after.command),
        after.stage.asked(action),
{
}

/// A caller that answers what it was asked is never told that an event came
/// out of turn.
pub proof fn law_answers_are_in_turn(
    before: SessionModel,
    event: EventModel,
    after: SessionModel,
    action: ActionModel,
)
    requires
        follows(before, event, after, action),
        before.stage.serves(before.command),
        before.stage.awaits(event),
    ensures
        action != ActionModel::Exit(Err(ClipmanErrorModel::OutOfTurn)),
{
}

/// A session that has stopped stays stopped, whatever it is handed.
pub proof fn law_stopped_stays_stopped(
    before: SessionModel,
    event: EventModel,
    after: SessionModel,
    action: ActionModel,
)
    requires
        follows(before, event, after, action),
        before.stage == StageModel::Done,
    ensures
        after.stage == StageModel::Done,
        action == ActionModel::Exit(Err(ClipmanErrorModel::OutOfTurn)),
{
}

/// Getting a slot is pure: a session for `Get` prints or stops. It never asks
/// for the store file to be written, for the clipboard, or for a notification.
pub proof fn law_get_only_prints(
    before: SessionModel,
    event: EventModel,
    after: SessionModel,
    action: ActionModel,
)
    requires
        follows(before, event, after, action),
        before.command is Get,
    ensures
        action is Print || action is Exit,
{
}

/// Getting a slot that was never filled fails with "index not found", and
/// getting a filled slot prints its line.
pub proof fn law_get_prints_the_slot(
    before: SessionModel,
    bytes: Seq<u8>,
    after: SessionModel,
    action: ActionModel,
    index: u32,
)
    requires
        before.stage == StageModel::Opening,
        before.command == Command::Get(index),
        follows(before, EventModel::StoreRead(Ok(bytes)), after, action),
        opened(bytes) is Some,
    ensures
        match lookup(opened(bytes)->0, index) {
            Some(content) => action == ActionModel::Print(content.line()),
            None => action == ActionModel::Exit(Err(ClipmanErrorModel::IndexNotFound))
                && ClipmanErrorModel::IndexNotFound.message() == "index not found"@,
        },
{
}

/// Only a saving session asks for the store file to be written, and what it
/// writes is the image of the table it had read with the content of the
/// clipboard put in the slot of the command.
pub proof fn law_save_writes_the_captured_content(
    before: SessionModel,
    event: EventModel,
    after: SessionModel,
    bytes: Seq<u8>,
)
    requires
        follows(before, event, after, ActionModel::WriteStore(bytes)),
    ensures
        before.command is Save,
        event is Clipboard,
        fetch(event->Clipboard_0) matches FetchModel::Done(Ok(content)) && exists|
            table: Map<u32, ContentModel>,
        |
            #![trigger table.insert(before.command->Save_0, content)]
            (before.stage == StageModel::ReadingText(table) || before.stage
                == StageModel::ReadingImage(table)) && opened(bytes) == Some(
                table.insert(before.command->Save_0, content),
            ),
{
    let index = before.command->Save_0;
    let reading = event->Clipboard_0;
    let content = fetch(reading)->Done_0->Ok_0;
    match before.stage {
        StageModel::ReadingText(table) => {
            assert(persists(after, ActionModel::WriteStore(bytes), table.insert(index, content)));
            assert(opened(bytes) == Some(table.insert(index, content)));
        },
        StageModel::ReadingImage(table) => {
            assert(persists(after, ActionModel::WriteStore(bytes), table.insert(index, content)));
            assert(opened(bytes) == Some(table.insert(index, content)));
        },
        _ => {},
    }
}

/// The fallback from text to image: when the clipboard answers the read of
/// text with "content not available", a saving session reads an image next,
/// and the image that then comes is what it saves, not an error.
pub proof fn law_image_stands_in_for_missing_text(
    before: SessionModel,
    asked: SessionModel,
    first: ActionModel,
    after: SessionModel,
    second: ActionModel,
    table: Map<u32, ContentModel>,
    index: u32,
    image: ImageModel,
)
    requires
        before.stage == StageModel::ReadingText(table),
        before.command == Command::Save(index),
        follows(
            before,
            EventModel::Clipboard(
                ReadingModel::Text(Err(ClipboardErrorModel::ContentNotAvailable)),
            ),
            asked,
            first,
        ),
        follows(asked, EventModel::Clipboard(ReadingModel::Image(Ok(image))), after, second),
    ensures
        first == ActionModel::ReadImage,
        persists(after, second, table.insert(index, ContentModel::Image(image))),
{
}

/// Loading a slot that was never filled fails with "index not found" before
/// anything is shown or written. Loading a filled slot announces it, and once
/// the announcement is shown writes the content of that very slot to the
/// clipboard, waiting for it to be taken where the platform asks for that.
pub proof fn law_load_pastes_the_slot(
    before: SessionModel,
    bytes: Seq<u8>,
    announced: SessionModel,
    first: ActionModel,
    after: SessionModel,
    second: ActionModel,
    index: u32,
)
    requires
        before.stage == StageModel::Opening,
        before.command == Command::Load(index),
        opened(bytes) is Some,
        follows(before, EventModel::StoreRead(Ok(bytes)), announced, first),
        follows(announced, EventModel::Notified(Ok(())), after, second),
    ensures
        match lookup(opened(bytes)->0, index) {
            Some(content) => {
                &&& first == ActionModel::Notify(restoring_notice(index))
                &&& second == ActionModel::Paste(
                    PasteModel { content, wait: before.platform == Platform::Linux },
                )
            },
            None => first == ActionModel::Exit(Err(ClipmanErrorModel::IndexNotFound)),
        },
{
}

/// Only a loading session writes to the clipboard, and only in answer to the
/// announcement having been shown: so it does that once at most.
pub proof fn law_paste_follows_the_announcement(
    before: SessionModel,
    event: EventModel,
    after: SessionModel,
    write: PasteModel,
)
    requires
        follows(before, event, after, ActionModel::Paste(write)),
    ensures
        before.command is Load,
        before.stage is Announcing,
        write == paste(before.stage->Announcing_0, before.platform),
        after.stage == StageModel::Pasting,
{
}

/// When the clipboard refuses a load, the user is told "An error ocurred",
/// and the session then fails with the clipboard's failure.
pub proof fn law_refused_load_is_reported(
    before: SessionModel,
    told: SessionModel,
    first: ActionModel,
    after: SessionModel,
    second: ActionModel,
    failure: ClipboardErrorModel,
)
    requires
        before.stage == StageModel::Pasting,
        before.command is Load,
        follows(before, EventModel::Pasted(Err(failure)), told, first),
        follows(told, EventModel::Notified(Ok(())), after, second),
    ensures
        first == ActionModel::Notify(failure_notice()),
        second == ActionModel::Exit(Err(ClipmanErrorModel::Clipboard(failure))),
{
}

/// A session stops: once it has been handed as many events as its stage
/// allows steps, five from the start, it has asked the caller to stop.
pub proof fn law_run_stops(
    start: SessionModel,
    events: Seq<EventModel>,
    actions: Seq<ActionModel>,
    end: SessionModel,
)
    requires
        runs(start, events, actions, end),
        events.len() >= start.stage.steps_left(),
    ensures
        end.stage == StageModel::Done,
    decreases events.len(),
{
    if events.len() > 0 {
        let next = choose|next: SessionModel| #[trigger]
            follows(start, events.first(), next, actions.first()) && runs(
                next,
                events.drop_first(),
                actions.drop_first(),
                end,
            );
        law_run_stops(next, events.drop_first(), actions.drop_first(), end);
    }
}

/// In a whole run a session writes to the clipboard once at most, and not at
/// all unless it is still to announce a load.
pub proof fn law_run_pastes_once(
    start: SessionModel,
    events: Seq<EventModel>,
    actions: Seq<ActionModel>,
    end: SessionModel,
)
    requires
        runs(start, events, actions, end),
    ensures
        pastes(actions) <= 1,
        pastes(actions) == 1 ==> start.command is Load && (start.stage is Opening
            || start.stage is Announcing),
    decreases events.len(),
{
    if events.len() > 0 {
        let next = choose|next: SessionModel| #[trigger]
            follows(start, events.first(), next, actions.first()) && runs(
                next,
                events.drop_first(),
                actions.drop_first(),
                end,
            );
        law_run_pastes_once(next, events.drop_first(), actions.drop_first(), end);
    }
}

/// In a whole run a session for `Get` does nothing but print and stop: the
/// store file is never written.
pub proof fn law_get_run_is_pure(
    start: SessionModel,
    events: Seq<EventModel>,
    actions: Seq<ActionModel>,
    end: SessionModel,
)
    requires
        runs(start, events, actions, end),
        start.command is Get,
    ensures
        forall|i: int| 0 <= i < actions.len() ==> (#[trigger] actions[i]) is Print || actions[i]
            is Exit,
    decreases events.len(),
{
    if events.len() > 0 {
        let next = choose|next: SessionModel| #[trigger]
            follows(start, events.first(), next, actions.first()) && runs(
                next,
                events.drop_first(),
                actions.drop_first(),
                end,
            );
        law_get_run_is_pure(next, events.drop_first(), actions.drop_first(), end);
        assert forall|i: int| 0 <= i < actions.len() implies (#[trigger] actions[i]) is Print
            || actions[i] is Exit by {
            if i > 0 {
                assert(actions[i] == actions.drop_first()[i - 1]);
            }
        }
    }
}

} // verus!
