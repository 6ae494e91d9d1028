use clipman::bridge::{Paste, Platform, Reading};
use clipman::clipboard::Clipboard;
use clipman::content::{ClipContent, ImageData};
use clipman::error::{ClipboardError, ClipmanError, IoFailure};
use clipman::session::{Action, Command, Event, Session};

/// A clipboard, a store file and a desktop that exist in memory only.
struct World {
    file: Option<Vec<u8>>,
    file_readable: bool,
    file_writable: bool,
    text: Option<String>,
    image: Option<ImageData>,
    clipboard_takes: bool,
    desktop_shows: bool,
    printed: Vec<String>,
    notified: Vec<String>,
    pasted: Vec<Paste>,
    text_reads: usize,
    image_reads: usize,
    file_writes: usize,
}

fn world() -> World {
    World {
        file: None,
        file_readable: true,
        file_writable: true,
        text: None,
        image: None,
        clipboard_takes: true,
        desktop_shows: true,
        printed: Vec::new(),
        notified: Vec::new(),
        pasted: Vec::new(),
        text_reads: 0,
        image_reads: 0,
        file_writes: 0,
    }
}

fn world_with(store: &Clipboard) -> World {
    let mut w = world();
    w.file = Some(store.save().unwrap());
    w
}

fn perform(w: &mut World, action: Action) -> Result<Event, Result<(), ClipmanError>> {
    Ok(match action {
        Action::ReadStore => Event::StoreRead(if !w.file_readable {
            Err(IoFailure::Other("permission denied".to_owned()))
        } else {
            match &w.file {
                Some(bytes) => Ok(bytes.clone()),
                None => Err(IoFailure::NotFound),
            }
        }),
        Action::ReadText => {
            w.text_reads += 1;
            Event::Clipboard(Reading::Text(match &w.text {
                Some(text) => Ok(text.clone()),
                None => Err(ClipboardError::ContentNotAvailable),
            }))
        }
        Action::ReadImage => {
            w.image_reads += 1;
            Event::Clipboard(Reading::Image(match &w.image {
                Some(image) => Ok(image.clone()),
                None => Err(ClipboardError::ContentNotAvailable),
            }))
        }
        Action::WriteStore(bytes) => {
            w.file_writes += 1;
            Event::StoreWritten(if w.file_writable {
                w.file = Some(bytes);
                Ok(())
            } else {
                Err(IoFailure::Other("disk full".to_owned()))
            })
        }
        Action::Paste(write) => {
            w.pasted.push(write);
            Event::Pasted(if w.clipboard_takes {
                Ok(())
            } else {
                Err(ClipboardError::ClipboardOccupied)
            })
        }
        Action::Print(line) => {
            w.printed.push(line);
            Event::Printed
        }
        Action::Notify(body) => {
            w.notified.push(body);
            Event::Notified(if w.desktop_shows { Ok(()) } else { Err("no bus".to_owned()) })
        }
        Action::Exit(outcome) => return Err(outcome),
    })
}

fn run_on(w: &mut World, command: Command, platform: Platform) -> Result<(), ClipmanError> {
    let (mut session, mut action) = Session::new(command, platform);
    assert!(!session.finished());
    for _ in 0..6 {
        match perform(w, action) {
            Ok(event) => {
                let next = session.step(event);
                session = next.0;
                action = next.1;
            }
            Err(outcome) => {
                assert!(session.finished());
                return outcome;
            }
        }
    }
    panic!("the session did not stop within six actions");
}

fn run(w: &mut World, command: Command) -> Result<(), ClipmanError> {
    run_on(w, command, Platform::Linux)
}

fn stored(w: &World) -> Clipboard {
    Clipboard::open(Ok(w.file.clone().unwrap())).unwrap()
}

#[test]
fn a_session_starts_by_reading_the_store() {
    let (session, action) = Session::new(Command::Get(3), Platform::Other);
    assert_eq!(action, Action::ReadStore);
    assert!(!session.finished());
}

#[test]
fn save_keeps_the_clipboard_text_in_the_slot() {
    let mut w = world();
    w.text = Some("hello".to_owned());
    assert_eq!(run(&mut w, Command::Save(1)), Ok(()));
    assert_eq!(stored(&w).get(1), Some(&ClipContent::Text("hello".to_owned())));
    assert!(stored(&w).get(0).is_none());
    assert_eq!(w.notified, vec!["Clipboard saved in slot 1".to_owned()]);
    assert_eq!(w.file_writes, 1);
    assert_eq!(w.image_reads, 0);
    assert!(w.printed.is_empty());

    assert_eq!(run(&mut w, Command::Get(1)), Ok(()));
    assert_eq!(w.printed, vec!["hello".to_owned()]);
    assert_eq!(w.file_writes, 1);
}

#[test]
fn get_prints_the_placeholder_of_an_image() {
    let mut store = Clipboard::new();
    store.insert(2, ImageData { width: 4, height: 2, data: (0u8..16).collect() });
    let mut w = world_with(&store);
    assert_eq!(run(&mut w, Command::Get(2)), Ok(()));
    assert_eq!(w.printed, vec!["[4 x 2 image]".to_owned()]);
    assert!(w.notified.is_empty());
    assert!(w.pasted.is_empty());
}

#[test]
fn load_writes_the_slot_to_the_clipboard_once() {
    let mut store = Clipboard::new();
    store.insert(5, "x".to_owned());
    let mut w = world_with(&store);
    let before = w.file.clone();
    assert_eq!(run(&mut w, Command::Load(5)), Ok(()));
    assert_eq!(w.pasted, vec![Paste { content: ClipContent::Text("x".to_owned()), wait: true }]);
    assert_eq!(w.notified, vec!["Restoring slot 5".to_owned()]);
    assert_eq!(w.file, before);
    assert_eq!(w.file_writes, 0);
    assert!(w.printed.is_empty());
}

#[test]
fn load_does_not_wait_off_linux() {
    let mut store = Clipboard::new();
    store.insert(5, ImageData { width: 1, height: 1, data: vec![1, 2, 3, 4] });
    let mut w = world_with(&store);
    assert_eq!(run_on(&mut w, Command::Load(5), Platform::Other), Ok(()));
    assert_eq!(
        w.pasted,
        vec![Paste {
            content: ClipContent::Image(ImageData { width: 1, height: 1, data: vec![1, 2, 3, 4] }),
            wait: false
        }]
    );
}

#[test]
fn get_on_an_empty_store_fails_and_creates_no_file() {
    let mut w = world();
    let outcome = run(&mut w, Command::Get(0));
    assert_eq!(outcome, Err(ClipmanError::IndexNotFound));
    assert_eq!(outcome.unwrap_err().message(), "index not found");
    assert!(w.file.is_none());
    assert_eq!(w.file_writes, 0);
    assert!(w.printed.is_empty());
    assert!(w.notified.is_empty());
}

#[test]
fn load_of_an_unfilled_slot_fails_before_anything_is_shown() {
    let mut store = Clipboard::new();
    store.insert(5, "x".to_owned());
    let mut w = world_with(&store);
    assert_eq!(run(&mut w, Command::Load(6)), Err(ClipmanError::IndexNotFound));
    assert!(w.notified.is_empty());
    assert!(w.pasted.is_empty());
}

#[test]
fn save_falls_back_to_the_image_when_there_is_no_text() {
    let mut w = world();
    w.image = Some(ImageData { width: 2, height: 1, data: vec![255, 0, 0, 255, 0, 255, 0, 255] });
    assert_eq!(run(&mut w, Command::Save(7)), Ok(()));
    assert_eq!(w.text_reads, 1);
    assert_eq!(w.image_reads, 1);
    assert_eq!(
        stored(&w).get(7),
        Some(&ClipContent::Image(ImageData {
            width: 2,
            height: 1,
            data: vec![255, 0, 0, 255, 0, 255, 0, 255]
        }))
    );
    assert_eq!(w.notified, vec!["Clipboard saved in slot 7".to_owned()]);
}

#[test]
fn save_with_an_empty_clipboard_fails_and_writes_nothing() {
    let mut w = world();
    assert_eq!(
        run(&mut w, Command::Save(1)),
        Err(ClipmanError::Clipboard(ClipboardError::ContentNotAvailable))
    );
    assert!(w.file.is_none());
    assert!(w.notified.is_empty());
}

#[test]
fn save_keeps_the_other_slots_and_replaces_its_own() {
    let mut store = Clipboard::new();
    store.insert(1, "old".to_owned());
    store.insert(2, "kept".to_owned());
    let mut w = world_with(&store);
    w.text = Some("new".to_owned());
    assert_eq!(run(&mut w, Command::Save(1)), Ok(()));
    let after = stored(&w);
    assert_eq!(after.get(1), Some(&ClipContent::Text("new".to_owned())));
    assert_eq!(after.get(2), Some(&ClipContent::Text("kept".to_owned())));
    assert!(after.get(3).is_none());
}

#[test]
fn a_refused_load_is_reported_and_fails() {
    let mut store = Clipboard::new();
    store.insert(5, "x".to_owned());
    let mut w = world_with(&store);
    w.clipboard_takes = false;
    assert_eq!(
        run(&mut w, Command::Load(5)),
        Err(ClipmanError::Clipboard(ClipboardError::ClipboardOccupied))
    );
    assert_eq!(w.notified, vec!["Restoring slot 5".to_owned(), "An error ocurred".to_owned()]);
    assert_eq!(w.pasted.len(), 1);
}

#[test]
fn a_corrupt_store_file_stops_every_command() {
    for command in [Command::Get(1), Command::Load(1), Command::Save(1)] {
        let mut w = world();
        w.file = Some(vec![0x93, 0x01, 0xa5]);
        w.text = Some("hello".to_owned());
        assert_eq!(run(&mut w, command), Err(ClipmanError::Deserialization));
        assert_eq!(w.file, Some(vec![0x93, 0x01, 0xa5]));
        assert_eq!(w.text_reads, 0);
        assert!(w.printed.is_empty());
        assert!(w.notified.is_empty());
    }
}

#[test]
fn an_unreadable_store_file_stops_every_command() {
    for command in [Command::Get(1), Command::Load(1), Command::Save(1)] {
        let mut w = world();
        w.file_readable = false;
        w.text = Some("hello".to_owned());
        assert_eq!(
            run(&mut w, command),
            Err(ClipmanError::Io(IoFailure::Other("permission denied".to_owned())))
        );
        assert_eq!(w.file_writes, 0);
    }
}

#[test]
fn a_failed_write_of_the_store_file_is_an_io_error() {
    let mut w = world();
    w.text = Some("hello".to_owned());
    w.file_writable = false;
    assert_eq!(
        run(&mut w, Command::Save(1)),
        Err(ClipmanError::Io(IoFailure::Other("disk full".to_owned())))
    );
    assert!(w.notified.is_empty());
}

#[test]
fn a_failed_notification_fails_the_command() {
    let mut w = world();
    w.text = Some("hello".to_owned());
    w.desktop_shows = false;
    assert_eq!(run(&mut w, Command::Save(1)), Err(ClipmanError::Notification("no bus".to_owned())));
    assert_eq!(stored(&w).get(1), Some(&ClipContent::Text("hello".to_owned())));

    let mut store = Clipboard::new();
    store.insert(5, "x".to_owned());
    let mut w = world_with(&store);
    w.desktop_shows = false;
    assert_eq!(run(&mut w, Command::Load(5)), Err(ClipmanError::Notification("no bus".to_owned())));
    assert!(w.pasted.is_empty());
}

#[test]
fn an_event_out_of_turn_stops_the_session() {
    let (session, _) = Session::new(Command::Get(1), Platform::Linux);
    let (session, action) = session.step(Event::Printed);
    assert_eq!(action, Action::Exit(Err(ClipmanError::OutOfTurn)));
    assert!(session.finished());
    let (session, action) = session.step(Event::StoreRead(Err(IoFailure::NotFound)));
    assert_eq!(action, Action::Exit(Err(ClipmanError::OutOfTurn)));
    assert!(session.finished());

    let (session, _) = Session::new(Command::Save(1), Platform::Linux);
    let (session, action) = session.step(Event::StoreRead(Err(IoFailure::NotFound)));
    assert_eq!(action, Action::ReadText);
    let (session, action) =
        session.step(Event::Clipboard(Reading::Image(Ok(ImageData {
            width: 0,
            height: 0,
            data: Vec::new(),
        }))));
    assert_eq!(action, Action::Exit(Err(ClipmanError::OutOfTurn)));
    assert!(session.finished());
}

#[test]
fn save_in_a_large_slot_names_the_slot_in_full() {
    let mut w = world();
    w.text = Some("hello".to_owned());
    assert_eq!(run(&mut w, Command::Save(u32::MAX)), Ok(()));
    assert_eq!(w.notified, vec!["Clipboard saved in slot 4294967295".to_owned()]);
    assert_eq!(run(&mut w, Command::Load(u32::MAX)), Ok(()));
    assert_eq!(w.notified[1], "Restoring slot 4294967295");
}
