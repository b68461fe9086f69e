//! A listing as a whole: what is written, and with which exit code the
//! program ends, for each thing that reading a directory can bring.

use crate::line::{line_text, render_line, DirectoryEntry};
use crate::stamp::{fixed_stamp, is_stamp, renderable, stamp_at};
use vstd::prelude::*;

verus! {

/// The exit code of a listing that met no failure.
pub const EXIT_SUCCESS: i32 = 0;

/// The exit code of a listing that a failure ended.
pub const EXIT_FAILURE: i32 = 1;

/// Why a listing ends early.
#[derive(Clone, Debug)]
pub enum ListError {
    /// An entry's name is no valid text. Holds the raw name, as it is shown
    /// for debugging.
    InvalidName(String),
    /// The file system refused an operation. Holds its message.
    Io(String),
    /// An entry's modification time lies outside what can be rendered.
    TimeOutOfRange,
}

impl ListError {
    /// The line that reports this failure.
    pub open spec fn text(self) -> Seq<char> {
        match self {
            ListError::InvalidName(raw) => "Invalid entry: "@ + raw@,
            ListError::Io(message) => message@,
            ListError::TimeOutOfRange => "modification time out of range"@,
        }
    }

    /// Renders the line that reports this failure.
    pub fn message(&self) -> (text: String)
        ensures
            text@ == self.text(),
    {
        match self {
            ListError::InvalidName(raw) => {
                let mut text = String::from_str("Invalid entry: ");
                text.append(raw.as_str());
                text
            },
            ListError::Io(message) => message.clone(),
            ListError::TimeOutOfRange => String::from_str("modification time out of range"),
        }
    }
}

/// What reading the target brings, one at a time.
#[derive(Clone, Debug)]
pub enum Event {
    /// The path exists and names no directory.
    NotDirectory,
    /// One entry of the directory, with what the file system tells of it.
    Entry(DirectoryEntry),
    /// The path could not be examined, the directory could not be opened,
    /// or an entry, its name or its metadata could not be read.
    Failure(ListError),
}

/// What to do about an event: a line to write, if any, and the exit code to
/// end with, if the listing ends here.
#[derive(Clone, Debug)]
pub struct Action {
    pub line: Option<String>,
    pub stop: Option<i32>,
}

/// An action, with its line as plain text.
pub struct Reply {
    pub line: Option<Seq<char>>,
    pub stop: Option<i32>,
}

impl View for Action {
    type V = Reply;

    open spec fn view(&self) -> Reply {
        Reply {
            line: match self.line {
                Some(line) => Some(line@),
                None => None,
            },
            stop: self.stop,
        }
    }
}

/// The text of an optional string.
pub open spec fn stamp_text(stamp: Option<&str>) -> Option<Seq<char>> {
    match stamp {
        Some(text) => Some(text@),
        None => None,
    }
}

/// The reply that an event calls for, where `stamp` is the rendered
/// modification time of the event's entry, or `None` if that time cannot be
/// rendered.
///
/// A path that is no directory ends the listing in silence and with
/// success. An entry is written as its line and the listing goes on. A
/// failure is reported in a line of its own and ends the listing; so does an
/// entry whose time cannot be rendered.
pub open spec fn response(event: Event, stamp: Option<Seq<char>>) -> Reply {
    match event {
        Event::NotDirectory => Reply { line: None, stop: Some(EXIT_SUCCESS) },
        Event::Entry(entry) => match stamp {
            Some(text) => Reply { line: Some(line_text(entry, text)), stop: None },
            None => Reply {
                line: Some(ListError::TimeOutOfRange.text()),
                stop: Some(EXIT_FAILURE),
            },
        },
        Event::Failure(error) => Reply { line: Some(error.text()), stop: Some(EXIT_FAILURE) },
    }
}

/// Decides what to do about `event`, given the rendered modification time of
/// its entry.
pub fn respond_with(event: &Event, stamp: Option<&str>) -> (action: Action)
    ensures
        action@ == response(*event, stamp_text(stamp)),
{
    match event {
        Event::NotDirectory => Action { line: None, stop: Some(EXIT_SUCCESS) },
        Event::Entry(entry) => match stamp {
            Some(text) => Action { line: Some(render_line(entry, text)), stop: None },
            None => Action {
                line: Some(ListError::TimeOutOfRange.message()),
                stop: Some(EXIT_FAILURE),
            },
        },
        Event::Failure(error) => Action { line: Some(error.message()), stop: Some(EXIT_FAILURE) },
    }
}

/// The rendered modification time of an event's entry: what chrono writes
/// for it, or `None` where the time cannot be rendered. An event that holds
/// no entry has none.
pub open spec fn event_stamp(event: Event) -> Option<Seq<char>> {
    match event {
        Event::Entry(entry) => stamp_at(
            entry.modified.secs,
            entry.modified.nanos,
            entry.modified.offset,
        ),
        _ => None,
    }
}

/// The reply that an event calls for.
pub open spec fn reply(event: Event) -> Reply {
    response(event, event_stamp(event))
}

/// Whether `event` is an entry whose modification time can be rendered.
pub open spec fn is_rendered(event: Event) -> bool {
    event matches Event::Entry(entry) && renderable(
        entry.modified.secs,
        entry.modified.nanos,
        entry.modified.offset,
    )
}

/// What rendering tells of an entry's time: it comes out exactly where the
/// time can be rendered, and then has the shape of a rendered time.
pub open spec fn stamp_is_known(event: Event) -> bool {
    event is Entry ==> {
        &&& event_stamp(event) is Some <==> is_rendered(event)
        &&& event_stamp(event) matches Some(text) ==> is_stamp(text)
    }
}

/// Decides what to do about `event`, rendering the modification time of its
/// entry in the zone that the entry's time names.
pub fn respond(event: &Event) -> (action: Action)
    ensures
        action@ == reply(*event),
        stamp_is_known(*event),
{
    match event {
        Event::Entry(entry) => {
            let stamp = fixed_stamp(
                entry.modified.secs,
                entry.modified.nanos,
                entry.modified.offset,
            );
            match &stamp {
                Some(text) => respond_with(event, Some(text.as_str())),
                None => respond_with(event, None),
            }
        },
        _ => respond_with(event, None),
    }
}

/// What a whole listing wrote, and how it ended.
#[derive(Clone, Debug)]
pub struct Report {
    /// The lines written, in order.
    pub lines: Vec<String>,
    /// The exit code of the program.
    pub exit_code: i32,
}

/// The course of a listing: the lines written so far and, once it has
/// ended, the exit code.
pub struct Transcript {
    pub lines: Seq<Seq<char>>,
    pub stop: Option<i32>,
}

/// The texts of a run of strings.
pub open spec fn texts(lines: Seq<String>) -> Seq<Seq<char>> {
    Seq::new(lines.len(), |i: int| lines[i]@)
}

/// The course of a listing over `events`: each event is replied to in turn,
/// until a reply ends the listing; what comes after that is not looked at.
pub open spec fn transcript(events: Seq<Event>) -> Transcript
    decreases events.len(),
{
    if events.len() == 0 {
        Transcript { lines: Seq::empty(), stop: None }
    } else {
        let before = transcript(events.drop_last());
        if before.stop is Some {
            before
        } else {
            let reply = reply(events.last());
            Transcript {
                lines: match reply.line {
                    Some(line) => before.lines.push(line),
                    None => before.lines,
                },
                stop: reply.stop,
            }
        }
    }
}

/// The exit code of a listing that took the given course: the code it
/// ended with, or success where nothing ended it.
pub open spec fn exit_code_of(course: Transcript) -> i32 {
    match course.stop {
        Some(code) => code,
        None => EXIT_SUCCESS,
    }
}

/// A listing that has ended stays as it is, whatever events follow.
pub proof fn transcript_after_stop(events: Seq<Event>, reached: int)
    requires
        0 <= reached <= events.len(),
        transcript(events.take(reached)).stop is Some,
    ensures
        transcript(events) == transcript(events.take(reached)),
    decreases events.len() - reached,
{
    if reached == events.len() {
        assert(events.take(reached) =~= events);
    } else {
        let shorter = events.drop_last();
        assert(shorter.take(reached) =~= events.take(reached));
        transcript_after_stop(shorter, reached);
    }
}

/// A directory whose entries are all read and rendered is listed in one
/// line for each entry, in the order in which they came, and the program
/// ends with success.
pub proof fn entries_give_one_line_each(events: Seq<Event>)
    requires
        forall|i: int| 0 <= i < events.len() ==> #[trigger] events[i] is Entry,
        forall|i: int| 0 <= i < events.len() ==> #[trigger] event_stamp(events[i]) is Some,
    ensures
        transcript(events).lines.len() == events.len(),
        transcript(events).stop is None,
        exit_code_of(transcript(events)) == EXIT_SUCCESS,
        forall|i: int|
            0 <= i < events.len() ==> #[trigger] transcript(events).lines[i] == line_text(
                events[i]->Entry_0,
                event_stamp(events[i])->Some_0,
            ),
    decreases events.len(),
{
    if events.len() > 0 {
        let shorter = events.drop_last();
        assert forall|i: int| 0 <= i < shorter.len() implies #[trigger] shorter[i] is Entry by {
            assert(shorter[i] == events[i]);
        }
        assert forall|i: int| 0 <= i < shorter.len() implies #[trigger] event_stamp(
            shorter[i],
        ) is Some by {
            assert(shorter[i] == events[i]);
        }
        entries_give_one_line_each(shorter);
        assert(events.last() is Entry);
        assert(event_stamp(events.last()) is Some);
        let course = transcript(events);
        assert forall|i: int| 0 <= i < events.len() implies #[trigger] course.lines[i]
            == line_text(events[i]->Entry_0, event_stamp(events[i])->Some_0) by {
            if i < shorter.len() {
                assert(course.lines[i] == transcript(shorter).lines[i]);
                assert(shorter[i] == events[i]);
            }
        }
    }
}

/// A path that is no directory is listed in no line at all, and the program
/// ends with success.
pub proof fn non_directory_gives_nothing()
    ensures
        transcript(seq![Event::NotDirectory]).lines.len() == 0,
        exit_code_of(transcript(seq![Event::NotDirectory])) == EXIT_SUCCESS,
{
    let events = seq![Event::NotDirectory];
    assert(events.drop_last().len() == 0);
    assert(transcript(events.drop_last()).stop is None);
    assert(events.last() == Event::NotDirectory);
}

/// A target that cannot be read at all is listed in a single line, which
/// reports the failure, and the program ends with the failure's exit code.
pub proof fn failure_gives_one_line(error: ListError)
    ensures
        transcript(seq![Event::Failure(error)]).lines == seq![error.text()],
        exit_code_of(transcript(seq![Event::Failure(error)])) == EXIT_FAILURE,
{
    let events = seq![Event::Failure(error)];
    assert(events.drop_last().len() == 0);
    assert(transcript(events.drop_last()).stop is None);
    assert(events.last() == Event::Failure(error));
    assert(transcript(events).lines =~= seq![error.text()]);
}

/// A listing writes at most one line for each event, and ends with success
/// or with the failure's exit code.
pub proof fn transcript_bounds(events: Seq<Event>)
    ensures
        transcript(events).lines.len() <= events.len(),
        exit_code_of(transcript(events)) == EXIT_SUCCESS || exit_code_of(transcript(events))
            == EXIT_FAILURE,
    decreases events.len(),
{
    if events.len() > 0 {
        transcript_bounds(events.drop_last());
    }
}

/// Lists `events` in order: replies to each, writes the lines that the
/// replies hold, and ends at the first reply that says so.
///
/// Where every event is an entry whose time can be rendered, the listing
/// has one line for each, in the order given, and ends with success.
pub fn list(events: &Vec<Event>) -> (report: Report)
    ensures
        texts(report.lines@) == transcript(events@).lines,
        report.exit_code == exit_code_of(transcript(events@)),
        (forall|i: int| 0 <= i < events@.len() ==> is_rendered(#[trigger] events@[i])) ==> {
            &&& report.lines@.len() == events@.len()
            &&& report.exit_code == EXIT_SUCCESS
            &&& forall|i: int|
                #![trigger report.lines@[i]]
                #![trigger events@[i]]
                0 <= i < events@.len() ==> {
                    &&& event_stamp(events@[i]) is Some
                    &&& is_stamp(event_stamp(events@[i])->Some_0)
                    &&& report.lines@[i]@ == line_text(
                        events@[i]->Entry_0,
                        event_stamp(events@[i])->Some_0,
                    )
                }
        },
{
    let mut lines: Vec<String> = Vec::new();
    let mut stop: Option<i32> = None;
    let mut at: usize = 0;
    proof {
        assert(events@.take(0) =~= Seq::empty());
        assert(texts(lines@) =~= Seq::empty());
    }
    while at < events.len() && stop.is_none()
        invariant
            at <= events.len(),
            texts(lines@) == transcript(events@.take(at as int)).lines,
            stop == transcript(events@.take(at as int)).stop,
            forall|i: int| 0 <= i < at ==> stamp_is_known(#[trigger] events@[i]),
        decreases events.len() - at,
    {
        let action = respond(&events[at]);
        let ghost written = texts(lines@);
        let Action { line, stop: ending } = action;
        match line {
            Some(text) => {
                lines.push(text);
                assert(texts(lines@) =~= written.push(text@));
            },
            None => {},
        }
        stop = ending;
        proof {
            let reached = events@.take(at + 1);
            assert(reached.drop_last() =~= events@.take(at as int));
            assert(reached.last() == events@[at as int]);
        }
        at = at + 1;
    }
    proof {
        let reached = events@.take(at as int);
        if at < events.len() {
            transcript_after_stop(events@, at as int);
        } else {
            assert(reached =~= events@);
        }
        if forall|i: int| 0 <= i < events@.len() ==> is_rendered(#[trigger] events@[i]) {
            assert forall|i: int| 0 <= i < reached.len() implies #[trigger] reached[i] is Entry by {
                assert(is_rendered(events@[i]));
            }
            assert forall|i: int| 0 <= i < reached.len() implies #[trigger] event_stamp(
                reached[i],
            ) is Some by {
                assert(is_rendered(events@[i]));
                assert(stamp_is_known(events@[i]));
            }
            entries_give_one_line_each(reached);
            assert(at == events.len());
            assert(texts(lines@).len() == lines@.len());
            assert forall|i: int|
                #![trigger lines@[i]]
                #![trigger events@[i]]
                0 <= i < events@.len() implies {
                &&& event_stamp(events@[i]) is Some
                &&& is_stamp(event_stamp(events@[i])->Some_0)
                &&& lines@[i]@ == line_text(events@[i]->Entry_0, event_stamp(events@[i])->Some_0)
            } by {
                assert(is_rendered(events@[i]));
                assert(stamp_is_known(events@[i]));
                assert(event_stamp(reached[i]) is Some);
                assert(texts(lines@)[i] == lines@[i]@);
                assert(transcript(reached).lines[i] == line_text(
                    reached[i]->Entry_0,
                    event_stamp(reached[i])->Some_0,
                ));
            }
        }
    }
    Report {
        lines,
        exit_code: match stop {
            Some(code) => code,
            None => EXIT_SUCCESS,
        },
    }
}

} // verus!
