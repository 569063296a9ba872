//! Server-sent events, as the HTTP library writes them.

use super::streaming::{ConvertedEvent, EventFields};
use crate::text::texts;
use vstd::prelude::*;
use vstd::string::*;

verus! {

/// An event that is being written.
#[verifier::external_type_specification]
#[verifier::external_body]
pub struct ExEvent(axum::response::sse::Event);

/// Why data could not be written.
#[verifier::external_type_specification]
#[verifier::external_body]
pub struct ExAxumError(axum::Error);

/// Why a response becomes no event.
#[derive(Debug)]
pub enum EventError {
    /// Its data could not be written.
    Data(axum::Error),
    /// It reports an error, with this message.
    Reported(String),
}

/// What has been written of an event.
pub uninterp spec fn event_text(event: axum::response::sse::Event) -> Seq<char>;

/// Whether an event has its name.
pub uninterp spec fn event_named(event: axum::response::sse::Event) -> bool;

/// Whether a text is one line.
pub open spec fn one_line(text: Seq<char>) -> bool {
    !text.contains('\n') && !text.contains('\r')
}

/// A field of an event: its kind, a colon and a space, its value, and the end of
/// the line.
pub open spec fn field_text(kind: Seq<char>, value: Seq<char>) -> Seq<char> {
    kind + seq![':', ' '] + value + seq!['\n']
}

/// Whether a text is one line.
pub(crate) fn is_one_line(text: &str) -> (r: bool)
    ensures
        r == one_line(text@),
{
    for c in chars: text.chars()
        invariant
            chars.seq() == text@,
            forall|i: int| 0 <= i < chars.index() ==> text@[i] != '\n' && text@[i] != '\r',
    {
        if c == '\n' || c == '\r' {
            assert(text@[chars.index()] == c);
            return false;
        }
    }
    true
}

/// Whether every text of a list is one line.
pub(crate) fn are_one_line(list: &Vec<String>) -> (r: bool)
    ensures
        r == forall|i: int| 0 <= i < texts(list@).len() ==> one_line(#[trigger] texts(list@)[i]),
{
    let ghost all = texts(list@);
    let mut i: usize = 0;
    while i < list.len()
        invariant
            i <= list.len(),
            all == texts(list@),
            forall|j: int| 0 <= j < i ==> one_line(#[trigger] all[j]),
        decreases list.len() - i,
    {
        if !is_one_line(list[i].as_str()) {
            assert(!one_line(all[i as int]));
            return false;
        }
        i = i + 1;
    }
    true
}

/// Starts an event: `axum::response::sse::Event::default`. Nothing is written of
/// it yet.
#[verifier::external_body]
fn new_event() -> (r: axum::response::sse::Event)
    ensures
        event_text(r) == Seq::<char>::empty(),
        !event_named(r),
{
    axum::response::sse::Event::default()
}

/// Writes the name of an event: `axum::response::sse::Event::event`, a field of
/// the kind `event`. An event has one name, on one line.
#[verifier::external_body]
fn with_name(event: axum::response::sse::Event, name: &str) -> (r: axum::response::sse::Event)
    requires
        !event_named(event),
        one_line(name@),
    ensures
        event_text(r) == event_text(event) + field_text("event"@, name@),
        event_named(r),
{
    event.event(name)
}

/// Writes a comment: `axum::response::sse::Event::comment`, a field without a
/// kind. A comment is one line.
#[verifier::external_body]
fn with_comment(event: axum::response::sse::Event, comment: &str) -> (r:
    axum::response::sse::Event)
    requires
        one_line(comment@),
    ensures
        event_text(r) == event_text(event) + field_text(Seq::empty(), comment@),
        event_named(r) == event_named(event),
{
    event.comment(comment)
}

/// Comments, one field for each.
pub open spec fn comments_text(comments: Seq<Seq<char>>) -> Seq<char>
    decreases comments.len(),
{
    if comments.len() == 0 {
        Seq::empty()
    } else {
        comments_text(comments.drop_last()) + field_text(Seq::empty(), comments.last())
    }
}

/// What is written behind the data: the name, where there is one, and the
/// comments.
pub open spec fn fields_text(name: Option<Seq<char>>, comments: Seq<Seq<char>>) -> Seq<char> {
    match name {
        Some(name) => field_text("event"@, name) + comments_text(comments),
        None => comments_text(comments),
    }
}

/// Whether a name and comments can be written, each on one line.
pub open spec fn writable(name: Option<Seq<char>>, comments: Seq<Seq<char>>) -> bool {
    &&& name matches Some(name) ==> one_line(name)
    &&& forall|i: int| 0 <= i < comments.len() ==> one_line(#[trigger] comments[i])
}

/// The name in the fields of an event.
pub open spec fn name_of(fields: EventFields) -> Option<Seq<char>> {
    match fields.event {
        Some(name) => Some(name@),
        None => None,
    }
}

/// Whether `write_data` may only fail on `data`.
pub open spec fn always_fails<T, J>(write_data: J, data: T) -> bool where
    J: FnOnce(axum::response::sse::Event, T) -> Result<axum::response::sse::Event, axum::Error>,
 {
    forall|event: axum::response::sse::Event, r: Result<axum::response::sse::Event, axum::Error>|
        #[trigger]
        write_data.ensures((event, data), r) ==> r is Err
}

/// Whether `write_data` can write on any event that has no name, and gives none.
pub open spec fn writes_data<T, J>(write_data: J) -> bool where
    J: FnOnce(axum::response::sse::Event, T) -> Result<axum::response::sse::Event, axum::Error>,
 {
    &&& forall|event: axum::response::sse::Event, data: T|
        !event_named(event) ==> #[trigger] write_data.requires((event, data))
    &&& forall|
        event: axum::response::sse::Event,
        data: T,
        r: Result<axum::response::sse::Event, axum::Error>,
    |
        #[trigger]
        write_data.ensures((event, data), r) && !event_named(event) ==> match r {
            Ok(written) => !event_named(written),
            Err(_) => true,
        }
}

/// Whether `converted` can become an event: an event without an error has a name
/// and comments that can be written, unless its data cannot.
pub open spec fn buildable<T, J>(converted: ConvertedEvent<T>, write_data: J) -> bool where
    J: FnOnce(axum::response::sse::Event, T) -> Result<axum::response::sse::Event, axum::Error>,
 {
    &&& writes_data(write_data)
    &&& match converted.outcome {
        Ok(fields) => writable(name_of(fields), texts(fields.comments@)) || (converted.data matches Some(
            data,
        ) && always_fails(write_data, data)),
        Err(_) => true,
    }
}

/// Whether `r` comes of `converted` where its data was written on `start` with
/// the result `written`: the data first, and behind it the name and the comments.
/// Data that could not be written is reported before an error that the response
/// reports.
pub open spec fn built<T, J>(
    converted: ConvertedEvent<T>,
    write_data: J,
    start: axum::response::sse::Event,
    written: Result<axum::response::sse::Event, axum::Error>,
    r: Result<axum::response::sse::Event, EventError>,
) -> bool where
    J: FnOnce(axum::response::sse::Event, T) -> Result<axum::response::sse::Event, axum::Error>,
 {
    &&& event_text(start) == Seq::<char>::empty()
    &&& !event_named(start)
    &&& match converted.data {
        Some(data) => write_data.ensures((start, data), written),
        None => written == Ok::<axum::response::sse::Event, axum::Error>(start),
    }
    &&& match written {
        Err(error) => r == Err::<axum::response::sse::Event, EventError>(EventError::Data(error)),
        Ok(data_written) => match converted.outcome {
            Err(message) => r == Err::<axum::response::sse::Event, EventError>(
                EventError::Reported(message),
            ),
            Ok(fields) => r matches Ok(event) && event_text(event) == event_text(data_written)
                + fields_text(name_of(fields), texts(fields.comments@)),
        },
    }
}

/// Writes a response as an event. `write_data` writes its data, where there is
/// any.
pub fn build_event<T, J>(converted: ConvertedEvent<T>, write_data: J) -> (r: Result<
    axum::response::sse::Event,
    EventError,
>) where
    J: FnOnce(axum::response::sse::Event, T) -> Result<axum::response::sse::Event, axum::Error>,

    requires
        buildable(converted, write_data),
    ensures
        exists|
            start: axum::response::sse::Event,
            written: Result<axum::response::sse::Event, axum::Error>,
        | #[trigger]
            built(converted, write_data, start, written, r),
{
    let ConvertedEvent { data, outcome } = converted;
    let start = new_event();
    let written = match data {
        Some(data) => write_data(start, data),
        None => Ok(start),
    };
    let r = match written {
        Err(error) => Err(EventError::Data(error)),
        Ok(data_written) => match outcome {
            Err(message) => Err(EventError::Reported(message)),
            Ok(fields) => Ok(write_fields(data_written, &fields)),
        },
    };
    assert(built(converted, write_data, start, written, r));
    r
}

/// Writes the name and the comments of an event.
fn write_fields(event: axum::response::sse::Event, fields: &EventFields) -> (r:
    axum::response::sse::Event)
    requires
        !event_named(event),
        writable(name_of(*fields), texts(fields.comments@)),
    ensures
        event_text(r) == event_text(event) + fields_text(
            name_of(*fields),
            texts(fields.comments@),
        ),
{
    let ghost comments = texts(fields.comments@);
    let named = match &fields.event {
        Some(name) => with_name(event, name.as_str()),
        None => event,
    };
    let ghost start = event_text(named);
    let mut r = named;
    let mut i: usize = 0;
    while i < fields.comments.len()
        invariant
            i <= fields.comments.len(),
            comments == texts(fields.comments@),
            writable(name_of(*fields), comments),
            event_text(r) == start + comments_text(comments.take(i as int)),
        decreases fields.comments.len() - i,
    {
        proof {
            assert(comments.take(i + 1).drop_last() == comments.take(i as int));
            assert(one_line(comments[i as int]));
        }
        r = with_comment(r, fields.comments[i].as_str());
        i = i + 1;
    }
    proof {
        assert(comments.take(i as int) == comments);
    }
    r
}

/// A text is one line where it has neither of the characters that end lines.
pub proof fn one_line_has_no_end(text: Seq<char>)
    ensures
        one_line(text) <==> forall|i: int|
            0 <= i < text.len() ==> #[trigger] text[i] != '\n' && text[i] != '\r',
{
    if forall|i: int| 0 <= i < text.len() ==> #[trigger] text[i] != '\n' && text[i] != '\r' {
        assert(!text.contains('\n'));
        assert(!text.contains('\r'));
    }
}

/// A field is one line: its kind, a colon, a space, its value and the end.
pub proof fn field_is_one_line(kind: Seq<char>, value: Seq<char>)
    ensures
        field_text(kind, value).len() == kind.len() + value.len() + 3,
        field_text(kind, value).take(kind.len() as int) == kind,
        field_text(kind, value)[kind.len() as int] == ':',
        field_text(kind, value)[kind.len() as int + 1] == ' ',
        field_text(kind, value).subrange(
            kind.len() as int + 2,
            kind.len() as int + 2 + value.len(),
        ) == value,
        field_text(kind, value).last() == '\n',
{
    assert(field_text(kind, value).take(kind.len() as int) =~= kind);
    assert(field_text(kind, value).subrange(
        kind.len() as int + 2,
        kind.len() as int + 2 + value.len(),
    ) =~= value);
}

/// Comments are written one behind the other, each as a field without a kind, and
/// the name stands before them.
pub proof fn comments_are_written_in_order(
    a: Seq<Seq<char>>,
    b: Seq<Seq<char>>,
    comment: Seq<char>,
    name: Seq<char>,
)
    ensures
        comments_text(Seq::empty()) == Seq::<char>::empty(),
        comments_text(seq![comment]) == seq![':', ' '] + comment + seq!['\n'],
        comments_text(a + b) == comments_text(a) + comments_text(b),
        fields_text(None, a) == comments_text(a),
        fields_text(Some(name), a) == "event"@ + seq![':', ' '] + name + seq!['\n']
            + comments_text(a),
    decreases b.len(),
{
    reveal_with_fuel(comments_text, 2);
    assert(seq![comment].drop_last() =~= Seq::<Seq<char>>::empty());
    assert(comments_text(seq![comment]) =~= seq![':', ' '] + comment + seq!['\n']);
    assert(fields_text(Some(name), a) =~= "event"@ + seq![':', ' '] + name + seq!['\n']
        + comments_text(a));
    if b.len() == 0 {
        assert(a + b =~= a);
        assert(comments_text(a + b) =~= comments_text(a) + comments_text(b));
    } else {
        comments_are_written_in_order(a, b.drop_last(), comment, name);
        assert((a + b).drop_last() =~= a + b.drop_last());
        assert(comments_text(a + b) =~= comments_text(a) + comments_text(b));
    }
}

/// What comes of writing a response as an event: the data is written on an empty
/// event without a name; where that fails, its error is reported before any other;
/// then the error that the response reports; and otherwise the name and the comments
/// stand behind what was written.
pub proof fn events_hold_data_name_and_comments<T, J>(
    converted: ConvertedEvent<T>,
    write_data: J,
    start: axum::response::sse::Event,
    written: Result<axum::response::sse::Event, axum::Error>,
    r: Result<axum::response::sse::Event, EventError>,
) where
    J: FnOnce(axum::response::sse::Event, T) -> Result<axum::response::sse::Event, axum::Error>,

    requires
        built(converted, write_data, start, written, r),
    ensures
        event_text(start).len() == 0,
        !event_named(start),
        converted.data matches Some(data) ==> write_data.ensures((start, data), written),
        converted.data is None ==> (written matches Ok(e) && e == start),
        written matches Err(error) ==> (r matches Err(e) && e == EventError::Data(error)),
        written is Ok ==> (converted.outcome matches Err(message) ==> (r matches Err(e) && e
            == EventError::Reported(message))),
        written matches Ok(data_written) ==> (converted.outcome matches Ok(fields) ==> (
        r matches Ok(event) && event_text(event) == event_text(data_written) + (
        match fields.event {
            Some(name) => "event"@ + seq![':', ' '] + name@ + seq!['\n'],
            None => Seq::empty(),
        }) + comments_text(texts(fields.comments@)))),
{
    if let (Ok(data_written), Ok(fields)) = (written, converted.outcome) {
        if let Ok(event) = r {
            assert(event_text(event) =~= event_text(data_written) + (match fields.event {
                Some(name) => "event"@ + seq![':', ' '] + name@ + seq!['\n'],
                None => Seq::empty(),
            }) + comments_text(texts(fields.comments@)));
        }
    }
}

/// What can be written of an event: a name and comments of one line each.
pub proof fn writable_fields_are_one_line(name: Option<Seq<char>>, comments: Seq<Seq<char>>)
    ensures
        writable(name, comments) <==> {
            &&& name matches Some(n) ==> !n.contains('\n') && !n.contains('\r')
            &&& forall|i: int|
                0 <= i < comments.len() ==> !(#[trigger] comments[i]).contains('\n')
                    && !comments[i].contains('\r')
        },
{
    if forall|i: int|
        0 <= i < comments.len() ==> !(#[trigger] comments[i]).contains('\n')
            && !comments[i].contains('\r') {
        assert(forall|i: int| 0 <= i < comments.len() ==> one_line(#[trigger] comments[i]));
    } else {
        let i = choose|i: int|
            0 <= i < comments.len() && !(!(#[trigger] comments[i]).contains('\n')
                && !comments[i].contains('\r'));
        assert(!one_line(comments[i]));
    }
}

/// What is written of a response as an event: its data on an empty event, and behind it
/// its name and its comments. Data that could not be written is reported before the
/// error that the response reports.
pub proof fn responses_are_written<T, J>(
    converted: ConvertedEvent<T>,
    write_data: J,
    r: Result<axum::response::sse::Event, EventError>,
) where
    J: FnOnce(axum::response::sse::Event, T) -> Result<axum::response::sse::Event, axum::Error>,

    requires
        build_event.ensures((converted, write_data), r),
    ensures
        exists|start: axum::response::sse::Event, written: Result<axum::response::sse::Event, axum::Error>|
            #![trigger built(converted, write_data, start, written, r)]
            {
                &&& event_text(start).len() == 0
                &&& converted.data matches Some(data) ==> write_data.ensures((start, data), written)
                &&& converted.data is None ==> written is Ok && written->Ok_0 == start
                &&& written matches Err(error) ==> (r matches Err(e) && e
                    == EventError::Data(error))
                &&& written is Ok ==> (converted.outcome matches Err(message) ==> (r matches Err(e)
                    && e == EventError::Reported(message)))
                &&& written matches Ok(data_written) ==> (converted.outcome matches Ok(fields) ==> (
                r matches Ok(event) && event_text(event) == event_text(data_written) + (
                match fields.event {
                    Some(name) => "event"@ + seq![':', ' '] + name@ + seq!['\n'],
                    None => Seq::empty(),
                }) + comments_text(texts(fields.comments@))))
            },
{
    let (start, written) = choose|
        start: axum::response::sse::Event,
        written: Result<axum::response::sse::Event, axum::Error>,
    | #[trigger]
        built(converted, write_data, start, written, r);
    events_hold_data_name_and_comments(converted, write_data, start, written, r);
}

/// A line is told by the characters that end it.
pub(crate) proof fn lines_are_told(text: &str, answer: bool)
    requires
        is_one_line.ensures((text,), answer),
    ensures
        answer <==> !text@.contains('\n') && !text@.contains('\r'),
{
}

} // verus!
