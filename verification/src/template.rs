//! The client's page: the amount typed in its form, and the read model it
//! shows, kept up to date by the messages of the server's event stream.

use vstd::prelude::*;
use vstd::string::*;
use crate::command::TemplateCommand;
use crate::decimal::{parse_outcome, parse_usize};
use crate::dto::{record, TemplateDto};
use crate::event::TemplateEvent;

verus! {

/// Where the page's server lives.
pub const API_BASE_URL: &'static str = "http://localhost:8000/api/";

/// The address of the server's event stream: `API_BASE_URL` then `data`.
pub fn data_url() -> (url: String)
    ensures
        url@ == API_BASE_URL@ + "data"@,
{
    String::from_str(API_BASE_URL).concat("data")
}

/// The amount the page's form starts with, and sends when none was typed.
pub const DEFAULT_TO_ADD: usize = 42;

/// What the page's form holds: the amount typed, or the error to show.
pub struct LocalData {
    nb: Result<usize, String>,
}

/// The view of an amount-or-error.
pub open spec fn nb_view(nb: Result<usize, String>) -> Result<usize, Seq<char>> {
    match nb {
        Ok(n) => Ok(n),
        Err(e) => Err(e@),
    }
}

impl View for LocalData {
    type V = Result<usize, Seq<char>>;

    closed spec fn view(&self) -> Result<usize, Seq<char>> {
        nb_view(self.nb)
    }
}

impl Default for LocalData {
    /// A fresh form holds the default amount.
    fn default() -> (d: Self)
        ensures
            d@ == Ok::<usize, Seq<char>>(DEFAULT_TO_ADD),
    {
        LocalData { nb: Ok(DEFAULT_TO_ADD) }
    }
}

/// The text of the error when the amount typed is not a number.
pub open spec fn bad_input_text() -> Seq<char> {
    "cannot parse input"@
}

impl LocalData {
    /// The form after the user typed `text` as the amount.
    pub fn from_input(text: &str) -> (d: Self)
        ensures
            match parse_outcome(text@) {
                Ok(n) => d@ == Ok::<usize, Seq<char>>(n as usize),
                Err(_) => d@ == Err::<usize, Seq<char>>(bad_input_text()),
            },
    {
        match parse_usize(text) {
            Ok(n) => LocalData { nb: Ok(n) },
            Err(_) => LocalData { nb: Err(String::from_str("cannot parse input")) },
        }
    }

    /// The form showing an error, such as a failure to send.
    pub fn from_error(message: String) -> (d: Self)
        ensures
            d@ == Err::<usize, Seq<char>>(message@),
    {
        LocalData { nb: Err(message) }
    }

    /// The amount shown in the form: the one typed, or the default.
    pub fn shown_nb(&self) -> (n: usize)
        ensures
            n == match self@ {
                Ok(n) => n,
                Err(_) => DEFAULT_TO_ADD,
            },
    {
        match &self.nb {
            Ok(n) => *n,
            Err(_) => DEFAULT_TO_ADD,
        }
    }

    /// The error shown under the form, if any.
    pub fn error(&self) -> (e: Option<&String>)
        ensures
            match self@ {
                Ok(_) => e is None,
                Err(m) => e matches Some(s) && s@ == m,
            },
    {
        match &self.nb {
            Ok(_) => None,
            Err(e) => Some(e),
        }
    }

    /// The command the form sends: an addition of the amount typed, or of
    /// the default amount when the form shows an error.
    pub fn command(&self) -> (c: TemplateCommand)
        ensures
            c == TemplateCommand::Add(
                match self@ {
                    Ok(n) => n,
                    Err(_) => DEFAULT_TO_ADD,
                },
            ),
    {
        TemplateCommand::Add(self.shown_nb())
    }
}

/// Where the page's state view reads its event stream from.
#[derive(Clone, Debug, PartialEq, Eq)]
pub struct TemplateStateProps {
    pub endpoint: String,
    pub id: String,
}

impl Default for TemplateStateProps {
    /// No server and no template yet.
    fn default() -> (p: Self)
        ensures
            p.endpoint@ == Seq::<char>::empty(),
            p.id@ == Seq::<char>::empty(),
    {
        TemplateStateProps { endpoint: String::new(), id: String::new() }
    }
}

impl TemplateStateProps {
    /// The server the stream comes from.
    pub fn endpoint(&self) -> (r: &str)
        ensures
            r@ == self.endpoint@,
    {
        self.endpoint.as_str()
    }

    /// The path of the stream.
    pub fn path(&self) -> (r: &'static str)
        ensures
            r@ == "data"@,
    {
        "data"
    }

    /// The token sent to open the stream: none.
    pub fn jwt(&self) -> (r: &'static str)
        ensures
            r@ == ""@,
    {
        ""
    }

    /// The template whose events are streamed.
    pub fn id(&self) -> (r: &str)
        ensures
            r@ == self.id@,
    {
        self.id.as_str()
    }
}

/// A message of the server's event stream.
#[derive(Debug)]
pub enum DtoMessage {
    /// The whole read model.
    Dto(TemplateDto),
    /// One more event.
    Event(TemplateEvent),
    /// The stream failed.
    Error(String),
}

impl DtoMessage {
    /// The message when a stream message does not read as one.
    pub fn stream_closed() -> (m: Self)
        ensures
            m matches DtoMessage::Error(e) && e@ == "stream closed"@,
    {
        DtoMessage::Error(String::from_str("stream closed"))
    }

    /// The message when the event stream has ended.
    pub fn eventsource_closed() -> (m: Self)
        ensures
            m matches DtoMessage::Error(e) && e@ == "EventSource closed"@,
    {
        DtoMessage::Error(String::from_str("EventSource closed"))
    }
}

/// What the page shows: the read model, or why it cannot show one.
pub struct Template {
    dto: Result<TemplateDto, String>,
}

/// The view of a read-model-or-error.
pub open spec fn shown_view(dto: Result<TemplateDto, String>) -> Result<
    Seq<TemplateEvent>,
    Seq<char>,
> {
    match dto {
        Ok(d) => Ok(d@),
        Err(e) => Err(e@),
    }
}

impl View for Template {
    type V = Result<Seq<TemplateEvent>, Seq<char>>;

    closed spec fn view(&self) -> Result<Seq<TemplateEvent>, Seq<char>> {
        shown_view(self.dto)
    }
}

/// The page after a message, and whether it must be drawn again.
pub open spec fn updated(
    shown: Result<Seq<TemplateEvent>, Seq<char>>,
    msg: DtoMessage,
) -> (Result<Seq<TemplateEvent>, Seq<char>>, bool) {
    match msg {
        DtoMessage::Dto(d) => (Ok(d@), true),
        DtoMessage::Event(e) => match shown {
            Ok(events) => (Ok(record(events, e)), true),
            Err(m) => (Err(m), false),
        },
        DtoMessage::Error(m) => (Err(m@), true),
    }
}

impl Template {
    /// A page whose stream opened: it shows the default read model.
    pub fn new() -> (t: Self)
        ensures
            t@ == Ok::<Seq<TemplateEvent>, Seq<char>>(
                seq![TemplateEvent::Added(crate::START_VALUE)],
            ),
    {
        Template { dto: Ok(TemplateDto::default()) }
    }

    /// A page whose stream could not be opened: it shows why.
    pub fn failed(message: String) -> (t: Self)
        ensures
            t@ == Err::<Seq<TemplateEvent>, Seq<char>>(message@),
    {
        Template { dto: Err(message) }
    }

    /// A page whose event stream could not be opened.
    pub fn eventsource_failed() -> (t: Self)
        ensures
            t@ == Err::<Seq<TemplateEvent>, Seq<char>>(
                "cannot open eventsource to "@ + API_BASE_URL@ + "data"@,
            ),
    {
        let message = String::from_str("cannot open eventsource to ").concat(
            data_url().as_str(),
        );
        assert(message@ =~= "cannot open eventsource to "@ + API_BASE_URL@ + "data"@);
        Template { dto: Err(message) }
    }

    /// A page that could not subscribe to the stream's messages.
    pub fn subscription_failed() -> (t: Self)
        ensures
            t@ == Err::<Seq<TemplateEvent>, Seq<char>>("cannot subscribe to all messages"@),
    {
        Template { dto: Err(String::from_str("cannot subscribe to all messages")) }
    }

    /// The read model shown, or why there is none.
    pub fn dto(&self) -> (r: &Result<TemplateDto, String>)
        ensures
            shown_view(*r) == self@,
    {
        &self.dto
    }

    /// Takes a message of the stream into account; answers whether the
    /// page must be drawn again.
    pub fn update(&mut self, msg: DtoMessage) -> (redraw: bool)
        ensures
            (final(self)@, redraw) == updated(old(self)@, msg),
    {
        match msg {
            DtoMessage::Dto(d) => {
                self.dto = Ok(d);
                true
            },
            DtoMessage::Event(e) => match &mut self.dto {
                Ok(dto) => {
                    dto.play_event(&e);
                    true
                },
                Err(_) => false,
            },
            DtoMessage::Error(m) => {
                self.dto = Err(m);
                true
            },
        }
    }
}

/// Once the stream has failed, further events leave the page as it is and
/// ask for no redraw; a whole read model or a new error always replaces
/// what is shown.
pub proof fn law_failure_holds_until_replaced(message: Seq<char>, msg: DtoMessage)
    ensures
        msg is Event ==> updated(Err(message), msg) == (
        Err::<Seq<TemplateEvent>, Seq<char>>(message),
        false,
        ),
        msg matches DtoMessage::Dto(d) ==> updated(Err(message), msg).0 == Ok::<
            Seq<TemplateEvent>,
            Seq<char>,
        >(d@),
{
}


/// Whatever the page shows, a whole read model replaces it and asks for a
/// redraw, and so does a stream error; an event is recorded on a shown read
/// model, becoming its newest event, and asks for a redraw.
pub proof fn law_update_replaces_or_records(
    shown: Result<Seq<TemplateEvent>, Seq<char>>,
    msg: DtoMessage,
)
    ensures
        msg matches DtoMessage::Dto(d) ==> updated(shown, msg) == (
        Ok::<Seq<TemplateEvent>, Seq<char>>(d@),
        true,
        ),
        msg matches DtoMessage::Error(m) ==> updated(shown, msg) == (
        Err::<Seq<TemplateEvent>, Seq<char>>(m@),
        true,
        ),
        msg matches DtoMessage::Event(e) ==> (shown matches Ok(events) ==> {
            &&& updated(shown, msg).1
            &&& updated(shown, msg).0 matches Ok(after) && after.last() == e && after.len()
                <= events.len() + 1 && (events.len() <= crate::dto::WINDOW ==> after.len()
                <= crate::dto::WINDOW)
            &&& events.len() < crate::dto::WINDOW ==> updated(shown, msg).0 == Ok::<
                Seq<TemplateEvent>,
                Seq<char>,
            >(events.push(e))
        }),
{
    if let DtoMessage::Event(e) = msg {
        if let Ok(events) = shown {
            let pushed = events.push(e);
            assert(pushed.last() == e);
            if pushed.len() > crate::dto::WINDOW {
                assert(pushed.drop_first().last() == e);
            }
        }
    }
}

} // verus!
