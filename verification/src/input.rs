//! The client's input form: what the user has typed, and the command it
//! turns into.

use vstd::prelude::*;
use vstd::string::*;
use crate::command::{Delay, TemplateCommand};
use crate::decimal::{parse_outcome, parse_usize};

verus! {

/// The amount the form starts with.
pub const DEFAULT_TO_ADD: usize = 42;

/// The delay, in seconds, the form starts with.
pub const DEFAULT_DELAY: usize = 2;

/// Where the input form sends its commands.
#[derive(Clone, Debug, PartialEq, Eq)]
pub struct TemplateInputProps {
    pub endpoint: String,
    pub id: String,
}

impl Default for TemplateInputProps {
    /// No server and no template yet.
    fn default() -> (p: Self)
        ensures
            p.endpoint@ == Seq::<char>::empty(),
            p.id@ == Seq::<char>::empty(),
    {
        TemplateInputProps { endpoint: String::new(), id: String::new() }
    }
}

impl TemplateInputProps {
    /// The server the commands go to.
    pub fn endpoint(&self) -> (r: &str)
        ensures
            r@ == self.endpoint@,
    {
        self.endpoint.as_str()
    }

    /// The path under which commands are posted.
    pub fn path(&self) -> (r: &'static str)
        ensures
            r@ == "/input"@,
    {
        "/input"
    }

    /// The token sent with the commands: none.
    pub fn jwt(&self) -> (r: &'static str)
        ensures
            r@ == ""@,
    {
        ""
    }

    /// The template the commands are for.
    pub fn id(&self) -> (r: &str)
        ensures
            r@ == self.id@,
    {
        self.id.as_str()
    }
}

/// The view of an optional text.
pub open spec fn text_view(t: Option<String>) -> Option<Seq<char>> {
    match t {
        Some(s) => Some(s@),
        None => None,
    }
}

/// What the form holds, in the abstract.
pub struct LocalDataView {
    pub endpoint: Seq<char>,
    pub id: Seq<char>,
    pub nb: usize,
    pub delay: usize,
    pub error: Option<Seq<char>>,
}

/// What the form holds: where to send, the amount, the delay, and the last error.
#[derive(Clone, Debug, PartialEq, Eq)]
pub struct LocalData {
    endpoint: String,
    id: String,
    nb: usize,
    delay: usize,
    error: Option<String>,
}

/// A change the user makes to the form.
#[derive(Debug)]
pub enum LocalAction {
    /// A new amount.
    ChangeNb(usize),
    /// A new delay.
    ChangeDelay(usize),
    /// A new error to show, or none.
    SetError(Option<String>),
}

impl View for LocalData {
    type V = LocalDataView;

    closed spec fn view(&self) -> LocalDataView {
        LocalDataView {
            endpoint: self.endpoint@,
            id: self.id@,
            nb: self.nb,
            delay: self.delay,
            error: text_view(self.error),
        }
    }
}

/// The form after an action: each action replaces one field and keeps the others.
pub open spec fn reduced(data: LocalDataView, action: LocalAction) -> LocalDataView {
    match action {
        LocalAction::ChangeNb(nb) => LocalDataView { nb, ..data },
        LocalAction::ChangeDelay(delay) => LocalDataView { delay, ..data },
        LocalAction::SetError(e) => LocalDataView { error: text_view(e), ..data },
    }
}

/// The command a form sends: an addition now when the delay is zero,
/// a delayed addition otherwise.
pub open spec fn command_of(data: LocalDataView) -> TemplateCommand {
    if data.delay == 0 {
        TemplateCommand::Add(data.nb)
    } else {
        TemplateCommand::Delayed(Delay { delay: data.delay, to_add: data.nb })
    }
}

impl LocalData {
    /// A fresh form for a template: the default amount and delay, no error.
    pub fn new(endpoint: String, id: String) -> (d: Self)
        ensures
            d@ == (LocalDataView {
                endpoint: endpoint@,
                id: id@,
                nb: DEFAULT_TO_ADD,
                delay: DEFAULT_DELAY,
                error: None,
            }),
    {
        LocalData { endpoint, id, nb: DEFAULT_TO_ADD, delay: DEFAULT_DELAY, error: None }
    }

    /// The server the commands go to.
    pub fn endpoint(&self) -> (r: &str)
        ensures
            r@ == self@.endpoint,
    {
        self.endpoint.as_str()
    }

    /// The template the commands are for.
    pub fn id(&self) -> (r: &str)
        ensures
            r@ == self@.id,
    {
        self.id.as_str()
    }

    /// The amount typed.
    pub fn nb(&self) -> (r: usize)
        ensures
            r == self@.nb,
    {
        self.nb
    }

    /// The delay typed.
    pub fn delay(&self) -> (r: usize)
        ensures
            r == self@.delay,
    {
        self.delay
    }

    /// The error shown, if any.
    pub fn error(&self) -> (r: Option<&String>)
        ensures
            match r {
                Some(s) => self@.error == Some(s@),
                None => self@.error is None,
            },
    {
        match &self.error {
            Some(e) => Some(e),
            None => None,
        }
    }

    /// The command the form sends; there always is one.
    pub fn get_command(&self) -> (c: Option<TemplateCommand>)
        ensures
            c == Some(command_of(self@)),
    {
        if self.delay == 0 {
            Some(TemplateCommand::Add(self.nb))
        } else {
            Some(TemplateCommand::Delayed(Delay { delay: self.delay, to_add: self.nb }))
        }
    }

    /// The form after an action.
    pub fn reduce(self, action: LocalAction) -> (d: Self)
        ensures
            d@ == reduced(self@, action),
    {
        let mut reduced = self;
        match action {
            LocalAction::ChangeNb(nb) => {
                reduced.nb = nb;
            },
            LocalAction::ChangeDelay(delay) => {
                reduced.delay = delay;
            },
            LocalAction::SetError(e) => {
                reduced.error = e;
            },
        }
        reduced
    }
}

/// The text of the error when the amount typed is not a number.
pub open spec fn bad_nb_text() -> Seq<char> {
    "cannot parse nb"@
}

/// The text of the error when the delay typed is not a number.
pub open spec fn bad_delay_text() -> Seq<char> {
    "cannot parse delay"@
}

impl LocalAction {
    /// The action for what the user typed as the amount: the new amount,
    /// or an error to show when it is not a number.
    pub fn from_nb_input(text: &str) -> (a: Self)
        ensures
            match parse_outcome(text@) {
                Ok(n) => a == LocalAction::ChangeNb(n as usize),
                Err(_) => a matches LocalAction::SetError(Some(e)) && e@ == bad_nb_text(),
            },
    {
        match parse_usize(text) {
            Ok(n) => LocalAction::ChangeNb(n),
            Err(_) => LocalAction::SetError(Some(String::from_str("cannot parse nb"))),
        }
    }

    /// The action for what the user typed as the delay: the new delay,
    /// or an error to show when it is not a number.
    pub fn from_delay_input(text: &str) -> (a: Self)
        ensures
            match parse_outcome(text@) {
                Ok(n) => a == LocalAction::ChangeDelay(n as usize),
                Err(_) => a matches LocalAction::SetError(Some(e)) && e@ == bad_delay_text(),
            },
    {
        match parse_usize(text) {
            Ok(n) => LocalAction::ChangeDelay(n),
            Err(_) => LocalAction::SetError(Some(String::from_str("cannot parse delay"))),
        }
    }
}

/// Setting the delay to zero makes the form send an immediate addition of
/// its amount; any other delay makes it send a delayed one. The amount and
/// the error shown do not change what is sent beyond that.
pub proof fn law_command_follows_form(data: LocalDataView, action: LocalAction)
    ensures
        action matches LocalAction::ChangeDelay(d) ==> command_of(reduced(data, action)) == (
        if d == 0 {
            TemplateCommand::Add(data.nb)
        } else {
            TemplateCommand::Delayed(Delay { delay: d, to_add: data.nb })
        }),
        action matches LocalAction::ChangeNb(n) ==> command_of(reduced(data, action)) == (
        if data.delay == 0 {
            TemplateCommand::Add(n)
        } else {
            TemplateCommand::Delayed(Delay { delay: data.delay, to_add: n })
        }),
        action is SetError ==> command_of(reduced(data, action)) == command_of(data),
{
}


/// Each action sets its own field of the form to the value it carries and
/// leaves every other field as it was.
pub proof fn law_reduce_sets_one_field(data: LocalDataView, action: LocalAction)
    ensures
        reduced(data, action).endpoint == data.endpoint,
        reduced(data, action).id == data.id,
        action matches LocalAction::ChangeNb(n) ==> reduced(data, action).nb == n
            && reduced(data, action).delay == data.delay && reduced(data, action).error
            == data.error,
        action matches LocalAction::ChangeDelay(d) ==> reduced(data, action).delay == d
            && reduced(data, action).nb == data.nb && reduced(data, action).error == data.error,
        action matches LocalAction::SetError(e) ==> reduced(data, action).error == text_view(e)
            && reduced(data, action).nb == data.nb && reduced(data, action).delay == data.delay,
        data.delay == 0 ==> command_of(data) == TemplateCommand::Add(data.nb),
        data.delay > 0 ==> command_of(data) == TemplateCommand::Delayed(
            Delay { delay: data.delay, to_add: data.nb },
        ),
{
}

} // verus!
