//! Turning a command invocation into a reply.
//!
//! Handling is split in two steps so that the forecast lookup, which needs
//! the network, happens outside this module: `plan` decides what an
//! invocation asks for, and `forecast_reply` words the lookup's outcome.
//! `dispatch` is the whole mapping, from invocation and lookup outcome to
//! reply.

use vstd::prelude::*;
use vstd::string::StringExecFns;
use crate::registry::{is_registered, registry_spec};

verus! {

/// The value a user supplied for a command parameter.
#[derive(Clone, Debug)]
pub enum ParamValue {
    Text(String),
    Integer(i64),
    Boolean(bool),
}

/// One named parameter of an invocation. Its value may be absent.
#[derive(Clone, Debug)]
pub struct Param {
    pub name: String,
    pub value: Option<ParamValue>,
}

/// A command invocation as delivered by the gateway.
#[derive(Clone, Debug)]
pub struct CommandInvocation {
    pub name: String,
    pub params: Vec<Param>,
}

/// What the forecast provider reports for a place.
#[derive(Clone, Debug)]
pub struct ForecastResult {
    pub resolved_location: String,
    pub headline_overview: String,
}

/// A failed forecast lookup, with a human-readable cause.
#[derive(Clone, Debug)]
pub struct ForecastError {
    pub cause: String,
}

/// The commands this bot understands.
#[derive(Clone, Copy, Debug, PartialEq, Eq, Structural)]
pub enum Command {
    Hello,
    Weather,
}

/// What handling an invocation calls for.
#[derive(Clone, Debug)]
pub enum Action {
    /// Send this text as the reply.
    Reply(String),
    /// Look up the forecast for this place, then reply with `forecast_reply`.
    FetchForecast(String),
    /// The command is not one this bot registered: an internal error, not a
    /// reply to the user.
    Reject(String),
}

/// A dispatch that produced no reply.
#[derive(Clone, Debug)]
pub enum DispatchError {
    /// The invocation named a command that was never registered.
    UnknownCommand(String),
}

pub enum ParamValueView {
    Text(Seq<char>),
    Integer(i64),
    Boolean(bool),
}

pub struct ParamView {
    pub name: Seq<char>,
    pub value: Option<ParamValueView>,
}

pub struct InvocationView {
    pub name: Seq<char>,
    pub params: Seq<ParamView>,
}

pub struct ForecastView {
    pub resolved_location: Seq<char>,
    pub headline_overview: Seq<char>,
}

impl View for ParamValue {
    type V = ParamValueView;

    open spec fn view(&self) -> ParamValueView {
        match self {
            ParamValue::Text(s) => ParamValueView::Text(s@),
            ParamValue::Integer(n) => ParamValueView::Integer(*n),
            ParamValue::Boolean(b) => ParamValueView::Boolean(*b),
        }
    }
}

impl View for Param {
    type V = ParamView;

    open spec fn view(&self) -> ParamView {
        ParamView {
            name: self.name@,
            value: match self.value {
                Some(v) => Some(v@),
                None => None,
            },
        }
    }
}

impl View for CommandInvocation {
    type V = InvocationView;

    open spec fn view(&self) -> InvocationView {
        InvocationView { name: self.name@, params: self.params@.map_values(|p: Param| p@) }
    }
}

impl View for ForecastResult {
    type V = ForecastView;

    open spec fn view(&self) -> ForecastView {
        ForecastView {
            resolved_location: self.resolved_location@,
            headline_overview: self.headline_overview@,
        }
    }
}

/// Model of a forecast lookup's outcome: the forecast, or the error's cause.
pub open spec fn outcome_view(o: Result<ForecastResult, ForecastError>) -> Result<
    ForecastView,
    Seq<char>,
> {
    match o {
        Ok(r) => Ok(r@),
        Err(e) => Err(e.cause@),
    }
}

/// The command a name stands for, if any.
pub open spec fn command_of(name: Seq<char>) -> Option<Command> {
    if name == "hello"@ {
        Some(Command::Hello)
    } else if name == "weather"@ {
        Some(Command::Weather)
    } else {
        None
    }
}

/// The name a command is registered and dispatched under.
pub open spec fn command_name(c: Command) -> Seq<char> {
    match c {
        Command::Hello => "hello"@,
        Command::Weather => "weather"@,
    }
}

pub open spec fn hello_text() -> Seq<char> {
    "Que pasa pinyas"@
}

pub open spec fn missing_place_cause() -> Seq<char> {
    "missing required parameter 'place'"@
}

pub open spec fn place_not_text_cause() -> Seq<char> {
    "parameter 'place' is not text"@
}

/// The reply for an error with the given cause.
pub open spec fn error_text(cause: Seq<char>) -> Seq<char> {
    "Err: "@ + cause
}

/// The reply for a successful forecast.
pub open spec fn forecast_text(f: ForecastView) -> Seq<char> {
    "Forecast: "@ + f.headline_overview + " in "@ + f.resolved_location
}

/// The reply for a forecast lookup's outcome.
pub open spec fn outcome_text(o: Result<ForecastView, Seq<char>>) -> Seq<char> {
    match o {
        Ok(f) => forecast_text(f),
        Err(cause) => error_text(cause),
    }
}

/// The first parameter with the given name, if any.
pub open spec fn find_param(ps: Seq<ParamView>, name: Seq<char>) -> Option<ParamView>
    decreases ps.len(),
{
    if ps.len() == 0 {
        None
    } else if ps[0].name == name {
        Some(ps[0])
    } else {
        find_param(ps.drop_first(), name)
    }
}

/// Model of `Action`: what is to be done, with its text.
pub enum ActionView {
    Reply(Seq<char>),
    FetchForecast(Seq<char>),
    Reject(Seq<char>),
}

impl View for Action {
    type V = ActionView;

    open spec fn view(&self) -> ActionView {
        match self {
            Action::Reply(s) => ActionView::Reply(s@),
            Action::FetchForecast(s) => ActionView::FetchForecast(s@),
            Action::Reject(s) => ActionView::Reject(s@),
        }
    }
}

/// What handling an invocation calls for.
pub open spec fn plan_spec(inv: InvocationView) -> ActionView {
    match command_of(inv.name) {
        Some(Command::Hello) => ActionView::Reply(hello_text()),
        Some(Command::Weather) => match find_param(inv.params, "place"@) {
            Some(ParamView { value: Some(ParamValueView::Text(place)), .. }) => ActionView::FetchForecast(place),
            Some(ParamView { value: Some(_), .. }) => ActionView::Reply(error_text(place_not_text_cause())),
            _ => ActionView::Reply(error_text(missing_place_cause())),
        },
        None => ActionView::Reject(inv.name),
    }
}

/// The whole dispatch: the reply text, or `None` for an unknown command.
pub open spec fn dispatch_spec(inv: InvocationView, o: Result<ForecastView, Seq<char>>) -> Option<
    Seq<char>,
> {
    match plan_spec(inv) {
        ActionView::Reply(text) => Some(text),
        ActionView::FetchForecast(_) => Some(outcome_text(o)),
        ActionView::Reject(_) => None,
    }
}

impl Command {
    /// Reads a command name; `None` for a name this bot does not know.
    pub fn parse(name: &String) -> (r: Option<Command>)
        ensures
            r == command_of(name@),
    {
        let hello = String::from_str("hello");
        let weather = String::from_str("weather");
        if *name == hello {
            Some(Command::Hello)
        } else if *name == weather {
            Some(Command::Weather)
        } else {
            None
        }
    }

    /// The name this command is registered and dispatched under.
    pub fn name(&self) -> (r: String)
        ensures
            r@ == command_name(*self),
    {
        match self {
            Command::Hello => String::from_str("hello"),
            Command::Weather => String::from_str("weather"),
        }
    }
}

/// The reply for a forecast lookup's outcome: `Forecast: {overview} in
/// {location}` on success, `Err: {cause}` on failure.
pub fn forecast_reply(outcome: &Result<ForecastResult, ForecastError>) -> (r: String)
    ensures
        r@ == outcome_text(outcome_view(*outcome)),
{
    match outcome {
        Ok(f) => {
            let mut s = String::from_str("Forecast: ");
            s.append(f.headline_overview.as_str());
            s.append(" in ");
            s.append(f.resolved_location.as_str());
            s
        },
        Err(e) => {
            let mut s = String::from_str("Err: ");
            s.append(e.cause.as_str());
            s
        },
    }
}

/// The first parameter of `params` named `name`, if any.
pub fn first_param_named<'a>(params: &'a Vec<Param>, name: &String) -> (r: Option<&'a Param>)
    ensures
        match r {
            Some(p) => find_param(params@.map_values(|q: Param| q@), name@) == Some(p@),
            None => find_param(params@.map_values(|q: Param| q@), name@) is None,
        },
{
    let ghost all = params@.map_values(|q: Param| q@);
    let mut i: usize = 0;
    assert(all.subrange(0, all.len() as int) =~= all);
    while i < params.len()
        invariant
            0 <= i <= params.len(),
            all == params@.map_values(|q: Param| q@),
            find_param(all, name@) == find_param(all.subrange(i as int, all.len() as int), name@),
        decreases params.len() - i,
    {
        let p = &params[i];
        proof {
            let rest = all.subrange(i as int, all.len() as int);
            assert(rest[0] == p@);
            assert(rest.drop_first() =~= all.subrange(i + 1, all.len() as int));
        }
        if p.name == *name {
            return Some(p);
        }
        i = i + 1;
    }
    proof {
        assert(all.subrange(i as int, all.len() as int).len() == 0);
    }
    None
}

/// Decides what an invocation calls for: `hello` is answered at once;
/// `weather` with a text `place` asks for a forecast lookup of that place,
/// and without one is answered with an error; any other name is rejected.
pub fn plan(inv: &CommandInvocation) -> (r: Action)
    ensures
        r@ == plan_spec(inv@),
{
    match Command::parse(&inv.name) {
        Some(Command::Hello) => Action::Reply(String::from_str("Que pasa pinyas")),
        Some(Command::Weather) => {
            let key = String::from_str("place");
            match first_param_named(&inv.params, &key) {
                Some(p) => match &p.value {
                    Some(ParamValue::Text(place)) => Action::FetchForecast(place.clone()),
                    Some(_) => {
                        let mut s = String::from_str("Err: ");
                        s.append("parameter 'place' is not text");
                        Action::Reply(s)
                    },
                    None => {
                        let mut s = String::from_str("Err: ");
                        s.append("missing required parameter 'place'");
                        Action::Reply(s)
                    },
                },
                None => {
                    let mut s = String::from_str("Err: ");
                    s.append("missing required parameter 'place'");
                    Action::Reply(s)
                },
            }
        },
        None => Action::Reject(inv.name.clone()),
    }
}

/// Maps an invocation and the outcome of its forecast lookup to a reply.
/// The outcome is read only when the invocation asks for a lookup. An
/// unknown command gives `Err`, never a reply.
pub fn dispatch(inv: &CommandInvocation, outcome: &Result<ForecastResult, ForecastError>) -> (r:
    Result<String, DispatchError>)
    ensures
        r is Ok <==> dispatch_spec(inv@, outcome_view(*outcome)) is Some,
        r is Ok ==> Some(r->Ok_0@) == dispatch_spec(inv@, outcome_view(*outcome)),
        r is Err ==> match r->Err_0 {
            DispatchError::UnknownCommand(name) => name@ == inv.name@,
        },
{
    match plan(inv) {
        Action::Reply(text) => Ok(text),
        Action::FetchForecast(_) => Ok(forecast_reply(outcome)),
        Action::Reject(name) => Err(DispatchError::UnknownCommand(name)),
    }
}

/// `hello` is answered with the same greeting whatever parameters come with
/// it and whatever a forecast lookup would have returned.
pub proof fn lemma_hello_ignores_input(params: Seq<ParamView>, o: Result<ForecastView, Seq<char>>)
    ensures
        dispatch_spec(InvocationView { name: "hello"@, params }, o) == Some(hello_text()),
{
}

/// `weather` without a `place` value is answered with an error reply, and
/// no lookup is asked for.
pub proof fn lemma_missing_place_is_error_reply(
    params: Seq<ParamView>,
    o: Result<ForecastView, Seq<char>>,
)
    requires
        find_param(params, "place"@) is None || find_param(params, "place"@)->Some_0.value is None,
    ensures
        plan_spec(InvocationView { name: "weather"@, params }) == ActionView::Reply(
            error_text(missing_place_cause()),
        ),
        dispatch_spec(InvocationView { name: "weather"@, params }, o) == Some(
            error_text(missing_place_cause()),
        ),
{
    reveal_strlit("hello");
    reveal_strlit("weather");
    assert("weather"@ != "hello"@) by {
        assert("weather"@[0] != "hello"@[0]);
    }
}

/// Dispatch depends on the invocation and the lookup outcome alone: equal
/// inputs give equal replies. The outcome matters only when the invocation
/// asks for a lookup.
pub proof fn lemma_dispatch_deterministic(
    a: InvocationView,
    b: InvocationView,
    oa: Result<ForecastView, Seq<char>>,
    ob: Result<ForecastView, Seq<char>>,
)
    requires
        a == b,
        oa == ob || !(plan_spec(a) is FetchForecast),
    ensures
        dispatch_spec(a, oa) == dispatch_spec(b, ob),
{
}

/// A name is accepted by dispatch exactly when it is registered, and each
/// command is dispatched under the name it is registered with.
pub proof fn lemma_dispatch_matches_registry(name: Seq<char>, c: Command)
    ensures
        command_of(name) is Some <==> is_registered(name),
        is_registered(command_name(c)),
        command_of(command_name(c)) == Some(c),
{
    reveal_strlit("hello");
    reveal_strlit("weather");
    if command_of(name) is Some {
        if name == "hello"@ {
            assert(registry_spec()[0].name == name);
        } else {
            assert(registry_spec()[1].name == name);
        }
    }
    match c {
        Command::Hello => assert(registry_spec()[0].name == command_name(c)),
        Command::Weather => assert(registry_spec()[1].name == command_name(c)),
    }
}

/// An invocation of an unregistered command is rejected as an internal
/// error: it never yields a reply, whatever its parameters and outcome.
pub proof fn lemma_unregistered_is_rejected(inv: InvocationView, o: Result<ForecastView, Seq<char>>)
    requires
        !is_registered(inv.name),
    ensures
        plan_spec(inv) == ActionView::Reject(inv.name),
        dispatch_spec(inv, o) is None,
{
    lemma_dispatch_matches_registry(inv.name, Command::Hello);
}

} // verus!
