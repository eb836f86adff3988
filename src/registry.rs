//! The commands the bot offers to the gateway at startup.

use vstd::prelude::*;
use vstd::string::StringExecFns;

verus! {

/// The type of value a command parameter accepts.
#[derive(Clone, Copy, Debug, PartialEq, Eq, Structural)]
pub enum ParamKind {
    Text,
    Integer,
    Boolean,
}

/// One parameter of a command, as shown to users.
#[derive(Clone, Debug)]
pub struct ParamSpec {
    pub name: String,
    pub description: String,
    pub kind: ParamKind,
    pub required: bool,
}

/// A command as submitted to the gateway: its name, its description and its
/// parameters, in order.
#[derive(Clone, Debug)]
pub struct CommandSpec {
    pub name: String,
    pub description: String,
    pub params: Vec<ParamSpec>,
}

/// Mathematical model of a `ParamSpec`.
pub struct ParamSpecView {
    pub name: Seq<char>,
    pub description: Seq<char>,
    pub kind: ParamKind,
    pub required: bool,
}

/// Mathematical model of a `CommandSpec`.
pub struct CommandSpecView {
    pub name: Seq<char>,
    pub description: Seq<char>,
    pub params: Seq<ParamSpecView>,
}

impl View for ParamSpec {
    type V = ParamSpecView;

    open spec fn view(&self) -> ParamSpecView {
        ParamSpecView {
            name: self.name@,
            description: self.description@,
            kind: self.kind,
            required: self.required,
        }
    }
}

impl View for CommandSpec {
    type V = CommandSpecView;

    open spec fn view(&self) -> CommandSpecView {
        CommandSpecView {
            name: self.name@,
            description: self.description@,
            params: self.params@.map_values(|p: ParamSpec| p@),
        }
    }
}

pub open spec fn hello_spec() -> CommandSpecView {
    CommandSpecView {
        name: "hello"@,
        description: "Que pasa pinyas!"@,
        params: Seq::empty(),
    }
}

pub open spec fn place_param_spec() -> ParamSpecView {
    ParamSpecView {
        name: "place"@,
        description: "City to lookup forecast"@,
        kind: ParamKind::Text,
        required: true,
    }
}

pub open spec fn weather_spec() -> CommandSpecView {
    CommandSpecView {
        name: "weather"@,
        description: "Display the weather"@,
        params: seq![place_param_spec()],
    }
}

/// The full set of commands, in registration order.
pub open spec fn registry_spec() -> Seq<CommandSpecView> {
    seq![hello_spec(), weather_spec()]
}

/// True when some registered command carries this name.
pub open spec fn is_registered(name: Seq<char>) -> bool {
    exists|i: int| 0 <= i < registry_spec().len() && #[trigger] registry_spec()[i].name == name
}

/// Builds the commands to register with the gateway: `hello`, with no
/// parameters, and `weather`, with one required text parameter `place`.
pub fn command_specs() -> (r: Vec<CommandSpec>)
    ensures
        r@.map_values(|c: CommandSpec| c@) == registry_spec(),
{
    let hello = CommandSpec {
        name: String::from_str("hello"),
        description: String::from_str("Que pasa pinyas!"),
        params: Vec::new(),
    };
    let place = ParamSpec {
        name: String::from_str("place"),
        description: String::from_str("City to lookup forecast"),
        kind: ParamKind::Text,
        required: true,
    };
    let mut params: Vec<ParamSpec> = Vec::new();
    params.push(place);
    let weather = CommandSpec {
        name: String::from_str("weather"),
        description: String::from_str("Display the weather"),
        params,
    };
    let mut r: Vec<CommandSpec> = Vec::new();
    r.push(hello);
    r.push(weather);
    proof {
        assert(r@[0]@.params =~= Seq::<ParamSpecView>::empty());
        assert(r@[1]@.params =~= seq![place_param_spec()]);
        assert(r@.map_values(|c: CommandSpec| c@) =~= registry_spec());
    }
    r
}

/// There are exactly two commands, `hello` and `weather`, with distinct
/// names; `hello` takes no parameters and `weather` takes exactly one, a
/// required text parameter named `place`.
pub proof fn lemma_registry_shape()
    ensures
        registry_spec().len() == 2,
        registry_spec()[0].name == "hello"@,
        registry_spec()[0].params.len() == 0,
        registry_spec()[1].name == "weather"@,
        registry_spec()[1].params.len() == 1,
        registry_spec()[1].params[0].name == "place"@,
        registry_spec()[1].params[0].kind == ParamKind::Text,
        registry_spec()[1].params[0].required,
        registry_spec()[0].name != registry_spec()[1].name,
{
    reveal_strlit("hello");
    reveal_strlit("weather");
}

} // verus!
