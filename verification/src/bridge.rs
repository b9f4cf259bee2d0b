//! The bridge's command table: the closed set of operations that the front-end
//! may call by name, the validation of a call's arguments, and the dispatch of
//! a call to the operation behind it.

use crate::greeting::{greet, greeting_text};
use crate::identity::{get_mac_address, is_address_text};
use crate::text::same_text;
use vstd::prelude::*;
use vstd::string::StringExecFns;

verus! {

/// An operation of the bridge.
#[derive(Clone, Copy, Debug, PartialEq, Eq)]
pub enum Command {
    /// The greeting echo.
    Greet,
    /// The lookup of the host's hardware address.
    GetMacAddress,
}

impl Command {
    /// The name under which the front-end calls this operation.
    pub open spec fn spec_name(self) -> Seq<char> {
        match self {
            Command::Greet => "greet"@,
            Command::GetMacAddress => "get_mac_address"@,
        }
    }

    /// The name under which the front-end calls this operation.
    pub fn name(self) -> (name: &'static str)
        ensures
            name@ == self.spec_name(),
    {
        match self {
            Command::Greet => "greet",
            Command::GetMacAddress => "get_mac_address",
        }
    }
}

/// The commands of the table, in the order of their registration.
pub open spec fn registered_commands() -> Seq<Command> {
    seq![Command::Greet, Command::GetMacAddress]
}

/// The command registered under `operation`, if there is one.
pub open spec fn find_command(operation: Seq<char>) -> Option<Command> {
    if operation == Command::Greet.spec_name() {
        Some(Command::Greet)
    } else if operation == Command::GetMacAddress.spec_name() {
        Some(Command::GetMacAddress)
    } else {
        None
    }
}

/// The table of commands. It is the same on every call: nothing is added or
/// removed after startup.
pub fn command_table() -> (table: Vec<Command>)
    ensures
        table@ == registered_commands(),
{
    let mut table: Vec<Command> = Vec::new();
    table.push(Command::Greet);
    table.push(Command::GetMacAddress);
    table
}

/// Looks `operation` up in the command table.
pub fn lookup_command(operation: &str) -> (found: Option<Command>)
    ensures
        found == find_command(operation@),
{
    let table = command_table();
    let mut at: usize = 0;
    while at < table.len()
        invariant
            at <= table.len(),
            table@ == registered_commands(),
            forall|k: int| 0 <= k < at ==> operation@ != (#[trigger] table@[k]).spec_name(),
        decreases table.len() - at,
    {
        let command = table[at];
        if same_text(operation, command.name()) {
            proof {
                lemma_command_names_unique(Command::Greet, Command::GetMacAddress);
            }
            return Some(command);
        }
        at = at + 1;
    }
    proof {
        assert(table@[0] == Command::Greet);
        assert(table@[1] == Command::GetMacAddress);
    }
    None
}

/// No two commands share a name.
pub proof fn lemma_command_names_unique(a: Command, b: Command)
    ensures
        a.spec_name() == b.spec_name() <==> a == b,
{
    reveal_strlit("greet");
    reveal_strlit("get_mac_address");
    assert("greet"@.len() == 5);
    assert("get_mac_address"@.len() == 15);
}

/// Every command is found under its own name, and only under it.
pub proof fn lemma_find_command_by_name(operation: Seq<char>, command: Command)
    ensures
        find_command(operation) == Some(command) <==> operation == command.spec_name(),
{
    lemma_command_names_unique(Command::Greet, Command::GetMacAddress);
    lemma_command_names_unique(Command::GetMacAddress, Command::Greet);
}

/// Every registered command is in the table exactly once.
pub proof fn lemma_table_is_total(command: Command)
    ensures
        exists|k: int|
            0 <= k < registered_commands().len() && #[trigger] registered_commands()[k] == command,
        forall|j: int, k: int|
            0 <= j < k < registered_commands().len() ==> registered_commands()[j]
                != registered_commands()[k],
{
    match command {
        Command::Greet => {
            assert(registered_commands()[0] == command);
        },
        Command::GetMacAddress => {
            assert(registered_commands()[1] == command);
        },
    }
}

/// A value of a call's argument payload, as far as the bridge reads it.
#[derive(Clone, Debug, PartialEq, Eq)]
pub enum Value {
    /// The null value.
    Null,
    /// A string.
    Text(String),
    /// Any other value: a number, a boolean, a list or an object.
    Other,
}

/// What a `Value` holds.
pub enum ValueView {
    Null,
    Text(Seq<char>),
    Other,
}

impl View for Value {
    type V = ValueView;

    open spec fn view(&self) -> ValueView {
        match self {
            Value::Null => ValueView::Null,
            Value::Text(text) => ValueView::Text(text@),
            Value::Other => ValueView::Other,
        }
    }
}

/// One named argument of a call.
#[derive(Clone, Debug, PartialEq, Eq)]
pub struct Field {
    pub key: String,
    pub value: Value,
}

impl View for Field {
    type V = (Seq<char>, ValueView);

    open spec fn view(&self) -> (Seq<char>, ValueView) {
        (self.key@, self.value@)
    }
}

/// The text that `payload` gives for `key`: the value of the first field of
/// that name, if it is a string.
pub open spec fn text_argument(payload: Seq<(Seq<char>, ValueView)>, key: Seq<char>) -> Option<
    Seq<char>,
>
    decreases payload.len(),
{
    if payload.len() == 0 {
        None
    } else if payload[0].0 == key {
        match payload[0].1 {
            ValueView::Text(text) => Some(text),
            _ => None,
        }
    } else {
        text_argument(payload.drop_first(), key)
    }
}

/// The views of the fields of a payload, in order.
pub open spec fn payload_view(payload: Seq<Field>) -> Seq<(Seq<char>, ValueView)> {
    payload.map_values(|field: Field| field@)
}

/// Finds the text that `payload` gives for `key`.
pub fn find_text_argument<'a>(payload: &'a Vec<Field>, key: &str) -> (found: Option<&'a str>)
    ensures
        found is Some <==> text_argument(payload_view(payload@), key@) is Some,
        found matches Some(text) ==> text_argument(payload_view(payload@), key@) == Some(text@),
{
    let ghost fields = payload_view(payload@);
    let mut at: usize = 0;
    assert(fields.skip(0) == fields);
    while at < payload.len()
        invariant
            at <= payload.len(),
            fields == payload_view(payload@),
            text_argument(fields, key@) == text_argument(fields.skip(at as int), key@),
        decreases payload.len() - at,
    {
        proof {
            assert(fields.skip(at as int)[0] == payload@[at as int]@);
            assert(fields.skip(at as int).drop_first() == fields.skip(at as int + 1));
        }
        let field = &payload[at];
        if same_text(field.key.as_str(), key) {
            return match &field.value {
                Value::Text(text) => Some(text.as_str()),
                _ => None,
            };
        }
        at = at + 1;
    }
    None
}

/// A structured failure: the name of its kind, and a message for the caller.
#[derive(Clone, Debug, PartialEq, Eq)]
pub struct Failure {
    pub name: String,
    pub message: String,
}

/// What a `Failure` holds.
pub struct FailureView {
    pub name: Seq<char>,
    pub message: Seq<char>,
}

impl View for Failure {
    type V = FailureView;

    open spec fn view(&self) -> FailureView {
        FailureView { name: self.name@, message: self.message@ }
    }
}

/// The failure for a call to a name that is not in the command table.
pub open spec fn unknown_operation(operation: Seq<char>) -> FailureView {
    FailureView { name: "UnknownOperation"@, message: "unknown operation: "@ + operation }
}

/// The failure for a call whose payload lacks the text argument `key`.
pub open spec fn invalid_arguments(operation: Seq<char>, key: Seq<char>) -> FailureView {
    FailureView {
        name: "InvalidArguments"@,
        message: "operation "@ + operation + " requires a text argument named "@ + key,
    }
}

/// Builds the failure for a call to an unregistered name.
pub fn unknown_operation_failure(operation: &str) -> (failure: Failure)
    ensures
        failure@ == unknown_operation(operation@),
{
    let name = String::from_str("UnknownOperation");
    let mut message = String::from_str("unknown operation: ");
    message.append(operation);
    Failure { name, message }
}

/// Builds the failure for a call that lacks the text argument `key`.
pub fn invalid_arguments_failure(operation: &str, key: &str) -> (failure: Failure)
    ensures
        failure@ == invalid_arguments(operation@, key@),
{
    let name = String::from_str("InvalidArguments");
    let mut message = String::from_str("operation ");
    message.append(operation);
    message.append(" requires a text argument named ");
    message.append(key);
    Failure { name, message }
}

/// A call that passed validation: the operation with its typed arguments.
#[derive(Clone, Debug, PartialEq, Eq)]
pub enum Request {
    Greet { name: String },
    GetMacAddress,
}

/// What a `Request` holds.
pub enum RequestView {
    Greet { name: Seq<char> },
    GetMacAddress,
}

impl View for Request {
    type V = RequestView;

    open spec fn view(&self) -> RequestView {
        match self {
            Request::Greet { name } => RequestView::Greet { name: name@ },
            Request::GetMacAddress => RequestView::GetMacAddress,
        }
    }
}

/// What the validation of a call comes to: the request that it stands for, or
/// the failure that the caller is given.
pub open spec fn parse_outcome(
    operation: Seq<char>,
    payload: Seq<(Seq<char>, ValueView)>,
) -> Result<RequestView, FailureView> {
    match find_command(operation) {
        None => Err(unknown_operation(operation)),
        Some(Command::Greet) => match text_argument(payload, "name"@) {
            Some(name) => Ok(RequestView::Greet { name }),
            None => Err(invalid_arguments(operation, "name"@)),
        },
        Some(Command::GetMacAddress) => Ok(RequestView::GetMacAddress),
    }
}

/// Validates a call: the operation must be registered, and the payload must
/// hold the arguments that the operation takes. Fields that the operation
/// does not take are ignored.
pub fn parse_request(operation: &str, payload: &Vec<Field>) -> (parsed: Result<Request, Failure>)
    ensures
        parsed matches Ok(request) ==> parse_outcome(operation@, payload_view(payload@)) == Ok::<
            RequestView,
            FailureView,
        >(request@),
        parsed matches Err(failure) ==> parse_outcome(operation@, payload_view(payload@)) == Err::<
            RequestView,
            FailureView,
        >(failure@),
{
    match lookup_command(operation) {
        None => Err(unknown_operation_failure(operation)),
        Some(Command::Greet) => match find_text_argument(payload, "name") {
            Some(name) => Ok(Request::Greet { name: String::from_str(name) }),
            None => Err(invalid_arguments_failure(operation, "name")),
        },
        Some(Command::GetMacAddress) => Ok(Request::GetMacAddress),
    }
}

/// The result of an operation: a string, or null.
#[derive(Clone, Debug, PartialEq, Eq)]
pub enum Reply {
    Text(String),
    Null,
}

impl View for Reply {
    type V = Option<Seq<char>>;

    open spec fn view(&self) -> Option<Seq<char>> {
        match self {
            Reply::Text(text) => Some(text@),
            Reply::Null => None,
        }
    }
}

/// The reply that carries a host identity: its text, or null where it is absent.
pub fn reply_of_identity(identity: Option<String>) -> (reply: Reply)
    ensures
        identity matches Some(text) ==> reply@ == Some(text@),
        identity is None ==> reply@ is None,
{
    match identity {
        Some(text) => Reply::Text(text),
        None => Reply::Null,
    }
}

/// Whether `reply` is one that `request` may be given. For a greeting there is
/// exactly one; for the host's address it is null or the text of an address.
pub open spec fn answers(request: RequestView, reply: Option<Seq<char>>) -> bool {
    match request {
        RequestView::Greet { name } => reply == Some(greeting_text(name)),
        RequestView::GetMacAddress => reply matches Some(text) ==> is_address_text(text),
    }
}

/// Performs the operation of a validated call.
pub fn handle(request: &Request) -> (reply: Reply)
    ensures
        answers(request@, reply@),
{
    match request {
        Request::Greet { name } => Reply::Text(greet(name.as_str())),
        Request::GetMacAddress => reply_of_identity(get_mac_address()),
    }
}

/// Handles one call of the front-end: validates it against the command table
/// and performs the operation. A call that fails validation is answered with a
/// structured failure and nothing is performed.
pub fn dispatch(operation: &str, payload: &Vec<Field>) -> (outcome: Result<Reply, Failure>)
    ensures
        outcome matches Ok(reply) ==> (parse_outcome(operation@, payload_view(payload@))
            matches Ok(request) && answers(request, reply@)),
        outcome matches Err(failure) ==> parse_outcome(operation@, payload_view(payload@)) == Err::<
            RequestView,
            FailureView,
        >(failure@),
{
    match parse_request(operation, payload) {
        Ok(request) => Ok(handle(&request)),
        Err(failure) => Err(failure),
    }
}

/// A call to a name that is not registered fails, whatever its payload, and
/// the failure has a name and a message that are not empty.
pub proof fn lemma_unregistered_name_fails(
    operation: Seq<char>,
    payload: Seq<(Seq<char>, ValueView)>,
)
    requires
        forall|command: Command| operation != #[trigger] command.spec_name(),
    ensures
        parse_outcome(operation, payload) == Err::<RequestView, FailureView>(
            unknown_operation(operation),
        ),
        unknown_operation(operation).name.len() > 0,
        unknown_operation(operation).message.len() > 0,
{
    assert(operation != Command::Greet.spec_name());
    assert(operation != Command::GetMacAddress.spec_name());
    reveal_strlit("UnknownOperation");
    reveal_strlit("unknown operation: ");
}

/// Every failure that validation gives has a name and a message that are not
/// empty.
pub proof fn lemma_failures_are_described(
    operation: Seq<char>,
    payload: Seq<(Seq<char>, ValueView)>,
)
    ensures
        parse_outcome(operation, payload) matches Err(failure) ==> failure.name.len() > 0
            && failure.message.len() > 0,
{
    reveal_strlit("UnknownOperation");
    reveal_strlit("unknown operation: ");
    reveal_strlit("InvalidArguments");
    reveal_strlit("operation ");
}

} // verus!
