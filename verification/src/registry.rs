//! The operation registry: a table of named operations, the validation of
//! loosely typed parameters against the shape that a row declares, and the
//! dispatch of an invocation to the task store.
//!
//! Dispatch is driven by the table alone: it finds the row by name, checks
//! the parameters that the row declares, and hands the typed request to
//! [`perform`]. A failed lookup or validation never reaches the store.

use vstd::prelude::*;
use vstd::pervasive::unreached;
use vstd::string::StringExecFns;
use crate::error::{ErrorKind, ErrorView, ServiceError};
use crate::params::{entries, entry, field_view, read_field, Field, FieldView};
use crate::request::{
    answer_view, perform, Envelope, EnvelopeView, PayloadView, Request, RequestView,
};
use crate::store::{Mutation, StoreView, TaskStore};
use crate::tool::{tool_views, Operation, ParamKind, ParamSpec, ParamSpecView, Tool, ToolView};

verus! {

/// Whether a parameter of kind `kind` accepts `value`.
pub open spec fn admits(kind: ParamKind, value: FieldView) -> bool {
    match kind {
        ParamKind::Text => value is Text,
        ParamKind::Unsigned => value matches FieldView::Number(Some(_)),
    }
}

/// The complaint about a required parameter that is absent.
pub open spec fn missing_field(name: Seq<char>) -> Seq<char> {
    "missing field `"@ + name + "`"@
}

/// The complaint about a parameter whose value is not of the declared kind.
pub open spec fn wrong_kind(name: Seq<char>, kind: ParamKind) -> Seq<char> {
    match kind {
        ParamKind::Text => "field `"@ + name + "` must be a string"@,
        ParamKind::Unsigned => "field `"@ + name + "` must be an unsigned integer"@,
    }
}

/// What is wrong with `found` as the value of `param`, if anything: a
/// required parameter is absent, or a value is not of the declared kind.
pub open spec fn violation(param: ParamSpecView, found: Option<FieldView>) -> Option<Seq<char>> {
    match found {
        None => if param.required {
            Some(missing_field(param.name))
        } else {
            None
        },
        Some(value) => if admits(param.kind, value) {
            None
        } else {
            Some(wrong_kind(param.name, param.kind))
        },
    }
}

/// The failure that reports malformed parameters.
pub open spec fn invalid_params(complaint: Seq<char>) -> ErrorView {
    ErrorView { kind: ErrorKind::InvalidParams, reason: "invalid parameters: "@ + complaint }
}

/// The failure that reports an operation name that no row declares.
pub open spec fn unknown_tool() -> ErrorView {
    ErrorView { kind: ErrorKind::InvalidParams, reason: "tool not found"@ }
}

/// Checks one value against the parameter it was supplied for.
pub fn check_field(param: &ParamSpec, found: &Option<Field>) -> (r: Result<(), ServiceError>)
    ensures
        match violation(param@, field_view(*found)) {
            Some(complaint) => r is Err && r->Err_0@ == invalid_params(complaint),
            None => r is Ok,
        },
{
    let fits = match found {
        None => !param.required,
        Some(Field::Text(_)) => match param.kind {
            ParamKind::Text => true,
            ParamKind::Unsigned => false,
        },
        Some(Field::Number(Some(_))) => match param.kind {
            ParamKind::Text => false,
            ParamKind::Unsigned => true,
        },
        Some(_) => false,
    };
    if fits {
        return Ok(());
    }
    let mut reason = "invalid parameters: ".to_owned();
    match found {
        None => {
            reason.append("missing field `");
            reason.append(param.name.as_str());
            reason.append("`");
            proof {
                assert(reason@ =~= "invalid parameters: "@ + missing_field(param@.name));
            }
        },
        Some(_) => {
            reason.append("field `");
            reason.append(param.name.as_str());
            match param.kind {
                ParamKind::Text => {
                    reason.append("` must be a string");
                },
                ParamKind::Unsigned => {
                    reason.append("` must be an unsigned integer");
                },
            }
            proof {
                assert(reason@ =~= "invalid parameters: "@ + wrong_kind(
                    param@.name,
                    param@.kind,
                ));
            }
        },
    }
    Err(ServiceError::new(ErrorKind::InvalidParams, reason))
}

/// The complaint about the first of the parameters `params[from..]` that
/// the arguments `args` violate, if they violate any.
pub open spec fn first_violation(
    params: Seq<ParamSpecView>,
    args: Map<Seq<char>, FieldView>,
    from: int,
) -> Option<Seq<char>>
    decreases params.len() - from,
{
    if from < 0 || from >= params.len() {
        None
    } else {
        match violation(params[from], entry(args, params[from].name)) {
            Some(complaint) => Some(complaint),
            None => first_violation(params, args, from + 1),
        }
    }
}

/// The text supplied under `key`; empty if there is none.
pub open spec fn text_arg(args: Map<Seq<char>, FieldView>, key: Seq<char>) -> Seq<char> {
    match entry(args, key) {
        Some(FieldView::Text(text)) => text,
        _ => Seq::empty(),
    }
}

/// The number supplied under `key`; 0 if there is none.
pub open spec fn unsigned_arg(args: Map<Seq<char>, FieldView>, key: Seq<char>) -> nat {
    match entry(args, key) {
        Some(FieldView::Number(Some(n))) => n as nat,
        _ => 0,
    }
}

impl Operation {
    /// The typed request that valid arguments `args` make for the
    /// operation. A description that is not supplied is the empty text.
    pub open spec fn request(self, args: Map<Seq<char>, FieldView>) -> RequestView {
        match self {
            Operation::AddTask => RequestView::AddTask {
                title: text_arg(args, "title"@),
                description: text_arg(args, "description"@),
            },
            Operation::CompleteTask => RequestView::CompleteTask { id: unsigned_arg(args, "id"@) },
            Operation::ListTasks => RequestView::ListTasks,
            Operation::GetTask => RequestView::GetTask { id: unsigned_arg(args, "id"@) },
        }
    }

    /// What validation makes of the arguments `args`: a typed request, or
    /// the failure that reports the first violated parameter.
    pub open spec fn decoded(self, args: Map<Seq<char>, FieldView>) -> Result<
        RequestView,
        ErrorView,
    > {
        match first_violation(self.params(), args, 0) {
            Some(complaint) => Err(invalid_params(complaint)),
            None => Ok(self.request(args)),
        }
    }
}

/// The view of a decoding result: that of the request, or that of the
/// failure.
pub open spec fn decoding_view(decoding: Result<Request, ServiceError>) -> Result<
    RequestView,
    ErrorView,
> {
    match decoding {
        Ok(request) => Ok(request@),
        Err(error) => Err(error@),
    }
}

/// Builds the typed request from the values found for the parameters of
/// `operation`, in the declared order.
fn bind(
    operation: Operation,
    fields: Vec<Option<Field>>,
    Ghost(args): Ghost<Map<Seq<char>, FieldView>>,
) -> (request: Request)
    requires
        fields@.len() == operation.params().len(),
        forall|j: int|
            0 <= j < fields@.len() ==> field_view(#[trigger] fields@[j]) == entry(
                args,
                operation.params()[j].name,
            ),
        forall|j: int|
            0 <= j < fields@.len() ==> violation(
                operation.params()[j],
                field_view(#[trigger] fields@[j]),
            ) is None,
    ensures
        request@ == operation.request(args),
{
    let mut fields = fields;
    match operation {
        Operation::AddTask => {
            let description = match fields.pop() {
                Some(Some(Field::Text(text))) => text,
                _ => String::new(),
            };
            let title = match fields.pop() {
                Some(Some(Field::Text(text))) => text,
                _ => unreached(),
            };
            Request::AddTask { title, description }
        },
        Operation::CompleteTask => {
            let id = match fields.pop() {
                Some(Some(Field::Number(Some(id)))) => id,
                _ => unreached(),
            };
            Request::CompleteTask { id }
        },
        Operation::ListTasks => Request::ListTasks,
        Operation::GetTask => {
            let id = match fields.pop() {
                Some(Some(Field::Number(Some(id)))) => id,
                _ => unreached(),
            };
            Request::GetTask { id }
        },
    }
}

/// Validates the parameters in `doc` against the shape that `tool`
/// declares and builds the typed request.
///
/// The declared parameters are checked in their declared order, and the
/// first one that is violated is reported. Entries of `doc` that the row
/// does not declare are ignored.
pub fn decode(tool: &Tool, doc: &serde_json::Map<String, serde_json::Value>) -> (decoding: Result<
    Request,
    ServiceError,
>)
    requires
        tool@ == tool.operation.row(),
    ensures
        decoding_view(decoding) == tool.operation.decoded(entries(*doc)),
{
    let ghost args = entries(*doc);
    let ghost params = tool.operation.params();
    let mut fields: Vec<Option<Field>> = Vec::new();
    let mut i: usize = 0;
    while i < tool.params.len()
        invariant
            tool@ == tool.operation.row(),
            params == tool.operation.params(),
            args == entries(*doc),
            i <= tool.params.len(),
            tool.params@.len() == params.len(),
            fields@.len() == i,
            forall|j: int|
                0 <= j < i ==> field_view(#[trigger] fields@[j]) == entry(args, params[j].name),
            forall|j: int|
                0 <= j < i ==> violation(params[j], field_view(#[trigger] fields@[j])) is None,
            first_violation(params, args, 0) == first_violation(params, args, i as int),
        decreases tool.params.len() - i,
    {
        let found = read_field(doc, tool.params[i].name.as_str());
        match check_field(&tool.params[i], &found) {
            Ok(()) => {},
            Err(error) => {
                return Err(error);
            },
        }
        fields.push(found);
        i = i + 1;
    }
    Ok(bind(tool.operation, fields, Ghost(args)))
}

/// The position of the first row from `from` on whose name is `name`.
pub open spec fn resolve(tools: Seq<ToolView>, name: Seq<char>, from: int) -> Option<int>
    decreases tools.len() - from,
{
    if from < 0 || from >= tools.len() {
        None
    } else if tools[from].name == name {
        Some(from)
    } else {
        resolve(tools, name, from + 1)
    }
}

/// The rows of the table that the service offers.
pub open spec fn standard_tools() -> Seq<ToolView> {
    seq![
        Operation::AddTask.row(),
        Operation::CompleteTask.row(),
        Operation::ListTasks.row(),
        Operation::GetTask.row(),
    ]
}

/// What the table `tools` makes of an invocation of `name` with the
/// arguments `args`: the typed request of the first row of that name, or
/// the failure that says why there is none.
pub open spec fn routed(tools: Seq<ToolView>, name: Seq<char>, args: Map<Seq<char>, FieldView>)
    -> Result<RequestView, ErrorView> {
    match resolve(tools, name, 0) {
        Some(i) => tools[i].operation.decoded(args),
        None => Err(unknown_tool()),
    }
}

/// The state in which an invocation leaves a store that was in state `s`.
pub open spec fn call_effect(
    tools: Seq<ToolView>,
    s: StoreView,
    name: Seq<char>,
    args: Map<Seq<char>, FieldView>,
) -> StoreView {
    match routed(tools, name, args) {
        Ok(request) => request.effect(s),
        Err(_) => s,
    }
}

/// The answer to an invocation from a store in state `s`.
pub open spec fn call_outcome(
    tools: Seq<ToolView>,
    s: StoreView,
    name: Seq<char>,
    args: Map<Seq<char>, FieldView>,
) -> Result<EnvelopeView, ErrorView> {
    match routed(tools, name, args) {
        Ok(request) => request.outcome(s),
        Err(error) => Err(error),
    }
}

/// In the table that the service offers, every operation is found under
/// its own name, so an invocation by that name is validated against the
/// parameters of that operation.
pub proof fn lemma_standard_names(operation: Operation, args: Map<Seq<char>, FieldView>)
    ensures
        resolve(standard_tools(), operation.name(), 0) is Some,
        standard_tools()[resolve(standard_tools(), operation.name(), 0)->Some_0].operation
            == operation,
        routed(standard_tools(), operation.name(), args) == operation.decoded(args),
{
    reveal_with_fuel(resolve, 5);
    reveal_strlit("add_task");
    reveal_strlit("complete_task");
    reveal_strlit("list_tasks");
    reveal_strlit("get_task");
    assert("add_task"@[0] == 'a');
    assert("get_task"@[0] == 'g');
    assert("complete_task"@.len() == 13);
}

/// The change that an invocation asks of the store, if it asks for one.
pub open spec fn call_mutation(
    tools: Seq<ToolView>,
    name: Seq<char>,
    args: Map<Seq<char>, FieldView>,
) -> Option<Mutation> {
    match routed(tools, name, args) {
        Ok(request) => request.mutation(),
        Err(_) => None,
    }
}

/// Whatever is invoked, the store moves by one mutation at most, so a
/// sequence of invocations, from whichever sessions they come, takes the
/// store through a history. An invocation answers with a created task
/// exactly when its mutation is an accepted addition, and the task then
/// carries the identifier that the history hands out for it.
pub proof fn lemma_call_is_a_step(
    tools: Seq<ToolView>,
    s: StoreView,
    name: Seq<char>,
    args: Map<Seq<char>, FieldView>,
)
    ensures
        call_effect(tools, s, name, args) == match call_mutation(tools, name, args) {
            Some(m) => s.step(m),
            None => s,
        },
        (call_outcome(tools, s, name, args) matches Ok(answer) && answer.payload is Created) <==> (
        call_mutation(tools, name, args) matches Some(m) && m.adds()),
        match call_outcome(tools, s, name, args) {
            Ok(answer) => match answer.payload {
                PayloadView::Created(task) => task.id == s.next_id,
                _ => true,
            },
            Err(_) => true,
        },
{
}

/// An invocation that fails leaves the store as it was, whatever the
/// table, the name and the arguments: a failure is never half an effect.
pub proof fn lemma_failure_keeps_store(
    tools: Seq<ToolView>,
    s: StoreView,
    name: Seq<char>,
    args: Map<Seq<char>, FieldView>,
)
    ensures
        call_outcome(tools, s, name, args) is Err ==> call_effect(tools, s, name, args) == s,
{
}

/// An invocation whose parameters are malformed, or whose name no row
/// declares, fails as invalid parameters before any handler is reached.
pub proof fn lemma_malformed_never_dispatched(
    tools: Seq<ToolView>,
    s: StoreView,
    name: Seq<char>,
    args: Map<Seq<char>, FieldView>,
)
    requires
        routed(tools, name, args) is Err,
    ensures
        call_outcome(tools, s, name, args) is Err,
        call_outcome(tools, s, name, args)->Err_0.kind == ErrorKind::InvalidParams,
        call_effect(tools, s, name, args) == s,
{
}

/// An addition with an empty title fails, as an invalid argument or, if
/// the description is malformed, as invalid parameters. Either way the
/// store and its counter stay as they were, so the next task receives the
/// identifier that it would have received without the failed request.
pub proof fn lemma_empty_title_rejected(s: StoreView, args: Map<Seq<char>, FieldView>)
    requires
        entry(args, "title"@) == Some(FieldView::Text(Seq::empty())),
    ensures
        call_outcome(standard_tools(), s, "add_task"@, args) is Err,
        call_outcome(standard_tools(), s, "add_task"@, args)->Err_0.kind == (if violation(
            crate::tool::description_param(),
            entry(args, "description"@),
        ) is Some {
            ErrorKind::InvalidParams
        } else {
            ErrorKind::InvalidArgument
        }),
        call_effect(standard_tools(), s, "add_task"@, args) == s,
        call_effect(standard_tools(), s, "add_task"@, args).next_id == s.next_id,
{
    reveal_with_fuel(first_violation, 3);
}

/// Whether every row of `tools` declares the operation that handles it.
pub open spec fn well_declared(tools: Seq<ToolView>) -> bool {
    forall|i: int| 0 <= i < tools.len() ==> (#[trigger] tools[i]) == tools[i].operation.row()
}

/// The table of operations.
pub struct Registry {
    tools: Vec<Tool>,
}

impl View for Registry {
    type V = Seq<ToolView>;

    closed spec fn view(&self) -> Seq<ToolView> {
        tool_views(self.tools@)
    }
}

impl Registry {
    /// Every row declares the operation that handles it.
    pub open spec fn wf(&self) -> bool {
        well_declared(self@)
    }

    /// A table without rows: every invocation fails as not found.
    pub fn empty() -> (registry: Registry)
        ensures
            registry.wf(),
            registry@ == Seq::<ToolView>::empty(),
    {
        let registry = Registry { tools: Vec::new() };
        assert(registry@ =~= Seq::empty());
        registry
    }

    /// Adds the row that declares `operation` at the end of the table.
    ///
    /// Dispatch needs nothing else to know of the operation. Of two rows
    /// with one name the earlier one is found.
    pub fn register(&mut self, operation: Operation)
        requires
            old(self).wf(),
        ensures
            final(self).wf(),
            final(self)@ == old(self)@.push(operation.row()),
    {
        self.tools.push(operation.tool());
        assert(self@ =~= old(self)@.push(operation.row()));
    }

    /// The table with one row for each operation of the service.
    pub fn new() -> (registry: Registry)
        ensures
            registry.wf(),
            registry@ == standard_tools(),
    {
        let mut registry = Registry::empty();
        registry.register(Operation::AddTask);
        registry.register(Operation::CompleteTask);
        registry.register(Operation::ListTasks);
        registry.register(Operation::GetTask);
        assert(registry@ =~= standard_tools());
        registry
    }

    /// The rows of the table, for advertising them to clients.
    pub fn tools(&self) -> (tools: &Vec<Tool>)
        ensures
            tool_views(tools@) == self@,
    {
        &self.tools
    }

    /// The position of the first row whose name is `name`.
    pub fn find(&self, name: &str) -> (position: Option<usize>)
        ensures
            match position {
                Some(i) => resolve(self@, name@, 0) == Some(i as int) && i < self@.len(),
                None => resolve(self@, name@, 0) is None,
            },
    {
        let wanted = name.to_owned();
        let mut i: usize = 0;
        while i < self.tools.len()
            invariant
                wanted@ == name@,
                i <= self.tools.len(),
                resolve(self@, name@, 0) == resolve(self@, name@, i as int),
            decreases self.tools.len() - i,
        {
            if self.tools[i].name == wanted {
                return Some(i);
            }
            i = i + 1;
        }
        None
    }

    /// Invokes the operation `name` with the parameters `doc` on `store`.
    ///
    /// Fails as invalid parameters, without touching the store, if no row
    /// has that name or if `doc` violates a parameter that the row
    /// declares. Otherwise the typed request is performed, and a failure
    /// of the store is passed on as it is.
    pub fn call(
        &self,
        store: &mut TaskStore,
        name: &str,
        doc: &serde_json::Map<String, serde_json::Value>,
    ) -> (answer: Result<Envelope, ServiceError>)
        requires
            self.wf(),
            old(store)@.wf(),
            old(store)@.next_id < u64::MAX,
        ensures
            final(store)@.wf(),
            final(store)@ == call_effect(self@, old(store)@, name@, entries(*doc)),
            answer_view(answer) == call_outcome(self@, old(store)@, name@, entries(*doc)),
    {
        match self.find(name) {
            Some(i) => {
                let decoding = decode(&self.tools[i], doc);
                match decoding {
                    Ok(request) => perform(store, request),
                    Err(error) => Err(error),
                }
            },
            None => Err(ServiceError::new(ErrorKind::InvalidParams, "tool not found".to_owned())),
        }
    }
}

} // verus!
