//! The declared shape of each operation: its name, what it is for, and the
//! parameters it takes.

use vstd::prelude::*;

verus! {

/// The operations that the service offers.
#[derive(Clone, Copy, Debug, PartialEq, Eq, Structural)]
pub enum Operation {
    AddTask,
    CompleteTask,
    ListTasks,
    GetTask,
}

/// The kind of value that a parameter takes.
#[derive(Clone, Copy, Debug, PartialEq, Eq, Structural)]
pub enum ParamKind {
    /// A string.
    Text,
    /// An integer from 0 to `u64::MAX`.
    Unsigned,
}

/// One declared parameter of an operation.
#[derive(Debug)]
pub struct ParamSpec {
    pub name: String,
    pub description: String,
    pub kind: ParamKind,
    pub required: bool,
}

/// What a [`ParamSpec`] holds, as plain mathematical values.
pub struct ParamSpecView {
    pub name: Seq<char>,
    pub description: Seq<char>,
    pub kind: ParamKind,
    pub required: bool,
}

impl View for ParamSpec {
    type V = ParamSpecView;

    open spec fn view(&self) -> ParamSpecView {
        ParamSpecView {
            name: self.name@,
            description: self.description@,
            kind: self.kind,
            required: self.required,
        }
    }
}

/// The views of a list of declared parameters, in the same order.
pub open spec fn param_views(params: Seq<ParamSpec>) -> Seq<ParamSpecView> {
    Seq::new(params.len(), |i: int| params[i]@)
}

/// One row of the operation table: the name under which an operation is
/// invoked, what it is for, the parameters it takes, and the operation
/// that handles it.
#[derive(Debug)]
pub struct Tool {
    pub name: String,
    pub description: String,
    pub params: Vec<ParamSpec>,
    pub operation: Operation,
}

/// What a [`Tool`] holds, as plain mathematical values.
pub struct ToolView {
    pub name: Seq<char>,
    pub description: Seq<char>,
    pub params: Seq<ParamSpecView>,
    pub operation: Operation,
}

impl View for Tool {
    type V = ToolView;

    open spec fn view(&self) -> ToolView {
        ToolView {
            name: self.name@,
            description: self.description@,
            params: param_views(self.params@),
            operation: self.operation,
        }
    }
}

/// The views of a list of rows, in the same order.
pub open spec fn tool_views(tools: Seq<Tool>) -> Seq<ToolView> {
    Seq::new(tools.len(), |i: int| tools[i]@)
}

/// The required text parameter `title` of an addition.
pub open spec fn title_param() -> ParamSpecView {
    ParamSpecView {
        name: "title"@,
        description: "The title of the task"@,
        kind: ParamKind::Text,
        required: true,
    }
}

/// The optional text parameter `description` of an addition.
pub open spec fn description_param() -> ParamSpecView {
    ParamSpecView {
        name: "description"@,
        description: "A detailed description of the task"@,
        kind: ParamKind::Text,
        required: false,
    }
}

/// The required identifier parameter `id`, with the given explanation.
pub open spec fn id_param(description: Seq<char>) -> ParamSpecView {
    ParamSpecView { name: "id"@, description, kind: ParamKind::Unsigned, required: true }
}

impl Operation {
    /// The name under which the operation is invoked.
    pub open spec fn name(self) -> Seq<char> {
        match self {
            Operation::AddTask => "add_task"@,
            Operation::CompleteTask => "complete_task"@,
            Operation::ListTasks => "list_tasks"@,
            Operation::GetTask => "get_task"@,
        }
    }

    /// What the operation is for.
    pub open spec fn description(self) -> Seq<char> {
        match self {
            Operation::AddTask => "Add a new task to the task manager"@,
            Operation::CompleteTask => "Mark a task as completed"@,
            Operation::ListTasks => "List all tasks in the task manager"@,
            Operation::GetTask => "Get a specific task by ID"@,
        }
    }

    /// The parameters that the operation takes.
    pub open spec fn params(self) -> Seq<ParamSpecView> {
        match self {
            Operation::AddTask => seq![title_param(), description_param()],
            Operation::CompleteTask => seq![
                id_param("The ID of the task to mark as completed"@),
            ],
            Operation::ListTasks => Seq::empty(),
            Operation::GetTask => seq![id_param("The ID of the task to retrieve"@)],
        }
    }

    /// The row of the operation table that declares the operation.
    pub open spec fn row(self) -> ToolView {
        ToolView {
            name: self.name(),
            description: self.description(),
            params: self.params(),
            operation: self,
        }
    }

    /// Builds the row of the operation table that declares the operation.
    pub fn tool(self) -> (tool: Tool)
        ensures
            tool@ == self.row(),
    {
        let mut params: Vec<ParamSpec> = Vec::new();
        let (name, description) = match self {
            Operation::AddTask => {
                params.push(
                    ParamSpec {
                        name: "title".to_owned(),
                        description: "The title of the task".to_owned(),
                        kind: ParamKind::Text,
                        required: true,
                    },
                );
                params.push(
                    ParamSpec {
                        name: "description".to_owned(),
                        description: "A detailed description of the task".to_owned(),
                        kind: ParamKind::Text,
                        required: false,
                    },
                );
                ("add_task", "Add a new task to the task manager")
            },
            Operation::CompleteTask => {
                params.push(
                    ParamSpec {
                        name: "id".to_owned(),
                        description: "The ID of the task to mark as completed".to_owned(),
                        kind: ParamKind::Unsigned,
                        required: true,
                    },
                );
                ("complete_task", "Mark a task as completed")
            },
            Operation::ListTasks => ("list_tasks", "List all tasks in the task manager"),
            Operation::GetTask => {
                params.push(
                    ParamSpec {
                        name: "id".to_owned(),
                        description: "The ID of the task to retrieve".to_owned(),
                        kind: ParamKind::Unsigned,
                        required: true,
                    },
                );
                ("get_task", "Get a specific task by ID")
            },
        };
        let tool = Tool {
            name: name.to_owned(),
            description: description.to_owned(),
            params,
            operation: self,
        };
        assert(tool@.params =~= self.params());
        tool
    }
}

} // verus!
