//! The todo tool: a list of tasks that the model keeps up to date.

use vstd::prelude::*;
use vstd::string::StringExecFns;
use crate::json::{
    array_member, array_member_len, bool_member, get_array_len, get_bool, get_elements,
    get_optional_str, get_str, get_u64, json_parsed, optional_string_member, parse, string_member,
    u64_member,
};
use crate::llm::types::{
    clone_opt_string, lemma_deep_view_push, CustomTool, CustomToolView, ToolDefinition,
    ToolDefinitionView, ToolInputSchema, ToolInputSchemaView,
};
use crate::text::{concat3, decimal, u64_to_string, usize_to_string};
use crate::tools::tool::{Tool, ToolInfo, ToolInfoView, ToolResult, ToolResultDataView, ToolResultView};

verus! {

/// A single todo item.
#[derive(Debug)]
pub struct TodoItem {
    /// Index of the item.
    pub index: u32,
    /// Whether the task is completed.
    pub completed: bool,
    /// The task description.
    pub task: String,
    /// Optional additional details.
    pub additional_details: Option<String>,
}

/// The model of a [`TodoItem`].
pub ghost struct TodoItemView {
    pub index: u32,
    pub completed: bool,
    pub task: Seq<char>,
    pub additional_details: Option<Seq<char>>,
}

impl DeepView for TodoItem {
    type V = TodoItemView;

    open spec fn deep_view(&self) -> TodoItemView {
        TodoItemView {
            index: self.index,
            completed: self.completed,
            task: self.task@,
            additional_details: self.additional_details.deep_view(),
        }
    }
}

impl Clone for TodoItem {
    fn clone(&self) -> (r: Self)
        ensures
            r.deep_view() == self.deep_view(),
    {
        TodoItem {
            index: self.index,
            completed: self.completed,
            task: self.task.clone(),
            additional_details: clone_opt_string(&self.additional_details),
        }
    }
}

/// A todo list.
#[derive(Debug)]
pub struct TodoList {
    pub items: Vec<TodoItem>,
}

impl DeepView for TodoList {
    type V = Seq<TodoItemView>;

    open spec fn deep_view(&self) -> Seq<TodoItemView> {
        self.items.deep_view()
    }
}

/// A new, empty todo list.
pub fn new_todo_list() -> (r: TodoList)
    ensures
        r.deep_view() == Seq::<TodoItemView>::empty(),
{
    let r = TodoList { items: Vec::new() };
    proof {
        assert(r.items.deep_view() =~= Seq::empty());
    }
    r
}

/// The lines that show one item: its mark, index and task, and its details
/// on a line of their own where it has any.
pub open spec fn item_text(item: TodoItemView) -> Seq<char> {
    let mark = if item.completed {
        "[x]"@
    } else {
        "[ ]"@
    };
    let line = "  "@ + mark + " "@ + decimal(item.index as nat) + ". "@ + item.task + "\n"@;
    match item.additional_details {
        Some(details) => line + "      Details: "@ + details + "\n"@,
        None => line,
    }
}

/// The lines that show the items, in order.
pub open spec fn items_text(items: Seq<TodoItemView>) -> Seq<char>
    decreases items.len(),
{
    if items.len() == 0 {
        Seq::empty()
    } else {
        items_text(items.drop_last()) + item_text(items.last())
    }
}

/// The todo list as text.
pub open spec fn todos_text(items: Seq<TodoItemView>) -> Seq<char> {
    if items.len() == 0 {
        "No tasks in the todo list."@
    } else {
        "Todo List:\n"@ + items_text(items)
    }
}

/// The item that a JSON value describes: an object with an index that fits
/// 32 bits, a completion flag, a task, and details that may be left out.
pub open spec fn todo_item_of(value: serde_json::Value) -> Option<TodoItemView> {
    match (
        u64_member(value, "index"@),
        bool_member(value, "completed"@),
        string_member(value, "task"@),
        optional_string_member(value, "additional_details"@),
    ) {
        (Some(index), Some(completed), Some(task), Some(details)) => if index <= u32::MAX {
            Some(
                TodoItemView {
                    index: index as u32,
                    completed,
                    task,
                    additional_details: details,
                },
            )
        } else {
            None
        },
        _ => None,
    }
}

/// The items that JSON values describe, if each describes one.
pub open spec fn todo_items_of(values: Seq<serde_json::Value>) -> Option<Seq<TodoItemView>>
    decreases values.len(),
{
    if values.len() == 0 {
        Some(Seq::empty())
    } else {
        match (todo_items_of(values.drop_last()), todo_item_of(values.last())) {
            (Some(rest), Some(item)) => Some(rest.push(item)),
            _ => None,
        }
    }
}

/// The todo list that the input of the tool describes: the member `todos`,
/// an array of items.
pub open spec fn todo_input_of(input: serde_json::Value) -> Option<Seq<TodoItemView>> {
    match array_member(input, "todos"@) {
        Some(values) => todo_items_of(values),
        None => None,
    }
}

/// What is said of an input that describes no todo list.
pub open spec fn invalid_todo_input() -> Seq<char> {
    "Invalid todo input: expected `todos`, an array of items with `index`, `completed` and `task`"@
}

/// The properties of the tool's input, as JSON text.
pub const TODO_PROPERTIES: &'static str =
    "{\"todos\":{\"type\":\"array\",\"description\":\"The complete list of todo items. Each update should include ALL current todos.\",\"items\":{\"type\":\"object\",\"properties\":{\"index\":{\"type\":\"integer\",\"description\":\"Index/ID of the todo item (1-based)\"},\"completed\":{\"type\":\"boolean\",\"description\":\"Whether the task is completed\"},\"task\":{\"type\":\"string\",\"description\":\"Description of the task\"},\"additional_details\":{\"type\":\"string\",\"description\":\"Optional additional details about the task\"}},\"required\":[\"index\",\"completed\",\"task\"]}}}";

/// The tool's description.
pub const TODO_DESCRIPTION: &'static str =
    "Manage a todo list to track tasks. Update the list by providing the complete current state of all todos. Each todo has an index, completion status, task description, and optional additional details.";

/// Reads one item from a JSON value.
pub fn parse_todo_item(value: &serde_json::Value) -> (r: Option<TodoItem>)
    ensures
        r.deep_view() == todo_item_of(*value),
{
    let index = match get_u64(value, "index") {
        Some(index) => index,
        None => {
            return None;
        },
    };
    let completed = match get_bool(value, "completed") {
        Some(completed) => completed,
        None => {
            return None;
        },
    };
    let task = match get_str(value, "task") {
        Some(task) => task,
        None => {
            return None;
        },
    };
    let additional_details = match get_optional_str(value, "additional_details") {
        Ok(details) => details,
        Err(_) => {
            return None;
        },
    };
    if index > 0xffff_ffff {
        return None;
    }
    Some(TodoItem { index: index as u32, completed, task, additional_details })
}

/// Reads the todo list from the input of the tool.
pub fn parse_todo_input(input: &serde_json::Value) -> (r: Result<Vec<TodoItem>, String>)
    ensures
        match r {
            Ok(items) => todo_input_of(*input) == Some(items.deep_view()),
            Err(message) => todo_input_of(*input) is None && message@ == invalid_todo_input(),
        },
{
    let values = match get_elements(input, "todos") {
        Some(values) => values,
        None => {
            return Err(
                "Invalid todo input: expected `todos`, an array of items with `index`, `completed` and `task`".to_string(),
            );
        },
    };
    let mut items: Vec<TodoItem> = Vec::new();
    let mut i: usize = 0;
    proof {
        assert(items.deep_view() =~= Seq::empty());
    }
    while i < values.len()
        invariant
            0 <= i <= values.len(),
            array_member(*input, "todos"@) == Some(values@),
            todo_items_of(values@.take(i as int)) == Some(items.deep_view()),
        decreases values.len() - i,
    {
        proof {
            let next = values@.take(i + 1);
            assert(next.drop_last() =~= values@.take(i as int));
            assert(next.last() == values[i as int]);
        }
        match parse_todo_item(&values[i]) {
            Some(item) => {
                let ghost before = items;
                items.push(item);
                proof {
                    lemma_deep_view_push(before, items, items[items.len() - 1]);
                }
            },
            None => {
                proof {
                    lemma_todo_items_prefix(values@, i + 1);
                }
                return Err(
                    "Invalid todo input: expected `todos`, an array of items with `index`, `completed` and `task`".to_string(),
                );
            },
        }
        i += 1;
    }
    proof {
        assert(values@.take(values.len() as int) =~= values@);
    }
    Ok(items)
}

/// Where the first values describe no list of items, the whole does not
/// either.
pub proof fn lemma_todo_items_prefix(values: Seq<serde_json::Value>, n: int)
    requires
        0 <= n <= values.len(),
        todo_items_of(values.take(n)) is None,
    ensures
        todo_items_of(values) is None,
    decreases values.len() - n,
{
    if n < values.len() {
        assert(values.take(n + 1).drop_last() =~= values.take(n));
        lemma_todo_items_prefix(values, n + 1);
    } else {
        assert(values.take(n) =~= values);
    }
}

/// Todo tool for managing tasks.
#[derive(Debug)]
pub struct TodoTool {
    todos: TodoList,
}

impl TodoTool {
    /// The items of the list.
    pub closed spec fn items(self) -> Seq<TodoItemView> {
        self.todos.items.deep_view()
    }

    /// A todo tool for the list given.
    pub fn new(todos: TodoList) -> (r: TodoTool)
        ensures
            r.items() == todos.deep_view(),
    {
        TodoTool { todos }
    }

    /// The current todo list.
    pub fn get_todos(&self) -> (r: Vec<TodoItem>)
        ensures
            r.deep_view() == self.items(),
    {
        let mut out: Vec<TodoItem> = Vec::new();
        let mut i: usize = 0;
        while i < self.todos.items.len()
            invariant
                0 <= i <= self.todos.items.len(),
                out.len() == i,
                out.deep_view() == self.todos.items.deep_view().take(i as int),
            decreases self.todos.items.len() - i,
        {
            let ghost before = out;
            out.push(self.todos.items[i].clone());
            proof {
                lemma_deep_view_push(before, out, out[i as int]);
                assert(self.todos.items.deep_view().take(i + 1) =~= self.todos.items.deep_view().take(
                    i as int,
                ).push(self.todos.items[i as int].deep_view()));
            }
            i += 1;
        }
        proof {
            assert(self.todos.items.deep_view().take(self.todos.items.len() as int)
                =~= self.todos.items.deep_view());
        }
        out
    }

    /// The todo list as text, for display.
    pub fn format_todos(&self) -> (r: String)
        ensures
            r@ == todos_text(self.items()),
    {
        if self.todos.items.len() == 0 {
            return "No tasks in the todo list.".to_string();
        }
        let mut output = "Todo List:\n".to_string();
        let ghost head = output@;
        let mut i: usize = 0;
        proof {
            assert(head + items_text(self.items().take(0)) =~= head);
        }
        while i < self.todos.items.len()
            invariant
                0 <= i <= self.todos.items.len(),
                head == "Todo List:\n"@,
                output@ == head + items_text(self.items().take(i as int)),
            decreases self.todos.items.len() - i,
        {
            proof {
                let next = self.items().take(i + 1);
                assert(next.drop_last() =~= self.items().take(i as int));
                assert(next.last() == self.todos.items[i as int].deep_view());
            }
            let item = &self.todos.items[i];
            let ghost before = output@;
            output.append("  ");
            if item.completed {
                output.append("[x]");
            } else {
                output.append("[ ]");
            }
            output.append(" ");
            output.append(u64_to_string(item.index as u64).as_str());
            output.append(". ");
            output.append(item.task.as_str());
            output.append("\n");
            match &item.additional_details {
                Some(details) => {
                    output.append("      Details: ");
                    output.append(details.as_str());
                    output.append("\n");
                },
                None => {},
            }
            proof {
                assert(output@ =~= before + item_text(item.deep_view()));
                assert(output@ =~= head + items_text(self.items().take(i + 1)));
            }
            i += 1;
        }
        proof {
            assert(self.items().take(self.todos.items.len() as int) =~= self.items());
        }
        output
    }

    /// Replaces the list by the one that the input describes and shows the
    /// new list. An input that describes no list changes nothing.
    pub fn update(&mut self, input: &serde_json::Value) -> (r: Result<ToolResult, String>)
        ensures
            match todo_input_of(*input) {
                Some(items) => final(self).items() == items && r is Ok && r->Ok_0.deep_view() == (
                ToolResultView {
                    content: ToolResultDataView::Text(todos_text(items)),
                    is_error: false,
                }),
                None => final(self).items() == old(self).items() && r is Err && r->Err_0@
                    == invalid_todo_input(),
            },
    {
        match parse_todo_input(input) {
            Ok(items) => {
                self.todos = TodoList { items };
                let output = self.format_todos();
                Ok(ToolResult::success(output.as_str()))
            },
            Err(message) => Err(message),
        }
    }
}

/// What the tool says it will do with an input.
pub open spec fn todo_info(input: serde_json::Value) -> ToolInfoView {
    let count = match array_member_len(input, "todos"@) {
        Some(n) => n,
        None => 0,
    };
    ToolInfoView {
        name: "todo"@,
        action_description: "Update todo list ("@ + decimal(count) + " items)"@,
        details: None,
    }
}

/// The declaration of the todo tool.
pub open spec fn todo_definition() -> ToolDefinitionView {
    ToolDefinitionView::Custom(
        CustomToolView {
            name: "todo"@,
            description: Some(TODO_DESCRIPTION@),
            input_schema: ToolInputSchemaView {
                schema_type: "object"@,
                properties: json_parsed(TODO_PROPERTIES@),
                required: Some(seq!["todos"@]),
            },
            tool_type: None,
        },
    )
}

impl Tool for TodoTool {
    fn name(&self) -> (r: String)
        ensures
            r@ == "todo"@,
    {
        "todo".to_string()
    }

    fn description(&self) -> (r: String)
        ensures
            r@ == TODO_DESCRIPTION@,
    {
        TODO_DESCRIPTION.to_string()
    }

    fn definition(&self) -> (r: ToolDefinition)
        ensures
            r.deep_view() == todo_definition(),
    {
        let mut required: Vec<String> = Vec::new();
        required.push("todos".to_string());
        proof {
            assert(required.deep_view() =~= seq!["todos"@]);
        }
        ToolDefinition::Custom(
            CustomTool {
                name: "todo".to_string(),
                description: Some(TODO_DESCRIPTION.to_string()),
                input_schema: ToolInputSchema {
                    schema_type: "object".to_string(),
                    properties: parse(TODO_PROPERTIES),
                    required: Some(required),
                },
                tool_type: None,
            },
        )
    }

    fn get_info(&self, input: &serde_json::Value) -> (r: ToolInfo)
        ensures
            r.deep_view() == todo_info(*input),
    {
        let count = match get_array_len(input, "todos") {
            Some(n) => n,
            None => 0,
        };
        ToolInfo {
            name: "todo".to_string(),
            action_description: concat3(
                "Update todo list (",
                usize_to_string(count).as_str(),
                " items)",
            ),
            details: None,
        }
    }

    fn requires_permission(&self) -> (r: bool)
        ensures
            !r,
    {
        false
    }
}

} // verus!
