//! The tools that pi can ask Grove to run, and the actions they stand for.
use vstd::prelude::*;
use vstd::string::*;
use crate::ids::{AgentId, uuid_parse, uuid_parse_result};
use crate::agent::texts;
use crate::action::{Action, ActionView};
use crate::text::str_eq;

verus! {

/// What a tool request maps to: a Grove action, or nothing known.
#[derive(Debug)]
pub enum ToolMapping {
    Action(Action),
    Unknown,
}

impl ToolMapping {
    /// The action this mapping stands for, if any.
    pub open spec fn action_view(self) -> Option<ActionView> {
        match self {
            ToolMapping::Action(a) => Some(a@),
            ToolMapping::Unknown => None,
        }
    }
}

/// The registry of tools that pi can request.
pub struct ToolRegistry;

/// The description of a tool offered to pi.
#[derive(Debug)]
pub struct ToolDefinition {
    pub name: String,
    pub description: String,
    pub parameters: Vec<String>,
}

/// The view of a [`ToolDefinition`].
pub struct ToolDefinitionView {
    pub name: Seq<char>,
    pub description: Seq<char>,
    pub parameters: Seq<Seq<char>>,
}

impl View for ToolDefinition {
    type V = ToolDefinitionView;

    open spec fn view(&self) -> ToolDefinitionView {
        ToolDefinitionView {
            name: self.name@,
            description: self.description@,
            parameters: texts(self.parameters@),
        }
    }
}

/// The identifier that the first argument of a tool request names, if it parses.
pub open spec fn first_arg_id(args: Seq<Seq<char>>) -> Option<AgentId> {
    if args.len() > 0 {
        uuid_parse_result(args[0])
    } else {
        None
    }
}

/// The action for an identifier-taking tool: `make(id)` when the first
/// argument parses as an identifier, `RefreshSelected` otherwise.
pub open spec fn id_tool_action(args: Seq<Seq<char>>, make: spec_fn(AgentId) -> ActionView) -> ActionView {
    match first_arg_id(args) {
        Some(id) => make(id),
        None => ActionView::RefreshSelected,
    }
}

/// The action that a tool request with this name and these arguments stands
/// for, or `None` for a tool that the registry does not know.
pub open spec fn tool_action(tool: Seq<char>, args: Seq<Seq<char>>) -> Option<ActionView> {
    if tool == "git"@ {
        if args.len() > 0 && args[0] == "diff"@ {
            Some(ActionView::ToggleDiffView)
        } else {
            Some(ActionView::RefreshSelected)
        }
    } else if tool == "editor"@ {
        Some(id_tool_action(args, |id: AgentId| ActionView::OpenInEditor { id }))
    } else if tool == "file_ops"@ {
        Some(id_tool_action(args, |id: AgentId| ActionView::CopyWorktreePath { id }))
    } else if tool == "terminal"@ {
        Some(id_tool_action(args, |id: AgentId| ActionView::AttachToDevServer { agent_id: id }))
    } else if tool == "debug"@ {
        Some(ActionView::ToggleStatusDebug)
    } else if tool == "test"@ {
        Some(ActionView::RefreshSelected)
    } else {
        None
    }
}

/// Parses the first argument of a tool request as an identifier.
pub fn first_arg_as_id(args: &[String]) -> (r: Option<AgentId>)
    ensures
        r == first_arg_id(texts(args@)),
{
    if args.len() > 0 {
        uuid_parse(args[0].as_str())
    } else {
        None
    }
}

/// The tools offered to pi, in the order they are listed.
pub open spec fn available_tools() -> Seq<ToolDefinitionView> {
    seq![
        ToolDefinitionView {
            name: "git"@,
            description: "Git operations (status, diff, add, commit)"@,
            parameters: seq!["command"@, "args"@],
        },
        ToolDefinitionView {
            name: "editor"@,
            description: "Open file in editor"@,
            parameters: seq!["file_path"@],
        },
        ToolDefinitionView {
            name: "file_ops"@,
            description: "File operations (copy path, create)"@,
            parameters: seq!["operation"@, "path"@],
        },
        ToolDefinitionView {
            name: "terminal"@,
            description: "Attach to terminal/development server"@,
            parameters: seq!["agent_id"@],
        },
        ToolDefinitionView {
            name: "debug"@,
            description: "Toggle debug status view"@,
            parameters: Seq::empty(),
        },
    ]
}

/// Every tool offered to pi is one that the mapping knows, whatever its
/// arguments; the terminal tool is offered, and it declares exactly one
/// parameter, `agent_id`: the identifier whose canonical text the mapping
/// parses to attach to that agent's dev server.
pub proof fn lemma_offered_tools_match_mapping()
    ensures
        forall|i: int, args: Seq<Seq<char>>| 0 <= i < available_tools().len()
            ==> #[trigger] tool_action(available_tools()[i].name, args) is Some,
        forall|i: int| 0 <= i < available_tools().len() && #[trigger] available_tools()[i].name == "terminal"@
            ==> available_tools()[i].parameters == seq!["agent_id"@],
        exists|i: int| 0 <= i < available_tools().len() && #[trigger] available_tools()[i].name == "terminal"@,
        forall|id: AgentId| #[trigger] tool_action("terminal"@, seq![crate::ids::uuid_hyphenated(id)])
            == Some(ActionView::AttachToDevServer { agent_id: id }),
{
    reveal_strlit("git");
    reveal_strlit("editor");
    reveal_strlit("file_ops");
    reveal_strlit("terminal");
    reveal_strlit("debug");
    reveal_strlit("test");
    assert("git"@[0] != "terminal"@[0] && "editor"@[0] != "terminal"@[0] && "file_ops"@[0] != "terminal"@[0]
        && "debug"@[0] != "terminal"@[0]);
    assert(available_tools()[3].name == "terminal"@);
    assert forall|id: AgentId| #[trigger] tool_action("terminal"@, seq![crate::ids::uuid_hyphenated(id)])
        == Some(ActionView::AttachToDevServer { agent_id: id }) by {
        crate::ids::lemma_uuid_reads_back(id);
        assert("terminal"@ != "git"@ && "terminal"@ != "editor"@ && "terminal"@ != "file_ops"@);
    }
}

fn text(s: &str) -> (r: String)
    ensures
        r@ == s@,
{
    String::from_str(s)
}

fn tool_definition(name: &str, description: &str, parameters: Vec<String>) -> (r: ToolDefinition)
    ensures
        r@ == (ToolDefinitionView { name: name@, description: description@, parameters: texts(parameters@) }),
{
    ToolDefinition { name: text(name), description: text(description), parameters }
}

impl ToolRegistry {
    /// Maps a tool request from pi to the Grove action it stands for.
    pub fn map_tool(tool: &str, args: &[String]) -> (r: ToolMapping)
        ensures
            r.action_view() == tool_action(tool@, texts(args@)),
    {
        let ghost a = texts(args@);
        if str_eq(tool, "git") {
            if args.len() > 0 && str_eq(args[0].as_str(), "diff") {
                ToolMapping::Action(Action::ToggleDiffView)
            } else {
                ToolMapping::Action(Action::RefreshSelected)
            }
        } else if str_eq(tool, "editor") {
            match first_arg_as_id(args) {
                Some(id) => ToolMapping::Action(Action::OpenInEditor { id }),
                None => ToolMapping::Action(Action::RefreshSelected),
            }
        } else if str_eq(tool, "file_ops") {
            match first_arg_as_id(args) {
                Some(id) => ToolMapping::Action(Action::CopyWorktreePath { id }),
                None => ToolMapping::Action(Action::RefreshSelected),
            }
        } else if str_eq(tool, "terminal") {
            match first_arg_as_id(args) {
                Some(id) => ToolMapping::Action(Action::AttachToDevServer { agent_id: id }),
                None => ToolMapping::Action(Action::RefreshSelected),
            }
        } else if str_eq(tool, "debug") {
            ToolMapping::Action(Action::ToggleStatusDebug)
        } else if str_eq(tool, "test") {
            ToolMapping::Action(Action::RefreshSelected)
        } else {
            ToolMapping::Unknown
        }
    }

    /// The tools that pi may request, with their descriptions and parameters.
    pub fn get_available_tools() -> (r: Vec<ToolDefinition>)
        ensures
            r@.map_values(|t: ToolDefinition| t@) == available_tools(),
            forall|i: int, args: Seq<Seq<char>>| 0 <= i < r@.len() ==> #[trigger] tool_action(r@[i].name@, args) is Some,
            forall|i: int| 0 <= i < r@.len() && #[trigger] r@[i].name@ == "terminal"@
                ==> texts(r@[i].parameters@) == seq!["agent_id"@],
            exists|i: int| 0 <= i < r@.len() && #[trigger] r@[i].name@ == "terminal"@,
            r@.len() == 5,
            r@[0].name@ == "git"@ && texts(r@[0].parameters@) == seq!["command"@, "args"@],
            r@[1].name@ == "editor"@ && texts(r@[1].parameters@) == seq!["file_path"@],
            r@[2].name@ == "file_ops"@ && texts(r@[2].parameters@) == seq!["operation"@, "path"@],
            r@[3].name@ == "terminal"@ && texts(r@[3].parameters@) == seq!["agent_id"@],
            r@[4].name@ == "debug"@ && texts(r@[4].parameters@).len() == 0,
    {
        proof {
            lemma_offered_tools_match_mapping();
        }
        let tools = vec![
            tool_definition(
                "git",
                "Git operations (status, diff, add, commit)",
                vec![text("command"), text("args")],
            ),
            tool_definition("editor", "Open file in editor", vec![text("file_path")]),
            tool_definition(
                "file_ops",
                "File operations (copy path, create)",
                vec![text("operation"), text("path")],
            ),
            tool_definition("terminal", "Attach to terminal/development server", vec![text("agent_id")]),
            tool_definition("debug", "Toggle debug status view", Vec::new()),
        ];
        assert(tools@.map_values(|t: ToolDefinition| t@) =~= available_tools()) by {
            assert(texts(tools@[0].parameters@) =~= seq!["command"@, "args"@]);
            assert(texts(tools@[1].parameters@) =~= seq!["file_path"@]);
            assert(texts(tools@[2].parameters@) =~= seq!["operation"@, "path"@]);
            assert(texts(tools@[3].parameters@) =~= seq!["agent_id"@]);
            assert(texts(tools@[4].parameters@) =~= Seq::<Seq<char>>::empty());
        }
        assert forall|i: int| 0 <= i < tools@.len() implies #[trigger] tools@[i]@ == available_tools()[i] by {
            assert(tools@.map_values(|t: ToolDefinition| t@)[i] == tools@[i]@);
        }
        assert forall|i: int| 0 <= i < tools@.len() && #[trigger] tools@[i].name@ == "terminal"@
            implies texts(tools@[i].parameters@) == seq!["agent_id"@] by {
            assert(tools@[i]@ == available_tools()[i]);
            assert(available_tools()[i].name == "terminal"@);
        }
        tools
    }
}

} // verus!
