//! Access to the prompt and tool-definition templates.
use crate::text::str_eq;
use vstd::prelude::*;

verus! {

/// A handle on a template lookup function.
pub struct TemplateLoaderRef<F: Fn(&str) -> Option<String>> {
    get_template: F,
}

impl<F: Fn(&str) -> Option<String>> TemplateLoaderRef<F> {
    /// The lookup function this handle calls.
    pub closed spec fn lookup(&self) -> F {
        self.get_template
    }

    /// A handle on `get_template`.
    pub fn new(get_template: F) -> (r: Self)
        ensures
            r.lookup() == get_template,
    {
        TemplateLoaderRef { get_template }
    }

    /// The template called `name`, as the lookup function gives it.
    pub fn get_template(&self, name: &str) -> (r: Option<String>)
        requires
            call_requires(self.lookup(), (name,)),
        ensures
            call_ensures(self.lookup(), (name,), r),
    {
        (self.get_template)(name)
    }
}

/// The embedded templates, by name.
pub open spec fn template_text(name: Seq<char>) -> Option<Seq<char>> {
    if name == "environment/details_no_role"@ {
        Some("<environment_details>\n# TODO list\n{todoItems}\n</environment_details>"@)
    } else if name == "environment/details_with_role"@ {
        Some("<environment_details>\n# Current role\n<name>{currentRoleName}</name>\n# TODO list\n{todoItems}\n</environment_details>"@)
    } else if name == "environment/todo_list_empty"@ {
        Some("You have not created a todo list yet."@)
    } else if name == "environment/todo_list_with_items"@ {
        Some("| # | Content | Status |\n|---|---------|--------|\n{todoItems}"@)
    } else if name == "mcp_internal/rhd_set_todo_list/tool_definition"@ {
        Some("{\"description\": \"Replace the entire TODO list with an updated checklist reflecting the current state. Always provide the full list; the system will overwrite the previous one. This tool is designed for step-by-step task tracking, allowing you to confirm completion of each step before updating, update multiple statuses at once (e.g., mark one as completed and start the next), and dynamically add new todos as they're discovered.\", \"parameters\": {\"type\": \"object\", \"properties\": {\"todos\": {\"type\": \"string\", \"description\": \"Full markdown checklist in execution order, using [ ] for pending, [x] for completed, [-] for in progress, and [!] for discarded\"}}, \"required\": [\"todos\"]}}"@)
    } else if name == "mcp_internal/rhd_set_todo_list/contract"@ {
        Some("# rhd_set_todo_list Tool Contract\n\nKeep a TODO list for every task that takes more than one step. Call rhd_set_todo_list with the full markdown checklist, one item per line: [ ] pending, [-] in progress, [x] completed, [!] discarded. Every call replaces the whole list, so always send all items, in execution order.\n"@)
    } else if name == "mcp_internal/rhd_set_role/tool_definition"@ {
        Some("{\"description\": \"Switch the current active role. Use this tool when you need to change your behavioral role based on the task requirements. The role determines your system prompt and behavior patterns.\", \"parameters\": {\"type\": \"object\", \"properties\": {\"role_name\": {\"type\": \"string\", \"description\": \"The name of the role to switch to. Must be one of the available roles listed in the system prompt.\"}}, \"required\": [\"role_name\"]}}"@)
    } else if name == "mcp_internal/rhd_set_flag/tool_definition"@ {
        Some("{\"description\": \"Set a named boolean flag that later scenario steps can read.\", \"parameters\": {\"type\": \"object\", \"properties\": {\"name\": {\"type\": \"string\", \"description\": \"The name of the flag.\"}, \"value\": {\"type\": \"boolean\", \"description\": \"The value of the flag.\"}}, \"required\": [\"name\", \"value\"]}}"@)
    } else if name == "roles/roles_list_prompt"@ {
        Some("Your behavior is defined by the current active role. Current active role is \"{currentRoleName}\". You can switch your role by tool `rhd_set_role`.\n\nThese are the currently available roles:\n\n{rolesList}"@)
    } else if name == "roles/role_switch_prompt"@ {
        Some("Your current role is now \"{roleName}\".\n\n-----\n\n{systemPrompt}"@)
    } else {
        None
    }
}

/// The registry of templates embedded in the program.
pub struct TemplateRegistry;

impl TemplateRegistry {
    /// The template called `name`, if there is one.
    pub fn get(name: &str) -> (r: Option<&'static str>)
        ensures
            match r {
                Some(t) => template_text(name@) == Some(t@),
                None => template_text(name@) is None,
            },
    {
        if str_eq(name, "environment/details_no_role") {
            return Some("<environment_details>\n# TODO list\n{todoItems}\n</environment_details>");
        }
        if str_eq(name, "environment/details_with_role") {
            return Some("<environment_details>\n# Current role\n<name>{currentRoleName}</name>\n# TODO list\n{todoItems}\n</environment_details>");
        }
        if str_eq(name, "environment/todo_list_empty") {
            return Some("You have not created a todo list yet.");
        }
        if str_eq(name, "environment/todo_list_with_items") {
            return Some("| # | Content | Status |\n|---|---------|--------|\n{todoItems}");
        }
        if str_eq(name, "mcp_internal/rhd_set_todo_list/tool_definition") {
            return Some("{\"description\": \"Replace the entire TODO list with an updated checklist reflecting the current state. Always provide the full list; the system will overwrite the previous one. This tool is designed for step-by-step task tracking, allowing you to confirm completion of each step before updating, update multiple statuses at once (e.g., mark one as completed and start the next), and dynamically add new todos as they're discovered.\", \"parameters\": {\"type\": \"object\", \"properties\": {\"todos\": {\"type\": \"string\", \"description\": \"Full markdown checklist in execution order, using [ ] for pending, [x] for completed, [-] for in progress, and [!] for discarded\"}}, \"required\": [\"todos\"]}}");
        }
        if str_eq(name, "mcp_internal/rhd_set_todo_list/contract") {
            return Some("# rhd_set_todo_list Tool Contract\n\nKeep a TODO list for every task that takes more than one step. Call rhd_set_todo_list with the full markdown checklist, one item per line: [ ] pending, [-] in progress, [x] completed, [!] discarded. Every call replaces the whole list, so always send all items, in execution order.\n");
        }
        if str_eq(name, "mcp_internal/rhd_set_role/tool_definition") {
            return Some("{\"description\": \"Switch the current active role. Use this tool when you need to change your behavioral role based on the task requirements. The role determines your system prompt and behavior patterns.\", \"parameters\": {\"type\": \"object\", \"properties\": {\"role_name\": {\"type\": \"string\", \"description\": \"The name of the role to switch to. Must be one of the available roles listed in the system prompt.\"}}, \"required\": [\"role_name\"]}}");
        }
        if str_eq(name, "mcp_internal/rhd_set_flag/tool_definition") {
            return Some("{\"description\": \"Set a named boolean flag that later scenario steps can read.\", \"parameters\": {\"type\": \"object\", \"properties\": {\"name\": {\"type\": \"string\", \"description\": \"The name of the flag.\"}, \"value\": {\"type\": \"boolean\", \"description\": \"The value of the flag.\"}}, \"required\": [\"name\", \"value\"]}}");
        }
        if str_eq(name, "roles/roles_list_prompt") {
            return Some("Your behavior is defined by the current active role. Current active role is \"{currentRoleName}\". You can switch your role by tool `rhd_set_role`.\n\nThese are the currently available roles:\n\n{rolesList}");
        }
        if str_eq(name, "roles/role_switch_prompt") {
            return Some("Your current role is now \"{roleName}\".\n\n-----\n\n{systemPrompt}");
        }
        None
    }
}

/// Loads templates from the embedded registry.
pub struct TemplateLoader;

impl TemplateLoader {
    /// A loader.
    pub fn new() -> (r: Self) {
        TemplateLoader
    }

    /// The template called `name`, if there is one.
    pub fn get_template(&self, name: &str) -> (r: Option<&'static str>)
        ensures
            match r {
                Some(t) => template_text(name@) == Some(t@),
                None => template_text(name@) is None,
            },
    {
        TemplateRegistry::get(name)
    }
}

} // verus!
