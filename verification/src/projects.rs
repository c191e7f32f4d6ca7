//! Projects attached to a chat: MCP status, conflicts between what projects
//! bring (MCP ids, role names), and the role prompts injected into the chat.
use crate::error::ChatError;
use crate::event::ChatEvent;
use crate::text::{append_str, contains_seq, replace_all, replace_str, str_contains, str_eq, to_owned_string};
use vstd::prelude::*;

verus! {

/// The connection state of a project's MCP server.
#[derive(Debug, Clone)]
pub enum McpStatus {
    Connecting,
    Connected,
    Failed(String),
}

impl McpStatus {
    /// Is the server connected?
    pub fn is_connected(&self) -> (b: bool)
        ensures
            b == (*self is Connected),
    {
        match self {
            McpStatus::Connected => true,
            _ => false,
        }
    }
}

/// The texts of a list of strings.
pub open spec fn texts_of(v: Seq<String>) -> Seq<Seq<char>> {
    v.map_values(|s: String| s@)
}

/// The elements of `list` joined with `sep` between them.
pub open spec fn join(list: Seq<Seq<char>>, sep: Seq<char>) -> Seq<char>
    decreases list.len(),
{
    if list.len() == 0 {
        Seq::empty()
    } else if list.len() == 1 {
        list[0]
    } else {
        join(list.drop_last(), sep) + sep + list.last()
    }
}

/// The names of `new` that `existing` already holds, in the order of `new`.
pub open spec fn conflicts(existing: Seq<Seq<char>>, new: Seq<Seq<char>>) -> Seq<Seq<char>> {
    new.filter(|n: Seq<char>| existing.contains(n))
}

fn holds_text(v: &Vec<String>, s: &str) -> (b: bool)
    ensures
        b == texts_of(v@).contains(s@),
{
    let ghost t = texts_of(v@);
    let mut i: usize = 0;
    while i < v.len()
        invariant
            i <= v@.len(),
            t == texts_of(v@),
            forall|j: int| 0 <= j < i ==> t[j] != s@,
        decreases v@.len() - i,
    {
        assert(t[i as int] == v@[i as int]@);
        if str_eq(v[i].as_str(), s) {
            assert(t.contains(s@));
            return true;
        }
        i += 1;
    }
    false
}

/// The names of `new` that `existing` holds, joined with `, `.
fn conflict_list(existing: &Vec<String>, new: &Vec<String>) -> (r: (String, usize))
    ensures
        r.0@ == join(conflicts(texts_of(existing@), texts_of(new@)), ", "@),
        r.1 == conflicts(texts_of(existing@), texts_of(new@)).len(),
{
    let ghost ex = texts_of(existing@);
    let ghost nw = texts_of(new@);
    let mut out = String::new();
    let mut count: usize = 0;
    let mut i: usize = 0;
    assert(nw.take(0).filter(|n: Seq<char>| ex.contains(n)) =~= Seq::<Seq<char>>::empty());
    while i < new.len()
        invariant
            i <= new@.len(),
            ex == texts_of(existing@),
            nw == texts_of(new@),
            out@ == join(conflicts(ex, nw.take(i as int)), ", "@),
            count == conflicts(ex, nw.take(i as int)).len(),
            count <= i,
        decreases new@.len() - i,
    {
        let ghost before = conflicts(ex, nw.take(i as int));
        assert(nw.take(i + 1).drop_last() =~= nw.take(i as int));
        assert(nw.take(i + 1).last() == new@[i as int]@);
        reveal(Seq::filter);
        if holds_text(existing, new[i].as_str()) {
            if count > 0 {
                append_str(&mut out, ", ");
            }
            append_str(&mut out, new[i].as_str());
            proof {
                let after = conflicts(ex, nw.take(i + 1));
                assert(after == before.push(new@[i as int]@));
                assert(after.drop_last() =~= before);
                if count > 0 {
                    assert(out@ =~= join(before, ", "@) + ", "@ + new@[i as int]@);
                } else {
                    assert(before.len() == 0);
                    assert(out@ =~= new@[i as int]@);
                }
            }
            count += 1;
        } else {
            assert(conflicts(ex, nw.take(i + 1)) == before);
        }
        i += 1;
    }
    assert(nw.take(new@.len() as int) =~= nw);
    (out, count)
}

/// The error for a project whose roles clash with roles already attached.
pub open spec fn role_conflict_text(existing: Seq<Seq<char>>, new: Seq<Seq<char>>) -> Seq<char> {
    "Role names already in use: "@ + join(conflicts(existing, new), ", "@)
}

/// Refuses a project whose role names are already used by the chat's attached
/// projects (`existing_role_names`), naming every clashing role.
pub fn check_role_conflicts(existing_role_names: &Vec<String>, new_role_names: &Vec<String>) -> (r: Result<(), ChatError>)
    ensures
        conflicts(texts_of(existing_role_names@), texts_of(new_role_names@)).len() == 0 ==> r is Ok,
        conflicts(texts_of(existing_role_names@), texts_of(new_role_names@)).len() > 0 ==> (r matches Err(ChatError::RoleNameConflict(m))
            && m@ == role_conflict_text(texts_of(existing_role_names@), texts_of(new_role_names@))),
{
    let (list, count) = conflict_list(existing_role_names, new_role_names);
    if count == 0 {
        return Ok(());
    }
    let mut m = String::new();
    append_str(&mut m, "Role names already in use: ");
    append_str(&mut m, list.as_str());
    Err(ChatError::RoleNameConflict(m))
}

/// The error for a project whose MCP ids clash with ids already attached.
pub open spec fn mcp_conflict_text(existing: Seq<Seq<char>>, new: Seq<Seq<char>>) -> Seq<char> {
    "MCP ids already in use: "@ + join(conflicts(existing, new), ", "@)
}

/// Refuses a project whose MCP ids are already used by the chat's attached
/// projects, naming every clashing id.
pub fn check_mcp_id_conflicts(existing_ids: &Vec<String>, new_ids: &Vec<String>) -> (r: Result<(), ChatError>)
    ensures
        conflicts(texts_of(existing_ids@), texts_of(new_ids@)).len() == 0 ==> r is Ok,
        conflicts(texts_of(existing_ids@), texts_of(new_ids@)).len() > 0 ==> (r matches Err(ChatError::McpIdConflict(m))
            && m@ == mcp_conflict_text(texts_of(existing_ids@), texts_of(new_ids@))),
{
    let (list, count) = conflict_list(existing_ids, new_ids);
    if count == 0 {
        return Ok(());
    }
    let mut m = String::new();
    append_str(&mut m, "MCP ids already in use: ");
    append_str(&mut m, list.as_str());
    Err(ChatError::McpIdConflict(m))
}

/// What a project brings to a chat: its system prompt, the ids of its MCP
/// servers and the names of its roles.
#[derive(Debug, Clone)]
pub struct ProjectFacts {
    pub system_prompt: Option<String>,
    pub mcp_ids: Vec<String>,
    pub role_names: Vec<String>,
}

/// A project exists when it brings anything.
pub open spec fn project_exists(f: ProjectFacts) -> bool {
    f.system_prompt is Some || f.mcp_ids@.len() > 0 || f.role_names@.len() > 0
}

/// Checks that a project can be attached to a chat, in this order: the chat
/// exists, the project exists, none of its MCP ids and then none of its role
/// names is already used by the projects attached to the chat.
pub fn check_attach(
    chat_exists: bool,
    project_name: &str,
    project: &ProjectFacts,
    existing_mcp_ids: &Vec<String>,
    existing_role_names: &Vec<String>,
) -> (r: Result<(), ChatError>)
    ensures
        !chat_exists ==> r matches Err(ChatError::ChatNotFound),
        chat_exists && !project_exists(*project) ==> (r matches Err(ChatError::ProjectNotFound(n)) && n@ == project_name@),
        chat_exists && project_exists(*project) && conflicts(texts_of(existing_mcp_ids@), texts_of(project.mcp_ids@)).len() > 0
            ==> (r matches Err(ChatError::McpIdConflict(m)) && m@ == mcp_conflict_text(
            texts_of(existing_mcp_ids@),
            texts_of(project.mcp_ids@),
        )),
        chat_exists && project_exists(*project) && conflicts(texts_of(existing_mcp_ids@), texts_of(project.mcp_ids@)).len() == 0
            && conflicts(texts_of(existing_role_names@), texts_of(project.role_names@)).len() > 0 ==> (r matches Err(
            ChatError::RoleNameConflict(m),
        ) && m@ == role_conflict_text(texts_of(existing_role_names@), texts_of(project.role_names@))),
        r is Ok <==> chat_exists && project_exists(*project) && conflicts(
            texts_of(existing_mcp_ids@),
            texts_of(project.mcp_ids@),
        ).len() == 0 && conflicts(texts_of(existing_role_names@), texts_of(project.role_names@)).len() == 0,
{
    if !chat_exists {
        return Err(ChatError::ChatNotFound);
    }
    if project.system_prompt.is_none() && project.mcp_ids.len() == 0 && project.role_names.len() == 0 {
        return Err(ChatError::ProjectNotFound(to_owned_string(project_name)));
    }
    match check_mcp_id_conflicts(existing_mcp_ids, &project.mcp_ids) {
        Err(e) => return Err(e),
        Ok(()) => {},
    }
    check_role_conflicts(existing_role_names, &project.role_names)
}

/// What a chat reports once a project was attached: that its roles changed
/// when the project brings roles, then the attachment.
pub fn attach_events(chat_id: i64, project_name: &str, brings_roles: bool) -> (r: Vec<ChatEvent>)
    ensures
        r@.len() == if brings_roles { 2int } else { 1int },
        brings_roles ==> (r@[0] matches ChatEvent::RolesUpdated { chat_id: c } && c == chat_id),
        r@.last() matches ChatEvent::ProjectAttached { chat_id: c, project_name: n } && c == chat_id && n@
            == project_name@,
{
    let mut r: Vec<ChatEvent> = Vec::new();
    if brings_roles {
        r.push(ChatEvent::RolesUpdated { chat_id });
    }
    r.push(ChatEvent::ProjectAttached { chat_id, project_name: to_owned_string(project_name) });
    r
}

/// What a chat reports once a project was detached: that the active role was
/// cleared when it came from that project, that its roles changed when the
/// project had roles, then the detachment.
pub fn detach_events(chat_id: i64, project_name: &str, role_cleared: bool, had_roles: bool) -> (r: Vec<ChatEvent>)
    ensures
        r@.len() == 1 + (if role_cleared { 1int } else { 0int }) + (if had_roles { 1int } else { 0int }),
        role_cleared ==> (r@[0] matches ChatEvent::ActiveRoleCleared { chat_id: c } && c == chat_id),
        had_roles ==> (r@[r@.len() - 2] matches ChatEvent::RolesUpdated { chat_id: c } && c == chat_id),
        r@.last() matches ChatEvent::ProjectDetached { chat_id: c, project_name: n } && c == chat_id && n@
            == project_name@,
{
    let mut r: Vec<ChatEvent> = Vec::new();
    if role_cleared {
        r.push(ChatEvent::ActiveRoleCleared { chat_id });
    }
    if had_roles {
        r.push(ChatEvent::RolesUpdated { chat_id });
    }
    r.push(ChatEvent::ProjectDetached { chat_id, project_name: to_owned_string(project_name) });
    r
}

/// The system prompt of an attached project that is still to be added to the
/// chat, after checking that all its MCP servers are connected (see
/// `check_mcp_connected`): none when it was added before or the project has
/// none.
pub fn pending_system_prompt(
    project_name: &str,
    already_added: bool,
    system_prompt: Option<String>,
    statuses: &Vec<(String, McpStatus)>,
) -> (r: Result<Option<String>, ChatError>)
    ensures
        (forall|i: int| 0 <= i < statuses@.len() ==> (#[trigger] statuses@[i]).1 is Connected) ==> r == Ok::<
            Option<String>,
            ChatError,
        >(if already_added { None } else { system_prompt }),
        r matches Err(e) ==> exists|i: int| #[trigger] first_unconnected(statuses@, i) && (e matches ChatError::McpNotConnected(m)
            && m@ == qualified(project_name@, statuses@[i].0@)),
        r is Ok ==> forall|i: int| 0 <= i < statuses@.len() ==> (#[trigger] statuses@[i]).1 is Connected,
{
    match check_mcp_connected(project_name, statuses) {
        Err(e) => Err(e),
        Ok(()) => {
            if already_added {
                Ok(None)
            } else {
                Ok(system_prompt)
            }
        },
    }
}

/// `project:name`, the form in which a project's item is named in errors.
pub open spec fn qualified(project: Seq<char>, name: Seq<char>) -> Seq<char> {
    project + ":"@ + name
}

fn qualified_name(project: &str, name: &str) -> (r: String)
    ensures
        r@ == qualified(project@, name@),
{
    let mut r = String::new();
    append_str(&mut r, project);
    append_str(&mut r, ":");
    append_str(&mut r, name);
    r
}

/// `i` is the first server that is not connected.
pub open spec fn first_unconnected(s: Seq<(String, McpStatus)>, i: int) -> bool {
    0 <= i < s.len() && !(s[i].1 is Connected) && forall|j: int| 0 <= j < i ==> s[j].1 is Connected
}

/// Checks that every MCP server of a project is connected; the first one that
/// is not is reported as `project:mcp_id`.
pub fn check_mcp_connected(project_name: &str, statuses: &Vec<(String, McpStatus)>) -> (r: Result<(), ChatError>)
    ensures
        (forall|i: int| 0 <= i < statuses@.len() ==> (#[trigger] statuses@[i]).1 is Connected) ==> r is Ok,
        r matches Err(e) ==> exists|i: int| #[trigger] first_unconnected(statuses@, i) && (e matches ChatError::McpNotConnected(m)
            && m@ == qualified(project_name@, statuses@[i].0@)),
        r is Ok ==> forall|i: int| 0 <= i < statuses@.len() ==> (#[trigger] statuses@[i]).1 is Connected,
{
    let mut i: usize = 0;
    while i < statuses.len()
        invariant
            i <= statuses@.len(),
            forall|j: int| 0 <= j < i ==> (#[trigger] statuses@[j]).1 is Connected,
        decreases statuses@.len() - i,
    {
        if !statuses[i].1.is_connected() {
            assert(first_unconnected(statuses@, i as int));
            return Err(ChatError::McpNotConnected(qualified_name(project_name, statuses[i].0.as_str())));
        }
        i += 1;
    }
    Ok(())
}

/// A role offered by an attached project.
#[derive(Debug, Clone)]
pub struct RoleEntry {
    pub project_name: String,
    pub role_name: String,
    pub when_to_use: String,
}

/// The block that introduces one role in the roles list.
pub open spec fn role_block(r: RoleEntry) -> Seq<char> {
    "\n# "@ + r.role_name@ + " (from project: "@ + r.project_name@ + ")\n\n"@ + r.when_to_use@ + "\n"@
}

/// The roles list: the blocks of all roles, in order.
pub open spec fn roles_list(roles: Seq<RoleEntry>) -> Seq<char>
    decreases roles.len(),
{
    if roles.len() == 0 {
        Seq::empty()
    } else {
        roles_list(roles.drop_last()) + role_block(roles.last())
    }
}

/// The prompt that lists the roles, from its template.
pub open spec fn roles_prompt_text(template: Seq<char>, current: Seq<char>, roles: Seq<RoleEntry>) -> Seq<char> {
    replace_all(replace_all(template, "{currentRoleName}"@, current), "{rolesList}"@, roles_list(roles))
}

/// The name shown as the current role: the active role's, else `none`.
pub open spec fn current_role_text(active_role: Option<(Seq<char>, Seq<char>)>) -> Seq<char> {
    match active_role {
        Some((_, name)) => name,
        None => "none"@,
    }
}

/// The prompt that lists the roles of the attached projects, or `None` when
/// they have none. The template is needed only when there are roles.
pub fn render_roles_prompt(
    template: Option<&str>,
    active_role: Option<&(String, String)>,
    roles: &Vec<RoleEntry>,
) -> (r: Result<Option<String>, ChatError>)
    ensures
        roles@.len() == 0 ==> r matches Ok(None),
        roles@.len() > 0 && template is None ==> (r matches Err(ChatError::Internal(m))
            && m@ == "Template 'roles/roles_list_prompt' not found"@),
        roles@.len() > 0 && template is Some ==> (r matches Ok(Some(p)) && p@ == roles_prompt_text(
            template->0@,
            current_role_text(crate::todo::role_view(active_role)),
            roles@,
        )),
{
    if roles.len() == 0 {
        return Ok(None);
    }
    let template = match template {
        Some(t) => t,
        None => return Err(ChatError::Internal(to_owned_string("Template 'roles/roles_list_prompt' not found"))),
    };
    let current: &str = match active_role {
        Some(role) => role.1.as_str(),
        None => "none",
    };
    let mut list = String::new();
    let mut i: usize = 0;
    while i < roles.len()
        invariant
            i <= roles@.len(),
            list@ == roles_list(roles@.take(i as int)),
        decreases roles@.len() - i,
    {
        let ghost before = list@;
        append_str(&mut list, "\n# ");
        append_str(&mut list, roles[i].role_name.as_str());
        append_str(&mut list, " (from project: ");
        append_str(&mut list, roles[i].project_name.as_str());
        append_str(&mut list, ")\n\n");
        append_str(&mut list, roles[i].when_to_use.as_str());
        append_str(&mut list, "\n");
        assert(roles@.take(i + 1).drop_last() =~= roles@.take(i as int));
        assert(list@ =~= before + role_block(roles@[i as int]));
        i += 1;
    }
    assert(roles@.take(roles@.len() as int) =~= roles@);
    proof {
        reveal_strlit("{currentRoleName}");
        reveal_strlit("{rolesList}");
    }
    let step = replace_str(template, "{currentRoleName}", current);
    Ok(Some(replace_str(step.as_str(), "{rolesList}", list.as_str())))
}

/// The prompt that announces a switch to a role, from its template.
pub open spec fn role_switch_text(template: Seq<char>, role: Seq<char>, system_prompt: Seq<char>) -> Seq<char> {
    replace_all(replace_all(template, "{roleName}"@, role), "{systemPrompt}"@, system_prompt)
}

/// The prompt for switching to `role_name` of `project_name`: fails when the
/// project has no such role (no system prompt) or the template is missing.
pub fn render_role_switch_prompt(
    template: Option<&str>,
    system_prompt: Option<&str>,
    project_name: &str,
    role_name: &str,
) -> (r: Result<String, ChatError>)
    ensures
        system_prompt is None ==> (r matches Err(ChatError::RoleNotFound(m)) && m@ == qualified(project_name@, role_name@)),
        system_prompt is Some && template is None ==> (r matches Err(ChatError::Internal(m))
            && m@ == "Template 'roles/role_switch_prompt' not found"@),
        system_prompt is Some && template is Some ==> (r matches Ok(p) && p@ == role_switch_text(
            template->0@,
            role_name@,
            system_prompt->0@,
        )),
{
    let sp = match system_prompt {
        Some(s) => s,
        None => return Err(ChatError::RoleNotFound(qualified_name(project_name, role_name))),
    };
    let template = match template {
        Some(t) => t,
        None => return Err(ChatError::Internal(to_owned_string("Template 'roles/role_switch_prompt' not found"))),
    };
    proof {
        reveal_strlit("{roleName}");
        reveal_strlit("{systemPrompt}");
    }
    let step = replace_str(template, "{roleName}", role_name);
    Ok(replace_str(step.as_str(), "{systemPrompt}", sp))
}

/// Checks a request to make `role_name` of `project_name` the chat's active
/// role, and gives the event that announces it: the chat must exist, and the
/// project must have that role (a system prompt for it).
pub fn check_set_role(chat_exists: bool, chat_id: i64, project_name: &str, role_name: &str, role_known: bool) -> (r: Result<ChatEvent, ChatError>)
    ensures
        !chat_exists ==> r matches Err(ChatError::ChatNotFound),
        chat_exists && !role_known ==> (r matches Err(ChatError::RoleNotFound(m)) && m@ == qualified(project_name@, role_name@)),
        chat_exists && role_known ==> (r matches Ok(ChatEvent::RoleChanged { chat_id: c, project_name: p, role_name: n })
            && c == chat_id && p@ == project_name@ && n@ == role_name@),
{
    if !chat_exists {
        return Err(ChatError::ChatNotFound);
    }
    if !role_known {
        return Err(ChatError::RoleNotFound(qualified_name(project_name, role_name)));
    }
    Ok(ChatEvent::RoleChanged { chat_id, project_name: to_owned_string(project_name), role_name: to_owned_string(role_name) })
}

/// The roles of the attached projects, in the order of the projects and, in
/// each, of its roles.
pub open spec fn all_roles(projects: Seq<(String, Vec<(String, String)>)>) -> Seq<RoleEntry>
    decreases projects.len(),
{
    if projects.len() == 0 {
        Seq::empty()
    } else {
        all_roles(projects.drop_last()) + project_roles(projects.last())
    }
}

/// The roles of one project.
pub open spec fn project_roles(p: (String, Vec<(String, String)>)) -> Seq<RoleEntry> {
    p.1@.map_values(|r: (String, String)| RoleEntry { project_name: p.0, role_name: r.0, when_to_use: r.1 })
}

/// The roles of the attached projects (each given with its roles' names and
/// when to use them), in order.
pub fn collect_roles(projects: &Vec<(String, Vec<(String, String)>)>) -> (r: Vec<RoleEntry>)
    ensures
        r@.len() == all_roles(projects@).len(),
        forall|k: int| 0 <= k < r@.len() ==> same_role(#[trigger] r@[k], all_roles(projects@)[k]),
{
    let mut r: Vec<RoleEntry> = Vec::new();
    let mut i: usize = 0;
    while i < projects.len()
        invariant
            i <= projects@.len(),
            r@.len() == all_roles(projects@.take(i as int)).len(),
            forall|k: int| 0 <= k < r@.len() ==> same_role(#[trigger] r@[k], all_roles(projects@.take(i as int))[k]),
        decreases projects@.len() - i,
    {
        let ghost base = r@;
        let ghost before = all_roles(projects@.take(i as int));
        let roles = &projects[i].1;
        let mut j: usize = 0;
        while j < roles.len()
            invariant
                i < projects@.len(),
                roles == projects@[i as int].1,
                j <= roles@.len(),
                r@.len() == base.len() + j,
                base.len() == before.len(),
                forall|k: int| 0 <= k < base.len() ==> r@[k] == base[k],
                forall|k: int| 0 <= k < base.len() ==> same_role(#[trigger] base[k], before[k]),
                forall|k: int| base.len() <= k < r@.len() ==> same_role(
                    #[trigger] r@[k],
                    RoleEntry {
                        project_name: projects@[i as int].0,
                        role_name: roles@[k - base.len()].0,
                        when_to_use: roles@[k - base.len()].1,
                    },
                ),
            decreases roles@.len() - j,
        {
            r.push(RoleEntry {
                project_name: projects[i].0.clone(),
                role_name: roles[j].0.clone(),
                when_to_use: roles[j].1.clone(),
            });
            j += 1;
        }
        proof {
            let p = projects@.take(i + 1);
            assert(p.drop_last() =~= projects@.take(i as int));
            let after = all_roles(p);
            assert(p.last() == projects@[i as int]);
            assert(after == before + project_roles(projects@[i as int]));
            assert forall|k: int| 0 <= k < r@.len() implies same_role(#[trigger] r@[k], after[k]) by {
                if k >= base.len() {
                    assert(after[k] == project_roles(projects@[i as int])[k - base.len()]);
                } else {
                    assert(r@[k] == base[k]);
                    assert(same_role(base[k], before[k]));
                }
            }
        }
        i += 1;
    }
    assert(projects@.take(projects@.len() as int) =~= projects@);
    r
}

/// Two role entries with the same texts.
pub open spec fn same_role(a: RoleEntry, b: RoleEntry) -> bool {
    a.project_name@ == b.project_name@ && a.role_name@ == b.role_name@ && a.when_to_use@ == b.when_to_use@
}

/// What a chat shows of one of its attached projects.
#[derive(Debug, Clone)]
pub struct ProjectInfo {
    pub name: String,
    pub has_mcp: bool,
    pub has_system_prompt: bool,
    pub has_roles: bool,
    pub role_names: Vec<String>,
}

/// The summary of an attached project: whether it brings MCP servers, a
/// system prompt and roles, and its roles' names.
pub fn project_info(name: String, project: &ProjectFacts) -> (r: ProjectInfo)
    ensures
        r.name == name,
        r.has_mcp == (project.mcp_ids@.len() > 0),
        r.has_system_prompt == (project.system_prompt is Some),
        r.has_roles == (project.role_names@.len() > 0),
        texts_of(r.role_names@) == texts_of(project.role_names@),
{
    let mut role_names: Vec<String> = Vec::new();
    let mut i: usize = 0;
    while i < project.role_names.len()
        invariant
            i <= project.role_names@.len(),
            role_names@.len() == i,
            forall|j: int| 0 <= j < i ==> (#[trigger] role_names@[j])@ == project.role_names@[j]@,
        decreases project.role_names@.len() - i,
    {
        role_names.push(project.role_names[i].clone());
        i += 1;
    }
    assert(texts_of(role_names@) =~= texts_of(project.role_names@));
    ProjectInfo {
        name,
        has_mcp: project.mcp_ids.len() > 0,
        has_system_prompt: project.system_prompt.is_some(),
        has_roles: project.role_names.len() > 0,
        role_names,
    }
}

/// The role whose switch prompt is owed to the chat: the active role, when a
/// switch is pending.
pub fn pending_role_switch(switch_pending: bool, active_role: Option<&(String, String)>) -> (r: Option<(String, String)>)
    ensures
        switch_pending && active_role is Some ==> (r matches Some(p) && p.0@ == (active_role->0).0@ && p.1@
            == (active_role->0).1@),
        !(switch_pending && active_role is Some) ==> r is None,
{
    if !switch_pending {
        return None;
    }
    match active_role {
        Some(role) => Some((role.0.clone(), role.1.clone())),
        None => None,
    }
}

/// A project attached to a chat, with the names of its roles.
#[derive(Debug, Clone)]
pub struct AttachedProject {
    pub name: String,
    pub role_names: Vec<String>,
}

/// `i` is the first project that offers the role `role`.
pub open spec fn first_with_role(projects: Seq<AttachedProject>, role: Seq<char>, i: int) -> bool {
    0 <= i < projects.len() && texts_of(projects[i].role_names@).contains(role) && forall|j: int|
        0 <= j < i ==> !texts_of(projects[j].role_names@).contains(role)
}

/// The first attached project that offers the role, if any.
pub fn find_role_project(projects: &Vec<AttachedProject>, role_name: &str) -> (r: Option<String>)
    ensures
        match r {
            Some(p) => exists|i: int| #[trigger] first_with_role(projects@, role_name@, i) && p@ == projects@[i].name@,
            None => forall|i: int| 0 <= i < projects@.len() ==> !texts_of((#[trigger] projects@[i]).role_names@).contains(role_name@),
        },
{
    let mut i: usize = 0;
    while i < projects.len()
        invariant
            i <= projects@.len(),
            forall|j: int| 0 <= j < i ==> !texts_of((#[trigger] projects@[j]).role_names@).contains(role_name@),
        decreases projects@.len() - i,
    {
        if holds_text(&projects[i].role_names, role_name) {
            assert(first_with_role(projects@, role_name@, i as int));
            return Some(projects[i].name.clone());
        }
        i += 1;
    }
    None
}

/// Detaching `project_name` clears the active role when the role comes from it.
pub fn clears_active_role(active_role: Option<&(String, String)>, project_name: &str) -> (b: bool)
    ensures
        b == (active_role is Some && (active_role->0).0@ == project_name@),
{
    match active_role {
        Some(role) => str_eq(role.0.as_str(), project_name),
        None => false,
    }
}

/// The heading that marks the TODO contract in a system message.
pub open spec fn contract_marker() -> Seq<char> {
    "rhd_set_todo_list Tool Contract"@
}

/// The TODO tool contract is injected into a chat only before its first user
/// message, and only once.
pub open spec fn needs_contract(messages: Seq<(Seq<char>, Seq<char>)>) -> bool {
    &&& forall|i: int| 0 <= i < messages.len() ==> (#[trigger] messages[i]).0 != "user"@
    &&& forall|i: int| 0 <= i < messages.len() ==> !((#[trigger] messages[i]).0 == "system"@
        && contains_seq(messages[i].1, contract_marker()))
}

/// The (role, content) texts of stored messages.
pub open spec fn message_texts(v: Seq<(String, String)>) -> Seq<(Seq<char>, Seq<char>)> {
    v.map_values(|m: (String, String)| (m.0@, m.1@))
}

/// Should the TODO tool contract be added to a chat with these (role,
/// content) messages?
pub fn needs_todo_contract(messages: &Vec<(String, String)>) -> (b: bool)
    ensures
        b == needs_contract(message_texts(messages@)),
{
    let ghost m = message_texts(messages@);
    let mut i: usize = 0;
    while i < messages.len()
        invariant
            i <= messages@.len(),
            m == message_texts(messages@),
            forall|j: int| 0 <= j < i ==> (#[trigger] m[j]).0 != "user"@,
        decreases messages@.len() - i,
    {
        assert(m[i as int] == (messages@[i as int].0@, messages@[i as int].1@));
        if str_eq(messages[i].0.as_str(), "user") {
            return false;
        }
        i += 1;
    }
    let mut k: usize = 0;
    while k < messages.len()
        invariant
            k <= messages@.len(),
            m == message_texts(messages@),
            forall|j: int| 0 <= j < messages@.len() ==> (#[trigger] m[j]).0 != "user"@,
            forall|j: int| 0 <= j < k ==> !((#[trigger] m[j]).0 == "system"@ && contains_seq(m[j].1, contract_marker())),
        decreases messages@.len() - k,
    {
        assert(m[k as int] == (messages@[k as int].0@, messages@[k as int].1@));
        if str_eq(messages[k].0.as_str(), "system") && str_contains(messages[k].1.as_str(), "rhd_set_todo_list Tool Contract") {
            return false;
        }
        k += 1;
    }
    true
}

/// The TODO contract is added at most once: once a system message that holds
/// it is in the chat, no further one is needed.
pub proof fn law_contract_added_once(messages: Seq<(Seq<char>, Seq<char>)>, contract: Seq<char>)
    requires
        contains_seq(contract, contract_marker()),
    ensures
        !needs_contract(messages.push(("system"@, contract))),
{
    let m = messages.push(("system"@, contract));
    let i: int = messages.len() as int;
    assert(m[i] == ("system"@, contract));
    assert(m[i].0 == "system"@ && contains_seq(m[i].1, contract_marker()));
}

/// The TODO contract is only added before the user's first message: once the
/// user has written, it is never needed.
pub proof fn law_no_contract_after_user_message(messages: Seq<(Seq<char>, Seq<char>)>, content: Seq<char>)
    ensures
        !needs_contract(messages.push(("user"@, content))),
{
    let m = messages.push(("user"@, content));
    let i: int = messages.len() as int;
    assert(m[i].0 == "user"@);
}

} // verus!
