//! Tool names: MCP tools are offered to the AI as `mcp_id/tool_name`, and a
//! tool call is routed back by that prefix.
use crate::text::{
    append_str, chars_of, first_index, nat_decimal, push_char, push_u64, str_eq, to_owned_string,
    string_from_chars,
};
use vstd::prelude::*;

verus! {

/// Name of the built-in tool that switches the active role.
pub const RHD_SET_ROLE_TOOL_NAME: &'static str = "rhd_set_role";

/// Name of the built-in tool that replaces the TODO list.
pub const RHD_SET_TODO_LIST_TOOL_NAME: &'static str = "rhd_set_todo_list";

/// The part of a tool name before its first `/` (the whole name when it has
/// none).
pub open spec fn mcp_id_of(name: Seq<char>) -> Seq<char> {
    match first_index(name, '/') {
        Some(k) => name.take(k),
        None => name,
    }
}

/// A tool name split at its first `/` into (MCP id, bare name); a name
/// without `/` has an empty MCP id.
pub open spec fn split_name(name: Seq<char>) -> (Seq<char>, Seq<char>) {
    match first_index(name, '/') {
        Some(k) => (name.take(k), name.skip(k + 1)),
        None => (Seq::empty(), name),
    }
}

/// The name under which an MCP server's tool is offered: `mcp_id/tool_name`.
pub open spec fn prefixed_name(mcp_id: Seq<char>, tool: Seq<char>) -> Seq<char> {
    mcp_id + seq!['/'] + tool
}

/// The MCP id a tool name carries.
pub fn extract_mcp_id_from_tool_name(tool_name: &str) -> (r: String)
    ensures
        r@ == mcp_id_of(tool_name@),
{
    let v = chars_of(tool_name);
    assert(v@.skip(0) =~= v@);
    match crate::text::find_char(&v, '/', 0) {
        Some(k) => string_from_chars(&v, 0, k),
        None => {
            let r = string_from_chars(&v, 0, v.len());
            assert(v@.subrange(0, v@.len() as int) =~= v@);
            r
        },
    }
}

/// Splits a tool name into (MCP id, bare tool name).
pub fn split_tool_name(tool_name: &str) -> (r: (String, String))
    ensures
        (r.0@, r.1@) == split_name(tool_name@),
{
    let v = chars_of(tool_name);
    assert(v@.skip(0) =~= v@);
    match crate::text::find_char(&v, '/', 0) {
        Some(k) => {
            let id = string_from_chars(&v, 0, k);
            let bare = string_from_chars(&v, k + 1, v.len());
            assert(v@.skip(k + 1) =~= bare@);
            (id, bare)
        },
        None => {
            let bare = string_from_chars(&v, 0, v.len());
            assert(v@.subrange(0, v@.len() as int) =~= v@);
            (String::new(), bare)
        },
    }
}

/// The name under which an MCP server's tool is offered to the AI.
pub fn prefixed_tool_name(mcp_id: &str, tool_name: &str) -> (r: String)
    ensures
        r@ == prefixed_name(mcp_id@, tool_name@),
{
    let mut r = String::new();
    append_str(&mut r, mcp_id);
    push_char(&mut r, '/');
    append_str(&mut r, tool_name);
    assert(r@ =~= prefixed_name(mcp_id@, tool_name@));
    r
}

/// A tool offered as `mcp_id/tool` (with an MCP id that holds no `/`) is routed
/// back to that MCP id and that bare tool name.
pub proof fn law_prefixed_name_splits_back(mcp_id: Seq<char>, tool: Seq<char>)
    requires
        !mcp_id.contains('/'),
    ensures
        split_name(prefixed_name(mcp_id, tool)) == (mcp_id, tool),
        mcp_id_of(prefixed_name(mcp_id, tool)) == mcp_id,
{
    let n = prefixed_name(mcp_id, tool);
    assert forall|j: int| 0 <= j < mcp_id.len() implies n[j] != '/' by {
        assert(n[j] == mcp_id[j]);
        if mcp_id[j] == '/' {
            assert(mcp_id.contains('/'));
        }
    }
    assert(n[mcp_id.len() as int] == '/');
    crate::text::lemma_first_index_is(n, '/', mcp_id.len() as int);
    assert(n.take(mcp_id.len() as int) =~= mcp_id);
    assert(n.skip(mcp_id.len() as int + 1) =~= tool);
}

/// Where a tool call goes.
#[derive(Debug, PartialEq, Eq, Structural)]
pub enum ToolRoute {
    /// The built-in TODO list tool.
    SetTodoList,
    /// The built-in role tool.
    SetRole,
    /// The MCP client at this position of the client list.
    Mcp { index: usize },
    /// No tool of that name.
    Unknown,
}

/// The route of a call to `name`, given the MCP ids of the connected clients
/// in order: the built-in tools by their names, else the first client whose
/// id is the name's MCP id.
pub open spec fn route_of(name: Seq<char>, ids: Seq<Seq<char>>) -> ToolRoute {
    if name == RHD_SET_TODO_LIST_TOOL_NAME@ {
        ToolRoute::SetTodoList
    } else if name == RHD_SET_ROLE_TOOL_NAME@ {
        ToolRoute::SetRole
    } else if exists|i: int| #[trigger] first_match(ids, split_name(name).0, i) {
        ToolRoute::Mcp {
            index: (choose|i: int| #[trigger] first_match(ids, split_name(name).0, i)) as usize,
        }
    } else {
        ToolRoute::Unknown
    }
}

/// `i` is the first position of `x` in `ids`.
pub open spec fn first_match(ids: Seq<Seq<char>>, x: Seq<char>, i: int) -> bool {
    0 <= i < ids.len() && ids[i] == x && forall|j: int| 0 <= j < i ==> ids[j] != x
}

/// The texts of a list of strings.
pub open spec fn id_texts(v: Seq<String>) -> Seq<Seq<char>> {
    v.map_values(|s: String| s@)
}

/// The position of the first client whose MCP id is `mcp_id`.
pub fn find_client(client_mcp_ids: &Vec<String>, mcp_id: &str) -> (r: Option<usize>)
    ensures
        match r {
            Some(i) => first_match(id_texts(client_mcp_ids@), mcp_id@, i as int),
            None => forall|i: int| !(#[trigger] first_match(id_texts(client_mcp_ids@), mcp_id@, i)),
        },
{
    let ghost ids = id_texts(client_mcp_ids@);
    let mut i: usize = 0;
    while i < client_mcp_ids.len()
        invariant
            i <= client_mcp_ids@.len(),
            ids == id_texts(client_mcp_ids@),
            forall|j: int| 0 <= j < i ==> ids[j] != mcp_id@,
        decreases client_mcp_ids@.len() - i,
    {
        assert(ids[i as int] == client_mcp_ids@[i as int]@);
        if str_eq(client_mcp_ids[i].as_str(), mcp_id) {
            return Some(i);
        }
        i += 1;
    }
    proof {
        assert forall|k: int| !(#[trigger] first_match(ids, mcp_id@, k)) by {
            if first_match(ids, mcp_id@, k) {
                assert(ids[k] != mcp_id@);
            }
        }
    }
    None
}

/// The first position that satisfies `first_match` is the only one.
pub proof fn lemma_first_match_unique(ids: Seq<Seq<char>>, x: Seq<char>, i: int, k: int)
    requires
        first_match(ids, x, i),
        first_match(ids, x, k),
    ensures
        i == k,
{
    if i < k {
        assert(ids[i] != x);
    } else if k < i {
        assert(ids[k] != x);
    }
}

/// Decides where a call to `tool_name` goes.
pub fn route_tool_call(tool_name: &str, client_mcp_ids: &Vec<String>) -> (r: ToolRoute)
    ensures
        r == route_of(tool_name@, id_texts(client_mcp_ids@)),
{
    if str_eq(tool_name, RHD_SET_TODO_LIST_TOOL_NAME) {
        return ToolRoute::SetTodoList;
    }
    if str_eq(tool_name, RHD_SET_ROLE_TOOL_NAME) {
        return ToolRoute::SetRole;
    }
    let (mcp_id, _bare) = split_tool_name(tool_name);
    let ghost ids = id_texts(client_mcp_ids@);
    match find_client(client_mcp_ids, mcp_id.as_str()) {
        Some(i) => {
            proof {
                let x = split_name(tool_name@).0;
                let c = choose|k: int| #[trigger] first_match(ids, x, k);
                lemma_first_match_unique(ids, x, i as int, c);
            }
            ToolRoute::Mcp { index: i }
        },
        None => ToolRoute::Unknown,
    }
}

/// The error text for a call to a tool that does not exist.
pub open spec fn unknown_tool_text(name: Seq<char>) -> Seq<char> {
    "Error: unknown tool '"@ + name + "'"@
}

/// The error text for a call to a tool that does not exist.
pub fn unknown_tool_message(tool_name: &str) -> (r: String)
    ensures
        r@ == unknown_tool_text(tool_name@),
{
    let mut r = String::new();
    append_str(&mut r, "Error: unknown tool '");
    append_str(&mut r, tool_name);
    append_str(&mut r, "'");
    assert(r@ =~= unknown_tool_text(tool_name@));
    r
}

/// The id given to the `n`-th tool call: `call_n`.
pub fn tool_call_id(n: u64) -> (r: String)
    ensures
        r@ == "call_"@ + nat_decimal(n as nat),
{
    let mut r = String::new();
    append_str(&mut r, "call_");
    push_u64(&mut r, n);
    r
}

/// The id text of tool call number `number`: `call_` and the number.
pub open spec fn tool_call_id_text(number: nat) -> Seq<char> {
    "call_"@ + nat_decimal(number)
}

/// The number the counter hands out `i` steps after `start`: it counts in
/// `u64` and wraps around past `u64::MAX`.
pub open spec fn counter_number(start: nat, i: nat) -> nat {
    ((start + i) % 0x1_0000_0000_0000_0000) as nat
}

/// Numbers tool calls so that no two get the same id: each batch of calls
/// the AI asks for is numbered on from the last one.
pub struct ToolCallIds {
    next: u64,
}

impl ToolCallIds {
    /// The number the next tool call gets.
    pub closed spec fn next_number(&self) -> nat {
        self.next as nat
    }

    /// A counter that starts at 0.
    pub fn new() -> (r: Self)
        ensures
            r.next_number() == 0,
    {
        ToolCallIds { next: 0 }
    }

    /// Ids for a batch of `n` tool calls, in order: `call_k` for the next `n`
    /// numbers `k` of the counter.
    pub fn assign(&mut self, n: usize) -> (ids: Vec<String>)
        ensures
            ids@.len() == n,
            forall|i: int|
                0 <= i < n ==> #[trigger] ids@[i]@ == tool_call_id_text(counter_number(old(self).next_number(), i as nat)),
            final(self).next_number() == counter_number(old(self).next_number(), n as nat),
    {
        let ghost start = self.next as nat;
        let mut ids: Vec<String> = Vec::new();
        let mut k: usize = 0;
        while k < n
            invariant
                k <= n,
                start < 0x1_0000_0000_0000_0000,
                ids@.len() == k,
                self.next as nat == counter_number(start, k as nat),
                forall|i: int| 0 <= i < k ==> #[trigger] ids@[i]@ == tool_call_id_text(counter_number(start, i as nat)),
            decreases n - k,
        {
            let id = tool_call_id(self.next);
            ids.push(id);
            assert(counter_number(start, (k + 1) as nat) == (if self.next == u64::MAX { 0 } else { self.next + 1 }));
            self.next = self.next.wrapping_add(1);
            k += 1;
        }
        assert(start == counter_number(start, 0));
        ids
    }
}

/// No two tool calls numbered by one counter get the same id, as long as it
/// hands out fewer than 2^64 of them.
pub proof fn law_tool_call_ids_unique(start: nat, i: nat, j: nat)
    requires
        start < 0x1_0000_0000_0000_0000,
        i < j < 0x1_0000_0000_0000_0000,
    ensures
        tool_call_id_text(counter_number(start, i)) != tool_call_id_text(counter_number(start, j)),
{
    let a = counter_number(start, i);
    let b = counter_number(start, j);
    assert(a != b);
    if tool_call_id_text(a) == tool_call_id_text(b) {
        reveal_strlit("call_");
        assert(nat_decimal(a) =~= tool_call_id_text(a).skip(5));
        assert(nat_decimal(b) =~= tool_call_id_text(b).skip(5));
        crate::text::lemma_nat_decimal_injective(a, b);
    }
}

/// Has the tool loop used up its iterations?
pub fn iteration_limit_reached(iterations: u32, max_iterations: u32) -> (b: bool)
    ensures
        b == (iterations >= max_iterations),
{
    iterations >= max_iterations
}

/// The error text when the tool loop runs out of iterations.
pub fn max_iterations_message(max_iterations: u32) -> (r: String)
    ensures
        r@ == "max tool iterations ("@ + nat_decimal(max_iterations as nat) + ") exceeded"@,
{
    let mut r = String::new();
    append_str(&mut r, "max tool iterations (");
    push_u64(&mut r, max_iterations as u64);
    append_str(&mut r, ") exceeded");
    r
}

/// The built-in tools a chat offers, by name: the TODO list tool always, the
/// role tool when an attached project has roles.
pub fn builtin_tool_names(projects_have_roles: bool) -> (r: Vec<String>)
    ensures
        r@.len() == if projects_have_roles { 2int } else { 1int },
        r@[0]@ == RHD_SET_TODO_LIST_TOOL_NAME@,
        projects_have_roles ==> r@[1]@ == RHD_SET_ROLE_TOOL_NAME@,
{
    let mut r: Vec<String> = Vec::new();
    r.push(to_owned_string(RHD_SET_TODO_LIST_TOOL_NAME));
    if projects_have_roles {
        r.push(to_owned_string(RHD_SET_ROLE_TOOL_NAME));
    }
    r
}

} // verus!
