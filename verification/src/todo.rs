//! The TODO checklist that the AI keeps through the `rhd_set_todo_list` tool:
//! parsing its markdown form and rendering it into the environment details.
use crate::templates::TemplateLoaderRef;
use crate::text::{
    is_first_index, lemma_first_index_exists, lemma_first_index_is, append_chars, append_str, chars_of, find_char, first_index, has_prefix, nat_decimal,
    occurs_at, push_u64, replace_all, replace_str, string_from_chars, trim, trim_bounds,
};
use vstd::prelude::*;

verus! {

/// The state of one TODO item.
#[derive(Debug, Clone, Copy, PartialEq, Eq, Structural)]
pub enum TodoStatus {
    Pending,
    InProgress,
    Completed,
    Discarded,
}

/// One item of the TODO list.
#[derive(Debug, Clone, PartialEq)]
pub struct TodoItem {
    pub content: String,
    pub status: TodoStatus,
}

/// The status and the text of an item.
pub open spec fn item_view(i: TodoItem) -> (TodoStatus, Seq<char>) {
    (i.status, i.content@)
}

/// The views of a list of items.
pub open spec fn items_view(s: Seq<TodoItem>) -> Seq<(TodoStatus, Seq<char>)> {
    s.map_values(|i: TodoItem| item_view(i))
}

/// The item a line describes, if any: the trimmed line starts with `[ ] `
/// (pending), `[-] ` (in progress), `[x] ` (completed) or `[!] ` (discarded),
/// and the rest of it is the item's text.
pub open spec fn parse_line(l: Seq<char>) -> Option<(TodoStatus, Seq<char>)> {
    let t = trim(l);
    if has_prefix(t, "[ ] "@) {
        Some((TodoStatus::Pending, t.skip(4)))
    } else if has_prefix(t, "[-] "@) {
        Some((TodoStatus::InProgress, t.skip(4)))
    } else if has_prefix(t, "[x] "@) {
        Some((TodoStatus::Completed, t.skip(4)))
    } else if has_prefix(t, "[!] "@) {
        Some((TodoStatus::Discarded, t.skip(4)))
    } else {
        None
    }
}

/// The items of a checklist, one per line that describes one, in order.
pub open spec fn todo_items(s: Seq<char>) -> Seq<(TodoStatus, Seq<char>)>
    decreases s.len(),
{
    match first_index(s, '\n') {
        None => option_seq(parse_line(s)),
        Some(k) => option_seq(parse_line(s.take(k))) + todo_items(s.skip(k + 1)),
    }
}

/// Parsing is line by line: the items of two texts joined by a newline are
/// the items of the first followed by those of the second.
pub proof fn law_items_of_joined_lines(a: Seq<char>, b: Seq<char>)
    ensures
        todo_items(a + seq!['\n'] + b) == todo_items(a) + todo_items(b),
    decreases a.len(),
{
    let t = a + seq!['\n'] + b;
    match first_index(a, '\n') {
        None => {
            assert forall|j: int| 0 <= j < a.len() implies t[j] != '\n' by {
                assert(t[j] == a[j]);
                if a[j] == '\n' {
                    lemma_first_index_exists(a, '\n', j);
                }
            }
            assert(is_first_index(t, '\n', a.len() as int));
            lemma_first_index_is(t, '\n', a.len() as int);
            assert(t.take(a.len() as int) =~= a);
            assert(t.skip(a.len() as int + 1) =~= b);
            assert(todo_items(a) == option_seq(parse_line(a)));
        },
        Some(k) => {
            assert(is_first_index(a, '\n', k));
            assert(is_first_index(t, '\n', k)) by {
                assert forall|j: int| 0 <= j < k implies t[j] != '\n' by {
                    assert(t[j] == a[j]);
                }
            }
            lemma_first_index_is(t, '\n', k);
            let rest = a.skip(k + 1);
            assert(t.take(k) =~= a.take(k));
            assert(t.skip(k + 1) =~= rest + seq!['\n'] + b);
            law_items_of_joined_lines(rest, b);
            assert(todo_items(t) =~= option_seq(parse_line(a.take(k))) + todo_items(rest) + todo_items(b));
        },
    }
}

/// Zero or one element./// Zero or one element.
pub open spec fn option_seq<T>(o: Option<T>) -> Seq<T> {
    match o {
        Some(x) => seq![x],
        None => Seq::empty(),
    }
}

fn line_has_prefix(v: &Vec<char>, a: usize, b: usize, pat: &Vec<char>) -> (r: bool)
    requires
        a <= b <= v.len(),
    ensures
        r == has_prefix(v@.subrange(a as int, b as int), pat@),
{
    let r = pat.len() <= b - a && crate::text::matches_at(v, a, pat);
    proof {
        let t = v@.subrange(a as int, b as int);
        if pat@.len() <= b - a {
            assert(t.subrange(0, pat@.len() as int) =~= v@.subrange(a as int, a + pat@.len()));
        }
    }
    r
}

/// The item described by the line `v[lo..hi]`.
fn parse_todo_line(v: &Vec<char>, lo: usize, hi: usize) -> (r: Option<TodoItem>)
    requires
        lo <= hi <= v.len(),
    ensures
        match parse_line(v@.subrange(lo as int, hi as int)) {
            Some(p) => r is Some && item_view(r->0) == p,
            None => r is None,
        },
{
    let (a, b) = trim_bounds(v, lo, hi);
    let ghost t = v@.subrange(a as int, b as int);
    proof {
        reveal_strlit("[ ] ");
        reveal_strlit("[-] ");
        reveal_strlit("[x] ");
        reveal_strlit("[!] ");
    }
    let status = if line_has_prefix(v, a, b, &chars_of("[ ] ")) {
        TodoStatus::Pending
    } else if line_has_prefix(v, a, b, &chars_of("[-] ")) {
        TodoStatus::InProgress
    } else if line_has_prefix(v, a, b, &chars_of("[x] ")) {
        TodoStatus::Completed
    } else if line_has_prefix(v, a, b, &chars_of("[!] ")) {
        TodoStatus::Discarded
    } else {
        return None;
    };
    let content = string_from_chars(v, a + 4, b);
    assert(t.skip(4) =~= content@);
    Some(TodoItem { content, status })
}

/// The items of the text from `pos`: those of the line up to `nl`, then the rest.
proof fn lemma_items_step(v: Seq<char>, pos: int, nl: int)
    requires
        0 <= pos <= nl < v.len(),
        first_index(v.skip(pos), '\n') == Some(nl - pos),
    ensures
        todo_items(v.skip(pos)) == option_seq(parse_line(v.subrange(pos, nl))) + todo_items(
            v.skip(nl + 1),
        ),
{
    let t = v.skip(pos);
    assert(t.take(nl - pos) =~= v.subrange(pos, nl));
    assert(t.skip(nl - pos + 1) =~= v.skip(nl + 1));
}

/// The items of the text from `pos` when no newline follows: those of its last line.
proof fn lemma_items_last(v: Seq<char>, pos: int)
    requires
        0 <= pos <= v.len(),
        first_index(v.skip(pos), '\n') is None,
    ensures
        todo_items(v.skip(pos)) == option_seq(parse_line(v.subrange(pos, v.len() as int))),
{
    assert(v.skip(pos) =~= v.subrange(pos, v.len() as int));
}

/// Parses a markdown checklist into TODO items. Lines that describe no item
/// (blank lines, other text) are skipped; parsing never fails.
pub fn parse_todo_list(input: &str) -> (r: Result<Vec<TodoItem>, String>)
    ensures
        r is Ok,
        items_view(r->Ok_0@) == todo_items(input@),
{
    let v = chars_of(input);
    let mut items: Vec<TodoItem> = Vec::new();
    let mut pos: usize = 0;
    assert(v@.skip(0) =~= v@);
    loop
        invariant
            pos <= v.len(),
            v@ == input@,
            todo_items(input@) == items_view(items@) + todo_items(v@.skip(pos as int)),
        decreases v.len() - pos,
    {
        let ghost before = items@;
        match find_char(&v, '\n', pos) {
            Some(nl) => {
                proof {
                    lemma_items_step(v@, pos as int, nl as int);
                }
                if let Some(item) = parse_todo_line(&v, pos, nl) {
                    items.push(item);
                }
                assert(items_view(items@) =~= items_view(before) + option_seq(
                    parse_line(v@.subrange(pos as int, nl as int)),
                ));
                pos = nl + 1;
            },
            None => {
                proof {
                    lemma_items_last(v@, pos as int);
                }
                if let Some(item) = parse_todo_line(&v, pos, v.len()) {
                    items.push(item);
                }
                assert(items_view(items@) =~= items_view(before) + option_seq(
                    parse_line(v@.subrange(pos as int, v@.len() as int)),
                ));
                return Ok(items);
            },
        }
    }
}

/// The text that names a status in the rendered table.
pub open spec fn status_text(s: TodoStatus) -> Seq<char> {
    match s {
        TodoStatus::Pending => "Pending"@,
        TodoStatus::InProgress => "In Progress"@,
        TodoStatus::Completed => "Completed"@,
        TodoStatus::Discarded => "Discarded"@,
    }
}

/// The table row of the item at position `i` (numbered from 1).
pub open spec fn todo_row(i: nat, item: (TodoStatus, Seq<char>)) -> Seq<char> {
    "| "@ + nat_decimal(i + 1) + " | "@ + item.1 + " | "@ + status_text(item.0) + " |\n"@
}

/// Does `s` end with `t`?
pub open spec fn ends_with(s: Seq<char>, t: Seq<char>) -> bool {
    t.len() <= s.len() && s.subrange(s.len() - t.len(), s.len() as int) == t
}

/// A row ends with the name of its item's status: `Pending`, `In Progress`,
/// `Completed` or `Discarded`, as the last cell of the row.
pub proof fn lemma_row_names_status(i: nat, item: (TodoStatus, Seq<char>))
    ensures
        item.0 is Pending ==> ends_with(todo_row(i, item), " | Pending |\n"@),
        item.0 is InProgress ==> ends_with(todo_row(i, item), " | In Progress |\n"@),
        item.0 is Completed ==> ends_with(todo_row(i, item), " | Completed |\n"@),
        item.0 is Discarded ==> ends_with(todo_row(i, item), " | Discarded |\n"@),
{
    reveal_strlit(" | ");
    reveal_strlit(" |\n");
    reveal_strlit("Pending");
    reveal_strlit("In Progress");
    reveal_strlit("Completed");
    reveal_strlit("Discarded");
    reveal_strlit(" | Pending |\n");
    reveal_strlit(" | In Progress |\n");
    reveal_strlit(" | Completed |\n");
    reveal_strlit(" | Discarded |\n");
    let row = todo_row(i, item);
    let head = "| "@ + nat_decimal(i + 1) + " | "@ + item.1;
    let tail = " | "@ + status_text(item.0) + " |\n"@;
    assert(row =~= head + tail);
    assert(row.subrange(row.len() - tail.len(), row.len() as int) =~= tail);
    match item.0 {
        TodoStatus::Pending => assert(tail =~= " | Pending |\n"@),
        TodoStatus::InProgress => assert(tail =~= " | In Progress |\n"@),
        TodoStatus::Completed => assert(tail =~= " | Completed |\n"@),
        TodoStatus::Discarded => assert(tail =~= " | Discarded |\n"@),
    }
}

/// Every rendered row names its own item's status: the rows of the first
/// `k + 1` items end with the status of item `k` — `| Pending |`,
/// `| In Progress |`, `| Completed |` or `| Discarded |`.
pub proof fn law_rendered_rows_name_their_status(items: Seq<(TodoStatus, Seq<char>)>, k: int)
    requires
        0 <= k < items.len(),
    ensures
        items[k].0 is Pending ==> ends_with(todo_rows(items.take(k + 1)), " | Pending |\n"@),
        items[k].0 is InProgress ==> ends_with(todo_rows(items.take(k + 1)), " | In Progress |\n"@),
        items[k].0 is Completed ==> ends_with(todo_rows(items.take(k + 1)), " | Completed |\n"@),
        items[k].0 is Discarded ==> ends_with(todo_rows(items.take(k + 1)), " | Discarded |\n"@),
{
    let pre = items.take(k + 1);
    assert(pre.drop_last() =~= items.take(k));
    assert(pre.last() == items[k]);
    let before = todo_rows(items.take(k));
    let row = todo_row(k as nat, items[k]);
    assert(todo_rows(pre) == before + row);
    lemma_row_names_status(k as nat, items[k]);
    let all = before + row;
    assert forall|t: Seq<char>| ends_with(row, t) implies ends_with(all, t) by {
        assert(all.subrange(all.len() - t.len(), all.len() as int) =~= row.subrange(
            row.len() - t.len(),
            row.len() as int,
        ));
    }
}

/// The rendered table is built row by row: no items give no rows, and the
/// rows of the first `k + 1` items are those of the first `k` followed by
/// `| k+1 | content | status |` and a line break, where the status reads
/// `Pending`, `In Progress`, `Completed` or `Discarded`.
pub proof fn law_rendered_row(items: Seq<(TodoStatus, Seq<char>)>, k: int)
    requires
        0 <= k < items.len(),
    ensures
        todo_rows(Seq::<(TodoStatus, Seq<char>)>::empty()) == Seq::<char>::empty(),
        todo_rows(items.take(k + 1)) == todo_rows(items.take(k)) + "| "@ + nat_decimal((k + 1) as nat) + " | "@
            + items[k].1 + " | "@ + (match items[k].0 {
            TodoStatus::Pending => "Pending"@,
            TodoStatus::InProgress => "In Progress"@,
            TodoStatus::Completed => "Completed"@,
            TodoStatus::Discarded => "Discarded"@,
        }) + " |\n"@,
{
    let pre = items.take(k + 1);
    assert(pre.drop_last() =~= items.take(k));
    assert(pre.last() == items[k]);
    assert(todo_rows(pre) =~= todo_rows(items.take(k)) + "| "@ + nat_decimal((k + 1) as nat) + " | "@ + items[k].1
        + " | "@ + status_text(items[k].0) + " |\n"@);
}

/// Distinct statuses are rendered with distinct names.
pub proof fn law_status_names_distinct(a: TodoStatus, b: TodoStatus)
    requires
        a != b,
    ensures
        status_text(a) != status_text(b),
{
    reveal_strlit("Pending");
    reveal_strlit("In Progress");
    reveal_strlit("Completed");
    reveal_strlit("Discarded");
    if status_text(a) == status_text(b) {
        assert(status_text(a)[0] == status_text(b)[0]);
        assert(status_text(a).len() == status_text(b).len());
    }
}

/// The table rows of a list of items.
pub open spec fn todo_rows(items: Seq<(TodoStatus, Seq<char>)>) -> Seq<char>
    decreases items.len(),
{
    if items.len() == 0 {
        Seq::empty()
    } else {
        todo_rows(items.drop_last()) + todo_row((items.len() - 1) as nat, items.last())
    }
}

/// The environment details for a TODO list and the active role (project,
/// role), from the templates they need: the empty-list text or the table
/// template, and the details template with or without a role. `None` when a
/// needed template is missing.
pub open spec fn environment_details(
    items: Seq<(TodoStatus, Seq<char>)>,
    role: Option<(Seq<char>, Seq<char>)>,
    empty_list: Option<Seq<char>>,
    with_items: Option<Seq<char>>,
    with_role: Option<Seq<char>>,
    no_role: Option<Seq<char>>,
) -> Option<Seq<char>> {
    let todo = if items.len() == 0 {
        empty_list
    } else {
        match with_items {
            Some(t) => Some(replace_all(t, "{todoItems}"@, todo_rows(items))),
            None => None,
        }
    };
    let details = if role is Some {
        with_role
    } else {
        no_role
    };
    match (todo, details) {
        (Some(todo), Some(details)) => {
            let filled = replace_all(details, "{todoItems}"@, todo);
            match role {
                Some((project, name)) => Some(
                    replace_all(filled, "{currentRoleName}"@, name + " ("@ + project + ")"@),
                ),
                None => Some(filled),
            }
        },
        _ => None,
    }
}

fn status_str(s: TodoStatus) -> (r: &'static str)
    ensures
        r@ == status_text(s),
{
    match s {
        TodoStatus::Pending => "Pending",
        TodoStatus::InProgress => "In Progress",
        TodoStatus::Completed => "Completed",
        TodoStatus::Discarded => "Discarded",
    }
}

/// The table rows of the items.
pub fn render_todo_rows(items: &[TodoItem]) -> (r: String)
    ensures
        r@ == todo_rows(items_view(items@)),
{
    let mut out = String::new();
    let mut i: usize = 0;
    while i < items.len()
        invariant
            i <= items@.len(),
            out@ == todo_rows(items_view(items@.take(i as int))),
        decreases items@.len() - i,
    {
        let ghost before = out@;
        append_str(&mut out, "| ");
        push_u64(&mut out, (i as u64) + 1);
        append_str(&mut out, " | ");
        append_str(&mut out, items[i].content.as_str());
        append_str(&mut out, " | ");
        append_str(&mut out, status_str(items[i].status));
        append_str(&mut out, " |\n");
        proof {
            let s = items_view(items@.take(i + 1));
            assert(s.drop_last() =~= items_view(items@.take(i as int)));
            assert(s.last() == item_view(items@[i as int]));
            assert(out@ =~= before + todo_row(i as nat, item_view(items@[i as int])));
        }
        i += 1;
    }
    assert(items@.take(items@.len() as int) =~= items@);
    out
}

/// Renders the environment details from the given templates (see
/// `environment_details`).
pub fn render_environment_details(
    todo_items: &[TodoItem],
    active_role: Option<&(String, String)>,
    empty_list: Option<&str>,
    with_items: Option<&str>,
    with_role: Option<&str>,
    no_role: Option<&str>,
) -> (r: Option<String>)
    ensures
        r matches Some(s) ==> environment_details(
            items_view(todo_items@),
            role_view(active_role),
            text_of(empty_list),
            text_of(with_items),
            text_of(with_role),
            text_of(no_role),
        ) == Some(s@),
        r is None ==> environment_details(
            items_view(todo_items@),
            role_view(active_role),
            text_of(empty_list),
            text_of(with_items),
            text_of(with_role),
            text_of(no_role),
        ) is None,
{
    proof {
        reveal_strlit("{todoItems}");
        reveal_strlit("{currentRoleName}");
    }
    let todo = if todo_items.len() == 0 {
        match empty_list {
            Some(t) => crate::text::to_owned_string(t),
            None => return None,
        }
    } else {
        match with_items {
            Some(t) => {
                let rows = render_todo_rows(todo_items);
                replace_str(t, "{todoItems}", rows.as_str())
            },
            None => return None,
        }
    };
    let details = match active_role {
        Some(_) => with_role,
        None => no_role,
    };
    let details = match details {
        Some(d) => d,
        None => return None,
    };
    let filled = replace_str(details, "{todoItems}", todo.as_str());
    match active_role {
        Some(role) => {
            let mut label = String::new();
            append_str(&mut label, role.1.as_str());
            append_str(&mut label, " (");
            append_str(&mut label, role.0.as_str());
            append_str(&mut label, ")");
            assert(label@ =~= role.1@ + " ("@ + role.0@ + ")"@);
            Some(replace_str(filled.as_str(), "{currentRoleName}", label.as_str()))
        },
        None => Some(filled),
    }
}

/// The texts of an optional string.
pub open spec fn text_of(s: Option<&str>) -> Option<Seq<char>> {
    match s {
        Some(t) => Some(t@),
        None => None,
    }
}

/// The texts of an optional (project, role) pair.
pub open spec fn role_view(r: Option<&(String, String)>) -> Option<(Seq<char>, Seq<char>)> {
    match r {
        Some(p) => Some((p.0@, p.1@)),
        None => None,
    }
}

/// The texts of an optional owned string.
pub open spec fn owned_text(s: Option<String>) -> Option<Seq<char>> {
    match s {
        Some(t) => Some(t@),
        None => None,
    }
}

/// `r` is what the environment details come to with templates that `lookup`
/// may give: the list template (`environment/todo_list_empty` for an empty
/// list, else `environment/todo_list_with_items`), then, when the list
/// template was there, the details template (`environment/details_with_role`
/// when a role is active, else `environment/details_no_role`).
pub open spec fn injected_details<F: Fn(&str) -> Option<String>>(
    lookup: F,
    items: Seq<(TodoStatus, Seq<char>)>,
    role: Option<(Seq<char>, Seq<char>)>,
    r: Option<String>,
) -> bool {
    exists|te: Option<String>, ti: Option<String>, tw: Option<String>, tn: Option<String>|
        {
            &&& (items.len() == 0 ==> call_ensures(lookup, ("environment/todo_list_empty",), te))
            &&& (items.len() > 0 ==> call_ensures(lookup, ("environment/todo_list_with_items",), ti))
            &&& (role is Some ==> call_ensures(lookup, ("environment/details_with_role",), tw) || owned_text(
                if items.len() == 0 { te } else { ti },
            ) is None)
            &&& (role is None ==> call_ensures(lookup, ("environment/details_no_role",), tn) || owned_text(
                if items.len() == 0 { te } else { ti },
            ) is None)
            &&& r matches Some(s) ==> environment_details(
                items,
                role,
                owned_text(te),
                owned_text(ti),
                owned_text(tw),
                owned_text(tn),
            ) == Some(s@)
            &&& r is None ==> environment_details(
                items,
                role,
                owned_text(te),
                owned_text(ti),
                owned_text(tw),
                owned_text(tn),
            ) is None
        }
}

/// Renders the environment details with the templates the loader gives:
/// `environment/todo_list_empty` or `environment/todo_list_with_items` for the
/// list, then `environment/details_with_role` or `environment/details_no_role`.
/// `None` when a template it needs is missing. Each template is asked for only
/// when it is needed.
pub fn render_environment_details_for_injection<F: Fn(&str) -> Option<String>>(
    template_loader: &TemplateLoaderRef<F>,
    todo_items: &[TodoItem],
    active_role: Option<&(String, String)>,
) -> (r: Option<String>)
    requires
        forall|n: &str| call_requires(template_loader.lookup(), (n,)),
    ensures
        injected_details(template_loader.lookup(), items_view(todo_items@), role_view(active_role), r),
{
    let mut te: Option<String> = None;
    let mut ti: Option<String> = None;
    let mut tw: Option<String> = None;
    let mut tn: Option<String> = None;
    if todo_items.len() == 0 {
        te = template_loader.get_template("environment/todo_list_empty");
    } else {
        ti = template_loader.get_template("environment/todo_list_with_items");
    }
    let have_list = if todo_items.len() == 0 { te.is_some() } else { ti.is_some() };
    if have_list {
        match active_role {
            Some(_) => {
                tw = template_loader.get_template("environment/details_with_role");
            },
            None => {
                tn = template_loader.get_template("environment/details_no_role");
            },
        }
    }
    let r = render_environment_details(
        todo_items,
        active_role,
        as_text(&te),
        as_text(&ti),
        as_text(&tw),
        as_text(&tn),
    );
    assert(items_view(todo_items@).len() == todo_items@.len());
    r
}

/// The message that tells the AI where its TODO list stands: when no list
/// was stored, the `environment/todo_list_empty` template as the loader gives
/// it; otherwise the environment details of the stored list's items (see
/// `injected_details`). `None` when a template it needs is missing.
pub fn todo_list_message<F: Fn(&str) -> Option<String>>(
    template_loader: &TemplateLoaderRef<F>,
    stored_list: Option<&str>,
    active_role: Option<&(String, String)>,
) -> (r: Option<String>)
    requires
        forall|n: &str| call_requires(template_loader.lookup(), (n,)),
    ensures
        stored_list is None ==> call_ensures(template_loader.lookup(), ("environment/todo_list_empty",), r),
        stored_list matches Some(list) ==> injected_details(
            template_loader.lookup(),
            todo_items(list@),
            role_view(active_role),
            r,
        ),
{
    match stored_list {
        None => template_loader.get_template("environment/todo_list_empty"),
        Some(list) => {
            let items = match parse_todo_list(list) {
                Ok(items) => items,
                Err(_) => return None,
            };
            render_environment_details_for_injection(template_loader, items.as_slice(), active_role)
        },
    }
}

fn as_text(s: &Option<String>) -> (r: Option<&str>)
    ensures
        text_of(r) == owned_text(*s),
{
    match s {
        Some(t) => Some(t.as_str()),
        None => None,
    }
}

} // verus!
