//! Results of scenario steps and the `%step.field%` placeholders that refer to
//! them.
use crate::keyed::StringMap;
use crate::text::{
    append_chars, append_str, bool_text, chars_of, find_char, first_index, has_prefix,
    int_decimal, is_first_index, lemma_first_index_is, lemma_first_index_none, matches_at,
    push_bool, push_i64, str_eq, string_from_chars,
};
use vstd::prelude::*;

verus! {

/// One line of a command's output, tagged with the stream it came from.
#[derive(Debug, Clone)]
pub enum OutputLine {
    Stdout(String),
    Stderr(String),
}

impl OutputLine {
    /// The line's text.
    pub fn content(&self) -> (s: &str)
        ensures
            s@ == line_text(*self),
    {
        match self {
            OutputLine::Stdout(s) => s.as_str(),
            OutputLine::Stderr(s) => s.as_str(),
        }
    }
}

/// The text of an output line.
pub open spec fn line_text(l: OutputLine) -> Seq<char> {
    match l {
        OutputLine::Stdout(s) => s@,
        OutputLine::Stderr(s) => s@,
    }
}

/// The texts of output lines, concatenated in order.
pub open spec fn lines_text(s: Seq<OutputLine>) -> Seq<char>
    decreases s.len(),
{
    if s.len() == 0 {
        Seq::empty()
    } else {
        lines_text(s.drop_last()) + line_text(s.last())
    }
}

/// The outcome of one scenario step.
#[derive(Debug, Clone)]
pub struct StepResult {
    pub exit_code: i32,
    pub stdout: String,
    pub stderr: String,
    pub stdout_stderr: Vec<OutputLine>,
    pub success: bool,
    pub message: Option<String>,
    pub cwd: Option<String>,
}

impl StepResult {
    /// Standard output and standard error, interleaved as they were produced.
    pub fn stdout_stderr_combined(&self) -> (combined: String)
        ensures
            combined@ == lines_text(self.stdout_stderr@),
    {
        let mut combined = String::new();
        let mut i: usize = 0;
        while i < self.stdout_stderr.len()
            invariant
                i <= self.stdout_stderr@.len(),
                combined@ == lines_text(self.stdout_stderr@.take(i as int)),
            decreases self.stdout_stderr@.len() - i,
        {
            append_str(&mut combined, self.stdout_stderr[i].content());
            assert(self.stdout_stderr@.take(i + 1).drop_last() =~= self.stdout_stderr@.take(
                i as int,
            ));
            i += 1;
        }
        assert(self.stdout_stderr@.take(self.stdout_stderr@.len() as int) =~= self.stdout_stderr@);
        combined
    }
}

/// The results and flags recorded while a scenario runs.
#[derive(Debug)]
pub struct ExecutionContext {
    pub steps: StringMap<StepResult>,
    pub flags: StringMap<bool>,
}

impl Default for ExecutionContext {
    fn default() -> (c: Self)
        ensures
            c.steps.map() == Map::<Seq<char>, StepResult>::empty(),
            c.flags.map() == Map::<Seq<char>, bool>::empty(),
    {
        ExecutionContext { steps: StringMap::new(), flags: StringMap::new() }
    }
}

impl ExecutionContext {
    /// Records the result of the step called `name`, replacing an earlier one.
    pub fn record_step(&mut self, name: String, result: StepResult)
        ensures
            final(self).steps.map() == old(self).steps.map().insert(name@, result),
            final(self).flags.map() == old(self).flags.map(),
    {
        self.steps.insert(name, result);
    }

    /// Sets the flag `key`.
    pub fn set_flag(&mut self, key: String, value: bool)
        ensures
            final(self).flags.map() == old(self).flags.map().insert(key@, value),
            final(self).steps.map() == old(self).steps.map(),
    {
        self.flags.insert(key, value);
    }

    /// The value of the flag `key`, if it was set.
    pub fn get_flag(&self, key: &str) -> (r: Option<bool>)
        ensures
            r == (if self.flags.map().contains_key(key@) {
                Some(self.flags.map()[key@])
            } else {
                None
            }),
    {
        match self.flags.get(key) {
            Some(v) => Some(*v),
            None => None,
        }
    }
}

/// The text a `field` of a step result resolves to.
pub open spec fn field_text(r: StepResult, field: Seq<char>) -> Seq<char> {
    if field == "exitCode"@ {
        int_decimal(r.exit_code as int)
    } else if field == "stdout"@ {
        r.stdout@
    } else if field == "stderr"@ {
        r.stderr@
    } else if field == "stdoutStderr"@ {
        lines_text(r.stdout_stderr@)
    } else if field == "success"@ {
        bool_text(r.success)
    } else if field == "message"@ {
        match r.message {
            Some(m) => m@,
            None => Seq::empty(),
        }
    } else if field == "cwd"@ {
        match r.cwd {
            Some(c) => c@,
            None => Seq::empty(),
        }
    } else {
        Seq::empty()
    }
}

/// What one placeholder (the text between two `%`) resolves to: `step.field`
/// reads a field of the step's result; `step.flag_name` reads the flag
/// `step.flag_name` (`false` when unset); anything else resolves to nothing.
pub open spec fn placeholder_text(
    p: Seq<char>,
    steps: Map<Seq<char>, StepResult>,
    flags: Map<Seq<char>, bool>,
) -> Seq<char> {
    match first_index(p, '.') {
        None => Seq::empty(),
        Some(d) => {
            let step = p.take(d);
            let field = p.skip(d + 1);
            if has_prefix(field, "flag_"@) {
                let key = step + "."@ + "flag_"@ + field.skip(5);
                bool_text(flags.contains_key(key) && flags[key])
            } else if !steps.contains_key(step) {
                Seq::empty()
            } else {
                field_text(steps[step], field)
            }
        },
    }
}

/// `t` with every `%placeholder%` replaced by what it resolves to, scanning
/// from the left; text after an unmatched `%` is kept as it is.
pub open spec fn resolved_text(
    t: Seq<char>,
    steps: Map<Seq<char>, StepResult>,
    flags: Map<Seq<char>, bool>,
) -> Seq<char>
    decreases t.len(),
{
    match first_index(t, '%') {
        None => t,
        Some(start) => {
            let after = t.skip(start + 1);
            match first_index(after, '%') {
                None => t,
                Some(end) => t.take(start) + placeholder_text(after.take(end), steps, flags)
                    + resolved_text(after.skip(end + 1), steps, flags),
            }
        },
    }
}

/// Text whose rest holds no complete `%...%` resolves to itself.
proof fn lemma_resolve_unclosed(
    v: Seq<char>,
    pos: int,
    steps: Map<Seq<char>, StepResult>,
    flags: Map<Seq<char>, bool>,
)
    requires
        0 <= pos <= v.len(),
        first_index(v.skip(pos), '%') is None || (first_index(v.skip(pos), '%') matches Some(k)
            && first_index(v.skip(pos + k + 1), '%') is None),
    ensures
        resolved_text(v.skip(pos), steps, flags) == v.subrange(pos, v.len() as int),
{
    let t = v.skip(pos);
    assert(t =~= v.subrange(pos, v.len() as int));
    if let Some(k) = first_index(t, '%') {
        assert(t.skip(k + 1) =~= v.skip(pos + k + 1));
    }
}

/// Resolving past one complete placeholder: the text before it, its value, then the rest resolved.
proof fn lemma_resolve_step(
    v: Seq<char>,
    pos: int,
    start: int,
    end: int,
    steps: Map<Seq<char>, StepResult>,
    flags: Map<Seq<char>, bool>,
)
    requires
        0 <= pos <= start < end < v.len(),
        first_index(v.skip(pos), '%') == Some(start - pos),
        first_index(v.skip(start + 1), '%') == Some(end - (start + 1)),
    ensures
        resolved_text(v.skip(pos), steps, flags) == v.subrange(pos, start) + placeholder_text(
            v.subrange(start + 1, end),
            steps,
            flags,
        ) + resolved_text(v.skip(end + 1), steps, flags),
{
    let t = v.skip(pos);
    let after = t.skip(start - pos + 1);
    assert(after =~= v.skip(start + 1));
    assert(after.take(end - (start + 1)) =~= v.subrange(start + 1, end));
    assert(after.skip(end - (start + 1) + 1) =~= v.skip(end + 1));
    assert(t.take(start - pos) =~= v.subrange(pos, start));
}

/// `template` with its placeholders resolved against the context.
pub fn resolve_placeholders(template: &str, context: &ExecutionContext) -> (out: String)
    ensures
        out@ == resolved_text(template@, context.steps.map(), context.flags.map()),
{
    let v = chars_of(template);
    let ghost steps = context.steps.map();
    let ghost flags = context.flags.map();
    let mut out = String::new();
    let mut pos: usize = 0;
    assert(v@.skip(0) =~= v@);
    loop
        invariant
            pos <= v.len(),
            v@ == template@,
            steps == context.steps.map(),
            flags == context.flags.map(),
            resolved_text(template@, steps, flags) == out@ + resolved_text(
                v@.skip(pos as int),
                steps,
                flags,
            ),
        decreases v.len() - pos,
    {
        let found = find_char(&v, '%', pos);
        let closing = match found {
            Some(start) => find_char(&v, '%', start + 1),
            None => None,
        };
        match (found, closing) {
            (Some(start), Some(end)) => {
                proof {
                    lemma_resolve_step(v@, pos as int, start as int, end as int, steps, flags);
                }
                let placeholder = string_from_chars(&v, start + 1, end);
                append_chars(&mut out, &v, pos, start);
                let resolved = resolve_single(placeholder.as_str(), context);
                append_str(&mut out, resolved.as_str());
                pos = end + 1;
            },
            _ => {
                proof {
                    lemma_resolve_unclosed(v@, pos as int, steps, flags);
                }
                append_chars(&mut out, &v, pos, v.len());
                return out;
            },
        }
    }
}

/// Text without `%` has no placeholder: resolving it gives it back unchanged.
pub proof fn law_text_without_placeholders_unchanged(
    t: Seq<char>,
    steps: Map<Seq<char>, StepResult>,
    flags: Map<Seq<char>, bool>,
)
    requires
        !t.contains('%'),
    ensures
        resolved_text(t, steps, flags) == t,
{
    assert forall|j: int| 0 <= j < t.len() implies t[j] != '%' by {
        if t[j] == '%' {
            assert(t.contains('%'));
        }
    }
    lemma_first_index_none(t, '%');
}

/// `%p%` resolves to what the placeholder `p` resolves to.
proof fn lemma_single_placeholder(p: Seq<char>, steps: Map<Seq<char>, StepResult>, flags: Map<Seq<char>, bool>)
    requires
        !p.contains('%'),
    ensures
        resolved_text(seq!['%'] + p + seq!['%'], steps, flags) == placeholder_text(p, steps, flags),
{
    let t = seq!['%'] + p + seq!['%'];
    assert(is_first_index(t, '%', 0));
    lemma_first_index_is(t, '%', 0);
    let after = t.skip(1);
    assert(after =~= p + seq!['%']);
    assert forall|j: int| 0 <= j < p.len() implies after[j] != '%' by {
        assert(after[j] == p[j]);
        if p[j] == '%' {
            assert(p.contains('%'));
        }
    }
    assert(is_first_index(after, '%', p.len() as int));
    lemma_first_index_is(after, '%', p.len() as int);
    assert(after.take(p.len() as int) =~= p);
    assert(after.skip(p.len() as int + 1) =~= Seq::<char>::empty());
    assert(t.take(0) =~= Seq::<char>::empty());
    lemma_first_index_none(Seq::<char>::empty(), '%');
    assert(resolved_text(Seq::<char>::empty(), steps, flags) == Seq::<char>::empty());
    assert(resolved_text(after.skip(p.len() as int + 1), steps, flags) == Seq::<char>::empty());
    assert(resolved_text(t, steps, flags) == t.take(0) + placeholder_text(after.take(p.len() as int), steps, flags)
        + resolved_text(after.skip(p.len() as int + 1), steps, flags));
    assert(t.take(0) + placeholder_text(p, steps, flags) + Seq::<char>::empty() =~= placeholder_text(
        p,
        steps,
        flags,
    ));
}

/// `step.rest` splits at its first `.` into `step` and `rest`, when `step` has
/// no `.`.
proof fn lemma_split_at_dot(step: Seq<char>, rest: Seq<char>)
    requires
        !step.contains('.'),
    ensures
        first_index(step + seq!['.'] + rest, '.') == Some(step.len() as int),
        (step + seq!['.'] + rest).take(step.len() as int) == step,
        (step + seq!['.'] + rest).skip(step.len() as int + 1) == rest,
{
    let p = step + seq!['.'] + rest;
    assert forall|j: int| 0 <= j < step.len() implies p[j] != '.' by {
        assert(p[j] == step[j]);
        if step[j] == '.' {
            assert(step.contains('.'));
        }
    }
    assert(is_first_index(p, '.', step.len() as int));
    lemma_first_index_is(p, '.', step.len() as int);
    assert(p.take(step.len() as int) =~= step);
    assert(p.skip(step.len() as int + 1) =~= rest);
}

/// What a step recorded is what its placeholders read: once the result of
/// `step` is recorded, `%step.field%` resolves to that field of it (for a
/// field that is not a flag).
pub proof fn law_recorded_step_is_read_back(
    step: Seq<char>,
    field: Seq<char>,
    result: StepResult,
    steps: Map<Seq<char>, StepResult>,
    flags: Map<Seq<char>, bool>,
)
    requires
        !step.contains('.'),
        !step.contains('%'),
        !field.contains('%'),
        !has_prefix(field, "flag_"@),
    ensures
        resolved_text(seq!['%'] + step + seq!['.'] + field + seq!['%'], steps.insert(step, result), flags)
            == field_text(result, field),
{
    let p = step + seq!['.'] + field;
    assert(!p.contains('%')) by {
        if p.contains('%') {
            let j = choose|j: int| 0 <= j < p.len() && p[j] == '%';
            if j < step.len() {
                assert(step[j] == '%');
                assert(step.contains('%'));
            } else if j > step.len() {
                assert(field[j - step.len() - 1] == '%');
                assert(field.contains('%'));
            }
        }
    }
    assert(seq!['%'] + step + seq!['.'] + field + seq!['%'] =~= seq!['%'] + p + seq!['%']);
    lemma_single_placeholder(p, steps.insert(step, result), flags);
    lemma_split_at_dot(step, field);
}

/// A flag is read back by its placeholder: `%step.flag_name%` resolves to
/// `true` exactly when the flag `step.flag_name` is set to `true`.
pub proof fn law_flag_is_read_back(
    step: Seq<char>,
    name: Seq<char>,
    steps: Map<Seq<char>, StepResult>,
    flags: Map<Seq<char>, bool>,
)
    requires
        !step.contains('.'),
        !step.contains('%'),
        !name.contains('%'),
    ensures
        ({
            let key = step + ".flag_"@ + name;
            resolved_text(seq!['%'] + key + seq!['%'], steps, flags) == bool_text(
                flags.contains_key(key) && flags[key],
            )
        }),
{
    reveal_strlit(".flag_");
    reveal_strlit("flag_");
    reveal_strlit(".");
    let field = "flag_"@ + name;
    let key = step + ".flag_"@ + name;
    assert(key =~= step + seq!['.'] + field);
    assert(!key.contains('%')) by {
        if key.contains('%') {
            let j = choose|j: int| 0 <= j < key.len() && key[j] == '%';
            if j < step.len() {
                assert(step[j] == '%');
                assert(step.contains('%'));
            } else if j >= step.len() + 6 {
                assert(name[j - step.len() - 6] == '%');
                assert(name.contains('%'));
            }
        }
    }
    lemma_single_placeholder(key, steps, flags);
    lemma_split_at_dot(step, field);
    assert(field.subrange(0, 5) =~= "flag_"@);
    assert(has_prefix(field, "flag_"@));
    assert(field.skip(5) =~= name);
    assert(step + "."@ + "flag_"@ + field.skip(5) =~= key);
}

/// What one placeholder resolves to.
fn resolve_single(placeholder: &str, context: &ExecutionContext) -> (r: String)
    ensures
        r@ == placeholder_text(placeholder@, context.steps.map(), context.flags.map()),
{
    let p = chars_of(placeholder);
    let dot = match find_char(&p, '.', 0) {
        Some(d) => d,
        None => {
            assert(p@.skip(0) =~= p@);
            return String::new();
        },
    };
    assert(p@.skip(0) =~= p@);
    let step_name = string_from_chars(&p, 0, dot);
    let field = string_from_chars(&p, dot + 1, p.len());
    assert(p@.take(dot as int) =~= step_name@);
    assert(p@.skip(dot + 1) =~= field@);
    let fv = chars_of(field.as_str());
    let prefix = chars_of("flag_");
    if matches_at(&fv, 0, &prefix) {
        proof {
            reveal_strlit("flag_");
        }
        let mut key = String::new();
        append_str(&mut key, step_name.as_str());
        append_str(&mut key, ".");
        append_str(&mut key, "flag_");
        append_chars(&mut key, &fv, 5, fv.len());
        assert(fv@.subrange(5, fv@.len() as int) =~= field@.skip(5));
        assert(key@ =~= step_name@ + "."@ + "flag_"@ + field@.skip(5));
        let value = match context.flags.get(key.as_str()) {
            Some(b) => *b,
            None => false,
        };
        let mut out = String::new();
        push_bool(&mut out, value);
        assert(out@ =~= bool_text(value));
        return out;
    }
    let result = match context.steps.get(step_name.as_str()) {
        Some(r) => r,
        None => return String::new(),
    };
    let f = field.as_str();
    if str_eq(f, "exitCode") {
        let mut out = String::new();
        push_i64(&mut out, result.exit_code as i64);
        assert(out@ =~= int_decimal(result.exit_code as int));
        out
    } else if str_eq(f, "stdout") {
        result.stdout.clone()
    } else if str_eq(f, "stderr") {
        result.stderr.clone()
    } else if str_eq(f, "stdoutStderr") {
        result.stdout_stderr_combined()
    } else if str_eq(f, "success") {
        let mut out = String::new();
        push_bool(&mut out, result.success);
        assert(out@ =~= bool_text(result.success));
        out
    } else if str_eq(f, "message") {
        match &result.message {
            Some(m) => m.clone(),
            None => String::new(),
        }
    } else if str_eq(f, "cwd") {
        match &result.cwd {
            Some(c) => c.clone(),
            None => String::new(),
        }
    } else {
        String::new()
    }
}

} // verus!
