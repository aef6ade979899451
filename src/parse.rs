//! Deterministic parsers that turn model replies into intents, plans and tool calls.

use vstd::prelude::*;
use crate::text::{
    contains_seq, contains_str, decimal, decimal_of, find_from, find_spec, lemma_find_spec, occurs_at,
    slice_string, to_chars,
};
use crate::json::{array_of, get_member, json_member, json_of, json_parse, json_str_member, str_of, Json};
use crate::types::{AgentType, ParamValue, Plan, PlanStep, TaskIntent, ToolCall, ToolParam};

verus! {

/// What `str::to_lowercase` returns for the characters `s`.
pub uninterp spec fn lower_of(s: Seq<char>) -> Seq<char>;

/// Relies on `str::to_lowercase`: the result depends on the characters alone.
#[verifier::external_body]
pub(crate) fn lowercase(s: &str) -> (r: String)
    ensures
        r@ == lower_of(s@),
{
    s.to_lowercase()
}

/// The intent that a lower-cased classifier reply names: the reply must hold the marker
/// `"intent"`, and the quoted values are tried in a fixed priority order.
pub open spec fn intent_of(lower: Seq<char>) -> TaskIntent {
    if !contains_seq(lower, "\"intent\""@) {
        TaskIntent::Chat
    } else if contains_seq(lower, "\"edit\""@) {
        TaskIntent::Edit
    } else if contains_seq(lower, "\"create\""@) {
        TaskIntent::Create
    } else if contains_seq(lower, "\"organize\""@) {
        TaskIntent::Organize
    } else if contains_seq(lower, "\"search\""@) {
        TaskIntent::Search
    } else if contains_seq(lower, "\"complex\""@) {
        TaskIntent::Complex
    } else {
        TaskIntent::Chat
    }
}

/// The intent named by an already lower-cased reply.
pub fn intent_from_lowered(lower: &str) -> (r: TaskIntent)
    ensures
        r == intent_of(lower@),
{
    if !contains_str(lower, "\"intent\"") {
        TaskIntent::Chat
    } else if contains_str(lower, "\"edit\"") {
        TaskIntent::Edit
    } else if contains_str(lower, "\"create\"") {
        TaskIntent::Create
    } else if contains_str(lower, "\"organize\"") {
        TaskIntent::Organize
    } else if contains_str(lower, "\"search\"") {
        TaskIntent::Search
    } else if contains_str(lower, "\"complex\"") {
        TaskIntent::Complex
    } else {
        TaskIntent::Chat
    }
}

/// The intent of a classifier reply, read leniently from its lower-cased text.
pub fn parse_intent(response: &str) -> (r: TaskIntent)
    ensures
        r == intent_of(lower_of(response@)),
{
    let lower = lowercase(response);
    intent_from_lowered(lower.as_str())
}

/// A lower-cased reply without the marker `"intent"` always classifies as chat,
/// whatever else it holds.
pub proof fn lemma_no_marker_means_chat(lower: Seq<char>)
    requires
        !contains_seq(lower, "\"intent\""@),
    ensures
        intent_of(lower) == TaskIntent::Chat,
{
}

/// The tool names that the tool-call grammar recognises, in scanning order.
pub open spec fn tool_names() -> Seq<Seq<char>> {
    seq![
        "read_note"@, "edit_note"@, "create_note"@, "list_notes"@, "search_notes"@,
        "move_note"@, "delete_note"@, "ask_user"@, "attempt_completion"@,
    ]
}

/// The parameter tags that a tool block may hold, in lookup order.
pub open spec fn param_names() -> Seq<Seq<char>> {
    seq![
        "path"@, "old_string"@, "new_string"@, "content"@, "query"@, "limit"@, "from_path"@,
        "to_path"@, "question"@, "result"@,
    ]
}

pub open spec fn open_tag(n: Seq<char>) -> Seq<char> {
    "<"@ + n + ">"@
}

pub open spec fn close_tag(n: Seq<char>) -> Seq<char> {
    "</"@ + n + ">"@
}

/// The text between the first `<p>` of block `b` and the first `</p>` after it.
pub open spec fn param_value(b: Seq<char>, p: Seq<char>) -> Option<Seq<char>> {
    match find_spec(b, open_tag(p), 0) {
        Some(ps) => match find_spec(b, close_tag(p), ps + open_tag(p).len()) {
            Some(pe) => Some(b.subrange(ps + open_tag(p).len(), pe)),
            None => None,
        },
        None => None,
    }
}

/// The parameters among the first `k` parameter names that block `b` holds, in name order.
pub open spec fn block_params(b: Seq<char>, k: int) -> Seq<(Seq<char>, Seq<char>)>
    decreases k,
{
    if k <= 0 {
        seq![]
    } else {
        let prev = block_params(b, k - 1);
        match param_value(b, param_names()[k - 1]) {
            Some(v) => prev.push((param_names()[k - 1], v)),
            None => prev,
        }
    }
}

/// The bodies of the non-overlapping `<t>...</t>` blocks of `text` from position `from` on.
pub open spec fn tool_blocks(text: Seq<char>, t: Seq<char>, from: int) -> Seq<Seq<char>>
    decreases text.len() + 1 - from,
{
    match find_spec(text, open_tag(t), from) {
        Some(s) => match find_spec(text, close_tag(t), s + open_tag(t).len()) {
            Some(e) => {
                let next = e + close_tag(t).len();
                if from < next <= text.len() + 1 {
                    seq![text.subrange(s + open_tag(t).len(), e)] + tool_blocks(text, t, next)
                } else {
                    seq![text.subrange(s + open_tag(t).len(), e)]
                }
            },
            None => seq![],
        },
        None => seq![],
    }
}

/// The calls (name and parameters) of the first `k` tool names, grouped by name.
pub open spec fn calls_for_tools(text: Seq<char>, k: int) -> Seq<
    (Seq<char>, Seq<(Seq<char>, Seq<char>)>),
>
    decreases k,
{
    if k <= 0 {
        seq![]
    } else {
        let t = tool_names()[k - 1];
        calls_for_tools(text, k - 1) + tool_blocks(text, t, 0).map_values(
            |b: Seq<char>| (t, block_params(b, 10)),
        )
    }
}

/// Every tool call that the grammar finds in `text`, in tool-name order.
pub open spec fn parsed_calls(text: Seq<char>) -> Seq<(Seq<char>, Seq<(Seq<char>, Seq<char>)>)> {
    calls_for_tools(text, 9)
}

/// `c` is the `i`-th parsed call, with name and parameters `p`.
pub open spec fn call_agrees(
    c: ToolCall,
    i: int,
    p: (Seq<char>, Seq<(Seq<char>, Seq<char>)>),
) -> bool {
    &&& c.id@ == "call_"@ + decimal_of(i as nat)
    &&& c.name@ == p.0
    &&& c.params@.len() == p.1.len()
    &&& forall|j: int|
        0 <= j < p.1.len() ==> {
            &&& (#[trigger] c.params@[j]).key@ == p.1[j].0
            &&& c.params@[j].value matches ParamValue::Text(v) && v@ == p.1[j].1
        }
}

fn tool_name(k: usize) -> (r: &'static str)
    requires
        k < 9,
    ensures
        r@ == tool_names()[k as int],
{
    if k == 0 { "read_note" } else if k == 1 { "edit_note" } else if k == 2 { "create_note" }
    else if k == 3 { "list_notes" } else if k == 4 { "search_notes" } else if k == 5 { "move_note" }
    else if k == 6 { "delete_note" } else if k == 7 { "ask_user" } else { "attempt_completion" }
}

fn param_name(k: usize) -> (r: &'static str)
    requires
        k < 10,
    ensures
        r@ == param_names()[k as int],
{
    if k == 0 { "path" } else if k == 1 { "old_string" } else if k == 2 { "new_string" }
    else if k == 3 { "content" } else if k == 4 { "query" } else if k == 5 { "limit" }
    else if k == 6 { "from_path" } else if k == 7 { "to_path" } else if k == 8 { "question" }
    else { "result" }
}

fn make_open_tag(n: &str) -> (r: Vec<char>)
    ensures
        r@ == open_tag(n@),
{
    let s = String::from_str("<").concat(n).concat(">");
    to_chars(s.as_str())
}

fn make_close_tag(n: &str) -> (r: Vec<char>)
    ensures
        r@ == close_tag(n@),
{
    let s = String::from_str("</").concat(n).concat(">");
    to_chars(s.as_str())
}

proof fn tag_len_positive(n: Seq<char>)
    ensures
        open_tag(n).len() >= 2,
        close_tag(n).len() >= 3,
{
    reveal_strlit("<");
    reveal_strlit("</");
    reveal_strlit(">");
}

/// The parameters that one tool block holds, in parameter-name order.
pub fn parse_params(block: &str) -> (r: Vec<ToolParam>)
    ensures
        r@.len() == block_params(block@, 10).len(),
        forall|j: int|
            0 <= j < r@.len() ==> {
                &&& (#[trigger] r@[j]).key@ == block_params(block@, 10)[j].0
                &&& r@[j].value matches ParamValue::Text(v) && v@ == block_params(block@, 10)[j].1
            },
{
    let b = to_chars(block);
    let blen = b.len();
    let mut out: Vec<ToolParam> = Vec::new();
    let mut k: usize = 0;
    while k < 10
        invariant
            k <= 10,
            b@ == block@,
            blen == b@.len(),
            out@.len() == block_params(block@, k as int).len(),
            forall|j: int|
                0 <= j < out@.len() ==> {
                    &&& (#[trigger] out@[j]).key@ == block_params(block@, k as int)[j].0
                    &&& out@[j].value matches ParamValue::Text(v) && v@ == block_params(
                        block@,
                        k as int,
                    )[j].1
                },
        decreases 10 - k,
    {
        let name = param_name(k);
        let ot = make_open_tag(name);
        let ct = make_close_tag(name);
        proof {
            tag_len_positive(name@);
        }
        if let Some(ps) = find_from(&b, &ot, 0) {
            proof {
                lemma_find_spec(b@, ot@, 0);
            }
            let vs = ps + ot.len();
            if let Some(pe) = find_from(&b, &ct, vs) {
                proof {
                    lemma_find_spec(b@, ct@, vs as int);
                }
                let v = slice_string(block, vs, pe);
                out.push(ToolParam { key: String::from_str(name), value: ParamValue::Text(v) });
            }
        }
        k = k + 1;
    }
    out
}

/// Every tool call written in `response` with the tag grammar, grouped by tool name in a
/// fixed order; `None` when there is none.
pub fn parse_tool_calls(response: &str) -> (r: Option<Vec<ToolCall>>)
    ensures
        r is None <==> parsed_calls(response@).len() == 0,
        r matches Some(v) ==> v@.len() == parsed_calls(response@).len() && forall|i: int|
            0 <= i < v@.len() ==> call_agrees(#[trigger] v@[i], i, parsed_calls(response@)[i]),
{
    let text = to_chars(response);
    let tlen = text.len();
    let mut calls: Vec<ToolCall> = Vec::new();
    let mut k: usize = 0;
    while k < 9
        invariant
            k <= 9,
            text@ == response@,
            tlen == text@.len(),
            calls@.len() == calls_for_tools(response@, k as int).len(),
            forall|i: int|
                0 <= i < calls@.len() ==> call_agrees(
                    #[trigger] calls@[i],
                    i,
                    calls_for_tools(response@, k as int)[i],
                ),
        decreases 9 - k,
    {
        let name = tool_name(k);
        let ot = make_open_tag(name);
        let ct = make_close_tag(name);
        proof {
            tag_len_positive(name@);
        }
        let ghost t = name@;
        let ghost base = calls_for_tools(response@, k as int);
        let ghost all = tool_blocks(response@, t, 0);
        let ghost mut done: Seq<Seq<char>> = seq![];
        let mut pos: usize = 0;
        loop
            invariant
                k < 9,
                t == tool_names()[k as int],
                name@ == t,
                open_tag(t).len() >= 2,
                close_tag(t).len() >= 3,
                text@ == response@,
                tlen == text@.len(),
                ot@ == open_tag(t),
                ct@ == close_tag(t),
                base == calls_for_tools(response@, k as int),
                all == tool_blocks(response@, t, 0),
                pos <= text@.len() + 1,
                done + tool_blocks(response@, t, pos as int) == all,
                calls@.len() == base.len() + done.len(),
                forall|i: int|
                    0 <= i < base.len() ==> call_agrees(#[trigger] calls@[i], i, base[i]),
                forall|i: int|
                    0 <= i < done.len() ==> call_agrees(
                        #[trigger] calls@[base.len() + i],
                        base.len() + i,
                        (t, block_params(done[i], 10)),
                    ),
            ensures
                done + tool_blocks(response@, t, pos as int) == all,
                tool_blocks(response@, t, pos as int).len() == 0,
            decreases text@.len() + 1 - pos,
        {
            let found = find_from(&text, &ot, pos);
            if found.is_none() {
                break;
            }
            let s = found.unwrap();
            proof {
                lemma_find_spec(text@, ot@, pos as int);
            }
            let vs = s + ot.len();
            let found_end = find_from(&text, &ct, vs);
            if found_end.is_none() {
                break;
            }
            let e = found_end.unwrap();
            proof {
                lemma_find_spec(text@, ct@, vs as int);
            }
            let block = slice_string(response, vs, e);
            let params = parse_params(block.as_str());
            let id = String::from_str("call_").concat(decimal(calls.len()).as_str());
            let call = ToolCall { id, name: String::from_str(name), params };
            let ghost old_calls = calls@;
            let ghost gcall = call;
            calls.push(call);
            let next = e + ct.len();
            proof {
                let blocks_here = tool_blocks(response@, t, pos as int);
                assert(find_spec(response@, open_tag(t), pos as int) == Some(s as int));
                assert(find_spec(response@, close_tag(t), vs as int) == Some(e as int));
                assert(pos <= s);
                assert(vs <= e);
                assert(occurs_at(response@, close_tag(t), e as int));
                assert(e + close_tag(t).len() <= response@.len());
                assert(pos < next <= response@.len() + 1);
                assert(block@ == response@.subrange(vs as int, e as int));
                assert(blocks_here == seq![block@] + tool_blocks(response@, t, next as int));
                assert(done.push(block@) + tool_blocks(response@, t, next as int) =~= done
                    + blocks_here);
                assert forall|i: int| 0 <= i < base.len() implies call_agrees(
                    #[trigger] calls@[i],
                    i,
                    base[i],
                ) by {
                    assert(calls@[i] == old_calls[i]);
                }
                let nd = done.push(block@);
                assert forall|i: int| 0 <= i < nd.len() implies call_agrees(
                    #[trigger] calls@[base.len() + i],
                    base.len() + i,
                    (t, block_params(nd[i], 10)),
                ) by {
                    if i < done.len() {
                        assert(calls@[base.len() + i] == old_calls[base.len() + i]);
                    } else {
                        assert(calls@[base.len() + i] == gcall);
                        assert(nd[i] == block@);
                        assert(gcall.params@ == params@);
                        assert(gcall.id@ == "call_"@ + decimal_of(old_calls.len() as nat));
                        assert(gcall.name@ == t);
                        assert(old_calls.len() == base.len() + i);
                    }
                }
                done = nd;
            }
            pos = next;
        }
        proof {
            assert(done =~= all);
            let added = all.map_values(|b: Seq<char>| (t, block_params(b, 10)));
            assert(calls_for_tools(response@, k + 1) == base + added);
            assert forall|i: int| 0 <= i < calls@.len() implies call_agrees(
                #[trigger] calls@[i],
                i,
                calls_for_tools(response@, k + 1)[i],
            ) by {
                if i >= base.len() {
                    let m = i - base.len();
                    assert(calls@[base.len() + m] == calls@[i]);
                }
            }
        }
        k = k + 1;
    }
    if calls.len() == 0 {
        None
    } else {
        Some(calls)
    }
}

/// The fields of one plan step as found in a reply, before defaults apply.
#[derive(Clone, Debug, PartialEq, Eq)]
pub struct StepFields {
    pub id: Option<String>,
    pub description: Option<String>,
    pub agent: Option<String>,
}

/// The text of an optional string.
pub open spec fn opt_view(o: Option<String>) -> Option<Seq<char>> {
    match o {
        Some(s) => Some(s@),
        None => None,
    }
}

/// What step fields say: id, description and agent.
pub open spec fn fields_view(f: StepFields) -> (Option<Seq<char>>, Option<Seq<char>>, Option<Seq<char>>) {
    (opt_view(f.id), opt_view(f.description), opt_view(f.agent))
}

/// The role named by a step's `agent` field; anything unknown means the editor.
pub open spec fn agent_of_name(a: Seq<char>) -> AgentType {
    if a == "researcher"@ {
        AgentType::Researcher
    } else if a == "writer"@ {
        AgentType::Writer
    } else if a == "organizer"@ {
        AgentType::Organizer
    } else {
        AgentType::Editor
    }
}

/// The fields among the first `n` that carry a description, in order.
pub open spec fn usable_steps(
    fields: Seq<(Option<Seq<char>>, Option<Seq<char>>, Option<Seq<char>>)>,
    n: int,
) -> Seq<(Option<Seq<char>>, Option<Seq<char>>, Option<Seq<char>>)>
    decreases n,
{
    if n <= 0 {
        seq![]
    } else if fields[n - 1].1 is Some {
        usable_steps(fields, n - 1).push(fields[n - 1])
    } else {
        usable_steps(fields, n - 1)
    }
}

/// `step` is what the fields `f` give once defaults apply.
pub open spec fn step_from(step: PlanStep, f: (Option<Seq<char>>, Option<Seq<char>>, Option<Seq<char>>)) -> bool {
    &&& f.1 matches Some(d) && step.description@ == d
    &&& step.id@ == (match f.0 {
        Some(i) => i,
        None => "1"@,
    })
    &&& step.agent == (match f.2 {
        Some(a) => agent_of_name(a),
        None => AgentType::Editor,
    })
    &&& !step.completed
    &&& step.result is None
}

/// `r` is the plan that the step fields give: steps without a description are dropped,
/// and no plan is made when none is left.
pub open spec fn plan_of_fields(r: Option<Plan>, fields: Seq<(Option<Seq<char>>, Option<Seq<char>>, Option<Seq<char>>)>) -> bool {
    let kept = usable_steps(fields, fields.len() as int);
    if kept.len() == 0 {
        r is None
    } else {
        r matches Some(p) && p.current_step == 0 && p.steps@.len() == kept.len() && forall|i: int|
            0 <= i < kept.len() ==> step_from(#[trigger] p.steps@[i], kept[i])
    }
}

/// The fields of one element of a `steps` array.
pub open spec fn json_step_fields(item: Json) -> (Option<Seq<char>>, Option<Seq<char>>, Option<Seq<char>>) {
    (str_of(get_member(item, "id"@)), str_of(get_member(item, "description"@)), str_of(get_member(item, "agent"@)))
}

/// The step fields written in a planner reply `{"steps": [...]}`; none when the reply is
/// not JSON or has no `steps` array.
pub open spec fn reply_step_fields(text: Seq<char>) -> Seq<(Option<Seq<char>>, Option<Seq<char>>, Option<Seq<char>>)> {
    match json_of(text) {
        Some(j) => match array_of(get_member(j, "steps"@)) {
            Some(items) => items.map_values(|item: Json| json_step_fields(item)),
            None => seq![],
        },
        None => seq![],
    }
}

/// The reply holds a plan with at least one usable step.
pub open spec fn reply_has_plan(text: Seq<char>) -> bool {
    let f = reply_step_fields(text);
    usable_steps(f, f.len() as int).len() > 0
}

/// Whether two texts are equal.
pub fn same_text(a: &str, b: &str) -> (r: bool)
    ensures
        r == (a@ == b@),
{
    String::from_str(a) == String::from_str(b)
}

/// The role named by a step's `agent` field.
pub fn agent_from_name(a: &str) -> (r: AgentType)
    ensures
        r == agent_of_name(a@),
{
    if same_text(a, "researcher") {
        AgentType::Researcher
    } else if same_text(a, "writer") {
        AgentType::Writer
    } else if same_text(a, "organizer") {
        AgentType::Organizer
    } else {
        AgentType::Editor
    }
}

/// The plan that a list of step fields gives.
pub fn plan_from_fields(fields: &Vec<StepFields>) -> (r: Option<Plan>)
    ensures
        plan_of_fields(r, fields@.map_values(|f: StepFields| fields_view(f))),
{
    let ghost fv = fields@.map_values(|f: StepFields| fields_view(f));
    let mut steps: Vec<PlanStep> = Vec::new();
    let mut i: usize = 0;
    while i < fields.len()
        invariant
            i <= fields@.len(),
            fv == fields@.map_values(|f: StepFields| fields_view(f)),
            steps@.len() == usable_steps(fv, i as int).len(),
            forall|j: int|
                0 <= j < steps@.len() ==> step_from(
                    #[trigger] steps@[j],
                    usable_steps(fv, i as int)[j],
                ),
        decreases fields@.len() - i,
    {
        let f = &fields[i];
        assert(fv[i as int] == fields_view(*f));
        if let Some(d) = &f.description {
            let id = match &f.id {
                Some(x) => String::from_str(x.as_str()),
                None => String::from_str("1"),
            };
            let agent = match &f.agent {
                Some(a) => agent_from_name(a.as_str()),
                None => AgentType::Editor,
            };
            let step = PlanStep {
                id,
                description: String::from_str(d.as_str()),
                agent,
                completed: false,
                result: None,
            };
            steps.push(step);
        }
        i = i + 1;
    }
    if steps.len() == 0 {
        None
    } else {
        Some(Plan { steps, current_step: 0 })
    }
}

/// The plan written in a planner reply as `{"steps": [...]}`; `None` when the reply is not
/// such a document or no step in it has a description.
pub fn parse_plan(response: &str) -> (r: Option<Plan>)
    ensures
        plan_of_fields(r, reply_step_fields(response@)),
        r is Some <==> reply_has_plan(response@),
{
    let mut fields: Vec<StepFields> = Vec::new();
    let doc = match json_parse(response) {
        Ok(d) => d,
        Err(_) => {
            assert(fields@.map_values(|f: StepFields| fields_view(f)) =~= reply_step_fields(response@));
            return plan_from_fields(&fields);
        },
    };
    let items: &Vec<Json> = match json_member(&doc, "steps") {
        Some(Json::Array(a)) => a,
        _ => {
            assert(fields@.map_values(|f: StepFields| fields_view(f)) =~= reply_step_fields(response@));
            return plan_from_fields(&fields);
        },
    };
    let ghost want = items@.map_values(|item: Json| json_step_fields(item));
    assert(want == reply_step_fields(response@));
    let mut i: usize = 0;
    while i < items.len()
        invariant
            i <= items@.len(),
            want == items@.map_values(|item: Json| json_step_fields(item)),
            fields@.map_values(|f: StepFields| fields_view(f)) == want.subrange(0, i as int),
        decreases items@.len() - i,
    {
        let item = &items[i];
        let f = StepFields {
            id: json_str_member(item, "id"),
            description: json_str_member(item, "description"),
            agent: json_str_member(item, "agent"),
        };
        let ghost old_f = fields@;
        proof {
            assert(fields_view(f) == json_step_fields(*item));
        }
        fields.push(f);
        assert(fields@.map_values(|f: StepFields| fields_view(f)) =~= old_f.map_values(|f: StepFields| fields_view(f)).push(fields_view(f)));
        assert(want.subrange(0, i + 1) =~= want.subrange(0, i as int).push(want[i as int]));
        i = i + 1;
    }
    assert(want.subrange(0, items@.len() as int) =~= want);
    plan_from_fields(&fields)
}

} // verus!
