//! Small text helpers of the command-line tools.
use vstd::prelude::*;
use vstd::string::{StrSliceExecFns, StringSliceAdditionalSpecFns};
use vstd::utf8::is_char_boundary;

use crate::model::{Approval, ExecutionContext, FloatBits, PolicyConstraints, RiskLevel, RobotAction, TokenRequest};
use crate::primitives::{is_whitespace, json_parsed, json_text, json_text_value, parse_json, unicode_whitespace};
use crate::table::{StringTable, as_map, keyed, keys_increasing, lemma_stored_increasing, stored};
use crate::text::{append, chars_of, owned, same_text, string_from_chars};

verus! {

/// `s` without its trailing `/` characters.
pub open spec fn without_trailing_slashes(s: Seq<char>) -> Seq<char>
    decreases s.len(),
{
    if s.len() > 0 && s.last() == '/' {
        without_trailing_slashes(s.drop_last())
    } else {
        s
    }
}

/// A URL without its trailing `/` characters.
pub fn trim_url(url: &str) -> (r: &str)
    ensures
        r@ == without_trailing_slashes(url@),
{
    let chars = chars_of(url);
    let mut end = chars.len();
    assert(url@.take(end as int) =~= url@);
    while end > 0 && chars[end - 1] == '/'
        invariant
            chars@ == url@,
            end <= chars@.len(),
            without_trailing_slashes(url@) == without_trailing_slashes(url@.take(end as int)),
        decreases end,
    {
        assert(url@.take(end as int).drop_last() =~= url@.take(end - 1));
        end = end - 1;
    }
    assert(url@.take(end as int) =~= url@.subrange(0, end as int));
    url.substring_char(0, end)
}

/// The first eight bytes of an identifier where they end on a character boundary, else the
/// whole identifier.
pub fn short_id(value: &str) -> (r: &str)
    ensures
        if is_char_boundary(value.spec_bytes(), 8) {
            r.spec_bytes() == value.spec_bytes().subrange(0, 8)
        } else {
            r == value
        },
{
    if value.is_char_boundary(8) {
        let (head, _) = value.split_at(8);
        head
    } else {
        value
    }
}

/// A required setting that was not given: its name and where it can be set.
#[derive(Debug)]
pub struct MissingSetting {
    pub name: String,
    pub source: String,
}

impl MissingSetting {
    /// The human-readable description: what is missing and how to set it.
    pub fn message(&self) -> (s: String)
        ensures
            s@ == "missing "@ + self.name@ + "\nNext: set "@ + self.source@,
    {
        let mut s = owned("missing ");
        append(&mut s, self.name.as_str());
        append(&mut s, "\nNext: set ");
        append(&mut s, self.source.as_str());
        s
    }
}

/// The value of a required setting, or which setting is missing and where to set it.
pub fn required<T>(value: Option<T>, name: &str, source: &str) -> (r: Result<T, MissingSetting>)
    ensures
        match value {
            Some(v) => r matches Ok(x) && x == v,
            None => r matches Err(m) && m.name@ == name@ && m.source@ == source@,
        },
{
    match value {
        Some(v) => Ok(v),
        None => Err(MissingSetting { name: owned(name), source: owned(source) }),
    }
}

/// Whether `entry` holds an `=`.
pub open spec fn has_equals(entry: Seq<char>) -> bool {
    exists|i: int| 0 <= i < entry.len() && entry[i] == '='
}

/// The position of the first `=` of `entry`.
pub open spec fn first_equals(entry: Seq<char>) -> int {
    choose|i: int| 0 <= i < entry.len() && entry[i] == '=' && forall|j: int| 0 <= j < i ==> entry[j] != '='
}

/// The key and value of a `KEY=VALUE` action argument: the key is the text before the first
/// `=`, the value the JSON that the rest parses as, or else the rest as a JSON string.
pub open spec fn argument_of(entry: Seq<char>) -> (Seq<char>, serde_json::Value) {
    let i = first_equals(entry);
    let rest = entry.subrange(i + 1, entry.len() as int);
    (entry.take(i), match json_parsed(rest) {
        Some(v) => v,
        None => json_text_value(rest),
    })
}

/// The parsed arguments of `entries`, in the order given.
pub open spec fn arguments_of(entries: Seq<String>) -> Seq<(Seq<char>, serde_json::Value)> {
    entries.map_values(|e: String| argument_of(e@))
}

/// The message for an argument without `=`.
pub open spec fn invalid_argument_text(entry: Seq<char>) -> Seq<char> {
    "invalid --arg "@ + entry + "; use KEY=VALUE"@
}

/// Splits one `KEY=VALUE` entry, or gives `None` where it holds no `=`.
fn split_argument(entry: &str) -> (r: Option<(String, serde_json::Value)>)
    ensures
        match r {
            Some(kv) => has_equals(entry@) && (kv.0@, kv.1) == argument_of(entry@),
            None => !has_equals(entry@),
        },
{
    let chars = chars_of(entry);
    let n = chars.len();
    let mut i: usize = 0;
    while i < n
        invariant
            n == chars@.len(),
            chars@ == entry@,
            i <= n,
            forall|j: int| 0 <= j < i ==> entry@[j] != '=',
        decreases n - i,
    {
        if chars[i] == '=' {
            proof {
                let e = entry@;
                assert(0 <= i < e.len() && e[i as int] == '=' && forall|j: int| 0 <= j < i ==> e[j] != '=');
                let p = first_equals(e);
                assert(0 <= p < e.len() && e[p] == '=' && forall|j: int| 0 <= j < p ==> e[j] != '=');
                if p < i {
                    assert(e[p] != '=');
                } else if p > i {
                    assert(e[i as int] != '=');
                }
            }
            let mut key_chars: Vec<char> = Vec::new();
            for k in 0..i
                invariant
                    i < n,
                    n == chars@.len(),
                    key_chars@ == chars@.take(k as int),
            {
                key_chars.push(chars[k]);
                assert(chars@.take(k + 1) =~= chars@.take(k as int).push(chars@[k as int]));
            }
            let mut rest_chars: Vec<char> = Vec::new();
            for k in i + 1..n
                invariant
                    i < n,
                    n == chars@.len(),
                    rest_chars@ == chars@.subrange(i + 1, k as int),
            {
                rest_chars.push(chars[k]);
                assert(chars@.subrange(i + 1, k + 1) =~= chars@.subrange(i + 1, k as int).push(
                    chars@[k as int],
                ));
            }
            let key = string_from_chars(&key_chars);
            let rest = string_from_chars(&rest_chars);
            let value = match parse_json(rest.as_str()) {
                Some(v) => v,
                None => json_text(rest),
            };
            return Some((key, value));
        }
        i = i + 1;
    }
    None
}

/// Parses `KEY=VALUE` action arguments into a map in key order, a later key replacing an
/// earlier one; the first entry without `=` is refused with a message naming it.
pub fn parse_arguments(entries: &Vec<String>) -> (r: Result<Vec<(String, serde_json::Value)>, String>)
    ensures
        match r {
            Ok(args) => {
                &&& forall|i: int| 0 <= i < entries@.len() ==> has_equals(#[trigger] entries@[i]@)
                &&& keys_increasing(keyed(args@))
                &&& as_map(keyed(args@)) == stored(arguments_of(entries@))
            },
            Err(message) => exists|i: int|
                0 <= i < entries@.len() && !has_equals(#[trigger] entries@[i]@) && (forall|j: int|
                    0 <= j < i ==> has_equals(entries@[j]@)) && message@ == invalid_argument_text(
                    entries@[i]@,
                ),
        },
{
    let mut table: StringTable<serde_json::Value> = StringTable::new();
    let n = entries.len();
    for i in 0..n
        invariant
            n == entries@.len(),
            table.wf(),
            forall|j: int| 0 <= j < i ==> has_equals(#[trigger] entries@[j]@),
            table@ == stored(arguments_of(entries@).take(i as int)),
    {
        match split_argument(entries[i].as_str()) {
            Some((key, value)) => {
                table.insert(key, value);
                assert(arguments_of(entries@).take(i + 1).drop_last() =~= arguments_of(entries@).take(
                    i as int,
                ));
            },
            None => {
                let mut message = owned("invalid --arg ");
                append(&mut message, entries[i].as_str());
                append(&mut message, "; use KEY=VALUE");
                return Err(message);
            },
        }
    }
    assert(arguments_of(entries@).take(n as int) =~= arguments_of(entries@));
    proof {
        lemma_stored_increasing(table.entries_view());
    }
    Ok(table.into_entries())
}

/// `s` without leading white space.
pub open spec fn trim_start(s: Seq<char>) -> Seq<char>
    decreases s.len(),
{
    if s.len() > 0 && unicode_whitespace(s[0]) {
        trim_start(s.drop_first())
    } else {
        s
    }
}

/// `s` without trailing white space.
pub open spec fn trim_end(s: Seq<char>) -> Seq<char>
    decreases s.len(),
{
    if s.len() > 0 && unicode_whitespace(s.last()) {
        trim_end(s.drop_last())
    } else {
        s
    }
}

/// `s` without leading or trailing white space.
pub open spec fn trimmed(s: Seq<char>) -> Seq<char> {
    trim_end(trim_start(s))
}

proof fn lemma_trim_start_suffix(s: Seq<char>, i: int)
    requires
        0 <= i <= s.len(),
        forall|j: int| 0 <= j < i ==> unicode_whitespace(#[trigger] s[j]),
    ensures
        trim_start(s) == trim_start(s.subrange(i, s.len() as int)),
    decreases i,
{
    if i > 0 {
        lemma_trim_start_suffix(s.drop_first(), i - 1);
        assert(s.drop_first().subrange(i - 1, s.drop_first().len() as int) =~= s.subrange(i, s.len() as int));
    } else {
        assert(s.subrange(0, s.len() as int) =~= s);
    }
}

proof fn lemma_trim_end_prefix(s: Seq<char>, k: int)
    requires
        0 <= k <= s.len(),
        forall|j: int| k <= j < s.len() ==> unicode_whitespace(#[trigger] s[j]),
    ensures
        trim_end(s) == trim_end(s.take(k)),
    decreases s.len() - k,
{
    if k < s.len() {
        lemma_trim_end_prefix(s.drop_last(), k);
        assert(s.drop_last().take(k) =~= s.take(k));
    } else {
        assert(s.take(k) =~= s);
    }
}

/// `input` without leading or trailing white space (`str::trim`).
pub fn trim(input: &str) -> (r: String)
    ensures
        r@ == trimmed(input@),
{
    let chars = chars_of(input);
    let n = chars.len();
    let mut start: usize = 0;
    while start < n && is_whitespace(chars[start])
        invariant
            n == chars@.len(),
            chars@ == input@,
            start <= n,
            forall|j: int| 0 <= j < start ==> unicode_whitespace(#[trigger] input@[j]),
        decreases n - start,
    {
        start = start + 1;
    }
    proof {
        lemma_trim_start_suffix(input@, start as int);
    }
    let ghost tail = input@.subrange(start as int, n as int);
    assert(start == n || !unicode_whitespace(tail[0]));
    assert(trim_start(tail) == tail);
    let mut end: usize = n;
    while end > start && is_whitespace(chars[end - 1])
        invariant
            n == chars@.len(),
            chars@ == input@,
            start <= end <= n,
            tail == input@.subrange(start as int, n as int),
            forall|j: int| end - start <= j < tail.len() ==> unicode_whitespace(#[trigger] tail[j]),
        decreases end,
    {
        end = end - 1;
    }
    proof {
        lemma_trim_end_prefix(tail, end - start);
        let kept = tail.take(end - start);
        assert(kept.len() == 0 || !unicode_whitespace(kept.last()));
        assert(trim_end(kept) == kept);
    }
    let mut out: Vec<char> = Vec::new();
    for k in start..end
        invariant
            n == chars@.len(),
            start <= end <= n,
            out@ == chars@.subrange(start as int, k as int),
    {
        out.push(chars[k]);
        assert(chars@.subrange(start as int, k + 1) =~= chars@.subrange(start as int, k as int).push(
            chars@[k as int],
        ));
    }
    assert(out@ =~= tail.take(end - start));
    string_from_chars(&out)
}

/// Whether an answer asks to stop: `q` in either case.
pub open spec fn is_quit(answer: Seq<char>) -> bool {
    answer == "q"@ || answer == "Q"@
}

fn quit_answer(answer: &str) -> (r: bool)
    ensures
        r == is_quit(answer@),
{
    proof {
        reveal_strlit("q");
        reveal_strlit("Q");
    }
    let chars = chars_of(answer);
    if chars.len() != 1 {
        return false;
    }
    let r = chars[0] == 'q' || chars[0] == 'Q';
    proof {
        if r {
            if chars@[0] == 'q' {
                assert(answer@ =~= "q"@);
            } else {
                assert(answer@ =~= "Q"@);
            }
        }
    }
    r
}

/// Whether the input, trimmed, asks to stop.
pub fn asks_to_stop(input: &str) -> (r: bool)
    ensures
        r == is_quit(trimmed(input@)),
{
    let answer = trim(input);
    quit_answer(answer.as_str())
}

/// The answer to an action prompt: use a skill, stop, or ask again.
#[derive(Debug)]
pub enum SkillChoice {
    Use(String),
    Quit,
    AskAgain,
}

/// The skills of the simulated robot.
pub open spec fn known_skill(skill: Seq<char>) -> bool {
    skill == "move"@ || skill == "pick"@ || skill == "place"@ || skill == "wait"@
}

/// Interprets an answer to the action prompt: nothing chooses the default skill, a known skill
/// chooses itself, `q` stops, and anything else asks again (all after trimming white space).
pub fn skill_choice(input: &str, default_skill: &str) -> (c: SkillChoice)
    ensures
        match c {
            SkillChoice::Use(skill) => {
                let answer = trimmed(input@);
                (answer.len() == 0 && skill@ == default_skill@) || (answer.len() > 0 && known_skill(
                    answer,
                ) && skill@ == answer)
            },
            SkillChoice::Quit => {
                let answer = trimmed(input@);
                answer.len() > 0 && !known_skill(answer) && is_quit(answer)
            },
            SkillChoice::AskAgain => {
                let answer = trimmed(input@);
                answer.len() > 0 && !known_skill(answer) && !is_quit(answer)
            },
        },
{
    let answer = trim(input);
    let text = answer.as_str();
    let length = chars_of(text).len();
    if length == 0 {
        return SkillChoice::Use(owned(default_skill));
    }
    if same_text(text, "move") || same_text(text, "pick") || same_text(text, "place") || same_text(
        text,
        "wait",
    ) {
        return SkillChoice::Use(answer);
    }
    if quit_answer(text) {
        return SkillChoice::Quit;
    }
    SkillChoice::AskAgain
}

/// The token request of the `token issue` command: the action with its arguments and requested
/// limits, bound to the context, with a policy that allows exactly this skill in this zone up
/// to the requested limits; high risk where asked, with one approval per approver at `now`.
pub fn command_token_request(
    robot_id: String,
    skill: String,
    context: ExecutionContext,
    ttl_seconds: u64,
    speed: Option<FloatBits>,
    force: Option<FloatBits>,
    arguments: Vec<(String, serde_json::Value)>,
    high_risk: bool,
    approvers: Vec<String>,
    now: i64,
) -> (r: TokenRequest)
    ensures
        r.robot_id == robot_id,
        r.action.skill == skill,
        r.action.arguments == arguments,
        r.action.requested_speed_mps == speed,
        r.action.requested_force_newtons == force,
        r.context == context,
        r.ttl_seconds == ttl_seconds,
        r.constraints.allowed_skills@ == seq![skill],
        r.constraints.allowed_zones@ == seq![context.zone],
        r.constraints.max_speed_mps == speed,
        r.constraints.max_force_newtons == force,
        r.risk == (if high_risk { RiskLevel::High } else { RiskLevel::Normal }),
        r.approvals@.len() == approvers@.len(),
        forall|i: int|
            0 <= i < approvers@.len() ==> (#[trigger] r.approvals@[i]).operator_id == approvers@[i]
                && r.approvals@[i].approved_at_unix_ms == now,
{
    let mut approvals: Vec<Approval> = Vec::new();
    let n = approvers.len();
    for i in 0..n
        invariant
            n == approvers@.len(),
            approvals@.len() == i,
            forall|j: int|
                0 <= j < i ==> (#[trigger] approvals@[j]).operator_id == approvers@[j]
                    && approvals@[j].approved_at_unix_ms == now,
    {
        approvals.push(Approval { operator_id: approvers[i].clone(), approved_at_unix_ms: now });
    }
    let zone = context.zone.clone();
    let allowed_skill = skill.clone();
    TokenRequest {
        robot_id,
        action: RobotAction {
            skill,
            arguments,
            requested_speed_mps: speed,
            requested_force_newtons: force,
        },
        context,
        ttl_seconds,
        constraints: PolicyConstraints {
            allowed_skills: vec![allowed_skill],
            allowed_zones: vec![zone],
            max_speed_mps: speed,
            max_force_newtons: force,
        },
        risk: if high_risk { RiskLevel::High } else { RiskLevel::Normal },
        approvals,
    }
}

/// Whether Unix permission bits grant anything to the group or to others (`mode & 0o077`):
/// a private identity file must not.
pub fn grants_group_or_world(mode: u32) -> (r: bool)
    ensures
        r == (mode & 63u32 != 0),
{
    mode & 63u32 != 0
}

} // verus!
