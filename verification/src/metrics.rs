//! Request, token, execution and rejection counters, rendered in the
//! Prometheus text exposition format.
use vstd::prelude::*;

use crate::table::{StringTable, in_key_order, lemma_key_order_len, lemma_key_order_unique};
use crate::text::{append, chars_of, decimal, decimal_string, string_from_chars};

verus! {

/// Whether a label keeps this character unchanged: ASCII letters, digits, `_` and `-`.
pub open spec fn label_char_kept(c: char) -> bool {
    ('a' <= c && c <= 'z') || ('A' <= c && c <= 'Z') || ('0' <= c && c <= '9') || c == '_' || c
        == '-'
}

/// A label with every character outside `[A-Za-z0-9_-]` replaced by `_`.
pub open spec fn sanitized_label(value: Seq<char>) -> Seq<char> {
    value.map_values(|c: char| if label_char_kept(c) { c } else { '_' })
}

/// Replaces every character outside `[A-Za-z0-9_-]` with `_`.
pub fn sanitize_label(value: &str) -> (out: String)
    ensures
        out@ == sanitized_label(value@),
{
    let chars = chars_of(value);
    let mut kept: Vec<char> = Vec::new();
    let n = chars.len();
    for i in 0..n
        invariant
            n == chars@.len(),
            chars@ == value@,
            kept@ == sanitized_label(value@).take(i as int),
    {
        let c = chars[i];
        let keep = ('a' <= c && c <= 'z') || ('A' <= c && c <= 'Z') || ('0' <= c && c <= '9')
            || c == '_' || c == '-';
        if keep {
            kept.push(c);
        } else {
            kept.push('_');
        }
        assert(kept@ =~= sanitized_label(value@).take(i + 1));
    }
    assert(kept@ =~= sanitized_label(value@));
    string_from_chars(&kept)
}

/// The three exposition lines of one counter.
pub open spec fn counter_lines(name: Seq<char>, help: Seq<char>, role: Seq<char>, value: nat) -> Seq<
    char,
> {
    "# HELP "@ + name + " "@ + help + "\n# TYPE "@ + name + " counter\n"@ + name + "{role=\""@
        + role + "\"} "@ + decimal(value) + "\n"@
}

/// The exposition line of the rejections counted under one reason.
pub open spec fn rejection_line(role: Seq<char>, reason: Seq<char>, count: nat) -> Seq<char> {
    "spacl_rejections_total{role=\""@ + role + "\",reason=\""@ + reason + "\"} "@ + decimal(count)
        + "\n"@
}

/// The exposition lines of all rejection reasons, in the given order.
pub open spec fn rejection_lines(role: Seq<char>, rejections: Seq<(Seq<char>, u64)>) -> Seq<char>
    decreases rejections.len(),
{
    if rejections.len() == 0 {
        Seq::empty()
    } else {
        rejection_lines(role, rejections.drop_last()) + rejection_line(
            role,
            rejections.last().0,
            rejections.last().1 as nat,
        )
    }
}

/// The full exposition text for the given counter values, rejection reasons in the given order.
pub open spec fn rendered_metrics(
    role: Seq<char>,
    requests: nat,
    issued: nat,
    latency: nat,
    executions: nat,
    rejections: Seq<(Seq<char>, u64)>,
) -> Seq<char> {
    counter_lines("spacl_requests_total"@, "HTTP requests handled."@, role, requests)
        + counter_lines("spacl_tokens_issued_total"@, "Action tokens issued."@, role, issued)
        + counter_lines(
        "spacl_token_issue_duration_microseconds_total"@,
        "Total token issue time."@,
        role,
        latency,
    ) + counter_lines(
        "spacl_executions_total"@,
        "Actions completed by a robot runtime."@,
        role,
        executions,
    ) + "# HELP spacl_rejections_total Requests rejected by reason.\n"@
        + "# TYPE spacl_rejections_total counter\n"@ + rejection_lines(role, rejections)
}

fn push_counter(out: &mut String, name: &str, help: &str, role: &str, value: u64)
    ensures
        final(out)@ == old(out)@ + counter_lines(name@, help@, role@, value as nat),
{
    append(out, "# HELP ");
    append(out, name);
    append(out, " ");
    append(out, help);
    append(out, "\n# TYPE ");
    append(out, name);
    append(out, " counter\n");
    append(out, name);
    append(out, "{role=\"");
    append(out, role);
    append(out, "\"} ");
    let digits = decimal_string(value);
    append(out, digits.as_str());
    append(out, "\n");
    assert(final(out)@ =~= old(out)@ + counter_lines(name@, help@, role@, value as nat));
}

/// The abstract state of the counters.
pub struct MetricsView {
    pub requests: u64,
    pub tokens_issued: u64,
    pub token_issue_microseconds: u64,
    pub executions: u64,
    /// Rejections counted by sanitized reason.
    pub rejections: Map<Seq<char>, u64>,
}

/// Service counters. Counters wrap around at `u64::MAX`, as atomic additions do.
pub struct Metrics {
    requests: u64,
    tokens_issued: u64,
    token_issue_microseconds: u64,
    executions: u64,
    rejections: StringTable<u64>,
}

impl View for Metrics {
    type V = MetricsView;

    closed spec fn view(&self) -> MetricsView {
        MetricsView {
            requests: self.requests,
            tokens_issued: self.tokens_issued,
            token_issue_microseconds: self.token_issue_microseconds,
            executions: self.executions,
            rejections: self.rejections@,
        }
    }
}

impl Metrics {
    /// The counted rejections in reason order, as the ordered map holding them iterates them.
    pub closed spec fn rejections_in_order(&self) -> Seq<(Seq<char>, u64)> {
        self.rejections.entries_view()
    }

    #[verifier::type_invariant]
    closed spec fn inv(&self) -> bool {
        self.rejections.wf()
    }

    /// Every counter at zero.
    pub fn new() -> (m: Self)
        ensures
            m@.requests == 0,
            m@.tokens_issued == 0,
            m@.token_issue_microseconds == 0,
            m@.executions == 0,
            m@.rejections == Map::<Seq<char>, u64>::empty(),
            m.rejections_in_order() == Seq::<(Seq<char>, u64)>::empty(),
            in_key_order(m.rejections_in_order(), m@.rejections),
    {
        let m = Metrics {
            requests: 0,
            tokens_issued: 0,
            token_issue_microseconds: 0,
            executions: 0,
            rejections: StringTable::new(),
        };
        proof {
            use_type_invariant(&m);
        }
        m
    }

    /// Counts one handled request.
    pub fn request(&mut self)
        ensures
            in_key_order(final(self).rejections_in_order(), final(self)@.rejections),
            final(self)@ == (MetricsView {
                requests: old(self)@.requests.wrapping_add(1),
                ..old(self)@
            }),
            final(self).rejections_in_order() == old(self).rejections_in_order(),
    {
        proof {
            use_type_invariant(&*self);
        }
        self.requests = self.requests.wrapping_add(1);
        proof {
            use_type_invariant(&*self);
        }
    }

    /// Counts one issued token and the time it took to issue it.
    pub fn token_issued(&mut self, elapsed_microseconds: u64)
        ensures
            in_key_order(final(self).rejections_in_order(), final(self)@.rejections),
            final(self)@ == (MetricsView {
                tokens_issued: old(self)@.tokens_issued.wrapping_add(1),
                token_issue_microseconds: old(self)@.token_issue_microseconds.wrapping_add(
                    elapsed_microseconds,
                ),
                ..old(self)@
            }),
            final(self).rejections_in_order() == old(self).rejections_in_order(),
    {
        proof {
            use_type_invariant(&*self);
        }
        self.tokens_issued = self.tokens_issued.wrapping_add(1);
        self.token_issue_microseconds = self.token_issue_microseconds.wrapping_add(
            elapsed_microseconds,
        );
        proof {
            use_type_invariant(&*self);
        }
    }

    /// Counts one completed execution.
    pub fn execution(&mut self)
        ensures
            in_key_order(final(self).rejections_in_order(), final(self)@.rejections),
            final(self)@ == (MetricsView {
                executions: old(self)@.executions.wrapping_add(1),
                ..old(self)@
            }),
            final(self).rejections_in_order() == old(self).rejections_in_order(),
    {
        proof {
            use_type_invariant(&*self);
        }
        self.executions = self.executions.wrapping_add(1);
        proof {
            use_type_invariant(&*self);
        }
    }

    /// Counts one rejection under the sanitized form of `reason`.
    pub fn rejection(&mut self, reason: &str)
        ensures
            in_key_order(final(self).rejections_in_order(), final(self)@.rejections),
            ({
                let label = sanitized_label(reason@);
                let before = if old(self)@.rejections.contains_key(label) {
                    old(self)@.rejections[label]
                } else {
                    0
                };
                final(self)@ == (MetricsView {
                    rejections: old(self)@.rejections.insert(label, before.wrapping_add(1)),
                    ..old(self)@
                })
            }),
    {
        proof {
            use_type_invariant(&*self);
        }
        let label = sanitize_label(reason);
        let before: u64 = match self.rejections.get(label.as_str()) {
            Some(count) => *count,
            None => 0,
        };
        let mut table = StringTable::new();
        std::mem::swap(&mut table, &mut self.rejections);
        table.insert(label, before.wrapping_add(1));
        self.rejections = table;
        proof {
            use_type_invariant(&*self);
        }
    }

    /// Renders every counter in the Prometheus text format, labelled with `role`.
    pub fn render(&self, role: &str) -> (out: String)
        ensures
            in_key_order(self.rejections_in_order(), self@.rejections),
            out@ == rendered_metrics(
                role@,
                self@.requests as nat,
                self@.tokens_issued as nat,
                self@.token_issue_microseconds as nat,
                self@.executions as nat,
                self.rejections_in_order(),
            ),
    {
        proof {
            use_type_invariant(self);
        }
        let mut out = String::new();
        push_counter(&mut out, "spacl_requests_total", "HTTP requests handled.", role, self.requests);
        push_counter(&mut out, "spacl_tokens_issued_total", "Action tokens issued.", role, self.tokens_issued);
        push_counter(
            &mut out,
            "spacl_token_issue_duration_microseconds_total",
            "Total token issue time.",
            role,
            self.token_issue_microseconds,
        );
        push_counter(
            &mut out,
            "spacl_executions_total",
            "Actions completed by a robot runtime.",
            role,
            self.executions,
        );
        append(&mut out, "# HELP spacl_rejections_total Requests rejected by reason.\n");
        append(&mut out, "# TYPE spacl_rejections_total counter\n");
        let ghost head = out@;
        let entries = self.rejections.entries();
        let n = entries.len();
        for i in 0..n
            invariant
                n == entries@.len(),
                n == self.rejections_in_order().len(),
                forall|j: int|
                    0 <= j < entries@.len() ==> (#[trigger] entries@[j]).0@
                        == self.rejections_in_order()[j].0 && entries@[j].1
                        == self.rejections_in_order()[j].1,
                out@ == head + rejection_lines(role@, self.rejections_in_order().take(i as int)),
        {
            let (reason, count) = &entries[i];
            append(&mut out, "spacl_rejections_total{role=\"");
            append(&mut out, role);
            append(&mut out, "\",reason=\"");
            append(&mut out, reason.as_str());
            append(&mut out, "\"} ");
            let digits = decimal_string(*count);
            append(&mut out, digits.as_str());
            append(&mut out, "\n");
            assert(self.rejections_in_order().take(i + 1).drop_last() =~= self.rejections_in_order().take(i as int));
            assert(out@ =~= head + rejection_lines(role@, self.rejections_in_order().take(i + 1)));
        }
        assert(self.rejections_in_order().take(n as int) =~= self.rejections_in_order());
        out
    }
}

impl Default for Metrics {
    fn default() -> (m: Self)
        ensures
            m@.requests == 0,
            m@.tokens_issued == 0,
            m@.token_issue_microseconds == 0,
            m@.executions == 0,
            m@.rejections == Map::<Seq<char>, u64>::empty(),
            m.rejections_in_order() == Seq::<(Seq<char>, u64)>::empty(),
            in_key_order(m.rejections_in_order(), m@.rejections),
    {
        Metrics::new()
    }
}

/// What is rendered depends on the counts alone: two metrics with the same counts list their
/// rejections alike (one line per label, in increasing label order), so they render alike.
pub proof fn lemma_render_follows_counts(a: Metrics, b: Metrics)
    requires
        a@ == b@,
        in_key_order(a.rejections_in_order(), a@.rejections),
        in_key_order(b.rejections_in_order(), b@.rejections),
    ensures
        a.rejections_in_order() == b.rejections_in_order(),
        a.rejections_in_order().len() == a@.rejections.dom().len(),
{
    lemma_key_order_unique(a.rejections_in_order(), b.rejections_in_order());
    lemma_key_order_len(a.rejections_in_order());
}

} // verus!
