//! Objectives an agent sets itself: the agent is asked for them, and its
//! answer is read for descriptions and priorities. Asking is the caller's
//! work; the question, the reading of the answer and the resulting
//! objectives are decided here.

use vstd::prelude::*;
use crate::adapters::links::evaluations::{trim_text, trimmed};
use crate::adapters::nodes::agents::{by_priority, law_objectives_ordered, objective_views, Agent, ObjectiveView};
use crate::text::{owned, unsigned_of_text};
use vstd::string::StrSliceExecFns;

verus! {

/// What a line of the answer is read by, first: a word naming an objective,
/// its description, then a word naming its priority, and the priority.
pub open spec fn objective_pattern() -> Seq<char> {
    "(?i)(objective|goal|task|focus|priority):?\\s*(?P<description>.+?)\\s*(,|;|:|\\.)?\\s*(priority|rank|importance):?\\s*(?P<priority>\\d+)"@
}

/// What a line is read by when the first pattern finds nothing: a number.
pub open spec fn number_pattern() -> Seq<char> {
    "(?P<priority>\\d+)"@
}

/// The two named groups of each match of a pattern in a text, in order of
/// the matches (`regex` `captures_iter`).
pub uninterp spec fn captured_pairs(pattern: Seq<char>, text: Seq<char>, first: Seq<char>, second: Seq<char>) -> Seq<(Seq<char>, Seq<char>)>;

/// The text of the first match of a pattern in a text (`regex` `find`).
pub uninterp spec fn first_match(pattern: Seq<char>, text: Seq<char>) -> Option<Seq<char>>;

/// Where the line that starts at `i` ends: the first `\n` at or after `i`,
/// or the end of the text.
pub open spec fn line_end(text: Seq<char>, i: int) -> int
    decreases text.len() - i,
{
    if i < 0 || i >= text.len() {
        text.len() as int
    } else if text[i] == '\n' {
        i
    } else {
        line_end(text, i + 1)
    }
}

pub proof fn lemma_line_end(text: Seq<char>, i: int)
    requires
        0 <= i < text.len(),
    ensures
        i <= line_end(text, i) <= text.len(),
    decreases text.len() - i,
{
    if text[i] != '\n' {
        if i + 1 < text.len() {
            lemma_line_end(text, i + 1);
        } else {
            assert(line_end(text, i + 1) == text.len());
        }
    }
}

/// The lines from position `i` on: each runs up to a `\n`, which is left out
/// together with a `\r` just before it; a last line without `\n` is kept as
/// it is, and a final `\n` starts no further line.
pub open spec fn lines_from(text: Seq<char>, i: int) -> Seq<Seq<char>>
    decreases text.len() - i,
{
    if i < 0 || i >= text.len() {
        Seq::empty()
    } else {
        let e = line_end(text, i);
        proof {
            lemma_line_end(text, i);
        }
        let raw = text.subrange(i, e);
        let line = if e < text.len() && raw.len() > 0 && raw.last() == '\r' {
            raw.drop_last()
        } else {
            raw
        };
        if e >= text.len() {
            seq![line]
        } else {
            seq![line] + lines_from(text, e + 1)
        }
    }
}

/// The lines of a text, as `str::lines` gives them.
pub open spec fn text_lines(text: Seq<char>) -> Seq<Seq<char>> {
    lines_from(text, 0)
}

/// A text with every occurrence of a part removed, matches taken from the
/// left without overlapping (`str::replace` with an empty replacement).
pub open spec fn without_all(text: Seq<char>, part: Seq<char>) -> Seq<char>
    decreases text.len(),
{
    if part.len() == 0 || text.len() < part.len() {
        text
    } else if text.subrange(0, part.len() as int) == part {
        without_all(text.skip(part.len() as int), part)
    } else {
        seq![text[0]] + without_all(text.skip(1), part)
    }
}

/// The number a text spells, as `str::parse::<u8>` reads it.
pub open spec fn u8_of_text(s: Seq<char>) -> Option<u8> {
    match unsigned_of_text(s, 255) {
        Some(n) => Some(n as u8),
        None => None,
    }
}

pub open spec fn text_pairs(v: Seq<(String, String)>) -> Seq<(Seq<char>, Seq<char>)> {
    v.map_values(|p: (String, String)| (p.0@, p.1@))
}

/// The two named groups of each match (`regex::Regex::captures_iter`); trusted
/// to depend on the pattern, the text and the names alone, and to give nothing
/// for a pattern that does not compile.
#[verifier::external_body]
fn capture_pairs(pattern: &str, text: &str, first: &str, second: &str) -> (res: Vec<(String, String)>)
    ensures
        text_pairs(res@) == captured_pairs(pattern@, text@, first@, second@),
{
    let mut out = Vec::new();
    if let Ok(re) = regex::Regex::new(pattern) {
        for c in re.captures_iter(text) {
            let a = c.name(first).map_or(String::new(), |m| m.as_str().to_string());
            let b = c.name(second).map_or(String::new(), |m| m.as_str().to_string());
            out.push((a, b));
        }
    }
    out
}

/// The first match of a pattern (`regex::Regex::find`); trusted to depend on
/// the pattern and the text alone.
#[verifier::external_body]
fn find_first(pattern: &str, text: &str) -> (res: Option<String>)
    ensures
        match res {
            Some(m) => first_match(pattern@, text@) == Some(m@),
            None => first_match(pattern@, text@) is None,
        },
{
    match regex::Regex::new(pattern) {
        Ok(re) => re.find(text).map(|m| m.as_str().to_string()),
        Err(_) => None,
    }
}

/// `str::lines`; trusted to split as its documentation says: at `\n` or
/// `\r\n`, the final line ending optional.
#[verifier::external_body]
fn lines_of(text: &str) -> (res: Vec<String>)
    ensures
        res@.map_values(|l: String| l@) == text_lines(text@),
{
    text.lines().map(|l| l.to_string()).collect()
}

/// `str::replace` with an empty replacement; trusted to remove every match,
/// taken from the left.
#[verifier::external_body]
fn remove_all(text: &str, part: &str) -> (res: String)
    ensures
        res@ == without_all(text@, part@),
{
    text.replace(part, "")
}

/// `str::parse::<u8>`; trusted to accept, as the documentation of
/// `from_str_radix` says, an optional `+` and then decimal digits whose value
/// fits.
#[verifier::external_body]
fn parse_u8(s: &str) -> (res: Option<u8>)
    ensures
        res == u8_of_text(s@),
{
    s.parse::<u8>().ok()
}

/// A priority read from its text, or 1 where the text is no number that fits.
pub open spec fn priority_or_one(s: Seq<char>) -> u8 {
    match u8_of_text(s) {
        Some(n) => n,
        None => 1,
    }
}

/// The objectives the matches of the first pattern give: each description
/// trimmed, each with its priority.
pub open spec fn captured_objectives(answer: Seq<char>) -> Seq<(Seq<char>, u8)> {
    captured_pairs(objective_pattern(), answer, "description"@, "priority"@).map_values(
        |p: (Seq<char>, Seq<char>)| (trimmed(p.0), priority_or_one(p.1)),
    )
}

/// The objective a line gives when read for a number: the line without that
/// number, trimmed, with the number as its priority; none where the line has
/// no number or nothing else.
pub open spec fn line_objective(line: Seq<char>) -> Option<(Seq<char>, u8)> {
    match first_match(number_pattern(), line) {
        Some(m) => {
            let d = trimmed(without_all(line, m));
            if d.len() > 0 {
                Some((d, priority_or_one(m)))
            } else {
                None
            }
        },
        None => None,
    }
}

/// The objectives lines give, in order.
pub open spec fn line_objectives(lines: Seq<Seq<char>>) -> Seq<(Seq<char>, u8)>
    decreases lines.len(),
{
    if lines.len() == 0 {
        Seq::empty()
    } else {
        let rest = line_objectives(lines.drop_last());
        match line_objective(lines.last()) {
            Some(o) => rest.push(o),
            None => rest,
        }
    }
}

/// The objectives an answer gives: those the first pattern finds, or, where it
/// finds none, those its lines give.
pub open spec fn answer_objectives(answer: Seq<char>) -> Seq<(Seq<char>, u8)> {
    if captured_pairs(objective_pattern(), answer, "description"@, "priority"@).len() > 0 {
        captured_objectives(answer)
    } else {
        line_objectives(text_lines(answer))
    }
}

pub open spec fn pair_texts(v: Seq<(String, u8)>) -> Seq<(Seq<char>, u8)> {
    v.map_values(|p: (String, u8)| (p.0@, p.1))
}

/// The objectives (description and priority) an agent's answer gives, in order.
pub fn objectives_from_answer(answer: &str) -> (res: Vec<(String, u8)>)
    ensures
        pair_texts(res@) == answer_objectives(answer@),
{
    let pattern = "(?i)(objective|goal|task|focus|priority):?\\s*(?P<description>.+?)\\s*(,|;|:|\\.)?\\s*(priority|rank|importance):?\\s*(?P<priority>\\d+)";
    let caps = capture_pairs(pattern, answer, "description", "priority");
    let mut out: Vec<(String, u8)> = Vec::new();
    if caps.len() > 0 {
        let ghost all = text_pairs(caps@);
        let mut i: usize = 0;
        while i < caps.len()
            invariant
                i <= caps@.len(),
                all == text_pairs(caps@),
                out@.len() == i,
                forall|k: int| 0 <= k < i ==> (#[trigger] pair_texts(out@)[k]) == (trimmed(all[k].0), priority_or_one(all[k].1)),
            decreases caps.len() - i,
        {
            let d = trim_text(caps[i].0.as_str());
            let p = match parse_u8(caps[i].1.as_str()) {
                Some(n) => n,
                None => 1,
            };
            let ghost dv = d@;
            let ghost before = out@;
            out.push((d, p));
            proof {
                assert(all[i as int] == (caps@[i as int].0@, caps@[i as int].1@));
                assert(pair_texts(out@)[i as int] == (dv, p));
                assert forall|k: int| 0 <= k < i + 1 implies (#[trigger] pair_texts(out@)[k]) == (trimmed(all[k].0), priority_or_one(all[k].1)) by {
                    if k < i {
                        assert(pair_texts(out@)[k] == pair_texts(before)[k]);
                    }
                }
            }
            i = i + 1;
        }
        proof {
            assert(pair_texts(out@) =~= captured_objectives(answer@));
        }
    } else {
        let lines = lines_of(answer);
        let ghost all = lines@.map_values(|l: String| l@);
        let mut i: usize = 0;
        while i < lines.len()
            invariant
                i <= lines@.len(),
                all == lines@.map_values(|l: String| l@),
                pair_texts(out@) == line_objectives(all.take(i as int)),
            decreases lines.len() - i,
        {
            let line = lines[i].as_str();
            proof {
                assert(all.take(i + 1).drop_last() =~= all.take(i as int));
                assert(all.take(i + 1).last() == line@);
            }
            match find_first("(?P<priority>\\d+)", line) {
                Some(m) => {
                    let rest = remove_all(line, m.as_str());
                    let d = trim_text(rest.as_str());
                    if d.as_str().unicode_len() > 0 {
                        let p = match parse_u8(m.as_str()) {
                            Some(n) => n,
                            None => 1,
                        };
                        let ghost before = out@;
                        out.push((d, p));
                        proof {
                            assert(pair_texts(out@) =~= pair_texts(before).push((d@, p)));
                        }
                    }
                },
                None => {},
            }
            i = i + 1;
        }
        proof {
            assert(all.take(lines@.len() as int) =~= all);
        }
    }
    out
}

/// The objectives after adding each of `added` in turn as a generated one
/// (each addition orders them by priority).
pub open spec fn after_generated(views: Seq<ObjectiveView>, added: Seq<(Seq<char>, u8)>) -> Seq<ObjectiveView>
    decreases added.len(),
{
    if added.len() == 0 {
        views
    } else {
        by_priority(after_generated(views, added.drop_last()).push(
            ObjectiveView { description: added.last().0, priority: added.last().1, generated: true },
        ))
    }
}

/// Once an answer has given objectives, the agent's objectives run from the
/// highest priority down, whatever order they had before.
pub proof fn law_generated_objectives_ordered(views: Seq<ObjectiveView>, added: Seq<(Seq<char>, u8)>)
    requires
        added.len() > 0,
    ensures
        forall|i: int, j: int|
            0 <= i < j < after_generated(views, added).len() ==> #[trigger] after_generated(views, added)[i].priority
                >= #[trigger] after_generated(views, added)[j].priority,
{
    law_objectives_ordered(after_generated(views, added.drop_last()).push(
        ObjectiveView { description: added.last().0, priority: added.last().1, generated: true },
    ));
}

/// The question an agent is asked for its objectives.
pub open spec fn objectives_question(role: Seq<char>, personality: Seq<char>, context: Seq<char>) -> Seq<char> {
    "As a "@ + role + " with the personality '"@ + personality
        + "', what objectives should you focus on given the following context: "@ + context
        + ". List each objective on a new line and include a ranking (priority) between 1 and 10, where 10 is the highest priority. Format: Objective: <description>, Priority: <1-10>."@
}

fn append(s: &mut String, t: &str)
    ensures
        final(s)@ == old(s)@ + t@,
{
    s.append(t);
}

impl Agent {
    /// The question this agent is asked for its objectives, given a context.
    pub fn objectives_prompt(&self, input_context: &str) -> (res: String)
        ensures
            res@ == objectives_question(self.role@, self.personality@, input_context@),
    {
        let mut s = owned("As a ");
        append(&mut s, self.role.as_str());
        append(&mut s, " with the personality '");
        append(&mut s, self.personality.as_str());
        append(&mut s, "', what objectives should you focus on given the following context: ");
        append(&mut s, input_context);
        append(&mut s, ". List each objective on a new line and include a ranking (priority) between 1 and 10, where 10 is the highest priority. Format: Objective: <description>, Priority: <1-10>.");
        s
    }

    /// Adds the objectives the agent's answer gives, each as a generated one.
    pub fn add_generated_objectives(&mut self, answer: &str)
        ensures
            objective_views(final(self).objectives@) == after_generated(objective_views(old(self).objectives@), answer_objectives(answer@)),
            final(self).name == old(self).name,
            final(self).id == old(self).id,
            final(self).role == old(self).role,
            final(self).personality == old(self).personality,
            final(self).wallet_address == old(self).wallet_address,
    {
        let found = objectives_from_answer(answer);
        let ghost start = objective_views(self.objectives@);
        let ghost added = pair_texts(found@);
        let mut i: usize = 0;
        while i < found.len()
            invariant
                i <= found@.len(),
                added == pair_texts(found@),
                objective_views(self.objectives@) == after_generated(start, added.take(i as int)),
                self.name == old(self).name,
                self.id == old(self).id,
                self.role == old(self).role,
                self.personality == old(self).personality,
                self.wallet_address == old(self).wallet_address,
            decreases found.len() - i,
        {
            proof {
                assert(added.take(i + 1).drop_last() =~= added.take(i as int));
                assert(added.take(i + 1).last() == (found@[i as int].0@, found@[i as int].1));
            }
            self.add_objective(found[i].0.as_str(), found[i].1, true);
            i = i + 1;
        }
        proof {
            assert(added.take(found@.len() as int) =~= added);
        }
    }
}

} // verus!
