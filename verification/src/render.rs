//! Rendering of a batch result.
//!
//! Three mutually exclusive presentations: the bare verdict when exactly one
//! name was supplied and succeeded, one aligned text line per successful
//! lookup, and an ordered list of structured records. Failed lookups are
//! omitted from every rendering; that is the documented policy, not an
//! accident.

use vstd::prelude::*;

use crate::availability_text;
use crate::batch::LookupResult;
use crate::encode::hex_char;
use crate::encode::hex_char_exec;
use crate::text::lemma_spaces_len;
use crate::text::push_char;
use crate::text::push_spaces;
use crate::text::spaces;

verus! {

/// The successful entries of a batch, in input order.
pub open spec fn successes(rs: Seq<LookupResult>) -> Seq<LookupResult> {
    rs.filter(|x: LookupResult| x.outcome is Ok)
}

/// The longest name in the batch, counted in characters.
pub open spec fn max_name_len(rs: Seq<LookupResult>) -> nat
    decreases rs.len(),
{
    if rs.len() == 0 {
        0
    } else {
        let rest = max_name_len(rs.drop_last());
        if rs.last().name@.len() > rest {
            rs.last().name@.len()
        } else {
            rest
        }
    }
}

pub proof fn lemma_max_name_len_ge(rs: Seq<LookupResult>, i: int)
    requires
        0 <= i < rs.len(),
    ensures
        rs[i].name@.len() <= max_name_len(rs),
    decreases rs.len(),
{
    if i < rs.len() - 1 {
        lemma_max_name_len_ge(rs.drop_last(), i);
    }
}

/// One aligned text line: the name, padded with spaces to one column past
/// the widest name, then the verdict's canonical text.
pub open spec fn aligned_line(x: LookupResult, width: nat) -> Seq<char> {
    x.name@ + spaces((width + 1 - x.name@.len()) as nat) + availability_text(x.outcome->Ok_0)
}

/// The aligned text lines of a batch: one per successful lookup, in input
/// order; failed lookups leave no line.
pub open spec fn aligned_lines(rs: Seq<LookupResult>, width: nat) -> Seq<Seq<char>>
    decreases rs.len(),
{
    if rs.len() == 0 {
        Seq::empty()
    } else {
        let rest = aligned_lines(rs.drop_last(), width);
        if rs.last().outcome is Ok {
            rest.push(aligned_line(rs.last(), width))
        } else {
            rest
        }
    }
}

/// The aligned lines are exactly the successful lookups, in order: the i-th
/// line renders the i-th success.
pub proof fn lemma_aligned_lines_are_successes(rs: Seq<LookupResult>, width: nat)
    ensures
        aligned_lines(rs, width).len() == successes(rs).len(),
        forall|i: int|
            0 <= i < successes(rs).len() ==> aligned_lines(rs, width)[i] == aligned_line(
                #[trigger] successes(rs)[i],
                width,
            ),
    decreases rs.len(),
{
    reveal(Seq::filter);
    if rs.len() > 0 {
        lemma_aligned_lines_are_successes(rs.drop_last(), width);
    }
}

/// Failed lookups leave no trace in the aligned lines: rendering a batch is
/// the same as rendering only its successes.
pub proof fn lemma_aligned_ignores_failures(rs: Seq<LookupResult>, width: nat)
    ensures
        aligned_lines(rs, width) == aligned_lines(successes(rs), width),
    decreases rs.len(),
{
    reveal(Seq::filter);
    if rs.len() > 0 {
        lemma_aligned_ignores_failures(rs.drop_last(), width);
        if rs.last().outcome is Ok {
            let prefix = successes(rs.drop_last());
            assert(successes(rs) == prefix.push(rs.last()));
            assert(prefix.push(rs.last()).drop_last() =~= prefix);
        } else {
            assert(aligned_lines(rs, width) =~= aligned_lines(successes(rs), width));
        }
    }
}

/// In every aligned line whose name fits the column, the verdict text starts
/// exactly one character past the widest name, so all lines are aligned.
pub proof fn lemma_aligned_column(x: LookupResult, width: nat)
    requires
        x.name@.len() <= width,
        x.outcome is Ok,
    ensures
        aligned_line(x, width).len() == width + 1 + availability_text(x.outcome->Ok_0).len(),
        aligned_line(x, width).subrange(0, x.name@.len() as int) == x.name@,
        aligned_line(x, width).subrange(
            (width + 1) as int,
            aligned_line(x, width).len() as int,
        ) == availability_text(x.outcome->Ok_0),
{
    lemma_spaces_len((width + 1 - x.name@.len()) as nat);
    assert(aligned_line(x, width).subrange(0, x.name@.len() as int) =~= x.name@);
    assert(aligned_line(x, width).subrange(
        (width + 1) as int,
        aligned_line(x, width).len() as int,
    ) =~= availability_text(x.outcome->Ok_0));
}

/// The bare verdict, for the single-lookup case.
///
/// Produces text exactly when one lookup was made and it succeeded; the text
/// is the verdict's canonical rendering alone, with no name prefix.
pub fn render_plain(results: &Vec<LookupResult>) -> (r: Option<String>)
    ensures
        r is Some <==> results@.len() == 1 && results@[0].outcome is Ok,
        r matches Some(s) ==> s@ == availability_text(results@[0].outcome->Ok_0),
{
    if results.len() == 1 {
        match &results[0].outcome {
            Ok(a) => Some(a.render()),
            Err(_) => None,
        }
    } else {
        None
    }
}

/// Renders the aligned text lines of a batch: one line per successful
/// lookup, in input order, the verdict column aligned one character past the
/// widest input name.
pub fn render_aligned(results: &Vec<LookupResult>) -> (r: Vec<String>)
    ensures
        r.deep_view() == aligned_lines(results@, max_name_len(results@)),
{
    let ghost full_width = max_name_len(results@);
    let mut width: usize = 0;
    let mut i: usize = 0;
    while i < results.len()
        invariant
            i <= results@.len(),
            width as nat == max_name_len(results@.take(i as int)),
        decreases results@.len() - i,
    {
        let len = results[i].name.as_str().unicode_len();
        if len > width {
            width = len;
        }
        proof {
            let head = results@.take(i + 1);
            assert(head.drop_last() =~= results@.take(i as int));
            assert(head.last() == results@[i as int]);
        }
        i += 1;
    }
    proof {
        assert(results@.take(results@.len() as int) =~= results@);
    }
    let mut out: Vec<String> = Vec::new();
    i = 0;
    while i < results.len()
        invariant
            i <= results@.len(),
            width as nat == full_width,
            full_width == max_name_len(results@),
            out.deep_view() == aligned_lines(results@.take(i as int), full_width),
        decreases results@.len() - i,
    {
        match &results[i].outcome {
            Ok(a) => {
                proof {
                    lemma_max_name_len_ge(results@, i as int);
                }
                let mut line = results[i].name.clone();
                let len = line.as_str().unicode_len();
                push_spaces(&mut line, width - len);
                push_char(&mut line, ' ');
                let verdict = a.render();
                line.append(verdict.as_str());
                proof {
                    assert(spaces(((width - len) + 1) as nat) == spaces(
                        (width - len) as nat,
                    ).push(' '));
                    assert(line@ =~= aligned_line(results@[i as int], full_width));
                }
                out.push(line);
            },
            Err(_) => {},
        }
        proof {
            let head = results@.take(i + 1);
            assert(head.drop_last() =~= results@.take(i as int));
            assert(head.last() == results@[i as int]);
            assert(out.deep_view() =~= aligned_lines(head, full_width));
        }
        i += 1;
    }
    proof {
        assert(results@.take(results@.len() as int) =~= results@);
    }
    out
}

/// One structured record: a name and the canonical lowercase text of its
/// verdict, ready for serialization.
#[derive(Debug, Eq, PartialEq)]
pub struct Record {
    /// The name as it was supplied.
    pub name: String,
    /// The canonical lowercase availability text.
    pub availability: String,
}

/// The structured records of a batch: one per successful lookup, in input
/// order, each pairing the name with its verdict's canonical text.
pub open spec fn structured_records(rs: Seq<LookupResult>) -> Seq<(Seq<char>, Seq<char>)>
    decreases rs.len(),
{
    if rs.len() == 0 {
        Seq::empty()
    } else {
        let rest = structured_records(rs.drop_last());
        if rs.last().outcome is Ok {
            rest.push((rs.last().name@, availability_text(rs.last().outcome->Ok_0)))
        } else {
            rest
        }
    }
}

/// The structured records are exactly the successful lookups, in order: the
/// i-th record pairs the i-th success's name with its verdict text.
pub proof fn lemma_structured_records_are_successes(rs: Seq<LookupResult>)
    ensures
        structured_records(rs).len() == successes(rs).len(),
        forall|i: int|
            0 <= i < successes(rs).len() ==> structured_records(rs)[i] == ((
                #[trigger] successes(rs)[i]).name@,
            availability_text(successes(rs)[i].outcome->Ok_0)),
    decreases rs.len(),
{
    reveal(Seq::filter);
    if rs.len() > 0 {
        lemma_structured_records_are_successes(rs.drop_last());
    }
}

/// Renders the structured records of a batch: exactly the successful
/// lookups, in input order, each with its name and canonical verdict text.
pub fn render_structured(results: &Vec<LookupResult>) -> (r: Vec<Record>)
    ensures
        r@.len() == structured_records(results@).len(),
        forall|i: int|
            0 <= i < r@.len() ==> ((#[trigger] r@[i]).name@, r@[i].availability@)
                == structured_records(results@)[i],
{
    let mut out: Vec<Record> = Vec::new();
    let mut i: usize = 0;
    while i < results.len()
        invariant
            i <= results@.len(),
            out@.len() == structured_records(results@.take(i as int)).len(),
            forall|j: int|
                0 <= j < out@.len() ==> ((#[trigger] out@[j]).name@, out@[j].availability@)
                    == structured_records(results@.take(i as int))[j],
        decreases results@.len() - i,
    {
        match &results[i].outcome {
            Ok(a) => {
                let rec = Record { name: results[i].name.clone(), availability: a.render() };
                out.push(rec);
            },
            Err(_) => {},
        }
        proof {
            let head = results@.take(i + 1);
            assert(head.drop_last() =~= results@.take(i as int));
            assert(head.last() == results@[i as int]);
        }
        i += 1;
    }
    proof {
        assert(results@.take(results@.len() as int) =~= results@);
    }
    out
}

/// How one character appears inside a JSON string: quote and backslash get
/// a backslash escape, control characters a `\u00..` escape, and every other
/// character stands for itself.
pub open spec fn json_escaped_char(c: char) -> Seq<char> {
    if c == '"' {
        seq!['\\', '"']
    } else if c == '\\' {
        seq!['\\', '\\']
    } else if (c as u32) < 32 {
        seq!['\\', 'u', '0', '0', hex_char(((c as u32) / 16) as u8), hex_char(((c as u32) % 16) as u8)]
    } else {
        seq![c]
    }
}

/// The body of a JSON string holding the given text.
pub open spec fn json_escaped(s: Seq<char>) -> Seq<char>
    decreases s.len(),
{
    if s.len() == 0 {
        Seq::empty()
    } else {
        json_escaped(s.drop_last()) + json_escaped_char(s.last())
    }
}

fn push_json_escaped(out: &mut String, s: &str)
    ensures
        final(out)@ == old(out)@ + json_escaped(s@),
{
    let n = s.unicode_len();
    let mut i: usize = 0;
    while i < n
        invariant
            i <= n,
            n == s@.len(),
            out@ == old(out)@ + json_escaped(s@.take(i as int)),
        decreases n - i,
    {
        let c = s.get_char(i);
        if c == '"' {
            push_char(out, '\\');
            push_char(out, '"');
        } else if c == '\\' {
            push_char(out, '\\');
            push_char(out, '\\');
        } else if (c as u32) < 32 {
            push_char(out, '\\');
            push_char(out, 'u');
            push_char(out, '0');
            push_char(out, '0');
            push_char(out, hex_char_exec(((c as u32) / 16) as u8));
            push_char(out, hex_char_exec(((c as u32) % 16) as u8));
        } else {
            push_char(out, c);
        }
        proof {
            let head = s@.take(i + 1);
            assert(head.drop_last() =~= s@.take(i as int));
            assert(head.last() == s@[i as int]);
            assert(out@ =~= old(out)@ + json_escaped(head));
        }
        i += 1;
    }
    proof {
        assert(s@.take(s@.len() as int) =~= s@);
    }
}

/// One JSON object: the escaped name under `"crate"` and the escaped
/// canonical verdict text under `"availability"`.
pub open spec fn json_record(name: Seq<char>, availability: Seq<char>) -> Seq<char> {
    "{\"crate\":\""@ + json_escaped(name) + "\",\"availability\":\""@ + json_escaped(availability)
        + "\"}"@
}

/// The comma-separated JSON objects of a batch: one per successful lookup,
/// in input order; failed lookups leave no object.
pub open spec fn json_items(rs: Seq<LookupResult>) -> Seq<char>
    decreases rs.len(),
{
    if rs.len() == 0 {
        Seq::empty()
    } else {
        let rest = json_items(rs.drop_last());
        if rs.last().outcome is Ok {
            let rec = json_record(rs.last().name@, availability_text(rs.last().outcome->Ok_0));
            if rest.len() == 0 {
                rec
            } else {
                rest + ","@ + rec
            }
        } else {
            rest
        }
    }
}

/// The structured rendering of a batch as one JSON array.
pub open spec fn json_of(rs: Seq<LookupResult>) -> Seq<char> {
    "["@ + json_items(rs) + "]"@
}

/// Failed lookups leave no trace in the JSON text: rendering a batch is the
/// same as rendering only its successes.
pub proof fn lemma_json_ignores_failures(rs: Seq<LookupResult>)
    ensures
        json_items(rs) == json_items(successes(rs)),
        json_of(rs) == json_of(successes(rs)),
    decreases rs.len(),
{
    reveal(Seq::filter);
    if rs.len() > 0 {
        lemma_json_ignores_failures(rs.drop_last());
        if rs.last().outcome is Ok {
            let prefix = successes(rs.drop_last());
            assert(successes(rs) == prefix.push(rs.last()));
            assert(prefix.push(rs.last()).drop_last() =~= prefix);
        }
    }
}

/// Renders the batch's structured output as JSON text: an array holding
/// exactly the successful lookups, in input order, each an object with the
/// name under `"crate"` and the canonical lowercase verdict text under
/// `"availability"`.
pub fn render_json(results: &Vec<LookupResult>) -> (r: String)
    ensures
        r@ == json_of(results@),
{
    let mut body = String::new();
    let mut i: usize = 0;
    while i < results.len()
        invariant
            i <= results@.len(),
            body@ == json_items(results@.take(i as int)),
        decreases results@.len() - i,
    {
        match &results[i].outcome {
            Ok(a) => {
                if !body.as_str().is_empty() {
                    body.append(",");
                }
                body.append("{\"crate\":\"");
                push_json_escaped(&mut body, results[i].name.as_str());
                body.append("\",\"availability\":\"");
                let verdict = a.render();
                push_json_escaped(&mut body, verdict.as_str());
                body.append("\"}");
            },
            Err(_) => {},
        }
        proof {
            let head = results@.take(i + 1);
            assert(head.drop_last() =~= results@.take(i as int));
            assert(head.last() == results@[i as int]);
            assert(body@ =~= json_items(head));
        }
        i += 1;
    }
    proof {
        assert(results@.take(results@.len() as int) =~= results@);
    }
    let mut out = String::from_str("[");
    out.append(body.as_str());
    out.append("]");
    proof {
        assert(out@ =~= json_of(results@));
    }
    out
}

} // verus!
