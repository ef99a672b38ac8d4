//! The id of a KataGo response line, read as JSON where the line is JSON
//! and scanned for otherwise.
use vstd::prelude::*;
use crate::model::opt_string_view;

verus! {

broadcast use vstd::string::group_string_axioms;

/// The first position from `i` on where `pat` occurs in `line`.
pub open spec fn find_from(line: Seq<char>, pat: Seq<char>, i: int) -> Option<int>
    decreases line.len() + 1 - i,
{
    if i < 0 || i + pat.len() > line.len() {
        None
    } else if line.subrange(i, i + pat.len()) == pat {
        Some(i)
    } else {
        find_from(line, pat, i + 1)
    }
}

pub open spec fn id_marker() -> Seq<char> {
    seq!['"', 'i', 'd', '"', ':', '"']
}

/// The id of a line that is not JSON: the text after the first `"id":"` up
/// to the next quote, when that text is not empty.
pub open spec fn scanned_id(line: Seq<char>) -> Option<Seq<char>> {
    match find_from(line, id_marker(), 0) {
        None => None,
        Some(start) => {
            let rest = line.skip(start + 6);
            match find_from(rest, seq!['"'], 0) {
                None => None,
                Some(end) => if end == 0 {
                    None
                } else {
                    Some(rest.take(end))
                },
            }
        },
    }
}

/// What `serde_json` reads from a line as a JSON value: `None` when it is not
/// JSON, else the string under the key `id`, if there is one.
pub uninterp spec fn json_id_field(line: Seq<char>) -> Option<Option<Seq<char>>>;

pub open spec fn opt_opt_view(r: Option<Option<String>>) -> Option<Option<Seq<char>>> {
    match r {
        None => None,
        Some(x) => Some(opt_string_view(x)),
    }
}

/// `serde_json::from_str::<serde_json::Value>` on a line, then the `id`
/// field when it is a string. The contract names the outcome; what counts as
/// JSON is left to `serde_json`.
#[verifier::external_body]
fn parse_json_id(line: &str) -> (r: Option<Option<String>>)
    ensures
        opt_opt_view(r) == json_id_field(line@),
{
    match serde_json::from_str::<serde_json::Value>(line) {
        Ok(value) => match value.get("id") {
            Some(serde_json::Value::String(id)) => Some(Some(id.clone())),
            _ => Some(None),
        },
        Err(_) => None,
    }
}

pub(crate) fn find_chars(v: &Vec<char>, pat: &Vec<char>, from: usize) -> (r: Option<usize>)
    requires
        from <= v.len(),
    ensures
        match r {
            Some(k) => find_from(v@, pat@, from as int) == Some(k as int),
            None => find_from(v@, pat@, from as int) is None,
        },
    decreases v.len() - from,
{
    if pat.len() > v.len() - from {
        return None;
    }
    let mut j: usize = 0;
    while j < pat.len()
        invariant
            j <= pat.len(),
            from + pat.len() <= v.len(),
            forall|k: int| 0 <= k < j ==> v@[from + k] == pat@[k],
        decreases pat.len() - j,
    {
        if v[from + j] != pat[j] {
            assert(v@.subrange(from as int, from + pat.len())[j as int] != pat@[j as int]);
            return find_chars(v, pat, from + 1);
        }
        j += 1;
    }
    assert(v@.subrange(from as int, from + pat.len()) =~= pat@);
    Some(from)
}

/// The response id carried by `line`, given what `serde_json` read from it:
/// the JSON `id` string when the line is JSON, else the scanned id.
pub fn response_id_from(parsed: Option<Option<String>>, line: &str) -> (r: Option<String>)
    ensures
        opt_string_view(r) == match opt_opt_view(parsed) {
            Some(x) => x,
            None => scanned_id(line@),
        },
{
    match parsed {
        Some(id) => id,
        None => {
            let v = crate::text::chars_of(line);
            let mut marker: Vec<char> = Vec::new();
            marker.push('"');
            marker.push('i');
            marker.push('d');
            marker.push('"');
            marker.push(':');
            marker.push('"');
            assert(marker@ =~= id_marker());
            let start = match find_chars(&v, &marker, 0) {
                Some(k) => k,
                None => {
                    return None;
                },
            };
            let ghost rest = v@.skip(start + 6);
            assert(start + 6 <= v.len()) by {
                assert(find_from(v@, id_marker(), 0) == Some(start as int));
                lemma_find_from_fits(v@, id_marker(), 0);
            }
            let mut tail: Vec<char> = Vec::new();
            let mut k: usize = start + 6;
            while k < v.len()
                invariant
                    start + 6 <= k <= v.len(),
                    tail@ == v@.subrange(start + 6, k as int),
                decreases v.len() - k,
            {
                tail.push(v[k]);
                k += 1;
            }
            assert(tail@ =~= rest);
            let mut quote: Vec<char> = Vec::new();
            quote.push('"');
            assert(quote@ =~= seq!['"']);
            let end = match find_chars(&tail, &quote, 0) {
                Some(e) => e,
                None => {
                    return None;
                },
            };
            if end == 0 {
                return None;
            }
            proof {
                lemma_find_from_fits(tail@, seq!['"'], 0);
            }
            let mut id: Vec<char> = Vec::new();
            let mut m: usize = 0;
            while m < end
                invariant
                    m <= end,
                    end <= tail.len(),
                    id@ == tail@.take(m as int),
                decreases end - m,
            {
                id.push(tail[m]);
                assert(id@ =~= tail@.take(m + 1));
                m += 1;
            }
            Some(crate::text::string_from_chars(&id))
        },
    }
}

proof fn lemma_find_from_fits(line: Seq<char>, pat: Seq<char>, i: int)
    ensures
        find_from(line, pat, i) matches Some(k) ==> i <= k && k + pat.len() <= line.len(),
    decreases line.len() + 1 - i,
{
    if !(i < 0 || i + pat.len() > line.len()) && line.subrange(i, i + pat.len()) != pat {
        lemma_find_from_fits(line, pat, i + 1);
    }
}

/// The id of a KataGo response line.
pub fn extract_response_id(line: &str) -> (r: Option<String>)
    ensures
        opt_string_view(r) == match json_id_field(line@) {
            Some(x) => x,
            None => scanned_id(line@),
        },
{
    let parsed = parse_json_id(line);
    response_id_from(parsed, line)
}

} // verus!
