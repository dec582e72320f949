use vstd::prelude::*;
use crate::skeleton::FileSkeleton;
use crate::text::joined;

verus! {

/// A lowercase hexadecimal digit, for `n` below 16.
pub open spec fn hex_digit(n: int) -> char {
    seq!['0', '1', '2', '3', '4', '5', '6', '7', '8', '9', 'a', 'b', 'c', 'd', 'e', 'f'][n]
}

/// How serde_json writes one character inside a JSON string: quote and
/// backslash escaped, the five control characters with a short escape as such,
/// every other character below U+0020 as `\u00XX`, the rest as it is.
pub open spec fn json_escape(c: char) -> Seq<char> {
    if c == '"' {
        seq!['\\', '"']
    } else if c == '\\' {
        seq!['\\', '\\']
    } else if c == '\u{08}' {
        seq!['\\', 'b']
    } else if c == '\t' {
        seq!['\\', 't']
    } else if c == '\n' {
        seq!['\\', 'n']
    } else if c == '\u{0C}' {
        seq!['\\', 'f']
    } else if c == '\r' {
        seq!['\\', 'r']
    } else if (c as u32) < 0x20 {
        seq!['\\', 'u', '0', '0', hex_digit((c as u32) as int / 16), hex_digit((c as u32) as int % 16)]
    } else {
        seq![c]
    }
}

/// The characters of `s`, each escaped as inside a JSON string.
pub open spec fn json_escaped(s: Seq<char>) -> Seq<char>
    decreases s.len(),
{
    if s.len() == 0 {
        Seq::empty()
    } else {
        json_escaped(s.drop_last()) + json_escape(s.last())
    }
}

/// The JSON string literal of `s`, quotes included, as serde_json writes it.
pub open spec fn json_quoted(s: Seq<char>) -> Seq<char> {
    seq!['"'] + json_escaped(s) + seq!['"']
}

/// Relies on serde_json::to_string on a `str`: it writes the argument between
/// quotes, each character escaped by serde_json's escape table as `json_escape`
/// states it. Writing into a `Vec` cannot fail.
#[verifier::external_body]
fn serde_quote(s: &str) -> (r: String)
    ensures
        r@ == json_quoted(s@),
{
    serde_json::to_string(s).unwrap_or_default()
}

/// The JSON string literal of `s`.
pub fn quote(s: &str) -> (r: String)
    ensures
        r@ == json_quoted(s@),
{
    serde_quote(s)
}

/// Each string of `parts` as a JSON string literal.
pub open spec fn quoted_all(parts: Seq<Seq<char>>) -> Seq<Seq<char>> {
    parts.map_values(|p: Seq<char>| json_quoted(p))
}

/// The JSON array of the strings `parts`, written compactly.
pub open spec fn json_array(parts: Seq<Seq<char>>) -> Seq<char> {
    "["@ + joined(quoted_all(parts), ","@) + "]"@
}

/// The JSON array of the strings of `v`.
pub fn array_json(v: &Vec<String>) -> (r: String)
    ensures
        r@ == json_array(v.deep_view()),
{
    let mut r = String::from_str("[");
    let mut i: usize = 0;
    while i < v.len()
        invariant
            i <= v@.len(),
            r@ == "["@ + joined(quoted_all(v.deep_view().subrange(0, i as int)), ","@),
        decreases v@.len() - i,
    {
        let ghost before = quoted_all(v.deep_view().subrange(0, i as int));
        if i > 0 {
            r.append(",");
        }
        let q = quote(v[i].as_str());
        r.append(q.as_str());
        proof {
            let after = quoted_all(v.deep_view().subrange(0, i + 1));
            assert(after.drop_last() =~= before);
            assert(after.last() == json_quoted(v@[i as int]@));
            if i > 0 {
                assert(r@ =~= "["@ + (joined(before, ","@) + ","@ + after.last()));
            } else {
                assert(r@ =~= "["@ + after.last());
            }
        }
        i = i + 1;
    }
    assert(v.deep_view().subrange(0, v@.len() as int) =~= v.deep_view());
    r.append("]");
    r
}

/// The JSON object of a skeleton, its six fields in declaration order.
pub open spec fn skeleton_json(sk: FileSkeleton) -> Seq<char> {
    "{\"imports\":"@ + json_array(sk.imports.deep_view()) + ",\"exports\":"@ + json_array(
        sk.exports.deep_view(),
    ) + ",\"functions\":"@ + json_array(sk.functions.deep_view()) + ",\"interfaces\":"@
        + json_array(sk.interfaces.deep_view()) + ",\"classes\":"@ + json_array(
        sk.classes.deep_view(),
    ) + ",\"variables\":"@ + json_array(sk.variables.deep_view()) + "}"@
}

impl FileSkeleton {
    /// The JSON object of this skeleton.
    pub fn to_json(&self) -> (r: String)
        ensures
            r@ == skeleton_json(*self),
    {
        let mut r = String::from_str("{\"imports\":");
        r.append(array_json(&self.imports).as_str());
        r.append(",\"exports\":");
        r.append(array_json(&self.exports).as_str());
        r.append(",\"functions\":");
        r.append(array_json(&self.functions).as_str());
        r.append(",\"interfaces\":");
        r.append(array_json(&self.interfaces).as_str());
        r.append(",\"classes\":");
        r.append(array_json(&self.classes).as_str());
        r.append(",\"variables\":");
        r.append(array_json(&self.variables).as_str());
        r.append("}");
        r
    }
}

/// The member of the whole-project object for one file: its path as key, its
/// skeleton as value.
pub open spec fn graph_member(e: (String, FileSkeleton)) -> Seq<char> {
    json_quoted(e.0@) + ":"@ + skeleton_json(e.1)
}

/// The members of the whole-project object, one per entry.
pub open spec fn graph_members(entries: Seq<(String, FileSkeleton)>) -> Seq<Seq<char>> {
    entries.map_values(|e: (String, FileSkeleton)| graph_member(e))
}

/// The JSON object mapping each path to its skeleton.
pub open spec fn graph_json(entries: Seq<(String, FileSkeleton)>) -> Seq<char> {
    "{"@ + joined(graph_members(entries), ","@) + "}"@
}

/// The JSON object mapping each path of `entries` to its skeleton.
pub fn graph_to_json(entries: &Vec<(String, FileSkeleton)>) -> (r: String)
    ensures
        r@ == graph_json(entries@),
{
    let mut r = String::from_str("{");
    let mut i: usize = 0;
    while i < entries.len()
        invariant
            i <= entries@.len(),
            r@ == "{"@ + joined(graph_members(entries@.subrange(0, i as int)), ","@),
        decreases entries@.len() - i,
    {
        let ghost before = graph_members(entries@.subrange(0, i as int));
        if i > 0 {
            r.append(",");
        }
        let (path, sk) = &entries[i];
        r.append(quote(path.as_str()).as_str());
        r.append(":");
        r.append(sk.to_json().as_str());
        proof {
            let after = graph_members(entries@.subrange(0, i + 1));
            assert(after.drop_last() =~= before);
            assert(after.last() == graph_member(entries@[i as int]));
            if i > 0 {
                assert(r@ =~= "{"@ + (joined(before, ","@) + ","@ + after.last()));
            } else {
                assert(r@ =~= "{"@ + after.last());
            }
        }
        i = i + 1;
    }
    assert(entries@.subrange(0, entries@.len() as int) =~= entries@);
    r.append("}");
    r
}

} // verus!
