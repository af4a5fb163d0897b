//! JSON text, as far as the service's wire format needs it.
//!
//! Escaping and parsing are `serde_json`'s; the declarations at the top of
//! this file say what is taken on trust from it. The framing of request
//! bodies is the library's own and is verified.

use vstd::prelude::*;

verus! {

/// `serde_json::Value`, carried through as an opaque document.
#[verifier::external_type_specification]
#[verifier::external_body]
pub struct ExValue(serde_json::Value);

/// `serde_json::Error`, carried through as an opaque value.
#[verifier::external_type_specification]
#[verifier::external_body]
pub struct ExError(serde_json::Error);

/// The JSON string literal that `serde_json::to_string` writes for `text`:
/// the text between double quotes, with escapes where JSON wants them.
pub uninterp spec fn json_literal(text: Seq<char>) -> Seq<char>;

/// What `serde_json::from_slice` makes of `bytes`: the document that they
/// spell, or the parser's error where they spell none.
pub uninterp spec fn json_document(bytes: Seq<u8>) -> Result<serde_json::Value, serde_json::Error>;

/// The members of a JSON object whose values are strings, by member name.
/// Empty for a document that is not an object.
pub uninterp spec fn json_strings(document: serde_json::Value) -> Map<Seq<char>, Seq<char>>;

/// Trusted: `serde_json::to_string` on a string slice. It is assumed to
/// return the literal named by [`json_literal`], and to succeed: the crate
/// documents failure only for a `Serialize` impl that fails and for maps
/// with keys that are not strings, and a string slice is neither. Its
/// serializer writes a string into a vector in memory, which takes every
/// byte.
#[verifier::external_body]
fn to_literal(text: &str) -> (r: Result<String, serde_json::Error>)
    ensures
        match r {
            Ok(literal) => literal@ == json_literal(text@),
            Err(_) => false,
        },
{
    serde_json::to_string(text)
}

/// Trusted: `serde_json::from_slice` at type `serde_json::Value`. It is
/// assumed to be a function of the bytes alone, in its documents and in
/// its errors: what it returns is what [`json_document`] names.
#[verifier::external_body]
pub(crate) fn from_bytes(bytes: &[u8]) -> (r: Result<serde_json::Value, serde_json::Error>)
    ensures
        r == json_document(bytes@),
{
    serde_json::from_slice::<serde_json::Value>(bytes)
}

/// Trusted: `serde_json::Value::get` with a string index. It is assumed to
/// find a member only in an object and only under its exact name; the
/// wrapper hands the member out when it is a string, as [`json_strings`]
/// names it.
#[verifier::external_body]
pub(crate) fn string_member(document: &serde_json::Value, name: &str) -> (r: Option<String>)
    ensures
        match r {
            Some(text) => json_strings(*document).dom().contains(name@)
                && json_strings(*document)[name@] == text@,
            None => !json_strings(*document).dom().contains(name@),
        },
{
    match document.get(name) {
        Some(serde_json::Value::String(text)) => Some(text.clone()),
        _ => None,
    }
}

/// One member of a request body: a name and a string value.
#[derive(Clone, Debug, PartialEq, Eq)]
pub struct Field {
    pub name: String,
    pub value: String,
}

impl View for Field {
    type V = (Seq<char>, Seq<char>);

    open spec fn view(&self) -> (Seq<char>, Seq<char>) {
        (self.name@, self.value@)
    }
}

/// The members of a list of fields, each as a pair of name and value.
pub open spec fn views(fields: Seq<Field>) -> Seq<(Seq<char>, Seq<char>)> {
    fields.map_values(|field: Field| field@)
}

/// A member on the wire: its name, a colon, its value.
pub open spec fn member_text(member: (Seq<char>, Seq<char>)) -> Seq<char> {
    member.0 + seq![':'] + member.1
}

/// The members on the wire, in order, with a comma between neighbours.
pub open spec fn members_text(members: Seq<(Seq<char>, Seq<char>)>) -> Seq<char>
    decreases members.len(),
{
    if members.len() == 0 {
        Seq::empty()
    } else if members.len() == 1 {
        member_text(members[0])
    } else {
        members_text(members.drop_last()) + seq![','] + member_text(members.last())
    }
}

/// A JSON object in compact form, from members whose names and values are
/// JSON text already.
pub open spec fn framed(members: Seq<(Seq<char>, Seq<char>)>) -> Seq<char> {
    seq!['{'] + members_text(members) + seq!['}']
}

/// Each name and each value as a JSON string literal.
pub open spec fn literals(fields: Seq<(Seq<char>, Seq<char>)>) -> Seq<(Seq<char>, Seq<char>)> {
    fields.map_values(
        |field: (Seq<char>, Seq<char>)| (json_literal(field.0), json_literal(field.1)),
    )
}

/// The JSON object that holds exactly `fields`, in their order, as text.
pub open spec fn object_text(fields: Seq<(Seq<char>, Seq<char>)>) -> Seq<char> {
    framed(literals(fields))
}

/// Quotes `text` as a JSON string literal.
pub fn quote(text: &str) -> (literal: String)
    ensures
        literal@ == json_literal(text@),
{
    to_literal(text).unwrap()
}

/// Frames members that are JSON text already as one JSON object.
pub fn frame(members: &Vec<Field>) -> (text: String)
    ensures
        text@ == framed(views(members@)),
{
    let ghost all = views(members@);
    let mut text = String::from_str("{");
    proof {
        reveal_strlit("{");
        assert(text@ =~= seq!['{'] + members_text(all.take(0)));
    }
    let mut i: usize = 0;
    while i < members.len()
        invariant
            i <= members.len(),
            all == views(members@),
            text@ == seq!['{'] + members_text(all.take(i as int)),
        decreases members.len() - i,
    {
        if i > 0 {
            text.append(",");
        }
        text.append(members[i].name.as_str());
        text.append(":");
        text.append(members[i].value.as_str());
        proof {
            reveal_strlit(",");
            reveal_strlit(":");
            let now = all.take(i as int + 1);
            assert(now.drop_last() =~= all.take(i as int));
            assert(now.last() == members@[i as int]@);
            assert(text@ =~= seq!['{'] + members_text(now));
        }
        i += 1;
    }
    text.append("}");
    proof {
        reveal_strlit("}");
        assert(all.take(members.len() as int) =~= all);
    }
    text
}

/// Writes `fields` as one JSON object: every name and value quoted by
/// `serde_json`, the framing done here.
pub fn encode(fields: &Vec<Field>) -> (text: String)
    ensures
        text@ == object_text(views(fields@)),
{
    let mut members: Vec<Field> = Vec::new();
    let mut i: usize = 0;
    while i < fields.len()
        invariant
            i <= fields.len(),
            members.len() == i,
            views(members@) == literals(views(fields@).take(i as int)),
        decreases fields.len() - i,
    {
        let ghost before = views(members@);
        let member = Field {
            name: quote(fields[i].name.as_str()),
            value: quote(fields[i].value.as_str()),
        };
        members.push(member);
        proof {
            let now = literals(views(fields@).take(i as int + 1));
            assert(views(members@).len() == now.len());
            assert forall|k: int| 0 <= k < now.len() implies views(members@)[k] == now[k] by {
                if k < i {
                    assert(views(members@)[k] == before[k]);
                    assert(views(fields@).take(i as int)[k] == views(fields@).take(
                        i as int + 1,
                    )[k]);
                }
            }
            assert(views(members@) =~= now);
        }
        i += 1;
    }
    proof {
        assert(views(fields@).take(fields.len() as int) =~= views(fields@));
    }
    frame(&members)
}

} // verus!
