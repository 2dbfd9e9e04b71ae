//! JSON objects as they go on the wire: compact, members in the order given.
use crate::outside::quoted;
use vstd::prelude::*;
use vstd::string::*;

verus! {

/// One member of an object: its name, which needs no escaping, and the JSON text of its value.
pub struct Field {
    pub name: &'static str,
    pub value: String,
}

/// The members of an object over texts.
pub open spec fn field_texts(fields: Seq<Field>) -> Seq<(Seq<char>, Seq<char>)> {
    fields.map_values(|f: Field| (f.name@, f.value@))
}

/// The text of one member.
pub open spec fn member_text(name: Seq<char>, value: Seq<char>) -> Seq<char> {
    "\""@ + name + "\":"@ + value
}

/// The texts of all members with commas between them.
pub open spec fn members_text(fields: Seq<(Seq<char>, Seq<char>)>) -> Seq<char>
    decreases fields.len(),
{
    if fields.len() == 0 {
        Seq::empty()
    } else if fields.len() == 1 {
        member_text(fields[0].0, fields[0].1)
    } else {
        members_text(fields.drop_last()) + ","@ + member_text(fields.last().0, fields.last().1)
    }
}

/// The text of an object.
pub open spec fn object_text(fields: Seq<(Seq<char>, Seq<char>)>) -> Seq<char> {
    "{"@ + members_text(fields) + "}"@
}

fn member(field: &Field) -> (r: String)
    ensures
        r@ == member_text(field.name@, field.value@),
{
    "\"".to_string().concat(field.name).concat("\":").concat(field.value.as_str())
}

/// Writes an object.
pub fn object(fields: &Vec<Field>) -> (r: String)
    ensures
        r@ == object_text(field_texts(fields@)),
{
    let mut inner = String::new();
    let ghost all = field_texts(fields@);
    let mut i: usize = 0;
    while i < fields.len()
        invariant
            i <= fields.len(),
            all == field_texts(fields@),
            inner@ == members_text(all.take(i as int)),
        decreases fields.len() - i,
    {
        assert(all.take(i + 1).drop_last() =~= all.take(i as int));
        assert(all.take(i + 1).last() == (fields@[i as int].name@, fields@[i as int].value@));
        let one = member(&fields[i]);
        if i == 0 {
            inner = one;
        } else {
            inner = inner.concat(",").concat(one.as_str());
        }
        i += 1;
    }
    assert(all.take(fields.len() as int) =~= all);
    "{".to_string().concat(inner.as_str()).concat("}")
}

/// A member with a string value.
pub fn string_field(name: &'static str, value: &str) -> (r: Field)
    ensures
        r.name@ == name@,
        r.value@ == crate::outside::json_string(value@),
{
    Field { name, value: quoted(value) }
}

/// A member whose value is given as JSON text.
pub fn raw_field(name: &'static str, value: String) -> (r: Field)
    ensures
        r.name@ == name@,
        r.value@ == value@,
{
    Field { name, value }
}

/// An optional string as a JSON value: `null` where there is none.
pub open spec fn optional_string(value: Option<Seq<char>>) -> Seq<char> {
    match value {
        Some(v) => crate::outside::json_string(v),
        None => "null"@,
    }
}

/// A member with a string value or `null`.
pub fn optional_field(name: &'static str, value: Option<&str>) -> (r: Field)
    ensures
        r.name@ == name@,
        r.value@ == optional_string(crate::web::opt_str(value)),
{
    match value {
        Some(v) => string_field(name, v),
        None => raw_field(name, "null".to_string()),
    }
}

/// A value that a member of an object can have.
pub enum Value {
    Null,
    Truth { b: bool },
    Text { text: Seq<char> },
    Number { n: u64 },
    /// An object whose one member is a text.
    Pair { name: Seq<char>, text: Seq<char> },
}

/// A text where there is one, and else null.
pub open spec fn text_or_null(text: Option<Seq<char>>) -> Value {
    match text {
        Some(text) => Value::Text { text },
        None => Value::Null,
    }
}

/// A value as it is written in a document.
pub open spec fn value_text(value: Value) -> Seq<char> {
    match value {
        Value::Null => "null"@,
        Value::Truth { b } => if b {
            "true"@
        } else {
            "false"@
        },
        Value::Text { text } => crate::outside::json_string(text),
        Value::Number { n } => crate::text::decimal_text(n as nat),
        Value::Pair { name, text } => object_text(seq![(name, crate::outside::json_string(text))]),
    }
}

/// Whether a name is made of lower-case letters and underscores.
pub open spec fn is_plain_name(name: Seq<char>) -> bool {
    forall|k: int| 0 <= k < name.len() ==> is_plain(#[trigger] name[k])
}

/// What a value says where it is a text.
pub open spec fn value_string(value: Value) -> Option<Seq<char>> {
    match value {
        Value::Text { text } => Some(text),
        _ => None,
    }
}

/// The text of an object with these members.
pub open spec fn written(members: Seq<(Seq<char>, Value)>) -> Seq<char> {
    object_text(members.map_values(|m: (Seq<char>, Value)| (m.0, value_text(m.1))))
}

/// Whether a character is a lower-case letter or an underscore.
pub open spec fn is_plain(c: char) -> bool {
    'a' <= c <= 'z' || c == '_'
}

/// Whether the names of members, and those inside of them, are made of lower-case letters and
/// underscores and no two members are named alike.
pub open spec fn plainly_named(members: Seq<(Seq<char>, Value)>) -> bool {
    &&& forall|i: int, k: int|
        #![trigger members[i].0[k]]
        0 <= i < members.len() && 0 <= k < members[i].0.len() ==> is_plain(members[i].0[k])
    &&& forall|i: int, j: int|
        #![trigger members[i], members[j]]
        0 <= i < j < members.len() ==> members[i].0 != members[j].0
    &&& forall|i: int|
        #![trigger members[i]]
        0 <= i < members.len() ==> match members[i].1 {
            Value::Pair { name, text } => is_plain_name(name),
            _ => true,
        }
}

/// Whether a lookup found a value.
pub open spec fn finds(
    found: Result<Option<(Seq<char>, Option<Seq<char>>)>, Seq<char>>,
    value: Value,
) -> bool {
    found == Ok::<Option<(Seq<char>, Option<Seq<char>>)>, Seq<char>>(
        Some((value_text(value), value_string(value))),
    )
}

/// Whether what was found under a key is what was written there, where the document is an object with
/// plainly named members.
pub open spec fn as_written(
    document: Seq<u8>,
    key: Seq<char>,
    found: Result<Option<(Seq<char>, Option<Seq<char>>)>, Seq<char>>,
) -> bool {
    forall|members: Seq<(Seq<char>, Value)>, i: int|
        #![trigger written(members), members[i]]
        plainly_named(members) && 0 <= i < members.len() && document == vstd::utf8::encode_utf8(
            written(members),
        ) && key == members[i].0 ==> finds(found, members[i].1)
}

/// Whether looking for a key in a document gave this.
pub closed spec fn looked_up(
    document: &[u8],
    key: &str,
    found: Result<Option<crate::outside::Member>, String>,
) -> bool {
    call_ensures(crate::outside::member, (document, key), found)
}

/// What a lookup gives is settled by the document and the key.
pub proof fn law_lookup_is_settled(
    document: &[u8],
    key: &str,
    found: Result<Option<crate::outside::Member>, String>,
)
    requires
        looked_up(document, key, found),
    ensures
        crate::outside::member_view(found) == crate::outside::document_member(document@, key@),
{
}

/// Whoever looks into an object with plainly named members finds each value as it was written.
pub proof fn law_members_read_back(
    members: Seq<(Seq<char>, Value)>,
    i: int,
    document: &[u8],
    key: &str,
    found: Result<Option<crate::outside::Member>, String>,
)
    requires
        plainly_named(members),
        0 <= i < members.len(),
        document@ == vstd::utf8::encode_utf8(written(members)),
        key@ == members[i].0,
        looked_up(document, key, found),
    ensures
        finds(crate::outside::member_view(found), members[i].1),
{
    assert(written(members) == written(members) && members[i] == members[i]);
}

/// Whoever looks into an object of plainly and differently named texts finds under each name the text
/// that was put there.
pub proof fn law_fields_read_back(
    fields: &Vec<Field>,
    values: Seq<&str>,
    r: String,
    i: int,
    document: &[u8],
    key: &str,
    found: Result<Option<crate::outside::Member>, String>,
)
    requires
        call_ensures(object, (fields,), r),
        values.len() == fields@.len(),
        forall|k: int|
            0 <= k < fields@.len() ==> call_ensures(
                string_field,
                ((#[trigger] fields@[k]).name, values[k]),
                fields@[k],
            ),
        forall|k: int| 0 <= k < fields@.len() ==> is_plain_name((#[trigger] fields@[k]).name@),
        forall|k: int, l: int|
            0 <= k < l < fields@.len() ==> (#[trigger] fields@[k]).name@ != (
            #[trigger] fields@[l]).name@,
        0 <= i < fields@.len(),
        document@ == vstd::utf8::encode_utf8(r@),
        key@ == fields@[i].name@,
        looked_up(document, key, found),
    ensures
        found is Ok && found->Ok_0 is Some && found->Ok_0->0.text is Some
            && found->Ok_0->0.text->0@ == values[i]@,
{
    let members = Seq::new(
        fields@.len(),
        |k: int| (fields@[k].name@, Value::Text { text: values[k]@ }),
    );
    let texts = field_texts(fields@);
    assert(members.map_values(|m: (Seq<char>, Value)| (m.0, value_text(m.1))) =~= texts) by {
        assert forall|k: int| 0 <= k < fields@.len() implies #[trigger] texts[k] == (
            members[k].0,
            value_text(members[k].1),
        ) by {
            assert(fields@[k] == fields@[k]);
        }
    }
    assert(plainly_named(members)) by {
        assert forall|k: int, c: int|
            #![trigger members[k].0[c]]
            0 <= k < members.len() && 0 <= c < members[k].0.len() implies is_plain(
            members[k].0[c],
        ) by {
            assert(is_plain_name(fields@[k].name@));
        }
        assert forall|k: int, l: int|
            #![trigger members[k], members[l]]
            0 <= k < l < members.len() implies members[k].0 != members[l].0 by {
            assert(fields@[k].name@ != fields@[l].name@);
        }
    }
    law_members_read_back(members, i, document, key, found);
}

/// A member that may be wanting is written as a text where it is there and as `null` where it is not; a
/// member that is given as JSON stands as it was given.
pub proof fn law_other_fields(
    name: &'static str,
    value: Option<&str>,
    given: String,
    optional: Field,
    text: Field,
    raw: Field,
)
    requires
        call_ensures(optional_field, (name, value), optional),
        value is Some ==> call_ensures(string_field, (name, value->0), text),
        call_ensures(raw_field, (name, given), raw),
    ensures
        optional.name@ == name@ && raw.name@ == name@,
        value is Some ==> optional.value@ == text.value@,
        value is None ==> optional.value@ == "null"@,
        raw.value@ == given@,
{
}

} // verus!
