//! JSON documents: `serde_json` values and what they hold.

use serde_json::Value;
use vstd::prelude::*;

use crate::numeral::decimal;
use crate::text::{join, joined, joined_in_order, lemma_joined_without};

verus! {

/// `serde_json::Value`, a JSON document in memory.
#[verifier::external_type_specification]
#[verifier::external_body]
pub struct ExValue(serde_json::Value);

/// What a JSON document holds. A number is kept as the text that it is printed as.
#[verifier::ext_equal]
pub enum JsonTree {
    Null,
    Bool(bool),
    Number(Seq<char>),
    Text(Seq<char>),
    List(Seq<JsonTree>),
    Object(Map<Seq<char>, JsonTree>),
}

/// What a `serde_json::Value` holds.
pub uninterp spec fn json_tree(value: Value) -> JsonTree;

/// What `serde_json::from_str` reads from a text: the document, or the message of its error.
pub uninterp spec fn json_parse(text: Seq<char>) -> Result<JsonTree, Seq<char>>;

/// What `serde_json::to_string` prints for a document.
pub uninterp spec fn json_text(tree: JsonTree) -> Seq<char>;

/// How many lists and objects may stand inside one another in a text that is read.
pub open spec fn nesting_limit() -> nat {
    127
}

/// Whether at most `levels` lists and objects stand inside one another.
pub open spec fn fits(tree: JsonTree, levels: nat) -> bool
    decreases levels,
{
    &&& tree is List ==> levels > 0 && forall|i: int|
        0 <= i < tree->List_0.len() ==> fits(#[trigger] tree->List_0[i], (levels - 1) as nat)
    &&& tree is Object ==> levels > 0 && forall|k: Seq<char>|
        tree->Object_0.contains_key(k) ==> fits(#[trigger] tree->Object_0[k], (levels - 1) as nat)
}

/// Whether a number is printed with an exponent of three digits that begins with a three: so near
/// to the largest floating point number that reading it may overflow.
pub open spec fn near_overflow(number: Seq<char>) -> bool {
    let n = number.len() as int;
    n >= 5 && number[n - 5] == 'e' && number[n - 4] == '+' && number[n - 3] == '3'
}

/// Whether no number in the first `levels` levels of a document is `near_overflow`.
pub open spec fn moderate(tree: JsonTree, levels: nat) -> bool
    decreases levels,
{
    &&& tree is Number ==> !near_overflow(tree->Number_0)
    &&& tree is List && levels > 0 ==> forall|i: int|
        0 <= i < tree->List_0.len() ==> moderate(#[trigger] tree->List_0[i], (levels - 1) as nat)
    &&& tree is Object && levels > 0 ==> forall|k: Seq<char>|
        tree->Object_0.contains_key(k) ==> moderate(
            #[trigger] tree->Object_0[k],
            (levels - 1) as nat,
        )
}

/// Whether two documents differ at most in how exactly they give their numbers, as far as the
/// first `levels` levels go.
pub open spec fn alike(a: JsonTree, b: JsonTree, levels: nat) -> bool
    decreases levels,
{
    match (a, b) {
        (JsonTree::Number(_), JsonTree::Number(_)) => true,
        (JsonTree::List(left), JsonTree::List(right)) => {
            &&& left.len() == right.len()
            &&& levels > 0 ==> forall|i: int|
                0 <= i < left.len() ==> alike(#[trigger] left[i], right[i], (levels - 1) as nat)
        },
        (JsonTree::Object(left), JsonTree::Object(right)) => {
            &&& left.dom() == right.dom()
            &&& levels > 0 ==> forall|k: Seq<char>|
                left.contains_key(k) ==> alike(#[trigger] left[k], right[k], (levels - 1) as nat)
        },
        _ => a == b,
    }
}

/// Whether a document is read back from its text as it was written, where it stands inside others:
/// it nests within so many levels, and no number in it is about to overflow.
pub open spec fn readable(tree: JsonTree, levels: nat) -> bool {
    fits(tree, levels) && moderate(tree, levels)
}

/// Whether reading `text` gives `tree` back, but for the last digits of its fractions. This is
/// owed to a document that nests within the limit and whose numbers are not about to overflow.
pub open spec fn reads_back(text: Seq<char>, tree: JsonTree) -> bool {
    readable(tree, nesting_limit()) ==> {
        &&& json_parse(text) is Ok
        &&& alike(tree, json_parse(text)->Ok_0, nesting_limit())
    }
}

/// Whether no number stands in the first `levels` levels of a document.
pub open spec fn number_free(tree: JsonTree, levels: nat) -> bool
    decreases levels,
{
    &&& !(tree is Number)
    &&& tree is List && levels > 0 ==> forall|i: int|
        0 <= i < tree->List_0.len() ==> number_free(#[trigger] tree->List_0[i], (levels - 1) as nat)
    &&& tree is Object && levels > 0 ==> forall|k: Seq<char>|
        tree->Object_0.contains_key(k) ==> number_free(
            #[trigger] tree->Object_0[k],
            (levels - 1) as nat,
        )
}

/// `serde_json::from_str` reads a JSON document. It refuses a text in which more than 127 lists
/// and objects stand inside one another. Which other texts it refuses is left to the name
/// `json_parse`.
#[verifier::external_body]
pub(crate) fn parse_json(text: &str) -> (r: Result<Value, String>)
    ensures
        match r {
            Ok(value) => {
                &&& json_parse(text@) == Ok::<JsonTree, Seq<char>>(json_tree(value))
                &&& fits(json_tree(value), nesting_limit())
            },
            Err(message) => json_parse(text@) == Err::<JsonTree, Seq<char>>(message@),
        },
{
    serde_json::from_str(text).map_err(|e: serde_json::Error| e.to_string())
}

/// Whether the text of a document may begin with this character.
pub open spec fn begins_text(tree: JsonTree, c: char) -> bool {
    match tree {
        JsonTree::Null => c == 'n',
        JsonTree::Bool(b) => c == if b {
            't'
        } else {
            'f'
        },
        JsonTree::Number(_) => c == '-' || '0' <= c <= '9',
        JsonTree::Text(_) => c == '"',
        JsonTree::List(_) => c == '[',
        JsonTree::Object(_) => c == '{',
    }
}

/// `serde_json::to_string` prints a document on one line: the characters that would end a line are
/// escaped in it. The first character tells what the document is. It fails on no `Value`. What it
/// prints is read back by `serde_json::from_str`, except where the document nests too deeply or
/// holds a number near the largest one; fractions may then differ in their last digits.
#[verifier::external_body]
pub(crate) fn print_json(value: &Value) -> (r: Result<String, String>)
    ensures
        r is Ok,
        r->Ok_0@ == json_text(json_tree(*value)),
        !r->Ok_0@.contains('\n'),
        !r->Ok_0@.contains('\r'),
        r->Ok_0@.len() > 0,
        begins_text(json_tree(*value), r->Ok_0@[0]),
        reads_back(r->Ok_0@, json_tree(*value)),
{
    serde_json::to_string(value).map_err(|e: serde_json::Error| e.to_string())
}

/// `Value::get` with a string finds the value of a field of an object, and nothing in any other
/// document.
#[verifier::external_body]
pub(crate) fn field<'a>(value: &'a Value, key: &str) -> (r: Option<&'a Value>)
    ensures
        match r {
            Some(found) => json_tree(*value) matches JsonTree::Object(fields)
                && fields.contains_key(key@) && fields[key@] == json_tree(*found),
            None => json_tree(*value) matches JsonTree::Object(fields) ==> !fields.contains_key(
                key@,
            ),
        },
{
    value.get(key)
}

/// Assigning to `value[key]` sets the field of an object and leaves its other fields as they are.
/// `null` becomes an object with that field. On any other document the assignment would panic.
#[verifier::external_body]
pub(crate) fn set_field(value: &mut Value, key: &str, content: Value)
    requires
        json_tree(*old(value)) is Object || json_tree(*old(value)) is Null,
    ensures
        json_tree(*final(value)) == JsonTree::Object(
            match json_tree(*old(value)) {
                JsonTree::Object(fields) => fields.insert(key@, json_tree(content)),
                _ => Map::<Seq<char>, JsonTree>::empty().insert(key@, json_tree(content)),
            },
        ),
{
    value[key] = content;
}

/// `Value::is_null` tells whether a document is `null`.
#[verifier::external_body]
pub(crate) fn is_null(value: &Value) -> (r: bool)
    ensures
        r == (json_tree(*value) is Null),
{
    value.is_null()
}

/// `Value::as_array` gives the items of a list, and nothing of any other document.
#[verifier::external_body]
pub(crate) fn as_list(value: &Value) -> (r: Option<&Vec<Value>>)
    ensures
        match r {
            Some(items) => json_tree(*value) == JsonTree::List(
                items@.map_values(|item: Value| json_tree(item)),
            ),
            None => !(json_tree(*value) is List),
        },
{
    value.as_array()
}

/// `Value::as_str` gives the characters of a string, and nothing of any other document.
#[verifier::external_body]
pub(crate) fn as_text(value: &Value) -> (r: Option<&str>)
    ensures
        match r {
            Some(text) => json_tree(*value) == JsonTree::Text(text@),
            None => !(json_tree(*value) is Text),
        },
{
    value.as_str()
}

/// `Value::default` is `null`.
#[verifier::external_body]
pub(crate) fn null() -> (r: Value)
    ensures
        json_tree(r) == JsonTree::Null,
{
    Value::default()
}

/// `Value::from` makes a JSON boolean of a `bool`.
#[verifier::external_body]
pub(crate) fn boolean(b: bool) -> (r: Value)
    ensures
        json_tree(r) == JsonTree::Bool(b),
{
    Value::from(b)
}

/// `Value::from` makes a JSON number of a `u64`, which is printed in decimal digits.
#[verifier::external_body]
pub(crate) fn unsigned(n: u64) -> (r: Value)
    ensures
        json_tree(r) == JsonTree::Number(decimal(n as nat)),
{
    Value::from(n)
}

/// `Value::from` makes a JSON string of a `&str`.
#[verifier::external_body]
pub(crate) fn string(text: &str) -> (r: Value)
    ensures
        json_tree(r) == JsonTree::Text(text@),
{
    Value::from(text)
}

/// `Value::from` makes a JSON list of a vector of documents.
#[verifier::external_body]
pub(crate) fn list(items: Vec<Value>) -> (r: Value)
    ensures
        json_tree(r) == JsonTree::List(items@.map_values(|item: Value| json_tree(item))),
{
    Value::from(items)
}

/// The text of a document, on one line.
pub fn document_text(value: &Value) -> (r: String)
    ensures
        r@ == json_text(json_tree(*value)),
        !r@.contains('\n'),
        !r@.contains('\r'),
        reads_back(r@, json_tree(*value)),
        fits(json_tree(*value), nesting_limit()) && number_free(json_tree(*value), nesting_limit())
            ==> json_parse(r@) == Ok::<JsonTree, Seq<char>>(json_tree(*value)),
{
    proof {
        let tree = json_tree(*value);
        if fits(tree, nesting_limit()) && number_free(tree, nesting_limit()) {
            lemma_number_free_moderate(tree, nesting_limit());
            if reads_back(json_text(tree), tree) {
                lemma_alike_equal(tree, json_parse(json_text(tree))->Ok_0, nesting_limit());
            }
        }
    }
    match print_json(value) {
        Ok(text) => text,
        Err(message) => message,
    }
}

/// A field of an object as it is printed. The name is one that needs no escapes.
pub open spec fn member_text(name: Seq<char>, value: Seq<char>) -> Seq<char> {
    "\""@ + name + "\":"@ + value
}

/// An object as it is printed with its fields in this order, each given by its name and the text of
/// its value.
pub open spec fn object_text(members: Seq<(Seq<char>, Seq<char>)>) -> Seq<char> {
    "{"@ + joined(
        members.map_values(|m: (Seq<char>, Seq<char>)| member_text(m.0, m.1)),
        ',',
    ) + "}"@
}

/// The names and texts of fields.
pub open spec fn members_view(members: Seq<(&str, String)>) -> Seq<(Seq<char>, Seq<char>)> {
    members.map_values(|m: (&str, String)| (m.0@, m.1@))
}

/// An object with its fields in this order. It is on one line if they are.
pub(crate) fn print_members(members: &Vec<(&str, String)>) -> (r: String)
    ensures
        r@ == object_text(members_view(members@)),
        (forall|i: int|
            0 <= i < members@.len() ==> !(#[trigger] members@[i]).0@.contains('\n')
                && !members@[i].1@.contains('\n')) ==> !r@.contains('\n'),
{
    let mut parts: Vec<String> = Vec::new();
    let mut i: usize = 0;
    while i < members.len()
        invariant
            i <= members.len(),
            parts.len() == i,
            forall|j: int|
                0 <= j < i ==> (#[trigger] parts@[j])@ == member_text(
                    members@[j].0@,
                    members@[j].1@,
                ),
        decreases members.len() - i,
    {
        let (name, value) = &members[i];
        parts.push("\"".to_string().concat(*name).concat("\":").concat(value.as_str()));
        i += 1;
    }
    let r = "{".to_string().concat(join(&parts, ',').as_str()).concat("}");
    proof {
        let views = parts@.map_values(|p: String| p@);
        assert(views =~= members_view(members@).map_values(
            |m: (Seq<char>, Seq<char>)| member_text(m.0, m.1),
        ));
        if forall|i: int|
            0 <= i < members@.len() ==> !(#[trigger] members@[i]).0@.contains('\n')
                && !members@[i].1@.contains('\n') {
            reveal_strlit("\"");
            reveal_strlit("\":");
            reveal_strlit("{");
            reveal_strlit("}");
            assert forall|j: int| 0 <= j < views.len() implies !(#[trigger] views[j]).contains(
                '\n',
            ) by {
                let name = members@[j].0@;
                let value = members@[j].1@;
                assert(views[j] == member_text(name, value));
                assert forall|k: int| 0 <= k < views[j].len() implies views[j][k] != '\n' by {
                    if 1 <= k < name.len() + 1 {
                        assert(name.contains(name[k - 1]));
                    } else if k >= name.len() + 3 {
                        assert(value.contains(value[k - name.len() - 3]));
                    }
                }
            }
            lemma_joined_without(views, ',', '\n');
            let inner = joined(views, ',');
            assert forall|k: int| 0 <= k < r@.len() implies r@[k] != '\n' by {
                if 1 <= k < inner.len() + 1 {
                    assert(inner.contains(inner[k - 1]));
                }
            }
        }
    }
    r
}

/// A string, or `null` where there is none.
pub(crate) fn optional_string(text: &Option<String>) -> (r: Value)
    ensures
        json_tree(r) == optional_tree(
            match text {
                Some(t) => Some(t@),
                None => None,
            },
        ),
{
    match text {
        Some(t) => string(t.as_str()),
        None => null(),
    }
}

/// A string, or `null` where there is none.
pub open spec fn optional_tree(text: Option<Seq<char>>) -> JsonTree {
    match text {
        Some(t) => JsonTree::Text(t),
        None => JsonTree::Null,
    }
}

/// A document without numbers has none that is about to overflow.
proof fn lemma_number_free_moderate(tree: JsonTree, levels: nat)
    requires
        number_free(tree, levels),
    ensures
        moderate(tree, levels),
    decreases levels,
{
    if levels > 0 && tree is List {
        assert forall|i: int| 0 <= i < tree->List_0.len() implies moderate(
            #[trigger] tree->List_0[i],
            (levels - 1) as nat,
        ) by {
            lemma_number_free_moderate(tree->List_0[i], (levels - 1) as nat);
        }
    }
    if levels > 0 && tree is Object {
        assert forall|k: Seq<char>| tree->Object_0.contains_key(k) implies moderate(
            #[trigger] tree->Object_0[k],
            (levels - 1) as nat,
        ) by {
            lemma_number_free_moderate(tree->Object_0[k], (levels - 1) as nat);
        }
    }
}

/// Documents without numbers that are alike are the same.
pub proof fn lemma_alike_equal(a: JsonTree, b: JsonTree, levels: nat)
    requires
        fits(a, levels),
        number_free(a, levels),
        alike(a, b, levels),
    ensures
        a == b,
    decreases levels,
{
    if a is List {
        let left = a->List_0;
        let right = b->List_0;
        assert forall|i: int| 0 <= i < left.len() implies left[i] == right[i] by {
            assert(fits(a->List_0[i], (levels - 1) as nat));
            assert(number_free(a->List_0[i], (levels - 1) as nat));
            assert(alike(left[i], right[i], (levels - 1) as nat));
            lemma_alike_equal(left[i], right[i], (levels - 1) as nat);
        }
        assert(left =~= right);
    } else if a is Object {
        let left = a->Object_0;
        let right = b->Object_0;
        assert forall|k: Seq<char>| left.contains_key(k) implies left[k] == right[k] by {
            assert(fits(a->Object_0[k], (levels - 1) as nat));
            assert(number_free(a->Object_0[k], (levels - 1) as nat));
            assert(alike(left[k], right[k], (levels - 1) as nat));
            lemma_alike_equal(left[k], right[k], (levels - 1) as nat);
        }
        assert(left =~= right);
    }
}

/// An object is readable if its fields are, one level down.
pub proof fn lemma_object_readable(fields: Map<Seq<char>, JsonTree>, levels: nat)
    requires
        levels > 0,
        forall|k: Seq<char>|
            fields.contains_key(k) ==> readable(#[trigger] fields[k], (levels - 1) as nat),
    ensures
        readable(JsonTree::Object(fields), levels),
{
    let tree = JsonTree::Object(fields);
    assert forall|k: Seq<char>| tree->Object_0.contains_key(k) implies fits(
        #[trigger] tree->Object_0[k],
        (levels - 1) as nat,
    ) && moderate(tree->Object_0[k], (levels - 1) as nat) by {
        assert(readable(fields[k], (levels - 1) as nat));
    }
}

/// An object is free of numbers if its fields are, one level down.
pub proof fn lemma_object_number_free(fields: Map<Seq<char>, JsonTree>, levels: nat)
    requires
        levels > 0,
        forall|k: Seq<char>|
            fields.contains_key(k) ==> number_free(#[trigger] fields[k], (levels - 1) as nat),
    ensures
        number_free(JsonTree::Object(fields), levels),
{
    let tree = JsonTree::Object(fields);
    assert forall|k: Seq<char>| tree->Object_0.contains_key(k) implies number_free(
        #[trigger] tree->Object_0[k],
        (levels - 1) as nat,
    ) by {
        assert(number_free(fields[k], (levels - 1) as nat));
    }
}

/// A list is readable if its items are, one level down.
pub proof fn lemma_list_readable(items: Seq<JsonTree>, levels: nat)
    requires
        levels > 0,
        forall|i: int|
            0 <= i < items.len() ==> readable(#[trigger] items[i], (levels - 1) as nat),
    ensures
        readable(JsonTree::List(items), levels),
{
    let tree = JsonTree::List(items);
    assert forall|i: int| 0 <= i < tree->List_0.len() implies fits(
        #[trigger] tree->List_0[i],
        (levels - 1) as nat,
    ) && moderate(tree->List_0[i], (levels - 1) as nat) by {
        assert(readable(items[i], (levels - 1) as nat));
    }
}

/// The fields of a readable object are readable, one level down.
pub proof fn lemma_field_readable(
    fields: Map<Seq<char>, JsonTree>,
    key: Seq<char>,
    levels: nat,
)
    requires
        readable(JsonTree::Object(fields), levels),
        fields.contains_key(key),
    ensures
        levels > 0,
        readable(fields[key], (levels - 1) as nat),
{
    let tree = JsonTree::Object(fields);
    assert(tree->Object_0.contains_key(key));
    assert(fits(tree->Object_0[key], (levels - 1) as nat));
    assert(moderate(tree->Object_0[key], (levels - 1) as nat));
}

/// A count is readable.
pub proof fn lemma_count_readable(n: nat, levels: nat)
    ensures
        readable(JsonTree::Number(decimal(n)), levels),
{
    lemma_decimal_plain(n);
}

proof fn lemma_decimal_plain(n: nat)
    ensures
        forall|i: int| 0 <= i < decimal(n).len() ==> #[trigger] decimal(n)[i] != 'e',
    decreases n,
{
    if n >= 10 {
        lemma_decimal_plain(n / 10);
        let high = decimal(n / 10);
        assert forall|i: int| 0 <= i < decimal(n).len() implies #[trigger] decimal(n)[i] != 'e' by {
            if i < high.len() {
                assert(high[i] != 'e');
            }
        }
    }
}

/// An object is printed in braces, its fields in their order with commas between them, each with its
/// name in quotes and a colon before its text.
pub proof fn objects_are_printed_in_order(
    members: Seq<(Seq<char>, Seq<char>)>,
    name: Seq<char>,
    value: Seq<char>,
    inner: Seq<char>,
)
    ensures
        object_text(Seq::<(Seq<char>, Seq<char>)>::empty()) == "{"@ + "}"@,
        object_text(seq![(name, value)]) == "{"@ + ("\""@ + name + "\":"@ + value) + "}"@,
        members.len() > 0 && object_text(members) == "{"@ + inner + "}"@ ==> object_text(
            members.push((name, value)),
        ) == "{"@ + (inner + seq![','] + ("\""@ + name + "\":"@ + value)) + "}"@,
{
    let printed = |m: (Seq<char>, Seq<char>)| member_text(m.0, m.1);
    let none = Seq::<(Seq<char>, Seq<char>)>::empty();
    assert(none.map_values(printed) =~= Seq::<Seq<char>>::empty());
    assert("{"@ + Seq::<char>::empty() + "}"@ =~= "{"@ + "}"@);
    let one = seq![(name, value)];
    assert(one.map_values(printed) =~= seq![member_text(name, value)]);
    joined_in_order(members.map_values(printed), ',', member_text(name, value));
    let longer = members.push((name, value));
    assert(longer.map_values(printed) =~= members.map_values(printed).push(
        member_text(name, value),
    ));
    if members.len() > 0 && object_text(members) == "{"@ + inner + "}"@ {
        reveal_strlit("{");
        reveal_strlit("}");
        let body = joined(members.map_values(printed), ',');
        assert(object_text(members).len() == body.len() + 2);
        assert(object_text(members).subrange(1, 1 + body.len() as int) =~= body);
        assert(("{"@ + inner + "}"@).subrange(1, 1 + inner.len() as int) =~= inner);
    }
}

} // verus!
