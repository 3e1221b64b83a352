use vstd::prelude::*;
use vstd::string::StringExecFns;

verus! {

/// The character of one decimal digit.
pub open spec fn digit_char(d: nat) -> char {
    if d == 0 {
        '0'
    } else if d == 1 {
        '1'
    } else if d == 2 {
        '2'
    } else if d == 3 {
        '3'
    } else if d == 4 {
        '4'
    } else if d == 5 {
        '5'
    } else if d == 6 {
        '6'
    } else if d == 7 {
        '7'
    } else if d == 8 {
        '8'
    } else {
        '9'
    }
}

/// The decimal digits of a natural number, most significant first, without
/// leading zeros.
pub open spec fn digits_of(n: nat) -> Seq<char>
    decreases n,
{
    if n < 10 {
        seq![digit_char(n)]
    } else {
        digits_of(n / 10) + seq![digit_char(n % 10)]
    }
}

/// The decimal text of an integer: a minus sign before the digits of a
/// negative one.
pub open spec fn decimal_of(n: int) -> Seq<char> {
    if n < 0 {
        seq!['-'] + digits_of((-n) as nat)
    } else {
        digits_of(n as nat)
    }
}

fn digit_str(d: u64) -> (r: &'static str)
    requires
        d < 10,
    ensures
        r@ == seq![digit_char(d as nat)],
{
    proof {
        reveal_strlit("0");
        reveal_strlit("1");
        reveal_strlit("2");
        reveal_strlit("3");
        reveal_strlit("4");
        reveal_strlit("5");
        reveal_strlit("6");
        reveal_strlit("7");
        reveal_strlit("8");
        reveal_strlit("9");
    }
    if d == 0 {
        "0"
    } else if d == 1 {
        "1"
    } else if d == 2 {
        "2"
    } else if d == 3 {
        "3"
    } else if d == 4 {
        "4"
    } else if d == 5 {
        "5"
    } else if d == 6 {
        "6"
    } else if d == 7 {
        "7"
    } else if d == 8 {
        "8"
    } else {
        "9"
    }
}

/// Writes an integer in decimal, as a JSON number.
pub fn decimal_text(n: i64) -> (r: String)
    ensures
        r@ == decimal_of(n as int),
{
    let mut m: u64 = if n < 0 {
        (-(n + 1)) as u64 + 1
    } else {
        n as u64
    };
    let ghost mag: nat = m as nat;
    let mut acc = String::new();
    while m >= 10
        invariant
            digits_of(mag) == digits_of(m as nat) + acc@,
        decreases m,
    {
        let mut next = String::from_str(digit_str(m % 10));
        next.append(acc.as_str());
        proof {
            assert(digits_of(m as nat) == digits_of((m / 10) as nat) + seq![
                digit_char((m % 10) as nat),
            ]);
            assert(digits_of(m as nat) + acc@ == digits_of((m / 10) as nat) + next@);
        }
        acc = next;
        m = m / 10;
    }
    let mut r = String::from_str(digit_str(m));
    r.append(acc.as_str());
    if n < 0 {
        let mut s = String::from_str("-");
        s.append(r.as_str());
        proof {
            reveal_strlit("-");
        }
        s
    } else {
        r
    }
}

/// A value of one field of a rendered record: null, a string or an integer.
pub enum FieldValue {
    Null,
    Text(String),
    Integer(i64),
}

/// What a `FieldValue` holds, as mathematical values.
pub enum FieldModel {
    Null,
    Text(Seq<char>),
    Integer(int),
}

impl View for FieldValue {
    type V = FieldModel;

    open spec fn view(&self) -> FieldModel {
        match self {
            FieldValue::Null => FieldModel::Null,
            FieldValue::Text(s) => FieldModel::Text(s@),
            FieldValue::Integer(n) => FieldModel::Integer(*n as int),
        }
    }
}

/// A string written as a JSON string literal: quoted, with the characters
/// that JSON requires escaped.
pub uninterp spec fn json_string_of(s: Seq<char>) -> Seq<char>;

/// Relies on serde_json's `Display` for `Value::String`, which writes the
/// string as a quoted and escaped JSON string literal.
#[verifier::external_body]
fn json_quote(s: &str) -> (r: String)
    ensures
        r@ == json_string_of(s@),
{
    serde_json::Value::String(s.to_string()).to_string()
}

/// The JSON text of one field value.
pub open spec fn value_text(v: FieldModel) -> Seq<char> {
    match v {
        FieldModel::Null => "null"@,
        FieldModel::Text(s) => json_string_of(s),
        FieldModel::Integer(n) => decimal_of(n),
    }
}

/// The JSON text of one member of an object: the quoted key, a colon, the value.
pub open spec fn member_text(key: Seq<char>, v: FieldModel) -> Seq<char> {
    json_string_of(key) + ":"@ + value_text(v)
}

/// The members of an object in order, separated by commas.
pub open spec fn members_text(es: Seq<(Seq<char>, FieldModel)>) -> Seq<char>
    decreases es.len(),
{
    if es.len() == 0 {
        Seq::empty()
    } else if es.len() == 1 {
        member_text(es[0].0, es[0].1)
    } else {
        members_text(es.drop_last()) + ","@ + member_text(es.last().0, es.last().1)
    }
}

/// The compact JSON text of an object with the given members, in order.
pub open spec fn object_text(es: Seq<(Seq<char>, FieldModel)>) -> Seq<char> {
    "{"@ + members_text(es) + "}"@
}

/// The keys and values of a list of entries, as mathematical values.
pub open spec fn entry_models(es: Seq<(String, FieldValue)>) -> Seq<(Seq<char>, FieldModel)> {
    es.map_values(|e: (String, FieldValue)| (e.0@, e.1@))
}

/// Writes one field value as JSON text.
pub fn render_value(v: &FieldValue) -> (r: String)
    ensures
        r@ == value_text(v@),
{
    match v {
        FieldValue::Null => String::from_str("null"),
        FieldValue::Text(s) => json_quote(s.as_str()),
        FieldValue::Integer(n) => decimal_text(*n),
    }
}

/// Writes a list of entries as a compact JSON object, members in list order.
pub fn render_object(entries: &Vec<(String, FieldValue)>) -> (r: String)
    ensures
        r@ == object_text(entry_models(entries@)),
{
    let ghost es = entry_models(entries@);
    let mut acc = String::new();
    let mut i: usize = 0;
    while i < entries.len()
        invariant
            i <= entries.len(),
            es == entry_models(entries@),
            acc@ == members_text(es.take(i as int)),
        decreases entries.len() - i,
    {
        let mut member = json_quote(entries[i].0.as_str());
        member.append(":");
        let value = render_value(&entries[i].1);
        member.append(value.as_str());
        proof {
            assert(es.take(i + 1).drop_last() =~= es.take(i as int));
            assert(es[i as int] == (entries@[i as int].0@, entries@[i as int].1@));
        }
        if i > 0 {
            acc.append(",");
        }
        acc.append(member.as_str());
        i = i + 1;
    }
    proof {
        assert(es.take(entries.len() as int) =~= es);
    }
    let mut r = String::from_str("{");
    r.append(acc.as_str());
    r.append("}");
    r
}

} // verus!
