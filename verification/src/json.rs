//! The crate's own JSON value tree and its canonical text rendering.
//!
//! Request bodies are built as [`JsonValue`] trees and rendered to compact
//! JSON text: no whitespace, object members in the order they stand in the
//! tree, strings escaped as JSON requires. The building blocks keep each
//! object's members unique and ordered by key, so the rendered text is a
//! function of the values set and never of the order they were set in.

use vstd::prelude::*;

use crate::text::{
    chars_eq, chars_lt, chars_lt_exec, chars_vec, dec_int, dec_nat, push_dec_i64, push_dec_u64,
    string_from_chars,
};

verus! {

/// A JSON value as the option builders construct one.
#[derive(Debug)]
pub enum JsonValue {
    Null,
    Bool(bool),
    UInt(u64),
    Int(i64),
    Str(String),
    Arr(Vec<JsonValue>),
    Obj(Vec<(String, JsonValue)>),
}

/// The mathematical shape of a JSON value: what a [`JsonValue`] holds, with
/// strings and containers as sequences.
pub enum JsonModel {
    Null,
    Bool(bool),
    UInt(u64),
    Int(i64),
    Str(Seq<char>),
    Arr(Seq<JsonModel>),
    Obj(Seq<(Seq<char>, JsonModel)>),
}

/// The shape of a JSON value tree.
pub open spec fn jmodel(v: JsonValue) -> JsonModel
    decreases v,
{
    match v {
        JsonValue::Null => JsonModel::Null,
        JsonValue::Bool(b) => JsonModel::Bool(b),
        JsonValue::UInt(n) => JsonModel::UInt(n),
        JsonValue::Int(i) => JsonModel::Int(i),
        JsonValue::Str(s) => JsonModel::Str(s@),
        JsonValue::Arr(items) => JsonModel::Arr(jmodel_seq(items@)),
        JsonValue::Obj(pairs) => JsonModel::Obj(jmodel_pairs(pairs@)),
    }
}

/// The shapes of a sequence of JSON values.
pub open spec fn jmodel_seq(s: Seq<JsonValue>) -> Seq<JsonModel>
    decreases s,
{
    if s.len() == 0 {
        seq![]
    } else {
        seq![jmodel(s[0])] + jmodel_seq(s.drop_first())
    }
}

/// The shapes of a sequence of object members.
pub open spec fn jmodel_pairs(s: Seq<(String, JsonValue)>) -> Seq<(Seq<char>, JsonModel)>
    decreases s,
{
    if s.len() == 0 {
        seq![]
    } else {
        seq![(s[0].0@, jmodel(s[0].1))] + jmodel_pairs(s.drop_first())
    }
}

pub proof fn lemma_jmodel_seq_index(s: Seq<JsonValue>)
    ensures
        jmodel_seq(s).len() == s.len(),
        forall|i: int| 0 <= i < s.len() ==> #[trigger] jmodel_seq(s)[i] == jmodel(s[i]),
    decreases s.len(),
{
    if s.len() > 0 {
        lemma_jmodel_seq_index(s.drop_first());
    }
}

pub proof fn lemma_jmodel_pairs_index(s: Seq<(String, JsonValue)>)
    ensures
        jmodel_pairs(s).len() == s.len(),
        forall|i: int|
            0 <= i < s.len() ==> #[trigger] jmodel_pairs(s)[i] == (s[i].0@, jmodel(s[i].1)),
    decreases s.len(),
{
    if s.len() > 0 {
        lemma_jmodel_pairs_index(s.drop_first());
    }
}

/// The size of a JSON value tree, a measure for recursion over it.
pub open spec fn jsize(v: JsonValue) -> nat
    decreases v,
{
    match v {
        JsonValue::Arr(items) => 1 + jsize_seq(items@),
        JsonValue::Obj(pairs) => 1 + jsize_pairs(pairs@),
        _ => 1,
    }
}

/// The combined size of a sequence of JSON values.
pub open spec fn jsize_seq(s: Seq<JsonValue>) -> nat
    decreases s,
{
    if s.len() == 0 {
        0
    } else {
        1 + jsize(s[0]) + jsize_seq(s.drop_first())
    }
}

/// The combined size of a sequence of object members.
pub open spec fn jsize_pairs(s: Seq<(String, JsonValue)>) -> nat
    decreases s,
{
    if s.len() == 0 {
        0
    } else {
        1 + jsize(s[0].1) + jsize_pairs(s.drop_first())
    }
}

proof fn lemma_jsize_seq_index(s: Seq<JsonValue>, i: int)
    requires
        0 <= i < s.len(),
    ensures
        jsize(s[i]) < jsize_seq(s),
    decreases i,
{
    if i > 0 {
        lemma_jsize_seq_index(s.drop_first(), i - 1);
    }
}

proof fn lemma_jsize_pairs_index(s: Seq<(String, JsonValue)>, i: int)
    requires
        0 <= i < s.len(),
    ensures
        jsize(s[i].1) < jsize_pairs(s),
    decreases i,
{
    if i > 0 {
        lemma_jsize_pairs_index(s.drop_first(), i - 1);
    }
}

/// The escape sequence for one character inside a JSON string: quote and
/// backslash escaped, the named control escapes, other control characters in
/// the `\u00XX` form, everything else as itself.
pub open spec fn esc_char(c: char) -> Seq<char> {
    if c == '"' {
        seq!['\\', '"']
    } else if c == '\\' {
        seq!['\\', '\\']
    } else if c == '\u{8}' {
        seq!['\\', 'b']
    } else if c == '\u{9}' {
        seq!['\\', 't']
    } else if c == '\u{a}' {
        seq!['\\', 'n']
    } else if c == '\u{c}' {
        seq!['\\', 'f']
    } else if c == '\u{d}' {
        seq!['\\', 'r']
    } else if (c as u32) < 0x20 {
        seq!['\\', 'u', '0', '0', hex_digit((c as u32 / 16) as nat), hex_digit(
            (c as u32 % 16) as nat,
        )]
    } else {
        seq![c]
    }
}

/// The character for one hexadecimal digit, lower case.
pub open spec fn hex_digit(d: nat) -> char
    recommends
        d < 16,
{
    if d == 0 {
        '0'
    } else if d == 1 {
        '1'
    } else if d == 2 {
        '2'
    } else if d == 3 {
        '3'
    } else if d == 4 {
        '4'
    } else if d == 5 {
        '5'
    } else if d == 6 {
        '6'
    } else if d == 7 {
        '7'
    } else if d == 8 {
        '8'
    } else if d == 9 {
        '9'
    } else if d == 10 {
        'a'
    } else if d == 11 {
        'b'
    } else if d == 12 {
        'c'
    } else if d == 13 {
        'd'
    } else if d == 14 {
        'e'
    } else {
        'f'
    }
}

/// A string's characters, each escaped for JSON.
pub open spec fn json_escaped(s: Seq<char>) -> Seq<char>
    decreases s.len(),
{
    if s.len() == 0 {
        seq![]
    } else {
        esc_char(s[0]) + json_escaped(s.drop_first())
    }
}

pub proof fn lemma_json_escaped_push(s: Seq<char>, c: char)
    ensures
        json_escaped(s.push(c)) == json_escaped(s) + esc_char(c),
    decreases s.len(),
{
    if s.len() == 0 {
        assert(s.push(c).drop_first() =~= Seq::<char>::empty());
        assert(s.push(c)[0] == c);
        assert(json_escaped(Seq::<char>::empty()) =~= Seq::<char>::empty());
        assert(json_escaped(s.push(c)) == esc_char(c) + json_escaped(s.push(c).drop_first()));
        assert(json_escaped(s.push(c)) =~= json_escaped(s) + esc_char(c));
    } else {
        assert(s.push(c).drop_first() =~= s.drop_first().push(c));
        assert(s.push(c)[0] == s[0]);
        lemma_json_escaped_push(s.drop_first(), c);
        assert(json_escaped(s.push(c)) == esc_char(s[0]) + json_escaped(s.drop_first().push(c)));
        assert(json_escaped(s) == esc_char(s[0]) + json_escaped(s.drop_first()));
        assert(esc_char(s[0]) + (json_escaped(s.drop_first()) + esc_char(c)) =~= (esc_char(s[0])
            + json_escaped(s.drop_first())) + esc_char(c));
    }
}

/// A quoted, escaped JSON string.
pub open spec fn quoted(s: Seq<char>) -> Seq<char> {
    seq!['"'] + json_escaped(s) + seq!['"']
}

/// The text of one object member: quoted key, colon, value.
pub open spec fn member_text(p: (Seq<char>, JsonModel)) -> Seq<char>
    decreases p,
{
    quoted(p.0) + seq![':'] + json_text(p.1)
}

/// The canonical compact text of a JSON value.
pub open spec fn json_text(m: JsonModel) -> Seq<char>
    decreases m,
{
    match m {
        JsonModel::Null => seq!['n', 'u', 'l', 'l'],
        JsonModel::Bool(b) => if b {
            seq!['t', 'r', 'u', 'e']
        } else {
            seq!['f', 'a', 'l', 's', 'e']
        },
        JsonModel::UInt(n) => dec_nat(n as nat),
        JsonModel::Int(i) => dec_int(i as int),
        JsonModel::Str(s) => quoted(s),
        JsonModel::Arr(items) => seq!['['] + items_text(items) + seq![']'],
        JsonModel::Obj(pairs) => seq!['{'] + members_text(pairs) + seq!['}'],
    }
}

/// Array elements' texts joined by commas.
pub open spec fn items_text(items: Seq<JsonModel>) -> Seq<char>
    decreases items,
{
    if items.len() == 0 {
        seq![]
    } else if items.len() == 1 {
        json_text(items[0])
    } else {
        json_text(items[0]) + seq![','] + items_text(items.drop_first())
    }
}

/// Object members' texts joined by commas.
pub open spec fn members_text(pairs: Seq<(Seq<char>, JsonModel)>) -> Seq<char>
    decreases pairs,
{
    if pairs.len() == 0 {
        seq![]
    } else if pairs.len() == 1 {
        member_text(pairs[0])
    } else {
        member_text(pairs[0]) + seq![','] + members_text(pairs.drop_first())
    }
}

pub proof fn lemma_items_text_push(s: Seq<JsonModel>, x: JsonModel)
    ensures
        items_text(s.push(x)) == if s.len() == 0 {
            json_text(x)
        } else {
            items_text(s) + seq![','] + json_text(x)
        },
    decreases s.len(),
{
    if s.len() == 0 {
        assert(s.push(x)[0] == x);
        assert(items_text(s.push(x)) == json_text(x));
    } else {
        assert(s.push(x).drop_first() =~= s.drop_first().push(x));
        lemma_items_text_push(s.drop_first(), x);
        if s.len() == 1 {
            assert(items_text(s.push(x)) =~= items_text(s) + seq![','] + json_text(x));
        } else {
            assert(items_text(s.push(x)) =~= items_text(s) + seq![','] + json_text(x));
        }
    }
}

pub proof fn lemma_members_text_push(s: Seq<(Seq<char>, JsonModel)>, x: (Seq<char>, JsonModel))
    ensures
        members_text(s.push(x)) == if s.len() == 0 {
            member_text(x)
        } else {
            members_text(s) + seq![','] + member_text(x)
        },
    decreases s.len(),
{
    if s.len() == 0 {
        assert(s.push(x)[0] == x);
        assert(members_text(s.push(x)) == member_text(x));
    } else {
        assert(s.push(x).drop_first() =~= s.drop_first().push(x));
        lemma_members_text_push(s.drop_first(), x);
        assert(members_text(s.push(x)) =~= members_text(s) + seq![','] + member_text(x));
    }
}

/// Setting a key in an object's member list: the members stay ordered by key
/// and unique, an existing member with the same key is replaced.
pub open spec fn model_obj_set(
    pairs: Seq<(Seq<char>, JsonModel)>,
    k: Seq<char>,
    v: JsonModel,
) -> Seq<(Seq<char>, JsonModel)>
    decreases pairs.len(),
{
    if pairs.len() == 0 {
        seq![(k, v)]
    } else if chars_lt(k, pairs[0].0) {
        seq![(k, v)] + pairs
    } else if k == pairs[0].0 {
        seq![(k, v)] + pairs.drop_first()
    } else {
        seq![pairs[0]] + model_obj_set(pairs.drop_first(), k, v)
    }
}

/// The member that setting `k` would replace: the value at `k` in a member
/// list ordered by key.
pub open spec fn model_find(pairs: Seq<(Seq<char>, JsonModel)>, k: Seq<char>) -> Option<JsonModel>
    decreases pairs.len(),
{
    if pairs.len() == 0 {
        None
    } else if chars_lt(k, pairs[0].0) {
        None
    } else if k == pairs[0].0 {
        Some(pairs[0].1)
    } else {
        model_find(pairs.drop_first(), k)
    }
}

/// Setting a value at a dotted key path: each leading segment names a nested
/// object, created — or put in place of whatever non-object value stood there
/// — as needed; the final segment is set to the value.
pub open spec fn model_tree_set(
    pairs: Seq<(Seq<char>, JsonModel)>,
    segs: Seq<Seq<char>>,
    v: JsonModel,
) -> Seq<(Seq<char>, JsonModel)>
    recommends
        segs.len() >= 1,
    decreases segs.len(),
{
    if segs.len() <= 1 {
        model_obj_set(pairs, segs[0], v)
    } else {
        let child = match model_find(pairs, segs[0]) {
            Some(c) => match c {
                JsonModel::Obj(sub) => sub,
                _ => seq![],
            },
            None => seq![],
        };
        model_obj_set(pairs, segs[0], JsonModel::Obj(model_tree_set(child, segs.drop_first(), v)))
    }
}

proof fn lemma_chars_lt_asym(a: Seq<char>, b: Seq<char>)
    requires
        chars_lt(a, b),
    ensures
        !chars_lt(b, a),
        a != b,
    decreases a.len(),
{
    if b.len() == 0 {
    } else if a.len() == 0 {
        assert(chars_lt(b, a) == false);
        assert(a.len() != b.len());
    } else if a[0] != b[0] {
    } else {
        lemma_chars_lt_asym(a.skip(1), b.skip(1));
        assert(a != b) by {
            if a == b {
                assert(a.skip(1) == b.skip(1));
            }
        }
    }
}

pub proof fn lemma_chars_trichotomy(a: Seq<char>, b: Seq<char>)
    requires
        !chars_lt(a, b),
        !chars_lt(b, a),
    ensures
        a == b,
    decreases a.len(),
{
    if b.len() == 0 {
        assert(a.len() == 0);
        assert(a =~= b);
    } else if a.len() == 0 {
        assert(chars_lt(a, b));
    } else if a[0] != b[0] {
        let c1 = a[0];
        let c2 = b[0];
        assert(chars_lt(a, b) == ((c1 as int) < (c2 as int)));
        assert(chars_lt(b, a) == ((c2 as int) < (c1 as int)));
        assert(c1 as int == c2 as int);
        assert(c1 == c2);
    } else {
        lemma_chars_trichotomy(a.skip(1), b.skip(1));
        assert(a =~= seq![a[0]] + a.skip(1));
        assert(b =~= seq![b[0]] + b.skip(1));
    }
}

/// Where every key before position `j` comes before `k` and the key at `j`
/// is `k`, setting `k` replaces the member at `j`.
proof fn lemma_obj_set_update(
    s: Seq<(Seq<char>, JsonModel)>,
    k: Seq<char>,
    v: JsonModel,
    j: int,
)
    requires
        0 <= j < s.len(),
        forall|l: int| 0 <= l < j ==> chars_lt(#[trigger] s[l].0, k),
        s[j].0 == k,
    ensures
        model_obj_set(s, k, v) == s.update(j, (k, v)),
    decreases j,
{
    if j == 0 {
        assert(!chars_lt(k, s[0].0)) by {
            if chars_lt(k, s[0].0) {
                lemma_chars_lt_asym(k, s[0].0);
            }
        }
        assert(model_obj_set(s, k, v) == seq![(k, v)] + s.drop_first());
        assert(seq![(k, v)] + s.drop_first() =~= s.update(0, (k, v)));
    } else {
        assert(chars_lt(s[0].0, k));
        lemma_chars_lt_asym(s[0].0, k);
        lemma_obj_set_update(s.drop_first(), k, v, j - 1);
        assert(seq![s[0]] + s.drop_first().update(j - 1, (k, v)) =~= s.update(j, (k, v)));
    }
}

/// Where every key before position `i` comes before `k` and the key at `i`
/// (if any) comes after, setting `k` inserts a new member at `i`.
proof fn lemma_obj_set_insert(
    s: Seq<(Seq<char>, JsonModel)>,
    k: Seq<char>,
    v: JsonModel,
    i: int,
)
    requires
        0 <= i <= s.len(),
        forall|l: int| 0 <= l < i ==> chars_lt(#[trigger] s[l].0, k),
        i < s.len() ==> chars_lt(k, s[i].0),
    ensures
        model_obj_set(s, k, v) == s.insert(i, (k, v)),
    decreases i,
{
    if i == 0 {
        if s.len() == 0 {
            assert(model_obj_set(s, k, v) =~= s.insert(0, (k, v)));
        } else {
            assert(chars_lt(k, s[0].0));
            assert(seq![(k, v)] + s =~= s.insert(0, (k, v)));
        }
    } else {
        assert(chars_lt(s[0].0, k));
        lemma_chars_lt_asym(s[0].0, k);
        lemma_obj_set_insert(s.drop_first(), k, v, i - 1);
        assert(seq![s[0]] + s.drop_first().insert(i - 1, (k, v)) =~= s.insert(i, (k, v)));
    }
}

/// Where every key before position `j` comes before `k` and the key at `j`
/// is `k`, the find returns the member at `j`.
pub proof fn lemma_find_at(s: Seq<(Seq<char>, JsonModel)>, k: Seq<char>, j: int)
    requires
        0 <= j < s.len(),
        forall|l: int| 0 <= l < j ==> chars_lt(#[trigger] s[l].0, k),
        s[j].0 == k,
    ensures
        model_find(s, k) == Some(s[j].1),
    decreases j,
{
    if j == 0 {
        assert(!chars_lt(k, s[0].0)) by {
            if chars_lt(k, s[0].0) {
                lemma_chars_lt_asym(k, s[0].0);
            }
        }
    } else {
        lemma_chars_lt_asym(s[0].0, k);
        lemma_find_at(s.drop_first(), k, j - 1);
    }
}

/// Where every key before position `i` comes before `k` and the key at `i`
/// (if any) comes after, the find returns nothing.
pub proof fn lemma_find_none(s: Seq<(Seq<char>, JsonModel)>, k: Seq<char>, i: int)
    requires
        0 <= i <= s.len(),
        forall|l: int| 0 <= l < i ==> chars_lt(#[trigger] s[l].0, k),
        i < s.len() ==> chars_lt(k, s[i].0),
    ensures
        model_find(s, k) is None,
    decreases i,
{
    if i == 0 {
    } else {
        lemma_chars_lt_asym(s[0].0, k);
        lemma_find_none(s.drop_first(), k, i - 1);
    }
}

} // verus!

verus! {

/// The digit character for one hexadecimal digit value, lower case.
pub(crate) fn hex_digit_char(d: u32) -> (c: char)
    requires
        d < 16,
    ensures
        c == hex_digit(d as nat),
{
    if d == 0 {
        '0'
    } else if d == 1 {
        '1'
    } else if d == 2 {
        '2'
    } else if d == 3 {
        '3'
    } else if d == 4 {
        '4'
    } else if d == 5 {
        '5'
    } else if d == 6 {
        '6'
    } else if d == 7 {
        '7'
    } else if d == 8 {
        '8'
    } else if d == 9 {
        '9'
    } else if d == 10 {
        'a'
    } else if d == 11 {
        'b'
    } else if d == 12 {
        'c'
    } else if d == 13 {
        'd'
    } else if d == 14 {
        'e'
    } else {
        'f'
    }
}

/// Appends a string's characters, escaped for JSON.
fn push_escaped(s: &str, out: &mut Vec<char>)
    ensures
        final(out)@ == old(out)@ + json_escaped(s@),
{
    let cs = chars_vec(s);
    proof {
        assert(cs@.take(0) =~= Seq::<char>::empty());
        assert(out@ =~= old(out)@ + json_escaped(cs@.take(0)));
    }
    let mut i: usize = 0;
    while i < cs.len()
        invariant
            i <= cs@.len(),
            cs@ == s@,
            out@ == old(out)@ + json_escaped(cs@.take(i as int)),
        decreases cs@.len() - i,
    {
        let ghost pre = out@;
        let c = cs[i];
        if c == '"' {
            out.push('\\');
            out.push('"');
        } else if c == '\\' {
            out.push('\\');
            out.push('\\');
        } else if c == '\u{8}' {
            out.push('\\');
            out.push('b');
        } else if c == '\u{9}' {
            out.push('\\');
            out.push('t');
        } else if c == '\u{a}' {
            out.push('\\');
            out.push('n');
        } else if c == '\u{c}' {
            out.push('\\');
            out.push('f');
        } else if c == '\u{d}' {
            out.push('\\');
            out.push('r');
        } else {
            proof {
                crate::text::lemma_char_bounds(c);
            }
            let code = c as u32;
            if code < 0x20 {
                out.push('\\');
                out.push('u');
                out.push('0');
                out.push('0');
                out.push(hex_digit_char(code / 16));
                out.push(hex_digit_char(code % 16));
            } else {
                out.push(c);
            }
        }
        proof {
            assert(out@ =~= pre + esc_char(cs@[i as int]));
            assert(cs@.take(i + 1) =~= cs@.take(i as int).push(cs@[i as int]));
            lemma_json_escaped_push(cs@.take(i as int), cs@[i as int]);
        }
        i = i + 1;
    }
    assert(cs@.take(cs@.len() as int) =~= cs@);
}

/// Appends the canonical compact text of a JSON value.
#[verifier::loop_isolation(false)]
fn push_json(v: &JsonValue, out: &mut Vec<char>)
    ensures
        final(out)@ == old(out)@ + json_text(jmodel(*v)),
    decreases jsize(*v),
{
    match v {
        JsonValue::Null => {
            out.push('n');
            out.push('u');
            out.push('l');
            out.push('l');
            assert(out@ =~= old(out)@ + json_text(jmodel(*v)));
        },
        JsonValue::Bool(b) => {
            if *b {
                out.push('t');
                out.push('r');
                out.push('u');
                out.push('e');
            } else {
                out.push('f');
                out.push('a');
                out.push('l');
                out.push('s');
                out.push('e');
            }
            assert(out@ =~= old(out)@ + json_text(jmodel(*v)));
        },
        JsonValue::UInt(n) => {
            push_dec_u64(*n, out);
        },
        JsonValue::Int(i) => {
            push_dec_i64(*i, out);
        },
        JsonValue::Str(s) => {
            out.push('"');
            push_escaped(s.as_str(), out);
            out.push('"');
            assert(out@ =~= old(out)@ + quoted(s@));
        },
        JsonValue::Arr(items) => {
            out.push('[');
            let ghost base = out@;
            proof {
                assert(items@.take(0) =~= Seq::<JsonValue>::empty());
                lemma_jmodel_seq_index(items@.take(0));
                assert(jmodel_seq(items@.take(0)) =~= Seq::<JsonModel>::empty());
            }
            let mut i: usize = 0;
            while i < items.len()
                invariant
                    i <= items@.len(),
                    base == old(out)@ + seq!['['],
                    out@ == base + items_text(jmodel_seq(items@.take(i as int))),
                decreases items@.len() - i,
            {
                if i > 0 {
                    out.push(',');
                }
                proof {
                    lemma_jsize_seq_index(items@, i as int);
                }
                push_json(&items[i], out);
                proof {
                    lemma_jmodel_seq_index(items@.take(i as int));
                    lemma_jmodel_seq_index(items@.take(i + 1));
                    assert(items@.take(i + 1) =~= items@.take(i as int).push(items@[i as int]));
                    assert(jmodel_seq(items@.take(i + 1)) =~= jmodel_seq(items@.take(i as int)).push(
                        jmodel(items@[i as int]),
                    ));
                    lemma_items_text_push(jmodel_seq(items@.take(i as int)), jmodel(items@[i as int]));
                    assert(out@ =~= base + items_text(jmodel_seq(items@.take(i + 1))));
                }
                i = i + 1;
            }
            out.push(']');
            proof {
                assert(items@.take(items@.len() as int) =~= items@);
                assert(out@ =~= old(out)@ + json_text(jmodel(*v)));
            }
        },
        JsonValue::Obj(pairs) => {
            out.push('{');
            let ghost base = out@;
            proof {
                assert(pairs@.take(0) =~= Seq::<(String, JsonValue)>::empty());
                lemma_jmodel_pairs_index(pairs@.take(0));
                assert(jmodel_pairs(pairs@.take(0)) =~= Seq::<(Seq<char>, JsonModel)>::empty());
            }
            let mut i: usize = 0;
            while i < pairs.len()
                invariant
                    i <= pairs@.len(),
                    base == old(out)@ + seq!['{'],
                    out@ == base + members_text(jmodel_pairs(pairs@.take(i as int))),
                decreases pairs@.len() - i,
            {
                let ghost pre = out@;
                if i > 0 {
                    out.push(',');
                }
                let p = &pairs[i];
                out.push('"');
                push_escaped(p.0.as_str(), out);
                out.push('"');
                out.push(':');
                proof {
                    lemma_jsize_pairs_index(pairs@, i as int);
                }
                push_json(&p.1, out);
                proof {
                    let m = (pairs@[i as int].0@, jmodel(pairs@[i as int].1));
                    if i > 0 {
                        assert(out@ =~= pre + seq![','] + member_text(m));
                    } else {
                        assert(out@ =~= pre + member_text(m));
                    }
                    lemma_jmodel_pairs_index(pairs@.take(i as int));
                    lemma_jmodel_pairs_index(pairs@.take(i + 1));
                    assert(pairs@.take(i + 1) =~= pairs@.take(i as int).push(pairs@[i as int]));
                    assert(jmodel_pairs(pairs@.take(i + 1)) =~= jmodel_pairs(
                        pairs@.take(i as int),
                    ).push(m));
                    lemma_members_text_push(jmodel_pairs(pairs@.take(i as int)), m);
                    assert(out@ =~= base + members_text(jmodel_pairs(pairs@.take(i + 1))));
                }
                i = i + 1;
            }
            out.push('}');
            proof {
                assert(pairs@.take(pairs@.len() as int) =~= pairs@);
                assert(out@ =~= old(out)@ + json_text(jmodel(*v)));
            }
        },
    }
}

impl JsonValue {
    /// The canonical compact JSON text of this value.
    pub fn render(&self) -> (r: String)
        ensures
            r@ == json_text(jmodel(*self)),
    {
        let mut out: Vec<char> = Vec::new();
        push_json(self, &mut out);
        string_from_chars(&out)
    }
}

/// A copy of a JSON value with the same shape.
#[verifier::loop_isolation(false)]
pub fn clone_json(v: &JsonValue) -> (r: JsonValue)
    ensures
        jmodel(r) == jmodel(*v),
    decreases jsize(*v),
{
    match v {
        JsonValue::Null => JsonValue::Null,
        JsonValue::Bool(b) => JsonValue::Bool(*b),
        JsonValue::UInt(n) => JsonValue::UInt(*n),
        JsonValue::Int(i) => JsonValue::Int(*i),
        JsonValue::Str(s) => JsonValue::Str(s.clone()),
        JsonValue::Arr(items) => {
            let mut out: Vec<JsonValue> = Vec::new();
            let mut i: usize = 0;
            while i < items.len()
                invariant
                    i <= items@.len(),
                    out@.len() == i,
                    forall|l: int| 0 <= l < i ==> jmodel(#[trigger] out@[l]) == jmodel(items@[l]),
                decreases items@.len() - i,
            {
                proof {
                    lemma_jsize_seq_index(items@, i as int);
                }
                let c = clone_json(&items[i]);
                out.push(c);
                i = i + 1;
            }
            proof {
                lemma_jmodel_seq_index(out@);
                lemma_jmodel_seq_index(items@);
                assert(jmodel_seq(out@) =~= jmodel_seq(items@));
            }
            JsonValue::Arr(out)
        },
        JsonValue::Obj(pairs) => {
            let out = clone_members(pairs);
            JsonValue::Obj(out)
        },
    }
}

/// A copy of an object's member list with the same shape.
#[verifier::loop_isolation(false)]
pub fn clone_members(pairs: &Vec<(String, JsonValue)>) -> (r: Vec<(String, JsonValue)>)
    ensures
        jmodel_pairs(r@) == jmodel_pairs(pairs@),
    decreases jsize_pairs(pairs@),
{
    let mut out: Vec<(String, JsonValue)> = Vec::new();
    let mut i: usize = 0;
    while i < pairs.len()
        invariant
            i <= pairs@.len(),
            out@.len() == i,
            forall|l: int|
                0 <= l < i ==> (#[trigger] out@[l]).0@ == pairs@[l].0@ && jmodel(out@[l].1)
                    == jmodel(pairs@[l].1),
        decreases pairs@.len() - i,
    {
        let p = &pairs[i];
        proof {
            lemma_jsize_pairs_index(pairs@, i as int);
        }
        let c = clone_json(&p.1);
        out.push((p.0.clone(), c));
        i = i + 1;
    }
    proof {
        lemma_jmodel_pairs_index(out@);
        lemma_jmodel_pairs_index(pairs@);
        assert(jmodel_pairs(out@) =~= jmodel_pairs(pairs@));
    }
    out
}

/// Scans an ordered member list for the position where `kc` belongs.
fn scan_key(pairs: &Vec<(String, JsonValue)>, kc: &Vec<char>) -> (i: usize)
    ensures
        i <= pairs@.len(),
        forall|l: int| 0 <= l < i ==> chars_lt(#[trigger] pairs@[l].0@, kc@),
        i < pairs@.len() ==> !chars_lt(pairs@[i as int].0@, kc@),
{
    let mut i: usize = 0;
    loop
        invariant
            i <= pairs@.len(),
            forall|l: int| 0 <= l < i ==> chars_lt(#[trigger] pairs@[l].0@, kc@),
        ensures
            i <= pairs@.len(),
            forall|l: int| 0 <= l < i ==> chars_lt(#[trigger] pairs@[l].0@, kc@),
            i < pairs@.len() ==> !chars_lt(pairs@[i as int].0@, kc@),
        decreases pairs@.len() - i,
    {
        if i >= pairs.len() {
            break ;
        }
        let pc = chars_vec(pairs[i].0.as_str());
        if !chars_lt_exec(&pc, &kc) {
            break ;
        }
        i = i + 1;
    }
    i
}

/// Sets `key` to `value` in an object's member list kept ordered by key:
/// replaces the member with that key or inserts a new one in order.
pub fn obj_set(pairs: &mut Vec<(String, JsonValue)>, key: String, value: JsonValue)
    ensures
        jmodel_pairs(final(pairs)@) == model_obj_set(
            jmodel_pairs(old(pairs)@),
            key@,
            jmodel(value),
        ),
{
    let kc = chars_vec(key.as_str());
    let i = scan_key(pairs, &kc);
    let ghost s = jmodel_pairs(old(pairs)@);
    proof {
        lemma_jmodel_pairs_index(old(pairs)@);
    }
    if i < pairs.len() {
        let pc = chars_vec(pairs[i].0.as_str());
        if chars_eq(&pc, &kc) {
            pairs.remove(i);
            pairs.insert(i, (key, value));
            proof {
                lemma_obj_set_update(s, kc@, jmodel(value), i as int);
                lemma_jmodel_pairs_index(pairs@);
                assert(jmodel_pairs(pairs@) =~= s.update(i as int, (kc@, jmodel(value))));
            }
        } else {
            proof {
                if !chars_lt(kc@, pairs@[i as int].0@) {
                    lemma_chars_trichotomy(pairs@[i as int].0@, kc@);
                }
                lemma_obj_set_insert(s, kc@, jmodel(value), i as int);
            }
            pairs.insert(i, (key, value));
            proof {
                lemma_jmodel_pairs_index(pairs@);
                assert(jmodel_pairs(pairs@) =~= s.insert(i as int, (kc@, jmodel(value))));
            }
        }
    } else {
        proof {
            lemma_obj_set_insert(s, kc@, jmodel(value), i as int);
        }
        pairs.push((key, value));
        proof {
            lemma_jmodel_pairs_index(pairs@);
            assert(jmodel_pairs(pairs@) =~= s.insert(s.len() as int, (kc@, jmodel(value))));
        }
    }
}

/// The character sequences of a list of strings.
pub open spec fn segs_model(s: Seq<String>) -> Seq<Seq<char>> {
    s.map_values(|x: String| x@)
}

/// Sets `value` at the dotted key path `segs[idx..]` in an ordered member
/// list: leading segments name nested objects, created — or put in place of
/// whatever non-object value stood there — as needed.
pub fn tree_set(pairs: &mut Vec<(String, JsonValue)>, segs: &Vec<String>, idx: usize, value: JsonValue)
    requires
        idx < segs@.len(),
    ensures
        jmodel_pairs(final(pairs)@) == model_tree_set(
            jmodel_pairs(old(pairs)@),
            segs_model(segs@).skip(idx as int),
            jmodel(value),
        ),
    decreases segs@.len() - idx,
{
    let ghost path = segs_model(segs@).skip(idx as int);
    let last = segs.len() - 1;
    if idx == last {
        obj_set(pairs, segs[idx].clone(), value);
        proof {
            assert(path[0] == segs@[idx as int]@);
        }
    } else {
        let kc = chars_vec(segs[idx].as_str());
        let i = scan_key(pairs, &kc);
        let ghost s = jmodel_pairs(old(pairs)@);
        proof {
            lemma_jmodel_pairs_index(old(pairs)@);
            assert(path[0] == segs@[idx as int]@);
            assert(path.skip(1) =~= segs_model(segs@).skip(idx + 1));
        }
        let mut matched = false;
        if i < pairs.len() {
            let pc = chars_vec(pairs[i].0.as_str());
            matched = chars_eq(&pc, &kc);
        }
        if matched {
            proof {
                assert(forall|l: int|
                    0 <= l < i ==> chars_lt(#[trigger] s[l].0, kc@));
                lemma_find_at(s, kc@, i as int);
            }
            let (k2, child) = pairs.remove(i);
            let ghost childm = jmodel(child);
            let mut cv: Vec<(String, JsonValue)>;
            match child {
                JsonValue::Obj(cv0) => {
                    cv = cv0;
                    assert(childm == JsonModel::Obj(jmodel_pairs(cv@)));
                },
                _ => {
                    cv = Vec::new();
                    proof {
                        assert(!(childm is Obj));
                        assert(jmodel_pairs(cv@) =~= Seq::<(Seq<char>, JsonModel)>::empty());
                    }
                },
            }
            tree_set(&mut cv, segs, idx + 1, value);
            let ghost newv = JsonModel::Obj(
                model_tree_set(
                    match model_find(s, kc@) {
                        Some(c) => match c {
                            JsonModel::Obj(sub) => sub,
                            _ => seq![],
                        },
                        None => seq![],
                    },
                    path.skip(1),
                    jmodel(value),
                ),
            );
            pairs.insert(i, (k2, JsonValue::Obj(cv)));
            proof {
                lemma_obj_set_update(s, kc@, newv, i as int);
                lemma_jmodel_pairs_index(pairs@);
                assert(jmodel_pairs(pairs@) =~= s.update(i as int, (kc@, newv)));
            }
        } else {
            proof {
                if i < pairs@.len() && !chars_lt(kc@, pairs@[i as int].0@) {
                    lemma_chars_trichotomy(pairs@[i as int].0@, kc@);
                }
                lemma_find_none(s, kc@, i as int);
            }
            let mut cv: Vec<(String, JsonValue)> = Vec::new();
            proof {
                assert(jmodel_pairs(cv@) =~= Seq::<(Seq<char>, JsonModel)>::empty());
            }
            tree_set(&mut cv, segs, idx + 1, value);
            let ghost newv = JsonModel::Obj(
                model_tree_set(seq![], path.skip(1), jmodel(value)),
            );
            pairs.insert(i, (segs[idx].clone(), JsonValue::Obj(cv)));
            proof {
                lemma_obj_set_insert(s, kc@, newv, i as int);
                lemma_jmodel_pairs_index(pairs@);
                assert(jmodel_pairs(pairs@) =~= s.insert(i as int, (kc@, newv)));
            }
        }
    }
}

/// The dotted-path segments of a key, as string split on full stops has them.
pub open spec fn split_acc(s: Seq<char>, cur: Seq<char>) -> Seq<Seq<char>>
    decreases s.len(),
{
    if s.len() == 0 {
        seq![cur]
    } else if s[0] == '.' {
        seq![cur] + split_acc(s.drop_first(), seq![])
    } else {
        split_acc(s.drop_first(), cur.push(s[0]))
    }
}

/// The segments of a dotted key path.
pub open spec fn split_dots_model(s: Seq<char>) -> Seq<Seq<char>> {
    split_acc(s, seq![])
}

/// Splits a key on full stops into its path segments.
pub fn split_dots(key: &str) -> (segs: Vec<String>)
    ensures
        segs_model(segs@) == split_dots_model(key@),
        segs@.len() >= 1,
{
    let cs = chars_vec(key);
    let mut out: Vec<String> = Vec::new();
    let mut cur: Vec<char> = Vec::new();
    let mut i: usize = 0;
    proof {
        assert(cs@.skip(0) =~= cs@);
        assert(segs_model(out@) =~= Seq::<Seq<char>>::empty());
        assert(Seq::<Seq<char>>::empty() + split_acc(cs@, Seq::<char>::empty()) =~= split_acc(
            cs@,
            Seq::<char>::empty(),
        ));
    }
    while i < cs.len()
        invariant
            i <= cs@.len(),
            cs@ == key@,
            split_dots_model(key@) == segs_model(out@) + split_acc(cs@.skip(i as int), cur@),
        decreases cs@.len() - i,
    {
        let c = cs[i];
        let ghost pre_out = out@;
        let ghost pre_cur = cur@;
        proof {
            assert(cs@.skip(i as int)[0] == cs@[i as int]);
            assert(cs@.skip(i as int).drop_first() =~= cs@.skip(i + 1));
        }
        if c == '.' {
            let seg = string_from_chars(&cur);
            out.push(seg);
            cur = Vec::new();
            proof {
                assert(split_acc(cs@.skip(i as int), pre_cur) == seq![pre_cur] + split_acc(
                    cs@.skip(i + 1),
                    Seq::<char>::empty(),
                ));
                assert(segs_model(out@) =~= segs_model(pre_out).push(pre_cur));
                assert(segs_model(out@) + split_acc(cs@.skip(i + 1), cur@) =~= segs_model(pre_out)
                    + split_acc(cs@.skip(i as int), pre_cur));
            }
        } else {
            cur.push(c);
            proof {
                assert(split_acc(cs@.skip(i as int), pre_cur) == split_acc(
                    cs@.skip(i + 1),
                    pre_cur.push(c),
                ));
            }
        }
        i = i + 1;
    }
    let seg = string_from_chars(&cur);
    out.push(seg);
    proof {
        assert(cs@.skip(cs@.len() as int) =~= Seq::<char>::empty());
        assert(split_acc(Seq::<char>::empty(), cur@) == seq![cur@]);
        assert(segs_model(out@) =~= split_dots_model(key@));
    }
    out
}


/// A copy of a list of JSON values with the same shapes.
#[verifier::loop_isolation(false)]
pub fn clone_items(items: &Vec<JsonValue>) -> (r: Vec<JsonValue>)
    ensures
        jmodel_seq(r@) == jmodel_seq(items@),
{
    let mut out: Vec<JsonValue> = Vec::new();
    let mut i: usize = 0;
    while i < items.len()
        invariant
            i <= items@.len(),
            out@.len() == i,
            forall|l: int| 0 <= l < i ==> jmodel(#[trigger] out@[l]) == jmodel(items@[l]),
        decreases items@.len() - i,
    {
        let c = clone_json(&items[i]);
        out.push(c);
        i = i + 1;
    }
    proof {
        lemma_jmodel_seq_index(out@);
        lemma_jmodel_seq_index(items@);
        assert(jmodel_seq(out@) =~= jmodel_seq(items@));
    }
    out
}

/// Setting every member of one list in another, in order.
pub open spec fn set_all(
    acc: Seq<(Seq<char>, JsonModel)>,
    ps: Seq<(Seq<char>, JsonModel)>,
) -> Seq<(Seq<char>, JsonModel)>
    decreases ps.len(),
{
    if ps.len() == 0 {
        acc
    } else {
        set_all(model_obj_set(acc, ps[0].0, ps[0].1), ps.drop_first())
    }
}

/// Sets every member of `params` in `body`, in order.
pub fn obj_set_all(params: &Vec<(String, JsonValue)>, body: &mut Vec<(String, JsonValue)>)
    ensures
        jmodel_pairs(final(body)@) == set_all(jmodel_pairs(old(body)@), jmodel_pairs(params@)),
{
    let ghost ps = jmodel_pairs(params@);
    proof {
        lemma_jmodel_pairs_index(params@);
        assert(ps.skip(0) =~= ps);
    }
    let mut i: usize = 0;
    while i < params.len()
        invariant
            i <= params@.len(),
            ps == jmodel_pairs(params@),
            ps.len() == params@.len(),
            forall|l: int| 0 <= l < ps.len() ==> #[trigger] ps[l] == (params@[l].0@, jmodel(
                params@[l].1,
            )),
            set_all(jmodel_pairs(old(body)@), ps) == set_all(jmodel_pairs(body@), ps.skip(i as int)),
        decreases params@.len() - i,
    {
        let p = &params[i];
        let v = clone_json(&p.1);
        proof {
            assert(ps.skip(i as int)[0] == ps[i as int]);
            assert(ps.skip(i as int).drop_first() =~= ps.skip(i + 1));
        }
        obj_set(body, p.0.clone(), v);
        i = i + 1;
    }
    proof {
        assert(ps.skip(ps.len() as int) =~= Seq::<(Seq<char>, JsonModel)>::empty());
    }
}

/// The position of the member with this key, found the way setting the key
/// would find it.
pub fn find_key(pairs: &Vec<(String, JsonValue)>, key: &str) -> (r: Option<usize>)
    ensures
        match r {
            Some(j) => j < pairs@.len() && pairs@[j as int].0@ == key@ && model_find(
                jmodel_pairs(pairs@),
                key@,
            ) == Some(jmodel(pairs@[j as int].1)),
            None => model_find(jmodel_pairs(pairs@), key@) is None,
        },
{
    let kc = chars_vec(key);
    let j = scan_key(pairs, &kc);
    let ghost s = jmodel_pairs(pairs@);
    proof {
        lemma_jmodel_pairs_index(pairs@);
        assert(forall|l: int| 0 <= l < j ==> chars_lt(#[trigger] s[l].0, key@));
    }
    if j < pairs.len() {
        let pc = chars_vec(pairs[j].0.as_str());
        if chars_eq(&pc, &kc) {
            proof {
                lemma_find_at(s, key@, j as int);
            }
            Some(j)
        } else {
            proof {
                if !chars_lt(key@, pairs@[j as int].0@) {
                    lemma_chars_trichotomy(pairs@[j as int].0@, key@);
                }
                lemma_find_none(s, key@, j as int);
            }
            None
        }
    } else {
        proof {
            lemma_find_none(s, key@, j as int);
        }
        None
    }
}


/// The member list a member currently holds, where it holds an object.
pub open spec fn obj_at(pairs: Seq<(Seq<char>, JsonModel)>, k: Seq<char>) -> Seq<(Seq<char>, JsonModel)> {
    match model_find(pairs, k) {
        Some(c) => match c {
            JsonModel::Obj(m) => m,
            _ => seq![],
        },
        None => seq![],
    }
}

/// Setting every member of a list at its dotted key path, in order.
pub open spec fn insert_all(
    body: Seq<(Seq<char>, JsonModel)>,
    ps: Seq<(Seq<char>, JsonModel)>,
) -> Seq<(Seq<char>, JsonModel)>
    decreases ps.len(),
{
    if ps.len() == 0 {
        body
    } else {
        insert_all(model_tree_set(body, split_dots_model(ps[0].0), ps[0].1), ps.drop_first())
    }
}

/// Sets every member of `params` in `body`, each at the dotted key path its
/// key spells.
pub fn tree_set_all(params: &Vec<(String, JsonValue)>, body: &mut Vec<(String, JsonValue)>)
    ensures
        jmodel_pairs(final(body)@) == insert_all(jmodel_pairs(old(body)@), jmodel_pairs(params@)),
{
    let ghost ps = jmodel_pairs(params@);
    proof {
        lemma_jmodel_pairs_index(params@);
        assert(ps.skip(0) =~= ps);
    }
    let mut i: usize = 0;
    while i < params.len()
        invariant
            i <= params@.len(),
            ps == jmodel_pairs(params@),
            ps.len() == params@.len(),
            forall|l: int| 0 <= l < ps.len() ==> #[trigger] ps[l] == (params@[l].0@, jmodel(
                params@[l].1,
            )),
            insert_all(jmodel_pairs(old(body)@), ps) == insert_all(
                jmodel_pairs(body@),
                ps.skip(i as int),
            ),
        decreases params@.len() - i,
    {
        let p = &params[i];
        let segs = split_dots(p.0.as_str());
        let v = clone_json(&p.1);
        proof {
            assert(ps.skip(i as int)[0] == ps[i as int]);
            assert(ps.skip(i as int).drop_first() =~= ps.skip(i + 1));
        }
        tree_set(body, &segs, 0, v);
        proof {
            assert(segs_model(segs@).skip(0) =~= segs_model(segs@));
        }
        i = i + 1;
    }
    proof {
        assert(ps.skip(ps.len() as int) =~= Seq::<(Seq<char>, JsonModel)>::empty());
    }
}

/// Every member's value replaced by an empty object, keys kept.
pub open spec fn blank_members(m: Seq<(Seq<char>, JsonModel)>) -> Seq<(Seq<char>, JsonModel)> {
    m.map_values(|p: (Seq<char>, JsonModel)| (p.0, JsonModel::Obj(seq![])))
}

/// The same member list with every value an empty object.
pub fn blank_values(pairs: &Vec<(String, JsonValue)>) -> (r: Vec<(String, JsonValue)>)
    ensures
        jmodel_pairs(r@) == blank_members(jmodel_pairs(pairs@)),
{
    let mut out: Vec<(String, JsonValue)> = Vec::new();
    let mut i: usize = 0;
    while i < pairs.len()
        invariant
            i <= pairs@.len(),
            out@.len() == i,
            forall|l: int|
                0 <= l < i ==> (#[trigger] out@[l]).0@ == pairs@[l].0@ && jmodel(out@[l].1)
                    == JsonModel::Obj(Seq::empty()),
        decreases pairs@.len() - i,
    {
        let empty_obj: Vec<(String, JsonValue)> = Vec::new();
        proof {
            assert(jmodel_pairs(empty_obj@) =~= Seq::<(Seq<char>, JsonModel)>::empty());
        }
        out.push((pairs[i].0.clone(), JsonValue::Obj(empty_obj)));
        i = i + 1;
    }
    proof {
        lemma_jmodel_pairs_index(out@);
        lemma_jmodel_pairs_index(pairs@);
        assert(jmodel_pairs(out@) =~= blank_members(jmodel_pairs(pairs@)));
    }
    out
}

} // verus!
