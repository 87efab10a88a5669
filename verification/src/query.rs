//! Query-string parameters: an insertion-ordered list of key/value pairs
//! with unique keys, encoded through the url crate's form encoder.

use vstd::prelude::*;

use crate::text::{chars_eq, chars_vec};

verus! {

/// What the url crate's form encoder returns for a list of pairs. The text
/// depends on the pairs alone.
pub uninterp spec fn urlencoded_of(pairs: Seq<(Seq<char>, Seq<char>)>) -> Seq<char>;

/// The pairs of a parameter list, as character sequences.
pub open spec fn pairs_view(s: Seq<(String, String)>) -> Seq<(Seq<char>, Seq<char>)> {
    s.map_values(|p: (String, String)| (p.0@, p.1@))
}

/// Setting a key in a parameter list: the pair with that key is replaced in
/// place, or a new pair is appended.
pub open spec fn spec_set_pair(
    s: Seq<(Seq<char>, Seq<char>)>,
    k: Seq<char>,
    v: Seq<char>,
) -> Seq<(Seq<char>, Seq<char>)>
    decreases s.len(),
{
    if s.len() == 0 {
        seq![(k, v)]
    } else if s[0].0 == k {
        seq![(k, v)] + s.drop_first()
    } else {
        seq![s[0]] + spec_set_pair(s.drop_first(), k, v)
    }
}

/// Where every key before position `j` differs from `k` and the key at `j`
/// is `k`, setting `k` replaces the pair at `j`.
proof fn lemma_set_pair_update(s: Seq<(Seq<char>, Seq<char>)>, k: Seq<char>, v: Seq<char>, j: int)
    requires
        0 <= j < s.len(),
        forall|l: int| 0 <= l < j ==> (#[trigger] s[l].0) != k,
        s[j].0 == k,
    ensures
        spec_set_pair(s, k, v) == s.update(j, (k, v)),
    decreases j,
{
    if j == 0 {
        assert(seq![(k, v)] + s.drop_first() =~= s.update(0, (k, v)));
    } else {
        lemma_set_pair_update(s.drop_first(), k, v, j - 1);
        assert(seq![s[0]] + s.drop_first().update(j - 1, (k, v)) =~= s.update(j, (k, v)));
    }
}

/// Where no key is `k`, setting `k` appends a new pair.
proof fn lemma_set_pair_push(s: Seq<(Seq<char>, Seq<char>)>, k: Seq<char>, v: Seq<char>)
    requires
        forall|l: int| 0 <= l < s.len() ==> (#[trigger] s[l].0) != k,
    ensures
        spec_set_pair(s, k, v) == s.push((k, v)),
    decreases s.len(),
{
    if s.len() == 0 {
        assert(spec_set_pair(s, k, v) =~= s.push((k, v)));
    } else {
        lemma_set_pair_push(s.drop_first(), k, v);
        assert(seq![s[0]] + s.drop_first().push((k, v)) =~= s.push((k, v)));
    }
}

/// Sets `key` to `value` in a parameter list, replacing the pair with that
/// key or appending a new one.
pub fn set_pair(params: &mut Vec<(String, String)>, key: &str, value: String)
    ensures
        pairs_view(final(params)@) == spec_set_pair(pairs_view(old(params)@), key@, value@),
{
    let kc = chars_vec(key);
    let mut j: usize = 0;
    loop
        invariant
            j <= params@.len(),
            params@ == old(params)@,
            kc@ == key@,
            forall|l: int| 0 <= l < j ==> (#[trigger] params@[l].0@) != key@,
        ensures
            params@ == old(params)@,
            forall|l: int| 0 <= l < j ==> (#[trigger] params@[l].0@) != key@,
            j == params@.len() || params@[j as int].0@ == key@,
        decreases params@.len() - j,
    {
        if j >= params.len() {
            break ;
        }
        let pc = chars_vec(params[j].0.as_str());
        if chars_eq(&pc, &kc) {
            break ;
        }
        j = j + 1;
    }
    let ghost s = pairs_view(old(params)@);
    if j < params.len() {
        params.remove(j);
        params.insert(j, (key.to_owned(), value));
        proof {
            assert(forall|l: int| 0 <= l < j ==> (#[trigger] s[l].0) != key@);
            lemma_set_pair_update(s, key@, value@, j as int);
            assert(pairs_view(params@) =~= s.update(j as int, (key@, value@)));
        }
    } else {
        params.push((key.to_owned(), value));
        proof {
            assert(forall|l: int| 0 <= l < s.len() ==> (#[trigger] s[l].0) != key@);
            lemma_set_pair_push(s, key@, value@);
            assert(pairs_view(params@) =~= s.push((key@, value@)));
        }
    }
}

/// A copy of a parameter list.
pub fn clone_pairs(params: &Vec<(String, String)>) -> (r: Vec<(String, String)>)
    ensures
        r@ == params@,
{
    let mut out: Vec<(String, String)> = Vec::new();
    let mut i: usize = 0;
    while i < params.len()
        invariant
            i <= params@.len(),
            out@ == params@.take(i as int),
        decreases params@.len() - i,
    {
        let p = &params[i];
        out.push((p.0.clone(), p.1.clone()));
        proof {
            assert(params@.take(i + 1) =~= params@.take(i as int).push(params@[i as int]));
        }
        i = i + 1;
    }
    assert(params@.take(params@.len() as int) =~= params@);
    out
}

/// Relies on the url crate's form serializer: the encoded text is a function
/// of the pairs alone, and no pairs encode to the empty string.
#[verifier::external_body]
pub(crate) fn encode_pairs(params: &Vec<(String, String)>) -> (r: String)
    ensures
        r@ == urlencoded_of(pairs_view(params@)),
        params@.len() == 0 ==> r@.len() == 0,
{
    url::form_urlencoded::Serializer::new(String::new()).extend_pairs(
        params.iter().map(|p| (&p.0, &p.1)),
    ).finish()
}

/// The query string for a parameter list: nothing when no parameter is set,
/// the form-encoded pairs otherwise.
pub fn encode_query(params: &Vec<(String, String)>) -> (r: Option<String>)
    ensures
        r is Some <==> params@.len() > 0,
        r matches Some(q) ==> q@ == urlencoded_of(pairs_view(params@)),
{
    if params.len() == 0 {
        None
    } else {
        Some(encode_pairs(params))
    }
}

/// A path with an optional query string attached after a question mark.
pub fn with_query(path: String, query: Option<String>) -> (r: String)
    ensures
        match query {
            Some(q) => r@ == path@ + seq!['?'] + q@,
            None => r@ == path@,
        },
{
    match query {
        Some(q) => {
            let mut out = crate::text::chars_vec(path.as_str());
            out.push('?');
            let mut t = crate::text::chars_vec(q.as_str());
            out.append(&mut t);
            crate::text::string_from_chars(&out)
        },
        None => path,
    }
}

} // verus!
