//! Query strings: `key=value` pairs joined by `&`, each value written raw, percent-encoded or
//! form-encoded.
use vstd::prelude::*;
use vstd::string::*;
use crate::text::{bool_string, bool_text, decimal, digit_char, i64_text, signed_decimal, u64_text};

verus! {

/// What `urlencoding::encode` makes of a string.
pub uninterp spec fn url_encoded(s: Seq<char>) -> Seq<char>;

/// Characters that percent-encoding leaves as they are.
pub open spec fn is_unreserved(c: char) -> bool {
    ('a' <= c && c <= 'z') || ('A' <= c && c <= 'Z') || ('0' <= c && c <= '9') || c == '-'
        || c == '_' || c == '.' || c == '~'
}

pub open spec fn all_unreserved(s: Seq<char>) -> bool {
    forall|i: int| 0 <= i < s.len() ==> is_unreserved(#[trigger] s[i])
}

/// Relies on `urlencoding::encode`: it percent-encodes every byte of the UTF-8 text except
/// ASCII letters, digits and `-`, `.`, `_`, `~`, so a string made of those alone comes back as it
/// was.
#[verifier::external_body]
pub(crate) fn percent_encode(s: &str) -> (r: String)
    ensures
        r@ == url_encoded(s@),
        all_unreserved(s@) ==> r@ == s@,
{
    urlencoding::encode(s).into_owned()
}

/// What the `application/x-www-form-urlencoded` byte serializer makes of a string.
pub uninterp spec fn form_encoded(s: Seq<char>) -> Seq<char>;

/// Characters that form encoding leaves as they are.
pub open spec fn is_form_safe(c: char) -> bool {
    ('a' <= c && c <= 'z') || ('A' <= c && c <= 'Z') || ('0' <= c && c <= '9') || c == '-'
        || c == '_' || c == '.' || c == '*'
}

pub open spec fn all_form_safe(s: Seq<char>) -> bool {
    forall|i: int| 0 <= i < s.len() ==> is_form_safe(#[trigger] s[i])
}

/// Relies on `url::form_urlencoded::byte_serialize` (the encoder behind `Url::query_pairs_mut`
/// and reqwest's `query`): it keeps ASCII letters, digits and `*`, `-`, `.`, `_`, writes a space
/// as `+` and percent-encodes every other byte, so a string made of kept characters alone comes
/// back as it was.
#[verifier::external_body]
pub(crate) fn form_encode(s: &str) -> (r: String)
    ensures
        r@ == form_encoded(s@),
        all_form_safe(s@) ==> r@ == s@,
{
    url::form_urlencoded::byte_serialize(s.as_bytes()).collect()
}

/// How a value is written into a query string.
#[derive(Clone, Copy, Debug, PartialEq, Eq, Structural)]
pub enum ValueEncoding {
    /// As it is.
    Raw,
    /// Percent-encoded (`urlencoding`).
    Percent,
    /// Form-encoded (`application/x-www-form-urlencoded`).
    Form,
}

/// The text of a value under an encoding. A value that the encoding leaves alone is written as
/// it is.
pub open spec fn encoded_value(v: Seq<char>, enc: ValueEncoding) -> Seq<char> {
    match enc {
        ValueEncoding::Raw => v,
        ValueEncoding::Percent => if all_unreserved(v) {
            v
        } else {
            url_encoded(v)
        },
        ValueEncoding::Form => if all_form_safe(v) {
            v
        } else {
            form_encoded(v)
        },
    }
}

proof fn lemma_decimal_digits(n: nat)
    ensures
        forall|i: int| 0 <= i < decimal(n).len() ==> '0' <= #[trigger] decimal(n)[i] <= '9',
    decreases n,
{
    if n >= 10 {
        lemma_decimal_digits(n / 10);
        let d = decimal(n / 10);
        assert(decimal(n) == d.push(digit_char(n % 10)));
        assert forall|i: int| 0 <= i < decimal(n).len() implies '0' <= #[trigger] decimal(n)[i] <= '9' by {
            if i < d.len() {
                assert(decimal(n)[i] == d[i]);
            }
        }
    }
}

/// Numbers and booleans are written the same under every encoding: `limit=50` stays
/// `limit=50`.
pub proof fn lemma_plain_values_unchanged(i: int, b: bool, enc: ValueEncoding)
    ensures
        encoded_value(signed_decimal(i), enc) == signed_decimal(i),
        encoded_value(bool_text(b), enc) == bool_text(b),
{
    let m: nat = if i < 0 {
        (-i) as nat
    } else {
        i as nat
    };
    lemma_decimal_digits(m);
    let t = signed_decimal(i);
    assert forall|j: int| 0 <= j < t.len() implies is_unreserved(#[trigger] t[j]) && is_form_safe(
        t[j],
    ) by {
        if i < 0 {
            if j > 0 {
                assert(t[j] == decimal(m)[j - 1]);
            }
        } else {
            assert(t[j] == decimal(m)[j]);
        }
    }
    let u = bool_text(b);
    assert forall|j: int| 0 <= j < u.len() implies is_unreserved(#[trigger] u[j]) && is_form_safe(
        u[j],
    ) by {}
}

/// Writes a value under an encoding.
pub fn encode_value(v: &str, enc: ValueEncoding) -> (r: String)
    ensures
        r@ == encoded_value(v@, enc),
{
    match enc {
        ValueEncoding::Raw => String::from_str(v),
        ValueEncoding::Percent => percent_encode(v),
        ValueEncoding::Form => form_encode(v),
    }
}

/// The text of a list of pairs, as plain character sequences.
pub open spec fn pairs_view(ps: Seq<(String, String)>) -> Seq<(Seq<char>, Seq<char>)> {
    ps.map_values(|p: (String, String)| (p.0@, p.1@))
}

/// A query parameter: key, value, and how the value is written.
pub type Param = (String, String, ValueEncoding);

/// The text of a list of parameters, as plain character sequences.
pub open spec fn params_view(ps: Seq<Param>) -> Seq<(Seq<char>, Seq<char>, ValueEncoding)> {
    ps.map_values(|p: Param| (p.0@, p.1@, p.2))
}

/// The same pairs, each with the same encoding.
pub open spec fn tagged(ps: Seq<(Seq<char>, Seq<char>)>, enc: ValueEncoding) -> Seq<
    (Seq<char>, Seq<char>, ValueEncoding),
> {
    Seq::new(ps.len(), |i: int| (ps[i].0, ps[i].1, enc))
}

/// One `key=value` item of a query string.
pub open spec fn item_text(p: (Seq<char>, Seq<char>, ValueEncoding)) -> Seq<char> {
    p.0 + seq!['='] + encoded_value(p.1, p.2)
}

/// The items of a query string joined by `&`.
pub open spec fn joined(ps: Seq<(Seq<char>, Seq<char>, ValueEncoding)>) -> Seq<char>
    decreases ps.len(),
{
    if ps.len() == 0 {
        Seq::empty()
    } else if ps.len() == 1 {
        item_text(ps[0])
    } else {
        joined(ps.drop_last()) + seq!['&'] + item_text(ps.last())
    }
}

/// What follows a path: nothing for no parameters, else `?` and the joined items.
pub open spec fn query_suffix(ps: Seq<(Seq<char>, Seq<char>, ValueEncoding)>) -> Seq<char> {
    if ps.len() == 0 {
        Seq::empty()
    } else {
        seq!['?'] + joined(ps)
    }
}

/// Appends pairs to a parameter list, each with the given encoding.
pub fn append_tagged(out: &mut Vec<Param>, pairs: &Vec<(String, String)>, enc: ValueEncoding)
    ensures
        params_view(final(out)@) == params_view(old(out)@) + tagged(pairs_view(pairs@), enc),
{
    let ghost start = params_view(out@);
    let mut j: usize = 0;
    while j < pairs.len()
        invariant
            j <= pairs@.len(),
            params_view(out@) =~= start + tagged(pairs_view(pairs@.subrange(0, j as int)), enc),
        decreases pairs@.len() - j,
    {
        let k = pairs[j].0.clone();
        let v = pairs[j].1.clone();
        let ghost prev = params_view(out@);
        let ghost item = (pairs@[j as int].0@, pairs@[j as int].1@, enc);
        out.push((k, v, enc));
        assert(params_view(out@) =~= prev.push(item));
        assert(tagged(pairs_view(pairs@.subrange(0, j + 1)), enc) =~= tagged(
            pairs_view(pairs@.subrange(0, j as int)),
            enc,
        ).push(item));
        j = j + 1;
    }
    assert(pairs@.subrange(0, pairs@.len() as int) =~= pairs@);
}

/// The pairs, each with the given encoding.
pub fn tag_all(pairs: &Vec<(String, String)>, enc: ValueEncoding) -> (r: Vec<Param>)
    ensures
        params_view(r@) == tagged(pairs_view(pairs@), enc),
{
    let mut out: Vec<Param> = Vec::new();
    assert(params_view(out@) =~= Seq::empty());
    append_tagged(&mut out, pairs, enc);
    assert(params_view(out@) =~= tagged(pairs_view(pairs@), enc));
    out
}

/// No pair for an absent field; one `key=value` pair for a present one.
pub open spec fn text_field(key: Seq<char>, v: Option<String>) -> Seq<(Seq<char>, Seq<char>)> {
    match v {
        Some(s) => seq![(key, s@)],
        None => Seq::empty(),
    }
}

/// A numeric field, written in base ten.
pub open spec fn int_field(key: Seq<char>, v: Option<int>) -> Seq<(Seq<char>, Seq<char>)> {
    match v {
        Some(n) => seq![(key, signed_decimal(n))],
        None => Seq::empty(),
    }
}

/// A boolean field, written `true` or `false`.
pub open spec fn bool_field(key: Seq<char>, v: Option<bool>) -> Seq<(Seq<char>, Seq<char>)> {
    match v {
        Some(b) => seq![(key, bool_text(b))],
        None => Seq::empty(),
    }
}

/// One `key=value` pair for each value of a list field, in order.
pub open spec fn list_field(key: Seq<char>, v: Option<Vec<String>>) -> Seq<(Seq<char>, Seq<char>)> {
    match v {
        Some(vs) => Seq::new(vs@.len(), |i: int| (key, vs@[i]@)),
        None => Seq::empty(),
    }
}

pub open spec fn of_u64(v: Option<u64>) -> Option<int> {
    match v {
        Some(n) => Some(n as int),
        None => None,
    }
}

pub open spec fn of_u32(v: Option<u32>) -> Option<int> {
    match v {
        Some(n) => Some(n as int),
        None => None,
    }
}

pub open spec fn of_i64(v: Option<i64>) -> Option<int> {
    match v {
        Some(n) => Some(n as int),
        None => None,
    }
}

pub open spec fn of_i32(v: Option<i32>) -> Option<int> {
    match v {
        Some(n) => Some(n as int),
        None => None,
    }
}

fn push_pair(ps: &mut Vec<(String, String)>, key: &str, value: String)
    ensures
        pairs_view(final(ps)@) == pairs_view(old(ps)@).push((key@, value@)),
{
    ps.push((String::from_str(key), value));
    assert(pairs_view(final(ps)@) =~= pairs_view(old(ps)@).push((key@, value@)));
}

pub fn push_text(ps: &mut Vec<(String, String)>, key: &str, v: &Option<String>)
    ensures
        pairs_view(final(ps)@) == pairs_view(old(ps)@) + text_field(key@, *v),
{
    match v {
        Some(s) => push_pair(ps, key, s.clone()),
        None => {},
    }
    assert(pairs_view(final(ps)@) =~= pairs_view(old(ps)@) + text_field(key@, *v));
}

pub fn push_u64(ps: &mut Vec<(String, String)>, key: &str, v: Option<u64>)
    ensures
        pairs_view(final(ps)@) == pairs_view(old(ps)@) + int_field(key@, of_u64(v)),
{
    match v {
        Some(n) => push_pair(ps, key, u64_text(n)),
        None => {},
    }
    assert(pairs_view(final(ps)@) =~= pairs_view(old(ps)@) + int_field(key@, of_u64(v)));
}

pub fn push_u32(ps: &mut Vec<(String, String)>, key: &str, v: Option<u32>)
    ensures
        pairs_view(final(ps)@) == pairs_view(old(ps)@) + int_field(key@, of_u32(v)),
{
    match v {
        Some(n) => push_pair(ps, key, u64_text(n as u64)),
        None => {},
    }
    assert(pairs_view(final(ps)@) =~= pairs_view(old(ps)@) + int_field(key@, of_u32(v)));
}

pub fn push_i64(ps: &mut Vec<(String, String)>, key: &str, v: Option<i64>)
    ensures
        pairs_view(final(ps)@) == pairs_view(old(ps)@) + int_field(key@, of_i64(v)),
{
    match v {
        Some(n) => push_pair(ps, key, i64_text(n)),
        None => {},
    }
    assert(pairs_view(final(ps)@) =~= pairs_view(old(ps)@) + int_field(key@, of_i64(v)));
}

pub fn push_i32(ps: &mut Vec<(String, String)>, key: &str, v: Option<i32>)
    ensures
        pairs_view(final(ps)@) == pairs_view(old(ps)@) + int_field(key@, of_i32(v)),
{
    match v {
        Some(n) => push_pair(ps, key, i64_text(n as i64)),
        None => {},
    }
    assert(pairs_view(final(ps)@) =~= pairs_view(old(ps)@) + int_field(key@, of_i32(v)));
}

pub fn push_bool(ps: &mut Vec<(String, String)>, key: &str, v: Option<bool>)
    ensures
        pairs_view(final(ps)@) == pairs_view(old(ps)@) + bool_field(key@, v),
{
    match v {
        Some(b) => push_pair(ps, key, bool_string(b)),
        None => {},
    }
    assert(pairs_view(final(ps)@) =~= pairs_view(old(ps)@) + bool_field(key@, v));
}

pub fn push_list(ps: &mut Vec<(String, String)>, key: &str, v: &Option<Vec<String>>)
    ensures
        pairs_view(final(ps)@) == pairs_view(old(ps)@) + list_field(key@, *v),
{
    match v {
        Some(vs) => {
            let ghost start = pairs_view(ps@);
            let mut i: usize = 0;
            while i < vs.len()
                invariant
                    i <= vs@.len(),
                    pairs_view(ps@) == start + Seq::new(i as nat, |j: int| (key@, vs@[j]@)),
                decreases vs@.len() - i,
            {
                push_pair(ps, key, vs[i].clone());
                i = i + 1;
                assert(pairs_view(ps@) =~= start + Seq::new(i as nat, |j: int| (key@, vs@[j]@)));
            }
        },
        None => {},
    }
    assert(pairs_view(final(ps)@) =~= pairs_view(old(ps)@) + list_field(key@, *v));
}

/// Joins the parameters as `key=value` items separated by `&`, each value written under its
/// encoding.
pub fn query_string(params: &Vec<Param>) -> (r: String)
    ensures
        r@ == joined(params_view(params@)),
{
    let mut out = String::new();
    let mut i: usize = 0;
    while i < params.len()
        invariant
            i <= params@.len(),
            out@ == joined(params_view(params@.subrange(0, i as int))),
        decreases params@.len() - i,
    {
        let ghost prev = out@;
        if i > 0 {
            out.append("&");
        }
        out.append(params[i].0.as_str());
        out.append("=");
        let value = encode_value(params[i].1.as_str(), params[i].2);
        out.append(value.as_str());
        proof {
            reveal_strlit("&");
            reveal_strlit("=");
            let front = params_view(params@.subrange(0, i as int));
            let next = params_view(params@.subrange(0, i + 1));
            assert(next.drop_last() =~= front);
            assert(next.last() == (params@[i as int].0@, params@[i as int].1@, params@[i as int].2));
            if i == 0 {
                assert(out@ =~= item_text(next[0]));
            } else {
                assert(out@ =~= prev + seq!['&'] + item_text(next.last()));
            }
        }
        i = i + 1;
    }
    assert(params@.subrange(0, params@.len() as int) =~= params@);
    out
}

/// A path followed by its query string, if there are any parameters.
pub fn with_query(path: &str, params: &Vec<Param>) -> (r: String)
    ensures
        r@ == path@ + query_suffix(params_view(params@)),
{
    let mut out = String::from_str(path);
    if params.len() > 0 {
        out.append("?");
        let q = query_string(params);
        out.append(q.as_str());
        proof {
            reveal_strlit("?");
        }
        assert(out@ =~= path@ + query_suffix(params_view(params@)));
    } else {
        assert(params_view(params@).len() == 0);
        assert(out@ =~= path@ + query_suffix(params_view(params@)));
    }
    out
}

} // verus!
