//! Canonical JSON: compact text with object keys in sorted order, and its
//! SHA-256 hash, so that equal payloads hash equally whatever their key
//! order.
use vstd::prelude::*;
use sha2::Digest;
use vstd::utf8::encode_utf8;

use crate::json::{json_quote, quote};
use crate::text::{owned, push_char};

verus! {

/// A JSON value. A number holds the text `serde_json` writes for it.
#[derive(Debug)]
pub enum JsonValue {
    Null,
    Bool(bool),
    Number(String),
    String(String),
    Array(Vec<JsonValue>),
    Object(Vec<(String, JsonValue)>),
}

#[derive(Debug, Clone, Copy, PartialEq, Eq, Structural)]
pub enum CanonicalError {
    NonFiniteNumber,
}

/// `a` sorts before `b`: code-point lexicographic order, the order of
/// Rust's `String` comparison.
pub open spec fn key_less(a: Seq<char>, b: Seq<char>) -> bool
    decreases a.len(),
{
    if a.len() == 0 {
        b.len() > 0
    } else if b.len() == 0 {
        false
    } else if a[0] != b[0] {
        (a[0] as u32) < (b[0] as u32)
    } else {
        key_less(a.drop_first(), b.drop_first())
    }
}

/// Inserts `p` into a key-sorted list: after every smaller key, replacing
/// the value of an equal key (a map keeps one entry per key, the last one
/// inserted).
pub open spec fn insert_pair(sorted: Seq<(Seq<char>, Seq<char>)>, p: (Seq<char>, Seq<char>)) -> Seq<
    (Seq<char>, Seq<char>),
>
    decreases sorted.len(),
{
    if sorted.len() == 0 {
        seq![p]
    } else if sorted.last().0 == p.0 {
        sorted.drop_last().push(p)
    } else if key_less(p.0, sorted.last().0) {
        insert_pair(sorted.drop_last(), p).push(sorted.last())
    } else {
        sorted.push(p)
    }
}

/// The pairs as a sorted map would hold them.
pub open spec fn sort_pairs(s: Seq<(Seq<char>, Seq<char>)>) -> Seq<(Seq<char>, Seq<char>)>
    decreases s.len(),
{
    if s.len() == 0 {
        Seq::empty()
    } else {
        insert_pair(sort_pairs(s.drop_last()), s.last())
    }
}

/// Texts joined with `,`.
pub open spec fn join_commas(items: Seq<Seq<char>>) -> Seq<char>
    decreases items.len(),
{
    if items.len() == 0 {
        Seq::empty()
    } else if items.len() == 1 {
        items[0]
    } else {
        join_commas(items.drop_last()) + seq![','] + items.last()
    }
}

/// `"key":value` for each pair.
pub open spec fn member_texts(pairs: Seq<(Seq<char>, Seq<char>)>) -> Seq<Seq<char>> {
    pairs.map_values(|p: (Seq<char>, Seq<char>)| json_quote(p.0) + seq![':'] + p.1)
}

pub open spec fn null_text() -> Seq<char> {
    seq!['n', 'u', 'l', 'l']
}

pub open spec fn true_text() -> Seq<char> {
    seq!['t', 'r', 'u', 'e']
}

pub open spec fn false_text() -> Seq<char> {
    seq!['f', 'a', 'l', 's', 'e']
}

/// The canonical text of a value.
pub open spec fn canonical_text(v: JsonValue) -> Seq<char>
    decreases v, 1int,
{
    match v {
        JsonValue::Null => null_text(),
        JsonValue::Bool(b) => if b {
            true_text()
        } else {
            false_text()
        },
        JsonValue::Number(t) => t@,
        JsonValue::String(s) => json_quote(s@),
        JsonValue::Array(items) => seq!['['] + join_commas(item_texts(items@)) + seq![']'],
        JsonValue::Object(fields) => seq!['{'] + join_commas(
            member_texts(sort_pairs(field_texts(fields@))),
        ) + seq!['}'],
    }
}

/// The canonical text of each element.
pub open spec fn item_texts(items: Seq<JsonValue>) -> Seq<Seq<char>>
    decreases items, 0int,
{
    if items.len() == 0 {
        Seq::empty()
    } else {
        item_texts(items.drop_last()).push(canonical_text(items.last()))
    }
}

/// Each field's key with the canonical text of its value, in input order.
pub open spec fn field_texts(fields: Seq<(String, JsonValue)>) -> Seq<(Seq<char>, Seq<char>)>
    decreases fields, 0int,
{
    if fields.len() == 0 {
        Seq::empty()
    } else {
        field_texts(fields.drop_last()).push(
            (fields.last().0@, canonical_text(fields.last().1)),
        )
    }
}

fn key_less_exec(a: &str, b: &str) -> (r: bool)
    ensures
        r == key_less(a@, b@),
{
    let n = a.unicode_len();
    let m = b.unicode_len();
    let mut i: usize = 0;
    assert(a@.subrange(0, n as int) =~= a@);
    assert(b@.subrange(0, m as int) =~= b@);
    while i < n && i < m && a.get_char(i) == b.get_char(i)
        invariant
            n == a@.len(),
            m == b@.len(),
            i <= n,
            i <= m,
            key_less(a@, b@) == key_less(a@.subrange(i as int, n as int), b@.subrange(i as int, m as int)),
        decreases n - i,
    {
        proof {
            let x = a@.subrange(i as int, n as int);
            let y = b@.subrange(i as int, m as int);
            assert(x.drop_first() =~= a@.subrange(i + 1, n as int));
            assert(y.drop_first() =~= b@.subrange(i + 1, m as int));
        }
        i = i + 1;
    }
    proof {
        assert(a@.subrange(0, n as int) =~= a@);
        assert(b@.subrange(0, m as int) =~= b@);
    }
    if i == n {
        i < m
    } else if i == m {
        false
    } else {
        (a.get_char(i) as u32) < (b.get_char(i) as u32)
    }
}

pub open spec fn pairs_view(v: Seq<(String, String)>) -> Seq<(Seq<char>, Seq<char>)> {
    v.map_values(|p: (String, String)| (p.0@, p.1@))
}

fn insert_sorted(sorted: Vec<(String, String)>, p: (String, String)) -> (r: Vec<(String, String)>)
    ensures
        pairs_view(r@) == insert_pair(pairs_view(sorted@), (p.0@, p.1@)),
    decreases sorted@.len(),
{
    let ghost orig = sorted@;
    let ghost pv = (p.0@, p.1@);
    let mut rest = sorted;
    match rest.pop() {
        None => {
            let mut r: Vec<(String, String)> = Vec::new();
            r.push(p);
            assert(pairs_view(r@) =~= seq![pv]);
            r
        },
        Some(last) => {
            let ghost rv = rest@;
            let ghost lv = (last.0@, last.1@);
            proof {
                assert(pairs_view(orig).drop_last() =~= pairs_view(rv));
                assert(pairs_view(orig).last() == lv);
            }
            if crate::text::str_eq(last.0.as_str(), p.0.as_str()) {
                rest.push(p);
                assert(pairs_view(rest@) =~= pairs_view(rv).push(pv));
                rest
            } else if key_less_exec(p.0.as_str(), last.0.as_str()) {
                let mut r = insert_sorted(rest, p);
                let ghost before = r@;
                r.push(last);
                assert(pairs_view(r@) =~= pairs_view(before).push(lv));
                r
            } else {
                rest.push(last);
                rest.push(p);
                assert(pairs_view(rest@) =~= pairs_view(orig).push(pv));
                rest
            }
        },
    }
}

fn join_with_commas(items: &Vec<String>) -> (r: String)
    ensures
        r@ == join_commas(items@.map_values(|s: String| s@)),
{
    let ghost views = items@.map_values(|s: String| s@);
    let mut out = String::new();
    let mut i: usize = 0;
    while i < items.len()
        invariant
            i <= items.len(),
            views == items@.map_values(|s: String| s@),
            out@ == join_commas(views.subrange(0, i as int)),
        decreases items.len() - i,
    {
        proof {
            assert(views.subrange(0, i + 1).drop_last() =~= views.subrange(0, i as int));
        }
        if i > 0 {
            push_char(&mut out, ',');
        }
        out.append(items[i].as_str());
        proof {
            if i == 0 {
                assert(out@ =~= join_commas(views.subrange(0, i + 1)));
            } else {
                assert(out@ =~= join_commas(views.subrange(0, i + 1)));
            }
        }
        i = i + 1;
    }
    assert(views.subrange(0, items.len() as int) =~= views);
    out
}

fn literal(text: &str) -> (r: String)
    ensures
        r@ == text@,
{
    owned(text)
}

/// The canonical text of `value`; see `canonical_text`.
fn write_canonical(value: &JsonValue) -> (r: String)
    ensures
        r@ == canonical_text(*value),
    decreases value,
{
    match value {
        JsonValue::Null => {
            let r = literal("null");
            proof {
                reveal_strlit("null");
            }
            assert(r@ =~= null_text());
            r
        },
        JsonValue::Bool(b) => {
            if *b {
                let r = literal("true");
                proof {
                    reveal_strlit("true");
                }
                assert(r@ =~= true_text());
                r
            } else {
                let r = literal("false");
                proof {
                    reveal_strlit("false");
                }
                assert(r@ =~= false_text());
                r
            }
        },
        JsonValue::Number(t) => t.clone(),
        JsonValue::String(s) => quote(s.as_str()),
        JsonValue::Array(items) => {
            let mut texts: Vec<String> = Vec::new();
            let mut i: usize = 0;
            while i < items.len()
                invariant
                    i <= items.len(),
                    *value == JsonValue::Array(*items),
                    texts@.map_values(|s: String| s@) == item_texts(items@.subrange(0, i as int)),
                decreases items.len() - i,
            {
                proof {
                    assert(items@.subrange(0, i + 1).drop_last() =~= items@.subrange(0, i as int));
                    assert(decreases_to!(items@ => items@[i as int]));
                    assert(decreases_to!(*items => items@));
                    let ghost whole = *value;
                    assert(whole matches JsonValue::Array(v) && v == *items);
                    assert(decreases_to!(whole => whole->Array_0));
                }
                let t = write_canonical(&items[i]);
                let ghost before = texts@;
                texts.push(t);
                proof {
                    assert(texts@.map_values(|s: String| s@) =~= before.map_values(|s: String| s@).push(t@));
                }
                i = i + 1;
            }
            assert(items@.subrange(0, items.len() as int) =~= items@);
            let body = join_with_commas(&texts);
            let mut r = String::new();
            push_char(&mut r, '[');
            r.append(body.as_str());
            push_char(&mut r, ']');
            assert(r@ =~= seq!['['] + join_commas(item_texts(items@)) + seq![']']);
            r
        },
        JsonValue::Object(fields) => {
            let mut pairs: Vec<(String, String)> = Vec::new();
            let mut i: usize = 0;
            while i < fields.len()
                invariant
                    i <= fields.len(),
                    *value == JsonValue::Object(*fields),
                    pairs_view(pairs@) == field_texts(fields@.subrange(0, i as int)),
                decreases fields.len() - i,
            {
                proof {
                    assert(fields@.subrange(0, i + 1).drop_last() =~= fields@.subrange(0, i as int));
                    assert(decreases_to!(fields@[i as int] => fields@[i as int].1));
                    assert(decreases_to!(fields@ => fields@[i as int]));
                    assert(decreases_to!(*fields => fields@));
                    let ghost whole = *value;
                    assert(whole matches JsonValue::Object(v) && v == *fields);
                    assert(decreases_to!(whole => whole->Object_0));
                }
                let t = write_canonical(&fields[i].1);
                let k = fields[i].0.clone();
                let ghost before = pairs@;
                let ghost pv = (k@, t@);
                pairs.push((k, t));
                proof {
                    assert(pairs_view(pairs@) =~= pairs_view(before).push(pv));
                }
                i = i + 1;
            }
            assert(fields@.subrange(0, fields.len() as int) =~= fields@);
            let mut sorted: Vec<(String, String)> = Vec::new();
            let mut j: usize = 0;
            let ghost all = pairs_view(pairs@);
            while j < pairs.len()
                invariant
                    j <= pairs.len(),
                    all == pairs_view(pairs@),
                    pairs_view(sorted@) == sort_pairs(all.subrange(0, j as int)),
                decreases pairs.len() - j,
            {
                proof {
                    assert(all.subrange(0, j + 1).drop_last() =~= all.subrange(0, j as int));
                }
                let p = (pairs[j].0.clone(), pairs[j].1.clone());
                sorted = insert_sorted(sorted, p);
                j = j + 1;
            }
            assert(all.subrange(0, pairs.len() as int) =~= all);
            let mut members: Vec<String> = Vec::new();
            let mut m: usize = 0;
            while m < sorted.len()
                invariant
                    m <= sorted.len(),
                    members@.len() == m,
                    forall|x: int|
                        0 <= x < m ==> #[trigger] members@[x]@ == member_texts(pairs_view(sorted@))[x],
                decreases sorted.len() - m,
            {
                let mut t = quote(sorted[m].0.as_str());
                push_char(&mut t, ':');
                t.append(sorted[m].1.as_str());
                members.push(t);
                m = m + 1;
            }
            assert(members@.map_values(|s: String| s@) =~= member_texts(pairs_view(sorted@)));
            let body = join_with_commas(&members);
            let mut r = String::new();
            push_char(&mut r, '{');
            r.append(body.as_str());
            push_char(&mut r, '}');
            assert(r@ =~= seq!['{'] + join_commas(member_texts(sort_pairs(field_texts(fields@))))
                + seq!['}']);
            r
        },
    }
}

/// The canonical JSON text of `value`. Every value has one, since numbers
/// are held as finite `serde_json` text.
pub fn canonical_json(value: &JsonValue) -> (r: Result<String, CanonicalError>)
    ensures
        r matches Ok(text) && text@ == canonical_text(*value),
{
    Ok(write_canonical(value))
}

/// The SHA-256 digest of `data` as `sha2` computes it.
pub uninterp spec fn sha256_digest(data: Seq<u8>) -> Seq<u8>;

/// `sha2::Sha256::digest`: the digest bytes of `data`.
#[verifier::external_body]
fn sha256(data: &[u8]) -> (r: Vec<u8>)
    ensures
        r@ == sha256_digest(data@),
{
    sha2::Sha256::digest(data).to_vec()
}

/// A lower-case hexadecimal digit, for `n` below 16.
pub open spec fn hex_digit(n: int) -> char {
    if n < 10 {
        (48 + n) as char
    } else {
        (87 + n) as char
    }
}

/// Lower-case hexadecimal, two digits per byte.
pub open spec fn hex_lower(bytes: Seq<u8>) -> Seq<char>
    decreases bytes.len(),
{
    if bytes.len() == 0 {
        Seq::empty()
    } else {
        hex_lower(bytes.drop_last()) + seq![
            hex_digit((bytes.last() / 16) as int),
            hex_digit((bytes.last() % 16) as int),
        ]
    }
}

fn hex_char(n: u8) -> (c: char)
    requires
        n < 16,
    ensures
        c == hex_digit(n as int),
{
    if n < 10 {
        (n + 48) as char
    } else {
        (n + 87) as char
    }
}

fn write_hex(bytes: &Vec<u8>) -> (r: String)
    ensures
        r@ == hex_lower(bytes@),
{
    let mut out = String::new();
    let mut i: usize = 0;
    while i < bytes.len()
        invariant
            i <= bytes.len(),
            out@ == hex_lower(bytes@.subrange(0, i as int)),
        decreases bytes.len() - i,
    {
        proof {
            assert(bytes@.subrange(0, i + 1).drop_last() =~= bytes@.subrange(0, i as int));
        }
        let b = bytes[i];
        push_char(&mut out, hex_char(b / 16));
        push_char(&mut out, hex_char(b % 16));
        assert(out@ =~= hex_lower(bytes@.subrange(0, i + 1)));
        i = i + 1;
    }
    assert(bytes@.subrange(0, bytes.len() as int) =~= bytes@);
    out
}

/// `sha256:` followed by the lower-case hex SHA-256 of the canonical text's
/// UTF-8 bytes.
pub fn canonical_hash(value: &JsonValue) -> (r: Result<String, CanonicalError>)
    ensures
        r matches Ok(h) && h@ == "sha256:"@ + hex_lower(sha256_digest(encode_utf8(canonical_text(*value)))),
{
    let text = match canonical_json(value) {
        Ok(t) => t,
        Err(e) => {
            return Err(e);
        },
    };
    let digest = sha256(text.as_str().as_bytes());
    let hex = write_hex(&digest);
    let mut out = owned("sha256:");
    out.append(hex.as_str());
    Ok(out)
}

/// `a` sorts before `b` or equals it.
pub open spec fn key_leq(a: Seq<char>, b: Seq<char>) -> bool {
    key_less(a, b) || a == b
}

proof fn lemma_key_less_irreflexive(a: Seq<char>)
    ensures
        !key_less(a, a),
    decreases a.len(),
{
    if a.len() > 0 {
        lemma_key_less_irreflexive(a.drop_first());
    }
}

proof fn lemma_key_less_transitive(a: Seq<char>, b: Seq<char>, c: Seq<char>)
    requires
        key_less(a, b),
        key_less(b, c),
    ensures
        key_less(a, c),
    decreases a.len(),
{
    if a.len() > 0 && b.len() > 0 && c.len() > 0 && a[0] == b[0] && b[0] == c[0] {
        lemma_key_less_transitive(a.drop_first(), b.drop_first(), c.drop_first());
    }
}

proof fn lemma_key_less_total(a: Seq<char>, b: Seq<char>)
    requires
        a != b,
    ensures
        key_less(a, b) || key_less(b, a),
    decreases a.len(),
{
    if a.len() > 0 && b.len() > 0 && a[0] == b[0] {
        if a.drop_first() == b.drop_first() {
            assert(a =~= seq![a[0]] + a.drop_first());
            assert(b =~= seq![b[0]] + b.drop_first());
        }
        lemma_key_less_total(a.drop_first(), b.drop_first());
    } else if a.len() > 0 && b.len() > 0 {
        vstd::utf8::char_u32_cast(a[0], a[0] as u32);
        vstd::utf8::char_u32_cast(b[0], b[0] as u32);
    } else if a.len() == 0 && b.len() == 0 {
        assert(a =~= b);
    }
}

proof fn lemma_key_less_asymmetric(a: Seq<char>, b: Seq<char>)
    requires
        key_less(a, b),
    ensures
        !key_less(b, a),
{
    if key_less(b, a) {
        lemma_key_less_transitive(a, b, a);
        lemma_key_less_irreflexive(a);
    }
}

/// Pairs ordered by key, then by value.
pub open spec fn pair_leq(x: (Seq<char>, Seq<char>), y: (Seq<char>, Seq<char>)) -> bool {
    key_less(x.0, y.0) || (x.0 == y.0 && key_leq(x.1, y.1))
}

proof fn lemma_pair_leq_total_ordering()
    ensures
        vstd::relations::total_ordering(|x: (Seq<char>, Seq<char>), y: (Seq<char>, Seq<char>)| pair_leq(x, y)),
{
    let leq = |x: (Seq<char>, Seq<char>), y: (Seq<char>, Seq<char>)| pair_leq(x, y);
    assert forall|x: (Seq<char>, Seq<char>)| #[trigger] leq(x, x) by {}
    assert forall|x: (Seq<char>, Seq<char>), y: (Seq<char>, Seq<char>)|
        #[trigger] leq(x, y) && #[trigger] leq(y, x) implies x == y by {
        if key_less(x.0, y.0) {
            lemma_key_less_asymmetric(x.0, y.0);
            lemma_key_less_irreflexive(x.0);
        } else if key_less(y.0, x.0) {
            lemma_key_less_irreflexive(x.0);
        } else if key_less(x.1, y.1) {
            lemma_key_less_asymmetric(x.1, y.1);
            lemma_key_less_irreflexive(x.1);
        } else if key_less(y.1, x.1) {
            lemma_key_less_irreflexive(x.1);
        }
    }
    assert forall|x: (Seq<char>, Seq<char>), y: (Seq<char>, Seq<char>), z: (Seq<char>, Seq<char>)|
        #[trigger] leq(x, y) && #[trigger] leq(y, z) implies leq(x, z) by {
        if key_less(x.0, y.0) && key_less(y.0, z.0) {
            lemma_key_less_transitive(x.0, y.0, z.0);
        } else if key_less(x.1, y.1) && key_less(y.1, z.1) {
            lemma_key_less_transitive(x.1, y.1, z.1);
        }
    }
    assert forall|x: (Seq<char>, Seq<char>), y: (Seq<char>, Seq<char>)|
        #[trigger] leq(x, y) || #[trigger] leq(y, x) by {
        if x.0 != y.0 {
            lemma_key_less_total(x.0, y.0);
        } else if x.1 != y.1 {
            lemma_key_less_total(x.1, y.1);
        }
    }
}

/// Keys strictly increase along `s`.
pub open spec fn strictly_sorted(s: Seq<(Seq<char>, Seq<char>)>) -> bool {
    forall|i: int, j: int| 0 <= i < j < s.len() ==> key_less(#[trigger] s[i].0, #[trigger] s[j].0)
}

/// No two pairs of `s` share a key.
pub open spec fn distinct_keys(s: Seq<(Seq<char>, Seq<char>)>) -> bool {
    forall|i: int, j: int| 0 <= i < j < s.len() ==> #[trigger] s[i].0 != #[trigger] s[j].0
}

proof fn lemma_insert_pair_sorted(sorted: Seq<(Seq<char>, Seq<char>)>, p: (Seq<char>, Seq<char>))
    requires
        strictly_sorted(sorted),
        forall|k: int| 0 <= k < sorted.len() ==> #[trigger] sorted[k].0 != p.0,
    ensures
        strictly_sorted(insert_pair(sorted, p)),
        insert_pair(sorted, p).to_multiset() == sorted.to_multiset().insert(p),
    decreases sorted.len(),
{
    broadcast use vstd::seq_lib::group_to_multiset_ensures;
    broadcast use vstd::multiset::group_multiset_axioms;

    if sorted.len() == 0 {
        assert(seq![p] =~= Seq::<(Seq<char>, Seq<char>)>::empty().push(p));
        assert(sorted =~= Seq::<(Seq<char>, Seq<char>)>::empty());
    } else {
        let last = sorted.last();
        let prefix = sorted.drop_last();
        assert(sorted =~= prefix.push(last));
        assert(last.0 != p.0);
        if key_less(p.0, last.0) {
            assert forall|k: int| 0 <= k < prefix.len() implies #[trigger] prefix[k].0 != p.0 by {
                assert(prefix[k] == sorted[k]);
            }
            lemma_insert_pair_sorted(prefix, p);
            let r = insert_pair(prefix, p);
            assert forall|i: int| 0 <= i < r.len() implies key_less(#[trigger] r[i].0, last.0) by {
                assert(r.to_multiset().contains(r[i]));
                if r[i] != p {
                    assert(prefix.to_multiset().contains(r[i]));
                    let k = choose|k: int| 0 <= k < prefix.len() && prefix[k] == r[i];
                    assert(sorted[k] == prefix[k]);
                    assert(key_less(sorted[k].0, sorted[sorted.len() - 1].0));
                }
            }
            let out = r.push(last);
            assert forall|i: int, j: int| 0 <= i < j < out.len() implies key_less(
                #[trigger] out[i].0,
                #[trigger] out[j].0,
            ) by {
                if j == out.len() - 1 {
                    assert(out[i] == r[i]);
                } else {
                    assert(out[i] == r[i] && out[j] == r[j]);
                }
            }
            assert(out.to_multiset() =~= sorted.to_multiset().insert(p));
        } else {
            lemma_key_less_total(p.0, last.0);
            let out = sorted.push(p);
            assert forall|i: int, j: int| 0 <= i < j < out.len() implies key_less(
                #[trigger] out[i].0,
                #[trigger] out[j].0,
            ) by {
                if j == out.len() - 1 {
                    if i < sorted.len() - 1 {
                        assert(key_less(sorted[i].0, sorted[sorted.len() - 1].0));
                        lemma_key_less_transitive(sorted[i].0, last.0, p.0);
                    }
                } else {
                    assert(out[i] == sorted[i] && out[j] == sorted[j]);
                }
            }
        }
    }
}

proof fn lemma_sort_pairs_sorted(s: Seq<(Seq<char>, Seq<char>)>)
    requires
        distinct_keys(s),
    ensures
        strictly_sorted(sort_pairs(s)),
        sort_pairs(s).to_multiset() == s.to_multiset(),
    decreases s.len(),
{
    broadcast use vstd::seq_lib::group_to_multiset_ensures;
    broadcast use vstd::multiset::group_multiset_axioms;

    if s.len() == 0 {
        assert(sort_pairs(s).to_multiset() =~= s.to_multiset());
    } else {
        let prefix = s.drop_last();
        assert(s =~= prefix.push(s.last()));
        assert forall|i: int, j: int| 0 <= i < j < prefix.len() implies #[trigger] prefix[i].0
            != #[trigger] prefix[j].0 by {
            assert(prefix[i] == s[i] && prefix[j] == s[j]);
        }
        lemma_sort_pairs_sorted(prefix);
        let sorted = sort_pairs(prefix);
        assert forall|k: int| 0 <= k < sorted.len() implies #[trigger] sorted[k].0 != s.last().0 by {
            assert(sorted.to_multiset().contains(sorted[k]));
            assert(prefix.to_multiset().contains(sorted[k]));
            let j = choose|j: int| 0 <= j < prefix.len() && prefix[j] == sorted[k];
            assert(prefix[j] == s[j]);
            assert(s[j].0 != s[s.len() - 1].0);
        }
        lemma_insert_pair_sorted(sorted, s.last());
    }
}

/// Two lists of pairs with distinct keys and the same members sort to the
/// same list.
proof fn lemma_sort_pairs_permutation(s: Seq<(Seq<char>, Seq<char>)>, t: Seq<(Seq<char>, Seq<char>)>)
    requires
        distinct_keys(s),
        distinct_keys(t),
        s.to_multiset() == t.to_multiset(),
    ensures
        sort_pairs(s) == sort_pairs(t),
{
    lemma_sort_pairs_sorted(s);
    lemma_sort_pairs_sorted(t);
    lemma_pair_leq_total_ordering();
    let leq = |x: (Seq<char>, Seq<char>), y: (Seq<char>, Seq<char>)| pair_leq(x, y);
    let a = sort_pairs(s);
    let b = sort_pairs(t);
    assert forall|i: int, j: int| 0 <= i < j < a.len() implies #[trigger] leq(a[i], a[j]) by {
        assert(key_less(a[i].0, a[j].0));
    }
    assert forall|i: int, j: int| 0 <= i < j < b.len() implies #[trigger] leq(b[i], b[j]) by {
        assert(key_less(b[i].0, b[j].0));
    }
    vstd::seq_lib::lemma_sorted_unique(a, b, leq);
}

proof fn lemma_field_texts_index(fields: Seq<(String, JsonValue)>, i: int)
    requires
        0 <= i < fields.len(),
    ensures
        field_texts(fields).len() == fields.len(),
        field_texts(fields)[i] == (fields[i].0@, canonical_text(fields[i].1)),
    decreases fields.len(),
{
    lemma_field_texts_len(fields);
    if i < fields.len() - 1 {
        lemma_field_texts_index(fields.drop_last(), i);
    }
}

proof fn lemma_field_texts_len(fields: Seq<(String, JsonValue)>)
    ensures
        field_texts(fields).len() == fields.len(),
    decreases fields.len(),
{
    if fields.len() > 0 {
        lemma_field_texts_len(fields.drop_last());
    }
}

/// The order of an object's members does not change its canonical text:
/// two objects whose keys are distinct and whose members (each key with
/// its value's canonical text) are the same, in any order, have the same
/// canonical text, hence the same canonical hash.
pub proof fn lemma_member_order_irrelevant(a: JsonValue, b: JsonValue)
    requires
        a matches JsonValue::Object(fa) && b matches JsonValue::Object(fb)
            && distinct_keys(field_texts(fa@)) && distinct_keys(field_texts(fb@))
            && field_texts(fa@).to_multiset() == field_texts(fb@).to_multiset(),
    ensures
        canonical_text(a) == canonical_text(b),
{
    match (a, b) {
        (JsonValue::Object(fa), JsonValue::Object(fb)) => {
            lemma_sort_pairs_permutation(field_texts(fa@), field_texts(fb@));
        },
        _ => {},
    }
}

/// The texts of an array's items keep the items' order: there is one text
/// per item, and text `i` is the canonical text of item `i`.
pub proof fn lemma_item_texts_keep_order(items: Seq<JsonValue>)
    ensures
        item_texts(items).len() == items.len(),
        forall|i: int| 0 <= i < items.len() ==> #[trigger] item_texts(items)[i] == canonical_text(
            items[i],
        ),
    decreases items.len(),
{
    if items.len() > 0 {
        lemma_item_texts_keep_order(items.drop_last());
        assert forall|i: int| 0 <= i < items.len() implies #[trigger] item_texts(items)[i]
            == canonical_text(items[i]) by {
            if i < items.len() - 1 {
                assert(items.drop_last()[i] == items[i]);
            }
        }
    }
}

/// Joining with commas: nothing gives nothing, one text gives itself, and
/// one more text at the end adds a comma and that text.
pub proof fn lemma_join_commas_appends(texts: Seq<Seq<char>>, t: Seq<char>)
    ensures
        join_commas(Seq::<Seq<char>>::empty()) == Seq::<char>::empty(),
        join_commas(seq![t]) == t,
        texts.len() > 0 ==> join_commas(texts.push(t)) == join_commas(texts) + seq![','] + t,
{
    assert(texts.push(t).drop_last() =~= texts);
}

/// Arrays are written in their items' order: an empty array is `[]`, a
/// one-item array is `[` + the item's text + `]`, and appending an item to
/// a non-empty array replaces the closing `]` with `,` + the new item's
/// text + `]`.
pub proof fn lemma_array_text_appends(a: JsonValue, b: JsonValue, x: JsonValue)
    requires
        a is Array,
        b is Array,
    ensures
        a->Array_0@.len() == 0 ==> canonical_text(a) == seq!['[', ']'],
        a->Array_0@ == seq![x] ==> canonical_text(a) == seq!['['] + canonical_text(x) + seq![']'],
        a->Array_0@.len() > 0 && b->Array_0@ == a->Array_0@.push(x) ==> canonical_text(b)
            == canonical_text(a).drop_last() + seq![','] + canonical_text(x) + seq![']'],
{
    let items = a->Array_0@;
    if items.len() == 0 {
        assert(item_texts(items) =~= Seq::<Seq<char>>::empty());
        assert(canonical_text(a) =~= seq!['[', ']']);
    }
    if items == seq![x] {
        assert(items.drop_last() =~= Seq::<JsonValue>::empty());
        assert(item_texts(items.drop_last()) =~= Seq::<Seq<char>>::empty());
        assert(items.last() == x);
        assert(item_texts(items) =~= seq![canonical_text(x)]);
    }
    if items.len() > 0 && b->Array_0@ == items.push(x) {
        let bi = b->Array_0@;
        assert(bi.drop_last() =~= items);
        assert(bi.last() == x);
        let ts = item_texts(items);
        lemma_item_texts_keep_order(items);
        assert(item_texts(bi) == ts.push(canonical_text(x)));
        assert(ts.push(canonical_text(x)).drop_last() =~= ts);
        assert(join_commas(ts.push(canonical_text(x))) == join_commas(ts) + seq![','] + canonical_text(x));
        let ca = seq!['['] + join_commas(ts) + seq![']'];
        assert(canonical_text(a) == ca);
        assert(ca.drop_last() =~= seq!['['] + join_commas(ts));
        assert(canonical_text(b) =~= canonical_text(a).drop_last() + seq![','] + canonical_text(x)
            + seq![']']);
    }
}

/// Where two keys first differ: `a` comes first when it is a proper
/// prefix of `b`, or when at the first position where they differ its
/// character has the smaller code point.
pub open spec fn first_difference_orders(a: Seq<char>, b: Seq<char>, k: int) -> bool {
    &&& 0 <= k <= a.len()
    &&& k <= b.len()
    &&& a.subrange(0, k) == b.subrange(0, k)
    &&& (k == a.len() && k < b.len()) || (k < a.len() && k < b.len() && (a[k] as u32) < (
        b[k] as u32))
}

/// Keys are ordered by code point, position by position, a proper prefix
/// first: `a` sorts before `b` exactly when some position `k` has equal
/// characters before it and either ends `a` (but not `b`) or holds a
/// smaller character in `a` than in `b`.
pub proof fn lemma_key_order(a: Seq<char>, b: Seq<char>)
    ensures
        key_less(a, b) <==> exists|k: int| first_difference_orders(a, b, k),
    decreases a.len(),
{
    assert(a.subrange(0, 0) =~= b.subrange(0, 0));
    if a.len() == 0 {
        if b.len() > 0 {
            assert(first_difference_orders(a, b, 0));
        }
    } else if b.len() == 0 {
        assert forall|k: int| !first_difference_orders(a, b, k) by {}
    } else if a[0] != b[0] {
        if (a[0] as u32) < (b[0] as u32) {
            assert(first_difference_orders(a, b, 0));
        }
        assert forall|k: int| first_difference_orders(a, b, k) implies k == 0 by {
            if k > 0 {
                assert(a.subrange(0, k)[0] == b.subrange(0, k)[0]);
            }
        }
    } else {
        let a1 = a.drop_first();
        let b1 = b.drop_first();
        lemma_key_order(a1, b1);
        if key_less(a1, b1) {
            let k1 = choose|k: int| first_difference_orders(a1, b1, k);
            assert(a.subrange(0, k1 + 1) =~= seq![a[0]] + a1.subrange(0, k1));
            assert(b.subrange(0, k1 + 1) =~= seq![b[0]] + b1.subrange(0, k1));
            assert(first_difference_orders(a, b, k1 + 1));
        }
        assert forall|k: int| first_difference_orders(a, b, k) implies first_difference_orders(
            a1,
            b1,
            k - 1,
        ) by {
            if k == 0 {
                assert(a[0] == b[0]);
            } else {
                assert(a1.subrange(0, k - 1) =~= a.subrange(0, k).drop_first());
                assert(b1.subrange(0, k - 1) =~= b.subrange(0, k).drop_first());
                if k < a.len() && k < b.len() {
                    assert(a1[k - 1] == a[k]);
                    assert(b1[k - 1] == b[k]);
                }
            }
        }
    }
}

/// Objects are written with each member once, in increasing key order: the
/// canonical text of an object whose keys are distinct lists some
/// rearrangement of its members, `"key":value` joined by commas inside
/// braces, whose keys strictly increase.
pub proof fn lemma_object_members_sorted(a: JsonValue)
    requires
        a is Object,
        distinct_keys(field_texts(a->Object_0@)),
    ensures
        exists|s: Seq<(Seq<char>, Seq<char>)>|
            #![trigger strictly_sorted(s)]
            s.to_multiset() == field_texts(a->Object_0@).to_multiset() && strictly_sorted(s)
                && canonical_text(a) == seq!['{'] + join_commas(member_texts(s)) + seq!['}'],
{
    let f = field_texts(a->Object_0@);
    lemma_sort_pairs_sorted(f);
    let s = sort_pairs(f);
    assert(strictly_sorted(s));
}

} // verus!
