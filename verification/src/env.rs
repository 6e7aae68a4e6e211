use std::collections::HashMap;

use vstd::prelude::*;

use crate::decimal::digit_char;

verus! {

#[verifier::external_type_specification]
#[verifier::external_body]
pub struct ExJsonError(serde_json::Error);

/// The shape every JSON text of an object has: it opens with `{` and
/// closes with `}`.
pub open spec fn is_json_object_text(s: Seq<char>) -> bool {
    s.len() >= 2 && s[0] == '{' && s[s.len() - 1] == '}'
}

/// The lowercase hexadecimal digit of `d` (`d` below sixteen).
pub open spec fn hex_digit(d: int) -> char {
    if d < 10 {
        digit_char(d as nat)
    } else if d == 10 {
        'a'
    } else if d == 11 {
        'b'
    } else if d == 12 {
        'c'
    } else if d == 13 {
        'd'
    } else if d == 14 {
        'e'
    } else {
        'f'
    }
}

/// How a JSON string writes the character `c`: quote and backslash behind a
/// backslash, the control characters with a short escape where JSON has
/// one and as `\u00XX` otherwise, every other character as itself.
pub open spec fn json_escape_char(c: char) -> Seq<char> {
    if c == '"' {
        seq!['\\', '"']
    } else if c == '\\' {
        seq!['\\', '\\']
    } else if c == '\u{8}' {
        seq!['\\', 'b']
    } else if c == '\t' {
        seq!['\\', 't']
    } else if c == '\n' {
        seq!['\\', 'n']
    } else if c == '\u{c}' {
        seq!['\\', 'f']
    } else if c == '\r' {
        seq!['\\', 'r']
    } else if (c as int) < 0x20 {
        seq!['\\', 'u', '0', '0', hex_digit((c as int) / 16), hex_digit((c as int) % 16)]
    } else {
        seq![c]
    }
}

/// The characters of `s`, each written as a JSON string writes it.
pub open spec fn json_escape(s: Seq<char>) -> Seq<char>
    decreases s.len(),
{
    if s.len() == 0 {
        seq![]
    } else {
        json_escape(s.drop_last()) + json_escape_char(s.last())
    }
}

/// `s` as a JSON string: in double quotes, escaped.
pub open spec fn json_string(s: Seq<char>) -> Seq<char> {
    seq!['"'] + json_escape(s) + seq!['"']
}

/// One member of a JSON object: `"key":"value"`.
pub open spec fn json_member(entry: (String, String)) -> Seq<char> {
    json_string(entry.0@) + seq![':'] + json_string(entry.1@)
}

/// The members, separated by commas.
pub open spec fn json_members(entries: Seq<(String, String)>) -> Seq<char>
    decreases entries.len(),
{
    if entries.len() == 0 {
        seq![]
    } else if entries.len() == 1 {
        json_member(entries[0])
    } else {
        json_members(entries.drop_last()) + seq![','] + json_member(entries.last())
    }
}

/// The JSON object with these members, in this order.
pub open spec fn json_object_text(entries: Seq<(String, String)>) -> Seq<char> {
    seq!['{'] + json_members(entries) + seq!['}']
}

/// `entries` lists every entry of `m` exactly once, in some order.
pub open spec fn lists_entries(m: Map<String, String>, entries: Seq<(String, String)>) -> bool {
    &&& forall|i: int|
        0 <= i < entries.len() ==> m.contains_key(#[trigger] entries[i].0) && m[entries[i].0]
            == entries[i].1
    &&& forall|k: String|
        #[trigger] m.contains_key(k) ==> exists|i: int| 0 <= i < entries.len() && entries[i].0 == k
    &&& forall|i: int, j: int|
        0 <= i < j < entries.len() ==> #[trigger] entries[i].0 != #[trigger] entries[j].0
}

/// `text` is the JSON object of the map `m`, with its entries in some order.
pub open spec fn is_json_of_map(m: Map<String, String>, text: Seq<char>) -> bool {
    exists|entries: Seq<(String, String)>| lists_entries(m, entries) && text == json_object_text(entries)
}

/// `serde_json::to_string` on a map from strings to strings. Its
/// documentation says that serialization fails only where a `Serialize`
/// impl fails or a map has non-string keys, neither of which can happen here,
/// so the result is `Ok`. Its source writes a map as `{`, its entries as
/// `key:value` separated by commas, and `}`; keys and values are written by
/// `format_escaped_str`, whose escape table `json_escape_char` restates. The
/// entries come in the order in which the map is walked, which a per-process
/// hasher seed decides, so only "some order" is stated.
#[verifier::external_body]
fn map_to_json(map: &HashMap<String, String>) -> (r: Result<String, serde_json::Error>)
    ensures
        r is Ok,
        r matches Ok(s) ==> is_json_of_map(map@, s@),
{
    serde_json::to_string(map)
}

/// A JSON string is at least its two quotes long.
proof fn lemma_json_string_len(s: Seq<char>)
    ensures
        json_string(s).len() >= 2,
{
}

/// The members of a non-empty list are not empty.
proof fn lemma_json_members_nonempty(entries: Seq<(String, String)>)
    requires
        entries.len() > 0,
    ensures
        json_members(entries).len() > 0,
{
    lemma_json_string_len(entries.last().0@);
    lemma_json_string_len(entries.last().1@);
}

/// The JSON text of a map is an object text, and is `{}` exactly when the
/// map is empty.
pub proof fn lemma_json_of_map_shape(m: Map<String, String>, text: Seq<char>)
    requires
        is_json_of_map(m, text),
    ensures
        is_json_object_text(text),
        text == "{}"@ <==> m.is_empty(),
{
    reveal_strlit("{}");
    let entries = choose|entries: Seq<(String, String)>|
        lists_entries(m, entries) && text == json_object_text(entries);
    let members = json_members(entries);
    assert(text.len() == members.len() + 2);
    assert(text[0] == '{');
    assert(text[text.len() - 1] == '}');
    if entries.len() == 0 {
        assert(members =~= Seq::<char>::empty());
        assert(text =~= seq!['{', '}']);
        assert(m.dom() =~= Set::<String>::empty()) by {
            assert forall|k: String| !m.contains_key(k) by {
                if m.contains_key(k) {
                    let i = choose|i: int| 0 <= i < entries.len() && entries[i].0 == k;
                }
            }
        }
        assert(m.dom().is_empty());
        assert(text == "{}"@);
    } else {
        lemma_json_members_nonempty(entries);
        assert(text.len() > 2);
        assert(text != "{}"@);
        assert(m.contains_key(entries[0].0));
        assert(!(m.dom() =~= Set::<String>::empty())) by {
            assert(m.dom().contains(entries[0].0));
            assert(!Set::<String>::empty().contains(entries[0].0));
        }
        assert(!m.dom().is_empty());
    }
}

/// A map with a single entry has a single JSON text: `{"key":"value"}`.
pub proof fn law_json_of_single_entry_map(m: Map<String, String>, k: String, text: Seq<char>)
    requires
        m.dom() == set![k],
        is_json_of_map(m, text),
    ensures
        text == json_object_text(seq![(k, m[k])]),
{
    let entries = choose|entries: Seq<(String, String)>|
        lists_entries(m, entries) && text == json_object_text(entries);
    assert(m.contains_key(k));
    let i = choose|i: int| 0 <= i < entries.len() && entries[i].0 == k;
    assert forall|j: int| 0 <= j < entries.len() implies #[trigger] entries[j].0 == k && j == i by {
        assert(m.contains_key(entries[j].0));
        assert(entries[j].0 == k);
        if j < i {
            assert(entries[j].0 != entries[i].0);
        } else if i < j {
            assert(entries[i].0 != entries[j].0);
        }
    }
    assert(entries.len() == 1) by {
        if entries.len() > 1 {
            assert(entries[0].0 == k);
            assert(entries[1].0 == k);
        }
    }
    assert(entries =~= seq![(k, m[k])]);
}

/// The entries as texts: key and value views.
pub open spec fn entries_view(entries: Seq<(String, String)>) -> Seq<(Seq<char>, Seq<char>)> {
    entries.map_values(|e: (String, String)| (e.0@, e.1@))
}

proof fn lemma_escape_char_facts(c: char)
    ensures
        json_escape_char(c).len() >= 1,
        json_escape_char(c)[0] != '"',
        json_escape_char(c)[0] != '\\' ==> json_escape_char(c) == seq![c],
        json_escape_char(c)[0] == '\\' ==> json_escape_char(c).len() >= 2,
{
}

proof fn lemma_hex_digit_injective(a: int, b: int)
    requires
        0 <= a < 16,
        0 <= b < 16,
        hex_digit(a) == hex_digit(b),
    ensures
        a == b,
{
}

/// No escape of one character is a proper beginning of the escape of another.
proof fn lemma_escape_char_prefix_free(c1: char, c2: char, x: Seq<char>, y: Seq<char>)
    requires
        json_escape_char(c1) + x == json_escape_char(c2) + y,
    ensures
        c1 == c2,
{
    let t1 = json_escape_char(c1);
    let t2 = json_escape_char(c2);
    let s = t1 + x;
    lemma_escape_char_facts(c1);
    lemma_escape_char_facts(c2);
    assert(s[0] == t1[0]);
    assert((t2 + y)[0] == t2[0]);
    if t1[0] != '\\' {
        assert(t1 == seq![c1]);
        assert(t2[0] != '\\');
        assert(t2 == seq![c2]);
    } else {
        assert(s[1] == t1[1]);
        assert((t2 + y)[1] == t2[1]);
        if t1[1] == 'u' {
            assert(t1.len() == 6);
            assert(t2.len() == 6);
            assert(s[4] == t1[4]);
            assert((t2 + y)[4] == t2[4]);
            assert(s[5] == t1[5]);
            assert((t2 + y)[5] == t2[5]);
            let i1 = c1 as int;
            let i2 = c2 as int;
            lemma_hex_digit_injective(i1 / 16, i2 / 16);
            lemma_hex_digit_injective(i1 % 16, i2 % 16);
            assert(i1 == i2);
        }
    }
}

/// The escape of a string, read from its first character.
proof fn lemma_escape_front(s: Seq<char>)
    requires
        s.len() > 0,
    ensures
        json_escape(s) == json_escape_char(s[0]) + json_escape(s.drop_first()),
    decreases s.len(),
{
    if s.len() == 1 {
        assert(s.drop_last() =~= Seq::<char>::empty());
        assert(s.drop_first() =~= Seq::<char>::empty());
        assert(json_escape(Seq::<char>::empty()) == Seq::<char>::empty());
        assert(s.last() == s[0]);
        assert(json_escape(s) =~= json_escape_char(s[0]));
        assert(json_escape(s.drop_first()) =~= Seq::<char>::empty());
    } else {
        lemma_escape_front(s.drop_last());
        assert(s.drop_last().drop_first() =~= s.drop_first().drop_last());
        assert(s.drop_first().last() == s.last());
        assert(json_escape(s) =~= json_escape_char(s[0]) + json_escape(s.drop_first()));
    }
}

/// An escaped text followed by a quote can be read back in one way only.
proof fn lemma_escape_then_quote(a: Seq<char>, b: Seq<char>, x: Seq<char>, y: Seq<char>)
    requires
        json_escape(a) + seq!['"'] + x == json_escape(b) + seq!['"'] + y,
    ensures
        a == b,
        x == y,
    decreases a.len(),
{
    let l = json_escape(a) + seq!['"'] + x;
    let r = json_escape(b) + seq!['"'] + y;
    if a.len() == 0 {
        assert(json_escape(a) =~= Seq::<char>::empty());
        assert(l[0] == '"');
        if b.len() > 0 {
            lemma_escape_front(b);
            lemma_escape_char_facts(b[0]);
            assert(r[0] == json_escape_char(b[0])[0]);
        } else {
            assert(json_escape(b) =~= Seq::<char>::empty());
            assert(x =~= l.drop_first());
            assert(y =~= r.drop_first());
            assert(a =~= b);
        }
    } else if b.len() == 0 {
        assert(json_escape(b) =~= Seq::<char>::empty());
        assert(r[0] == '"');
        lemma_escape_front(a);
        lemma_escape_char_facts(a[0]);
        assert(l[0] == json_escape_char(a[0])[0]);
    } else {
        lemma_escape_front(a);
        lemma_escape_front(b);
        let ta = json_escape_char(a[0]);
        let tb = json_escape_char(b[0]);
        let ra = json_escape(a.drop_first()) + seq!['"'] + x;
        let rb = json_escape(b.drop_first()) + seq!['"'] + y;
        assert(l =~= ta + ra);
        assert(r =~= tb + rb);
        lemma_escape_char_prefix_free(a[0], b[0], ra, rb);
        assert(ra =~= l.subrange(ta.len() as int, l.len() as int));
        assert(rb =~= r.subrange(tb.len() as int, r.len() as int));
        lemma_escape_then_quote(a.drop_first(), b.drop_first(), x, y);
        assert(a =~= seq![a[0]] + a.drop_first());
        assert(b =~= seq![b[0]] + b.drop_first());
    }
}

/// A JSON string followed by anything can be read back in one way only.
proof fn lemma_json_string_prefix(a: Seq<char>, b: Seq<char>, x: Seq<char>, y: Seq<char>)
    requires
        json_string(a) + x == json_string(b) + y,
    ensures
        a == b,
        x == y,
{
    let l = json_string(a) + x;
    let r = json_string(b) + y;
    assert(l.drop_first() =~= json_escape(a) + seq!['"'] + x);
    assert(r.drop_first() =~= json_escape(b) + seq!['"'] + y);
    lemma_escape_then_quote(a, b, x, y);
}

/// A member followed by anything can be read back in one way only.
proof fn lemma_json_member_prefix(e1: (String, String), e2: (String, String), x: Seq<char>, y: Seq<char>)
    requires
        json_member(e1) + x == json_member(e2) + y,
    ensures
        e1.0@ == e2.0@,
        e1.1@ == e2.1@,
        x == y,
{
    let x1 = seq![':'] + json_string(e1.1@) + x;
    let y1 = seq![':'] + json_string(e2.1@) + y;
    assert(json_member(e1) + x =~= json_string(e1.0@) + x1);
    assert(json_member(e2) + y =~= json_string(e2.0@) + y1);
    lemma_json_string_prefix(e1.0@, e2.0@, x1, y1);
    assert(x1.drop_first() =~= json_string(e1.1@) + x);
    assert(y1.drop_first() =~= json_string(e2.1@) + y);
    lemma_json_string_prefix(e1.1@, e2.1@, x, y);
}

/// The members, read from the first.
proof fn lemma_json_members_front(entries: Seq<(String, String)>)
    requires
        entries.len() >= 2,
    ensures
        json_members(entries) == json_member(entries[0]) + seq![','] + json_members(
            entries.drop_first(),
        ),
    decreases entries.len(),
{
    let d = entries.drop_first();
    if entries.len() == 2 {
        assert(entries.drop_last() =~= seq![entries[0]]);
        assert(d.len() == 1);
        assert(d[0] == entries.last());
        assert(json_members(entries.drop_last()) == json_member(entries[0]));
        assert(json_members(d) == json_member(d[0]));
    } else {
        lemma_json_members_front(entries.drop_last());
        assert(entries.drop_last().drop_first() =~= d.drop_last());
        assert(d.last() == entries.last());
        assert(entries.drop_last()[0] == entries[0]);
    }
}

proof fn lemma_json_member_starts_with_quote(e: (String, String))
    ensures
        json_member(e).len() > 0,
        json_member(e)[0] == '"',
{
}

/// The members of an object, closed by its brace, can be read back in one way only.
proof fn lemma_json_members_unique(e1: Seq<(String, String)>, e2: Seq<(String, String)>)
    requires
        json_members(e1) + seq!['}'] == json_members(e2) + seq!['}'],
    ensures
        entries_view(e1) == entries_view(e2),
    decreases e1.len(),
{
    let l = json_members(e1) + seq!['}'];
    let r = json_members(e2) + seq!['}'];
    if e1.len() == 0 {
        assert(l[0] == '}');
        if e2.len() > 0 {
            lemma_json_member_starts_with_quote(e2[0]);
            if e2.len() >= 2 {
                lemma_json_members_front(e2);
            }
            assert(r[0] == '"');
        }
        assert(entries_view(e1) =~= entries_view(e2));
    } else if e2.len() == 0 {
        lemma_json_member_starts_with_quote(e1[0]);
        if e1.len() >= 2 {
            lemma_json_members_front(e1);
        }
        assert(l[0] == '"');
        assert(r[0] == '}');
    } else {
        let x = if e1.len() == 1 {
            seq!['}']
        } else {
            seq![','] + json_members(e1.drop_first()) + seq!['}']
        };
        let y = if e2.len() == 1 {
            seq!['}']
        } else {
            seq![','] + json_members(e2.drop_first()) + seq!['}']
        };
        if e1.len() >= 2 {
            lemma_json_members_front(e1);
        }
        if e2.len() >= 2 {
            lemma_json_members_front(e2);
        }
        assert(l =~= json_member(e1[0]) + x);
        assert(r =~= json_member(e2[0]) + y);
        lemma_json_member_prefix(e1[0], e2[0], x, y);
        assert(x[0] == y[0]);
        if e1.len() >= 2 {
            assert(e2.len() >= 2);
            assert(x.drop_first() =~= json_members(e1.drop_first()) + seq!['}']);
            assert(y.drop_first() =~= json_members(e2.drop_first()) + seq!['}']);
            lemma_json_members_unique(e1.drop_first(), e2.drop_first());
            assert(entries_view(e1) =~= seq![(e1[0].0@, e1[0].1@)] + entries_view(e1.drop_first()));
            assert(entries_view(e2) =~= seq![(e2[0].0@, e2[0].1@)] + entries_view(e2.drop_first()));
        } else {
            assert(e2.len() == 1);
            assert(entries_view(e1) =~= entries_view(e2));
        }
    }
}

/// Equal object texts list equal entries, in the same order.
proof fn lemma_object_text_unique(e1: Seq<(String, String)>, e2: Seq<(String, String)>)
    requires
        json_object_text(e1) == json_object_text(e2),
    ensures
        entries_view(e1) == entries_view(e2),
{
    let text = json_object_text(e1);
    assert(json_members(e1) + seq!['}'] =~= text.drop_first());
    assert(json_members(e2) + seq!['}'] =~= text.drop_first());
    lemma_json_members_unique(e1, e2);
}

/// Every entry of `m1` has an entry of `m2` with the same key and value texts,
/// where both are listed by entries with equal views.
proof fn lemma_entries_transfer(
    m1: Map<String, String>,
    e1: Seq<(String, String)>,
    m2: Map<String, String>,
    e2: Seq<(String, String)>,
)
    requires
        lists_entries(m1, e1),
        lists_entries(m2, e2),
        entries_view(e1) == entries_view(e2),
    ensures
        forall|k1: String|
            #[trigger] m1.contains_key(k1) ==> exists|k2: String|
                m2.contains_key(k2) && k2@ == k1@ && m2[k2]@ == m1[k1]@,
{
    assert(entries_view(e1).len() == e1.len());
    assert(entries_view(e2).len() == e2.len());
    assert forall|k1: String| #[trigger] m1.contains_key(k1) implies exists|k2: String|
        m2.contains_key(k2) && k2@ == k1@ && m2[k2]@ == m1[k1]@ by {
        let i = choose|i: int| 0 <= i < e1.len() && e1[i].0 == k1;
        assert(entries_view(e1)[i] == entries_view(e2)[i]);
        let k2 = e2[i].0;
        assert(m2.contains_key(k2) && k2@ == k1@ && m2[k2]@ == m1[k1]@);
    }
}

/// Two maps with the same JSON text hold the same entries: the text names
/// every key and its value, so it reads back to the map it came from.
pub proof fn law_json_text_determines_entries(
    m1: Map<String, String>,
    m2: Map<String, String>,
    text: Seq<char>,
)
    requires
        is_json_of_map(m1, text),
        is_json_of_map(m2, text),
    ensures
        forall|k1: String|
            #[trigger] m1.contains_key(k1) ==> exists|k2: String|
                m2.contains_key(k2) && k2@ == k1@ && m2[k2]@ == m1[k1]@,
        forall|k2: String|
            #[trigger] m2.contains_key(k2) ==> exists|k1: String|
                m1.contains_key(k1) && k1@ == k2@ && m1[k1]@ == m2[k2]@,
{
    let e1 = choose|entries: Seq<(String, String)>|
        lists_entries(m1, entries) && text == json_object_text(entries);
    let e2 = choose|entries: Seq<(String, String)>|
        lists_entries(m2, entries) && text == json_object_text(entries);
    lemma_object_text_unique(e1, e2);
    lemma_entries_transfer(m1, e1, m2, e2);
    lemma_entries_transfer(m2, e2, m1, e1);
}

/// The serialized text, or the JavaScript `undefined` where serialization failed.
pub fn json_or_undefined<E>(serialized: Result<String, E>) -> (s: String)
    ensures
        serialized matches Ok(t) ==> s == t,
        serialized is Err ==> s@ == "undefined"@,
{
    match serialized {
        Ok(t) => t,
        Err(_) => String::from_str("undefined"),
    }
}

/// A value written as a JavaScript expression in JSON notation.
pub trait ToJsonString {
    fn to_json_string(&self) -> String;
}

impl ToJsonString for HashMap<String, String> {
    /// The map as a JSON object.
    fn to_json_string(&self) -> (s: String)
        ensures
            is_json_of_map(self@, s@),
            is_json_object_text(s@),
            s@ == "{}"@ <==> self@.is_empty(),
    {
        let serialized = map_to_json(self);
        let s = json_or_undefined(serialized);
        proof {
            lemma_json_of_map_shape(self@, s@);
        }
        s
    }
}

impl ToJsonString for Option<HashMap<String, String>> {
    /// The map as a JSON object, or `undefined` where there is none.
    fn to_json_string(&self) -> (s: String)
        ensures
            self is None ==> s@ == "undefined"@,
            self matches Some(m) ==> is_json_of_map(m@, s@) && is_json_object_text(s@) && (s@
                == "{}"@ <==> m@.is_empty()),
    {
        match self {
            Some(map) => map.to_json_string(),
            None => String::from_str("undefined"),
        }
    }
}

} // verus!
