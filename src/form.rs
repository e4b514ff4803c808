//! Form-encoding primitives: bracketed keys, decimal numbers, and the
//! list of key/value pairs that makes up a form payload.
use vstd::prelude::*;
use vstd::string::StringExecFns;

verus! {

/// One key/value pair of a form payload.
pub type FormPair = (String, String);

/// The mathematical value of a payload: its pairs, keys and values as characters.
pub open spec fn pairs_view(v: Seq<FormPair>) -> Seq<(Seq<char>, Seq<char>)> {
    v.map_values(|p: FormPair| (p.0@, p.1@))
}

/// `[x]`: one step of a nested key.
pub open spec fn bracket(x: Seq<char>) -> Seq<char> {
    seq!['['] + x + seq![']']
}

/// The key of a nested entry `x` under the key `k`: `k[x]`.
pub open spec fn sub_key(k: Seq<char>, x: Seq<char>) -> Seq<char> {
    k + bracket(x)
}

pub open spec fn no_bracket(s: Seq<char>) -> bool {
    forall|i: int| 0 <= i < s.len() ==> s[i] != '['
}

/// The top-level field a key belongs to: everything before its first `[`.
pub open spec fn field_of(k: Seq<char>) -> Seq<char>
    decreases k.len(),
{
    if k.len() == 0 || k[0] == '[' {
        seq![]
    } else {
        seq![k[0]] + field_of(k.drop_first())
    }
}

/// Whether some pair of the payload has a key under the field `f`.
pub open spec fn has_field(pairs: Seq<(Seq<char>, Seq<char>)>, f: Seq<char>) -> bool {
    exists|i: int| 0 <= i < pairs.len() && field_of(#[trigger] pairs[i].0) == f
}

/// Whether every key of the payload lies under the field `f`.
pub open spec fn all_in_field(pairs: Seq<(Seq<char>, Seq<char>)>, f: Seq<char>) -> bool {
    forall|i: int| 0 <= i < pairs.len() ==> field_of(#[trigger] pairs[i].0) == f
}

pub open spec fn digit_char(d: nat) -> char {
    if d == 0 { '0' }
    else if d == 1 { '1' }
    else if d == 2 { '2' }
    else if d == 3 { '3' }
    else if d == 4 { '4' }
    else if d == 5 { '5' }
    else if d == 6 { '6' }
    else if d == 7 { '7' }
    else if d == 8 { '8' }
    else { '9' }
}

/// The decimal digits of `n`, most significant first, without leading zeros.
pub open spec fn decimal(n: nat) -> Seq<char>
    decreases n,
{
    if n < 10 {
        seq![digit_char(n)]
    } else {
        decimal(n / 10).push(digit_char(n % 10))
    }
}

/// A plain key of one field, `name`, lies under that field.
pub proof fn lemma_field_of_plain(n: Seq<char>)
    requires
        no_bracket(n),
    ensures
        field_of(n) == n,
    decreases n.len(),
{
    if n.len() > 0 {
        lemma_field_of_plain(n.drop_first());
        assert(n =~= seq![n[0]] + n.drop_first());
    }
}

/// `name[x]` lies under the field `name`.
pub proof fn lemma_field_of_sub(n: Seq<char>, x: Seq<char>)
    requires
        no_bracket(n),
    ensures
        field_of(sub_key(n, x)) == n,
    decreases n.len(),
{
    let k = sub_key(n, x);
    if n.len() == 0 {
        assert(k[0] == '[');
        assert(n =~= seq![]);
    } else {
        lemma_field_of_sub(n.drop_first(), x);
        assert(k.drop_first() =~= sub_key(n.drop_first(), x));
        assert(n =~= seq![n[0]] + n.drop_first());
    }
}

/// Appending to a key that already holds a `[` keeps its field.
pub proof fn lemma_field_of_extend(k: Seq<char>, t: Seq<char>)
    requires
        exists|i: int| 0 <= i < k.len() && k[i] == '[',
    ensures
        field_of(k + t) == field_of(k),
    decreases k.len(),
{
    if k[0] != '[' {
        let i = choose|i: int| 0 <= i < k.len() && k[i] == '[';
        assert(k.drop_first()[i - 1] == '[');
        lemma_field_of_extend(k.drop_first(), t);
        assert((k + t).drop_first() =~= k.drop_first() + t);
    }
}

/// `k[x][y]` lies under the same field as `k[x]`.
pub proof fn lemma_field_of_sub_sub(k: Seq<char>, x: Seq<char>, y: Seq<char>)
    ensures
        field_of(sub_key(sub_key(k, x), y)) == field_of(sub_key(k, x)),
{
    let kx = sub_key(k, x);
    assert(kx[k.len() as int] == '[');
    lemma_field_of_extend(kx, bracket(y));
}

/// Appends the decimal digits of `n` to `out`.
pub fn push_decimal(out: &mut String, n: u64)
    ensures
        final(out)@ == old(out)@ + decimal(n as nat),
    decreases n,
{
    if n >= 10 {
        push_decimal(out, n / 10);
    }
    let d = n % 10;
    let s: &str = if d == 0 { "0" }
        else if d == 1 { "1" }
        else if d == 2 { "2" }
        else if d == 3 { "3" }
        else if d == 4 { "4" }
        else if d == 5 { "5" }
        else if d == 6 { "6" }
        else if d == 7 { "7" }
        else if d == 8 { "8" }
        else { "9" };
    proof {
        reveal_strlit("0");
        reveal_strlit("1");
        reveal_strlit("2");
        reveal_strlit("3");
        reveal_strlit("4");
        reveal_strlit("5");
        reveal_strlit("6");
        reveal_strlit("7");
        reveal_strlit("8");
        reveal_strlit("9");
        assert(s@ =~= seq![digit_char(d as nat)]);
    }
    out.append(s);
    proof {
        assert(out@ =~= old(out)@ + decimal(n as nat));
    }
}

/// The decimal text of `n`.
pub fn decimal_string(n: u64) -> (r: String)
    ensures
        r@ == decimal(n as nat),
{
    let mut s = String::new();
    push_decimal(&mut s, n);
    proof {
        assert(s@ =~= decimal(n as nat));
    }
    s
}

/// The key `k[x]`.
pub fn sub_key_string(k: &str, x: &str) -> (r: String)
    ensures
        r@ == sub_key(k@, x@),
{
    let mut s = String::from_str(k);
    s.append("[");
    s.append(x);
    s.append("]");
    proof {
        reveal_strlit("[");
        reveal_strlit("]");
        assert(s@ =~= sub_key(k@, x@));
    }
    s
}


/// The view of a list of string slices.
pub open spec fn strs_view(s: Seq<&str>) -> Seq<Seq<char>> {
    s.map_values(|x: &str| x@)
}

/// The view of a list of strings.
pub open spec fn strings_view(s: Seq<String>) -> Seq<Seq<char>> {
    s.map_values(|x: String| x@)
}

/// The view of an optional string slice.
pub open spec fn opt_view(o: Option<&str>) -> Option<Seq<char>> {
    match o {
        Some(s) => Some(s@),
        None => None,
    }
}

/// An optional field: one pair when it is set, nothing when it is not.
pub open spec fn opt_entry(k: Seq<char>, o: Option<Seq<char>>) -> Seq<(Seq<char>, Seq<char>)> {
    match o {
        Some(v) => seq![(k, v)],
        None => seq![],
    }
}

/// A list field: one pair `k[i]` for each item, in order.
pub open spec fn list_entries(k: Seq<char>, items: Seq<Seq<char>>) -> Seq<(Seq<char>, Seq<char>)> {
    Seq::new(items.len(), |i: int| (sub_key(k, decimal(i as nat)), items[i]))
}

/// An optional list field: nothing when it is not set.
pub open spec fn opt_list_entries(k: Seq<char>, o: Option<Seq<Seq<char>>>) -> Seq<(Seq<char>, Seq<char>)> {
    match o {
        Some(items) => list_entries(k, items),
        None => seq![],
    }
}

/// Appends the pair `(k, v)`.
pub fn push_pair(out: &mut Vec<FormPair>, k: String, v: String)
    ensures
        pairs_view(final(out)@) == pairs_view(old(out)@) + seq![(k@, v@)],
{
    out.push((k, v));
    proof {
        assert(pairs_view(out@) =~= pairs_view(old(out)@) + seq![(k@, v@)]);
    }
}

/// Appends the pair `(k, v)` when `v` is set.
pub fn push_opt(out: &mut Vec<FormPair>, k: &str, v: Option<&str>)
    ensures
        pairs_view(final(out)@) == pairs_view(old(out)@) + opt_entry(k@, opt_view(v)),
{
    match v {
        Some(s) => {
            push_pair(out, String::from_str(k), String::from_str(s));
        },
        None => {
            assert(pairs_view(out@) =~= pairs_view(old(out)@) + opt_entry(k@, opt_view(v)));
        },
    }
}

/// Appends the pairs `k[i]` of a list of string slices.
pub fn push_str_list(out: &mut Vec<FormPair>, k: &str, items: &Vec<&str>)
    ensures
        pairs_view(final(out)@) == pairs_view(old(out)@) + list_entries(k@, strs_view(items@)),
{
    let ghost start = pairs_view(out@);
    let mut i: usize = 0;
    while i < items.len()
        invariant
            i <= items@.len(),
            pairs_view(out@) == start + list_entries(k@, strs_view(items@.subrange(0, i as int))),
        decreases items@.len() - i,
    {
        let key = {
            let mut s = String::from_str(k);
            s.append("[");
            push_decimal(&mut s, i as u64);
            s.append("]");
            s
        };
        proof {
            reveal_strlit("[");
            reveal_strlit("]");
            assert(key@ =~= sub_key(k@, decimal(i as nat)));
        }
        push_pair(out, key, String::from_str(items[i]));
        i = i + 1;
        proof {
            assert(pairs_view(out@) =~= start + list_entries(k@, strs_view(items@.subrange(0, i as int))));
        }
    }
    proof {
        assert(items@.subrange(0, i as int) =~= items@);
    }
}

/// Appends the pairs `k[i]` of a list of strings.
pub fn push_string_list(out: &mut Vec<FormPair>, k: &str, items: &Vec<String>)
    ensures
        pairs_view(final(out)@) == pairs_view(old(out)@) + list_entries(k@, strings_view(items@)),
{
    let ghost start = pairs_view(out@);
    let mut i: usize = 0;
    while i < items.len()
        invariant
            i <= items@.len(),
            pairs_view(out@) == start + list_entries(k@, strings_view(items@.subrange(0, i as int))),
        decreases items@.len() - i,
    {
        let key = {
            let mut s = String::from_str(k);
            s.append("[");
            push_decimal(&mut s, i as u64);
            s.append("]");
            s
        };
        proof {
            reveal_strlit("[");
            reveal_strlit("]");
            assert(key@ =~= sub_key(k@, decimal(i as nat)));
        }
        push_pair(out, key, items[i].clone());
        i = i + 1;
        proof {
            assert(pairs_view(out@) =~= start + list_entries(k@, strings_view(items@.subrange(0, i as int))));
        }
    }
    proof {
        assert(items@.subrange(0, i as int) =~= items@);
    }
}


/// A payload joined from two parts has a field when one of the parts has it.
pub proof fn lemma_has_field_concat(a: Seq<(Seq<char>, Seq<char>)>, b: Seq<(Seq<char>, Seq<char>)>, f: Seq<char>)
    ensures
        has_field(a + b, f) <==> has_field(a, f) || has_field(b, f),
{
    let ab = a + b;
    if has_field(ab, f) {
        let i = choose|i: int| 0 <= i < ab.len() && field_of(#[trigger] ab[i].0) == f;
        if i < a.len() {
            assert(ab[i] == a[i]);
        } else {
            assert(ab[i] == b[i - a.len()]);
        }
    }
    if has_field(a, f) {
        let i = choose|i: int| 0 <= i < a.len() && field_of(#[trigger] a[i].0) == f;
        assert(ab[i] == a[i]);
    }
    if has_field(b, f) {
        let i = choose|i: int| 0 <= i < b.len() && field_of(#[trigger] b[i].0) == f;
        assert(ab[i + a.len()] == b[i]);
    }
}

/// A part whose keys all lie under `n` has the field `n` alone, if it has any pair.
pub proof fn lemma_has_field_uniform(s: Seq<(Seq<char>, Seq<char>)>, n: Seq<char>, f: Seq<char>)
    requires
        all_in_field(s, n),
    ensures
        has_field(s, f) <==> s.len() > 0 && f == n,
{
    if s.len() > 0 && f == n {
        assert(field_of(s[0].0) == n);
    }
}

/// The keys of a list field lie under that field.
pub proof fn lemma_list_entries_field(k: Seq<char>, items: Seq<Seq<char>>)
    requires
        no_bracket(k),
    ensures
        all_in_field(list_entries(k, items), k),
{
    assert forall|i: int| 0 <= i < items.len() implies field_of(
        #[trigger] list_entries(k, items)[i].0,
    ) == k by {
        lemma_field_of_sub(k, decimal(i as nat));
    }
}

/// The key of an optional field is that field.
pub proof fn lemma_opt_entry_field(k: Seq<char>, o: Option<Seq<char>>)
    requires
        no_bracket(k),
    ensures
        all_in_field(opt_entry(k, o), k),
        opt_entry(k, o).len() > 0 <==> o is Some,
{
    lemma_field_of_plain(k);
}

/// The keys of an optional list field nested in `k` lie under the field of `k`.
pub proof fn lemma_nested_list_field(k: Seq<char>, x: Seq<char>, o: Option<Seq<Seq<char>>>, n: Seq<char>)
    requires
        field_of(sub_key(k, x)) == n,
    ensures
        all_in_field(opt_list_entries(sub_key(k, x), o), n),
{
    if o is Some {
        let items = o->0;
        assert forall|i: int| 0 <= i < items.len() implies field_of(
            #[trigger] list_entries(sub_key(k, x), items)[i].0,
        ) == n by {
            lemma_field_of_sub_sub(k, x, decimal(i as nat));
        }
    }
}


/// A pair of either part of a joined payload is a pair of the whole.
pub proof fn lemma_contains_concat(a: Seq<(Seq<char>, Seq<char>)>, b: Seq<(Seq<char>, Seq<char>)>, x: (Seq<char>, Seq<char>))
    ensures
        a.contains(x) ==> (a + b).contains(x),
        b.contains(x) ==> (a + b).contains(x),
{
    if a.contains(x) {
        let i = choose|i: int| 0 <= i < a.len() && a[i] == x;
        assert((a + b)[i] == x);
    }
    if b.contains(x) {
        let i = choose|i: int| 0 <= i < b.len() && b[i] == x;
        assert((a + b)[i + a.len()] == x);
    }
}

} // verus!
