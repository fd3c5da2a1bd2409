//! Error accumulator: a mapping from field name to the ordered list of
//! error messages recorded for that field.
//!
//! Validation failures are gathered here instead of aborting at the first
//! one; two accumulators can be merged, concatenating the message lists of
//! shared keys (left operand's messages first).

use vstd::prelude::*;

verus! {

/// The views of a sequence of owned strings.
pub open spec fn views_of(s: Seq<String>) -> Seq<Seq<char>> {
    Seq::new(s.len(), |i: int| s[i]@)
}

/// No field name occurs twice among the entries.
pub open spec fn entries_wf(s: Seq<(Seq<char>, Seq<Seq<char>>)>) -> bool {
    forall|i: int, j: int| 0 <= i < j < s.len() ==> s[i].0 != s[j].0
}

/// The mapping that a sequence of (field, messages) entries denotes.
pub open spec fn map_of_entries(s: Seq<(Seq<char>, Seq<Seq<char>>)>) -> Map<
    Seq<char>,
    Seq<Seq<char>>,
>
    decreases s.len(),
{
    if s.len() == 0 {
        Map::empty()
    } else {
        map_of_entries(s.drop_last()).insert(s.last().0, s.last().1)
    }
}

/// Field-keyed collection of validation messages, gathered without
/// short-circuiting. Keys are unique; messages per key keep their order.
#[derive(Debug)]
pub struct ErrorMap {
    entries: Vec<(String, Vec<String>)>,
}

impl View for ErrorMap {
    type V = Map<Seq<char>, Seq<Seq<char>>>;

    open spec fn view(&self) -> Map<Seq<char>, Seq<Seq<char>>> {
        map_of_entries(self.entry_seq())
    }
}

impl ErrorMap {
    /// The entries as mathematical values, in storage order.
    pub closed spec fn entry_seq(self) -> Seq<(Seq<char>, Seq<Seq<char>>)> {
        Seq::new(self.entries@.len(), |i: int| (self.entries@[i].0@, views_of(self.entries@[i].1@)))
    }

    /// Internal invariant: every field name is stored at most once.
    pub open spec fn wf(self) -> bool {
        entries_wf(self.entry_seq())
    }

    /// An accumulator with no recorded errors.
    pub fn new() -> (r: ErrorMap)
        ensures
            r.wf(),
            r@ == Map::<Seq<char>, Seq<Seq<char>>>::empty(),
    {
        let r = ErrorMap { entries: Vec::new() };
        proof {
            assert(r.entry_seq() =~= Seq::<(Seq<char>, Seq<Seq<char>>)>::empty());
        }
        r
    }

    /// True exactly when no field has a recorded error.
    pub fn is_empty(&self) -> (r: bool)
        ensures
            r <==> self@ == Map::<Seq<char>, Seq<Seq<char>>>::empty(),
    {
        let r = self.entries.len() == 0;
        proof {
            if self.entries@.len() == 0 {
                assert(self@ =~= Map::<Seq<char>, Seq<Seq<char>>>::empty());
            } else {
                let s = self.entry_seq();
                assert(self@ == map_of_entries(s.drop_last()).insert(s.last().0, s.last().1));
                assert(self@.contains_key(s.last().0));
                assert(self@ != Map::<Seq<char>, Seq<Seq<char>>>::empty());
            }
        }
        r
    }

    /// How many fields have at least one recorded error.
    pub fn key_count(&self) -> (r: usize)
        requires
            self.wf(),
        ensures
            r == self@.dom().len(),
    {
        proof {
            lemma_map_of_entries_dom_len(self.entry_seq());
        }
        self.entries.len()
    }

    /// Hand the accumulator out as plain (field, messages) pairs, one pair
    /// per recorded field.
    pub fn into_entries(self) -> (r: Vec<(String, Vec<String>)>)
        ensures
            Seq::new(r@.len(), |i: int| (r@[i].0@, views_of(r@[i].1@))) == self.entry_seq(),
    {
        self.entries
    }

    /// The messages recorded under `field`, oldest first, if any.
    pub fn messages_for(&self, field: &str) -> (r: Option<Vec<String>>)
        requires
            self.wf(),
        ensures
            match r {
                Some(msgs) => self@.contains_key(field@) && views_of(msgs@) == self@[field@],
                None => !self@.contains_key(field@),
            },
    {
        proof {
            lemma_map_of_entries_contains(self.entry_seq(), field@);
        }
        match find_key(&self.entries, field) {
            Some(i) => {
                let msgs = self.entries[i].1.clone();
                proof {
                    lemma_map_of_entries_value(self.entry_seq(), i as int);
                    assert(self.entry_seq()[i as int].0 == field@);
                    assert(views_of(msgs@) == self@[field@]);
                }
                Some(msgs)
            },
            None => {
                proof {
                    assert(forall|i: int|
                        0 <= i < self.entry_seq().len() ==> self.entry_seq()[i].0 != field@);
                }
                None
            },
        }
    }
}

/// A key is in the denoted mapping exactly when some entry holds it.
pub proof fn lemma_map_of_entries_contains(s: Seq<(Seq<char>, Seq<Seq<char>>)>, k: Seq<char>)
    ensures
        map_of_entries(s).contains_key(k) <==> exists|i: int| 0 <= i < s.len() && s[i].0 == k,
    decreases s.len(),
{
    if s.len() == 0 {
    } else {
        lemma_map_of_entries_contains(s.drop_last(), k);
        if s.last().0 == k {
            assert(s[s.len() - 1].0 == k);
        } else if map_of_entries(s.drop_last()).contains_key(k) {
            let i = choose|i: int| 0 <= i < s.drop_last().len() && s.drop_last()[i].0 == k;
            assert(s[i].0 == k);
        } else if exists|i: int| 0 <= i < s.len() && s[i].0 == k {
            let i = choose|i: int| 0 <= i < s.len() && s[i].0 == k;
            assert(i < s.len() - 1);
            assert(s.drop_last()[i].0 == k);
        }
    }
}

/// With unique keys, the mapping sends each stored key to its stored list.
pub proof fn lemma_map_of_entries_value(s: Seq<(Seq<char>, Seq<Seq<char>>)>, i: int)
    requires
        entries_wf(s),
        0 <= i < s.len(),
    ensures
        map_of_entries(s).contains_key(s[i].0),
        map_of_entries(s)[s[i].0] == s[i].1,
    decreases s.len(),
{
    if i == s.len() - 1 {
    } else {
        assert(entries_wf(s.drop_last())) by {
            assert(forall|p: int, q: int|
                0 <= p < q < s.drop_last().len() ==> s.drop_last()[p].0 == s[p].0
                    && s.drop_last()[q].0 == s[q].0);
        }
        assert(s.drop_last()[i] == s[i]);
        lemma_map_of_entries_value(s.drop_last(), i);
        assert(s.last().0 != s[i].0);
    }
}

/// Replacing the message list of the entry at `i` replaces that key's value.
pub proof fn lemma_map_of_entries_update(
    s: Seq<(Seq<char>, Seq<Seq<char>>)>,
    i: int,
    v: Seq<Seq<char>>,
)
    requires
        entries_wf(s),
        0 <= i < s.len(),
    ensures
        map_of_entries(s.update(i, (s[i].0, v))) == map_of_entries(s).insert(s[i].0, v),
    decreases s.len(),
{
    let t = s.update(i, (s[i].0, v));
    if i == s.len() - 1 {
        assert(t.drop_last() =~= s.drop_last());
        assert(t.last() == (s[i].0, v));
        assert(map_of_entries(t) =~= map_of_entries(s).insert(s[i].0, v));
    } else {
        assert(entries_wf(s.drop_last())) by {
            assert(forall|p: int, q: int|
                0 <= p < q < s.drop_last().len() ==> s.drop_last()[p].0 == s[p].0
                    && s.drop_last()[q].0 == s[q].0);
        }
        assert(s.drop_last()[i] == s[i]);
        lemma_map_of_entries_update(s.drop_last(), i, v);
        assert(t.drop_last() =~= s.drop_last().update(i, (s[i].0, v)));
        assert(t.last() == s.last());
        assert(s.last().0 != s[i].0);
        assert(map_of_entries(t) =~= map_of_entries(s).insert(s[i].0, v));
    }
}

/// With unique keys, the mapping has exactly one key per entry.
pub proof fn lemma_map_of_entries_dom_len(s: Seq<(Seq<char>, Seq<Seq<char>>)>)
    requires
        entries_wf(s),
    ensures
        map_of_entries(s).dom().finite(),
        map_of_entries(s).dom().len() == s.len(),
    decreases s.len(),
{
    broadcast use vstd::set::axiom_set_insert_len;

    if s.len() == 0 {
    } else {
        assert(entries_wf(s.drop_last())) by {
            assert(forall|p: int, q: int|
                0 <= p < q < s.drop_last().len() ==> s.drop_last()[p].0 == s[p].0
                    && s.drop_last()[q].0 == s[q].0);
        }
        lemma_map_of_entries_dom_len(s.drop_last());
        lemma_map_of_entries_contains(s.drop_last(), s.last().0);
        assert(forall|i: int|
            0 <= i < s.drop_last().len() ==> s.drop_last()[i].0 == s[i].0);
        assert(!map_of_entries(s.drop_last()).contains_key(s.last().0));
        assert(map_of_entries(s).dom() =~= map_of_entries(s.drop_last()).dom().insert(
            s.last().0,
        ));
    }
}

/// True exactly when the two string slices hold the same characters.
pub fn str_eq(a: &str, b: &str) -> (r: bool)
    ensures
        r == (a@ == b@),
{
    let sa: String = a.to_owned();
    let sb: String = b.to_owned();
    sa == sb
}

/// `m` with `msgs` appended to `field`'s list, the list created if absent.
pub open spec fn add_messages_spec(
    m: Map<Seq<char>, Seq<Seq<char>>>,
    field: Seq<char>,
    msgs: Seq<Seq<char>>,
) -> Map<Seq<char>, Seq<Seq<char>>> {
    if m.contains_key(field) {
        m.insert(field, m[field] + msgs)
    } else {
        m.insert(field, msgs)
    }
}

/// `m` with one `message` appended to `field`'s list.
pub open spec fn add_error_spec(
    m: Map<Seq<char>, Seq<Seq<char>>>,
    field: Seq<char>,
    message: Seq<char>,
) -> Map<Seq<char>, Seq<Seq<char>>> {
    add_messages_spec(m, field, seq![message])
}

/// The union of two accumulators: keys of either side; a shared key's
/// messages are `a`'s followed by `b`'s.
pub open spec fn merge_spec(
    a: Map<Seq<char>, Seq<Seq<char>>>,
    b: Map<Seq<char>, Seq<Seq<char>>>,
) -> Map<Seq<char>, Seq<Seq<char>>> {
    Map::new(
        |k: Seq<char>| a.contains_key(k) || b.contains_key(k),
        |k: Seq<char>|
            if a.contains_key(k) && b.contains_key(k) {
                a[k] + b[k]
            } else if a.contains_key(k) {
                a[k]
            } else {
                b[k]
            },
    )
}

/// Index of the entry holding `field`, if any.
fn find_key(entries: &Vec<(String, Vec<String>)>, field: &str) -> (r: Option<usize>)
    ensures
        match r {
            Some(i) => i < entries@.len() && entries@[i as int].0@ == field@,
            None => forall|i: int| 0 <= i < entries@.len() ==> entries@[i].0@ != field@,
        },
{
    let mut i: usize = 0;
    while i < entries.len()
        invariant
            i <= entries@.len(),
            forall|j: int| 0 <= j < i ==> entries@[j].0@ != field@,
        decreases entries@.len() - i,
    {
        let pair = &entries[i];
        if str_eq(pair.0.as_str(), field) {
            return Some(i);
        }
        i += 1;
    }
    None
}

/// Append a whole list of messages under one field.
pub fn add_messages(errors: ErrorMap, field: String, messages: Vec<String>) -> (r: ErrorMap)
    requires
        errors.wf(),
    ensures
        r.wf(),
        r@ == add_messages_spec(errors@, field@, views_of(messages@)),
{
    let ghost s0 = errors.entry_seq();
    let ghost fieldv = field@;
    let ghost msgsv = views_of(messages@);
    let mut m = errors;
    match find_key(&m.entries, field.as_str()) {
        Some(i) => {
            let ghost oldmsgs = s0[i as int].1;
            let mut entry = m.entries.remove(i);
            let mut msgs = messages;
            entry.1.append(&mut msgs);
            m.entries.insert(i, entry);
            proof {
                assert(m.entry_seq() =~= s0.update(i as int, (fieldv, oldmsgs + msgsv))) by {
                    assert(forall|j: int|
                        0 <= j < s0.len() && j != i ==> m.entries@[j] == errors.entries@[j]);
                    assert(views_of(entry.1@) =~= oldmsgs + msgsv);
                }
                assert(s0[i as int].0 == fieldv);
                lemma_map_of_entries_value(s0, i as int);
                lemma_map_of_entries_update(s0, i as int, oldmsgs + msgsv);
                assert(entries_wf(m.entry_seq()));
            }
        },
        None => {
            m.entries.push((field, messages));
            proof {
                assert(m.entry_seq() =~= s0.push((fieldv, msgsv)));
                assert(m.entry_seq().drop_last() =~= s0);
                lemma_map_of_entries_contains(s0, fieldv);
                assert(!map_of_entries(s0).contains_key(fieldv));
                assert(entries_wf(m.entry_seq())) by {
                    assert(forall|j: int| 0 <= j < s0.len() ==> m.entry_seq()[j] == s0[j]);
                }
            }
        },
    }
    m
}

/// Record one error `message` under `field`, creating the list if absent.
/// The argument accumulator is consumed and returned updated.
pub fn add_error(errors: ErrorMap, field: String, message: String) -> (r: ErrorMap)
    requires
        errors.wf(),
    ensures
        r.wf(),
        r@ == add_error_spec(errors@, field@, message@),
{
    let ghost msgv = message@;
    let mut messages: Vec<String> = Vec::new();
    messages.push(message);
    proof {
        assert(views_of(messages@) =~= seq![msgv]);
    }
    add_messages(errors, field, messages)
}

/// Folding `b`'s entries, last first, into a base mapping.
pub open spec fn rev_add(
    m: Map<Seq<char>, Seq<Seq<char>>>,
    s: Seq<(Seq<char>, Seq<Seq<char>>)>,
) -> Map<Seq<char>, Seq<Seq<char>>>
    decreases s.len(),
{
    if s.len() == 0 {
        m
    } else {
        rev_add(add_messages_spec(m, s.last().0, s.last().1), s.drop_last())
    }
}

/// Folding unique-keyed entries into `m` is merging with their mapping.
pub proof fn lemma_rev_add_merge(
    m: Map<Seq<char>, Seq<Seq<char>>>,
    s: Seq<(Seq<char>, Seq<Seq<char>>)>,
)
    requires
        entries_wf(s),
    ensures
        rev_add(m, s) == merge_spec(m, map_of_entries(s)),
    decreases s.len(),
{
    if s.len() == 0 {
        assert(merge_spec(m, Map::<Seq<char>, Seq<Seq<char>>>::empty()) =~= m);
    } else {
        let k = s.last().0;
        let v = s.last().1;
        let rest = s.drop_last();
        assert(entries_wf(rest)) by {
            assert(forall|p: int, q: int|
                0 <= p < q < rest.len() ==> rest[p].0 == s[p].0 && rest[q].0 == s[q].0);
        }
        lemma_map_of_entries_contains(rest, k);
        assert(forall|i: int| 0 <= i < rest.len() ==> rest[i].0 == s[i].0);
        assert(!map_of_entries(rest).contains_key(k));
        lemma_rev_add_merge(add_messages_spec(m, k, v), rest);
        assert(merge_spec(add_messages_spec(m, k, v), map_of_entries(rest)) =~= merge_spec(
            m,
            map_of_entries(rest).insert(k, v),
        ));
    }
}

/// Merge two accumulators: the result covers the union of their keys; for a
/// key in both, `a`'s messages come first, then `b`'s.
pub fn merge_errors(a: ErrorMap, b: ErrorMap) -> (r: ErrorMap)
    requires
        a.wf(),
        b.wf(),
    ensures
        r.wf(),
        r@ == merge_spec(a@, b@),
{
    let ghost a0 = a@;
    let ghost b0 = b.entry_seq();
    let mut m = a;
    let mut rest = b;
    while rest.entries.len() > 0
        invariant
            m.wf(),
            entries_wf(rest.entry_seq()),
            rev_add(m@, rest.entry_seq()) == rev_add(a0, b0),
        decreases rest.entries@.len(),
    {
        let ghost spre = rest.entry_seq();
        let entry = rest.entries.pop().unwrap();
        proof {
            assert(rest.entry_seq() =~= spre.drop_last());
            assert(entry.0@ == spre.last().0);
            assert(views_of(entry.1@) == spre.last().1);
            assert(forall|p: int, q: int|
                0 <= p < q < spre.drop_last().len() ==> spre.drop_last()[p].0 == spre[p].0
                    && spre.drop_last()[q].0 == spre[q].0);
        }
        m = add_messages(m, entry.0, entry.1);
    }
    proof {
        assert(rest.entry_seq() =~= Seq::<(Seq<char>, Seq<Seq<char>>)>::empty());
        assert(m@ == rev_add(a0, b0));
        lemma_rev_add_merge(a0, b0);
    }
    m
}

/// Law: merging with the empty accumulator, on either side, changes nothing.
pub proof fn lemma_merge_identity(a: Map<Seq<char>, Seq<Seq<char>>>)
    ensures
        merge_spec(a, Map::<Seq<char>, Seq<Seq<char>>>::empty()) == a,
        merge_spec(Map::<Seq<char>, Seq<Seq<char>>>::empty(), a) == a,
{
    assert(merge_spec(a, Map::<Seq<char>, Seq<Seq<char>>>::empty()) =~= a);
    assert(merge_spec(Map::<Seq<char>, Seq<Seq<char>>>::empty(), a) =~= a);
}

/// Law: merging is associative.
pub proof fn lemma_merge_associative(
    a: Map<Seq<char>, Seq<Seq<char>>>,
    b: Map<Seq<char>, Seq<Seq<char>>>,
    c: Map<Seq<char>, Seq<Seq<char>>>,
)
    ensures
        merge_spec(a, merge_spec(b, c)) == merge_spec(merge_spec(a, b), c),
{
    let lhs = merge_spec(a, merge_spec(b, c));
    let rhs = merge_spec(merge_spec(a, b), c);
    assert forall|k: Seq<char>| lhs.contains_key(k) implies lhs[k] == rhs[k] by {
        assert(lhs[k] =~= rhs[k]);
    }
    assert(lhs =~= rhs);
}

/// Law: the merged key set does not depend on the order of the operands.
pub proof fn lemma_merge_dom_commutative(
    a: Map<Seq<char>, Seq<Seq<char>>>,
    b: Map<Seq<char>, Seq<Seq<char>>>,
)
    ensures
        merge_spec(a, b).dom() == merge_spec(b, a).dom(),
{
    assert(merge_spec(a, b).dom() =~= merge_spec(b, a).dom());
}

/// Law: on accumulators with no shared key, merging commutes outright.
pub proof fn lemma_merge_commutative_disjoint(
    a: Map<Seq<char>, Seq<Seq<char>>>,
    b: Map<Seq<char>, Seq<Seq<char>>>,
)
    requires
        a.dom().disjoint(b.dom()),
    ensures
        merge_spec(a, b) == merge_spec(b, a),
{
    assert forall|k: Seq<char>| merge_spec(a, b).contains_key(k) implies merge_spec(a, b)[k]
        == merge_spec(b, a)[k] by {
        assert(!(a.contains_key(k) && b.contains_key(k)));
    }
    assert(merge_spec(a, b) =~= merge_spec(b, a));
}

/// Law: a message recorded in the left operand is still recorded, under the
/// same key, after a merge.
pub proof fn lemma_merge_keeps_left(
    a: Map<Seq<char>, Seq<Seq<char>>>,
    b: Map<Seq<char>, Seq<Seq<char>>>,
    k: Seq<char>,
    message: Seq<char>,
)
    requires
        a.contains_key(k),
        a[k].contains(message),
    ensures
        merge_spec(a, b).contains_key(k),
        merge_spec(a, b)[k].contains(message),
{
    let i = choose|i: int| 0 <= i < a[k].len() && a[k][i] == message;
    if b.contains_key(k) {
        assert(merge_spec(a, b)[k][i] == message);
    }
}

/// Law: a message recorded in the right operand is still recorded, under the
/// same key, after a merge.
pub proof fn lemma_merge_keeps_right(
    a: Map<Seq<char>, Seq<Seq<char>>>,
    b: Map<Seq<char>, Seq<Seq<char>>>,
    k: Seq<char>,
    message: Seq<char>,
)
    requires
        b.contains_key(k),
        b[k].contains(message),
    ensures
        merge_spec(a, b).contains_key(k),
        merge_spec(a, b)[k].contains(message),
{
    let i = choose|i: int| 0 <= i < b[k].len() && b[k][i] == message;
    if a.contains_key(k) {
        assert(merge_spec(a, b)[k][a[k].len() + i] == message);
    }
}

} // verus!
