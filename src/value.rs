//! The generic value tree that introspection results are expressed in.
use vstd::prelude::*;
use crate::error::{IntrospectionError, VError};

verus! {

/// A response value: the tree that a response serializer turns into JSON.
/// Object entries keep their order.
#[derive(Debug, PartialEq)]
pub enum Value {
    Null,
    Boolean(bool),
    Int(i64),
    String(String),
    Enum(String),
    List(Vec<Value>),
    Object(Vec<(String, Value)>),
}

/// The mathematical model of a [`Value`].
pub ghost enum VValue {
    Null,
    Boolean(bool),
    Int(int),
    String(Seq<char>),
    Enum(Seq<char>),
    List(Seq<VValue>),
    Object(Seq<(Seq<char>, VValue)>),
}

impl Value {
    pub open spec fn view(self) -> VValue
        decreases self, 0nat,
    {
        match self {
            Value::Null => VValue::Null,
            Value::Boolean(b) => VValue::Boolean(b),
            Value::Int(i) => VValue::Int(i as int),
            Value::String(s) => VValue::String(s@),
            Value::Enum(s) => VValue::Enum(s@),
            Value::List(items) => VValue::List(view_items(items@)),
            Value::Object(entries) => VValue::Object(view_entries(entries@)),
        }
    }
}

/// The models of a sequence of values, in order.
pub open spec fn view_items(s: Seq<Value>) -> Seq<VValue>
    decreases s, 1nat,
{
    if s.len() == 0 {
        Seq::empty()
    } else {
        view_items(s.drop_last()).push(s.last().view())
    }
}

/// The models of a sequence of object entries, in order.
pub open spec fn view_entries(s: Seq<(String, Value)>) -> Seq<(Seq<char>, VValue)>
    decreases s, 1nat,
{
    if s.len() == 0 {
        Seq::empty()
    } else {
        view_entries(s.drop_last()).push((s.last().0@, s.last().1.view()))
    }
}

pub proof fn lemma_view_items_push(s: Seq<Value>, v: Value)
    ensures
        view_items(s.push(v)) == view_items(s).push(v.view()),
{
    assert(s.push(v).drop_last() =~= s);
}

pub proof fn lemma_view_entries_push(s: Seq<(String, Value)>, e: (String, Value))
    ensures
        view_entries(s.push(e)) == view_entries(s).push((e.0@, e.1.view())),
{
    assert(s.push(e).drop_last() =~= s);
}

} // verus!

verus! {

/// The model of an outcome that is a value or an error.
pub open spec fn view_result(r: Result<Value, IntrospectionError>) -> Result<VValue, VError> {
    match r {
        Ok(v) => Ok(v.view()),
        Err(e) => Err(e.view()),
    }
}

/// A text value, or null where there is no text.
pub open spec fn opt_text(s: Option<String>) -> VValue {
    match s {
        Some(t) => VValue::String(t@),
        None => VValue::Null,
    }
}

/// The values of a sequence of entries, skipping the absent ones, or the
/// first error among them.
pub open spec fn collect(rs: Seq<Option<Result<VValue, VError>>>) -> Result<Seq<VValue>, VError>
    decreases rs.len(),
{
    if rs.len() == 0 {
        Ok(Seq::empty())
    } else {
        match collect(rs.drop_last()) {
            Err(e) => Err(e),
            Ok(vs) => match rs.last() {
                None => Ok(vs),
                Some(Ok(v)) => Ok(vs.push(v)),
                Some(Err(e)) => Err(e),
            },
        }
    }
}

/// A list of the collected values, or the first error.
pub open spec fn collect_list(rs: Seq<Option<Result<VValue, VError>>>) -> Result<VValue, VError> {
    match collect(rs) {
        Ok(vs) => Ok(VValue::List(vs)),
        Err(e) => Err(e),
    }
}

/// Once a prefix has failed, the whole sequence fails with the same error.
pub proof fn lemma_collect_prefix_err(rs: Seq<Option<Result<VValue, VError>>>, i: int)
    requires
        0 <= i <= rs.len(),
        collect(rs.take(i)) is Err,
    ensures
        collect(rs) == collect(rs.take(i)),
    decreases rs.len() - i,
{
    if i < rs.len() {
        assert(rs.take(i + 1).drop_last() =~= rs.take(i));
        lemma_collect_prefix_err(rs, i + 1);
    } else {
        assert(rs.take(i) =~= rs);
    }
}

/// One step of collecting: the prefix grows by one entry.
pub proof fn lemma_collect_step(rs: Seq<Option<Result<VValue, VError>>>, i: int)
    requires
        0 <= i < rs.len(),
    ensures
        collect(rs.take(i + 1)) == (match collect(rs.take(i)) {
            Err(e) => Err(e),
            Ok(vs) => match rs[i] {
                None => Ok(vs),
                Some(Ok(v)) => Ok(vs.push(v)),
                Some(Err(e)) => Err(e),
            },
        }),
{
    assert(rs.take(i + 1).drop_last() =~= rs.take(i));
}

/// Where every entry is a value, the collected values are those values, in
/// order.
pub proof fn lemma_collect_all_ok(rs: Seq<Option<Result<VValue, VError>>>)
    requires
        forall|i: int| 0 <= i < rs.len() ==> (#[trigger] rs[i] matches Some(Ok(_))),
    ensures
        collect(rs) == Ok::<Seq<VValue>, VError>(
            Seq::new(rs.len(), |i: int| rs[i]->Some_0->Ok_0),
        ),
    decreases rs.len(),
{
    if rs.len() > 0 {
        let p = rs.drop_last();
        assert forall|i: int| 0 <= i < p.len() implies (#[trigger] p[i] matches Some(Ok(_))) by {
            assert(p[i] == rs[i]);
        }
        lemma_collect_all_ok(p);
        assert(rs[rs.len() - 1] matches Some(Ok(_)));
        assert(Seq::new(p.len(), |i: int| p[i]->Some_0->Ok_0).push(rs.last()->Some_0->Ok_0)
            =~= Seq::new(rs.len(), |i: int| rs[i]->Some_0->Ok_0));
    } else {
        assert(Seq::new(rs.len(), |i: int| rs[i]->Some_0->Ok_0) =~= Seq::<VValue>::empty());
    }
}

/// Where no entry is an error, collecting succeeds.
pub proof fn lemma_collect_no_err(rs: Seq<Option<Result<VValue, VError>>>)
    requires
        forall|i: int| 0 <= i < rs.len() ==> !(#[trigger] rs[i] matches Some(Err(_))),
    ensures
        collect(rs) is Ok,
    decreases rs.len(),
{
    if rs.len() > 0 {
        let p = rs.drop_last();
        assert forall|i: int| 0 <= i < p.len() implies !(#[trigger] p[i] matches Some(Err(_))) by {
            assert(p[i] == rs[i]);
        }
        lemma_collect_no_err(p);
        assert(!(rs[rs.len() - 1] matches Some(Err(_))));
    }
}

/// A relation that holds between the values of any two entries, the earlier
/// first, holds between any two collected values, the earlier first.
pub proof fn lemma_collect_pairwise(rs: Seq<Option<Result<VValue, VError>>>, rel: spec_fn(VValue, VValue) -> bool)
    requires
        collect(rs) is Ok,
        forall|i: int, j: int|
            0 <= i < j < rs.len() && (#[trigger] rs[i] matches Some(Ok(_))) && (#[trigger] rs[j] matches Some(Ok(_)))
                ==> rel(rs[i]->Some_0->Ok_0, rs[j]->Some_0->Ok_0),
    ensures
        forall|a: int, b: int|
            0 <= a < b < collect(rs)->Ok_0.len() ==> rel(
                #[trigger] collect(rs)->Ok_0[a],
                #[trigger] collect(rs)->Ok_0[b],
            ),
    decreases rs.len(),
{
    if rs.len() > 0 {
        let p = rs.drop_last();
        let last = rs.len() - 1;
        assert forall|i: int, j: int|
            0 <= i < j < p.len() && (#[trigger] p[i] matches Some(Ok(_))) && (#[trigger] p[j] matches Some(Ok(_)))
                implies rel(p[i]->Some_0->Ok_0, p[j]->Some_0->Ok_0) by {
            assert(rs[i] == p[i] && rs[j] == p[j]);
        }
        lemma_collect_pairwise(p, rel);
        let vs = collect(p)->Ok_0;
        let cs = collect(rs)->Ok_0;
        assert(cs == vs || (rs.last() matches Some(Ok(w)) && cs == vs.push(w)));
        assert forall|a: int, b: int| 0 <= a < b < cs.len() implies rel(#[trigger] cs[a], #[trigger] cs[b]) by {
            if b < vs.len() {
                assert(cs[a] == vs[a] && cs[b] == vs[b]);
            } else {
                let y = cs[b];
                assert(rs[last] == Some(Ok::<VValue, VError>(y)));
                assert(cs[a] == vs[a]);
                lemma_collect_members(p, vs[a]);
                assert(vs.contains(vs[a]));
                let i = choose|i: int| 0 <= i < p.len() && #[trigger] p[i] == Some(Ok::<VValue, VError>(vs[a]));
                assert(rs[i] == p[i]);
            }
        }
    }
}

/// Where collecting succeeds, a value is collected exactly when some entry
/// holds it.
pub proof fn lemma_collect_members(rs: Seq<Option<Result<VValue, VError>>>, v: VValue)
    requires
        collect(rs) is Ok,
    ensures
        collect(rs)->Ok_0.contains(v) <==> exists|i: int|
            0 <= i < rs.len() && #[trigger] rs[i] == Some(Ok::<VValue, VError>(v)),
    decreases rs.len(),
{
    if rs.len() > 0 {
        let p = rs.drop_last();
        lemma_collect_members(p, v);
        let vs = collect(p)->Ok_0;
        let cs = collect(rs)->Ok_0;
        assert(cs == vs || (rs.last() matches Some(Ok(w)) && cs == vs.push(w)));
        if exists|i: int| 0 <= i < rs.len() && #[trigger] rs[i] == Some(Ok::<VValue, VError>(v)) {
            let i = choose|i: int| 0 <= i < rs.len() && #[trigger] rs[i] == Some(Ok::<VValue, VError>(v));
            if i < p.len() {
                assert(p[i] == rs[i]);
                let k = choose|k: int| 0 <= k < vs.len() && vs[k] == v;
                assert(cs[k] == v);
            } else {
                assert(cs == vs.push(v));
                assert(cs[vs.len() as int] == v);
            }
            assert(cs.contains(v));
        }
        if cs.contains(v) {
            let k = choose|k: int| 0 <= k < cs.len() && cs[k] == v;
            if k < vs.len() {
                assert(vs[k] == v);
                assert(vs.contains(v));
                let i = choose|i: int| 0 <= i < p.len() && #[trigger] p[i] == Some(Ok::<VValue, VError>(v));
                assert(rs[i] == p[i]);
            } else {
                assert(rs[rs.len() - 1] == Some(Ok::<VValue, VError>(v)));
            }
        }
    }
}

/// A text value, or null.
pub fn opt_text_value(s: &Option<String>) -> (r: Value)
    ensures
        r@ == opt_text(*s),
{
    match s {
        Some(t) => Value::String(t.clone()),
        None => Value::Null,
    }
}

/// Appends `key: v` to the entries of an object under construction.
pub fn push_entry(entries: &mut Vec<(String, Value)>, key: &str, v: Value)
    ensures
        view_entries(final(entries)@) == view_entries(old(entries)@).push((key@, v@)),
{
    let e = (key.to_owned(), v);
    proof {
        lemma_view_entries_push(entries@, e);
    }
    entries.push(e);
}

/// Appends `v` to the items of a list under construction.
pub fn push_item(items: &mut Vec<Value>, v: Value)
    ensures
        view_items(final(items)@) == view_items(old(items)@).push(v@),
{
    proof {
        lemma_view_items_push(items@, v);
    }
    items.push(v);
}

} // verus!
