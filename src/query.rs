use crate::fields::opt_string_view;
use crate::json::texts_view;
use vstd::prelude::*;
use vstd::string::*;

verus! {

/// Terms joined by `&`, in order.
pub open spec fn join_terms(terms: Seq<Seq<char>>) -> Seq<char>
    decreases terms.len(),
{
    if terms.len() == 0 {
        Seq::empty()
    } else if terms.len() == 1 {
        terms[0]
    } else {
        join_terms(terms.drop_last()) + "&"@ + terms.last()
    }
}

/// The term `key=value` where a value is given, else no term.
pub open spec fn term(key: Seq<char>, value: Option<Seq<char>>) -> Seq<Seq<char>> {
    match value {
        Some(v) => seq![key + "="@ + v],
        None => Seq::empty(),
    }
}

pub open spec fn bool_text(b: bool) -> Seq<char> {
    if b {
        "true"@
    } else {
        "false"@
    }
}

/// The query is empty exactly when there are no terms, and a single term
/// stands alone.
pub proof fn lemma_join_terms(terms: Seq<Seq<char>>)
    requires
        forall|i: int| 0 <= i < terms.len() ==> (#[trigger] terms[i]).len() > 0,
    ensures
        join_terms(terms).len() == 0 <==> terms.len() == 0,
        terms.len() == 1 ==> join_terms(terms) == terms[0],
    decreases terms.len(),
{
    if terms.len() > 1 {
        let last = terms.last();
        assert(last == terms[terms.len() - 1]);
        assert((join_terms(terms.drop_last()) + "&"@ + last).len() >= last.len());
    } else if terms.len() == 1 {
        assert(terms[0].len() > 0);
    }
}

pub fn bool_string(b: bool) -> (r: String)
    ensures
        r@ == bool_text(b),
{
    if b {
        String::from_str("true")
    } else {
        String::from_str("false")
    }
}

/// Appends the term `key=value` where a value is given.
pub fn push_term(terms: &mut Vec<String>, key: &str, value: Option<String>)
    ensures
        texts_view(final(terms)@) == texts_view(old(terms)@) + term(key@, opt_string_view(value)),
{
    match value {
        Some(v) => {
            let mut t = String::from_str(key);
            t.append("=");
            t.append(v.as_str());
            terms.push(t);
            assert(texts_view(final(terms)@) =~= texts_view(old(terms)@) + seq![key@ + "="@ + v@]);
        },
        None => {
            assert(texts_view(final(terms)@) =~= texts_view(old(terms)@) + Seq::<Seq<char>>::empty());
        },
    }
}

/// The terms joined by `&`.
pub fn join_query(terms: &Vec<String>) -> (r: String)
    ensures
        r@ == join_terms(texts_view(terms@)),
{
    let ghost tv = texts_view(terms@);
    let mut r = String::new();
    let mut i: usize = 0;
    assert(tv.take(0) =~= Seq::<Seq<char>>::empty());
    while i < terms.len()
        invariant
            i <= terms@.len(),
            tv == texts_view(terms@),
            r@ == join_terms(tv.take(i as int)),
        decreases terms@.len() - i,
    {
        assert(tv.take(i + 1).drop_last() =~= tv.take(i as int));
        assert(tv.take(i + 1).last() == terms@[i as int]@);
        if i > 0 {
            r.append("&");
            r.append(terms[i].as_str());
        } else {
            r.append(terms[i].as_str());
            assert(r@ =~= tv.take(1)[0]);
        }
        i = i + 1;
    }
    assert(tv.take(i as int) =~= tv);
    r
}

} // verus!
