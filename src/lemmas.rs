use vstd::prelude::*;

use crate::input::{
    Input, annotation_texts, filtered_annotation, full_annotation, is_excepted, without_exceptions,
};
use crate::tokens::{capability_names, split_commas, texts, trim};

verus! {

proof fn lemma_split_no_comma(a: Seq<char>)
    requires
        !a.contains(','),
    ensures
        split_commas(a) == seq![a],
    decreases a.len(),
{
    if a.len() > 0 {
        let b = a.drop_last();
        assert(!b.contains(',')) by {
            if b.contains(',') {
                let k = choose|k: int| 0 <= k < b.len() && b[k] == ',';
                assert(a[k] == ',');
            }
        }
        lemma_split_no_comma(b);
        assert(a.last() != ',') by {
            assert(a[a.len() - 1] == a.last());
        }
        assert(b.push(a.last()) =~= a);
        assert(split_commas(a) =~= seq![a]);
    } else {
        assert(a =~= Seq::<char>::empty());
    }
}

proof fn lemma_split_nonempty(s: Seq<char>)
    ensures
        split_commas(s).len() >= 1,
    decreases s.len(),
{
    if s.len() > 0 {
        lemma_split_nonempty(s.drop_last());
    }
}

proof fn lemma_split_at_comma(a: Seq<char>, b: Seq<char>)
    ensures
        split_commas(a + seq![','] + b) == split_commas(a) + split_commas(b),
    decreases b.len(),
{
    let s = a + seq![','] + b;
    if b.len() == 0 {
        assert(s.drop_last() =~= a);
        assert(split_commas(s) =~= split_commas(a) + split_commas(b));
    } else {
        let b0 = b.drop_last();
        lemma_split_at_comma(a, b0);
        lemma_split_nonempty(b0);
        assert(s.drop_last() =~= a + seq![','] + b0);
        assert(s.last() == b.last());
        assert(split_commas(s) =~= split_commas(a) + split_commas(b));
    }
}

/// A comma-separated list of capabilities reads, from the front, as the first
/// name trimmed, then the names after the first comma: order and repetitions
/// are kept, and a list without a comma is one name.
pub proof fn lemma_capability_list(a: Seq<char>, b: Seq<char>)
    requires
        !a.contains(','),
    ensures
        capability_names(a) == seq![trim(a)],
        capability_names(a + seq![','] + b) == seq![trim(a)] + capability_names(b),
{
    lemma_split_no_comma(a);
    lemma_split_at_comma(a, b);
    assert(capability_names(a) =~= seq![trim(a)]);
    assert(capability_names(a + seq![','] + b) =~= seq![trim(a)] + capability_names(b));
}

/// With no capabilities requested, neither annotation attaches anything.
pub proof fn lemma_no_capabilities(s: Input)
    requires
        s.derives@.len() == 0,
    ensures
        full_annotation(texts(s.derives@)) is None,
        filtered_annotation(texts(s.derives@)) is None,
{
}

proof fn lemma_without_exceptions_contains(caps: Seq<Seq<char>>, x: Seq<char>)
    ensures
        without_exceptions(caps).contains(x) <==> caps.contains(x) && !is_excepted(x),
    decreases caps.len(),
{
    reveal(Seq::filter);
    if caps.len() > 0 {
        let rest = caps.drop_last();
        lemma_without_exceptions_contains(rest, x);
        assert(caps =~= rest.push(caps.last()));
        if caps.contains(x) && x != caps.last() {
            let k = choose|k: int| 0 <= k < caps.len() && caps[k] == x;
            assert(rest[k] == x);
        }
        if without_exceptions(caps).contains(x) && x != caps.last() {
            let w = without_exceptions(caps);
            let k = choose|k: int| 0 <= k < w.len() && w[k] == x;
            if !is_excepted(caps.last()) {
                assert(without_exceptions(rest)[k] == x);
            }
        }
        if x == caps.last() && !is_excepted(x) {
            let w = without_exceptions(caps);
            assert(w[w.len() - 1] == x);
        }
        if rest.contains(x) && !is_excepted(x) {
            let w = without_exceptions(rest);
            let k = choose|k: int| 0 <= k < w.len() && w[k] == x;
            if !is_excepted(caps.last()) {
                assert(without_exceptions(caps)[k] == x);
            }
        }
    }
}

/// The full annotation keeps every requested capability; the filtered one is
/// the requested capabilities in their order with exactly `Clone`,
/// `Deserialize` and `Serialize` left out, wherever and however often they
/// stand.
pub proof fn lemma_exceptions(s: Input, x: Seq<char>)
    requires
        s.derives@.len() > 0,
    ensures
        full_annotation(texts(s.derives@)) == Some(texts(s.derives@)),
        filtered_annotation(texts(s.derives@)) == Some(
            texts(s.derives@).filter(|c: Seq<char>| !is_excepted(c)),
        ),
        filtered_annotation(texts(s.derives@))->Some_0.contains(x) <==> texts(s.derives@).contains(x)
            && !is_excepted(x),
{
    lemma_without_exceptions_contains(texts(s.derives@), x);
}

/// Two calls of a name query on one record give the same name.
pub proof fn lemma_names_repeatable(s: Input, suffix: Seq<char>, x: String, y: String)
    requires
        x@ == s.name@ + suffix,
        y@ == s.name@ + suffix,
    ensures
        x@ == y@,
{
}

/// Two calls of an annotation query on one record give the same annotation.
pub proof fn lemma_annotations_repeatable(s: Input, a: Option<Vec<String>>, b: Option<Vec<String>>)
    ensures
        annotation_texts(a) == full_annotation(texts(s.derives@)) && annotation_texts(b)
            == full_annotation(texts(s.derives@)) ==> annotation_texts(a) == annotation_texts(b),
        annotation_texts(a) == filtered_annotation(texts(s.derives@)) && annotation_texts(b)
            == filtered_annotation(texts(s.derives@)) ==> annotation_texts(a) == annotation_texts(b),
{
}

} // verus!
