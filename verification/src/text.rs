//! Building blocks for assembling text: joining fragments with a separator.

use vstd::prelude::*;

verus! {

/// The fragments of `parts` written one after another, with `sep` between
/// each two neighbours (and none before the first or after the last).
pub open spec fn joined(parts: Seq<Seq<char>>, sep: Seq<char>) -> Seq<char>
    decreases parts.len(),
{
    if parts.len() == 0 {
        Seq::empty()
    } else if parts.len() == 1 {
        parts[0]
    } else {
        joined(parts.drop_last(), sep) + sep + parts.last()
    }
}

/// The views of the strings of `items`, in order.
pub open spec fn texts(items: Seq<String>) -> Seq<Seq<char>> {
    Seq::new(items.len(), |i: int| items[i]@)
}

/// Joins `items` with `sep` between neighbours.
pub fn join(items: &Vec<String>, sep: &str) -> (out: String)
    ensures
        out@ == joined(texts(items@), sep@),
{
    let mut out = String::new();
    let mut i: usize = 0;
    while i < items.len()
        invariant
            i <= items.len(),
            out@ == joined(texts(items@).take(i as int), sep@),
        decreases items.len() - i,
    {
        proof {
            let next = texts(items@).take(i + 1);
            assert(next.drop_last() == texts(items@).take(i as int));
            assert(next.last() == items@[i as int]@);
        }
        if i > 0 {
            out.append(sep);
        }
        out.append(items[i].as_str());
        i = i + 1;
    }
    proof {
        assert(texts(items@).take(items.len() as int) == texts(items@));
    }
    out
}


/// The texts of `results`, if every one of them is a success; else the
/// failure that comes first.
pub open spec fn collected<E>(results: Seq<Result<Seq<char>, E>>) -> Result<Seq<Seq<char>>, E>
    decreases results.len(),
{
    if results.len() == 0 {
        Ok(Seq::empty())
    } else {
        match collected(results.drop_last()) {
            Err(e) => Err(e),
            Ok(done) => match results.last() {
                Err(e) => Err(e),
                Ok(t) => Ok(done.push(t)),
            },
        }
    }
}

/// A failure at position `at`, with only successes before it, is the outcome
/// of the whole sequence, whatever follows.
pub proof fn lemma_collected_first_failure<E>(results: Seq<Result<Seq<char>, E>>, at: int)
    requires
        0 <= at < results.len(),
        collected(results.take(at)) is Ok,
        results[at] is Err,
    ensures
        collected(results) == Err::<Seq<Seq<char>>, E>(results[at]->Err_0),
    decreases results.len(),
{
    if at == results.len() - 1 {
        assert(results.drop_last() == results.take(at));
    } else {
        assert(results.drop_last().take(at) == results.take(at));
        lemma_collected_first_failure(results.drop_last(), at);
    }
}

/// One more success after a run of successes extends the run.
pub proof fn lemma_collected_next_success<E>(results: Seq<Result<Seq<char>, E>>, at: int)
    requires
        0 <= at < results.len(),
        collected(results.take(at)) is Ok,
        results[at] is Ok,
    ensures
        collected(results.take(at + 1)) == Ok::<Seq<Seq<char>>, E>(
            collected(results.take(at))->Ok_0.push(results[at]->Ok_0),
        ),
{
    assert(results.take(at + 1).drop_last() == results.take(at));
}

/// A sequence of results is collected without failure exactly when none of
/// them is a failure, and then holds the text of each, in order.
pub proof fn lemma_collected_all<E>(results: Seq<Result<Seq<char>, E>>)
    ensures
        collected(results) is Ok <==> forall|i: int| 0 <= i < results.len() ==> (#[trigger] results[i]) is Ok,
        collected(results) is Ok ==> collected(results)->Ok_0.len() == results.len(),
        collected(results) is Ok ==> forall|i: int|
            0 <= i < results.len() ==> (#[trigger] results[i])->Ok_0 == collected(results)->Ok_0[i],
    decreases results.len(),
{
    if results.len() > 0 {
        let front = results.drop_last();
        lemma_collected_all(front);
        assert forall|i: int| 0 <= i < front.len() implies front[i] == results[i] by {}
        if collected(results) is Ok {
            assert forall|i: int| 0 <= i < results.len() implies (#[trigger] results[i]) is Ok by {
                if i < front.len() {
                    assert(front[i] is Ok);
                }
            }
            assert forall|i: int| 0 <= i < results.len() implies (#[trigger] results[i])->Ok_0 == collected(
                results,
            )->Ok_0[i] by {
                if i < front.len() {
                    assert(front[i]->Ok_0 == collected(front)->Ok_0[i]);
                }
            }
        }
        if forall|i: int| 0 <= i < results.len() ==> (#[trigger] results[i]) is Ok {
            assert forall|i: int| 0 <= i < front.len() implies (#[trigger] front[i]) is Ok by {
                assert(results[i] is Ok);
            }
            assert(results[results.len() - 1] is Ok);
        }
    }
}

/// Whether `needle` stands in `hay` from position `at` on.
pub open spec fn occurs_at(needle: Seq<char>, hay: Seq<char>, at: int) -> bool {
    0 <= at && at + needle.len() <= hay.len() && hay.subrange(at, at + needle.len()) == needle
}

/// Whether `needle` stands somewhere in `hay`, character for character.
pub open spec fn occurs_in(needle: Seq<char>, hay: Seq<char>) -> bool {
    exists|at: int| occurs_at(needle, hay, at)
}

/// What stands in a text stands in every text that holds it.
pub proof fn lemma_occurs_within(needle: Seq<char>, before: Seq<char>, hay: Seq<char>, after: Seq<char>)
    requires
        occurs_in(needle, hay),
    ensures
        occurs_in(needle, before + hay + after),
{
    let at = choose|at: int| occurs_at(needle, hay, at);
    let whole = before + hay + after;
    assert(whole.subrange(before.len() + at, before.len() + at + needle.len()) =~= hay.subrange(
        at,
        at + needle.len(),
    ));
    assert(occurs_at(needle, whole, before.len() + at));
}

/// What stands in one of the parts stands in the parts joined.
pub proof fn lemma_occurs_in_joined(needle: Seq<char>, parts: Seq<Seq<char>>, sep: Seq<char>, i: int)
    requires
        0 <= i < parts.len(),
        occurs_in(needle, parts[i]),
    ensures
        occurs_in(needle, joined(parts, sep)),
    decreases parts.len(),
{
    let none = Seq::<char>::empty();
    if parts.len() == 1 {
    } else if i == parts.len() - 1 {
        lemma_occurs_within(needle, joined(parts.drop_last(), sep) + sep, parts.last(), none);
        assert(joined(parts.drop_last(), sep) + sep + parts.last() + none =~= joined(parts, sep));
    } else {
        lemma_occurs_in_joined(needle, parts.drop_last(), sep, i);
        lemma_occurs_within(needle, none, joined(parts.drop_last(), sep), sep + parts.last());
        assert(none + joined(parts.drop_last(), sep) + (sep + parts.last()) =~= joined(parts, sep));
    }
}

/// With a longer separator the joined text grows by the difference, once
/// for each gap between two parts.
pub proof fn lemma_joined_len(parts: Seq<Seq<char>>, short: Seq<char>, long: Seq<char>)
    requires
        parts.len() >= 1,
    ensures
        joined(parts, long).len() - joined(parts, short).len() == (parts.len() - 1) * (long.len()
            - short.len()),
    decreases parts.len(),
{
    let gaps = parts.len() - 1;
    let growth = long.len() - short.len();
    if parts.len() > 1 {
        lemma_joined_len(parts.drop_last(), short, long);
        assert(parts.drop_last().len() - 1 == gaps - 1);
        assert(gaps * growth == (gaps - 1) * growth + growth) by (nonlinear_arith);
    } else {
        assert(gaps * growth == 0) by (nonlinear_arith)
            requires
                gaps == 0,
        ;
    }
}

} // verus!
