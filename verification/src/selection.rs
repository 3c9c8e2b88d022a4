//! Choosing the words of a review: which stored words qualify, in what order
//! they are shown, and how many of them at most.

use vstd::prelude::*;
use crate::db::models::Word;

verus! {

/// The two reviews that pick their words by a criterion.
#[derive(Debug, Clone, Copy, PartialEq, Eq)]
pub enum Criterion {
    /// Words the user has marked, the most recently seen first.
    Marked,
    /// Words that were answered before, the least accurate first.
    Weak,
}

/// No review by a criterion shows more words than this.
pub const SELECTION_LIMIT: usize = 20;

/// Whether a word qualifies for the review.  A word that was never answered
/// has no accuracy, so it is never weak.
pub open spec fn eligible(c: Criterion, w: Word) -> bool {
    match c {
        Criterion::Marked => w.marked,
        Criterion::Weak => w.times_seen > 0,
    }
}

/// `eligible` as a predicate on words.
pub open spec fn eligible_under(c: Criterion) -> spec_fn(Word) -> bool {
    |w: Word| eligible(c, w)
}

/// Whether `a` has to come before `b`.  For marked words the later
/// `last_seen` comes first.  For weak words the smaller share of right
/// answers comes first: `a.success_count / a.times_seen` is less than
/// `b.success_count / b.times_seen`, written without the division.
pub open spec fn precedes(c: Criterion, a: Word, b: Word) -> bool {
    match c {
        Criterion::Marked => a.last_seen > b.last_seen,
        Criterion::Weak => a.success_count * b.times_seen < b.success_count * a.times_seen,
    }
}

/// No word of `s` has to come before an earlier one.
pub open spec fn in_order(c: Criterion, s: Seq<Word>) -> bool {
    forall|i: int, j: int| 0 <= i < j < s.len() ==> !precedes(c, #[trigger] s[j], #[trigger] s[i])
}

/// `w` put into the ranked sequence `s`: behind every word that it does not
/// precede, so words of equal rank keep the order in which they came.
pub open spec fn place(c: Criterion, s: Seq<Word>, w: Word) -> Seq<Word>
    decreases s.len(),
{
    if s.len() > 0 && precedes(c, w, s.last()) {
        place(c, s.drop_last(), w).push(s.last())
    } else {
        s.push(w)
    }
}

/// The words of `s` in the order of the review; words of equal rank stay in
/// the order they have in `s`.
pub open spec fn ranked(c: Criterion, s: Seq<Word>) -> Seq<Word>
    decreases s.len(),
{
    if s.len() == 0 {
        s
    } else {
        place(c, ranked(c, s.drop_last()), s.last())
    }
}

/// The words that a review by `c` shows, given the stored rows: those that
/// qualify, in the order of the review, cut off at the limit.
pub open spec fn selection(c: Criterion, rows: Seq<Word>) -> Seq<Word> {
    let all = ranked(c, rows.filter(eligible_under(c)));
    if all.len() <= SELECTION_LIMIT {
        all
    } else {
        all.take(SELECTION_LIMIT as int)
    }
}

/// What every review by `c` is: words that qualify, no more than the limit,
/// in the order of the review.
pub open spec fn is_review(c: Criterion, words: Seq<Word>) -> bool {
    &&& words.len() <= SELECTION_LIMIT
    &&& forall|i: int| 0 <= i < words.len() ==> eligible(c, #[trigger] words[i])
    &&& in_order(c, words)
}

/// Among words that qualify, "does not precede" is transitive.
pub proof fn lemma_not_precedes_transitive(c: Criterion, x: Word, y: Word, z: Word)
    requires
        eligible(c, x),
        eligible(c, y),
        eligible(c, z),
        !precedes(c, y, x),
        !precedes(c, z, y),
    ensures
        !precedes(c, z, x),
{
    if c == Criterion::Weak {
        let (xs, xt) = (x.success_count as int, x.times_seen as int);
        let (ys, yt) = (y.success_count as int, y.times_seen as int);
        let (zs, zt) = (z.success_count as int, z.times_seen as int);
        assert(xs * yt <= ys * xt);
        assert(ys * zt <= zs * yt);
        assert(xs * zt <= zs * xt) by (nonlinear_arith)
            requires
                xs * yt <= ys * xt,
                ys * zt <= zs * yt,
                xt > 0,
                yt > 0,
                zt > 0,
                xs >= 0,
                ys >= 0,
                zs >= 0,
        {
            assert((xs * yt) * zt <= (ys * xt) * zt);
            assert((ys * zt) * xt <= (zs * yt) * xt);
            assert((xs * zt) * yt <= (zs * xt) * yt);
        }
    }
}

/// `place` adds one word and keeps the others.
pub proof fn lemma_place_content(c: Criterion, s: Seq<Word>, w: Word)
    ensures
        place(c, s, w).len() == s.len() + 1,
        place(c, s, w).to_multiset() == s.to_multiset().insert(w),
        forall|x: Word| #[trigger] place(c, s, w).contains(x) <==> (x == w || s.contains(x)),
    decreases s.len(),
{
    broadcast use vstd::seq_lib::group_to_multiset_ensures;

    if s.len() > 0 && precedes(c, w, s.last()) {
        let front = s.drop_last();
        lemma_place_content(c, front, w);
        assert(front.push(s.last()) =~= s);
        assert(place(c, s, w).to_multiset() =~= s.to_multiset().insert(w));
        assert forall|x: Word| #[trigger] place(c, s, w).contains(x) <==> (x == w || s.contains(x)) by {
            lemma_contains_push(place(c, front, w), s.last(), x);
            lemma_contains_push(front, s.last(), x);
        }
    } else {
        assert forall|x: Word| #[trigger] place(c, s, w).contains(x) <==> (x == w || s.contains(x)) by {
            lemma_contains_push(s, w, x);
        }
    }
}

/// A word is in `s.push(last)` exactly when it is `last` or in `s`.
pub proof fn lemma_contains_push(s: Seq<Word>, last: Word, x: Word)
    ensures
        s.push(last).contains(x) <==> (x == last || s.contains(x)),
{
    let t = s.push(last);
    if s.contains(x) {
        let i = choose|i: int| 0 <= i < s.len() && s[i] == x;
        assert(t[i] == x);
    }
    if x == last {
        assert(t[s.len() as int] == x);
    }
    if t.contains(x) {
        let i = choose|i: int| 0 <= i < t.len() && t[i] == x;
        if i < s.len() {
            assert(s[i] == x);
        }
    }
}

/// Placing a word into a sequence that is in order leaves it in order.
pub proof fn lemma_place_in_order(c: Criterion, s: Seq<Word>, w: Word)
    requires
        in_order(c, s),
        eligible(c, w),
        forall|i: int| 0 <= i < s.len() ==> eligible(c, #[trigger] s[i]),
    ensures
        in_order(c, place(c, s, w)),
    decreases s.len(),
{
    let r = place(c, s, w);
    if s.len() > 0 && precedes(c, w, s.last()) {
        let front = s.drop_last();
        let inner = place(c, front, w);
        lemma_place_in_order(c, front, w);
        lemma_place_content(c, front, w);
        assert forall|i: int, j: int| 0 <= i < j < r.len() implies !precedes(c, #[trigger] r[j], #[trigger] r[i]) by {
            if j < inner.len() {
                assert(r[i] == inner[i] && r[j] == inner[j]);
            } else {
                assert(r[j] == s.last());
                assert(r[i] == inner[i]);
                assert(inner.contains(inner[i]));
                if inner[i] == w {
                    lemma_precedes_asymmetric(c, w, s.last());
                } else {
                    assert(front.contains(inner[i]));
                    let k = choose|k: int| 0 <= k < front.len() && front[k] == inner[i];
                    assert(s[k] == inner[i]);
                    assert(!precedes(c, s[s.len() - 1], s[k]));
                }
            }
        }
    } else {
        assert forall|i: int, j: int| 0 <= i < j < r.len() implies !precedes(c, #[trigger] r[j], #[trigger] r[i]) by {
            if j < s.len() {
                assert(r[i] == s[i] && r[j] == s[j]);
            } else {
                assert(r[j] == w);
                assert(r[i] == s[i]);
                if i < s.len() - 1 {
                    assert(!precedes(c, s[s.len() - 1], s[i]));
                    lemma_not_precedes_transitive(c, s[i], s.last(), w);
                }
            }
        }
    }
}

/// Of two words at most one precedes the other.
pub proof fn lemma_precedes_asymmetric(c: Criterion, a: Word, b: Word)
    requires
        precedes(c, a, b),
    ensures
        !precedes(c, b, a),
{
}

/// `ranked` keeps every word, as often as it occurs.
pub proof fn lemma_ranked_content(c: Criterion, s: Seq<Word>)
    ensures
        ranked(c, s).len() == s.len(),
        ranked(c, s).to_multiset() == s.to_multiset(),
        forall|x: Word| #[trigger] ranked(c, s).contains(x) <==> s.contains(x),
    decreases s.len(),
{
    broadcast use vstd::seq_lib::group_to_multiset_ensures;

    if s.len() > 0 {
        let front = s.drop_last();
        lemma_ranked_content(c, front);
        lemma_place_content(c, ranked(c, front), s.last());
        assert(front.push(s.last()) =~= s);
        assert(ranked(c, s).to_multiset() =~= s.to_multiset());
        assert forall|x: Word| #[trigger] ranked(c, s).contains(x) <==> s.contains(x) by {
            lemma_contains_push(front, s.last(), x);
        }
    }
}

/// Ranking words that qualify gives words that qualify.
pub proof fn lemma_ranked_qualifies(c: Criterion, s: Seq<Word>)
    requires
        forall|i: int| 0 <= i < s.len() ==> eligible(c, #[trigger] s[i]),
    ensures
        forall|i: int| 0 <= i < ranked(c, s).len() ==> eligible(c, #[trigger] ranked(c, s)[i]),
{
    lemma_ranked_content(c, s);
    let r = ranked(c, s);
    assert forall|i: int| 0 <= i < r.len() implies eligible(c, #[trigger] r[i]) by {
        assert(r.contains(r[i]));
        assert(s.contains(r[i]));
        let k = choose|k: int| 0 <= k < s.len() && s[k] == r[i];
        assert(eligible(c, s[k]));
    }
}

/// `ranked` puts words that qualify in order.
pub proof fn lemma_ranked_in_order(c: Criterion, s: Seq<Word>)
    requires
        forall|i: int| 0 <= i < s.len() ==> eligible(c, #[trigger] s[i]),
    ensures
        in_order(c, ranked(c, s)),
    decreases s.len(),
{
    if s.len() > 0 {
        let front = s.drop_last();
        assert forall|i: int| 0 <= i < front.len() implies eligible(c, #[trigger] front[i]) by {
            assert(front[i] == s[i]);
        }
        lemma_ranked_in_order(c, front);
        lemma_ranked_qualifies(c, front);
        let mid = ranked(c, front);
        lemma_place_in_order(c, mid, s.last());
    }
}

/// What `selection` promises: it shows only words of `rows` that qualify,
/// never more than the limit, all of them where they are that few, and
/// always in the order of the review.
pub proof fn lemma_selection(c: Criterion, rows: Seq<Word>)
    ensures
        selection(c, rows).len() <= SELECTION_LIMIT,
        selection(c, rows).len() <= rows.len(),
        rows.filter(eligible_under(c)).len() <= SELECTION_LIMIT ==> selection(c, rows).len()
            == rows.filter(eligible_under(c)).len(),
        rows.filter(eligible_under(c)).len() > SELECTION_LIMIT ==> selection(c, rows).len()
            == SELECTION_LIMIT,
        forall|i: int|
            0 <= i < selection(c, rows).len() ==> eligible(c, #[trigger] selection(c, rows)[i])
                && rows.contains(selection(c, rows)[i]),
        in_order(c, selection(c, rows)),
{
    let fit = rows.filter(eligible_under(c));
    let all = ranked(c, fit);
    let picked = selection(c, rows);
    rows.lemma_filter_len(eligible_under(c));
    assert forall|i: int| 0 <= i < fit.len() implies eligible(c, #[trigger] fit[i]) by {
        rows.lemma_filter_pred(eligible_under(c), i);
    }
    lemma_ranked_content(c, fit);
    lemma_ranked_in_order(c, fit);
    assert forall|i: int| 0 <= i < picked.len() implies eligible(c, #[trigger] picked[i])
        && rows.contains(picked[i]) by {
        assert(picked[i] == all[i]);
        assert(all.contains(all[i]));
        assert(fit.contains(all[i]));
        let k = choose|k: int| 0 <= k < fit.len() && fit[k] == all[i];
        assert(eligible(c, fit[k]));
        rows.lemma_filter_contains_rev(eligible_under(c), all[i]);
    }
    assert forall|i: int, j: int| 0 <= i < j < picked.len() implies !precedes(
        c,
        #[trigger] picked[j],
        #[trigger] picked[i],
    ) by {
        assert(picked[i] == all[i] && picked[j] == all[j]);
    }
}

/// Having the rank of `w`: neither coming before `w` nor after it.
pub open spec fn ties_with(c: Criterion, w: Word) -> spec_fn(Word) -> bool {
    |x: Word| !precedes(c, x, w) && !precedes(c, w, x)
}

/// Placing a word leaves the words of any one rank in their order, and puts
/// the word behind those of its own rank.
pub proof fn lemma_place_is_stable(c: Criterion, s: Seq<Word>, x: Word, w: Word)
    requires
        eligible(c, x),
        eligible(c, w),
        forall|i: int| 0 <= i < s.len() ==> eligible(c, #[trigger] s[i]),
    ensures
        place(c, s, x).filter(ties_with(c, w)) == if ties_with(c, w)(x) {
            s.filter(ties_with(c, w)).push(x)
        } else {
            s.filter(ties_with(c, w))
        },
    decreases s.len(),
{
    let tie = ties_with(c, w);
    if s.len() > 0 && precedes(c, x, s.last()) {
        let front = s.drop_last();
        let last = s.last();
        assert forall|i: int| 0 <= i < front.len() implies eligible(c, #[trigger] front[i]) by {
            assert(front[i] == s[i]);
        }
        lemma_place_is_stable(c, front, x, w);
        place(c, front, x).lemma_filter_push(last, tie);
        front.lemma_filter_push(last, tie);
        assert(front.push(last) =~= s);
        assert(eligible(c, s[s.len() - 1]));
        if tie(x) && tie(last) {
            lemma_not_precedes_transitive(c, last, w, x);
        }
    } else {
        s.lemma_filter_push(x, tie);
    }
}

/// Ranking is stable: the words of any one rank come out in the order in
/// which they went in.
pub proof fn lemma_ranked_is_stable(c: Criterion, s: Seq<Word>, w: Word)
    requires
        eligible(c, w),
        forall|i: int| 0 <= i < s.len() ==> eligible(c, #[trigger] s[i]),
    ensures
        ranked(c, s).filter(ties_with(c, w)) == s.filter(ties_with(c, w)),
    decreases s.len(),
{
    if s.len() > 0 {
        let front = s.drop_last();
        assert forall|i: int| 0 <= i < front.len() implies eligible(c, #[trigger] front[i]) by {
            assert(front[i] == s[i]);
        }
        lemma_ranked_is_stable(c, front, w);
        lemma_ranked_qualifies(c, front);
        let mid = ranked(c, front);
        assert(eligible(c, s[s.len() - 1]));
        lemma_place_is_stable(c, mid, s.last(), w);
        front.lemma_filter_push(s.last(), ties_with(c, w));
        assert(front.push(s.last()) =~= s);
    }
}

/// Ranking leaves words alone that are in order already.
pub proof fn lemma_ranked_in_order_already(c: Criterion, s: Seq<Word>)
    requires
        in_order(c, s),
    ensures
        ranked(c, s) == s,
    decreases s.len(),
{
    if s.len() > 0 {
        let front = s.drop_last();
        assert forall|i: int, j: int| 0 <= i < j < front.len() implies !precedes(
            c,
            #[trigger] front[j],
            #[trigger] front[i],
        ) by {
            assert(front[i] == s[i] && front[j] == s[j]);
        }
        lemma_ranked_in_order_already(c, front);
        if front.len() > 0 {
            assert(front.last() == s[s.len() - 2]);
            assert(!precedes(c, s[s.len() - 1], s[s.len() - 2]));
        }
        assert(front.push(s.last()) =~= s);
    }
}

/// Words that all qualify are all kept.
pub proof fn lemma_filter_keeps_all(c: Criterion, s: Seq<Word>)
    requires
        forall|i: int| 0 <= i < s.len() ==> eligible(c, #[trigger] s[i]),
    ensures
        s.filter(eligible_under(c)) == s,
    decreases s.len(),
{
    reveal(Seq::filter);
    if s.len() > 0 {
        let front = s.drop_last();
        assert forall|i: int| 0 <= i < front.len() implies eligible(c, #[trigger] front[i]) by {
            assert(front[i] == s[i]);
        }
        lemma_filter_keeps_all(c, front);
        assert(eligible(c, s[s.len() - 1]));
        assert(front.push(s.last()) =~= s);
    }
}

/// Rows that are a review already are selected as they are.  So selecting
/// once more from a selection changes nothing.
pub proof fn lemma_selection_of_review(c: Criterion, rows: Seq<Word>)
    ensures
        is_review(c, rows) ==> selection(c, rows) == rows,
        selection(c, selection(c, rows)) == selection(c, rows),
{
    if is_review(c, rows) {
        lemma_filter_keeps_all(c, rows);
        lemma_ranked_in_order_already(c, rows);
    }
    lemma_selection(c, rows);
    let picked = selection(c, rows);
    lemma_filter_keeps_all(c, picked);
    lemma_ranked_in_order_already(c, picked);
}

/// A word of the selection that has to come before another one does come
/// before it.
pub proof fn lemma_selection_respects_precedence(c: Criterion, rows: Seq<Word>, i: int, j: int)
    requires
        0 <= i < selection(c, rows).len(),
        0 <= j < selection(c, rows).len(),
        precedes(c, selection(c, rows)[i], selection(c, rows)[j]),
    ensures
        i < j,
{
    lemma_selection(c, rows);
    let picked = selection(c, rows);
    if j < i {
        assert(!precedes(c, picked[i], picked[j]));
    }
}

/// A weak review never shows a word that was not answered yet.
pub proof fn lemma_weak_selection_was_seen(rows: Seq<Word>, i: int)
    requires
        0 <= i < selection(Criterion::Weak, rows).len(),
    ensures
        selection(Criterion::Weak, rows)[i].times_seen > 0,
{
    lemma_selection(Criterion::Weak, rows);
}

/// Being of the group `group_id`, as a predicate on words.
pub open spec fn of_group(group_id: i32) -> spec_fn(Word) -> bool {
    |w: Word| w.group_id == group_id
}

/// The rows of one group, in the order in which they are stored.
pub open spec fn group_rows(rows: Seq<Word>, group_id: i32) -> Seq<Word> {
    rows.filter(of_group(group_id))
}

/// Whether a word qualifies for the review.
pub fn is_eligible(c: Criterion, w: &Word) -> (b: bool)
    ensures
        b == eligible(c, *w),
{
    match c {
        Criterion::Marked => w.marked,
        Criterion::Weak => w.times_seen > 0,
    }
}

/// Whether `a` has to come before `b` in the review.
pub fn ranks_before(c: Criterion, a: &Word, b: &Word) -> (r: bool)
    ensures
        r == precedes(c, *a, *b),
{
    match c {
        Criterion::Marked => a.last_seen > b.last_seen,
        Criterion::Weak => {
            proof {
                lemma_product_fits(a.success_count, b.times_seen);
                lemma_product_fits(b.success_count, a.times_seen);
            }
            let left: u32 = (a.success_count as u32) * (b.times_seen as u32);
            let right: u32 = (b.success_count as u32) * (a.times_seen as u32);
            left < right
        },
    }
}

/// The product of two counts fits in 32 bits.
proof fn lemma_product_fits(x: u8, y: u8)
    ensures
        0 <= x * y <= 0xFE01,
{
    assert(0 <= x * y <= 0xFE01) by (nonlinear_arith)
        requires
            0 <= x <= 0xFF,
            0 <= y <= 0xFF,
    ;
}

/// Where `w` goes in the ranked words `sorted`.
fn placement(c: Criterion, sorted: &Vec<Word>, w: &Word) -> (at: usize)
    ensures
        at <= sorted.len(),
        sorted@.insert(at as int, *w) == place(c, sorted@, *w),
{
    let mut at: usize = sorted.len();
    while at > 0 && ranks_before(c, w, &sorted[at - 1])
        invariant
            at <= sorted.len(),
            forall|k: int| at <= k < sorted.len() ==> precedes(c, *w, #[trigger] sorted@[k]),
        decreases at,
    {
        at -= 1;
    }
    proof {
        lemma_place_at(c, sorted@, *w, at as int);
    }
    at
}

/// `place` puts the word at the first position from which on it precedes
/// every word.
proof fn lemma_place_at(c: Criterion, s: Seq<Word>, w: Word, at: int)
    requires
        0 <= at <= s.len(),
        forall|k: int| at <= k < s.len() ==> precedes(c, w, #[trigger] s[k]),
        at > 0 ==> !precedes(c, w, s[at - 1]),
    ensures
        place(c, s, w) == s.insert(at, w),
    decreases s.len(),
{
    if s.len() > 0 && precedes(c, w, s.last()) {
        let front = s.drop_last();
        assert(at < s.len());
        assert forall|k: int| at <= k < front.len() implies precedes(c, w, #[trigger] front[k]) by {
            assert(front[k] == s[k]);
        }
        lemma_place_at(c, front, w, at);
        assert(front.insert(at, w).push(s.last()) =~= s.insert(at, w));
    } else {
        if at < s.len() {
            assert(precedes(c, w, s[s.len() - 1]));
        }
        assert(s.push(w) =~= s.insert(at, w));
    }
}

/// The words for a review by `c`, out of the stored `rows`.
pub fn select(c: Criterion, rows: Vec<Word>) -> (picked: Vec<Word>)
    ensures
        picked@ == selection(c, rows@),
        is_review(c, picked@),
        forall|i: int|
            0 <= i < picked.len() ==> rows@.contains(#[trigger] picked[i]),
{
    let ghost all_rows = rows@;
    let mut out: Vec<Word> = Vec::new();
    for w in it: rows
        invariant
            it.seq() == all_rows,
            out@ == ranked(c, all_rows.take(it.index()).filter(eligible_under(c))),
    {
        proof {
            let before = all_rows.take(it.index());
            assert(all_rows.take(it.index() + 1) =~= before.push(w));
            before.lemma_filter_push(w, eligible_under(c));
            if eligible(c, w) {
                assert(before.filter(eligible_under(c)).push(w).drop_last() =~= before.filter(
                    eligible_under(c),
                ));
            }
        }
        if is_eligible(c, &w) {
            let at = placement(c, &out, &w);
            out.insert(at, w);
        }
    }
    proof {
        assert(all_rows.take(all_rows.len() as int) =~= all_rows);
        lemma_selection(c, all_rows);
    }
    out.truncate(SELECTION_LIMIT);
    out
}

/// The words of one group, out of the stored `rows`, in the order in which
/// they are stored.
pub fn in_group(rows: Vec<Word>, group_id: i32) -> (kept: Vec<Word>)
    ensures
        kept@ == group_rows(rows@, group_id),
        forall|i: int| 0 <= i < kept.len() ==> (#[trigger] kept[i]).group_id == group_id,
{
    let ghost all_rows = rows@;
    let mut out: Vec<Word> = Vec::new();
    for w in it: rows
        invariant
            it.seq() == all_rows,
            out@ == all_rows.take(it.index()).filter(of_group(group_id)),
            forall|i: int| 0 <= i < out.len() ==> (#[trigger] out[i]).group_id == group_id,
    {
        proof {
            let before = all_rows.take(it.index());
            assert(all_rows.take(it.index() + 1) =~= before.push(w));
            before.lemma_filter_push(w, of_group(group_id));
        }
        if w.group_id == group_id {
            out.push(w);
        }
    }
    proof {
        assert(all_rows.take(all_rows.len() as int) =~= all_rows);
    }
    out
}

} // verus!
