//! The host buffer: the one piece of state that running scripts share.
//!
//! Scripts reach it through two operations only, an append and a read of
//! the whole text. Each operation takes the buffer for itself from start to
//! end, so a run of the host is a sequence of whole operations.

use vstd::prelude::*;
use vstd::string::StringExecFns;

verus! {

/// The text that scripts have appended so far.
pub struct Editor {
    pub buffer: String,
}

impl View for Editor {
    type V = Seq<char>;

    open spec fn view(&self) -> Seq<char> {
        self.buffer@
    }
}

impl Editor {
    /// A buffer that holds nothing yet.
    pub fn new() -> (editor: Editor)
        ensures
            editor@ == Seq::<char>::empty(),
    {
        Editor { buffer: String::new() }
    }

    /// Appends `url` to the end of the buffer; what was there stays in front.
    pub fn send(&mut self, url: String)
        ensures
            final(self)@ == old(self)@ + url@,
    {
        self.buffer.append(url.as_str());
    }

    /// A copy of the whole buffer as it stands.
    pub fn read(&self) -> (text: String)
        ensures
            text@ == self@,
    {
        self.buffer.clone()
    }
}

/// The buffer after the appends `texts`, served in this order, on a buffer
/// that held `start`.
pub open spec fn appended(start: Seq<char>, texts: Seq<Seq<char>>) -> Seq<char>
    decreases texts.len(),
{
    if texts.len() == 0 {
        start
    } else {
        appended(start, texts.drop_last()) + texts.last()
    }
}

/// One `send` more is one text more at the end of the series: what `send`
/// promises of a single append carries over to a series of any length.
pub proof fn send_extends_series(start: Seq<char>, texts: Seq<Seq<char>>, text: Seq<char>)
    ensures
        appended(start, texts.push(text)) == appended(start, texts) + text,
        appended(start, Seq::<Seq<char>>::empty()) == start,
{
    assert(texts.push(text).drop_last() =~= texts);
}

/// The lengths of `texts`, added up.
pub open spec fn total_len(texts: Seq<Seq<char>>) -> nat
    decreases texts.len(),
{
    if texts.len() == 0 {
        0
    } else {
        total_len(texts.drop_last()) + texts.last().len()
    }
}

/// Where in the buffer the text of append number `i` begins.
pub open spec fn offset_of(start: Seq<char>, texts: Seq<Seq<char>>, i: int) -> int {
    (start.len() + total_len(texts.take(i))) as int
}

/// `text` stands in `buffer` unbroken, beginning at `at`.
pub open spec fn stands_at(buffer: Seq<char>, text: Seq<char>, at: int) -> bool {
    &&& 0 <= at
    &&& at + text.len() <= buffer.len()
    &&& buffer.subrange(at, at + text.len()) == text
}

/// `text` stands in `buffer` unbroken, at some place.
pub open spec fn stands_in(buffer: Seq<char>, text: Seq<char>) -> bool {
    exists|at: int| stands_at(buffer, text, at)
}

/// After a series of appends the buffer is as long as what was there plus
/// all that was appended, what was there still stands in front, and every
/// appended text stands in it unbroken, behind those served before it.
pub proof fn appends_stay_whole(start: Seq<char>, texts: Seq<Seq<char>>)
    ensures
        appended(start, texts).len() == start.len() + total_len(texts),
        stands_at(appended(start, texts), start, 0),
        forall|i: int|
            0 <= i < texts.len() ==> stands_at(
                appended(start, texts),
                #[trigger] texts[i],
                offset_of(start, texts, i),
            ),
    decreases texts.len(),
{
    if texts.len() == 0 {
        assert(appended(start, texts).subrange(0, start.len() as int) =~= start);
    } else {
        let front = texts.drop_last();
        let n = front.len() as int;
        appends_stay_whole(start, front);
        let before = appended(start, front);
        let after = appended(start, texts);
        assert(after.subrange(0, start.len() as int) =~= before.subrange(0, start.len() as int));
        assert(texts.take(n) =~= front);
        assert forall|i: int| 0 <= i < texts.len() implies stands_at(
            after,
            #[trigger] texts[i],
            offset_of(start, texts, i),
        ) by {
            if i < n {
                assert(texts.take(i) =~= front.take(i));
                assert(front[i] == texts[i]);
                let at = offset_of(start, front, i);
                assert(stands_at(before, front[i], at));
                assert(after.subrange(at, at + texts[i].len()) =~= before.subrange(
                    at,
                    at + texts[i].len(),
                ));
            } else {
                assert(offset_of(start, texts, i) == before.len());
                assert(after.subrange(before.len() as int, after.len() as int) =~= texts.last());
            }
        }
    }
}

/// Taking one text out of a series lowers the total by that text's length.
proof fn total_len_without(texts: Seq<Seq<char>>, i: int)
    requires
        0 <= i < texts.len(),
    ensures
        total_len(texts) == total_len(texts.remove(i)) + texts[i].len(),
    decreases texts.len(),
{
    if i == texts.len() - 1 {
        assert(texts.remove(i) =~= texts.drop_last());
    } else {
        total_len_without(texts.drop_last(), i);
        assert(texts.remove(i).drop_last() =~= texts.drop_last().remove(i));
        assert(texts.remove(i).last() == texts.last());
        assert(texts.drop_last()[i] == texts[i]);
    }
}

/// The total length of a series of texts is the same in every order.
pub proof fn total_len_ignores_order(served: Seq<Seq<char>>, texts: Seq<Seq<char>>)
    requires
        served.to_multiset() == texts.to_multiset(),
    ensures
        total_len(served) == total_len(texts),
    decreases served.len(),
{
    vstd::seq_lib::to_multiset_len(served);
    vstd::seq_lib::to_multiset_len(texts);
    if served.len() > 0 {
        let k = served.len() - 1;
        let last = served[k];
        vstd::seq_lib::to_multiset_contains(served, last);
        vstd::seq_lib::to_multiset_contains(texts, last);
        assert(served.contains(last));
        let j = choose|j: int| 0 <= j < texts.len() && texts[j] == last;
        vstd::seq_lib::to_multiset_remove(served, k);
        vstd::seq_lib::to_multiset_remove(texts, j);
        assert(served.remove(k) =~= served.drop_last());
        total_len_ignores_order(served.drop_last(), texts.remove(j));
        total_len_without(texts, j);
    }
}

/// However a set of concurrent appends `texts` is interleaved, that is, in
/// whatever order `served` they get the buffer, a read that follows them
/// returns a text whose length is what was there plus the lengths of all of
/// them, and each of them stands in it unbroken.
pub proof fn interleaved_appends_stay_whole(
    start: Seq<char>,
    texts: Seq<Seq<char>>,
    served: Seq<Seq<char>>,
)
    requires
        served.to_multiset() == texts.to_multiset(),
    ensures
        appended(start, served).len() == start.len() + total_len(texts),
        forall|i: int|
            0 <= i < texts.len() ==> stands_in(appended(start, served), #[trigger] texts[i]),
{
    total_len_ignores_order(served, texts);
    appends_stay_whole(start, served);
    assert forall|i: int| 0 <= i < texts.len() implies stands_in(
        appended(start, served),
        #[trigger] texts[i],
    ) by {
        vstd::seq_lib::to_multiset_contains(served, texts[i]);
        vstd::seq_lib::to_multiset_contains(texts, texts[i]);
        assert(texts.contains(texts[i]));
        let k = choose|k: int| 0 <= k < served.len() && served[k] == texts[i];
        assert(stands_at(appended(start, served), served[k], offset_of(start, served, k)));
    }
}

} // verus!
