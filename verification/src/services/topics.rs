//! Continuous topic learning: the topics that a conversation has touched,
//! each once, in the order in which they were first mentioned.

use crate::services::lexicon::{topic_list, topic_words};
use crate::services::text::{chars_of, lowercase, position_in, rows, to_lower, words, words_of};
use vstd::prelude::*;
use vstd::string::*;

verus! {

/// Whether a word is one of the topics that the agent keeps track of.
pub open spec fn is_topic(word: Seq<char>) -> bool {
    topic_words().contains(word)
}

/// The known topics after one more word was read: a topic that is not
/// known yet is added at the end.
pub open spec fn learn_word(known: Seq<Seq<char>>, word: Seq<char>) -> Seq<Seq<char>> {
    if is_topic(word) && !known.contains(word) {
        known.push(word)
    } else {
        known
    }
}

/// The known topics after a list of words was read from first to last.
pub open spec fn learn(known: Seq<Seq<char>>, list: Seq<Seq<char>>) -> Seq<Seq<char>>
    decreases list.len(),
{
    if list.len() == 0 {
        known
    } else {
        learn(learn_word(known, list[0]), list.drop_first())
    }
}

/// The known topics after a message in lower case was read: each topic
/// among its words that was not known is added, in the order of first
/// mention.
pub open spec fn learned(known: Seq<Seq<char>>, lowered: Seq<char>) -> Seq<Seq<char>> {
    learn(known, words(lowered))
}

/// Whether `known` holds the text `word`.
pub fn holds(known: &Vec<String>, word: &str) -> (r: bool)
    ensures
        r == known.deep_view().contains(word@),
{
    let wanted = String::from_str(word);
    let mut i: usize = 0;
    while i < known.len()
        invariant
            i <= known.len(),
            wanted@ == word@,
            forall|k: int| 0 <= k < i ==> known[k]@ != word@,
        decreases known.len() - i,
    {
        if known[i] == wanted {
            assert(known.deep_view()[i as int] == word@);
            return true;
        }
        i += 1;
    }
    assert forall|k: int| 0 <= k < known.deep_view().len() implies known.deep_view()[k]
        != word@ by {
        assert(known.deep_view()[k] == known[k]@);
    }
    false
}

/// Adds to `known` the topics among the words of a message whose
/// lower-case form has the characters `lowered`.
pub fn learn_topics(known: &mut Vec<String>, lowered: &Vec<char>)
    ensures
        final(known).deep_view() == learned(old(known).deep_view(), lowered@),
{
    let list = words_of(lowered);
    let topics = topic_list();
    let mut i: usize = 0;
    assert(rows(list@).skip(0) =~= rows(list@));
    while i < list.len()
        invariant
            i <= list.len(),
            rows(list@) == words(lowered@),
            topics.deep_view() == topic_words(),
            learn(known.deep_view(), rows(list@).skip(i as int)) == learned(
                old(known).deep_view(),
                lowered@,
            ),
        decreases list.len() - i,
    {
        let ghost rest = rows(list@).skip(i as int);
        let ghost before = known.deep_view();
        assert(rest[0] == list[i as int]@);
        assert(rest.drop_first() =~= rows(list@).skip(i + 1));
        match position_in(&list[i], &topics) {
            Some(k) => {
                assert(topics.deep_view()[k as int] == topics[k as int]@);
                if !holds(known, topics[k]) {
                    known.push(String::from_str(topics[k]));
                    assert(known.deep_view() =~= before.push(list[i as int]@));
                }
            },
            None => {},
        }
        i += 1;
    }
}

/// The topics among the words of a text, each once, in the order of first
/// mention.
pub fn extract_keywords(text: &str) -> (r: Vec<String>)
    ensures
        r.deep_view() == learned(Seq::empty(), lowercase(text@)),
{
    let lowered = to_lower(text);
    let chars = chars_of(lowered.as_str());
    let mut r: Vec<String> = Vec::new();
    assert(r.deep_view() =~= Seq::empty());
    learn_topics(&mut r, &chars);
    r
}

/// Learning never forgets and never reorders: the topics known before stand
/// at the start of the topics known after, in their old order.
pub proof fn lemma_learn_extends(known: Seq<Seq<char>>, list: Seq<Seq<char>>)
    ensures
        known.len() <= learn(known, list).len(),
        learn(known, list).take(known.len() as int) == known,
    decreases list.len(),
{
    if list.len() == 0 {
        assert(known.take(known.len() as int) =~= known);
    } else {
        let next = learn_word(known, list[0]);
        lemma_learn_extends(next, list.drop_first());
        let all = learn(next, list.drop_first());
        assert(next.take(known.len() as int) =~= known);
        assert(all.take(known.len() as int) =~= all.take(next.len() as int).take(
            known.len() as int,
        ));
    }
}

/// Learning adds no topic twice: where no topic stood twice among those
/// known before, none does after, however often it was mentioned.
pub proof fn lemma_learn_keeps_distinct(known: Seq<Seq<char>>, list: Seq<Seq<char>>)
    requires
        known.no_duplicates(),
    ensures
        learn(known, list).no_duplicates(),
    decreases list.len(),
{
    if list.len() > 0 {
        let next = learn_word(known, list[0]);
        assert(next.no_duplicates()) by {
            if next != known {
                assert forall|i: int, j: int|
                    0 <= i < next.len() && 0 <= j < next.len() && i != j implies next[i]
                    != next[j] by {
                    if i < known.len() && j < known.len() {
                    } else if i < known.len() {
                        assert(known.contains(next[i]));
                    } else {
                        assert(known.contains(next[j]));
                    }
                }
            }
        }
        lemma_learn_keeps_distinct(next, list.drop_first());
    }
}

/// Every topic among the words that were read is known afterwards.
pub proof fn lemma_learn_finds(known: Seq<Seq<char>>, list: Seq<Seq<char>>, i: int)
    requires
        0 <= i < list.len(),
        is_topic(list[i]),
    ensures
        learn(known, list).contains(list[i]),
    decreases list.len(),
{
    let next = learn_word(known, list[0]);
    let rest = list.drop_first();
    if i == 0 {
        assert(next.contains(list[0])) by {
            if !known.contains(list[0]) {
                assert(next[known.len() as int] == list[0]);
            } else {
            }
        }
        let k = choose|k: int| 0 <= k < next.len() && next[k] == list[0];
        lemma_learn_extends(next, rest);
        assert(learn(next, rest).take(next.len() as int)[k] == next[k]);
        assert(learn(next, rest)[k] == list[0]);
    } else {
        assert(rest[i - 1] == list[i]);
        lemma_learn_finds(next, rest, i - 1);
    }
}

/// Nothing is learned but topics: what is known afterwards was known
/// before or is a topic among the words that were read.
pub proof fn lemma_learn_adds_only_topics(
    known: Seq<Seq<char>>,
    list: Seq<Seq<char>>,
    word: Seq<char>,
)
    requires
        learn(known, list).contains(word),
    ensures
        known.contains(word) || (is_topic(word) && list.contains(word)),
    decreases list.len(),
{
    if list.len() > 0 {
        let next = learn_word(known, list[0]);
        let rest = list.drop_first();
        lemma_learn_adds_only_topics(next, rest, word);
        if next.contains(word) {
            if !known.contains(word) {
                let k = choose|k: int| 0 <= k < next.len() && next[k] == word;
                if k < known.len() {
                    assert(known[k] == word);
                }
                assert(word == list[0]);
            }
        } else {
            let k = choose|k: int| 0 <= k < rest.len() && rest[k] == word;
            assert(list[k + 1] == word);
        }
    }
}

/// Topics accumulate over messages: after two messages the topics of the
/// first stand before those that only the second brought, and each stands
/// once.
pub proof fn lemma_topics_accumulate(known: Seq<Seq<char>>, first: Seq<char>, second: Seq<char>)
    requires
        known.no_duplicates(),
    ensures
        learned(learned(known, first), second).no_duplicates(),
        learned(known, first).len() <= learned(learned(known, first), second).len(),
        learned(learned(known, first), second).take(learned(known, first).len() as int) == learned(
            known,
            first,
        ),
{
    lemma_learn_keeps_distinct(known, words(first));
    lemma_learn_keeps_distinct(learned(known, first), words(second));
    lemma_learn_extends(learned(known, first), words(second));
}

} // verus!
