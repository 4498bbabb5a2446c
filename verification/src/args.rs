//! The relay's configuration, as the command line resolves to it.

use vstd::prelude::*;

verus! {

/// What the configuration is: each text by its characters.
pub struct ArgsView {
    pub source: Seq<char>,
    pub target: Seq<char>,
    pub topics: Seq<Seq<char>>,
    pub script: Seq<char>,
    pub quiet: bool,
}

/// The resolved configuration of one run.
#[derive(Debug)]
pub struct Args {
    /// Address of the upstream broker, read from.
    pub source: String,
    /// Address of the downstream broker, written to.
    pub target: String,
    /// The topics to subscribe to, in the order given.
    pub topics: Vec<String>,
    /// Source text of the transform script; empty where there is none.
    pub script: String,
    /// Whether progress output is switched off.
    pub quiet: bool,
}

/// A list of texts, each by its characters.
pub open spec fn texts(list: Seq<String>) -> Seq<Seq<char>> {
    Seq::new(list.len(), |i: int| list[i]@)
}

/// Whether no text occurs twice in `list`.
pub open spec fn distinct(list: Seq<Seq<char>>) -> bool {
    forall|i: int, j: int| 0 <= i < j < list.len() ==> list[i] != list[j]
}

/// `list` with each text kept where it first occurs and left out where
/// it occurs again.
pub open spec fn first_occurrences(list: Seq<Seq<char>>) -> Seq<Seq<char>>
    decreases list.len(),
{
    if list.len() == 0 {
        list
    } else {
        let before = first_occurrences(list.drop_last());
        if before.contains(list.last()) {
            before
        } else {
            before.push(list.last())
        }
    }
}

impl View for Args {
    type V = ArgsView;

    open spec fn view(&self) -> ArgsView {
        ArgsView {
            source: self.source@,
            target: self.target@,
            topics: texts(self.topics@),
            script: self.script@,
            quiet: self.quiet,
        }
    }
}

impl ArgsView {
    /// Whether the topics are a set: none of them is there twice.
    pub open spec fn well_formed(self) -> bool {
        distinct(self.topics)
    }
}

/// The text of an option: empty where the option was not given.
pub open spec fn text_or_empty(value: Option<String>) -> Seq<char> {
    match value {
        Some(text) => text@,
        None => Seq::empty(),
    }
}

/// The texts of a list option: none where the option was not given.
pub open spec fn texts_or_none(value: Option<Vec<String>>) -> Seq<Seq<char>> {
    match value {
        Some(list) => texts(list@),
        None => Seq::empty(),
    }
}

impl Args {
    /// The configuration for the values found on the command line. An
    /// option that was not given counts as empty: no text, no topics.
    /// A topic given more than once counts where it comes first.
    pub fn from_values(
        source: Option<String>,
        target: Option<String>,
        topics: Option<Vec<String>>,
        script: Option<String>,
        quiet: bool,
    ) -> (args: Self)
        ensures
            args@ == (ArgsView {
                source: text_or_empty(source),
                target: text_or_empty(target),
                topics: first_occurrences(texts_or_none(topics)),
                script: text_or_empty(script),
                quiet,
            }),
            args@.well_formed(),
    {
        let topics = match topics {
            Some(list) => keep_first(&list),
            None => {
                let none: Vec<String> = Vec::new();
                assert(texts(none@) =~= first_occurrences(Seq::<Seq<char>>::empty()));
                none
            },
        };
        Self { source: text_or(source), target: text_or(target), topics, script: text_or(script), quiet }
    }

    /// Whether a transform script was supplied: whether its text is not
    /// empty.
    pub fn has_script(&self) -> (present: bool)
        ensures
            present == (self@.script.len() > 0),
    {
        return !self.script.as_str().is_empty();
    }
}

/// The topics of `list`, each where it first occurs.
pub fn keep_first(list: &Vec<String>) -> (kept: Vec<String>)
    ensures
        texts(kept@) == first_occurrences(texts(list@)),
        distinct(texts(kept@)),
{
    let mut kept: Vec<String> = Vec::new();
    let mut i: usize = 0;
    assert(texts(list@).take(0) =~= Seq::<Seq<char>>::empty());
    assert(texts(kept@) =~= Seq::<Seq<char>>::empty());
    while i < list.len()
        invariant
            i <= list.len(),
            texts(kept@) == first_occurrences(texts(list@).take(i as int)),
        decreases list.len() - i,
    {
        let ghost before = texts(kept@);
        assert(texts(list@).take(i + 1).drop_last() =~= texts(list@).take(i as int));
        assert(texts(list@).take(i + 1).last() == list@[i as int]@);
        if !holds(&kept, &list[i]) {
            kept.push(list[i].clone());
            assert(texts(kept@) =~= before.push(list@[i as int]@));
        }
        i = i + 1;
    }
    assert(texts(list@).take(list.len() as int) =~= texts(list@));
    proof {
        first_occurrences_are_distinct(texts(list@));
    }
    kept
}

/// Whether `text` is among `list`.
fn holds(list: &Vec<String>, text: &String) -> (found: bool)
    ensures
        found == texts(list@).contains(text@),
{
    let mut i: usize = 0;
    while i < list.len()
        invariant
            i <= list.len(),
            forall|k: int| 0 <= k < i ==> texts(list@)[k] != text@,
        decreases list.len() - i,
    {
        if list[i] == *text {
            assert(texts(list@)[i as int] == text@);
            return true;
        }
        i = i + 1;
    }
    false
}

fn text_or(value: Option<String>) -> (text: String)
    ensures
        text@ == text_or_empty(value),
{
    match value {
        Some(text) => text,
        None => String::new(),
    }
}

/// Keeping first occurrences leaves a list in which nothing occurs
/// twice, and which holds the same texts as the list it was made from.
pub proof fn first_occurrences_are_distinct(list: Seq<Seq<char>>)
    ensures
        distinct(first_occurrences(list)),
        forall|text: Seq<char>| first_occurrences(list).contains(text) <==> list.contains(text),
    decreases list.len(),
{
    if list.len() > 0 {
        let front = list.drop_last();
        let before = first_occurrences(front);
        let after = first_occurrences(list);
        first_occurrences_are_distinct(front);
        assert forall|text: Seq<char>| after.contains(text) <==> list.contains(text) by {
            assert(before.contains(text) <==> front.contains(text));
            if list.contains(text) {
                let k = choose|k: int| 0 <= k < list.len() && list[k] == text;
                if k < list.len() - 1 {
                    assert(front[k] == text);
                    assert(front.contains(text));
                    let b = choose|b: int| 0 <= b < before.len() && before[b] == text;
                    assert(after[b] == text);
                } else if before.contains(list.last()) {
                    assert(after == before);
                } else {
                    assert(after[before.len() as int] == text);
                }
            }
            if after.contains(text) {
                let k = choose|k: int| 0 <= k < after.len() && after[k] == text;
                if k < before.len() {
                    assert(before[k] == text);
                    assert(before.contains(text));
                    let d = choose|d: int| 0 <= d < front.len() && front[d] == text;
                    assert(list[d] == text);
                } else {
                    assert(list[list.len() - 1] == text);
                }
            }
        }
        assert forall|i: int, j: int| 0 <= i < j < after.len() implies after[i] != after[j] by {
            if j == before.len() {
                assert(before[i] == after[i]);
                assert(before.contains(after[i]));
            }
        }
    }
}

/// A list in which nothing occurs twice is kept as it is.
pub proof fn distinct_topics_are_kept(list: Seq<Seq<char>>)
    requires
        distinct(list),
    ensures
        first_occurrences(list) == list,
    decreases list.len(),
{
    if list.len() > 0 {
        let front = list.drop_last();
        assert forall|i: int, j: int| 0 <= i < j < front.len() implies front[i] != front[j] by {
            assert(front[i] == list[i] && front[j] == list[j]);
        }
        distinct_topics_are_kept(front);
        if front.contains(list.last()) {
            let k = choose|k: int| 0 <= k < front.len() && front[k] == list.last();
            assert(list[k] == list[list.len() - 1]);
        }
        assert(front.push(list.last()) =~= list);
    }
}

} // verus!
