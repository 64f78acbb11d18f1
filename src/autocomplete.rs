//! Completing a typed project name against the known names.
use vstd::prelude::*;
use crate::config::AutocompleteOptions;
use crate::text::{has_prefix, lower_of, lowercase, owned, same_text, starts_with, str_views};

verus! {

/// What a typed word completes to among the known names.
#[derive(Debug, Clone)]
pub enum CompletionResult {
    /// The word is itself one of the names.
    Found,
    /// The word is not a name, but begins this one, ignoring case.
    FoundSimilar(String),
    /// No name matches.
    Nothing,
}

impl PartialEq for CompletionResult {
    fn eq(&self, o: &CompletionResult) -> (r: bool) {
        match (self, o) {
            (CompletionResult::Found, CompletionResult::Found) => true,
            (CompletionResult::FoundSimilar(a), CompletionResult::FoundSimilar(b)) => same_text(a.as_str(), b.as_str()),
            (CompletionResult::Nothing, CompletionResult::Nothing) => true,
            _ => false,
        }
    }
}

impl vstd::std_specs::cmp::PartialEqSpecImpl for CompletionResult {
    open spec fn obeys_eq_spec() -> bool {
        true
    }

    open spec fn eq_spec(&self, o: &CompletionResult) -> bool {
        match (*self, *o) {
            (CompletionResult::Found, CompletionResult::Found) => true,
            (CompletionResult::FoundSimilar(a), CompletionResult::FoundSimilar(b)) => a@ == b@,
            (CompletionResult::Nothing, CompletionResult::Nothing) => true,
            _ => false,
        }
    }
}

/// `i` is the first index whose folded name begins with the folded word `key`.
pub open spec fn first_prefix_match(key: Seq<char>, folded: Seq<Seq<char>>, i: int) -> bool {
    &&& 0 <= i < folded.len()
    &&& has_prefix(folded[i], key)
    &&& forall|j: int| 0 <= j < i ==> !has_prefix(#[trigger] folded[j], key)
}

/// `r` is the completion of `word` among `words`, where `folded_word` and
/// `folded` are the case-folded forms of the word and of each name: the word
/// itself if it is a name; else the first name whose folded form begins with
/// the folded word; else nothing.
pub open spec fn is_completion(word: Seq<char>, words: Seq<Seq<char>>, folded_word: Seq<char>, folded: Seq<Seq<char>>, r: CompletionResult) -> bool {
    if words.contains(word) {
        r is Found
    } else if exists|i: int| 0 <= i < folded.len() && has_prefix(#[trigger] folded[i], folded_word) {
        r is FoundSimilar && exists|i: int| first_prefix_match(folded_word, folded, i) && r->FoundSimilar_0@ == words[i]
    } else {
        r is Nothing
    }
}

/// Completes `word` among the names of `candidates`; each candidate is a name
/// with its case-folded form, and `folded_word` is the folded form of the word.
pub fn suggest_from_folded(word: &str, folded_word: &str, candidates: &Vec<(&str, String)>) -> (r: CompletionResult)
    ensures
        is_completion(
            word@,
            candidates@.map_values(|c: (&str, String)| c.0@),
            folded_word@,
            candidates@.map_values(|c: (&str, String)| c.1@),
            r,
        ),
{
    let ghost words = candidates@.map_values(|c: (&str, String)| c.0@);
    let ghost folded = candidates@.map_values(|c: (&str, String)| c.1@);
    let mut i: usize = 0;
    while i < candidates.len()
        invariant
            words == candidates@.map_values(|c: (&str, String)| c.0@),
            i <= candidates@.len(),
            forall|j: int| 0 <= j < i ==> words[j] != word@,
        decreases candidates@.len() - i,
    {
        if same_text(candidates[i].0, word) {
            assert(words[i as int] == word@);
            return CompletionResult::Found;
        }
        i = i + 1;
    }
    assert(!words.contains(word@));
    let mut k: usize = 0;
    while k < candidates.len()
        invariant
            folded == candidates@.map_values(|c: (&str, String)| c.1@),
            words == candidates@.map_values(|c: (&str, String)| c.0@),
            !words.contains(word@),
            k <= candidates@.len(),
            forall|j: int| 0 <= j < k ==> !has_prefix(#[trigger] folded[j], folded_word@),
        decreases candidates@.len() - k,
    {
        if starts_with(candidates[k].1.as_str(), folded_word) {
            let r = CompletionResult::FoundSimilar(owned(candidates[k].0));
            assert(first_prefix_match(folded_word@, folded, k as int));
            assert(has_prefix(folded[k as int], folded_word@));
            assert(r->FoundSimilar_0@ == words[k as int]);
            return r;
        }
        k = k + 1;
    }
    CompletionResult::Nothing
}

/// Completes `word` among `words_list`, comparing case-folded forms.
pub fn suggest_completion(word: &str, words_list: Vec<&str>) -> (r: CompletionResult)
    ensures
        is_completion(
            word@,
            str_views(words_list@),
            lower_of(word@),
            str_views(words_list@).map_values(|w: Seq<char>| lower_of(w)),
            r,
        ),
{
    let folded_word = lowercase(word);
    let mut candidates: Vec<(&str, String)> = Vec::new();
    let mut i: usize = 0;
    while i < words_list.len()
        invariant
            i <= words_list@.len(),
            candidates@.len() == i,
            forall|j: int| 0 <= j < i ==> (#[trigger] candidates@[j]).0@ == words_list@[j]@ && candidates@[j].1@ == lower_of(words_list@[j]@),
        decreases words_list@.len() - i,
    {
        let w: &str = words_list[i];
        candidates.push((w, lowercase(w)));
        i = i + 1;
    }
    assert(candidates@.map_values(|c: (&str, String)| c.0@) =~= str_views(words_list@));
    assert(candidates@.map_values(|c: (&str, String)| c.1@) =~= str_views(words_list@).map_values(|w: Seq<char>| lower_of(w)));
    suggest_from_folded(word, folded_word.as_str(), &candidates)
}

/// How a typed name resolved.
#[derive(Debug, Clone)]
pub enum Resolution {
    /// To this name.
    Resolved(String),
    /// To this name, if the user confirms it.
    Confirm(String),
    /// To no name.
    Unresolved,
}

impl Resolution {
    /// The name, once the user answered `answer` where confirmation was asked.
    pub fn confirmed(self, answer: bool) -> (r: Option<String>)
        ensures
            self is Resolved ==> r == Some(self->Resolved_0),
            self is Confirm ==> r == (if answer {
                Some(self->Confirm_0)
            } else {
                None
            }),
            self is Unresolved ==> r is None,
    {
        match self {
            Resolution::Resolved(n) => Some(n),
            Resolution::Confirm(n) => if answer {
                Some(n)
            } else {
                None
            },
            Resolution::Unresolved => None,
        }
    }
}

/// The resolution of a completion: the word itself where it is a name; a
/// similar name, taken at once where `always_accept` is set and else to be
/// confirmed; nothing where no name matches.
pub open spec fn completion_resolution(word: Seq<char>, c: CompletionResult, always_accept: bool, r: Resolution) -> bool {
    match c {
        CompletionResult::Found => r is Resolved && r->Resolved_0@ == word,
        CompletionResult::FoundSimilar(n) => if always_accept {
            r is Resolved && r->Resolved_0@ == n@
        } else {
            r is Confirm && r->Confirm_0@ == n@
        },
        CompletionResult::Nothing => r is Unresolved,
    }
}

/// Resolves `word` among `words_list` by completion.
pub fn autocomplete(word: &str, words_list: Vec<&str>, options: &AutocompleteOptions) -> (r: Resolution)
    ensures
        exists|c: CompletionResult|
            is_completion(
                word@,
                str_views(words_list@),
                lower_of(word@),
                str_views(words_list@).map_values(|w: Seq<char>| lower_of(w)),
                c,
            ) && completion_resolution(word@, c, options.always_accept, r),
{
    let suggested = suggest_completion(word, words_list);
    let ghost c = suggested;
    let r = match suggested {
        CompletionResult::Found => Resolution::Resolved(owned(word)),
        CompletionResult::FoundSimilar(name) => if options.always_accept {
            Resolution::Resolved(name)
        } else {
            Resolution::Confirm(name)
        },
        CompletionResult::Nothing => Resolution::Unresolved,
    };
    assert(completion_resolution(word@, c, options.always_accept, r));
    r
}

/// A typed word that is not itself a name, but whose folded form begins the
/// folded form of a name, resolves to the first such name: at once where
/// `always_accept` is set, and otherwise as a name to confirm, which
/// `Resolution::confirmed` gives back on a yes and withholds on a no.
pub proof fn law_prefix_resolves(
    word: Seq<char>,
    words: Seq<Seq<char>>,
    folded_word: Seq<char>,
    folded: Seq<Seq<char>>,
    i: int,
    always_accept: bool,
    c: CompletionResult,
    r: Resolution,
)
    requires
        !words.contains(word),
        first_prefix_match(folded_word, folded, i),
        is_completion(word, words, folded_word, folded, c),
        completion_resolution(word, c, always_accept, r),
    ensures
        always_accept ==> r is Resolved && r->Resolved_0@ == words[i],
        !always_accept ==> r is Confirm && r->Confirm_0@ == words[i],
{
    assert(has_prefix(folded[i], folded_word));
    let j = choose|j: int| first_prefix_match(folded_word, folded, j) && c->FoundSimilar_0@ == words[j];
    if j < i {
        assert(!has_prefix(folded[j], folded_word));
    }
    if i < j {
        assert(!has_prefix(folded[i], folded_word));
    }
    assert(j == i);
}

} // verus!
