//! The texts of one entry, by language tag.

use crate::format::{is_variants_shape, json_of_variants, text_members, variants_of_json};
use crate::json::{lemma_view_unfolds, JsonNode, JsonValue};
use crate::keyed::{has_key, index_of_key, lemma_index_of_key, lemma_put_unique, put, stored, unique_keys, VariantsView};
use vstd::prelude::*;

verus! {

/// The texts of one entry: for each language tag that the entry has, its text.
///
/// A tag occurs once. The tags keep the order in which they were first stored;
/// nothing is stored for a language that the entry lacks.
#[derive(Debug)]
pub struct LanguageVariants {
    pub(crate) pairs: Vec<(String, String)>,
}

/// What a vector of pairs of strings holds, as sequences of characters.
pub open spec fn pairs_view(pairs: Seq<(String, String)>) -> VariantsView {
    Seq::new(pairs.len(), |i: int| (pairs[i].0@, pairs[i].1@))
}

impl View for LanguageVariants {
    type V = VariantsView;

    closed spec fn view(&self) -> VariantsView {
        pairs_view(self.pairs@)
    }
}

impl Clone for LanguageVariants {
    /// A copy with the same tags and texts, in the same order.
    fn clone(&self) -> (copy: Self)
        ensures
            copy@ == self@,
    {
        proof {
            use_type_invariant(self);
        }
        let mut pairs: Vec<(String, String)> = Vec::new();
        let mut i: usize = 0;
        while i < self.pairs.len()
            invariant
                i <= self.pairs.len(),
                pairs_view(pairs@) == pairs_view(self.pairs@).take(i as int),
            decreases self.pairs.len() - i,
        {
            let ghost before = pairs_view(pairs@);
            pairs.push((self.pairs[i].0.clone(), self.pairs[i].1.clone()));
            assert(pairs_view(pairs@) =~= before.push(pairs_view(self.pairs@)[i as int]));
            assert(pairs_view(self.pairs@).take(i + 1) =~= pairs_view(self.pairs@).take(
                i as int,
            ).push(pairs_view(self.pairs@)[i as int]));
            i += 1;
        }
        assert(pairs_view(self.pairs@).take(i as int) =~= pairs_view(self.pairs@));
        LanguageVariants { pairs }
    }
}

impl LanguageVariants {
    /// No language tag occurs twice. This holds of every value of the type.
    #[verifier::type_invariant]
    pub open spec fn wf(&self) -> bool {
        unique_keys(self@)
    }

    /// The text in the language `tag`, where the entry has one.
    pub open spec fn text_of(&self, tag: Seq<char>) -> Option<Seq<char>> {
        if has_key(self@, tag) {
            Some(self@[index_of_key(self@, tag)].1)
        } else {
            None
        }
    }

    /// An entry without any text.
    pub fn new() -> (variants: Self)
        ensures
            variants@ == VariantsView::empty(),
    {
        let pairs: Vec<(String, String)> = Vec::new();
        assert(pairs_view(pairs@) =~= VariantsView::empty());
        LanguageVariants { pairs }
    }

    /// The number of languages that the entry has a text in.
    pub fn len(&self) -> (n: usize)
        ensures
            n == self@.len(),
    {
        self.pairs.len()
    }

    /// The tag and the text at `index`, in the order of the tags; `None` past
    /// the end.
    pub fn get_index(&self, index: usize) -> (pair: Option<(&String, &String)>)
        ensures
            match pair {
                Some((tag, text)) => index < self@.len() && tag@ == self@[index as int].0 && text@
                    == self@[index as int].1,
                None => index >= self@.len(),
            },
    {
        if index < self.pairs.len() {
            let pair = &self.pairs[index];
            Some((&pair.0, &pair.1))
        } else {
            None
        }
    }

    /// Where the language `tag` stands among the tags, if the entry has it.
    pub fn position(&self, tag: &String) -> (found: Option<usize>)
        ensures
            match found {
                Some(index) => index < self@.len() && self@[index as int].0 == tag@,
                None => !has_key(self@, tag@),
            },
    {
        let mut i: usize = 0;
        while i < self.pairs.len()
            invariant
                i <= self.pairs.len(),
                forall|k: int| 0 <= k < i ==> (#[trigger] self@[k]).0 != tag@,
            decreases self.pairs.len() - i,
        {
            if self.pairs[i].0 == *tag {
                return Some(i);
            }
            i += 1;
        }
        None
    }

    /// The text in the language `tag`; `None` where the entry has none.
    pub fn get(&self, tag: &String) -> (text: Option<&String>)
        ensures
            match text {
                Some(t) => self.text_of(tag@) == Some(t@),
                None => self.text_of(tag@) is None,
            },
    {
        proof {
            use_type_invariant(self);
        }
        match self.position(tag) {
            Some(index) => {
                proof {
                    lemma_index_of_key(self@, index as int);
                }
                Some(&self.pairs[index].1)
            },
            None => None,
        }
    }

    /// Stores `text` as the text in the language `tag`. A tag that the entry
    /// has keeps its place, a new tag goes to the end. Returns the text that
    /// was replaced.
    pub fn set(&mut self, tag: String, text: String) -> (previous: Option<String>)
        ensures
            final(self)@ == put(old(self)@, tag@, text@),
            match previous {
                Some(p) => old(self).text_of(tag@) == Some(p@),
                None => old(self).text_of(tag@) is None,
            },
    {
        proof {
            use_type_invariant(&*self);
            lemma_put_unique(self@, tag@, text@);
        }
        let found = self.position(&tag);
        let ghost before = self@;
        let mut pairs: Vec<(String, String)> = Vec::new();
        std::mem::swap(&mut pairs, &mut self.pairs);
        let previous = match found {
            Some(index) => {
                proof {
                    lemma_index_of_key(before, index as int);
                }
                let mut pair = (tag, text);
                std::mem::swap(&mut pairs[index], &mut pair);
                assert(pairs_view(pairs@) =~= before.update(index as int, (tag@, text@)));
                Some(pair.1)
            },
            None => {
                pairs.push((tag, text));
                assert(pairs_view(pairs@) =~= before.push((tag@, text@)));
                None
            },
        };
        self.pairs = pairs;
        previous
    }

    /// Changes the text in the language `tag`, if the entry has that language,
    /// and returns the text that was there. An entry without the language stays
    /// as it is: no language is added.
    pub fn replace(&mut self, tag: &String, text: String) -> (previous: Option<String>)
        ensures
            match previous {
                Some(p) => old(self).text_of(tag@) == Some(p@) && final(self)@ == put(
                    old(self)@,
                    tag@,
                    text@,
                ),
                None => old(self).text_of(tag@) is None && final(self)@ == old(self)@,
            },
            final(self)@.len() == old(self)@.len(),
    {
        proof {
            use_type_invariant(&*self);
            lemma_put_unique(self@, tag@, text@);
        }
        match self.position(tag) {
            Some(index) => {
                proof {
                    lemma_index_of_key(self@, index as int);
                }
                let ghost before = self@;
                let mut pairs: Vec<(String, String)> = Vec::new();
                std::mem::swap(&mut pairs, &mut self.pairs);
                let mut pair = (tag.clone(), text);
                std::mem::swap(&mut pairs[index], &mut pair);
                assert(pairs_view(pairs@) =~= before.update(index as int, (tag@, text@)));
                self.pairs = pairs;
                Some(pair.1)
            },
            None => None,
        }
    }

    /// Reads the texts of one entry from a JSON tree: an object whose members
    /// are strings, each under its language tag. `None` for any other tree.
    /// Where a tag occurs twice, its first place and its last text count.
    pub fn from_json_node(node: &JsonNode) -> (variants: Option<LanguageVariants>)
        ensures
            match variants {
                Some(v) => is_variants_shape(node@) && v@ == variants_of_json(node@),
                None => !is_variants_shape(node@),
            },
    {
        match node {
            JsonNode::Object(members) => {
                let ghost texts = text_members(node@);
                proof {
                    lemma_view_unfolds(*node);
                }
                let mut variants = LanguageVariants::new();
                let mut i: usize = 0;
                assert(texts.take(0) =~= VariantsView::empty());
                while i < members.len()
                    invariant
                        i <= members.len(),
                        node == JsonNode::Object(*members),
                        texts == text_members(node@),
                        texts.len() == members.len(),
                        forall|k: int| 0 <= k < i ==> (#[trigger] node@->Object_0[k]).1 is Text,
                        variants@ == stored(texts.take(i as int)),
                    decreases members.len() - i,
                {
                    proof {
                        lemma_view_unfolds(*node);
                        lemma_view_unfolds(members[i as int].1);
                    }
                    match &members[i].1 {
                        JsonNode::Text(text) => {
                            assert(node@->Object_0[i as int].1 == JsonValue::Text(text@));
                            assert(texts.take(i + 1).drop_last() =~= texts.take(i as int));
                            assert(texts.take(i + 1).last() == (members[i as int].0@, text@));
                            variants.set(members[i].0.clone(), text.clone());
                        },
                        _ => {
                            assert(!(node@->Object_0[i as int].1 is Text));
                            return None;
                        },
                    }
                    i += 1;
                }
                assert(texts.take(i as int) =~= texts);
                Some(variants)
            },
            _ => None,
        }
    }

    /// The texts as a JSON tree: an object with one string for each text,
    /// under its language tag, in the order of the tags.
    pub fn to_json_node(&self) -> (node: JsonNode)
        ensures
            node@ == json_of_variants(self@),
    {
        let mut members: Vec<(String, JsonNode)> = Vec::new();
        let mut i: usize = 0;
        while i < self.pairs.len()
            invariant
                i <= self.pairs.len(),
                members@.len() == i,
                forall|k: int|
                    0 <= k < i ==> (#[trigger] members@[k]).0@ == self@[k].0 && members@[k].1@
                        == JsonValue::Text(self@[k].1),
            decreases self.pairs.len() - i,
        {
            let text = JsonNode::Text(self.pairs[i].1.clone());
            assert(text@ == JsonValue::Text(self@[i as int].1));
            members.push((self.pairs[i].0.clone(), text));
            i += 1;
        }
        let node = JsonNode::Object(members);
        proof {
            lemma_view_unfolds(node);
            assert(node@->Object_0 =~= json_of_variants(self@)->Object_0);
        }
        node
    }

    /// The tags and texts in order, as owned strings.
    pub fn pairs(&self) -> (pairs: Vec<(String, String)>)
        ensures
            pairs_view(pairs@) == self@,
    {
        let copy = self.clone();
        copy.pairs
    }
}

} // verus!
