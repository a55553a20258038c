//! The translation table: entries by identifier, in a fixed order.

use crate::error::{LoadError, SaveError};
use crate::file::FileRead;
use crate::format::{entry_members, is_table_shape, is_variants_shape, json_of_table, json_of_variants, law_table_round_trip, table_of_json};
use crate::json::{lemma_view_unfolds, parsed_json, rendered_json, JsonNode};
use crate::keyed::{has_key, index_of_key, lemma_index_of_key, lemma_put_unique, put, stored, unique_keys, TableView, VariantsView};
use crate::ordered::{map_get_index, map_get_index_of, map_insert, map_len, map_new, map_rows};
use crate::variants::{pairs_view, LanguageVariants};
use indexmap::IndexMap;
use vstd::prelude::*;

verus! {

/// Every entry of `table` has each of its language tags once.
pub open spec fn unique_tags(table: TableView) -> bool {
    forall|i: int| 0 <= i < table.len() ==> unique_keys((#[trigger] table[i]).1)
}

/// What a table must be: no identifier twice, and in an entry no language tag
/// twice.
pub open spec fn valid_table(table: TableView) -> bool {
    unique_keys(table) && unique_tags(table)
}

/// The table that JSON text holds; `None` for text that is no JSON or holds
/// JSON of another shape.
pub open spec fn table_of_text(text: Seq<char>) -> Option<TableView> {
    match parsed_json(text) {
        Some(value) => if is_table_shape(value) {
            Some(table_of_json(value))
        } else {
            None
        },
        None => None,
    }
}

/// The JSON text of a table: what `serde_json` writes for the object of
/// objects of strings that spells it; `None` where it writes none.
pub open spec fn text_of_table(table: TableView) -> Option<Seq<char>> {
    rendered_json(json_of_table(table))
}

/// What loading gives for a file that was read as `read`: the error of the
/// stage that failed, or the table that the text holds.
pub open spec fn load_outcome(read: FileRead) -> Result<TableView, LoadError> {
    match read {
        FileRead::OpenFailed => Err(LoadError::Open),
        FileRead::ReadFailed => Err(LoadError::Read),
        FileRead::Text(text) => match table_of_text(text@) {
            Some(table) => Ok(table),
            None => Err(LoadError::Parse),
        },
    }
}

/// `table` after the text of the entry `id` in the language `tag` was changed
/// to `text`. A table without that entry, or whose entry lacks that language,
/// stays as it is.
pub open spec fn edited(table: TableView, id: Seq<char>, tag: Seq<char>, text: Seq<char>) -> TableView {
    if has_key(table, id) && has_key(table[index_of_key(table, id)].1, tag) {
        let at = index_of_key(table, id);
        table.update(at, (id, put(table[at].1, tag, text)))
    } else {
        table
    }
}

/// What a vector of rows holds, as sequences of characters.
pub open spec fn rows_view(rows: Seq<(String, Vec<(String, String)>)>) -> TableView {
    Seq::new(rows.len(), |i: int| (rows[i].0@, pairs_view(rows[i].1@)))
}

/// The texts to translate: entries by identifier, each with its texts by
/// language. The entries keep the order in which they were first stored.
#[derive(Debug)]
pub struct DqxTranslationsModel {
    inner_data: IndexMap<String, LanguageVariants>,
}

impl View for DqxTranslationsModel {
    type V = TableView;

    closed spec fn view(&self) -> TableView {
        map_rows(self.inner_data)
    }
}

impl Default for DqxTranslationsModel {
    /// A table without entries.
    fn default() -> (table: Self)
        ensures
            table@ == TableView::empty(),
    {
        DqxTranslationsModel::new()
    }
}

impl DqxTranslationsModel {
    /// No identifier occurs twice, nor a language tag in one entry. This holds
    /// of every value of the type.
    #[verifier::type_invariant]
    pub open spec fn wf(&self) -> bool {
        valid_table(self@)
    }

    /// The texts of the entry `id`, where the table has that entry.
    pub open spec fn variants_of(&self, id: Seq<char>) -> Option<VariantsView> {
        if has_key(self@, id) {
            Some(self@[index_of_key(self@, id)].1)
        } else {
            None
        }
    }

    /// A table without entries.
    pub fn new() -> (table: Self)
        ensures
            table@ == TableView::empty(),
    {
        DqxTranslationsModel { inner_data: map_new() }
    }

    /// The number of entries.
    pub fn len(&self) -> (n: usize)
        ensures
            n == self@.len(),
    {
        map_len(&self.inner_data)
    }

    /// The identifier and the texts of the entry at `index`, in the table's
    /// order; `None` past the end.
    pub fn get_index(&self, index: usize) -> (entry: Option<(&String, &LanguageVariants)>)
        ensures
            match entry {
                Some((id, variants)) => index < self@.len() && id@ == self@[index as int].0
                    && variants@ == self@[index as int].1,
                None => index >= self@.len(),
            },
    {
        map_get_index(&self.inner_data, index)
    }

    /// Where the entry `id` stands in the table's order, if the table has it.
    pub fn position(&self, id: &String) -> (found: Option<usize>)
        ensures
            match found {
                Some(index) => index < self@.len() && self@[index as int].0 == id@,
                None => !has_key(self@, id@),
            },
    {
        map_get_index_of(&self.inner_data, id)
    }

    /// The texts of the entry `id`; `None` where the table has no such entry.
    pub fn get(&self, id: &String) -> (variants: Option<&LanguageVariants>)
        ensures
            match variants {
                Some(v) => self.variants_of(id@) == Some(v@),
                None => self.variants_of(id@) is None,
            },
    {
        proof {
            use_type_invariant(self);
        }
        match self.position(id) {
            Some(index) => {
                proof {
                    lemma_index_of_key(self@, index as int);
                }
                match self.get_index(index) {
                    Some((_, variants)) => Some(variants),
                    None => None,
                }
            },
            None => None,
        }
    }

    /// Stores `variants` as the texts of the entry `id`. An entry that the
    /// table has keeps its place, a new one goes to the end. Returns the texts
    /// that were replaced.
    pub fn insert(&mut self, id: String, variants: LanguageVariants) -> (previous: Option<
        LanguageVariants,
    >)
        ensures
            final(self)@ == put(old(self)@, id@, variants@),
            match previous {
                Some(p) => old(self).variants_of(id@) == Some(p@),
                None => old(self).variants_of(id@) is None,
            },
    {
        proof {
            use_type_invariant(&*self);
            use_type_invariant(&variants);
            lemma_put_unique(self@, id@, variants@);
        }
        let mut inner = map_new();
        std::mem::swap(&mut inner, &mut self.inner_data);
        let previous = map_insert(&mut inner, id, variants);
        self.inner_data = inner;
        previous
    }

    /// Changes the text of the entry `id` in the language `tag` to `text`, and
    /// says whether it did. Nothing changes where the table lacks the entry or
    /// the entry lacks the language: an edit adds neither.
    pub fn set_text(&mut self, id: &String, tag: &String, text: String) -> (changed: bool)
        ensures
            final(self)@ == edited(old(self)@, id@, tag@, text@),
            changed == (has_key(old(self)@, id@) && has_key(
                old(self)@[index_of_key(old(self)@, id@)].1,
                tag@,
            )),
            final(self)@.len() == old(self)@.len(),
    {
        proof {
            use_type_invariant(&*self);
        }
        let mut variants = match self.position(id) {
            Some(index) => {
                proof {
                    lemma_index_of_key(self@, index as int);
                }
                match self.get_index(index) {
                    Some((_, variants)) => variants.clone(),
                    None => {
                        return false;
                    },
                }
            },
            None => {
                return false;
            },
        };
        match variants.replace(tag, text) {
            Some(_) => {
                self.insert(id.clone(), variants);
                true
            },
            None => false,
        }
    }

    /// The entries in the table's order, each with its tags and texts in the
    /// entry's own order, as owned strings: the rows to show.
    pub fn rows(&self) -> (rows: Vec<(String, Vec<(String, String)>)>)
        ensures
            rows_view(rows@) == self@,
    {
        let mut rows: Vec<(String, Vec<(String, String)>)> = Vec::new();
        let mut i: usize = 0;
        while i < self.len()
            invariant
                i <= self@.len(),
                rows_view(rows@) == self@.take(i as int),
            decreases self@.len() - i,
        {
            match self.get_index(i) {
                Some((id, variants)) => {
                    let ghost before = rows_view(rows@);
                    rows.push((id.clone(), variants.pairs()));
                    assert(rows_view(rows@) =~= before.push(self@[i as int]));
                    assert(self@.take(i + 1) =~= self@.take(i as int).push(self@[i as int]));
                },
                None => {},
            }
            i += 1;
        }
        assert(self@.take(i as int) =~= self@);
        rows
    }

    /// Reads a table from a JSON tree: an object whose members are the
    /// entries, each an object of strings. Any other tree is refused. Where an
    /// identifier occurs twice, its first place and its last texts count.
    pub fn from_json_node(node: &JsonNode) -> (table: Result<Self, LoadError>)
        ensures
            match table {
                Ok(t) => is_table_shape(node@) && t@ == table_of_json(node@),
                Err(e) => e == LoadError::Parse && !is_table_shape(node@),
            },
    {
        match node {
            JsonNode::Object(members) => {
                let ghost entries = entry_members(node@);
                proof {
                    lemma_view_unfolds(*node);
                }
                let mut table = DqxTranslationsModel::new();
                let mut i: usize = 0;
                assert(entries.take(0) =~= TableView::empty());
                while i < members.len()
                    invariant
                        i <= members.len(),
                        node == JsonNode::Object(*members),
                        entries == entry_members(node@),
                        entries.len() == members.len(),
                        forall|k: int|
                            0 <= k < i ==> is_variants_shape(
                                (#[trigger] node@->Object_0[k]).1,
                            ),
                        table@ == stored(entries.take(i as int)),
                    decreases members.len() - i,
                {
                    proof {
                        lemma_view_unfolds(*node);
                    }
                    match LanguageVariants::from_json_node(&members[i].1) {
                        Some(variants) => {
                            assert(entries.take(i + 1).drop_last() =~= entries.take(i as int));
                            assert(entries.take(i + 1).last() == (members[i as int].0@, variants@));
                            table.insert(members[i].0.clone(), variants);
                        },
                        None => {
                            assert(!is_variants_shape(
                                node@->Object_0[i as int].1,
                            ));
                            return Err(LoadError::Parse);
                        },
                    }
                    i += 1;
                }
                assert(entries.take(i as int) =~= entries);
                Ok(table)
            },
            _ => {
                proof {
                    lemma_view_unfolds(*node);
                }
                Err(LoadError::Parse)
            },
        }
    }

    /// Reads a table from JSON text. Text that is no JSON, and JSON of another
    /// shape than a table, are refused alike.
    pub fn from_json(text: &str) -> (table: Result<Self, LoadError>)
        ensures
            match table {
                Ok(t) => table_of_text(text@) == Some(t@),
                Err(e) => e == LoadError::Parse && table_of_text(text@) is None,
            },
    {
        match JsonNode::parse(text) {
            Some(node) => DqxTranslationsModel::from_json_node(&node),
            None => Err(LoadError::Parse),
        }
    }

    /// Loads a table from what reading its file gave: the error of the stage
    /// that failed, or the table that the file's text holds.
    pub fn from_read(read: &FileRead) -> (table: Result<Self, LoadError>)
        ensures
            match table {
                Ok(t) => load_outcome(*read) == Ok::<TableView, LoadError>(t@),
                Err(e) => load_outcome(*read) == Err::<TableView, LoadError>(e),
            },
    {
        match read {
            FileRead::OpenFailed => Err(LoadError::Open),
            FileRead::ReadFailed => Err(LoadError::Read),
            FileRead::Text(text) => DqxTranslationsModel::from_json(text.as_str()),
        }
    }

    /// The table as a JSON tree: an object with one member for each entry, in
    /// the table's order, each the object of the entry's texts.
    pub fn to_json_node(&self) -> (node: JsonNode)
        ensures
            node@ == json_of_table(self@),
    {
        let mut members: Vec<(String, JsonNode)> = Vec::new();
        let mut i: usize = 0;
        while i < self.len()
            invariant
                i <= self@.len(),
                members@.len() == i,
                forall|k: int|
                    0 <= k < i ==> (#[trigger] members@[k]).0@ == self@[k].0 && members@[k].1@
                        == json_of_variants(self@[k].1),
            decreases self@.len() - i,
        {
            match self.get_index(i) {
                Some((id, variants)) => {
                    members.push((id.clone(), variants.to_json_node()));
                },
                None => {},
            }
            i += 1;
        }
        let node = JsonNode::Object(members);
        proof {
            lemma_view_unfolds(node);
            assert(node@->Object_0 =~= json_of_table(self@)->Object_0);
        }
        node
    }

    /// The table as JSON text: an object of the entries in the table's order,
    /// each an object of its texts in the entry's order.
    pub fn to_json_text(&self) -> (text: Result<String, SaveError>)
        ensures
            match text {
                Ok(t) => text_of_table(self@) == Some(t@),
                Err(e) => e == SaveError::Encode && text_of_table(self@) is None,
            },
    {
        proof {
            use_type_invariant(self);
            law_table_round_trip(self@);
        }
        match self.to_json_node().render() {
            Some(text) => Ok(text),
            None => Err(SaveError::Encode),
        }
    }
}

} // verus!
