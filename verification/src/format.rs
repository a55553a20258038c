//! The shape of a table in JSON: an object whose members are the entries, each
//! an object whose members are the entry's texts, each a string under its
//! language tag.

use crate::json::{distinct_names, parsed_json, JsonValue};
use crate::keyed::{lemma_stored_keeps_unique, lemma_stored_unique_keys, lemma_stored_values, stored, unique_keys, TableView, VariantsView};
use crate::text_model::{table_of_text, text_of_table, valid_table};
use vstd::prelude::*;

verus! {

/// `value` is an object whose members are all strings.
pub open spec fn is_variants_shape(value: JsonValue) -> bool {
    value matches JsonValue::Object(members) && forall|i: int|
        0 <= i < members.len() ==> (#[trigger] members[i]).1 is Text
}

/// `value` is an object whose members are all objects of strings.
pub open spec fn is_table_shape(value: JsonValue) -> bool {
    value matches JsonValue::Object(members) && forall|i: int|
        0 <= i < members.len() ==> is_variants_shape((#[trigger] members[i]).1)
}

/// The members of an object of strings, each with its string.
pub open spec fn text_members(value: JsonValue) -> VariantsView {
    value->Object_0.map_values(|member: (Seq<char>, JsonValue)| (member.0, member.1->Text_0))
}

/// The texts that an object of strings gives: its members, stored one after
/// the other.
pub open spec fn variants_of_json(value: JsonValue) -> VariantsView {
    stored(text_members(value))
}

/// The members of an object of objects of strings, each with its texts.
pub open spec fn entry_members(value: JsonValue) -> TableView {
    value->Object_0.map_values(
        |member: (Seq<char>, JsonValue)| (member.0, variants_of_json(member.1)),
    )
}

/// The table that an object of objects of strings gives: its members, stored
/// one after the other.
pub open spec fn table_of_json(value: JsonValue) -> TableView {
    stored(entry_members(value))
}

/// The object of strings that spells the texts of one entry.
pub open spec fn json_of_variants(variants: VariantsView) -> JsonValue {
    JsonValue::Object(
        variants.map_values(|pair: (Seq<char>, Seq<char>)| (pair.0, JsonValue::Text(pair.1))),
    )
}

/// The object of objects of strings that spells a table.
pub open spec fn json_of_table(table: TableView) -> JsonValue {
    JsonValue::Object(
        table.map_values(|row: (Seq<char>, VariantsView)| (row.0, json_of_variants(row.1))),
    )
}

/// Whatever object of objects of strings is read, the result is a table: no
/// identifier twice, and in no entry a language tag twice.
pub proof fn law_decoded_table_is_valid(value: JsonValue)
    requires
        is_table_shape(value),
    ensures
        valid_table(table_of_json(value)),
{
    let members = entry_members(value);
    lemma_stored_unique_keys(members);
    assert forall|i: int| 0 <= i < table_of_json(value).len() implies unique_keys(
        (#[trigger] table_of_json(value)[i]).1,
    ) by {
        lemma_stored_values(members, i);
        let k = choose|k: int| 0 <= k < members.len() && #[trigger] members[k] == stored(members)[i];
        lemma_stored_unique_keys(text_members(value->Object_0[k].1));
    }
}

/// Writing a table as a JSON tree and reading that tree gives the table back:
/// the same entries with the same texts, all in the same order.
pub proof fn law_table_round_trip(table: TableView)
    requires
        valid_table(table),
    ensures
        is_table_shape(json_of_table(table)),
        distinct_names(json_of_table(table)),
        table_of_json(json_of_table(table)) == table,
{
    let value = json_of_table(table);
    let members = value->Object_0;
    assert forall|i: int| 0 <= i < members.len() implies is_variants_shape(
        (#[trigger] members[i]).1,
    ) && distinct_names(members[i].1) by {
        assert(unique_keys(table[i].1));
        let inner = members[i].1->Object_0;
        assert forall|a: int, b: int| 0 <= a < b < inner.len() implies (#[trigger] inner[a]).0
                != (#[trigger] inner[b]).0 by {
            assert(table[i].1[a].0 != table[i].1[b].0);
        }
        assert forall|k: int| 0 <= k < inner.len() implies distinct_names(
            (#[trigger] inner[k]).1,
        ) by {
            assert(inner[k].1 is Text);
        }
    }
    assert(unique_keys(members)) by {
        assert forall|a: int, b: int| 0 <= a < b < members.len() implies (#[trigger] members[a]).0
            != (#[trigger] members[b]).0 by {
            assert(table[a].0 != table[b].0);
        }
    }
    assert(entry_members(value) =~= table) by {
        assert forall|i: int| 0 <= i < table.len() implies entry_members(value)[i] == table[i] by {
            assert(unique_keys(table[i].1));
            assert(text_members(members[i].1) =~= table[i].1);
            lemma_stored_keeps_unique(table[i].1);
        }
    }
    lemma_stored_keeps_unique(table);
}

/// Reading an object of objects of strings in which no name occurs twice
/// keeps every member and adds none: written as a JSON tree again, the table
/// is the tree that was read. An entry that lacks a language has no text in
/// it, not an empty one.
pub proof fn law_reading_keeps_members(value: JsonValue)
    requires
        is_table_shape(value),
        distinct_names(value),
    ensures
        table_of_json(value) == entry_members(value),
        forall|i: int|
            0 <= i < entry_members(value).len() ==> (#[trigger] entry_members(value)[i]).1
                == text_members(value->Object_0[i].1),
        json_of_table(table_of_json(value)) == value,
{
    let members = value->Object_0;
    let rows = entry_members(value);
    assert(unique_keys(rows)) by {
        assert forall|a: int, b: int| 0 <= a < b < rows.len() implies (#[trigger] rows[a]).0
                != (#[trigger] rows[b]).0 by {
            assert(members[a].0 != members[b].0);
        }
    }
    lemma_stored_keeps_unique(rows);
    assert forall|i: int| 0 <= i < rows.len() implies (#[trigger] rows[i]).1 == text_members(
        members[i].1,
    ) by {
        let inner = members[i].1->Object_0;
        assert(is_variants_shape(members[i].1));
        assert(distinct_names(members[i].1));
        assert(unique_keys(inner));
        let texts = text_members(members[i].1);
        assert(unique_keys(texts)) by {
            assert forall|a: int, b: int| 0 <= a < b < texts.len() implies (#[trigger] texts[a]).0
                != (#[trigger] texts[b]).0 by {
                assert(inner[a].0 != inner[b].0);
            }
        }
        lemma_stored_keeps_unique(texts);
    }
    let again = json_of_table(rows)->Object_0;
    assert(again =~= members) by {
        assert forall|i: int| 0 <= i < members.len() implies again[i] == members[i] by {
            let inner = members[i].1->Object_0;
            assert(is_variants_shape(members[i].1));
            assert(rows[i].1 == text_members(members[i].1));
            let back = json_of_variants(rows[i].1)->Object_0;
            assert(back =~= inner) by {
                assert forall|k: int| 0 <= k < inner.len() implies back[k] == inner[k] by {
                    assert(inner[k].1 is Text);
                }
            }
        }
    }
}

/// Saving a table and loading what was saved gives the table back, the same
/// entries with the same texts in the same order, provided that `serde_json`
/// reads from the text that it wrote the value that it wrote it for.
pub proof fn law_saved_text_loads_back(table: TableView, text: Seq<char>)
    requires
        valid_table(table),
        text_of_table(table) == Some(text),
        parsed_json(text) == Some(json_of_table(table)),
    ensures
        table_of_text(text) == Some(table),
{
    law_table_round_trip(table);
}

/// Loading a text, saving the table and loading what was saved gives the
/// table of the first loading, the same entries with the same texts in the
/// same order, provided that `serde_json` reads from the text that it wrote
/// the value that it wrote it for.
pub proof fn law_load_save_load(first: Seq<char>, saved: Seq<char>)
    requires
        table_of_text(first) matches Some(table) && text_of_table(table) == Some(saved)
            && parsed_json(saved) == Some(json_of_table(table)),
    ensures
        table_of_text(saved) == table_of_text(first),
{
    law_decoded_table_is_valid(parsed_json(first)->Some_0);
    law_saved_text_loads_back(table_of_text(first)->Some_0, saved);
}

} // verus!
