//! The plugin store: small values that an evaluator keeps from one cycle to
//! the next, each under a key in the evaluator's own partition.

use crate::repository::{PluginStoreRow, StorageConnection};
use vstd::prelude::*;

verus! {

/// `row` holds the value of `key` in the partition of `plugin_name`.
pub open spec fn is_row_of(row: PluginStoreRow, plugin_name: Seq<char>, key: Seq<char>) -> bool {
    row.plugin_name@ == plugin_name && row.key@ == key
}

/// The value of `key` in the partition of `plugin_name`: that of the last
/// row that holds one.
pub open spec fn stored_value(rows: Seq<PluginStoreRow>, plugin_name: Seq<char>, key: Seq<char>)
    -> Option<Seq<char>>
    decreases rows.len(),
{
    if rows.len() == 0 {
        None
    } else if is_row_of(rows.last(), plugin_name, key) {
        Some(rows.last().value_string@)
    } else {
        stored_value(rows.drop_last(), plugin_name, key)
    }
}

/// The plugin store as a map: from partition and key to the value kept
/// there.
pub open spec fn store_map(rows: Seq<PluginStoreRow>) -> Map<(Seq<char>, Seq<char>), Seq<char>> {
    Map::new(
        |at: (Seq<char>, Seq<char>)| stored_value(rows, at.0, at.1) is Some,
        |at: (Seq<char>, Seq<char>)| stored_value(rows, at.0, at.1).unwrap(),
    )
}

/// The value that a map holds for a key, if it holds one.
pub open spec fn lookup(
    store: Map<(Seq<char>, Seq<char>), Seq<char>>,
    plugin_name: Seq<char>,
    key: Seq<char>,
) -> Option<Seq<char>> {
    if store.contains_key((plugin_name, key)) {
        Some(store[(plugin_name, key)])
    } else {
        None
    }
}

/// `after` is `before` but for the plugin store.
pub open spec fn only_plugin_store_differs(before: StorageConnection, after: StorageConnection)
    -> bool {
    &&& after.recipients == before.recipients
    &&& after.recipient_lists == before.recipient_lists
    &&& after.recipient_list_members == before.recipient_list_members
    &&& after.notification_configs == before.notification_configs
    &&& after.notification_queries == before.notification_queries
    &&& after.notification_events == before.notification_events
}

proof fn lemma_no_row_no_value(rows: Seq<PluginStoreRow>, plugin_name: Seq<char>, key: Seq<char>)
    requires
        forall|j: int| 0 <= j < rows.len() ==> !is_row_of(#[trigger] rows[j], plugin_name, key),
    ensures
        stored_value(rows, plugin_name, key) is None,
    decreases rows.len(),
{
    if rows.len() > 0 {
        let rest = rows.drop_last();
        assert forall|j: int| 0 <= j < rest.len() implies !is_row_of(
            #[trigger] rest[j],
            plugin_name,
            key,
        ) by {
            assert(rest[j] == rows[j]);
        }
        lemma_no_row_no_value(rest, plugin_name, key);
    }
}

proof fn lemma_last_row_counts(
    rows: Seq<PluginStoreRow>,
    i: int,
    plugin_name: Seq<char>,
    key: Seq<char>,
)
    requires
        0 <= i < rows.len(),
        is_row_of(rows[i], plugin_name, key),
        forall|j: int| i < j < rows.len() ==> !is_row_of(#[trigger] rows[j], plugin_name, key),
    ensures
        stored_value(rows, plugin_name, key) == Some(rows[i].value_string@),
    decreases rows.len(),
{
    if i < rows.len() - 1 {
        let rest = rows.drop_last();
        assert forall|j: int| i < j < rest.len() implies !is_row_of(
            #[trigger] rest[j],
            plugin_name,
            key,
        ) by {
            assert(rest[j] == rows[j]);
        }
        assert(rest[i] == rows[i]);
        lemma_last_row_counts(rest, i, plugin_name, key);
    }
}

proof fn lemma_replaced_row(
    rows: Seq<PluginStoreRow>,
    i: int,
    row: PluginStoreRow,
    plugin_name: Seq<char>,
    key: Seq<char>,
)
    requires
        0 <= i < rows.len(),
        is_row_of(rows[i], row.plugin_name@, row.key@),
        forall|j: int|
            i < j < rows.len() ==> !is_row_of(#[trigger] rows[j], row.plugin_name@, row.key@),
    ensures
        stored_value(rows.update(i, row), plugin_name, key) == if is_row_of(
            row,
            plugin_name,
            key,
        ) {
            Some(row.value_string@)
        } else {
            stored_value(rows, plugin_name, key)
        },
    decreases rows.len(),
{
    let replaced = rows.update(i, row);
    if i == rows.len() - 1 {
        assert(replaced.drop_last() =~= rows.drop_last());
    } else {
        let rest = rows.drop_last();
        assert(replaced.drop_last() =~= rest.update(i, row));
        assert(replaced.last() == rows.last());
        assert forall|j: int| i < j < rest.len() implies !is_row_of(
            #[trigger] rest[j],
            row.plugin_name@,
            row.key@,
        ) by {
            assert(rest[j] == rows[j]);
        }
        assert(rest[i] == rows[i]);
        lemma_replaced_row(rest, i, row, plugin_name, key);
    }
}

/// The place of the last row that holds the value of `key`, if there is
/// one.
fn find_row(rows: &Vec<PluginStoreRow>, plugin_name: &String, key: &String) -> (place: Option<
    usize,
>)
    ensures
        match place {
            Some(i) => {
                &&& i < rows@.len()
                &&& is_row_of(rows@[i as int], plugin_name@, key@)
                &&& forall|j: int|
                    i < j < rows@.len() ==> !is_row_of(#[trigger] rows@[j], plugin_name@, key@)
            },
            None => forall|j: int|
                0 <= j < rows@.len() ==> !is_row_of(#[trigger] rows@[j], plugin_name@, key@),
        },
{
    let mut i: usize = rows.len();
    while i > 0
        invariant
            i <= rows@.len(),
            forall|j: int|
                i <= j < rows@.len() ==> !is_row_of(#[trigger] rows@[j], plugin_name@, key@),
        decreases i,
    {
        i -= 1;
        if rows[i].plugin_name == *plugin_name && rows[i].key == *key {
            return Some(i);
        }
    }
    None
}

/// The value kept under `key` in the partition of `plugin_name`.
pub fn get_value(connection: &StorageConnection, plugin_name: &String, key: &String) -> (value:
    Option<String>)
    ensures
        crate::text::option_text(value) == lookup(
            store_map(connection.plugin_store@),
            plugin_name@,
            key@,
        ),
{
    match find_row(&connection.plugin_store, plugin_name, key) {
        Some(i) => {
            proof {
                lemma_last_row_counts(connection.plugin_store@, i as int, plugin_name@, key@);
            }
            Some(connection.plugin_store[i].value_string.clone())
        },
        None => {
            proof {
                lemma_no_row_no_value(connection.plugin_store@, plugin_name@, key@);
            }
            None
        },
    }
}

/// Keeps `value` under `key` in the partition of `plugin_name`, in place of
/// what was kept there. Every other key keeps its value.
pub fn set_value(
    connection: &mut StorageConnection,
    plugin_name: String,
    key: String,
    value: String,
)
    ensures
        only_plugin_store_differs(*old(connection), *final(connection)),
        store_map(final(connection).plugin_store@) == store_map(
            old(connection).plugin_store@,
        ).insert((plugin_name@, key@), value@),
{
    let ghost before = connection.plugin_store@;
    let place = find_row(&connection.plugin_store, &plugin_name, &key);
    let row = PluginStoreRow { plugin_name, key, value_string: value };
    match place {
        Some(i) => {
            connection.plugin_store.set(i, row);
            assert forall|p: Seq<char>, k: Seq<char>| #[trigger]
                stored_value(connection.plugin_store@, p, k) == if p == row.plugin_name@ && k
                    == row.key@ {
                    Some(row.value_string@)
                } else {
                    stored_value(before, p, k)
                } by {
                lemma_replaced_row(before, i as int, row, p, k);
            }
        },
        None => {
            connection.plugin_store.push(row);
            assert forall|p: Seq<char>, k: Seq<char>| #[trigger]
                stored_value(connection.plugin_store@, p, k) == if p == row.plugin_name@ && k
                    == row.key@ {
                    Some(row.value_string@)
                } else {
                    stored_value(before, p, k)
                } by {
                assert(connection.plugin_store@.drop_last() =~= before);
            }
        },
    }
    assert(store_map(connection.plugin_store@) =~= store_map(before).insert(
        (row.plugin_name@, row.key@),
        row.value_string@,
    ));
}

} // verus!
