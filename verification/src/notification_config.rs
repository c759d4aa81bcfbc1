//! Notification configurations: which of them are due, marking one as run,
//! creating one, and whom one notifies.

use crate::json::{parse_string_list, text_list};
use crate::repository::{
    configs_view, ConfigView, NotificationConfigKind, NotificationConfigRow,
    NotificationConfigStatus, StorageConnection,
};
use crate::text::{option_text, texts};
use vstd::prelude::*;

pub mod create;
pub mod recipients;

verus! {

/// Why a configuration could not be created or changed.
#[derive(Debug, PartialEq)]
pub enum ModifyNotificationConfigError {
    NotificationConfigAlreadyExists,
    NotificationConfigDoesNotExist,
}

/// A configuration as the evaluators read it: the row of the storage, with
/// its three lists of ids read from their JSON text.
#[derive(Debug, PartialEq)]
pub struct NotificationConfig {
    pub id: String,
    pub title: String,
    pub kind: NotificationConfigKind,
    pub configuration_data: String,
    pub status: NotificationConfigStatus,
    pub parameters: String,
    pub parameter_query_id: Option<String>,
    pub recipient_ids: Vec<String>,
    pub recipient_list_ids: Vec<String>,
    pub sql_recipient_list_ids: Vec<String>,
    pub last_run_datetime: Option<i64>,
    pub next_due_datetime: Option<i64>,
}

impl NotificationConfig {
    /// Reads a row. A list of ids that is not a JSON array of strings is
    /// read as empty.
    pub fn from(row: NotificationConfigRow) -> (config: NotificationConfig)
        ensures
            config.id@ == row.id@,
            config.title@ == row.title@,
            config.kind == row.kind,
            config.configuration_data@ == row.configuration_data@,
            config.status == row.status,
            config.parameters@ == row.parameters@,
            option_text(config.parameter_query_id) == option_text(row.parameter_query_id),
            texts(config.recipient_ids@) == text_list(row.recipient_ids@),
            texts(config.recipient_list_ids@) == text_list(row.recipient_list_ids@),
            texts(config.sql_recipient_list_ids@) == text_list(row.sql_recipient_list_ids@),
            config.last_run_datetime == row.last_run_datetime,
            config.next_due_datetime == row.next_due_datetime,
    {
        let recipient_ids = parse_string_list(row.recipient_ids.as_str());
        let recipient_list_ids = parse_string_list(row.recipient_list_ids.as_str());
        let sql_recipient_list_ids = parse_string_list(row.sql_recipient_list_ids.as_str());
        NotificationConfig {
            id: row.id,
            title: row.title,
            kind: row.kind,
            configuration_data: row.configuration_data,
            status: row.status,
            parameters: row.parameters,
            parameter_query_id: row.parameter_query_id,
            recipient_ids,
            recipient_list_ids,
            sql_recipient_list_ids,
            last_run_datetime: row.last_run_datetime,
            next_due_datetime: row.next_due_datetime,
        }
    }
}

/// A configuration is due when it is enabled, of the kind asked for, and
/// its next due time is not set or has come.
pub open spec fn is_due(config: ConfigView, kind: NotificationConfigKind, now: i64) -> bool {
    &&& config.status == NotificationConfigStatus::Enabled
    &&& config.kind == kind
    &&& match config.next_due_datetime {
        None => true,
        Some(due) => due <= now,
    }
}

/// [`is_due`] for a fixed kind and time.
pub open spec fn due(kind: NotificationConfigKind, now: i64) -> spec_fn(ConfigView) -> bool {
    |config: ConfigView| is_due(config, kind, now)
}

/// The configurations of `kind` that are due at `now`, in the order of the
/// storage.
pub fn find_all_due_by_kind(
    connection: &StorageConnection,
    kind: NotificationConfigKind,
    now: i64,
) -> (configs: Vec<NotificationConfigRow>)
    ensures
        configs_view(configs@) == configs_view(connection.notification_configs@).filter(
            due(kind, now),
        ),
{
    let rows = &connection.notification_configs;
    let mut configs: Vec<NotificationConfigRow> = Vec::new();
    let mut i: usize = 0;
    assert(configs_view(rows@).take(0) =~= Seq::empty());
    assert(configs_view(configs@) =~= Seq::empty());
    while i < rows.len()
        invariant
            i <= rows@.len(),
            configs_view(configs@) == configs_view(rows@).take(i as int).filter(due(kind, now)),
        decreases rows@.len() - i,
    {
        let row = &rows[i];
        let is_due_now = row.status == NotificationConfigStatus::Enabled && row.kind == kind
            && match row.next_due_datetime {
            None => true,
            Some(due) => due <= now,
        };
        proof {
            let all = configs_view(rows@);
            reveal(Seq::filter);
            assert(all.take(i as int + 1).drop_last() =~= all.take(i as int));
            assert(all.take(i as int + 1).last() == row@);
            assert(is_due_now == due(kind, now)(row@));
        }
        if is_due_now {
            let ghost before = configs@;
            configs.push(row.clone());
            assert(configs_view(configs@) =~= configs_view(before).push(row@));
        }
        i += 1;
    }
    assert(configs_view(rows@).take(i as int) =~= configs_view(rows@));
    configs
}

/// `config` with `now` as the time of its last run.
pub open spec fn with_last_run(config: ConfigView, now: i64) -> ConfigView {
    ConfigView { last_run_datetime: Some(now), ..config }
}

/// `configs` with `now` as the time of the last run of those whose id is
/// `id`.
pub open spec fn marked(configs: Seq<ConfigView>, id: Seq<char>, now: i64) -> Seq<ConfigView> {
    configs.map_values(
        |config: ConfigView|
            if config.id == id {
                with_last_run(config, now)
            } else {
                config
            },
    )
}

/// `after` is `before` but for the table of configurations, which holds
/// `configs`.
pub open spec fn configs_replaced(
    before: StorageConnection,
    after: StorageConnection,
    configs: Seq<ConfigView>,
) -> bool {
    &&& configs_view(after.notification_configs@) == configs
    &&& after.recipients == before.recipients
    &&& after.recipient_lists == before.recipient_lists
    &&& after.recipient_list_members == before.recipient_list_members
    &&& after.notification_queries == before.notification_queries
    &&& after.notification_events == before.notification_events
    &&& after.plugin_store == before.plugin_store
}

/// Records `now` as the time of the last run of the configuration
/// `config_id`. A configuration that the storage does not hold is an error,
/// and nothing changes.
pub fn mark_run(connection: &mut StorageConnection, config_id: &String, now: i64) -> (result:
    Result<(), ModifyNotificationConfigError>)
    ensures
        configs_replaced(
            *old(connection),
            *final(connection),
            marked(configs_view(old(connection).notification_configs@), config_id@, now),
        ),
        result is Ok <==> exists|i: int|
            0 <= i < old(connection).notification_configs@.len() && (#[trigger] old(
                connection,
            ).notification_configs@[i]).id@ == config_id@,
        result is Err ==> result == Err::<(), ModifyNotificationConfigError>(
            ModifyNotificationConfigError::NotificationConfigDoesNotExist,
        ) && configs_view(final(connection).notification_configs@) == configs_view(
            old(connection).notification_configs@,
        ),
{
    let ghost before = configs_view(connection.notification_configs@);
    let mut found = false;
    let mut i: usize = 0;
    while i < connection.notification_configs.len()
        invariant
            i <= connection.notification_configs@.len(),
            connection.notification_configs@.len() == before.len(),
            before == configs_view(old(connection).notification_configs@),
            connection.recipients == old(connection).recipients,
            connection.recipient_lists == old(connection).recipient_lists,
            connection.recipient_list_members == old(connection).recipient_list_members,
            connection.notification_queries == old(connection).notification_queries,
            connection.notification_events == old(connection).notification_events,
            connection.plugin_store == old(connection).plugin_store,
            forall|j: int|
                0 <= j < i ==> (#[trigger] connection.notification_configs@[j])@ == marked(
                    before,
                    config_id@,
                    now,
                )[j],
            forall|j: int|
                i <= j < before.len() ==> (#[trigger] connection.notification_configs@[j])@
                    == before[j],
            found <==> exists|j: int| 0 <= j < i && (#[trigger] before[j]).id == config_id@,
        decreases connection.notification_configs@.len() - i,
    {
        assert(before[i as int] == connection.notification_configs@[i as int]@);
        if connection.notification_configs[i].id == *config_id {
            let mut row = connection.notification_configs[i].clone();
            row.last_run_datetime = Some(now);
            connection.notification_configs.set(i, row);
            found = true;
        }
        i += 1;
    }
    proof {
        assert(configs_view(connection.notification_configs@) =~= marked(before, config_id@, now));
        let rows = old(connection).notification_configs@;
        if found {
            let j = choose|j: int| 0 <= j < i && (#[trigger] before[j]).id == config_id@;
            assert(rows[j].id@ == config_id@);
        } else {
            assert forall|j: int| 0 <= j < rows.len() implies (#[trigger] rows[j]).id@
                != config_id@ by {
                assert(before[j].id == rows[j].id@);
            }
            assert(marked(before, config_id@, now) =~= before);
        }
    }
    if found {
        Ok(())
    } else {
        Err(ModifyNotificationConfigError::NotificationConfigDoesNotExist)
    }
}

} // verus!
