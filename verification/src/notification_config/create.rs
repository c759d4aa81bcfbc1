//! Creating a notification configuration.

use crate::notification_config::{ModifyNotificationConfigError, NotificationConfig};
use crate::repository::{
    NotificationConfigKind, NotificationConfigRow, NotificationConfigStatus, StorageConnection,
};
use crate::text::{trim, trimmed};
use vstd::prelude::*;
use vstd::string::StringExecFns;

verus! {

/// A configuration to create.
pub struct CreateNotificationConfig {
    pub id: String,
    pub title: String,
    pub kind: NotificationConfigKind,
}

impl Clone for CreateNotificationConfig {
    fn clone(&self) -> (copy: CreateNotificationConfig)
        ensures
            copy.id@ == self.id@,
            copy.title@ == self.title@,
            copy.kind == self.kind,
    {
        CreateNotificationConfig {
            id: self.id.clone(),
            title: self.title.clone(),
            kind: self.kind,
        }
    }
}

/// The storage holds a configuration with the id `id`.
pub open spec fn config_exists(rows: Seq<NotificationConfigRow>, id: Seq<char>) -> bool {
    exists|i: int| 0 <= i < rows.len() && (#[trigger] rows[i]).id@ == id
}

/// `row` is a new configuration as [`generate`] makes it: disabled, never
/// run, without parameters or recipients, its title trimmed.
pub open spec fn is_generated(row: NotificationConfigRow, new_config: CreateNotificationConfig)
    -> bool {
    &&& row.id@ == new_config.id@
    &&& row.title@ == trimmed(new_config.title@)
    &&& row.kind == new_config.kind
    &&& row.configuration_data@ == "{}"@
    &&& row.status == NotificationConfigStatus::Disabled
    &&& row.parameters@ == "{}"@
    &&& row.parameter_query_id is None
    &&& row.recipient_ids@ == "[]"@
    &&& row.recipient_list_ids@ == "[]"@
    &&& row.sql_recipient_list_ids@ == "[]"@
    &&& row.last_run_datetime is None
    &&& row.next_due_datetime is None
}

/// A configuration can be created unless its id is taken.
pub fn validate(new_config: &CreateNotificationConfig, connection: &StorageConnection) -> (result:
    Result<(), ModifyNotificationConfigError>)
    ensures
        result is Err <==> config_exists(connection.notification_configs@, new_config.id@),
        result is Err ==> result == Err::<(), ModifyNotificationConfigError>(
            ModifyNotificationConfigError::NotificationConfigAlreadyExists,
        ),
{
    let rows = &connection.notification_configs;
    let mut i: usize = 0;
    while i < rows.len()
        invariant
            i <= rows@.len(),
            rows@ == connection.notification_configs@,
            forall|j: int| 0 <= j < i ==> (#[trigger] rows@[j]).id@ != new_config.id@,
        decreases rows@.len() - i,
    {
        if rows[i].id == new_config.id {
            assert(rows@[i as int].id@ == new_config.id@);
            return Err(ModifyNotificationConfigError::NotificationConfigAlreadyExists);
        }
        i += 1;
    }
    Ok(())
}

/// The row of a new configuration.
pub fn generate(new_config: CreateNotificationConfig) -> (result: Result<
    NotificationConfigRow,
    ModifyNotificationConfigError,
>)
    ensures
        result is Ok,
        is_generated(result.unwrap(), new_config),
{
    let title = String::from_str(trim(new_config.title.as_str()));
    Ok(
        NotificationConfigRow {
            id: new_config.id,
            title,
            kind: new_config.kind,
            configuration_data: String::from_str("{}"),
            status: NotificationConfigStatus::Disabled,
            parameters: String::from_str("{}"),
            parameter_query_id: None,
            recipient_ids: String::from_str("[]"),
            recipient_list_ids: String::from_str("[]"),
            sql_recipient_list_ids: String::from_str("[]"),
            last_run_datetime: None,
            next_due_datetime: None,
        },
    )
}

/// Adds a new configuration to the storage and returns it. An id that is
/// taken is an error, and nothing changes.
pub fn create_notification_config(
    connection: &mut StorageConnection,
    new_config: CreateNotificationConfig,
) -> (result: Result<NotificationConfig, ModifyNotificationConfigError>)
    ensures
        result is Err <==> config_exists(old(connection).notification_configs@, new_config.id@),
        result is Err ==> *final(connection) == *old(connection) && result.unwrap_err()
            == ModifyNotificationConfigError::NotificationConfigAlreadyExists,
        result is Ok ==> {
            let row = final(connection).notification_configs@.last();
            let config = result.unwrap();
            &&& final(connection).notification_configs@ == old(
                connection,
            ).notification_configs@.push(row)
            &&& is_generated(row, new_config)
            &&& config.id@ == new_config.id@
            &&& config.title@ == trimmed(new_config.title@)
            &&& config.kind == new_config.kind
            &&& config.status == NotificationConfigStatus::Disabled
            &&& final(connection).recipients == old(connection).recipients
            &&& final(connection).recipient_lists == old(connection).recipient_lists
            &&& final(connection).recipient_list_members == old(connection).recipient_list_members
            &&& final(connection).notification_queries == old(connection).notification_queries
            &&& final(connection).notification_events == old(connection).notification_events
            &&& final(connection).plugin_store == old(connection).plugin_store
        },
{
    match validate(&new_config, connection) {
        Ok(()) => {},
        Err(error) => {
            return Err(error);
        },
    }
    let row = match generate(new_config.clone()) {
        Ok(row) => row,
        Err(error) => {
            return Err(error);
        },
    };
    let config = NotificationConfig::from(row.clone());
    connection.notification_configs.push(row);
    Ok(config)
}

} // verus!
