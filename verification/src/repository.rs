//! Rows of the storage, and the in-memory image of the storage that the
//! pipeline reads and writes.
//!
//! Every date and time is an `i64`: microseconds since the Unix epoch.

use crate::text::{copy_of, option_text};
use vstd::prelude::*;

verus! {

/// Channel over which a notification is delivered.
#[derive(Clone, Copy, Debug, PartialEq, Eq, Structural)]
pub enum NotificationType {
    Email,
    Telegram,
    Unknown,
}

/// Kind of a notification configuration: the evaluator that it belongs to.
#[derive(Clone, Copy, Debug, PartialEq, Eq, Structural)]
pub enum NotificationConfigKind {
    ColdChain,
    Scheduled,
}

/// Whether a configuration is evaluated at all.
#[derive(Clone, Copy, Debug, PartialEq, Eq, Structural)]
pub enum NotificationConfigStatus {
    Enabled,
    Disabled,
}

/// Delivery state of an event. The pipeline writes `Queued` and `Failed`;
/// the other states belong to the delivery worker.
#[derive(Clone, Copy, Debug, PartialEq, Eq, Structural)]
pub enum NotificationEventStatus {
    Queued,
    Sent,
    Errored,
    Failed,
}

/// Someone who can be notified. A recipient that was deleted keeps its row,
/// with the time of the deletion.
#[derive(Debug, PartialEq)]
pub struct RecipientRow {
    pub id: String,
    pub name: String,
    pub notification_type: NotificationType,
    pub to_address: String,
    pub deleted_datetime: Option<i64>,
}

/// A named list of recipients.
#[derive(Debug, PartialEq)]
pub struct RecipientListRow {
    pub id: String,
    pub name: String,
    pub description: String,
}

/// The membership of one recipient in one list.
#[derive(Debug, PartialEq)]
pub struct RecipientListMemberRow {
    pub id: String,
    pub recipient_id: String,
    pub recipient_list_id: String,
}

/// A notification configuration. The payload, the parameters and the three
/// lists of ids are JSON text.
#[derive(Debug, PartialEq)]
pub struct NotificationConfigRow {
    pub id: String,
    pub title: String,
    pub kind: NotificationConfigKind,
    pub configuration_data: String,
    pub status: NotificationConfigStatus,
    pub parameters: String,
    pub parameter_query_id: Option<String>,
    pub recipient_ids: String,
    pub recipient_list_ids: String,
    pub sql_recipient_list_ids: String,
    pub last_run_datetime: Option<i64>,
    pub next_due_datetime: Option<i64>,
}

/// A stored query: the name under which its result is filed, and the SQL
/// template.
#[derive(Debug, PartialEq)]
pub struct NotificationQueryRow {
    pub id: String,
    pub name: String,
    pub reference_name: String,
    pub description: String,
    pub query: String,
    pub required_parameters: String,
}

/// One notification, queued for delivery or recorded as failed.
#[derive(Debug, PartialEq)]
pub struct NotificationEventRow {
    pub id: String,
    pub notification_config_id: Option<String>,
    pub to_address: String,
    pub notification_type: NotificationType,
    pub title: Option<String>,
    pub message: String,
    pub context: Option<String>,
    pub status: NotificationEventStatus,
    pub error_message: Option<String>,
    pub send_attempts: i32,
    pub retry_at: Option<i64>,
    pub sent_at: Option<i64>,
    pub created_at: i64,
    pub updated_at: i64,
}

/// One value of the plugin store: `value_string` under `key`, in the
/// partition of `plugin_name`.
#[derive(Debug, PartialEq)]
pub struct PluginStoreRow {
    pub plugin_name: String,
    pub key: String,
    pub value_string: String,
}

/// The value of a [`RecipientRow`].
pub struct RecipientView {
    pub id: Seq<char>,
    pub name: Seq<char>,
    pub notification_type: NotificationType,
    pub to_address: Seq<char>,
    pub deleted_datetime: Option<i64>,
}

impl View for RecipientRow {
    type V = RecipientView;

    open spec fn view(&self) -> RecipientView {
        RecipientView {
            id: self.id@,
            name: self.name@,
            notification_type: self.notification_type,
            to_address: self.to_address@,
            deleted_datetime: self.deleted_datetime,
        }
    }
}

impl Clone for RecipientRow {
    fn clone(&self) -> (copy: RecipientRow)
        ensures
            copy@ == self@,
    {
        RecipientRow {
            id: self.id.clone(),
            name: self.name.clone(),
            notification_type: self.notification_type,
            to_address: self.to_address.clone(),
            deleted_datetime: self.deleted_datetime,
        }
    }
}

/// The value of a [`RecipientListMemberRow`].
pub struct MemberView {
    pub id: Seq<char>,
    pub recipient_id: Seq<char>,
    pub recipient_list_id: Seq<char>,
}

impl View for RecipientListMemberRow {
    type V = MemberView;

    open spec fn view(&self) -> MemberView {
        MemberView {
            id: self.id@,
            recipient_id: self.recipient_id@,
            recipient_list_id: self.recipient_list_id@,
        }
    }
}

impl Clone for RecipientListMemberRow {
    fn clone(&self) -> (copy: RecipientListMemberRow)
        ensures
            copy@ == self@,
    {
        RecipientListMemberRow {
            id: self.id.clone(),
            recipient_id: self.recipient_id.clone(),
            recipient_list_id: self.recipient_list_id.clone(),
        }
    }
}

/// The value of a [`NotificationConfigRow`].
pub struct ConfigView {
    pub id: Seq<char>,
    pub title: Seq<char>,
    pub kind: NotificationConfigKind,
    pub configuration_data: Seq<char>,
    pub status: NotificationConfigStatus,
    pub parameters: Seq<char>,
    pub parameter_query_id: Option<Seq<char>>,
    pub recipient_ids: Seq<char>,
    pub recipient_list_ids: Seq<char>,
    pub sql_recipient_list_ids: Seq<char>,
    pub last_run_datetime: Option<i64>,
    pub next_due_datetime: Option<i64>,
}

impl View for NotificationConfigRow {
    type V = ConfigView;

    open spec fn view(&self) -> ConfigView {
        ConfigView {
            id: self.id@,
            title: self.title@,
            kind: self.kind,
            configuration_data: self.configuration_data@,
            status: self.status,
            parameters: self.parameters@,
            parameter_query_id: option_text(self.parameter_query_id),
            recipient_ids: self.recipient_ids@,
            recipient_list_ids: self.recipient_list_ids@,
            sql_recipient_list_ids: self.sql_recipient_list_ids@,
            last_run_datetime: self.last_run_datetime,
            next_due_datetime: self.next_due_datetime,
        }
    }
}

impl Clone for NotificationConfigRow {
    fn clone(&self) -> (copy: NotificationConfigRow)
        ensures
            copy@ == self@,
    {
        NotificationConfigRow {
            id: self.id.clone(),
            title: self.title.clone(),
            kind: self.kind,
            configuration_data: self.configuration_data.clone(),
            status: self.status,
            parameters: self.parameters.clone(),
            parameter_query_id: copy_of(&self.parameter_query_id),
            recipient_ids: self.recipient_ids.clone(),
            recipient_list_ids: self.recipient_list_ids.clone(),
            sql_recipient_list_ids: self.sql_recipient_list_ids.clone(),
            last_run_datetime: self.last_run_datetime,
            next_due_datetime: self.next_due_datetime,
        }
    }
}

/// The value of a [`NotificationQueryRow`].
pub struct QueryView {
    pub id: Seq<char>,
    pub name: Seq<char>,
    pub reference_name: Seq<char>,
    pub description: Seq<char>,
    pub query: Seq<char>,
    pub required_parameters: Seq<char>,
}

impl View for NotificationQueryRow {
    type V = QueryView;

    open spec fn view(&self) -> QueryView {
        QueryView {
            id: self.id@,
            name: self.name@,
            reference_name: self.reference_name@,
            description: self.description@,
            query: self.query@,
            required_parameters: self.required_parameters@,
        }
    }
}

impl Clone for NotificationQueryRow {
    fn clone(&self) -> (copy: NotificationQueryRow)
        ensures
            copy@ == self@,
    {
        NotificationQueryRow {
            id: self.id.clone(),
            name: self.name.clone(),
            reference_name: self.reference_name.clone(),
            description: self.description.clone(),
            query: self.query.clone(),
            required_parameters: self.required_parameters.clone(),
        }
    }
}

/// The values of a table of queries.
pub open spec fn queries_view(rows: Seq<NotificationQueryRow>) -> Seq<QueryView> {
    rows.map_values(|row: NotificationQueryRow| row@)
}

/// The values of a table of recipients.
pub open spec fn recipients_view(rows: Seq<RecipientRow>) -> Seq<RecipientView> {
    rows.map_values(|row: RecipientRow| row@)
}

/// The values of a table of list members.
pub open spec fn members_view(rows: Seq<RecipientListMemberRow>) -> Seq<MemberView> {
    rows.map_values(|row: RecipientListMemberRow| row@)
}

/// The values of a table of configurations.
pub open spec fn configs_view(rows: Seq<NotificationConfigRow>) -> Seq<ConfigView> {
    rows.map_values(|row: NotificationConfigRow| row@)
}

/// The in-memory image of the storage: one vector of rows per table.
pub struct StorageConnection {
    pub recipients: Vec<RecipientRow>,
    pub recipient_lists: Vec<RecipientListRow>,
    pub recipient_list_members: Vec<RecipientListMemberRow>,
    pub notification_configs: Vec<NotificationConfigRow>,
    pub notification_queries: Vec<NotificationQueryRow>,
    pub notification_events: Vec<NotificationEventRow>,
    pub plugin_store: Vec<PluginStoreRow>,
}

impl StorageConnection {
    /// A storage without rows.
    pub fn new() -> (connection: StorageConnection)
        ensures
            connection.recipients@.len() == 0,
            connection.recipient_lists@.len() == 0,
            connection.recipient_list_members@.len() == 0,
            connection.notification_configs@.len() == 0,
            connection.notification_queries@.len() == 0,
            connection.notification_events@.len() == 0,
            connection.plugin_store@.len() == 0,
    {
        StorageConnection {
            recipients: Vec::new(),
            recipient_lists: Vec::new(),
            recipient_list_members: Vec::new(),
            notification_configs: Vec::new(),
            notification_queries: Vec::new(),
            notification_events: Vec::new(),
            plugin_store: Vec::new(),
        }
    }
}

} // verus!
