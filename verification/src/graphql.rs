//! What the API of the service hands in and out: inputs as they arrive,
//! turned into the inputs of the services, and the small answers.

use crate::datasource::{
    query_outcome, result_view, run_sql_query_with_parameters, DatasourceErrorView,
    DatasourceServiceError, DatasourceServiceTrait,
};
use crate::text::text_result;
use crate::json::{json_parse, Json};
use crate::repository::NotificationConfigStatus;
use vstd::prelude::*;
use vstd::string::StringExecFns;

verus! {

/// An error as the API reports it.
#[derive(Debug, PartialEq)]
pub enum StandardGraphqlError {
    InternalError(String),
    BadUserInput(String),
}

/// The error that the API reports for an error of the datasource: of the
/// same kind, with the same message.
pub fn map_error(error: DatasourceServiceError) -> (graphql_error: StandardGraphqlError)
    ensures
        match error {
            DatasourceServiceError::InternalError(message) => graphql_error
                == StandardGraphqlError::InternalError(message),
            DatasourceServiceError::BadUserInput(message) => graphql_error
                == StandardGraphqlError::BadUserInput(message),
        },
{
    match error {
        DatasourceServiceError::InternalError(message) => StandardGraphqlError::InternalError(
            message,
        ),
        DatasourceServiceError::BadUserInput(message) => StandardGraphqlError::BadUserInput(
            message,
        ),
    }
}

/// What a response of the API holds, as an answer of the datasource: the
/// rows, or the error of the same kind with the same message.
pub open spec fn response_view(response: Result<String, StandardGraphqlError>) -> Result<
    Seq<char>,
    DatasourceErrorView,
> {
    match response {
        Ok(rows) => Ok(rows@),
        Err(StandardGraphqlError::InternalError(message)) => Err(
            DatasourceErrorView::InternalError(message@),
        ),
        Err(StandardGraphqlError::BadUserInput(message)) => Err(
            DatasourceErrorView::BadUserInput(message@),
        ),
    }
}

/// The response of the API to a query, from what running it gave.
pub fn query_response(answer: Result<String, DatasourceServiceError>) -> (response: Result<
    String,
    StandardGraphqlError,
>)
    ensures
        response_view(response) == result_view(answer),
{
    match answer {
        Ok(rows) => Ok(rows),
        Err(error) => Err(map_error(error)),
    }
}

/// How the message for parameters that are not JSON begins; the reason
/// follows, as serde_json words it.
pub open spec fn invalid_parameters_prefix(parameters: Seq<char>) -> Seq<char> {
    "Invalid parameters string: "@ + parameters + ". Error: "@
}

/// The queries that the API offers on the datasource.
pub struct DatasourceQueries;

impl DatasourceQueries {
    /// Runs a query as it is: `sql_query` is what the datasource is asked,
    /// and the response holds what it answered, an error under the same
    /// kind and with the same message.
    pub fn run_sql_query<D: DatasourceServiceTrait>(&self, service: &D, sql_query: String) -> (result:
        Result<String, StandardGraphqlError>)
        ensures
            service.answers(sql_query@, response_view(result)),
    {
        query_response(service.run_sql_query(sql_query))
    }

    /// Runs a query that was rendered with parameters, which arrive as
    /// JSON text. `rendered` is what rendering the query with them gave.
    ///
    /// Parameters that are not JSON are bad input, with the reason as
    /// serde_json words it, and nothing runs. Else the query runs as
    /// [`run_sql_query_with_parameters`] does it, and the response holds
    /// the outcome, an error under the same kind and with the same message.
    pub fn run_sql_query_with_parameters<D: DatasourceServiceTrait>(
        &self,
        service: &D,
        parameters: String,
        rendered: Result<String, String>,
    ) -> (result: Result<String, StandardGraphqlError>)
        ensures
            match json_parse(parameters@) {
                None => response_view(result) matches Err(DatasourceErrorView::BadUserInput(message))
                    && invalid_parameters_prefix(parameters@).is_prefix_of(message),
                Some(value) => query_outcome(
                    *service,
                    value,
                    text_result(rendered),
                    response_view(result),
                ),
            },
    {
        let json = match Json::parse_or_error(parameters.as_str()) {
            Ok(json) => json,
            Err(detail) => {
                let message = String::from_str("Invalid parameters string: ").concat(
                    parameters.as_str(),
                ).concat(". Error: ").concat(detail.as_str());
                assert(message@ == invalid_parameters_prefix(parameters@) + detail@);
                assert(message@.subrange(0, invalid_parameters_prefix(parameters@).len() as int)
                    =~= invalid_parameters_prefix(parameters@));
                return Err(StandardGraphqlError::BadUserInput(message));
            },
        };
        query_response(run_sql_query_with_parameters(service, &json, rendered))
    }
}

/// The answer to a deletion: the id of what was deleted.
#[derive(Debug, PartialEq)]
pub struct DeleteResponse(pub String);

impl DeleteResponse {
    /// The id of what was deleted.
    pub fn id(&self) -> (id: &str)
        ensures
            id@ == self.0@,
    {
        self.0.as_str()
    }
}

/// An answer that is an id.
#[derive(Debug, PartialEq)]
pub struct IdResponse(pub String);

impl IdResponse {
    /// The id.
    pub fn id(&self) -> (id: &str)
        ensures
            id@ == self.0@,
    {
        self.0.as_str()
    }
}

/// The status of a configuration as the API names it.
#[derive(Clone, Copy, Debug, PartialEq, Eq, Structural)]
pub enum ConfigStatus {
    Enabled,
    Disabled,
}

impl ConfigStatus {
    /// The status under its name in the service.
    pub fn to_domain(self) -> (status: NotificationConfigStatus)
        ensures
            status == match self {
                ConfigStatus::Enabled => NotificationConfigStatus::Enabled,
                ConfigStatus::Disabled => NotificationConfigStatus::Disabled,
            },
    {
        match self {
            ConfigStatus::Enabled => NotificationConfigStatus::Enabled,
            ConfigStatus::Disabled => NotificationConfigStatus::Disabled,
        }
    }
}

/// A change of a configuration as the API takes it. What is `None` stays
/// as it is.
#[derive(Debug, PartialEq)]
pub struct UpdateNotificationConfigInput {
    pub id: String,
    pub title: Option<String>,
    pub configuration_data: Option<String>,
    pub parameters: Option<String>,
    pub parameter_query_id: Option<String>,
    pub status: Option<ConfigStatus>,
    pub recipient_ids: Option<Vec<String>>,
    pub recipient_list_ids: Option<Vec<String>>,
    pub sql_recipient_list_ids: Option<Vec<String>>,
    pub next_due_datetime: Option<i64>,
}

/// A change of a configuration as the service takes it.
#[derive(Debug, PartialEq)]
pub struct UpdateNotificationConfig {
    pub id: String,
    pub title: Option<String>,
    pub configuration_data: Option<String>,
    pub status: Option<NotificationConfigStatus>,
    pub parameters: Option<String>,
    pub parameter_query_id: Option<String>,
    pub recipient_ids: Option<Vec<String>>,
    pub recipient_list_ids: Option<Vec<String>>,
    pub sql_recipient_list_ids: Option<Vec<String>>,
    pub next_due_datetime: Option<i64>,
}

impl UpdateNotificationConfig {
    /// The change that the service takes for a change that the API took:
    /// every part as it came, the status under its name in the service.
    pub fn from(input: UpdateNotificationConfigInput) -> (update: UpdateNotificationConfig)
        ensures
            update.id == input.id,
            update.title == input.title,
            update.configuration_data == input.configuration_data,
            update.status == match input.status {
                Some(ConfigStatus::Enabled) => Some(NotificationConfigStatus::Enabled),
                Some(ConfigStatus::Disabled) => Some(NotificationConfigStatus::Disabled),
                None => None,
            },
            update.parameters == input.parameters,
            update.parameter_query_id == input.parameter_query_id,
            update.recipient_ids == input.recipient_ids,
            update.recipient_list_ids == input.recipient_list_ids,
            update.sql_recipient_list_ids == input.sql_recipient_list_ids,
            update.next_due_datetime == input.next_due_datetime,
    {
        UpdateNotificationConfig {
            id: input.id,
            title: input.title,
            configuration_data: input.configuration_data,
            status: match input.status {
                Some(status) => Some(status.to_domain()),
                None => None,
            },
            parameters: input.parameters,
            parameter_query_id: input.parameter_query_id,
            recipient_ids: input.recipient_ids,
            recipient_list_ids: input.recipient_list_ids,
            sql_recipient_list_ids: input.sql_recipient_list_ids,
            next_due_datetime: input.next_due_datetime,
        }
    }
}

/// A new list of recipients that a query names, as the API takes it.
#[derive(Debug, PartialEq)]
pub struct CreateSqlRecipientListInput {
    pub id: String,
    pub name: String,
    pub description: String,
    pub query: String,
    pub parameters: String,
}

/// A new list of recipients that a query names, as the service takes it.
#[derive(Debug, PartialEq)]
pub struct CreateSqlRecipientList {
    pub id: String,
    pub name: String,
    pub description: String,
    pub query: String,
    pub parameters: String,
}

impl CreateSqlRecipientList {
    /// The input of the service for an input of the API: every part as it
    /// came.
    pub fn from(input: CreateSqlRecipientListInput) -> (create: CreateSqlRecipientList)
        ensures
            create.id == input.id,
            create.name == input.name,
            create.description == input.description,
            create.query == input.query,
            create.parameters == input.parameters,
    {
        CreateSqlRecipientList {
            id: input.id,
            name: input.name,
            description: input.description,
            query: input.query,
            parameters: input.parameters,
        }
    }
}

} // verus!
