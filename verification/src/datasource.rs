//! The datasource: the database that the queries of the notifications run
//! against. A query is a template; it is rendered with its parameters, and
//! the text that comes out is what runs. Rendering is the caller's part:
//! what it gave is handed in.

use crate::json::{Json, JsonValue};
use crate::settings::{PostgresSettings, Settings};
use crate::templates::{context_from_json, error_display};
use crate::text::text_result;
use vstd::prelude::*;
use vstd::string::StringExecFns;

verus! {

/// Why a query did not run: a fault of the service, or of the query.
#[derive(Debug, PartialEq)]
pub enum DatasourceServiceError {
    InternalError(String),
    BadUserInput(String),
}

/// The value of a [`DatasourceServiceError`].
pub enum DatasourceErrorView {
    InternalError(Seq<char>),
    BadUserInput(Seq<char>),
}

impl View for DatasourceServiceError {
    type V = DatasourceErrorView;

    open spec fn view(&self) -> DatasourceErrorView {
        match self {
            DatasourceServiceError::InternalError(message) => DatasourceErrorView::InternalError(
                message@,
            ),
            DatasourceServiceError::BadUserInput(message) => DatasourceErrorView::BadUserInput(
                message@,
            ),
        }
    }
}

impl Clone for DatasourceServiceError {
    fn clone(&self) -> (copy: DatasourceServiceError)
        ensures
            copy@ == self@,
    {
        match self {
            DatasourceServiceError::InternalError(message) => DatasourceServiceError::InternalError(
                message.clone(),
            ),
            DatasourceServiceError::BadUserInput(message) => DatasourceServiceError::BadUserInput(
                message.clone(),
            ),
        }
    }
}

/// What a result holds.
pub open spec fn result_view(result: Result<String, DatasourceServiceError>) -> Result<
    Seq<char>,
    DatasourceErrorView,
> {
    match result {
        Ok(text) => Ok(text@),
        Err(error) => Err(error@),
    }
}

/// A recipient as a query of the datasource names it.
#[derive(Debug, PartialEq)]
pub struct BasicRecipientRow {
    pub id: String,
    pub name: String,
    pub notification_type: String,
    pub to_address: String,
}

/// What runs queries. A query comes back as the JSON text of its rows.
///
/// Each datasource may say with `answers` what it answers to a query: one
/// answer where it is a fixed list, many where it is a database that
/// changes. Nothing is asked of `answers`; a datasource that does not say
/// may answer anything.
pub trait DatasourceServiceTrait {
    /// Whether `answer` is something that this datasource may answer to
    /// `sql_query`.
    open spec fn answers(
        &self,
        sql_query: Seq<char>,
        answer: Result<Seq<char>, DatasourceErrorView>,
    ) -> bool {
        true
    }

    /// Runs a query: the result is an answer of this datasource to it.
    fn run_sql_query(&self, sql_query: String) -> (result: Result<String, DatasourceServiceError>)
        ensures
            self.answers(sql_query@, result_view(result)),
    ;

    fn run_recipient_query(&self, sql_query: String) -> Result<
        Vec<BasicRecipientRow>,
        DatasourceServiceError,
    >;
}

/// The datasource of the service: where it is, from the settings.
pub struct DatasourceService {
    pub settings: PostgresSettings,
}

impl DatasourceService {
    /// The datasource that the settings name.
    pub fn new(settings: Settings) -> (service: DatasourceService)
        ensures
            service.settings == settings.datasource,
    {
        DatasourceService { settings: settings.datasource }
    }
}

/// How an error of a query whose parameters are no JSON object begins.
pub open spec fn parameters_error_prefix() -> Seq<char> {
    "Failed to convert params to tera context: "@
}

/// The error of a query that could not be rendered.
pub open spec fn render_error(error: Seq<char>) -> DatasourceErrorView {
    DatasourceErrorView::InternalError("Failed to parse query as tera template: "@ + error)
}

/// Whether `outcome` may be what running a query comes to, with the
/// parameters `parameters` and with `rendered` as what rendering the query
/// with them gave.
///
/// Parameters that are no JSON object are an internal error, whatever was
/// rendered. A query that could not be rendered is an internal error with
/// the error of the rendering. Else the outcome is an answer of the
/// datasource to the rendered text.
pub open spec fn query_outcome<D: DatasourceServiceTrait>(
    service: D,
    parameters: JsonValue,
    rendered: Result<Seq<char>, Seq<char>>,
    outcome: Result<Seq<char>, DatasourceErrorView>,
) -> bool {
    if !(parameters is Object) {
        outcome matches Err(DatasourceErrorView::InternalError(message))
            && parameters_error_prefix().is_prefix_of(message)
    } else {
        match rendered {
            Err(error) => outcome == Err::<Seq<char>, DatasourceErrorView>(render_error(error)),
            Ok(full_query) => service.answers(full_query, outcome),
        }
    }
}

/// Checks the parameters of a query: they have to be a JSON object.
/// Anything else is an internal error, with the reason as tera words it.
pub fn check_parameters(parameters: &Json) -> (result: Result<(), DatasourceServiceError>)
    ensures
        result is Ok <==> parameters@ is Object,
        match result {
            Ok(()) => true,
            Err(DatasourceServiceError::InternalError(message)) => parameters_error_prefix().is_prefix_of(
                message@,
            ),
            Err(_) => false,
        },
{
    match context_from_json(parameters) {
        Ok(_) => Ok(()),
        Err(error) => {
            let detail = error_display(&error);
            let message = String::from_str("Failed to convert params to tera context: ").concat(
                detail.as_str(),
            );
            assert(message@ == parameters_error_prefix() + detail@);
            assert(message@.subrange(0, parameters_error_prefix().len() as int)
                =~= parameters_error_prefix());
            Err(DatasourceServiceError::InternalError(message))
        },
    }
}

/// Runs a query that was rendered with its parameters.
///
/// `rendered` is what rendering the query with `parameters` gave: the text
/// to run, or the error. The parameters are checked first; then a query
/// that could not be rendered is an internal error and is not run; else the
/// rendered text is what the datasource is asked, and its answer is the
/// result.
pub fn run_sql_query_with_parameters<D: DatasourceServiceTrait>(
    service: &D,
    parameters: &Json,
    rendered: Result<String, String>,
) -> (result: Result<String, DatasourceServiceError>)
    ensures
        query_outcome(*service, parameters@, text_result(rendered), result_view(result)),
{
    match check_parameters(parameters) {
        Ok(()) => {},
        Err(error) => {
            return Err(error);
        },
    }
    match rendered {
        Ok(full_query) => service.run_sql_query(full_query),
        Err(error) => Err(
            DatasourceServiceError::InternalError(
                String::from_str("Failed to parse query as tera template: ").concat(
                    error.as_str(),
                ),
            ),
        ),
    }
}

} // verus!
