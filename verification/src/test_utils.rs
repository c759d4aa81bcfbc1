//! Settings and a datasource for tests.

use crate::datasource::{
    result_view, BasicRecipientRow, DatasourceErrorView, DatasourceServiceError,
    DatasourceServiceTrait,
};
use crate::settings::{
    DatabaseSettings, MailSettings, PostgresSettings, ServerSettings, Settings, TelegramSettings,
};
use vstd::prelude::*;
use vstd::string::StringExecFns;

verus! {

/// `settings` are the settings for tests, with the database `db_name`.
pub open spec fn is_test_settings(settings: Settings, db_name: Seq<char>) -> bool {
    &&& settings.server.port == 5432
    &&& settings.server.cors_origins@.len() == 1
    &&& settings.server.cors_origins@[0]@ == "http://localhost:3007"@
    &&& settings.server.base_dir is None
    &&& settings.server.app_url@ == "http://localhost:8007"@
    &&& settings.database.username@ == "postgres"@
    &&& settings.database.password@ == "password"@
    &&& settings.database.port == 5432
    &&& settings.database.host@ == "localhost"@
    &&& settings.database.database_name@ == db_name
    &&& settings.database.init_sql is None
    &&& settings.mail.port == 1025
    &&& settings.mail.host@ == "localhost"@
    &&& !settings.mail.starttls
    &&& settings.mail.username@ == ""@
    &&& settings.mail.password@ == ""@
    &&& settings.mail.from@ == "no-reply@msupply.foundation"@
    &&& settings.telegram.token is None
    &&& settings.datasource.username@ == "postgres"@
    &&& settings.datasource.password@ == "password"@
    &&& settings.datasource.port == 5432
    &&& settings.datasource.host@ == "localhost"@
    &&& settings.datasource.database_name@ == "dashboard"@
}

/// The settings of the database for tests.
pub fn get_test_db_settings(db_name: &str) -> (settings: DatabaseSettings)
    ensures
        settings.username@ == "postgres"@,
        settings.password@ == "password"@,
        settings.port == 5432,
        settings.host@ == "localhost"@,
        settings.database_name@ == db_name@,
        settings.init_sql is None,
{
    DatabaseSettings {
        username: String::from_str("postgres"),
        password: String::from_str("password"),
        port: 5432,
        host: String::from_str("localhost"),
        database_name: String::from_str(db_name),
        init_sql: None,
    }
}

/// The settings for tests: everything on this machine, no token for
/// Telegram.
pub fn get_test_settings(db_name: &str) -> (settings: Settings)
    ensures
        is_test_settings(settings, db_name@),
{
    let mut cors_origins: Vec<String> = Vec::new();
    cors_origins.push(String::from_str("http://localhost:3007"));
    Settings {
        server: ServerSettings {
            port: 5432,
            cors_origins,
            base_dir: None,
            app_url: String::from_str("http://localhost:8007"),
        },
        database: get_test_db_settings(db_name),
        mail: MailSettings {
            port: 1025,
            host: String::from_str("localhost"),
            starttls: false,
            username: String::from_str(""),
            password: String::from_str(""),
            from: String::from_str("no-reply@msupply.foundation"),
        },
        telegram: TelegramSettings { token: None },
        datasource: PostgresSettings {
            username: String::from_str("postgres"),
            password: String::from_str("password"),
            port: 5432,
            host: String::from_str("localhost"),
            database_name: String::from_str("dashboard"),
        },
    }
}

/// One query that a [`MockDatasourceService`] knows, and what it answers.
#[derive(Debug, PartialEq)]
pub struct MockQuery {
    pub sql_query: String,
    pub result: Result<String, DatasourceServiceError>,
}

/// A datasource that answers from a list: a query gets the answer of the
/// first entry with its text, and a query that is not listed is refused as
/// bad input.
pub struct MockDatasourceService {
    pub queries: Vec<MockQuery>,
}

/// The place of the first entry for `sql_query`, or the number of entries
/// where there is none.
pub open spec fn first_entry(queries: Seq<MockQuery>, sql_query: Seq<char>) -> int
    decreases queries.len(),
{
    if queries.len() == 0 {
        0
    } else if queries[0].sql_query@ == sql_query {
        0
    } else {
        1 + first_entry(queries.drop_first(), sql_query)
    }
}

/// The answer of the list `queries` to `sql_query`.
pub open spec fn mock_answer(queries: Seq<MockQuery>, sql_query: Seq<char>) -> Result<
    Seq<char>,
    DatasourceErrorView,
> {
    let i = first_entry(queries, sql_query);
    if i < queries.len() {
        result_view(queries[i].result)
    } else {
        Err(DatasourceErrorView::BadUserInput("Could not run query: "@ + sql_query))
    }
}

proof fn lemma_first_entry(queries: Seq<MockQuery>, sql_query: Seq<char>, i: int)
    requires
        0 <= i <= queries.len(),
        forall|j: int| 0 <= j < i ==> (#[trigger] queries[j]).sql_query@ != sql_query,
        i < queries.len() ==> queries[i].sql_query@ == sql_query,
    ensures
        first_entry(queries, sql_query) == i,
    decreases i,
{
    if i > 0 {
        let rest = queries.drop_first();
        assert forall|j: int| 0 <= j < i - 1 implies (#[trigger] rest[j]).sql_query@
            != sql_query by {
            assert(rest[j] == queries[j + 1]);
        }
        if i < queries.len() {
            assert(rest[i - 1] == queries[i]);
        }
        assert(queries[0].sql_query@ != sql_query);
        lemma_first_entry(rest, sql_query, i - 1);
    }
}

impl MockDatasourceService {
    /// A datasource that knows no query.
    pub fn new() -> (service: MockDatasourceService)
        ensures
            service.queries@.len() == 0,
    {
        MockDatasourceService { queries: Vec::new() }
    }
}

impl DatasourceServiceTrait for MockDatasourceService {
    /// The one answer of the list.
    open spec fn answers(
        &self,
        sql_query: Seq<char>,
        answer: Result<Seq<char>, DatasourceErrorView>,
    ) -> bool {
        answer == mock_answer(self.queries@, sql_query)
    }

    fn run_sql_query(&self, sql_query: String) -> (result: Result<String, DatasourceServiceError>)
        ensures
            result_view(result) == mock_answer(self.queries@, sql_query@),
    {
        let mut i: usize = 0;
        while i < self.queries.len()
            invariant
                i <= self.queries@.len(),
                forall|j: int| 0 <= j < i ==> (#[trigger] self.queries@[j]).sql_query@ != sql_query@,
            decreases self.queries@.len() - i,
        {
            if self.queries[i].sql_query == sql_query {
                proof {
                    lemma_first_entry(self.queries@, sql_query@, i as int);
                }
                return match &self.queries[i].result {
                    Ok(text) => Ok(text.clone()),
                    Err(error) => Err(error.clone()),
                };
            }
            i += 1;
        }
        proof {
            lemma_first_entry(self.queries@, sql_query@, i as int);
        }
        Err(
            DatasourceServiceError::BadUserInput(
                String::from_str("Could not run query: ").concat(sql_query.as_str()),
            ),
        )
    }

    /// This datasource knows no recipients.
    fn run_recipient_query(&self, sql_query: String) -> (result: Result<
        Vec<BasicRecipientRow>,
        DatasourceServiceError,
    >)
        ensures
            result matches Ok(rows) && rows@.len() == 0,
    {
        Ok(Vec::new())
    }
}

} // verus!
