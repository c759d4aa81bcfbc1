//! Cold chain evaluator: classifies the latest reading of each sensor,
//! compares the status with the one kept from the cycle before, and sends a
//! notification for each change.
//!
//! Times are microseconds since the Unix epoch. Temperatures are
//! thousandths of a degree.

use crate::enqueue::{
    copy_of_targets, notification_requests_view, option_template, targets_view,
    NotificationContext, NotificationRequest, NotificationRequestView, NotificationTarget,
    NotificationView, TemplateDefinition, TemplateView,
};
use crate::service_provider::ServiceContext;
use crate::json::{json_parse, json_text, text_list, Json, JsonValue};
use crate::notification_config::recipients::{get_notification_targets, targets_of};
use crate::notification_config::create::config_exists;
use crate::notification_config::{due, find_all_due_by_kind, mark_run, marked, NotificationConfig};
use crate::plugin_store::{get_value, lookup, set_value, store_map};
use crate::repository::{
    configs_view, members_view, recipients_view, ConfigView, MemberView, NotificationConfigKind,
    NotificationConfigRow, RecipientView, StorageConnection,
};
use crate::text::texts;
use vstd::prelude::*;
use vstd::string::StringExecFns;

verus! {

/// A sensor is too warm above this temperature.
pub const HIGH_TEMP_THRESHOLD: i64 = 22_000;

/// A sensor is too cold below this temperature.
pub const LOW_TEMP_THRESHOLD: i64 = 20_000;

/// A reading older than this, one hour, counts as no reading.
pub const MAX_AGE: i64 = 3_600_000_000;

/// The partition of the plugin store that this evaluator keeps its state in.
pub open spec fn plugin_name() -> Seq<char> {
    "coldchain"@
}

/// Status of one sensor, from its latest reading.
#[derive(Clone, Copy, Debug, PartialEq, Eq, Structural)]
pub enum SensorStatus {
    Okay,
    HighTemp,
    LowTemp,
    NoData,
}

/// The most recent temperature log of a sensor.
#[derive(Debug, PartialEq)]
pub struct LatestTemperatureRow {
    pub id: String,
    pub sensor_id: String,
    pub log_datetime: i64,
    pub temperature: Option<i64>,
}

impl Clone for LatestTemperatureRow {
    fn clone(&self) -> (copy: LatestTemperatureRow)
        ensures
            copy.id@ == self.id@,
            copy.sensor_id@ == self.sensor_id@,
            copy.log_datetime == self.log_datetime,
            copy.temperature == self.temperature,
    {
        LatestTemperatureRow {
            id: self.id.clone(),
            sensor_id: self.sensor_id.clone(),
            log_datetime: self.log_datetime,
            temperature: self.temperature,
        }
    }
}

/// What a temperature log says: when, and how warm, if a value was logged.
pub struct Reading {
    pub log_datetime: i64,
    pub temperature: Option<i64>,
}

/// The reading of a row.
pub open spec fn reading_of(row: LatestTemperatureRow) -> Reading {
    Reading { log_datetime: row.log_datetime, temperature: row.temperature }
}

/// The reading of a row, if there is a row.
pub open spec fn reading_of_latest(row: Option<LatestTemperatureRow>) -> Option<Reading> {
    match row {
        Some(row) => Some(reading_of(row)),
        None => None,
    }
}

/// The status that a reading stands for.
///
/// No reading, a reading without a value, and a reading older than `max_age`
/// all count as `NoData`. Otherwise the value is compared with the two
/// thresholds, which are exclusive bounds.
pub open spec fn sensor_status(
    now: i64,
    reading: Option<Reading>,
    high_temp_threshold: i64,
    low_temp_threshold: i64,
    max_age: i64,
) -> SensorStatus {
    match reading {
        None => SensorStatus::NoData,
        Some(reading) => match reading.temperature {
            None => SensorStatus::NoData,
            Some(t) => if now - reading.log_datetime > max_age {
                SensorStatus::NoData
            } else if t > high_temp_threshold {
                SensorStatus::HighTemp
            } else if t < low_temp_threshold {
                SensorStatus::LowTemp
            } else {
                SensorStatus::Okay
            },
        },
    }
}

/// Classifies the latest reading of a sensor.
pub fn evaluate_sensor_status(
    now: i64,
    latest_temperature_row: Option<LatestTemperatureRow>,
    high_temp_threshold: i64,
    low_temp_threshold: i64,
    max_age: i64,
) -> (status: SensorStatus)
    ensures
        status == sensor_status(
            now,
            reading_of_latest(latest_temperature_row),
            high_temp_threshold,
            low_temp_threshold,
            max_age,
        ),
{
    match latest_temperature_row {
        None => SensorStatus::NoData,
        Some(row) => match row.temperature {
            None => SensorStatus::NoData,
            Some(t) => {
                let age: i128 = now as i128 - row.log_datetime as i128;
                if age > max_age as i128 {
                    SensorStatus::NoData
                } else if t > high_temp_threshold {
                    SensorStatus::HighTemp
                } else if t < low_temp_threshold {
                    SensorStatus::LowTemp
                } else {
                    SensorStatus::Okay
                }
            },
        },
    }
}

/// With `low < high`, a fresh reading is `Okay` exactly between the
/// thresholds, both ends included, `HighTemp` above the high one and
/// `LowTemp` below the low one.
pub proof fn lemma_thresholds_are_exclusive(
    now: i64,
    reading: Reading,
    high: i64,
    low: i64,
    max_age: i64,
)
    requires
        low < high,
        reading.temperature is Some,
        now - reading.log_datetime <= max_age,
    ensures
        reading.temperature == Some(low) ==> sensor_status(now, Some(reading), high, low, max_age)
            == SensorStatus::Okay,
        reading.temperature == Some(high) ==> sensor_status(now, Some(reading), high, low, max_age)
            == SensorStatus::Okay,
        low <= reading.temperature.unwrap() <= high <==> sensor_status(
            now,
            Some(reading),
            high,
            low,
            max_age,
        ) == SensorStatus::Okay,
        reading.temperature.unwrap() > high <==> sensor_status(
            now,
            Some(reading),
            high,
            low,
            max_age,
        ) == SensorStatus::HighTemp,
        reading.temperature.unwrap() < low <==> sensor_status(
            now,
            Some(reading),
            high,
            low,
            max_age,
        ) == SensorStatus::LowTemp,
{
}

/// A reading older than `max_age` is `NoData`, whatever its value.
pub proof fn lemma_stale_reading_is_no_data(
    now: i64,
    reading: Reading,
    high: i64,
    low: i64,
    max_age: i64,
)
    requires
        now - reading.log_datetime > max_age,
    ensures
        sensor_status(now, Some(reading), high, low, max_age) == SensorStatus::NoData,
{
}

/// No reading at all, and a reading without a value, are `NoData`.
pub proof fn lemma_missing_reading_is_no_data(
    now: i64,
    reading: Option<Reading>,
    high: i64,
    low: i64,
    max_age: i64,
)
    requires
        reading is None || reading.unwrap().temperature is None,
    ensures
        sensor_status(now, reading, high, low, max_age) == SensorStatus::NoData,
{
}

/// `i` is the place of the latest log of the sensor: no log of the sensor
/// is later, and none before it is as late.
pub open spec fn is_latest(rows: Seq<LatestTemperatureRow>, sensor_id: Seq<char>, i: int) -> bool {
    &&& 0 <= i < rows.len()
    &&& rows[i].sensor_id@ == sensor_id
    &&& forall|j: int|
        0 <= j < rows.len() && (#[trigger] rows[j]).sensor_id@ == sensor_id ==> rows[j].log_datetime
            <= rows[i].log_datetime && (j < i ==> rows[j].log_datetime < rows[i].log_datetime)
}

/// The latest reading of a sensor among `rows`, if the sensor has one.
pub open spec fn latest_reading(rows: Seq<LatestTemperatureRow>, sensor_id: Seq<char>) -> Option<
    Reading,
> {
    if exists|i: int| is_latest(rows, sensor_id, i) {
        Some(reading_of(rows[choose|i: int| is_latest(rows, sensor_id, i)]))
    } else {
        None
    }
}

/// The latest log of a sensor among `rows`: the one with the greatest time,
/// and of several with that time the first.
pub fn latest_temperature(rows: &Vec<LatestTemperatureRow>, sensor_id: &String) -> (latest: Option<
    LatestTemperatureRow,
>)
    ensures
        reading_of_latest(latest) == latest_reading(rows@, sensor_id@),
        match latest {
            Some(row) => exists|i: int|
                is_latest(rows@, sensor_id@, i) && row.id@ == rows@[i].id@ && row.sensor_id@
                    == sensor_id@ && reading_of(row) == reading_of(rows@[i]),
            None => forall|i: int|
                0 <= i < rows@.len() ==> (#[trigger] rows@[i]).sensor_id@ != sensor_id@,
        },
{
    let mut best: Option<usize> = None;
    let mut i: usize = 0;
    while i < rows.len()
        invariant
            i <= rows@.len(),
            match best {
                Some(b) => is_latest(rows@.take(i as int), sensor_id@, b as int),
                None => forall|j: int| 0 <= j < i ==> (#[trigger] rows@[j]).sensor_id@ != sensor_id@,
            },
        decreases rows@.len() - i,
    {
        let ghost seen = rows@.take(i as int);
        let ghost seen_now = rows@.take(i as int + 1);
        assert(forall|j: int| 0 <= j < i ==> seen_now[j] == seen[j]);
        assert(seen_now[i as int] == rows@[i as int]);
        if rows[i].sensor_id == *sensor_id {
            match best {
                Some(b) => {
                    if rows[b].log_datetime < rows[i].log_datetime {
                        best = Some(i);
                        assert forall|j: int|
                            0 <= j < seen_now.len() && (#[trigger] seen_now[j]).sensor_id@
                                == sensor_id@ implies seen_now[j].log_datetime
                            <= seen_now[i as int].log_datetime && (j < i
                            ==> seen_now[j].log_datetime < seen_now[i as int].log_datetime) by {
                            if j < i {
                                assert(seen[j].sensor_id@ == sensor_id@);
                            }
                        }
                    } else {
                        assert forall|j: int|
                            0 <= j < seen_now.len() && (#[trigger] seen_now[j]).sensor_id@
                                == sensor_id@ implies seen_now[j].log_datetime
                            <= seen_now[b as int].log_datetime && (j < b
                            ==> seen_now[j].log_datetime < seen_now[b as int].log_datetime) by {
                            if j < i {
                                assert(seen[j].sensor_id@ == sensor_id@);
                            }
                        }
                    }
                },
                None => {
                    best = Some(i);
                },
            }
        } else {
            match best {
                Some(b) => {
                    assert forall|j: int|
                        0 <= j < seen_now.len() && (#[trigger] seen_now[j]).sensor_id@
                            == sensor_id@ implies seen_now[j].log_datetime
                        <= seen_now[b as int].log_datetime && (j < b ==> seen_now[j].log_datetime
                        < seen_now[b as int].log_datetime) by {
                        if j < i {
                            assert(seen[j].sensor_id@ == sensor_id@);
                        }
                    }
                },
                None => {},
            }
        }
        i += 1;
    }
    assert(rows@.take(i as int) =~= rows@);
    match best {
        Some(b) => {
            proof {
                let c = choose|c: int| is_latest(rows@, sensor_id@, c);
                if c < b {
                    assert(rows@[c].log_datetime < rows@[b as int].log_datetime);
                }
                if b < c {
                    assert(rows@[b as int].log_datetime < rows@[c].log_datetime);
                }
            }
            assert(is_latest(rows@, sensor_id@, b as int));
            Some(rows[b].clone())
        },
        None => {
            assert forall|c: int| !is_latest(rows@, sensor_id@, c) by {
                if 0 <= c < rows@.len() {
                    assert(rows@[c].sensor_id@ != sensor_id@);
                }
            }
            None
        },
    }
}

/// What the evaluator keeps of a sensor from one cycle to the next: its
/// status, and the time and the temperature of the reading that gave the
/// status. Where there was no reading, the time is that of the evaluation.
#[derive(Debug, PartialEq)]
pub struct SensorState {
    pub sensor_id: String,
    pub status: SensorStatus,
    pub timestamp: i64,
    pub temperature: Option<i64>,
}

/// The value of a [`SensorState`].
pub struct SensorStateView {
    pub sensor_id: Seq<char>,
    pub status: SensorStatus,
    pub timestamp: i64,
    pub temperature: Option<i64>,
}

impl View for SensorState {
    type V = SensorStateView;

    open spec fn view(&self) -> SensorStateView {
        SensorStateView {
            sensor_id: self.sensor_id@,
            status: self.status,
            timestamp: self.timestamp,
            temperature: self.temperature,
        }
    }
}

/// Why the evaluator could not go on.
#[derive(Debug, PartialEq)]
pub enum ColdChainError {
    InternalError(String),
    UnableToParseConfig(String),
}

/// The name of a status in a kept state.
pub open spec fn status_name(status: SensorStatus) -> Seq<char> {
    match status {
        SensorStatus::Okay => "Ok"@,
        SensorStatus::HighTemp => "HighTemp"@,
        SensorStatus::LowTemp => "LowTemp"@,
        SensorStatus::NoData => "NoData"@,
    }
}

/// The status that a name stands for.
pub open spec fn status_of_name(name: Seq<char>) -> Option<SensorStatus> {
    if name == "Ok"@ {
        Some(SensorStatus::Okay)
    } else if name == "HighTemp"@ {
        Some(SensorStatus::HighTemp)
    } else if name == "LowTemp"@ {
        Some(SensorStatus::LowTemp)
    } else if name == "NoData"@ {
        Some(SensorStatus::NoData)
    } else {
        None
    }
}

/// A temperature as JSON: the number, or null where there is none.
pub open spec fn temperature_value(temperature: Option<i64>) -> JsonValue {
    match temperature {
        Some(t) => JsonValue::Int(t),
        None => JsonValue::Null,
    }
}

/// The members of a kept state.
pub open spec fn state_fields(state: SensorStateView) -> Seq<(Seq<char>, JsonValue)> {
    seq![
        ("sensor_id"@, JsonValue::Str(state.sensor_id)),
        ("status"@, JsonValue::Str(status_name(state.status))),
        ("timestamp"@, JsonValue::Int(state.timestamp)),
        ("temperature"@, temperature_value(state.temperature)),
    ]
}

/// A state as a JSON object.
pub open spec fn state_value(state: SensorStateView) -> JsonValue {
    JsonValue::Object(state_fields(state))
}

/// The temperature that a member holds: none where the member is missing or
/// null. `None` where the member is anything but a whole number.
pub open spec fn temperature_of(member: Option<JsonValue>) -> Option<Option<i64>> {
    match member {
        None => Some(None),
        Some(JsonValue::Null) => Some(None),
        Some(JsonValue::Int(t)) => Some(Some(t)),
        Some(_) => None,
    }
}

/// The state that a JSON document holds; `None` where a member is missing or
/// of another type, or the status has no known name.
pub open spec fn state_of_value(value: JsonValue) -> Option<SensorStateView> {
    match (
        value.field("sensor_id"@),
        value.field("status"@),
        value.field("timestamp"@),
        temperature_of(value.field("temperature"@)),
    ) {
        (
            Some(JsonValue::Str(sensor_id)),
            Some(JsonValue::Str(name)),
            Some(JsonValue::Int(timestamp)),
            Some(temperature),
        ) => match status_of_name(name) {
            Some(status) => Some(SensorStateView { sensor_id, status, timestamp, temperature }),
            None => None,
        },
        _ => None,
    }
}

/// Why a text holds no state.
pub open spec fn state_error(text: Seq<char>) -> Seq<char> {
    if json_parse(text) is None {
        "the text is not JSON"@
    } else {
        "the text does not hold a sensor state"@
    }
}

/// The state that a text holds.
pub open spec fn state_of_text(text: Seq<char>) -> Option<SensorStateView> {
    match json_parse(text) {
        Some(value) => state_of_value(value),
        None => None,
    }
}

/// A state that was written as JSON is read back as it was.
pub proof fn lemma_state_is_read_back(state: SensorStateView)
    ensures
        state_of_value(state_value(state)) == Some(state),
{
    reveal_strlit("sensor_id");
    reveal_strlit("status");
    reveal_strlit("timestamp");
    reveal_strlit("temperature");
    reveal_strlit("Ok");
    reveal_strlit("HighTemp");
    reveal_strlit("LowTemp");
    reveal_strlit("NoData");
    let fields = state_fields(state);
    reveal_with_fuel(crate::json::field_value, 5);
    assert(fields.last() == fields[3]);
    assert(fields.drop_last().last() == fields[2]);
    assert(fields.drop_last().drop_last().last() == fields[1]);
    assert(fields.drop_last().drop_last().drop_last().last() == fields[0]);
    assert("Ok"@.len() == 2 && "HighTemp"@.len() == 8 && "LowTemp"@.len() == 7 && "NoData"@.len()
        == 6);
    assert("sensor_id"@.len() == 9 && "status"@.len() == 6 && "timestamp"@.len() == 9
        && "temperature"@.len() == 11);
    assert("sensor_id"@[0] == 's' && "timestamp"@[0] == 't');
    assert(status_of_name(status_name(state.status)) == Some(state.status));
}

fn status_text(status: SensorStatus) -> (name: String)
    ensures
        name@ == status_name(status),
{
    match status {
        SensorStatus::Okay => String::from_str("Ok"),
        SensorStatus::HighTemp => String::from_str("HighTemp"),
        SensorStatus::LowTemp => String::from_str("LowTemp"),
        SensorStatus::NoData => String::from_str("NoData"),
    }
}

fn status_from_text(name: &String) -> (status: Option<SensorStatus>)
    ensures
        status == status_of_name(name@),
{
    if *name == String::from_str("Ok") {
        Some(SensorStatus::Okay)
    } else if *name == String::from_str("HighTemp") {
        Some(SensorStatus::HighTemp)
    } else if *name == String::from_str("LowTemp") {
        Some(SensorStatus::LowTemp)
    } else if *name == String::from_str("NoData") {
        Some(SensorStatus::NoData)
    } else {
        None
    }
}

impl SensorState {
    fn fields(&self) -> (fields: Vec<(String, Json)>)
        ensures
            Json::Object(fields)@ == state_value(self@),
    {
        let mut fields: Vec<(String, Json)> = Vec::new();
        fields.push((String::from_str("sensor_id"), Json::Str(self.sensor_id.clone())));
        fields.push((String::from_str("status"), Json::Str(status_text(self.status))));
        fields.push((String::from_str("timestamp"), Json::Int(self.timestamp)));
        fields.push(
            (
                String::from_str("temperature"),
                match self.temperature {
                    Some(t) => Json::Int(t),
                    None => Json::Null,
                },
            ),
        );
        proof {
            reveal_with_fuel(crate::json::json_view, 2);
            assert(Json::Object(fields)@->Object_0 =~= state_fields(self@));
        }
        fields
    }

    /// The state as a JSON document.
    pub fn to_json(&self) -> (json: Json)
        ensures
            json@ == state_value(self@),
    {
        Json::Object(self.fields())
    }

    /// The state as JSON text, as it is kept in the plugin store.
    pub fn to_json_string(&self) -> (text: String)
        ensures
            text@ == json_text(state_value(self@)),
    {
        self.to_json().to_text()
    }

    /// Reads a state from a JSON document.
    pub fn from_json(json: &Json) -> (state: Option<SensorState>)
        ensures
            match state {
                Some(s) => state_of_value(json@) == Some(s@),
                None => state_of_value(json@) is None,
            },
    {
        let sensor_id = match json.get("sensor_id") {
            Some(member) => match member.as_str() {
                Some(text) => text.clone(),
                None => {
                    return None;
                },
            },
            None => {
                return None;
            },
        };
        let status = match json.get("status") {
            Some(member) => match member.as_str() {
                Some(text) => match status_from_text(text) {
                    Some(status) => status,
                    None => {
                        return None;
                    },
                },
                None => {
                    return None;
                },
            },
            None => {
                return None;
            },
        };
        let timestamp = match json.get("timestamp") {
            Some(member) => match member.as_i64() {
                Some(number) => number,
                None => {
                    return None;
                },
            },
            None => {
                return None;
            },
        };
        let temperature = match json.get("temperature") {
            None => None,
            Some(Json::Null) => None,
            Some(Json::Int(t)) => Some(*t),
            Some(_) => {
                return None;
            },
        };
        Some(SensorState { sensor_id, status, timestamp, temperature })
    }

    /// Reads a state from the text kept in the plugin store.
    pub fn from_string(text: &str) -> (result: Result<SensorState, ColdChainError>)
        ensures
            match result {
                Ok(state) => state_of_text(text@) == Some(state@),
                Err(ColdChainError::UnableToParseConfig(message)) => state_of_text(text@)
                    is None && message@ == state_error(text@),
                Err(_) => false,
            },
    {
        match Json::parse(text) {
            Some(json) => match SensorState::from_json(&json) {
                Some(state) => Ok(state),
                None => Err(
                    ColdChainError::UnableToParseConfig(
                        String::from_str("the text does not hold a sensor state"),
                    ),
                ),
            },
            None => Err(
                ColdChainError::UnableToParseConfig(String::from_str("the text is not JSON")),
            ),
        }
    }
}

/// The part of a configuration that this evaluator reads: the sensors to
/// watch.
#[derive(Debug, PartialEq)]
pub struct ColdChainPluginConfig {
    pub sensor_ids: Vec<String>,
}

/// The sensors that the payload of a configuration names: the strings of
/// its member `entity_ids`. `None` where the payload is not a JSON object
/// with such a member, or the member is not an array of strings.
pub open spec fn sensor_ids_of(configuration_data: Seq<char>) -> Option<Seq<Seq<char>>> {
    match json_parse(configuration_data) {
        Some(value) => match value.field("entity_ids"@) {
            Some(list) => list.text_items(),
            None => None,
        },
        None => None,
    }
}

impl ColdChainPluginConfig {
    /// Reads the payload of a configuration.
    pub fn from_string(configuration_data: &str) -> (result: Result<
        ColdChainPluginConfig,
        ColdChainError,
    >)
        ensures
            match result {
                Ok(config) => sensor_ids_of(configuration_data@) == Some(texts(config.sensor_ids@)),
                Err(ColdChainError::UnableToParseConfig(message)) => sensor_ids_of(
                    configuration_data@,
                ) is None && message@ == "the configuration does not list its sensors"@,
                Err(_) => false,
            },
    {
        let list = match Json::parse(configuration_data) {
            Some(json) => match json.get("entity_ids") {
                Some(member) => member.as_string_list(),
                None => None,
            },
            None => None,
        };
        match list {
            Some(sensor_ids) => Ok(ColdChainPluginConfig { sensor_ids }),
            None => Err(
                ColdChainError::UnableToParseConfig(
                    String::from_str("the configuration does not list its sensors"),
                ),
            ),
        }
    }
}

/// The key under which the state of a sensor is kept.
pub open spec fn state_key(sensor_id: Seq<char>) -> Seq<char> {
    "state_coldchain_"@ + sensor_id
}

/// What is assumed of a sensor of which no state is kept: that it was fine.
pub open spec fn baseline(sensor_id: Seq<char>, now: i64) -> SensorStateView {
    SensorStateView { sensor_id, status: SensorStatus::Okay, timestamp: now, temperature: None }
}

/// The state of the cycle before: the baseline where none is kept, `None`
/// where what is kept cannot be read.
pub open spec fn previous_state(prior: Option<Seq<char>>, sensor_id: Seq<char>, now: i64) -> Option<
    SensorStateView,
> {
    match prior {
        None => Some(baseline(sensor_id, now)),
        Some(text) => state_of_text(text),
    }
}

/// A change of status: the status before, and the state to keep.
pub struct TransitionView {
    pub previous: SensorStatus,
    pub state: SensorStateView,
}

/// What one evaluation of a sensor comes to.
pub enum SensorStep {
    /// The kept state cannot be read: the sensor is left alone.
    Unreadable,
    /// The status is the one of the cycle before.
    Unchanged,
    /// The status differs from the one of the cycle before.
    Changed(TransitionView),
}

/// The status of a sensor now, with the thresholds of this evaluator.
pub open spec fn status_now(reading: Option<Reading>, now: i64) -> SensorStatus {
    sensor_status(now, reading, HIGH_TEMP_THRESHOLD, LOW_TEMP_THRESHOLD, MAX_AGE)
}

/// One evaluation of a sensor, from the text kept for it and its latest
/// reading.
pub open spec fn sensor_step(
    prior: Option<Seq<char>>,
    sensor_id: Seq<char>,
    reading: Option<Reading>,
    now: i64,
) -> SensorStep {
    match previous_state(prior, sensor_id, now) {
        None => SensorStep::Unreadable,
        Some(previous) => if previous.status == status_now(reading, now) {
            SensorStep::Unchanged
        } else {
            SensorStep::Changed(
                TransitionView {
                    previous: previous.status,
                    state: SensorStateView {
                        sensor_id,
                        status: status_now(reading, now),
                        timestamp: match reading {
                            Some(r) => r.log_datetime,
                            None => now,
                        },
                        temperature: match reading {
                            Some(r) => r.temperature,
                            None => None,
                        },
                    },
                },
            )
        },
    }
}

/// The plugin store after one evaluation of a sensor: the new state is
/// kept where the status changed, and nothing is written otherwise.
pub open spec fn store_after_sensor(
    store: Map<(Seq<char>, Seq<char>), Seq<char>>,
    sensor_id: Seq<char>,
    reading: Option<Reading>,
    now: i64,
) -> Map<(Seq<char>, Seq<char>), Seq<char>> {
    match sensor_step(lookup(store, plugin_name(), state_key(sensor_id)), sensor_id, reading, now) {
        SensorStep::Changed(transition) => store.insert(
            (plugin_name(), state_key(sensor_id)),
            json_text(state_value(transition.state)),
        ),
        _ => store,
    }
}

/// With no state kept, a first reading that is not fine is a change from
/// `Okay`: it is reported, not suppressed.
pub proof fn lemma_first_bad_reading_is_reported(
    sensor_id: Seq<char>,
    reading: Option<Reading>,
    now: i64,
)
    requires
        status_now(reading, now) != SensorStatus::Okay,
    ensures
        sensor_step(None, sensor_id, reading, now) matches SensorStep::Changed(transition)
            && transition.previous == SensorStatus::Okay && transition.state.status == status_now(
            reading,
            now,
        ),
{
}

/// Where the kept state has the status of the reading, nothing changes: no
/// transition is reported and the store stays as it is.
pub proof fn lemma_same_status_changes_nothing(
    store: Map<(Seq<char>, Seq<char>), Seq<char>>,
    sensor_id: Seq<char>,
    reading: Option<Reading>,
    now: i64,
)
    requires
        previous_state(lookup(store, plugin_name(), state_key(sensor_id)), sensor_id, now)
            matches Some(previous) && previous.status == status_now(reading, now),
    ensures
        sensor_step(lookup(store, plugin_name(), state_key(sensor_id)), sensor_id, reading, now)
            == SensorStep::Unchanged,
        store_after_sensor(store, sensor_id, reading, now) == store,
{
}

/// A change of status of one sensor.
#[derive(Debug, PartialEq)]
pub struct SensorTransition {
    pub previous: SensorStatus,
    pub state: SensorState,
}

impl View for SensorTransition {
    type V = TransitionView;

    open spec fn view(&self) -> TransitionView {
        TransitionView { previous: self.previous, state: self.state@ }
    }
}

/// What one evaluation of a sensor came to.
#[derive(Debug, PartialEq)]
pub enum SensorOutcome {
    Unreadable,
    Unchanged,
    Changed(SensorTransition),
}

impl View for SensorOutcome {
    type V = SensorStep;

    open spec fn view(&self) -> SensorStep {
        match self {
            SensorOutcome::Unreadable => SensorStep::Unreadable,
            SensorOutcome::Unchanged => SensorStep::Unchanged,
            SensorOutcome::Changed(transition) => SensorStep::Changed(transition@),
        }
    }
}

/// Evaluates one sensor: classifies its latest reading and compares the
/// status with the one kept from the cycle before.
///
/// Where the status changed, the new state is kept in the plugin store and
/// the change is returned. Where it did not, and where the kept state
/// cannot be read, the storage is left as it is.
pub fn evaluate_sensor(
    connection: &mut StorageConnection,
    sensor_id: &String,
    latest: Option<LatestTemperatureRow>,
    now: i64,
) -> (outcome: SensorOutcome)
    ensures
        crate::plugin_store::only_plugin_store_differs(*old(connection), *final(connection)),
        outcome@ == sensor_step(
            lookup(store_map(old(connection).plugin_store@), plugin_name(), state_key(sensor_id@)),
            sensor_id@,
            reading_of_latest(latest),
            now,
        ),
        store_map(final(connection).plugin_store@) == store_after_sensor(
            store_map(old(connection).plugin_store@),
            sensor_id@,
            reading_of_latest(latest),
            now,
        ),
        !(outcome is Changed) ==> final(connection).plugin_store == old(connection).plugin_store,
{
    let (timestamp, temperature) = match &latest {
        Some(row) => (row.log_datetime, row.temperature),
        None => (now, None),
    };
    let status = evaluate_sensor_status(
        now,
        latest,
        HIGH_TEMP_THRESHOLD,
        LOW_TEMP_THRESHOLD,
        MAX_AGE,
    );
    let plugin = String::from_str("coldchain");
    let key = String::from_str("state_coldchain_").concat(sensor_id.as_str());
    let previous = match get_value(connection, &plugin, &key) {
        Some(text) => match SensorState::from_string(text.as_str()) {
            Ok(state) => state.status,
            Err(_) => {
                return SensorOutcome::Unreadable;
            },
        },
        None => SensorStatus::Okay,
    };
    if status == previous {
        return SensorOutcome::Unchanged;
    }
    let state = SensorState { sensor_id: sensor_id.clone(), status, timestamp, temperature };
    set_value(connection, plugin, key, state.to_json_string());
    SensorOutcome::Changed(SensorTransition { previous, state })
}

/// The plugin store after the sensors `sensor_ids` were evaluated one
/// after the other.
pub open spec fn store_after(
    store: Map<(Seq<char>, Seq<char>), Seq<char>>,
    sensor_ids: Seq<Seq<char>>,
    temperatures: Seq<LatestTemperatureRow>,
    now: i64,
) -> Map<(Seq<char>, Seq<char>), Seq<char>>
    decreases sensor_ids.len(),
{
    if sensor_ids.len() == 0 {
        store
    } else {
        store_after_sensor(
            store_after(store, sensor_ids.drop_last(), temperatures, now),
            sensor_ids.last(),
            latest_reading(temperatures, sensor_ids.last()),
            now,
        )
    }
}

/// The changes of status that evaluating the sensors `sensor_ids` one
/// after the other comes to, in that order.
pub open spec fn transitions_after(
    store: Map<(Seq<char>, Seq<char>), Seq<char>>,
    sensor_ids: Seq<Seq<char>>,
    temperatures: Seq<LatestTemperatureRow>,
    now: i64,
) -> Seq<TransitionView>
    decreases sensor_ids.len(),
{
    if sensor_ids.len() == 0 {
        Seq::empty()
    } else {
        let earlier = transitions_after(store, sensor_ids.drop_last(), temperatures, now);
        let sensor_id = sensor_ids.last();
        match sensor_step(
            lookup(
                store_after(store, sensor_ids.drop_last(), temperatures, now),
                plugin_name(),
                state_key(sensor_id),
            ),
            sensor_id,
            latest_reading(temperatures, sensor_id),
            now,
        ) {
            SensorStep::Changed(transition) => earlier.push(transition),
            _ => earlier,
        }
    }
}

/// Two sensors have two keys.
proof fn lemma_state_keys_differ(a: Seq<char>, b: Seq<char>)
    requires
        a != b,
    ensures
        state_key(a) != state_key(b),
{
    let prefix = "state_coldchain_"@;
    assert(state_key(a).subrange(prefix.len() as int, state_key(a).len() as int) =~= a);
    assert(state_key(b).subrange(prefix.len() as int, state_key(b).len() as int) =~= b);
}

/// Evaluating other sensors leaves what is kept of a sensor as it is.
proof fn lemma_other_sensors_keep_the_state(
    store: Map<(Seq<char>, Seq<char>), Seq<char>>,
    sensor_ids: Seq<Seq<char>>,
    temperatures: Seq<LatestTemperatureRow>,
    now: i64,
    sensor_id: Seq<char>,
)
    requires
        forall|j: int| 0 <= j < sensor_ids.len() ==> #[trigger] sensor_ids[j] != sensor_id,
    ensures
        lookup(
            store_after(store, sensor_ids, temperatures, now),
            plugin_name(),
            state_key(sensor_id),
        ) == lookup(store, plugin_name(), state_key(sensor_id)),
    decreases sensor_ids.len(),
{
    if sensor_ids.len() > 0 {
        let rest = sensor_ids.drop_last();
        assert forall|j: int| 0 <= j < rest.len() implies #[trigger] rest[j] != sensor_id by {
            assert(rest[j] == sensor_ids[j]);
        }
        lemma_other_sensors_keep_the_state(store, rest, temperatures, now, sensor_id);
        assert(sensor_ids.last() == sensor_ids[sensor_ids.len() - 1]);
        lemma_state_keys_differ(sensor_ids.last(), sensor_id);
    }
}

/// The changes of the first sensors of a list are the first changes of the
/// list.
proof fn lemma_changes_only_grow(
    store: Map<(Seq<char>, Seq<char>), Seq<char>>,
    sensor_ids: Seq<Seq<char>>,
    temperatures: Seq<LatestTemperatureRow>,
    now: i64,
    m: int,
)
    requires
        0 <= m <= sensor_ids.len(),
    ensures
        transitions_after(store, sensor_ids.take(m), temperatures, now).is_prefix_of(
            transitions_after(store, sensor_ids, temperatures, now),
        ),
    decreases sensor_ids.len(),
{
    if m == sensor_ids.len() {
        assert(sensor_ids.take(m) =~= sensor_ids);
    } else {
        let rest = sensor_ids.drop_last();
        lemma_changes_only_grow(store, rest, temperatures, now, m);
        assert(rest.take(m) =~= sensor_ids.take(m));
    }
}

/// A sensor of which no state is kept, and whose reading is not fine, is
/// among the changes of every list of sensors that holds it: the change is
/// from `Okay` to the status of the reading.
pub proof fn lemma_first_bad_reading_is_among_the_changes(
    store: Map<(Seq<char>, Seq<char>), Seq<char>>,
    sensor_ids: Seq<Seq<char>>,
    temperatures: Seq<LatestTemperatureRow>,
    now: i64,
    sensor_id: Seq<char>,
)
    requires
        sensor_ids.contains(sensor_id),
        lookup(store, plugin_name(), state_key(sensor_id)) is None,
        status_now(latest_reading(temperatures, sensor_id), now) != SensorStatus::Okay,
    ensures
        exists|i: int|
            0 <= i < transitions_after(store, sensor_ids, temperatures, now).len() && (
            #[trigger] transitions_after(store, sensor_ids, temperatures, now)[i]).state.sensor_id
                == sensor_id && transitions_after(
                store,
                sensor_ids,
                temperatures,
                now,
            )[i].previous == SensorStatus::Okay && transitions_after(
                store,
                sensor_ids,
                temperatures,
                now,
            )[i].state.status == status_now(latest_reading(temperatures, sensor_id), now),
{
    lemma_first_place(sensor_ids, sensor_id);
    let k = choose|k: int|
        0 <= k < sensor_ids.len() && sensor_ids[k] == sensor_id && forall|j: int|
            0 <= j < k ==> #[trigger] sensor_ids[j] != sensor_id;
    let upto = sensor_ids.take(k + 1);
    let before = upto.drop_last();
    assert(before =~= sensor_ids.take(k));
    assert(upto.last() == sensor_id);
    assert forall|j: int| 0 <= j < before.len() implies #[trigger] before[j] != sensor_id by {
        assert(before[j] == sensor_ids[j]);
    }
    lemma_other_sensors_keep_the_state(store, before, temperatures, now, sensor_id);
    let earlier = transitions_after(store, before, temperatures, now);
    let changes = transitions_after(store, upto, temperatures, now);
    assert(changes.len() == earlier.len() + 1);
    assert(changes[earlier.len() as int].state.sensor_id == sensor_id);
    lemma_changes_only_grow(store, sensor_ids, temperatures, now, k + 1);
    let all = transitions_after(store, sensor_ids, temperatures, now);
    assert(all[earlier.len() as int] == changes[earlier.len() as int]);
}

/// A text that a list holds has a first place in it.
proof fn lemma_first_place(list: Seq<Seq<char>>, text: Seq<char>)
    requires
        list.contains(text),
    ensures
        exists|k: int|
            0 <= k < list.len() && list[k] == text && forall|j: int|
                0 <= j < k ==> #[trigger] list[j] != text,
    decreases list.len(),
{
    let i = choose|i: int| 0 <= i < list.len() && list[i] == text;
    if exists|j: int| 0 <= j < i && list[j] == text {
        let j = choose|j: int| 0 <= j < i && list[j] == text;
        let shorter = list.take(i);
        assert(shorter[j] == text);
        lemma_first_place(shorter, text);
        let k = choose|k: int|
            0 <= k < shorter.len() && shorter[k] == text && forall|j: int|
                0 <= j < k ==> #[trigger] shorter[j] != text;
        assert(list[k] == text);
        assert forall|m: int| 0 <= m < k implies #[trigger] list[m] != text by {
            assert(shorter[m] == list[m]);
        }
    } else {
        assert(forall|j: int| 0 <= j < i ==> #[trigger] list[j] != text);
    }
}

/// The values of a list of transitions.
pub open spec fn transitions_view(transitions: Seq<SensorTransition>) -> Seq<TransitionView> {
    transitions.map_values(|t: SensorTransition| t@)
}

/// Evaluates the sensors of one configuration.
///
/// The configuration is first marked as run at `now`, whatever comes of
/// the evaluation. A configuration that the storage does not hold cannot be
/// marked: that is an internal error, and it is abandoned. Then the payload
/// of the configuration names the sensors. Where it cannot be read, that is
/// the error and no sensor is evaluated. Otherwise each sensor is evaluated
/// in turn, its latest reading taken from `temperatures`, and the changes of
/// status are returned in the order of the sensors.
pub fn try_process_coldchain_notifications(
    connection: &mut StorageConnection,
    notification_config: &NotificationConfigRow,
    temperatures: &Vec<LatestTemperatureRow>,
    now: i64,
) -> (result: Result<Vec<SensorTransition>, ColdChainError>)
    ensures
        final(connection).recipients == old(connection).recipients,
        final(connection).recipient_lists == old(connection).recipient_lists,
        final(connection).recipient_list_members == old(connection).recipient_list_members,
        final(connection).notification_queries == old(connection).notification_queries,
        final(connection).notification_events == old(connection).notification_events,
        configs_view(final(connection).notification_configs@) == marked(
            configs_view(old(connection).notification_configs@),
            notification_config.id@,
            now,
        ),
        if !config_exists(old(connection).notification_configs@, notification_config.id@) {
            &&& result matches Err(ColdChainError::InternalError(message)) && message@
                == "the configuration is not stored"@
            &&& final(connection).plugin_store == old(connection).plugin_store
        } else {
            match sensor_ids_of(notification_config.configuration_data@) {
                None => {
                    &&& result matches Err(ColdChainError::UnableToParseConfig(message))
                        && message@ == "the configuration does not list its sensors"@
                    &&& final(connection).plugin_store == old(connection).plugin_store
                },
                Some(sensor_ids) => {
                    &&& result is Ok
                    &&& transitions_view(result.unwrap()@) == transitions_after(
                        store_map(old(connection).plugin_store@),
                        sensor_ids,
                        temperatures@,
                        now,
                    )
                    &&& store_map(final(connection).plugin_store@) == store_after(
                        store_map(old(connection).plugin_store@),
                        sensor_ids,
                        temperatures@,
                        now,
                    )
                },
            }
        },
{
    match mark_run(connection, &notification_config.id, now) {
        Ok(()) => {},
        Err(_) => {
            return Err(
                ColdChainError::InternalError(String::from_str("the configuration is not stored")),
            );
        },
    }
    let config = match ColdChainPluginConfig::from_string(
        notification_config.configuration_data.as_str(),
    ) {
        Ok(config) => config,
        Err(error) => {
            return Err(error);
        },
    };

    let ghost store = store_map(connection.plugin_store@);
    let ghost sensor_ids = texts(config.sensor_ids@);
    let ghost marked_configs = connection.notification_configs;
    let mut transitions: Vec<SensorTransition> = Vec::new();
    let mut i: usize = 0;
    assert(sensor_ids.take(0) =~= Seq::empty());
    assert(transitions_view(transitions@) =~= Seq::empty());
    while i < config.sensor_ids.len()
        invariant
            i <= config.sensor_ids@.len(),
            sensor_ids == texts(config.sensor_ids@),
            connection.recipients == old(connection).recipients,
            connection.recipient_lists == old(connection).recipient_lists,
            connection.recipient_list_members == old(connection).recipient_list_members,
            connection.notification_queries == old(connection).notification_queries,
            connection.notification_events == old(connection).notification_events,
            connection.notification_configs == marked_configs,
            store_map(connection.plugin_store@) == store_after(
                store,
                sensor_ids.take(i as int),
                temperatures@,
                now,
            ),
            transitions_view(transitions@) == transitions_after(
                store,
                sensor_ids.take(i as int),
                temperatures@,
                now,
            ),
        decreases config.sensor_ids@.len() - i,
    {
        let sensor_id = &config.sensor_ids[i];
        proof {
            assert(sensor_ids.take(i as int + 1).drop_last() =~= sensor_ids.take(i as int));
            assert(sensor_ids.take(i as int + 1).last() == sensor_id@);
        }
        let latest = latest_temperature(temperatures, sensor_id);
        match evaluate_sensor(connection, sensor_id, latest, now) {
            SensorOutcome::Changed(transition) => {
                let ghost before = transitions@;
                transitions.push(transition);
                assert(transitions_view(transitions@) =~= transitions_view(before).push(
                    transition@,
                ));
            },
            _ => {},
        }
        i += 1;
    }
    assert(sensor_ids.take(i as int) =~= sensor_ids);
    Ok(transitions)
}

/// The templates of the notifications that this evaluator sends.
#[derive(Debug, PartialEq)]
pub struct AlertTemplates {
    pub title_template: Option<TemplateDefinition>,
    pub body_template: TemplateDefinition,
}

/// What the templates read of a change of status: the members of the new
/// state, then the name of the status before.
pub open spec fn transition_value(transition: TransitionView) -> JsonValue {
    JsonValue::Object(
        state_fields(transition.state).push(
            ("previous_status"@, JsonValue::Str(status_name(transition.previous))),
        ),
    )
}

/// The notification of a change of status, to `recipients`.
pub fn transition_notification(
    transition: &SensorTransition,
    recipients: Vec<NotificationTarget>,
    templates: &AlertTemplates,
) -> (notification: NotificationContext)
    ensures
        notification@ == (NotificationView {
            title_template: option_template(templates.title_template),
            body_template: templates.body_template@,
            recipients: targets_view(recipients@),
            template_data: transition_value(transition@),
        }),
{
    let mut fields = transition.state.fields();
    let ghost before = Json::Object(fields)@->Object_0;
    fields.push((String::from_str("previous_status"), Json::Str(status_text(transition.previous))));
    let template_data = Json::Object(fields);
    proof {
        reveal_with_fuel(crate::json::json_view, 2);
        assert(template_data@->Object_0 =~= before.push(
            ("previous_status"@, JsonValue::Str(status_name(transition.previous))),
        ));
    }
    NotificationContext {
        title_template: match &templates.title_template {
            Some(template) => Some(template.clone()),
            None => None,
        },
        body_template: templates.body_template.clone(),
        recipients,
        template_data,
    }
}

/// The notifications of one configuration: one for each change of status
/// of its sensors, in their order, each with the templates `title` and
/// `body` and to the targets of the configuration. None where the payload
/// cannot be read.
pub open spec fn config_alerts(
    store: Map<(Seq<char>, Seq<char>), Seq<char>>,
    config: ConfigView,
    recipients: Seq<RecipientView>,
    members: Seq<MemberView>,
    title: Option<TemplateView>,
    body: TemplateView,
    temperatures: Seq<LatestTemperatureRow>,
    now: i64,
) -> Seq<NotificationRequestView> {
    match sensor_ids_of(config.configuration_data) {
        Some(sensor_ids) => {
            let transitions = transitions_after(store, sensor_ids, temperatures, now);
            Seq::new(
                transitions.len(),
                |i: int|
                    NotificationRequestView {
                        config_id: Some(config.id),
                        notification: NotificationView {
                            title_template: title,
                            body_template: body,
                            recipients: targets_of(
                                text_list(config.recipient_ids),
                                text_list(config.recipient_list_ids),
                                recipients,
                                members,
                            ),
                            template_data: transition_value(transitions[i]),
                        },
                    },
            )
        },
        None => Seq::empty(),
    }
}

/// The plugin store after the due configurations `configs` were processed
/// one after the other. A configuration whose payload cannot be read leaves
/// the store as it is.
pub open spec fn alerts_store_after(
    store: Map<(Seq<char>, Seq<char>), Seq<char>>,
    configs: Seq<ConfigView>,
    temperatures: Seq<LatestTemperatureRow>,
    now: i64,
) -> Map<(Seq<char>, Seq<char>), Seq<char>>
    decreases configs.len(),
{
    if configs.len() == 0 {
        store
    } else {
        let before = alerts_store_after(store, configs.drop_last(), temperatures, now);
        match sensor_ids_of(configs.last().configuration_data) {
            Some(sensor_ids) => store_after(before, sensor_ids, temperatures, now),
            None => before,
        }
    }
}

/// The table of configurations after the due configurations `configs` were
/// processed: each of them is marked as run at `now`, whether or not its
/// payload can be read.
pub open spec fn alerts_configs_after(all: Seq<ConfigView>, configs: Seq<ConfigView>, now: i64)
    -> Seq<ConfigView>
    decreases configs.len(),
{
    if configs.len() == 0 {
        all
    } else {
        marked(alerts_configs_after(all, configs.drop_last(), now), configs.last().id, now)
    }
}

/// The notifications that processing the due configurations `configs` one
/// after the other sends, in that order.
pub open spec fn alerts_after(
    store: Map<(Seq<char>, Seq<char>), Seq<char>>,
    configs: Seq<ConfigView>,
    recipients: Seq<RecipientView>,
    members: Seq<MemberView>,
    title: Option<TemplateView>,
    body: TemplateView,
    temperatures: Seq<LatestTemperatureRow>,
    now: i64,
) -> Seq<NotificationRequestView>
    decreases configs.len(),
{
    if configs.len() == 0 {
        Seq::empty()
    } else {
        alerts_after(
            store,
            configs.drop_last(),
            recipients,
            members,
            title,
            body,
            temperatures,
            now,
        ) + config_alerts(
            alerts_store_after(store, configs.drop_last(), temperatures, now),
            configs.last(),
            recipients,
            members,
            title,
            body,
            temperatures,
            now,
        )
    }
}

/// What one run of the evaluator at `now` does.
///
/// The configurations that were due are marked as run, and the plugin
/// store holds the new states of their sensors. One notification for each
/// change of status waits at the end of the outbox, in the order of the
/// configurations and of their sensors. The other tables are as they were.
pub open spec fn alerts_processed(
    before: ServiceContext,
    after: ServiceContext,
    templates: AlertTemplates,
    temperatures: Seq<LatestTemperatureRow>,
    now: i64,
) -> bool {
    let all = configs_view(before.connection.notification_configs@);
    let configs = all.filter(due(NotificationConfigKind::ColdChain, now));
    let store = store_map(before.connection.plugin_store@);
    &&& after.connection.recipients == before.connection.recipients
    &&& after.connection.recipient_lists == before.connection.recipient_lists
    &&& after.connection.recipient_list_members == before.connection.recipient_list_members
    &&& after.connection.notification_queries == before.connection.notification_queries
    &&& after.connection.notification_events == before.connection.notification_events
    &&& store_map(after.connection.plugin_store@) == alerts_store_after(
        store,
        configs,
        temperatures,
        now,
    )
    &&& configs_view(after.connection.notification_configs@) == alerts_configs_after(
        all,
        configs,
        now,
    )
    &&& notification_requests_view(after.outbox@) == notification_requests_view(before.outbox@)
        + alerts_after(
        store,
        configs,
        recipients_view(before.connection.recipients@),
        members_view(before.connection.recipient_list_members@),
        option_template(templates.title_template),
        templates.body_template@,
        temperatures,
        now,
    )
}

/// Every change of status of a configuration has its notification: where
/// the payload can be read, the configuration sends as many notifications as
/// its sensors changed status, the notification at place `i` with the data
/// of the change at place `i`.
pub proof fn lemma_every_change_is_notified(
    store: Map<(Seq<char>, Seq<char>), Seq<char>>,
    config: ConfigView,
    recipients: Seq<RecipientView>,
    members: Seq<MemberView>,
    title: Option<TemplateView>,
    body: TemplateView,
    temperatures: Seq<LatestTemperatureRow>,
    now: i64,
)
    requires
        sensor_ids_of(config.configuration_data) is Some,
    ensures
        ({
            let transitions = transitions_after(
                store,
                sensor_ids_of(config.configuration_data).unwrap(),
                temperatures,
                now,
            );
            let alerts = config_alerts(
                store,
                config,
                recipients,
                members,
                title,
                body,
                temperatures,
                now,
            );
            &&& alerts.len() == transitions.len()
            &&& forall|i: int|
                0 <= i < alerts.len() ==> (#[trigger] alerts[i]).config_id == Some(config.id)
                    && alerts[i].notification.template_data == transition_value(transitions[i])
        }),
{
}

/// Some configuration of `configs` has the id `id`.
pub open spec fn holds_id(configs: Seq<ConfigView>, id: Seq<char>) -> bool {
    exists|i: int| 0 <= i < configs.len() && (#[trigger] configs[i]).id == id
}

/// What a filter lets through stands in what it was given.
proof fn lemma_filtered_is_stored(all: Seq<ConfigView>, wanted: spec_fn(ConfigView) -> bool, k: int)
    requires
        0 <= k < all.filter(wanted).len(),
    ensures
        exists|i: int| 0 <= i < all.len() && #[trigger] all[i] == all.filter(wanted)[k],
    decreases all.len(),
{
    reveal(Seq::filter);
    if all.len() > 0 {
        let rest = all.drop_last();
        if wanted(all.last()) && k == rest.filter(wanted).len() {
            assert(all[all.len() - 1] == all.filter(wanted)[k]);
        } else {
            lemma_filtered_is_stored(rest, wanted, k);
            let i = choose|i: int| 0 <= i < rest.len() && #[trigger] rest[i] == rest.filter(wanted)[k];
            assert(all[i] == rest[i]);
        }
    }
}

/// Runs the evaluator: processes every cold chain configuration that is
/// due at `current_time`, in the order of the storage, and returns their
/// number.
///
/// Each configuration is marked as run and its sensors are evaluated, as
/// [`try_process_coldchain_notifications`] does it. For each change of
/// status a notification to the targets of the configuration is added to
/// the outbox, to be rendered. A configuration that fails does not stop the
/// others.
pub fn process_coldchain_alerts(
    ctx: &mut ServiceContext,
    templates: &AlertTemplates,
    temperatures: &Vec<LatestTemperatureRow>,
    current_time: i64,
) -> (result: Result<usize, ColdChainError>)
    ensures
        result is Ok,
        result.unwrap() == configs_view(old(ctx).connection.notification_configs@).filter(
            due(NotificationConfigKind::ColdChain, current_time),
        ).len(),
        alerts_processed(*old(ctx), *final(ctx), *templates, temperatures@, current_time),
{
    let configs = find_all_due_by_kind(
        &ctx.connection,
        NotificationConfigKind::ColdChain,
        current_time,
    );
    let num_configs = configs.len();
    let ghost due_configs = configs_view(configs@);
    let ghost store = store_map(ctx.connection.plugin_store@);
    let ghost all = configs_view(ctx.connection.notification_configs@);
    let ghost waiting = notification_requests_view(ctx.outbox@);
    let ghost recipients = recipients_view(ctx.connection.recipients@);
    let ghost members = members_view(ctx.connection.recipient_list_members@);
    let ghost title = option_template(templates.title_template);
    let ghost body = templates.body_template@;
    let mut c: usize = 0;
    assert(due_configs.take(0) =~= Seq::empty());
    assert(waiting + Seq::<NotificationRequestView>::empty() =~= waiting);
    proof {
        assert forall|k: int| 0 <= k < due_configs.len() implies #[trigger] holds_id(
            all,
            due_configs[k].id,
        ) by {
            lemma_filtered_is_stored(
                all,
                due(NotificationConfigKind::ColdChain, current_time),
                k,
            );
            let i = choose|i: int|
                0 <= i < all.len() && #[trigger] all[i] == due_configs[k];
            assert(all[i].id == due_configs[k].id);
        }
    }
    while c < configs.len()
        invariant
            c <= configs@.len(),
            due_configs == configs_view(configs@),
            forall|k: int|
                0 <= k < due_configs.len() ==> #[trigger] holds_id(all, due_configs[k].id),
            configs_view(ctx.connection.notification_configs@).len() == all.len(),
            forall|i: int|
                0 <= i < all.len() ==> (#[trigger] configs_view(
                    ctx.connection.notification_configs@,
                )[i]).id == all[i].id,
            ctx.connection.recipients == old(ctx).connection.recipients,
            ctx.connection.recipient_lists == old(ctx).connection.recipient_lists,
            ctx.connection.recipient_list_members == old(ctx).connection.recipient_list_members,
            ctx.connection.notification_queries == old(ctx).connection.notification_queries,
            ctx.connection.notification_events == old(ctx).connection.notification_events,
            recipients == recipients_view(ctx.connection.recipients@),
            members == members_view(ctx.connection.recipient_list_members@),
            title == option_template(templates.title_template),
            body == templates.body_template@,
            store_map(ctx.connection.plugin_store@) == alerts_store_after(
                store,
                due_configs.take(c as int),
                temperatures@,
                current_time,
            ),
            configs_view(ctx.connection.notification_configs@) == alerts_configs_after(
                all,
                due_configs.take(c as int),
                current_time,
            ),
            notification_requests_view(ctx.outbox@) == waiting + alerts_after(
                store,
                due_configs.take(c as int),
                recipients,
                members,
                title,
                body,
                temperatures@,
                current_time,
            ),
        decreases configs@.len() - c,
    {
        let config = &configs[c];
        let ghost store_here = store_map(ctx.connection.plugin_store@);
        let ghost sent = alerts_after(
            store,
            due_configs.take(c as int),
            recipients,
            members,
            title,
            body,
            temperatures@,
            current_time,
        );
        let ghost to_send = config_alerts(
            store_here,
            config@,
            recipients,
            members,
            title,
            body,
            temperatures@,
            current_time,
        );
        proof {
            assert(due_configs.take(c as int + 1).drop_last() =~= due_configs.take(c as int));
            assert(due_configs.take(c as int + 1).last() == config@);
            assert(to_send.take(0) =~= Seq::empty());
            assert(waiting + sent + to_send.take(0) =~= waiting + sent);
            let rows = ctx.connection.notification_configs@;
            assert(holds_id(all, due_configs[c as int].id));
            let i = choose|i: int|
                0 <= i < all.len() && (#[trigger] all[i]).id == due_configs[c as int].id;
            assert(configs_view(rows)[i].id == all[i].id);
            assert(rows[i].id@ == config.id@);
            assert(config_exists(rows, config.id@));
        }
        let ghost configs_here = configs_view(ctx.connection.notification_configs@);
        match try_process_coldchain_notifications(
            &mut ctx.connection,
            config,
            temperatures,
            current_time,
        ) {
            Ok(transitions) => {
                let targets = match get_notification_targets(
                    &ctx.connection,
                    &NotificationConfig::from(config.clone()),
                ) {
                    Ok(targets) => targets,
                    Err(_) => Vec::new(),
                };
                let ghost connection = ctx.connection;
                let mut t: usize = 0;
                while t < transitions.len()
                    invariant
                        t <= transitions@.len(),
                        ctx.connection == connection,
                        title == option_template(templates.title_template),
                        body == templates.body_template@,
                        to_send.len() == transitions@.len(),
                        forall|i: int|
                            0 <= i < to_send.len() ==> (#[trigger] to_send[i]) == (
                            NotificationRequestView {
                                config_id: Some(config.id@),
                                notification: NotificationView {
                                    title_template: title,
                                    body_template: body,
                                    recipients: targets_view(targets@),
                                    template_data: transition_value(transitions@[i]@),
                                },
                            }),
                        notification_requests_view(ctx.outbox@) == waiting + sent + to_send.take(
                            t as int,
                        ),
                    decreases transitions@.len() - t,
                {
                    let notification = transition_notification(
                        &transitions[t],
                        copy_of_targets(&targets),
                        templates,
                    );
                    let ghost before = ctx.outbox@;
                    let request = NotificationRequest {
                        config_id: Some(config.id.clone()),
                        notification,
                    };
                    assert(request@ == to_send[t as int]);
                    ctx.outbox.push(request);
                    proof {
                        assert(notification_requests_view(ctx.outbox@)
                            =~= notification_requests_view(before).push(to_send[t as int]));
                        assert(to_send.take(t as int + 1) =~= to_send.take(t as int).push(
                            to_send[t as int],
                        ));
                        assert(waiting + sent + to_send.take(t as int + 1) =~= (waiting + sent
                            + to_send.take(t as int)).push(to_send[t as int]));
                    }
                    t += 1;
                }
                assert(to_send.take(t as int) =~= to_send);
                assert(waiting + sent + to_send =~= waiting + (sent + to_send));
            },
            Err(_) => {
                assert(to_send =~= Seq::empty());
                assert(sent + to_send =~= sent);
            },
        }
        proof {
            let marked_here = configs_view(ctx.connection.notification_configs@);
            assert(marked_here == marked(configs_here, config.id@, current_time));
            assert forall|i: int| 0 <= i < all.len() implies (#[trigger] marked_here[i]).id
                == all[i].id by {
                assert(configs_here[i].id == all[i].id);
            }
        }
        c += 1;
    }
    assert(due_configs.take(c as int) =~= due_configs);
    Ok(num_configs)
}

} // verus!
