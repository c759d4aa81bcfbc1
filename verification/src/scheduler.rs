//! The scheduler: on each tick every evaluator runs once, in the order in
//! which the evaluators were registered. An evaluator that fails is
//! recorded and the next one runs.

use crate::coldchain::{
    alerts_processed, process_coldchain_alerts, AlertTemplates, ColdChainError,
    LatestTemperatureRow,
};
use crate::repository::{configs_view, NotificationConfigKind};
use crate::notification_config::due;
use crate::service_provider::ServiceContext;
use vstd::prelude::*;

verus! {

/// Why an evaluator failed.
#[derive(Debug, PartialEq)]
pub enum PluginError {
    UnableToProcessTick(String),
}

/// A scheduled unit of work: looks at the configurations that are due at
/// `now` and returns how many it processed.
///
/// Each evaluator may say with `runs` what a run of it does. Nothing is
/// asked of `runs`; an evaluator that does not say may do anything.
pub trait PluginTrait {
    /// Whether a run at `now` may lead from `before` to `after` with the
    /// outcome `outcome`.
    open spec fn runs(
        &self,
        before: ServiceContext,
        now: i64,
        after: ServiceContext,
        outcome: Result<usize, PluginError>,
    ) -> bool {
        true
    }

    /// Runs the evaluator once.
    fn run(&self, ctx: &mut ServiceContext, now: i64) -> (outcome: Result<usize, PluginError>)
        ensures
            self.runs(*old(ctx), now, *final(ctx), outcome),
    ;
}

/// What the evaluators of one tick came to, one outcome for each evaluator,
/// in their order.
#[derive(Debug, PartialEq)]
pub struct TickReport {
    pub outcomes: Vec<Result<usize, PluginError>>,
}

/// How many of the first `n` outcomes are failures.
pub open spec fn failures(outcomes: Seq<Result<usize, PluginError>>, n: int) -> int
    decreases n,
{
    if n <= 0 {
        0
    } else {
        failures(outcomes, n - 1) + if outcomes[n - 1] is Err {
            1int
        } else {
            0int
        }
    }
}

impl TickReport {
    /// The number of evaluators that failed.
    pub fn failed(&self) -> (count: usize)
        ensures
            count == failures(self.outcomes@, self.outcomes@.len() as int),
    {
        let mut count: usize = 0;
        let mut i: usize = 0;
        while i < self.outcomes.len()
            invariant
                i <= self.outcomes@.len(),
                count <= i,
                count == failures(self.outcomes@, i as int),
            decreases self.outcomes@.len() - i,
        {
            if self.outcomes[i].is_err() {
                count += 1;
            }
            i += 1;
        }
        count
    }
}

/// `states` are the states that a tick went through: evaluator `i` ran once
/// at `now`, from the state at place `i` to the state at place `i + 1`, with
/// the outcome at place `i`, whatever the evaluators before it came to.
pub open spec fn is_tick<P: PluginTrait>(
    plugins: Seq<P>,
    states: Seq<ServiceContext>,
    now: i64,
    outcomes: Seq<Result<usize, PluginError>>,
) -> bool {
    &&& states.len() == plugins.len() + 1
    &&& outcomes.len() == plugins.len()
    &&& forall|i: int|
        0 <= i < plugins.len() ==> (#[trigger] plugins[i]).runs(
            states[i],
            now,
            states[i + 1],
            outcomes[i],
        )
}

/// Runs one tick: every evaluator once, in order, each on what the one
/// before it left, whatever the ones before it came to.
pub fn run_tick<P: PluginTrait>(plugins: &Vec<P>, ctx: &mut ServiceContext, now: i64) -> (report:
    TickReport)
    ensures
        report.outcomes@.len() == plugins@.len(),
        exists|states: Seq<ServiceContext>| #[trigger]
            is_tick(plugins@, states, now, report.outcomes@) && states[0] == *old(ctx)
                && states.last() == *final(ctx),
{
    let mut outcomes: Vec<Result<usize, PluginError>> = Vec::new();
    let ghost mut states: Seq<ServiceContext> = seq![*ctx];
    let mut i: usize = 0;
    while i < plugins.len()
        invariant
            i <= plugins@.len(),
            outcomes@.len() == i,
            states.len() == i + 1,
            states[0] == *old(ctx),
            states.last() == *ctx,
            forall|j: int|
                0 <= j < i ==> (#[trigger] plugins@[j]).runs(
                    states[j],
                    now,
                    states[j + 1],
                    outcomes@[j],
                ),
        decreases plugins@.len() - i,
    {
        let ghost before = states;
        let ghost outcomes_before = outcomes@;
        let outcome = plugins[i].run(ctx, now);
        outcomes.push(outcome);
        proof {
            states = states.push(*ctx);
            assert forall|j: int| 0 <= j < i + 1 implies (#[trigger] plugins@[j]).runs(
                states[j],
                now,
                states[j + 1],
                outcomes@[j],
            ) by {
                if j < i {
                    assert(states[j] == before[j] && states[j + 1] == before[j + 1]);
                    assert(outcomes@[j] == outcomes_before[j]);
                }
            }
        }
        i += 1;
    }
    let report = TickReport { outcomes };
    assert(is_tick(plugins@, states, now, report.outcomes@) && states[0] == *old(ctx)
        && states.last() == *ctx);
    report
}

/// The cold chain evaluator, with what it needs besides the storage: the
/// templates of its notifications, and the temperature logs of the sensors.
pub struct ColdChainPlugin {
    pub templates: AlertTemplates,
    pub temperatures: Vec<LatestTemperatureRow>,
}

impl PluginTrait for ColdChainPlugin {
    /// A run processes the cold chain configurations that are due and
    /// returns their number.
    open spec fn runs(
        &self,
        before: ServiceContext,
        now: i64,
        after: ServiceContext,
        outcome: Result<usize, PluginError>,
    ) -> bool {
        &&& outcome is Ok
        &&& outcome->Ok_0 == configs_view(before.connection.notification_configs@).filter(
            due(NotificationConfigKind::ColdChain, now),
        ).len()
        &&& alerts_processed(before, after, self.templates, self.temperatures@, now)
    }

    /// Runs [`process_coldchain_alerts`].
    fn run(&self, ctx: &mut ServiceContext, now: i64) -> (outcome: Result<usize, PluginError>) {
        match process_coldchain_alerts(ctx, &self.templates, &self.temperatures, now) {
            Ok(processed) => Ok(processed),
            Err(ColdChainError::InternalError(message)) => Err(
                PluginError::UnableToProcessTick(message),
            ),
            Err(ColdChainError::UnableToParseConfig(message)) => Err(
                PluginError::UnableToProcessTick(message),
            ),
        }
    }
}

} // verus!
