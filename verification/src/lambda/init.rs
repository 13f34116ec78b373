//! The decisions of Lambda system start-up: the runner configuration the
//! handler runtime gets, and the error of a failed connection.
use vstd::prelude::*;

use crate::lambda::config::LambdaConfig;
use crate::lambda::types::LambdaError;
use crate::runner::RunnerConfig;
use crate::text::push_str;

verus! {

/// The runner configuration of the handler runtime: the defaults, with the
/// configured workerd binary if there is one, and no preloaded modules.
pub fn runtime_runner_config(config: &LambdaConfig) -> (r: RunnerConfig)
    ensures
        match config.workerd_path {
            Some(p) => r.workerd_binary@ == p@,
            None => r.workerd_binary@ == "workerd"@,
        },
        r.startup_timeout_ms == 5000,
        r.health_check_attempts == 50,
        r.health_check_delay_ms == 100,
        r.modules@.len() == 0,
        r.node_modules_path is None,
        !r.force_nodejs_compat,
{
    let mut runner_config = RunnerConfig::default();
    match &config.workerd_path {
        Some(p) => {
            runner_config.workerd_binary = p.clone();
        },
        None => {},
    }
    runner_config.modules = Vec::new();
    runner_config
}

/// The error of a failed database connection.
pub fn connection_failure(db_message: &str) -> (r: LambdaError)
    ensures
        r matches LambdaError::Internal(m) && m@ == "Failed to connect to database: "@
            + db_message@,
{
    let mut m = "Failed to connect to database: ".to_owned();
    push_str(&mut m, db_message);
    LambdaError::Internal(m)
}

} // verus!
