use microservice::Phase;
use microservice::config::{lookup, merge_layers, logging_from_entries, ConfigError};
use microservice::handler::{set_handler, Signal, SignalError};
use microservice::logging::{
    logger_plan, parse_format, parse_severity, stdout_logger, Config, LogRecord, LoggingFormat,
    Pipeline, Severity,
};
use microservice::next_phase;

fn pair(k: &str, v: &str) -> (String, String) {
    (k.to_string(), v.to_string())
}

#[test]
fn severity_full_names_any_case() {
    assert_eq!(parse_severity("critical"), Some(Severity::Critical));
    assert_eq!(parse_severity("ERROR"), Some(Severity::Error));
    assert_eq!(parse_severity("Warning"), Some(Severity::Warning));
    assert_eq!(parse_severity("info"), Some(Severity::Info));
    assert_eq!(parse_severity("DEBUG"), Some(Severity::Debug));
    assert_eq!(parse_severity("trace"), Some(Severity::Trace));
}

#[test]
fn severity_short_names_and_prefixes() {
    assert_eq!(parse_severity("warn"), Some(Severity::Warning));
    assert_eq!(parse_severity("crit"), Some(Severity::Critical));
    assert_eq!(parse_severity("erro"), Some(Severity::Error));
    assert_eq!(parse_severity("debg"), Some(Severity::Debug));
    assert_eq!(parse_severity("trce"), Some(Severity::Trace));
    assert_eq!(parse_severity("e"), Some(Severity::Error));
    assert_eq!(parse_severity("t"), Some(Severity::Trace));
}

#[test]
fn severity_rejects_unknown_tokens() {
    assert_eq!(parse_severity(""), None);
    assert_eq!(parse_severity("off"), None);
    assert_eq!(parse_severity("verbose"), None);
    assert_eq!(parse_severity("warnx"), None);
    assert_eq!(parse_severity("informational"), None);
}

#[test]
fn severity_order() {
    assert!(Severity::Critical.is_at_least(&Severity::Error));
    assert!(Severity::Error.is_at_least(&Severity::Error));
    assert!(Severity::Warning.is_at_least(&Severity::Info));
    assert!(!Severity::Info.is_at_least(&Severity::Error));
    assert!(!Severity::Trace.is_at_least(&Severity::Debug));
}

#[test]
fn format_names_are_exact() {
    assert_eq!(parse_format("json"), Some(LoggingFormat::Json));
    assert_eq!(parse_format("text"), Some(LoggingFormat::Text));
    assert_eq!(parse_format("JSON"), None);
    assert_eq!(parse_format("yaml"), None);
    assert_eq!(parse_format(""), None);
}

#[test]
fn default_config_is_info_json_stdout() {
    let c = Config::default();
    assert_eq!(c.level, Some(Severity::Info));
    assert_eq!(c.format, LoggingFormat::Json);
    assert!(c.path.is_none());
}

#[test]
fn absent_config_plans_the_default() {
    let p = logger_plan(None);
    assert_eq!(p.cutoff, Severity::Info);
    assert_eq!(p.format, LoggingFormat::Json);
    assert!(p.path.is_none());
}

#[test]
fn absent_level_plans_informational() {
    let c = Config { level: None, format: LoggingFormat::Text, path: Some("app.log".to_string()) };
    let p = logger_plan(Some(&c));
    assert_eq!(p.cutoff, Severity::Info);
    assert_eq!(p.format, LoggingFormat::Text);
    assert_eq!(p.path.as_deref(), Some("app.log"));
}

#[test]
fn environment_layer_wins() {
    let file = vec![pair("logging.level", "debug"), pair("port", "80")];
    let env = vec![pair("logging.level", "warn")];
    let merged = merge_layers(&file, &env);
    assert_eq!(lookup(&merged, &"logging.level".to_string()).as_deref(), Some("warn"));
    assert_eq!(lookup(&merged, &"port".to_string()).as_deref(), Some("80"));
    assert_eq!(lookup(&merged, &"missing".to_string()), None);
}

#[test]
fn no_logging_keys_means_no_section() {
    let entries = vec![pair("port", "80")];
    let r = logging_from_entries(&entries);
    assert!(matches!(r, Ok(None)));
}

#[test]
fn logging_section_parses() {
    let entries = vec![pair("logging.format", "json"), pair("logging.level", "Error")];
    let c = logging_from_entries(&entries).unwrap().unwrap();
    assert_eq!(c.format, LoggingFormat::Json);
    assert_eq!(c.level, Some(Severity::Error));
    assert!(c.path.is_none());
}

#[test]
fn missing_format_is_reported() {
    let entries = vec![pair("logging.level", "warn")];
    let r = logging_from_entries(&entries);
    assert_eq!(r, Err(ConfigError::MissingField("logging.format".to_string())));
}

#[test]
fn bad_level_names_value_and_field() {
    let entries = vec![pair("logging.format", "json"), pair("logging.level", "loud")];
    let r = logging_from_entries(&entries);
    assert_eq!(
        r,
        Err(ConfigError::InvalidValue {
            field: "logging.level".to_string(),
            value: "loud".to_string(),
        })
    );
}

#[test]
fn bad_format_names_value_and_field() {
    let entries = vec![pair("logging.format", "xml")];
    let r = logging_from_entries(&entries);
    assert_eq!(
        r,
        Err(ConfigError::InvalidValue {
            field: "logging.format".to_string(),
            value: "xml".to_string(),
        })
    );
}

#[test]
fn bad_level_reported_without_format() {
    let entries = vec![pair("logging.level", "loud")];
    let r = logging_from_entries(&entries);
    assert_eq!(
        r,
        Err(ConfigError::InvalidValue {
            field: "logging.level".to_string(),
            value: "loud".to_string(),
        })
    );
}

#[test]
fn bad_level_reported_before_bad_format() {
    let entries = vec![pair("logging.format", "xml"), pair("logging.level", "loud")];
    let r = logging_from_entries(&entries);
    assert_eq!(
        r,
        Err(ConfigError::InvalidValue {
            field: "logging.level".to_string(),
            value: "loud".to_string(),
        })
    );
}

#[test]
fn records_below_cutoff_never_delivered() {
    let mut p = Pipeline::new(Severity::Error);
    p.submit(LogRecord { level: Severity::Info, message: "quiet".to_string() });
    p.submit(LogRecord { level: Severity::Critical, message: "loud".to_string() });
    p.submit(LogRecord { level: Severity::Warning, message: "quiet too".to_string() });
    p.release();
    assert_eq!(p.delivered.len(), 1);
    assert_eq!(p.delivered[0].message, "loud");
    assert_eq!(p.queued.len(), 0);
}

#[test]
fn release_loses_no_record() {
    let mut p = Pipeline::new(Severity::Info);
    for i in 0..1000u32 {
        p.submit(LogRecord { level: Severity::Info, message: format!("record {}", i) });
    }
    assert_eq!(p.delivered.len(), 0);
    p.release();
    assert_eq!(p.delivered.len(), 1000);
    for i in 0..1000usize {
        assert_eq!(p.delivered[i].message, format!("record {}", i));
    }
}

#[test]
fn text_and_warn_scenario() {
    let file = vec![pair("logging.format", "text")];
    let env = vec![pair("logging.level", "warn")];
    let merged = merge_layers(&file, &env);
    let section = logging_from_entries(&merged).unwrap().unwrap();
    let plan = logger_plan(Some(&section));
    assert_eq!(plan.format, LoggingFormat::Text);
    assert_eq!(plan.cutoff, Severity::Warning);
    assert!(plan.path.is_none());

    let mut p = Pipeline::new(plan.cutoff);
    p.submit(LogRecord { level: Severity::Info, message: "Application Starting.".to_string() });
    p.submit(LogRecord { level: Severity::Warning, message: "low disk".to_string() });
    p.release();
    assert_eq!(p.delivered.len(), 1);
    assert_eq!(p.delivered[0].message, "low disk");
}

#[test]
fn stdout_pipelines_build() {
    let (json_logger, json_guard) = stdout_logger(&LoggingFormat::Json, &Severity::Info);
    drop(json_guard);
    drop(json_logger);
    let (text_logger, text_guard) = stdout_logger(&LoggingFormat::Text, &Severity::Error);
    drop(text_guard);
    drop(text_logger);
}

#[test]
fn signal_starts_running_and_trips_once() {
    let s = Signal::fresh();
    assert!(!s.check());
    let clone = s.clone();
    assert!(!clone.check());
    s.trip();
    assert!(s.check());
    assert!(clone.check());
    s.trip();
    assert!(s.check());
}

#[test]
fn second_handler_installation_fails() {
    let first = set_handler(|| {});
    assert!(first.is_ok());
    assert!(!first.unwrap().check());
    let second = set_handler(|| {});
    assert!(matches!(second, Err(SignalError::AlreadyInstalled)));
}

#[test]
fn bootstrap_happy_path_order() {
    let mut phase = Phase::LoadConfig;
    let mut visited = vec![phase];
    while !phase.is_terminal() {
        phase = next_phase(&phase, true);
        visited.push(phase);
    }
    assert_eq!(
        visited,
        vec![
            Phase::LoadConfig,
            Phase::BuildLogger,
            Phase::InstallSignal,
            Phase::LogStartup,
            Phase::RunApp,
            Phase::LogShutdown,
            Phase::ReleaseGuard,
            Phase::Done,
        ]
    );
}

#[test]
fn setup_failure_aborts_before_user_code() {
    let mut phase = Phase::LoadConfig;
    let mut visited = vec![phase];
    let outcomes = [true, false];
    let mut step = 0;
    while !phase.is_terminal() {
        let ok = if step < outcomes.len() { outcomes[step] } else { true };
        phase = next_phase(&phase, ok);
        visited.push(phase);
        step += 1;
    }
    assert_eq!(visited, vec![Phase::LoadConfig, Phase::BuildLogger, Phase::Aborted]);
    assert!(!visited.contains(&Phase::RunApp));
}
