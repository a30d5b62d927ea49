use cargo_lambda_deploy::deploy::{ArchivePlan, Deploy, DeployError};
use cargo_lambda_deploy::output::OutputFormat;
use cargo_lambda_deploy::retry::{RetryPolicy, RetryStrategy};
use cargo_lambda_deploy::run::{Phase, RunAction, RunError, RunEvent, RunState};

fn request() -> Deploy {
    Deploy {
        enable_function_url: false,
        disable_function_url: false,
        lambda_dir: None,
        manifest_path: "Cargo.toml".to_string(),
        binary_name: None,
        binary_path: None,
        s3_bucket: None,
        extension: false,
        internal: false,
        compatible_runtimes: vec!["provided.al2".to_string()],
        output_format: OutputFormat::Text,
        tag: None,
        tags: None,
        extra_paths: None,
        name: None,
    }
}

fn finish_error(action: RunAction) -> RunError {
    match action {
        RunAction::Finish(Err(e)) => e,
        _ => panic!("expected a failed finish"),
    }
}

#[test]
fn function_deploy_with_explicit_path_runs_to_json_rendering() {
    let mut d = request();
    d.binary_path = Some("./target/out/my-fn".to_string());
    d.output_format = OutputFormat::parse("json").unwrap();

    let (s, a) = d.step(&RunState::start(), RunEvent::Begin);
    assert_eq!(s.phase, Phase::CheckingPath);
    assert!(s.progress);
    assert!(matches!(a, RunAction::CheckPath(ref p) if p == "./target/out/my-fn"));

    let (s, a) = d.step(&s, RunEvent::PathKind(false));
    assert_eq!(s.phase, Phase::Loading);
    assert_eq!(s.name, Some("my-fn".to_string()));
    match a {
        RunAction::Package(ArchivePlan::Package { name, destination, sublayout, .. }) => {
            assert_eq!(name, "my-fn");
            assert_eq!(destination, "./target/out");
            assert_eq!(sublayout, None);
        }
        _ => panic!("expected packaging"),
    }

    let (s, a) = d.step(&s, RunEvent::ArchiveLoaded(Ok(())));
    assert_eq!(s.phase, Phase::Connecting);
    match a {
        RunAction::BuildSession(p) => assert_eq!(
            p,
            RetryPolicy { mode: RetryStrategy::Adaptive, max_attempts: 3, initial_backoff_secs: 5 }
        ),
        _ => panic!("expected a session"),
    }

    let (s, a) = d.step(&s, RunEvent::SessionReady);
    assert_eq!(s.phase, Phase::Reading);
    assert!(matches!(a, RunAction::ReadArchive));

    let (s, a) = d.step(&s, RunEvent::ArchiveRead(Ok(())));
    assert_eq!(s.phase, Phase::Deploying);
    match a {
        RunAction::DeployFunction { name, binary_name, tags } => {
            assert_eq!(name, "my-fn");
            assert_eq!(binary_name, "my-fn");
            assert!(tags.is_none());
        }
        _ => panic!("expected the function path"),
    }

    let (s, a) = d.step(&s, RunEvent::Deployed(Ok(())));
    assert_eq!(s.phase, Phase::Rendering);
    assert!(!s.progress);
    assert!(matches!(a, RunAction::Render(OutputFormat::Json)));

    let (s, a) = d.step(&s, RunEvent::Rendered(Ok(())));
    assert_eq!(s.phase, Phase::Done);
    assert!(matches!(a, RunAction::Finish(Ok(()))));
}

#[test]
fn extension_deploy_is_discovered_and_keeps_runtime_order() {
    let mut d = request();
    d.extension = true;
    d.name = Some("my-ext".to_string());
    d.compatible_runtimes = vec!["provided.al2".to_string(), "nodejs16.x".to_string()];
    d.tags = Some(vec!["team=lambda".to_string()]);

    let (s, a) = d.step(&RunState::start(), RunEvent::Begin);
    assert_eq!(s.phase, Phase::Loading);
    match a {
        RunAction::Discover { binary_name, manifest_path, extension, internal, .. } => {
            assert_eq!(binary_name, "my-ext");
            assert_eq!(manifest_path, "Cargo.toml");
            assert!(extension);
            assert!(!internal);
        }
        _ => panic!("expected discovery"),
    }
    let (s, _) = d.step(&s, RunEvent::ArchiveLoaded(Ok(())));
    let (s, _) = d.step(&s, RunEvent::SessionReady);
    let (s, a) = d.step(&s, RunEvent::ArchiveRead(Ok(())));
    assert_eq!(s.phase, Phase::Deploying);
    match a {
        RunAction::DeployExtension { name, compatible_runtimes, tags } => {
            assert_eq!(name, "my-ext");
            assert_eq!(compatible_runtimes, vec!["provided.al2".to_string(), "nodejs16.x".to_string()]);
            let tags = tags.unwrap();
            assert_eq!(tags.len(), 1);
            assert_eq!(tags.get("team"), Some(&"lambda".to_string()));
        }
        _ => panic!("expected the extension path"),
    }
}

#[test]
fn missing_name_is_resolved_from_the_manifest() {
    let mut d = request();
    d.binary_name = Some("bootstrap".to_string());
    let (s, a) = d.step(&RunState::start(), RunEvent::Begin);
    assert_eq!(s.phase, Phase::ResolvingName);
    assert!(matches!(a, RunAction::ResolveManifest(ref m) if m == "Cargo.toml"));
    let (s, a) = d.step(&s, RunEvent::ManifestBinary(Ok("orders".to_string())));
    assert_eq!(s.phase, Phase::Loading);
    assert_eq!(s.name, Some("orders".to_string()));
    assert!(matches!(a, RunAction::Discover { ref binary_name, .. } if binary_name == "bootstrap"));
}

#[test]
fn conflicting_options_stop_before_any_work() {
    let mut d = request();
    d.enable_function_url = true;
    d.disable_function_url = true;
    d.binary_path = Some("./target/out/my-fn".to_string());
    let (s, a) = d.step(&RunState::start(), RunEvent::Begin);
    assert_eq!(s.phase, Phase::Done);
    assert!(!s.progress);
    assert_eq!(finish_error(a), RunError::Invalid(DeployError::ConflictingFunctionUrl));
}

#[test]
fn directory_path_stops_with_progress_cleared() {
    let mut d = request();
    d.binary_path = Some("./target/out".to_string());
    let (s, _) = d.step(&RunState::start(), RunEvent::Begin);
    let (s, a) = d.step(&s, RunEvent::PathKind(true));
    assert_eq!(s.phase, Phase::Done);
    assert!(!s.progress);
    assert_eq!(
        finish_error(a),
        RunError::Invalid(DeployError::InvalidFile("./target/out".to_string()))
    );
}

#[test]
fn each_failure_is_reported_and_clears_progress() {
    let mut d = request();
    d.name = Some("orders".to_string());
    let (loading, _) = d.step(&RunState::start(), RunEvent::Begin);

    let (s, a) = d.step(&loading, RunEvent::ArchiveLoaded(Err("no archive".to_string())));
    assert!(!s.progress);
    assert_eq!(finish_error(a), RunError::Archive("no archive".to_string()));

    let (connecting, _) = d.step(&loading, RunEvent::ArchiveLoaded(Ok(())));
    let (reading, _) = d.step(&connecting, RunEvent::SessionReady);
    let (s, a) = d.step(&reading, RunEvent::ArchiveRead(Err("denied".to_string())));
    assert!(!s.progress);
    assert_eq!(finish_error(a), RunError::Read("denied".to_string()));

    let (deploying, _) = d.step(&reading, RunEvent::ArchiveRead(Ok(())));
    let (s, a) = d.step(&deploying, RunEvent::Deployed(Err("throttled".to_string())));
    assert!(!s.progress);
    assert_eq!(finish_error(a), RunError::Remote("throttled".to_string()));

    let (rendering, _) = d.step(&deploying, RunEvent::Deployed(Ok(())));
    let (s, a) = d.step(&rendering, RunEvent::Rendered(Err("bad json".to_string())));
    assert_eq!(s.phase, Phase::Done);
    assert_eq!(finish_error(a), RunError::Render("bad json".to_string()));

    let resolving = Deploy { name: None, ..d.clone() };
    let (s, _) = resolving.step(&RunState::start(), RunEvent::Begin);
    let (s, a) = resolving.step(&s, RunEvent::ManifestBinary(Err("no binary".to_string())));
    assert!(!s.progress);
    assert_eq!(finish_error(a), RunError::Manifest("no binary".to_string()));
}

#[test]
fn event_out_of_order_is_refused() {
    let d = request();
    let (s, a) = d.step(&RunState::start(), RunEvent::SessionReady);
    assert_eq!(s.phase, Phase::Done);
    assert!(!s.progress);
    assert_eq!(finish_error(a), RunError::UnexpectedEvent);
}
