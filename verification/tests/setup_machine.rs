use noise_widget::config::{
    main_window_label, min_log_level, supports_vibrancy, BuildProfile, LogLevel, TargetPlatform,
    Tint,
};
use noise_widget::setup::{Bootstrap, SetupError, SetupPhase};

#[test]
fn debug_windows_all_ok_runs_every_step() {
    let mut boot = Bootstrap::new(BuildProfile::Debug, TargetPlatform::Windows);
    assert_eq!(
        boot.phase,
        SetupPhase::RegisterLogging { min_level: LogLevel::Info }
    );
    assert!(!boot.is_terminal());
    boot.advance(true);
    assert_eq!(boot.phase, SetupPhase::LocateWindow);
    boot.advance(true);
    assert_eq!(
        boot.phase,
        SetupPhase::Decorate {
            tint: Tint { red: 18, green: 18, blue: 18, alpha: 100 }
        }
    );
    assert!(!boot.is_terminal());
    boot.advance(true);
    assert_eq!(boot.phase, SetupPhase::RunLoop);
    assert!(boot.is_terminal());
}

#[test]
fn release_unsupported_goes_straight_to_run_loop() {
    let boot = Bootstrap::new(BuildProfile::Release, TargetPlatform::Linux);
    assert_eq!(boot.phase, SetupPhase::RunLoop);
    assert!(boot.is_terminal());
}

#[test]
fn release_windows_skips_logging_but_decorates() {
    let mut boot = Bootstrap::new(BuildProfile::Release, TargetPlatform::Windows);
    assert_eq!(boot.phase, SetupPhase::LocateWindow);
    boot.advance(true);
    assert_eq!(
        boot.phase,
        SetupPhase::Decorate {
            tint: Tint { red: 18, green: 18, blue: 18, alpha: 100 }
        }
    );
    boot.advance(true);
    assert_eq!(boot.phase, SetupPhase::RunLoop);
}

#[test]
fn debug_unsupported_logs_then_runs_without_decoration() {
    let mut boot = Bootstrap::new(BuildProfile::Debug, TargetPlatform::MacOs);
    assert_eq!(
        boot.phase,
        SetupPhase::RegisterLogging { min_level: LogLevel::Info }
    );
    boot.advance(true);
    assert_eq!(boot.phase, SetupPhase::RunLoop);
    assert!(boot.is_terminal());
}

#[test]
fn logging_failure_aborts_at_once() {
    let mut boot = Bootstrap::new(BuildProfile::Debug, TargetPlatform::Windows);
    boot.advance(false);
    assert_eq!(
        boot.phase,
        SetupPhase::Aborted { error: SetupError::LoggingRegistration }
    );
    assert!(boot.is_terminal());
}

#[test]
fn missing_window_aborts() {
    let mut boot = Bootstrap::new(BuildProfile::Release, TargetPlatform::Windows);
    assert_eq!(boot.phase, SetupPhase::LocateWindow);
    boot.advance(false);
    assert_eq!(
        boot.phase,
        SetupPhase::Aborted { error: SetupError::WindowLookup }
    );
    assert!(boot.is_terminal());
}

#[test]
fn decoration_failure_aborts() {
    let mut boot = Bootstrap::new(BuildProfile::Release, TargetPlatform::Windows);
    boot.advance(true);
    boot.advance(false);
    assert_eq!(
        boot.phase,
        SetupPhase::Aborted { error: SetupError::Decoration }
    );
    assert!(boot.is_terminal());
}

#[test]
fn only_windows_supports_vibrancy() {
    assert!(supports_vibrancy(TargetPlatform::Windows));
    assert!(!supports_vibrancy(TargetPlatform::MacOs));
    assert!(!supports_vibrancy(TargetPlatform::Linux));
}

#[test]
fn acrylic_tint_is_dark_grey_at_partial_opacity() {
    let tint = Tint::acrylic();
    assert_eq!(tint.red, 18);
    assert_eq!(tint.green, 18);
    assert_eq!(tint.blue, 18);
    assert_eq!(tint.alpha, 100);
}

#[test]
fn window_label_is_main() {
    assert_eq!(main_window_label(), "main");
}

#[test]
fn log_threshold_is_informational() {
    assert_eq!(min_log_level(), LogLevel::Info);
}

#[test]
fn each_error_has_its_own_diagnostic() {
    assert_eq!(
        SetupError::LoggingRegistration.message(),
        "failed to register the logging extension"
    );
    assert_eq!(
        SetupError::WindowLookup.message(),
        "no window with the main label was found at setup"
    );
    assert_eq!(
        SetupError::Decoration.message(),
        "failed to apply the acrylic effect"
    );
}
