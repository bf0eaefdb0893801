use dual_webview::{
    BuildPhase, Content, InstallOutcome, WVError, WebViewBuilder, WebViewMode,
};

#[test]
fn default_configuration() {
    let b = WebViewBuilder::default();
    assert!(matches!(&b.engine, WebViewMode::Auto(Some(m)) if m.is_empty()));
    assert_eq!(b.title, "No title");
    assert_eq!(b.url, "about:blank");
    assert!(!b.debug);
    assert_eq!(b.width, 800);
    assert_eq!(b.height, 600);
    assert!(b.resizable);
    assert!(!b.frameless);
}

#[test]
fn builder_methods_set_their_fields() {
    let b = WebViewBuilder::new()
        .mode(WebViewMode::Fallback)
        .title("T".to_string())
        .url("https://example.com".to_string())
        .size(320, 240)
        .resizable(false)
        .frameless(true)
        .debug(true);
    assert!(matches!(b.engine, WebViewMode::Fallback));
    assert_eq!(b.title, "T");
    assert_eq!(b.url, "https://example.com");
    assert_eq!(b.width, 320);
    assert_eq!(b.height, 240);
    assert!(!b.resizable);
    assert!(b.frameless);
    assert!(b.debug);
}

#[test]
fn force_legacy_dispatches_without_install_or_probe() {
    // The legacy mode goes straight to the legacy path.
    let s = WebViewBuilder::new().mode(WebViewMode::MSHTML).build();
    assert_eq!(s.phase, BuildPhase::CreateLegacy);
}

#[test]
fn fallback_probes_and_never_installs() {
    let mut s = WebViewBuilder::new().mode(WebViewMode::Fallback).build();
    assert_eq!(s.phase, BuildPhase::AwaitingProbe);
    s.on_probe(true);
    assert_eq!(s.phase, BuildPhase::CreateEvergreen);

    let mut s = WebViewBuilder::new().mode(WebViewMode::Fallback).build();
    s.on_probe(false);
    assert_eq!(s.phase, BuildPhase::CreateLegacy);
}

#[test]
fn auto_falls_back_to_legacy_on_failed_install() {
    let mut s = WebViewBuilder::new().mode(WebViewMode::Auto(None)).build();
    assert_eq!(s.phase, BuildPhase::AwaitingInstall);
    s.on_install(InstallOutcome::ProcessFailed);
    assert_eq!(s.phase, BuildPhase::CreateLegacy);
}

#[test]
fn auto_uses_evergreen_on_successful_install() {
    let mut s = WebViewBuilder::new().mode(WebViewMode::Auto(None)).build();
    s.on_install(InstallOutcome::Installed);
    assert_eq!(s.phase, BuildPhase::CreateEvergreen);
}

#[test]
fn forced_evergreen_fails_when_declined() {
    let mut s = WebViewBuilder::new()
        .mode(WebViewMode::WebView2(Some("install?".to_string())))
        .build();
    assert_eq!(s.phase, BuildPhase::AwaitingInstall);
    s.on_install(InstallOutcome::Declined);
    assert_eq!(
        s.phase,
        BuildPhase::Failed(WVError::InstallationDeclinedByUser)
    );
    assert_eq!(s.failure(), WVError::InstallationDeclinedByUser);
}

#[test]
fn forced_evergreen_fails_when_installer_fails() {
    let mut s = WebViewBuilder::new().mode(WebViewMode::WebView2(None)).build();
    s.on_install(InstallOutcome::ProcessFailed);
    assert_eq!(s.phase, BuildPhase::Failed(WVError::InstallationProcessFailed));
}

#[test]
fn forced_evergreen_proceeds_when_present() {
    let mut s = WebViewBuilder::new().mode(WebViewMode::WebView2(None)).build();
    s.on_install(InstallOutcome::AlreadyPresent);
    assert_eq!(s.phase, BuildPhase::CreateEvergreen);
}

#[test]
fn confirm_message_comes_from_the_mode() {
    let s = WebViewBuilder::new()
        .mode(WebViewMode::Auto(Some("ask me".to_string())))
        .build();
    assert_eq!(s.confirm_message().as_deref(), Some("ask me"));
    let s = WebViewBuilder::new().mode(WebViewMode::Fallback).build();
    assert_eq!(s.confirm_message().as_deref(), None);
}

#[test]
fn legacy_config_maps_fields_and_classifies_content() {
    let s = WebViewBuilder::new()
        .mode(WebViewMode::MSHTML)
        .title("win".to_string())
        .url("<html>hi</html>".to_string())
        .size(640, 480)
        .resizable(false)
        .debug(true)
        .frameless(true)
        .build();
    let c = s.legacy_config();
    assert_eq!(c.title, "win");
    assert!(matches!(&c.content, Content::Html(h) if h == "<html>hi</html>"));
    assert_eq!(c.width, 640);
    assert_eq!(c.height, 480);
    assert!(!c.resizable);
    assert!(c.debug);
    assert!(c.frameless);

    let s = WebViewBuilder::new()
        .mode(WebViewMode::MSHTML)
        .url("https://example.com".to_string())
        .build();
    let c = s.legacy_config();
    assert!(matches!(&c.content, Content::Url(u) if u == "https://example.com"));
}

#[test]
fn error_messages_name_the_step() {
    assert_eq!(
        WVError::InstallationDeclinedByUser.message(),
        "installation declined by user"
    );
    assert_eq!(
        WVError::WindowClassRegistrationFailed.message(),
        "window class registration failed"
    );
    assert_eq!(WVError::WindowCreationFailed.message(), "window creation failed");
    assert_eq!(
        WVError::EnvironmentOrControllerCreationFailed.message(),
        "environment or controller creation failed"
    );
    assert_eq!(
        WVError::InstallationProcessFailed.message(),
        "installation process failed"
    );
    assert_eq!(WVError::LegacyEngineError.message(), "legacy engine error");
}
