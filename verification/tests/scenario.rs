//! The end-to-end path on a machine whose evergreen runtime is already
//! installed: an automatic mode, an 800 by 600 window, a blank page.

use dual_webview::wv2::scale_for_dpi;
use dual_webview::{
    install_begin, install_outcome_success, BuildPhase, Content, ExitAction, InstallOutcome,
    InstallStep, StepAction, WebView, WebViewBuilder, WebViewMode,
};

#[test]
fn evergreen_end_to_end_with_preinstalled_runtime() {
    let builder = WebViewBuilder::new()
        .mode(WebViewMode::Auto(None))
        .size(800, 600)
        .url("about:blank".to_string());
    let mut session = builder.build();
    assert_eq!(session.phase, BuildPhase::AwaitingInstall);
    assert!(session.confirm_message().is_none());

    // The probe finds the runtime: installation is over at once, with no
    // prompt and no installer process.
    let step = install_begin(true, session.confirm_message());
    let outcome = match step {
        InstallStep::Done(o) => o,
        _ => panic!("a present runtime must end the attempt at once"),
    };
    assert_eq!(outcome, InstallOutcome::AlreadyPresent);
    assert!(install_outcome_success(outcome));

    session.on_install(outcome);
    assert_eq!(session.phase, BuildPhase::CreateEvergreen);

    // The evergreen construction: class, window, controller, navigation.
    let mut wv2 = session.evergreen_start();
    assert_eq!(wv2.config.width, 800);
    assert_eq!(wv2.config.height, 600);

    // At the default 96 dots per inch the window keeps its configured size.
    assert_eq!(scale_for_dpi(wv2.config.width, 96), 800);
    assert_eq!(scale_for_dpi(wv2.config.height, 96), 600);

    wv2.on_class_registered(true);
    wv2.on_window_created(0x2A);
    let nav = wv2.on_controller(true);
    // The populated controller navigates to the configured value. It holds
    // no scheme separator, so it travels through the inline-content call.
    assert!(matches!(nav, Some(Content::Html(h)) if h == "about:blank"));

    let handle = wv2.finish().expect("construction succeeded");
    assert_eq!(handle.hwnd, Some(0x2A));
    assert!(handle.controller_ready);

    // The unified handle: stepping needs nothing (the pump is external),
    // exiting destroys the window exactly once.
    let mut wv = WebView::WV2(handle);
    assert_eq!(wv.step(), StepAction::Nothing);
    assert_eq!(wv.exit(), ExitAction::DestroyWindow(0x2A));
    assert_eq!(wv.exit(), ExitAction::Nothing);
}

#[test]
fn legacy_end_to_end_without_runtime() {
    let builder = WebViewBuilder::new()
        .mode(WebViewMode::Auto(None))
        .url("<html>hi</html>".to_string());
    let mut session = builder.build();

    let step = install_begin(false, session.confirm_message());
    assert_eq!(step, InstallStep::RunInstaller);

    // The installer process fails; the automatic mode falls back.
    session.on_install(InstallOutcome::ProcessFailed);
    assert_eq!(session.phase, BuildPhase::CreateLegacy);

    let config = session.legacy_config();
    assert!(matches!(&config.content, Content::Html(h) if h == "<html>hi</html>"));

    let mut wv = WebView::WV1(dual_webview::LegacyWebView { content: config.content });
    assert_eq!(wv.step(), StepAction::PumpLegacy);
    assert_eq!(wv.exit(), ExitAction::ExitLegacy);
}
