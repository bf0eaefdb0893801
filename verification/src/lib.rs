//! A thin layer over two mutually exclusive embeddable browser engines on
//! Windows: the evergreen WebView2 runtime and the legacy MSHTML control.
//!
//! The library holds the decision logic of that layer: engine selection and
//! fallback, the installer protocol for the evergreen runtime, URL versus
//! inline-HTML disambiguation, window-procedure dispatch, and the lifetime
//! rules of the native handles. Everything the operating system or one of the
//! engines does (windows, dialogs, processes, rendering) is driven by a host
//! harness that feeds the outcomes of those calls back into these state
//! machines.

use vstd::prelude::*;

pub mod wv2;

verus! {

/// Construction-time and installation-time failures of this layer.
///
/// Every error names the step that failed; no error is retried here.
#[derive(Debug, Clone, Copy, PartialEq, Eq)]
pub enum WVError {
    /// Registering the native window class failed.
    WindowClassRegistrationFailed,
    /// Creating the native window failed.
    WindowCreationFailed,
    /// The asynchronous environment or controller creation reported failure.
    EnvironmentOrControllerCreationFailed,
    /// A confirmation prompt preceded installation and the user cancelled.
    InstallationDeclinedByUser,
    /// The spawned installer process exited with a non-zero status.
    InstallationProcessFailed,
    /// The legacy engine reported an error of its own.
    LegacyEngineError,
}

impl WVError {
    /// A fixed description of the error, one per variant.
    pub fn message(&self) -> (r: &'static str)
        ensures
            r@ == message_spec(*self),
    {
        match self {
            WVError::WindowClassRegistrationFailed => "window class registration failed",
            WVError::WindowCreationFailed => "window creation failed",
            WVError::EnvironmentOrControllerCreationFailed => "environment or controller creation failed",
            WVError::InstallationDeclinedByUser => "installation declined by user",
            WVError::InstallationProcessFailed => "installation process failed",
            WVError::LegacyEngineError => "legacy engine error",
        }
    }
}

/// The description [`WVError::message`] returns for each variant.
pub open spec fn message_spec(e: WVError) -> Seq<char> {
    match e {
        WVError::WindowClassRegistrationFailed => "window class registration failed"@,
        WVError::WindowCreationFailed => "window creation failed"@,
        WVError::EnvironmentOrControllerCreationFailed => "environment or controller creation failed"@,
        WVError::InstallationDeclinedByUser => "installation declined by user"@,
        WVError::InstallationProcessFailed => "installation process failed"@,
        WVError::LegacyEngineError => "legacy engine error"@,
    }
}

pub type WVResult<T = ()> = Result<T, WVError>;

/// How `build` chooses between the evergreen engine and the legacy control.
///
/// The optional text is the confirmation prompt shown before an installation
/// attempt; `None` installs without asking.
pub enum WebViewMode {
    /// Prefer the evergreen engine, installing it if need be; fall back to
    /// the legacy control when installation fails.
    Auto(Option<String>),
    /// Use the evergreen engine only if its runtime is already present;
    /// probe for it, never install it.
    Fallback,
    /// Always use the legacy MSHTML control; neither probe nor install.
    MSHTML,
    /// Require the evergreen engine; failure to install it is fatal.
    WebView2(Option<String>),
}

// ---------------------------------------------------------------------------
// Evergreen-runtime installation protocol.
//
// The host probes for the runtime, shows the confirmation prompt and spawns
// the installer process; this machine decides which of those steps comes
// next and what the final outcome means.
// ---------------------------------------------------------------------------

/// How an installation attempt ended.
#[derive(Debug, Clone, Copy, PartialEq, Eq)]
pub enum InstallOutcome {
    /// The runtime was found by the probe; nothing was installed.
    AlreadyPresent,
    /// The installer process ran and exited with status zero.
    Installed,
    /// The confirmation prompt was shown and the user cancelled.
    Declined,
    /// The installer process ran and exited with a non-zero status.
    ProcessFailed,
}

/// The next step the host must take while installing the runtime.
#[derive(Debug, Clone, Copy, PartialEq, Eq)]
pub enum InstallStep {
    /// Installation is over; no further side effect may occur.
    Done(InstallOutcome),
    /// Show the blocking OK/Cancel confirmation prompt, then report the
    /// answer through [`install_after_prompt`].
    ShowPrompt,
    /// Spawn the installer process, wait for it, then report its exit
    /// status through [`install_after_spawn`].
    RunInstaller,
}

/// Whether an outcome means the evergreen runtime is usable.
pub open spec fn install_succeeded(o: InstallOutcome) -> bool {
    o is AlreadyPresent || o is Installed
}

/// Exec mirror of [`install_succeeded`].
pub fn install_outcome_success(o: InstallOutcome) -> (r: bool)
    ensures
        r == install_succeeded(o),
{
    match o {
        InstallOutcome::AlreadyPresent => true,
        InstallOutcome::Installed => true,
        InstallOutcome::Declined => false,
        InstallOutcome::ProcessFailed => false,
    }
}

/// First step of an installation attempt, from the probe's result and
/// whether a confirmation prompt was supplied.
pub open spec fn install_begin_spec(runtime_present: bool, has_prompt: bool) -> InstallStep {
    if runtime_present {
        InstallStep::Done(InstallOutcome::AlreadyPresent)
    } else if has_prompt {
        InstallStep::ShowPrompt
    } else {
        InstallStep::RunInstaller
    }
}

/// Step after the confirmation prompt was answered.
pub open spec fn install_after_prompt_spec(accepted: bool) -> InstallStep {
    if accepted {
        InstallStep::RunInstaller
    } else {
        InstallStep::Done(InstallOutcome::Declined)
    }
}

/// Step after the installer process exited; `exit_success` is whether its
/// status was zero. A single attempt only: the machine is done either way.
pub open spec fn install_after_spawn_spec(exit_success: bool) -> InstallStep {
    if exit_success {
        InstallStep::Done(InstallOutcome::Installed)
    } else {
        InstallStep::Done(InstallOutcome::ProcessFailed)
    }
}

/// Begins an installation attempt. `runtime_present` is what the probe for
/// an existing runtime version reported; `confirm` is the optional prompt.
pub fn install_begin(runtime_present: bool, confirm: &Option<String>) -> (r: InstallStep)
    ensures
        r == install_begin_spec(runtime_present, confirm is Some),
{
    if runtime_present {
        InstallStep::Done(InstallOutcome::AlreadyPresent)
    } else if confirm.is_some() {
        InstallStep::ShowPrompt
    } else {
        InstallStep::RunInstaller
    }
}

/// Continues after the prompt of [`InstallStep::ShowPrompt`]; `accepted` is
/// false when the user cancelled.
pub fn install_after_prompt(accepted: bool) -> (r: InstallStep)
    ensures
        r == install_after_prompt_spec(accepted),
{
    if accepted {
        InstallStep::RunInstaller
    } else {
        InstallStep::Done(InstallOutcome::Declined)
    }
}

/// Continues after the process of [`InstallStep::RunInstaller`] exited.
pub fn install_after_spawn(exit_success: bool) -> (r: InstallStep)
    ensures
        r == install_after_spawn_spec(exit_success),
{
    if exit_success {
        InstallStep::Done(InstallOutcome::Installed)
    } else {
        InstallStep::Done(InstallOutcome::ProcessFailed)
    }
}

/// Law: when the runtime is already present the attempt is over at once,
/// successfully, whether or not a prompt was supplied — the prompt is never
/// shown and the installer process is never spawned.
pub proof fn lemma_present_runtime_skips_installer(has_prompt: bool)
    ensures
        install_begin_spec(true, has_prompt) == InstallStep::Done(InstallOutcome::AlreadyPresent),
        install_succeeded(InstallOutcome::AlreadyPresent),
{
}

/// Law: cancelling the confirmation prompt ends the attempt as declined —
/// the installer process is never spawned and the outcome is a failure.
pub proof fn lemma_cancelled_prompt_aborts()
    ensures
        install_after_prompt_spec(false) == InstallStep::Done(InstallOutcome::Declined),
        !install_succeeded(InstallOutcome::Declined),
{
}

// ---------------------------------------------------------------------------
// URL versus inline-HTML disambiguation.
//
// The configured value is ambiguous between a navigable URL and literal
// HTML. It counts as a URL exactly when a scheme separator `://` lies
// within its first ten characters.
// ---------------------------------------------------------------------------

/// The characters at `i`, `i + 1`, `i + 2` of `s` are `://`, wholly within
/// the first ten characters.
pub open spec fn scheme_separator_at(s: Seq<char>, i: int) -> bool {
    &&& 0 <= i
    &&& i + 3 <= s.len()
    &&& i + 3 <= 10
    &&& s[i] == ':'
    &&& s[i + 1] == '/'
    &&& s[i + 2] == '/'
}

/// Whether the value is treated as a navigable URL rather than as inline
/// HTML: a scheme separator stands within its first ten characters.
pub open spec fn is_url_spec(s: Seq<char>) -> bool {
    exists|i: int| scheme_separator_at(s, i)
}

/// Exec decision of [`is_url_spec`].
pub fn is_url(s: &str) -> (r: bool)
    ensures
        r == is_url_spec(s@),
{
    let n = s.unicode_len();
    let mut i: usize = 0;
    while i <= 7 && i + 3 <= n
        invariant
            n == s@.len(),
            i <= 8,
            forall|j: int| 0 <= j < i ==> !scheme_separator_at(s@, j),
        decreases 8 - i,
    {
        if s.get_char(i) == ':' && s.get_char(i + 1) == '/' && s.get_char(i + 2) == '/' {
            proof {
                assert(scheme_separator_at(s@, i as int));
            }
            return true;
        }
        i += 1;
    }
    proof {
        assert forall|j: int| !scheme_separator_at(s@, j) by {
            if scheme_separator_at(s@, j) {
                assert(0 <= j <= 7);
                assert(j + 3 <= s@.len());
                assert(j >= i);
            }
        }
    }
    false
}

/// What the page is given: a URL to navigate to, or literal HTML to render.
pub enum Content {
    Url(String),
    Html(String),
}

/// The classified content keeps the given text: a URL when a scheme
/// separator stands in its first ten characters, inline HTML otherwise.
pub open spec fn content_is(c: Content, text: Seq<char>) -> bool {
    if is_url_spec(text) {
        c matches Content::Url(u) && u@ == text
    } else {
        c matches Content::Html(h) && h@ == text
    }
}

/// Classifies the configured value as [`is_url_spec`] says, keeping its
/// text.
pub fn classify_content(value: String) -> (c: Content)
    ensures
        content_is(c, value@),
{
    if is_url(value.as_str()) {
        Content::Url(value)
    } else {
        Content::Html(value)
    }
}

// ---------------------------------------------------------------------------
// Configuration builder.
// ---------------------------------------------------------------------------

/// Collects the configuration of the window and the page, then resolves the
/// engine choice through [`WebViewBuilder::build`]. Consumed exactly once.
pub struct WebViewBuilder {
    pub engine: WebViewMode,
    pub title: String,
    pub url: String,
    pub debug: bool,
    pub width: i32,
    pub height: i32,
    pub resizable: bool,
    pub frameless: bool,
}

/// The configuration [`WebViewBuilder::new`] and `Default::default` start
/// from.
pub open spec fn is_default_config(b: WebViewBuilder) -> bool {
    &&& b.engine matches WebViewMode::Auto(m) && m matches Some(t) && t@ == ""@
    &&& b.title@ == "No title"@
    &&& b.url@ == "about:blank"@
    &&& b.debug == false
    &&& b.width == 800
    &&& b.height == 600
    &&& b.resizable == true
    &&& b.frameless == false
}

impl Default for WebViewBuilder {
    fn default() -> (r: Self)
        ensures
            is_default_config(r),
    {
        proof {
            reveal_strlit("");
            assert(""@ =~= Seq::<char>::empty());
        }
        WebViewBuilder {
            engine: WebViewMode::Auto(Some(String::new())),
            title: "No title".to_owned(),
            url: "about:blank".to_owned(),
            debug: false,
            width: 800,
            height: 600,
            resizable: true,
            frameless: false,
        }
    }
}

impl WebViewBuilder {
    /// Alias for `WebViewBuilder::default()`.
    pub fn new() -> (r: Self)
        ensures
            is_default_config(r),
    {
        Self::default()
    }

    /// Sets the engine-selection mode.
    pub fn mode(self, mode: WebViewMode) -> (r: Self)
        ensures
            r == (WebViewBuilder { engine: mode, ..self }),
    {
        WebViewBuilder { engine: mode, ..self }
    }

    /// Sets the title of the window.
    pub fn title(self, title: String) -> (r: Self)
        ensures
            r == (WebViewBuilder { title: title, ..self }),
    {
        WebViewBuilder { title: title, ..self }
    }

    /// Sets the size of the window.
    pub fn size(self, width: i32, height: i32) -> (r: Self)
        ensures
            r == (WebViewBuilder { width: width, height: height, ..self }),
    {
        WebViewBuilder { width: width, height: height, ..self }
    }

    /// Sets the value shown in the page: either a navigable URL or literal
    /// HTML, told apart by [`is_url`] when the engine choice is resolved.
    pub fn url(self, url: String) -> (r: Self)
        ensures
            r == (WebViewBuilder { url: url, ..self }),
    {
        WebViewBuilder { url: url, ..self }
    }

    /// Sets whether the window can be resized.
    pub fn resizable(self, resizable: bool) -> (r: Self)
        ensures
            r == (WebViewBuilder { resizable: resizable, ..self }),
    {
        WebViewBuilder { resizable: resizable, ..self }
    }

    /// Sets whether the window is created without a frame.
    pub fn frameless(self, frameless: bool) -> (r: Self)
        ensures
            r == (WebViewBuilder { frameless: frameless, ..self }),
    {
        WebViewBuilder { frameless: frameless, ..self }
    }

    /// Sets the debug flag handed to the legacy control.
    pub fn debug(self, debug: bool) -> (r: Self)
        ensures
            r == (WebViewBuilder { debug: debug, ..self }),
    {
        WebViewBuilder { debug: debug, ..self }
    }

    /// Resolves the engine choice: returns the build session whose phase
    /// says what the host must do first for this mode.
    pub fn build(self) -> (s: BuildSession)
        ensures
            s.config == self,
            s.phase == begin_phase(self.engine),
    {
        let phase = match &self.engine {
            WebViewMode::Auto(_) => BuildPhase::AwaitingInstall,
            WebViewMode::WebView2(_) => BuildPhase::AwaitingInstall,
            WebViewMode::Fallback => BuildPhase::AwaitingProbe,
            WebViewMode::MSHTML => BuildPhase::CreateLegacy,
        };
        BuildSession { config: self, phase }
    }
}

// ---------------------------------------------------------------------------
// Engine selection and fallback.
//
// `build` resolves the mode into exactly one of the two engine paths or a
// failure; the phases name the outside work whose outcome the host reports
// back. The three-way outcome (evergreen / legacy / failed) is exhaustive:
// no mode leaves the machine without a chosen path.
// ---------------------------------------------------------------------------

/// Where a build stands between configuration and a live handle.
#[derive(Debug, Clone, Copy, PartialEq, Eq)]
pub enum BuildPhase {
    /// Run the installation protocol (probe, optional prompt, optional
    /// installer process) and report the outcome through
    /// [`BuildSession::on_install`].
    AwaitingInstall,
    /// Probe whether the evergreen runtime is present — install nothing —
    /// and report through [`BuildSession::on_probe`].
    AwaitingProbe,
    /// The evergreen engine was chosen: create its window and controller.
    CreateEvergreen,
    /// The legacy control was chosen: delegate to its own builder.
    CreateLegacy,
    /// The build failed; no handle is produced.
    Failed(WVError),
}

/// The phase a build starts in, by mode.
pub open spec fn begin_phase(mode: WebViewMode) -> BuildPhase {
    match mode {
        WebViewMode::Auto(_) => BuildPhase::AwaitingInstall,
        WebViewMode::WebView2(_) => BuildPhase::AwaitingInstall,
        WebViewMode::Fallback => BuildPhase::AwaitingProbe,
        WebViewMode::MSHTML => BuildPhase::CreateLegacy,
    }
}

/// The error a failed installation turns into.
pub open spec fn install_error(o: InstallOutcome) -> WVError {
    if o is Declined {
        WVError::InstallationDeclinedByUser
    } else {
        WVError::InstallationProcessFailed
    }
}

/// The phase after the installation protocol finished with outcome `o`:
/// success picks the evergreen path; failure falls back to the legacy
/// control under `Auto` and is fatal under `WebView2`.
pub open spec fn install_phase(mode: WebViewMode, o: InstallOutcome) -> BuildPhase {
    if install_succeeded(o) {
        BuildPhase::CreateEvergreen
    } else {
        match mode {
            WebViewMode::Auto(_) => BuildPhase::CreateLegacy,
            _ => BuildPhase::Failed(install_error(o)),
        }
    }
}

/// The phase after the probe of [`BuildPhase::AwaitingProbe`].
pub open spec fn probe_phase(runtime_present: bool) -> BuildPhase {
    if runtime_present {
        BuildPhase::CreateEvergreen
    } else {
        BuildPhase::CreateLegacy
    }
}

/// One resolution of an engine choice, from [`WebViewBuilder::build`] to
/// whichever of [`BuildPhase::CreateEvergreen`], [`BuildPhase::CreateLegacy`]
/// or [`BuildPhase::Failed`] the mode and the reported outcomes dictate.
pub struct BuildSession {
    pub config: WebViewBuilder,
    pub phase: BuildPhase,
}

impl BuildSession {
    /// The confirmation prompt of the mode, to show before installing.
    pub fn confirm_message(&self) -> (r: &Option<String>)
        ensures
            r == match self.config.engine {
                WebViewMode::Auto(m) => m,
                WebViewMode::WebView2(m) => m,
                WebViewMode::Fallback => None::<String>,
                WebViewMode::MSHTML => None::<String>,
            },
    {
        match &self.config.engine {
            WebViewMode::Auto(m) => m,
            WebViewMode::WebView2(m) => m,
            WebViewMode::Fallback => &None,
            WebViewMode::MSHTML => &None,
        }
    }

    /// Reports how the installation protocol ended.
    pub fn on_install(&mut self, o: InstallOutcome)
        requires
            old(self).phase is AwaitingInstall,
        ensures
            final(self).config == old(self).config,
            final(self).phase == install_phase(old(self).config.engine, o),
    {
        if install_outcome_success(o) {
            self.phase = BuildPhase::CreateEvergreen;
        } else {
            match &self.config.engine {
                WebViewMode::Auto(_) => {
                    self.phase = BuildPhase::CreateLegacy;
                },
                _ => {
                    let e = match o {
                        InstallOutcome::Declined => WVError::InstallationDeclinedByUser,
                        _ => WVError::InstallationProcessFailed,
                    };
                    self.phase = BuildPhase::Failed(e);
                },
            }
        }
    }

    /// Reports whether the probe found the evergreen runtime.
    pub fn on_probe(&mut self, runtime_present: bool)
        requires
            old(self).phase is AwaitingProbe,
        ensures
            final(self).config == old(self).config,
            final(self).phase == probe_phase(runtime_present),
    {
        if runtime_present {
            self.phase = BuildPhase::CreateEvergreen;
        } else {
            self.phase = BuildPhase::CreateLegacy;
        }
    }

    /// The error of a failed build.
    pub fn failure(&self) -> (r: WVError)
        requires
            self.phase is Failed,
        ensures
            self.phase == BuildPhase::Failed(r),
    {
        match &self.phase {
            BuildPhase::Failed(e) => *e,
            _ => WVError::LegacyEngineError,  // unreachable under the precondition
        }
    }

    /// Hands the configuration to the legacy control's builder, the
    /// configured value classified as URL or inline HTML.
    pub fn legacy_config(self) -> (c: LegacyConfig)
        requires
            self.phase is CreateLegacy,
        ensures
            c.title == self.config.title,
            content_is(c.content, self.config.url@),
            c.width == self.config.width,
            c.height == self.config.height,
            c.resizable == self.config.resizable,
            c.debug == self.config.debug,
            c.frameless == self.config.frameless,
    {
        LegacyConfig {
            title: self.config.title,
            content: classify_content(self.config.url),
            width: self.config.width,
            height: self.config.height,
            resizable: self.config.resizable,
            debug: self.config.debug,
            frameless: self.config.frameless,
        }
    }

    /// Starts the evergreen construction with the configuration mapped
    /// across.
    pub fn evergreen_start(self) -> (s: wv2::Wv2Session)
        requires
            self.phase is CreateEvergreen,
        ensures
            s.phase is RegisterClass,
            s.config.title == self.config.title,
            s.config.url == self.config.url,
            s.config.width == self.config.width,
            s.config.height == self.config.height,
            s.config.resizable == self.config.resizable,
    {
        wv2::Wv2Session::start(
            wv2::Wv2Config {
                title: self.config.title,
                url: self.config.url,
                width: self.config.width,
                height: self.config.height,
                resizable: self.config.resizable,
            },
        )
    }
}

/// The fields the legacy control's own builder takes, mapped across from
/// [`WebViewBuilder`].
pub struct LegacyConfig {
    pub title: String,
    pub content: Content,
    pub width: i32,
    pub height: i32,
    pub resizable: bool,
    pub debug: bool,
    pub frameless: bool,
}

// ---------------------------------------------------------------------------
// The unified handle.
// ---------------------------------------------------------------------------

/// The legacy control's live handle as this layer sees it: the content it
/// renders. Its processing is advanced one tick per [`WebView::step`].
pub struct LegacyWebView {
    pub content: Content,
}

/// What the host must do for one [`WebView::step`].
#[derive(Debug, Clone, Copy, PartialEq, Eq)]
pub enum StepAction {
    /// Advance the legacy control's internal processing one tick.
    PumpLegacy,
    /// Nothing: the evergreen engine's message pump is external.
    Nothing,
}

/// What the host must do for one [`WebView::exit`].
#[derive(Debug, Clone, Copy, PartialEq, Eq)]
pub enum ExitAction {
    /// Tell the legacy control to exit.
    ExitLegacy,
    /// Destroy this native window.
    DestroyWindow(u64),
    /// Nothing: the window was already destroyed.
    Nothing,
}

/// The live resource `build` produces: one of the two engines' handles
/// behind one interface.
pub enum WebView {
    /// The legacy MSHTML control.
    WV1(LegacyWebView),
    /// The evergreen engine's window and controller.
    WV2(wv2::WebView2),
}

impl WebView {
    /// One tick of the caller's message loop: the legacy control is
    /// advanced, the evergreen engine needs nothing.
    pub fn step(&mut self) -> (a: StepAction)
        ensures
            *final(self) == *old(self),
            a is PumpLegacy <==> *old(self) is WV1,
    {
        match self {
            WebView::WV1(_) => StepAction::PumpLegacy,
            WebView::WV2(w) => {
                w.step();
                StepAction::Nothing
            },
        }
    }

    /// Tears the handle down. For the evergreen engine the held window is
    /// destroyed exactly once: a second call finds none and asks for
    /// nothing.
    pub fn exit(&mut self) -> (a: ExitAction)
        ensures
            *old(self) is WV1 ==> a is ExitLegacy && *final(self) == *old(self),
            *old(self) matches WebView::WV2(w) ==> {
                &&& *final(self) == WebView::WV2(wv2::after_exit(w))
                &&& a == match wv2::exit_destroys(w) {
                    Some(h) => ExitAction::DestroyWindow(h),
                    None => ExitAction::Nothing,
                }
            },
    {
        match self {
            WebView::WV1(_) => ExitAction::ExitLegacy,
            WebView::WV2(w) => match w.exit() {
                Some(h) => ExitAction::DestroyWindow(h),
                None => ExitAction::Nothing,
            },
        }
    }
}

/// Law: forcing the legacy control dispatches to the legacy path at once —
/// never to the installation phase nor to the probe phase, and the legacy
/// phase asks for no further outcome, so no installation or probe can
/// follow.
pub proof fn lemma_force_legacy_never_installs()
    ensures
        begin_phase(WebViewMode::MSHTML) == BuildPhase::CreateLegacy,
        begin_phase(WebViewMode::MSHTML) !is AwaitingInstall,
        begin_phase(WebViewMode::MSHTML) !is AwaitingProbe,
{
}

/// Law: the fallback mode only ever probes: it starts at the probe phase,
/// never at the installation phase, and either probe answer goes straight
/// to an engine path — no installation step and no failure can follow.
pub proof fn lemma_fallback_only_probes()
    ensures
        begin_phase(WebViewMode::Fallback) == BuildPhase::AwaitingProbe,
        begin_phase(WebViewMode::Fallback) !is AwaitingInstall,
        forall|present: bool| #[trigger] probe_phase(present) !is AwaitingInstall,
        forall|present: bool| #[trigger] probe_phase(present) == if present {
            BuildPhase::CreateEvergreen
        } else {
            BuildPhase::CreateLegacy
        },
{
}

/// Law: the resolution is exhaustive — from any mode, once the outcome of
/// the phase's outside work is reported, the session stands at exactly one
/// of the evergreen path, the legacy path, or a failure.
pub proof fn lemma_dispatch_exhaustive(mode: WebViewMode, o: InstallOutcome, present: bool)
    ensures
        begin_phase(mode) is AwaitingInstall ==> {
            let p = install_phase(mode, o);
            p is CreateEvergreen || p is CreateLegacy || p is Failed
        },
        begin_phase(mode) is AwaitingProbe ==> {
            let p = probe_phase(present);
            p is CreateEvergreen || p is CreateLegacy
        },
        begin_phase(mode) is CreateLegacy || begin_phase(mode) is AwaitingInstall || begin_phase(
            mode,
        ) is AwaitingProbe,
{
}

} // verus!
