//! The command dispatcher: the long-lived handler invoked once per inbound
//! message. It intercepts the two reserved commands (driving the splash
//! screen state machine), and routes every other command through the fallback
//! chain — core handler first, application handler only when the core did not
//! recognize the command — surfacing any failure as a diagnostic script
//! injected into the page. The handlers themselves are host collaborators;
//! every decision between their answers is made here.

use vstd::prelude::*;
use vstd::string::StrSliceExecFns;
use vstd::string::StringExecFns;

use crate::strutil::escape_quotes;
use crate::strutil::escape_single_quotes;
use crate::strutil::has_substring;
use crate::strutil::str_eq;

verus! {

/// The splash screen's lifecycle, owned by the dispatcher: waiting for the
/// first readiness message, showing the splash content, or showing the main
/// content. Without a configured splash screen the state is `ShowingMain`
/// from the start.
pub enum SplashState {
    AwaitingInit,
    ShowingSplash,
    ShowingMain,
}

/// What the host must do in response to one inbound message: notify its
/// setup logic that a surface is ready, evaluate a script in the page, or run
/// the fallback chain of command handlers.
pub enum DispatchAction {
    NotifySetup(String),
    Evaluate(String),
    ForwardToHandlers,
}

/// The core handler's answer for one command: handled, command name not
/// recognized (with its report), or recognized but failed.
pub enum CoreOutcome {
    Handled,
    Unrecognized(String),
    Failed(String),
}

/// The application handler's answer for one command.
pub enum AppOutcome {
    Handled,
    NotHandled,
    Failed(String),
}

/// Where the fallback chain stands after a handler's answer; drives what the
/// host does next for this message.
pub enum DispatchOutcome {
    /// The core handler handled the command; nothing more to do.
    Handled,
    /// The core handler did not recognize the command; consult the
    /// application handler, keeping the core's report.
    UnhandledByCore(String),
    /// The application handler handled the command; nothing more to do.
    HandledByApp,
    /// Neither handler took the command; the core's original report is
    /// surfaced, single quotes escaped.
    UnhandledByApp(String),
    /// A handler failed on a command it recognized; its message is surfaced,
    /// single quotes escaped.
    Error(String),
}

/// The exact payload that marks a surface as initialized.
pub open spec fn init_message() -> Seq<char> {
    r#"{"cmd":"__initialized"}"#@
}

/// The exact payload that asks to replace the splash content with the main
/// content.
pub open spec fn close_message() -> Seq<char> {
    r#"{"cmd":"closeSplashscreen"}"#@
}

/// The script that navigates the page to `href`.
pub open spec fn navigation_script(href: Seq<char>) -> Seq<char> {
    "window.location.href = \""@ + href + "\""@
}

/// The diagnostic script logged into the page for a failed dispatch: the
/// original command text (single quotes escaped) and the error text.
pub open spec fn api_error_script(arg: Seq<char>, err: Seq<char>) -> Seq<char> {
    "console.error('failed to match a command for "@ + escape_quotes(arg) + ", "@ + err + "')"@
}

/// Builds the script that navigates the page to `href`.
pub fn make_navigation_script(href: &str) -> (r: String)
    ensures
        r@ == navigation_script(href@),
{
    let mut r = String::from_str("window.location.href = \"");
    r.append(href);
    r.append("\"");
    r
}

/// Formats a dispatch failure to log to the page's error console.
pub fn get_api_error_message(arg: &str, handler_error_message: String) -> (r: String)
    ensures
        r@ == api_error_script(arg@, handler_error_message@),
{
    let mut r = String::from_str("console.error('failed to match a command for ");
    let escaped = escape_single_quotes(arg);
    r.append(escaped.as_str());
    r.append(", ");
    r.append(handler_error_message.as_str());
    r.append("')");
    r
}

/// The message handler installed on the window: the splash screen state and
/// the main content's address, alive for the whole session.
pub struct Dispatcher {
    pub has_splashscreen: bool,
    pub state: SplashState,
    pub main_href: String,
}

impl Dispatcher {
    /// Without a configured splash screen the dispatcher never leaves the
    /// main state.
    pub open spec fn wf(&self) -> bool {
        !self.has_splashscreen ==> self.state is ShowingMain
    }

    /// A fresh dispatcher: awaiting the first readiness message when a splash
    /// screen is configured, otherwise already on the main content.
    pub fn new(has_splashscreen: bool, main_href: String) -> (d: Dispatcher)
        ensures
            d.wf(),
            d.has_splashscreen == has_splashscreen,
            d.main_href == main_href,
            has_splashscreen ==> d.state is AwaitingInit,
            !has_splashscreen ==> d.state is ShowingMain,
    {
        Dispatcher {
            has_splashscreen,
            state: if has_splashscreen {
                SplashState::AwaitingInit
            } else {
                SplashState::ShowingMain
            },
            main_href,
        }
    }

    /// Handles one inbound message: the first readiness message with a splash
    /// screen configured marks the splash surface ready, every later one (or
    /// any at all without a splash screen) marks the main window ready; the
    /// close message navigates the page to the main content; everything else
    /// goes to the fallback chain untouched.
    pub fn handle(&mut self, arg: &str) -> (action: DispatchAction)
        requires
            old(self).wf(),
        ensures
            final(self).wf(),
            final(self).has_splashscreen == old(self).has_splashscreen,
            final(self).main_href == old(self).main_href,
            arg@ == init_message() && old(self).state is AwaitingInit ==> ({
                &&& final(self).state is ShowingSplash
                &&& action matches DispatchAction::NotifySetup(s) && s@ == "splashscreen"@
            }),
            arg@ == init_message() && !(old(self).state is AwaitingInit) ==> ({
                &&& final(self).state == old(self).state
                &&& action matches DispatchAction::NotifySetup(s) && s@ == "window-1"@
            }),
            arg@ == close_message() ==> ({
                &&& final(self).state is ShowingMain
                &&& action matches DispatchAction::Evaluate(script) && script@ == navigation_script(
                    old(self).main_href@,
                )
            }),
            arg@ != init_message() && arg@ != close_message() ==> ({
                &&& final(self).state == old(self).state
                &&& action is ForwardToHandlers
            }),
    {
        proof {
            reveal_strlit(r#"{"cmd":"__initialized"}"#);
            reveal_strlit(r#"{"cmd":"closeSplashscreen"}"#);
            assert(init_message().len() != close_message().len());
        }
        if str_eq(arg, r#"{"cmd":"__initialized"}"#) {
            match self.state {
                SplashState::AwaitingInit => {
                    self.state = SplashState::ShowingSplash;
                    DispatchAction::NotifySetup(String::from_str("splashscreen"))
                },
                SplashState::ShowingSplash => DispatchAction::NotifySetup(
                    String::from_str("window-1"),
                ),
                SplashState::ShowingMain => DispatchAction::NotifySetup(
                    String::from_str("window-1"),
                ),
            }
        } else if str_eq(arg, r#"{"cmd":"closeSplashscreen"}"#) {
            self.state = SplashState::ShowingMain;
            let script = make_navigation_script(self.main_href.as_str());
            DispatchAction::Evaluate(script)
        } else {
            DispatchAction::ForwardToHandlers
        }
    }
}

/// Where the chain stands after the core handler's answer: a handled command
/// is done, an unrecognized one goes on to the application handler with the
/// core's report, any other failure is terminal and its message is escaped
/// for surfacing.
pub fn core_outcome(core: CoreOutcome) -> (r: DispatchOutcome)
    ensures
        r is Handled <==> core is Handled,
        r is UnhandledByCore <==> core is Unrecognized,
        r is Error <==> core is Failed,
        core matches CoreOutcome::Unrecognized(e) ==> (r matches DispatchOutcome::UnhandledByCore(
            m,
        ) && m@ == e@),
        core matches CoreOutcome::Failed(e) ==> (r matches DispatchOutcome::Error(m) && m@
            == escape_quotes(e@)),
{
    match core {
        CoreOutcome::Handled => DispatchOutcome::Handled,
        CoreOutcome::Unrecognized(e) => DispatchOutcome::UnhandledByCore(e),
        CoreOutcome::Failed(e) => DispatchOutcome::Error(escape_single_quotes(e.as_str())),
    }
}

/// Where the chain stands after the application handler's answer to a command
/// the core did not recognize: handled means no error, not-handled surfaces
/// the core's original report, a failure surfaces the application's message;
/// either way the surfaced text has its single quotes escaped, so the
/// injected diagnostic script stays well-formed.
pub fn app_outcome(core_error: String, app: AppOutcome) -> (r: DispatchOutcome)
    ensures
        r is HandledByApp <==> app is Handled,
        r is UnhandledByApp <==> app is NotHandled,
        r is Error <==> app is Failed,
        app is NotHandled ==> (r matches DispatchOutcome::UnhandledByApp(m) && m@ == escape_quotes(
            core_error@,
        )),
        app matches AppOutcome::Failed(e) ==> (r matches DispatchOutcome::Error(m) && m@
            == escape_quotes(e@)),
{
    match app {
        AppOutcome::Handled => DispatchOutcome::HandledByApp,
        AppOutcome::NotHandled => DispatchOutcome::UnhandledByApp(
            escape_single_quotes(core_error.as_str()),
        ),
        AppOutcome::Failed(e) => DispatchOutcome::Error(escape_single_quotes(e.as_str())),
    }
}

/// The error text a finished chain surfaces into the page, if any. A handled
/// command surfaces nothing; an unfinished chain (`UnhandledByCore`) has no
/// surfaced error yet and is not accepted here.
pub fn surfaced_error(outcome: DispatchOutcome) -> (r: Option<String>)
    requires
        !(outcome is UnhandledByCore),
    ensures
        (outcome is Handled || outcome is HandledByApp) <==> r is None,
        outcome matches DispatchOutcome::UnhandledByApp(e) ==> (r matches Some(m) && m@ == e@),
        outcome matches DispatchOutcome::Error(e) ==> (r matches Some(m) && m@ == e@),
{
    match outcome {
        DispatchOutcome::Handled => None,
        DispatchOutcome::HandledByApp => None,
        DispatchOutcome::UnhandledByApp(e) => Some(e),
        DispatchOutcome::Error(e) => Some(e),
        DispatchOutcome::UnhandledByCore(e) => {
            proof {
                assert(false);
            }
            Some(e)
        },
    }
}

/// The whole fallback chain as one relation: what one message's handler
/// answers surface into the page, single quotes escaped. The application
/// handler's answer counts only when the core handler did not recognize the
/// command.
pub open spec fn spec_chain_surfaced(core: CoreOutcome, app: AppOutcome) -> Option<Seq<char>> {
    match core {
        CoreOutcome::Handled => None,
        CoreOutcome::Failed(e) => Some(escape_quotes(e@)),
        CoreOutcome::Unrecognized(e) => match app {
            AppOutcome::Handled => None,
            AppOutcome::NotHandled => Some(escape_quotes(e@)),
            AppOutcome::Failed(ae) => Some(escape_quotes(ae@)),
        },
    }
}

/// A command handled by either the core or the application handler surfaces
/// no diagnostic.
pub proof fn lemma_handled_no_diagnostic(core: CoreOutcome, app: AppOutcome)
    ensures
        core is Handled ==> spec_chain_surfaced(core, app) is None,
        core is Unrecognized && app is Handled ==> spec_chain_surfaced(core, app) is None,
{
}

/// A command the core handler recognized — whether it handled it or failed on
/// it — never reaches the application handler: what is surfaced does not
/// depend on the application handler's answer.
pub proof fn lemma_core_precedence(core: CoreOutcome, app1: AppOutcome, app2: AppOutcome)
    ensures
        !(core is Unrecognized) ==> spec_chain_surfaced(core, app1) == spec_chain_surfaced(
            core,
            app2,
        ),
{
}

/// An unrecognized command that the application leaves unhandled surfaces the
/// core handler's report (escaped), and the injected diagnostic script
/// carries both the escaped command text and that escaped report.
pub proof fn lemma_unrecognized_unhandled_diagnostic(
    arg: Seq<char>,
    core_error: String,
    app: AppOutcome,
)
    requires
        app is NotHandled,
    ensures
        spec_chain_surfaced(CoreOutcome::Unrecognized(core_error), app) == Some(
            escape_quotes(core_error@),
        ),
        has_substring(
            api_error_script(arg, escape_quotes(core_error@)),
            escape_quotes(arg),
        ),
        has_substring(
            api_error_script(arg, escape_quotes(core_error@)),
            escape_quotes(core_error@),
        ),
{
    let l1 = "console.error('failed to match a command for "@;
    let esc = escape_quotes(arg);
    let comma = ", "@;
    let err = escape_quotes(core_error@);
    let script = api_error_script(arg, err);
    let off_esc = l1.len() as int;
    assert(script.subrange(off_esc, off_esc + esc.len() as int) =~= esc);
    assert(has_substring(script, esc));
    let off_err = l1.len() as int + esc.len() as int + comma.len() as int;
    assert(script.subrange(off_err, off_err + err.len() as int) =~= err);
    assert(has_substring(script, err));
}

} // verus!
