//! Setting up the application, step by step: which steps there are, which failures
//! end the setup, and what is said of them.

use crate::text::joined_by_colon;
use vstd::prelude::*;
use vstd::string::*;

verus! {

/// A call of the setup whose failure ends it.
#[derive(Clone, Copy, Debug, PartialEq, Eq, Structural)]
pub enum SetupCall {
    MakeInteractive,
    ReadUrl,
    EnableAutostart,
    CreateQuitItem,
    CreateMenu,
    BuildTray,
}

/// Why the setup failed.
#[derive(Debug)]
pub enum SetupError {
    PrimaryMissing,
    CallFailed { call: SetupCall, error: String },
}

/// What is to be done next.
#[derive(Debug)]
pub enum SetupStage {
    /// Look for the primary window.
    FindPrimary,
    /// Let the primary window take clicks.
    MakeInteractive,
    /// Read the URL that the primary window is configured with.
    ReadUrl,
    /// Start the refresh coordinator.
    StartCoordinator,
    /// Register the shortcut that toggles glance mode.
    RegisterShortcut,
    /// Have the application started at login.
    EnableAutostart,
    /// Create the menu entry that quits.
    CreateQuitItem,
    /// Create the menu of the tray icon.
    CreateMenu,
    /// Look for a default icon and give it to the tray.
    FindIcon,
    /// Put the icon into the tray.
    BuildTray,
    /// The setup is over.
    Ended { result: Result<(), SetupError> },
}

/// The answer to a step of the setup.
#[derive(Debug)]
pub enum SetupReply {
    Done,
    Missing,
    Failed { error: String },
}

/// What is said of a failure during setup: what failed and why.
pub fn setup_error(message: &str, error: &str) -> (text: String)
    ensures
        text@ == message@ + ": "@ + error@,
{
    joined_by_colon(message, error)
}

impl SetupCall {
    /// What is said of a failure of this call, before the cause.
    pub open spec fn complaint_text(self) -> Seq<char> {
        match self {
            SetupCall::MakeInteractive => "couldn't initialize interactive mode"@,
            SetupCall::ReadUrl => "couldn't read configured calendar URL"@,
            SetupCall::EnableAutostart => "couldn't enable release autostart"@,
            SetupCall::CreateQuitItem => "couldn't create tray Quit item"@,
            SetupCall::CreateMenu => "couldn't create tray menu"@,
            SetupCall::BuildTray => "couldn't create tray icon"@,
        }
    }

    /// Returns what is said of a failure of this call, before the cause.
    pub fn complaint(self) -> (text: &'static str)
        ensures
            text@ == self.complaint_text(),
    {
        match self {
            SetupCall::MakeInteractive => "couldn't initialize interactive mode",
            SetupCall::ReadUrl => "couldn't read configured calendar URL",
            SetupCall::EnableAutostart => "couldn't enable release autostart",
            SetupCall::CreateQuitItem => "couldn't create tray Quit item",
            SetupCall::CreateMenu => "couldn't create tray menu",
            SetupCall::BuildTray => "couldn't create tray icon",
        }
    }
}

impl SetupError {
    /// What is reported of this failure.
    pub open spec fn message_text(self) -> Seq<char> {
        match self {
            SetupError::PrimaryMissing => "primary calendar window is missing"@,
            SetupError::CallFailed { call, error } => call.complaint_text() + ": "@ + error@,
        }
    }

    /// Returns what is reported of this failure.
    pub fn message(&self) -> (message: String)
        ensures
            message@ == self.message_text(),
    {
        match self {
            SetupError::PrimaryMissing => "primary calendar window is missing".to_owned(),
            SetupError::CallFailed { call, error } => setup_error(call.complaint(), error.as_str()),
        }
    }

    /// Tells whether something was not found, as opposed to a call that failed.
    pub fn is_not_found(&self) -> (not_found: bool)
        ensures
            not_found == (self is PrimaryMissing),
    {
        matches!(self, SetupError::PrimaryMissing)
    }
}

impl SetupReply {
    /// Whether this is an answer that the step can have.
    pub open spec fn answers(self, stage: SetupStage) -> bool {
        match stage {
            SetupStage::FindPrimary | SetupStage::FindIcon => self is Done || self is Missing,
            SetupStage::StartCoordinator => self is Done,
            SetupStage::Ended { .. } => false,
            _ => self is Done || self is Failed,
        }
    }

    /// Tells whether this is an answer that the step can have.
    pub fn fits(&self, stage: &SetupStage) -> (fits: bool)
        ensures
            fits == self.answers(*stage),
    {
        match stage {
            SetupStage::FindPrimary | SetupStage::FindIcon => {
                matches!(self, SetupReply::Done | SetupReply::Missing)
            },
            SetupStage::StartCoordinator => matches!(self, SetupReply::Done),
            SetupStage::Ended { .. } => false,
            _ => matches!(self, SetupReply::Done | SetupReply::Failed { .. }),
        }
    }
}

impl SetupStage {
    /// The call of this step whose failure ends the setup.
    pub open spec fn call(self) -> Option<SetupCall> {
        match self {
            SetupStage::MakeInteractive => Some(SetupCall::MakeInteractive),
            SetupStage::ReadUrl => Some(SetupCall::ReadUrl),
            SetupStage::EnableAutostart => Some(SetupCall::EnableAutostart),
            SetupStage::CreateQuitItem => Some(SetupCall::CreateQuitItem),
            SetupStage::CreateMenu => Some(SetupCall::CreateMenu),
            SetupStage::BuildTray => Some(SetupCall::BuildTray),
            _ => None,
        }
    }

    /// The step that follows. Only a release build is started at login.
    pub open spec fn following(self, release: bool) -> SetupStage {
        match self {
            SetupStage::FindPrimary => SetupStage::MakeInteractive,
            SetupStage::MakeInteractive => SetupStage::ReadUrl,
            SetupStage::ReadUrl => SetupStage::StartCoordinator,
            SetupStage::StartCoordinator => SetupStage::RegisterShortcut,
            SetupStage::RegisterShortcut => if release {
                SetupStage::EnableAutostart
            } else {
                SetupStage::CreateQuitItem
            },
            SetupStage::EnableAutostart => SetupStage::CreateQuitItem,
            SetupStage::CreateQuitItem => SetupStage::CreateMenu,
            SetupStage::CreateMenu => SetupStage::FindIcon,
            SetupStage::FindIcon => SetupStage::BuildTray,
            SetupStage::BuildTray => SetupStage::Ended { result: Ok(()) },
            SetupStage::Ended { result } => SetupStage::Ended { result },
        }
    }

    /// The step after an answer: the setup ends where the primary window is missing
    /// or a call fails that must not, and goes on otherwise.
    pub open spec fn next(self, release: bool, reply: SetupReply) -> SetupStage {
        if self is FindPrimary && reply is Missing {
            SetupStage::Ended { result: Err(SetupError::PrimaryMissing) }
        } else if reply is Failed && self.call() is Some {
            SetupStage::Ended {
                result: Err(
                    SetupError::CallFailed { call: self.call()->0, error: reply->error },
                ),
            }
        } else {
            self.following(release)
        }
    }

    /// What is reported of an answer that does not end the setup.
    pub open spec fn notice_text(self, reply: SetupReply) -> Option<Seq<char>> {
        match (self, reply) {
            (SetupStage::RegisterShortcut, SetupReply::Failed { error }) => Some(
                "couldn't register Ctrl+Alt+C toggle"@ + ": "@ + error@,
            ),
            (SetupStage::FindIcon, SetupReply::Missing) => Some(
                "no default tray icon is configured; continuing without one"@,
            ),
            _ => None,
        }
    }

    /// Returns what is to be reported of an answer that does not end the setup.
    pub fn notice(&self, reply: &SetupReply) -> (notice: Option<String>)
        ensures
            notice is Some == self.notice_text(*reply) is Some,
            notice is Some ==> notice->0@ == self.notice_text(*reply)->0,
    {
        match (self, reply) {
            (SetupStage::RegisterShortcut, SetupReply::Failed { error }) => Some(
                joined_by_colon("couldn't register Ctrl+Alt+C toggle", error.as_str()),
            ),
            (SetupStage::FindIcon, SetupReply::Missing) => Some(
                "no default tray icon is configured; continuing without one".to_owned(),
            ),
            _ => None,
        }
    }

    fn failure(call: SetupCall, error: String) -> (stage: SetupStage)
        ensures
            stage == (SetupStage::Ended { result: Err(SetupError::CallFailed { call, error }) }),
    {
        SetupStage::Ended { result: Err(SetupError::CallFailed { call, error }) }
    }

    /// Takes an answer and moves on.
    pub fn step(self, release: bool, reply: SetupReply) -> (stage: SetupStage)
        requires
            reply.answers(self),
        ensures
            stage == self.next(release, reply),
    {
        match (self, reply) {
            (SetupStage::FindPrimary, SetupReply::Missing) => {
                SetupStage::Ended { result: Err(SetupError::PrimaryMissing) }
            },
            (SetupStage::FindPrimary, _) => SetupStage::MakeInteractive,
            (SetupStage::MakeInteractive, SetupReply::Failed { error }) => {
                Self::failure(SetupCall::MakeInteractive, error)
            },
            (SetupStage::MakeInteractive, _) => SetupStage::ReadUrl,
            (SetupStage::ReadUrl, SetupReply::Failed { error }) => {
                Self::failure(SetupCall::ReadUrl, error)
            },
            (SetupStage::ReadUrl, _) => SetupStage::StartCoordinator,
            (SetupStage::StartCoordinator, _) => SetupStage::RegisterShortcut,
            (SetupStage::RegisterShortcut, _) => {
                if release {
                    SetupStage::EnableAutostart
                } else {
                    SetupStage::CreateQuitItem
                }
            },
            (SetupStage::EnableAutostart, SetupReply::Failed { error }) => {
                Self::failure(SetupCall::EnableAutostart, error)
            },
            (SetupStage::EnableAutostart, _) => SetupStage::CreateQuitItem,
            (SetupStage::CreateQuitItem, SetupReply::Failed { error }) => {
                Self::failure(SetupCall::CreateQuitItem, error)
            },
            (SetupStage::CreateQuitItem, _) => SetupStage::CreateMenu,
            (SetupStage::CreateMenu, SetupReply::Failed { error }) => {
                Self::failure(SetupCall::CreateMenu, error)
            },
            (SetupStage::CreateMenu, _) => SetupStage::FindIcon,
            (SetupStage::FindIcon, _) => SetupStage::BuildTray,
            (SetupStage::BuildTray, SetupReply::Failed { error }) => {
                Self::failure(SetupCall::BuildTray, error)
            },
            (SetupStage::BuildTray, _) => SetupStage::Ended { result: Ok(()) },
            (stage, _) => stage,
        }
    }
}

/// The step that is reached after the given answers.
pub open spec fn setup_after(release: bool, replies: Seq<SetupReply>) -> SetupStage
    decreases replies.len(),
{
    if replies.len() == 0 {
        SetupStage::FindPrimary
    } else {
        setup_after(release, replies.drop_last()).next(release, replies.last())
    }
}

/// A build that is no release never touches the login entry.
pub proof fn law_only_a_release_enables_autostart(replies: Seq<SetupReply>)
    ensures
        !(setup_after(false, replies) is EnableAutostart),
    decreases replies.len(),
{
    if replies.len() > 0 {
        law_only_a_release_enables_autostart(replies.drop_last());
    }
}

/// Whether an answer has had the application started at login.
pub open spec fn enables_autostart(stage: SetupStage, reply: SetupReply) -> bool {
    stage is EnableAutostart && !(reply is Failed)
}

/// A release build has put itself into the login entry by the time it creates its menu,
/// and so by the end of a setup that succeeds.
pub proof fn law_release_enables_autostart(replies: Seq<SetupReply>)
    requires
        match setup_after(true, replies) {
            SetupStage::CreateQuitItem
            | SetupStage::CreateMenu
            | SetupStage::FindIcon
            | SetupStage::BuildTray => true,
            SetupStage::Ended { result } => result is Ok,
            _ => false,
        },
    ensures
        exists|i: int|
            0 <= i < replies.len() && #[trigger] enables_autostart(
                setup_after(true, replies.take(i)),
                replies[i],
            ),
    decreases replies.len(),
{
    if replies.len() > 0 {
        let shorter = replies.drop_last();
        let last = replies.len() - 1;
        assert(replies.take(last) =~= shorter);
        if setup_after(true, shorter) is EnableAutostart {
            assert(enables_autostart(setup_after(true, replies.take(last)), replies[last]));
        } else {
            law_release_enables_autostart(shorter);
            let i = choose|i: int|
                0 <= i < shorter.len() && #[trigger] enables_autostart(
                    setup_after(true, shorter.take(i)),
                    shorter[i],
                );
            assert(shorter.take(i) =~= replies.take(i));
            assert(enables_autostart(setup_after(true, replies.take(i)), replies[i]));
        }
    }
}

/// A shortcut that cannot be registered and an icon that is missing make no
/// difference to the steps of the setup.
pub proof fn law_shortcut_and_icon_are_optional(release: bool, reply: SetupReply)
    ensures
        SetupStage::RegisterShortcut.next(release, reply) == SetupStage::RegisterShortcut.next(
            release,
            SetupReply::Done,
        ),
        SetupStage::FindIcon.next(release, reply) == SetupStage::FindIcon.next(
            release,
            SetupReply::Done,
        ),
{
}

/// Whether an answer ends the setup where it is given.
pub open spec fn is_fatal(stage: SetupStage, reply: SetupReply) -> bool {
    (stage is FindPrimary && reply is Missing) || (reply is Failed && stage.call() is Some)
}

/// The setup has failed exactly when one of the answers was fatal.
pub proof fn law_setup_fails_exactly_on_a_fatal_answer(release: bool, replies: Seq<SetupReply>)
    ensures
        (setup_after(release, replies) matches SetupStage::Ended { result } && result is Err)
            <==> exists|i: int|
            0 <= i < replies.len() && #[trigger] is_fatal(
                setup_after(release, replies.take(i)),
                replies[i],
            ),
    decreases replies.len(),
{
    if replies.len() > 0 {
        let shorter = replies.drop_last();
        let last = replies.len() - 1;
        law_setup_fails_exactly_on_a_fatal_answer(release, shorter);
        assert(replies.take(last) =~= shorter);
        let before = setup_after(release, shorter);
        if before matches SetupStage::Ended { result } && result is Err {
            let i = choose|i: int|
                0 <= i < shorter.len() && #[trigger] is_fatal(
                    setup_after(release, shorter.take(i)),
                    shorter[i],
                );
            assert(shorter.take(i) =~= replies.take(i));
            assert(is_fatal(setup_after(release, replies.take(i)), replies[i]));
        } else {
            assert forall|i: int|
                0 <= i < last implies !#[trigger] is_fatal(
                setup_after(release, replies.take(i)),
                replies[i],
            ) by {
                assert(shorter.take(i) =~= replies.take(i));
                assert(!is_fatal(setup_after(release, shorter.take(i)), shorter[i]));
            }
            if is_fatal(before, replies.last()) {
                assert(is_fatal(setup_after(release, replies.take(last)), replies[last]));
            }
        }
    }
}

/// Setups in which every step is answered with success go through the same steps in the
/// same order, but for the login entry, which only a release makes.
pub proof fn law_setup_steps_come_in_order(release: bool, n: nat)
    ensures
        ({
            let stage = setup_after(release, Seq::new(n, |i: int| SetupReply::Done));
            let later: int = if release {
                n - 1
            } else {
                n as int
            };
            &&& n == 0 ==> stage is FindPrimary
            &&& n == 1 ==> stage is MakeInteractive
            &&& n == 2 ==> stage is ReadUrl
            &&& n == 3 ==> stage is StartCoordinator
            &&& n == 4 ==> stage is RegisterShortcut
            &&& n == 5 && release ==> stage is EnableAutostart
            &&& n >= 5 && later == 5 ==> stage is CreateQuitItem
            &&& n >= 5 && later == 6 ==> stage is CreateMenu
            &&& n >= 5 && later == 7 ==> stage is FindIcon
            &&& n >= 5 && later == 8 ==> stage is BuildTray
            &&& n >= 5 && later >= 9 ==> stage == (SetupStage::Ended { result: Ok(()) })
        }),
    decreases n,
{
    if n > 0 {
        law_setup_steps_come_in_order(release, (n - 1) as nat);
        assert(Seq::new(n, |i: int| SetupReply::Done).drop_last() =~= Seq::new(
            (n - 1) as nat,
            |i: int| SetupReply::Done,
        ));
    }
}

/// In every build, and whatever the cause, each call that must not fail ends the setup
/// with its own failure and that cause; so does a missing primary window.
pub proof fn law_fatal_failures_end_the_setup(release: bool, error: String)
    ensures
        ({
            let failed = SetupReply::Failed { error };
            let ended = |call: SetupCall|
                SetupStage::Ended { result: Err(SetupError::CallFailed { call, error }) };
            &&& SetupStage::FindPrimary.next(release, SetupReply::Missing) == (SetupStage::Ended {
                result: Err(SetupError::PrimaryMissing),
            })
            &&& SetupStage::MakeInteractive.next(release, failed) == ended(
                SetupCall::MakeInteractive,
            )
            &&& SetupStage::ReadUrl.next(release, failed) == ended(SetupCall::ReadUrl)
            &&& SetupStage::EnableAutostart.next(release, failed) == ended(
                SetupCall::EnableAutostart,
            )
            &&& SetupStage::CreateQuitItem.next(release, failed) == ended(SetupCall::CreateQuitItem)
            &&& SetupStage::CreateMenu.next(release, failed) == ended(SetupCall::CreateMenu)
            &&& SetupStage::BuildTray.next(release, failed) == ended(SetupCall::BuildTray)
        }),
{
}

/// Each kind of answer belongs to the steps that can have it, whatever it holds.
pub proof fn law_setup_answers_belong_to_their_steps(reply: SetupReply, stage: SetupStage)
    ensures
        reply is Done ==> (reply.answers(stage) <==> !(stage is Ended)),
        reply is Missing ==> (reply.answers(stage) <==> stage is FindPrimary || stage is FindIcon),
        reply is Failed ==> (reply.answers(stage) <==> stage is MakeInteractive || stage is ReadUrl
            || stage is RegisterShortcut || stage is EnableAutostart || stage is CreateQuitItem
            || stage is CreateMenu || stage is BuildTray),
{
}

/// The report of a failed call ends with the whole cause, and so does the notice of a
/// shortcut that could not be registered; a missing icon is noticed, and nothing else is.
pub proof fn law_setup_reports_hold_the_cause(call: SetupCall, error: String, stage: SetupStage)
    ensures
        ({
            let report = (SetupError::CallFailed { call, error }).message_text();
            let start = (match call {
                SetupCall::MakeInteractive => "couldn't initialize interactive mode"@,
                SetupCall::ReadUrl => "couldn't read configured calendar URL"@,
                SetupCall::EnableAutostart => "couldn't enable release autostart"@,
                SetupCall::CreateQuitItem => "couldn't create tray Quit item"@,
                SetupCall::CreateMenu => "couldn't create tray menu"@,
                SetupCall::BuildTray => "couldn't create tray icon"@,
            });
            report == start + seq![':', ' '] + error@
        }),
        SetupStage::RegisterShortcut.notice_text(SetupReply::Failed { error }) == Some(
            "couldn't register Ctrl+Alt+C toggle"@ + seq![':', ' '] + error@,
        ),
        stage.notice_text(SetupReply::Done) is None,
        stage.notice_text(SetupReply::Missing) is Some <==> stage is FindIcon,
        stage.notice_text(SetupReply::Failed { error }) is Some <==> stage is RegisterShortcut,
{
    reveal_strlit(": ");
    assert(": "@ =~= seq![':', ' ']);
}

} // verus!
