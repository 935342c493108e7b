//! Registration with the process-wide logging facade.

use crate::level::Level;
use crate::logger::{Logger, LoggerView};
use vstd::prelude::*;

verus! {

/// The error of a registration that finds a logger already installed.
#[derive(Debug, Clone, Copy, PartialEq, Eq, Structural)]
pub struct AlreadyInitialized;

/// The process-wide logging facade, as a value that the host owns: one slot
/// for the active logger, set at most once, and the global filtering
/// threshold, which is that logger's.
#[derive(Debug)]
pub struct Facade {
    logger: Option<Logger>,
    max_level: Option<Level>,
}

/// What a [`Facade`] is, as plain values. Without a threshold every event is
/// filtered out.
pub struct FacadeView {
    pub logger: Option<LoggerView>,
    pub max_level: Option<Level>,
}

impl FacadeView {
    /// The facade before any registration.
    pub open spec fn empty() -> FacadeView {
        FacadeView { logger: None, max_level: None }
    }

    /// The facade after a registration was attempted: a free slot takes the
    /// new logger and the threshold follows it, an occupied one keeps
    /// everything as it is.
    pub open spec fn install(self, log_file: Seq<char>, level: Level) -> FacadeView {
        if self.logger is Some {
            self
        } else {
            FacadeView { logger: Some(LoggerView { log_file, level }), max_level: Some(level) }
        }
    }

    /// The threshold is the installed logger's, and there is none before a
    /// logger is installed.
    pub open spec fn wf(self) -> bool {
        self.max_level == match self.logger {
            Some(logger) => Some(logger.level),
            None => None,
        }
    }
}

impl View for Facade {
    type V = FacadeView;

    closed spec fn view(&self) -> FacadeView {
        FacadeView {
            logger: match self.logger {
                Some(logger) => Some(logger@),
                None => None,
            },
            max_level: self.max_level,
        }
    }
}

impl Facade {
    #[verifier::type_invariant]
    spec fn inv(self) -> bool {
        self@.wf()
    }

    /// A facade with no logger installed.
    pub fn new() -> (facade: Facade)
        ensures
            facade@ == FacadeView::empty(),
    {
        Facade { logger: None, max_level: None }
    }

    /// The installed logger, if there is one.
    pub fn logger(&self) -> (logger: Option<&Logger>)
        ensures
            match logger {
                Some(l) => self@.logger == Some(l@),
                None => self@.logger is None,
            },
    {
        self.logger.as_ref()
    }

    /// The global filtering threshold, which is the installed logger's.
    pub fn max_level(&self) -> (level: Option<Level>)
        ensures
            level == self@.max_level,
            self@.wf(),
    {
        proof {
            use_type_invariant(self);
        }
        self.max_level
    }
}

/// Installs a logger for `log_file` with threshold `level` as the active
/// logger and sets the global threshold to `level`. Fails, and changes
/// nothing, if a logger is installed already.
pub fn init_with_level(facade: &mut Facade, log_file: &str, level: Level) -> (outcome: Result<
    (),
    AlreadyInitialized,
>)
    ensures
        outcome is Err <==> old(facade)@.logger is Some,
        final(facade)@ == old(facade)@.install(log_file@, level),
{
    if facade.logger.is_some() {
        Err(AlreadyInitialized)
    } else {
        *facade = Facade { logger: Some(Logger::new(log_file, level)), max_level: Some(level) };
        Ok(())
    }
}

/// As [`init_with_level`] with the most verbose threshold: every event is
/// recorded.
pub fn init(facade: &mut Facade, log_file: &str) -> (outcome: Result<(), AlreadyInitialized>)
    ensures
        outcome is Err <==> old(facade)@.logger is Some,
        final(facade)@ == old(facade)@.install(log_file@, Level::Trace),
{
    init_with_level(facade, log_file, Level::Trace)
}

/// Single registration: whatever the facade held, after one registration a
/// second one finds the slot taken and leaves the facade as the first left it;
/// on a fresh facade the first logger stays the active one.
pub proof fn lemma_second_registration_fails(
    facade: FacadeView,
    first_file: Seq<char>,
    first_level: Level,
    second_file: Seq<char>,
    second_level: Level,
)
    ensures
        facade.install(first_file, first_level).logger is Some,
        facade.install(first_file, first_level).install(second_file, second_level)
            == facade.install(first_file, first_level),
        facade.logger is None ==> facade.install(first_file, first_level).logger == Some(
            LoggerView { log_file: first_file, level: first_level },
        ),
{
}

} // verus!
