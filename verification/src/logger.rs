//! The logger instance: what it accepts, what it emits, and how the
//! instance behind a slot is replaced.

use crate::clock::{is_stamp, lemma_stamp_is_one_line, stamp_now};
use crate::level::LogLevel;
use crate::line::{
    compose_line, compose_record, console_line, file_record, is_complete, is_last_line,
    is_whole_line, lemma_append_whole_line, lemma_line_is_one_line,
};
use crate::settings::{Settings, SettingsView, Timestamp};
use vstd::prelude::*;

verus! {

/// How the destination of a logger is written: by calls that block the
/// thread, or by calls that suspend the task.
#[derive(Clone, Copy, Debug, PartialEq, Eq, PartialOrd, Ord, Hash, Structural)]
pub enum Mode {
    /// Blocking locks and blocking writes.
    Sync,
    /// Cooperative locks and cooperative writes.
    Async,
}

/// What one accepted log call asks the caller to write.
#[derive(Debug)]
pub struct Emission {
    /// The line for the console, without a line break.
    pub console: String,
    /// The record for the destination file, line break included; `None`
    /// where the logger has no destination.
    pub file: Option<String>,
}

/// The mathematical content of an [`Emission`].
pub ghost struct EmissionView {
    pub console: Seq<char>,
    pub file: Option<Seq<char>>,
}

impl View for Emission {
    type V = EmissionView;

    open spec fn view(&self) -> EmissionView {
        EmissionView {
            console: self.console@,
            file: match self.file {
                Some(record) => Some(record@),
                None => None,
            },
        }
    }
}

/// Why no logger was made, and a slot kept its previous instance.
#[derive(Clone, Copy, Debug, PartialEq, Eq, Hash, Structural)]
pub enum InitError {
    /// The settings name a destination and no open handle on it was given.
    OpenFailed,
    /// The slot belongs to the other mode.
    WrongMode,
}

/// A logger: a minimum level, a timestamp format and, optionally, the open
/// handle `H` of the file that accepted entries are appended to. The logger
/// owns the handle from the moment it is made until it is dropped, and never
/// exchanges it.
#[derive(Debug)]
pub struct Pinelog<H> {
    min_level: LogLevel,
    file: Option<H>,
    timestamp: Option<Timestamp>,
    mode: Mode,
}

/// The mathematical content of a [`Pinelog`].
pub ghost struct PinelogView<H> {
    pub min_level: LogLevel,
    pub file: Option<H>,
    pub timestamp: Option<Timestamp>,
    pub mode: Mode,
}

impl<H> PinelogView<H> {
    /// What a call at `level` emits, given the timestamp and the console tag
    /// that were rendered for it: nothing below the minimum level, else the
    /// console line and, where a destination is held, the file record with
    /// the plain tag.
    pub open spec fn emission(
        self,
        level: LogLevel,
        stamp: Seq<char>,
        tag: Seq<char>,
        message: Seq<char>,
    ) -> Option<EmissionView> {
        if level.rank() < self.min_level.rank() {
            None
        } else {
            Some(
                EmissionView {
                    console: console_line(stamp, tag, message),
                    file: if self.file is Some {
                        Some(file_record(stamp, level.plain_tag(), message))
                    } else {
                        None
                    },
                },
            )
        }
    }

    /// Whether `out` is an outcome of logging `message` at `level`: nothing
    /// below the minimum level, else the emission for some timestamp of the
    /// configured format and some console rendering of the level.
    pub open spec fn logged(
        self,
        level: LogLevel,
        message: Seq<char>,
        out: Option<EmissionView>,
    ) -> bool {
        match out {
            None => level.rank() < self.min_level.rank(),
            Some(e) => exists|stamp: Seq<char>, tag: Seq<char>|
                {
                    &&& is_stamp(self.timestamp, stamp)
                    &&& level.is_rendering(tag)
                    &&& #[trigger] self.emission(level, stamp, tag, message) == Some(e)
                },
        }
    }

    /// The instance before any initialization: it accepts every level, holds
    /// no destination and writes no timestamp.
    pub open spec fn idle(mode: Mode) -> PinelogView<H> {
        PinelogView { min_level: LogLevel::INFO, file: None, timestamp: None, mode }
    }

    /// Whether an instance can be made from `settings`, given the handle
    /// that the caller could open: a destination that is named must be open.
    pub open spec fn installable(settings: SettingsView, opened: Option<H>) -> bool {
        settings.file_path is Some ==> opened is Some
    }

    /// The instance made from `settings`. It holds the handle exactly when
    /// the settings name a destination.
    pub open spec fn configured(settings: SettingsView, opened: Option<H>, mode: Mode) -> PinelogView<
        H,
    > {
        PinelogView {
            min_level: settings.min_level,
            file: if settings.file_path is Some {
                opened
            } else {
                None
            },
            timestamp: settings.timestamp,
            mode,
        }
    }

    /// Why a slot that holds `self` refuses an initialization in `mode`, if
    /// it does: a slot serves one mode for good, and a destination that is
    /// named must be open.
    pub open spec fn refusal(self, settings: SettingsView, opened: Option<H>, mode: Mode) -> Option<
        InitError,
    > {
        if self.mode != mode {
            Some(InitError::WrongMode)
        } else if !Self::installable(settings, opened) {
            Some(InitError::OpenFailed)
        } else {
            None
        }
    }

    /// The slot after an initialization: the configured instance, or the
    /// instance that was there where the initialization is refused.
    pub open spec fn initialized(
        self,
        settings: SettingsView,
        opened: Option<H>,
        mode: Mode,
    ) -> PinelogView<H> {
        if self.refusal(settings, opened, mode) is None {
            Self::configured(settings, opened, mode)
        } else {
            self
        }
    }
}

impl<H> View for Pinelog<H> {
    type V = PinelogView<H>;

    closed spec fn view(&self) -> PinelogView<H> {
        PinelogView {
            min_level: self.min_level,
            file: self.file,
            timestamp: self.timestamp,
            mode: self.mode,
        }
    }
}

impl<H> Pinelog<H> {
    /// Creates a logger that drops entries below `min_level`, appends to
    /// `file` where one is given, and opens each line with `timestamp`.
    pub fn new(min_level: LogLevel, file: Option<H>, timestamp: Option<Timestamp>, mode: Mode) -> (r:
        Self)
        ensures
            r@ == (PinelogView { min_level, file, timestamp, mode }),
    {
        Pinelog { min_level, file, timestamp, mode }
    }

    /// The logger that fills a slot before it is initialized.
    pub fn idle(mode: Mode) -> (r: Self)
        ensures
            r@ == PinelogView::<H>::idle(mode),
    {
        Pinelog { min_level: LogLevel::INFO, file: None, timestamp: None, mode }
    }

    /// The minimum level.
    pub fn min_level(&self) -> (r: LogLevel)
        ensures
            r == self@.min_level,
    {
        self.min_level
    }

    /// The timestamp format, if any.
    pub fn timestamp(&self) -> (r: Option<Timestamp>)
        ensures
            r == self@.timestamp,
    {
        self.timestamp
    }

    /// The mode of the logger.
    pub fn mode(&self) -> (r: Mode)
        ensures
            r == self@.mode,
    {
        self.mode
    }

    /// Whether the logger holds a destination.
    pub fn has_file(&self) -> (r: bool)
        ensures
            r == self@.file is Some,
    {
        self.file.is_some()
    }

    /// The destination, for the caller to append a record to. Nothing else
    /// of the logger changes while the caller holds it.
    pub fn file_mut(&mut self) -> (r: Option<&mut H>)
        ensures
            match r {
                Some(handle) => old(self)@.file == Some(*handle) && final(self)@.file == Some(
                    *final(handle),
                ),
                None => old(self)@.file is None && final(self)@.file is None,
            },
            final(self)@.min_level == old(self)@.min_level,
            final(self)@.timestamp == old(self)@.timestamp,
            final(self)@.mode == old(self)@.mode,
    {
        self.file.as_mut()
    }

    /// Ends the logger and hands its destination out, to be closed.
    pub fn into_file(self) -> (r: Option<H>)
        ensures
            r == self@.file,
    {
        self.file
    }

    /// Decides what a call at `level` emits, from the timestamp `stamp` and
    /// the console tag `tag` that were rendered for it.
    pub fn emit(&self, level: LogLevel, stamp: &str, tag: &str, message: &str) -> (r: Option<
        Emission,
    >)
        ensures
            view_of(r) == self@.emission(level, stamp@, tag@, message@),
    {
        if !level.passes(&self.min_level) {
            return None;
        }
        let console = compose_line(stamp, tag, message);
        let file = if self.file.is_some() {
            Some(compose_record(stamp, level.as_str(), message))
        } else {
            None
        };
        Some(Emission { console, file })
    }

    /// Logs `message` at `level`: reads the clock, renders the level for the
    /// console and decides what is emitted. Below the minimum level the call
    /// does neither and returns `None`.
    pub fn log(&self, level: LogLevel, message: &str) -> (r: Option<Emission>)
        ensures
            self@.logged(level, message@, view_of(r)),
    {
        if !level.passes(&self.min_level) {
            return None;
        }
        let stamp = stamp_now(self.timestamp);
        let tag = level.to_colored_string();
        self.emit(level, stamp.as_str(), tag.as_str(), message)
    }

    /// Logs an informational message.
    pub fn info(&self, message: &str) -> (r: Option<Emission>)
        ensures
            self@.logged(LogLevel::INFO, message@, view_of(r)),
    {
        self.log(LogLevel::INFO, message)
    }

    /// Logs a warning message.
    pub fn warn(&self, message: &str) -> (r: Option<Emission>)
        ensures
            self@.logged(LogLevel::WARN, message@, view_of(r)),
    {
        self.log(LogLevel::WARN, message)
    }

    /// Logs an error message, which every logger accepts.
    pub fn error(&self, message: &str) -> (r: Option<Emission>)
        ensures
            r is Some,
            self@.logged(LogLevel::ERROR, message@, view_of(r)),
    {
        self.log(LogLevel::ERROR, message)
    }

    /// Makes a logger from `settings`. `opened` is the handle on the
    /// destination that the settings name, if the caller could open it.
    /// Without a destination in the settings the logger holds none, and a
    /// handle given all the same is dropped. With a destination and no
    /// handle there is no logger.
    pub fn initialize(settings: &Settings, opened: Option<H>, mode: Mode) -> (r: Result<
        Pinelog<H>,
        InitError,
    >)
        ensures
            match r {
                Ok(logger) => PinelogView::<H>::installable(settings@, opened) && logger@
                    == PinelogView::configured(settings@, opened, mode),
                Err(e) => !PinelogView::<H>::installable(settings@, opened) && e
                    == InitError::OpenFailed,
            },
    {
        let file = match &settings.file_path {
            Some(_) => {
                if opened.is_none() {
                    return Err(InitError::OpenFailed);
                }
                opened
            },
            None => None,
        };
        Ok(Pinelog::new(settings.min_level, file, settings.timestamp, mode))
    }

    /// Replaces the instance behind a slot of `mode` by one made from
    /// `settings`, and hands the previous one out. Where the slot is of the
    /// other mode, or no logger can be made, the slot keeps its instance.
    fn install(&mut self, settings: &Settings, opened: Option<H>, mode: Mode) -> (r: Result<
        Pinelog<H>,
        InitError,
    >)
        ensures
            final(self)@ == old(self)@.initialized(settings@, opened, mode),
            match r {
                Ok(replaced) => old(self)@.refusal(settings@, opened, mode) is None && replaced@
                    == old(self)@,
                Err(e) => old(self)@.refusal(settings@, opened, mode) == Some(e),
            },
    {
        if self.mode != mode {
            return Err(InitError::WrongMode);
        }
        match Pinelog::initialize(settings, opened, mode) {
            Ok(mut instance) => {
                core::mem::swap(self, &mut instance);
                Ok(instance)
            },
            Err(e) => Err(e),
        }
    }

    /// Initializes the slot of the blocking logger from `settings`. `opened`
    /// is the handle on the destination that the settings name, if the
    /// caller could open it. On success the slot holds the new instance
    /// alone, and the previous one is handed out, with its destination, to
    /// be dropped. The slot keeps its instance where it is the slot of the
    /// cooperative logger, and where a destination is named and no handle on
    /// it came.
    pub fn init_sync(&mut self, settings: &Settings, opened: Option<H>) -> (r: Result<
        Pinelog<H>,
        InitError,
    >)
        ensures
            final(self)@ == old(self)@.initialized(settings@, opened, Mode::Sync),
            match r {
                Ok(replaced) => old(self)@.refusal(settings@, opened, Mode::Sync) is None
                    && replaced@ == old(self)@,
                Err(e) => old(self)@.refusal(settings@, opened, Mode::Sync) == Some(e),
            },
    {
        self.install(settings, opened, Mode::Sync)
    }

    /// Initializes the slot of the cooperative logger from `settings`; see
    /// [`Pinelog::init_sync`].
    pub fn init_async(&mut self, settings: &Settings, opened: Option<H>) -> (r: Result<
        Pinelog<H>,
        InitError,
    >)
        ensures
            final(self)@ == old(self)@.initialized(settings@, opened, Mode::Async),
            match r {
                Ok(replaced) => old(self)@.refusal(settings@, opened, Mode::Async) is None
                    && replaced@ == old(self)@,
                Err(e) => old(self)@.refusal(settings@, opened, Mode::Async) == Some(e),
            },
    {
        self.install(settings, opened, Mode::Async)
    }
}

/// An optional emission, taken by its view.
pub open spec fn view_of(emission: Option<Emission>) -> Option<EmissionView> {
    match emission {
        Some(e) => Some(e@),
        None => None,
    }
}

/// A logger initialized with a minimum level emits nothing for a call below
/// that level, and emits for every call at that level or above it; the
/// emission carries a file record exactly when the settings name a
/// destination.
pub proof fn law_minimum_level_filters<H>(
    slot: PinelogView<H>,
    settings: SettingsView,
    opened: Option<H>,
    mode: Mode,
    below: LogLevel,
    level: LogLevel,
    message: Seq<char>,
    out: Option<EmissionView>,
)
    requires
        slot.refusal(settings, opened, mode) is None,
        below.rank() < settings.min_level.rank(),
        level.rank() >= settings.min_level.rank(),
    ensures
        slot.initialized(settings, opened, mode).logged(below, message, out) ==> out is None,
        slot.initialized(settings, opened, mode).logged(level, message, out) ==> (out matches Some(
            e,
        ) && (e.file is Some <==> settings.file_path is Some)),
{
}

/// Initializing a slot a second time leaves the second instance alone
/// behind it, as if the first initialization had never been. The first
/// instance, with its destination, is the one that the slot held before the
/// second call, which that call hands out.
pub proof fn law_reinitialization_replaces<H>(
    slot: PinelogView<H>,
    first: SettingsView,
    first_opened: Option<H>,
    second: SettingsView,
    second_opened: Option<H>,
    mode: Mode,
)
    requires
        slot.refusal(first, first_opened, mode) is None,
        PinelogView::<H>::installable(second, second_opened),
    ensures
        slot.initialized(first, first_opened, mode) == PinelogView::configured(
            first,
            first_opened,
            mode,
        ),
        slot.initialized(first, first_opened, mode).refusal(second, second_opened, mode) is None,
        slot.initialized(first, first_opened, mode).initialized(second, second_opened, mode)
            == PinelogView::configured(second, second_opened, mode),
        slot.initialized(first, first_opened, mode).initialized(second, second_opened, mode)
            == slot.initialized(second, second_opened, mode),
{
}

/// An initialization that is refused changes nothing: the slot keeps the
/// instance it held, destination included.
pub proof fn law_refused_initialization_keeps_instance<H>(
    slot: PinelogView<H>,
    settings: SettingsView,
    opened: Option<H>,
    mode: Mode,
)
    requires
        slot.refusal(settings, opened, mode) is Some,
    ensures
        slot.initialized(settings, opened, mode) == slot,
{
}

/// A slot serves one mode for good: whatever the initialization, in either
/// mode, the instance behind the slot is of the mode the slot had.
pub proof fn law_slot_keeps_its_mode<H>(
    slot: PinelogView<H>,
    settings: SettingsView,
    opened: Option<H>,
    mode: Mode,
)
    ensures
        slot.initialized(settings, opened, mode).mode == slot.mode,
{
}

/// A message without a line break that is logged by a logger with a
/// destination comes back as a record which, appended to a file of complete
/// lines, is that file's last line: the timestamp, the plain level tag in
/// square brackets and the message, verbatim. The record is one whole line.
pub proof fn law_logged_record_is_last_line<H>(
    logger: PinelogView<H>,
    level: LogLevel,
    message: Seq<char>,
    out: EmissionView,
    before: Seq<char>,
)
    requires
        logger.file is Some,
        logger.logged(level, message, Some(out)),
        !message.contains('\n'),
        is_complete(before),
    ensures
        out.file is Some,
        is_whole_line(out.file->0),
        is_complete(before + out.file->0),
        exists|stamp: Seq<char>|
            {
                &&& is_stamp(logger.timestamp, stamp)
                &&& #[trigger] is_last_line(
                    before + out.file->0,
                    console_line(stamp, level.plain_tag(), message),
                )
            },
{
    let (stamp, tag) = choose|stamp: Seq<char>, tag: Seq<char>|
        {
            &&& is_stamp(logger.timestamp, stamp)
            &&& level.is_rendering(tag)
            &&& #[trigger] logger.emission(level, stamp, tag, message) == Some(out)
        };
    let line = console_line(stamp, level.plain_tag(), message);
    lemma_stamp_is_one_line(logger.timestamp, stamp);
    level.lemma_plain_tag_is_one_line();
    lemma_line_is_one_line(stamp, level.plain_tag(), message);
    lemma_append_whole_line(before, line);
    assert(out.file->0 == line.push('\n'));
    assert(is_last_line(before + out.file->0, line));
}

} // verus!
