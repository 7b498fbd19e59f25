//! What differs between the two targets the shell is built for: the window it
//! asks for, and the work it does once when its first window exists.

use vstd::prelude::*;

verus! {

/// The target the shell is built for. The caller picks one when it is built
/// and passes the same value to every call.
#[derive(Clone, Copy, Debug, PartialEq, Eq)]
pub enum Platform {
    /// A desktop window of its own.
    Native,
    /// A canvas element of a host document in the browser.
    Web,
}

/// The window to ask the host event loop for.
#[derive(Clone, Copy, Debug, PartialEq, Eq)]
pub enum WindowAttributes {
    /// A new window with this title.
    Titled(&'static str),
    /// A window bound to the canvas element that has this id in the host
    /// document. The element has to exist already.
    Canvas(&'static str),
}

/// One piece of the work done once, after the first window was created.
#[derive(Clone, Copy, Debug, PartialEq, Eq)]
pub enum StartupStep {
    /// Initialize the logging backend of a native build.
    InitLogger,
    /// Run the startup task to completion before going on.
    BlockOnStartupTask,
    /// Report panics on the browser console.
    InstallPanicHook,
    /// Initialize the logger that writes to the browser console.
    InitConsoleLogger,
    /// Log the size that was probed from the canvas.
    LogCanvasSize { width: u32, height: u32 },
    /// Hand the startup task to the host's scheduler without waiting for it.
    SpawnStartupTask,
}

impl WindowAttributes {
    /// The attributes that `platform` asks for: a window titled
    /// "Winit Window" on a native build, the canvas with id "canvas" on the web.
    pub open spec fn is_for(self, platform: Platform) -> bool {
        match platform {
            Platform::Native => self matches WindowAttributes::Titled(title)
                && title@ == "Winit Window"@,
            Platform::Web => self matches WindowAttributes::Canvas(id) && id@ == "canvas"@,
        }
    }
}

impl Platform {
    /// The one-time startup work, in the order in which it is done, for a
    /// first window that reported `width` by `height`.
    pub open spec fn startup_steps(self, width: u32, height: u32) -> Seq<StartupStep> {
        match self {
            Platform::Native => seq![StartupStep::InitLogger, StartupStep::BlockOnStartupTask],
            Platform::Web => seq![
                StartupStep::InstallPanicHook,
                StartupStep::InitConsoleLogger,
                StartupStep::LogCanvasSize { width, height },
                StartupStep::SpawnStartupTask,
            ],
        }
    }

    /// The window this platform asks the host event loop for.
    pub fn window_attributes(self) -> (attributes: WindowAttributes)
        ensures
            attributes.is_for(self),
    {
        match self {
            Platform::Native => WindowAttributes::Titled("Winit Window"),
            Platform::Web => WindowAttributes::Canvas("canvas"),
        }
    }

    /// The one-time startup work for a first window of the given size.
    pub fn on_first_window_created(self, width: u32, height: u32) -> (steps: Vec<StartupStep>)
        ensures
            steps@ == self.startup_steps(width, height),
    {
        let mut steps: Vec<StartupStep> = Vec::new();
        match self {
            Platform::Native => {
                steps.push(StartupStep::InitLogger);
                steps.push(StartupStep::BlockOnStartupTask);
            },
            Platform::Web => {
                steps.push(StartupStep::InstallPanicHook);
                steps.push(StartupStep::InitConsoleLogger);
                steps.push(StartupStep::LogCanvasSize { width, height });
                steps.push(StartupStep::SpawnStartupTask);
            },
        }
        steps
    }
}

} // verus!
