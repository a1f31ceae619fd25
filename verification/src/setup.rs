//! The order in which the graphics context, the map and the tile layer are
//! brought up, and what becomes of a step that fails.
//!
//! The caller performs each step and reports whether it worked. A failure
//! ends the setup with a message that names the step; nothing that was built
//! before it is handed on.

use vstd::prelude::*;

verus! {

/// What to do after a step of a setup.
#[derive(Debug, PartialEq, Eq)]
pub enum SetupDecision<S> {
    /// Go on with this step.
    Perform(S),
    /// Give up: this step failed.
    Abort(S),
    /// Everything is in place.
    Complete,
}

/// The decision after a step that did or did not work: a step that can fail
/// and did ends the setup; otherwise the setup goes on with the step that
/// follows, if there is one.
pub open spec fn decide<S>(step: S, can_fail: bool, succeeded: bool, following: Option<S>) -> SetupDecision<S> {
    if can_fail && !succeeded {
        SetupDecision::Abort(step)
    } else {
        match following {
            Some(next) => SetupDecision::Perform(next),
            None => SetupDecision::Complete,
        }
    }
}

/// What is asked of the graphics context.
#[derive(Clone, Copy, Debug, PartialEq, Eq, Structural)]
pub struct GlContextRequest {
    pub major_version: u8,
    pub minor_version: u8,
    pub alpha: bool,
    pub stencil: bool,
    pub depth: bool,
}

/// The context the renderer draws in: OpenGL 4.3 with an alpha channel, a
/// stencil buffer and a depth buffer.
pub open spec fn context_request_spec() -> GlContextRequest {
    GlContextRequest { major_version: 4, minor_version: 3, alpha: true, stencil: true, depth: true }
}

/// The context the renderer draws in.
pub fn context_request() -> (request: GlContextRequest)
    ensures
        request == context_request_spec(),
{
    GlContextRequest { major_version: 4, minor_version: 3, alpha: true, stencil: true, depth: true }
}

/// The steps that bring up an off-screen graphics context, in order.
#[derive(Clone, Copy, Debug, PartialEq, Eq, Structural)]
pub enum GlSetupStep {
    /// Connect to the display.
    Connect,
    /// Pick a graphics adapter.
    FindAdapter,
    /// Open the device.
    CreateDevice,
    /// Describe the context: OpenGL 4.3 with alpha, stencil and depth.
    DescribeContext,
    /// Create the context.
    CreateContext,
    /// Create a surface of the size of the viewport.
    CreateSurface,
    /// Bind the surface to the context.
    BindSurface,
    /// Make the context current on this thread.
    MakeCurrent,
    /// Load the function pointers, bind a vertex array and switch off face
    /// culling, depth test and blending. This cannot fail.
    PrepareState,
    /// Ask for the framebuffer of the surface.
    QuerySurfaceInfo,
    /// Bind the framebuffer and set the viewport. This cannot fail.
    BindFramebuffer,
}

impl GlSetupStep {
    /// The step that follows this one, if any.
    pub open spec fn following(self) -> Option<GlSetupStep> {
        match self {
            GlSetupStep::Connect => Some(GlSetupStep::FindAdapter),
            GlSetupStep::FindAdapter => Some(GlSetupStep::CreateDevice),
            GlSetupStep::CreateDevice => Some(GlSetupStep::DescribeContext),
            GlSetupStep::DescribeContext => Some(GlSetupStep::CreateContext),
            GlSetupStep::CreateContext => Some(GlSetupStep::CreateSurface),
            GlSetupStep::CreateSurface => Some(GlSetupStep::BindSurface),
            GlSetupStep::BindSurface => Some(GlSetupStep::MakeCurrent),
            GlSetupStep::MakeCurrent => Some(GlSetupStep::PrepareState),
            GlSetupStep::PrepareState => Some(GlSetupStep::QuerySurfaceInfo),
            GlSetupStep::QuerySurfaceInfo => Some(GlSetupStep::BindFramebuffer),
            GlSetupStep::BindFramebuffer => None,
        }
    }

    /// Whether the step can fail.
    pub open spec fn can_fail(self) -> bool {
        self != GlSetupStep::PrepareState && self != GlSetupStep::BindFramebuffer
    }

    /// Whether a context exists while the step is performed. A setup that
    /// ends in such a step has to destroy the context.
    pub open spec fn holds_context_spec(self) -> bool {
        match self {
            GlSetupStep::Connect
            | GlSetupStep::FindAdapter
            | GlSetupStep::CreateDevice
            | GlSetupStep::DescribeContext
            | GlSetupStep::CreateContext => false,
            _ => true,
        }
    }

    /// The message with which the setup ends when the step fails.
    pub open spec fn failure_message_spec(self) -> Seq<char> {
        match self {
            GlSetupStep::Connect => "Failed to setup connection to display"@,
            GlSetupStep::FindAdapter => "Failed to find suitable adapter"@,
            GlSetupStep::CreateDevice => "Failed to create device"@,
            GlSetupStep::DescribeContext => "Failed to create context descriptor"@,
            GlSetupStep::CreateContext => "Failed to create context"@,
            GlSetupStep::CreateSurface => "Failed to create drawing surface"@,
            GlSetupStep::BindSurface => "Could not bind surface to context"@,
            GlSetupStep::MakeCurrent => "Could not make context current"@,
            GlSetupStep::QuerySurfaceInfo => "Failed to get surface info"@,
            GlSetupStep::PrepareState | GlSetupStep::BindFramebuffer => Seq::empty(),
        }
    }

    /// The step with which the setup starts.
    pub fn first() -> (step: GlSetupStep)
        ensures
            step == GlSetupStep::Connect,
    {
        GlSetupStep::Connect
    }

    /// Whether the context has to be destroyed when the setup ends in this
    /// step.
    #[verifier::when_used_as_spec(holds_context_spec)]
    pub fn holds_context(self) -> (holds: bool)
        ensures
            holds == self.holds_context_spec(),
    {
        match self {
            GlSetupStep::Connect
            | GlSetupStep::FindAdapter
            | GlSetupStep::CreateDevice
            | GlSetupStep::DescribeContext
            | GlSetupStep::CreateContext => false,
            _ => true,
        }
    }

    /// The message with which the setup ends when the step fails.
    pub fn failure_message(self) -> (message: &'static str)
        ensures
            message@ == self.failure_message_spec(),
    {
        match self {
            GlSetupStep::Connect => "Failed to setup connection to display",
            GlSetupStep::FindAdapter => "Failed to find suitable adapter",
            GlSetupStep::CreateDevice => "Failed to create device",
            GlSetupStep::DescribeContext => "Failed to create context descriptor",
            GlSetupStep::CreateContext => "Failed to create context",
            GlSetupStep::CreateSurface => "Failed to create drawing surface",
            GlSetupStep::BindSurface => "Could not bind surface to context",
            GlSetupStep::MakeCurrent => "Could not make context current",
            GlSetupStep::QuerySurfaceInfo => "Failed to get surface info",
            GlSetupStep::PrepareState | GlSetupStep::BindFramebuffer => {
                proof {
                    reveal_strlit("");
                }
                ""
            },
        }
    }

    /// What to do after the step, given whether it worked.
    pub fn after(self, succeeded: bool) -> (decision: SetupDecision<GlSetupStep>)
        ensures
            decision == decide(self, self.can_fail(), succeeded, self.following()),
    {
        let can_fail = match self {
            GlSetupStep::PrepareState | GlSetupStep::BindFramebuffer => false,
            _ => true,
        };
        if can_fail && !succeeded {
            return SetupDecision::Abort(self);
        }
        match self {
            GlSetupStep::Connect => SetupDecision::Perform(GlSetupStep::FindAdapter),
            GlSetupStep::FindAdapter => SetupDecision::Perform(GlSetupStep::CreateDevice),
            GlSetupStep::CreateDevice => SetupDecision::Perform(GlSetupStep::DescribeContext),
            GlSetupStep::DescribeContext => SetupDecision::Perform(GlSetupStep::CreateContext),
            GlSetupStep::CreateContext => SetupDecision::Perform(GlSetupStep::CreateSurface),
            GlSetupStep::CreateSurface => SetupDecision::Perform(GlSetupStep::BindSurface),
            GlSetupStep::BindSurface => SetupDecision::Perform(GlSetupStep::MakeCurrent),
            GlSetupStep::MakeCurrent => SetupDecision::Perform(GlSetupStep::PrepareState),
            GlSetupStep::PrepareState => SetupDecision::Perform(GlSetupStep::QuerySurfaceInfo),
            GlSetupStep::QuerySurfaceInfo => SetupDecision::Perform(GlSetupStep::BindFramebuffer),
            GlSetupStep::BindFramebuffer => SetupDecision::Complete,
        }
    }
}

/// Which callbacks a map is set up with.
#[derive(Clone, Copy, Debug, PartialEq, Eq, Structural)]
pub struct MapSetupOptions {
    /// Whether the caller wants to hear when a redraw is required.
    pub with_invalidate: bool,
    /// Whether the caller wants to hear when a frame is ready.
    pub with_ready: bool,
}

/// The steps that bring up a map, in order.
#[derive(Clone, Copy, Debug, PartialEq, Eq, Structural)]
pub enum MapSetupStep {
    /// Create the map configuration for Web Mercator.
    CreateConfig,
    /// Create the scheduler and hand it to the engine.
    CreateScheduler,
    /// Create the map.
    CreateMap,
    /// Create the redraw callback and install it in the map.
    InstallInvalidateCallback,
    /// Create the ready-state callback.
    CreateReadyCallback,
    /// Tell the map the size of the viewport. This cannot fail.
    SetViewport,
}

impl MapSetupStep {
    /// The step that follows this one under `options`, if any. The steps
    /// that create callbacks are left out where the caller did not ask for
    /// them.
    pub open spec fn following(self, options: MapSetupOptions) -> Option<MapSetupStep> {
        match self {
            MapSetupStep::CreateConfig => Some(MapSetupStep::CreateScheduler),
            MapSetupStep::CreateScheduler => Some(MapSetupStep::CreateMap),
            MapSetupStep::CreateMap => if options.with_invalidate {
                Some(MapSetupStep::InstallInvalidateCallback)
            } else if options.with_ready {
                Some(MapSetupStep::CreateReadyCallback)
            } else {
                Some(MapSetupStep::SetViewport)
            },
            MapSetupStep::InstallInvalidateCallback => if options.with_ready {
                Some(MapSetupStep::CreateReadyCallback)
            } else {
                Some(MapSetupStep::SetViewport)
            },
            MapSetupStep::CreateReadyCallback => Some(MapSetupStep::SetViewport),
            MapSetupStep::SetViewport => None,
        }
    }

    /// Whether the step can fail.
    pub open spec fn can_fail(self) -> bool {
        self != MapSetupStep::SetViewport
    }

    /// The message with which the setup ends when the step fails.
    pub open spec fn failure_message_spec(self) -> Seq<char> {
        match self {
            MapSetupStep::CreateConfig => "Could not create map config"@,
            MapSetupStep::CreateScheduler => "Could not initialize schedulerinterface"@,
            MapSetupStep::CreateMap => "Could not create map interface"@,
            MapSetupStep::InstallInvalidateCallback => "Could not initialize map callbacks"@,
            MapSetupStep::CreateReadyCallback => "Callback interface was unexpectedly null"@,
            MapSetupStep::SetViewport => Seq::empty(),
        }
    }

    /// The step with which the setup starts.
    pub fn first() -> (step: MapSetupStep)
        ensures
            step == MapSetupStep::CreateConfig,
    {
        MapSetupStep::CreateConfig
    }

    /// The message with which the setup ends when the step fails.
    pub fn failure_message(self) -> (message: &'static str)
        ensures
            message@ == self.failure_message_spec(),
    {
        match self {
            MapSetupStep::CreateConfig => "Could not create map config",
            MapSetupStep::CreateScheduler => "Could not initialize schedulerinterface",
            MapSetupStep::CreateMap => "Could not create map interface",
            MapSetupStep::InstallInvalidateCallback => "Could not initialize map callbacks",
            MapSetupStep::CreateReadyCallback => "Callback interface was unexpectedly null",
            MapSetupStep::SetViewport => {
                proof {
                    reveal_strlit("");
                }
                ""
            },
        }
    }

    /// What to do after the step, given whether it worked.
    pub fn after(self, succeeded: bool, options: MapSetupOptions) -> (decision: SetupDecision<
        MapSetupStep,
    >)
        ensures
            decision == decide(self, self.can_fail(), succeeded, self.following(options)),
    {
        let ready_or_viewport = if options.with_ready {
            MapSetupStep::CreateReadyCallback
        } else {
            MapSetupStep::SetViewport
        };
        match self {
            MapSetupStep::SetViewport => SetupDecision::Complete,
            _ if !succeeded => SetupDecision::Abort(self),
            MapSetupStep::CreateConfig => SetupDecision::Perform(MapSetupStep::CreateScheduler),
            MapSetupStep::CreateScheduler => SetupDecision::Perform(MapSetupStep::CreateMap),
            MapSetupStep::CreateMap => if options.with_invalidate {
                SetupDecision::Perform(MapSetupStep::InstallInvalidateCallback)
            } else {
                SetupDecision::Perform(ready_or_viewport)
            },
            MapSetupStep::InstallInvalidateCallback => SetupDecision::Perform(ready_or_viewport),
            MapSetupStep::CreateReadyCallback => SetupDecision::Perform(MapSetupStep::SetViewport),
        }
    }
}

/// The steps that bring up the raster tile layer, in order.
#[derive(Clone, Copy, Debug, PartialEq, Eq, Structural)]
pub enum LayerSetupStep {
    /// Create the layer builder.
    CreateBuilder,
    /// Wrap the layer configuration for the engine and hand it to the
    /// builder.
    WrapConfig,
    /// Create the loader and hand it to the builder.
    CreateLoader,
    /// Build the layer. This cannot fail.
    Build,
}

impl LayerSetupStep {
    /// The step that follows this one, if any.
    pub open spec fn following(self) -> Option<LayerSetupStep> {
        match self {
            LayerSetupStep::CreateBuilder => Some(LayerSetupStep::WrapConfig),
            LayerSetupStep::WrapConfig => Some(LayerSetupStep::CreateLoader),
            LayerSetupStep::CreateLoader => Some(LayerSetupStep::Build),
            LayerSetupStep::Build => None,
        }
    }

    /// Whether the step can fail.
    pub open spec fn can_fail(self) -> bool {
        self != LayerSetupStep::Build
    }

    /// The message with which the setup ends when the step fails.
    pub open spec fn failure_message_spec(self) -> Seq<char> {
        match self {
            LayerSetupStep::CreateBuilder => "Failed to initialize raster layer builder"@,
            LayerSetupStep::WrapConfig => "Failed to setup config wrapper"@,
            LayerSetupStep::CreateLoader => "Failed to initialize loader"@,
            LayerSetupStep::Build => Seq::empty(),
        }
    }

    /// The step with which the setup starts.
    pub fn first() -> (step: LayerSetupStep)
        ensures
            step == LayerSetupStep::CreateBuilder,
    {
        LayerSetupStep::CreateBuilder
    }

    /// The message with which the setup ends when the step fails.
    pub fn failure_message(self) -> (message: &'static str)
        ensures
            message@ == self.failure_message_spec(),
    {
        match self {
            LayerSetupStep::CreateBuilder => "Failed to initialize raster layer builder",
            LayerSetupStep::WrapConfig => "Failed to setup config wrapper",
            LayerSetupStep::CreateLoader => "Failed to initialize loader",
            LayerSetupStep::Build => {
                proof {
                    reveal_strlit("");
                }
                ""
            },
        }
    }

    /// What to do after the step, given whether it worked.
    pub fn after(self, succeeded: bool) -> (decision: SetupDecision<LayerSetupStep>)
        ensures
            decision == decide(self, self.can_fail(), succeeded, self.following()),
    {
        match self {
            LayerSetupStep::Build => SetupDecision::Complete,
            _ if !succeeded => SetupDecision::Abort(self),
            LayerSetupStep::CreateBuilder => SetupDecision::Perform(LayerSetupStep::WrapConfig),
            LayerSetupStep::WrapConfig => SetupDecision::Perform(LayerSetupStep::CreateLoader),
            LayerSetupStep::CreateLoader => SetupDecision::Perform(LayerSetupStep::Build),
        }
    }
}

} // verus!
