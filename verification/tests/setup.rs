use openmobilemaps_rs::setup::{
    context_request, GlSetupStep, LayerSetupStep, MapSetupOptions, MapSetupStep, SetupDecision,
};

#[test]
fn context_is_opengl_4_3_with_alpha_stencil_and_depth() {
    let request = context_request();
    assert_eq!((request.major_version, request.minor_version), (4, 3));
    assert!(request.alpha && request.stencil && request.depth);
}

fn gl_steps(fail_at: Option<GlSetupStep>) -> (Vec<GlSetupStep>, SetupDecision<GlSetupStep>) {
    let mut step = GlSetupStep::first();
    let mut done = vec![];
    loop {
        done.push(step);
        match step.after(Some(step) != fail_at) {
            SetupDecision::Perform(next) => step = next,
            last => return (done, last),
        }
    }
}

fn map_steps(options: MapSetupOptions, fail_at: Option<MapSetupStep>) -> (Vec<MapSetupStep>, SetupDecision<MapSetupStep>) {
    let mut step = MapSetupStep::first();
    let mut done = vec![];
    loop {
        done.push(step);
        match step.after(Some(step) != fail_at, options) {
            SetupDecision::Perform(next) => step = next,
            last => return (done, last),
        }
    }
}

#[test]
fn graphics_setup_in_order() {
    let (done, last) = gl_steps(None);
    assert_eq!(
        done,
        vec![
            GlSetupStep::Connect,
            GlSetupStep::FindAdapter,
            GlSetupStep::CreateDevice,
            GlSetupStep::DescribeContext,
            GlSetupStep::CreateContext,
            GlSetupStep::CreateSurface,
            GlSetupStep::BindSurface,
            GlSetupStep::MakeCurrent,
            GlSetupStep::PrepareState,
            GlSetupStep::QuerySurfaceInfo,
            GlSetupStep::BindFramebuffer,
        ]
    );
    assert_eq!(last, SetupDecision::Complete);
}

#[test]
fn graphics_setup_stops_at_the_first_failure() {
    let (done, last) = gl_steps(Some(GlSetupStep::CreateSurface));
    assert_eq!(done.len(), 6);
    assert_eq!(last, SetupDecision::Abort(GlSetupStep::CreateSurface));
    let (done, last) = gl_steps(Some(GlSetupStep::Connect));
    assert_eq!(done, vec![GlSetupStep::Connect]);
    assert_eq!(last, SetupDecision::Abort(GlSetupStep::Connect));
}

#[test]
fn graphics_steps_that_cannot_fail_go_on() {
    assert_eq!(
        GlSetupStep::PrepareState.after(false),
        SetupDecision::Perform(GlSetupStep::QuerySurfaceInfo)
    );
    assert_eq!(GlSetupStep::BindFramebuffer.after(false), SetupDecision::Complete);
}

#[test]
fn context_is_destroyed_once_it_exists() {
    for step in [
        GlSetupStep::Connect,
        GlSetupStep::FindAdapter,
        GlSetupStep::CreateDevice,
        GlSetupStep::DescribeContext,
        GlSetupStep::CreateContext,
    ] {
        assert!(!step.holds_context());
    }
    for step in [
        GlSetupStep::CreateSurface,
        GlSetupStep::BindSurface,
        GlSetupStep::MakeCurrent,
        GlSetupStep::PrepareState,
        GlSetupStep::QuerySurfaceInfo,
        GlSetupStep::BindFramebuffer,
    ] {
        assert!(step.holds_context());
    }
}

#[test]
fn graphics_failure_messages() {
    assert_eq!(GlSetupStep::Connect.failure_message(), "Failed to setup connection to display");
    assert_eq!(GlSetupStep::FindAdapter.failure_message(), "Failed to find suitable adapter");
    assert_eq!(GlSetupStep::CreateDevice.failure_message(), "Failed to create device");
    assert_eq!(GlSetupStep::DescribeContext.failure_message(), "Failed to create context descriptor");
    assert_eq!(GlSetupStep::CreateContext.failure_message(), "Failed to create context");
    assert_eq!(GlSetupStep::CreateSurface.failure_message(), "Failed to create drawing surface");
    assert_eq!(GlSetupStep::BindSurface.failure_message(), "Could not bind surface to context");
    assert_eq!(GlSetupStep::MakeCurrent.failure_message(), "Could not make context current");
    assert_eq!(GlSetupStep::QuerySurfaceInfo.failure_message(), "Failed to get surface info");
    assert_eq!(GlSetupStep::PrepareState.failure_message(), "");
    assert_eq!(GlSetupStep::BindFramebuffer.failure_message(), "");
}

#[test]
fn map_setup_with_both_callbacks() {
    let options = MapSetupOptions { with_invalidate: true, with_ready: true };
    let (done, last) = map_steps(options, None);
    assert_eq!(
        done,
        vec![
            MapSetupStep::CreateConfig,
            MapSetupStep::CreateScheduler,
            MapSetupStep::CreateMap,
            MapSetupStep::InstallInvalidateCallback,
            MapSetupStep::CreateReadyCallback,
            MapSetupStep::SetViewport,
        ]
    );
    assert_eq!(last, SetupDecision::Complete);
}

#[test]
fn map_setup_leaves_out_what_was_not_asked_for() {
    let (done, _) = map_steps(MapSetupOptions { with_invalidate: false, with_ready: false }, None);
    assert_eq!(
        done,
        vec![
            MapSetupStep::CreateConfig,
            MapSetupStep::CreateScheduler,
            MapSetupStep::CreateMap,
            MapSetupStep::SetViewport,
        ]
    );
    let (done, _) = map_steps(MapSetupOptions { with_invalidate: true, with_ready: false }, None);
    assert_eq!(done[3..], [MapSetupStep::InstallInvalidateCallback, MapSetupStep::SetViewport]);
    let (done, _) = map_steps(MapSetupOptions { with_invalidate: false, with_ready: true }, None);
    assert_eq!(done[3..], [MapSetupStep::CreateReadyCallback, MapSetupStep::SetViewport]);
}

#[test]
fn map_setup_stops_at_the_first_failure() {
    let options = MapSetupOptions { with_invalidate: true, with_ready: true };
    let (done, last) = map_steps(options, Some(MapSetupStep::CreateMap));
    assert_eq!(done.len(), 3);
    assert_eq!(last, SetupDecision::Abort(MapSetupStep::CreateMap));
    assert_eq!(MapSetupStep::SetViewport.after(false, options), SetupDecision::Complete);
}

#[test]
fn map_failure_messages() {
    assert_eq!(MapSetupStep::CreateConfig.failure_message(), "Could not create map config");
    assert_eq!(
        MapSetupStep::CreateScheduler.failure_message(),
        "Could not initialize schedulerinterface"
    );
    assert_eq!(MapSetupStep::CreateMap.failure_message(), "Could not create map interface");
    assert_eq!(
        MapSetupStep::InstallInvalidateCallback.failure_message(),
        "Could not initialize map callbacks"
    );
    assert_eq!(
        MapSetupStep::CreateReadyCallback.failure_message(),
        "Callback interface was unexpectedly null"
    );
    assert_eq!(MapSetupStep::SetViewport.failure_message(), "");
}

#[test]
fn layer_setup_in_order() {
    assert_eq!(LayerSetupStep::first(), LayerSetupStep::CreateBuilder);
    assert_eq!(
        LayerSetupStep::CreateBuilder.after(true),
        SetupDecision::Perform(LayerSetupStep::WrapConfig)
    );
    assert_eq!(
        LayerSetupStep::WrapConfig.after(true),
        SetupDecision::Perform(LayerSetupStep::CreateLoader)
    );
    assert_eq!(
        LayerSetupStep::CreateLoader.after(true),
        SetupDecision::Perform(LayerSetupStep::Build)
    );
    assert_eq!(LayerSetupStep::Build.after(true), SetupDecision::Complete);
    assert_eq!(LayerSetupStep::Build.after(false), SetupDecision::Complete);
}

#[test]
fn layer_setup_failures() {
    for step in [LayerSetupStep::CreateBuilder, LayerSetupStep::WrapConfig, LayerSetupStep::CreateLoader] {
        assert_eq!(step.after(false), SetupDecision::Abort(step));
    }
    assert_eq!(
        LayerSetupStep::CreateBuilder.failure_message(),
        "Failed to initialize raster layer builder"
    );
    assert_eq!(LayerSetupStep::WrapConfig.failure_message(), "Failed to setup config wrapper");
    assert_eq!(LayerSetupStep::CreateLoader.failure_message(), "Failed to initialize loader");
    assert_eq!(LayerSetupStep::Build.failure_message(), "");
}
