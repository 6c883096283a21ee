use crate::polyforge_errors::PolyForgeError;
use crate::renderer::Renderer;
use vstd::prelude::*;
use vstd::string::StringExecFns;

verus! {

/// The title of the application window.
pub const WINDOW_TITLE: &'static str = "PolyForge3D";

/// The platform signals that the controller tells apart.
#[derive(Clone, Copy, Debug, PartialEq, Eq)]
pub enum WindowSignal {
    /// The user asked to close the window.
    CloseRequested,
    /// The window was destroyed.
    Destroyed,
    /// A pointer button was pressed or released.
    MouseInput,
    /// Any other window event.
    Other,
}

/// What the event loop is to do in answer to a signal.
#[derive(Debug)]
pub enum EventAction {
    /// Leave the event loop.
    Exit,
    /// Log the message, and go on.
    Report(String),
    /// Nothing.
    Ignore,
}

/// The application controller: the platform window (made lazily, on the
/// first "resumed" signal), the surfaces made for windows, in creation
/// order, and the renderer.
///
/// `W` is the window type, `S` the surface type and `R` the renderer type.
pub struct PolyForge3D<W, S, R> {
    pub window: Option<W>,
    pub surfaces: Vec<S>,
    pub renderer: Option<R>,
}

/// The window held after a "resumed" signal, where `made` is the window that
/// the platform would create: an existing window is kept.
pub open spec fn resumed_window<W>(before: Option<W>, made: W) -> Option<W> {
    match before {
        Some(w) => Some(w),
        None => Some(made),
    }
}

/// The surface collection after a creation attempt with outcome `created`.
pub open spec fn surfaces_after<S, E>(before: Seq<S>, created: Result<S, E>) -> Seq<S> {
    match created {
        Ok(s) => before.push(s),
        Err(_) => before,
    }
}

/// What a creation attempt with outcome `created` reports.
pub open spec fn creation_result<S, E>(created: Result<S, E>) -> Result<(), PolyForgeError<E>> {
    match created {
        Ok(_) => Ok(()),
        Err(e) => Err(PolyForgeError::SurfaceCreationFailed(e)),
    }
}

impl<W, S, R> PolyForge3D<W, S, R> {
    /// A controller that holds `renderer`, with no window and no surfaces.
    pub fn new(renderer: R) -> (r: Self)
        ensures
            r.window is None,
            r.surfaces@ == Seq::<S>::empty(),
            r.renderer == Some(renderer),
    {
        PolyForge3D { window: None, surfaces: Vec::new(), renderer: Some(renderer) }
    }

    /// A controller with no renderer, no window and no surfaces.
    pub fn without_renderer() -> (r: Self)
        ensures
            r.window is None,
            r.surfaces@ == Seq::<S>::empty(),
            r.renderer is None,
    {
        PolyForge3D { window: None, surfaces: Vec::new(), renderer: None }
    }

    /// Handles the platform's "resumed" signal: makes the window with
    /// `make_window` if there is none yet, and keeps an existing one.
    pub fn resumed<F: FnOnce() -> W>(&mut self, make_window: F)
        requires
            old(self).window is None ==> make_window.requires(()),
        ensures
            exists|made: W|
                final(self).window == resumed_window(old(self).window, made) && (old(
                    self,
                ).window is None ==> make_window.ensures((), made)),
            final(self).surfaces@ == old(self).surfaces@,
            final(self).renderer == old(self).renderer,
    {
        if self.window.is_none() {
            let window = make_window();
            proof {
                assert(resumed_window(self.window, window) == Some(window));
            }
            self.window = Some(window);
        } else {
            proof {
                let kept = self.window->0;
                assert(resumed_window(self.window, kept) == self.window);
            }
        }
    }

    /// Decides the answer to a window event. The controller's state is
    /// not changed by any of them.
    pub fn window_event(&self, event: WindowSignal) -> (r: EventAction)
        ensures
            event is CloseRequested ==> r is Exit,
            event is Destroyed ==> r is Report && r->Report_0@
                == "Confirm succesful window cleanup"@,
            event is MouseInput ==> r is Report && r->Report_0@ == "Test"@,
            event is Other ==> r is Ignore,
    {
        match event {
            WindowSignal::CloseRequested => EventAction::Exit,
            WindowSignal::Destroyed => EventAction::Report(
                String::from_str("Confirm succesful window cleanup"),
            ),
            WindowSignal::MouseInput => EventAction::Report(String::from_str("Test")),
            WindowSignal::Other => EventAction::Ignore,
        }
    }

    /// Makes a surface with `create`, which receives the renderer, and
    /// appends it to the surfaces.
    ///
    /// Without a renderer `create` is not called and the answer is
    /// `RendererNotInitialized`. A failure of `create` is reported as
    /// `SurfaceCreationFailed` with the driver's error, and leaves the
    /// surfaces as they were.
    pub fn create_surface_with<E, F: FnOnce(&R) -> Result<S, E>>(&mut self, create: F) -> (r:
        Result<(), PolyForgeError<E>>)
        requires
            old(self).renderer is Some ==> create.requires((&old(self).renderer->0,)),
        ensures
            final(self).window == old(self).window,
            final(self).renderer == old(self).renderer,
            old(self).renderer is None ==> r == Err::<(), PolyForgeError<E>>(
                PolyForgeError::RendererNotInitialized,
            ) && final(self).surfaces@ == old(self).surfaces@,
            old(self).renderer is Some ==> exists|created: Result<S, E>|
                create.ensures((&old(self).renderer->0,), created) && final(self).surfaces@
                    == surfaces_after(old(self).surfaces@, created) && r == creation_result(
                    created,
                ),
    {
        match &self.renderer {
            Some(renderer) => {
                let created = create(renderer);
                let ghost outcome = created;
                let ghost before = self.surfaces@;
                let r = match created {
                    Ok(surface) => {
                        self.surfaces.push(surface);
                        Ok(())
                    },
                    Err(e) => Err(PolyForgeError::SurfaceCreationFailed(e)),
                };
                proof {
                    assert(self.surfaces@ == surfaces_after(before, outcome));
                    assert(r == creation_result(outcome));
                }
                r
            },
            None => Err(PolyForgeError::RendererNotInitialized),
        }
    }
}

/// A native platform window.
#[verifier::external_type_specification]
#[verifier::external_body]
pub struct ExWindow(winit::window::Window);

/// A GPU presentation target bound to a window.
#[verifier::external_type_specification]
#[verifier::external_body]
pub struct ExSurface<'w>(wgpu::Surface<'w>);

/// The driver's report of a failed surface creation.
#[verifier::external_type_specification]
#[verifier::external_body]
pub struct ExCreateSurfaceError(wgpu::CreateSurfaceError);

impl<'w> PolyForge3D<winit::window::Window, wgpu::Surface<'w>, Renderer> {
    /// Creates a surface for `window` through the renderer's instance.
    ///
    /// Relies on `wgpu::Instance::create_surface`, which asks the driver
    /// for a presentation target for the window and reports its refusal as
    /// an error; whether it succeeds depends on the platform.
    #[verifier::external_body]
    pub fn create_surface(renderer: &Renderer, window: &'w winit::window::Window) -> (r: Result<
        wgpu::Surface<'w>,
        wgpu::CreateSurfaceError,
    >) {
        renderer.instance.create_surface(window)
    }

    /// Creates a surface for `window` and appends it to the surfaces.
    ///
    /// Without a renderer the answer is `RendererNotInitialized`; a driver
    /// failure is `SurfaceCreationFailed` with its error. Either way the
    /// surfaces are left as they were.
    pub fn create_window_surface(&mut self, window: &'w winit::window::Window) -> (r: Result<
        (),
        PolyForgeError<wgpu::CreateSurfaceError>,
    >)
        ensures
            final(self).window == old(self).window,
            final(self).renderer == old(self).renderer,
            old(self).renderer is None ==> r == Err::<(), PolyForgeError<wgpu::CreateSurfaceError>>(
                PolyForgeError::RendererNotInitialized,
            ) && final(self).surfaces@ == old(self).surfaces@,
            old(self).renderer is Some ==> exists|created: Result<
                wgpu::Surface<'w>,
                wgpu::CreateSurfaceError,
            >|
                final(self).surfaces@ == surfaces_after(old(self).surfaces@, created) && r
                    == creation_result(created),
    {
        self.create_surface_with(|renderer: &Renderer| Self::create_surface(renderer, window))
    }
}

/// Window creation is idempotent: from no window, two "resumed" signals
/// leave exactly one window, the one that the first signal made.
pub proof fn lemma_resume_twice<W>(first: W, second: W)
    ensures
        resumed_window(resumed_window(None, first), second) == Some(first),
{
}

/// The surfaces after the first `k` of a run of successful creations,
/// starting from none, are the first `k` surfaces made.
proof fn lemma_successes_prefix<S, E>(made: Seq<S>, states: Seq<Seq<S>>, k: int)
    requires
        states.len() == made.len() + 1,
        states[0] == Seq::<S>::empty(),
        forall|i: int|
            0 <= i < made.len() ==> states[i + 1] == surfaces_after::<S, E>(
                states[i],
                Ok(made[i]),
            ),
        0 <= k <= made.len(),
    ensures
        states[k] == made.subrange(0, k),
    decreases k,
{
    if k == 0 {
        assert(made.subrange(0, 0) =~= Seq::<S>::empty());
    } else {
        lemma_successes_prefix::<S, E>(made, states, k - 1);
        assert(made.subrange(0, k) =~= made.subrange(0, k - 1).push(made[k - 1]));
    }
}

/// Surfaces accumulate in creation order: starting from no surfaces, `n`
/// successful creations, each appending to what the one before left, leave
/// exactly the `n` surfaces made, the first made first.
pub proof fn lemma_successes_accumulate<S, E>(made: Seq<S>, states: Seq<Seq<S>>)
    requires
        states.len() == made.len() + 1,
        states[0] == Seq::<S>::empty(),
        forall|i: int|
            0 <= i < made.len() ==> states[i + 1] == surfaces_after::<S, E>(
                states[i],
                Ok(made[i]),
            ),
    ensures
        states[made.len() as int] == made,
        states[made.len() as int].len() == made.len(),
{
    lemma_successes_prefix::<S, E>(made, states, made.len() as int);
    assert(made.subrange(0, made.len() as int) =~= made);
}

} // verus!
