//! The game world: the rendering context it draws on, and the frame
//! driver that decides what each iteration of the game loop does.

use vstd::prelude::*;

use crate::bootstrap::{
    Environment, GraphicsError, RenderContext, bootstrap_error, bootstrap_succeeds, create_context,
};

verus! {

/// A window or input event the frame driver may observe. The driver
/// drains pending events without acting on any of them; in particular a
/// `Resized` event does not rebuild the swapchain. Rendering after a
/// resize is a documented limitation: the visual output is undefined,
/// but driving frames stays safe.
#[derive(Clone, Copy, PartialEq, Eq, Structural, Debug)]
pub enum WindowEvent {
    /// The drawable area changed to the given physical pixel size.
    Resized(u32, u32),
    /// The user asked to close the window.
    CloseRequested,
    /// Any other event; all are ignored alike.
    Other,
}

/// What the frame driver asks its caller to perform in one iteration,
/// in order.
#[derive(Clone, Copy, PartialEq, Eq, Structural, Debug)]
pub enum FrameAction {
    /// Let the device reclaim whatever resources are safe to reclaim.
    MaintainResources,
    /// Execute the render graph once.
    ExecuteGraph,
}

/// A `World` consists of the game window's rendering context and what
/// is drawn on it. It is responsible for the game loop's decisions.
#[derive(Debug)]
pub struct World {
    /// The fully initialized rendering context the world draws on.
    pub drawable_surface: RenderContext,
    /// How many frames the driver has stepped so far; wraps around at
    /// the top of the range.
    pub frames_driven: u64,
}

impl World {
    /// Build the world's rendering context for the host described by
    /// `env`, or report the typed error of the first bootstrap step
    /// that cannot succeed.
    pub fn new(title: String, env: &Environment) -> (r: Result<World, GraphicsError>)
        ensures
            r is Ok <==> bootstrap_succeeds(*env),
            r matches Ok(w) ==> w.drawable_surface.wf(*env, title@) && w.frames_driven == 0,
            !bootstrap_succeeds(*env) ==> r == Err::<World, GraphicsError>(bootstrap_error(*env)),
    {
        let (result, _calls) = create_context(title, env);
        match result {
            Ok(ctx) => Ok(World { drawable_surface: ctx, frames_driven: 0 }),
            Err(e) => Err(e),
        }
    }

    /// Decide one iteration of the game loop: let the device reclaim
    /// resources, take note of (and deliberately ignore) the events
    /// that arrived, and execute the render graph once.
    ///
    /// This never fails, whatever events arrived: a resize leaves the
    /// context exactly as it was, since rebuilding the swapchain for a
    /// new size is not supported.
    pub fn frame_step(&mut self, events: &Vec<WindowEvent>) -> (actions: Vec<FrameAction>)
        ensures
            final(self).drawable_surface == old(self).drawable_surface,
            final(self).frames_driven == if old(self).frames_driven == u64::MAX {
                0u64
            } else {
                (old(self).frames_driven + 1) as u64
            },
            actions@ == seq![FrameAction::MaintainResources, FrameAction::ExecuteGraph],
    {
        if self.frames_driven == u64::MAX {
            self.frames_driven = 0;
        } else {
            self.frames_driven = self.frames_driven + 1;
        }
        let mut actions: Vec<FrameAction> = Vec::new();
        actions.push(FrameAction::MaintainResources);
        actions.push(FrameAction::ExecuteGraph);
        proof {
            assert(actions@ =~= seq![FrameAction::MaintainResources, FrameAction::ExecuteGraph]);
        }
        actions
    }
}

} // verus!
