//! The three simulation scenes and the bookkeeping the host needs to cycle
//! through them.

use vstd::prelude::*;

verus! {

/// Which of the three simulations is active.
#[derive(Clone, Copy, Debug, PartialEq, Eq, Structural)]
pub enum SceneType {
    BasicDistance,
    SeparateCollision,
    DistanceChain,
}

impl SceneType {
    /// The scene that follows this one when the user cycles scenes.
    pub fn next(&self) -> (r: SceneType)
        ensures
            r == (match *self {
                SceneType::BasicDistance => SceneType::SeparateCollision,
                SceneType::SeparateCollision => SceneType::DistanceChain,
                SceneType::DistanceChain => SceneType::BasicDistance,
            }),
    {
        match self {
            SceneType::BasicDistance => SceneType::SeparateCollision,
            SceneType::SeparateCollision => SceneType::DistanceChain,
            SceneType::DistanceChain => SceneType::BasicDistance,
        }
    }

    /// The display name of the scene.
    pub fn name(&self) -> (r: &'static str)
        ensures
            *self is BasicDistance ==> r@ == "Distance Basique"@,
            *self is SeparateCollision ==> r@ == "Collision Séparée"@,
            *self is DistanceChain ==> r@ == "Chaîne de Distance"@,
    {
        match self {
            SceneType::BasicDistance => "Distance Basique",
            SceneType::SeparateCollision => "Collision Séparée",
            SceneType::DistanceChain => "Chaîne de Distance",
        }
    }

    /// Whether the renderer should draw the main particle for this scene.
    /// Only the chain scene suppresses it, since its main particle always
    /// coincides with the first link.
    pub fn should_render_main_particle(&self) -> (r: bool)
        ensures
            r == !(*self is DistanceChain),
    {
        match self {
            SceneType::DistanceChain => false,
            _ => true,
        }
    }
}

} // verus!
