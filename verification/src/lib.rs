//! The rules of a small fly-through scene, proved with Verus.
//!
//! The scene is a ground plane, a stack of cubes that fall onto it, a light,
//! a free-flying camera and an invisible hitbox that is carried along with
//! the camera. This crate holds everything about that scene that can be
//! decided without an engine: where things stand, what the mouse and the
//! keyboard do to the camera, when the hitbox has to move, and what the
//! on-screen readout says. A host program turns these decisions into calls
//! on its engine.
//!
//! Nothing here computes with floating point. Coordinates that come from the
//! engine are carried as bit patterns ([`scalar::Scalar`]); the layout of the
//! scene is given on a grid of half units ([`scene::Point`]).
//!
//! One thing is asked of the physics engine itself: by what handle each of
//! its bodies goes and which of them are kinematic ([`bodies`]). What the
//! library takes on trust about the engine is stated there and nowhere else.

pub mod bodies;
pub mod controls;
pub mod overlay;
pub mod player;
pub mod scalar;
pub mod scene;
