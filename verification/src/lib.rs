//! Device registry and control routing for Govee lights and appliances.
//!
//! - [`state`] is the registry: devices by id, the connections that are up, a few settings, and
//!   how a label stands for a device.
//! - [`control`] decides which interface of a device a command goes to and what follows once it
//!   went through, [`polling`] how the state of a device is asked for, and [`catalog`] how its
//!   scenes are listed. Each is a task that advances from stage to stage: a stage names one thing
//!   to be done outside, and the reply leads to the next.
//! - [`device`] is what is known of a device, [`scene`] what is known of its scenes, and [`error`]
//!   why a command failed.
//! - [`text`] and [`order`] compare and sort names.
//! - [`laws`] holds the statements about the registry and the tasks as a whole;
//!   [`registry_laws`], [`control_laws`], [`poll_laws`], [`catalog_laws`], [`scene_laws`] and
//!   [`device_laws`] say what the operations mean for devices, connections and scenes.
pub mod text;
pub mod order;
pub mod scene;
pub mod device;
pub mod error;
pub mod state;
pub mod control;
pub mod polling;
pub mod catalog;
pub mod laws;
pub mod registry_laws;
pub mod control_laws;
pub mod poll_laws;
pub mod catalog_laws;
pub mod scene_laws;
pub mod device_laws;
