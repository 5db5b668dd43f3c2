//! Verified decision core of a differential-steer mobile-robot runtime.
//!
//! The runtime joins a chassis, two rotating range finders and a satellite
//! receiver into one control loop. What it decides is here, as functions from
//! a state and an event to the next state and what is to be done; what it
//! reads, writes, waits for and calculates in floating point is the caller's.

pub mod binary32;
pub mod console;
pub mod device_code;
pub mod physical;
pub mod pose;
pub mod runtime;

pub use device_code::atomic::AtomicDeviceCode;
pub use device_code::DeviceCode;
pub use physical::Physical;
pub use pose::Pose;
pub use runtime::chassis::{Status, Trajectory};
pub use runtime::lidar::Point;
pub use runtime::rtk::reauth;
pub use runtime::{CollisionInfo, Event, Odometry, Robot, Task};
