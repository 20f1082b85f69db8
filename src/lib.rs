//! Build-time resolution, acquisition and linking of the native LibTorch and TensorFlow
//! libraries, and the small backend and device enumerations of the tensor API.
pub mod archive;
pub mod backend;
pub mod download;
pub mod env_config;
pub mod error;
pub mod install;
pub mod link;
pub mod orchestrate;
pub mod platform;
pub mod resolve;
pub mod text;
pub mod validator;

pub use backend::{Backend, Device};
