//! The host environment: Visual Studio, MSVC and the Windows SDK.
pub mod msvc;
pub mod tools;
pub mod vswhere;
pub mod windows_sdk;
pub mod discovery;
pub use discovery::{discover_msvc_environment, MsvcEnvironment};
