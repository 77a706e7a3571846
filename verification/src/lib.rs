//! Language-server provisioning logic for a C# editor extension.
pub mod text;
pub mod version;
pub mod util;
pub mod json;
pub mod nuget;
pub mod launch;
pub mod csharp_ls;
pub mod omnisharp;
