//! A typed client core for the Rust Playground HTTP API.
//!
//! The crate knows the playground's operations, the records that go to and
//! come from each, their JSON form, and the URL of each operation under a
//! base URL. It makes no network call itself: a [`Client`] builds the
//! [`Call`] for an operation, and the [`Reply`] to that call decodes into the
//! operation's response.

pub mod client;
pub mod endpoints;
pub mod error;
pub mod json;
pub mod router;
pub mod text;

pub use client::{Call, Client, Method, Reply};
pub use endpoints::{
    AliasingModel, AssemblyFlavor, Channel, ChannelVersion, ClippyRequest, ClippyResponse,
    CompileRequest, CompileResponse, CompileTarget, CrateInformation, CrateType, CratesResponse,
    DemangleAssembly, Edition, Endpoints, ExecuteRequest, ExecuteResponse, FormatRequest,
    FormatResponse, GistCreateRequest, GistResponse, MacroExpansionRequest,
    MacroExpansionResponse, MiriRequest, MiriResponse, Mode, ProcessAssembly, Version,
    VersionsResponse, Wire,
};
pub use error::{DecodeError, Error};
pub use json::{Fields, FromJson, ToJson, Value};
