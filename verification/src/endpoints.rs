//! The playground's operations and the data that goes to and comes from them.
//!
//! Every setting is an enum with one fixed string for each value on the wire:
//! [`Wire::encode`] gives it and [`Wire::decode`] reads it back. Every record
//! is a JSON object, written by [`ToJson`](crate::json::ToJson) and read by
//! [`FromJson`](crate::json::FromJson).

mod clippy;
mod compile;
mod crates;
mod execute;
mod format;
mod gist;
mod macro_expansion;
mod miri;
mod versions;

pub use clippy::{ClippyRequest, ClippyResponse};
pub use compile::{
    AssemblyFlavor, CompileRequest, CompileResponse, CompileTarget, DemangleAssembly,
    ProcessAssembly,
};
pub use crates::{CrateInformation, CratesResponse};
pub use execute::{ExecuteRequest, ExecuteResponse};
pub use format::{FormatRequest, FormatResponse};
pub use gist::{GistCreateRequest, GistResponse};
pub use macro_expansion::{MacroExpansionRequest, MacroExpansionResponse};
pub use miri::{AliasingModel, MiriRequest, MiriResponse};
pub use versions::{ChannelVersion, Version, VersionsResponse};

use vstd::prelude::*;
use vstd::string::StringExecFns;
use crate::error::DecodeError;
use crate::json::{absent_member, is_absent, string_field, string_member, Fields, Object};
use crate::router::{escape_segment, escaped_segment};
use crate::text::same_text;

verus! {

/// One remote operation of the playground.
#[derive(Debug, Clone, PartialEq, Eq)]
pub enum Endpoints {
    Execute,
    Compile,
    Format,
    Clippy,
    Miri,
    MacroExpansion,
    Crates,
    Versions,
    GistCreate,
    /// Retrieval of the gist with the given id.
    GistGet(String),
}

impl Endpoints {
    /// The path of the operation, relative to the playground's base URL. The
    /// id of a gist stands in it as one escaped segment: whatever the id
    /// holds, be it `/`, `?`, `#` or `%`, it adds no segment, query or
    /// fragment of its own. The ids `.` and `..` alone escape to a segment
    /// that joining resolves away.
    pub open spec fn route(self) -> Seq<char> {
        match self {
            Endpoints::Execute => "execute"@,
            Endpoints::Compile => "compile"@,
            Endpoints::Format => "format"@,
            Endpoints::Clippy => "clippy"@,
            Endpoints::Miri => "miri"@,
            Endpoints::MacroExpansion => "macro-expansion"@,
            Endpoints::Crates => "meta/crates"@,
            Endpoints::Versions => "meta/versions"@,
            Endpoints::GistCreate => "meta/gist"@,
            Endpoints::GistGet(id) => "meta/gist/"@ + escaped_segment(id@),
        }
    }

    /// The path of the operation, relative to the playground's base URL.
    pub fn path(&self) -> (r: String)
        ensures
            r@ == self.route(),
    {
        match self {
            Endpoints::Execute => "execute".to_owned(),
            Endpoints::Compile => "compile".to_owned(),
            Endpoints::Format => "format".to_owned(),
            Endpoints::Clippy => "clippy".to_owned(),
            Endpoints::Miri => "miri".to_owned(),
            Endpoints::MacroExpansion => "macro-expansion".to_owned(),
            Endpoints::Crates => "meta/crates".to_owned(),
            Endpoints::Versions => "meta/versions".to_owned(),
            Endpoints::GistCreate => "meta/gist".to_owned(),
            Endpoints::GistGet(id) => {
                let mut path = "meta/gist/".to_owned();
                let segment = escape_segment(id.as_str());
                path.append(segment.as_str());
                path
            },
        }
    }
}

/// A setting with one fixed string for each of its values on the wire.
pub trait Wire: Sized {
    /// The name of the field that holds the setting in a request.
    spec fn field() -> Seq<char>;

    /// The one string that stands for the value on the wire.
    spec fn wire(self) -> Seq<char>;

    /// The value that `text` stands for on the wire, if any.
    spec fn from_wire(text: Seq<char>) -> Option<Self>;

    /// The wire form of the value.
    fn encode(&self) -> (r: &'static str)
        ensures
            r@ == self.wire(),
    ;

    /// Reads a wire form. Any other text is turned down, with an error that
    /// names the setting's field and carries the text.
    fn decode(text: &str) -> (r: Result<Self, DecodeError>)
        ensures
            match Self::from_wire(text@) {
                Some(v) => r == Ok::<Self, DecodeError>(v),
                None => r matches Err(e) && e.tells(Self::field(), text@),
            },
    ;

    /// Decoding undoes encoding: the wire form of a value decodes to that
    /// value.
    proof fn round_trip(self)
        ensures
            Self::from_wire(self.wire()) == Some(self),
    ;

    /// Encoding undoes decoding: a text that decodes is the wire form of what
    /// it decodes to, so no two texts stand for one value.
    proof fn decoded_form(text: Seq<char>, v: Self)
        requires
            Self::from_wire(text) == Some(v),
        ensures
            v.wire() == text,
    ;
}

/// The wire form of a setting that may be left open.
pub open spec fn optional_wire<E: Wire>(setting: Option<E>) -> Option<Seq<char>> {
    match setting {
        Some(v) => Some(v.wire()),
        None => None,
    }
}

/// The setting held by the member called `name`; `None` where there is no
/// such member or it holds no wire form of an `E`.
pub open spec fn wire_member<E: Wire>(object: Object, name: Seq<char>) -> Option<E> {
    match string_member(object, name) {
        Some(text) => E::from_wire(text),
        None => None,
    }
}

/// The setting held by the member called `name`, where a missing member and
/// `null` both leave the setting open; the outer `None` where the member
/// holds anything else that is no wire form of an `E`.
pub open spec fn optional_wire_member<E: Wire>(object: Object, name: Seq<char>) -> Option<
    Option<E>,
> {
    if absent_member(object, name) {
        Some(None)
    } else {
        match wire_member::<E>(object, name) {
            Some(v) => Some(Some(v)),
            None => None,
        }
    }
}

/// The wire form of a setting that may be left open.
pub fn encode_optional<E: Wire>(setting: &Option<E>) -> (r: Option<&'static str>)
    ensures
        match optional_wire(*setting) {
            Some(wire) => r matches Some(text) && text@ == wire,
            None => r is None,
        },
{
    match setting {
        Some(v) => Some(v.encode()),
        None => None,
    }
}

/// Reads the member called `name` as a setting.
pub fn wire_field<E: Wire>(fields: &Fields, name: &str) -> (r: Option<E>)
    ensures
        r == wire_member::<E>(fields.deep_view(), name@),
{
    match string_field(fields, name) {
        Some(text) => match E::decode(text.as_str()) {
            Ok(v) => Some(v),
            Err(_) => None,
        },
        None => None,
    }
}

/// Reads the member called `name` as a setting that may be left open.
pub fn optional_wire_field<E: Wire>(fields: &Fields, name: &str) -> (r: Option<Option<E>>)
    ensures
        r == optional_wire_member::<E>(fields.deep_view(), name@),
{
    if is_absent(fields, name) {
        Some(None)
    } else {
        match wire_field::<E>(fields, name) {
            Some(v) => Some(Some(v)),
            None => None,
        }
    }
}

/// The language edition. On the wire it is the bare year.
#[derive(Debug, Clone, Copy, PartialEq, Eq, Structural)]
pub enum Edition {
    /// Rust 2024.
    Edition2024,
    /// Rust 2021.
    Edition2021,
    /// Rust 2018.
    Edition2018,
    /// Rust 2015.
    Edition2015,
}

impl Wire for Edition {
    open spec fn field() -> Seq<char> {
        "edition"@
    }

    open spec fn wire(self) -> Seq<char> {
        match self {
            Edition::Edition2024 => "2024"@,
            Edition::Edition2021 => "2021"@,
            Edition::Edition2018 => "2018"@,
            Edition::Edition2015 => "2015"@,
        }
    }

    open spec fn from_wire(text: Seq<char>) -> Option<Edition> {
        if text == "2024"@ {
            Some(Edition::Edition2024)
        } else if text == "2021"@ {
            Some(Edition::Edition2021)
        } else if text == "2018"@ {
            Some(Edition::Edition2018)
        } else if text == "2015"@ {
            Some(Edition::Edition2015)
        } else {
            None
        }
    }

    fn encode(&self) -> (r: &'static str) {
        match self {
            Edition::Edition2024 => "2024",
            Edition::Edition2021 => "2021",
            Edition::Edition2018 => "2018",
            Edition::Edition2015 => "2015",
        }
    }

    fn decode(text: &str) -> (r: Result<Edition, DecodeError>) {
        if same_text(text, "2024") {
            Ok(Edition::Edition2024)
        } else if same_text(text, "2021") {
            Ok(Edition::Edition2021)
        } else if same_text(text, "2018") {
            Ok(Edition::Edition2018)
        } else if same_text(text, "2015") {
            Ok(Edition::Edition2015)
        } else {
            Err(DecodeError::new("edition", text))
        }
    }

    proof fn round_trip(self) {
        reveal_strlit("2024");
        reveal_strlit("2021");
        reveal_strlit("2018");
        reveal_strlit("2015");
        assert("2024"@.len() == 4
            && "2021"@.len() == 4
            && "2018"@.len() == 4
            && "2015"@.len() == 4);
        assert("2024"@[3] != "2021"@[3]);
        assert("2024"@[2] != "2018"@[2]);
        assert("2024"@[2] != "2015"@[2]);
        assert("2021"@[2] != "2018"@[2]);
        assert("2021"@[2] != "2015"@[2]);
        assert("2018"@[3] != "2015"@[3]);
    }

    proof fn decoded_form(text: Seq<char>, v: Edition) {
    }
}

/// Whether the code is built as a program or as a library.
#[derive(Debug, Clone, Copy, PartialEq, Eq, Structural)]
pub enum CrateType {
    /// A program with a `main` function.
    Binary,
    /// A library.
    Library,
}

impl Wire for CrateType {
    open spec fn field() -> Seq<char> {
        "crateType"@
    }

    open spec fn wire(self) -> Seq<char> {
        match self {
            CrateType::Binary => "bin"@,
            CrateType::Library => "lib"@,
        }
    }

    open spec fn from_wire(text: Seq<char>) -> Option<CrateType> {
        if text == "bin"@ {
            Some(CrateType::Binary)
        } else if text == "lib"@ {
            Some(CrateType::Library)
        } else {
            None
        }
    }

    fn encode(&self) -> (r: &'static str) {
        match self {
            CrateType::Binary => "bin",
            CrateType::Library => "lib",
        }
    }

    fn decode(text: &str) -> (r: Result<CrateType, DecodeError>) {
        if same_text(text, "bin") {
            Ok(CrateType::Binary)
        } else if same_text(text, "lib") {
            Ok(CrateType::Library)
        } else {
            Err(DecodeError::new("crateType", text))
        }
    }

    proof fn round_trip(self) {
        reveal_strlit("bin");
        reveal_strlit("lib");
        assert("bin"@.len() == 3 && "lib"@.len() == 3);
        assert("bin"@[0] != "lib"@[0]);
    }

    proof fn decoded_form(text: Seq<char>, v: CrateType) {
    }
}

/// Whether the code is built with or without optimizations.
#[derive(Debug, Clone, Copy, PartialEq, Eq, Structural)]
pub enum Mode {
    /// Debug information, no optimizations.
    Debug,
    /// Optimized.
    Release,
}

impl Wire for Mode {
    open spec fn field() -> Seq<char> {
        "mode"@
    }

    open spec fn wire(self) -> Seq<char> {
        match self {
            Mode::Debug => "debug"@,
            Mode::Release => "release"@,
        }
    }

    open spec fn from_wire(text: Seq<char>) -> Option<Mode> {
        if text == "debug"@ {
            Some(Mode::Debug)
        } else if text == "release"@ {
            Some(Mode::Release)
        } else {
            None
        }
    }

    fn encode(&self) -> (r: &'static str) {
        match self {
            Mode::Debug => "debug",
            Mode::Release => "release",
        }
    }

    fn decode(text: &str) -> (r: Result<Mode, DecodeError>) {
        if same_text(text, "debug") {
            Ok(Mode::Debug)
        } else if same_text(text, "release") {
            Ok(Mode::Release)
        } else {
            Err(DecodeError::new("mode", text))
        }
    }

    proof fn round_trip(self) {
        reveal_strlit("debug");
        reveal_strlit("release");
        assert("debug"@.len() == 5 && "release"@.len() == 7);
    }

    proof fn decoded_form(text: Seq<char>, v: Mode) {
    }
}

/// The toolchain release track.
#[derive(Debug, Clone, Copy, PartialEq, Eq, Structural)]
pub enum Channel {
    /// Tested and officially released features.
    Stable,
    /// Pre-release testing for the next stable release.
    Beta,
    /// Bleeding-edge features and experimental tools.
    Nightly,
}

impl Wire for Channel {
    open spec fn field() -> Seq<char> {
        "channel"@
    }

    open spec fn wire(self) -> Seq<char> {
        match self {
            Channel::Stable => "stable"@,
            Channel::Beta => "beta"@,
            Channel::Nightly => "nightly"@,
        }
    }

    open spec fn from_wire(text: Seq<char>) -> Option<Channel> {
        if text == "stable"@ {
            Some(Channel::Stable)
        } else if text == "beta"@ {
            Some(Channel::Beta)
        } else if text == "nightly"@ {
            Some(Channel::Nightly)
        } else {
            None
        }
    }

    fn encode(&self) -> (r: &'static str) {
        match self {
            Channel::Stable => "stable",
            Channel::Beta => "beta",
            Channel::Nightly => "nightly",
        }
    }

    fn decode(text: &str) -> (r: Result<Channel, DecodeError>) {
        if same_text(text, "stable") {
            Ok(Channel::Stable)
        } else if same_text(text, "beta") {
            Ok(Channel::Beta)
        } else if same_text(text, "nightly") {
            Ok(Channel::Nightly)
        } else {
            Err(DecodeError::new("channel", text))
        }
    }

    proof fn round_trip(self) {
        reveal_strlit("stable");
        reveal_strlit("beta");
        reveal_strlit("nightly");
        assert("stable"@.len() == 6 && "beta"@.len() == 4 && "nightly"@.len() == 7);
    }

    proof fn decoded_form(text: Seq<char>, v: Channel) {
    }
}

} // verus!
