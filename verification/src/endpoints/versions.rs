//! The toolchain versions that the playground runs.

use vstd::prelude::*;
use crate::json::{
    member_found, no_fields, object_text, optional_fault, optional_field, optional_reads,
    push_field, record_fault, record_field, record_reads, record_value, string_field, string_member,
    text_value, Fields, FromJson, Object, ToJson, ValueView,
};

verus! {

/// The versions of the tools of all three release channels.
#[derive(Debug, Clone, PartialEq, Eq)]
pub struct VersionsResponse {
    /// The stable channel's tools.
    pub stable: ChannelVersion,
    /// The beta channel's tools.
    pub beta: ChannelVersion,
    /// The nightly channel's tools.
    pub nightly: ChannelVersion,
}

/// The versions of the tools of one release channel.
#[derive(Debug, Clone, PartialEq, Eq)]
pub struct ChannelVersion {
    /// The compiler.
    pub rustc: Version,
    /// The formatter.
    pub rustfmt: Version,
    /// The linter.
    pub clippy: Version,
    /// The interpreter, where the channel has one.
    pub miri: Option<Version>,
}

/// The version of one tool.
#[derive(Debug, Clone, PartialEq, Eq)]
pub struct Version {
    /// The version number, such as `1.70.0`.
    pub version: String,
    /// The hash of the commit that the tool was built from.
    pub hash: String,
    /// The day of the commit.
    pub date: String,
}

impl ToJson for Version {
    open spec fn fields(&self) -> Object {
        seq![
            ("version"@, ValueView::Text(self.version@)),
            ("hash"@, ValueView::Text(self.hash@)),
            ("date"@, ValueView::Text(self.date@)),
        ]
    }

    fn to_fields(&self) -> (r: Fields) {
        let mut fields = no_fields();
        push_field(&mut fields, "version", text_value(self.version.as_str()));
        push_field(&mut fields, "hash", text_value(self.hash.as_str()));
        push_field(&mut fields, "date", text_value(self.date.as_str()));
        assert(fields.deep_view() =~= self.fields());
        fields
    }
}

impl FromJson for Version {
    open spec fn fault(object: Object) -> Option<Seq<char>> {
        if string_member(object, "version"@) is None {
            Some("version"@)
        } else if string_member(object, "hash"@) is None {
            Some("hash"@)
        } else if string_member(object, "date"@) is None {
            Some("date"@)
        } else {
            None
        }
    }

    open spec fn reads(&self, object: Object) -> bool {
        &&& string_member(object, "version"@) == Some(self.version@)
        &&& string_member(object, "hash"@) == Some(self.hash@)
        &&& string_member(object, "date"@) == Some(self.date@)
    }

    fn from_fields(fields: &Fields) -> (r: Result<Version, String>) {
        let version = match string_field(fields, "version") {
            Some(version) => version,
            None => {
                return Err("version".to_owned());
            },
        };
        let hash = match string_field(fields, "hash") {
            Some(hash) => hash,
            None => {
                return Err("hash".to_owned());
            },
        };
        let date = match string_field(fields, "date") {
            Some(date) => date,
            None => {
                return Err("date".to_owned());
            },
        };
        Ok(Version { version, hash, date })
    }
}

impl ToJson for ChannelVersion {
    /// A channel without an interpreter has no `miri` member.
    open spec fn fields(&self) -> Object {
        let tools = seq![
            ("rustc"@, ValueView::Other(object_text(self.rustc.fields()))),
            ("rustfmt"@, ValueView::Other(object_text(self.rustfmt.fields()))),
            ("clippy"@, ValueView::Other(object_text(self.clippy.fields()))),
        ];
        match self.miri {
            Some(miri) => tools.push(("miri"@, ValueView::Other(object_text(miri.fields())))),
            None => tools,
        }
    }

    fn to_fields(&self) -> (r: Fields) {
        let mut fields = no_fields();
        push_field(&mut fields, "rustc", record_value(&self.rustc));
        push_field(&mut fields, "rustfmt", record_value(&self.rustfmt));
        push_field(&mut fields, "clippy", record_value(&self.clippy));
        match &self.miri {
            Some(miri) => {
                push_field(&mut fields, "miri", record_value(miri));
            },
            None => {},
        }
        assert(fields.deep_view() =~= self.fields());
        fields
    }
}

impl FromJson for ChannelVersion {
    open spec fn fault(object: Object) -> Option<Seq<char>> {
        if record_fault::<Version>(object, "rustc"@) {
            Some("rustc"@)
        } else if record_fault::<Version>(object, "rustfmt"@) {
            Some("rustfmt"@)
        } else if record_fault::<Version>(object, "clippy"@) {
            Some("clippy"@)
        } else if optional_fault::<Version>(object, "miri"@) {
            Some("miri"@)
        } else {
            None
        }
    }

    open spec fn reads(&self, object: Object) -> bool {
        &&& record_reads(self.rustc, object, "rustc"@)
        &&& record_reads(self.rustfmt, object, "rustfmt"@)
        &&& record_reads(self.clippy, object, "clippy"@)
        &&& optional_reads(self.miri, object, "miri"@)
    }

    fn from_fields(fields: &Fields) -> (r: Result<ChannelVersion, String>) {
        let rustc = match record_field::<Version>(fields, "rustc") {
            Some(rustc) => rustc,
            None => {
                return Err("rustc".to_owned());
            },
        };
        let rustfmt = match record_field::<Version>(fields, "rustfmt") {
            Some(rustfmt) => rustfmt,
            None => {
                return Err("rustfmt".to_owned());
            },
        };
        let clippy = match record_field::<Version>(fields, "clippy") {
            Some(clippy) => clippy,
            None => {
                return Err("clippy".to_owned());
            },
        };
        let miri = match optional_field::<Version>(fields, "miri") {
            Some(miri) => miri,
            None => {
                return Err("miri".to_owned());
            },
        };
        Ok(ChannelVersion { rustc, rustfmt, clippy, miri })
    }
}

impl ToJson for VersionsResponse {
    open spec fn fields(&self) -> Object {
        seq![
            ("stable"@, ValueView::Other(object_text(self.stable.fields()))),
            ("beta"@, ValueView::Other(object_text(self.beta.fields()))),
            ("nightly"@, ValueView::Other(object_text(self.nightly.fields()))),
        ]
    }

    fn to_fields(&self) -> (r: Fields) {
        let mut fields = no_fields();
        push_field(&mut fields, "stable", record_value(&self.stable));
        push_field(&mut fields, "beta", record_value(&self.beta));
        push_field(&mut fields, "nightly", record_value(&self.nightly));
        assert(fields.deep_view() =~= self.fields());
        fields
    }
}

impl FromJson for VersionsResponse {
    open spec fn fault(object: Object) -> Option<Seq<char>> {
        if record_fault::<ChannelVersion>(object, "stable"@) {
            Some("stable"@)
        } else if record_fault::<ChannelVersion>(object, "beta"@) {
            Some("beta"@)
        } else if record_fault::<ChannelVersion>(object, "nightly"@) {
            Some("nightly"@)
        } else {
            None
        }
    }

    open spec fn reads(&self, object: Object) -> bool {
        &&& record_reads(self.stable, object, "stable"@)
        &&& record_reads(self.beta, object, "beta"@)
        &&& record_reads(self.nightly, object, "nightly"@)
    }

    fn from_fields(fields: &Fields) -> (r: Result<VersionsResponse, String>) {
        let stable = match record_field::<ChannelVersion>(fields, "stable") {
            Some(stable) => stable,
            None => {
                return Err("stable".to_owned());
            },
        };
        let beta = match record_field::<ChannelVersion>(fields, "beta") {
            Some(beta) => beta,
            None => {
                return Err("beta".to_owned());
            },
        };
        let nightly = match record_field::<ChannelVersion>(fields, "nightly") {
            Some(nightly) => nightly,
            None => {
                return Err("nightly".to_owned());
            },
        };
        Ok(VersionsResponse { stable, beta, nightly })
    }
}

impl Version {
    /// A version reads back from its own members: they supply every field,
    /// and what they say is the version.
    pub proof fn reads_back(self)
        ensures
            Version::fault(self.fields()) is None,
            self.reads(self.fields()),
    {
        let object = self.fields();
        reveal_strlit("version");
        reveal_strlit("hash");
        reveal_strlit("date");
        assert("version"@.len() == 7 && "hash"@.len() == 4 && "date"@.len() == 4);
        assert("hash"@[0] != "date"@[0]);
        member_found(object, 0);
        member_found(object, 1);
        member_found(object, 2);
    }
}

} // verus!
