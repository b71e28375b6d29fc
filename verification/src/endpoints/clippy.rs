//! Linting code.

use vstd::prelude::*;
use super::{wire_field, wire_member, Channel, CrateType, Edition, Wire};
use crate::json::{
    bool_field, bool_member, member_found, no_fields, push_field, string_field, string_member,
    text_value, Fields, FromJson, Object, ToJson, Value, ValueView,
};

verus! {

/// A request to lint code with Clippy.
#[derive(Debug, Clone, PartialEq, Eq)]
pub struct ClippyRequest {
    /// The release channel of the toolchain.
    pub channel: Channel,
    /// Program or library.
    pub crate_type: CrateType,
    /// The language edition.
    pub edition: Edition,
    /// The source code.
    pub code: String,
}

impl ClippyRequest {
    /// A request with exactly the given settings.
    pub fn new(
        channel: Channel,
        crate_type: CrateType,
        edition: Edition,
        code: String,
    ) -> (r: ClippyRequest)
        ensures
            r == (ClippyRequest { channel, crate_type, edition, code }),
    {
        ClippyRequest { channel, crate_type, edition, code }
    }
}

impl Default for ClippyRequest {
    /// A hello-world program on the stable channel, edition 2024.
    fn default() -> (r: ClippyRequest)
        ensures
            r.channel == Channel::Stable,
            r.crate_type == CrateType::Binary,
            r.edition == Edition::Edition2024,
            r.code@ == "fn main() { println!(\"Hello, world!\"); }"@,
    {
        ClippyRequest {
            channel: Channel::Stable,
            crate_type: CrateType::Binary,
            edition: Edition::Edition2024,
            code: "fn main() { println!(\"Hello, world!\"); }".to_owned(),
        }
    }
}

/// What the linter gave.
#[derive(Debug, Clone, PartialEq, Eq)]
pub struct ClippyResponse {
    /// Whether the linter ran to a successful end.
    pub success: bool,
    /// How the process of the linter ended.
    pub exit_detail: String,
    /// What the linter wrote to standard output.
    pub stdout: String,
    /// What the linter wrote to standard error, the lints among it.
    pub stderr: String,
}

impl ToJson for ClippyRequest {
    open spec fn fields(&self) -> Object {
        seq![
            ("channel"@, ValueView::Text(self.channel.wire())),
            ("crateType"@, ValueView::Text(self.crate_type.wire())),
            ("edition"@, ValueView::Text(self.edition.wire())),
            ("code"@, ValueView::Text(self.code@)),
        ]
    }

    fn to_fields(&self) -> (r: Fields) {
        let mut fields = no_fields();
        push_field(&mut fields, "channel", text_value(self.channel.encode()));
        push_field(&mut fields, "crateType", text_value(self.crate_type.encode()));
        push_field(&mut fields, "edition", text_value(self.edition.encode()));
        push_field(&mut fields, "code", text_value(self.code.as_str()));
        assert(fields.deep_view() =~= self.fields());
        fields
    }
}

impl FromJson for ClippyRequest {
    open spec fn fault(object: Object) -> Option<Seq<char>> {
        if wire_member::<Channel>(object, "channel"@) is None {
            Some("channel"@)
        } else if wire_member::<CrateType>(object, "crateType"@) is None {
            Some("crateType"@)
        } else if wire_member::<Edition>(object, "edition"@) is None {
            Some("edition"@)
        } else if string_member(object, "code"@) is None {
            Some("code"@)
        } else {
            None
        }
    }

    open spec fn reads(&self, object: Object) -> bool {
        &&& wire_member::<Channel>(object, "channel"@) == Some(self.channel)
        &&& wire_member::<CrateType>(object, "crateType"@) == Some(self.crate_type)
        &&& wire_member::<Edition>(object, "edition"@) == Some(self.edition)
        &&& string_member(object, "code"@) == Some(self.code@)
    }

    fn from_fields(fields: &Fields) -> (r: Result<ClippyRequest, String>) {
        let channel = match wire_field::<Channel>(fields, "channel") {
            Some(channel) => channel,
            None => {
                return Err("channel".to_owned());
            },
        };
        let crate_type = match wire_field::<CrateType>(fields, "crateType") {
            Some(crate_type) => crate_type,
            None => {
                return Err("crateType".to_owned());
            },
        };
        let edition = match wire_field::<Edition>(fields, "edition") {
            Some(edition) => edition,
            None => {
                return Err("edition".to_owned());
            },
        };
        let code = match string_field(fields, "code") {
            Some(code) => code,
            None => {
                return Err("code".to_owned());
            },
        };
        Ok(ClippyRequest { channel, crate_type, edition, code })
    }
}

impl ToJson for ClippyResponse {
    open spec fn fields(&self) -> Object {
        seq![
            ("success"@, ValueView::Bool(self.success)),
            ("exitDetail"@, ValueView::Text(self.exit_detail@)),
            ("stdout"@, ValueView::Text(self.stdout@)),
            ("stderr"@, ValueView::Text(self.stderr@)),
        ]
    }

    fn to_fields(&self) -> (r: Fields) {
        let mut fields = no_fields();
        push_field(&mut fields, "success", Value::Bool(self.success));
        push_field(&mut fields, "exitDetail", text_value(self.exit_detail.as_str()));
        push_field(&mut fields, "stdout", text_value(self.stdout.as_str()));
        push_field(&mut fields, "stderr", text_value(self.stderr.as_str()));
        assert(fields.deep_view() =~= self.fields());
        fields
    }
}

impl FromJson for ClippyResponse {
    open spec fn fault(object: Object) -> Option<Seq<char>> {
        if bool_member(object, "success"@) is None {
            Some("success"@)
        } else if string_member(object, "exitDetail"@) is None {
            Some("exitDetail"@)
        } else if string_member(object, "stdout"@) is None {
            Some("stdout"@)
        } else if string_member(object, "stderr"@) is None {
            Some("stderr"@)
        } else {
            None
        }
    }

    open spec fn reads(&self, object: Object) -> bool {
        &&& bool_member(object, "success"@) == Some(self.success)
        &&& string_member(object, "exitDetail"@) == Some(self.exit_detail@)
        &&& string_member(object, "stdout"@) == Some(self.stdout@)
        &&& string_member(object, "stderr"@) == Some(self.stderr@)
    }

    fn from_fields(fields: &Fields) -> (r: Result<ClippyResponse, String>) {
        let success = match bool_field(fields, "success") {
            Some(success) => success,
            None => {
                return Err("success".to_owned());
            },
        };
        let exit_detail = match string_field(fields, "exitDetail") {
            Some(exit_detail) => exit_detail,
            None => {
                return Err("exitDetail".to_owned());
            },
        };
        let stdout = match string_field(fields, "stdout") {
            Some(stdout) => stdout,
            None => {
                return Err("stdout".to_owned());
            },
        };
        let stderr = match string_field(fields, "stderr") {
            Some(stderr) => stderr,
            None => {
                return Err("stderr".to_owned());
            },
        };
        Ok(ClippyResponse { success, exit_detail, stdout, stderr })
    }
}

impl ClippyRequest {
    /// A request reads back from its own members: they supply every field,
    /// and what they say is the request.
    pub proof fn reads_back(self)
        ensures
            ClippyRequest::fault(self.fields()) is None,
            self.reads(self.fields()),
    {
        let object = self.fields();
        reveal_strlit("channel");
        reveal_strlit("crateType");
        reveal_strlit("edition");
        reveal_strlit("code");
        assert("channel"@.len() == 7 && "crateType"@.len() == 9 && "edition"@.len() == 7
            && "code"@.len() == 4);
        assert("channel"@[0] != "edition"@[0]);
        member_found(object, 0);
        member_found(object, 1);
        member_found(object, 2);
        member_found(object, 3);
        self.channel.round_trip();
        self.crate_type.round_trip();
        self.edition.round_trip();
    }
}

impl ClippyResponse {
    /// A response reads back from its own members: they supply every field,
    /// and what they say is the response.
    pub proof fn reads_back(self)
        ensures
            ClippyResponse::fault(self.fields()) is None,
            self.reads(self.fields()),
    {
        let object = self.fields();
        reveal_strlit("success");
        reveal_strlit("exitDetail");
        reveal_strlit("stdout");
        reveal_strlit("stderr");
        assert("success"@.len() == 7 && "exitDetail"@.len() == 10 && "stdout"@.len() == 6
            && "stderr"@.len() == 6);
        assert("stdout"@[3] != "stderr"@[3]);
        member_found(object, 0);
        member_found(object, 1);
        member_found(object, 2);
        member_found(object, 3);
    }
}

} // verus!
