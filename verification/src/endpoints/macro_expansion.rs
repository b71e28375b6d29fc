//! Expanding macros.

use vstd::prelude::*;
use super::{wire_field, wire_member, Edition, Wire};
use crate::json::{
    bool_field, bool_member, member_found, no_fields, push_field, string_field, string_member,
    text_value, Fields, FromJson, Object, ToJson, Value, ValueView,
};

verus! {

/// A request to expand the macros in code.
#[derive(Debug, Clone, PartialEq, Eq)]
pub struct MacroExpansionRequest {
    /// The source code.
    pub code: String,
    /// The language edition.
    pub edition: Edition,
}

impl MacroExpansionRequest {
    /// A request with exactly the given settings.
    pub fn new(code: String, edition: Edition) -> (r: MacroExpansionRequest)
        ensures
            r == (MacroExpansionRequest { code, edition }),
    {
        MacroExpansionRequest { code, edition }
    }
}

impl Default for MacroExpansionRequest {
    /// A hello-world program, edition 2024.
    fn default() -> (r: MacroExpansionRequest)
        ensures
            r.edition == Edition::Edition2024,
            r.code@ == "fn main() { println!(\"Hello, world!\"); }"@,
    {
        MacroExpansionRequest {
            code: "fn main() { println!(\"Hello, world!\"); }".to_owned(),
            edition: Edition::Edition2024,
        }
    }
}

/// What expanding the macros gave.
#[derive(Debug, Clone, PartialEq, Eq)]
pub struct MacroExpansionResponse {
    /// Whether the expansion ran to a successful end.
    pub success: bool,
    /// How the process of the expansion ended.
    pub exit_detail: String,
    /// What the expansion wrote to standard output.
    pub stdout: String,
    /// What the expansion wrote to standard error.
    pub stderr: String,
}

impl ToJson for MacroExpansionRequest {
    open spec fn fields(&self) -> Object {
        seq![
            ("code"@, ValueView::Text(self.code@)),
            ("edition"@, ValueView::Text(self.edition.wire())),
        ]
    }

    fn to_fields(&self) -> (r: Fields) {
        let mut fields = no_fields();
        push_field(&mut fields, "code", text_value(self.code.as_str()));
        push_field(&mut fields, "edition", text_value(self.edition.encode()));
        assert(fields.deep_view() =~= self.fields());
        fields
    }
}

impl FromJson for MacroExpansionRequest {
    open spec fn fault(object: Object) -> Option<Seq<char>> {
        if string_member(object, "code"@) is None {
            Some("code"@)
        } else if wire_member::<Edition>(object, "edition"@) is None {
            Some("edition"@)
        } else {
            None
        }
    }

    open spec fn reads(&self, object: Object) -> bool {
        &&& string_member(object, "code"@) == Some(self.code@)
        &&& wire_member::<Edition>(object, "edition"@) == Some(self.edition)
    }

    fn from_fields(fields: &Fields) -> (r: Result<MacroExpansionRequest, String>) {
        let code = match string_field(fields, "code") {
            Some(code) => code,
            None => {
                return Err("code".to_owned());
            },
        };
        let edition = match wire_field::<Edition>(fields, "edition") {
            Some(edition) => edition,
            None => {
                return Err("edition".to_owned());
            },
        };
        Ok(MacroExpansionRequest { code, edition })
    }
}

impl ToJson for MacroExpansionResponse {
    open spec fn fields(&self) -> Object {
        seq![
            ("success"@, ValueView::Bool(self.success)),
            ("exitDetail"@, ValueView::Text(self.exit_detail@)),
            ("stdout"@, ValueView::Text(self.stdout@)),
            ("stderr"@, ValueView::Text(self.stderr@)),
        ]
    }

    fn to_fields(&self) -> (r: Fields) {
        let mut fields = no_fields();
        push_field(&mut fields, "success", Value::Bool(self.success));
        push_field(&mut fields, "exitDetail", text_value(self.exit_detail.as_str()));
        push_field(&mut fields, "stdout", text_value(self.stdout.as_str()));
        push_field(&mut fields, "stderr", text_value(self.stderr.as_str()));
        assert(fields.deep_view() =~= self.fields());
        fields
    }
}

impl FromJson for MacroExpansionResponse {
    open spec fn fault(object: Object) -> Option<Seq<char>> {
        if bool_member(object, "success"@) is None {
            Some("success"@)
        } else if string_member(object, "exitDetail"@) is None {
            Some("exitDetail"@)
        } else if string_member(object, "stdout"@) is None {
            Some("stdout"@)
        } else if string_member(object, "stderr"@) is None {
            Some("stderr"@)
        } else {
            None
        }
    }

    open spec fn reads(&self, object: Object) -> bool {
        &&& bool_member(object, "success"@) == Some(self.success)
        &&& string_member(object, "exitDetail"@) == Some(self.exit_detail@)
        &&& string_member(object, "stdout"@) == Some(self.stdout@)
        &&& string_member(object, "stderr"@) == Some(self.stderr@)
    }

    fn from_fields(fields: &Fields) -> (r: Result<MacroExpansionResponse, String>) {
        let success = match bool_field(fields, "success") {
            Some(success) => success,
            None => {
                return Err("success".to_owned());
            },
        };
        let exit_detail = match string_field(fields, "exitDetail") {
            Some(exit_detail) => exit_detail,
            None => {
                return Err("exitDetail".to_owned());
            },
        };
        let stdout = match string_field(fields, "stdout") {
            Some(stdout) => stdout,
            None => {
                return Err("stdout".to_owned());
            },
        };
        let stderr = match string_field(fields, "stderr") {
            Some(stderr) => stderr,
            None => {
                return Err("stderr".to_owned());
            },
        };
        Ok(MacroExpansionResponse { success, exit_detail, stdout, stderr })
    }
}

impl MacroExpansionRequest {
    /// A request reads back from its own members: they supply every field,
    /// and what they say is the request.
    pub proof fn reads_back(self)
        ensures
            MacroExpansionRequest::fault(self.fields()) is None,
            self.reads(self.fields()),
    {
        let object = self.fields();
        reveal_strlit("code");
        reveal_strlit("edition");
        assert("code"@.len() == 4 && "edition"@.len() == 7);
        member_found(object, 0);
        member_found(object, 1);
        self.edition.round_trip();
    }
}

impl MacroExpansionResponse {
    /// A response reads back from its own members: they supply every field,
    /// and what they say is the response.
    pub proof fn reads_back(self)
        ensures
            MacroExpansionResponse::fault(self.fields()) is None,
            self.reads(self.fields()),
    {
        let object = self.fields();
        reveal_strlit("success");
        reveal_strlit("exitDetail");
        reveal_strlit("stdout");
        reveal_strlit("stderr");
        assert("success"@.len() == 7 && "exitDetail"@.len() == 10 && "stdout"@.len() == 6
            && "stderr"@.len() == 6);
        assert("stdout"@[3] != "stderr"@[3]);
        member_found(object, 0);
        member_found(object, 1);
        member_found(object, 2);
        member_found(object, 3);
    }
}

} // verus!
