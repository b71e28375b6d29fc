//! Running code.

use vstd::prelude::*;
use super::{wire_field, wire_member, Channel, CrateType, Edition, Mode, Wire};
use crate::json::{
    bool_field, bool_member, member_found, no_fields, push_field, string_field, string_member,
    text_value, Fields, FromJson, Object, ToJson, Value, ValueView,
};

verus! {

/// A request to build and run code.
#[derive(Debug, Clone, PartialEq, Eq)]
pub struct ExecuteRequest {
    /// The release channel of the toolchain.
    pub channel: Channel,
    /// Debug or release.
    pub mode: Mode,
    /// The language edition.
    pub edition: Edition,
    /// Program or library.
    pub crate_type: CrateType,
    /// Whether to run the tests in place of `main`.
    pub tests: bool,
    /// Whether to print a backtrace on a panic.
    pub backtrace: bool,
    /// The source code.
    pub code: String,
}

impl ExecuteRequest {
    /// A request with exactly the given settings.
    pub fn new(
        channel: Channel,
        mode: Mode,
        edition: Edition,
        crate_type: CrateType,
        tests: bool,
        backtrace: bool,
        code: String,
    ) -> (r: ExecuteRequest)
        ensures
            r == (ExecuteRequest { channel, mode, edition, crate_type, tests, backtrace, code }),
    {
        ExecuteRequest { channel, mode, edition, crate_type, tests, backtrace, code }
    }
}

impl Default for ExecuteRequest {
    /// A debug run of a hello-world program on the stable channel, edition
    /// 2024, without tests or backtrace.
    fn default() -> (r: ExecuteRequest)
        ensures
            r.channel == Channel::Stable,
            r.mode == Mode::Debug,
            r.edition == Edition::Edition2024,
            r.crate_type == CrateType::Binary,
            !r.tests,
            !r.backtrace,
            r.code@ == "fn main() { println!(\"Hello, world!\"); }"@,
    {
        ExecuteRequest {
            channel: Channel::Stable,
            mode: Mode::Debug,
            edition: Edition::Edition2024,
            crate_type: CrateType::Binary,
            tests: false,
            backtrace: false,
            code: "fn main() { println!(\"Hello, world!\"); }".to_owned(),
        }
    }
}

/// What running the code gave.
#[derive(Debug, Clone, PartialEq, Eq)]
pub struct ExecuteResponse {
    /// Whether the program ran to a successful end.
    pub success: bool,
    /// How the process of the program ended.
    pub exit_detail: String,
    /// What the program wrote to standard output.
    pub stdout: String,
    /// What the program wrote to standard error.
    pub stderr: String,
}

impl ToJson for ExecuteRequest {
    open spec fn fields(&self) -> Object {
        seq![
            ("channel"@, ValueView::Text(self.channel.wire())),
            ("mode"@, ValueView::Text(self.mode.wire())),
            ("edition"@, ValueView::Text(self.edition.wire())),
            ("crateType"@, ValueView::Text(self.crate_type.wire())),
            ("tests"@, ValueView::Bool(self.tests)),
            ("backtrace"@, ValueView::Bool(self.backtrace)),
            ("code"@, ValueView::Text(self.code@)),
        ]
    }

    fn to_fields(&self) -> (r: Fields) {
        let mut fields = no_fields();
        push_field(&mut fields, "channel", text_value(self.channel.encode()));
        push_field(&mut fields, "mode", text_value(self.mode.encode()));
        push_field(&mut fields, "edition", text_value(self.edition.encode()));
        push_field(&mut fields, "crateType", text_value(self.crate_type.encode()));
        push_field(&mut fields, "tests", Value::Bool(self.tests));
        push_field(&mut fields, "backtrace", Value::Bool(self.backtrace));
        push_field(&mut fields, "code", text_value(self.code.as_str()));
        assert(fields.deep_view() =~= self.fields());
        fields
    }
}

impl FromJson for ExecuteRequest {
    open spec fn fault(object: Object) -> Option<Seq<char>> {
        if wire_member::<Channel>(object, "channel"@) is None {
            Some("channel"@)
        } else if wire_member::<Mode>(object, "mode"@) is None {
            Some("mode"@)
        } else if wire_member::<Edition>(object, "edition"@) is None {
            Some("edition"@)
        } else if wire_member::<CrateType>(object, "crateType"@) is None {
            Some("crateType"@)
        } else if bool_member(object, "tests"@) is None {
            Some("tests"@)
        } else if bool_member(object, "backtrace"@) is None {
            Some("backtrace"@)
        } else if string_member(object, "code"@) is None {
            Some("code"@)
        } else {
            None
        }
    }

    open spec fn reads(&self, object: Object) -> bool {
        &&& wire_member::<Channel>(object, "channel"@) == Some(self.channel)
        &&& wire_member::<Mode>(object, "mode"@) == Some(self.mode)
        &&& wire_member::<Edition>(object, "edition"@) == Some(self.edition)
        &&& wire_member::<CrateType>(object, "crateType"@) == Some(self.crate_type)
        &&& bool_member(object, "tests"@) == Some(self.tests)
        &&& bool_member(object, "backtrace"@) == Some(self.backtrace)
        &&& string_member(object, "code"@) == Some(self.code@)
    }

    fn from_fields(fields: &Fields) -> (r: Result<ExecuteRequest, String>) {
        let channel = match wire_field::<Channel>(fields, "channel") {
            Some(channel) => channel,
            None => {
                return Err("channel".to_owned());
            },
        };
        let mode = match wire_field::<Mode>(fields, "mode") {
            Some(mode) => mode,
            None => {
                return Err("mode".to_owned());
            },
        };
        let edition = match wire_field::<Edition>(fields, "edition") {
            Some(edition) => edition,
            None => {
                return Err("edition".to_owned());
            },
        };
        let crate_type = match wire_field::<CrateType>(fields, "crateType") {
            Some(crate_type) => crate_type,
            None => {
                return Err("crateType".to_owned());
            },
        };
        let tests = match bool_field(fields, "tests") {
            Some(tests) => tests,
            None => {
                return Err("tests".to_owned());
            },
        };
        let backtrace = match bool_field(fields, "backtrace") {
            Some(backtrace) => backtrace,
            None => {
                return Err("backtrace".to_owned());
            },
        };
        let code = match string_field(fields, "code") {
            Some(code) => code,
            None => {
                return Err("code".to_owned());
            },
        };
        Ok(ExecuteRequest { channel, mode, edition, crate_type, tests, backtrace, code })
    }
}

impl ToJson for ExecuteResponse {
    open spec fn fields(&self) -> Object {
        seq![
            ("success"@, ValueView::Bool(self.success)),
            ("exitDetail"@, ValueView::Text(self.exit_detail@)),
            ("stdout"@, ValueView::Text(self.stdout@)),
            ("stderr"@, ValueView::Text(self.stderr@)),
        ]
    }

    fn to_fields(&self) -> (r: Fields) {
        let mut fields = no_fields();
        push_field(&mut fields, "success", Value::Bool(self.success));
        push_field(&mut fields, "exitDetail", text_value(self.exit_detail.as_str()));
        push_field(&mut fields, "stdout", text_value(self.stdout.as_str()));
        push_field(&mut fields, "stderr", text_value(self.stderr.as_str()));
        assert(fields.deep_view() =~= self.fields());
        fields
    }
}

impl FromJson for ExecuteResponse {
    open spec fn fault(object: Object) -> Option<Seq<char>> {
        if bool_member(object, "success"@) is None {
            Some("success"@)
        } else if string_member(object, "exitDetail"@) is None {
            Some("exitDetail"@)
        } else if string_member(object, "stdout"@) is None {
            Some("stdout"@)
        } else if string_member(object, "stderr"@) is None {
            Some("stderr"@)
        } else {
            None
        }
    }

    open spec fn reads(&self, object: Object) -> bool {
        &&& bool_member(object, "success"@) == Some(self.success)
        &&& string_member(object, "exitDetail"@) == Some(self.exit_detail@)
        &&& string_member(object, "stdout"@) == Some(self.stdout@)
        &&& string_member(object, "stderr"@) == Some(self.stderr@)
    }

    fn from_fields(fields: &Fields) -> (r: Result<ExecuteResponse, String>) {
        let success = match bool_field(fields, "success") {
            Some(success) => success,
            None => {
                return Err("success".to_owned());
            },
        };
        let exit_detail = match string_field(fields, "exitDetail") {
            Some(exit_detail) => exit_detail,
            None => {
                return Err("exitDetail".to_owned());
            },
        };
        let stdout = match string_field(fields, "stdout") {
            Some(stdout) => stdout,
            None => {
                return Err("stdout".to_owned());
            },
        };
        let stderr = match string_field(fields, "stderr") {
            Some(stderr) => stderr,
            None => {
                return Err("stderr".to_owned());
            },
        };
        Ok(ExecuteResponse { success, exit_detail, stdout, stderr })
    }
}

impl ExecuteRequest {
    /// A request reads back from its own members: they supply every field,
    /// and what they say is the request.
    pub proof fn reads_back(self)
        ensures
            ExecuteRequest::fault(self.fields()) is None,
            self.reads(self.fields()),
    {
        let object = self.fields();
        reveal_strlit("channel");
        reveal_strlit("mode");
        reveal_strlit("edition");
        reveal_strlit("crateType");
        reveal_strlit("tests");
        reveal_strlit("backtrace");
        reveal_strlit("code");
        assert("channel"@.len() == 7 && "mode"@.len() == 4 && "edition"@.len() == 7
            && "crateType"@.len() == 9 && "tests"@.len() == 5 && "backtrace"@.len() == 9
            && "code"@.len() == 4);
        assert("channel"@[0] != "edition"@[0]);
        assert("crateType"@[0] != "backtrace"@[0]);
        assert("mode"@[0] != "code"@[0]);
        member_found(object, 0);
        member_found(object, 1);
        member_found(object, 2);
        member_found(object, 3);
        member_found(object, 4);
        member_found(object, 5);
        member_found(object, 6);
        self.channel.round_trip();
        self.mode.round_trip();
        self.edition.round_trip();
        self.crate_type.round_trip();
    }
}

impl ExecuteResponse {
    /// A response reads back from its own members: they supply every field,
    /// and what they say is the response.
    pub proof fn reads_back(self)
        ensures
            ExecuteResponse::fault(self.fields()) is None,
            self.reads(self.fields()),
    {
        let object = self.fields();
        reveal_strlit("success");
        reveal_strlit("exitDetail");
        reveal_strlit("stdout");
        reveal_strlit("stderr");
        assert("success"@.len() == 7 && "exitDetail"@.len() == 10 && "stdout"@.len() == 6
            && "stderr"@.len() == 6);
        assert("stdout"@[3] != "stderr"@[3]);
        member_found(object, 0);
        member_found(object, 1);
        member_found(object, 2);
        member_found(object, 3);
    }
}

} // verus!
