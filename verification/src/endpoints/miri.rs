//! Interpreting code under Miri.

use vstd::prelude::*;
use super::{
    encode_optional, optional_wire, optional_wire_field, optional_wire_member, wire_field,
    wire_member, Edition, Wire,
};
use crate::error::DecodeError;
use crate::json::{
    bool_field, bool_member, member_found, no_fields, optional_text_value, optional_value,
    push_field, string_field, string_member, text_value, Fields, FromJson, Object, ToJson, Value,
    ValueView,
};
use crate::text::same_text;

verus! {

/// A request to interpret code under Miri.
#[derive(Debug, Clone, PartialEq, Eq)]
pub struct MiriRequest {
    /// The source code.
    pub code: String,
    /// The language edition.
    pub edition: Edition,
    /// Whether to run the tests in place of `main`.
    pub tests: bool,
    /// The aliasing model to check against; `None` leaves the choice to the
    /// playground.
    pub aliasing_model: Option<AliasingModel>,
}

impl MiriRequest {
    /// A request with exactly the given settings.
    pub fn new(
        code: String,
        edition: Edition,
        tests: bool,
        aliasing_model: Option<AliasingModel>,
    ) -> (r: MiriRequest)
        ensures
            r == (MiriRequest { code, edition, tests, aliasing_model }),
    {
        MiriRequest { code, edition, tests, aliasing_model }
    }
}

impl Default for MiriRequest {
    /// A hello-world program, edition 2024, run as a program under Stacked
    /// Borrows.
    fn default() -> (r: MiriRequest)
        ensures
            r.edition == Edition::Edition2024,
            !r.tests,
            r.aliasing_model == Some(AliasingModel::Stacked),
            r.code@ == "fn main() { println!(\"Hello, world!\"); }"@,
    {
        MiriRequest {
            code: "fn main() { println!(\"Hello, world!\"); }".to_owned(),
            edition: Edition::Edition2024,
            tests: false,
            aliasing_model: Some(AliasingModel::Stacked),
        }
    }
}

/// What the interpreter gave.
#[derive(Debug, Clone, PartialEq, Eq)]
pub struct MiriResponse {
    /// Whether the interpreter ran to a successful end.
    pub success: bool,
    /// How the process of the interpreter ended.
    pub exit_detail: String,
    /// What the interpreter wrote to standard output.
    pub stdout: String,
    /// What the interpreter wrote to standard error, its findings among it.
    pub stderr: String,
}

/// The rules on pointer aliasing that Miri checks against.
#[derive(Debug, Clone, Copy, PartialEq, Eq, Structural)]
pub enum AliasingModel {
    /// Stacked Borrows.
    Stacked,
    /// Tree Borrows.
    Tree,
}

impl Wire for AliasingModel {
    open spec fn field() -> Seq<char> {
        "aliasingModel"@
    }

    open spec fn wire(self) -> Seq<char> {
        match self {
            AliasingModel::Stacked => "stacked"@,
            AliasingModel::Tree => "tree"@,
        }
    }

    open spec fn from_wire(text: Seq<char>) -> Option<AliasingModel> {
        if text == "stacked"@ {
            Some(AliasingModel::Stacked)
        } else if text == "tree"@ {
            Some(AliasingModel::Tree)
        } else {
            None
        }
    }

    fn encode(&self) -> (r: &'static str) {
        match self {
            AliasingModel::Stacked => "stacked",
            AliasingModel::Tree => "tree",
        }
    }

    fn decode(text: &str) -> (r: Result<AliasingModel, DecodeError>) {
        if same_text(text, "stacked") {
            Ok(AliasingModel::Stacked)
        } else if same_text(text, "tree") {
            Ok(AliasingModel::Tree)
        } else {
            Err(DecodeError::new("aliasingModel", text))
        }
    }

    proof fn round_trip(self) {
        reveal_strlit("stacked");
        reveal_strlit("tree");
        assert("stacked"@.len() == 7 && "tree"@.len() == 4);
    }

    proof fn decoded_form(text: Seq<char>, v: AliasingModel) {
    }
}

impl ToJson for MiriRequest {
    open spec fn fields(&self) -> Object {
        seq![
            ("code"@, ValueView::Text(self.code@)),
            ("edition"@, ValueView::Text(self.edition.wire())),
            ("tests"@, ValueView::Bool(self.tests)),
            ("aliasingModel"@, optional_value(optional_wire(self.aliasing_model))),
        ]
    }

    fn to_fields(&self) -> (r: Fields) {
        let mut fields = no_fields();
        push_field(&mut fields, "code", text_value(self.code.as_str()));
        push_field(&mut fields, "edition", text_value(self.edition.encode()));
        push_field(&mut fields, "tests", Value::Bool(self.tests));
        push_field(&mut fields, "aliasingModel", optional_text_value(encode_optional(&self.aliasing_model)));
        assert(fields.deep_view() =~= self.fields());
        fields
    }
}

impl FromJson for MiriRequest {
    open spec fn fault(object: Object) -> Option<Seq<char>> {
        if string_member(object, "code"@) is None {
            Some("code"@)
        } else if wire_member::<Edition>(object, "edition"@) is None {
            Some("edition"@)
        } else if bool_member(object, "tests"@) is None {
            Some("tests"@)
        } else if optional_wire_member::<AliasingModel>(object, "aliasingModel"@) is None {
            Some("aliasingModel"@)
        } else {
            None
        }
    }

    open spec fn reads(&self, object: Object) -> bool {
        &&& string_member(object, "code"@) == Some(self.code@)
        &&& wire_member::<Edition>(object, "edition"@) == Some(self.edition)
        &&& bool_member(object, "tests"@) == Some(self.tests)
        &&& optional_wire_member::<AliasingModel>(object, "aliasingModel"@) == Some(self.aliasing_model)
    }

    fn from_fields(fields: &Fields) -> (r: Result<MiriRequest, String>) {
        let code = match string_field(fields, "code") {
            Some(code) => code,
            None => {
                return Err("code".to_owned());
            },
        };
        let edition = match wire_field::<Edition>(fields, "edition") {
            Some(edition) => edition,
            None => {
                return Err("edition".to_owned());
            },
        };
        let tests = match bool_field(fields, "tests") {
            Some(tests) => tests,
            None => {
                return Err("tests".to_owned());
            },
        };
        let aliasing_model = match optional_wire_field::<AliasingModel>(fields, "aliasingModel") {
            Some(aliasing_model) => aliasing_model,
            None => {
                return Err("aliasingModel".to_owned());
            },
        };
        Ok(MiriRequest { code, edition, tests, aliasing_model })
    }
}

impl ToJson for MiriResponse {
    open spec fn fields(&self) -> Object {
        seq![
            ("success"@, ValueView::Bool(self.success)),
            ("exitDetail"@, ValueView::Text(self.exit_detail@)),
            ("stdout"@, ValueView::Text(self.stdout@)),
            ("stderr"@, ValueView::Text(self.stderr@)),
        ]
    }

    fn to_fields(&self) -> (r: Fields) {
        let mut fields = no_fields();
        push_field(&mut fields, "success", Value::Bool(self.success));
        push_field(&mut fields, "exitDetail", text_value(self.exit_detail.as_str()));
        push_field(&mut fields, "stdout", text_value(self.stdout.as_str()));
        push_field(&mut fields, "stderr", text_value(self.stderr.as_str()));
        assert(fields.deep_view() =~= self.fields());
        fields
    }
}

impl FromJson for MiriResponse {
    open spec fn fault(object: Object) -> Option<Seq<char>> {
        if bool_member(object, "success"@) is None {
            Some("success"@)
        } else if string_member(object, "exitDetail"@) is None {
            Some("exitDetail"@)
        } else if string_member(object, "stdout"@) is None {
            Some("stdout"@)
        } else if string_member(object, "stderr"@) is None {
            Some("stderr"@)
        } else {
            None
        }
    }

    open spec fn reads(&self, object: Object) -> bool {
        &&& bool_member(object, "success"@) == Some(self.success)
        &&& string_member(object, "exitDetail"@) == Some(self.exit_detail@)
        &&& string_member(object, "stdout"@) == Some(self.stdout@)
        &&& string_member(object, "stderr"@) == Some(self.stderr@)
    }

    fn from_fields(fields: &Fields) -> (r: Result<MiriResponse, String>) {
        let success = match bool_field(fields, "success") {
            Some(success) => success,
            None => {
                return Err("success".to_owned());
            },
        };
        let exit_detail = match string_field(fields, "exitDetail") {
            Some(exit_detail) => exit_detail,
            None => {
                return Err("exitDetail".to_owned());
            },
        };
        let stdout = match string_field(fields, "stdout") {
            Some(stdout) => stdout,
            None => {
                return Err("stdout".to_owned());
            },
        };
        let stderr = match string_field(fields, "stderr") {
            Some(stderr) => stderr,
            None => {
                return Err("stderr".to_owned());
            },
        };
        Ok(MiriResponse { success, exit_detail, stdout, stderr })
    }
}

impl MiriRequest {
    /// A request reads back from its own members: they supply every field,
    /// and what they say is the request.
    pub proof fn reads_back(self)
        ensures
            MiriRequest::fault(self.fields()) is None,
            self.reads(self.fields()),
    {
        let object = self.fields();
        reveal_strlit("code");
        reveal_strlit("edition");
        reveal_strlit("tests");
        reveal_strlit("aliasingModel");
        assert("code"@.len() == 4 && "edition"@.len() == 7 && "tests"@.len() == 5
            && "aliasingModel"@.len() == 13);
        member_found(object, 0);
        member_found(object, 1);
        member_found(object, 2);
        member_found(object, 3);
        self.edition.round_trip();
        match self.aliasing_model {
            Some(model) => {
                model.round_trip();
            },
            None => {},
        }
    }
}

impl MiriResponse {
    /// A response reads back from its own members: they supply every field,
    /// and what they say is the response.
    pub proof fn reads_back(self)
        ensures
            MiriResponse::fault(self.fields()) is None,
            self.reads(self.fields()),
    {
        let object = self.fields();
        reveal_strlit("success");
        reveal_strlit("exitDetail");
        reveal_strlit("stdout");
        reveal_strlit("stderr");
        assert("success"@.len() == 7 && "exitDetail"@.len() == 10 && "stdout"@.len() == 6
            && "stderr"@.len() == 6);
        assert("stdout"@[3] != "stderr"@[3]);
        member_found(object, 0);
        member_found(object, 1);
        member_found(object, 2);
        member_found(object, 3);
    }
}

} // verus!
