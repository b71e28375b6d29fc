//! Compiling code to one of several outputs.

use vstd::prelude::*;
use super::{
    encode_optional, optional_wire, optional_wire_field, optional_wire_member, wire_field,
    wire_member, Channel, CrateType, Edition, Mode, Wire,
};
use crate::error::DecodeError;
use crate::json::{
    bool_field, bool_member, member_found, no_fields, optional_text_value, optional_value,
    push_field, string_field, string_member, text_value, Fields, FromJson, Object, ToJson, Value,
    ValueView,
};
use crate::text::same_text;

verus! {

/// A request to compile code.
#[derive(Debug, Clone, PartialEq, Eq)]
pub struct CompileRequest {
    /// What to compile to.
    pub target: CompileTarget,
    /// The release channel of the toolchain.
    pub channel: Channel,
    /// Debug or release.
    pub mode: Mode,
    /// The language edition.
    pub edition: Edition,
    /// Program or library.
    pub crate_type: CrateType,
    /// Whether to build the tests.
    pub tests: bool,
    /// Whether to build with backtraces enabled.
    pub backtrace: bool,
    /// The source code.
    pub code: String,
}

impl CompileRequest {
    /// A request with exactly the given settings. The settings of an assembly
    /// listing travel inside `target`, so they are there exactly when the
    /// target is assembly.
    pub fn new(
        target: CompileTarget,
        channel: Channel,
        mode: Mode,
        edition: Edition,
        crate_type: CrateType,
        tests: bool,
        backtrace: bool,
        code: String,
    ) -> (r: CompileRequest)
        ensures
            r == (CompileRequest {
                target,
                channel,
                mode,
                edition,
                crate_type,
                tests,
                backtrace,
                code,
            }),
    {
        CompileRequest { target, channel, mode, edition, crate_type, tests, backtrace, code }
    }

    /// The target that the members `target`, `assemblyFlavor`,
    /// `demangleAssembly` and `processAssembly` say together, or the name of
    /// the first of them that is at fault.
    pub open spec fn target_member(object: Object) -> Result<CompileTarget, Seq<char>> {
        match (
            string_member(object, "target"@),
            optional_wire_member::<AssemblyFlavor>(object, "assemblyFlavor"@),
            optional_wire_member::<DemangleAssembly>(object, "demangleAssembly"@),
            optional_wire_member::<ProcessAssembly>(object, "processAssembly"@),
        ) {
            (None, _, _, _) => Err("target"@),
            (Some(_), None, _, _) => Err("assemblyFlavor"@),
            (Some(_), Some(_), None, _) => Err("demangleAssembly"@),
            (Some(_), Some(_), Some(_), None) => Err("processAssembly"@),
            (Some(name), Some(flavor), Some(demangle), Some(process)) => match CompileTarget::from_wire(
                name,
                flavor,
                demangle,
                process,
            ) {
                Ok(target) => Ok(target),
                Err((field, _)) => Err(field),
            },
        }
    }

    /// Reads the target from the four members that say it.
    fn read_target(fields: &Fields) -> (r: Result<CompileTarget, String>)
        ensures
            match CompileRequest::target_member(fields.deep_view()) {
                Ok(target) => r matches Ok(read) && read == target,
                Err(field) => r matches Err(named) && named@ == field,
            },
    {
        let name = match string_field(fields, "target") {
            Some(name) => name,
            None => {
                return Err("target".to_owned());
            },
        };
        let flavor = match optional_wire_field::<AssemblyFlavor>(fields, "assemblyFlavor") {
            Some(flavor) => flavor,
            None => {
                return Err("assemblyFlavor".to_owned());
            },
        };
        let demangle = match optional_wire_field::<DemangleAssembly>(fields, "demangleAssembly") {
            Some(demangle) => demangle,
            None => {
                return Err("demangleAssembly".to_owned());
            },
        };
        let process = match optional_wire_field::<ProcessAssembly>(fields, "processAssembly") {
            Some(process) => process,
            None => {
                return Err("processAssembly".to_owned());
            },
        };
        match CompileTarget::decode(name.as_str(), flavor, demangle, process) {
            Ok(target) => Ok(target),
            Err(e) => Err(e.field),
        }
    }
}

impl Default for CompileRequest {
    /// A debug build of a hello-world program on the stable channel, edition
    /// 2024, to demangled and filtered assembly in AT&T syntax.
    fn default() -> (r: CompileRequest)
        ensures
            r.target == CompileTarget::Assembly(
                AssemblyFlavor::Att,
                DemangleAssembly::Demangle,
                ProcessAssembly::Filter,
            ),
            r.channel == Channel::Stable,
            r.mode == Mode::Debug,
            r.edition == Edition::Edition2024,
            r.crate_type == CrateType::Binary,
            !r.tests,
            !r.backtrace,
            r.code@ == "fn main() { println!(\"Hello, world!\"); }"@,
    {
        CompileRequest {
            target: CompileTarget::Assembly(
                AssemblyFlavor::Att,
                DemangleAssembly::Demangle,
                ProcessAssembly::Filter,
            ),
            channel: Channel::Stable,
            mode: Mode::Debug,
            edition: Edition::Edition2024,
            crate_type: CrateType::Binary,
            tests: false,
            backtrace: false,
            code: "fn main() { println!(\"Hello, world!\"); }".to_owned(),
        }
    }
}

/// What compiling the code gave.
#[derive(Debug, Clone, PartialEq, Eq)]
pub struct CompileResponse {
    /// Whether the compiler ran to a successful end.
    pub success: bool,
    /// How the process of the compiler ended.
    pub exit_detail: String,
    /// The compiled output, in the form that the request's target asked for.
    pub code: String,
    /// What the compiler wrote to standard output.
    pub stdout: String,
    /// What the compiler wrote to standard error, warnings and errors among it.
    pub stderr: String,
}

/// The syntax of an assembly listing.
#[derive(Debug, Clone, Copy, PartialEq, Eq, Structural)]
pub enum AssemblyFlavor {
    /// AT&T syntax.
    Att,
    /// Intel syntax.
    Intel,
}

impl Wire for AssemblyFlavor {
    open spec fn field() -> Seq<char> {
        "assemblyFlavor"@
    }

    open spec fn wire(self) -> Seq<char> {
        match self {
            AssemblyFlavor::Att => "att"@,
            AssemblyFlavor::Intel => "intel"@,
        }
    }

    open spec fn from_wire(text: Seq<char>) -> Option<AssemblyFlavor> {
        if text == "att"@ {
            Some(AssemblyFlavor::Att)
        } else if text == "intel"@ {
            Some(AssemblyFlavor::Intel)
        } else {
            None
        }
    }

    fn encode(&self) -> (r: &'static str) {
        match self {
            AssemblyFlavor::Att => "att",
            AssemblyFlavor::Intel => "intel",
        }
    }

    fn decode(text: &str) -> (r: Result<AssemblyFlavor, DecodeError>) {
        if same_text(text, "att") {
            Ok(AssemblyFlavor::Att)
        } else if same_text(text, "intel") {
            Ok(AssemblyFlavor::Intel)
        } else {
            Err(DecodeError::new("assemblyFlavor", text))
        }
    }

    proof fn round_trip(self) {
        reveal_strlit("att");
        reveal_strlit("intel");
        assert("att"@.len() == 3 && "intel"@.len() == 5);
    }

    proof fn decoded_form(text: Seq<char>, v: AssemblyFlavor) {
    }
}

/// Whether the symbol names in an assembly listing are demangled.
#[derive(Debug, Clone, Copy, PartialEq, Eq, Structural)]
pub enum DemangleAssembly {
    /// Names in readable form.
    Demangle,
    /// Names as the compiler mangled them.
    Mangle,
}

impl Wire for DemangleAssembly {
    open spec fn field() -> Seq<char> {
        "demangleAssembly"@
    }

    open spec fn wire(self) -> Seq<char> {
        match self {
            DemangleAssembly::Demangle => "demangle"@,
            DemangleAssembly::Mangle => "mangle"@,
        }
    }

    open spec fn from_wire(text: Seq<char>) -> Option<DemangleAssembly> {
        if text == "demangle"@ {
            Some(DemangleAssembly::Demangle)
        } else if text == "mangle"@ {
            Some(DemangleAssembly::Mangle)
        } else {
            None
        }
    }

    fn encode(&self) -> (r: &'static str) {
        match self {
            DemangleAssembly::Demangle => "demangle",
            DemangleAssembly::Mangle => "mangle",
        }
    }

    fn decode(text: &str) -> (r: Result<DemangleAssembly, DecodeError>) {
        if same_text(text, "demangle") {
            Ok(DemangleAssembly::Demangle)
        } else if same_text(text, "mangle") {
            Ok(DemangleAssembly::Mangle)
        } else {
            Err(DecodeError::new("demangleAssembly", text))
        }
    }

    proof fn round_trip(self) {
        reveal_strlit("demangle");
        reveal_strlit("mangle");
        assert("demangle"@.len() == 8 && "mangle"@.len() == 6);
    }

    proof fn decoded_form(text: Seq<char>, v: DemangleAssembly) {
    }
}

/// Whether an assembly listing is filtered for reading.
#[derive(Debug, Clone, Copy, PartialEq, Eq, Structural)]
pub enum ProcessAssembly {
    /// Filtered for reading.
    Filter,
    /// As the compiler wrote it.
    Raw,
}

impl Wire for ProcessAssembly {
    open spec fn field() -> Seq<char> {
        "processAssembly"@
    }

    open spec fn wire(self) -> Seq<char> {
        match self {
            ProcessAssembly::Filter => "filter"@,
            ProcessAssembly::Raw => "raw"@,
        }
    }

    open spec fn from_wire(text: Seq<char>) -> Option<ProcessAssembly> {
        if text == "filter"@ {
            Some(ProcessAssembly::Filter)
        } else if text == "raw"@ {
            Some(ProcessAssembly::Raw)
        } else {
            None
        }
    }

    fn encode(&self) -> (r: &'static str) {
        match self {
            ProcessAssembly::Filter => "filter",
            ProcessAssembly::Raw => "raw",
        }
    }

    fn decode(text: &str) -> (r: Result<ProcessAssembly, DecodeError>) {
        if same_text(text, "filter") {
            Ok(ProcessAssembly::Filter)
        } else if same_text(text, "raw") {
            Ok(ProcessAssembly::Raw)
        } else {
            Err(DecodeError::new("processAssembly", text))
        }
    }

    proof fn round_trip(self) {
        reveal_strlit("filter");
        reveal_strlit("raw");
        assert("filter"@.len() == 6 && "raw"@.len() == 3);
    }

    proof fn decoded_form(text: Seq<char>, v: ProcessAssembly) {
    }
}

/// What to compile to. Only an assembly listing has settings of its own, and
/// it always has all three.
#[derive(Debug, Clone, Copy, PartialEq, Eq, Structural)]
pub enum CompileTarget {
    /// Assembly, in the given syntax, demangled or not, filtered or not.
    Assembly(AssemblyFlavor, DemangleAssembly, ProcessAssembly),
    /// The high-level intermediate representation.
    Hir,
    /// LLVM's intermediate representation.
    LlvmIr,
    /// The mid-level intermediate representation.
    Mir,
    /// WebAssembly.
    Wasm,
}

impl CompileTarget {
    /// The one string that names the target on the wire.
    pub open spec fn wire(self) -> Seq<char> {
        match self {
            CompileTarget::Assembly(_, _, _) => "asm"@,
            CompileTarget::Hir => "hir"@,
            CompileTarget::LlvmIr => "llvmir"@,
            CompileTarget::Mir => "mir"@,
            CompileTarget::Wasm => "wasm"@,
        }
    }

    /// The syntax of the assembly listing, where the target is one.
    pub open spec fn flavor(self) -> Option<AssemblyFlavor> {
        match self {
            CompileTarget::Assembly(flavor, _, _) => Some(flavor),
            _ => None,
        }
    }

    /// Whether the assembly listing is demangled, where the target is one.
    pub open spec fn demangle(self) -> Option<DemangleAssembly> {
        match self {
            CompileTarget::Assembly(_, demangle, _) => Some(demangle),
            _ => None,
        }
    }

    /// Whether the assembly listing is filtered, where the target is one.
    pub open spec fn process(self) -> Option<ProcessAssembly> {
        match self {
            CompileTarget::Assembly(_, _, process) => Some(process),
            _ => None,
        }
    }

    /// The target that a name and the three assembly settings stand for on
    /// the wire; or the field that is at fault and the text found there. The
    /// name `asm` needs all three settings, and every other name allows none.
    /// A setting that is missing is found as the empty text.
    pub open spec fn from_wire(
        name: Seq<char>,
        flavor: Option<AssemblyFlavor>,
        demangle: Option<DemangleAssembly>,
        process: Option<ProcessAssembly>,
    ) -> Result<CompileTarget, (Seq<char>, Seq<char>)> {
        if name == "asm"@ {
            match (flavor, demangle, process) {
                (None, _, _) => Err(("assemblyFlavor"@, ""@)),
                (Some(_), None, _) => Err(("demangleAssembly"@, ""@)),
                (Some(_), Some(_), None) => Err(("processAssembly"@, ""@)),
                (Some(f), Some(d), Some(p)) => Ok(CompileTarget::Assembly(f, d, p)),
            }
        } else if name == "hir"@ || name == "llvmir"@ || name == "mir"@ || name == "wasm"@ {
            match (flavor, demangle, process) {
                (Some(f), _, _) => Err(("assemblyFlavor"@, f.wire())),
                (None, Some(d), _) => Err(("demangleAssembly"@, d.wire())),
                (None, None, Some(p)) => Err(("processAssembly"@, p.wire())),
                (None, None, None) => Ok(
                    if name == "hir"@ {
                        CompileTarget::Hir
                    } else if name == "llvmir"@ {
                        CompileTarget::LlvmIr
                    } else if name == "mir"@ {
                        CompileTarget::Mir
                    } else {
                        CompileTarget::Wasm
                    },
                ),
            }
        } else {
            Err(("target"@, name))
        }
    }

    /// The wire name of the target.
    pub fn encode(&self) -> (r: &'static str)
        ensures
            r@ == self.wire(),
    {
        match self {
            CompileTarget::Assembly(_, _, _) => "asm",
            CompileTarget::Hir => "hir",
            CompileTarget::LlvmIr => "llvmir",
            CompileTarget::Mir => "mir",
            CompileTarget::Wasm => "wasm",
        }
    }

    /// The syntax of the assembly listing, where the target is one.
    pub fn assembly_flavor(&self) -> (r: Option<AssemblyFlavor>)
        ensures
            r == self.flavor(),
    {
        match self {
            CompileTarget::Assembly(flavor, _, _) => Some(*flavor),
            _ => None,
        }
    }

    /// Whether the assembly listing is demangled, where the target is one.
    pub fn demangle_assembly(&self) -> (r: Option<DemangleAssembly>)
        ensures
            r == self.demangle(),
    {
        match self {
            CompileTarget::Assembly(_, demangle, _) => Some(*demangle),
            _ => None,
        }
    }

    /// Whether the assembly listing is filtered, where the target is one.
    pub fn process_assembly(&self) -> (r: Option<ProcessAssembly>)
        ensures
            r == self.process(),
    {
        match self {
            CompileTarget::Assembly(_, _, process) => Some(*process),
            _ => None,
        }
    }

    /// Reads a target from its wire name and the three assembly settings that
    /// came with it.
    pub fn decode(
        name: &str,
        flavor: Option<AssemblyFlavor>,
        demangle: Option<DemangleAssembly>,
        process: Option<ProcessAssembly>,
    ) -> (r: Result<CompileTarget, DecodeError>)
        ensures
            match CompileTarget::from_wire(name@, flavor, demangle, process) {
                Ok(v) => r == Ok::<CompileTarget, DecodeError>(v),
                Err((field, value)) => r matches Err(e) && e.tells(field, value),
            },
    {
        if same_text(name, "asm") {
            match (flavor, demangle, process) {
                (None, _, _) => Err(DecodeError::new("assemblyFlavor", "")),
                (Some(_), None, _) => Err(DecodeError::new("demangleAssembly", "")),
                (Some(_), Some(_), None) => Err(DecodeError::new("processAssembly", "")),
                (Some(f), Some(d), Some(p)) => Ok(CompileTarget::Assembly(f, d, p)),
            }
        } else {
            let plain = if same_text(name, "hir") {
                CompileTarget::Hir
            } else if same_text(name, "llvmir") {
                CompileTarget::LlvmIr
            } else if same_text(name, "mir") {
                CompileTarget::Mir
            } else if same_text(name, "wasm") {
                CompileTarget::Wasm
            } else {
                return Err(DecodeError::new("target", name));
            };
            match (flavor, demangle, process) {
                (Some(f), _, _) => Err(DecodeError::new("assemblyFlavor", f.encode())),
                (None, Some(d), _) => Err(DecodeError::new("demangleAssembly", d.encode())),
                (None, None, Some(p)) => Err(DecodeError::new("processAssembly", p.encode())),
                (None, None, None) => Ok(plain),
            }
        }
    }

    /// Decoding undoes encoding: a target's wire name and its own assembly
    /// settings decode to that target.
    pub proof fn round_trip(self)
        ensures
            CompileTarget::from_wire(self.wire(), self.flavor(), self.demangle(), self.process())
                == Ok::<CompileTarget, (Seq<char>, Seq<char>)>(self),
    {
        reveal_strlit("asm");
        reveal_strlit("hir");
        reveal_strlit("llvmir");
        reveal_strlit("mir");
        reveal_strlit("wasm");
        assert("asm"@.len() == 3 && "hir"@.len() == 3 && "llvmir"@.len() == 6 && "mir"@.len() == 3
            && "wasm"@.len() == 4);
        assert("asm"@[0] != "hir"@[0]);
        assert("asm"@[0] != "mir"@[0]);
        assert("hir"@[0] != "mir"@[0]);
    }

    /// Encoding undoes decoding: what decodes to a target is that target's
    /// wire name and its own assembly settings.
    pub proof fn decoded_form(
        name: Seq<char>,
        flavor: Option<AssemblyFlavor>,
        demangle: Option<DemangleAssembly>,
        process: Option<ProcessAssembly>,
        v: CompileTarget,
    )
        requires
            CompileTarget::from_wire(name, flavor, demangle, process) == Ok::<
                CompileTarget,
                (Seq<char>, Seq<char>),
            >(v),
        ensures
            v.wire() == name,
            v.flavor() == flavor,
            v.demangle() == demangle,
            v.process() == process,
    {
    }
}

impl ToJson for CompileRequest {
    /// The three settings of an assembly listing are `null` for every other
    /// target.
    open spec fn fields(&self) -> Object {
        seq![
            ("target"@, ValueView::Text(self.target.wire())),
            ("assemblyFlavor"@, optional_value(optional_wire(self.target.flavor()))),
            ("demangleAssembly"@, optional_value(optional_wire(self.target.demangle()))),
            ("processAssembly"@, optional_value(optional_wire(self.target.process()))),
            ("channel"@, ValueView::Text(self.channel.wire())),
            ("mode"@, ValueView::Text(self.mode.wire())),
            ("edition"@, ValueView::Text(self.edition.wire())),
            ("crateType"@, ValueView::Text(self.crate_type.wire())),
            ("tests"@, ValueView::Bool(self.tests)),
            ("backtrace"@, ValueView::Bool(self.backtrace)),
            ("code"@, ValueView::Text(self.code@)),
        ]
    }

    fn to_fields(&self) -> (r: Fields) {
        let flavor = self.target.assembly_flavor();
        let demangle = self.target.demangle_assembly();
        let process = self.target.process_assembly();
        let mut fields = no_fields();
        push_field(&mut fields, "target", text_value(self.target.encode()));
        push_field(&mut fields, "assemblyFlavor", optional_text_value(encode_optional(&flavor)));
        push_field(&mut fields, "demangleAssembly", optional_text_value(encode_optional(&demangle)));
        push_field(&mut fields, "processAssembly", optional_text_value(encode_optional(&process)));
        push_field(&mut fields, "channel", text_value(self.channel.encode()));
        push_field(&mut fields, "mode", text_value(self.mode.encode()));
        push_field(&mut fields, "edition", text_value(self.edition.encode()));
        push_field(&mut fields, "crateType", text_value(self.crate_type.encode()));
        push_field(&mut fields, "tests", Value::Bool(self.tests));
        push_field(&mut fields, "backtrace", Value::Bool(self.backtrace));
        push_field(&mut fields, "code", text_value(self.code.as_str()));
        assert(fields.deep_view() =~= self.fields());
        fields
    }
}

impl FromJson for CompileRequest {
    open spec fn fault(object: Object) -> Option<Seq<char>> {
        match CompileRequest::target_member(object) {
            Err(field) => Some(field),
            Ok(_) => if wire_member::<Channel>(object, "channel"@) is None {
                Some("channel"@)
            } else if wire_member::<Mode>(object, "mode"@) is None {
                Some("mode"@)
            } else if wire_member::<Edition>(object, "edition"@) is None {
                Some("edition"@)
            } else if wire_member::<CrateType>(object, "crateType"@) is None {
                Some("crateType"@)
            } else if bool_member(object, "tests"@) is None {
                Some("tests"@)
            } else if bool_member(object, "backtrace"@) is None {
                Some("backtrace"@)
            } else if string_member(object, "code"@) is None {
                Some("code"@)
            } else {
                None
            },
        }
    }

    open spec fn reads(&self, object: Object) -> bool {
        &&& CompileRequest::target_member(object) matches Ok(target)
        &&& target == self.target
        &&& wire_member::<Channel>(object, "channel"@) == Some(self.channel)
        &&& wire_member::<Mode>(object, "mode"@) == Some(self.mode)
        &&& wire_member::<Edition>(object, "edition"@) == Some(self.edition)
        &&& wire_member::<CrateType>(object, "crateType"@) == Some(self.crate_type)
        &&& bool_member(object, "tests"@) == Some(self.tests)
        &&& bool_member(object, "backtrace"@) == Some(self.backtrace)
        &&& string_member(object, "code"@) == Some(self.code@)
    }

    fn from_fields(fields: &Fields) -> (r: Result<CompileRequest, String>) {
        let target = match CompileRequest::read_target(fields) {
            Ok(target) => target,
            Err(field) => {
                return Err(field);
            },
        };
        let channel = match wire_field::<Channel>(fields, "channel") {
            Some(channel) => channel,
            None => {
                return Err("channel".to_owned());
            },
        };
        let mode = match wire_field::<Mode>(fields, "mode") {
            Some(mode) => mode,
            None => {
                return Err("mode".to_owned());
            },
        };
        let edition = match wire_field::<Edition>(fields, "edition") {
            Some(edition) => edition,
            None => {
                return Err("edition".to_owned());
            },
        };
        let crate_type = match wire_field::<CrateType>(fields, "crateType") {
            Some(crate_type) => crate_type,
            None => {
                return Err("crateType".to_owned());
            },
        };
        let tests = match bool_field(fields, "tests") {
            Some(tests) => tests,
            None => {
                return Err("tests".to_owned());
            },
        };
        let backtrace = match bool_field(fields, "backtrace") {
            Some(backtrace) => backtrace,
            None => {
                return Err("backtrace".to_owned());
            },
        };
        let code = match string_field(fields, "code") {
            Some(code) => code,
            None => {
                return Err("code".to_owned());
            },
        };
        Ok(CompileRequest { target, channel, mode, edition, crate_type, tests, backtrace, code })
    }
}

impl ToJson for CompileResponse {
    open spec fn fields(&self) -> Object {
        seq![
            ("success"@, ValueView::Bool(self.success)),
            ("exitDetail"@, ValueView::Text(self.exit_detail@)),
            ("code"@, ValueView::Text(self.code@)),
            ("stdout"@, ValueView::Text(self.stdout@)),
            ("stderr"@, ValueView::Text(self.stderr@)),
        ]
    }

    fn to_fields(&self) -> (r: Fields) {
        let mut fields = no_fields();
        push_field(&mut fields, "success", Value::Bool(self.success));
        push_field(&mut fields, "exitDetail", text_value(self.exit_detail.as_str()));
        push_field(&mut fields, "code", text_value(self.code.as_str()));
        push_field(&mut fields, "stdout", text_value(self.stdout.as_str()));
        push_field(&mut fields, "stderr", text_value(self.stderr.as_str()));
        assert(fields.deep_view() =~= self.fields());
        fields
    }
}

impl FromJson for CompileResponse {
    open spec fn fault(object: Object) -> Option<Seq<char>> {
        if bool_member(object, "success"@) is None {
            Some("success"@)
        } else if string_member(object, "exitDetail"@) is None {
            Some("exitDetail"@)
        } else if string_member(object, "code"@) is None {
            Some("code"@)
        } else if string_member(object, "stdout"@) is None {
            Some("stdout"@)
        } else if string_member(object, "stderr"@) is None {
            Some("stderr"@)
        } else {
            None
        }
    }

    open spec fn reads(&self, object: Object) -> bool {
        &&& bool_member(object, "success"@) == Some(self.success)
        &&& string_member(object, "exitDetail"@) == Some(self.exit_detail@)
        &&& string_member(object, "code"@) == Some(self.code@)
        &&& string_member(object, "stdout"@) == Some(self.stdout@)
        &&& string_member(object, "stderr"@) == Some(self.stderr@)
    }

    fn from_fields(fields: &Fields) -> (r: Result<CompileResponse, String>) {
        let success = match bool_field(fields, "success") {
            Some(success) => success,
            None => {
                return Err("success".to_owned());
            },
        };
        let exit_detail = match string_field(fields, "exitDetail") {
            Some(exit_detail) => exit_detail,
            None => {
                return Err("exitDetail".to_owned());
            },
        };
        let code = match string_field(fields, "code") {
            Some(code) => code,
            None => {
                return Err("code".to_owned());
            },
        };
        let stdout = match string_field(fields, "stdout") {
            Some(stdout) => stdout,
            None => {
                return Err("stdout".to_owned());
            },
        };
        let stderr = match string_field(fields, "stderr") {
            Some(stderr) => stderr,
            None => {
                return Err("stderr".to_owned());
            },
        };
        Ok(CompileResponse { success, exit_detail, code, stdout, stderr })
    }
}

impl CompileRequest {
    /// A request reads back from its own members: they supply every field,
    /// and what they say is the request.
    pub proof fn reads_back(self)
        ensures
            CompileRequest::fault(self.fields()) is None,
            self.reads(self.fields()),
    {
        let object = self.fields();
        reveal_strlit("target");
        reveal_strlit("assemblyFlavor");
        reveal_strlit("demangleAssembly");
        reveal_strlit("processAssembly");
        reveal_strlit("channel");
        reveal_strlit("mode");
        reveal_strlit("edition");
        reveal_strlit("crateType");
        reveal_strlit("tests");
        reveal_strlit("backtrace");
        reveal_strlit("code");
        assert("target"@.len() == 6 && "assemblyFlavor"@.len() == 14
            && "demangleAssembly"@.len() == 16 && "processAssembly"@.len() == 15
            && "channel"@.len() == 7 && "mode"@.len() == 4 && "edition"@.len() == 7
            && "crateType"@.len() == 9 && "tests"@.len() == 5 && "backtrace"@.len() == 9
            && "code"@.len() == 4);
        assert("channel"@[0] != "edition"@[0]);
        assert("mode"@[0] != "code"@[0]);
        assert("crateType"@[0] != "backtrace"@[0]);
        member_found(object, 0);
        member_found(object, 1);
        member_found(object, 2);
        member_found(object, 3);
        member_found(object, 4);
        member_found(object, 5);
        member_found(object, 6);
        member_found(object, 7);
        member_found(object, 8);
        member_found(object, 9);
        member_found(object, 10);
        self.channel.round_trip();
        self.mode.round_trip();
        self.edition.round_trip();
        self.crate_type.round_trip();
        self.target.round_trip();
        match self.target {
            CompileTarget::Assembly(flavor, demangle, process) => {
                flavor.round_trip();
                demangle.round_trip();
                process.round_trip();
            },
            _ => {},
        }
    }
}

impl CompileResponse {
    /// A response reads back from its own members: they supply every field,
    /// and what they say is the response.
    pub proof fn reads_back(self)
        ensures
            CompileResponse::fault(self.fields()) is None,
            self.reads(self.fields()),
    {
        let object = self.fields();
        reveal_strlit("success");
        reveal_strlit("exitDetail");
        reveal_strlit("code");
        reveal_strlit("stdout");
        reveal_strlit("stderr");
        assert("success"@.len() == 7 && "exitDetail"@.len() == 10 && "code"@.len() == 4
            && "stdout"@.len() == 6 && "stderr"@.len() == 6);
        assert("stdout"@[3] != "stderr"@[3]);
        member_found(object, 0);
        member_found(object, 1);
        member_found(object, 2);
        member_found(object, 3);
        member_found(object, 4);
    }
}

} // verus!
