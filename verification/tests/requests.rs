use playground_api::{
    AliasingModel, AssemblyFlavor, Channel, ClippyRequest, CompileRequest, CompileTarget,
    CrateType, DecodeError, DemangleAssembly, Edition, ExecuteRequest, FormatRequest, FromJson,
    GistCreateRequest, MacroExpansionRequest, MiriRequest, Mode, ProcessAssembly, ToJson, Value,
};

const HELLO: &str = "fn main() { println!(\"Hello, world!\"); }";
const HELLO_JSON: &str = "\"fn main() { println!(\\\"Hello, world!\\\"); }\"";

fn value_of(text: &str) -> serde_json::Value {
    serde_json::from_str(text).unwrap()
}

fn fault<T: FromJson + std::fmt::Debug>(text: &str, field: &str) {
    match T::from_json(text) {
        Ok(v) => panic!("{:?} read from {}", v, text),
        Err(e) => assert_eq!(e, DecodeError { field: field.to_owned(), value: text.to_owned() }),
    }
}

#[test]
fn execute_request_new_keeps_its_arguments() {
    let request = ExecuteRequest::new(
        Channel::Beta,
        Mode::Release,
        Edition::Edition2018,
        CrateType::Library,
        true,
        false,
        "pub fn f() {}".to_owned(),
    );
    assert_eq!(
        request,
        ExecuteRequest {
            channel: Channel::Beta,
            mode: Mode::Release,
            edition: Edition::Edition2018,
            crate_type: CrateType::Library,
            tests: true,
            backtrace: false,
            code: "pub fn f() {}".to_owned(),
        }
    );
}

#[test]
fn execute_request_default() {
    assert_eq!(
        ExecuteRequest::default(),
        ExecuteRequest::new(
            Channel::Stable,
            Mode::Debug,
            Edition::Edition2024,
            CrateType::Binary,
            false,
            false,
            HELLO.to_owned(),
        )
    );
}

#[test]
fn execute_request_json() {
    let request = ExecuteRequest::new(
        Channel::Stable,
        Mode::Release,
        Edition::Edition2021,
        CrateType::Binary,
        false,
        false,
        HELLO.to_owned(),
    );
    let text = request.to_json();
    assert_eq!(
        text,
        format!(
            "{{\"channel\":\"stable\",\"mode\":\"release\",\"edition\":\"2021\",\"crateType\":\"bin\",\"tests\":false,\"backtrace\":false,\"code\":{}}}",
            HELLO_JSON
        )
    );
    let value = value_of(&text);
    assert_eq!(value.as_object().unwrap().len(), 7);
    assert_eq!(value["channel"], "stable");
    assert_eq!(value["mode"], "release");
    assert_eq!(value["edition"], "2021");
    assert_eq!(value["crateType"], "bin");
    assert_eq!(value["tests"], false);
    assert_eq!(value["backtrace"], false);
    assert_eq!(value["code"], HELLO);
    assert_eq!(ExecuteRequest::from_json(&text), Ok(request));
}

#[test]
fn execute_request_reads_any_order_and_skips_what_it_does_not_know() {
    let text = "{\"code\": \"x\", \"extra\": [1, {\"a\": null}], \"backtrace\": true, \"tests\": true,
        \"crateType\": \"lib\", \"edition\": \"2015\", \"mode\": \"debug\", \"channel\": \"nightly\"}";
    assert_eq!(
        ExecuteRequest::from_json(text),
        Ok(ExecuteRequest::new(
            Channel::Nightly,
            Mode::Debug,
            Edition::Edition2015,
            CrateType::Library,
            true,
            true,
            "x".to_owned(),
        ))
    );
}

#[test]
fn execute_request_names_the_first_field_at_fault() {
    fault::<ExecuteRequest>("", "");
    fault::<ExecuteRequest>("[]", "");
    fault::<ExecuteRequest>("{}", "channel");
    fault::<ExecuteRequest>("{\"channel\": \"stabel\", \"mode\": \"fast\"}", "channel");
    fault::<ExecuteRequest>("{\"channel\": \"stable\", \"mode\": \"fast\"}", "mode");
    fault::<ExecuteRequest>("{\"channel\": \"stable\", \"mode\": \"debug\", \"edition\": 2021}", "edition");
    fault::<ExecuteRequest>(
        "{\"channel\": \"stable\", \"mode\": \"debug\", \"edition\": \"2021\", \"crate_type\": \"bin\"}",
        "crateType",
    );
    fault::<ExecuteRequest>(
        "{\"channel\": \"stable\", \"mode\": \"debug\", \"edition\": \"2021\", \"crateType\": \"bin\", \"tests\": \"no\"}",
        "tests",
    );
    fault::<ExecuteRequest>(
        "{\"channel\": \"stable\", \"mode\": \"debug\", \"edition\": \"2021\", \"crateType\": \"bin\", \"tests\": false}",
        "backtrace",
    );
    fault::<ExecuteRequest>(
        "{\"channel\": \"stable\", \"mode\": \"debug\", \"edition\": \"2021\", \"crateType\": \"bin\", \"tests\": false, \"backtrace\": false, \"code\": null}",
        "code",
    );
}

#[test]
fn compile_request_new_keeps_its_arguments() {
    let target = CompileTarget::Assembly(
        AssemblyFlavor::Intel,
        DemangleAssembly::Mangle,
        ProcessAssembly::Raw,
    );
    let request = CompileRequest::new(
        target,
        Channel::Nightly,
        Mode::Release,
        Edition::Edition2021,
        CrateType::Library,
        true,
        true,
        "pub fn f() {}".to_owned(),
    );
    assert_eq!(
        request,
        CompileRequest {
            target,
            channel: Channel::Nightly,
            mode: Mode::Release,
            edition: Edition::Edition2021,
            crate_type: CrateType::Library,
            tests: true,
            backtrace: true,
            code: "pub fn f() {}".to_owned(),
        }
    );
}

#[test]
fn compile_request_default() {
    assert_eq!(
        CompileRequest::default(),
        CompileRequest::new(
            CompileTarget::Assembly(
                AssemblyFlavor::Att,
                DemangleAssembly::Demangle,
                ProcessAssembly::Filter
            ),
            Channel::Stable,
            Mode::Debug,
            Edition::Edition2024,
            CrateType::Binary,
            false,
            false,
            HELLO.to_owned(),
        )
    );
}

#[test]
fn compile_request_json_with_assembly() {
    let request = CompileRequest::default();
    let text = request.to_json();
    assert_eq!(
        text,
        format!(
            "{{\"target\":\"asm\",\"assemblyFlavor\":\"att\",\"demangleAssembly\":\"demangle\",\"processAssembly\":\"filter\",\"channel\":\"stable\",\"mode\":\"debug\",\"edition\":\"2024\",\"crateType\":\"bin\",\"tests\":false,\"backtrace\":false,\"code\":{}}}",
            HELLO_JSON
        )
    );
    assert_eq!(CompileRequest::from_json(&text), Ok(request));
}

#[test]
fn compile_request_json_without_assembly() {
    let request = CompileRequest::new(
        CompileTarget::LlvmIr,
        Channel::Beta,
        Mode::Release,
        Edition::Edition2018,
        CrateType::Library,
        true,
        false,
        "pub fn f() {}".to_owned(),
    );
    let text = request.to_json();
    assert_eq!(
        text,
        "{\"target\":\"llvmir\",\"assemblyFlavor\":null,\"demangleAssembly\":null,\"processAssembly\":null,\"channel\":\"beta\",\"mode\":\"release\",\"edition\":\"2018\",\"crateType\":\"lib\",\"tests\":true,\"backtrace\":false,\"code\":\"pub fn f() {}\"}"
    );
    let value = value_of(&text);
    assert_eq!(value.as_object().unwrap().len(), 11);
    assert!(value["assemblyFlavor"].is_null());
    assert!(value["demangleAssembly"].is_null());
    assert!(value["processAssembly"].is_null());
    assert_eq!(CompileRequest::from_json(&text), Ok(request));
}

#[test]
fn compile_request_round_trips_for_every_target() {
    let mut targets =
        vec![CompileTarget::Hir, CompileTarget::LlvmIr, CompileTarget::Mir, CompileTarget::Wasm];
    for f in [AssemblyFlavor::Att, AssemblyFlavor::Intel] {
        for d in [DemangleAssembly::Demangle, DemangleAssembly::Mangle] {
            for p in [ProcessAssembly::Filter, ProcessAssembly::Raw] {
                targets.push(CompileTarget::Assembly(f, d, p));
            }
        }
    }
    for target in targets {
        let request = CompileRequest { target, ..CompileRequest::default() };
        assert_eq!(CompileRequest::from_json(&request.to_json()), Ok(request));
    }
}

#[test]
fn compile_request_reads_a_target_without_the_assembly_members() {
    let text = "{\"target\": \"wasm\", \"channel\": \"stable\", \"mode\": \"debug\", \"edition\": \"2024\",
        \"crateType\": \"bin\", \"tests\": false, \"backtrace\": false, \"code\": \"\"}";
    let request = CompileRequest::from_json(text).unwrap();
    assert_eq!(request.target, CompileTarget::Wasm);
    assert_eq!(request.code, "");
}

#[test]
fn compile_request_holds_assembly_settings_to_the_target() {
    let rest = "\"channel\": \"stable\", \"mode\": \"debug\", \"edition\": \"2024\", \"crateType\": \"bin\", \"tests\": false, \"backtrace\": false, \"code\": \"\"";
    fault::<CompileRequest>(&format!("{{{}}}", rest), "target");
    fault::<CompileRequest>(&format!("{{\"target\": \"jvm\", {}}}", rest), "target");
    fault::<CompileRequest>(&format!("{{\"target\": \"asm\", {}}}", rest), "assemblyFlavor");
    fault::<CompileRequest>(
        &format!("{{\"target\": \"asm\", \"assemblyFlavor\": \"intel\", {}}}", rest),
        "demangleAssembly",
    );
    fault::<CompileRequest>(
        &format!(
            "{{\"target\": \"asm\", \"assemblyFlavor\": \"intel\", \"demangleAssembly\": \"mangle\", \"processAssembly\": null, {}}}",
            rest
        ),
        "processAssembly",
    );
    fault::<CompileRequest>(
        &format!("{{\"target\": \"asm\", \"assemblyFlavor\": \"nasm\", {}}}", rest),
        "assemblyFlavor",
    );
    fault::<CompileRequest>(
        &format!("{{\"target\": \"mir\", \"processAssembly\": \"raw\", {}}}", rest),
        "processAssembly",
    );
    fault::<CompileRequest>(
        &format!("{{\"target\": \"mir\", \"demangleAssembly\": \"mangle\", \"assemblyFlavor\": \"att\", {}}}", rest),
        "assemblyFlavor",
    );
}

#[test]
fn format_request_new_and_default() {
    let request = FormatRequest::new(
        Channel::Beta,
        CrateType::Library,
        Edition::Edition2015,
        "fn  f( ){}".to_owned(),
    );
    assert_eq!(
        request,
        FormatRequest {
            channel: Channel::Beta,
            crate_type: CrateType::Library,
            edition: Edition::Edition2015,
            code: "fn  f( ){}".to_owned(),
        }
    );
    assert_eq!(
        FormatRequest::default(),
        FormatRequest::new(Channel::Stable, CrateType::Binary, Edition::Edition2024, HELLO.to_owned())
    );
}

#[test]
fn format_request_json() {
    let request = FormatRequest::default();
    let text = request.to_json();
    assert_eq!(
        text,
        format!(
            "{{\"channel\":\"stable\",\"crateType\":\"bin\",\"edition\":\"2024\",\"code\":{}}}",
            HELLO_JSON
        )
    );
    assert_eq!(FormatRequest::from_json(&text), Ok(request));
    fault::<FormatRequest>("{\"channel\": \"stable\", \"crate_type\": \"bin\"}", "crateType");
}

#[test]
fn clippy_request_new_and_default() {
    let request = ClippyRequest::new(
        Channel::Nightly,
        CrateType::Library,
        Edition::Edition2021,
        "pub fn f() {}".to_owned(),
    );
    assert_eq!(
        request,
        ClippyRequest {
            channel: Channel::Nightly,
            crate_type: CrateType::Library,
            edition: Edition::Edition2021,
            code: "pub fn f() {}".to_owned(),
        }
    );
    assert_eq!(
        ClippyRequest::default(),
        ClippyRequest::new(Channel::Stable, CrateType::Binary, Edition::Edition2024, HELLO.to_owned())
    );
}

#[test]
fn clippy_request_json() {
    let request = ClippyRequest::new(
        Channel::Nightly,
        CrateType::Library,
        Edition::Edition2021,
        "pub fn f() -> &'static str {\n\t\"\\\\\"\n}".to_owned(),
    );
    let text = request.to_json();
    assert_eq!(
        text,
        "{\"channel\":\"nightly\",\"crateType\":\"lib\",\"edition\":\"2021\",\"code\":\"pub fn f() -> &'static str {\\n\\t\\\"\\\\\\\\\\\"\\n}\"}"
    );
    assert_eq!(value_of(&text)["code"], request.code.as_str());
    assert_eq!(ClippyRequest::from_json(&text), Ok(request));
    fault::<ClippyRequest>("{\"channel\": \"stable\", \"crateType\": \"bin\", \"edition\": \"2024\"}", "code");
}

#[test]
fn miri_request_new_and_default() {
    let request = MiriRequest::new("fn main() {}".to_owned(), Edition::Edition2021, true, None);
    assert_eq!(
        request,
        MiriRequest {
            code: "fn main() {}".to_owned(),
            edition: Edition::Edition2021,
            tests: true,
            aliasing_model: None,
        }
    );
    assert_eq!(
        MiriRequest::default(),
        MiriRequest::new(
            HELLO.to_owned(),
            Edition::Edition2024,
            false,
            Some(AliasingModel::Stacked)
        )
    );
}

#[test]
fn miri_request_json() {
    let chosen = MiriRequest::default();
    let text = chosen.to_json();
    assert_eq!(
        text,
        format!(
            "{{\"code\":{},\"edition\":\"2024\",\"tests\":false,\"aliasingModel\":\"stacked\"}}",
            HELLO_JSON
        )
    );
    assert_eq!(MiriRequest::from_json(&text), Ok(chosen));

    let open = MiriRequest::new("fn main() {}".to_owned(), Edition::Edition2021, true, None);
    let text = open.to_json();
    assert_eq!(
        text,
        "{\"code\":\"fn main() {}\",\"edition\":\"2021\",\"tests\":true,\"aliasingModel\":null}"
    );
    assert_eq!(MiriRequest::from_json(&text), Ok(open.clone()));
    assert_eq!(
        MiriRequest::from_json("{\"code\":\"fn main() {}\",\"edition\":\"2021\",\"tests\":true}"),
        Ok(open)
    );
    let tree = MiriRequest::from_json(
        "{\"code\":\"\",\"edition\":\"2021\",\"tests\":true,\"aliasingModel\":\"tree\"}",
    );
    assert_eq!(tree.unwrap().aliasing_model, Some(AliasingModel::Tree));
    fault::<MiriRequest>(
        "{\"code\":\"\",\"edition\":\"2021\",\"tests\":true,\"aliasingModel\":\"none\"}",
        "aliasingModel",
    );
    fault::<MiriRequest>(
        "{\"code\":\"\",\"edition\":\"2021\",\"tests\":true,\"aliasingModel\":false}",
        "aliasingModel",
    );
}

#[test]
fn macro_expansion_request_new_and_default() {
    let request = MacroExpansionRequest::new("fn main() {}".to_owned(), Edition::Edition2018);
    assert_eq!(
        request,
        MacroExpansionRequest { code: "fn main() {}".to_owned(), edition: Edition::Edition2018 }
    );
    assert_eq!(
        MacroExpansionRequest::default(),
        MacroExpansionRequest::new(HELLO.to_owned(), Edition::Edition2024)
    );
}

#[test]
fn macro_expansion_request_json() {
    let request = MacroExpansionRequest::default();
    let text = request.to_json();
    assert_eq!(text, format!("{{\"code\":{},\"edition\":\"2024\"}}", HELLO_JSON));
    assert_eq!(MacroExpansionRequest::from_json(&text), Ok(request));
    fault::<MacroExpansionRequest>("{\"edition\":\"2024\"}", "code");
    fault::<MacroExpansionRequest>("{\"code\":\"\"}", "edition");
}

#[test]
fn gist_create_request_new() {
    let request = GistCreateRequest::new(HELLO.to_owned());
    assert_eq!(request, GistCreateRequest { code: HELLO.to_owned() });
}

#[test]
fn gist_create_request_json() {
    let request = GistCreateRequest::new(HELLO.to_owned());
    let text = request.to_json();
    assert_eq!(text, format!("{{\"code\":{}}}", HELLO_JSON));
    assert_eq!(GistCreateRequest::from_json(&text), Ok(request));
    fault::<GistCreateRequest>("{\"Code\":\"\"}", "code");
    fault::<GistCreateRequest>("\"code\"", "");
}

fn text(t: &str) -> Value {
    Value::Text(t.to_owned())
}

fn field(name: &str, value: Value) -> (String, Value) {
    (name.to_owned(), value)
}

#[test]
fn execute_request_fields() {
    let request = ExecuteRequest::new(
        Channel::Stable,
        Mode::Release,
        Edition::Edition2021,
        CrateType::Binary,
        false,
        true,
        HELLO.to_owned(),
    );
    let fields = request.to_fields();
    assert_eq!(
        fields,
        vec![
            field("channel", text("stable")),
            field("mode", text("release")),
            field("edition", text("2021")),
            field("crateType", text("bin")),
            field("tests", Value::Bool(false)),
            field("backtrace", Value::Bool(true)),
            field("code", text(HELLO)),
        ]
    );
    assert_eq!(ExecuteRequest::from_fields(&fields), Ok(request));
}

#[test]
fn execute_request_from_fields_names_the_first_field_at_fault() {
    let all = ExecuteRequest::default().to_fields();
    for (i, name) in
        ["channel", "mode", "edition", "crateType", "tests", "backtrace", "code"].iter().enumerate()
    {
        let mut without = all.clone();
        without.remove(i);
        assert_eq!(ExecuteRequest::from_fields(&without), Err(name.to_string()));
        let mut null = all.clone();
        null[i].1 = Value::Null;
        assert_eq!(ExecuteRequest::from_fields(&null), Err(name.to_string()));
        let mut two = all.clone();
        two.remove(i);
        two.pop();
        assert_eq!(
            ExecuteRequest::from_fields(&two),
            Err(if i == 6 { "backtrace".to_owned() } else { name.to_string() })
        );
    }
    let mut wrong = all.clone();
    wrong[2].1 = text("2022");
    assert_eq!(ExecuteRequest::from_fields(&wrong), Err("edition".to_owned()));
    assert_eq!(ExecuteRequest::from_fields(&vec![]), Err("channel".to_owned()));
}

#[test]
fn compile_request_fields() {
    let with = CompileRequest::default().to_fields();
    assert_eq!(with.len(), 11);
    assert_eq!(with[0], field("target", text("asm")));
    assert_eq!(with[1], field("assemblyFlavor", text("att")));
    assert_eq!(with[2], field("demangleAssembly", text("demangle")));
    assert_eq!(with[3], field("processAssembly", text("filter")));
    assert_eq!(CompileRequest::from_fields(&with), Ok(CompileRequest::default()));

    let mir = CompileRequest { target: CompileTarget::Mir, ..CompileRequest::default() };
    let without = mir.to_fields();
    assert_eq!(without[0], field("target", text("mir")));
    assert_eq!(without[1], field("assemblyFlavor", Value::Null));
    assert_eq!(without[2], field("demangleAssembly", Value::Null));
    assert_eq!(without[3], field("processAssembly", Value::Null));
    assert_eq!(without[4..], with[4..]);
    assert_eq!(CompileRequest::from_fields(&without), Ok(mir));

    let mut mixed = without.clone();
    mixed[3].1 = text("raw");
    assert_eq!(CompileRequest::from_fields(&mixed), Err("processAssembly".to_owned()));
    let mut short = with.clone();
    short[2].1 = Value::Null;
    assert_eq!(CompileRequest::from_fields(&short), Err("demangleAssembly".to_owned()));
}

#[test]
fn miri_request_fields() {
    let fields = MiriRequest::default().to_fields();
    assert_eq!(
        fields,
        vec![
            field("code", text(HELLO)),
            field("edition", text("2024")),
            field("tests", Value::Bool(false)),
            field("aliasingModel", text("stacked")),
        ]
    );
    let mut open = fields.clone();
    open[3].1 = Value::Null;
    assert_eq!(MiriRequest::from_fields(&open).unwrap().aliasing_model, None);
    open.pop();
    assert_eq!(MiriRequest::from_fields(&open).unwrap().aliasing_model, None);
    open.push(field("aliasingModel", Value::Bool(true)));
    assert_eq!(MiriRequest::from_fields(&open), Err("aliasingModel".to_owned()));
}

fn reads_back<T: FromJson + ToJson + PartialEq + std::fmt::Debug>(record: T) {
    assert_eq!(T::from_fields(&record.to_fields()), Ok(record));
}

#[test]
fn requests_read_back_from_their_own_fields() {
    for channel in [Channel::Stable, Channel::Beta, Channel::Nightly] {
        for mode in [Mode::Debug, Mode::Release] {
            for edition in [
                Edition::Edition2015,
                Edition::Edition2018,
                Edition::Edition2021,
                Edition::Edition2024,
            ] {
                for crate_type in [CrateType::Binary, CrateType::Library] {
                    reads_back(ExecuteRequest::new(
                        channel,
                        mode,
                        edition,
                        crate_type,
                        true,
                        false,
                        "x".to_owned(),
                    ));
                    reads_back(CompileRequest::new(
                        CompileTarget::Hir,
                        channel,
                        mode,
                        edition,
                        crate_type,
                        false,
                        true,
                        "x".to_owned(),
                    ));
                    reads_back(FormatRequest::new(channel, crate_type, edition, "x".to_owned()));
                    reads_back(ClippyRequest::new(channel, crate_type, edition, "x".to_owned()));
                }
            }
        }
    }
    for model in [None, Some(AliasingModel::Stacked), Some(AliasingModel::Tree)] {
        reads_back(MiriRequest::new("x".to_owned(), Edition::Edition2021, true, model));
    }
    reads_back(MacroExpansionRequest::default());
    reads_back(GistCreateRequest::new(String::new()));
}
