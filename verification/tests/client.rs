use playground_api::client::{is_success, post};
use playground_api::{
    Call, Channel, Client, ClippyRequest, ClippyResponse, CompileRequest, CompileResponse,
    CrateType, CratesResponse, DecodeError, Edition, Endpoints, Error, ExecuteRequest,
    ExecuteResponse, FormatRequest, FormatResponse, GistCreateRequest, GistResponse,
    MacroExpansionRequest, MacroExpansionResponse, Method, MiriRequest, MiriResponse, Mode,
    Reply, ToJson, VersionsResponse, Wire,
};

const RAN: &str = "{\"success\": true, \"exitDetail\": \"\", \"stdout\": \"Hello, world!\\n\", \"stderr\": \"\"}";

/// Stands in for the playground: checks the call and answers with `body`.
fn answer(call: Call, method: Method, url: &str, sent: Option<String>, body: &str) -> Reply {
    assert_eq!(call.method, method);
    assert_eq!(call.url, url);
    assert_eq!(call.body, sent);
    Reply::Answered(200, body.to_owned())
}

#[test]
fn execute() {
    let req = ExecuteRequest::default();

    let client = Client::default();
    let call = client.execute(&req).unwrap();
    let reply = answer(
        call,
        Method::Post,
        "https://play.rust-lang.org/execute",
        Some(req.to_json()),
        RAN,
    );
    let res: Result<ExecuteResponse, Error> = reply.decode();

    println!("{:?}", res);
    assert!(res.is_ok());
    let res = res.unwrap();
    assert!(res.success);
    assert_eq!(res.stdout, "Hello, world!\n");
}

#[test]
fn compile() {
    let req = CompileRequest::default();

    let client = Client::default();
    let call = client.compile(&req).unwrap();
    let reply = answer(
        call,
        Method::Post,
        "https://play.rust-lang.org/compile",
        Some(req.to_json()),
        "{\"success\": true, \"exitDetail\": \"\", \"code\": \"main:\\n\\tret\\n\", \"stdout\": \"\", \"stderr\": \"\"}",
    );
    let res: Result<CompileResponse, Error> = reply.decode();

    println!("{:?}", res);
    assert!(res.is_ok());
    assert_eq!(res.unwrap().code, "main:\n\tret\n");
}

#[test]
fn format() {
    let req = FormatRequest::new(
        Channel::Stable,
        CrateType::Binary,
        Edition::Edition2024,
        "fn main(){println!(\"Hello, world!\");}".to_owned(),
    );

    let client = Client::default();
    let call = client.format(&req).unwrap();
    let reply = answer(
        call,
        Method::Post,
        "https://play.rust-lang.org/format",
        Some(req.to_json()),
        "{\"success\": true, \"exitDetail\": \"\", \"code\": \"fn main() {\\n    println!(\\\"Hello, world!\\\");\\n}\\n\"}",
    );
    let res: Result<FormatResponse, Error> = reply.decode();

    println!("{:?}", res);
    assert!(res.is_ok());
    assert_eq!(
        res.unwrap(),
        FormatResponse {
            success: true,
            exit_detail: String::new(),
            code: "fn main() {\n    println!(\"Hello, world!\");\n}\n".to_owned(),
        }
    );
}

#[test]
fn clippy() {
    let req = ClippyRequest::default();

    let client = Client::default();
    let call = client.clippy(&req).unwrap();
    let reply =
        answer(call, Method::Post, "https://play.rust-lang.org/clippy", Some(req.to_json()), RAN);
    let res: Result<ClippyResponse, Error> = reply.decode();

    println!("{:?}", res);
    assert!(res.is_ok());
}

#[test]
fn miri() {
    let req = MiriRequest::default();

    let client = Client::default();
    let call = client.miri(&req).unwrap();
    let reply =
        answer(call, Method::Post, "https://play.rust-lang.org/miri", Some(req.to_json()), RAN);
    let res: Result<MiriResponse, Error> = reply.decode();

    println!("{:?}", res);
    assert!(res.is_ok());
}

#[test]
fn macro_expansion() {
    let req = MacroExpansionRequest::default();

    let client = Client::default();
    let call = client.macro_expansion(&req).unwrap();
    let reply = answer(
        call,
        Method::Post,
        "https://play.rust-lang.org/macro-expansion",
        Some(req.to_json()),
        RAN,
    );
    let res: Result<MacroExpansionResponse, Error> = reply.decode();

    println!("{:?}", res);
    assert!(res.is_ok());
}

#[test]
fn crates() {
    let client = Client::default();
    let call = client.crates().unwrap();
    let reply = answer(
        call,
        Method::Get,
        "https://play.rust-lang.org/meta/crates",
        None,
        "{\"crates\": [{\"name\": \"rand\", \"version\": \"0.9.2\", \"id\": \"rand\"}]}",
    );
    let res: Result<CratesResponse, Error> = reply.decode();

    println!("{:?}", res);
    assert!(res.is_ok());
    assert_eq!(res.unwrap().crates.len(), 1);
}

#[test]
fn version() {
    let client = Client::default();
    let call = client.versions().unwrap();
    let tool = "{\"version\": \"1.90.0\", \"hash\": \"1159e78c4\", \"date\": \"2025-09-14\"}";
    let channel = format!("{{\"rustc\": {t}, \"rustfmt\": {t}, \"clippy\": {t}, \"miri\": {t}}}", t = tool);
    let body = format!("{{\"stable\": {c}, \"beta\": {c}, \"nightly\": {c}}}", c = channel);
    let reply = answer(call, Method::Get, "https://play.rust-lang.org/meta/versions", None, &body);
    let res: Result<VersionsResponse, Error> = reply.decode();

    println!("{:?}", res);
    assert!(res.is_ok());
    assert_eq!(res.unwrap().nightly.miri.unwrap().version, "1.90.0");
}

#[test]
fn gist_create() {
    let req = GistCreateRequest::new("fn main() { println!(\"Hello, world!\"); }".to_owned());

    let client = Client::default();
    let call = client.gist_create(&req).unwrap();
    let reply = answer(
        call,
        Method::Post,
        "https://play.rust-lang.org/meta/gist",
        Some("{\"code\":\"fn main() { println!(\\\"Hello, world!\\\"); }\"}".to_owned()),
        "{\"id\": \"abc\", \"url\": \"https://gist.github.com/abc\", \"code\": \"fn main() { println!(\\\"Hello, world!\\\"); }\"}",
    );
    let res: Result<GistResponse, Error> = reply.decode();

    println!("{:?}", res);
    assert!(res.is_ok());
    assert_eq!(res.unwrap().code, req.code);
}

#[test]
fn gist_get() {
    let id = "ba5e40fb63e78da440797e921bbf2aa6".to_owned();

    let client = Client::default();
    let call = client.gist_get(id).unwrap();
    let reply = answer(
        call,
        Method::Get,
        "https://play.rust-lang.org/meta/gist/ba5e40fb63e78da440797e921bbf2aa6",
        None,
        "{\"id\": \"ba5e40fb63e78da440797e921bbf2aa6\", \"url\": \"https://gist.github.com/ba5e40fb63e78da440797e921bbf2aa6\", \"code\": \"fn main() {}\"}",
    );
    let res: Result<GistResponse, Error> = reply.decode();

    println!("{:?}", res);
    assert!(res.is_ok());
    assert_eq!(res.unwrap().id, "ba5e40fb63e78da440797e921bbf2aa6");
}

#[test]
fn success() {
    let channel = "stable".to_string();
    let mode = "release".to_string();
    let edition = "2021".to_string();
    let crate_type = "bin".to_string();
    let code = "fn main() { println!(\"Hello, world!\"); }".to_string();

    let request = ExecuteRequest {
        channel: Channel::decode(&channel).unwrap(),
        mode: Mode::decode(&mode).unwrap(),
        edition: Edition::decode(&edition).unwrap(),
        crate_type: CrateType::decode(&crate_type).unwrap(),
        tests: false,
        backtrace: false,
        code,
    };

    let call = post("https://play.rust-lang.org", &request, Endpoints::Execute).unwrap();
    let reply = answer(
        call,
        Method::Post,
        "https://play.rust-lang.org/execute",
        Some(request.to_json()),
        RAN,
    );
    let response: ExecuteResponse = reply.decode().unwrap();
    println!("{:?}", response);
}

#[test]
fn post_to_an_invalid_domain_is_a_url_error() {
    let request = ExecuteRequest::default();
    assert!(matches!(
        post("play.rust-lang.org", &request, Endpoints::Execute),
        Err(Error::Url(url::ParseError::RelativeUrlWithoutBase))
    ));
}

#[test]
fn post_and_get_build_the_call() {
    let client = Client::new("http://localhost:5000/").unwrap();
    let request = GistCreateRequest::new("x".to_owned());
    assert_eq!(
        client.post(&request, Endpoints::GistCreate).unwrap(),
        Call {
            method: Method::Post,
            url: "http://localhost:5000/meta/gist".to_owned(),
            body: Some("{\"code\":\"x\"}".to_owned()),
        }
    );
    assert_eq!(
        client.get(Endpoints::GistGet("x".to_owned())).unwrap(),
        Call {
            method: Method::Get,
            url: "http://localhost:5000/meta/gist/x".to_owned(),
            body: None,
        }
    );
}

#[test]
fn a_call_with_a_body_declares_json() {
    let client = Client::default();
    let sends = client.execute(&ExecuteRequest::default()).unwrap();
    assert!(sends.body.is_some());
    assert_eq!(sends.content_type(), Some("application/json"));
    let fetches = client.versions().unwrap();
    assert!(fetches.body.is_none());
    assert_eq!(fetches.content_type(), None);
}

#[test]
fn gist_get_escapes_the_id() {
    let call = Client::default().gist_get("a?b#c/d".to_owned()).unwrap();
    assert_eq!(call.method, Method::Get);
    assert_eq!(call.url, "https://play.rust-lang.org/meta/gist/a%3Fb%23c%2Fd");
    assert_eq!(call.body, None);
}

#[test]
fn status_404_is_reported_without_reading_the_body() {
    for body in ["", "Not Found", RAN, "{\"success\": true"] {
        let res: Result<ExecuteResponse, Error> = Reply::Answered(404, body.to_owned()).decode();
        assert!(matches!(res, Err(Error::NoSuccess(404))), "{}", body);
    }
}

#[test]
fn only_statuses_200_to_299_succeed() {
    for status in [0, 100, 199, 300, 301, 400, 401, 404, 418, 500, 503, 999, u16::MAX] {
        assert!(!is_success(status));
        let res: Result<ExecuteResponse, Error> = Reply::Answered(status, RAN.to_owned()).decode();
        match res {
            Err(Error::NoSuccess(code)) => assert_eq!(code, status),
            other => panic!("{:?}", other),
        }
    }
    for status in [200, 201, 204, 250, 299] {
        assert!(is_success(status));
        let res: Result<ExecuteResponse, Error> = Reply::Answered(status, RAN.to_owned()).decode();
        assert!(res.is_ok(), "{}", status);
    }
}

#[test]
fn status_200_with_a_missing_field_is_a_decode_error() {
    let body = "{\"success\": true, \"exitDetail\": \"\", \"stderr\": \"\"}";
    let res: Result<ExecuteResponse, Error> = Reply::Answered(200, body.to_owned()).decode();
    match res {
        Err(Error::Decode(e)) => {
            assert_eq!(e, DecodeError { field: "stdout".to_owned(), value: body.to_owned() })
        }
        other => panic!("{:?}", other),
    }
}

#[test]
fn status_200_with_a_body_that_is_no_json_is_a_decode_error() {
    let res: Result<VersionsResponse, Error> =
        Reply::Answered(200, "<html></html>".to_owned()).decode();
    match res {
        Err(Error::Decode(e)) => {
            assert_eq!(e, DecodeError { field: String::new(), value: "<html></html>".to_owned() })
        }
        other => panic!("{:?}", other),
    }
}

#[test]
fn failed_exchange_is_a_transport_error() {
    let res: Result<ExecuteResponse, Error> =
        Reply::Failed("connection refused".to_owned()).decode();
    match res {
        Err(Error::Transport(cause)) => assert_eq!(cause, "connection refused"),
        other => panic!("{:?}", other),
    }
}

#[test]
fn one_client_builds_many_calls() {
    let client = Client::new("https://play.rust-lang.org/").unwrap();
    let copy = client.clone();
    let first = client.crates().unwrap();
    let second = client.crates().unwrap();
    assert_eq!(first, second);
    assert_eq!(copy.versions().unwrap().url, "https://play.rust-lang.org/meta/versions");
    assert_eq!(client, copy);
}
