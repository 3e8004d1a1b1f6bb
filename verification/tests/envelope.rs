use axum_jrpc::decode::DecodeError;
use axum_jrpc::decode::EnvelopeError;
use axum_jrpc::decode::Field;
use axum_jrpc::error::JsonRpcError;
use axum_jrpc::error::JsonRpcErrorReason;
use axum_jrpc::Id;
use axum_jrpc::JsonRpcAnswer;
use axum_jrpc::JsonRpcRequest;
use axum_jrpc::JsonRpcResponse;
use serde_json::Value;

fn parse(text: &str) -> Value {
    serde_json::from_str(text).unwrap()
}

fn copy(request: &JsonRpcRequest) -> JsonRpcRequest {
    JsonRpcRequest {
        id: request.id.clone(),
        method: request.method.clone(),
        params: request.params.clone(),
    }
}

fn add_params() -> Value {
    let mut params = serde_json::Map::new();
    params.insert("a".to_owned(), Value::from(0));
    params.insert("b".to_owned(), Value::from(111));
    Value::Object(params)
}

#[test]
fn id_converts_from_its_three_sources() {
    assert_eq!(Id::from(7i64), Id::Num(7));
    assert_eq!(Id::from("x".to_owned()), Id::Str("x".to_owned()));
    assert_eq!(Id::from(()), Id::Null(()));
    let id: Id = 0.into();
    assert_eq!(id, Id::Num(0));
}

#[test]
fn id_is_written_bare() {
    assert_eq!(Id::Num(-3).serialize(), Value::from(-3));
    assert_eq!(Id::Num(i64::MIN).serialize(), Value::from(i64::MIN));
    assert_eq!(Id::Str("abc".to_owned()).serialize(), Value::from("abc"));
    assert_eq!(Id::Null(()).serialize(), Value::Null);
}

#[test]
fn id_is_read_as_number_then_string_then_null() {
    assert_eq!(Id::deserialize(&parse("12")), Some(Id::Num(12)));
    assert_eq!(Id::deserialize(&parse("-12")), Some(Id::Num(-12)));
    assert_eq!(Id::deserialize(&parse("9223372036854775807")), Some(Id::Num(i64::MAX)));
    assert_eq!(Id::deserialize(&parse("\"12\"")), Some(Id::Str("12".to_owned())));
    assert_eq!(Id::deserialize(&parse("\"\"")), Some(Id::Str(String::new())));
    assert_eq!(Id::deserialize(&parse("null")), Some(Id::Null(())));
}

#[test]
fn id_refuses_other_values() {
    assert_eq!(Id::deserialize(&parse("1.5")), None);
    assert_eq!(Id::deserialize(&parse("1.0")), None);
    assert_eq!(Id::deserialize(&parse("9223372036854775808")), None);
    assert_eq!(Id::deserialize(&parse("true")), None);
    assert_eq!(Id::deserialize(&parse("[1]")), None);
    assert_eq!(Id::deserialize(&parse("{}")), None);
}

#[test]
fn id_round_trips() {
    for id in [Id::Num(0), Id::Num(i64::MAX), Id::Num(i64::MIN), Id::Str("id-1".to_owned()), Id::Null(())] {
        assert_eq!(Id::deserialize(&id.serialize()), Some(id.clone()));
    }
}

#[test]
fn request_is_written_with_four_members_in_order() {
    let request = JsonRpcRequest { id: Id::Num(0), method: "add".to_owned(), params: add_params() };
    assert_eq!(
        request.to_json(),
        r#"{"jsonrpc":"2.0","id":0,"method":"add","params":{"a":0,"b":111}}"#
    );
    let value = request.serialize();
    let members = value.as_object().unwrap();
    assert_eq!(members.len(), 4);
    let names: Vec<&str> = members.keys().map(|name| name.as_str()).collect();
    assert_eq!(names, vec!["jsonrpc", "id", "method", "params"]);
    assert_eq!(members["jsonrpc"], Value::from("2.0"));
}

#[test]
fn request_round_trips() {
    for id in [Id::Num(5), Id::Str("five".to_owned()), Id::Null(())] {
        let request = JsonRpcRequest { id, method: "m".to_owned(), params: add_params() };
        assert_eq!(JsonRpcRequest::deserialize(&request.serialize()), Ok(copy(&request)));
        assert_eq!(
            JsonRpcRequest::from_slice(request.to_json().as_bytes()),
            Ok(copy(&request))
        );
    }
}

#[test]
fn request_is_read_from_text() {
    let text = br#"{"jsonrpc":"2.0","id":0,"method":"add","params":{"a":0,"b":111}}"#;
    let request = JsonRpcRequest::from_slice(text).unwrap();
    assert_eq!(request.id, Id::Num(0));
    assert_eq!(request.method, "add");
    assert_eq!(request.params, add_params());
}

#[test]
fn request_members_may_come_in_any_order() {
    let text = br#"{"params":[1,2],"method":"sub","id":"a","jsonrpc":"2.0"}"#;
    let request = JsonRpcRequest::from_slice(text).unwrap();
    assert_eq!(request.id, Id::Str("a".to_owned()));
    assert_eq!(request.method, "sub");
    assert_eq!(request.params, parse("[1,2]"));
}

#[test]
fn request_with_another_version_is_refused() {
    for version in ["\"1.0\"", "\"2\"", "\"2.00\"", "\"\"", "\" 2.0\""] {
        let text = format!(r#"{{"jsonrpc":{},"id":0,"method":"add","params":null}}"#, version);
        let read = JsonRpcRequest::from_slice(text.as_bytes());
        assert_eq!(read, Err(DecodeError::Envelope(EnvelopeError::UnknownVersion)));
        assert_eq!(read.unwrap_err().to_string(), "Unknown jsonrpc version");
    }
}

#[test]
fn request_with_a_version_that_is_no_string_is_refused() {
    let value = parse(r#"{"jsonrpc":2.0,"id":0,"method":"add","params":null}"#);
    assert_eq!(
        JsonRpcRequest::deserialize(&value),
        Err(EnvelopeError::InvalidField(Field::Jsonrpc))
    );
}

#[test]
fn request_without_a_member_is_refused() {
    let cases = [
        (r#"{"id":0,"method":"add","params":null}"#, Field::Jsonrpc),
        (r#"{"jsonrpc":"2.0","method":"add","params":null}"#, Field::Id),
        (r#"{"jsonrpc":"2.0","id":0,"params":null}"#, Field::Method),
        (r#"{"jsonrpc":"2.0","id":0,"method":"add"}"#, Field::Params),
        (r#"{}"#, Field::Jsonrpc),
    ];
    for (text, field) in cases {
        assert_eq!(
            JsonRpcRequest::deserialize(&parse(text)),
            Err(EnvelopeError::MissingField(field))
        );
    }
}

#[test]
fn request_with_a_mistyped_member_is_refused() {
    let cases = [
        (r#"{"jsonrpc":"2.0","id":1.5,"method":"add","params":null}"#, Field::Id),
        (r#"{"jsonrpc":"2.0","id":[],"method":"add","params":null}"#, Field::Id),
        (r#"{"jsonrpc":"2.0","id":0,"method":7,"params":null}"#, Field::Method),
        (r#"{"jsonrpc":"2.0","id":0,"method":null,"params":null}"#, Field::Method),
    ];
    for (text, field) in cases {
        assert_eq!(
            JsonRpcRequest::deserialize(&parse(text)),
            Err(EnvelopeError::InvalidField(field))
        );
    }
}

#[test]
fn request_with_an_unknown_member_is_refused() {
    let value = parse(r#"{"jsonrpc":"2.0","id":0,"method":"add","params":null,"extra":1}"#);
    assert_eq!(JsonRpcRequest::deserialize(&value), Err(EnvelopeError::UnknownField));
}

#[test]
fn request_that_is_no_object_is_refused() {
    for text in ["[\"2.0\",0,\"add\",null]", "\"x\"", "1", "null", "true"] {
        assert_eq!(JsonRpcRequest::deserialize(&parse(text)), Err(EnvelopeError::NotAnObject));
    }
}

#[test]
fn text_that_is_no_json_is_a_syntax_error() {
    for text in ["", "{", "{\"jsonrpc\":", "not json", "{} trailing"] {
        match JsonRpcRequest::from_slice(text.as_bytes()) {
            Err(DecodeError::Syntax(said)) => {
                let expected = serde_json::from_str::<Value>(text).unwrap_err().to_string();
                assert_eq!(said, expected);
            }
            other => panic!("expected a syntax error, got {:?}", other),
        }
    }
    assert!(matches!(JsonRpcResponse::from_slice(b"\xff"), Err(DecodeError::Syntax(_))));
}

#[test]
fn envelope_errors_have_their_messages() {
    assert_eq!(EnvelopeError::NotAnObject.to_string(), "expected a JSON object");
    assert_eq!(EnvelopeError::MissingField(Field::Id).to_string(), "missing field `id`");
    assert_eq!(
        EnvelopeError::MissingField(Field::Jsonrpc).to_string(),
        "missing field `jsonrpc`"
    );
    assert_eq!(
        EnvelopeError::InvalidField(Field::Method).to_string(),
        "invalid type for field `method`"
    );
    assert_eq!(EnvelopeError::UnknownField.to_string(), "unknown field");
    assert_eq!(EnvelopeError::UnknownVersion.to_string(), "Unknown jsonrpc version");
    assert_eq!(EnvelopeError::MissingAnswer.to_string(), "missing field `result` or `error`");
    assert_eq!(
        EnvelopeError::AmbiguousAnswer.to_string(),
        "both `result` and `error` are present"
    );
    assert_eq!(DecodeError::Syntax("eof".to_owned()).to_string(), "eof");
    assert_eq!(
        DecodeError::Envelope(EnvelopeError::UnknownField).to_string(),
        "unknown field"
    );
}

#[test]
fn field_names_are_the_wire_names() {
    assert_eq!(Field::Jsonrpc.name(), "jsonrpc");
    assert_eq!(Field::Id.name(), "id");
    assert_eq!(Field::Method.name(), "method");
    assert_eq!(Field::Params.name(), "params");
    assert_eq!(Field::Error.name(), "error");
    assert_eq!(Field::Code.name(), "code");
    assert_eq!(Field::Message.name(), "message");
    assert_eq!(Field::Data.name(), "data");
}

#[test]
fn error_object_is_written_with_three_members_in_order() {
    let error = JsonRpcError::new(
        JsonRpcErrorReason::InvalidParams,
        "bad \"shape\"".to_owned(),
        parse("[1,2]"),
    );
    let value = error.serialize();
    assert_eq!(value.to_string(), r#"{"code":-32602,"message":"bad \"shape\"","data":[1,2]}"#);
    assert_eq!(JsonRpcError::deserialize(&value), Ok(error));
}

#[test]
fn error_object_is_read_strictly() {
    let read = |text: &str| JsonRpcError::deserialize(&parse(text));
    assert_eq!(read("[]"), Err(EnvelopeError::InvalidField(Field::Error)));
    assert_eq!(read(r#"{"message":"m","data":null}"#), Err(EnvelopeError::MissingField(Field::Code)));
    assert_eq!(read(r#"{"code":1,"data":null}"#), Err(EnvelopeError::MissingField(Field::Message)));
    assert_eq!(read(r#"{"code":1,"message":"m"}"#), Err(EnvelopeError::MissingField(Field::Data)));
    assert_eq!(
        read(r#"{"code":"1","message":"m","data":null}"#),
        Err(EnvelopeError::InvalidField(Field::Code))
    );
    assert_eq!(
        read(r#"{"code":2147483648,"message":"m","data":null}"#),
        Err(EnvelopeError::InvalidField(Field::Code))
    );
    assert_eq!(
        read(r#"{"code":-2147483649,"message":"m","data":null}"#),
        Err(EnvelopeError::InvalidField(Field::Code))
    );
    assert_eq!(
        read(r#"{"code":1,"message":2,"data":null}"#),
        Err(EnvelopeError::InvalidField(Field::Message))
    );
    let error = read(r#"{"code":-2147483648,"message":"m","data":{"k":1},"more":true}"#).unwrap();
    assert_eq!(error.code(), i32::MIN);
    assert_eq!(error.message(), "m");
    assert_eq!(error.data(), &parse(r#"{"k":1}"#));
}

#[test]
fn success_response_is_written_as_result() {
    let response = JsonRpcResponse::success(0, 111, serde_json::to_value);
    assert_eq!(response.result, JsonRpcAnswer::Result(Value::from(111)));
    assert_eq!(response.id, Id::Num(0));
    assert_eq!(response.to_json(), r#"{"jsonrpc":"2.0","result":111,"id":0}"#);
}

#[test]
fn error_response_is_written_as_error() {
    let error = JsonRpcError::new(
        JsonRpcErrorReason::MethodNotFound,
        format!("Method `{}` not found", "lol"),
        Value::Null,
    );
    let response = JsonRpcResponse::error(0, error);
    assert_eq!(
        response.to_json(),
        r#"{"jsonrpc":"2.0","error":{"code":-32601,"message":"Method `lol` not found","data":null},"id":0}"#
    );
}

#[test]
fn response_has_exactly_one_of_result_and_error() {
    let success = JsonRpcResponse::success("a".to_owned(), "ok", serde_json::to_value).serialize();
    let members = success.as_object().unwrap();
    assert_eq!(members.len(), 3);
    assert!(members.contains_key("result"));
    assert!(!members.contains_key("error"));
    let names: Vec<&str> = members.keys().map(|name| name.as_str()).collect();
    assert_eq!(names, vec!["jsonrpc", "result", "id"]);

    let error = JsonRpcError::new(JsonRpcErrorReason::InternalError, "x".to_owned(), Value::Null);
    let failure = JsonRpcResponse::error((), error).serialize();
    let members = failure.as_object().unwrap();
    assert_eq!(members.len(), 3);
    assert!(members.contains_key("error"));
    assert!(!members.contains_key("result"));
    let names: Vec<&str> = members.keys().map(|name| name.as_str()).collect();
    assert_eq!(names, vec!["jsonrpc", "error", "id"]);
    assert_eq!(members["id"], Value::Null);
}

#[test]
fn response_round_trips() {
    let success = JsonRpcResponse::success(3, vec![1, 2, 3], serde_json::to_value);
    assert_eq!(JsonRpcResponse::deserialize(&success.serialize()), Ok(success.clone()));
    assert_eq!(JsonRpcResponse::from_slice(success.to_json().as_bytes()), Ok(success));

    let error = JsonRpcError::new(
        JsonRpcErrorReason::ServerError(-32099),
        "Divisor must not be equal to 0".to_owned(),
        parse(r#"{"divisor":0}"#),
    );
    let failure = JsonRpcResponse::error("q".to_owned(), error);
    assert_eq!(JsonRpcResponse::deserialize(&failure.serialize()), Ok(failure.clone()));
    let read = JsonRpcResponse::from_slice(failure.to_json().as_bytes()).unwrap();
    assert_eq!(read.id, Id::Str("q".to_owned()));
    assert_eq!(read, failure);
}

#[test]
fn response_is_read_strictly() {
    let read = |text: &str| JsonRpcResponse::deserialize(&parse(text));
    assert_eq!(read("7"), Err(EnvelopeError::NotAnObject));
    assert_eq!(read(r#"{"result":1,"id":0}"#), Err(EnvelopeError::MissingField(Field::Jsonrpc)));
    assert_eq!(read(r#"{"jsonrpc":"2.0","id":0}"#), Err(EnvelopeError::MissingAnswer));
    assert_eq!(
        read(r#"{"jsonrpc":"2.0","result":1,"error":{"code":1,"message":"m","data":null},"id":0}"#),
        Err(EnvelopeError::AmbiguousAnswer)
    );
    assert_eq!(read(r#"{"jsonrpc":"2.0","result":1}"#), Err(EnvelopeError::MissingField(Field::Id)));
    assert_eq!(
        read(r#"{"jsonrpc":2,"result":1,"id":0}"#),
        Err(EnvelopeError::InvalidField(Field::Jsonrpc))
    );
    assert_eq!(
        read(r#"{"jsonrpc":"2.0","error":5,"id":0}"#),
        Err(EnvelopeError::InvalidField(Field::Error))
    );
    assert_eq!(
        read(r#"{"jsonrpc":"2.0","error":{"code":1,"data":null},"id":0}"#),
        Err(EnvelopeError::MissingField(Field::Message))
    );
    assert_eq!(
        read(r#"{"jsonrpc":"2.0","result":1,"id":false}"#),
        Err(EnvelopeError::InvalidField(Field::Id))
    );
    assert_eq!(read(r#"{"jsonrpc":"1.0","result":1,"id":0}"#), Err(EnvelopeError::UnknownVersion));
    let response = read(r#"{"id":null,"result":null,"jsonrpc":"2.0","more":1}"#).unwrap();
    assert_eq!(response.id, Id::Null(()));
    assert_eq!(response.result, JsonRpcAnswer::Result(Value::Null));
}

#[test]
fn error_keeps_the_error_as_it_is() {
    let error = JsonRpcError::new(JsonRpcErrorReason::ServerError(5), "odd".to_owned(), parse("[0]"));
    let response = JsonRpcResponse::error(9, error.clone());
    assert_eq!(response.result, JsonRpcAnswer::Error(error));
    assert_eq!(response.id, Id::Num(9));
}

#[test]
fn failure_builds_an_error_without_data() {
    let response = JsonRpcResponse::failure(
        Id::Str("z".to_owned()),
        JsonRpcErrorReason::InvalidRequest,
        "no".to_owned(),
    );
    assert_eq!(response.id, Id::Str("z".to_owned()));
    assert_eq!(
        response.result,
        JsonRpcAnswer::Error(JsonRpcError::new(
            JsonRpcErrorReason::InvalidRequest,
            "no".to_owned(),
            Value::Null
        ))
    );
}

#[test]
fn result_that_is_no_json_gives_an_internal_error() {
    let mut unrepresentable = std::collections::BTreeMap::new();
    unrepresentable.insert(vec![1, 2], 3);
    let expected = serde_json::to_value(&unrepresentable).unwrap_err().to_string();
    let response = JsonRpcResponse::success(4, unrepresentable, serde_json::to_value);
    assert_eq!(response.id, Id::Num(4));
    match &response.result {
        JsonRpcAnswer::Error(error) => {
            assert_eq!(error.code(), -32603);
            assert_eq!(error.error_reason(), JsonRpcErrorReason::InternalError);
            assert_eq!(error.message(), expected);
            assert_eq!(error.data(), &Value::Null);
        }
        JsonRpcAnswer::Result(value) => panic!("expected an error, got {}", value),
    }
    let written = parse(&response.to_json());
    assert_eq!(written["error"]["code"], Value::from(-32603));
    assert_eq!(written["id"], Value::from(4));
}

#[test]
fn error_response_is_written_the_same_twice() {
    let error = JsonRpcError::new(
        JsonRpcErrorReason::InvalidParams,
        "missing field `b`".to_owned(),
        parse(r#"{"z":1,"a":[true,null,1.5]}"#),
    );
    let response = JsonRpcResponse::error("id".to_owned(), error);
    let first = response.to_json();
    let second = response.to_json();
    assert_eq!(first.as_bytes(), second.as_bytes());
    let again = JsonRpcResponse::from_slice(first.as_bytes()).unwrap().to_json();
    assert_eq!(first, again);
}
