use natayark_login::envelope::{Login, LoginData};
use natayark_login::error::LoginError;

fn decode(body: &str) -> Result<Login, LoginError> {
    Login::decode(body.as_bytes())
}

#[test]
fn decode_reads_all_four_members() {
    assert_eq!(
        decode(r#"{"flag":true,"msg":"ok","data":"session-1","code":200}"#),
        Ok(Login {
            flag: true,
            msg: "ok".to_string(),
            data: Some(LoginData::Text("session-1".to_string())),
            code: Some(200),
        })
    );
}

#[test]
fn decode_needs_neither_data_nor_code() {
    assert_eq!(
        decode(r#"{"flag":false,"msg":"denied"}"#),
        Ok(Login { flag: false, msg: "denied".to_string(), data: None, code: None })
    );
}

#[test]
fn decode_takes_null_for_not_given() {
    assert_eq!(
        decode(r#"{"flag":true,"msg":"","data":null,"code":null}"#),
        Ok(Login { flag: true, msg: String::new(), data: None, code: None })
    );
}

#[test]
fn decode_passes_over_members_that_it_does_not_know() {
    assert_eq!(
        decode(r#" {"extra":[1,2],"msg":"m","flag":true} "#),
        Ok(Login { flag: true, msg: "m".to_string(), data: None, code: None })
    );
}

#[test]
fn decode_reads_the_code_of_an_object() {
    assert_eq!(
        decode(r#"{"flag":true,"msg":"m","data":{"code":"xyz","more":1}}"#).map(|l| l.data),
        Ok(Some(LoginData::Code("xyz".to_string())))
    );
}

#[test]
fn decode_tells_other_payloads() {
    for data in [r#"{}"#, r#"{"code":7}"#, r#"{"code":null}"#, r#"["code"]"#, "12", "true", "1.5"] {
        let body = format!(r#"{{"flag":true,"msg":"m","data":{}}}"#, data);
        assert_eq!(decode(&body).map(|l| l.data), Ok(Some(LoginData::Other)));
    }
}

#[test]
fn decode_unescapes_strings() {
    assert_eq!(
        decode(r#"{"flag":true,"msg":"a\"bé","data":"x\ny"}"#),
        Ok(Login {
            flag: true,
            msg: "a\"b\u{e9}".to_string(),
            data: Some(LoginData::Text("x\ny".to_string())),
            code: None,
        })
    );
}

#[test]
fn decode_refuses_what_is_not_json() {
    for body in ["", "flag", "{", r#"{"flag":true,"msg":"m"} trailing"#, r#"{"flag":true,"msg":"m",}"#] {
        assert_eq!(decode(body), Err(LoginError::Decode));
    }
    assert_eq!(Login::decode(&[0xff, 0xfe]), Err(LoginError::Decode));
}

#[test]
fn decode_refuses_a_document_without_flag_or_msg() {
    for body in [
        r#"{"msg":"m"}"#,
        r#"{"flag":true}"#,
        r#"{"flag":true,"data":{"code":"xyz"}}"#,
        r#"{}"#,
        r#"[true,"m"]"#,
        r#""flag""#,
        "null",
    ] {
        assert_eq!(decode(body), Err(LoginError::Decode));
    }
}

#[test]
fn decode_refuses_flag_and_msg_of_another_kind() {
    for body in [
        r#"{"flag":"true","msg":"m"}"#,
        r#"{"flag":1,"msg":"m"}"#,
        r#"{"flag":null,"msg":"m"}"#,
        r#"{"flag":true,"msg":5}"#,
        r#"{"flag":true,"msg":null}"#,
    ] {
        assert_eq!(decode(body), Err(LoginError::Decode));
    }
}

#[test]
fn decode_takes_every_code_that_fits() {
    for (text, code) in [("0", 0), ("-1", -1), ("4001", 4001), ("2147483647", i32::MAX), ("-2147483648", i32::MIN)] {
        let body = format!(r#"{{"flag":false,"msg":"m","code":{}}}"#, text);
        assert_eq!(decode(&body).map(|l| l.code), Ok(Some(code)));
    }
}

#[test]
fn decode_refuses_a_code_that_is_no_i32() {
    for text in ["2147483648", "-2147483649", "18446744073709551615", "4001.0", "1e3", "\"4001\"", "true", "[]"] {
        let body = format!(r#"{{"flag":false,"msg":"m","code":{}}}"#, text);
        assert_eq!(decode(&body), Err(LoginError::Decode));
    }
}

#[test]
fn from_json_reads_a_value_of_serde_json() {
    let mut members = serde_json::Map::new();
    members.insert("flag".to_string(), serde_json::Value::Bool(true));
    members.insert("msg".to_string(), serde_json::Value::String("hello".to_string()));
    members.insert("code".to_string(), serde_json::Value::from(12));
    let mut inner = serde_json::Map::new();
    inner.insert("code".to_string(), serde_json::Value::String("xyz".to_string()));
    members.insert("data".to_string(), serde_json::Value::Object(inner));
    assert_eq!(
        Login::from_json(&serde_json::Value::Object(members)),
        Some(Login {
            flag: true,
            msg: "hello".to_string(),
            data: Some(LoginData::Code("xyz".to_string())),
            code: Some(12),
        })
    );
    assert_eq!(Login::from_json(&serde_json::Value::Bool(true)), None);
}

#[test]
fn data_from_json_tells_the_three_kinds() {
    assert_eq!(
        LoginData::from_json(&serde_json::Value::String("s".to_string())),
        LoginData::Text("s".to_string())
    );
    let mut inner = serde_json::Map::new();
    inner.insert("code".to_string(), serde_json::Value::String("c".to_string()));
    assert_eq!(LoginData::from_json(&serde_json::Value::Object(inner)), LoginData::Code("c".to_string()));
    assert_eq!(LoginData::from_json(&serde_json::Value::Null), LoginData::Other);
    assert_eq!(LoginData::from_json(&serde_json::Value::from(3)), LoginData::Other);
}

#[test]
fn accepted_passes_an_envelope_with_the_flag_set() {
    let envelope = Login { flag: true, msg: "ok".to_string(), data: None, code: Some(7) };
    assert_eq!(
        envelope.accepted(),
        Ok(Login { flag: true, msg: "ok".to_string(), data: None, code: Some(7) })
    );
}

#[test]
fn accepted_turns_a_refusal_into_a_provider_error() {
    let envelope = Login {
        flag: false,
        msg: "expired session".to_string(),
        data: Some(LoginData::Text("ignored".to_string())),
        code: Some(4001),
    };
    assert_eq!(
        envelope.accepted(),
        Err(LoginError::Provider { code: 4001, msg: "expired session".to_string() })
    );
}

#[test]
fn a_refusal_without_code_is_reported_with_minus_one() {
    let envelope = Login { flag: false, msg: "no".to_string(), data: None, code: None };
    assert_eq!(envelope.accepted(), Err(LoginError::Provider { code: -1, msg: "no".to_string() }));
}
