use grand_eden_launcher::json::Json;
use grand_eden_launcher::rules::{is_arg_allowed, is_lib_allowed};

fn s(t: &str) -> Json {
    Json::Str(t.to_string())
}

fn obj(members: Vec<(&str, Json)>) -> Json {
    Json::Object(members.into_iter().map(|(k, v)| (k.to_string(), v)).collect())
}

fn rule(action: Option<&str>, os: Option<&str>) -> Json {
    let mut m = Vec::new();
    if let Some(a) = action {
        m.push(("action", s(a)));
    }
    if let Some(o) = os {
        m.push(("os", obj(vec![("name", s(o))])));
    }
    obj(m)
}

fn lib_with(rules: Vec<Json>) -> Json {
    obj(vec![("name", s("x")), ("rules", Json::Array(rules))])
}

#[test]
fn library_without_rules_is_loaded() {
    assert!(is_lib_allowed(&obj(vec![("name", s("x"))])));
    assert!(is_lib_allowed(&obj(vec![("rules", s("not an array"))])));
    assert!(is_lib_allowed(&Json::Null));
}

#[test]
fn library_with_empty_rules_is_not_loaded() {
    assert!(!is_lib_allowed(&lib_with(vec![])));
}

#[test]
fn library_rules_for_windows() {
    assert!(is_lib_allowed(&lib_with(vec![rule(Some("allow"), None)])));
    assert!(is_lib_allowed(&lib_with(vec![rule(None, None)])));
    assert!(is_lib_allowed(&lib_with(vec![rule(Some("allow"), Some("windows"))])));
    assert!(!is_lib_allowed(&lib_with(vec![rule(Some("allow"), Some("osx"))])));
    assert!(!is_lib_allowed(&lib_with(vec![rule(Some("disallow"), None)])));
    assert!(is_lib_allowed(&lib_with(vec![rule(Some("allow"), None), rule(Some("disallow"), Some("osx"))])));
}

#[test]
fn windows_disallow_excludes_wherever_it_stands() {
    let deny = rule(Some("disallow"), Some("windows"));
    let allow = rule(Some("allow"), None);
    assert!(!is_lib_allowed(&lib_with(vec![allow.clone_json(), deny.clone_json()])));
    assert!(!is_lib_allowed(&lib_with(vec![deny, allow])));
}

#[test]
fn library_verdict_ignores_rule_order() {
    let a = rule(Some("allow"), Some("windows"));
    let b = rule(Some("disallow"), Some("linux"));
    let c = rule(Some("allow"), Some("osx"));
    let v1 = is_lib_allowed(&lib_with(vec![a.clone_json(), b.clone_json(), c.clone_json()]));
    let v2 = is_lib_allowed(&lib_with(vec![c, b, a]));
    assert_eq!(v1, v2);
    assert!(v1);
}

#[test]
fn os_without_name_is_not_windows() {
    let r = obj(vec![("action", s("allow")), ("os", obj(vec![]))]);
    assert!(!is_lib_allowed(&lib_with(vec![r])));
}

#[test]
fn conditional_argument_rules() {
    let arg = |rules: Vec<Json>| obj(vec![("rules", Json::Array(rules)), ("value", s("-x"))]);
    assert!(is_arg_allowed(&obj(vec![("value", s("-x"))])));
    assert!(!is_arg_allowed(&arg(vec![])));
    assert!(is_arg_allowed(&arg(vec![rule(Some("allow"), Some("windows"))])));
    assert!(!is_arg_allowed(&arg(vec![rule(Some("allow"), Some("windows")), rule(Some("disallow"), Some("windows"))])));
    assert!(is_arg_allowed(&arg(vec![rule(Some("disallow"), Some("windows")), rule(Some("allow"), None)])));
    let featured = obj(vec![("action", s("allow")), ("features", obj(vec![("is_demo_user", Json::Bool(true))]))]);
    assert!(!is_arg_allowed(&arg(vec![featured])));
    assert!(!is_arg_allowed(&arg(vec![rule(Some("allow"), Some("linux"))])));
}


trait CloneJson {
    fn clone_json(&self) -> Json;
}

impl CloneJson for Json {
    fn clone_json(&self) -> Json {
        match self {
            Json::Null => Json::Null,
            Json::Bool(b) => Json::Bool(*b),
            Json::Number(n) => Json::Number(n.clone()),
            Json::Str(t) => Json::Str(t.clone()),
            Json::Array(a) => Json::Array(a.iter().map(|j| j.clone_json()).collect()),
            Json::Object(m) => Json::Object(m.iter().map(|(k, v)| (k.clone(), v.clone_json())).collect()),
        }
    }
}
