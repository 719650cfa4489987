use http_method::{Error, Method};
use std::collections::HashSet;
use std::convert::TryFrom;
use std::str::FromStr;

const ALL: [Method; 9] = [
    Method::Get,
    Method::Head,
    Method::Post,
    Method::Put,
    Method::Delete,
    Method::Connect,
    Method::Options,
    Method::Trace,
    Method::Patch,
];

const NAMES: [&str; 9] = [
    "GET", "HEAD", "POST", "PUT", "DELETE", "CONNECT", "OPTIONS", "TRACE", "PATCH",
];

// The serde impls live on the serde-enabled copy of `Method` outside this
// library; here serde_json decodes or encodes the JSON string, and the
// library reads or writes the method text inside it.
#[test]
fn serde() -> Result<(), serde_json::Error> {
    let text: String = serde_json::from_str("\"GET\"")?;
    assert_eq!(Ok(Method::Get), Method::parse(&text));
    assert_eq!(Some("PATCH"), serde_json::to_value(Method::Patch.as_str())?.as_str());
    Ok(())
}

// JSON text naming no method: serde_json decodes the string, the library refuses it.
#[test]
fn serde_fail() {
    let text: String = serde_json::from_str("\"ABC\"").unwrap();
    Method::parse(&text).expect_err("Did deserialize from invalid string");
}

#[test]
fn canonical_names() {
    for (m, name) in ALL.iter().zip(NAMES.iter()) {
        assert_eq!(m.as_str(), *name);
        assert_eq!(m.as_ref(), *name);
    }
}

#[test]
fn round_trip_all_nine() {
    for (m, name) in ALL.iter().zip(NAMES.iter()) {
        let parsed = Method::parse(name).unwrap();
        assert_eq!(parsed, *m);
        assert_eq!(parsed.as_str(), *name);
    }
}

#[test]
fn any_casing_parses() {
    assert_eq!(Method::parse("get"), Ok(Method::Get));
    assert_eq!(Method::parse("Get"), Ok(Method::Get));
    assert_eq!(Method::parse("gEt"), Ok(Method::Get));
    assert_eq!(Method::parse("head"), Ok(Method::Head));
    assert_eq!(Method::parse("Post"), Ok(Method::Post));
    assert_eq!(Method::parse("pUT"), Ok(Method::Put));
    assert_eq!(Method::parse("delete"), Ok(Method::Delete));
    assert_eq!(Method::parse("CoNnEcT"), Ok(Method::Connect));
    assert_eq!(Method::parse("options"), Ok(Method::Options));
    assert_eq!(Method::parse("trace"), Ok(Method::Trace));
    assert_eq!(Method::parse("Patch"), Ok(Method::Patch));
    for name in NAMES.iter() {
        let lower = name.to_lowercase();
        assert_eq!(Method::parse(&lower), Method::parse(name));
    }
}

#[test]
fn rejects_other_text() {
    assert_eq!(Method::parse("ABC"), Err(Error::InvalidMethod("ABC".to_string())));
    assert_eq!(Method::parse(""), Err(Error::InvalidMethod(String::new())));
    assert_eq!(Method::parse("GETS"), Err(Error::InvalidMethod("GETS".to_string())));
    assert_eq!(Method::parse("GE"), Err(Error::InvalidMethod("GE".to_string())));
    assert_eq!(Method::parse(" GET"), Err(Error::InvalidMethod(" GET".to_string())));
    assert_eq!(Method::parse("GET "), Err(Error::InvalidMethod("GET ".to_string())));
    assert!(Method::parse("G\u{0130}T").is_err());
    assert!(Method::parse("GE\u{FF34}").is_err());
}

#[test]
fn from_str_matches_parse() {
    assert_eq!(Method::from_str("options"), Ok(Method::Options));
    assert_eq!("TRACE".parse::<Method>(), Ok(Method::Trace));
    assert_eq!(
        "FETCH".parse::<Method>(),
        Err(Error::InvalidMethod("FETCH".to_string()))
    );
}

#[test]
fn safety_set_exhaustive() {
    assert!(Method::Get.is_safe());
    assert!(Method::Head.is_safe());
    assert!(Method::Options.is_safe());
    assert!(Method::Trace.is_safe());
    assert!(!Method::Post.is_safe());
    assert!(!Method::Put.is_safe());
    assert!(!Method::Delete.is_safe());
    assert!(!Method::Connect.is_safe());
    assert!(!Method::Patch.is_safe());
    let safe: Vec<&str> = ALL.iter().filter(|m| m.is_safe()).map(|m| m.as_str()).collect();
    assert_eq!(safe, vec!["GET", "HEAD", "OPTIONS", "TRACE"]);
}

#[test]
fn copy_and_hash() {
    let set: HashSet<Method> = ALL.iter().copied().collect();
    assert_eq!(set.len(), 9);
    let m = Method::Delete;
    let n = m;
    assert_eq!(m, n);
}

#[test]
fn try_from_matches_parse() {
    for name in NAMES.iter() {
        assert_eq!(Method::try_from(*name), Method::parse(name));
    }
    assert_eq!(Method::try_from("patch"), Ok(Method::Patch));
    assert_eq!(
        Method::try_from("PATC H"),
        Err(Error::InvalidMethod("PATC H".to_string()))
    );
}
