use wickle::anthropic;
use wickle::error::{ContractError, ErrorCode};
use wickle::values::{empty_object_digest, Id, JsonDigest, RecordRef, Scope, VersionedRef};

const EMPTY_OBJECT_SHA256: &str = "44136fa355b3678a1146ad16f7e8649e94fb4fc21fe77e8310c060f61caaff8a";

#[test]
fn contract_error_keeps_code_and_path() {
    let e = ContractError::new(ErrorCode::InvalidSnapshot, "tool_ledger.call_id");
    assert_eq!(e.code, ErrorCode::InvalidSnapshot);
    assert_eq!(e.path, "tool_ledger.call_id");
    let d = e.duplicate();
    assert_eq!(d, e);
}

#[test]
fn contract_error_message_names_the_category_and_location() {
    let e = ContractError::new(ErrorCode::LeaseLost, "agent.finish");
    assert_eq!(e.message(), "LeaseLost at agent.finish");
}

#[test]
fn error_code_names_are_snake_and_variant_case() {
    assert_eq!(ErrorCode::InvalidSnapshot.wire_name(), "invalid_snapshot");
    assert_eq!(ErrorCode::ModelContextIncompatible.wire_name(), "model_context_incompatible");
    assert_eq!(ErrorCode::AccessDenied.debug_name(), "AccessDenied");
    assert_eq!(ErrorCode::ClockRegression.debug_name(), "ClockRegression");
}

#[test]
fn anthropic_errors_are_located_under_the_adapter() {
    let e = anthropic::error(ErrorCode::InvalidJson, "response.body");
    assert_eq!(e.code, ErrorCode::InvalidJson);
    assert_eq!(e.path, "anthropic.response.body");
}

#[test]
fn ids_are_nonempty() {
    let id = Id::new("run-a").unwrap();
    assert_eq!(id.as_str(), "run-a");
    let e = Id::new("").unwrap_err();
    assert_eq!(e.code, ErrorCode::InvalidContract);
    assert_eq!(e.path, "id");
    assert!(id.same(&Id::new("run-a").unwrap()));
    assert!(!id.same(&Id::new("run-b").unwrap()));
    assert_eq!(id.copy(), id);
}

#[test]
fn canonical_digest_is_prefixed_lowercase_sha256() {
    let d = JsonDigest::of_canonical(b"{}");
    assert_eq!(d.as_str(), format!("sorted-json-v1:sha256:{}", EMPTY_OBJECT_SHA256));
    assert_eq!(empty_object_digest(), d);
    let other = JsonDigest::of_canonical(b"{\"a\":1}");
    assert_eq!(
        other.as_str(),
        "sorted-json-v1:sha256:015abd7f5cc57a2dd94b7590f04ad8084273905ee33ec5cebeae62276a97f862"
    );
    assert!(!d.same(&other));
}

#[test]
fn computed_digests_parse_back() {
    let d = JsonDigest::of_canonical(b"[]");
    let parsed = JsonDigest::parse(d.as_str()).unwrap();
    assert!(parsed.same(&d));
}

#[test]
fn digest_parse_rejects_other_formats() {
    let good = format!("sorted-json-v1:sha256:{}", EMPTY_OBJECT_SHA256);
    assert!(JsonDigest::parse(&good).is_ok());
    let upper = format!("sorted-json-v1:sha256:{}", EMPTY_OBJECT_SHA256.to_uppercase());
    assert_eq!(JsonDigest::parse(&upper).unwrap_err().path, "digest");
    let short = format!("sorted-json-v1:sha256:{}", &EMPTY_OBJECT_SHA256[1..]);
    assert!(JsonDigest::parse(&short).is_err());
    let other_prefix = format!("sorted-json-v2:sha256:{}", EMPTY_OBJECT_SHA256);
    assert_eq!(JsonDigest::parse(&other_prefix).unwrap_err().code, ErrorCode::InvalidContract);
    assert!(JsonDigest::parse("").is_err());
}

#[test]
fn references_compare_by_all_fields() {
    let a = RecordRef { record_id: Id::new("r").unwrap(), revision: 1, digest: JsonDigest::of_canonical(b"{}") };
    let b = RecordRef { record_id: Id::new("r").unwrap(), revision: 1, digest: JsonDigest::of_canonical(b"[]") };
    assert!(a.same(&a.copy()));
    assert!(!a.same(&b));
    let v1 = VersionedRef { id: Id::new("verifier").unwrap(), version: Id::new("1.0.0").unwrap() };
    let v2 = VersionedRef { id: Id::new("verifier").unwrap(), version: Id::new("2.0.0").unwrap() };
    assert!(v1.same(&v1.copy()));
    assert!(!v1.same(&v2));
    let s1 = Scope { tenant_id: Id::new("tenant").unwrap(), principal_id: Id::new("user").unwrap() };
    let s2 = Scope { tenant_id: Id::new("other-tenant").unwrap(), principal_id: Id::new("user").unwrap() };
    assert!(s1.same(&s1.copy()));
    assert!(!s1.same(&s2));
}
