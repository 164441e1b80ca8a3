use jwt_gate::key_rotator::{apply_fetch_result, KeyCell, RotatorAction, KEY_EXPIRY_SECS};

/// A throwaway RSA public key, in PEM form, standing in for the broker's
/// published certificate field.
const PUBLIC_PEM: &str = "-----BEGIN PUBLIC KEY-----
MIIBIjANBgkqhkiG9w0BAQEFAAOCAQ8AMIIBCgKCAQEAyRE6rHuNR0QbHO3H3Kt2
pOKGVhQqGZXInOduQNxXzuKlvQTLUTv4l4sggh5/CYYi/cvI+SXVT9kPWSKXxJXB
Xd/4LkvcPuUakBoAkfh+eiFVMh2VrUyWyj3MFl0HTVF9KwRXLAcwkREiS3npThHR
yIxuy0ZMeZfxVL5arMhw1SRELB8HoGfG/AtH89BIE9jDBHZ9dLelK9a184zAf8Lw
oPLxvJb3Il5nncqPcSfKDDodMFBIMc4lQzDKL5gvmiXLXB1AGLm8KBjfE8s3L5xq
i+yUod+j8MtvIj812dkS4QMiRVN/by2h3ZY8LYVGrqZXZTcgn2ujn8uKjXLZVD5T
dQIDAQAB
-----END PUBLIC KEY-----";

const OTHER_PUBLIC_PEM: &str = "-----BEGIN PUBLIC KEY-----
MIIBIjANBgkqhkiG9w0BAQEFAAOCAQ8AMIIBCgKCAQEAnzyis1ZjfNB0bBgKFMSv
vkTtwlvBsaJq7S5wA+kzeVOVpVWwkWdVha4s38XM/pa/yr47av7+z3VTmvDRyAHc
aT92whREFpLv9cj5lTeJSibyr/Mrm/YtjCZVWgaOYIhwrXwKLqPr/11inWsAkfIy
tvHWTxZYEcXLgAXFuUuaS3uF9gEiNQwzGTU1v0FqkqTBr4B8nW3HCN47XUu0t8Y0
e+lf4s4OxQawWD79J9/5d3Ry0vbV3Am1FtGJiJvOwRsIfVChDpYStTcHTCMqtvWb
V6L11BWkpzGXSW4Hv43qa+GSYOD2QU68Mb59oSk2OB+BtOLpJofmbGEGgvmwyCI9
MwIDAQAB
-----END PUBLIC KEY-----";

/// The broker's reply shape: a JSON document with the key under
/// `public_cert.cert`.
fn certs_body(cert: &str) -> String {
    let mut root = serde_json::Map::new();
    let mut public_cert = serde_json::Map::new();
    public_cert.insert("cert".to_string(), serde_json::Value::String(cert.to_string()));
    root.insert("public_cert".to_string(), serde_json::Value::Object(public_cert));
    serde_json::Value::Object(root).to_string()
}

#[test]
fn fetch_failure_leaves_the_cell_alone() {
    let mut cell = KeyCell::new();
    assert_eq!(apply_fetch_result(&mut cell, None, 50), RotatorAction::RetryNow);
    assert!(cell.get(50).is_none());
}

#[test]
fn unparsable_body_is_one_fetch_error() {
    let mut cell = KeyCell::new();
    let action = apply_fetch_result(&mut cell, Some("not a json document"), 50);
    assert_eq!(action, RotatorAction::RetryNow);
    assert!(cell.get(50).is_none());
}

#[test]
fn body_without_the_certificate_field_is_refused() {
    let mut cell = KeyCell::new();
    let action = apply_fetch_result(&mut cell, Some(r#"{"public_cert":{}}"#), 50);
    assert_eq!(action, RotatorAction::RetryNow);
    assert!(cell.get(50).is_none());
}

#[test]
fn certificate_that_is_no_key_material_is_refused() {
    let mut cell = KeyCell::new();
    let body = certs_body("not a pem document");
    let action = apply_fetch_result(&mut cell, Some(&body), 50);
    assert_eq!(action, RotatorAction::RetryNow);
    assert!(cell.get(50).is_none());
}

#[test]
fn usable_reply_installs_the_extracted_key() {
    let mut cell = KeyCell::new();
    let body = certs_body(PUBLIC_PEM);
    let action = apply_fetch_result(&mut cell, Some(&body), 75);
    assert_eq!(action, RotatorAction::SleepThenRefetch);
    let rec = cell.get(75).expect("the new record must be visible");
    // the installed key is the extracted field, not the reply text
    assert_eq!(rec.key, PUBLIC_PEM.as_bytes().to_vec());
    assert_eq!(rec.fetched_at, 75);
}

#[test]
fn later_fetch_replaces_the_record_wholesale() {
    let mut cell = KeyCell::new();
    let first = certs_body(PUBLIC_PEM);
    let second = certs_body(OTHER_PUBLIC_PEM);
    assert_eq!(apply_fetch_result(&mut cell, Some(&first), 10), RotatorAction::SleepThenRefetch);
    assert_eq!(apply_fetch_result(&mut cell, Some(&second), 20), RotatorAction::SleepThenRefetch);
    let rec = cell.get(20).expect("the replacement must be visible");
    assert_eq!(rec.key, OTHER_PUBLIC_PEM.as_bytes().to_vec());
    assert_eq!(rec.fetched_at, 20);
}

#[test]
fn failed_round_keeps_the_previous_record() {
    let mut cell = KeyCell::new();
    let body = certs_body(PUBLIC_PEM);
    assert_eq!(apply_fetch_result(&mut cell, Some(&body), 10), RotatorAction::SleepThenRefetch);
    assert_eq!(apply_fetch_result(&mut cell, None, 10 + KEY_EXPIRY_SECS), RotatorAction::RetryNow);
    // the old record stays in place, even though it is expired by now
    assert!(cell.get(10 + KEY_EXPIRY_SECS).is_none());
    assert!(cell.get(10).is_some());
}
