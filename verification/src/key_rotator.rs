//! The key cache and the rotation step that feeds it.
//!
//! `KeyCell` holds zero or one `JwksData` record: the broker's verification
//! key as PEM bytes, paired with the instant it was fetched. The rotation
//! task is the cell's only writer; the validation path only reads it.

use vstd::prelude::*;

use crate::validator::ValidateError;

verus! {

/// Seconds the rotation task sleeps between two successful key refreshes.
pub const KEY_ROTATE_INTERVAL_SECS: u64 = 3600 * 24;

/// Seconds after which a fetched key is no longer trusted.
pub const KEY_EXPIRY_SECS: u64 = 3600 * 24 * 3;

/// A verification key, as the PEM bytes the broker published, paired with
/// the clock reading (in seconds) at which it was fetched. Immutable: a new
/// fetch always builds a fresh record, never mutates an old one.
pub struct JwksData {
    pub key: Vec<u8>,
    pub fetched_at: u64,
}

/// The mathematical image of a `JwksData` record.
pub struct JwksDataView {
    pub key: Seq<u8>,
    pub fetched_at: u64,
}

impl View for JwksData {
    type V = JwksDataView;

    open spec fn view(&self) -> JwksDataView {
        JwksDataView { key: self.key@, fetched_at: self.fetched_at }
    }
}

/// A record is expired once its age has reached the expiry window. A clock
/// reading earlier than the fetch instant counts as age zero.
pub open spec fn expired_at(rec: JwksDataView, now: u64) -> bool {
    now >= rec.fetched_at + KEY_EXPIRY_SECS
}

impl JwksData {
    pub fn new(key: Vec<u8>, fetched_at: u64) -> (r: JwksData)
        ensures
            r@ == (JwksDataView { key: key@, fetched_at }),
    {
        JwksData { key, fetched_at }
    }

    /// Whether this record's age has reached the expiry window at clock `now`.
    pub fn is_expired(&self, now: u64) -> (r: bool)
        ensures
            r == expired_at(self@, now),
    {
        now >= KEY_EXPIRY_SECS && now - KEY_EXPIRY_SECS >= self.fetched_at
    }

    /// The key material, refused once the record is expired.
    pub fn get_key(&self, now: u64) -> (r: Result<&Vec<u8>, ValidateError>)
        ensures
            expired_at(self@, now) ==> (r matches Err(e) && e == ValidateError::KeyUnavailable),
            !expired_at(self@, now) ==> (r matches Ok(k) && k@ == self@.key),
    {
        if self.is_expired(now) {
            Err(ValidateError::KeyUnavailable)
        } else {
            Ok(&self.key)
        }
    }
}

/// The process-wide cache: zero or one key record, starting empty. Replaced
/// wholesale on every successful fetch, never partially updated.
pub struct KeyCell {
    record: Option<JwksData>,
}

impl View for KeyCell {
    type V = Option<JwksDataView>;

    closed spec fn view(&self) -> Option<JwksDataView> {
        match self.record {
            Option::None => Option::None,
            Option::Some(rec) => Option::Some(rec@),
        }
    }
}

/// What a reader obtains from a cell at clock `now`: the record, unless the
/// cell is empty or the record has expired.
pub open spec fn cell_get_spec(cell: Option<JwksDataView>, now: u64) -> Option<JwksDataView> {
    match cell {
        Option::None => Option::None,
        Option::Some(rec) => if expired_at(rec, now) {
            Option::None
        } else {
            Option::Some(rec)
        },
    }
}

impl KeyCell {
    /// A cell starts empty: nothing is trusted before the first successful fetch.
    pub fn new() -> (r: KeyCell)
        ensures
            r@ is None,
    {
        KeyCell { record: None }
    }

    /// Install a record, replacing whatever was there wholesale.
    pub fn set(&mut self, rec: JwksData)
        ensures
            final(self)@ == Some(rec@),
    {
        self.record = Some(rec);
    }

    /// Read the current record: absent when the cell was never set or the
    /// record has expired at `now`.
    pub fn get(&self, now: u64) -> (r: Option<&JwksData>)
        ensures
            cell_get_spec(self@, now) is None ==> r is None,
            cell_get_spec(self@, now) matches Some(v) ==> r matches Some(k) && k@ == v,
    {
        match &self.record {
            None => None,
            Some(rec) => if rec.is_expired(now) {
                None
            } else {
                Some(rec)
            },
        }
    }
}

/// What the broker's reply holds at `public_cert.cert`, as bytes: a function
/// of the reply text alone, and nothing when the text is not such a document.
pub uninterp spec fn cert_in_body(body: Seq<char>) -> Option<Seq<u8>>;

/// Relies on serde_json::from_str and serde_json::Value indexing: yields the
/// string under `public_cert.cert` of the parsed document, as bytes, and
/// nothing when the text is not JSON or no string stands there.
#[verifier::external_body]
fn extract_cert(body: &str) -> (r: Option<Vec<u8>>)
    ensures
        r matches Some(c) ==> cert_in_body(body@) == Some(c@),
        r is None ==> cert_in_body(body@) is None,
{
    let doc: serde_json::Value = match serde_json::from_str(body) {
        Ok(v) => v,
        Err(_) => return None,
    };
    match doc["public_cert"]["cert"].as_str() {
        Some(cert) => Some(cert.as_bytes().to_vec()),
        None => None,
    }
}

/// Whether the bytes are accepted as PEM-encoded RSA key material: a function
/// of the bytes alone.
pub uninterp spec fn pem_ok(key: Seq<u8>) -> bool;

/// Relies on jsonwebtoken::DecodingKey::from_rsa_pem: whether it accepts the
/// bytes as a PEM-encoded RSA key.
#[verifier::external_body]
fn pem_parses(key: &Vec<u8>) -> (r: bool)
    ensures
        r == pem_ok(key@),
{
    jsonwebtoken::DecodingKey::from_rsa_pem(key).is_ok()
}

/// The key one fetch round yields: the certificate field of a delivered
/// reply, provided it is accepted as key material. Anything else — no reply,
/// an unparsable document, a missing field, malformed key bytes — yields
/// nothing; the rotation step does not tell these apart.
pub open spec fn fetched_key(body: Option<Seq<char>>) -> Option<Seq<u8>> {
    match body {
        Option::None => Option::None,
        Option::Some(text) => match cert_in_body(text) {
            Option::None => Option::None,
            Option::Some(cert) => if pem_ok(cert) {
                Option::Some(cert)
            } else {
                Option::None
            },
        },
    }
}

/// The cell contents after one rotation step at clock `now`.
pub open spec fn rotated_cell(
    cell: Option<JwksDataView>,
    body: Option<Seq<char>>,
    now: u64,
) -> Option<JwksDataView> {
    match fetched_key(body) {
        Option::Some(cert) => Option::Some(JwksDataView { key: cert, fetched_at: now }),
        Option::None => cell,
    }
}

/// What the rotation loop does after a step.
#[derive(Clone, Copy, Debug, PartialEq, Eq, Structural)]
pub enum RotatorAction {
    /// A key was installed: sleep for the rotation interval, then fetch again.
    SleepThenRefetch,
    /// The fetch round yielded nothing: leave the cell alone, retry at once.
    RetryNow,
}

/// The action one fetch round calls for.
pub open spec fn rotator_action(body: Option<Seq<char>>) -> RotatorAction {
    if fetched_key(body) is Some {
        RotatorAction::SleepThenRefetch
    } else {
        RotatorAction::RetryNow
    }
}

/// The view of an optional borrowed reply text.
pub open spec fn opt_text_view(body: Option<&str>) -> Option<Seq<char>> {
    match body {
        Option::Some(text) => Option::Some(text@),
        Option::None => Option::None,
    }
}

/// One step of the rotation loop. `body` is the text a fetch round delivered,
/// or nothing when the fetch itself failed. On a usable reply the complete
/// new record — the fetched key paired with this step's clock reading —
/// replaces the old one wholesale; on anything else the cell is untouched.
pub fn apply_fetch_result(cell: &mut KeyCell, body: Option<&str>, now: u64) -> (r: RotatorAction)
    ensures
        final(cell)@ == rotated_cell(old(cell)@, opt_text_view(body), now),
        r == rotator_action(opt_text_view(body)),
{
    let text = match body {
        Some(text) => text,
        None => return RotatorAction::RetryNow,
    };
    let cert = match extract_cert(text) {
        Some(cert) => cert,
        None => return RotatorAction::RetryNow,
    };
    if !pem_parses(&cert) {
        return RotatorAction::RetryNow;
    }
    cell.set(JwksData::new(cert, now));
    RotatorAction::SleepThenRefetch
}

/// Law: a rotation step never mixes records. Afterwards the cell holds either
/// exactly what it held before, or the complete new record, the fetched key
/// paired with the instant of this very step — never one's key with the
/// other's timestamp.
pub proof fn lemma_step_yields_whole_record(
    cell: Option<JwksDataView>,
    body: Option<Seq<char>>,
    now: u64,
)
    ensures
        rotated_cell(cell, body, now) == cell || (fetched_key(body) matches Some(cert)
            && rotated_cell(cell, body, now) == Some(JwksDataView { key: cert, fetched_at: now })),
{
}

} // verus!
