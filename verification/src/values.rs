use crate::error::{ContractError, ErrorCode};
use sha2::Digest;
use vstd::prelude::*;

verus! {

/// Nonempty identifier text.
#[derive(Debug, Clone, PartialEq, Eq, PartialOrd, Ord, Hash)]
pub struct Id {
    text: String,
}

impl View for Id {
    type V = Seq<char>;

    closed spec fn view(&self) -> Seq<char> {
        self.text@
    }
}

impl Id {
    /// Accept nonempty identifier text.
    pub fn new(text: &str) -> (id: Result<Id, ContractError>)
        ensures
            id is Ok <==> text@.len() > 0,
            id matches Ok(id) ==> id@ == text@,
            id matches Err(e) ==> e.code == ErrorCode::InvalidContract && e.path@ == "id"@,
    {
        if text.unicode_len() == 0 {
            Err(ContractError::new(ErrorCode::InvalidContract, "id"))
        } else {
            Ok(Id { text: text.to_owned() })
        }
    }

    /// The identifier text.
    pub fn as_str(&self) -> (text: &str)
        ensures
            text@ == self@,
    {
        self.text.as_str()
    }

    /// Whether two identifiers have the same text.
    pub fn same(&self, other: &Id) -> (same: bool)
        ensures
            same == (self@ == other@),
    {
        self.text == other.text
    }

    /// An independent identifier with the same text.
    pub fn copy(&self) -> (id: Id)
        ensures
            id@ == self@,
    {
        Id { text: self.text.clone() }
    }
}

/// The fixed prefix of every canonical JSON digest.
pub open spec fn digest_prefix() -> Seq<char> {
    "sorted-json-v1:sha256:"@
}

/// Lower-case hexadecimal digits.
pub open spec fn is_lower_hex(c: char) -> bool {
    ('0' <= c && c <= '9') || ('a' <= c && c <= 'f')
}

/// Digest text: the prefix followed by exactly 64 lower-case hexadecimal digits.
pub open spec fn is_digest_text(s: Seq<char>) -> bool {
    &&& s.len() == digest_prefix().len() + 64
    &&& s.subrange(0, digest_prefix().len() as int) == digest_prefix()
    &&& forall|i: int| digest_prefix().len() <= i < s.len() ==> is_lower_hex(#[trigger] s[i])
}

/// The lower-case hexadecimal digit for a value below 16.
pub open spec fn hex_digit(n: u8) -> Seq<char> {
    if n == 0 { "0"@ }
    else if n == 1 { "1"@ }
    else if n == 2 { "2"@ }
    else if n == 3 { "3"@ }
    else if n == 4 { "4"@ }
    else if n == 5 { "5"@ }
    else if n == 6 { "6"@ }
    else if n == 7 { "7"@ }
    else if n == 8 { "8"@ }
    else if n == 9 { "9"@ }
    else if n == 10 { "a"@ }
    else if n == 11 { "b"@ }
    else if n == 12 { "c"@ }
    else if n == 13 { "d"@ }
    else if n == 14 { "e"@ }
    else { "f"@ }
}

/// Two hexadecimal digits per byte, high digit first.
pub open spec fn hex_text(bytes: Seq<u8>) -> Seq<char>
    decreases bytes.len(),
{
    if bytes.len() == 0 {
        Seq::empty()
    } else {
        hex_text(bytes.drop_last()) + hex_digit(bytes.last() / 16) + hex_digit(bytes.last() % 16)
    }
}

/// Each digit text is one lower-case hexadecimal character.
pub proof fn lemma_hex_digit(n: u8)
    ensures
        hex_digit(n).len() == 1,
        is_lower_hex(hex_digit(n)[0]),
{
    reveal_strlit("0");
    reveal_strlit("1");
    reveal_strlit("2");
    reveal_strlit("3");
    reveal_strlit("4");
    reveal_strlit("5");
    reveal_strlit("6");
    reveal_strlit("7");
    reveal_strlit("8");
    reveal_strlit("9");
    reveal_strlit("a");
    reveal_strlit("b");
    reveal_strlit("c");
    reveal_strlit("d");
    reveal_strlit("e");
    reveal_strlit("f");
}

/// Hexadecimal text has two lower-case hexadecimal characters per byte.
pub proof fn lemma_hex_text(bytes: Seq<u8>)
    ensures
        hex_text(bytes).len() == 2 * bytes.len(),
        forall|i: int| 0 <= i < hex_text(bytes).len() ==> is_lower_hex(#[trigger] hex_text(bytes)[i]),
    decreases bytes.len(),
{
    if bytes.len() > 0 {
        lemma_hex_text(bytes.drop_last());
        lemma_hex_digit(bytes.last() / 16);
        lemma_hex_digit(bytes.last() % 16);
        let prev = hex_text(bytes.drop_last());
        let hi = hex_digit(bytes.last() / 16);
        let lo = hex_digit(bytes.last() % 16);
        assert forall|i: int| 0 <= i < hex_text(bytes).len() implies is_lower_hex(#[trigger] hex_text(bytes)[i]) by {
            if i < prev.len() {
                assert(hex_text(bytes)[i] == prev[i]);
            } else if i == prev.len() {
                assert(hex_text(bytes)[i] == hi[0]);
            } else {
                assert(hex_text(bytes)[i] == lo[0]);
            }
        }
    }
}

/// What SHA-256 computes of a byte sequence.
pub uninterp spec fn sha256_of(data: Seq<u8>) -> Seq<u8>;

/// The digest text of canonical JSON bytes.
pub open spec fn canonical_digest_text(canonical_json: Seq<u8>) -> Seq<char> {
    digest_prefix() + hex_text(sha256_of(canonical_json))
}

/// SHA-256 of `data`, computed by `sha2::Sha256::digest`; its 32-byte output is the
/// named value `sha256_of` of the input bytes.
#[verifier::external_body]
fn sha256(data: &[u8]) -> (digest: Vec<u8>)
    ensures
        digest@ == sha256_of(data@),
        digest@.len() == 32,
{
    sha2::Sha256::digest(data).to_vec()
}

fn hex_digit_str(n: u8) -> (digit: &'static str)
    requires
        n < 16,
    ensures
        digit@ == hex_digit(n),
{
    if n == 0 { "0" }
    else if n == 1 { "1" }
    else if n == 2 { "2" }
    else if n == 3 { "3" }
    else if n == 4 { "4" }
    else if n == 5 { "5" }
    else if n == 6 { "6" }
    else if n == 7 { "7" }
    else if n == 8 { "8" }
    else if n == 9 { "9" }
    else if n == 10 { "a" }
    else if n == 11 { "b" }
    else if n == 12 { "c" }
    else if n == 13 { "d" }
    else if n == 14 { "e" }
    else { "f" }
}

/// `sorted-json-v1:sha256:` digest of already canonical JSON bytes.
#[derive(Debug, Clone, PartialEq, Eq, PartialOrd, Ord, Hash)]
pub struct JsonDigest {
    text: String,
}

impl View for JsonDigest {
    type V = Seq<char>;

    closed spec fn view(&self) -> Seq<char> {
        self.text@
    }
}

impl JsonDigest {
    /// Accept stored digest text of the canonical form.
    pub fn parse(text: &str) -> (digest: Result<JsonDigest, ContractError>)
        ensures
            digest is Ok <==> is_digest_text(text@),
            digest matches Ok(d) ==> d@ == text@,
            digest matches Err(e) ==> e.code == ErrorCode::InvalidContract && e.path@ == "digest"@,
    {
        let prefix = "sorted-json-v1:sha256:";
        proof {
            reveal_strlit("sorted-json-v1:sha256:");
        }
        let prefix_len = prefix.unicode_len();
        let len = text.unicode_len();
        if len != prefix_len + 64 {
            return Err(ContractError::new(ErrorCode::InvalidContract, "digest"));
        }
        let head = text.substring_char(0, prefix_len);
        if head.to_owned() != prefix.to_owned() {
            return Err(ContractError::new(ErrorCode::InvalidContract, "digest"));
        }
        let mut i = prefix_len;
        while i < len
            invariant
                prefix_len == digest_prefix().len(),
                len == text@.len(),
                len == prefix_len + 64,
                prefix_len <= i <= len,
                text@.subrange(0, prefix_len as int) == digest_prefix(),
                forall|j: int| prefix_len <= j < i ==> is_lower_hex(#[trigger] text@[j]),
            decreases len - i,
        {
            let c = text.get_char(i);
            if !(('0' <= c && c <= '9') || ('a' <= c && c <= 'f')) {
                return Err(ContractError::new(ErrorCode::InvalidContract, "digest"));
            }
            i = i + 1;
        }
        Ok(JsonDigest { text: text.to_owned() })
    }

    /// The digest of canonical JSON bytes: the prefix and the lower-case hexadecimal
    /// SHA-256 of the bytes.
    pub fn of_canonical(canonical_json: &[u8]) -> (digest: JsonDigest)
        ensures
            digest@ == canonical_digest_text(canonical_json@),
            is_digest_text(digest@),
    {
        let hash = sha256(canonical_json);
        let mut text = "sorted-json-v1:sha256:".to_owned();
        let mut i: usize = 0;
        while i < hash.len()
            invariant
                i <= hash@.len(),
                hash@ == sha256_of(canonical_json@),
                text@ == digest_prefix() + hex_text(hash@.take(i as int)),
            decreases hash@.len() - i,
        {
            let b = hash[i];
            let high = hex_digit_str(b / 16);
            let low = hex_digit_str(b % 16);
            text = text.concat(high);
            text = text.concat(low);
            proof {
                assert(hash@.take(i + 1).drop_last() =~= hash@.take(i as int));
                assert(hash@.take(i + 1).last() == b);
                assert(digest_prefix() + hex_text(hash@.take(i as int)) + hex_digit(b / 16) + hex_digit(b % 16)
                    =~= digest_prefix() + (hex_text(hash@.take(i as int)) + hex_digit(b / 16) + hex_digit(b % 16)));
            }
            i = i + 1;
        }
        proof {
            assert(hash@.take(hash@.len() as int) =~= hash@);
            reveal_strlit("sorted-json-v1:sha256:");
            lemma_hex_text(hash@);
            let t = text@;
            assert(t.subrange(0, digest_prefix().len() as int) =~= digest_prefix());
            assert forall|i: int| digest_prefix().len() <= i < t.len() implies is_lower_hex(#[trigger] t[i]) by {
                assert(t[i] == hex_text(hash@)[i - digest_prefix().len()]);
            }
        }
        JsonDigest { text }
    }

    /// The digest text.
    pub fn as_str(&self) -> (text: &str)
        ensures
            text@ == self@,
    {
        self.text.as_str()
    }

    /// Whether two digests have the same text.
    pub fn same(&self, other: &JsonDigest) -> (same: bool)
        ensures
            same == (self@ == other@),
    {
        self.text == other.text
    }

    /// An independent digest with the same text.
    pub fn copy(&self) -> (digest: JsonDigest)
        ensures
            digest@ == self@,
    {
        JsonDigest { text: self.text.clone() }
    }
}

/// The digest of the JSON empty object `{}`, the system-input values digest of a
/// start without system inputs.
pub fn empty_object_digest() -> (digest: JsonDigest)
    ensures
        digest@ == canonical_digest_text(seq![123u8, 125u8]),
{
    let bytes: [u8; 2] = [123u8, 125u8];
    assert(bytes@ =~= seq![123u8, 125u8]);
    JsonDigest::of_canonical(&bytes)
}

/// Reference to a protected stored record and the digest of its content.
#[derive(Debug, Clone, PartialEq, Eq)]
pub struct RecordRef {
    /// Record identity.
    pub record_id: Id,
    /// Revision of the record.
    pub revision: u64,
    /// Canonical digest of the record content.
    pub digest: JsonDigest,
}

impl View for RecordRef {
    type V = (Seq<char>, u64, Seq<char>);

    open spec fn view(&self) -> (Seq<char>, u64, Seq<char>) {
        (self.record_id@, self.revision, self.digest@)
    }
}

impl RecordRef {
    /// Whether two references name the same record revision and digest.
    pub fn same(&self, other: &RecordRef) -> (same: bool)
        ensures
            same == (self@ == other@),
    {
        self.record_id.same(&other.record_id) && self.revision == other.revision && self.digest.same(
            &other.digest,
        )
    }

    /// An independent reference with the same identity, revision and digest.
    pub fn copy(&self) -> (r: RecordRef)
        ensures
            r@ == self@,
    {
        RecordRef { record_id: self.record_id.copy(), revision: self.revision, digest: self.digest.copy() }
    }
}

/// Exact reference to a registered definition version.
#[derive(Debug, Clone, PartialEq, Eq)]
pub struct VersionedRef {
    /// Definition identity.
    pub id: Id,
    /// Exact version.
    pub version: Id,
}

impl View for VersionedRef {
    type V = (Seq<char>, Seq<char>);

    open spec fn view(&self) -> (Seq<char>, Seq<char>) {
        (self.id@, self.version@)
    }
}

impl VersionedRef {
    /// Whether two references name the same definition version.
    pub fn same(&self, other: &VersionedRef) -> (same: bool)
        ensures
            same == (self@ == other@),
    {
        self.id.same(&other.id) && self.version.same(&other.version)
    }

    /// An independent reference with the same identity and version.
    pub fn copy(&self) -> (r: VersionedRef)
        ensures
            r@ == self@,
    {
        VersionedRef { id: self.id.copy(), version: self.version.copy() }
    }
}

/// Owner scope of stored data and execution.
#[derive(Debug, Clone, PartialEq, Eq)]
pub struct Scope {
    /// Owning tenant.
    pub tenant_id: Id,
    /// Owning principal within the tenant.
    pub principal_id: Id,
}

impl View for Scope {
    type V = (Seq<char>, Seq<char>);

    open spec fn view(&self) -> (Seq<char>, Seq<char>) {
        (self.tenant_id@, self.principal_id@)
    }
}

impl Scope {
    /// Whether two scopes are the same exact scope.
    pub fn same(&self, other: &Scope) -> (same: bool)
        ensures
            same == (self@ == other@),
    {
        self.tenant_id.same(&other.tenant_id) && self.principal_id.same(&other.principal_id)
    }

    /// An independent scope with the same identities.
    pub fn copy(&self) -> (s: Scope)
        ensures
            s@ == self@,
    {
        Scope { tenant_id: self.tenant_id.copy(), principal_id: self.principal_id.copy() }
    }
}

} // verus!
