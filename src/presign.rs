//! Signing: the request options, the derived signing key, the canonical
//! request, the string to sign and the signed URL.
use vstd::prelude::*;
use vstd::utf8::encode_utf8;
use crate::crypto::{hex_of, is_lower_hex_char, lemma_hex_chars, hmac_sha256_of, sha256_of, hmac_sha_256, hmac_sha_256_hex, sha256};
use crate::query::{
    differs_at, is_escaped_char, is_name_char, is_plain_name, join_pairs, join_query, lemma_escaped_chars, lex_less,
    no_separator, uri_escape,
};
use crate::text::{int_text, push_char, push_int};
use crate::time::SigningTime;

verus! {

/// The longest validity of a pre-signed URL, in seconds: seven days.
pub const MAX_EXPIRES_IN: i32 = 604800;

/// What is signed, with whose credentials, and for how long.
#[derive(Debug)]
pub struct GetSignedUrlOptions {
    /// The object key: the path of the object within its bucket.
    pub key: String,
    /// The HTTP method that the URL is good for.
    pub method: String,
    pub region: String,
    /// How long the URL stays valid, in seconds.
    pub expires_in: i32,
    /// The instant of signing.
    pub date: SigningTime,
    pub bucket: String,
    pub access_key_id: String,
    pub secret_access_key: String,
    /// The storage host, below which the bucket is a subdomain.
    pub endpoint: String,
    /// A signing key derived beforehand for the same secret, date and region,
    /// used in place of deriving one.
    pub pre_signature: Option<Vec<u8>>,
}

/// Why a request cannot be signed.
#[derive(Debug, Clone, Copy, PartialEq, Eq, Structural)]
pub enum PresignError {
    /// `expires_in` is below one second or above `MAX_EXPIRES_IN`.
    ExpiresOutOfRange,
}

impl Default for GetSignedUrlOptions {
    /// Options for the object `key` of `bucket` at `endpoint`, read with
    /// `GET` in region `auto`, valid for 84600 seconds from now, with
    /// placeholder credentials and no pre-signature. Where the clock gives no
    /// time (see `SigningTime::now`), the date is the Unix epoch.
    fn default() -> (r: GetSignedUrlOptions)
        ensures
            r.key@ == "key"@,
            r.method@ == "GET"@,
            r.region@ == "auto"@,
            r.expires_in == 84600,
            r.bucket@ == "bucket"@,
            r.access_key_id@ == "key_id"@,
            r.secret_access_key@ == "key_secret"@,
            r.endpoint@ == "endpoint"@,
            r.pre_signature is None,
    {
        GetSignedUrlOptions {
            key: String::from_str("key"),
            method: String::from_str("GET"),
            region: String::from_str("auto"),
            expires_in: 84600,
            date: match SigningTime::now() {
                Some(t) => t,
                None => SigningTime::unix_epoch(),
            },
            bucket: String::from_str("bucket"),
            access_key_id: String::from_str("key_id"),
            secret_access_key: String::from_str("key_secret"),
            endpoint: String::from_str("endpoint"),
            pre_signature: None,
        }
    }
}

/// The signing key for a secret, a date (`YYYYMMDD`) and a region: a chain
/// of four HMAC-SHA256 steps, each tag the key of the next.
pub open spec fn signing_key_of(secret: Seq<char>, date: Seq<char>, region: Seq<char>) -> Seq<u8> {
    let k_date = hmac_sha256_of(encode_utf8("AWS4"@ + secret), encode_utf8(date));
    let k_region = hmac_sha256_of(k_date, encode_utf8(region));
    let k_service = hmac_sha256_of(k_region, encode_utf8("s3"@));
    hmac_sha256_of(k_service, encode_utf8("aws4_request"@))
}

/// Whether `expires_in` is an accepted validity.
pub open spec fn expires_ok(expires_in: int) -> bool {
    1 <= expires_in <= MAX_EXPIRES_IN
}

impl GetSignedUrlOptions {
    /// Every field but `pre_signature` is the same in both.
    pub open spec fn same_request(&self, other: &GetSignedUrlOptions) -> bool {
        &&& self.key@ == other.key@
        &&& self.method@ == other.method@
        &&& self.region@ == other.region@
        &&& self.expires_in == other.expires_in
        &&& self.date == other.date
        &&& self.bucket@ == other.bucket@
        &&& self.access_key_id@ == other.access_key_id@
        &&& self.secret_access_key@ == other.secret_access_key@
        &&& self.endpoint@ == other.endpoint@
    }

    /// The pre-signature's bytes, if there is one.
    pub open spec fn pre_signature_bytes(&self) -> Option<Seq<u8>> {
        match self.pre_signature {
            Some(k) => Some(k@),
            None => None,
        }
    }

    /// The key that signs: the one given, or else the one derived.
    pub open spec fn signing_key(&self) -> Seq<u8> {
        match self.pre_signature {
            Some(k) => k@,
            None => signing_key_of(self.secret_access_key@, self.date.date_text(), self.region@),
        }
    }

    /// `<access key id>/<date>/<region>/s3/aws4_request`.
    pub open spec fn credential_text(&self) -> Seq<char> {
        self.access_key_id@ + seq!['/'] + self.date.date_text() + seq!['/'] + self.region@
            + "/s3/aws4_request"@
    }

    /// The query parameters, by name, before escaping, in the order written.
    pub open spec fn query_params(&self) -> Seq<(Seq<char>, Seq<char>)> {
        seq![
            ("X-Amz-Algorithm"@, "AWS4-HMAC-SHA256"@),
            ("X-Amz-Credential"@, self.credential_text()),
            ("X-Amz-Date"@, self.date.timestamp_text()),
            ("X-Amz-Expires"@, int_text(self.expires_in as int)),
            ("X-Amz-SignedHeaders"@, "host"@),
        ]
    }

    /// The canonical query string.
    pub open spec fn query_text(&self) -> Seq<char> {
        join_pairs(self.query_params())
    }

    /// The seven lines of the canonical request: method, path, query,
    /// the `host` header, a blank line, the signed header names and the
    /// payload marker.
    pub open spec fn canonical_request_text(&self, query: Seq<char>) -> Seq<char> {
        self.method@ + seq!['\n'] + seq!['/'] + self.key@ + seq!['\n'] + query + seq!['\n']
            + "host:"@ + self.bucket@ + seq!['.'] + self.endpoint@ + seq!['\n']
            + seq!['\n'] + "host"@ + seq!['\n'] + "UNSIGNED-PAYLOAD"@
    }

    /// The four lines of the string to sign: algorithm, timestamp,
    /// credential scope and the SHA-256 digest of the canonical request.
    pub open spec fn string_to_sign_text(&self, canonical_request: Seq<char>) -> Seq<char> {
        "AWS4-HMAC-SHA256"@ + seq!['\n'] + self.date.timestamp_text() + seq!['\n']
            + self.date.date_text() + seq!['/'] + self.region@ + "/s3/aws4_request"@ + seq!['\n']
            + hex_of(sha256_of(encode_utf8(canonical_request)))
    }

    /// The URL with its query and signature.
    pub open spec fn url_text(&self, query: Seq<char>, signature: Seq<char>) -> Seq<char> {
        "https://"@ + self.bucket@ + seq!['.'] + self.endpoint@ + seq!['/'] + self.key@
            + seq!['?'] + query + "&X-Amz-Signature="@ + signature
    }

    /// The signature: HMAC-SHA256 of the string to sign, in hexadecimal.
    pub open spec fn signature_text(&self) -> Seq<char> {
        hex_of(hmac_sha256_of(self.signing_key(),
            encode_utf8(self.string_to_sign_text(self.canonical_request_text(self.query_text())))))
    }

    /// The signed URL.
    pub open spec fn signed_url_text(&self) -> Seq<char> {
        self.url_text(self.query_text(), self.signature_text())
    }
}

/// The signing key for a secret, a date (`YYYYMMDD`) and a region.
pub fn derive_signing_key(secret_access_key: &str, date: &str, region: &str) -> (r: Vec<u8>)
    ensures
        r@ == signing_key_of(secret_access_key@, date@, region@),
        r@.len() == 32,
{
    let mut first = String::new();
    first.append("AWS4");
    first.append(secret_access_key);
    let k_date = hmac_sha_256(first.as_str().as_bytes(), date.as_bytes());
    let k_region = hmac_sha_256(k_date.as_slice(), region.as_bytes());
    let k_service = hmac_sha_256(k_region.as_slice(), "s3".as_bytes());
    hmac_sha_256(k_service.as_slice(), "aws4_request".as_bytes())
}

/// The signing key for the secret, date and region of `options`.
pub fn get_signature_key(options: &GetSignedUrlOptions) -> (r: Vec<u8>)
    ensures
        r@ == signing_key_of(options.secret_access_key@, options.date.date_text(), options.region@),
        r@.len() == 32,
{
    let date = options.date.date_string();
    derive_signing_key(options.secret_access_key.as_str(), date.as_str(), options.region.as_str())
}

/// The canonical query string of `options`: its five parameters, values
/// escaped, names in ascending order.
pub fn get_query_parameters(options: &GetSignedUrlOptions) -> (r: String)
    ensures
        r@ == options.query_text(),
{
    let mut credential = String::new();
    credential.append(options.access_key_id.as_str());
    push_char(&mut credential, '/');
    options.date.push_date(&mut credential);
    push_char(&mut credential, '/');
    credential.append(options.region.as_str());
    credential.append("/s3/aws4_request");
    assert(credential@ =~= options.credential_text());
    let mut expires = String::new();
    push_int(&mut expires, options.expires_in as i64);

    let mut params: Vec<(String, String)> = Vec::new();
    params.push((String::from_str("X-Amz-Algorithm"), String::from_str("AWS4-HMAC-SHA256")));
    params.push((String::from_str("X-Amz-Credential"), credential));
    params.push((String::from_str("X-Amz-Date"), options.date.timestamp_string()));
    params.push((String::from_str("X-Amz-Expires"), expires));
    params.push((String::from_str("X-Amz-SignedHeaders"), String::from_str("host")));
    proof {
        lemma_query_names();
        let pv = crate::query::pairs_view(params@);
        let qp = options.query_params();
        assert(pv.len() == 5);
        assert(pv[0] == qp[0]);
        assert(pv[1] == qp[1]);
        assert(pv[2] == qp[2]);
        assert(pv[3] == qp[3]);
        assert(pv[4] == qp[4]);
        assert(pv =~= qp);
    }
    join_query(&params)
}

/// The canonical request for `options` and its canonical query string.
pub fn get_canonical_request(options: &GetSignedUrlOptions, query_parameters: &String) -> (r: String)
    ensures
        r@ == options.canonical_request_text(query_parameters@),
{
    let mut s = String::new();
    s.append(options.method.as_str());
    push_char(&mut s, '\n');
    push_char(&mut s, '/');
    s.append(options.key.as_str());
    push_char(&mut s, '\n');
    s.append(query_parameters.as_str());
    push_char(&mut s, '\n');
    s.append("host:");
    s.append(options.bucket.as_str());
    push_char(&mut s, '.');
    s.append(options.endpoint.as_str());
    push_char(&mut s, '\n');
    push_char(&mut s, '\n');
    s.append("host");
    push_char(&mut s, '\n');
    s.append("UNSIGNED-PAYLOAD");
    assert(s@ =~= options.canonical_request_text(query_parameters@));
    s
}

/// The string to sign for `options` and a canonical request.
pub fn get_signature_payload(options: &GetSignedUrlOptions, payload: String) -> (r: String)
    ensures
        r@ == options.string_to_sign_text(payload@),
{
    let payload_hash = sha256(payload.as_str().as_bytes());
    let mut s = String::new();
    s.append("AWS4-HMAC-SHA256");
    push_char(&mut s, '\n');
    options.date.push_timestamp(&mut s);
    push_char(&mut s, '\n');
    options.date.push_date(&mut s);
    push_char(&mut s, '/');
    s.append(options.region.as_str());
    s.append("/s3/aws4_request");
    push_char(&mut s, '\n');
    s.append(payload_hash.as_str());
    assert(s@ =~= options.string_to_sign_text(payload@));
    s
}

/// The URL for `options`, with its canonical query string and signature.
pub fn get_url(options: &GetSignedUrlOptions, query_parameters: String, signature: String) -> (r: String)
    ensures
        r@ == options.url_text(query_parameters@, signature@),
{
    let mut s = String::new();
    s.append("https://");
    s.append(options.bucket.as_str());
    push_char(&mut s, '.');
    s.append(options.endpoint.as_str());
    push_char(&mut s, '/');
    s.append(options.key.as_str());
    push_char(&mut s, '?');
    s.append(query_parameters.as_str());
    s.append("&X-Amz-Signature=");
    s.append(signature.as_str());
    assert(s@ =~= options.url_text(query_parameters@, signature@));
    s
}

/// The pre-signed URL for `options`; an error where `expires_in` is out of
/// range. A `pre_signature` is used as the signing key as it stands: it
/// must have been derived for the same secret, date and region, or the URL
/// will not be accepted.
pub fn get_signed_url(options: &GetSignedUrlOptions) -> (r: Result<String, PresignError>)
    ensures
        r is Ok <==> expires_ok(options.expires_in as int),
        r matches Ok(url) ==> url@ == options.signed_url_text(),
        r is Ok ==> options.signature_text().len() == 64,
        r is Ok ==> forall|i: int| 0 <= i < options.signature_text().len() ==>
            is_lower_hex_char(#[trigger] options.signature_text()[i]),
        r matches Err(e) ==> e == PresignError::ExpiresOutOfRange,
{
    if options.expires_in < 1 || options.expires_in > MAX_EXPIRES_IN {
        return Err(PresignError::ExpiresOutOfRange);
    }
    let query_parameters = get_query_parameters(options);
    let canonical_request = get_canonical_request(options, &query_parameters);
    let signature_payload = get_signature_payload(options, canonical_request);
    let signature = match &options.pre_signature {
        Some(pre_signature) => hmac_sha_256_hex(pre_signature.as_slice(), signature_payload.as_str().as_bytes()),
        None => {
            let signature_key = get_signature_key(options);
            hmac_sha_256_hex(signature_key.as_slice(), signature_payload.as_str().as_bytes())
        },
    };
    proof {
        lemma_hex_chars(hmac_sha256_of(options.signing_key(),
            encode_utf8(options.string_to_sign_text(options.canonical_request_text(options.query_text())))));
    }
    Ok(get_url(options, query_parameters, signature))
}

/// The names of the query parameters, in the order written.
pub open spec fn query_names() -> Seq<Seq<char>> {
    seq!["X-Amz-Algorithm"@, "X-Amz-Credential"@, "X-Amz-Date"@, "X-Amz-Expires"@, "X-Amz-SignedHeaders"@]
}

/// Signing is deterministic: options that hold the same values give the
/// same outcome, the same URL where they are accepted.
pub proof fn lemma_signing_deterministic(a: &GetSignedUrlOptions, b: &GetSignedUrlOptions)
    requires
        a.same_request(b),
        a.pre_signature_bytes() == b.pre_signature_bytes(),
    ensures
        expires_ok(a.expires_in as int) == expires_ok(b.expires_in as int),
        a.signed_url_text() == b.signed_url_text(),
{
    assert(a.signing_key() == b.signing_key());
}

/// The canonical query string is five `name=value` pieces joined by `&`, in
/// the order of `query_params`, with names strictly ascending. Neither names
/// nor escaped values hold `&` or `=`, so the pieces and their halves are
/// what splitting the string at those characters gives back; escaped values
/// hold only unreserved characters and `%`.
pub proof fn lemma_query_names_ascending(o: &GetSignedUrlOptions)
    ensures
        o.query_text() == join_pairs(o.query_params()),
        o.query_params().len() == 5,
        forall|i: int| 0 <= i < 5 ==> #[trigger] o.query_params()[i].0 == query_names()[i],
        forall|i: int, j: int| 0 <= i < j < o.query_params().len() ==>
            lex_less(#[trigger] o.query_params()[i].0, #[trigger] o.query_params()[j].0),
        forall|i: int| 0 <= i < 5 ==> is_plain_name(#[trigger] o.query_params()[i].0)
            && no_separator(o.query_params()[i].0),
        forall|i: int| 0 <= i < 5 ==> no_separator(#[trigger] uri_escape(o.query_params()[i].1)),
        forall|i: int, k: int| 0 <= i < 5 && 0 <= k < uri_escape(o.query_params()[i].1).len() ==>
            is_escaped_char(#[trigger] uri_escape(o.query_params()[i].1)[k]),
{
    lemma_query_names();
    let n = query_names();
    let p = o.query_params();
    assert forall|i: int| 0 <= i < 5 implies is_plain_name(#[trigger] p[i].0) && no_separator(p[i].0) by {
        assert(p[i].0 == n[i]);
        assert(is_plain_name(n[i]));
        assert forall|k: int| 0 <= k < n[i].len() implies #[trigger] n[i][k] != '&' && n[i][k] != '=' by {
            assert(is_name_char(n[i][k]));
        }
    }
    assert forall|i: int| 0 <= i < 5 implies no_separator(#[trigger] uri_escape(p[i].1)) by {
        lemma_escaped_chars(encode_utf8(p[i].1));
    }
    assert forall|i: int, k: int| 0 <= i < 5 && 0 <= k < uri_escape(p[i].1).len() implies
        is_escaped_char(#[trigger] uri_escape(p[i].1)[k]) by {
        lemma_escaped_chars(encode_utf8(p[i].1));
    }
    assert forall|i: int, j: int| 0 <= i < j < p.len() implies lex_less(#[trigger] p[i].0, #[trigger] p[j].0) by {
        assert(p[i].0 == n[i]);
        assert(p[j].0 == n[j]);
        assert(n[i].subrange(0, 6) == "X-Amz-"@);
        assert(n[j].subrange(0, 6) == "X-Amz-"@);
        assert forall|m: int| 0 <= m < 6 implies n[i][m] == n[j][m] by {
            assert(n[i][m] == n[i].subrange(0, 6)[m]);
            assert(n[j][m] == n[j].subrange(0, 6)[m]);
        }
        assert(differs_at(n[i], n[j], 6));
    }
}

/// A pre-signature derived for the options' own secret, date and region
/// gives the same URL as leaving it out.
pub proof fn lemma_pre_signature_equivalent(derived: &GetSignedUrlOptions, given: &GetSignedUrlOptions)
    requires
        derived.same_request(given),
        derived.pre_signature is None,
        given.pre_signature_bytes() == Some(
            signing_key_of(derived.secret_access_key@, derived.date.date_text(), derived.region@),
        ),
    ensures
        derived.signed_url_text() == given.signed_url_text(),
{
    assert(derived.signing_key() == given.signing_key());
}

proof fn lemma_query_names()
    ensures
        forall|i: int| 0 <= i < 5 ==> is_plain_name(#[trigger] query_names()[i]),
        forall|i: int| 0 <= i < 5 ==> (#[trigger] query_names()[i]).subrange(0, 6) == "X-Amz-"@,
        forall|i: int| 0 <= i < 5 ==> (#[trigger] query_names()[i]).len() > 6,
        forall|i: int, j: int| 0 <= i < j < 5 ==>
            (#[trigger] query_names()[i])[6] < (#[trigger] query_names()[j])[6],
{
    reveal_strlit("X-Amz-Algorithm");
    reveal_strlit("X-Amz-Credential");
    reveal_strlit("X-Amz-Date");
    reveal_strlit("X-Amz-Expires");
    reveal_strlit("X-Amz-SignedHeaders");
    reveal_strlit("X-Amz-");
    let n = query_names();
    assert(n[0][6] == 'A');
    assert(n[1][6] == 'C');
    assert(n[2][6] == 'D');
    assert(n[3][6] == 'E');
    assert(n[4][6] == 'S');
    assert forall|i: int| 0 <= i < 5 implies is_plain_name(#[trigger] n[i]) by {
        assert forall|j: int| 0 <= j < n[i].len() implies #[trigger] is_name_char(n[i][j]) by {}
    }
    assert forall|i: int| 0 <= i < 5 implies (#[trigger] n[i]).subrange(0, 6) == "X-Amz-"@ by {
        assert(n[i].subrange(0, 6) =~= "X-Amz-"@);
    }
}

} // verus!
