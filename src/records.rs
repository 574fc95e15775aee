//! The records this library keeps on disk, and their byte format: one format
//! byte followed by the bincode encoding of the record's fields in order.
use vstd::prelude::*;
use crate::store::StoreError;

verus! {

/// The byte that opens every stored record; a change of layout takes a new value.
pub const FORMAT_VERSION: u8 = 1;

/// A stored record: the format byte, then the encoded fields.
pub open spec fn framed(payload: Seq<u8>) -> Seq<u8> {
    seq![FORMAT_VERSION] + payload
}

/// A device-authorization session, as issued by the platform and stored locally.
#[derive(Clone, Debug)]
pub struct DeviceAuthBinary {
    pub device_code: String,
    /// Seconds until the device code expires.
    pub expires_in: i32,
    /// The least number of seconds between two polls.
    pub interval: i64,
    pub user_code: String,
    pub verification_uri: String,
    /// Whether the session has been stored after it was issued.
    pub has_verified: bool,
}

pub ghost struct DeviceAuthView {
    pub device_code: Seq<char>,
    pub expires_in: i32,
    pub interval: i64,
    pub user_code: Seq<char>,
    pub verification_uri: Seq<char>,
    pub has_verified: bool,
}

impl View for DeviceAuthBinary {
    type V = DeviceAuthView;

    open spec fn view(&self) -> DeviceAuthView {
        DeviceAuthView {
            device_code: self.device_code@,
            expires_in: self.expires_in,
            interval: self.interval,
            user_code: self.user_code@,
            verification_uri: self.verification_uri@,
            has_verified: self.has_verified,
        }
    }
}

/// The credentials obtained for the user, as stored locally.
#[derive(Clone, Debug)]
pub struct AppConfigFile {
    pub access_token: String,
    pub refresh_token: String,
    /// Seconds until the access token expires.
    pub expires_in: isize,
    /// The granted scopes, in the order the platform gave them.
    pub scope: Vec<String>,
}

pub ghost struct AppConfigView {
    pub access_token: Seq<char>,
    pub refresh_token: Seq<char>,
    pub expires_in: isize,
    pub scope: Seq<Seq<char>>,
}

impl View for AppConfigFile {
    type V = AppConfigView;

    open spec fn view(&self) -> AppConfigView {
        AppConfigView {
            access_token: self.access_token@,
            refresh_token: self.refresh_token@,
            expires_in: self.expires_in,
            scope: self.scope@.map_values(|s: String| s@),
        }
    }
}

/// The bincode encoding of a session's fields, in declaration order.
pub uninterp spec fn bincode_device_auth(v: DeviceAuthView) -> Seq<u8>;

/// The bincode encoding of a credential record's fields, in declaration order.
pub uninterp spec fn bincode_app_config(v: AppConfigView) -> Seq<u8>;

/// `r` is what decoding `b` gave: where `b` is the encoding of a record, that record.
pub open spec fn decodes_device_auth(b: Seq<u8>, r: Option<DeviceAuthBinary>) -> bool {
    forall|v: DeviceAuthView| b == #[trigger] bincode_device_auth(v) ==> (r matches Some(d) && d@ == v)
}

/// The bytes under which a session is stored.
pub open spec fn stored_device_auth(v: DeviceAuthView) -> Seq<u8> {
    framed(bincode_device_auth(v))
}

/// `r` is what decoding `b` gave: where `b` is the encoding of a record, that record.
pub open spec fn decodes_app_config(b: Seq<u8>, r: Option<AppConfigFile>) -> bool {
    forall|v: AppConfigView| b == #[trigger] bincode_app_config(v) ==> (r matches Some(d) && d@ == v)
}

/// The bytes under which a credential record is stored.
pub open spec fn stored_app_config(v: AppConfigView) -> Seq<u8> {
    framed(bincode_app_config(v))
}

/// Relies on bincode::serialize (1.x, fixed-width integers, no size limit) on
/// the tuple of the session's fields: it writes into a `Vec` and does not fail
/// on strings, integers and booleans; its result is a function of those values.
#[verifier::external_body]
fn serialize_device_auth(r: &DeviceAuthBinary) -> (b: Option<Vec<u8>>)
    ensures
        b is Some,
        b matches Some(v) ==> v@ == bincode_device_auth(r@),
{
    let t = (&r.device_code, r.expires_in, r.interval, &r.user_code, &r.verification_uri, r.has_verified);
    bincode::serialize(&t).ok()
}

/// Relies on bincode::deserialize (1.x) of the same tuple: it decodes what
/// bincode::serialize encoded, and a record it decodes was read from the
/// opening bytes of `b` (trailing bytes are allowed).
#[verifier::external_body]
fn deserialize_device_auth(b: &[u8]) -> (r: Option<DeviceAuthBinary>)
    ensures
        decodes_device_auth(b@, r),
        r matches Some(d) ==> bincode_device_auth(d@).is_prefix_of(b@),
{
    match bincode::deserialize::<(String, i32, i64, String, String, bool)>(b) {
        Ok(t) => Some(DeviceAuthBinary { device_code: t.0, expires_in: t.1, interval: t.2, user_code: t.3, verification_uri: t.4, has_verified: t.5 }),
        Err(_) => None,
    }
}

/// Relies on bincode::serialize (1.x, fixed-width integers, no size limit) on
/// the tuple of the record's fields: it writes into a `Vec` and does not fail
/// on strings, integers and a vector of known length; its result is a function
/// of those values.
#[verifier::external_body]
fn serialize_app_config(r: &AppConfigFile) -> (b: Option<Vec<u8>>)
    ensures
        b is Some,
        b matches Some(v) ==> v@ == bincode_app_config(r@),
{
    bincode::serialize(&(&r.access_token, &r.refresh_token, r.expires_in, &r.scope)).ok()
}

/// Relies on bincode::deserialize (1.x) of the same tuple: it decodes what
/// bincode::serialize encoded, and a record it decodes was read from the
/// opening bytes of `b` (trailing bytes are allowed).
#[verifier::external_body]
fn deserialize_app_config(b: &[u8]) -> (r: Option<AppConfigFile>)
    ensures
        decodes_app_config(b@, r),
        r matches Some(d) ==> bincode_app_config(d@).is_prefix_of(b@),
{
    match bincode::deserialize::<(String, String, isize, Vec<String>)>(b) {
        Ok(t) => Some(AppConfigFile { access_token: t.0, refresh_token: t.1, expires_in: t.2, scope: t.3 }),
        Err(_) => None,
    }
}

/// The format byte followed by `payload`.
fn frame(payload: &Vec<u8>) -> (r: Vec<u8>)
    ensures
        r@ == framed(payload@),
{
    let mut out: Vec<u8> = Vec::new();
    out.push(FORMAT_VERSION);
    let mut i: usize = 0;
    while i < payload.len()
        invariant
            i <= payload@.len(),
            out@ == seq![FORMAT_VERSION] + payload@.subrange(0, i as int),
        decreases payload@.len() - i,
    {
        out.push(payload[i]);
        i += 1;
    }
    assert(payload@.subrange(0, payload@.len() as int) =~= payload@);
    out
}

/// What follows the format byte, when `b` opens with it.
fn unframe(b: &[u8]) -> (r: Option<&[u8]>)
    ensures
        r is None <==> (b@.len() == 0 || b@[0] != FORMAT_VERSION),
        r matches Some(p) ==> b@ == framed(p@),
{
    if b.len() == 0 || b[0] != FORMAT_VERSION {
        None
    } else {
        let p = vstd::slice::slice_subrange(b, 1, b.len());
        assert(b@ =~= framed(p@));
        Some(p)
    }
}

impl DeviceAuthBinary {
    pub fn new(dc: String, exp: i32, ival: i64, uc: String, vu: String, veri: bool) -> (r: DeviceAuthBinary)
        ensures
            r@ == (DeviceAuthView {
                device_code: dc@,
                expires_in: exp,
                interval: ival,
                user_code: uc@,
                verification_uri: vu@,
                has_verified: veri,
            }),
    {
        DeviceAuthBinary {
            device_code: dc,
            expires_in: exp,
            interval: ival,
            user_code: uc,
            verification_uri: vu,
            has_verified: veri,
        }
    }

    /// The bytes under which this session is stored.
    pub fn to_bytes(&self) -> (r: Result<Vec<u8>, StoreError>)
        ensures
            r matches Ok(b) && b@ == stored_device_auth(self@),
    {
        let p = serialize_device_auth(self);
        Ok(frame(&p.unwrap()))
    }

    /// The session stored in `b`. Bytes written by `to_bytes` give back the
    /// session they were written from.
    pub fn from_bytes(b: &[u8]) -> (r: Result<DeviceAuthBinary, StoreError>)
        ensures
            (b@.len() == 0 || b@[0] != FORMAT_VERSION) ==> r is Err,
            r is Err ==> r == Err::<DeviceAuthBinary, StoreError>(StoreError::Decoding),
            r matches Ok(d) ==> stored_device_auth(d@).is_prefix_of(b@),
            forall|v: DeviceAuthView|
                b@ == #[trigger] stored_device_auth(v) ==> (r matches Ok(d) && d@ == v),
    {
        match unframe(b) {
            None => Err(StoreError::Decoding),
            Some(p) => {
                let r = deserialize_device_auth(p);
                if let Some(d) = &r {
                    assert(stored_device_auth(d@) =~= seq![FORMAT_VERSION] + bincode_device_auth(d@));
                    assert(b@ =~= seq![FORMAT_VERSION] + p@);
                    assert(stored_device_auth(d@).is_prefix_of(b@)) by {
                        assert(b@.subrange(0, stored_device_auth(d@).len() as int) =~= stored_device_auth(d@));
                    }
                }
                assert forall|v: DeviceAuthView| b@ == #[trigger] stored_device_auth(v)
                    implies p@ == bincode_device_auth(v) by {
                    assert(p@ =~= b@.drop_first());
                    assert(stored_device_auth(v).drop_first() =~= bincode_device_auth(v));
                }
                match r {
                    Some(d) => Ok(d),
                    None => Err(StoreError::Decoding),
                }
            },
        }
    }
}

impl AppConfigFile {
    pub fn new(at: String, rt: String, exp: isize, scope: Vec<String>) -> (r: AppConfigFile)
        ensures
            r.access_token@ == at@,
            r.refresh_token@ == rt@,
            r.expires_in == exp,
            r.scope@ == scope@,
    {
        AppConfigFile { access_token: at, refresh_token: rt, expires_in: exp, scope }
    }

    /// The bytes under which this record is stored.
    pub fn to_bytes(&self) -> (r: Result<Vec<u8>, StoreError>)
        ensures
            r matches Ok(b) && b@ == stored_app_config(self@),
    {
        let p = serialize_app_config(self);
        Ok(frame(&p.unwrap()))
    }

    /// The record stored in `b`. Bytes written by `to_bytes` give back the
    /// record they were written from.
    pub fn from_bytes(b: &[u8]) -> (r: Result<AppConfigFile, StoreError>)
        ensures
            (b@.len() == 0 || b@[0] != FORMAT_VERSION) ==> r is Err,
            r is Err ==> r == Err::<AppConfigFile, StoreError>(StoreError::Decoding),
            r matches Ok(d) ==> stored_app_config(d@).is_prefix_of(b@),
            forall|v: AppConfigView|
                b@ == #[trigger] stored_app_config(v) ==> (r matches Ok(d) && d@ == v),
    {
        match unframe(b) {
            None => Err(StoreError::Decoding),
            Some(p) => {
                let r = deserialize_app_config(p);
                if let Some(d) = &r {
                    assert(stored_app_config(d@) =~= seq![FORMAT_VERSION] + bincode_app_config(d@));
                    assert(b@ =~= seq![FORMAT_VERSION] + p@);
                    assert(stored_app_config(d@).is_prefix_of(b@)) by {
                        assert(b@.subrange(0, stored_app_config(d@).len() as int) =~= stored_app_config(d@));
                    }
                }
                assert forall|v: AppConfigView| b@ == #[trigger] stored_app_config(v)
                    implies p@ == bincode_app_config(v) by {
                    assert(p@ =~= b@.drop_first());
                    assert(stored_app_config(v).drop_first() =~= bincode_app_config(v));
                }
                match r {
                    Some(d) => Ok(d),
                    None => Err(StoreError::Decoding),
                }
            },
        }
    }
}

} // verus!
