//! The response an authenticator sends an app: the keys the app works with,
//! the access container it may read, and the conversions to and from the
//! C-facing representation of both.

use crate::client::MDataInfo;
use crate::ffi;
use crate::ipc::{Config, IpcError};
use crate::sodium::{
    box_gen_keypair, nonce_from_slice, secretbox_gen_key, secretbox_seal, sha256_hash,
    sign_gen_keypair, spec_curve25519_base, spec_ed25519_public_key, spec_secretbox_seal, spec_sha256, BOX_PUBLIC_KEY_BYTES,
    BOX_SECRET_KEY_BYTES, DIGESTBYTES, KEYBYTES, MACBYTES, NONCEBYTES, SIGN_PUBLIC_KEY_BYTES,
    SIGN_SECRET_KEY_BYTES,
};
use vstd::prelude::*;
use vstd::slice::{slice_subrange, slice_to_vec};
use vstd::string::*;

verus! {

/// Number of bytes in a network name.
pub const XOR_NAME_LEN: usize = 32;

/// IPC response.
#[derive(PartialEq, Eq)]
pub enum IpcResp {
    /// Authentication
    Auth(Result<AuthGranted, IpcError>),
    /// Containers
    Containers(Result<(), IpcError>),
}

/// It represents the authentication response.
#[derive(Clone, PartialEq, Eq)]
pub struct AuthGranted {
    /// The access keys.
    pub app_keys: AppKeys,
    /// The network connection config.
    ///
    /// Useful to reuse bootstrap nodes and speed up access.
    pub bootstrap_config: Config,
    /// Access container
    pub access_container: AccessContInfo,
}

/// Represents the needed keys to work with the data
#[derive(Clone, PartialEq, Eq)]
pub struct AppKeys {
    /// Owner signing public key.
    pub owner_key: [u8; SIGN_PUBLIC_KEY_BYTES],
    /// Data symmetric encryption key
    pub enc_key: [u8; KEYBYTES],
    /// Asymmetric sign public key.
    ///
    /// This is the identity of the App in the Network.
    pub sign_pk: [u8; SIGN_PUBLIC_KEY_BYTES],
    /// Asymmetric sign private key.
    pub sign_sk: [u8; SIGN_SECRET_KEY_BYTES],
    /// Asymmetric enc public key.
    pub enc_pk: [u8; BOX_PUBLIC_KEY_BYTES],
    /// Asymmetric enc private key.
    pub enc_sk: [u8; BOX_SECRET_KEY_BYTES],
}

/// Access container
#[derive(Clone, Debug, PartialEq, Eq)]
pub struct AccessContInfo {
    /// ID
    pub id: [u8; XOR_NAME_LEN],
    /// Type tag
    pub tag: u64,
    /// Nonce
    pub nonce: [u8; NONCEBYTES],
}

impl AuthGranted {
    /// The C-facing representation of this response.
    pub open spec fn to_repr(self) -> ffi::AuthGranted {
        ffi::AuthGranted {
            app_keys: self.app_keys.to_repr(),
            access_container: self.access_container.to_repr(),
        }
    }

    /// The response that a C-facing representation stands for.
    pub open spec fn of_repr(raw: ffi::AuthGranted) -> AuthGranted {
        AuthGranted {
            app_keys: AppKeys::of_repr(raw.app_keys),
            bootstrap_config: Config,
            access_container: AccessContInfo::of_repr(raw.access_container),
        }
    }

    /// Consumes the object and returns its C-facing representation.
    pub fn into_repr_c(self) -> (r: ffi::AuthGranted)
        ensures
            r == self.to_repr(),
            r.app_keys.owner_key == self.app_keys.owner_key,
            r.app_keys.enc_key == self.app_keys.enc_key,
            r.app_keys.sign_pk == self.app_keys.sign_pk,
            r.app_keys.sign_sk == self.app_keys.sign_sk,
            r.app_keys.enc_pk == self.app_keys.enc_pk,
            r.app_keys.enc_sk == self.app_keys.enc_sk,
            r.access_container.id == self.access_container.id,
            r.access_container.tag == self.access_container.tag,
            r.access_container.nonce == self.access_container.nonce,
    {
        let AuthGranted { app_keys, access_container, .. } = self;
        ffi::AuthGranted {
            app_keys: app_keys.into_repr_c(),
            access_container: access_container.into_repr_c(),
        }
    }

    /// Constructs the object from its C-facing representation.
    pub fn from_repr_c(repr_c: &ffi::AuthGranted) -> (r: Self)
        ensures
            r == Self::of_repr(*repr_c),
            r.app_keys.owner_key == repr_c.app_keys.owner_key,
            r.app_keys.enc_key == repr_c.app_keys.enc_key,
            r.app_keys.sign_pk == repr_c.app_keys.sign_pk,
            r.app_keys.sign_sk == repr_c.app_keys.sign_sk,
            r.app_keys.enc_pk == repr_c.app_keys.enc_pk,
            r.app_keys.enc_sk == repr_c.app_keys.enc_sk,
            r.bootstrap_config == Config,
            r.access_container.id == repr_c.access_container.id,
            r.access_container.tag == repr_c.access_container.tag,
            r.access_container.nonce == repr_c.access_container.nonce,
    {
        AuthGranted {
            app_keys: AppKeys::from_repr_c(repr_c.app_keys),
            bootstrap_config: Config,
            access_container: AccessContInfo::from_repr_c(repr_c.access_container),
        }
    }
}

impl AppKeys {
    /// The C-facing representation of these keys.
    pub open spec fn to_repr(self) -> ffi::AppKeys {
        ffi::AppKeys {
            owner_key: self.owner_key,
            enc_key: self.enc_key,
            sign_pk: self.sign_pk,
            sign_sk: self.sign_sk,
            enc_pk: self.enc_pk,
            enc_sk: self.enc_sk,
        }
    }

    /// The keys that a C-facing representation stands for.
    pub open spec fn of_repr(raw: ffi::AppKeys) -> AppKeys {
        AppKeys {
            owner_key: raw.owner_key,
            enc_key: raw.enc_key,
            sign_pk: raw.sign_pk,
            sign_sk: raw.sign_sk,
            enc_pk: raw.enc_pk,
            enc_sk: raw.enc_sk,
        }
    }

    /// The keys of owner `owner_key` made of an encryption key pair, a
    /// signing key pair (each public key first) and a symmetric key.
    pub open spec fn of_generated(
        owner_key: [u8; SIGN_PUBLIC_KEY_BYTES],
        enc_kp: ([u8; BOX_PUBLIC_KEY_BYTES], [u8; BOX_SECRET_KEY_BYTES]),
        sign_kp: ([u8; SIGN_PUBLIC_KEY_BYTES], [u8; SIGN_SECRET_KEY_BYTES]),
        enc_key: [u8; KEYBYTES],
    ) -> AppKeys {
        AppKeys {
            owner_key,
            enc_key,
            sign_pk: sign_kp.0,
            sign_sk: sign_kp.1,
            enc_pk: enc_kp.0,
            enc_sk: enc_kp.1,
        }
    }

    /// Places freshly generated keys: the encryption key pair, the signing
    /// key pair (each public key first) and the symmetric key of owner
    /// `owner_key`.
    pub fn from_generated(
        owner_key: [u8; SIGN_PUBLIC_KEY_BYTES],
        enc_kp: ([u8; BOX_PUBLIC_KEY_BYTES], [u8; BOX_SECRET_KEY_BYTES]),
        sign_kp: ([u8; SIGN_PUBLIC_KEY_BYTES], [u8; SIGN_SECRET_KEY_BYTES]),
        enc_key: [u8; KEYBYTES],
    ) -> (r: AppKeys)
        ensures
            r == Self::of_generated(owner_key, enc_kp, sign_kp, enc_key),
            r.owner_key == owner_key,
            r.enc_key == enc_key,
            r.sign_pk == sign_kp.0,
            r.sign_sk == sign_kp.1,
            r.enc_pk == enc_kp.0,
            r.enc_sk == enc_kp.1,
    {
        let (enc_pk, enc_sk) = enc_kp;
        let (sign_pk, sign_sk) = sign_kp;

        AppKeys {
            owner_key: owner_key,
            enc_key: enc_key,
            sign_pk: sign_pk,
            sign_sk: sign_sk,
            enc_pk: enc_pk,
            enc_sk: enc_sk,
        }
    }

    /// Generate random keys
    pub fn random(owner_key: [u8; SIGN_PUBLIC_KEY_BYTES]) -> (r: AppKeys)
        ensures
            r.owner_key == owner_key,
            r.sign_pk@ == spec_ed25519_public_key(r.sign_sk@.subrange(0, 32)),
            r.sign_sk@.subrange(32, 64) == r.sign_pk@,
            r.enc_pk@ == spec_curve25519_base(r.enc_sk@),
    {
        let enc_kp = box_gen_keypair();
        let sign_kp = sign_gen_keypair();
        let enc_key = secretbox_gen_key();
        Self::from_generated(owner_key, enc_kp, sign_kp, enc_key)
    }

    /// Consumes the object and returns its C-facing representation.
    pub fn into_repr_c(self) -> (r: ffi::AppKeys)
        ensures
            r == self.to_repr(),
            r.owner_key == self.owner_key,
            r.enc_key == self.enc_key,
            r.sign_pk == self.sign_pk,
            r.sign_sk == self.sign_sk,
            r.enc_pk == self.enc_pk,
            r.enc_sk == self.enc_sk,
    {
        let AppKeys { owner_key, enc_key, sign_pk, sign_sk, enc_pk, enc_sk } = self;
        ffi::AppKeys {
            owner_key: owner_key,
            enc_key: enc_key,
            sign_pk: sign_pk,
            sign_sk: sign_sk,
            enc_pk: enc_pk,
            enc_sk: enc_sk,
        }
    }

    /// Constructs the object from its C-facing representation.
    pub fn from_repr_c(raw: ffi::AppKeys) -> (r: Self)
        ensures
            r == Self::of_repr(raw),
            r.owner_key == raw.owner_key,
            r.enc_key == raw.enc_key,
            r.sign_pk == raw.sign_pk,
            r.sign_sk == raw.sign_sk,
            r.enc_pk == raw.enc_pk,
            r.enc_sk == raw.enc_sk,
    {
        AppKeys {
            owner_key: raw.owner_key,
            enc_key: raw.enc_key,
            sign_pk: raw.sign_pk,
            sign_sk: raw.sign_sk,
            enc_pk: raw.enc_pk,
            enc_sk: raw.enc_sk,
        }
    }
}

impl AccessContInfo {
    /// The C-facing representation of this access container.
    pub open spec fn to_repr(self) -> ffi::AccessContInfo {
        ffi::AccessContInfo { id: self.id, tag: self.tag, nonce: self.nonce }
    }

    /// The access container that a C-facing representation stands for.
    pub open spec fn of_repr(raw: ffi::AccessContInfo) -> AccessContInfo {
        AccessContInfo { id: raw.id, tag: raw.tag, nonce: raw.nonce }
    }

    /// The mutable data description of this access container, whose entries
    /// are encrypted with `enc_key`.
    pub open spec fn to_mdata_info(self, enc_key: [u8; KEYBYTES]) -> MDataInfo {
        MDataInfo {
            name: self.id,
            type_tag: self.tag,
            enc_info: Some((enc_key, Some(self.nonce))),
        }
    }

    /// The access container that a mutable data description stands for:
    /// there is one exactly when the description holds a nonce.
    pub open spec fn of_mdata_info(md: MDataInfo) -> Option<AccessContInfo> {
        match md.enc_info {
            Some((_, Some(nonce))) => Some(AccessContInfo { id: md.name, tag: md.type_tag, nonce }),
            _ => None,
        }
    }

    /// Consumes the object and returns its C-facing representation.
    pub fn into_repr_c(self) -> (r: ffi::AccessContInfo)
        ensures
            r == self.to_repr(),
            r.id == self.id,
            r.tag == self.tag,
            r.nonce == self.nonce,
    {
        let AccessContInfo { id, tag, nonce } = self;
        ffi::AccessContInfo { id: id, tag: tag, nonce: nonce }
    }

    /// Constructs the object from its C-facing representation.
    pub fn from_repr_c(repr_c: ffi::AccessContInfo) -> (r: Self)
        ensures
            r == Self::of_repr(repr_c),
            r.id == repr_c.id,
            r.tag == repr_c.tag,
            r.nonce == repr_c.nonce,
    {
        AccessContInfo { id: repr_c.id, tag: repr_c.tag, nonce: repr_c.nonce }
    }

    /// Creates `MDataInfo` from this `AccessContInfo`
    pub fn into_mdata_info(self, enc_key: [u8; KEYBYTES]) -> (r: MDataInfo)
        ensures
            r == self.to_mdata_info(enc_key),
            r.name == self.id,
            r.type_tag == self.tag,
            r.enc_info == Some((enc_key, Some(self.nonce))),
    {
        MDataInfo { name: self.id, type_tag: self.tag, enc_info: Some((enc_key, Some(self.nonce))) }
    }

    /// Creates an `AccessContInfo` from a given `MDataInfo`
    pub fn from_mdata_info(md: MDataInfo) -> (r: Result<AccessContInfo, IpcError>)
        ensures
            match Self::of_mdata_info(md) {
                Some(a) => r == Ok::<AccessContInfo, IpcError>(a),
                None => r matches Err(IpcError::Unexpected(msg))
                    && msg@ == "MDataInfo doesn't contain nonce"@,
            },
            r is Ok <==> md.enc_info matches Some((_, Some(_))),
            r matches Ok(a) ==> a.id == md.name && a.tag == md.type_tag
                && md.enc_info == Some((md.enc_info.unwrap().0, Some(a.nonce))),
    {
        if let Some((_, Some(nonce))) = md.enc_info {
            Ok(AccessContInfo { id: md.name, tag: md.type_tag, nonce: nonce })
        } else {
            Err(IpcError::Unexpected("MDataInfo doesn't contain nonce".to_owned()))
        }
    }
}

/// The bytes hashed to derive the nonce that seals an app's access
/// container key: the app ID's bytes followed by the container's nonce.
pub open spec fn enc_key_plaintext(app_id: Seq<u8>, nonce: Seq<u8>) -> Seq<u8> {
    app_id + nonce
}

/// The nonce taken from a digest: its first `NONCEBYTES` bytes.
pub open spec fn nonce_of_digest(digest: Seq<u8>) -> Seq<u8> {
    digest.subrange(0, NONCEBYTES as int)
}

/// The sealed access container key of app `app_id`: the app ID's bytes
/// sealed under the app's key, with the nonce taken from the digest of the
/// app ID followed by the access container's nonce.
pub open spec fn spec_access_container_enc_key(
    app_id: Seq<u8>,
    app_enc_key: Seq<u8>,
    access_container_nonce: Seq<u8>,
) -> Seq<u8> {
    spec_secretbox_seal(
        app_id,
        nonce_of_digest(spec_sha256(enc_key_plaintext(app_id, access_container_nonce))),
        app_enc_key,
    )
}

/// The bytes hashed to derive the key nonce: `app_id` followed by
/// `access_container_nonce`.
pub fn enc_key_plaintext_of(app_id: &[u8], access_container_nonce: &[u8; NONCEBYTES]) -> (r: Vec<u8>)
    ensures
        r@ == enc_key_plaintext(app_id@, access_container_nonce@),
        r@ == app_id@ + access_container_nonce@,
{
    let mut key_pt = slice_to_vec(app_id);
    let mut i: usize = 0;
    while i < NONCEBYTES
        invariant
            i <= NONCEBYTES,
            key_pt@ == app_id@ + access_container_nonce@.subrange(0, i as int),
        decreases NONCEBYTES - i,
    {
        key_pt.push(access_container_nonce[i]);
        i = i + 1;
    }
    assert(access_container_nonce@.subrange(0, NONCEBYTES as int) == access_container_nonce@);
    key_pt
}

/// The nonce taken from a digest: its first `NONCEBYTES` bytes.
pub fn nonce_from_digest(digest: &[u8; DIGESTBYTES]) -> (r: Result<[u8; NONCEBYTES], IpcError>)
    ensures
        r matches Ok(n) && n@ == nonce_of_digest(digest@),
        r matches Ok(n) && n@ == digest@.subrange(0, NONCEBYTES as int),
{
    match nonce_from_slice(slice_subrange(digest.as_slice(), 0, NONCEBYTES)) {
        Some(n) => Ok(n),
        None => Err(IpcError::EncodeDecodeError),
    }
}

/// Encrypts and serialises an access container key using given app ID and app key
pub fn access_container_enc_key(
    app_id: &str,
    app_enc_key: &[u8; KEYBYTES],
    access_container_nonce: &[u8; NONCEBYTES],
) -> (r: Result<Vec<u8>, IpcError>)
    requires
        app_id.spec_bytes().len() + MACBYTES <= usize::MAX,
    ensures
        r matches Ok(c) && c@ == spec_access_container_enc_key(
            app_id.spec_bytes(),
            app_enc_key@,
            access_container_nonce@,
        ) && c@.len() == app_id.spec_bytes().len() + MACBYTES,
        r matches Ok(c) && c@ == spec_secretbox_seal(
            app_id.spec_bytes(),
            spec_sha256(app_id.spec_bytes() + access_container_nonce@).subrange(
                0,
                NONCEBYTES as int,
            ),
            app_enc_key@,
        ),
{
    let key = app_id.as_bytes();
    let key_pt = enc_key_plaintext_of(key, access_container_nonce);
    let digest = sha256_hash(key_pt.as_slice());
    let key_nonce = nonce_from_digest(&digest)?;
    Ok(secretbox_seal(key, &key_nonce, app_enc_key))
}

/// `AppKeys::from_repr_c` undoes `AppKeys::into_repr_c`, and the other way
/// round: no key byte is lost or changed on the way to or from C.
pub proof fn app_keys_repr_round_trip(keys: AppKeys, raw: ffi::AppKeys)
    ensures
        AppKeys::of_repr(keys.to_repr()) == keys,
        AppKeys::of_repr(raw).to_repr() == raw,
{
}

/// `AccessContInfo::from_repr_c` undoes `AccessContInfo::into_repr_c`, and
/// the other way round.
pub proof fn access_cont_info_repr_round_trip(info: AccessContInfo, raw: ffi::AccessContInfo)
    ensures
        AccessContInfo::of_repr(info.to_repr()) == info,
        AccessContInfo::of_repr(raw).to_repr() == raw,
{
}

/// `AuthGranted::from_repr_c` undoes `AuthGranted::into_repr_c`, and the
/// other way round: the network config carries nothing, so dropping it on
/// the way to C loses nothing.
pub proof fn auth_granted_repr_round_trip(granted: AuthGranted, raw: ffi::AuthGranted)
    ensures
        AuthGranted::of_repr(granted.to_repr()) == granted,
        AuthGranted::of_repr(raw).to_repr() == raw,
{
}

/// `AccessContInfo::from_mdata_info` gives back the access container that
/// `AccessContInfo::into_mdata_info` described, whatever key it was given.
pub proof fn access_cont_info_mdata_round_trip(info: AccessContInfo, enc_key: [u8; KEYBYTES])
    ensures
        AccessContInfo::of_mdata_info(info.to_mdata_info(enc_key)) == Some(info),
{
}

/// A mutable data description that holds a key and a nonce is an access
/// container: `from_mdata_info` succeeds on it, and `into_mdata_info` with
/// the same key gives the description back.
pub proof fn mdata_info_access_cont_round_trip(md: MDataInfo)
    requires
        md.enc_info matches Some((_, Some(_))),
    ensures
        AccessContInfo::of_mdata_info(md) matches Some(info)
            && info.to_mdata_info(md.enc_info.unwrap().0) == md,
{
}

/// The sealed access container key is reproducible: equal app IDs, app
/// keys and container nonces give equal sealed keys, since the nonce is
/// derived from them rather than drawn at random.
pub proof fn access_container_enc_key_reproducible(
    app_id1: Seq<u8>,
    app_id2: Seq<u8>,
    app_enc_key1: Seq<u8>,
    app_enc_key2: Seq<u8>,
    nonce1: Seq<u8>,
    nonce2: Seq<u8>,
)
    requires
        app_id1 == app_id2,
        app_enc_key1 == app_enc_key2,
        nonce1 == nonce2,
    ensures
        spec_access_container_enc_key(app_id1, app_enc_key1, nonce1)
            == spec_access_container_enc_key(app_id2, app_enc_key2, nonce2),
{
}

/// The keys `AppKeys::from_generated` places do not depend on the owner
/// key: owners given the same generated keys differ only in `owner_key`.
pub proof fn generated_keys_independent_of_owner(
    owner1: [u8; SIGN_PUBLIC_KEY_BYTES],
    owner2: [u8; SIGN_PUBLIC_KEY_BYTES],
    enc_kp: ([u8; BOX_PUBLIC_KEY_BYTES], [u8; BOX_SECRET_KEY_BYTES]),
    sign_kp: ([u8; SIGN_PUBLIC_KEY_BYTES], [u8; SIGN_SECRET_KEY_BYTES]),
    enc_key: [u8; KEYBYTES],
)
    ensures
        AppKeys::of_generated(owner1, enc_kp, sign_kp, enc_key)
            == (AppKeys { owner_key: owner1, ..AppKeys::of_generated(owner2, enc_kp, sign_kp, enc_key) }),
{
}

/// The C-facing representation of app keys holds each key in its own slot,
/// unchanged, and reading one back puts each slot's bytes in the key of the
/// same name.
pub proof fn app_keys_repr_fields(keys: AppKeys, raw: ffi::AppKeys)
    ensures
        keys.to_repr().owner_key == keys.owner_key,
        keys.to_repr().enc_key == keys.enc_key,
        keys.to_repr().sign_pk == keys.sign_pk,
        keys.to_repr().sign_sk == keys.sign_sk,
        keys.to_repr().enc_pk == keys.enc_pk,
        keys.to_repr().enc_sk == keys.enc_sk,
        AppKeys::of_repr(raw).owner_key == raw.owner_key,
        AppKeys::of_repr(raw).enc_key == raw.enc_key,
        AppKeys::of_repr(raw).sign_pk == raw.sign_pk,
        AppKeys::of_repr(raw).sign_sk == raw.sign_sk,
        AppKeys::of_repr(raw).enc_pk == raw.enc_pk,
        AppKeys::of_repr(raw).enc_sk == raw.enc_sk,
{
}

/// The C-facing representation of an access container holds its id, type
/// tag and nonce unchanged, and reading one back gives them unchanged.
pub proof fn access_cont_info_repr_fields(info: AccessContInfo, raw: ffi::AccessContInfo)
    ensures
        info.to_repr().id == info.id,
        info.to_repr().tag == info.tag,
        info.to_repr().nonce == info.nonce,
        AccessContInfo::of_repr(raw).id == raw.id,
        AccessContInfo::of_repr(raw).tag == raw.tag,
        AccessContInfo::of_repr(raw).nonce == raw.nonce,
{
}

/// The C-facing representation of an authentication response holds the
/// app's keys and the access container field by field, each in the slot of
/// the same name; reading one back does the same, with the empty config.
pub proof fn auth_granted_repr_fields(granted: AuthGranted, raw: ffi::AuthGranted)
    ensures
        granted.to_repr().app_keys.owner_key == granted.app_keys.owner_key,
        granted.to_repr().app_keys.enc_key == granted.app_keys.enc_key,
        granted.to_repr().app_keys.sign_pk == granted.app_keys.sign_pk,
        granted.to_repr().app_keys.sign_sk == granted.app_keys.sign_sk,
        granted.to_repr().app_keys.enc_pk == granted.app_keys.enc_pk,
        granted.to_repr().app_keys.enc_sk == granted.app_keys.enc_sk,
        granted.to_repr().access_container.id == granted.access_container.id,
        granted.to_repr().access_container.tag == granted.access_container.tag,
        granted.to_repr().access_container.nonce == granted.access_container.nonce,
        AuthGranted::of_repr(raw).app_keys.owner_key == raw.app_keys.owner_key,
        AuthGranted::of_repr(raw).app_keys.enc_key == raw.app_keys.enc_key,
        AuthGranted::of_repr(raw).app_keys.sign_pk == raw.app_keys.sign_pk,
        AuthGranted::of_repr(raw).app_keys.sign_sk == raw.app_keys.sign_sk,
        AuthGranted::of_repr(raw).app_keys.enc_pk == raw.app_keys.enc_pk,
        AuthGranted::of_repr(raw).app_keys.enc_sk == raw.app_keys.enc_sk,
        AuthGranted::of_repr(raw).access_container.id == raw.access_container.id,
        AuthGranted::of_repr(raw).access_container.tag == raw.access_container.tag,
        AuthGranted::of_repr(raw).access_container.nonce == raw.access_container.nonce,
{
}

/// The mutable data description of an access container is named by the
/// container's id, carries its type tag, and holds the given key with the
/// container's nonce; a description with a nonce stands for the container
/// with that name, type tag and nonce, and one without a nonce for none.
pub proof fn access_cont_info_mdata_fields(
    info: AccessContInfo,
    enc_key: [u8; KEYBYTES],
    md: MDataInfo,
)
    ensures
        info.to_mdata_info(enc_key).name == info.id,
        info.to_mdata_info(enc_key).type_tag == info.tag,
        info.to_mdata_info(enc_key).enc_info == Some((enc_key, Some(info.nonce))),
        md.enc_info matches Some((_, Some(n))) ==> AccessContInfo::of_mdata_info(md) == Some(
            AccessContInfo { id: md.name, tag: md.type_tag, nonce: n },
        ),
        !(md.enc_info matches Some((_, Some(_)))) ==> AccessContInfo::of_mdata_info(md) is None,
{
}

/// The sealed access container key is the app ID's bytes sealed under the
/// app's key, with the nonce made of the first `NONCEBYTES` bytes of the
/// SHA-256 digest of the whole app ID followed by the whole container nonce.
pub proof fn access_container_enc_key_is_seal_of_app_id(
    app_id: Seq<u8>,
    app_enc_key: Seq<u8>,
    access_container_nonce: Seq<u8>,
)
    ensures
        spec_access_container_enc_key(app_id, app_enc_key, access_container_nonce)
            == spec_secretbox_seal(
            app_id,
            spec_sha256(app_id + access_container_nonce).subrange(0, NONCEBYTES as int),
            app_enc_key,
        ),
        enc_key_plaintext(app_id, access_container_nonce).len() == app_id.len()
            + access_container_nonce.len(),
        enc_key_plaintext(app_id, access_container_nonce).subrange(0, app_id.len() as int)
            == app_id,
{
    assert(enc_key_plaintext(app_id, access_container_nonce).subrange(0, app_id.len() as int)
        =~= app_id);
}

} // verus!
