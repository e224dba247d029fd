use safe_core::client::MDataInfo;
use safe_core::ffi;
use safe_core::ipc::{Config, IpcError};
use safe_core::resp::{
    access_container_enc_key, enc_key_plaintext_of, nonce_from_digest, AccessContInfo, AppKeys,
    AuthGranted, XOR_NAME_LEN,
};
use safe_core::sodium::{
    BOX_PUBLIC_KEY_BYTES, BOX_SECRET_KEY_BYTES, DIGESTBYTES, KEYBYTES, MACBYTES, NONCEBYTES,
    SIGN_PUBLIC_KEY_BYTES, SIGN_SECRET_KEY_BYTES,
};
use sodiumoxide::crypto::hash::sha256;
use sodiumoxide::crypto::scalarmult::curve25519 as scalarmult;
use sodiumoxide::crypto::{box_, secretbox, sign};

#[test]
fn auth_granted() {
    let (ok, _) = sign::gen_keypair();
    let (pk, sk) = sign::gen_keypair();
    let key = secretbox::gen_key();
    let (ourpk, oursk) = box_::gen_keypair();
    let ak = AppKeys {
        owner_key: ok.0,
        enc_key: key.0,
        sign_pk: pk.0,
        sign_sk: sk.0,
        enc_pk: ourpk.0,
        enc_sk: oursk.0,
    };
    let ac = AccessContInfo {
        id: [2; XOR_NAME_LEN],
        tag: 681,
        nonce: secretbox::gen_nonce().0,
    };
    let ag = AuthGranted {
        app_keys: ak,
        bootstrap_config: Config,
        access_container: ac,
    };

    let ffi = ag.into_repr_c();

    assert_eq!(ffi.access_container.tag, 681);

    let ag = AuthGranted::from_repr_c(&ffi);

    assert_eq!(ag.access_container.tag, 681);
}

#[test]
fn app_keys() {
    let (ok, _) = sign::gen_keypair();
    let (pk, sk) = sign::gen_keypair();
    let key = secretbox::gen_key();
    let (ourpk, oursk) = box_::gen_keypair();
    let ak = AppKeys {
        owner_key: ok.0,
        enc_key: key.clone().0,
        sign_pk: pk.0,
        sign_sk: sk.clone().0,
        enc_pk: ourpk.0,
        enc_sk: oursk.clone().0,
    };

    let ffi_ak = ak.into_repr_c();

    assert_eq!(ffi_ak.owner_key.iter().collect::<Vec<_>>(),
               ok.0.iter().collect::<Vec<_>>());
    assert_eq!(ffi_ak.enc_key.iter().collect::<Vec<_>>(),
               key.0.iter().collect::<Vec<_>>());
    assert_eq!(ffi_ak.sign_pk.iter().collect::<Vec<_>>(),
               pk.0.iter().collect::<Vec<_>>());
    assert_eq!(ffi_ak.sign_sk.iter().collect::<Vec<_>>(),
               sk.0.iter().collect::<Vec<_>>());
    assert_eq!(ffi_ak.enc_pk.iter().collect::<Vec<_>>(),
               ourpk.0.iter().collect::<Vec<_>>());
    assert_eq!(ffi_ak.enc_sk.iter().collect::<Vec<_>>(),
               oursk.0.iter().collect::<Vec<_>>());

    let ak = AppKeys::from_repr_c(ffi_ak);

    assert_eq!(ak.owner_key, ok.0);
    assert_eq!(ak.enc_key, key.0);
    assert_eq!(ak.sign_pk, pk.0);
    assert_eq!(ak.sign_sk, sk.0);
    assert_eq!(ak.enc_pk, ourpk.0);
    assert_eq!(ak.enc_sk, oursk.0);
}

#[test]
fn access_container() {
    let nonce = secretbox::gen_nonce();
    let a = AccessContInfo {
        id: [2; XOR_NAME_LEN],
        tag: 681,
        nonce: nonce.0,
    };

    let ffi = a.into_repr_c();

    assert_eq!(ffi.id.iter().sum::<u8>() as usize, 2 * XOR_NAME_LEN);
    assert_eq!(ffi.tag, 681);
    assert_eq!(ffi.nonce.iter().collect::<Vec<_>>(),
               nonce.0.iter().collect::<Vec<_>>());

    let a = AccessContInfo::from_repr_c(ffi);

    assert_eq!(a.id.iter().sum::<u8>() as usize, 2 * XOR_NAME_LEN);
    assert_eq!(a.tag, 681);
    assert_eq!(a.nonce, nonce.0);
}

#[test]
fn sizes_match_sodium() {
    assert_eq!(SIGN_PUBLIC_KEY_BYTES, sign::PUBLICKEYBYTES);
    assert_eq!(SIGN_SECRET_KEY_BYTES, sign::SECRETKEYBYTES);
    assert_eq!(BOX_PUBLIC_KEY_BYTES, box_::PUBLICKEYBYTES);
    assert_eq!(BOX_SECRET_KEY_BYTES, box_::SECRETKEYBYTES);
    assert_eq!(KEYBYTES, secretbox::KEYBYTES);
    assert_eq!(NONCEBYTES, secretbox::NONCEBYTES);
    assert_eq!(MACBYTES, secretbox::MACBYTES);
    assert_eq!(DIGESTBYTES, sha256::DIGESTBYTES);
}

fn fixed_keys() -> AppKeys {
    AppKeys {
        owner_key: [1; SIGN_PUBLIC_KEY_BYTES],
        enc_key: [2; KEYBYTES],
        sign_pk: [3; SIGN_PUBLIC_KEY_BYTES],
        sign_sk: [4; SIGN_SECRET_KEY_BYTES],
        enc_pk: [5; BOX_PUBLIC_KEY_BYTES],
        enc_sk: [6; BOX_SECRET_KEY_BYTES],
    }
}

#[test]
fn app_keys_round_trip_both_ways() {
    let raw = fixed_keys().into_repr_c();
    assert_eq!(raw.owner_key, [1; SIGN_PUBLIC_KEY_BYTES]);
    assert_eq!(raw.sign_sk, [4; SIGN_SECRET_KEY_BYTES]);
    assert!(AppKeys::from_repr_c(raw) == fixed_keys());
    assert!(AppKeys::from_repr_c(raw).into_repr_c() == raw);
}

#[test]
fn auth_granted_round_trip_both_ways() {
    let granted = AuthGranted {
        app_keys: fixed_keys(),
        bootstrap_config: Config,
        access_container: AccessContInfo { id: [9; XOR_NAME_LEN], tag: 15000, nonce: [8; NONCEBYTES] },
    };
    let raw = granted.clone().into_repr_c();
    assert_eq!(raw.access_container.id, [9; XOR_NAME_LEN]);
    assert_eq!(raw.app_keys.enc_pk, [5; BOX_PUBLIC_KEY_BYTES]);
    assert!(AuthGranted::from_repr_c(&raw) == granted);
    let again: ffi::AuthGranted = AuthGranted::from_repr_c(&raw).into_repr_c();
    assert!(again == raw);
}

#[test]
fn random_keys_keep_owner_key() {
    sodiumoxide::init().unwrap();
    let owner = [7; SIGN_PUBLIC_KEY_BYTES];
    let a = AppKeys::random(owner);
    let b = AppKeys::random(owner);
    assert_eq!(a.owner_key, owner);
    assert_eq!(b.owner_key, owner);
    assert_ne!(a.sign_sk, b.sign_sk);
    assert_ne!(a.enc_key, b.enc_key);
    // An ed25519 secret key holds its public key in its second half.
    assert_eq!(&a.sign_sk[32..], &a.sign_pk[..]);
    // The encryption public key is the base-point multiple of the secret key.
    let sk = scalarmult::Scalar::from_slice(&a.enc_sk).unwrap();
    assert_eq!(scalarmult::scalarmult_base(&sk).0, a.enc_pk);
    // The signing key pair signs and verifies.
    let sign_sk = sign::SecretKey::from_slice(&a.sign_sk).unwrap();
    let sign_pk = sign::PublicKey::from_slice(&a.sign_pk).unwrap();
    let sig = sign::sign_detached(b"msg", &sign_sk);
    assert!(sign::verify_detached(&sig, b"msg", &sign_pk));
}

#[test]
fn from_generated_places_each_key() {
    let keys = AppKeys::from_generated(
        [1; SIGN_PUBLIC_KEY_BYTES],
        ([5; BOX_PUBLIC_KEY_BYTES], [6; BOX_SECRET_KEY_BYTES]),
        ([3; SIGN_PUBLIC_KEY_BYTES], [4; SIGN_SECRET_KEY_BYTES]),
        [2; KEYBYTES],
    );
    assert!(keys == fixed_keys());
    let other = AppKeys::from_generated(
        [9; SIGN_PUBLIC_KEY_BYTES],
        ([5; BOX_PUBLIC_KEY_BYTES], [6; BOX_SECRET_KEY_BYTES]),
        ([3; SIGN_PUBLIC_KEY_BYTES], [4; SIGN_SECRET_KEY_BYTES]),
        [2; KEYBYTES],
    );
    assert_eq!(other.owner_key, [9; SIGN_PUBLIC_KEY_BYTES]);
    assert!(AppKeys { owner_key: [1; SIGN_PUBLIC_KEY_BYTES], ..other } == keys);
}

#[test]
fn mdata_info_round_trip() {
    let a = AccessContInfo { id: [3; XOR_NAME_LEN], tag: 681, nonce: [4; NONCEBYTES] };
    let md = a.clone().into_mdata_info([5; KEYBYTES]);
    assert_eq!(md.name, [3; XOR_NAME_LEN]);
    assert_eq!(md.type_tag, 681);
    assert_eq!(md.enc_info, Some(([5; KEYBYTES], Some([4; NONCEBYTES]))));
    assert_eq!(AccessContInfo::from_mdata_info(md.clone()), Ok(a.clone()));
    let back = AccessContInfo::from_mdata_info(md.clone()).unwrap();
    assert!(back.into_mdata_info([5; KEYBYTES]) == md);
}

#[test]
fn mdata_info_without_nonce_is_refused() {
    let expected = Err(IpcError::Unexpected("MDataInfo doesn't contain nonce".to_owned()));
    let plain = MDataInfo { name: [1; XOR_NAME_LEN], type_tag: 0, enc_info: None };
    assert_eq!(AccessContInfo::from_mdata_info(plain), expected);
    let no_nonce = MDataInfo { name: [1; XOR_NAME_LEN], type_tag: 0, enc_info: Some(([2; KEYBYTES], None)) };
    assert_eq!(AccessContInfo::from_mdata_info(no_nonce), expected);
}

#[test]
fn key_plaintext_is_id_then_nonce() {
    let pt = enc_key_plaintext_of(b"app", &[9; NONCEBYTES]);
    let mut expected = b"app".to_vec();
    expected.extend_from_slice(&[9; NONCEBYTES]);
    assert_eq!(pt, expected);
    assert_eq!(enc_key_plaintext_of(b"", &[1; NONCEBYTES]), vec![1; NONCEBYTES]);
}

#[test]
fn nonce_is_digest_prefix() {
    let mut digest = [0u8; DIGESTBYTES];
    for (i, b) in digest.iter_mut().enumerate() {
        *b = i as u8;
    }
    let n = nonce_from_digest(&digest).unwrap();
    let expected: Vec<u8> = (0..NONCEBYTES as u8).collect();
    assert_eq!(n.to_vec(), expected);
}

#[test]
fn enc_key_matches_sodium_and_opens() {
    sodiumoxide::init().unwrap();
    let app_key = secretbox::gen_key();
    let cont_nonce = secretbox::gen_nonce();
    let app_id = "net.maidsafe.test.app";
    let sealed = access_container_enc_key(app_id, &app_key.0, &cont_nonce.0).unwrap();

    let mut pt = app_id.as_bytes().to_vec();
    pt.extend_from_slice(&cont_nonce.0);
    let digest = sha256::hash(&pt);
    let key_nonce = secretbox::Nonce::from_slice(&digest.0[..secretbox::NONCEBYTES]).unwrap();
    assert_eq!(sealed, secretbox::seal(app_id.as_bytes(), &key_nonce, &app_key));
    assert_eq!(sealed.len(), app_id.len() + MACBYTES);
    assert_eq!(secretbox::open(&sealed, &key_nonce, &app_key).unwrap(), app_id.as_bytes());
}

#[test]
fn enc_key_depends_on_id_and_nonce() {
    let key = [7; KEYBYTES];
    let a = access_container_enc_key("a", &key, &[1; NONCEBYTES]).unwrap();
    let b = access_container_enc_key("b", &key, &[1; NONCEBYTES]).unwrap();
    let c = access_container_enc_key("a", &key, &[2; NONCEBYTES]).unwrap();
    assert_eq!(a, access_container_enc_key("a", &key, &[1; NONCEBYTES]).unwrap());
    assert_ne!(a, b);
    assert_ne!(a, c);
    assert_eq!(access_container_enc_key("", &key, &[1; NONCEBYTES]).unwrap().len(), MACBYTES);
}
