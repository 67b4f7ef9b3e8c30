use openssl_rsa::cvt::{cvt, cvt_n};
use openssl_rsa::passwd::{invoke_passwd_cb, passphrase_cstring};
use openssl_rsa::{BigNum, CryptRequest, Error, ErrorStack, Padding, Rsa, RsaOperation};

fn bn(bytes: &[u8]) -> BigNum {
    BigNum::from_slice(bytes).unwrap()
}

fn bytes_of(b: Option<&BigNum>) -> Option<Vec<u8>> {
    b.map(|b| b.to_vec())
}

/// A 2048-bit modulus: 256 bytes, the first of them non-zero.
fn modulus_2048() -> Vec<u8> {
    let mut n = vec![0xc5u8; 256];
    n[255] = 0x01;
    n
}

fn private_key() -> Rsa {
    Rsa::from_private_components(
        bn(&[0x0c, 0xa1]),
        bn(&[0x11]),
        bn(&[0x0a, 0xc1]),
        bn(&[0x3d]),
        bn(&[0x35]),
        bn(&[0x35]),
        bn(&[0x31]),
        bn(&[0x26]),
    )
    .unwrap()
}

#[test]
fn test_from_password() {
    let passphrase = passphrase_cstring(b"mypass").unwrap();
    assert_eq!(passphrase, b"mypass\0".to_vec());
}

#[test]
fn test_from_password_callback() {
    let mut password_queried = false;
    let mut buf = vec![0u8; 1024];
    let len = invoke_passwd_cb(&mut buf, |password: &mut [u8]| {
        password_queried = true;
        password[..6].copy_from_slice(b"mypass");
        Ok(6)
    });

    assert!(password_queried);
    assert_eq!(len, 6);
    assert_eq!(&buf[..6], b"mypass");
}

#[test]
fn password_callback_failure_gives_zero() {
    let mut buf = vec![0u8; 16];
    let len = invoke_passwd_cb(&mut buf, |_password: &mut [u8]| Err(ErrorStack::empty()));
    assert_eq!(len, 0);
}

#[test]
fn passphrase_with_nul_is_refused() {
    assert!(passphrase_cstring(b"my\0pass").is_none());
    assert_eq!(passphrase_cstring(b"").unwrap(), vec![0u8]);
}

#[test]
fn padding_values_are_openssl_s() {
    assert_eq!(Padding::none().as_raw(), openssl_sys::RSA_NO_PADDING);
    assert_eq!(Padding::pkcs1().as_raw(), openssl_sys::RSA_PKCS1_PADDING);
    assert_eq!(Padding::pkcs1_oaep().as_raw(), openssl_sys::RSA_PKCS1_OAEP_PADDING);
}

#[test]
fn padding_raw_round_trip() {
    assert_eq!(Padding::from_raw(7).as_raw(), 7);
    let p = Padding::pkcs1_oaep();
    assert_eq!(Padding::from_raw(p.as_raw()), p);
    assert_ne!(Padding::pkcs1(), Padding::none());
}

#[test]
fn bignum_from_u32() {
    assert_eq!(BigNum::from_u32(65537).unwrap().to_vec(), vec![1, 0, 1]);
    assert_eq!(BigNum::from_u32(0x0102_0304).unwrap().to_vec(), vec![1, 2, 3, 4]);
    assert_eq!(BigNum::from_u32(0).unwrap().to_vec(), Vec::<u8>::new());
    assert_eq!(BigNum::from_u32(255).unwrap().num_bytes(), 1);
    assert_eq!(BigNum::from_u32(256).unwrap().num_bytes(), 2);
    assert_eq!(BigNum::from_u32(u32::MAX).unwrap().to_vec(), vec![0xff; 4]);
}

#[test]
fn bignum_from_slice_drops_leading_zeros() {
    let b = bn(&[0, 0, 1, 2]);
    assert_eq!(b.to_vec(), vec![1, 2]);
    assert_eq!(b.num_bytes(), 2);
    assert_eq!(bn(&[0, 0, 0]).num_bytes(), 0);
    assert_eq!(bn(&[]).to_vec(), Vec::<u8>::new());
}

#[test]
fn bignum_encoding_round_trip() {
    let b = bn(&[0x80, 0, 0xff]);
    let again = bn(&b.to_vec());
    assert_eq!(again.to_vec(), b.to_vec());
}

#[test]
fn size_of_a_2048_bit_key_is_256() {
    let key = Rsa::from_public_components(bn(&modulus_2048()), BigNum::from_u32(65537).unwrap()).unwrap();
    assert_eq!(key.size(), 256);
}

#[test]
fn size_ignores_leading_zero_bytes_of_the_modulus() {
    let mut n = vec![0u8, 0u8];
    n.extend_from_slice(&[0x7f; 64]);
    let key = Rsa::from_public_components(bn(&n), bn(&[3])).unwrap();
    assert_eq!(key.size(), 64);
}

#[test]
fn public_components_read_back() {
    let key = Rsa::from_public_components(bn(&[0x0c, 0xa1]), bn(&[0x11])).unwrap();
    assert_eq!(bytes_of(key.n()), Some(vec![0x0c, 0xa1]));
    assert_eq!(bytes_of(key.e()), Some(vec![0x11]));
    assert!(key.d().is_none());
    assert!(key.p().is_none() && key.q().is_none());
    assert!(key.dp().is_none() && key.dq().is_none() && key.qi().is_none());
}

#[test]
fn private_components_read_back() {
    let key = private_key();
    assert_eq!(bytes_of(key.n()), Some(vec![0x0c, 0xa1]));
    assert_eq!(bytes_of(key.e()), Some(vec![0x11]));
    assert_eq!(bytes_of(key.d()), Some(vec![0x0a, 0xc1]));
    assert_eq!(bytes_of(key.p()), Some(vec![0x3d]));
    assert_eq!(bytes_of(key.q()), Some(vec![0x35]));
    assert_eq!(bytes_of(key.dp()), Some(vec![0x35]));
    assert_eq!(bytes_of(key.dq()), Some(vec![0x31]));
    assert_eq!(bytes_of(key.qi()), Some(vec![0x26]));
    assert_eq!(key.size(), 2);
}

#[test]
fn set_key_needs_modulus_and_exponent_first() {
    let mut key = Rsa::new();
    assert_eq!(key.as_mut().set_key(None, Some(bn(&[3])), None), 0);
    assert!(key.n().is_none() && key.e().is_none());
    assert_eq!(key.as_mut().set_key(Some(bn(&[0x0c, 0xa1])), Some(bn(&[3])), None), 1);
    // once keyed, a private exponent alone is accepted
    assert_eq!(key.as_mut().set_key(None, None, Some(bn(&[0x0a, 0xc1]))), 1);
    assert_eq!(bytes_of(key.n()), Some(vec![0x0c, 0xa1]));
    assert_eq!(bytes_of(key.d()), Some(vec![0x0a, 0xc1]));
    // a new exponent replaces the old one
    assert_eq!(key.as_mut().set_key(None, Some(bn(&[0x11])), None), 1);
    assert_eq!(bytes_of(key.e()), Some(vec![0x11]));
}

#[test]
fn set_factors_and_crt_params_need_all_at_first() {
    let mut key = Rsa::new();
    assert_eq!(key.as_mut().set_factors(Some(bn(&[0x3d])), None), 0);
    assert!(key.p().is_none());
    assert_eq!(key.as_mut().set_factors(Some(bn(&[0x3d])), Some(bn(&[0x35]))), 1);
    assert_eq!(key.as_mut().set_factors(None, Some(bn(&[0x37]))), 1);
    assert_eq!(bytes_of(key.p()), Some(vec![0x3d]));
    assert_eq!(bytes_of(key.q()), Some(vec![0x37]));
    assert_eq!(key.as_mut().set_crt_params(Some(bn(&[1])), Some(bn(&[2])), None), 0);
    assert!(key.dp().is_none());
    assert_eq!(key.as_mut().set_crt_params(Some(bn(&[1])), Some(bn(&[2])), Some(bn(&[3]))), 1);
    assert_eq!(bytes_of(key.qi()), Some(vec![3]));
}

#[test]
fn private_decrypt_request() {
    let key = private_key();
    let from = [1u8, 2, 3];
    let req = key.private_decrypt(&from, 2, Padding::pkcs1());
    assert_eq!(
        req,
        CryptRequest { operation: RsaOperation::PrivateDecrypt, flen: 3, padding: 1 }
    );
}

#[test]
fn the_other_requests() {
    let key = private_key();
    let from = vec![9u8; 5];
    let req = key.private_encrypt(&from, 8, Padding::none());
    assert_eq!(req, CryptRequest { operation: RsaOperation::PrivateEncrypt, flen: 5, padding: 3 });
    let req = key.public_decrypt(&from, 2, Padding::pkcs1());
    assert_eq!(req, CryptRequest { operation: RsaOperation::PublicDecrypt, flen: 5, padding: 1 });
    let req = key.public_encrypt(&from, 256, Padding::pkcs1_oaep());
    assert_eq!(req, CryptRequest { operation: RsaOperation::PublicEncrypt, flen: 5, padding: 4 });
}

#[test]
fn finish_reads_the_return_value() {
    let req = CryptRequest { operation: RsaOperation::PublicEncrypt, flen: 12, padding: 1 };
    assert_eq!(req.finish(256), Some(256));
    assert_eq!(req.finish(0), Some(0));
    assert_eq!(req.finish(-1), None);
}

#[test]
fn cvt_conventions() {
    assert_eq!(cvt(1), Some(1));
    assert_eq!(cvt(0), None);
    assert_eq!(cvt(-1), None);
    assert_eq!(cvt_n(0), Some(0));
    assert_eq!(cvt_n(-1), None);
}

#[test]
fn generate_uses_exponent_65537() {
    let params = Rsa::generate(2048).unwrap();
    assert_eq!(params.bits, 2048);
    assert_eq!(params.exponent.to_vec(), vec![1, 0, 1]);
    assert_eq!(openssl_sys::RSA_F4, 65537);
    assert_eq!(Rsa::generate(u32::MAX).unwrap().bits, -1);
}

#[test]
fn debug_text_hides_components() {
    assert_eq!(private_key().fmt(), "Rsa");
}

#[test]
fn error_stack_keeps_its_errors() {
    let stack = ErrorStack::new(vec![Error::from_code(0x0407_006b), Error::from_code(7)]);
    let codes: Vec<u64> = stack.errors().iter().map(|e| e.code()).collect();
    assert_eq!(codes, vec![0x0407_006b, 7]);
    assert!(ErrorStack::empty().errors().is_empty());
}
