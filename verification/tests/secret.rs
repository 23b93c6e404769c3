use zerotier_service::secret::Secret;

#[test]
fn new_secret_is_zeroed() {
    let s = Secret::<8>::new();
    assert_eq!(s.as_bytes(), &[0u8; 8]);
}

#[test]
fn default_secret_is_zeroed() {
    let s: Secret<16> = Default::default();
    assert_eq!(s.as_bytes(), &[0u8; 16]);
}

#[test]
fn from_bytes_copies_bytes() {
    let s = Secret::<4>::from_bytes(&[9, 8, 7, 6]);
    assert_eq!(s.as_bytes(), &[9, 8, 7, 6]);
    assert_eq!(s.0, [9, 8, 7, 6]);
}

#[test]
fn first_n_is_a_prefix() {
    let s = Secret::<6>::from_bytes(&[1, 2, 3, 4, 5, 6]);
    let p: &[u8; 3] = s.first_n::<3>();
    assert_eq!(p, &[1, 2, 3]);
    let whole: &[u8; 6] = s.first_n::<6>();
    assert_eq!(whole, &[1, 2, 3, 4, 5, 6]);
}

#[test]
fn first_n_clone_copies_a_prefix() {
    let s = Secret::<5>::from_bytes(&[10, 20, 30, 40, 50]);
    let t: Secret<2> = s.first_n_clone::<2>();
    assert_eq!(t.as_bytes(), &[10, 20]);
    let u: Secret<1> = t.first_n_clone::<1>();
    assert_eq!(u.as_bytes(), s.first_n_clone::<1>().as_bytes());
}

#[test]
fn clone_and_equality() {
    let s = Secret::<3>::from_bytes(&[1, 2, 3]);
    let c = s.clone();
    assert!(c == s);
    let d = Secret::<3>::from_bytes(&[1, 2, 4]);
    assert!(d != s);
}

#[test]
fn as_ref_and_as_mut() {
    let mut s = Secret::<3>::from_bytes(&[1, 2, 3]);
    let r: &[u8] = s.as_ref();
    assert_eq!(r, &[1, 2, 3]);
    let m: &mut [u8] = s.as_mut();
    m[0] = 7;
    assert_eq!(s.as_bytes(), &[7, 2, 3]);
    let m2: &mut [u8; 3] = s.as_mut();
    m2[2] = 9;
    let r2: &[u8; 3] = s.as_ref();
    assert_eq!(r2, &[7, 2, 9]);
}
