use udmf::HandleWrapper;
use udmf::UdmfError;

#[test]
fn test_created_null_handle_is_internal_error() {
    assert_eq!(HandleWrapper::from_created(0), Err(UdmfError::InternalError(0)));
}

#[test]
fn test_created_handle_is_owned() {
    let w = HandleWrapper::from_created(42).expect("non-null handle");
    assert_eq!(w.addr, 42);
    assert!(w.owned);
    assert!(w.must_destroy());
    assert!(!w.is_null());
}

#[test]
fn test_borrowed_wrapper_never_destroys() {
    let w = HandleWrapper::from_borrowed(42);
    assert_eq!(w.addr, 42);
    assert!(!w.owned);
    assert!(!w.must_destroy());
}

#[test]
fn test_borrowed_list_skips_null_handles() {
    let addrs = vec![8, 0, 16, 0, 24];
    let views = udmf::handle::borrowed_list(&addrs);
    assert_eq!(views.len(), 3);
    assert_eq!(views[0], HandleWrapper { addr: 8, owned: false });
    assert_eq!(views[1], HandleWrapper { addr: 16, owned: false });
    assert_eq!(views[2], HandleWrapper { addr: 24, owned: false });
    assert!(views.iter().all(|w| !w.must_destroy()));
}

#[test]
fn test_borrowed_list_empty() {
    assert_eq!(udmf::handle::borrowed_list(&Vec::new()).len(), 0);
    assert_eq!(udmf::handle::borrowed_list(&vec![0, 0]).len(), 0);
}

#[test]
fn test_owned_null_handle_is_noop_to_drop() {
    let w = HandleWrapper { addr: 0, owned: true };
    assert!(!w.must_destroy());
    assert!(w.is_null());
}
