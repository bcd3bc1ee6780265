//! Ownership discipline for opaque native handles.
//!
//! A wrapper is either the sole owner of its handle — it must run the
//! boundary destructor exactly once on scope exit — or a non-owning view
//! into memory owned by a container, which must never run the destructor.
//! Violating the discipline either leaks the native resource or
//! double-frees a handle another owner still references.

use vstd::prelude::*;
use crate::error::UdmfError;

verus! {

/// Ownership record for one opaque native handle, stored as its address.
///
/// The caller of `from_borrowed` must keep the owning value alive for as
/// long as this wrapper is used; that is a documented precondition of the
/// boundary, not checked at runtime.
#[derive(Clone, Copy, Debug, PartialEq, Eq, Structural)]
pub struct HandleWrapper {
    /// Address of the native handle; zero stands for the null handle.
    pub addr: usize,
    /// Whether this wrapper is the destructor-of-record for the handle.
    pub owned: bool,
}

impl HandleWrapper {
    /// Whether the stored handle is null.
    pub open spec fn spec_is_null(self) -> bool {
        self.addr == 0
    }

    /// Whether dropping this wrapper must run the boundary destructor:
    /// only the owner destroys, and only a non-null handle.
    pub open spec fn spec_must_destroy(self) -> bool {
        self.owned && self.addr != 0
    }

    /// Wrap the address a boundary constructor returned. A null handle
    /// means resource exhaustion or an invalid state on the native side
    /// and is an `InternalError`, never a panic; every other handle is
    /// owned by the new wrapper.
    pub fn from_created(addr: usize) -> (r: Result<HandleWrapper, UdmfError>)
        ensures
            addr == 0 ==> r == Err::<HandleWrapper, UdmfError>(UdmfError::InternalError(0)),
            addr != 0 ==> r == Ok::<HandleWrapper, UdmfError>(
                HandleWrapper { addr, owned: true },
            ),
    {
        if addr == 0 {
            Err(UdmfError::InternalError(0))
        } else {
            Ok(HandleWrapper { addr, owned: true })
        }
    }

    /// Wrap a handle whose owner is some other live value; the resulting
    /// wrapper never destroys it.
    pub fn from_borrowed(addr: usize) -> (r: HandleWrapper)
        ensures
            r == (HandleWrapper { addr, owned: false }),
    {
        HandleWrapper { addr, owned: false }
    }

    /// Whether the stored handle is null.
    pub fn is_null(&self) -> (r: bool)
        ensures
            r == self.spec_is_null(),
    {
        self.addr == 0
    }

    /// The drop decision: whether the boundary destructor must run for
    /// this wrapper.
    pub fn must_destroy(&self) -> (r: bool)
        ensures
            r == self.spec_must_destroy(),
    {
        self.owned && self.addr != 0
    }
}

/// The non-null entries of a boundary handle list, in order: a null
/// entry contributes nothing.
pub open spec fn spec_present_addrs(addrs: Seq<usize>) -> Seq<usize>
    decreases addrs.len(),
{
    if addrs.len() == 0 {
        Seq::empty()
    } else {
        let rest = spec_present_addrs(addrs.drop_last());
        if addrs.last() != 0 {
            rest.push(addrs.last())
        } else {
            rest
        }
    }
}

/// Wrap each handle of a boundary-enumerated list as a non-owning view,
/// skipping null entries and keeping the order; the listed handles stay
/// owned by the container that was enumerated, so none of the resulting
/// wrappers ever destroys one.
pub fn borrowed_list(addrs: &Vec<usize>) -> (r: Vec<HandleWrapper>)
    ensures
        r@.len() == spec_present_addrs(addrs@).len(),
        forall|k: int|
            0 <= k < r@.len() ==> r@[k] == (HandleWrapper {
                addr: spec_present_addrs(addrs@)[k],
                owned: false,
            }),
{
    let n = addrs.len();
    let mut views: Vec<HandleWrapper> = Vec::new();
    let mut i: usize = 0;
    while i < n
        invariant
            i <= n,
            n == addrs@.len(),
            views@.len() == spec_present_addrs(addrs@.take(i as int)).len(),
            forall|k: int|
                0 <= k < views@.len() ==> views@[k] == (HandleWrapper {
                    addr: spec_present_addrs(addrs@.take(i as int))[k],
                    owned: false,
                }),
        decreases n - i,
    {
        let ghost prefix = addrs@.take(i as int);
        let addr = addrs[i];
        if addr != 0 {
            views.push(HandleWrapper::from_borrowed(addr));
        }
        i += 1;
        proof {
            let taken = addrs@.take(i as int);
            assert(taken.drop_last() =~= prefix);
            assert(taken.last() == addrs@[i - 1]);
        }
    }
    proof {
        assert(addrs@.take(n as int) =~= addrs@);
    }
    views
}

/// Destroying a non-owning wrapper never invokes the boundary destructor,
/// and dropping an owning wrapper whose handle is null is a safe no-op.
pub proof fn lemma_drop_discipline(addr: usize, owned: bool)
    ensures
        !(HandleWrapper { addr, owned: false }).spec_must_destroy(),
        !(HandleWrapper { addr: 0, owned }).spec_must_destroy(),
{
}

} // verus!
