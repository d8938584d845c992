//! Root certificate stores made from trust anchors.

use tokio_rustls::rustls::{OwnedTrustAnchor, RootCertStore};
use vstd::prelude::*;

verus! {

/// A trust anchor by its three DER-encoded parts, borrowed.
pub struct TrustAnchor<'a> {
    /// The subject, without the outer SEQUENCE.
    pub subject: &'a [u8],
    /// The subject's public key info.
    pub spki: &'a [u8],
    /// The name constraints, where the anchor has any.
    pub name_constraints: Option<&'a [u8]>,
}

/// The bytes of a trust anchor.
pub struct AnchorParts {
    pub subject: Seq<u8>,
    pub spki: Seq<u8>,
    pub name_constraints: Option<Seq<u8>>,
}

impl<'a> View for TrustAnchor<'a> {
    type V = AnchorParts;

    open spec fn view(&self) -> AnchorParts {
        AnchorParts {
            subject: self.subject@,
            spki: self.spki@,
            name_constraints: match self.name_constraints {
                Some(bytes) => Some(bytes@),
                None => None,
            },
        }
    }
}

/// The bytes of each anchor of a list, in the list's order.
pub open spec fn parts_of(anchors: Seq<TrustAnchor<'_>>) -> Seq<AnchorParts> {
    anchors.map_values(|anchor: TrustAnchor<'_>| anchor@)
}

/// `rustls::RootCertStore`, carried as it is.
#[verifier::external_type_specification]
#[verifier::external_body]
pub struct ExRootCertStore(RootCertStore);

/// `rustls::OwnedTrustAnchor`, carried as it is.
#[verifier::external_type_specification]
#[verifier::external_body]
pub struct ExOwnedTrustAnchor(OwnedTrustAnchor);

/// The anchors that a store holds, oldest first.
pub uninterp spec fn store_anchors(store: RootCertStore) -> Seq<AnchorParts>;

/// The parts that an owned anchor was made from.
pub uninterp spec fn owned_parts(anchor: OwnedTrustAnchor) -> AnchorParts;

/// The entry of the compiled-in table of roots at `index`, `None` beyond its
/// end.
pub uninterp spec fn compiled_root(index: int) -> Option<AnchorParts>;

/// Whether `anchors` is the compiled-in table of roots, entry for entry.
pub open spec fn is_compiled_table(anchors: Seq<AnchorParts>) -> bool {
    forall|index: int|
        #[trigger] compiled_root(index) == if 0 <= index < anchors.len() {
            Some(anchors[index])
        } else {
            None
        }
}

/// `RootCertStore::empty`: a store that holds no anchor.
#[verifier::external_body]
fn empty_store() -> (store: RootCertStore)
    ensures
        store_anchors(store) == Seq::<AnchorParts>::empty(),
{
    RootCertStore::empty()
}

/// `OwnedTrustAnchor::from_subject_spki_name_constraints`: an anchor that
/// owns a copy of the three parts given.
#[verifier::external_body]
fn owned_anchor(anchor: &TrustAnchor<'_>) -> (owned: OwnedTrustAnchor)
    ensures
        owned_parts(owned) == anchor@,
{
    OwnedTrustAnchor::from_subject_spki_name_constraints(
        anchor.subject,
        anchor.spki,
        anchor.name_constraints,
    )
}

/// `RootCertStore::add_trust_anchors` with a single anchor: it is appended to
/// what the store holds, and nothing else changes.
#[verifier::external_body]
fn add_trust_anchor(store: &mut RootCertStore, anchor: OwnedTrustAnchor)
    ensures
        store_anchors(*final(store)) == store_anchors(*old(store)).push(owned_parts(anchor)),
{
    store.add_trust_anchors(vec![anchor].into_iter());
}

/// `webpki_roots::TLS_SERVER_ROOTS`, each entry by its three fields. The
/// contract says that the list is the table: entry for entry, and no longer.
#[verifier::external_body]
fn compiled_roots() -> (roots: Vec<TrustAnchor<'static>>)
    ensures
        forall|index: int|
            #[trigger] compiled_root(index) == if 0 <= index < roots@.len() {
                Some(roots@[index]@)
            } else {
                None
            },
{
    webpki_roots::TLS_SERVER_ROOTS
        .iter()
        .map(|root| TrustAnchor {
            subject: root.subject,
            spki: root.spki,
            name_constraints: root.name_constraints,
        })
        .collect()
}

/// Builds a store that holds the given anchors: one entry for each, in the
/// order given, repeats included.
pub fn cert_store_from(anchors: &[TrustAnchor<'_>]) -> (store: RootCertStore)
    ensures
        store_anchors(store) == parts_of(anchors@),
{
    let mut store = empty_store();
    let mut done: usize = 0;
    while done < anchors.len()
        invariant
            done <= anchors.len(),
            store_anchors(store) == parts_of(anchors@.take(done as int)),
        decreases anchors.len() - done,
    {
        let owned = owned_anchor(&anchors[done]);
        add_trust_anchor(&mut store, owned);
        proof {
            assert(anchors@.take(done + 1) =~= anchors@.take(done as int).push(anchors@[done as int]));
            assert(parts_of(anchors@.take(done + 1)) =~= parts_of(anchors@.take(done as int)).push(
                anchors@[done as int]@,
            ));
        }
        done += 1;
    }
    proof {
        assert(anchors@.take(anchors@.len() as int) =~= anchors@);
    }
    store
}

/// Returns standard root certificates from `webpki-roots` crate as a rustls certificate store.
///
/// The store holds the compiled-in table of roots, entry for entry.
pub fn webpki_roots_cert_store() -> (store: RootCertStore)
    ensures
        is_compiled_table(store_anchors(store)),
{
    let roots = compiled_roots();
    let store = cert_store_from(roots.as_slice());
    proof {
        assert(parts_of(roots@).len() == roots@.len());
        assert forall|index: int| 0 <= index < roots@.len() implies parts_of(roots@)[index]
            == roots@[index]@ by {}
    }
    store
}

} // verus!
