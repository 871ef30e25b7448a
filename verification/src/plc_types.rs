//! The identity document that the ledger holds for an address, and the
//! operations that change it.
//!
//! Where the wire form keys entries by name, the entries stand here as
//! pairs of name and value, in the order of their names.

use vstd::prelude::*;

verus! {

/// A service endpoint of an identity.
#[derive(Clone, Debug, PartialEq, Eq)]
pub struct Service {
    /// The wire field `type`.
    pub kind: String,
    pub endpoint: String,
}

/// What a [`Service`] holds, as plain values.
pub struct ServiceView {
    pub kind: Seq<char>,
    pub endpoint: Seq<char>,
}

impl DeepView for Service {
    type V = ServiceView;

    open spec fn deep_view(&self) -> ServiceView {
        ServiceView {
            kind: self.kind.deep_view(),
            endpoint: self.endpoint.deep_view(),
        }
    }
}

impl View for Service {
    type V = ServiceView;

    open spec fn view(&self) -> ServiceView {
        self.deep_view()
    }
}

/// The identity document resolved for a ledger address.
#[derive(Clone, Debug, PartialEq, Eq)]
pub struct Web5DocumentData {
    /// Verification method name and public key, one pair per method.
    pub verification_methods: Vec<(String, String)>,
    /// The handle bindings, as `at://` URIs.
    pub also_known_as: Vec<String>,
    /// Service name and endpoint, one pair per service.
    pub services: Vec<(String, Service)>,
}

/// What a [`Web5DocumentData`] holds, as plain values.
pub struct Web5DocumentDataView {
    pub verification_methods: Seq<(Seq<char>, Seq<char>)>,
    pub also_known_as: Seq<Seq<char>>,
    pub services: Seq<(Seq<char>, ServiceView)>,
}

impl DeepView for Web5DocumentData {
    type V = Web5DocumentDataView;

    open spec fn deep_view(&self) -> Web5DocumentDataView {
        Web5DocumentDataView {
            verification_methods: self.verification_methods.deep_view(),
            also_known_as: self.also_known_as.deep_view(),
            services: self.services.deep_view(),
        }
    }
}

impl View for Web5DocumentData {
    type V = Web5DocumentDataView;

    open spec fn view(&self) -> Web5DocumentDataView {
        self.deep_view()
    }
}

/// The first-generation operation that creates an identity.
#[derive(Clone, Debug, PartialEq, Eq)]
pub struct CreateOpV1 {
    /// The wire field `type`: `create`.
    pub kind: String,
    pub signing_key: String,
    pub recovery_key: String,
    pub handle: String,
    pub service: String,
    pub prev: Option<String>,
    pub sig: Option<String>,
}

/// What a [`CreateOpV1`] holds, as plain values.
pub struct CreateOpV1View {
    pub kind: Seq<char>,
    pub signing_key: Seq<char>,
    pub recovery_key: Seq<char>,
    pub handle: Seq<char>,
    pub service: Seq<char>,
    pub prev: Option<Seq<char>>,
    pub sig: Option<Seq<char>>,
}

impl DeepView for CreateOpV1 {
    type V = CreateOpV1View;

    open spec fn deep_view(&self) -> CreateOpV1View {
        CreateOpV1View {
            kind: self.kind.deep_view(),
            signing_key: self.signing_key.deep_view(),
            recovery_key: self.recovery_key.deep_view(),
            handle: self.handle.deep_view(),
            service: self.service.deep_view(),
            prev: self.prev.deep_view(),
            sig: self.sig.deep_view(),
        }
    }
}

impl View for CreateOpV1 {
    type V = CreateOpV1View;

    open spec fn view(&self) -> CreateOpV1View {
        self.deep_view()
    }
}

/// An operation that sets the whole document of an identity.
#[derive(Clone, Debug, PartialEq, Eq)]
pub struct Operation {
    /// The wire field `type`: `plc_operation`.
    pub kind: String,
    pub verification_methods: Vec<(String, String)>,
    pub also_known_as: Vec<String>,
    pub services: Vec<(String, Service)>,
    pub prev: Option<String>,
    pub sig: Option<String>,
}

/// What a [`Operation`] holds, as plain values.
pub struct OperationView {
    pub kind: Seq<char>,
    pub verification_methods: Seq<(Seq<char>, Seq<char>)>,
    pub also_known_as: Seq<Seq<char>>,
    pub services: Seq<(Seq<char>, ServiceView)>,
    pub prev: Option<Seq<char>>,
    pub sig: Option<Seq<char>>,
}

impl DeepView for Operation {
    type V = OperationView;

    open spec fn deep_view(&self) -> OperationView {
        OperationView {
            kind: self.kind.deep_view(),
            verification_methods: self.verification_methods.deep_view(),
            also_known_as: self.also_known_as.deep_view(),
            services: self.services.deep_view(),
            prev: self.prev.deep_view(),
            sig: self.sig.deep_view(),
        }
    }
}

impl View for Operation {
    type V = OperationView;

    open spec fn view(&self) -> OperationView {
        self.deep_view()
    }
}

/// An operation that retires an identity.
#[derive(Clone, Debug, PartialEq, Eq)]
pub struct Tombstone {
    /// The wire field `type`: `plc_tombstone`.
    pub kind: String,
    pub prev: String,
    pub sig: Option<String>,
}

/// What a [`Tombstone`] holds, as plain values.
pub struct TombstoneView {
    pub kind: Seq<char>,
    pub prev: Seq<char>,
    pub sig: Option<Seq<char>>,
}

impl DeepView for Tombstone {
    type V = TombstoneView;

    open spec fn deep_view(&self) -> TombstoneView {
        TombstoneView {
            kind: self.kind.deep_view(),
            prev: self.prev.deep_view(),
            sig: self.sig.deep_view(),
        }
    }
}

impl View for Tombstone {
    type V = TombstoneView;

    open spec fn view(&self) -> TombstoneView {
        self.deep_view()
    }
}

/// Any operation, of either generation.
#[derive(Clone, Debug, PartialEq, Eq)]
pub enum CompatibleOpOrTombstone {
    CreateOpV1(CreateOpV1),
    Operation(Operation),
    Tombstone(Tombstone),
}

/// What a [`CompatibleOpOrTombstone`] holds, as plain values.
pub enum CompatibleOpOrTombstoneView {
    CreateOpV1(CreateOpV1View),
    Operation(OperationView),
    Tombstone(TombstoneView),
}

impl DeepView for CompatibleOpOrTombstone {
    type V = CompatibleOpOrTombstoneView;

    open spec fn deep_view(&self) -> CompatibleOpOrTombstoneView {
        match self {
            CompatibleOpOrTombstone::CreateOpV1(inner) => CompatibleOpOrTombstoneView::CreateOpV1(inner.deep_view()),
            CompatibleOpOrTombstone::Operation(inner) => CompatibleOpOrTombstoneView::Operation(inner.deep_view()),
            CompatibleOpOrTombstone::Tombstone(inner) => CompatibleOpOrTombstoneView::Tombstone(inner.deep_view()),
        }
    }
}

impl View for CompatibleOpOrTombstone {
    type V = CompatibleOpOrTombstoneView;

    open spec fn view(&self) -> CompatibleOpOrTombstoneView {
        self.deep_view()
    }
}

/// An operation that leaves the identity in being, of either generation.
#[derive(Clone, Debug, PartialEq, Eq)]
pub enum CompatibleOp {
    CreateOpV1(CreateOpV1),
    Operation(Operation),
}

/// What a [`CompatibleOp`] holds, as plain values.
pub enum CompatibleOpView {
    CreateOpV1(CreateOpV1View),
    Operation(OperationView),
}

impl DeepView for CompatibleOp {
    type V = CompatibleOpView;

    open spec fn deep_view(&self) -> CompatibleOpView {
        match self {
            CompatibleOp::CreateOpV1(inner) => CompatibleOpView::CreateOpV1(inner.deep_view()),
            CompatibleOp::Operation(inner) => CompatibleOpView::Operation(inner.deep_view()),
        }
    }
}

impl View for CompatibleOp {
    type V = CompatibleOpView;

    open spec fn view(&self) -> CompatibleOpView {
        self.deep_view()
    }
}

/// An operation of the current generation.
#[derive(Clone, Debug, PartialEq, Eq)]
pub enum OpOrTombstone {
    Operation(Operation),
    Tombstone(Tombstone),
}

/// What a [`OpOrTombstone`] holds, as plain values.
pub enum OpOrTombstoneView {
    Operation(OperationView),
    Tombstone(TombstoneView),
}

impl DeepView for OpOrTombstone {
    type V = OpOrTombstoneView;

    open spec fn deep_view(&self) -> OpOrTombstoneView {
        match self {
            OpOrTombstone::Operation(inner) => OpOrTombstoneView::Operation(inner.deep_view()),
            OpOrTombstone::Tombstone(inner) => OpOrTombstoneView::Tombstone(inner.deep_view()),
        }
    }
}

impl View for OpOrTombstone {
    type V = OpOrTombstoneView;

    open spec fn view(&self) -> OpOrTombstoneView {
        self.deep_view()
    }
}

impl CompatibleOpOrTombstone {
    /// The operation with its signature set to `sig` and nothing else changed.
    pub open spec fn with_sig(self, sig: String) -> CompatibleOpOrTombstone {
        match self {
            CompatibleOpOrTombstone::CreateOpV1(op) => CompatibleOpOrTombstone::CreateOpV1(CreateOpV1 { sig: Some(sig), ..op }),
            CompatibleOpOrTombstone::Operation(op) => CompatibleOpOrTombstone::Operation(Operation { sig: Some(sig), ..op }),
            CompatibleOpOrTombstone::Tombstone(op) => CompatibleOpOrTombstone::Tombstone(Tombstone { sig: Some(sig), ..op }),
        }
    }

    /// The signature that the operation carries, if it carries one.
    pub open spec fn sig(self) -> Option<String> {
        match self {
            CompatibleOpOrTombstone::CreateOpV1(op) => op.sig,
            CompatibleOpOrTombstone::Operation(op) => op.sig,
            CompatibleOpOrTombstone::Tombstone(op) => op.sig,
        }
    }

    /// Signs the operation with `sig`, in place of any earlier signature.
    pub fn set_sig(&mut self, sig: String)
        ensures
            *final(self) == old(self).with_sig(sig),
            final(self).sig() == Some(sig),
    {
        match self {
            CompatibleOpOrTombstone::CreateOpV1(op) => {
                op.sig = Some(sig);
            },
            CompatibleOpOrTombstone::Operation(op) => {
                op.sig = Some(sig);
            },
            CompatibleOpOrTombstone::Tombstone(op) => {
                op.sig = Some(sig);
            },
        }
    }

    /// The signature that the operation carries, if it carries one.
    pub fn get_sig(&mut self) -> (out: &Option<String>)
        ensures
            *out == old(self).sig(),
            *final(self) == *old(self),
    {
        match self {
            CompatibleOpOrTombstone::CreateOpV1(op) => &op.sig,
            CompatibleOpOrTombstone::Operation(op) => &op.sig,
            CompatibleOpOrTombstone::Tombstone(op) => &op.sig,
        }
    }
}

impl CompatibleOp {
    /// The operation with its signature set to `sig` and nothing else changed.
    pub open spec fn with_sig(self, sig: String) -> CompatibleOp {
        match self {
            CompatibleOp::CreateOpV1(op) => CompatibleOp::CreateOpV1(CreateOpV1 { sig: Some(sig), ..op }),
            CompatibleOp::Operation(op) => CompatibleOp::Operation(Operation { sig: Some(sig), ..op }),
        }
    }

    /// The signature that the operation carries, if it carries one.
    pub open spec fn sig(self) -> Option<String> {
        match self {
            CompatibleOp::CreateOpV1(op) => op.sig,
            CompatibleOp::Operation(op) => op.sig,
        }
    }

    /// Signs the operation with `sig`, in place of any earlier signature.
    pub fn set_sig(&mut self, sig: String)
        ensures
            *final(self) == old(self).with_sig(sig),
            final(self).sig() == Some(sig),
    {
        match self {
            CompatibleOp::CreateOpV1(op) => {
                op.sig = Some(sig);
            },
            CompatibleOp::Operation(op) => {
                op.sig = Some(sig);
            },
        }
    }

    /// The signature that the operation carries, if it carries one.
    pub fn get_sig(&mut self) -> (out: &Option<String>)
        ensures
            *out == old(self).sig(),
            *final(self) == *old(self),
    {
        match self {
            CompatibleOp::CreateOpV1(op) => &op.sig,
            CompatibleOp::Operation(op) => &op.sig,
        }
    }
}

impl OpOrTombstone {
    /// The operation with its signature set to `sig` and nothing else changed.
    pub open spec fn with_sig(self, sig: String) -> OpOrTombstone {
        match self {
            OpOrTombstone::Operation(op) => OpOrTombstone::Operation(Operation { sig: Some(sig), ..op }),
            OpOrTombstone::Tombstone(op) => OpOrTombstone::Tombstone(Tombstone { sig: Some(sig), ..op }),
        }
    }

    /// The signature that the operation carries, if it carries one.
    pub open spec fn sig(self) -> Option<String> {
        match self {
            OpOrTombstone::Operation(op) => op.sig,
            OpOrTombstone::Tombstone(op) => op.sig,
        }
    }

    /// Signs the operation with `sig`, in place of any earlier signature.
    pub fn set_sig(&mut self, sig: String)
        ensures
            *final(self) == old(self).with_sig(sig),
            final(self).sig() == Some(sig),
    {
        match self {
            OpOrTombstone::Operation(op) => {
                op.sig = Some(sig);
            },
            OpOrTombstone::Tombstone(op) => {
                op.sig = Some(sig);
            },
        }
    }

    /// The signature that the operation carries, if it carries one.
    pub fn get_sig(&mut self) -> (out: &Option<String>)
        ensures
            *out == old(self).sig(),
            *final(self) == *old(self),
    {
        match self {
            OpOrTombstone::Operation(op) => &op.sig,
            OpOrTombstone::Tombstone(op) => &op.sig,
        }
    }
}

/// Whether `key` is the public key of one of the verification methods.
pub open spec fn holds_key(methods: Seq<(Seq<char>, Seq<char>)>, key: Seq<char>) -> bool {
    exists|i: int| 0 <= i < methods.len() && (#[trigger] methods[i]).1 == key
}

/// The handle that a document binds: what follows `at://` in the first of
/// its handle bindings. `None` where the document has no binding or the
/// first is no `at://` URI.
pub open spec fn bound_handle(also_known_as: Seq<Seq<char>>) -> Option<Seq<char>> {
    if also_known_as.len() > 0 && crate::text::is_prefix("at://"@, also_known_as[0]) {
        Some(also_known_as[0].skip(5))
    } else {
        None
    }
}

/// No two of the named entries share a name, as in the map that the wire
/// form holds them in.
pub open spec fn distinct_names<T>(entries: Seq<(String, T)>) -> bool {
    forall|i: int, j: int|
        0 <= i < j < entries.len() ==> (#[trigger] entries[i]).0@ != (#[trigger] entries[j]).0@
}

/// Whether no two of the named entries share a name.
pub fn has_distinct_names<T>(entries: &Vec<(String, T)>) -> (out: bool)
    ensures
        out == distinct_names(entries@),
{
    let mut j: usize = 0;
    while j < entries.len()
        invariant
            j <= entries.len(),
            forall|a: int, b: int|
                0 <= a < b < j ==> (#[trigger] entries@[a]).0@ != (#[trigger] entries@[b]).0@,
        decreases entries.len() - j,
    {
        let mut i: usize = 0;
        while i < j
            invariant
                i <= j,
                j < entries.len(),
                forall|a: int| 0 <= a < i ==> (#[trigger] entries@[a]).0@ != entries@[j as int].0@,
            decreases j - i,
        {
            if entries[i].0 == entries[j].0 {
                assert(entries@[i as int].0@ == entries@[j as int].0@);
                return false;
            }
            i += 1;
        }
        j += 1;
    }
    true
}

impl Web5DocumentData {
    /// No two verification methods, and no two services, share a name. The
    /// resolver hands out no document of which this does not hold.
    pub open spec fn well_formed(self) -> bool {
        distinct_names(self.verification_methods@) && distinct_names(self.services@)
    }

    /// Whether the document is well formed.
    pub fn is_well_formed(&self) -> (out: bool)
        ensures
            out == self.well_formed(),
    {
        has_distinct_names(&self.verification_methods) && has_distinct_names(&self.services)
    }

    /// Whether `key` is the public key of one of the verification methods.
    pub fn has_key(&self, key: &String) -> (out: bool)
        ensures
            out == holds_key(self@.verification_methods, key@),
    {
        let mut i: usize = 0;
        while i < self.verification_methods.len()
            invariant
                i <= self.verification_methods.len(),
                forall|k: int| 0 <= k < i ==> (#[trigger] self@.verification_methods[k]).1 != key@,
            decreases self.verification_methods.len() - i,
        {
            if self.verification_methods[i].1 == *key {
                assert(self@.verification_methods[i as int].1 == key@);
                return true;
            }
            i += 1;
        }
        false
    }

    /// The handle that the document binds, if it binds one.
    pub fn handle(&self) -> (out: Option<String>)
        ensures
            out.deep_view() == bound_handle(self@.also_known_as),
    {
        if self.also_known_as.len() == 0 {
            return None;
        }
        let first = crate::text::chars_of(self.also_known_as[0].as_str());
        let scheme = crate::text::chars_of("at://");
        proof {
            reveal_strlit("at://");
            assert(self@.also_known_as[0] == self.also_known_as[0]@);
        }
        if crate::text::has_prefix(&first, &scheme) {
            let rest = crate::text::subvec(&first, 5, first.len());
            assert(first@.subrange(5, first@.len() as int) =~= first@.skip(5));
            Some(crate::text::string_of(&rest))
        } else {
            None
        }
    }
}

} // verus!
