use vstd::prelude::*;
use crate::error::DurableStoreError;
use crate::text::text_is_empty;

verus! {

/// The tenant and optional namespace that every stored record is keyed by.
#[derive(Clone, Debug)]
pub struct TenantScope {
    pub tenant_id: String,
    pub namespace_id: Option<String>,
}

/// The mathematical content of a [`TenantScope`].
pub struct ScopeView {
    pub tenant_id: Seq<char>,
    pub namespace_id: Option<Seq<char>>,
}

impl View for TenantScope {
    type V = ScopeView;

    open spec fn view(&self) -> ScopeView {
        ScopeView {
            tenant_id: self.tenant_id@,
            namespace_id: match self.namespace_id {
                Some(n) => Some(n@),
                None => None,
            },
        }
    }
}

/// The `(namespace_present, namespace_id)` column pair of a scope: `(1, id)`
/// for a namespace, `(0, "")` for the tenant root.
pub struct NamespaceStorageKey<'a> {
    pub present: i64,
    pub value: &'a str,
}

/// The column pair stored for an optional namespace.
pub open spec fn spec_namespace_key(namespace_id: Option<Seq<char>>) -> (i64, Seq<char>) {
    match namespace_id {
        Some(n) => (1, n),
        None => (0, Seq::empty()),
    }
}

/// The scope read back from its stored `(tenant, namespace_present, namespace_id)` columns.
/// The namespace flag must agree with the namespace text: `(0, "")` or `(1, non-empty)`.
pub open spec fn spec_stored_scope(tenant: Seq<char>, present: i64, namespace: Seq<char>) -> Result<
    ScopeView,
    DurableStoreError,
> {
    if present == 0 && namespace.len() == 0 {
        Ok(ScopeView { tenant_id: tenant, namespace_id: None })
    } else if present == 1 && namespace.len() > 0 {
        Ok(ScopeView { tenant_id: tenant, namespace_id: Some(namespace) })
    } else {
        Err(DurableStoreError::Corrupt)
    }
}

/// The column pair under which records of `scope` are stored.
pub fn namespace_storage_key(scope: &TenantScope) -> (r: NamespaceStorageKey<'_>)
    ensures
        (r.present, r.value@) == spec_namespace_key(scope@.namespace_id),
{
    match &scope.namespace_id {
        Some(namespace_id) => NamespaceStorageKey { present: 1, value: namespace_id.as_str() },
        None => {
            let value = "";
            proof {
                reveal_strlit("");
                assert(value@ =~= Seq::<char>::empty());
            }
            NamespaceStorageKey { present: 0, value }
        },
    }
}

/// Rebuilds a scope from its stored columns; an inconsistent namespace flag is corrupt.
pub fn stored_scope(tenant: &str, present: i64, namespace: &str) -> (r: Result<
    TenantScope,
    DurableStoreError,
>)
    ensures
        match (r, spec_stored_scope(tenant@, present, namespace@)) {
            (Ok(s), Ok(v)) => s@ == v,
            (Err(e), Err(f)) => e == f,
            _ => false,
        },
{
    let empty = text_is_empty(namespace);
    if present == 0 && empty {
        Ok(TenantScope { tenant_id: tenant.to_owned(), namespace_id: None })
    } else if present == 1 && !empty {
        Ok(TenantScope { tenant_id: tenant.to_owned(), namespace_id: Some(namespace.to_owned()) })
    } else {
        Err(DurableStoreError::Corrupt)
    }
}

/// A scope stored under its column pair reads back as the same scope, provided a
/// present namespace is not the empty text.
pub proof fn lemma_scope_storage_round_trip(scope: ScopeView)
    requires
        scope.namespace_id matches Some(n) ==> n.len() > 0,
    ensures
        spec_stored_scope(
            scope.tenant_id,
            spec_namespace_key(scope.namespace_id).0,
            spec_namespace_key(scope.namespace_id).1,
        ) == Ok::<ScopeView, DurableStoreError>(scope),
{
}

/// Different namespaces are stored under different keys; in particular no
/// namespace and a named namespace never share a key.
pub proof fn lemma_namespace_keys_distinct(a: Option<Seq<char>>, b: Option<Seq<char>>)
    ensures
        a != b ==> spec_namespace_key(a) != spec_namespace_key(b),
{
    if a != b {
        match (a, b) {
            (Some(x), Some(y)) => {
                assert(spec_namespace_key(a).1 == x);
                assert(spec_namespace_key(b).1 == y);
            },
            _ => {
            },
        }
    }
}

/// Whether two scopes are the same: same tenant and same (or equally absent) namespace.
pub fn scope_eq(a: &TenantScope, b: &TenantScope) -> (r: bool)
    ensures
        r == (a@ == b@),
{
    if !(a.tenant_id == b.tenant_id) {
        return false;
    }
    match (&a.namespace_id, &b.namespace_id) {
        (None, None) => true,
        (Some(x), Some(y)) => *x == *y,
        _ => false,
    }
}

/// A principal may only act within its own scope: any other scope is refused.
pub fn require_same_scope(subject_scope: &TenantScope, scope: &TenantScope) -> (r: Result<
    (),
    DurableStoreError,
>)
    ensures
        subject_scope@ == scope@ ==> r is Ok,
        subject_scope@ != scope@ ==> r == Err::<(), DurableStoreError>(
            DurableStoreError::PermissionDenied,
        ),
{
    if scope_eq(subject_scope, scope) {
        Ok(())
    } else {
        Err(DurableStoreError::PermissionDenied)
    }
}

} // verus!
