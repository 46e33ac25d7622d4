use vstd::prelude::*;

use crate::accounts::CreateSaberVault;
use crate::accounts::SaberVault;
use crate::accounts::vault_conserved;
use crate::errors::ErrorCode;

verus! {

/// The vault registry: the set of creation triples whose derived address is
/// already occupied, and a counter from which the identifiers of newly
/// allocated records are drawn.
///
/// Address derivation is deterministic in the triple, so "a vault for this
/// triple exists" and "the derived address is occupied" coincide: the
/// registry records the triples.
pub struct VaultRegistry {
    /// Triples for which a vault record already exists.
    pub created: Vec<CreateSaberVault>,
    /// Every identifier the registry has handed out so far is below this
    /// counter, so identifiers at or above it are fresh.
    pub next_id: u64,
}

/// Well-formedness of the registry: no creation triple is recorded twice, so
/// at most one vault record exists per distinct triple. An empty registry is
/// well formed and `create_vault` preserves well-formedness.
pub open spec fn registry_wf(reg: VaultRegistry) -> bool {
    forall|i: int, j: int|
        0 <= i < j < reg.created@.len() ==> reg.created@[i] != reg.created@[j]
}

/// Whether a vault record already exists for this creation triple, that is,
/// whether the address derived from the triple is occupied.
pub open spec fn occupied(reg: VaultRegistry, req: CreateSaberVault) -> bool {
    reg.created@.contains(req)
}

/// The error of a creation attempt: `AddressAlreadyInUse` exactly when a
/// vault for the triple already exists, `None` otherwise.
pub open spec fn create_vault_err(reg: VaultRegistry, req: CreateSaberVault) -> Option<
    ErrorCode,
> {
    if occupied(reg, req) {
        Some(ErrorCode::AddressAlreadyInUse)
    } else {
        None
    }
}

/// Base of the block of four fresh identifiers allocated for a new vault
/// (its address, reserve account and two claim asset types). The block is
/// moved past the caller's underlying asset identifier where the two would
/// otherwise collide, so the allocated identifiers never alias it.
pub open spec fn fresh_id_base(reg: VaultRegistry, req: CreateSaberVault) -> u64 {
    if reg.next_id <= req.mint_u && req.mint_u < reg.next_id + 4 {
        (req.mint_u + 1) as u64
    } else {
        reg.next_id
    }
}

/// The vault record a successful creation persists: the triple's fields, a
/// block of four fresh identifiers, and empty reserve and claim supplies.
pub open spec fn created_vault(reg: VaultRegistry, req: CreateSaberVault) -> SaberVault {
    let base = fresh_id_base(reg, req);
    SaberVault {
        address: base,
        start_time: req.start_time,
        end_time: req.end_time,
        mint_u: req.mint_u,
        token_u: (base + 1) as u64,
        mint_p: (base + 2) as u64,
        mint_y: (base + 3) as u64,
        reserve: 0,
        supply_p: 0,
        supply_y: 0,
    }
}

impl VaultRegistry {
    /// An empty registry: no vault exists, and identifier 1 upward is fresh
    /// (0 is left unused as a null identifier).
    pub fn new() -> (r: VaultRegistry)
        ensures
            r.created@ == Seq::<CreateSaberVault>::empty(),
            r.next_id == 1,
            registry_wf(r),
    {
        VaultRegistry { created: Vec::new(), next_id: 1 }
    }
}

/// Vault creation: derives the address for the (underlying asset, start
/// time, end time) triple, fails with `AddressAlreadyInUse` when that
/// address is occupied (a repeat creation is an error, not a no-op), and
/// otherwise allocates the reserve account and the two claim asset types —
/// all three fresh and exclusively controlled by the new vault's address —
/// and persists the record. No balances change: the new vault is empty and
/// trivially conserved.
#[verifier::loop_isolation(false)]
pub fn create_vault(registry: &mut VaultRegistry, req: CreateSaberVault) -> (r: Result<
    SaberVault,
    ErrorCode,
>)
    requires
        old(registry).next_id <= u64::MAX - 8,
    ensures
        create_vault_err(*old(registry), req) matches Some(e) ==> {
            &&& r == Err::<SaberVault, ErrorCode>(e)
            &&& *final(registry) == *old(registry)
        },
        create_vault_err(*old(registry), req) is None ==> {
            &&& r == Ok::<SaberVault, ErrorCode>(created_vault(*old(registry), req))
            &&& final(registry).created@ == old(registry).created@.push(req)
            &&& final(registry).next_id == fresh_id_base(*old(registry), req) + 4
        },
        r is Ok ==> occupied(*final(registry), req),
        registry_wf(*old(registry)) ==> registry_wf(*final(registry)),
        r matches Ok(v) ==> {
            &&& vault_conserved(v)
            &&& v.address != v.token_u && v.address != v.mint_p && v.address != v.mint_y
            &&& v.token_u != v.mint_p && v.token_u != v.mint_y && v.mint_p != v.mint_y
            &&& v.mint_u != v.address && v.mint_u != v.token_u && v.mint_u != v.mint_p
                && v.mint_u != v.mint_y
            &&& v.address >= old(registry).next_id
            &&& final(registry).next_id > v.mint_y
        },
{
    let n: usize = registry.created.len();
    let mut i: usize = 0;
    while i < n
        invariant
            i <= n,
            forall|k: int| 0 <= k < i ==> registry.created@[k] != req,
        decreases n - i,
    {
        if registry.created[i] == req {
            return Err(ErrorCode::AddressAlreadyInUse);
        }
        i = i + 1;
    }
    assert(!occupied(*registry, req));
    let next: u64 = registry.next_id;
    let base: u64 = if next <= req.mint_u && req.mint_u < next + 4 {
        req.mint_u + 1
    } else {
        next
    };
    let vault = SaberVault {
        address: base,
        start_time: req.start_time,
        end_time: req.end_time,
        mint_u: req.mint_u,
        token_u: base + 1,
        mint_p: base + 2,
        mint_y: base + 3,
        reserve: 0,
        supply_p: 0,
        supply_y: 0,
    };
    registry.created.push(req);
    registry.next_id = base + 4;
    assert(registry.created@[registry.created@.len() - 1] == req);
    Ok(vault)
}

} // verus!
