use vstd::prelude::*;

use crate::types::{DataKey, Error, Identity};

verus! {

/// The maximum greeting length in force while no limit is stored.
pub const DEFAULT_LIMITE: u32 = 32;

/// The lifetime window, in ledgers, that every extension asks for; an
/// extension takes effect only where the remaining window is below it.
pub const TTL_LEDGERS: u32 = 17280;

/// The stored records of the service, tier by tier.
///
/// Per-identity records are keyed by the identity's handle. An absent
/// entry and a stored default are kept apart: only reads fall back.
pub struct ContractState {
    /// Instance tier: the administrator.
    pub admin: Option<Identity>,
    /// Instance tier: the global greeting counter.
    pub contador: Option<u32>,
    /// Instance tier: the maximum greeting length.
    pub limite: Option<u32>,
    /// Instance tier: the greeting counter of each identity.
    pub contador_usuario: Map<u64, u32>,
    /// Durable tier: the last greeting of each identity.
    pub ultimo_saludo: Map<u64, Seq<u8>>,
    /// The remaining lifetime window of the instance tier.
    pub instance_ttl: u32,
    /// The remaining lifetime window of each last-greeting record.
    pub saludo_ttl: Map<u64, u32>,
}

/// The state of a service on which nothing has been stored.
pub open spec fn empty_state() -> ContractState {
    ContractState {
        admin: None,
        contador: None,
        limite: None,
        contador_usuario: Map::empty(),
        ultimo_saludo: Map::empty(),
        instance_ttl: 0,
        saludo_ttl: Map::empty(),
    }
}

/// The limit that applies to a greeting: the stored one, else the default.
pub open spec fn effective_limit(s: ContractState) -> u32 {
    match s.limite {
        Some(l) => l,
        None => DEFAULT_LIMITE,
    }
}

/// The global counter as read: the stored value, else zero.
pub open spec fn count_of(s: ContractState) -> u32 {
    match s.contador {
        Some(c) => c,
        None => 0,
    }
}

/// The counter of `u` as read: the stored value, else zero.
pub open spec fn user_count(s: ContractState, u: Identity) -> u32 {
    if s.contador_usuario.contains_key(u.0) {
        s.contador_usuario[u.0]
    } else {
        0
    }
}

/// The last greeting of `u`, if `u` has ever greeted.
pub open spec fn last_greeting(s: ContractState, u: Identity) -> Option<Seq<u8>> {
    if s.ultimo_saludo.contains_key(u.0) {
        Some(s.ultimo_saludo[u.0])
    } else {
        None
    }
}

/// The remaining window of the last-greeting record of `u` (zero if absent).
pub open spec fn saludo_ttl_of(s: ContractState, u: Identity) -> u32 {
    if s.saludo_ttl.contains_key(u.0) {
        s.saludo_ttl[u.0]
    } else {
        0
    }
}

/// Whether a record is stored under `k`.
pub open spec fn stored(s: ContractState, k: DataKey) -> bool {
    match k {
        DataKey::Admin => s.admin is Some,
        DataKey::ContadorSaludos => s.contador is Some,
        DataKey::LimiteCaracteres => s.limite is Some,
        DataKey::UltimoSaludo(u) => s.ultimo_saludo.contains_key(u.0),
        DataKey::ContadorPorUsuario(u) => s.contador_usuario.contains_key(u.0),
    }
}

/// A lifetime window after an extension.
pub open spec fn extended(ttl: u32) -> u32 {
    if ttl < TTL_LEDGERS {
        TTL_LEDGERS
    } else {
        ttl
    }
}

/// A counter after one increment; it saturates, so that a counter never
/// decreases but on an explicit reset.
pub open spec fn bumped(c: u32) -> u32 {
    if c < u32::MAX {
        (c + 1) as u32
    } else {
        c
    }
}

/// The check that gates privileged operations.
pub open spec fn authorize(s: ContractState, caller: Identity) -> Result<(), Error> {
    match s.admin {
        None => Err(Error::NoInicializado),
        Some(a) => if a == caller {
            Ok(())
        } else {
            Err(Error::NoAutorizado)
        },
    }
}

/// `initialize(admin)`: the new state and the outcome.
pub open spec fn initialize_op(s: ContractState, admin: Identity) -> (ContractState, Result<(), Error>) {
    if s.admin is Some {
        (s, Err(Error::NoInicializado))
    } else {
        (
            ContractState {
                admin: Some(admin),
                contador: Some(0),
                instance_ttl: extended(s.instance_ttl),
                ..s
            },
            Ok(()),
        )
    }
}

/// `set_limite(caller, limite)`: the new state and the outcome.
pub open spec fn set_limite_op(s: ContractState, caller: Identity, limite: u32) -> (
    ContractState,
    Result<(), Error>,
) {
    match authorize(s, caller) {
        Err(e) => (s, Err(e)),
        Ok(_) => (
            ContractState { limite: Some(limite), instance_ttl: extended(s.instance_ttl), ..s },
            Ok(()),
        ),
    }
}

/// `hello(u, nombre)`: the new state and the outcome.
pub open spec fn hello_op(s: ContractState, u: Identity, nombre: Seq<u8>) -> (
    ContractState,
    Result<(), Error>,
) {
    if nombre.len() == 0 {
        (s, Err(Error::NombreVacio))
    } else if nombre.len() > effective_limit(s) {
        (s, Err(Error::NombreMuyLargo))
    } else {
        (
            ContractState {
                contador: Some(bumped(count_of(s))),
                ultimo_saludo: s.ultimo_saludo.insert(u.0, nombre),
                saludo_ttl: s.saludo_ttl.insert(u.0, extended(saludo_ttl_of(s, u))),
                instance_ttl: extended(s.instance_ttl),
                contador_usuario: s.contador_usuario.insert(u.0, bumped(user_count(s, u))),
                ..s
            },
            Ok(()),
        )
    }
}

/// `reset_contador(caller)`: the new state and the outcome.
pub open spec fn reset_contador_op(s: ContractState, caller: Identity) -> (
    ContractState,
    Result<(), Error>,
) {
    match authorize(s, caller) {
        Err(e) => (s, Err(e)),
        Ok(_) => (
            ContractState { contador: Some(0), instance_ttl: extended(s.instance_ttl), ..s },
            Ok(()),
        ),
    }
}

/// `transfer_admin(caller, nuevo)`: the new state and the outcome. No
/// lifetime window is extended.
pub open spec fn transfer_admin_op(s: ContractState, caller: Identity, nuevo: Identity) -> (
    ContractState,
    Result<(), Error>,
) {
    match authorize(s, caller) {
        Err(e) => (s, Err(e)),
        Ok(_) => (ContractState { admin: Some(nuevo), ..s }, Ok(())),
    }
}

} // verus!
