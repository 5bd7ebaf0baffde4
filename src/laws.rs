use vstd::prelude::*;

use crate::model::{
    count_of, effective_limit, hello_op, initialize_op, last_greeting, reset_contador_op,
    set_limite_op, transfer_admin_op, user_count, ContractState,
};
use crate::types::{Error, Identity};

verus! {

/// Initialization happens once: after a first `initialize`, whatever its
/// outcome, a second one fails whatever its argument and changes nothing,
/// so the stored administrator stays.
pub proof fn lemma_initialize_once(s: ContractState, a: Identity, b: Identity)
    ensures
        ({
            let s1 = initialize_op(s, a).0;
            &&& s1.admin is Some
            &&& initialize_op(s1, b) == (s1, Err::<(), Error>(Error::NoInicializado))
        }),
{
}

/// An empty greeting fails with `NombreVacio` and changes nothing.
pub proof fn lemma_empty_name_rejected(s: ContractState, u: Identity, nombre: Seq<u8>)
    requires
        nombre.len() == 0,
    ensures
        hello_op(s, u, nombre) == (s, Err::<(), Error>(Error::NombreVacio)),
{
}

/// A greeting longer than the limit in force fails with `NombreMuyLargo`
/// and changes nothing.
pub proof fn lemma_long_name_rejected(s: ContractState, u: Identity, nombre: Seq<u8>)
    requires
        nombre.len() > effective_limit(s),
    ensures
        hello_op(s, u, nombre) == (s, Err::<(), Error>(Error::NombreMuyLargo)),
{
}

/// A valid greeting raises the global counter and the counter of its sender
/// by exactly one (while neither is at its maximum), makes the text the
/// sender's last greeting, and leaves every other identity's records alone.
pub proof fn lemma_valid_greeting(s: ContractState, u: Identity, nombre: Seq<u8>, v: Identity)
    requires
        0 < nombre.len() <= effective_limit(s),
        count_of(s) < u32::MAX,
        user_count(s, u) < u32::MAX,
        v != u,
    ensures
        ({
            let (t, out) = hello_op(s, u, nombre);
            &&& out is Ok
            &&& count_of(t) == count_of(s) + 1
            &&& user_count(t, u) == user_count(s, u) + 1
            &&& last_greeting(t, u) == Some(nombre)
            &&& user_count(t, v) == user_count(s, v)
            &&& last_greeting(t, v) == last_greeting(s, v)
            &&& t.admin == s.admin
        }),
{
}

/// Only the administrator succeeds at `set_limite`, `reset_contador` and
/// `transfer_admin`: any other caller gets `NoAutorizado` (or
/// `NoInicializado` while there is no administrator) and changes nothing.
pub proof fn lemma_only_admin(s: ContractState, caller: Identity, limite: u32, nuevo: Identity)
    requires
        s.admin != Some(caller),
    ensures
        ({
            let e = if s.admin is Some {
                Error::NoAutorizado
            } else {
                Error::NoInicializado
            };
            &&& set_limite_op(s, caller, limite) == (s, Err::<(), Error>(e))
            &&& reset_contador_op(s, caller) == (s, Err::<(), Error>(e))
            &&& transfer_admin_op(s, caller, nuevo) == (s, Err::<(), Error>(e))
        }),
{
}

/// A reset by the administrator brings the global counter to zero and
/// leaves the per-identity counters and last greetings as they were.
pub proof fn lemma_reset_global_only(s: ContractState, admin: Identity)
    requires
        s.admin == Some(admin),
    ensures
        ({
            let (t, out) = reset_contador_op(s, admin);
            &&& out is Ok
            &&& count_of(t) == 0
            &&& t.contador_usuario == s.contador_usuario
            &&& t.ultimo_saludo == s.ultimo_saludo
        }),
{
}

/// After the administrator hands over to another identity, the former
/// administrator is refused every privileged operation and the new one is
/// granted each of them.
pub proof fn lemma_transfer_moves_authority(
    s: ContractState,
    viejo: Identity,
    nuevo: Identity,
    otro: Identity,
    limite: u32,
)
    requires
        s.admin == Some(viejo),
        viejo != nuevo,
    ensures
        ({
            let (t, out) = transfer_admin_op(s, viejo, nuevo);
            &&& out is Ok
            &&& set_limite_op(t, viejo, limite).1 == Err::<(), Error>(Error::NoAutorizado)
            &&& reset_contador_op(t, viejo).1 == Err::<(), Error>(Error::NoAutorizado)
            &&& transfer_admin_op(t, viejo, otro).1 == Err::<(), Error>(Error::NoAutorizado)
            &&& set_limite_op(t, nuevo, limite).1 is Ok
            &&& reset_contador_op(t, nuevo).1 is Ok
            &&& transfer_admin_op(t, nuevo, otro).1 is Ok
        }),
{
}

/// Once stored, the administrator changes only through `transfer_admin`:
/// greetings, limit changes, resets and further initializations keep it.
pub proof fn lemma_admin_kept(
    s: ContractState,
    caller: Identity,
    nombre: Seq<u8>,
    limite: u32,
    a: Identity,
)
    requires
        s.admin is Some,
    ensures
        hello_op(s, caller, nombre).0.admin == s.admin,
        set_limite_op(s, caller, limite).0.admin == s.admin,
        reset_contador_op(s, caller).0.admin == s.admin,
        initialize_op(s, a).0.admin == s.admin,
{
}

} // verus!
