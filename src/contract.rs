use std::collections::HashMap;

use vstd::prelude::*;

use crate::model::{
    authorize, bumped, count_of, effective_limit, empty_state, extended, hello_op, initialize_op,
    last_greeting, reset_contador_op, saludo_ttl_of, set_limite_op, stored, transfer_admin_op,
    user_count, ContractState, DEFAULT_LIMITE, TTL_LEDGERS,
};
use crate::types::{DataKey, Error, Identity};

verus! {

broadcast use vstd::std_specs::hash::group_hash_axioms;

/// The acknowledgment that a successful greeting returns.
pub open spec fn saludo_token() -> Seq<char> {
    "Hola"@
}

/// The service together with its storage.
pub struct HelloContract {
    admin: Option<Identity>,
    contador: Option<u32>,
    limite: Option<u32>,
    contador_usuario: HashMap<u64, u32>,
    ultimo_saludo: HashMap<u64, Vec<u8>>,
    instance_ttl: u32,
    saludo_ttl: HashMap<u64, u32>,
}

impl View for HelloContract {
    type V = ContractState;

    closed spec fn view(&self) -> ContractState {
        ContractState {
            admin: self.admin,
            contador: self.contador,
            limite: self.limite,
            contador_usuario: self.contador_usuario@,
            ultimo_saludo: self.ultimo_saludo@.map_values(|v: Vec<u8>| v@),
            instance_ttl: self.instance_ttl,
            saludo_ttl: self.saludo_ttl@,
        }
    }
}

fn ttl_after_extension(ttl: u32) -> (r: u32)
    ensures
        r == extended(ttl),
{
    if ttl < TTL_LEDGERS {
        TTL_LEDGERS
    } else {
        ttl
    }
}

fn bump(c: u32) -> (r: u32)
    ensures
        r == bumped(c),
{
    if c < u32::MAX {
        c + 1
    } else {
        c
    }
}

impl HelloContract {
    /// A service on which nothing has been stored yet.
    pub fn new() -> (r: HelloContract)
        ensures
            r@ == empty_state(),
    {
        let r = HelloContract {
            admin: None,
            contador: None,
            limite: None,
            contador_usuario: HashMap::new(),
            ultimo_saludo: HashMap::new(),
            instance_ttl: 0,
            saludo_ttl: HashMap::new(),
        };
        assert(r@.ultimo_saludo =~= Map::empty());
        r
    }

    fn extend_instance_ttl(&mut self)
        ensures
            final(self)@ == (ContractState { instance_ttl: extended(old(self)@.instance_ttl), ..old(self)@ }),
    {
        self.instance_ttl = ttl_after_extension(self.instance_ttl);
    }

    /// The limit in force: the stored one, else the default.
    fn limite_efectivo(&self) -> (r: u32)
        ensures
            r == effective_limit(self@),
    {
        match self.limite {
            Some(l) => l,
            None => DEFAULT_LIMITE,
        }
    }

    /// Records a greeting of `usuario`: the text must be non-empty and no
    /// longer than the limit in force. On success the global counter and the
    /// counter of `usuario` go up by one, the text becomes the last greeting
    /// of `usuario`, and the lifetime windows of that record and of the
    /// instance tier are extended. A counter at `u32::MAX` stays there. On
    /// failure nothing changes.
    pub fn hello(&mut self, usuario: Identity, nombre: Vec<u8>) -> (r: Result<&'static str, Error>)
        ensures
            ({
                let (s, out) = hello_op(old(self)@, usuario, nombre@);
                &&& final(self)@ == s
                &&& match r {
                    Ok(t) => out is Ok && t@ == saludo_token(),
                    Err(e) => out == Err::<(), Error>(e),
                }
            }),
            nombre@.len() == 0 ==> r == Err::<&'static str, Error>(Error::NombreVacio) && final(self)@ == old(self)@,
            nombre@.len() > effective_limit(old(self)@) ==> r == Err::<&'static str, Error>(Error::NombreMuyLargo)
                && final(self)@ == old(self)@,
            0 < nombre@.len() <= effective_limit(old(self)@) ==> r is Ok,
    {
        if nombre.len() == 0 {
            return Err(Error::NombreVacio);
        }
        let limite = self.limite_efectivo();
        if nombre.len() as u64 > limite as u64 {
            return Err(Error::NombreMuyLargo);
        }
        let ghost s0 = self@;
        let contador: u32 = match self.contador {
            Some(c) => c,
            None => 0,
        };
        self.contador = Some(bump(contador));

        let ttl: u32 = match self.saludo_ttl.get(&usuario.0) {
            Some(t) => *t,
            None => 0,
        };
        let ghost before = self.ultimo_saludo@;
        let ghost texto = nombre@;
        self.ultimo_saludo.insert(usuario.0, nombre);
        assert(self.ultimo_saludo@.map_values(|v: Vec<u8>| v@) =~= before.map_values(
            |v: Vec<u8>| v@,
        ).insert(usuario.0, texto));
        self.saludo_ttl.insert(usuario.0, ttl_after_extension(ttl));

        self.extend_instance_ttl();

        let contador_usuario: u32 = match self.contador_usuario.get(&usuario.0) {
            Some(c) => *c,
            None => 0,
        };
        self.contador_usuario.insert(usuario.0, bump(contador_usuario));
        assert(self@ == hello_op(s0, usuario, texto).0);
        Ok("Hola")
    }
    /// Whether `caller` is the stored administrator.
    fn check_admin(&self, caller: Identity) -> (r: Result<(), Error>)
        ensures
            r == authorize(self@, caller),
    {
        match self.admin {
            None => Err(Error::NoInicializado),
            Some(a) => if a == caller {
                Ok(())
            } else {
                Err(Error::NoAutorizado)
            },
        }
    }

    /// Stores `admin` as the administrator and the global counter as zero,
    /// and extends the instance tier's window. Fails, changing nothing, once
    /// an administrator is stored.
    pub fn initialize(&mut self, admin: Identity) -> (r: Result<(), Error>)
        ensures
            (final(self)@, r) == initialize_op(old(self)@, admin),
            old(self)@.admin is Some ==> r == Err::<(), Error>(Error::NoInicializado) && final(self)@ == old(self)@,
            old(self)@.admin is None ==> r is Ok && final(self)@.admin == Some(admin) && count_of(final(self)@) == 0,
    {
        if self.admin.is_some() {
            return Err(Error::NoInicializado);
        }
        self.admin = Some(admin);
        self.contador = Some(0);
        self.extend_instance_ttl();
        Ok(())
    }

    /// Stores `limite` as the maximum greeting length and extends the
    /// instance tier's window; only the administrator may.
    pub fn set_limite(&mut self, caller: Identity, limite: u32) -> (r: Result<(), Error>)
        ensures
            (final(self)@, r) == set_limite_op(old(self)@, caller, limite),
            r is Ok <==> old(self)@.admin == Some(caller),
            r is Ok ==> effective_limit(final(self)@) == limite,
            r is Err ==> final(self)@ == old(self)@ && r == Err::<(), Error>(authorize(old(self)@, caller)->Err_0),
    {
        match self.check_admin(caller) {
            Err(e) => Err(e),
            Ok(()) => {
                self.limite = Some(limite);
                self.extend_instance_ttl();
                Ok(())
            },
        }
    }

    /// The global greeting counter; zero when none is stored.
    pub fn get_contador(&self) -> (r: u32)
        ensures
            r == count_of(self@),
    {
        match self.contador {
            Some(c) => c,
            None => 0,
        }
    }

    /// The last greeting of `usuario`, if any. Extends no window.
    pub fn get_ultimo_saludo(&self, usuario: Identity) -> (r: Option<Vec<u8>>)
        ensures
            match r {
                Some(t) => last_greeting(self@, usuario) == Some(t@),
                None => last_greeting(self@, usuario) is None,
            },
    {
        match self.ultimo_saludo.get(&usuario.0) {
            Some(t) => {
                let c = t.clone();
                assert(c@ =~= t@);
                Some(c)
            },
            None => None,
        }
    }

    /// Sets the global counter to zero and extends the instance tier's
    /// window; only the administrator may. Per-identity records stay.
    pub fn reset_contador(&mut self, caller: Identity) -> (r: Result<(), Error>)
        ensures
            (final(self)@, r) == reset_contador_op(old(self)@, caller),
            r is Ok <==> old(self)@.admin == Some(caller),
            r is Ok ==> count_of(final(self)@) == 0,
            r is Err ==> final(self)@ == old(self)@ && r == Err::<(), Error>(authorize(old(self)@, caller)->Err_0),
    {
        match self.check_admin(caller) {
            Err(e) => Err(e),
            Ok(()) => {
                self.contador = Some(0);
                self.extend_instance_ttl();
                Ok(())
            },
        }
    }

    /// The greeting counter of `usuario`; zero if `usuario` never greeted.
    pub fn get_contador_usuario(&self, usuario: Identity) -> (r: u32)
        ensures
            r == user_count(self@, usuario),
    {
        match self.contador_usuario.get(&usuario.0) {
            Some(c) => *c,
            None => 0,
        }
    }

    /// The administrator; there must be one.
    pub fn get_admin(&self) -> (r: Identity)
        requires
            self@.admin is Some,
        ensures
            self@.admin == Some(r),
    {
        self.admin.unwrap()
    }

    /// Makes `nuevo_admin` the administrator; only the administrator may.
    /// No lifetime window is extended.
    pub fn transfer_admin(&mut self, caller: Identity, nuevo_admin: Identity) -> (r: Result<(), Error>)
        ensures
            (final(self)@, r) == transfer_admin_op(old(self)@, caller, nuevo_admin),
            r is Ok <==> old(self)@.admin == Some(caller),
            r is Ok ==> final(self)@.admin == Some(nuevo_admin),
            r is Err ==> final(self)@ == old(self)@ && r == Err::<(), Error>(authorize(old(self)@, caller)->Err_0),
    {
        match self.check_admin(caller) {
            Err(e) => Err(e),
            Ok(()) => {
                self.admin = Some(nuevo_admin);
                Ok(())
            },
        }
    }

    /// Whether a record is stored under `key`.
    pub fn has(&self, key: &DataKey) -> (r: bool)
        ensures
            r == stored(self@, *key),
    {
        match key {
            DataKey::Admin => self.admin.is_some(),
            DataKey::ContadorSaludos => self.contador.is_some(),
            DataKey::LimiteCaracteres => self.limite.is_some(),
            DataKey::UltimoSaludo(u) => self.ultimo_saludo.contains_key(&u.0),
            DataKey::ContadorPorUsuario(u) => self.contador_usuario.contains_key(&u.0),
        }
    }

    /// The remaining lifetime window of the instance tier.
    pub fn instance_ttl(&self) -> (r: u32)
        ensures
            r == self@.instance_ttl,
    {
        self.instance_ttl
    }

    /// The remaining lifetime window of the last greeting of `usuario`
    /// (zero when there is none).
    pub fn saludo_ttl(&self, usuario: Identity) -> (r: u32)
        ensures
            r == saludo_ttl_of(self@, usuario),
    {
        match self.saludo_ttl.get(&usuario.0) {
            Some(t) => *t,
            None => 0,
        }
    }
}

} // verus!

