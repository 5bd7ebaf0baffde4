use vstd::prelude::*;

verus! {

/// An opaque, comparable handle for a caller or an account.
#[derive(Clone, Copy, Debug, PartialEq, Eq, Structural)]
pub struct Identity(pub u64);

/// The recoverable errors of the service.
#[derive(Clone, Copy, Debug, PartialEq, Eq, Structural)]
pub enum Error {
    /// The greeting text is empty.
    NombreVacio,
    /// The greeting text is longer than the effective limit.
    NombreMuyLargo,
    /// The caller is not the administrator.
    NoAutorizado,
    /// No administrator is stored yet, or (for `initialize`) one already is.
    NoInicializado,
}

/// The numeric code under which the host reports each error.
pub open spec fn error_code(e: Error) -> u32 {
    match e {
        Error::NombreVacio => 1,
        Error::NombreMuyLargo => 2,
        Error::NoAutorizado => 3,
        Error::NoInicializado => 4,
    }
}

impl Error {
    /// The numeric code of this error, as the host reports it.
    pub fn code(&self) -> (r: u32)
        ensures
            r == error_code(*self),
    {
        match self {
            Error::NombreVacio => 1,
            Error::NombreMuyLargo => 2,
            Error::NoAutorizado => 3,
            Error::NoInicializado => 4,
        }
    }
}

/// The keys under which the records of the service are stored.
#[derive(Clone, Copy, Debug, PartialEq, Eq, Structural)]
pub enum DataKey {
    /// The administrator (instance tier).
    Admin,
    /// The global greeting counter (instance tier).
    ContadorSaludos,
    /// The last greeting of an identity (durable tier).
    UltimoSaludo(Identity),
    /// The greeting counter of an identity (instance tier).
    ContadorPorUsuario(Identity),
    /// The maximum greeting length (instance tier).
    LimiteCaracteres,
}

} // verus!
