use hello_world::{DataKey, Error, HelloContract, Identity, DEFAULT_LIMITE, TTL_LEDGERS};

fn texto(s: &str) -> Vec<u8> {
    s.as_bytes().to_vec()
}

fn iniciado(admin: Identity) -> HelloContract {
    let mut c = HelloContract::new();
    assert_eq!(c.initialize(admin), Ok(()));
    c
}

#[test]
fn full_greeting_and_reset_scenario() {
    let a = Identity(10);
    let u = Identity(20);
    let mut c = iniciado(a);
    assert_eq!(c.hello(u, texto("Tiburón")), Ok("Hola"));
    assert_eq!(c.get_contador(), 1);
    assert_eq!(c.get_contador_usuario(u), 1);
    assert_eq!(c.get_ultimo_saludo(u), Some(texto("Tiburón")));
    assert_eq!(c.hello(u, texto("Tiburón")), Ok("Hola"));
    assert_eq!(c.get_contador(), 2);
    assert_eq!(c.get_contador_usuario(u), 2);
    assert_eq!(c.reset_contador(a), Ok(()));
    assert_eq!(c.get_contador(), 0);
    assert_eq!(c.get_contador_usuario(u), 2);
    assert_eq!(c.get_ultimo_saludo(u), Some(texto("Tiburón")));
}

#[test]
fn default_limit_is_exactly_32() {
    let u = Identity(2);
    let mut c = iniciado(Identity(1));
    assert_eq!(DEFAULT_LIMITE, 32);
    assert_eq!(c.hello(u, vec![b'a'; 32]), Ok("Hola"));
    assert_eq!(c.hello(u, vec![b'b'; 33]), Err(Error::NombreMuyLargo));
    assert_eq!(c.get_contador(), 1);
    assert_eq!(c.get_ultimo_saludo(u), Some(vec![b'a'; 32]));
}

#[test]
fn stored_limit_replaces_default() {
    let a = Identity(1);
    let u = Identity(2);
    let mut c = iniciado(a);
    assert!(!c.has(&DataKey::LimiteCaracteres));
    assert_eq!(c.set_limite(a, 7), Ok(()));
    assert!(c.has(&DataKey::LimiteCaracteres));
    // the length is counted in bytes: "Tiburón" takes 8
    assert_eq!(c.hello(u, texto("Tiburón")), Err(Error::NombreMuyLargo));
    assert_eq!(c.hello(u, texto("Tiburon")), Ok("Hola"));
    assert_eq!(c.set_limite(a, 100), Ok(()));
    assert_eq!(c.hello(u, vec![b'x'; 100]), Ok("Hola"));
    assert_eq!(c.hello(u, vec![b'x'; 101]), Err(Error::NombreMuyLargo));
}

#[test]
fn rejected_greetings_change_nothing() {
    let a = Identity(1);
    let u = Identity(2);
    let mut c = iniciado(a);
    assert_eq!(c.hello(u, texto("")), Err(Error::NombreVacio));
    assert_eq!(c.hello(u, vec![b'z'; 40]), Err(Error::NombreMuyLargo));
    assert_eq!(c.get_contador(), 0);
    assert_eq!(c.get_contador_usuario(u), 0);
    assert_eq!(c.get_ultimo_saludo(u), None);
    assert!(!c.has(&DataKey::UltimoSaludo(u)));
    assert!(!c.has(&DataKey::ContadorPorUsuario(u)));
    assert_eq!(c.saludo_ttl(u), 0);
}

#[test]
fn greetings_are_kept_per_identity() {
    let u = Identity(2);
    let v = Identity(3);
    let mut c = iniciado(Identity(1));
    assert_eq!(c.hello(u, texto("uno")), Ok("Hola"));
    assert_eq!(c.hello(v, texto("dos")), Ok("Hola"));
    assert_eq!(c.hello(u, texto("tres")), Ok("Hola"));
    assert_eq!(c.get_contador(), 3);
    assert_eq!(c.get_contador_usuario(u), 2);
    assert_eq!(c.get_contador_usuario(v), 1);
    assert_eq!(c.get_ultimo_saludo(u), Some(texto("tres")));
    assert_eq!(c.get_ultimo_saludo(v), Some(texto("dos")));
    assert_eq!(c.get_ultimo_saludo(Identity(4)), None);
}

#[test]
fn greeting_works_without_initialization() {
    let u = Identity(2);
    let mut c = HelloContract::new();
    assert_eq!(c.get_contador(), 0);
    assert!(!c.has(&DataKey::ContadorSaludos));
    assert_eq!(c.hello(u, texto("hola")), Ok("Hola"));
    assert_eq!(c.get_contador(), 1);
    assert!(c.has(&DataKey::ContadorSaludos));
    assert!(!c.has(&DataKey::Admin));
}

#[test]
fn privileged_operations_before_initialization() {
    let x = Identity(5);
    let mut c = HelloContract::new();
    assert_eq!(c.set_limite(x, 3), Err(Error::NoInicializado));
    assert_eq!(c.reset_contador(x), Err(Error::NoInicializado));
    assert_eq!(c.transfer_admin(x, x), Err(Error::NoInicializado));
    assert!(!c.has(&DataKey::Admin));
    assert!(!c.has(&DataKey::LimiteCaracteres));
}

#[test]
fn non_admin_is_refused_and_changes_nothing() {
    let a = Identity(1);
    let x = Identity(9);
    let mut c = iniciado(a);
    assert_eq!(c.hello(x, texto("hola")), Ok("Hola"));
    assert_eq!(c.set_limite(x, 1), Err(Error::NoAutorizado));
    assert_eq!(c.reset_contador(x), Err(Error::NoAutorizado));
    assert_eq!(c.transfer_admin(x, x), Err(Error::NoAutorizado));
    assert_eq!(c.get_admin(), a);
    assert_eq!(c.get_contador(), 1);
    assert!(!c.has(&DataKey::LimiteCaracteres));
    assert_eq!(c.hello(x, vec![b'q'; 32]), Ok("Hola"));
}

#[test]
fn second_initialize_keeps_admin() {
    let a = Identity(1);
    let b = Identity(2);
    let mut c = iniciado(a);
    assert_eq!(c.initialize(b), Err(Error::NoInicializado));
    assert_eq!(c.initialize(a), Err(Error::NoInicializado));
    assert_eq!(c.get_admin(), a);
}

#[test]
fn transfer_moves_authority() {
    let a = Identity(1);
    let b = Identity(2);
    let mut c = iniciado(a);
    assert_eq!(c.transfer_admin(a, b), Ok(()));
    assert_eq!(c.set_limite(a, 5), Err(Error::NoAutorizado));
    assert_eq!(c.reset_contador(a), Err(Error::NoAutorizado));
    assert_eq!(c.transfer_admin(a, a), Err(Error::NoAutorizado));
    assert_eq!(c.set_limite(b, 5), Ok(()));
    assert_eq!(c.reset_contador(b), Ok(()));
    assert_eq!(c.transfer_admin(b, a), Ok(()));
    assert_eq!(c.get_admin(), a);
}

#[test]
fn error_codes() {
    assert_eq!(Error::NombreVacio.code(), 1);
    assert_eq!(Error::NombreMuyLargo.code(), 2);
    assert_eq!(Error::NoAutorizado.code(), 3);
    assert_eq!(Error::NoInicializado.code(), 4);
}

#[test]
fn lifetime_windows_are_extended_by_writes() {
    let a = Identity(1);
    let u = Identity(2);
    let mut c = HelloContract::new();
    assert_eq!(c.instance_ttl(), 0);
    assert_eq!(c.transfer_admin(a, u), Err(Error::NoInicializado));
    assert_eq!(c.instance_ttl(), 0);
    assert_eq!(c.initialize(a), Ok(()));
    assert_eq!(c.instance_ttl(), TTL_LEDGERS);
    assert_eq!(TTL_LEDGERS, 17280);
    assert_eq!(c.saludo_ttl(u), 0);
    assert_eq!(c.hello(u, texto("hola")), Ok("Hola"));
    assert_eq!(c.saludo_ttl(u), 17280);
    assert_eq!(c.saludo_ttl(a), 0);
    let _ = c.get_ultimo_saludo(a);
    assert_eq!(c.saludo_ttl(a), 0);
}

#[test]
fn greeting_without_admin_extends_windows() {
    let u = Identity(2);
    let mut c = HelloContract::new();
    assert_eq!(c.hello(u, texto("hola")), Ok("Hola"));
    assert_eq!(c.instance_ttl(), 17280);
    assert_eq!(c.saludo_ttl(u), 17280);
}
