//! Reglas de las cuentas de usuario: quién puede desactivar o activar una
//! cuenta, qué campos cambió una actualización y qué se le avisa al usuario.

use vstd::prelude::*;
use crate::creacion::UserRole;
use crate::texto::{mismo_texto, texto, unir};

verus! {

/// Los datos de una cuenta de usuario.
#[derive(Debug, Clone)]
pub struct DatosUsuario {
    pub id: i32,
    pub username: String,
    pub email: String,
    pub role: UserRole,
    pub is_active: bool,
    pub id_entidad: Option<i32>,
    pub id_persona: Option<i32>,
}

/// El usuario recién creado.
#[derive(Debug, Clone)]
pub struct CreateUserResult {
    pub user: DatosUsuario,
}

/// El usuario tras actualizarlo.
#[derive(Debug, Clone)]
pub struct UpdateUserResult {
    pub user: DatosUsuario,
}

/// Por qué se rechaza una operación sobre una cuenta.
#[derive(Debug, Clone, Copy, PartialEq, Eq, Structural)]
pub enum ErrorUsuario {
    /// Nadie puede desactivar su propia cuenta (operación prohibida).
    PropioUsuario,
    /// La cuenta ya está activa (conflicto).
    YaActivo,
    /// La cuenta ya está desactivada (conflicto).
    YaDesactivado,
}

impl ErrorUsuario {
    /// El mensaje del error.
    pub fn mensaje(&self) -> (r: String)
        ensures
            *self == ErrorUsuario::PropioUsuario ==> r@ == "No puedes desactivar tu propio usuario"@,
            *self == ErrorUsuario::YaActivo ==> r@ == "El usuario ya está activo"@,
            *self == ErrorUsuario::YaDesactivado ==> r@ == "El usuario ya está desactivado"@,
    {
        proof {
            reveal_strlit("No puedes desactivar tu propio usuario");
            reveal_strlit("El usuario ya está activo");
            reveal_strlit("El usuario ya está desactivado");
        }
        match self {
            ErrorUsuario::PropioUsuario => texto("No puedes desactivar tu propio usuario"),
            ErrorUsuario::YaActivo => texto("El usuario ya está activo"),
            ErrorUsuario::YaDesactivado => texto("El usuario ya está desactivado"),
        }
    }
}

/// Eliminar (desactivar) una cuenta: nadie puede hacerlo con la suya.
pub fn validar_eliminacion(id: i32, por: i32) -> (r: Result<(), ErrorUsuario>)
    ensures
        id == por ==> r == Err::<(), ErrorUsuario>(ErrorUsuario::PropioUsuario),
        id != por ==> r is Ok,
{
    if id == por {
        Err(ErrorUsuario::PropioUsuario)
    } else {
        Ok(())
    }
}

/// Activar una cuenta: no debe estar ya activa.
pub fn validar_activacion(activo: bool) -> (r: Result<(), ErrorUsuario>)
    ensures
        activo ==> r == Err::<(), ErrorUsuario>(ErrorUsuario::YaActivo),
        !activo ==> r is Ok,
{
    if activo {
        Err(ErrorUsuario::YaActivo)
    } else {
        Ok(())
    }
}

/// Desactivar una cuenta: no la propia, y no una ya desactivada.
pub fn validar_desactivacion(id: i32, por: i32, activo: bool) -> (r: Result<(), ErrorUsuario>)
    ensures
        id == por ==> r == Err::<(), ErrorUsuario>(ErrorUsuario::PropioUsuario),
        id != por && !activo ==> r == Err::<(), ErrorUsuario>(ErrorUsuario::YaDesactivado),
        id != por && activo ==> r is Ok,
{
    if id == por {
        Err(ErrorUsuario::PropioUsuario)
    } else if !activo {
        Err(ErrorUsuario::YaDesactivado)
    } else {
        Ok(())
    }
}

/// Los campos que cambian entre dos versiones de una cuenta, en este orden:
/// email, role, is_active, id_entidad, id_persona, username.
pub open spec fn spec_campos_cambiados(a: DatosUsuario, b: DatosUsuario) -> Seq<Seq<char>> {
    let s0 = Seq::<Seq<char>>::empty();
    let s1 = if a.email@ != b.email@ { s0.push("email"@) } else { s0 };
    let s2 = if a.role != b.role { s1.push("role"@) } else { s1 };
    let s3 = if a.is_active != b.is_active { s2.push("is_active"@) } else { s2 };
    let s4 = if a.id_entidad != b.id_entidad { s3.push("id_entidad"@) } else { s3 };
    let s5 = if a.id_persona != b.id_persona { s4.push("id_persona"@) } else { s4 };
    if a.username@ != b.username@ { s5.push("username"@) } else { s5 }
}

/// Los campos que cambió una actualización de la cuenta.
pub fn campos_cambiados(a: &DatosUsuario, b: &DatosUsuario) -> (r: Vec<&'static str>)
    ensures
        r@.map_values(|s: &str| s@) == spec_campos_cambiados(*a, *b),
{
    proof {
        reveal_strlit("email");
        reveal_strlit("role");
        reveal_strlit("is_active");
        reveal_strlit("id_entidad");
        reveal_strlit("id_persona");
        reveal_strlit("username");
    }
    let mut r: Vec<&'static str> = Vec::new();
    if !mismo_texto(a.email.as_str(), b.email.as_str()) {
        r.push("email");
    }
    if a.role != b.role {
        r.push("role");
    }
    if a.is_active != b.is_active {
        r.push("is_active");
    }
    if a.id_entidad != b.id_entidad {
        r.push("id_entidad");
    }
    if a.id_persona != b.id_persona {
        r.push("id_persona");
    }
    if !mismo_texto(a.username.as_str(), b.username.as_str()) {
        r.push("username");
    }
    r
}

/// Los textos unidos con ", ".
pub open spec fn unidos(v: Seq<Seq<char>>) -> Seq<char>
    decreases v.len(),
{
    if v.len() == 0 {
        Seq::empty()
    } else if v.len() == 1 {
        v[0]
    } else {
        unidos(v.drop_last()) + ", "@ + v.last()
    }
}

/// El aviso al usuario cuya cuenta se actualizó: qué campos cambiaron, o un
/// aviso general si ninguno.
pub open spec fn spec_aviso_de_actualizacion(campos: Seq<Seq<char>>) -> Seq<char> {
    if campos.len() == 0 {
        "Tu cuenta ha sido actualizada"@
    } else {
        "Se actualizaron los siguientes campos de tu cuenta: "@ + unidos(campos)
    }
}

/// Escribe el aviso de actualización de una cuenta.
pub fn aviso_de_actualizacion(campos: &Vec<&str>) -> (r: String)
    ensures
        r@ == spec_aviso_de_actualizacion(campos@.map_values(|s: &str| s@)),
{
    let ghost v = campos@.map_values(|s: &str| s@);
    proof {
        reveal_strlit("Tu cuenta ha sido actualizada");
        reveal_strlit("Se actualizaron los siguientes campos de tu cuenta: ");
        reveal_strlit(", ");
    }
    if campos.len() == 0 {
        return texto("Tu cuenta ha sido actualizada");
    }
    let mut lista = texto(campos[0]);
    assert(v.take(1).drop_last() == Seq::<Seq<char>>::empty());
    assert(unidos(v.take(1)) == v[0]);
    let mut i: usize = 1;
    while i < campos.len()
        invariant
            1 <= i <= campos.len(),
            v == campos@.map_values(|s: &str| s@),
            lista@ == unidos(v.take(i as int)),
        decreases campos.len() - i,
    {
        assert(v.take(i as int + 1).drop_last() == v.take(i as int));
        assert(v.take(i as int + 1).last() == campos@[i as int]@);
        lista = unir(lista, ", ");
        lista = unir(lista, campos[i]);
        i = i + 1;
    }
    assert(v.take(campos.len() as int) == v);
    unir(texto("Se actualizaron los siguientes campos de tu cuenta: "), lista.as_str())
}

/// El nombre con que se muestra quién creó o actualizó algo: el nombre y los
/// apellidos de su persona, separados por un espacio, si la tiene; si no, su
/// nombre de usuario.
pub fn nombre_para_mostrar(persona: Option<(&str, &str)>, username: &str) -> (r: String)
    ensures
        r@ == match persona {
            Some((n, a)) => n@ + " "@ + a@,
            None => username@,
        },
{
    proof {
        reveal_strlit(" ");
    }
    match persona {
        Some((n, a)) => unir(unir(texto(n), " "), a),
        None => texto(username),
    }
}

/// De dónde sale la persona de una cuenta nueva.
#[derive(Debug, Clone, Copy, PartialEq, Eq, Structural)]
pub enum OrigenPersona {
    /// Una persona que ya existe (se comprueba que exista).
    Existente(i32),
    /// Una persona que se crea con los datos del pedido (se comprueba que su
    /// documento no esté registrado).
    Nueva,
    /// La cuenta no tiene persona.
    Ninguna,
}

/// La persona de una cuenta nueva: la indicada si el pedido trae su id; si
/// no, una nueva si el pedido trae sus datos; si no, ninguna.
pub fn origen_de_persona(id_persona: Option<i32>, trae_persona_nueva: bool) -> (r: OrigenPersona)
    ensures
        r == match id_persona {
            Some(id) => OrigenPersona::Existente(id),
            None => if trae_persona_nueva {
                OrigenPersona::Nueva
            } else {
                OrigenPersona::Ninguna
            },
        },
{
    match id_persona {
        Some(id) => OrigenPersona::Existente(id),
        None => if trae_persona_nueva {
            OrigenPersona::Nueva
        } else {
            OrigenPersona::Ninguna
        },
    }
}

} // verus!
