//! Notas (chat) de los files y de sus tours: cómo se lee una nota escrita,
//! y qué nota se edita o borra y quién puede hacerlo.

use vstd::prelude::*;
use crate::lectura::{recortar, recortado};
use crate::texto::{mismo_texto, texto, unir};

verus! {

/// Lo que `serde_json::from_str::<serde_json::Value>` lee de un texto: nada si
/// no es JSON, verdadero si es un objeto y falso si es otro valor.
pub uninterp spec fn json_leido(s: Seq<char>) -> Option<bool>;

/// `serde_json::from_str::<Value>` y `Value::is_object`: si el texto es JSON,
/// y si es un objeto. Lo que devuelve es función del texto.
#[verifier::external_body]
fn leer_json(s: &str) -> (r: Option<bool>)
    ensures
        r == json_leido(s@),
{
    match serde_json::from_str::<serde_json::Value>(s) {
        Ok(v) => Some(v.is_object()),
        Err(_) => None,
    }
}

/// La forma en que se guarda una nota escrita.
#[derive(Debug, Clone)]
pub enum FormaNota {
    /// Un objeto JSON: se guarda tal cual.
    Objeto(String),
    /// Otro valor JSON: se guarda como el campo "nota" de un objeto.
    Valor(String),
    /// Texto que no es JSON: se guarda como el texto del campo "nota".
    Texto(String),
}

/// La nota escrita, sin los espacios de los extremos: si queda vacía no hay
/// nota; si es un objeto JSON se guarda tal cual; si es otro valor JSON, o
/// texto, se guarda en el campo "nota".
pub open spec fn spec_forma_nota(s: Seq<char>) -> Option<(int, Seq<char>)> {
    let t = recortado(s);
    if t.len() == 0 {
        None
    } else {
        match json_leido(t) {
            Some(true) => Some((0, t)),
            Some(false) => Some((1, t)),
            None => Some((2, t)),
        }
    }
}

/// Lee una nota escrita.
pub fn forma_de_nota(entrada: &str) -> (r: Option<FormaNota>)
    ensures
        match r {
            None => spec_forma_nota(entrada@) is None,
            Some(FormaNota::Objeto(t)) => spec_forma_nota(entrada@) == Some((0int, t@)),
            Some(FormaNota::Valor(t)) => spec_forma_nota(entrada@) == Some((1int, t@)),
            Some(FormaNota::Texto(t)) => spec_forma_nota(entrada@) == Some((2int, t@)),
        },
{
    let t = recortar(entrada);
    if t.is_empty() {
        return None;
    }
    match leer_json(t) {
        Some(true) => Some(FormaNota::Objeto(texto(t))),
        Some(false) => Some(FormaNota::Valor(texto(t))),
        None => Some(FormaNota::Texto(texto(t))),
    }
}

/// Una nota guardada de un tour: su id y el usuario que la escribió, si los tiene.
#[derive(Debug, Clone)]
pub struct NotaGuardada {
    pub note_id: Option<String>,
    pub user_id: Option<i64>,
}

/// Quién edita o borra una nota.
#[derive(Debug, Clone)]
pub struct Autor {
    pub user_id: i32,
    pub username: String,
    pub is_admin: bool,
}

/// Qué se hace con la nota.
#[derive(Debug, Clone, Copy, PartialEq, Eq, Structural)]
pub enum AccionNota {
    Editar,
    Eliminar,
}

/// Por qué no se edita o borra una nota.
#[derive(Debug, Clone)]
pub enum ErrorNota {
    /// Las notas guardadas no son una lista.
    NotasNoEncontradas,
    /// Ninguna nota tiene ese id.
    NotaNoEncontrada(String),
    /// La nota es de otro usuario y quien la toca no es administrador.
    NotaAjena(AccionNota),
}

impl ErrorNota {
    /// El mensaje del error.
    pub fn mensaje(&self) -> (r: String)
        ensures
            match self {
                ErrorNota::NotasNoEncontradas => r@ == "Notas no encontradas"@,
                ErrorNota::NotaNoEncontrada(id) => r@ == "Nota "@ + id@ + " no encontrada"@,
                ErrorNota::NotaAjena(AccionNota::Editar) => r@ == "Solo puedes editar tus propias notas"@,
                ErrorNota::NotaAjena(AccionNota::Eliminar) => r@ == "Solo puedes eliminar tus propias notas"@,
            },
    {
        proof {
            reveal_strlit("Notas no encontradas");
            reveal_strlit("Nota ");
            reveal_strlit(" no encontrada");
            reveal_strlit("Solo puedes editar tus propias notas");
            reveal_strlit("Solo puedes eliminar tus propias notas");
        }
        match self {
            ErrorNota::NotasNoEncontradas => texto("Notas no encontradas"),
            ErrorNota::NotaNoEncontrada(id) => unir(unir(texto("Nota "), id.as_str()), " no encontrada"),
            ErrorNota::NotaAjena(AccionNota::Editar) => texto("Solo puedes editar tus propias notas"),
            ErrorNota::NotaAjena(AccionNota::Eliminar) => texto("Solo puedes eliminar tus propias notas"),
        }
    }
}

/// La primera nota con ese id.
pub open spec fn primera_con_id(ids: Seq<Option<Seq<char>>>, id: Seq<char>) -> Option<int>
    decreases ids.len(),
{
    if ids.len() == 0 {
        None
    } else {
        match primera_con_id(ids.drop_last(), id) {
            Some(i) => Some(i),
            None => if ids.last() == Some(id) {
                Some(ids.len() - 1)
            } else {
                None
            },
        }
    }
}

/// Los ids de las notas.
pub open spec fn ids_de_notas(notas: Seq<NotaGuardada>) -> Seq<Option<Seq<char>>> {
    notas.map_values(|n: NotaGuardada| match n.note_id {
        Some(s) => Some(s@),
        None => None,
    })
}

/// Ubica la nota `note_id` entre las guardadas (`None` si no son una lista) y
/// comprueba que quien la toca sea su autor o un administrador (sin autor
/// conocido no se comprueba).
pub fn ubicar_nota(
    notas: &Option<Vec<NotaGuardada>>,
    note_id: &str,
    autor: &Option<Autor>,
    accion: AccionNota,
) -> (r: Result<usize, ErrorNota>)
    ensures
        match notas {
            None => r matches Err(ErrorNota::NotasNoEncontradas),
            Some(v) => match primera_con_id(ids_de_notas(v@), note_id@) {
                None => r matches Err(ErrorNota::NotaNoEncontrada(id)) && id@ == note_id@,
                Some(i) => {
                    let ajena = match autor {
                        Some(a) => !a.is_admin && v@[i].user_id != Some(a.user_id as i64),
                        None => false,
                    };
                    if ajena {
                        r matches Err(ErrorNota::NotaAjena(x)) && x == accion
                    } else {
                        r == Ok::<usize, ErrorNota>(i as usize)
                    }
                },
            },
        },
{
    let v = match notas {
        Some(v) => v,
        None => return Err(ErrorNota::NotasNoEncontradas),
    };
    let ghost ids = ids_de_notas(v@);
    let mut encontrada: Option<usize> = None;
    let mut i: usize = 0;
    while i < v.len()
        invariant
            i <= v.len(),
            ids == ids_de_notas(v@),
            encontrada matches Some(k) ==> k < i,
            primera_con_id(ids.take(i as int), note_id@) == match encontrada {
                Some(k) => Some(k as int),
                None => None::<int>,
            },
        decreases v.len() - i,
    {
        assert(ids.take(i as int + 1).drop_last() == ids.take(i as int));
        assert(ids.take(i as int + 1).last() == ids[i as int]);
        if encontrada.is_none() {
            match &v[i].note_id {
                Some(s) => if mismo_texto(s.as_str(), note_id) {
                    encontrada = Some(i);
                },
                None => {},
            }
        }
        i = i + 1;
    }
    assert(ids.take(v.len() as int) == ids);
    match encontrada {
        None => Err(ErrorNota::NotaNoEncontrada(texto(note_id))),
        Some(k) => {
            match autor {
                Some(a) => if !a.is_admin && v[k].user_id != Some(a.user_id as i64) {
                    return Err(ErrorNota::NotaAjena(accion));
                },
                None => {},
            }
            Ok(k)
        },
    }
}

} // verus!
