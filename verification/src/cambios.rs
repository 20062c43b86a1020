//! Detección de los campos que cambia una actualización: un campo cambia
//! cuando el pedido trae un valor y es distinto del actual.

use vstd::prelude::*;
use crate::texto::{mismo_texto, texto, unir};
use crate::usuarios::unidos;

verus! {

/// ¿Cambia el campo? El pedido trae un valor distinto del actual.
pub open spec fn cambia<T>(pedido: Option<T>, actual: T) -> bool {
    match pedido {
        Some(p) => p != actual,
        None => false,
    }
}

/// ¿Cambia un campo de texto? `actual` es nada si el campo está vacío.
pub open spec fn cambia_texto(pedido: Option<Seq<char>>, actual: Option<Seq<char>>) -> bool {
    match pedido {
        Some(p) => actual != Some(p),
        None => false,
    }
}

/// Decide si cambia un campo de texto.
pub fn texto_cambia(pedido: Option<&str>, actual: Option<&str>) -> (r: bool)
    ensures
        r == cambia_texto(
            match pedido {
                Some(p) => Some(p@),
                None => None,
            },
            match actual {
                Some(a) => Some(a@),
                None => None,
            },
        ),
{
    match pedido {
        Some(p) => match actual {
            Some(a) => !mismo_texto(p, a),
            None => true,
        },
        None => false,
    }
}

/// Los nombres de los campos que cambian, en el orden en que se anotan.
#[derive(Debug, Clone)]
pub struct CamposCambiados {
    pub campos: Vec<String>,
}

impl CamposCambiados {
    /// Sin campos anotados.
    pub fn new() -> (r: Self)
        ensures
            r.campos@.len() == 0,
    {
        CamposCambiados { campos: Vec::new() }
    }

    /// Los nombres anotados.
    pub open spec fn nombres(&self) -> Seq<Seq<char>> {
        self.campos@.map_values(|s: String| s@)
    }

    /// Anota el campo si `cambio` es verdadero.
    pub fn anotar_si(&mut self, nombre: &str, cambio: bool)
        ensures
            final(self).nombres() == if cambio {
                old(self).nombres().push(nombre@)
            } else {
                old(self).nombres()
            },
    {
        if cambio {
            self.campos.push(texto(nombre));
            assert(self.nombres() == old(self).nombres().push(nombre@));
        }
    }

    /// Anota un campo de texto si el pedido trae un texto distinto del actual
    /// (un campo vacío es `None`).
    pub fn anotar_texto(&mut self, nombre: &str, pedido: Option<&str>, actual: Option<&str>)
        ensures
            final(self).nombres() == if cambia_texto(
                match pedido {
                    Some(p) => Some(p@),
                    None => None,
                },
                match actual {
                    Some(a) => Some(a@),
                    None => None,
                },
            ) {
                old(self).nombres().push(nombre@)
            } else {
                old(self).nombres()
            },
    {
        let c = texto_cambia(pedido, actual);
        self.anotar_si(nombre, c);
    }

    /// Anota un campo entero si el pedido trae un valor distinto del actual.
    pub fn anotar_entero(&mut self, nombre: &str, pedido: Option<i64>, actual: Option<i64>)
        ensures
            final(self).nombres() == if cambia(
                match pedido {
                    Some(p) => Some(Some(p)),
                    None => None,
                },
                actual,
            ) {
                old(self).nombres().push(nombre@)
            } else {
                old(self).nombres()
            },
    {
        let c = match pedido {
            Some(p) => actual != Some(p),
            None => false,
        };
        self.anotar_si(nombre, c);
    }

    /// Anota un campo lógico si el pedido trae un valor distinto del actual.
    pub fn anotar_logico(&mut self, nombre: &str, pedido: Option<bool>, actual: bool)
        ensures
            final(self).nombres() == if cambia(pedido, actual) {
                old(self).nombres().push(nombre@)
            } else {
                old(self).nombres()
            },
    {
        let c = match pedido {
            Some(p) => p != actual,
            None => false,
        };
        self.anotar_si(nombre, c);
    }

    /// ¿Está anotado el campo?
    pub fn incluye(&self, nombre: &str) -> (r: bool)
        ensures
            r == self.nombres().contains(nombre@),
    {
        let mut i: usize = 0;
        while i < self.campos.len()
            invariant
                i <= self.campos.len(),
                forall|k: int| 0 <= k < i ==> self.nombres()[k] != nombre@,
            decreases self.campos.len() - i,
        {
            if mismo_texto(self.campos[i].as_str(), nombre) {
                assert(self.nombres()[i as int] == nombre@);
                return true;
            }
            i = i + 1;
        }
        false
    }

    /// Los campos anotados, unidos con ", ", o "sin cambios específicos" si
    /// no hay ninguno.
    pub fn como_lista(&self) -> (r: String)
        ensures
            r@ == if self.campos@.len() == 0 {
                "sin cambios específicos"@
            } else {
                unidos(self.nombres())
            },
    {
        let ghost v = self.nombres();
        proof {
            reveal_strlit("sin cambios específicos");
            reveal_strlit(", ");
        }
        if self.campos.len() == 0 {
            return texto("sin cambios específicos");
        }
        let mut lista = texto(self.campos[0].as_str());
        assert(v.take(1).drop_last() == Seq::<Seq<char>>::empty());
        assert(unidos(v.take(1)) == v[0]);
        let mut i: usize = 1;
        while i < self.campos.len()
            invariant
                1 <= i <= self.campos.len(),
                v == self.nombres(),
                lista@ == unidos(v.take(i as int)),
            decreases self.campos.len() - i,
        {
            assert(v.take(i as int + 1).drop_last() == v.take(i as int));
            assert(v.take(i as int + 1).last() == self.campos@[i as int]@);
            lista = unir(lista, ", ");
            lista = unir(lista, self.campos[i].as_str());
            i = i + 1;
        }
        assert(v.take(self.campos.len() as int) == v);
        lista
    }
}

} // verus!
