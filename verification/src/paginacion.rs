//! Opciones y resultados de paginación de listados.

use vstd::prelude::*;
use crate::texto::{i64_a_texto, texto, texto_entero, unir};

verus! {

/// Valor absoluto de un entero matemático.
pub open spec fn abs(a: int) -> int {
    if a < 0 {
        -a
    } else {
        a
    }
}

/// Cociente de la división entera con truncamiento hacia cero (la `/` de Rust).
pub open spec fn div_trunc(a: int, b: int) -> int {
    if (a < 0) == (b < 0) {
        abs(a) / abs(b)
    } else {
        -(abs(a) / abs(b))
    }
}

/// División entera de Rust sobre `i64` (truncada hacia cero), calculada sobre
/// valores absolutos en `i128` para cubrir también `i64::MIN`.
fn dividir(a: i64, b: i64) -> (r: i64)
    requires
        b != 0,
        !(a == i64::MIN && b == -1),
    ensures
        r == div_trunc(a as int, b as int),
{
    let aa: i128 = if a < 0 { -(a as i128) } else { a as i128 };
    let ab: i128 = if b < 0 { -(b as i128) } else { b as i128 };
    let q: i128 = aa / ab;
    proof {
        assert(0 <= q <= aa) by (nonlinear_arith)
            requires q == aa / ab, aa >= 0, ab >= 1;
        if ab == 1 {
            assert(q == aa) by (nonlinear_arith)
                requires q == aa / ab, ab == 1;
        } else {
            assert(q <= aa / 2) by (nonlinear_arith)
                requires q == aa / ab, aa >= 0, ab >= 2;
        }
    }
    if (a < 0) == (b < 0) {
        q as i64
    } else {
        (-q) as i64
    }
}

/// Límite de página que se aplica cuando no se indica uno.
pub const LIMITE_POR_DEFECTO: i64 = 50;

/// Opciones de paginación de un listado: cuántos elementos y desde dónde.
#[derive(Debug, Clone, Default)]
pub struct PaginationOptions {
    pub limit: Option<i64>,
    pub offset: Option<i64>,
}

impl PaginationOptions {
    pub fn new(limit: Option<i64>, offset: Option<i64>) -> (r: Self)
        ensures
            r.limit == limit,
            r.offset == offset,
    {
        PaginationOptions { limit, offset }
    }

    /// Opciones con el límite por defecto (50) desde el inicio.
    pub fn with_defaults() -> (r: Self)
        ensures
            r.limit == Some(50i64),
            r.offset == Some(0i64),
    {
        PaginationOptions { limit: Some(LIMITE_POR_DEFECTO), offset: Some(0) }
    }

    /// Límite efectivo: el pedido, o 50 cuando falta.
    pub open spec fn limite_efectivo(&self) -> i64 {
        match self.limit {
            Some(l) => l,
            None => 50i64,
        }
    }

    /// Desplazamiento efectivo: el pedido, o 0 cuando falta.
    pub open spec fn offset_efectivo(&self) -> i64 {
        match self.offset {
            Some(o) => o,
            None => 0i64,
        }
    }

    /// Límite y desplazamiento efectivos: 50 y 0 cuando faltan.
    pub fn resolver(&self) -> (r: (i64, i64))
        ensures
            r.0 == self.limite_efectivo(),
            r.1 == self.offset_efectivo(),
    {
        let limit = match self.limit {
            Some(l) => l,
            None => LIMITE_POR_DEFECTO,
        };
        let offset = match self.offset {
            Some(o) => o,
            None => 0,
        };
        (limit, offset)
    }
}

/// Número de páginas de un listado (1 cuando el límite es cero).
pub open spec fn spec_paginas(total: int, limit: int) -> int {
    if limit == 0 {
        1
    } else {
        div_trunc(total + limit - 1, limit)
    }
}

/// Página actual de un listado, contando desde 1 (1 cuando el límite es cero).
pub open spec fn spec_pagina_actual(offset: int, limit: int) -> int {
    if limit == 0 {
        1
    } else {
        div_trunc(offset, limit) + 1
    }
}

/// Una página de resultados junto con el total y la ventana pedida.
#[derive(Debug, Clone)]
pub struct PaginatedResult<T> {
    pub data: Vec<T>,
    pub total: i64,
    pub limit: i64,
    pub offset: i64,
}

impl<T> PaginatedResult<T> {
    pub fn new(data: Vec<T>, total: i64, limit: i64, offset: i64) -> (r: Self)
        ensures
            r.data == data,
            r.total == total,
            r.limit == limit,
            r.offset == offset,
    {
        PaginatedResult { data, total, limit, offset }
    }

    /// Resultado de un listado paginado con las opciones pedidas: límite 50 y
    /// desplazamiento 0 por defecto.
    pub fn from_options(data: Vec<T>, total: i64, pagination: &PaginationOptions) -> (r: Self)
        ensures
            r.data == data,
            r.total == total,
            r.limit == pagination.limite_efectivo(),
            r.offset == pagination.offset_efectivo(),
    {
        let (limit, offset) = pagination.resolver();
        PaginatedResult::new(data, total, limit, offset)
    }

    /// Número de páginas: techo de `total / limit` (1 si `limit` es cero).
    pub fn pages(&self) -> (r: i64)
        requires
            self.limit != 0 ==> i64::MIN <= self.total + self.limit <= i64::MAX,
            self.limit != 0 ==> i64::MIN <= self.total + self.limit - 1,
            self.limit != 0 ==> !(self.total + self.limit - 1 == i64::MIN && self.limit == -1),
        ensures
            r == spec_paginas(self.total as int, self.limit as int),
    {
        if self.limit == 0 {
            return 1;
        }
        dividir(self.total + self.limit - 1, self.limit)
    }

    /// Página actual (desde 1): `offset / limit + 1` (1 si `limit` es cero).
    pub fn current_page(&self) -> (r: i64)
        requires
            self.limit != 0 ==> !(self.offset == i64::MIN && self.limit == -1),
            self.limit != 0 ==> div_trunc(self.offset as int, self.limit as int) + 1 <= i64::MAX,
        ensures
            r == spec_pagina_actual(self.offset as int, self.limit as int),
    {
        if self.limit == 0 {
            return 1;
        }
        dividir(self.offset, self.limit) + 1
    }
}

/// Con un límite positivo y un total no negativo, el número de páginas es el
/// techo de `total / limit`: las páginas alcanzan para todos los elementos y
/// ninguna página sobra.
pub proof fn ley_paginas_cubren_total(total: i64, limit: i64)
    requires
        limit > 0,
        total >= 0,
    ensures
        spec_paginas(total as int, limit as int) * limit >= total,
        (spec_paginas(total as int, limit as int) - 1) * limit < total,
{
    let x = total + limit - 1;
    let p = spec_paginas(total as int, limit as int);
    assert(p == x / (limit as int));
    assert(p * limit >= total && (p - 1) * limit < total) by (nonlinear_arith)
        requires
            p == x / (limit as int),
            x == total + limit - 1,
            limit > 0,
            total >= 0,
    ;
}

/// Con un límite positivo, un desplazamiento dentro del total cae en una página
/// existente: la página actual está entre 1 y el número de páginas.
pub proof fn ley_pagina_actual_en_rango(total: i64, limit: i64, offset: i64)
    requires
        limit > 0,
        0 <= offset < total,
    ensures
        1 <= spec_pagina_actual(offset as int, limit as int) <= spec_paginas(total as int, limit as int),
{
    let x = total + limit - 1;
    let q = (offset as int) / (limit as int);
    assert(spec_pagina_actual(offset as int, limit as int) == q + 1);
    assert(spec_paginas(total as int, limit as int) == x / (limit as int));
    assert(0 <= q && q + 1 <= x / (limit as int)) by (nonlinear_arith)
        requires
            q == (offset as int) / (limit as int),
            x == total + limit - 1,
            limit > 0,
            0 <= offset < total,
    ;
}

/// Dónde empieza una página de un listado con páginas numeradas desde 1.
pub fn desplazamiento_de_pagina(page: i64, page_size: i64) -> (r: i64)
    requires
        i64::MIN <= (page - 1) * page_size <= i64::MAX,
    ensures
        r == (page - 1) * page_size,
{
    let p: i128 = page as i128 - 1;
    assert(i64::MIN - 1 <= p <= i64::MAX);
    assert(-0x8000_0000_0000_0001i128 * 0x8000_0000_0000_0000i128 <= p * (page_size as i128)
        <= 0x8000_0000_0000_0001i128 * 0x8000_0000_0000_0000i128) by (nonlinear_arith)
        requires
            -0x8000_0000_0000_0001i128 <= p <= 0x7fff_ffff_ffff_ffffi128,
            -0x8000_0000_0000_0000i128 <= page_size <= 0x7fff_ffff_ffff_ffffi128;
    (p * (page_size as i128)) as i64
}

/// La clave con que se guarda en caché una página de un listado.
pub fn clave_de_listado(page: i64, page_size: i64) -> (r: String)
    ensures
        r@ == "list:"@ + texto_entero(page as int) + ":"@ + texto_entero(page_size as int),
{
    proof {
        reveal_strlit("list:");
        reveal_strlit(":");
    }
    let a = i64_a_texto(page);
    let b = i64_a_texto(page_size);
    unir(unir(unir(texto("list:"), a.as_str()), ":"), b.as_str())
}

} // verus!
