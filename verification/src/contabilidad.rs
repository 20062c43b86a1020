//! Decisiones de contabilidad sobre los registros de pago de un file:
//! verificación de pagos, recálculo de totales, ajuste por exceso de pago,
//! pendientes de los listados y pagos a proveedores.

use vstd::prelude::*;
use crate::pagos::{
    RegistroPago, RegistroVista, Filtro, Campo, suma, sumar, registros_acotados, MONTO_MAXIMO,
    TOLERANCIA, es_deuda_o_pago, es_vigente, registro_vigente,
};
use crate::texto::{mismo_texto, texto};

verus! {

/// Cota de las sumas sobre los registros de un file.
pub open spec fn cota_sumas(n: int) -> int {
    n * MONTO_MAXIMO
}

/// Las sumas sobre a lo sumo `usize::MAX` registros acotados caben holgadas en `i128`.
pub proof fn lema_cota_sumas(n: int)
    requires
        0 <= n <= 18446744073709551615,
    ensures
        cota_sumas(n) <= 18446744073709551615 * MONTO_MAXIMO,
        18446744073709551615 * MONTO_MAXIMO < 1329227995784915872903807060280344576,
{
    assert(n * MONTO_MAXIMO <= 18446744073709551615 * MONTO_MAXIMO) by (nonlinear_arith)
        requires n <= 18446744073709551615;
}

// ===================== Verificación de un pago =====================

/// Estado de un pago tras la verificación del administrador.
#[derive(Debug, Clone, Copy, PartialEq, Eq, Structural)]
pub enum EstadoVerificado {
    Pagado,
    Parcial,
    Rechazado,
}

/// El estado de un pago verificado: si se aprueba, "pagado" cuando lo pendiente
/// no pasa de la tolerancia y "parcial" si no; si no se aprueba, "rechazado".
pub open spec fn spec_estado_verificado(aprobado: bool, monto_total: int, monto_pagado: int) -> EstadoVerificado {
    if aprobado {
        if monto_total - monto_pagado <= TOLERANCIA {
            EstadoVerificado::Pagado
        } else {
            EstadoVerificado::Parcial
        }
    } else {
        EstadoVerificado::Rechazado
    }
}

/// Estado que toma un pago al verificarlo.
pub fn estado_verificado(aprobado: bool, monto_total: i64, monto_pagado: i64) -> (r: EstadoVerificado)
    ensures
        r == spec_estado_verificado(aprobado, monto_total as int, monto_pagado as int),
{
    if aprobado {
        if monto_total as i128 - monto_pagado as i128 <= TOLERANCIA as i128 {
            EstadoVerificado::Pagado
        } else {
            EstadoVerificado::Parcial
        }
    } else {
        EstadoVerificado::Rechazado
    }
}

impl EstadoVerificado {
    /// El estado como se guarda: "pagado", "parcial" o "rechazado".
    pub fn como_texto(&self) -> (r: String)
        ensures
            *self == EstadoVerificado::Pagado ==> r@ == "pagado"@,
            *self == EstadoVerificado::Parcial ==> r@ == "parcial"@,
            *self == EstadoVerificado::Rechazado ==> r@ == "rechazado"@,
    {
        match self {
            EstadoVerificado::Pagado => texto("pagado"),
            EstadoVerificado::Parcial => texto("parcial"),
            EstadoVerificado::Rechazado => texto("rechazado"),
        }
    }
}

/// Qué escribir al verificar un pago.
#[derive(Debug, Clone)]
pub struct PlanVerificacion {
    pub estado: EstadoVerificado,
    /// Nuevo monto pagado del file (solo si se aprueba): el anterior más lo
    /// pagado en la cuota verificada.
    pub nuevo_monto_pagado_file: Option<i128>,
    /// Si se rechaza, se duplica el registro como pendiente para volver a
    /// pagarlo; el duplicado es el que da `duplicado_pendiente`.
    pub duplicar_como_pendiente: bool,
}

/// Decide la verificación de un pago con `monto_total` y `monto_pagado` y
/// cuota `cuota`, sobre un file con monto pagado `pagado_file` y registros
/// `registros`.
pub fn planificar_verificacion(
    aprobado: bool,
    monto_total: i64,
    monto_pagado: i64,
    cuota: Option<i16>,
    pagado_file: i64,
    registros: &Vec<RegistroPago>,
) -> (r: PlanVerificacion)
    requires
        registros_acotados(registros.deep_view()),
    ensures
        r.estado == spec_estado_verificado(aprobado, monto_total as int, monto_pagado as int),
        aprobado ==> r.nuevo_monto_pagado_file == Some(
            (pagado_file + suma(registros.deep_view(), Filtro::Cuota(cuota), Campo::Pagado)) as i128,
        ),
        !aprobado ==> r.nuevo_monto_pagado_file is None,
        r.duplicar_como_pendiente == !aprobado,
{
    let estado = estado_verificado(aprobado, monto_total, monto_pagado);
    if aprobado {
        let monto_cuota = sumar(registros, &Filtro::Cuota(cuota), Campo::Pagado);
        proof {
            lema_cota_sumas(registros.len() as int);
        }
        PlanVerificacion {
            estado,
            nuevo_monto_pagado_file: Some(pagado_file as i128 + monto_cuota),
            duplicar_como_pendiente: false,
        }
    } else {
        PlanVerificacion { estado, nuevo_monto_pagado_file: None, duplicar_como_pendiente: true }
    }
}

/// El registro que se crea al rechazar un pago, para volver a pagarlo: copia
/// del rechazado el file, el tour, el tipo de registro, el monto total, las
/// entradas y su precio, con lo pagado en cero, estado "pendiente", cuota 0 y
/// sin saldo a favor. Aún no tiene id (0). La entidad y la fecha de
/// vencimiento, que este tipo no lleva, se copian también del rechazado.
pub fn duplicado_pendiente(rechazado: &RegistroPago) -> (r: RegistroPago)
    ensures
        r.id == 0,
        r.id_file == rechazado.id_file,
        r.id_file_tour == rechazado.id_file_tour,
        r.tipo_registro@ == rechazado.tipo_registro@,
        r.estado@ == "pendiente"@,
        r.monto_total == rechazado.monto_total,
        r.monto_pagado == 0,
        r.monto_saldo_favor is None,
        !r.saldo_autorizado,
        r.entradas == rechazado.entradas,
        r.entrada_precio == rechazado.entrada_precio,
        r.cuota == Some(0i16),
{
    RegistroPago {
        id: 0,
        id_file: rechazado.id_file,
        id_file_tour: rechazado.id_file_tour,
        tipo_registro: texto(rechazado.tipo_registro.as_str()),
        estado: texto("pendiente"),
        monto_total: rechazado.monto_total,
        monto_pagado: 0,
        monto_saldo_favor: None,
        saldo_autorizado: false,
        entradas: rechazado.entradas,
        entrada_precio: rechazado.entrada_precio,
        cuota: Some(0),
    }
}

// ===================== Totales de un file =====================

/// Recalcula los totales de un file desde sus registros: el total son las
/// deudas no canceladas; lo pagado, de los registros no cancelados, el saldo a
/// favor cuando lo tienen y si no el monto pagado.
pub fn recalcular_totales(registros: &Vec<RegistroPago>) -> (r: (i128, i128))
    requires
        registros_acotados(registros.deep_view()),
    ensures
        r.0 == suma(registros.deep_view(), Filtro::DeudasNoCanceladas, Campo::Total),
        r.1 == suma(registros.deep_view(), Filtro::NoCancelados, Campo::SaldoOPagado),
{
    (
        sumar(registros, &Filtro::DeudasNoCanceladas, Campo::Total),
        sumar(registros, &Filtro::NoCancelados, Campo::SaldoOPagado),
    )
}

/// Recalcula solo el monto total de un file: la suma de sus deudas no canceladas.
pub fn recalcular_monto_total(registros: &Vec<RegistroPago>) -> (r: i128)
    requires
        registros_acotados(registros.deep_view()),
    ensures
        r == suma(registros.deep_view(), Filtro::DeudasNoCanceladas, Campo::Total),
{
    sumar(registros, &Filtro::DeudasNoCanceladas, Campo::Total)
}

// ===================== Exceso de pago al bajar el precio de un tour =====================

/// Ajuste del saldo a favor cuando lo pagado de un tour supera su nuevo total.
#[derive(Debug, Clone)]
pub struct AjusteExceso {
    /// El exceso: lo pagado menos el nuevo total.
    pub exceso: i128,
    /// La deuda del tour que recibe el exceso como saldo a favor, y su nuevo saldo.
    pub deuda: Option<(i32, i128)>,
}

/// El primer índice de un registro de deuda entre los del tour, si lo hay.
pub open spec fn primera_deuda_del_tour(rs: Seq<RegistroVista>, tour: i32) -> Option<int>
    decreases rs.len(),
{
    if rs.len() == 0 {
        None
    } else {
        match primera_deuda_del_tour(rs.drop_last(), tour) {
            Some(i) => Some(i),
            None => if rs.last().id_file_tour == Some(tour) && rs.last().tipo == "deuda"@ {
                Some(rs.len() - 1)
            } else {
                None
            },
        }
    }
}

/// El exceso de lo pagado de un tour sobre su nuevo total, si pasa de la
/// tolerancia: lo pagado suma deudas, pagos y pagos finales del tour. El
/// exceso va como saldo a favor (autorizado) a la primera deuda del tour.
pub open spec fn spec_ajuste_exceso(rs: Seq<RegistroVista>, tour: i32, nuevo_total: int) -> Option<AjusteExceso> {
    let pagado = suma(rs, Filtro::DeudasYPagosDelTour(Some(tour)), Campo::Pagado);
    let exceso = if pagado - nuevo_total > 0 { pagado - nuevo_total } else { 0 };
    if exceso <= TOLERANCIA {
        None
    } else {
        Some(AjusteExceso {
            exceso: exceso as i128,
            deuda: match primera_deuda_del_tour(rs, tour) {
                Some(i) => Some((
                    rs[i].id,
                    (match rs[i].monto_saldo_favor {
                        Some(s) => s as int,
                        None => 0,
                    } + exceso) as i128,
                )),
                None => None,
            },
        })
    }
}

/// La primera deuda del tour entre los registros, si la hay.
pub fn buscar_primera_deuda(registros: &Vec<RegistroPago>, tour: i32) -> (r: Option<usize>)
    ensures
        match r {
            Some(k) => primera_deuda_del_tour(registros.deep_view(), tour) == Some(k as int)
                && k < registros@.len(),
            None => primera_deuda_del_tour(registros.deep_view(), tour) is None,
        },
{
    let ghost rs = registros.deep_view();
    let mut i: usize = 0;
    let mut encontrada: Option<usize> = None;
    while i < registros.len()
        invariant
            i <= registros.len(),
            rs == registros.deep_view(),
            rs.len() == registros.len(),
            encontrada matches Some(k) ==> k < registros.len(),
            primera_deuda_del_tour(rs.take(i as int), tour) == match encontrada {
                Some(k) => Some(k as int),
                None => None::<int>,
            },
        decreases registros.len() - i,
    {
        assert(rs.take(i as int + 1).drop_last() == rs.take(i as int));
        assert(rs[i as int] == registros@[i as int].deep_view());
        if encontrada.is_none() && registros[i].id_file_tour == Some(tour) && mismo_texto(
            registros[i].tipo_registro.as_str(),
            "deuda",
        ) {
            encontrada = Some(i);
        }
        i = i + 1;
    }
    assert(rs.take(registros.len() as int) == rs);
    encontrada
}

/// Decide si un tour cuyo precio bajó a `nuevo_total` tiene un exceso pagado
/// que pasa a saldo a favor, y a qué deuda va.
pub fn calcular_exceso_de_pago(registros: &Vec<RegistroPago>, tour: i32, nuevo_total: i128) -> (r: Option<AjusteExceso>)
    requires
        registros_acotados(registros.deep_view()),
        -1329227995784915872903807060280344576 <= nuevo_total <= 1329227995784915872903807060280344576,
    ensures
        r == spec_ajuste_exceso(registros.deep_view(), tour, nuevo_total as int),
{
    let ghost rs = registros.deep_view();
    let pagado = sumar(registros, &Filtro::DeudasYPagosDelTour(Some(tour)), Campo::Pagado);
    proof {
        lema_cota_sumas(registros.len() as int);
    }
    let diferencia = pagado - nuevo_total;
    let exceso: i128 = if diferencia > 0 { diferencia } else { 0 };
    if exceso <= TOLERANCIA as i128 {
        return None;
    }
    let deuda = match buscar_primera_deuda(registros, tour) {
        Some(k) => {
            assert(rs[k as int] == registros@[k as int].deep_view());
            let saldo: i128 = match registros[k].monto_saldo_favor {
                Some(s) => s as i128,
                None => 0,
            };
            Some((registros[k].id, saldo + exceso))
        },
        None => None,
    };
    Some(AjusteExceso { exceso, deuda })
}

// ===================== Tablero contable de una entidad =====================

/// Estado global del pago de un file en el tablero.
#[derive(Debug, Clone, Copy, PartialEq, Eq, Structural)]
pub enum EstadoGlobal {
    Verificado,
    PendienteVerificacion,
    Pagado,
    Parcial,
    Pendiente,
}

/// Los files con registros vigentes, en el orden de su primer registro vigente.
pub open spec fn ids_files(rs: Seq<RegistroVista>) -> Seq<i32>
    decreases rs.len(),
{
    if rs.len() == 0 {
        Seq::empty()
    } else {
        let resto = ids_files(rs.drop_last());
        if es_vigente(rs.last()) && !resto.contains(rs.last().id_file) {
            resto.push(rs.last().id_file)
        } else {
            resto
        }
    }
}

/// ¿Están verificados todos los registros vigentes del file?
pub open spec fn todos_verificados(rs: Seq<RegistroVista>, f: i32) -> bool {
    forall|i: int| 0 <= i < rs.len() && es_vigente(rs[i]) && rs[i].id_file == f
        ==> #[trigger] rs[i].estado == "verificado"@
}

/// ¿Hay un registro vigente del file pendiente de verificación?
pub open spec fn alguno_por_verificar(rs: Seq<RegistroVista>, f: i32) -> bool {
    exists|i: int| 0 <= i < rs.len() && es_vigente(rs[i]) && rs[i].id_file == f
        && #[trigger] rs[i].estado == "pendiente_verificacion"@
}

/// El estado global de un file: verificado si está pagado (salvo la
/// tolerancia) y todo verificado; si no, pendiente de verificación si algo lo
/// está; si no, pagado, parcial (algo pagado) o pendiente.
pub open spec fn spec_estado_global(total: int, pagado: int, verificados: bool, por_verificar: bool) -> EstadoGlobal {
    let pagado_completo = total - pagado <= TOLERANCIA;
    if pagado_completo && verificados {
        EstadoGlobal::Verificado
    } else if por_verificar {
        EstadoGlobal::PendienteVerificacion
    } else if pagado_completo {
        EstadoGlobal::Pagado
    } else if pagado > 0 {
        EstadoGlobal::Parcial
    } else {
        EstadoGlobal::Pendiente
    }
}

/// El primer registro de `rs` (índice) vigente del file `f`, y que sea deuda
/// si `solo_deudas`.
pub open spec fn primer_vigente(rs: Seq<RegistroVista>, f: i32, solo_deudas: bool) -> Option<int>
    decreases rs.len(),
{
    if rs.len() == 0 {
        None
    } else {
        match primer_vigente(rs.drop_last(), f, solo_deudas) {
            Some(i) => Some(i),
            None => if es_vigente(rs.last()) && rs.last().id_file == f && (!solo_deudas || rs.last().tipo
                == "deuda"@) {
                Some(rs.len() - 1)
            } else {
                None
            },
        }
    }
}

/// El primer registro vigente del file que sea deuda; si no hay, el primero vigente.
pub open spec fn base_de(rs: Seq<RegistroVista>, f: i32) -> int {
    match primer_vigente(rs, f, true) {
        Some(i) => i,
        None => match primer_vigente(rs, f, false) {
            Some(i) => i,
            None => 0,
        },
    }
}

/// Resumen del pago de un file en el tablero.
#[derive(Debug, Clone)]
pub struct ResumenFile {
    pub id_file: i32,
    /// Índice del registro que sirve de base a la respuesta.
    pub base: usize,
    pub monto_total: i128,
    pub monto_pagado: i128,
    pub monto_pendiente: i128,
    pub estado: EstadoGlobal,
}

/// ¿Es el resumen el del file `f` en los registros `rs`? Total: sus deudas
/// vigentes; pagado: sus deudas y pagos vigentes.
pub open spec fn es_resumen_de(r: ResumenFile, rs: Seq<RegistroVista>, f: i32) -> bool {
    let total = suma(rs, Filtro::DeudasVigentesDelFile(f), Campo::Total);
    let pagado = suma(rs, Filtro::VigentesDelFile(f), Campo::Pagado);
    &&& r.id_file == f
    &&& r.base == base_de(rs, f)
    &&& r.monto_total == total
    &&& r.monto_pagado == pagado
    &&& r.monto_pendiente == total - pagado
    &&& r.estado == spec_estado_global(total, pagado, todos_verificados(rs, f), alguno_por_verificar(rs, f))
}

/// ¿Va el file a la lista de pendientes del tablero?
pub open spec fn va_a_pendientes(e: EstadoGlobal) -> bool {
    e == EstadoGlobal::Pendiente || e == EstadoGlobal::Parcial || e == EstadoGlobal::PendienteVerificacion
}

/// Reparto de los `n` primeros resúmenes entre pendientes y últimos pagos
/// (a lo sumo diez), en orden.
pub open spec fn clasificar(estados: Seq<EstadoGlobal>, n: int) -> (Seq<usize>, Seq<usize>)
    decreases n,
{
    if n <= 0 {
        (Seq::empty(), Seq::empty())
    } else {
        let (p, u) = clasificar(estados, n - 1);
        if va_a_pendientes(estados[n - 1]) {
            (p.push((n - 1) as usize), u)
        } else if u.len() < 10 {
            (p, u.push((n - 1) as usize))
        } else {
            (p, u)
        }
    }
}

/// Los índices de los registros rechazados (deudas o pagos, no cancelados ni en no-show).
pub open spec fn rechazados(rs: Seq<RegistroVista>, n: int) -> Seq<usize>
    decreases n,
{
    if n <= 0 {
        Seq::empty()
    } else {
        let r = rechazados(rs, n - 1);
        let x = rs[n - 1];
        if es_deuda_o_pago(x.tipo) && x.estado == "rechazado"@ {
            r.push((n - 1) as usize)
        } else {
            r
        }
    }
}

/// Tablero contable de una entidad.
#[derive(Debug, Clone)]
pub struct Tablero {
    /// Un resumen por file, en el orden del primer registro vigente de cada uno.
    pub resumenes: Vec<ResumenFile>,
    /// Índices de los resúmenes con pago pendiente, parcial o por verificar.
    pub pendientes: Vec<usize>,
    /// Índices de hasta diez de los demás resúmenes.
    pub ultimos: Vec<usize>,
    /// Índices de los registros rechazados.
    pub rechazados: Vec<usize>,
    pub monto_total: i128,
    pub monto_pagado: i128,
    pub monto_pendiente: i128,
}

/// ¿Está verificado todo registro vigente del file, y hay alguno por verificar?
fn estados_del_file(registros: &Vec<RegistroPago>, f: i32) -> (r: (bool, bool))
    ensures
        r.0 == todos_verificados(registros.deep_view(), f),
        r.1 == alguno_por_verificar(registros.deep_view(), f),
{
    let ghost rs = registros.deep_view();
    let mut todos = true;
    let mut alguno = false;
    let mut i: usize = 0;
    while i < registros.len()
        invariant
            i <= registros.len(),
            rs == registros.deep_view(),
            rs.len() == registros.len(),
            todos == forall|k: int| 0 <= k < i && es_vigente(rs[k]) && rs[k].id_file == f
                ==> #[trigger] rs[k].estado == "verificado"@,
            alguno == exists|k: int| 0 <= k < i && es_vigente(rs[k]) && rs[k].id_file == f
                && #[trigger] rs[k].estado == "pendiente_verificacion"@,
        decreases registros.len() - i,
    {
        assert(rs[i as int] == registros@[i as int].deep_view());
        let r = &registros[i];
        if registro_vigente(r) && r.id_file == f {
            if !mismo_texto(r.estado.as_str(), "verificado") {
                todos = false;
            }
            if mismo_texto(r.estado.as_str(), "pendiente_verificacion") {
                alguno = true;
            }
        }
        i = i + 1;
    }
    (todos, alguno)
}

/// El primer registro vigente del file `f` (deuda, si `solo_deudas`).
fn buscar_primer_vigente(registros: &Vec<RegistroPago>, f: i32, solo_deudas: bool) -> (r: Option<usize>)
    ensures
        match r {
            Some(k) => primer_vigente(registros.deep_view(), f, solo_deudas) == Some(k as int)
                && k < registros@.len(),
            None => primer_vigente(registros.deep_view(), f, solo_deudas) is None,
        },
{
    let ghost rs = registros.deep_view();
    let mut encontrado: Option<usize> = None;
    let mut i: usize = 0;
    while i < registros.len()
        invariant
            i <= registros.len(),
            rs == registros.deep_view(),
            rs.len() == registros.len(),
            encontrado matches Some(k) ==> k < i,
            primer_vigente(rs.take(i as int), f, solo_deudas) == match encontrado {
                Some(k) => Some(k as int),
                None => None::<int>,
            },
        decreases registros.len() - i,
    {
        assert(rs.take(i as int + 1).drop_last() == rs.take(i as int));
        assert(rs[i as int] == registros@[i as int].deep_view());
        let r = &registros[i];
        if encontrado.is_none() && registro_vigente(r) && r.id_file == f && (!solo_deudas || mismo_texto(
            r.tipo_registro.as_str(),
            "deuda",
        )) {
            encontrado = Some(i);
        }
        i = i + 1;
    }
    assert(rs.take(registros.len() as int) == rs);
    encontrado
}

/// El registro base del file: su primera deuda vigente o, si no hay, su primer
/// registro vigente.
fn buscar_base(registros: &Vec<RegistroPago>, f: i32) -> (r: usize)
    ensures
        r == base_de(registros.deep_view(), f),
{
    match buscar_primer_vigente(registros, f, true) {
        Some(k) => k,
        None => match buscar_primer_vigente(registros, f, false) {
            Some(k) => k,
            None => 0,
        },
    }
}

/// ¿Está `x` en `v`?
pub fn contiene_id(v: &Vec<i32>, x: i32) -> (r: bool)
    ensures
        r == v@.contains(x),
{
    let mut i: usize = 0;
    while i < v.len()
        invariant
            i <= v.len(),
            forall|k: int| 0 <= k < i ==> v@[k] != x,
        decreases v.len() - i,
    {
        if v[i] == x {
            assert(v@[i as int] == x);
            return true;
        }
        i = i + 1;
    }
    false
}

/// Los files con registros vigentes, en el orden de su primer registro vigente.
fn ids_de_files(registros: &Vec<RegistroPago>) -> (r: Vec<i32>)
    ensures
        r@ == ids_files(registros.deep_view()),
{
    let ghost rs = registros.deep_view();
    let mut r: Vec<i32> = Vec::new();
    let mut i: usize = 0;
    while i < registros.len()
        invariant
            i <= registros.len(),
            rs == registros.deep_view(),
            rs.len() == registros.len(),
            r@ == ids_files(rs.take(i as int)),
        decreases registros.len() - i,
    {
        assert(rs.take(i as int + 1).drop_last() == rs.take(i as int));
        assert(rs[i as int] == registros@[i as int].deep_view());
        if registro_vigente(&registros[i]) && !contiene_id(&r, registros[i].id_file) {
            r.push(registros[i].id_file);
        }
        i = i + 1;
    }
    assert(rs.take(registros.len() as int) == rs);
    r
}

/// Estado global del pago de un file.
pub fn estado_global(total: i128, pagado: i128, verificados: bool, por_verificar: bool) -> (r: EstadoGlobal)
    requires
        -1329227995784915872903807060280344576 <= total <= 1329227995784915872903807060280344576,
        -1329227995784915872903807060280344576 <= pagado <= 1329227995784915872903807060280344576,
    ensures
        r == spec_estado_global(total as int, pagado as int, verificados, por_verificar),
{
    let pagado_completo = total - pagado <= TOLERANCIA as i128;
    if pagado_completo && verificados {
        EstadoGlobal::Verificado
    } else if por_verificar {
        EstadoGlobal::PendienteVerificacion
    } else if pagado_completo {
        EstadoGlobal::Pagado
    } else if pagado > 0 {
        EstadoGlobal::Parcial
    } else {
        EstadoGlobal::Pendiente
    }
}

/// Arma el tablero contable de una entidad desde sus registros de pago: un
/// resumen por file con registros vigentes, la lista de pendientes, hasta diez
/// últimos pagos, los rechazados y los totales globales.
pub fn armar_tablero(registros: &Vec<RegistroPago>) -> (r: Tablero)
    requires
        registros_acotados(registros.deep_view()),
    ensures
        ({
            let rs = registros.deep_view();
            let ids = ids_files(rs);
            &&& r.resumenes@.len() == ids.len()
            &&& forall|k: int| 0 <= k < ids.len() ==> es_resumen_de(#[trigger] r.resumenes@[k], rs, ids[k])
            &&& (r.pendientes@, r.ultimos@) == clasificar(
                r.resumenes@.map_values(|x: ResumenFile| x.estado),
                r.resumenes@.len() as int,
            )
            &&& r.rechazados@ == rechazados(rs, rs.len() as int)
            &&& r.monto_total == suma(rs, Filtro::DeudasVigentes, Campo::Total)
            &&& r.monto_pagado == suma(rs, Filtro::Vigentes, Campo::Pagado)
            &&& r.monto_pendiente == r.monto_total - r.monto_pagado
        }),
{
    let ghost rs = registros.deep_view();
    proof {
        lema_cota_sumas(registros.len() as int);
    }
    let ids = ids_de_files(registros);
    let mut resumenes: Vec<ResumenFile> = Vec::new();
    let mut k: usize = 0;
    while k < ids.len()
        invariant
            k <= ids.len(),
            rs == registros.deep_view(),
            registros_acotados(rs),
            ids@ == ids_files(rs),
            cota_sumas(registros.len() as int) < 1329227995784915872903807060280344576,
            resumenes@.len() == k,
            forall|q: int| 0 <= q < k ==> es_resumen_de(#[trigger] resumenes@[q], rs, ids@[q]),
        decreases ids.len() - k,
    {
        let f = ids[k];
        let total = sumar(registros, &Filtro::DeudasVigentesDelFile(f), Campo::Total);
        let pagado = sumar(registros, &Filtro::VigentesDelFile(f), Campo::Pagado);
        let (verificados, por_verificar) = estados_del_file(registros, f);
        let estado = estado_global(total, pagado, verificados, por_verificar);
        let base = buscar_base(registros, f);
        resumenes.push(ResumenFile {
            id_file: f,
            base,
            monto_total: total,
            monto_pagado: pagado,
            monto_pendiente: total - pagado,
            estado,
        });
        k = k + 1;
    }
    let ghost estados = resumenes@.map_values(|x: ResumenFile| x.estado);
    let mut pendientes: Vec<usize> = Vec::new();
    let mut ultimos: Vec<usize> = Vec::new();
    let mut q: usize = 0;
    while q < resumenes.len()
        invariant
            q <= resumenes.len(),
            estados == resumenes@.map_values(|x: ResumenFile| x.estado),
            (pendientes@, ultimos@) == clasificar(estados, q as int),
        decreases resumenes.len() - q,
    {
        let e = resumenes[q].estado;
        assert(estados[q as int] == e);
        if e == EstadoGlobal::Pendiente || e == EstadoGlobal::Parcial || e == EstadoGlobal::PendienteVerificacion {
            pendientes.push(q);
        } else if ultimos.len() < 10 {
            ultimos.push(q);
        }
        q = q + 1;
    }
    let mut rech: Vec<usize> = Vec::new();
    let mut i: usize = 0;
    while i < registros.len()
        invariant
            i <= registros.len(),
            rs == registros.deep_view(),
            rs.len() == registros.len(),
            rech@ == rechazados(rs, i as int),
        decreases registros.len() - i,
    {
        assert(rs[i as int] == registros@[i as int].deep_view());
        let t = registros[i].tipo_registro.as_str();
        if (mismo_texto(t, "deuda") || mismo_texto(t, "pago") || mismo_texto(t, "pago_final")) && mismo_texto(
            registros[i].estado.as_str(),
            "rechazado",
        ) {
            rech.push(i);
        }
        i = i + 1;
    }
    let monto_total = sumar(registros, &Filtro::DeudasVigentes, Campo::Total);
    let monto_pagado = sumar(registros, &Filtro::Vigentes, Campo::Pagado);
    Tablero {
        resumenes,
        pendientes,
        ultimos,
        rechazados: rech,
        monto_total,
        monto_pagado,
        monto_pendiente: monto_total - monto_pagado,
    }
}


// ===================== Pendiente de los listados de pagos =====================

/// La última deuda del tour `t` entre los registros, si la hay.
pub open spec fn ultima_deuda(rs: Seq<RegistroVista>, t: Option<i32>) -> Option<int>
    decreases rs.len(),
{
    if rs.len() == 0 {
        None
    } else if rs.last().tipo == "deuda"@ && rs.last().id_file_tour == t {
        Some(rs.len() - 1)
    } else {
        ultima_deuda(rs.drop_last(), t)
    }
}

/// Lo pendiente que se muestra de un registro en el listado de pagos: para
/// una deuda, el monto total de la última deuda de su tour en el file menos lo
/// pagado en esa deuda y en los pagos y pagos finales del tour (o su propio
/// total menos su pagado, si el file no se pudo leer); para lo demás, cero.
pub open spec fn spec_pendiente_listado(p: RegistroVista, del_file: Seq<RegistroVista>) -> int {
    if p.tipo == "deuda"@ {
        match ultima_deuda(del_file, p.id_file_tour) {
            Some(i) => del_file[i].monto_total - (del_file[i].monto_pagado + suma(
                del_file,
                Filtro::PagosDelTour(p.id_file_tour),
                Campo::Pagado,
            )),
            None => p.monto_total - p.monto_pagado,
        }
    } else {
        0
    }
}

/// Calcula lo pendiente de un registro del listado, con los registros de su
/// file (`del_file`, vacío si no se pudieron leer).
pub fn pendiente_listado(p: &RegistroPago, del_file: &Vec<RegistroPago>) -> (r: i128)
    requires
        registros_acotados(del_file.deep_view()),
    ensures
        r == spec_pendiente_listado(p.deep_view(), del_file.deep_view()),
{
    let ghost rs = del_file.deep_view();
    if !mismo_texto(p.tipo_registro.as_str(), "deuda") {
        return 0;
    }
    let mut ultima: Option<usize> = None;
    let mut i: usize = 0;
    while i < del_file.len()
        invariant
            i <= del_file.len(),
            rs == del_file.deep_view(),
            rs.len() == del_file.len(),
            ultima matches Some(k) ==> k < i,
            ultima_deuda(rs.take(i as int), p.id_file_tour) == match ultima {
                Some(k) => Some(k as int),
                None => None::<int>,
            },
        decreases del_file.len() - i,
    {
        assert(rs.take(i as int + 1).drop_last() == rs.take(i as int));
        assert(rs[i as int] == del_file@[i as int].deep_view());
        if mismo_texto(del_file[i].tipo_registro.as_str(), "deuda") && del_file[i].id_file_tour == p.id_file_tour {
            ultima = Some(i);
        }
        i = i + 1;
    }
    assert(rs.take(del_file.len() as int) == rs);
    match ultima {
        Some(k) => {
            assert(rs[k as int] == del_file@[k as int].deep_view());
            assert(crate::pagos::registro_acotado(rs[k as int]));
            proof {
                lema_cota_sumas(del_file.len() as int);
            }
            let pagos = sumar(del_file, &Filtro::PagosDelTour(p.id_file_tour), Campo::Pagado);
            del_file[k].monto_total as i128 - (del_file[k].monto_pagado as i128 + pagos)
        },
        None => p.monto_total as i128 - p.monto_pagado as i128,
    }
}

// ===================== Pagos a proveedores =====================

/// El proveedor de un pago según su tipo: transporte, restaurante, guía o
/// entrada (cero si falta o si el tipo es otro).
pub open spec fn spec_id_de_proveedor(
    tipo: Seq<char>,
    transporte: Option<i32>,
    restaurante: Option<i32>,
    guia: Option<i32>,
    entrada: Option<i32>,
) -> i32 {
    let o = if tipo == "transporte"@ {
        transporte
    } else if tipo == "restaurante"@ {
        restaurante
    } else if tipo == "guia"@ {
        guia
    } else if tipo == "entrada"@ {
        entrada
    } else {
        None
    };
    match o {
        Some(x) => x,
        None => 0,
    }
}

/// El id del proveedor de un pago según su tipo.
pub fn id_de_proveedor(
    tipo: &str,
    transporte: Option<i32>,
    restaurante: Option<i32>,
    guia: Option<i32>,
    entrada: Option<i32>,
) -> (r: i32)
    ensures
        r == spec_id_de_proveedor(tipo@, transporte, restaurante, guia, entrada),
{
    let o = if mismo_texto(tipo, "transporte") {
        transporte
    } else if mismo_texto(tipo, "restaurante") {
        restaurante
    } else if mismo_texto(tipo, "guia") {
        guia
    } else if mismo_texto(tipo, "entrada") {
        entrada
    } else {
        None
    };
    match o {
        Some(x) => x,
        None => 0,
    }
}

/// Un pago a proveedor ya pagado no se marca de nuevo.
#[derive(Debug, Clone, Copy, PartialEq, Eq, Structural)]
pub struct PagoYaPagado;

impl PagoYaPagado {
    /// El mensaje del error.
    pub fn mensaje(&self) -> (r: String)
        ensures
            r@ == "El pago ya fue marcado como pagado"@,
    {
        proof {
            reveal_strlit("El pago ya fue marcado como pagado");
        }
        texto("El pago ya fue marcado como pagado")
    }
}

/// Marca un pago a proveedor como pagado: se rechaza si ya lo estaba; lo
/// pagado es el monto pagado del pedido, o su monto, o el monto total del pago.
pub fn marcar_pago_proveedor(
    estado: &str,
    monto_total: i64,
    monto_pedido: Option<i64>,
    monto_pagado_pedido: Option<i64>,
) -> (r: Result<i64, PagoYaPagado>)
    ensures
        estado@ == "pagado"@ ==> r is Err,
        estado@ != "pagado"@ ==> r == Ok::<i64, PagoYaPagado>(
            match monto_pagado_pedido {
                Some(m) => m,
                None => match monto_pedido {
                    Some(m) => m,
                    None => monto_total,
                },
            },
        ),
{
    if mismo_texto(estado, "pagado") {
        return Err(PagoYaPagado);
    }
    Ok(
        match monto_pagado_pedido {
            Some(m) => m,
            None => match monto_pedido {
                Some(m) => m,
                None => monto_total,
            },
        },
    )
}

/// En el tablero, todo file con pago pendiente, parcial o por verificar está
/// entre los pendientes y no entre los últimos pagos; los pendientes son solo
/// esos, y los últimos pagos (a lo sumo diez) son files pagados o verificados.
pub proof fn ley_pendientes_del_tablero(estados: Seq<EstadoGlobal>, n: int)
    requires
        0 <= n <= estados.len(),
        n <= usize::MAX + 1,
    ensures
        ({
            let (p, u) = clasificar(estados, n);
            &&& forall|k: int| 0 <= k < n && (estados[k] == EstadoGlobal::Pendiente || estados[k] == EstadoGlobal::Parcial
                || estados[k] == EstadoGlobal::PendienteVerificacion) ==> p.contains(k as usize) && !u.contains(
                k as usize,
            )
            &&& forall|x: int| 0 <= x < p.len() ==> (#[trigger] p[x]) < n && (estados[p[x] as int] == EstadoGlobal::Pendiente
                || estados[p[x] as int] == EstadoGlobal::Parcial || estados[p[x] as int]
                == EstadoGlobal::PendienteVerificacion)
            &&& forall|x: int| 0 <= x < u.len() ==> (#[trigger] u[x]) < n && (estados[u[x] as int] == EstadoGlobal::Pagado
                || estados[u[x] as int] == EstadoGlobal::Verificado)
            &&& u.len() <= 10
        }),
    decreases n,
{
    if n > 0 {
        ley_pendientes_del_tablero(estados, n - 1);
        let (p0, u0) = clasificar(estados, n - 1);
        let (p, u) = clasificar(estados, n);
        let m = (n - 1) as usize;
        assert(m as int == n - 1);
        assert forall|k: int| 0 <= k < n && (estados[k] == EstadoGlobal::Pendiente || estados[k] == EstadoGlobal::Parcial
            || estados[k] == EstadoGlobal::PendienteVerificacion) implies p.contains(k as usize) && !u.contains(
            k as usize,
        ) by {
            if k < n - 1 {
                assert(p0.contains(k as usize) && !u0.contains(k as usize));
                let x = choose|x: int| 0 <= x < p0.len() && p0[x] == k as usize;
                if va_a_pendientes(estados[n - 1]) {
                    assert(p[x] == p0[x]);
                } else {
                    assert(p == p0);
                    if u.contains(k as usize) {
                        let y = choose|y: int| 0 <= y < u.len() && u[y] == k as usize;
                        if y < u0.len() {
                            assert(u[y] == u0[y]);
                        } else {
                            assert(u[y] == m);
                        }
                    }
                }
            } else {
                assert(p[p.len() - 1] == m);
                if u.contains(k as usize) {
                    let y = choose|y: int| 0 <= y < u.len() && u[y] == k as usize;
                    assert(u == u0);
                    assert(u0[y] < n - 1);
                }
            }
        }
        assert forall|x: int| 0 <= x < p.len() implies (#[trigger] p[x]) < n && (estados[p[x] as int]
            == EstadoGlobal::Pendiente || estados[p[x] as int] == EstadoGlobal::Parcial || estados[p[x] as int]
            == EstadoGlobal::PendienteVerificacion) by {
            if x < p0.len() {
                assert(p[x] == p0[x]);
            }
        }
        assert forall|x: int| 0 <= x < u.len() implies (#[trigger] u[x]) < n && (estados[u[x] as int]
            == EstadoGlobal::Pagado || estados[u[x] as int] == EstadoGlobal::Verificado) by {
            if x < u0.len() {
                assert(u[x] == u0[x]);
            }
        }
    }
}

} // verus!
