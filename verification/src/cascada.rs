//! Cascadas de estado: cuando un file o un tour cambia a ciertos estados, sus
//! servicios asignados (guías, vehículos, restaurantes, entradas y pagos a
//! proveedores) que no estén en un estado final pasan al mismo estado.
//!
//! Las funciones de este módulo deciden qué registros se actualizan y qué
//! resultado se informa; quien las usa realiza las escrituras.

use vstd::prelude::*;
use crate::estados::{
    es_final, es_final_tour, es_cascada_file, es_cascada_tour, es_estado_final,
    es_estado_final_de_tour, es_estado_de_cascada_de_file, es_estado_de_cascada_de_tour,
};
use crate::texto::{mismo_texto, texto, unir, usize_a_texto, texto_entero};

verus! {

/// Un servicio asignado a un tour, con su estado actual.
#[derive(Debug, Clone)]
pub struct ServicioAsignado {
    pub id: i32,
    pub status: String,
}

impl DeepView for ServicioAsignado {
    type V = (i32, Seq<char>);

    open spec fn deep_view(&self) -> (i32, Seq<char>) {
        (self.id, self.status@)
    }
}

/// Una entrada asignada a un tour. `boleto_turistico` es `None` cuando no se
/// pudo consultar la entrada.
#[derive(Debug, Clone)]
pub struct EntradaAsignada {
    pub id: i32,
    pub status: String,
    pub boleto_turistico: Option<bool>,
}

impl DeepView for EntradaAsignada {
    type V = (i32, Seq<char>, Option<bool>);

    open spec fn deep_view(&self) -> (i32, Seq<char>, Option<bool>) {
        (self.id, self.status@, self.boleto_turistico)
    }
}

/// Los ids de los servicios cuyo estado satisface `p`, en orden.
pub open spec fn ids_filtrados(items: Seq<(i32, Seq<char>)>, p: spec_fn(Seq<char>) -> bool) -> Seq<i32>
    decreases items.len(),
{
    if items.len() == 0 {
        Seq::empty()
    } else {
        let resto = ids_filtrados(items.drop_last(), p);
        if p(items.last().1) {
            resto.push(items.last().0)
        } else {
            resto
        }
    }
}

/// Los servicios que la cascada de un file actualiza: los que no están en un estado final.
pub open spec fn seleccion_file(items: Seq<(i32, Seq<char>)>) -> Seq<i32> {
    ids_filtrados(items, |s: Seq<char>| !es_final(s))
}

/// Los servicios que la cascada de un tour actualiza: los que no están cancelados ni completados.
pub open spec fn seleccion_tour(items: Seq<(i32, Seq<char>)>) -> Seq<i32> {
    ids_filtrados(items, |s: Seq<char>| !es_final_tour(s))
}

/// ¿Se actualiza esta entrada en la cascada hacia `nuevo`? No si está en un
/// estado final, ni si es boleto turístico y la cascada es una cancelación
/// (el boleto se transfiere, no se cancela).
pub open spec fn entrada_se_actualiza(e: (i32, Seq<char>, Option<bool>), nuevo: Seq<char>) -> bool {
    !es_final(e.1) && !(nuevo == "cancelado"@ && e.2 == Some(true))
}

/// Las entradas que la cascada de un file hacia `nuevo` actualiza, en orden.
pub open spec fn seleccion_entradas(items: Seq<(i32, Seq<char>, Option<bool>)>, nuevo: Seq<char>) -> Seq<i32>
    decreases items.len(),
{
    if items.len() == 0 {
        Seq::empty()
    } else {
        let resto = seleccion_entradas(items.drop_last(), nuevo);
        if entrada_se_actualiza(items.last(), nuevo) {
            resto.push(items.last().0)
        } else {
            resto
        }
    }
}

/// Ids de los servicios que no están en un estado final, en el orden dado.
pub fn seleccionar_no_finales(items: &Vec<ServicioAsignado>) -> (r: Vec<i32>)
    ensures
        r@ == seleccion_file(items.deep_view()),
{
    let ghost dv = items.deep_view();
    let mut r: Vec<i32> = Vec::new();
    let mut i: usize = 0;
    while i < items.len()
        invariant
            i <= items.len(),
            dv == items.deep_view(),
            dv.len() == items.len(),
            r@ == seleccion_file(dv.take(i as int)),
        decreases items.len() - i,
    {
        assert(dv.take(i as int + 1).drop_last() == dv.take(i as int));
        assert(dv[i as int] == items@[i as int].deep_view());
        if !es_estado_final(items[i].status.as_str()) {
            r.push(items[i].id);
        }
        i = i + 1;
    }
    assert(dv.take(items.len() as int) == dv);
    r
}

/// Ids de los servicios que no están cancelados ni completados, en el orden dado.
pub fn seleccionar_no_finales_de_tour(items: &Vec<ServicioAsignado>) -> (r: Vec<i32>)
    ensures
        r@ == seleccion_tour(items.deep_view()),
{
    let ghost dv = items.deep_view();
    let mut r: Vec<i32> = Vec::new();
    let mut i: usize = 0;
    while i < items.len()
        invariant
            i <= items.len(),
            dv == items.deep_view(),
            dv.len() == items.len(),
            r@ == seleccion_tour(dv.take(i as int)),
        decreases items.len() - i,
    {
        assert(dv.take(i as int + 1).drop_last() == dv.take(i as int));
        assert(dv[i as int] == items@[i as int].deep_view());
        if !es_estado_final_de_tour(items[i].status.as_str()) {
            r.push(items[i].id);
        }
        i = i + 1;
    }
    assert(dv.take(items.len() as int) == dv);
    r
}

/// Ids de las entradas que la cascada hacia `nuevo` actualiza, en el orden dado.
pub fn seleccionar_entradas(items: &Vec<EntradaAsignada>, nuevo: &str) -> (r: Vec<i32>)
    ensures
        r@ == seleccion_entradas(items.deep_view(), nuevo@),
{
    let ghost dv = items.deep_view();
    let es_cancelacion = mismo_texto(nuevo, "cancelado");
    let mut r: Vec<i32> = Vec::new();
    let mut i: usize = 0;
    while i < items.len()
        invariant
            i <= items.len(),
            dv == items.deep_view(),
            dv.len() == items.len(),
            es_cancelacion == (nuevo@ == "cancelado"@),
            r@ == seleccion_entradas(dv.take(i as int), nuevo@),
        decreases items.len() - i,
    {
        assert(dv.take(i as int + 1).drop_last() == dv.take(i as int));
        assert(dv[i as int] == items@[i as int].deep_view());
        let e = &items[i];
        let es_bt = match e.boleto_turistico {
            Some(b) => b,
            None => false,
        };
        if !es_estado_final(e.status.as_str()) && !(es_cancelacion && es_bt) {
            r.push(e.id);
        }
        i = i + 1;
    }
    assert(dv.take(items.len() as int) == dv);
    r
}

// ===================== Cascada de un tour =====================

/// Resultado de cambiar el estado de un tour, con el número de servicios
/// actualizados por la cascada.
#[derive(Debug, Clone)]
pub struct UpdateFileTourStatusResult {
    pub old_status: String,
    pub new_status: String,
    pub guias_actualizados: usize,
    pub vehiculos_actualizados: usize,
    pub restaurantes_actualizados: usize,
}

/// Mensaje que describe el cambio de estado de un tour.
pub open spec fn mensaje_tour(old: Seq<char>, new: Seq<char>, g: int, v: int, r: int) -> Seq<char> {
    let base = "Status de tour actualizado de '"@ + old + "' a '"@ + new + "'"@;
    if g > 0 || v > 0 || r > 0 {
        base + ". Guias: "@ + texto_entero(g) + ", Vehiculos: "@ + texto_entero(v)
            + ", Restaurantes: "@ + texto_entero(r)
    } else {
        base
    }
}

impl UpdateFileTourStatusResult {
    /// ¿Actualizó la cascada algún servicio?
    pub open spec fn hay_cascada(&self) -> bool {
        self.guias_actualizados > 0 || self.vehiculos_actualizados > 0
            || self.restaurantes_actualizados > 0
    }

    /// Verifica si hubo actualizaciones en entidades relacionadas.
    pub fn has_cascade_updates(&self) -> (r: bool)
        ensures
            r == self.hay_cascada(),
    {
        self.guias_actualizados > 0 || self.vehiculos_actualizados > 0
            || self.restaurantes_actualizados > 0
    }

    /// Mensaje descriptivo del resultado; con cascada incluye los conteos.
    pub fn to_message(&self) -> (r: String)
        ensures
            r@ == mensaje_tour(
                self.old_status@,
                self.new_status@,
                self.guias_actualizados as int,
                self.vehiculos_actualizados as int,
                self.restaurantes_actualizados as int,
            ),
    {
        let m = texto("Status de tour actualizado de '");
        let m = unir(m, self.old_status.as_str());
        let m = unir(m, "' a '");
        let m = unir(m, self.new_status.as_str());
        let m = unir(m, "'");
        if self.has_cascade_updates() {
            let m = unir(m, ". Guias: ");
            let m = unir(m, usize_a_texto(self.guias_actualizados).as_str());
            let m = unir(m, ", Vehiculos: ");
            let m = unir(m, usize_a_texto(self.vehiculos_actualizados).as_str());
            let m = unir(m, ", Restaurantes: ");
            let m = unir(m, usize_a_texto(self.restaurantes_actualizados).as_str());
            m
        } else {
            m
        }
    }
}

/// Qué escribir al cambiar el estado de un tour: el resultado que se informa y
/// los ids de los servicios que pasan al nuevo estado.
#[derive(Debug, Clone)]
pub struct PlanCascadaTour {
    pub resultado: UpdateFileTourStatusResult,
    pub guias: Vec<i32>,
    pub vehiculos: Vec<i32>,
    pub restaurantes: Vec<i32>,
}

/// Decide la cascada del cambio de estado de un tour de `old_status` a
/// `new_status`. Solo la cancelación se propaga, y solo a los servicios que no
/// están cancelados ni completados; los conteos del resultado son los de esos
/// servicios.
pub fn planificar_cascada_de_tour(
    old_status: String,
    new_status: &str,
    guias: &Vec<ServicioAsignado>,
    vehiculos: &Vec<ServicioAsignado>,
    restaurantes: &Vec<ServicioAsignado>,
) -> (r: PlanCascadaTour)
    ensures
        r.resultado.old_status@ == old_status@,
        r.resultado.new_status@ == new_status@,
        es_cascada_tour(new_status@) ==> {
            &&& r.guias@ == seleccion_tour(guias.deep_view())
            &&& r.vehiculos@ == seleccion_tour(vehiculos.deep_view())
            &&& r.restaurantes@ == seleccion_tour(restaurantes.deep_view())
        },
        !es_cascada_tour(new_status@) ==> {
            &&& r.guias@.len() == 0
            &&& r.vehiculos@.len() == 0
            &&& r.restaurantes@.len() == 0
        },
        r.resultado.guias_actualizados == r.guias@.len(),
        r.resultado.vehiculos_actualizados == r.vehiculos@.len(),
        r.resultado.restaurantes_actualizados == r.restaurantes@.len(),
{
    let (g, v, rs) = if es_estado_de_cascada_de_tour(new_status) {
        (
            seleccionar_no_finales_de_tour(guias),
            seleccionar_no_finales_de_tour(vehiculos),
            seleccionar_no_finales_de_tour(restaurantes),
        )
    } else {
        (Vec::new(), Vec::new(), Vec::new())
    };
    let resultado = UpdateFileTourStatusResult {
        old_status,
        new_status: texto(new_status),
        guias_actualizados: g.len(),
        vehiculos_actualizados: v.len(),
        restaurantes_actualizados: rs.len(),
    };
    PlanCascadaTour { resultado, guias: g, vehiculos: v, restaurantes: rs }
}

// ===================== Cascada de un file =====================

/// Resultado de cambiar el estado de un file (o de uno de sus tours) con el
/// número de registros relacionados actualizados por la cascada.
#[derive(Debug, Clone)]
pub struct UpdateFileStatusResult {
    pub old_status: String,
    pub new_status: String,
    pub guias_actualizados: usize,
    pub vehiculos_actualizados: usize,
    pub restaurantes_actualizados: usize,
    pub entradas_actualizadas: usize,
    pub pagos_proveedores_actualizados: usize,
}

/// Mensaje que describe el cambio de estado de un file.
pub open spec fn mensaje_file(
    old: Seq<char>,
    new: Seq<char>,
    g: int,
    v: int,
    r: int,
    e: int,
    p: int,
) -> Seq<char> {
    let base = "Status de file actualizado de '"@ + old + "' a '"@ + new + "'"@;
    if g > 0 || v > 0 || r > 0 || e > 0 || p > 0 {
        base + ". Guias: "@ + texto_entero(g) + ", Vehiculos: "@ + texto_entero(v)
            + ", Restaurantes: "@ + texto_entero(r) + ", Entradas: "@ + texto_entero(e)
            + ", Pagos proveedores: "@ + texto_entero(p)
    } else {
        base
    }
}

impl UpdateFileStatusResult {
    /// Resultado sin actualizaciones en cascada.
    pub fn sin_cascada(old_status: String, new_status: &str) -> (r: Self)
        ensures
            r.old_status@ == old_status@,
            r.new_status@ == new_status@,
            r.guias_actualizados == 0,
            r.vehiculos_actualizados == 0,
            r.restaurantes_actualizados == 0,
            r.entradas_actualizadas == 0,
            r.pagos_proveedores_actualizados == 0,
    {
        UpdateFileStatusResult {
            old_status,
            new_status: texto(new_status),
            guias_actualizados: 0,
            vehiculos_actualizados: 0,
            restaurantes_actualizados: 0,
            entradas_actualizadas: 0,
            pagos_proveedores_actualizados: 0,
        }
    }

    /// ¿Actualizó la cascada algún registro relacionado?
    pub open spec fn hay_cascada(&self) -> bool {
        self.guias_actualizados > 0 || self.vehiculos_actualizados > 0
            || self.restaurantes_actualizados > 0 || self.entradas_actualizadas > 0
            || self.pagos_proveedores_actualizados > 0
    }

    /// Verifica si hubo actualizaciones en entidades relacionadas.
    pub fn has_cascade_updates(&self) -> (r: bool)
        ensures
            r == self.hay_cascada(),
    {
        self.guias_actualizados > 0 || self.vehiculos_actualizados > 0
            || self.restaurantes_actualizados > 0 || self.entradas_actualizadas > 0
            || self.pagos_proveedores_actualizados > 0
    }

    /// Mensaje descriptivo del resultado; con cascada incluye los conteos.
    pub fn to_message(&self) -> (r: String)
        ensures
            r@ == mensaje_file(
                self.old_status@,
                self.new_status@,
                self.guias_actualizados as int,
                self.vehiculos_actualizados as int,
                self.restaurantes_actualizados as int,
                self.entradas_actualizadas as int,
                self.pagos_proveedores_actualizados as int,
            ),
    {
        let m = texto("Status de file actualizado de '");
        let m = unir(m, self.old_status.as_str());
        let m = unir(m, "' a '");
        let m = unir(m, self.new_status.as_str());
        let m = unir(m, "'");
        if self.has_cascade_updates() {
            let m = unir(m, ". Guias: ");
            let m = unir(m, usize_a_texto(self.guias_actualizados).as_str());
            let m = unir(m, ", Vehiculos: ");
            let m = unir(m, usize_a_texto(self.vehiculos_actualizados).as_str());
            let m = unir(m, ", Restaurantes: ");
            let m = unir(m, usize_a_texto(self.restaurantes_actualizados).as_str());
            let m = unir(m, ", Entradas: ");
            let m = unir(m, usize_a_texto(self.entradas_actualizadas).as_str());
            let m = unir(m, ", Pagos proveedores: ");
            let m = unir(m, usize_a_texto(self.pagos_proveedores_actualizados).as_str());
            m
        } else {
            m
        }
    }

    /// Suma al resultado los registros que un plan de cascada actualiza.
    pub fn sumar_plan(&mut self, plan: &PlanRelaciones)
        requires
            old(self).guias_actualizados + plan.guias@.len() <= usize::MAX,
            old(self).vehiculos_actualizados + plan.vehiculos@.len() <= usize::MAX,
            old(self).restaurantes_actualizados + plan.restaurantes@.len() <= usize::MAX,
            old(self).entradas_actualizadas + plan.entradas@.len() <= usize::MAX,
            old(self).pagos_proveedores_actualizados + plan.pagos_proveedores@.len() <= usize::MAX,
        ensures
            final(self).old_status == old(self).old_status,
            final(self).new_status == old(self).new_status,
            final(self).guias_actualizados == old(self).guias_actualizados + plan.guias@.len(),
            final(self).vehiculos_actualizados == old(self).vehiculos_actualizados + plan.vehiculos@.len(),
            final(self).restaurantes_actualizados == old(self).restaurantes_actualizados
                + plan.restaurantes@.len(),
            final(self).entradas_actualizadas == old(self).entradas_actualizadas + plan.entradas@.len(),
            final(self).pagos_proveedores_actualizados == old(self).pagos_proveedores_actualizados
                + plan.pagos_proveedores@.len(),
    {
        self.guias_actualizados = self.guias_actualizados + plan.guias.len();
        self.vehiculos_actualizados = self.vehiculos_actualizados + plan.vehiculos.len();
        self.restaurantes_actualizados = self.restaurantes_actualizados + plan.restaurantes.len();
        self.entradas_actualizadas = self.entradas_actualizadas + plan.entradas.len();
        self.pagos_proveedores_actualizados = self.pagos_proveedores_actualizados
            + plan.pagos_proveedores.len();
    }
}

/// Los registros relacionados con un tour, con sus estados actuales.
#[derive(Debug, Clone)]
pub struct RelacionesTour {
    pub guias: Vec<ServicioAsignado>,
    pub vehiculos: Vec<ServicioAsignado>,
    pub restaurantes: Vec<ServicioAsignado>,
    pub entradas: Vec<EntradaAsignada>,
    pub pagos_proveedores: Vec<ServicioAsignado>,
}

/// Ids de los registros relacionados con un tour que pasan al nuevo estado.
#[derive(Debug, Clone)]
pub struct PlanRelaciones {
    pub guias: Vec<i32>,
    pub vehiculos: Vec<i32>,
    pub restaurantes: Vec<i32>,
    pub entradas: Vec<i32>,
    pub pagos_proveedores: Vec<i32>,
}

/// Decide qué registros relacionados con un tour pasan a `new_status`. Si el
/// estado no es de cascada (asignado, cancelado, no_show) no se actualiza nada;
/// si lo es, pasan todos los que no estén en un estado final, salvo las
/// entradas de boleto turístico cuando se cancela.
pub fn planificar_relaciones(new_status: &str, rel: &RelacionesTour) -> (r: PlanRelaciones)
    ensures
        es_cascada_file(new_status@) ==> {
            &&& r.guias@ == seleccion_file(rel.guias.deep_view())
            &&& r.vehiculos@ == seleccion_file(rel.vehiculos.deep_view())
            &&& r.restaurantes@ == seleccion_file(rel.restaurantes.deep_view())
            &&& r.entradas@ == seleccion_entradas(rel.entradas.deep_view(), new_status@)
            &&& r.pagos_proveedores@ == seleccion_file(rel.pagos_proveedores.deep_view())
        },
        !es_cascada_file(new_status@) ==> {
            &&& r.guias@.len() == 0
            &&& r.vehiculos@.len() == 0
            &&& r.restaurantes@.len() == 0
            &&& r.entradas@.len() == 0
            &&& r.pagos_proveedores@.len() == 0
        },
{
    if es_estado_de_cascada_de_file(new_status) {
        PlanRelaciones {
            guias: seleccionar_no_finales(&rel.guias),
            vehiculos: seleccionar_no_finales(&rel.vehiculos),
            restaurantes: seleccionar_no_finales(&rel.restaurantes),
            entradas: seleccionar_entradas(&rel.entradas, new_status),
            pagos_proveedores: seleccionar_no_finales(&rel.pagos_proveedores),
        }
    } else {
        PlanRelaciones {
            guias: Vec::new(),
            vehiculos: Vec::new(),
            restaurantes: Vec::new(),
            entradas: Vec::new(),
            pagos_proveedores: Vec::new(),
        }
    }
}

/// Decide qué tours de un file pasan a `new_status`: ninguno si el estado no
/// es de cascada; si lo es, los que no estén en un estado final.
pub fn tours_para_cascada(new_status: &str, tours: &Vec<ServicioAsignado>) -> (r: Vec<i32>)
    ensures
        es_cascada_file(new_status@) ==> r@ == seleccion_file(tours.deep_view()),
        !es_cascada_file(new_status@) ==> r@.len() == 0,
{
    if es_estado_de_cascada_de_file(new_status) {
        seleccionar_no_finales(tours)
    } else {
        Vec::new()
    }
}

// ===================== Leyes de la cascada =====================

/// Los servicios después de escribir `nuevo` en los que tienen un id de `ids`.
pub open spec fn aplicar_estado(items: Seq<(i32, Seq<char>)>, ids: Seq<i32>, nuevo: Seq<char>) -> Seq<(i32, Seq<char>)> {
    Seq::new(items.len(), |i: int| if ids.contains(items[i].0) { (items[i].0, nuevo) } else { items[i] })
}

/// Todo servicio cuyo estado satisface `p` tiene su id en la selección.
proof fn lema_filtrados_contiene(items: Seq<(i32, Seq<char>)>, p: spec_fn(Seq<char>) -> bool, i: int)
    requires
        0 <= i < items.len(),
        p(items[i].1),
    ensures
        ids_filtrados(items, p).contains(items[i].0),
    decreases items.len(),
{
    let resto = ids_filtrados(items.drop_last(), p);
    if i == items.len() - 1 {
        assert(ids_filtrados(items, p) == resto.push(items.last().0));
        assert(ids_filtrados(items, p)[resto.len() as int] == items[i].0);
    } else {
        lema_filtrados_contiene(items.drop_last(), p, i);
        let k = choose|k: int| 0 <= k < resto.len() && resto[k] == items[i].0;
        if p(items.last().1) {
            assert(ids_filtrados(items, p)[k] == items[i].0);
        }
    }
}

/// Si ningún estado satisface `p`, la selección es vacía.
proof fn lema_filtrados_vacio(items: Seq<(i32, Seq<char>)>, p: spec_fn(Seq<char>) -> bool)
    requires
        forall|i: int| 0 <= i < items.len() ==> !p(#[trigger] items[i].1),
    ensures
        ids_filtrados(items, p).len() == 0,
    decreases items.len(),
{
    if items.len() > 0 {
        assert(forall|i: int| 0 <= i < items.drop_last().len() ==> items.drop_last()[i] == items[i]);
        lema_filtrados_vacio(items.drop_last(), p);
        assert(!p(items[items.len() - 1].1));
    }
}

/// La cascada de un file hacia un estado final es idempotente: después de
/// escribir el nuevo estado en los servicios seleccionados, una segunda cascada
/// no selecciona ninguno.
pub proof fn ley_cascada_file_idempotente(items: Seq<(i32, Seq<char>)>, nuevo: Seq<char>)
    requires
        es_final(nuevo),
    ensures
        seleccion_file(aplicar_estado(items, seleccion_file(items), nuevo)).len() == 0,
{
    let p = |s: Seq<char>| !es_final(s);
    let sel = seleccion_file(items);
    let despues = aplicar_estado(items, sel, nuevo);
    assert forall|i: int| 0 <= i < despues.len() implies !p(#[trigger] despues[i].1) by {
        if !sel.contains(items[i].0) {
            if p(items[i].1) {
                lema_filtrados_contiene(items, p, i);
            }
        }
    }
    lema_filtrados_vacio(despues, p);
}

/// La cascada de un tour (cancelación) es idempotente: después de escribir el
/// nuevo estado en los servicios seleccionados, una segunda cascada no
/// selecciona ninguno.
pub proof fn ley_cascada_tour_idempotente(items: Seq<(i32, Seq<char>)>, nuevo: Seq<char>)
    requires
        es_cascada_tour(nuevo),
    ensures
        seleccion_tour(aplicar_estado(items, seleccion_tour(items), nuevo)).len() == 0,
{
    let p = |s: Seq<char>| !es_final_tour(s);
    let sel = seleccion_tour(items);
    let despues = aplicar_estado(items, sel, nuevo);
    assert forall|i: int| 0 <= i < despues.len() implies !p(#[trigger] despues[i].1) by {
        if !sel.contains(items[i].0) {
            if p(items[i].1) {
                lema_filtrados_contiene(items, p, i);
            }
        }
    }
    lema_filtrados_vacio(despues, p);
}

/// ¿Hay un servicio con este id que no está en un estado final?
pub open spec fn id_de_servicio_no_final(items: Seq<(i32, Seq<char>)>, id: i32) -> bool {
    exists|i: int| 0 <= i < items.len() && items[i].0 == id && !es_final(#[trigger] items[i].1)
}

/// La cascada de un file no cambia los servicios en estado final: todo id
/// seleccionado pertenece a algún servicio que no está en un estado final, y
/// todo servicio que no está en un estado final es seleccionado.
pub proof fn ley_cascada_file_selecciona_no_finales(items: Seq<(i32, Seq<char>)>)
    ensures
        forall|i: int| 0 <= i < items.len() && !es_final(#[trigger] items[i].1)
            ==> seleccion_file(items).contains(items[i].0),
        forall|k: int| 0 <= k < seleccion_file(items).len()
            ==> id_de_servicio_no_final(items, #[trigger] seleccion_file(items)[k]),
{
    let p = |s: Seq<char>| !es_final(s);
    assert forall|i: int| 0 <= i < items.len() && !es_final(#[trigger] items[i].1)
        implies seleccion_file(items).contains(items[i].0) by {
        lema_filtrados_contiene(items, p, i);
    }
    lema_filtrados_origen(items, p);
    assert(seleccion_file(items) == ids_filtrados(items, p));
    assert forall|k: int| 0 <= k < seleccion_file(items).len()
        implies id_de_servicio_no_final(items, #[trigger] seleccion_file(items)[k]) by {
        assert(ids_filtrados(items, p)[k] == seleccion_file(items)[k]);
        let i = choose|i: int|
            0 <= i < items.len() && items[i].0 == #[trigger] ids_filtrados(items, p)[k] && p(items[i].1);
        assert(!es_final(items[i].1));
    }
}

/// Todo id seleccionado viene de un servicio cuyo estado satisface `p`.
proof fn lema_filtrados_origen(items: Seq<(i32, Seq<char>)>, p: spec_fn(Seq<char>) -> bool)
    ensures
        forall|k: int| 0 <= k < ids_filtrados(items, p).len() ==> exists|i: int|
            0 <= i < items.len() && items[i].0 == #[trigger] ids_filtrados(items, p)[k] && p(items[i].1),
    decreases items.len(),
{
    if items.len() > 0 {
        let pre = items.drop_last();
        lema_filtrados_origen(pre, p);
        let resto = ids_filtrados(pre, p);
        assert forall|k: int| 0 <= k < ids_filtrados(items, p).len() implies exists|i: int|
            0 <= i < items.len() && items[i].0 == #[trigger] ids_filtrados(items, p)[k] && p(items[i].1) by {
            if k < resto.len() {
                assert(ids_filtrados(items, p)[k] == resto[k]);
                let i = choose|i: int| 0 <= i < pre.len() && pre[i].0 == resto[k] && p(pre[i].1);
                assert(items[i] == pre[i]);
            } else {
                assert(ids_filtrados(items, p)[k] == items.last().0);
                assert(items[items.len() - 1] == items.last());
            }
        }
    }
}

/// ¿Hay una entrada con ese id que no está cancelada, completada ni en
/// no-show, y que no es un boleto turístico si la cascada es una cancelación?
pub open spec fn hay_entrada_que_pasa(items: Seq<(i32, Seq<char>, Option<bool>)>, nuevo: Seq<char>, id: i32) -> bool {
    exists|j: int|
        0 <= j < items.len() && #[trigger] items[j].0 == id && items[j].1 != "cancelado"@ && items[j].1
            != "completado"@ && items[j].1 != "no_show"@ && !(nuevo == "cancelado"@ && items[j].2 == Some(true))
}

/// En una cascada de estado, una entrada pasa al nuevo estado solo si no está
/// cancelada, completada ni en no-show; y, si la cascada es una cancelación,
/// tampoco si es un boleto turístico (que se transfiere, no se cancela). Toda
/// entrada que cumple eso es seleccionada.
pub proof fn ley_boleto_turistico_no_se_cancela(items: Seq<(i32, Seq<char>, Option<bool>)>, nuevo: Seq<char>)
    ensures
        forall|k: int| 0 <= k < seleccion_entradas(items, nuevo).len() ==> hay_entrada_que_pasa(
            items,
            nuevo,
            #[trigger] seleccion_entradas(items, nuevo)[k],
        ),
        forall|j: int| 0 <= j < items.len() && items[j].1 != "cancelado"@ && items[j].1 != "completado"@
            && items[j].1 != "no_show"@ && !(nuevo == "cancelado"@ && items[j].2 == Some(true))
            ==> seleccion_entradas(items, nuevo).contains(#[trigger] items[j].0),
    decreases items.len(),
{
    if items.len() > 0 {
        let c = items.drop_last();
        ley_boleto_turistico_no_se_cancela(c, nuevo);
        let s0 = seleccion_entradas(c, nuevo);
        let s = seleccion_entradas(items, nuevo);
        assert forall|k: int| 0 <= k < s.len() implies hay_entrada_que_pasa(items, nuevo, #[trigger] s[k]) by {
            if k < s0.len() {
                assert(s[k] == s0[k]);
                assert(hay_entrada_que_pasa(c, nuevo, s0[k]));
                let j = choose|j: int|
                    0 <= j < c.len() && #[trigger] c[j].0 == s0[k] && c[j].1 != "cancelado"@ && c[j].1 != "completado"@
                        && c[j].1 != "no_show"@ && !(nuevo == "cancelado"@ && c[j].2 == Some(true));
                assert(items[j] == c[j]);
                assert(items[j].0 == s[k]);
            } else {
                let j = items.len() - 1;
                assert(items[j] == items.last());
                assert(items[j].0 == s[k]);
            }
        }
        assert forall|j: int| 0 <= j < items.len() && items[j].1 != "cancelado"@ && items[j].1 != "completado"@
            && items[j].1 != "no_show"@ && !(nuevo == "cancelado"@ && items[j].2 == Some(true))
            implies s.contains(#[trigger] items[j].0) by {
            if j < c.len() {
                assert(items[j] == c[j]);
                assert(s0.contains(c[j].0));
                let x = choose|x: int| 0 <= x < s0.len() && s0[x] == c[j].0;
                if entrada_se_actualiza(items.last(), nuevo) {
                    assert(s[x] == s0[x]);
                } else {
                    assert(s == s0);
                }
            } else {
                assert(items[j] == items.last());
                assert(s[s.len() - 1] == items[j].0);
            }
        }
    }
}

} // verus!
