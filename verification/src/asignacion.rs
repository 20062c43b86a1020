//! Asignación de recursos a un file: cuándo está completamente asignado,
//! cuándo pasa de "confirmado" a "asignado", y a qué rol de usuario se avisa
//! por cada tipo de proveedor.

use vstd::prelude::*;
use crate::texto::mismo_texto;

verus! {

/// ¿Tiene el tour al menos un vehículo, y alguno con conductor? `vehiculos`
/// dice, de cada vehículo asignado, si tiene conductor.
pub open spec fn tour_asignado(vehiculos: Seq<bool>) -> bool {
    vehiculos.len() > 0 && vehiculos.contains(true)
}

/// Un file está completamente asignado cuando tiene tours y cada uno tiene al
/// menos un vehículo, alguno de ellos con conductor.
pub open spec fn spec_file_asignado(tours: Seq<Seq<bool>>) -> bool {
    tours.len() > 0 && forall|i: int| 0 <= i < tours.len() ==> tour_asignado(#[trigger] tours[i])
}

/// ¿Está completamente asignado el file? `tours` tiene, por cada tour, si
/// cada uno de sus vehículos tiene conductor.
pub fn file_completamente_asignado(tours: &Vec<Vec<bool>>) -> (r: bool)
    ensures
        r == spec_file_asignado(tours.deep_view()),
{
    let ghost v = tours.deep_view();
    if tours.len() == 0 {
        return false;
    }
    let mut i: usize = 0;
    while i < tours.len()
        invariant
            i <= tours.len(),
            v == tours.deep_view(),
            v.len() == tours.len(),
            forall|k: int| 0 <= k < i ==> tour_asignado(#[trigger] v[k]),
        decreases tours.len() - i,
    {
        let vehiculos = &tours[i];
        assert(v[i as int] == vehiculos@);
        if vehiculos.len() == 0 {
            return false;
        }
        let mut con_conductor = false;
        let mut j: usize = 0;
        while j < vehiculos.len()
            invariant
                j <= vehiculos.len(),
                con_conductor == vehiculos@.take(j as int).contains(true),
            decreases vehiculos.len() - j,
        {
            let ghost pre = vehiculos@.take(j as int);
            let ghost nx = vehiculos@.take(j as int + 1);
            assert(nx == pre.push(vehiculos@[j as int]));
            if vehiculos[j] {
                con_conductor = true;
            }
            proof {
                if pre.contains(true) {
                    let k = choose|k: int| 0 <= k < pre.len() && pre[k] == true;
                    assert(nx[k] == true);
                }
                if vehiculos@[j as int] {
                    assert(nx[j as int] == true);
                }
                if nx.contains(true) {
                    let k = choose|k: int| 0 <= k < nx.len() && nx[k] == true;
                    if k < j {
                        assert(pre[k] == nx[k]);
                    }
                }
            }
            j = j + 1;
        }
        assert(vehiculos@.take(vehiculos.len() as int) == vehiculos@);
        if !con_conductor {
            return false;
        }
        i = i + 1;
    }
    true
}

/// Solo un file "confirmado" y completamente asignado pasa a "asignado".
pub fn pasa_a_asignado(status: &str, completamente_asignado: bool) -> (r: bool)
    ensures
        r == (status@ == "confirmado"@ && completamente_asignado),
{
    mismo_texto(status, "confirmado") && completamente_asignado
}

/// El rol de los usuarios a los que se avisa de una asignación según el tipo
/// de proveedor: transporte o conductor → "transportes", restaurante →
/// "restaurantes", guía → "guias"; otro tipo no se avisa.
pub open spec fn spec_rol_de_proveedor(tipo: Seq<char>) -> Option<Seq<char>> {
    if tipo == "transporte"@ || tipo == "conductor"@ {
        Some("transportes"@)
    } else if tipo == "restaurante"@ {
        Some("restaurantes"@)
    } else if tipo == "guia"@ {
        Some("guias"@)
    } else {
        None
    }
}

/// El rol al que se avisa por un tipo de proveedor.
pub fn rol_de_proveedor(tipo: &str) -> (r: Option<&'static str>)
    ensures
        match r {
            Some(s) => spec_rol_de_proveedor(tipo@) == Some(s@),
            None => spec_rol_de_proveedor(tipo@) is None,
        },
{
    proof {
        reveal_strlit("transportes");
        reveal_strlit("restaurantes");
        reveal_strlit("guias");
    }
    if mismo_texto(tipo, "transporte") || mismo_texto(tipo, "conductor") {
        Some("transportes")
    } else if mismo_texto(tipo, "restaurante") {
        Some("restaurantes")
    } else if mismo_texto(tipo, "guia") {
        Some("guias")
    } else {
        None
    }
}

} // verus!
