//! Estados de files, tours y servicios, y los grupos de estados que gobiernan
//! las cascadas y las ediciones.

use vstd::prelude::*;
use crate::texto::mismo_texto;

verus! {

/// Estados de un file que se propagan en cascada a sus tours y servicios.
pub open spec fn es_cascada_file(s: Seq<char>) -> bool {
    s == "asignado"@ || s == "cancelado"@ || s == "no_show"@
}

/// Estados finales: un servicio en uno de ellos no cambia por cascada de un file.
pub open spec fn es_final(s: Seq<char>) -> bool {
    s == "cancelado"@ || s == "completado"@ || s == "no_show"@
}

/// Estados de un tour que se propagan en cascada a sus guías, vehículos y restaurantes.
pub open spec fn es_cascada_tour(s: Seq<char>) -> bool {
    s == "cancelado"@
}

/// Estados finales para la cascada de un tour: el servicio ya no se actualiza.
pub open spec fn es_final_tour(s: Seq<char>) -> bool {
    s == "cancelado"@ || s == "completado"@
}

/// Estados de un tour que impiden modificarlo al editar un file.
pub open spec fn es_no_editable(s: Seq<char>) -> bool {
    s == "asignado"@ || s == "en_curso"@ || s == "completado"@
}

/// Estado de un file desde el que se puede confirmar la reserva: solo "reservado".
pub open spec fn es_confirmable(s: Seq<char>) -> bool {
    s == "reservado"@
}

/// ¿El nuevo estado de un file dispara la cascada a sus tours y servicios?
pub fn es_estado_de_cascada_de_file(status: &str) -> (r: bool)
    ensures
        r == es_cascada_file(status@),
{
    mismo_texto(status, "asignado") || mismo_texto(status, "cancelado") || mismo_texto(status, "no_show")
}

/// ¿Es un estado final, que la cascada de un file no modifica?
pub fn es_estado_final(status: &str) -> (r: bool)
    ensures
        r == es_final(status@),
{
    mismo_texto(status, "cancelado") || mismo_texto(status, "completado") || mismo_texto(status, "no_show")
}

/// ¿El nuevo estado de un tour dispara la cascada a sus guías, vehículos y
/// restaurantes? Solo la cancelación lo hace.
pub fn es_estado_de_cascada_de_tour(status: &str) -> (r: bool)
    ensures
        r == es_cascada_tour(status@),
{
    mismo_texto(status, "cancelado")
}

/// ¿Es un estado final para la cascada de un tour (cancelado o completado)?
pub fn es_estado_final_de_tour(status: &str) -> (r: bool)
    ensures
        r == es_final_tour(status@),
{
    mismo_texto(status, "cancelado") || mismo_texto(status, "completado")
}

/// ¿Impide el estado de un tour que se modifique al editar el file?
pub fn es_estado_no_editable(status: &str) -> (r: bool)
    ensures
        r == es_no_editable(status@),
{
    mismo_texto(status, "asignado") || mismo_texto(status, "en_curso") || mismo_texto(status, "completado")
}

/// ¿Se puede confirmar la reserva de un file con este estado?
pub fn es_estado_confirmable(status: &str) -> (r: bool)
    ensures
        r == es_confirmable(status@),
{
    mismo_texto(status, "reservado")
}

} // verus!
