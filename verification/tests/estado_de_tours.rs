use turismo_core::cascada::{UpdateFileStatusResult, UpdateFileTourStatusResult};
use turismo_core::estados::{
    es_estado_confirmable, es_estado_de_cascada_de_file, es_estado_de_cascada_de_tour, es_estado_final,
    es_estado_final_de_tour, es_estado_no_editable,
};

#[test]
fn test_should_cascade() {
    assert!(es_estado_de_cascada_de_tour("cancelado"));
    assert!(!es_estado_de_cascada_de_tour("confirmado"));
    assert!(!es_estado_de_cascada_de_tour("asignado"));
    assert!(!es_estado_de_cascada_de_tour("pendiente"));
}

#[test]
fn test_result_message_without_cascade() {
    let result = UpdateFileTourStatusResult {
        old_status: "confirmado".to_string(),
        new_status: "asignado".to_string(),
        guias_actualizados: 0,
        vehiculos_actualizados: 0,
        restaurantes_actualizados: 0,
    };

    assert_eq!(result.to_message(), "Status de tour actualizado de 'confirmado' a 'asignado'");
}

#[test]
fn test_result_message_with_cascade() {
    let result = UpdateFileTourStatusResult {
        old_status: "confirmado".to_string(),
        new_status: "cancelado".to_string(),
        guias_actualizados: 2,
        vehiculos_actualizados: 1,
        restaurantes_actualizados: 3,
    };

    assert_eq!(
        result.to_message(),
        "Status de tour actualizado de 'confirmado' a 'cancelado'. Guias: 2, Vehiculos: 1, Restaurantes: 3"
    );
}

#[test]
fn estados_de_cascada_de_file() {
    assert!(es_estado_de_cascada_de_file("asignado"));
    assert!(es_estado_de_cascada_de_file("cancelado"));
    assert!(es_estado_de_cascada_de_file("no_show"));
    assert!(!es_estado_de_cascada_de_file("confirmado"));
}

#[test]
fn estados_finales() {
    assert!(es_estado_final("cancelado"));
    assert!(es_estado_final("completado"));
    assert!(es_estado_final("no_show"));
    assert!(!es_estado_final("asignado"));
    assert!(es_estado_final_de_tour("completado"));
    assert!(!es_estado_final_de_tour("no_show"));
}

#[test]
fn estados_no_editables_y_confirmables() {
    assert!(es_estado_no_editable("en_curso"));
    assert!(!es_estado_no_editable("reservado"));
    assert!(!es_estado_confirmable("pendiente"));
    assert!(es_estado_confirmable("reservado"));
    assert!(!es_estado_confirmable("confirmado"));
}

#[test]
fn mensaje_de_file_sin_cascada() {
    let r = UpdateFileStatusResult {
        old_status: "reservado".to_string(),
        new_status: "confirmado".to_string(),
        guias_actualizados: 0,
        vehiculos_actualizados: 0,
        restaurantes_actualizados: 0,
        entradas_actualizadas: 0,
        pagos_proveedores_actualizados: 0,
    };
    assert!(!r.has_cascade_updates());
    assert_eq!(r.to_message(), "Status de file actualizado de 'reservado' a 'confirmado'");
}

#[test]
fn mensaje_de_file_con_cascada() {
    let r = UpdateFileStatusResult {
        old_status: "confirmado".to_string(),
        new_status: "cancelado".to_string(),
        guias_actualizados: 1,
        vehiculos_actualizados: 2,
        restaurantes_actualizados: 0,
        entradas_actualizadas: 3,
        pagos_proveedores_actualizados: 4,
    };
    assert!(r.has_cascade_updates());
    assert_eq!(
        r.to_message(),
        "Status de file actualizado de 'confirmado' a 'cancelado'. Guias: 1, Vehiculos: 2, Restaurantes: 0, Entradas: 3, Pagos proveedores: 4"
    );
}
