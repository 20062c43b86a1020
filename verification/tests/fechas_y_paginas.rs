use turismo_core::fechas::{calcular_fecha_vencimiento, fecha_de_hoy, ultimo_dia_del_mes, Fecha};
use turismo_core::lectura::{fecha_de_pedido, hora_de_pedido, leer_fecha_iso, Hora};
use turismo_core::paginacion::{PaginatedResult, PaginationOptions};

fn f(a: i32, m: u32, d: u32) -> Fecha {
    Fecha::new(a, m, d).unwrap()
}

#[test]
fn fechas_inexistentes_no_se_crean() {
    assert!(Fecha::new(2023, 2, 29).is_none());
    assert!(Fecha::new(2024, 2, 29).is_some());
    assert!(Fecha::new(2024, 13, 1).is_none());
    assert!(f(2024, 1, 31).es_anterior_a(&f(2024, 2, 1)));
    assert!(!f(2024, 2, 1).es_anterior_a(&f(2024, 2, 1)));
}

#[test]
fn ultimo_dia_de_cada_mes() {
    assert_eq!(ultimo_dia_del_mes(f(2024, 2, 10)), 29);
    assert_eq!(ultimo_dia_del_mes(f(2023, 2, 10)), 28);
    assert_eq!(ultimo_dia_del_mes(f(2024, 4, 1)), 30);
    assert_eq!(ultimo_dia_del_mes(f(2024, 12, 5)), 31);
}

#[test]
fn vencimiento_semanal_es_el_domingo() {
    // 2024-03-13 es miércoles; el domingo de esa semana es el 17.
    assert_eq!(calcular_fecha_vencimiento("semanal", f(2024, 3, 13)), f(2024, 3, 17));
    // Un domingo vence el mismo día.
    assert_eq!(calcular_fecha_vencimiento("semanal", f(2024, 3, 17)), f(2024, 3, 17));
    // Cruza el fin de mes.
    assert_eq!(calcular_fecha_vencimiento("semanal", f(2024, 7, 29)), f(2024, 8, 4));
}

#[test]
fn vencimiento_quincenal() {
    assert_eq!(calcular_fecha_vencimiento("quincenal", f(2024, 3, 10)), f(2024, 3, 15));
    assert_eq!(calcular_fecha_vencimiento("quincenal", f(2024, 3, 20)), f(2024, 3, 30));
    assert_eq!(calcular_fecha_vencimiento("quincenal", f(2024, 3, 31)), f(2024, 4, 15));
    assert_eq!(calcular_fecha_vencimiento("quincenal", f(2024, 2, 20)), f(2024, 2, 29));
    assert_eq!(calcular_fecha_vencimiento("quincenal", f(2024, 12, 31)), f(2025, 1, 15));
}

#[test]
fn vencimiento_mensual_y_por_defecto() {
    assert_eq!(calcular_fecha_vencimiento("mensual", f(2024, 2, 10)), f(2024, 2, 29));
    assert_eq!(calcular_fecha_vencimiento("otro", f(2023, 11, 3)), f(2023, 11, 30));
}

#[test]
fn hoy_es_una_fecha_valida() {
    let hoy = fecha_de_hoy().unwrap();
    assert!(Fecha::new(hoy.anio, hoy.mes, hoy.dia).is_some());
    assert!(hoy.anio >= 2024);
}

#[test]
fn lectura_de_fechas_y_horas_de_pedidos() {
    assert_eq!(leer_fecha_iso("2024-03-15"), Some(f(2024, 3, 15)));
    assert_eq!(leer_fecha_iso("15/03/2024"), None);
    assert_eq!(fecha_de_pedido(&Some("  2024-03-15 ".to_string())), Some(f(2024, 3, 15)));
    assert_eq!(fecha_de_pedido(&Some("   ".to_string())), None);
    assert_eq!(fecha_de_pedido(&None), None);
    assert_eq!(
        hora_de_pedido(&Some("08:30".to_string())),
        Some(Hora { hora: 8, minuto: 30, segundo: 0, nanosegundo: 0 })
    );
    assert_eq!(
        hora_de_pedido(&Some(" 08:30:15 ".to_string())),
        Some(Hora { hora: 8, minuto: 30, segundo: 15, nanosegundo: 0 })
    );
    assert_eq!(hora_de_pedido(&Some("8h".to_string())), None);
}

#[test]
fn opciones_de_paginacion() {
    let o = PaginationOptions::with_defaults();
    assert_eq!(o.limit, Some(50));
    assert_eq!(o.offset, Some(0));
    let p = PaginationOptions::new(None, None);
    assert_eq!(p.resolver(), (50, 0));
    let r = PaginatedResult::from_options(vec![1, 2, 3], 3, &PaginationOptions::new(Some(2), None));
    assert_eq!(r.limit, 2);
    assert_eq!(r.offset, 0);
}

#[test]
fn paginas_y_pagina_actual() {
    let r = PaginatedResult::new(vec![0u8; 10], 101, 10, 20);
    assert_eq!(r.pages(), 11);
    assert_eq!(r.current_page(), 3);
    let r = PaginatedResult::new(Vec::<u8>::new(), 100, 10, 0);
    assert_eq!(r.pages(), 10);
    assert_eq!(r.current_page(), 1);
    let r = PaginatedResult::new(Vec::<u8>::new(), 0, 0, 0);
    assert_eq!(r.pages(), 1);
    assert_eq!(r.current_page(), 1);
}

#[test]
fn vencimiento_a_lo_sumo_un_mes_despues() {
    assert_eq!(calcular_fecha_vencimiento("mensual", f(2024, 1, 1)), f(2024, 1, 31));
    assert_eq!(calcular_fecha_vencimiento("quincenal", f(2024, 1, 31)), f(2024, 2, 15));
    assert_eq!(calcular_fecha_vencimiento("quincenal", f(2024, 12, 31)), f(2025, 1, 15));
    assert_eq!(calcular_fecha_vencimiento("otro", f(2023, 2, 10)), calcular_fecha_vencimiento("mensual", f(2023, 2, 10)));
    assert_eq!(calcular_fecha_vencimiento("semanal", f(2024, 12, 30)), f(2025, 1, 5));
}
