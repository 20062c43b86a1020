use turismo_core::asignacion::{file_completamente_asignado, pasa_a_asignado, rol_de_proveedor};
use turismo_core::cambios::{texto_cambia, CamposCambiados};
use turismo_core::creacion::UserRole;
use turismo_core::notificaciones::{
    aviso_de_entidad, destinatarios, filtros_de_usuario, mensaje_de_inicio_de_sesion, total_de_conteos, Destinatarios,
    Evento,
};
use turismo_core::precios::{
    elegir_precio, mensaje_sin_precio, precios_por_defecto, validar_lote, validar_rango, ErrorPrecio, RangoPrecio,
};
use turismo_core::servicios::{
    EntradaPrecioService, MyFilesService, NotificationService, PostgresMyFilesRepository, TarifaService,
};
use turismo_core::tipos::{CountByType, NotificationFilters, UserListScope};
use turismo_core::usuarios::{
    aviso_de_actualizacion, campos_cambiados, validar_activacion, validar_desactivacion, validar_eliminacion,
    CreateUserResult, DatosUsuario, ErrorUsuario, UpdateUserResult,
};

fn usuario(email: &str, activo: bool, rol: UserRole) -> DatosUsuario {
    DatosUsuario {
        id: 1,
        username: "ana".to_string(),
        email: email.to_string(),
        role: rol,
        is_active: activo,
        id_entidad: Some(3),
        id_persona: None,
    }
}

fn rango(entrada: i32, min: i32, max: Option<i32>) -> RangoPrecio {
    RangoPrecio {
        id_entrada: entrada,
        tipo_precio: "general".to_string(),
        edad_minima: min,
        edad_maxima: max,
        precio: 1000,
        descripcion: None,
    }
}

#[test]
fn reglas_de_activacion_de_cuentas() {
    assert_eq!(validar_eliminacion(4, 4), Err(ErrorUsuario::PropioUsuario));
    assert_eq!(validar_eliminacion(4, 5), Ok(()));
    assert_eq!(validar_activacion(true), Err(ErrorUsuario::YaActivo));
    assert_eq!(validar_activacion(false), Ok(()));
    assert_eq!(validar_desactivacion(4, 4, true), Err(ErrorUsuario::PropioUsuario));
    assert_eq!(validar_desactivacion(4, 5, false), Err(ErrorUsuario::YaDesactivado));
    assert_eq!(validar_desactivacion(4, 5, true), Ok(()));
    assert_eq!(ErrorUsuario::PropioUsuario.mensaje(), "No puedes desactivar tu propio usuario");
    assert_eq!(ErrorUsuario::YaDesactivado.mensaje(), "El usuario ya está desactivado");
}

#[test]
fn campos_cambiados_de_una_cuenta() {
    let a = usuario("a@x.pe", true, UserRole::Agencias);
    let b = usuario("b@x.pe", false, UserRole::Agencias);
    let c = campos_cambiados(&a, &b);
    assert_eq!(c, vec!["email", "is_active"]);
    assert_eq!(aviso_de_actualizacion(&c), "Se actualizaron los siguientes campos de tu cuenta: email, is_active");
    assert_eq!(aviso_de_actualizacion(&vec![]), "Tu cuenta ha sido actualizada");
    let creado = CreateUserResult { user: a.clone() };
    let actualizado = UpdateUserResult { user: b };
    assert_eq!(creado.user.email, "a@x.pe");
    assert!(!actualizado.user.is_active);
    assert!(campos_cambiados(&a, &a).is_empty());
}

#[test]
fn rangos_de_edad_de_los_precios() {
    assert_eq!(validar_rango(&rango(1, 10, Some(5))), Err(ErrorPrecio::RangoInvertido));
    assert_eq!(validar_rango(&rango(1, 10, None)), Ok(()));
    let lote = vec![rango(1, 0, Some(8)), rango(2, 9, Some(3)), rango(1, 20, Some(1))];
    assert_eq!(validar_lote(&lote, None), Err(ErrorPrecio::RangoInvertidoEnLote { maxima: 3, minima: 9 }));
    assert_eq!(validar_lote(&lote, Some(1)), Err(ErrorPrecio::OtraEntrada));
    assert_eq!(
        ErrorPrecio::RangoInvertidoEnLote { maxima: 3, minima: 9 }.mensaje(),
        "La edad máxima (3) no puede ser menor que la edad mínima (9)"
    );
    assert_eq!(ErrorPrecio::OtraEntrada.mensaje(), "Todos los precios deben pertenecer a la misma entrada");
    assert_eq!(validar_lote(&vec![rango(1, 0, Some(8))], Some(1)), Ok(()));
}

#[test]
fn precios_por_defecto_de_una_entrada() {
    let p = precios_por_defecto(7);
    assert_eq!(p.len(), 3);
    assert_eq!((p[0].edad_minima, p[0].edad_maxima), (0, Some(8)));
    assert_eq!((p[1].edad_minima, p[1].edad_maxima), (9, Some(16)));
    assert_eq!((p[2].edad_minima, p[2].edad_maxima), (17, None));
    assert_eq!(p[0].descripcion, Some("Niño (gratis)".to_string()));
    assert!(p.iter().all(|x| x.id_entrada == 7 && x.precio == 0 && x.tipo_precio == "general"));
}

#[test]
fn eleccion_del_precio_aplicable() {
    assert_eq!(elegir_precio(Some(500), Some(300)), Some(500));
    assert_eq!(elegir_precio(None, Some(300)), Some(300));
    assert_eq!(elegir_precio(None, None), None);
    assert_eq!(
        mensaje_sin_precio(4, 30, "extranjero"),
        "No se encontró precio para entrada 4 con edad 30 y tipo extranjero"
    );
}

#[test]
fn asignacion_completa_de_un_file() {
    assert!(file_completamente_asignado(&vec![vec![false, true], vec![true]]));
    assert!(!file_completamente_asignado(&vec![vec![true], vec![]]));
    assert!(!file_completamente_asignado(&vec![vec![false, false]]));
    assert!(!file_completamente_asignado(&vec![]));
    assert!(pasa_a_asignado("confirmado", true));
    assert!(!pasa_a_asignado("reservado", true));
    assert_eq!(rol_de_proveedor("conductor"), Some("transportes"));
    assert_eq!(rol_de_proveedor("restaurante"), Some("restaurantes"));
    assert_eq!(rol_de_proveedor("hotel"), None);
}

#[test]
fn reparto_y_filtros_de_notificaciones() {
    assert!(matches!(destinatarios(Some(3), Some(vec!["admin".to_string()])), Destinatarios::Usuario(3)));
    assert!(matches!(destinatarios(None, Some(vec!["admin".to_string()])), Destinatarios::Roles(v) if v == vec!["admin".to_string()]));
    assert!(matches!(destinatarios(None, None), Destinatarios::Todos));
    let f: NotificationFilters = filtros_de_usuario(true);
    assert_eq!(f.is_read, Some(false));
    assert_eq!(f.is_dismissed, Some(false));
    assert_eq!(filtros_de_usuario(false).is_read, None);
}

#[test]
fn textos_de_avisos() {
    assert_eq!(mensaje_de_inicio_de_sesion(Some("10.0.0.1")), "Inicio de sesión desde IP: 10.0.0.1");
    assert_eq!(mensaje_de_inicio_de_sesion(None), "Inicio de sesión detectado");
    assert_eq!(
        aviso_de_entidad(Evento::Creada, "tour", "Valle Sagrado"),
        ("Nuevo tour creado".to_string(), "Se ha creado un nuevo tour: Valle Sagrado".to_string())
    );
    assert_eq!(
        aviso_de_entidad(Evento::Eliminada, "guia", "Rosa"),
        ("guia eliminado".to_string(), "Se ha eliminado guia: Rosa".to_string())
    );
}

#[test]
fn total_de_registros_de_actividad() {
    let cs = vec![CountByType { key: "crud".to_string(), count: 7 }, CountByType { key: "auth".to_string(), count: 5 }];
    assert_eq!(total_de_conteos(&cs), 12);
    assert_eq!(total_de_conteos(&vec![]), 0);
}

#[test]
fn deteccion_de_campos_cambiados() {
    assert!(texto_cambia(Some("b"), Some("a")));
    assert!(!texto_cambia(Some("a"), Some("a")));
    assert!(texto_cambia(Some("a"), None));
    assert!(!texto_cambia(None, Some("a")));
    let mut c = CamposCambiados::new();
    c.anotar_texto("nombre", Some("Nuevo"), Some("Viejo"));
    c.anotar_texto("direccion", None, Some("Av. Sol"));
    c.anotar_entero("capacidad", Some(20), Some(20));
    c.anotar_entero("duracion_dias", Some(2), None);
    c.anotar_logico("is_active", Some(false), true);
    c.anotar_si("media", true);
    assert_eq!(c.campos, vec!["nombre", "duracion_dias", "is_active", "media"]);
}

#[test]
fn servicios_con_sus_dependencias() {
    let s = EntradaPrecioService::new(1u8, "cache");
    assert_eq!(s.precios_cache_key(42), "entrada:42");
    assert_eq!(s.precios_cache_key(-3), "entrada:-3");
    assert_eq!(s.entrada_precio_repository, 1u8);
    assert_eq!(MyFilesService::new(5).repository, 5);
    assert_eq!(PostgresMyFilesRepository::new("pool").pool, "pool");
    assert_eq!(NotificationService::new(2).repository, 2);
    assert_eq!(TarifaService::new(3).tarifa_repository, 3);
    assert!(matches!(UserListScope::HotelScope { id_hotel: 4 }, UserListScope::HotelScope { id_hotel: 4 }));
}
