use turismo_core::chat::{forma_de_nota, ubicar_nota, AccionNota, Autor, ErrorNota, FormaNota, NotaGuardada};

fn nota(id: Option<&str>, usuario: Option<i64>) -> NotaGuardada {
    NotaGuardada { note_id: id.map(|s| s.to_string()), user_id: usuario }
}

fn autor(id: i32, admin: bool) -> Option<Autor> {
    Some(Autor { user_id: id, username: "ana".to_string(), is_admin: admin })
}

#[test]
fn nota_vacia_no_se_guarda() {
    assert!(forma_de_nota("").is_none());
    assert!(forma_de_nota("   \n\t ").is_none());
}

#[test]
fn nota_objeto_se_guarda_tal_cual() {
    match forma_de_nota("  {\"nota\": \"hola\", \"x\": 1}  ") {
        Some(FormaNota::Objeto(t)) => assert_eq!(t, "{\"nota\": \"hola\", \"x\": 1}"),
        otra => panic!("forma inesperada: {:?}", otra),
    }
}

#[test]
fn nota_valor_json_va_al_campo_nota() {
    match forma_de_nota(" 42 ") {
        Some(FormaNota::Valor(t)) => assert_eq!(t, "42"),
        otra => panic!("forma inesperada: {:?}", otra),
    }
    match forma_de_nota("\"hola\"") {
        Some(FormaNota::Valor(t)) => assert_eq!(t, "\"hola\""),
        otra => panic!("forma inesperada: {:?}", otra),
    }
    match forma_de_nota("null") {
        Some(FormaNota::Valor(t)) => assert_eq!(t, "null"),
        otra => panic!("forma inesperada: {:?}", otra),
    }
}

#[test]
fn nota_texto_va_al_campo_nota() {
    match forma_de_nota("  llamar al hotel mañana ") {
        Some(FormaNota::Texto(t)) => assert_eq!(t, "llamar al hotel mañana"),
        otra => panic!("forma inesperada: {:?}", otra),
    }
}

#[test]
fn notas_que_no_son_lista() {
    let r = ubicar_nota(&None, "n1", &autor(1, false), AccionNota::Editar);
    match r {
        Err(e) => {
            assert!(matches!(e, ErrorNota::NotasNoEncontradas));
            assert_eq!(e.mensaje(), "Notas no encontradas");
        }
        Ok(_) => panic!("debía fallar"),
    }
}

#[test]
fn nota_inexistente() {
    let notas = Some(vec![nota(Some("a"), Some(1)), nota(None, Some(1))]);
    match ubicar_nota(&notas, "b", &None, AccionNota::Eliminar) {
        Err(e) => assert_eq!(e.mensaje(), "Nota b no encontrada"),
        Ok(_) => panic!("debía fallar"),
    }
    match ubicar_nota(&Some(vec![]), "a", &None, AccionNota::Eliminar) {
        Err(e) => assert_eq!(e.mensaje(), "Nota a no encontrada"),
        Ok(_) => panic!("debía fallar"),
    }
}

#[test]
fn se_ubica_la_primera_nota_con_ese_id() {
    let notas = Some(vec![nota(None, Some(1)), nota(Some("x"), Some(7)), nota(Some("x"), Some(8))]);
    assert_eq!(ubicar_nota(&notas, "x", &autor(7, false), AccionNota::Editar).ok(), Some(1));
    assert_eq!(ubicar_nota(&notas, "x", &None, AccionNota::Editar).ok(), Some(1));
}

#[test]
fn nota_ajena_solo_la_toca_un_administrador() {
    let notas = Some(vec![nota(Some("x"), Some(7))]);
    match ubicar_nota(&notas, "x", &autor(9, false), AccionNota::Editar) {
        Err(e) => assert_eq!(e.mensaje(), "Solo puedes editar tus propias notas"),
        Ok(_) => panic!("debía fallar"),
    }
    match ubicar_nota(&notas, "x", &autor(9, false), AccionNota::Eliminar) {
        Err(e) => assert_eq!(e.mensaje(), "Solo puedes eliminar tus propias notas"),
        Ok(_) => panic!("debía fallar"),
    }
    assert_eq!(ubicar_nota(&notas, "x", &autor(9, true), AccionNota::Eliminar).ok(), Some(0));
    let sin_autor = Some(vec![nota(Some("x"), None)]);
    assert!(ubicar_nota(&sin_autor, "x", &autor(9, false), AccionNota::Editar).is_err());
}

#[test]
fn espacios_de_unicode_se_recortan() {
    match forma_de_nota("\u{3000}\u{a0}\u{2003}hola mundo\u{85}\u{2029}") {
        Some(FormaNota::Texto(t)) => assert_eq!(t, "hola mundo"),
        otra => panic!("forma inesperada: {:?}", otra),
    }
    assert!(forma_de_nota("\u{1680}\u{202f}\u{205f}\u{200a}\u{2028}\u{c}").is_none());
}
